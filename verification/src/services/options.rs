//! What a frontend is configured with.
use std::sync::Arc;
use std::time::Duration;

use vstd::prelude::*;

use crate::tls::TlsOption;

verus! {

/// The types of the database around the frontend. The frontend hands values of
/// them on and never looks inside.
pub trait Platform: Sized {
    /// The configuration as the user wrote it.
    type Options;

    /// The query engine behind the servers.
    type Instance;

    /// A gRPC server in the making.
    type GrpcBuilder;

    /// An HTTP server in the making.
    type HttpBuilder;

    /// The settings of a gRPC server that only the server reads.
    type GrpcSettings;

    /// The settings of an HTTP server that only the server reads.
    type HttpSettings;

    /// The settings of the client of the metadata service.
    type MetaClient;

    /// How Arrow Flight data is compressed.
    type FlightCompression: Copy;

    /// How strictly the texts of Prometheus requests are checked.
    type PromValidationMode: Copy;

    /// Who may connect.
    type UserProvider;

    /// What checks logs before they are ingested.
    type LogValidator;

    /// What sees logs while they are ingested.
    type LogIngestInterceptor;

    /// The plugins that the frontend does not look for itself.
    type OtherPlugins;

    /// A socket address.
    type Addr;

    /// A server that is ready to start.
    type Server;

    /// A loaded TLS configuration, shared between a server and its watcher.
    type TlsConfig;

    /// Why something outside the frontend failed.
    type Failure;
}

/// The number of whole seconds in a duration.
pub uninterp spec fn whole_seconds(duration: Duration) -> u64;

/// `std::time::Duration::as_secs`. It returns the number of whole seconds, named
/// `whole_seconds`, and leaves the fraction of a second out.
pub assume_specification[ std::time::Duration::as_secs ](duration: &std::time::Duration) -> (secs:
    u64)
    ensures
        secs == whole_seconds(*duration),
;

/// The gRPC section of the options.
pub struct GrpcOptions<P: Platform> {
    pub bind_addr: String,
    pub tls: TlsOption,
    pub flight_compression: P::FlightCompression,
    pub settings: Arc<P::GrpcSettings>,
}

/// The HTTP section of the options.
pub struct HttpOptions<P: Platform> {
    pub addr: String,
    pub prom_validation_mode: P::PromValidationMode,
    pub settings: Arc<P::HttpSettings>,
}

/// The MySQL section of the options.
#[derive(Debug)]
pub struct MysqlOptions {
    pub enable: bool,
    pub addr: String,
    pub tls: TlsOption,
    pub keep_alive: Duration,
    pub reject_no_database: Option<bool>,
}

/// The PostgreSQL section of the options.
#[derive(Debug)]
pub struct PostgresOptions {
    pub enable: bool,
    pub addr: String,
    pub tls: TlsOption,
    pub keep_alive: Duration,
}

/// The section of a protocol that is served over HTTP, and is on or off.
#[derive(Debug, Clone, Copy, PartialEq, Eq, Structural)]
pub struct ProtocolOptions {
    pub enable: bool,
}

/// The section of the Prometheus remote storage protocol.
#[derive(Debug, Clone, Copy, PartialEq, Eq, Structural)]
pub struct PromStoreOptions {
    pub enable: bool,
    pub with_metric_engine: bool,
}

/// The options of a frontend.
pub struct FrontendOptions<P: Platform> {
    pub grpc: GrpcOptions<P>,
    pub http: HttpOptions<P>,
    pub mysql: MysqlOptions,
    pub postgres: PostgresOptions,
    pub opentsdb: ProtocolOptions,
    pub influxdb: ProtocolOptions,
    pub prom_store: PromStoreOptions,
    pub otlp: ProtocolOptions,
    pub jaeger: ProtocolOptions,
    /// Present in distributed mode, absent in standalone mode.
    pub meta_client: Option<P::MetaClient>,
}

/// The plugins of a frontend: those that it looks for, and all others, which it hands
/// on.
pub struct Plugins<P: Platform> {
    pub user_provider: Option<Arc<P::UserProvider>>,
    pub log_validator: Option<Arc<P::LogValidator>>,
    pub log_ingest_interceptor: Option<Arc<P::LogIngestInterceptor>>,
    pub others: Arc<P::OtherPlugins>,
}

/// A server that speaks SQL over its own protocol.
#[derive(Debug, Clone, Copy, PartialEq, Eq, Structural)]
pub enum SqlServer {
    Mysql,
    Postgres,
}

/// A server of a frontend.
#[derive(Debug, Clone, Copy, PartialEq, Eq, Structural)]
pub enum ServerKind {
    Grpc,
    Http,
    Sql(SqlServer),
}

/// Another handle to a shared value that may be absent.
pub(crate) fn share<T>(value: &Option<Arc<T>>) -> (shared: Option<Arc<T>>)
    ensures
        shared == *value,
{
    match value {
        Some(value) => Some(value.clone()),
        None => None,
    }
}

impl<P: Platform> Clone for Plugins<P> {
    fn clone(&self) -> (plugins: Self)
        ensures
            plugins == *self,
    {
        Plugins {
            user_provider: share(&self.user_provider),
            log_validator: share(&self.log_validator),
            log_ingest_interceptor: share(&self.log_ingest_interceptor),
            others: self.others.clone(),
        }
    }
}

impl<P: Platform> FrontendOptions<P> {
    /// The text of the address that a server listens on.
    pub open spec fn spec_addr(self, kind: ServerKind) -> Seq<char> {
        match kind {
            ServerKind::Grpc => self.grpc.bind_addr@,
            ServerKind::Http => self.http.addr@,
            ServerKind::Sql(SqlServer::Mysql) => self.mysql.addr@,
            ServerKind::Sql(SqlServer::Postgres) => self.postgres.addr@,
        }
    }

    /// The text of the address that a server listens on.
    pub fn addr(&self, kind: ServerKind) -> (addr: &str)
        ensures
            addr@ == self.spec_addr(kind),
    {
        match kind {
            ServerKind::Grpc => self.grpc.bind_addr.as_str(),
            ServerKind::Http => self.http.addr.as_str(),
            ServerKind::Sql(SqlServer::Mysql) => self.mysql.addr.as_str(),
            ServerKind::Sql(SqlServer::Postgres) => self.postgres.addr.as_str(),
        }
    }

    /// The TLS section of a server that speaks SQL.
    pub open spec fn spec_sql_tls(self, server: SqlServer) -> TlsOption {
        match server {
            SqlServer::Mysql => self.mysql.tls,
            SqlServer::Postgres => self.postgres.tls,
        }
    }

    /// The TLS section of a server that speaks SQL.
    pub fn sql_tls(&self, server: SqlServer) -> (tls: &TlsOption)
        ensures
            *tls == self.spec_sql_tls(server),
    {
        match server {
            SqlServer::Mysql => &self.mysql.tls,
            SqlServer::Postgres => &self.postgres.tls,
        }
    }

    /// The servers of a frontend with these options, in the order of start-up. The
    /// gRPC and the HTTP server are always there.
    pub open spec fn enabled_servers(self) -> Seq<ServerKind> {
        seq![ServerKind::Grpc, ServerKind::Http]
            + (if self.mysql.enable { seq![ServerKind::Sql(SqlServer::Mysql)] } else { seq![] })
            + (if self.postgres.enable { seq![ServerKind::Sql(SqlServer::Postgres)] } else { seq![] })
    }

    /// The server that is put together after another one.
    pub open spec fn spec_next_server(self, done: ServerKind) -> Option<ServerKind> {
        let postgres = if self.postgres.enable {
            Some(ServerKind::Sql(SqlServer::Postgres))
        } else {
            None
        };
        match done {
            ServerKind::Grpc => Some(ServerKind::Http),
            ServerKind::Http => if self.mysql.enable {
                Some(ServerKind::Sql(SqlServer::Mysql))
            } else {
                postgres
            },
            ServerKind::Sql(SqlServer::Mysql) => postgres,
            ServerKind::Sql(SqlServer::Postgres) => None,
        }
    }

    /// The server that is put together after another one.
    pub fn next_server(&self, done: ServerKind) -> (next: Option<ServerKind>)
        ensures
            next == self.spec_next_server(done),
    {
        match done {
            ServerKind::Grpc => Some(ServerKind::Http),
            ServerKind::Http if self.mysql.enable => Some(ServerKind::Sql(SqlServer::Mysql)),
            ServerKind::Sql(SqlServer::Postgres) => None,
            _ => if self.postgres.enable {
                Some(ServerKind::Sql(SqlServer::Postgres))
            } else {
                None
            },
        }
    }
}

} // verus!
