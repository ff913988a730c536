//! What each server of a frontend is made of.
use std::sync::Arc;

use vstd::prelude::*;

use crate::services::options::{
    share, FrontendOptions, GrpcOptions, MysqlOptions, Platform, Plugins, PostgresOptions,
    SqlServer,
};
use crate::tls::TlsOption;

verus! {

/// The servers of a frontend that are still to be built.
pub struct Services<P: Platform> {
    pub opts: P::Options,
    pub instance: Arc<P::Instance>,
    pub grpc_server_builder: Option<P::GrpcBuilder>,
    pub http_server_builder: Option<P::HttpBuilder>,
    pub plugins: Plugins<P>,
}

/// How a builder of a gRPC server is made. It runs on the global runtime.
pub struct GrpcBuilderPlan<P: Platform> {
    pub settings: Arc<P::GrpcSettings>,
    pub tls: TlsOption,
}

/// Where the builder of a gRPC server comes from.
pub enum GrpcBuilderSource<P: Platform> {
    /// It was handed over.
    Given(P::GrpcBuilder),
    /// It has to be made.
    Create(GrpcBuilderPlan<P>),
}

/// What answers the requests to a gRPC server.
pub struct RequestHandler<P: Platform> {
    pub instance: Arc<P::Instance>,
    pub user_provider: Option<Arc<P::UserProvider>>,
    /// Whether requests run on the runtime of the server builder, as in standalone
    /// mode, or where they arrive.
    pub on_builder_runtime: bool,
    pub flight_compression: P::FlightCompression,
}

/// A part that is added to a gRPC server.
pub enum GrpcLayer<P: Platform> {
    Database(RequestHandler<P>),
    Prometheus {
        instance: Arc<P::Instance>,
        user_provider: Option<Arc<P::UserProvider>>,
    },
    OtelArrow(Arc<P::Instance>),
    Flight(RequestHandler<P>),
    /// Answers with the process manager of the instance.
    Frontend(Arc<P::Instance>),
}

/// A gRPC server: a builder, and the parts added to it in order.
pub struct GrpcServerPlan<P: Platform> {
    pub builder: P::GrpcBuilder,
    pub layers: Vec<GrpcLayer<P>>,
}

/// A part that is added to an HTTP server.
pub enum HttpLayer<P: Platform> {
    Sql(Arc<P::Instance>),
    LogIngest {
        instance: Arc<P::Instance>,
        validator: Option<Arc<P::LogValidator>>,
        interceptor: Option<Arc<P::LogIngestInterceptor>>,
    },
    Logs(Arc<P::Instance>),
    UserProvider(Arc<P::UserProvider>),
    Opentsdb(Arc<P::Instance>),
    Influxdb(Arc<P::Instance>),
    Prom {
        instance: Arc<P::Instance>,
        pipeline: Option<Arc<P::Instance>>,
        with_metric_engine: bool,
        validation_mode: P::PromValidationMode,
    },
    Prometheus(Arc<P::Instance>),
    Otlp(Arc<P::Instance>),
    Jaeger(Arc<P::Instance>),
    Metrics,
    Plugins(Plugins<P>),
    GreptimeConfigOptions(String),
}

/// How a builder of an HTTP server is made: its settings, and the parts added to
/// it in order.
pub struct HttpBuilderPlan<P: Platform> {
    pub settings: Arc<P::HttpSettings>,
    pub layers: Vec<HttpLayer<P>>,
}

/// Where the builder of an HTTP server comes from.
pub enum HttpBuilderSource<P: Platform> {
    /// It was handed over.
    Given(P::HttpBuilder),
    /// It has to be made.
    Create(HttpBuilderPlan<P>),
}

/// An HTTP server: a builder, and the parts added to it in order.
pub struct HttpServerPlan<P: Platform> {
    pub builder: HttpBuilderSource<P>,
    pub layers: Vec<HttpLayer<P>>,
}

/// A MySQL server. It runs on the global runtime, with the process manager of the
/// instance.
pub struct MysqlServerPlan<P: Platform> {
    pub instance: Arc<P::Instance>,
    pub user_provider: Option<Arc<P::UserProvider>>,
    pub force_tls: bool,
    pub tls_config: P::TlsConfig,
    pub keep_alive_secs: u64,
    pub reject_no_database: bool,
}

/// A PostgreSQL server. It runs on the global runtime, with the process manager
/// of the instance.
pub struct PostgresServerPlan<P: Platform> {
    pub instance: Arc<P::Instance>,
    pub user_provider: Option<Arc<P::UserProvider>>,
    pub force_tls: bool,
    pub tls_config: P::TlsConfig,
    pub keep_alive_secs: u64,
}

/// A server to create.
pub enum ServerRequest<P: Platform> {
    Grpc(GrpcServerPlan<P>),
    Http(HttpServerPlan<P>),
    Mysql(MysqlServerPlan<P>),
    Postgres(PostgresServerPlan<P>),
}

/// A sequence that is there on a condition.
pub open spec fn seq_if<T>(condition: bool, items: Seq<T>) -> Seq<T> {
    if condition {
        items
    } else {
        Seq::empty()
    }
}

impl<P: Platform> Services<P> {
    /// The services of these options, instance and plugins, with no builder handed over.
    pub open spec fn fresh(
        opts: P::Options,
        instance: Arc<P::Instance>,
        plugins: Plugins<P>,
    ) -> Services<P> {
        Services { opts, instance, grpc_server_builder: None, http_server_builder: None, plugins }
    }

    /// Services with nothing built yet, and no builder handed over.
    pub fn new(opts: P::Options, instance: Arc<P::Instance>, plugins: Plugins<P>) -> (services: Self)
        ensures
            services == (Services {
                opts,
                instance,
                grpc_server_builder: None,
                http_server_builder: None,
                plugins,
            }),
            services == Self::fresh(opts, instance, plugins),
    {
        Services {
            opts,
            instance,
            grpc_server_builder: None,
            http_server_builder: None,
            plugins,
        }
    }

    /// The same services with a builder of the gRPC server handed over.
    pub open spec fn given_grpc_builder(self, builder: P::GrpcBuilder) -> Services<P> {
        Services { grpc_server_builder: Some(builder), ..self }
    }

    /// The same services with a builder of the HTTP server handed over.
    pub open spec fn given_http_builder(self, builder: P::HttpBuilder) -> Services<P> {
        Services { http_server_builder: Some(builder), ..self }
    }

    /// Hands over the builder of the gRPC server.
    pub fn with_grpc_server_builder(self, builder: P::GrpcBuilder) -> (services: Self)
        ensures
            services == (Services { grpc_server_builder: Some(builder), ..self }),
            services == self.given_grpc_builder(builder),
    {
        Services {
            opts: self.opts,
            instance: self.instance,
            grpc_server_builder: Some(builder),
            http_server_builder: self.http_server_builder,
            plugins: self.plugins,
        }
    }

    /// Hands over the builder of the HTTP server.
    pub fn with_http_server_builder(self, builder: P::HttpBuilder) -> (services: Self)
        ensures
            services == (Services { http_server_builder: Some(builder), ..self }),
            services == self.given_http_builder(builder),
    {
        Services {
            opts: self.opts,
            instance: self.instance,
            grpc_server_builder: self.grpc_server_builder,
            http_server_builder: Some(builder),
            plugins: self.plugins,
        }
    }

    /// How a builder of the gRPC server is made.
    pub fn grpc_server_builder(&self, opts: &GrpcOptions<P>) -> (plan: GrpcBuilderPlan<P>)
        ensures
            plan == (GrpcBuilderPlan::<P> { settings: opts.settings, tls: opts.tls }),
    {
        GrpcBuilderPlan { settings: opts.settings.clone(), tls: opts.tls.clone() }
    }

    /// The parts of an HTTP server that stand for the instance, in order.
    pub open spec fn http_builder_layers(self, opts: FrontendOptions<P>) -> Seq<HttpLayer<P>> {
        let instance = self.instance;
        seq![
            HttpLayer::Sql(instance),
            HttpLayer::LogIngest {
                instance,
                validator: self.plugins.log_validator,
                interceptor: self.plugins.log_ingest_interceptor,
            },
            HttpLayer::Logs(instance),
        ] + (match self.plugins.user_provider {
            Some(user_provider) => seq![HttpLayer::UserProvider(user_provider)],
            None => Seq::empty(),
        }) + seq_if(opts.opentsdb.enable, seq![HttpLayer::Opentsdb(instance)])
            + seq_if(opts.influxdb.enable, seq![HttpLayer::Influxdb(instance)])
            + seq_if(
                opts.prom_store.enable,
                seq![
                    HttpLayer::Prom {
                        instance,
                        pipeline: Some(instance),
                        with_metric_engine: opts.prom_store.with_metric_engine,
                        validation_mode: opts.http.prom_validation_mode,
                    },
                    HttpLayer::Prometheus(instance),
                ],
            ) + seq_if(opts.otlp.enable, seq![HttpLayer::Otlp(instance)])
            + seq_if(opts.jaeger.enable, seq![HttpLayer::Jaeger(instance)])
    }

    /// How a builder of the HTTP server is made. Logs and SQL are always served,
    /// each other protocol if it is enabled.
    pub fn http_server_builder(&self, opts: &FrontendOptions<P>) -> (plan: HttpBuilderPlan<P>)
        ensures
            plan.settings == opts.http.settings,
            plan.layers@ == self.http_builder_layers(*opts),
    {
        let mut layers: Vec<HttpLayer<P>> = Vec::new();
        layers.push(HttpLayer::Sql(self.instance.clone()));
        layers.push(HttpLayer::LogIngest {
            instance: self.instance.clone(),
            validator: share(&self.plugins.log_validator),
            interceptor: share(&self.plugins.log_ingest_interceptor),
        });
        layers.push(HttpLayer::Logs(self.instance.clone()));

        if let Some(user_provider) = &self.plugins.user_provider {
            layers.push(HttpLayer::UserProvider(user_provider.clone()));
        }
        if opts.opentsdb.enable {
            layers.push(HttpLayer::Opentsdb(self.instance.clone()));
        }
        if opts.influxdb.enable {
            layers.push(HttpLayer::Influxdb(self.instance.clone()));
        }
        if opts.prom_store.enable {
            layers.push(HttpLayer::Prom {
                instance: self.instance.clone(),
                pipeline: Some(self.instance.clone()),
                with_metric_engine: opts.prom_store.with_metric_engine,
                validation_mode: opts.http.prom_validation_mode,
            });
            layers.push(HttpLayer::Prometheus(self.instance.clone()));
        }
        if opts.otlp.enable {
            layers.push(HttpLayer::Otlp(self.instance.clone()));
        }
        if opts.jaeger.enable {
            layers.push(HttpLayer::Jaeger(self.instance.clone()));
        }
        HttpBuilderPlan { settings: opts.http.settings.clone(), layers }
    }

    /// The builder of the gRPC server: the one that was handed over, if there is
    /// one, or else one to be made.
    pub fn take_grpc_builder(&mut self, opts: &FrontendOptions<P>) -> (source: GrpcBuilderSource<P>)
        ensures
            *final(self) == (Services { grpc_server_builder: None, ..*old(self) }),
            source == (match old(self).grpc_server_builder {
                Some(builder) => GrpcBuilderSource::<P>::Given(builder),
                None => GrpcBuilderSource::Create(
                    (GrpcBuilderPlan { settings: opts.grpc.settings, tls: opts.grpc.tls }),
                ),
            }),
    {
        match self.grpc_server_builder.take() {
            Some(builder) => GrpcBuilderSource::Given(builder),
            None => GrpcBuilderSource::Create(self.grpc_server_builder(&opts.grpc)),
        }
    }

    /// What answers the requests to the gRPC server. Without a client of the
    /// metadata service the frontend is in standalone mode.
    pub open spec fn request_handler(self, opts: FrontendOptions<P>) -> RequestHandler<P> {
        RequestHandler {
            instance: self.instance,
            user_provider: self.plugins.user_provider,
            on_builder_runtime: opts.meta_client is None,
            flight_compression: opts.grpc.flight_compression,
        }
    }

    fn make_request_handler(&self, opts: &FrontendOptions<P>) -> (handler: RequestHandler<P>)
        ensures
            handler == self.request_handler(*opts),
    {
        RequestHandler {
            instance: self.instance.clone(),
            user_provider: share(&self.plugins.user_provider),
            on_builder_runtime: opts.meta_client.is_none(),
            flight_compression: opts.grpc.flight_compression,
        }
    }

    /// The parts of the gRPC server, in order.
    pub open spec fn grpc_layers(self, opts: FrontendOptions<P>) -> Seq<GrpcLayer<P>> {
        seq![
            GrpcLayer::Database(self.request_handler(opts)),
            GrpcLayer::Prometheus {
                instance: self.instance,
                user_provider: self.plugins.user_provider,
            },
            GrpcLayer::OtelArrow(self.instance),
            GrpcLayer::Flight(self.request_handler(opts)),
            GrpcLayer::Frontend(self.instance),
        ]
    }

    /// The gRPC server that is made of a builder.
    pub fn build_grpc_server(&self, builder: P::GrpcBuilder, opts: &FrontendOptions<P>) -> (plan:
        GrpcServerPlan<P>)
        ensures
            plan.builder == builder,
            plan.layers@ == self.grpc_layers(*opts),
    {
        let mut layers: Vec<GrpcLayer<P>> = Vec::new();
        layers.push(GrpcLayer::Database(self.make_request_handler(opts)));
        layers.push(GrpcLayer::Prometheus {
            instance: self.instance.clone(),
            user_provider: share(&self.plugins.user_provider),
        });
        layers.push(GrpcLayer::OtelArrow(self.instance.clone()));
        layers.push(GrpcLayer::Flight(self.make_request_handler(opts)));
        layers.push(GrpcLayer::Frontend(self.instance.clone()));
        GrpcServerPlan { builder, layers }
    }

    /// Whether a plan is the one of the HTTP server that shows these options as
    /// TOML: the builder that was handed over, if there is one, or else one for the
    /// options, then the parts that every HTTP server has.
    pub open spec fn plans_http_server(
        self,
        opts: FrontendOptions<P>,
        toml: String,
        plan: HttpServerPlan<P>,
    ) -> bool {
        &&& match self.http_server_builder {
            Some(builder) => plan.builder == HttpBuilderSource::<P>::Given(builder),
            None => plan.builder matches HttpBuilderSource::Create(created) && {
                &&& created.settings == opts.http.settings
                &&& created.layers@ == self.http_builder_layers(opts)
            },
        }
        &&& plan.layers@ == seq![
            HttpLayer::<P>::Metrics,
            HttpLayer::Plugins(self.plugins),
            HttpLayer::GreptimeConfigOptions(toml),
        ]
    }

    /// The HTTP server, which shows the options as TOML.
    pub fn build_http_server(&mut self, opts: &FrontendOptions<P>, toml: String) -> (plan:
        HttpServerPlan<P>)
        ensures
            *final(self) == (Services { http_server_builder: None, ..*old(self) }),
            old(self).plans_http_server(*opts, toml, plan),
    {
        let builder = match self.http_server_builder.take() {
            Some(builder) => HttpBuilderSource::Given(builder),
            None => HttpBuilderSource::Create(self.http_server_builder(opts)),
        };

        let mut layers: Vec<HttpLayer<P>> = Vec::new();
        layers.push(HttpLayer::Metrics);
        layers.push(HttpLayer::Plugins(self.plugins.clone()));
        layers.push(HttpLayer::GreptimeConfigOptions(toml));
        assert(layers@ =~= seq![
            HttpLayer::<P>::Metrics,
            HttpLayer::Plugins(self.plugins),
            HttpLayer::GreptimeConfigOptions(toml),
        ]);
        HttpServerPlan { builder, layers }
    }

    /// The MySQL server of these options with a loaded TLS configuration.
    pub fn mysql_server(&self, opts: &MysqlOptions, tls_config: P::TlsConfig) -> (plan:
        MysqlServerPlan<P>)
        ensures
            plan == self.spec_mysql_server(*opts, tls_config),
    {
        MysqlServerPlan {
            instance: self.instance.clone(),
            user_provider: share(&self.plugins.user_provider),
            force_tls: opts.tls.should_force_tls(),
            tls_config,
            keep_alive_secs: opts.keep_alive.as_secs(),
            reject_no_database: opts.reject_no_database.unwrap_or(false),
        }
    }

    /// The MySQL server of these options with a loaded TLS configuration.
    pub open spec fn spec_mysql_server(
        self,
        opts: MysqlOptions,
        tls_config: P::TlsConfig,
    ) -> MysqlServerPlan<P> {
        MysqlServerPlan {
            instance: self.instance,
            user_provider: self.plugins.user_provider,
            force_tls: opts.tls@.forces_tls(),
            tls_config,
            keep_alive_secs: crate::services::options::whole_seconds(opts.keep_alive),
            reject_no_database: opts.reject_no_database == Some(true),
        }
    }

    /// The PostgreSQL server of these options with a loaded TLS configuration.
    pub fn postgres_server(&self, opts: &PostgresOptions, tls_config: P::TlsConfig) -> (plan:
        PostgresServerPlan<P>)
        ensures
            plan == self.spec_postgres_server(*opts, tls_config),
    {
        PostgresServerPlan {
            instance: self.instance.clone(),
            user_provider: share(&self.plugins.user_provider),
            force_tls: opts.tls.should_force_tls(),
            tls_config,
            keep_alive_secs: opts.keep_alive.as_secs(),
        }
    }

    /// The PostgreSQL server of these options with a loaded TLS configuration.
    pub open spec fn spec_postgres_server(
        self,
        opts: PostgresOptions,
        tls_config: P::TlsConfig,
    ) -> PostgresServerPlan<P> {
        PostgresServerPlan {
            instance: self.instance,
            user_provider: self.plugins.user_provider,
            force_tls: opts.tls@.forces_tls(),
            tls_config,
            keep_alive_secs: crate::services::options::whole_seconds(opts.keep_alive),
        }
    }

    /// The server that speaks SQL over a protocol, with a loaded TLS configuration.
    pub fn sql_server(
        &self,
        opts: &FrontendOptions<P>,
        server: SqlServer,
        tls_config: P::TlsConfig,
    ) -> (request: ServerRequest<P>)
        ensures
            request == self.spec_sql_server(*opts, server, tls_config),
    {
        match server {
            SqlServer::Mysql => ServerRequest::Mysql(self.mysql_server(&opts.mysql, tls_config)),
            SqlServer::Postgres => {
                ServerRequest::Postgres(self.postgres_server(&opts.postgres, tls_config))
            },
        }
    }

    /// The server that speaks SQL over a protocol, with a loaded TLS configuration.
    pub open spec fn spec_sql_server(
        self,
        opts: FrontendOptions<P>,
        server: SqlServer,
        tls_config: P::TlsConfig,
    ) -> ServerRequest<P> {
        match server {
            SqlServer::Mysql => ServerRequest::Mysql(
                self.spec_mysql_server(opts.mysql, tls_config),
            ),
            SqlServer::Postgres => ServerRequest::Postgres(
                self.spec_postgres_server(opts.postgres, tls_config),
            ),
        }
    }
}

} // verus!
