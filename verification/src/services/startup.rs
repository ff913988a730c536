//! Building the servers of a frontend, one after the other.
//!
//! Building takes work outside the frontend: formatting the options, parsing
//! addresses, loading TLS files, creating servers. Each step says what is to be
//! done next, and goes on with what came of it, until all servers are there or
//! one of them could not be built.
use vstd::prelude::*;

use crate::services::options::{FrontendOptions, Platform, ServerKind, SqlServer};
use crate::services::plan::{GrpcBuilderPlan, GrpcBuilderSource, ServerRequest, Services};
use crate::tls::{TlsError, TlsOption};

verus! {

/// Why the servers could not be built.
pub enum BuildError<P: Platform> {
    /// The options could not be formatted as TOML.
    TomlFormat { error: P::Failure },
    /// The text is not an address.
    ParseAddr { addr: String, error: P::Failure },
    /// The TLS options of the gRPC server are invalid.
    InvalidTlsConfig { error: P::Failure },
    /// The TLS files of a server could not be loaded or watched.
    StartServer { cause: TlsError },
}

/// A server that was built, and the address it will listen on.
pub struct ServerHandler<P: Platform> {
    pub kind: ServerKind,
    pub server: P::Server,
    pub addr: P::Addr,
}

/// What is known while the servers are built.
pub struct BuildCore<P: Platform> {
    pub services: Services<P>,
    pub opts: FrontendOptions<P>,
    pub toml: String,
    /// The servers built so far.
    pub handlers: Vec<ServerHandler<P>>,
}

/// What the building of the servers asks for next.
pub enum BuildAction<P: Platform> {
    /// Format the options as TOML, and turn them into the options of a frontend.
    FormatToml(AwaitToml<P>),
    /// Parse the address `AwaitAddr::addr`.
    ParseAddr(AwaitAddr<P>),
    /// Make the gRPC builder of `AwaitGrpcBuilder::plan`.
    CreateGrpcBuilder(AwaitGrpcBuilder<P>),
    /// Load the TLS configuration of `AwaitTls::tls_option`.
    LoadTls(AwaitTls<P>),
    /// Watch the files of `AwaitWatch::tls_config`, if its option says so.
    WatchTls(AwaitWatch<P>),
    /// Create a server.
    CreateServer(ServerRequest<P>, AwaitServer<P>),
    /// Building has ended.
    Finish(Result<Vec<ServerHandler<P>>, BuildError<P>>),
}

/// A build that waits for the options as TOML.
pub struct AwaitToml<P: Platform> {
    pub services: Services<P>,
}

/// A build that waits for the address of a server.
pub struct AwaitAddr<P: Platform> {
    pub core: BuildCore<P>,
    pub kind: ServerKind,
}

/// A build that waits for the builder of the gRPC server.
pub struct AwaitGrpcBuilder<P: Platform> {
    pub core: BuildCore<P>,
    pub addr: P::Addr,
    pub plan: GrpcBuilderPlan<P>,
}

/// A build that waits for the TLS configuration of a server.
pub struct AwaitTls<P: Platform> {
    pub core: BuildCore<P>,
    pub server: SqlServer,
    pub addr: P::Addr,
    pub tls_option: TlsOption,
}

/// A build that waits for the watching of a TLS configuration.
pub struct AwaitWatch<P: Platform> {
    pub core: BuildCore<P>,
    pub server: SqlServer,
    pub addr: P::Addr,
    pub tls_config: P::TlsConfig,
}

/// A build that waits for a server.
pub struct AwaitServer<P: Platform> {
    pub core: BuildCore<P>,
    pub kind: ServerKind,
    pub addr: P::Addr,
}

/// The action of a failed build.
pub open spec fn failed<P: Platform>(action: BuildAction<P>, error: BuildError<P>) -> bool {
    action == BuildAction::<P>::Finish(Err(error))
}

/// Gives an address that could not be parsed its error.
pub fn parse_addr<P: Platform>(addr: &str, parsed: Result<P::Addr, P::Failure>) -> (res: Result<
    P::Addr,
    BuildError<P>,
>)
    ensures
        match parsed {
            Ok(parsed) => res == Ok::<P::Addr, BuildError<P>>(parsed),
            Err(failure) => res matches Err(BuildError::ParseAddr { addr: text, error }) && {
                &&& text@ == addr@
                &&& error == failure
            },
        },
{
    match parsed {
        Ok(parsed) => Ok(parsed),
        Err(error) => Err(BuildError::ParseAddr { addr: addr.to_owned(), error }),
    }
}

impl<P: Platform> Services<P> {
    /// Starts to build the servers.
    pub fn build(self) -> (action: BuildAction<P>)
        ensures
            action == BuildAction::<P>::FormatToml((AwaitToml { services: self })),
    {
        BuildAction::FormatToml(AwaitToml { services: self })
    }
}

impl<P: Platform> BuildCore<P> {
    /// The same, with these servers built so far.
    pub open spec fn with_handlers(self, new: BuildCore<P>, handlers: Seq<ServerHandler<P>>) -> bool {
        &&& new.services == self.services
        &&& new.opts == self.opts
        &&& new.toml == self.toml
        &&& new.handlers@ == handlers
    }

    /// The same, with the gRPC builder taken out of the services.
    pub open spec fn without_grpc_builder(self) -> BuildCore<P> {
        BuildCore {
            services: Services { grpc_server_builder: None, ..self.services },
            ..self
        }
    }

    /// The same, with the HTTP builder taken out of the services.
    pub open spec fn without_http_builder(self) -> BuildCore<P> {
        BuildCore {
            services: Services { http_server_builder: None, ..self.services },
            ..self
        }
    }

    /// Whether an action is to create the gRPC server of this builder.
    pub open spec fn creates_grpc_server(
        self,
        builder: P::GrpcBuilder,
        addr: P::Addr,
        action: BuildAction<P>,
    ) -> bool {
        action matches BuildAction::CreateServer(ServerRequest::Grpc(plan), next) && {
            &&& plan.builder == builder
            &&& plan.layers@ == self.services.grpc_layers(self.opts)
            &&& next == (AwaitServer { core: self, kind: ServerKind::Grpc, addr })
        }
    }

    fn create_grpc_server(self, builder: P::GrpcBuilder, addr: P::Addr) -> (action: BuildAction<P>)
        ensures
            self.creates_grpc_server(builder, addr, action),
    {
        let plan = self.services.build_grpc_server(builder, &self.opts);
        BuildAction::CreateServer(
            ServerRequest::Grpc(plan),
            AwaitServer { core: self, kind: ServerKind::Grpc, addr },
        )
    }
}

impl<P: Platform> AwaitToml<P> {
    /// What comes of formatting the options: the gRPC server is the first.
    pub open spec fn leads_to(
        self,
        formatted: Result<(String, FrontendOptions<P>), P::Failure>,
        action: BuildAction<P>,
    ) -> bool {
        match formatted {
            Err(error) => failed(action, BuildError::TomlFormat { error }),
            Ok((toml, opts)) => action matches BuildAction::ParseAddr(next) && {
                &&& next.kind == ServerKind::Grpc
                &&& next.core.services == self.services
                &&& next.core.opts == opts
                &&& next.core.toml == toml
                &&& next.core.handlers@ == Seq::<ServerHandler<P>>::empty()
            },
        }
    }

    /// Goes on with the options as TOML and as options of a frontend.
    pub fn resume(self, formatted: Result<(String, FrontendOptions<P>), P::Failure>) -> (action:
        BuildAction<P>)
        ensures
            self.leads_to(formatted, action),
    {
        match formatted {
            Ok((toml, opts)) => {
                let core = BuildCore { services: self.services, opts, toml, handlers: Vec::new() };
                BuildAction::ParseAddr(AwaitAddr { core, kind: ServerKind::Grpc })
            },
            Err(error) => BuildAction::Finish(Err(BuildError::TomlFormat { error })),
        }
    }
}

impl<P: Platform> AwaitAddr<P> {
    /// What comes of parsing the address of a server.
    pub open spec fn leads_to(
        self,
        parsed: Result<P::Addr, P::Failure>,
        action: BuildAction<P>,
    ) -> bool {
        match parsed {
            Err(failure) => action matches BuildAction::Finish(
                Err(BuildError::ParseAddr { addr: text, error }),
            ) && {
                &&& text@ == self.core.opts.spec_addr(self.kind)
                &&& error == failure
            },
            Ok(addr) => match self.kind {
                ServerKind::Grpc => self.grpc_leads_to(addr, action),
                ServerKind::Http => action matches BuildAction::CreateServer(
                    ServerRequest::Http(plan),
                    next,
                ) && {
                    &&& self.core.services.plans_http_server(self.core.opts, self.core.toml, plan)
                    &&& next == (AwaitServer {
                        core: self.core.without_http_builder(),
                        kind: self.kind,
                        addr,
                    })
                },
                ServerKind::Sql(server) => action == BuildAction::LoadTls(
                    (AwaitTls {
                        core: self.core,
                        server,
                        addr,
                        tls_option: self.core.opts.spec_sql_tls(server),
                    }),
                ),
            },
        }
    }

    /// What comes of the address of the gRPC server: the server itself, where a
    /// builder was handed over, and the request for a builder otherwise.
    pub open spec fn grpc_leads_to(self, addr: P::Addr, action: BuildAction<P>) -> bool {
        let core = self.core.without_grpc_builder();
        match self.core.services.grpc_server_builder {
            Some(builder) => core.creates_grpc_server(builder, addr, action),
            None => action == BuildAction::CreateGrpcBuilder(
                (AwaitGrpcBuilder {
                    core,
                    addr,
                    plan: GrpcBuilderPlan {
                        settings: core.opts.grpc.settings,
                        tls: core.opts.grpc.tls,
                    },
                }),
            ),
        }
    }

    /// The text to parse.
    pub fn addr(&self) -> (addr: &str)
        ensures
            addr@ == self.core.opts.spec_addr(self.kind),
    {
        self.core.opts.addr(self.kind)
    }

    /// Goes on with the address.
    pub fn resume(self, parsed: Result<P::Addr, P::Failure>) -> (action: BuildAction<P>)
        ensures
            self.leads_to(parsed, action),
    {
        let addr = match parse_addr::<P>(self.addr(), parsed) {
            Ok(addr) => addr,
            Err(error) => return BuildAction::Finish(Err(error)),
        };
        let kind = self.kind;
        let mut core = self.core;
        match kind {
            ServerKind::Grpc => match core.services.take_grpc_builder(&core.opts) {
                GrpcBuilderSource::Given(builder) => core.create_grpc_server(builder, addr),
                GrpcBuilderSource::Create(plan) => {
                    BuildAction::CreateGrpcBuilder(AwaitGrpcBuilder { core, addr, plan })
                },
            },
            ServerKind::Http => {
                let toml = core.toml.clone();
                let plan = core.services.build_http_server(&core.opts, toml);
                BuildAction::CreateServer(
                    ServerRequest::Http(plan),
                    AwaitServer { core, kind, addr },
                )
            },
            ServerKind::Sql(server) => {
                let tls_option = core.opts.sql_tls(server).clone();
                BuildAction::LoadTls(AwaitTls { core, server, addr, tls_option })
            },
        }
    }
}

impl<P: Platform> AwaitGrpcBuilder<P> {
    /// What comes of making the builder of the gRPC server.
    pub open spec fn leads_to(
        self,
        builder: Result<P::GrpcBuilder, P::Failure>,
        action: BuildAction<P>,
    ) -> bool {
        match builder {
            Err(error) => failed(action, BuildError::InvalidTlsConfig { error }),
            Ok(builder) => self.core.creates_grpc_server(builder, self.addr, action),
        }
    }

    /// Goes on with the builder.
    pub fn resume(self, builder: Result<P::GrpcBuilder, P::Failure>) -> (action: BuildAction<P>)
        ensures
            self.leads_to(builder, action),
    {
        match builder {
            Ok(builder) => self.core.create_grpc_server(builder, self.addr),
            Err(error) => BuildAction::Finish(Err(BuildError::InvalidTlsConfig { error })),
        }
    }
}

impl<P: Platform> AwaitTls<P> {
    /// What comes of loading the TLS configuration of a server.
    pub open spec fn leads_to(
        self,
        loaded: Result<P::TlsConfig, TlsError>,
        action: BuildAction<P>,
    ) -> bool {
        match loaded {
            Err(cause) => failed(action, BuildError::StartServer { cause }),
            Ok(tls_config) => action == BuildAction::WatchTls(
                (AwaitWatch { core: self.core, server: self.server, addr: self.addr, tls_config }),
            ),
        }
    }

    /// Goes on with the TLS configuration.
    pub fn resume(self, loaded: Result<P::TlsConfig, TlsError>) -> (action: BuildAction<P>)
        ensures
            self.leads_to(loaded, action),
    {
        match loaded {
            Ok(tls_config) => BuildAction::WatchTls(
                AwaitWatch { core: self.core, server: self.server, addr: self.addr, tls_config },
            ),
            Err(cause) => BuildAction::Finish(Err(BuildError::StartServer { cause })),
        }
    }
}

impl<P: Platform> AwaitWatch<P> {
    /// What comes of watching the files of a TLS configuration.
    pub open spec fn leads_to(self, watched: Result<(), TlsError>, action: BuildAction<P>) -> bool {
        match watched {
            Err(cause) => failed(action, BuildError::StartServer { cause }),
            Ok(_) => action == BuildAction::CreateServer(
                self.core.services.spec_sql_server(self.core.opts, self.server, self.tls_config),
                (AwaitServer {
                    core: self.core,
                    kind: ServerKind::Sql(self.server),
                    addr: self.addr,
                }),
            ),
        }
    }

    /// Goes on once the files are watched, or need not be.
    pub fn resume(self, watched: Result<(), TlsError>) -> (action: BuildAction<P>)
        ensures
            self.leads_to(watched, action),
    {
        match watched {
            Ok(_) => {
                let core = self.core;
                let request = core.services.sql_server(&core.opts, self.server, self.tls_config);
                BuildAction::CreateServer(
                    request,
                    AwaitServer { core, kind: ServerKind::Sql(self.server), addr: self.addr },
                )
            },
            Err(cause) => BuildAction::Finish(Err(BuildError::StartServer { cause })),
        }
    }
}

impl<P: Platform> AwaitServer<P> {
    /// The servers built so far, with the new one.
    pub open spec fn handlers_with(self, server: P::Server) -> Seq<ServerHandler<P>> {
        self.core.handlers@.push(ServerHandler { kind: self.kind, server, addr: self.addr })
    }

    /// What comes of creating a server: it is kept with its address, and the next
    /// server of the options is built, or building ends.
    pub open spec fn leads_to(self, server: P::Server, action: BuildAction<P>) -> bool {
        let handlers = self.handlers_with(server);
        match self.core.opts.spec_next_server(self.kind) {
            Some(kind) => action matches BuildAction::ParseAddr(next) && {
                &&& next.kind == kind
                &&& self.core.with_handlers(next.core, handlers)
            },
            None => action matches BuildAction::Finish(Ok(all)) && all@ == handlers,
        }
    }

    /// Goes on with the server.
    pub fn resume(self, server: P::Server) -> (action: BuildAction<P>)
        ensures
            self.leads_to(server, action),
    {
        let mut core = self.core;
        core.handlers.push(ServerHandler { kind: self.kind, server, addr: self.addr });
        match core.opts.next_server(self.kind) {
            Some(kind) => BuildAction::ParseAddr(AwaitAddr { core, kind }),
            None => BuildAction::Finish(Ok(core.handlers)),
        }
    }
}

} // verus!
