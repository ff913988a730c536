//! What holds of a whole build of the servers.
use vstd::prelude::*;

use crate::services::options::{FrontendOptions, Platform, ServerKind, SqlServer};
use crate::services::plan::{GrpcBuilderPlan, HttpBuilderSource, ServerRequest, Services};
use crate::services::startup::{
    AwaitServer, AwaitToml, BuildAction, BuildCore, BuildError, ServerHandler,
};
use crate::tls::{TlsError, TlsOption};

verus! {

/// What comes of everything that a build may ask for.
pub ghost struct BuildAnswers<P: Platform> {
    pub formatted: Result<(String, FrontendOptions<P>), P::Failure>,
    pub addr: spec_fn(ServerKind) -> Result<P::Addr, P::Failure>,
    pub grpc_builder: Result<P::GrpcBuilder, P::Failure>,
    pub tls_config: spec_fn(SqlServer) -> Result<P::TlsConfig, TlsError>,
    pub watched: spec_fn(SqlServer) -> Result<(), TlsError>,
    pub server: spec_fn(ServerKind) -> P::Server,
}

impl<P: Platform> BuildAnswers<P> {
    /// Whether an action follows another one, once that is answered.
    pub open spec fn step(self, action: BuildAction<P>, next: BuildAction<P>) -> bool {
        match action {
            BuildAction::FormatToml(waiting) => waiting.leads_to(self.formatted, next),
            BuildAction::ParseAddr(waiting) => waiting.leads_to((self.addr)(waiting.kind), next),
            BuildAction::CreateGrpcBuilder(waiting) => waiting.leads_to(self.grpc_builder, next),
            BuildAction::LoadTls(waiting) => waiting.leads_to(
                (self.tls_config)(waiting.server),
                next,
            ),
            BuildAction::WatchTls(waiting) => waiting.leads_to((self.watched)(waiting.server), next),
            BuildAction::CreateServer(_, waiting) => waiting.leads_to(
                (self.server)(waiting.kind),
                next,
            ),
            BuildAction::Finish(_) => false,
        }
    }

    /// Whether these are the actions of a build of the services, from the start, each
    /// after the answer to the one before.
    pub open spec fn run(self, services: Services<P>, actions: Seq<BuildAction<P>>) -> bool {
        &&& actions.len() > 0
        &&& actions[0] == BuildAction::FormatToml((AwaitToml { services }))
        &&& forall|i: int|
            0 <= i < actions.len() - 1 ==> self.step(#[trigger] actions[i], actions[i + 1])
    }

    /// The server of a kind, and the address parsed for it.
    pub open spec fn handler(self, kind: ServerKind) -> ServerHandler<P> {
        ServerHandler { kind, server: (self.server)(kind), addr: (self.addr)(kind)->Ok_0 }
    }

    /// Whether everything that a server takes succeeds.
    pub open spec fn succeeds(self, services: Services<P>, kind: ServerKind) -> bool {
        &&& (self.addr)(kind) is Ok
        &&& match kind {
            ServerKind::Grpc => services.grpc_server_builder is Some || self.grpc_builder is Ok,
            ServerKind::Http => true,
            ServerKind::Sql(server) => (self.tls_config)(server) is Ok && (self.watched)(
                server,
            ) is Ok,
        }
    }

    /// Whether a server fails with this error: the one of the first thing it takes
    /// that fails.
    pub open spec fn fails(
        self,
        services: Services<P>,
        opts: FrontendOptions<P>,
        kind: ServerKind,
        error: BuildError<P>,
    ) -> bool {
        match (self.addr)(kind) {
            Err(failure) => error matches BuildError::ParseAddr { addr, error } && {
                &&& addr@ == opts.spec_addr(kind)
                &&& error == failure
            },
            Ok(_) => match kind {
                ServerKind::Grpc => services.grpc_server_builder is None && match self.grpc_builder {
                    Err(failure) => error == BuildError::<P>::InvalidTlsConfig { error: failure },
                    Ok(_) => false,
                },
                ServerKind::Http => false,
                ServerKind::Sql(server) => match (self.tls_config)(server) {
                    Err(cause) => error == BuildError::<P>::StartServer { cause },
                    Ok(_) => match (self.watched)(server) {
                        Err(cause) => error == BuildError::<P>::StartServer { cause },
                        Ok(_) => false,
                    },
                },
            },
        }
    }

    /// What a build ends with: every server of the options in order, each with its
    /// own address, if everything they take succeeds, and the error of the first
    /// server that fails otherwise.
    pub open spec fn outcome(
        self,
        services: Services<P>,
        res: Result<Vec<ServerHandler<P>>, BuildError<P>>,
    ) -> bool {
        match (self.formatted, res) {
            (Err(error), Err(err)) => err == BuildError::<P>::TomlFormat { error },
            (Err(_), Ok(_)) => false,
            (Ok((_, opts)), Ok(handlers)) => {
                &&& forall|i: int|
                    #![trigger opts.enabled_servers()[i]]
                    0 <= i < opts.enabled_servers().len() ==> self.succeeds(
                        services,
                        opts.enabled_servers()[i],
                    )
                &&& handlers@ == opts.enabled_servers().map_values(
                    |kind: ServerKind| self.handler(kind),
                )
            },
            (Ok((_, opts)), Err(error)) => exists|i: int|
                #![trigger opts.enabled_servers()[i]]
                {
                    &&& 0 <= i < opts.enabled_servers().len()
                    &&& self.fails(services, opts, opts.enabled_servers()[i], error)
                    &&& forall|j: int|
                        #![trigger opts.enabled_servers()[j]]
                        0 <= j < i ==> self.succeeds(services, opts.enabled_servers()[j])
                },
        }
    }

    /// Whether this is the server of a kind that the services and the options ask for:
    /// the gRPC and the HTTP server with the builder that was handed over, if one was,
    /// and the servers that speak SQL with the TLS configuration loaded for them.
    pub open spec fn plans(
        self,
        services: Services<P>,
        kind: ServerKind,
        request: ServerRequest<P>,
    ) -> bool {
        self.formatted matches Ok((toml, opts)) && match (kind, request) {
            (ServerKind::Grpc, ServerRequest::Grpc(plan)) => {
                &&& plan.builder == (match services.grpc_server_builder {
                    Some(builder) => builder,
                    None => self.grpc_builder->Ok_0,
                })
                &&& plan.layers@ == services.grpc_layers(opts)
            },
            (ServerKind::Http, ServerRequest::Http(plan)) => services.plans_http_server(
                opts,
                toml,
                plan,
            ),
            (ServerKind::Sql(server), request) => {
                &&& (self.tls_config)(server) is Ok
                &&& request == services.spec_sql_server(
                    opts,
                    server,
                    (self.tls_config)(server)->Ok_0,
                )
            },
            _ => false,
        }
    }

    /// The place of a server among those of the options.
    spec fn place(opts: FrontendOptions<P>, kind: ServerKind) -> int {
        match kind {
            ServerKind::Grpc => 0,
            ServerKind::Http => 1,
            ServerKind::Sql(SqlServer::Mysql) => 2,
            ServerKind::Sql(SqlServer::Postgres) => if opts.mysql.enable {
                3
            } else {
                2
            },
        }
    }

    /// A build that has come as far as this server.
    spec fn reached(self, services: Services<P>, core: BuildCore<P>, kind: ServerKind) -> bool {
        let servers = core.opts.enabled_servers();
        let place = Self::place(core.opts, kind);
        &&& self.formatted matches Ok((toml, opts)) && core.opts == opts && core.toml == toml
        &&& core.services.instance == services.instance
        &&& core.services.plugins == services.plugins
        &&& 0 <= place < servers.len()
        &&& servers[place] == kind
        &&& forall|j: int|
            #![trigger servers[j]]
            0 <= j < place ==> self.succeeds(services, servers[j])
        &&& core.handlers@ == servers.take(place).map_values(
            |kind: ServerKind| self.handler(kind),
        )
    }

    /// What holds of each action of a build.
    spec fn holds_at(self, services: Services<P>, action: BuildAction<P>) -> bool {
        match action {
            BuildAction::FormatToml(waiting) => waiting.services == services,
            BuildAction::ParseAddr(waiting) => {
                &&& self.reached(services, waiting.core, waiting.kind)
                &&& waiting.kind == ServerKind::Grpc
                    ==> waiting.core.services.grpc_server_builder == services.grpc_server_builder
                &&& waiting.kind == ServerKind::Grpc || waiting.kind == ServerKind::Http
                    ==> waiting.core.services.http_server_builder == services.http_server_builder
            },
            BuildAction::CreateGrpcBuilder(waiting) => {
                &&& self.reached(services, waiting.core, ServerKind::Grpc)
                &&& (self.addr)(ServerKind::Grpc) == Ok::<P::Addr, P::Failure>(waiting.addr)
                &&& services.grpc_server_builder is None
                &&& waiting.plan.settings == waiting.core.opts.grpc.settings
                &&& waiting.plan.tls == waiting.core.opts.grpc.tls
                &&& waiting.core.services.http_server_builder == services.http_server_builder
            },
            BuildAction::LoadTls(waiting) => {
                &&& self.reached(services, waiting.core, ServerKind::Sql(waiting.server))
                &&& (self.addr)(ServerKind::Sql(waiting.server)) == Ok::<P::Addr, P::Failure>(
                    waiting.addr,
                )
                &&& waiting.tls_option == waiting.core.opts.spec_sql_tls(waiting.server)
            },
            BuildAction::WatchTls(waiting) => {
                &&& self.reached(services, waiting.core, ServerKind::Sql(waiting.server))
                &&& (self.addr)(ServerKind::Sql(waiting.server)) == Ok::<P::Addr, P::Failure>(
                    waiting.addr,
                )
                &&& (self.tls_config)(waiting.server) == Ok::<P::TlsConfig, TlsError>(
                    waiting.tls_config,
                )
            },
            BuildAction::CreateServer(request, waiting) => {
                &&& self.plans(services, waiting.kind, request)
                &&& waiting.kind == ServerKind::Grpc
                    ==> waiting.core.services.http_server_builder == services.http_server_builder
                &&& self.reached(services, waiting.core, waiting.kind)
                &&& (self.addr)(waiting.kind) == Ok::<P::Addr, P::Failure>(waiting.addr)
                &&& self.succeeds(services, waiting.kind)
            },
            BuildAction::Finish(res) => self.outcome(services, res),
        }
    }

    proof fn lemma_next_place(opts: FrontendOptions<P>, kind: ServerKind)
        requires
            0 <= Self::place(opts, kind) < opts.enabled_servers().len(),
            opts.enabled_servers()[Self::place(opts, kind)] == kind,
        ensures
            match opts.spec_next_server(kind) {
                Some(next) => {
                    &&& Self::place(opts, next) == Self::place(opts, kind) + 1
                    &&& Self::place(opts, next) < opts.enabled_servers().len()
                    &&& opts.enabled_servers()[Self::place(opts, next)] == next
                },
                None => Self::place(opts, kind) + 1 == opts.enabled_servers().len(),
            },
    {
    }

    proof fn lemma_server_kept(
        self,
        services: Services<P>,
        core: BuildCore<P>,
        kind: ServerKind,
        handlers: Seq<ServerHandler<P>>,
    )
        requires
            self.reached(services, core, kind),
            self.succeeds(services, kind),
            handlers == core.handlers@.push(self.handler(kind)),
        ensures
            handlers == core.opts.enabled_servers().take(
                Self::place(core.opts, kind) + 1,
            ).map_values(|kind: ServerKind| self.handler(kind)),
            forall|j: int|
                #![trigger core.opts.enabled_servers()[j]]
                0 <= j < Self::place(core.opts, kind) + 1 ==> self.succeeds(
                    services,
                    core.opts.enabled_servers()[j],
                ),
    {
        let servers = core.opts.enabled_servers();
        let place = Self::place(core.opts, kind);
        assert(handlers =~= servers.take(place + 1).map_values(
            |kind: ServerKind| self.handler(kind),
        ));
    }

    #[verifier::rlimit(40)]
    proof fn lemma_step(
        self,
        services: Services<P>,
        action: BuildAction<P>,
        next: BuildAction<P>,
    )
        requires
            self.holds_at(services, action),
            self.step(action, next),
        ensures
            self.holds_at(services, next),
    {
        match action {
            BuildAction::FormatToml(waiting) => {
                if let BuildAction::ParseAddr(to) = next {
                    assert(to.core.handlers@ =~= to.core.opts.enabled_servers().take(
                        0,
                    ).map_values(|kind: ServerKind| self.handler(kind)));
                }
            },
            BuildAction::CreateServer(_, waiting) => {
                let opts = waiting.core.opts;
                let servers = opts.enabled_servers();
                let handlers = waiting.handlers_with((self.server)(waiting.kind));
                Self::lemma_next_place(opts, waiting.kind);
                self.lemma_server_kept(services, waiting.core, waiting.kind, handlers);
                assert(servers.take(servers.len() as int) =~= servers);
            },
            _ => {
                if let BuildAction::Finish(Err(error)) = next {
                    let (core, kind) = match action {
                        BuildAction::ParseAddr(waiting) => (waiting.core, waiting.kind),
                        BuildAction::CreateGrpcBuilder(waiting) => (waiting.core, ServerKind::Grpc),
                        BuildAction::LoadTls(waiting) => (
                            waiting.core,
                            ServerKind::Sql(waiting.server),
                        ),
                        BuildAction::WatchTls(waiting) => (
                            waiting.core,
                            ServerKind::Sql(waiting.server),
                        ),
                        _ => arbitrary(),
                    };
                    let servers = core.opts.enabled_servers();
                    let place = Self::place(core.opts, kind);
                    assert(self.fails(services, core.opts, servers[place], error));
                }
            },
        }
    }

    /// How far a build has come at an action.
    spec fn progress(action: BuildAction<P>) -> int {
        match action {
            BuildAction::FormatToml(_) => 0,
            BuildAction::ParseAddr(waiting) => 1 + 4 * Self::place(
                waiting.core.opts,
                waiting.kind,
            ),
            BuildAction::CreateGrpcBuilder(_) => 2,
            BuildAction::LoadTls(waiting) => 2 + 4 * Self::place(
                waiting.core.opts,
                ServerKind::Sql(waiting.server),
            ),
            BuildAction::WatchTls(waiting) => 3 + 4 * Self::place(
                waiting.core.opts,
                ServerKind::Sql(waiting.server),
            ),
            BuildAction::CreateServer(_, waiting) => 4 + 4 * Self::place(
                waiting.core.opts,
                waiting.kind,
            ),
            BuildAction::Finish(_) => 17,
        }
    }

    proof fn lemma_step_progress(
        self,
        services: Services<P>,
        action: BuildAction<P>,
        next: BuildAction<P>,
    )
        requires
            self.holds_at(services, action),
            self.step(action, next),
        ensures
            Self::progress(action) < Self::progress(next) <= 17,
    {
        match action {
            BuildAction::CreateServer(_, waiting) => {
                Self::lemma_next_place(waiting.core.opts, waiting.kind);
            },
            _ => {},
        }
    }

    proof fn lemma_progress(self, services: Services<P>, actions: Seq<BuildAction<P>>, i: int)
        requires
            self.run(services, actions),
            0 <= i < actions.len(),
        ensures
            i <= Self::progress(actions[i]) <= 17,
        decreases i,
    {
        if i > 0 {
            self.lemma_progress(services, actions, i - 1);
            self.lemma_run(services, actions, i - 1);
            assert(self.step(actions[i - 1], actions[i - 1 + 1]));
            self.lemma_step_progress(services, actions[i - 1], actions[i]);
        }
    }

    /// A build ends: whatever comes of its actions, there are not more than a few of
    /// them for each server.
    pub proof fn law_build_ends(self, services: Services<P>, actions: Seq<BuildAction<P>>)
        requires
            self.run(services, actions),
        ensures
            actions.len() <= 18,
    {
        self.lemma_progress(services, actions, actions.len() - 1);
    }

    /// A build of the services ends with the gRPC and the HTTP server, and with the
    /// MySQL and the PostgreSQL server if they are enabled, in this order and each
    /// with its own address, if everything they take succeeds. Otherwise it ends with
    /// the error of the first thing that failed.
    pub proof fn law_build_outcome(self, services: Services<P>, actions: Seq<BuildAction<P>>)
        requires
            self.run(services, actions),
        ensures
            actions.last() matches BuildAction::Finish(res) ==> self.outcome(services, res),
    {
        self.lemma_run(services, actions, actions.len() - 1);
    }

    /// Every server that a build creates is one that the options enable, and is made of
    /// what the services and the options ask for.
    pub proof fn law_servers_are_made_to_plan(
        self,
        services: Services<P>,
        actions: Seq<BuildAction<P>>,
        request: ServerRequest<P>,
        waiting: AwaitServer<P>,
    )
        requires
            self.run(services, actions),
            actions.last() == BuildAction::CreateServer(request, waiting),
        ensures
            self.plans(services, waiting.kind, request),
            self.formatted is Ok,
            self.formatted->Ok_0.1.enabled_servers().contains(waiting.kind),
    {
        self.lemma_run(services, actions, actions.len() - 1);
        let servers = waiting.core.opts.enabled_servers();
        assert(servers[Self::place(waiting.core.opts, waiting.kind)] == waiting.kind);
    }

    /// A builder of the gRPC server is made only where none was handed over, and of the
    /// settings and the TLS options of the gRPC section.
    pub proof fn law_grpc_builder_is_made_of_its_section(
        self,
        services: Services<P>,
        actions: Seq<BuildAction<P>>,
        plan: GrpcBuilderPlan<P>,
    )
        requires
            self.run(services, actions),
            actions.last() matches BuildAction::CreateGrpcBuilder(waiting) && waiting.plan == plan,
        ensures
            services.grpc_server_builder is None,
            self.formatted is Ok,
            plan.settings == self.formatted->Ok_0.1.grpc.settings,
            plan.tls == self.formatted->Ok_0.1.grpc.tls,
    {
        self.lemma_run(services, actions, actions.len() - 1);
    }

    /// The builder that was handed over last is the one that the gRPC server is made of.
    /// Handing it over changes nothing else.
    pub proof fn law_given_grpc_builder_is_used(
        self,
        services: Services<P>,
        builder: P::GrpcBuilder,
        actions: Seq<BuildAction<P>>,
    )
        requires
            self.run(services.given_grpc_builder(builder), actions),
        ensures
            !(actions.last() is CreateGrpcBuilder),
            actions.last() matches BuildAction::CreateServer(ServerRequest::Grpc(plan), _)
                ==> plan.builder == builder,
            services.given_grpc_builder(builder).opts == services.opts,
            services.given_grpc_builder(builder).instance == services.instance,
            services.given_grpc_builder(builder).http_server_builder
                == services.http_server_builder,
            services.given_grpc_builder(builder).plugins == services.plugins,
    {
        self.lemma_run(services.given_grpc_builder(builder), actions, actions.len() - 1);
    }

    /// The builder that was handed over last is the one that the HTTP server is made of.
    /// Handing it over changes nothing else.
    pub proof fn law_given_http_builder_is_used(
        self,
        services: Services<P>,
        builder: P::HttpBuilder,
        actions: Seq<BuildAction<P>>,
    )
        requires
            self.run(services.given_http_builder(builder), actions),
        ensures
            actions.last() matches BuildAction::CreateServer(ServerRequest::Http(plan), _)
                ==> plan.builder == HttpBuilderSource::<P>::Given(builder),
            services.given_http_builder(builder).opts == services.opts,
            services.given_http_builder(builder).instance == services.instance,
            services.given_http_builder(builder).grpc_server_builder
                == services.grpc_server_builder,
            services.given_http_builder(builder).plugins == services.plugins,
    {
        self.lemma_run(services.given_http_builder(builder), actions, actions.len() - 1);
    }

    /// A server that speaks SQL is created only after its address was parsed, its TLS
    /// configuration loaded, and that configuration watched, in this order and with
    /// nothing in between. It gets this address and this configuration.
    pub proof fn law_tls_comes_before_its_server(
        self,
        services: Services<P>,
        actions: Seq<BuildAction<P>>,
        server: SqlServer,
        i: int,
    )
        requires
            self.run(services, actions),
            0 <= i < actions.len(),
            actions[i] matches BuildAction::CreateServer(_, waiting) && waiting.kind
                == ServerKind::Sql(server),
        ensures
            i > 3,
            actions[i - 3] matches BuildAction::ParseAddr(waiting) && waiting.kind
                == ServerKind::Sql(server),
            actions[i - 2] matches BuildAction::LoadTls(waiting) && waiting.server == server,
            actions[i - 1] matches BuildAction::WatchTls(waiting) && waiting.server == server
                && (self.tls_config)(server) == Ok::<P::TlsConfig, TlsError>(waiting.tls_config),
            (self.watched)(server) is Ok,
            actions[i]->CreateServer_1.addr == (self.addr)(ServerKind::Sql(server))->Ok_0,
    {
        self.lemma_run(services, actions, i);
        self.lemma_before(services, actions, i);
        self.lemma_before(services, actions, i - 1);
        self.lemma_before(services, actions, i - 2);
        self.lemma_before(services, actions, i - 3);
    }

    /// What an action came after.
    proof fn lemma_before(self, services: Services<P>, actions: Seq<BuildAction<P>>, i: int)
        requires
            self.run(services, actions),
            0 <= i < actions.len(),
        ensures
            match actions[i] {
                BuildAction::CreateServer(_, waiting) => match waiting.kind {
                    ServerKind::Sql(server) => i > 0 && {
                        &&& actions[i - 1] matches BuildAction::WatchTls(before)
                        &&& before.server == server
                        &&& (self.tls_config)(server) == Ok::<P::TlsConfig, TlsError>(
                            before.tls_config,
                        )
                        &&& (self.watched)(server) is Ok
                    },
                    _ => true,
                },
                BuildAction::WatchTls(waiting) => i > 0 && {
                    &&& actions[i - 1] matches BuildAction::LoadTls(before)
                    &&& before.server == waiting.server
                },
                BuildAction::LoadTls(waiting) => i > 0 && {
                    &&& actions[i - 1] matches BuildAction::ParseAddr(before)
                    &&& before.kind == ServerKind::Sql(waiting.server)
                },
                BuildAction::ParseAddr(_) => i > 0,
                _ => true,
            },
    {
        if i > 0 {
            self.lemma_run(services, actions, i - 1);
            self.lemma_run(services, actions, i);
            assert(self.step(actions[i - 1], actions[i - 1 + 1]));
        }
    }

    proof fn lemma_rising(self, services: Services<P>, actions: Seq<BuildAction<P>>, i: int, j: int)
        requires
            self.run(services, actions),
            0 <= i < j < actions.len(),
        ensures
            Self::progress(actions[i]) < Self::progress(actions[j]),
        decreases j,
    {
        if i < j - 1 {
            self.lemma_rising(services, actions, i, j - 1);
        }
        self.lemma_run(services, actions, j - 1);
        assert(self.step(actions[j - 1], actions[j - 1 + 1]));
        self.lemma_step_progress(services, actions[j - 1], actions[j]);
    }

    /// No server is created twice.
    pub proof fn law_no_server_is_created_twice(
        self,
        services: Services<P>,
        actions: Seq<BuildAction<P>>,
        i: int,
        j: int,
    )
        requires
            self.run(services, actions),
            0 <= i < j < actions.len(),
            actions[i] is CreateServer,
            actions[j] is CreateServer,
        ensures
            actions[i]->CreateServer_1.kind != actions[j]->CreateServer_1.kind,
    {
        self.lemma_rising(services, actions, i, j);
        self.lemma_run(services, actions, i);
        self.lemma_run(services, actions, j);
    }

    /// The TLS configuration that a build loads is the one of the server it loads it
    /// for, and that server is enabled.
    pub proof fn law_each_server_loads_its_tls(
        self,
        services: Services<P>,
        actions: Seq<BuildAction<P>>,
        server: SqlServer,
        tls_option: TlsOption,
    )
        requires
            self.run(services, actions),
            actions.last() matches BuildAction::LoadTls(waiting) && {
                &&& waiting.server == server
                &&& waiting.tls_option == tls_option
            },
        ensures
            self.formatted is Ok,
            tls_option == self.formatted->Ok_0.1.spec_sql_tls(server),
            self.formatted->Ok_0.1.enabled_servers().contains(ServerKind::Sql(server)),
    {
        self.lemma_run(services, actions, actions.len() - 1);
        let opts = self.formatted->Ok_0.1;
        let kind = ServerKind::Sql(server);
        assert(opts.enabled_servers()[Self::place(opts, kind)] == kind);
    }

    proof fn lemma_run(self, services: Services<P>, actions: Seq<BuildAction<P>>, i: int)
        requires
            self.run(services, actions),
            0 <= i < actions.len(),
        ensures
            self.holds_at(services, actions[i]),
        decreases i,
    {
        if i > 0 {
            self.lemma_run(services, actions, i - 1);
            assert(self.step(actions[i - 1], actions[i - 1 + 1]));
            self.lemma_step(services, actions[i - 1], actions[i]);
        }
    }
}

} // verus!
