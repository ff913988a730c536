//! What holds of the servers that are put together, each part and each setting on its
//! own.
use std::sync::Arc;

use vstd::prelude::*;

use crate::services::options;
use crate::services::options::{
    FrontendOptions, MysqlOptions, Platform, Plugins, PostgresOptions, ServerKind, SqlServer,
};
use crate::services::plan;
use crate::services::plan::{
    GrpcLayer, HttpBuilderSource, HttpLayer, HttpServerPlan, ServerRequest, Services,
};
use crate::tls::TlsMode;

verus! {

/// The place of a part in an HTTP server.
pub open spec fn http_place<P: Platform>(layer: HttpLayer<P>) -> int {
    match layer {
        HttpLayer::Sql(_) => 0,
        HttpLayer::LogIngest { .. } => 1,
        HttpLayer::Logs(_) => 2,
        HttpLayer::UserProvider(_) => 3,
        HttpLayer::Opentsdb(_) => 4,
        HttpLayer::Influxdb(_) => 5,
        HttpLayer::Prom { .. } => 6,
        HttpLayer::Prometheus(_) => 7,
        HttpLayer::Otlp(_) => 8,
        HttpLayer::Jaeger(_) => 9,
        HttpLayer::Metrics => 10,
        HttpLayer::Plugins(_) => 11,
        HttpLayer::GreptimeConfigOptions(_) => 12,
    }
}

/// Whether the places of parts rise, from the one and below the other.
pub open spec fn rises<P: Platform>(layers: Seq<HttpLayer<P>>, from: int, below: int) -> bool {
    &&& forall|i: int|
        0 <= i < layers.len() ==> from <= #[trigger] http_place(layers[i]) < below
    &&& forall|i: int, j: int|
        0 <= i < j < layers.len() ==> #[trigger] http_place(layers[i]) < #[trigger] http_place(
            layers[j],
        )
}

proof fn lemma_rises<P: Platform>(
    left: Seq<HttpLayer<P>>,
    right: Seq<HttpLayer<P>>,
    from: int,
    between: int,
    below: int,
)
    requires
        from <= between <= below,
        rises(left, from, between),
        rises(right, between, below),
    ensures
        rises(left + right, from, below),
{
    let all = left + right;
    assert forall|i: int| 0 <= i < all.len() implies from <= #[trigger] http_place(all[i]) < below by {
        if i < left.len() {
            assert(http_place(left[i]) < between);
        } else {
            assert(http_place(right[i - left.len()]) >= between);
        }
    }
    assert forall|i: int, j: int| 0 <= i < j < all.len() implies #[trigger] http_place(all[i])
        < #[trigger] http_place(all[j]) by {
        if j < left.len() {
            assert(http_place(left[i]) < http_place(left[j]));
        } else if i < left.len() {
            assert(http_place(left[i]) < between);
            assert(http_place(right[j - left.len()]) >= between);
        } else {
            assert(http_place(right[i - left.len()]) < http_place(right[j - left.len()]));
        }
    }
}

proof fn lemma_contains_either<T>(left: Seq<T>, right: Seq<T>, item: T)
    ensures
        (left + right).contains(item) <==> left.contains(item) || right.contains(item),
{
    let all = left + right;
    if all.contains(item) {
        let i = choose|i: int| 0 <= i < all.len() && all[i] == item;
        if i < left.len() {
            assert(left[i] == item);
        } else {
            assert(right[i - left.len()] == item);
        }
    }
    if left.contains(item) {
        let i = choose|i: int| 0 <= i < left.len() && left[i] == item;
        assert(all[i] == item);
    }
    if right.contains(item) {
        let i = choose|i: int| 0 <= i < right.len() && right[i] == item;
        assert(all[left.len() + i] == item);
    }
}

proof fn lemma_one<T>(one: T, item: T)
    ensures
        seq![one].contains(item) <==> one == item,
{
    assert(seq![one][0] == one);
}

proof fn lemma_two<T>(one: T, two: T, item: T)
    ensures
        seq![one, two].contains(item) <==> one == item || two == item,
{
    assert(seq![one, two][0] == one && seq![one, two][1] == two);
}

proof fn lemma_three<T>(one: T, two: T, three: T, item: T)
    ensures
        seq![one, two, three].contains(item) <==> one == item || two == item || three == item,
{
    let all = seq![one, two, three];
    assert(all[0] == one && all[1] == two && all[2] == three);
}

impl<P: Platform> Services<P> {
    /// Whether a part belongs to the HTTP server: SQL, the ingestion of logs and the logs
    /// always do, users if there is a provider of them, and each other protocol if its own
    /// flag is set. Every part stands for the instance.
    pub open spec fn belongs(self, opts: FrontendOptions<P>, layer: HttpLayer<P>) -> bool {
        match layer {
            HttpLayer::Sql(instance) => instance == self.instance,
            HttpLayer::LogIngest { instance, validator, interceptor } => {
                &&& instance == self.instance
                &&& validator == self.plugins.log_validator
                &&& interceptor == self.plugins.log_ingest_interceptor
            },
            HttpLayer::Logs(instance) => instance == self.instance,
            HttpLayer::UserProvider(provider) => self.plugins.user_provider == Some(provider),
            HttpLayer::Opentsdb(instance) => instance == self.instance && opts.opentsdb.enable,
            HttpLayer::Influxdb(instance) => instance == self.instance && opts.influxdb.enable,
            HttpLayer::Prom { instance, pipeline, with_metric_engine, validation_mode } => {
                &&& opts.prom_store.enable
                &&& instance == self.instance
                &&& pipeline == Some(self.instance)
                &&& with_metric_engine == opts.prom_store.with_metric_engine
                &&& validation_mode == opts.http.prom_validation_mode
            },
            HttpLayer::Prometheus(instance) => instance == self.instance && opts.prom_store.enable,
            HttpLayer::Otlp(instance) => instance == self.instance && opts.otlp.enable,
            HttpLayer::Jaeger(instance) => instance == self.instance && opts.jaeger.enable,
            HttpLayer::Metrics => false,
            HttpLayer::Plugins(_) => false,
            HttpLayer::GreptimeConfigOptions(_) => false,
        }
    }

    /// Services start with what they are given, and without a builder of their own. Two
    /// builders can be handed over in either order.
    pub proof fn law_fresh_services(
        opts: P::Options,
        instance: Arc<P::Instance>,
        plugins: Plugins<P>,
        grpc: P::GrpcBuilder,
        http: P::HttpBuilder,
    )
        ensures
            ({
                let services = Self::fresh(opts, instance, plugins);
                let both = services.given_grpc_builder(grpc).given_http_builder(http);
                &&& services.opts == opts
                &&& services.instance == instance
                &&& services.plugins == plugins
                &&& services.grpc_server_builder is None
                &&& services.http_server_builder is None
                &&& both == services.given_http_builder(http).given_grpc_builder(grpc)
                &&& both.grpc_server_builder == Some(grpc)
                &&& both.http_server_builder == Some(http)
                &&& both.instance == instance && both.plugins == plugins && both.opts == opts
            }),
    {
    }

    /// An HTTP server is made of exactly the parts that belong to it.
    pub proof fn law_http_parts_belong(self, opts: FrontendOptions<P>, layer: HttpLayer<P>)
        ensures
            self.http_builder_layers(opts).contains(layer) <==> self.belongs(opts, layer),
    {
        let instance = self.instance;
        let sql = HttpLayer::<P>::Sql(instance);
        let ingest = HttpLayer::<P>::LogIngest {
            instance,
            validator: self.plugins.log_validator,
            interceptor: self.plugins.log_ingest_interceptor,
        };
        let logs = HttpLayer::<P>::Logs(instance);
        let users = match self.plugins.user_provider {
            Some(provider) => seq![HttpLayer::<P>::UserProvider(provider)],
            None => Seq::<HttpLayer<P>>::empty(),
        };
        let prom = HttpLayer::<P>::Prom {
            instance,
            pipeline: Some(instance),
            with_metric_engine: opts.prom_store.with_metric_engine,
            validation_mode: opts.http.prom_validation_mode,
        };
        let prometheus = HttpLayer::<P>::Prometheus(instance);
        let l0 = seq![sql, ingest, logs];
        let l1 = l0 + users;
        let s2 = plan::seq_if(opts.opentsdb.enable, seq![HttpLayer::<P>::Opentsdb(instance)]);
        let l2 = l1 + s2;
        let s3 = plan::seq_if(opts.influxdb.enable, seq![HttpLayer::<P>::Influxdb(instance)]);
        let l3 = l2 + s3;
        let s4 = plan::seq_if(opts.prom_store.enable, seq![prom, prometheus]);
        let l4 = l3 + s4;
        let s5 = plan::seq_if(opts.otlp.enable, seq![HttpLayer::<P>::Otlp(instance)]);
        let l5 = l4 + s5;
        let s6 = plan::seq_if(opts.jaeger.enable, seq![HttpLayer::<P>::Jaeger(instance)]);
        assert(self.http_builder_layers(opts) == l5 + s6);
        lemma_contains_either(l0, users, layer);
        lemma_contains_either(l1, s2, layer);
        lemma_contains_either(l2, s3, layer);
        lemma_contains_either(l3, s4, layer);
        lemma_contains_either(l4, s5, layer);
        lemma_contains_either(l5, s6, layer);
        lemma_three(sql, ingest, logs, layer);
        if let Some(provider) = self.plugins.user_provider {
            lemma_one(HttpLayer::<P>::UserProvider(provider), layer);
        }
        lemma_one(HttpLayer::<P>::Opentsdb(instance), layer);
        lemma_one(HttpLayer::<P>::Influxdb(instance), layer);
        lemma_two(prom, prometheus, layer);
        lemma_one(HttpLayer::<P>::Otlp(instance), layer);
        lemma_one(HttpLayer::<P>::Jaeger(instance), layer);
    }

    /// Each protocol is served over HTTP if and only if it is enabled itself, whatever the
    /// others are.
    pub proof fn law_each_protocol_has_its_own_flag(self, opts: FrontendOptions<P>)
        ensures
            self.http_builder_layers(opts).contains(HttpLayer::Opentsdb(self.instance))
                <==> opts.opentsdb.enable,
            self.http_builder_layers(opts).contains(HttpLayer::Influxdb(self.instance))
                <==> opts.influxdb.enable,
            self.http_builder_layers(opts).contains(HttpLayer::Prometheus(self.instance))
                <==> opts.prom_store.enable,
            (exists|i: int|
                0 <= i < self.http_builder_layers(opts).len() && #[trigger] self.http_builder_layers(
                    opts,
                )[i] is Prom) <==> opts.prom_store.enable,
            self.http_builder_layers(opts).contains(HttpLayer::Otlp(self.instance))
                <==> opts.otlp.enable,
            self.http_builder_layers(opts).contains(HttpLayer::Jaeger(self.instance))
                <==> opts.jaeger.enable,
    {
        let layers = self.http_builder_layers(opts);
        self.law_http_parts_belong(opts, HttpLayer::Opentsdb(self.instance));
        self.law_http_parts_belong(opts, HttpLayer::Influxdb(self.instance));
        self.law_http_parts_belong(opts, HttpLayer::Prometheus(self.instance));
        self.law_http_parts_belong(opts, HttpLayer::Otlp(self.instance));
        self.law_http_parts_belong(opts, HttpLayer::Jaeger(self.instance));
        let prom = HttpLayer::<P>::Prom {
            instance: self.instance,
            pipeline: Some(self.instance),
            with_metric_engine: opts.prom_store.with_metric_engine,
            validation_mode: opts.http.prom_validation_mode,
        };
        self.law_http_parts_belong(opts, prom);
        if opts.prom_store.enable {
            let i = choose|i: int| 0 <= i < layers.len() && layers[i] == prom;
            assert(layers[i] is Prom);
        }
        if exists|i: int| 0 <= i < layers.len() && #[trigger] layers[i] is Prom {
            let i = choose|i: int| 0 <= i < layers.len() && #[trigger] layers[i] is Prom;
            assert(layers.contains(layers[i]));
            self.law_http_parts_belong(opts, layers[i]);
        }
    }

    /// The parts of an HTTP server come in a fixed order, each once at most: SQL, the
    /// ingestion of logs, the logs, the users, and then the protocols.
    pub proof fn law_http_parts_are_in_order(self, opts: FrontendOptions<P>)
        ensures
            rises(self.http_builder_layers(opts), 0, 10),
    {
        let instance = self.instance;
        let l0 = seq![
            HttpLayer::<P>::Sql(instance),
            HttpLayer::LogIngest {
                instance,
                validator: self.plugins.log_validator,
                interceptor: self.plugins.log_ingest_interceptor,
            },
            HttpLayer::Logs(instance),
        ];
        let users = match self.plugins.user_provider {
            Some(provider) => seq![HttpLayer::<P>::UserProvider(provider)],
            None => Seq::<HttpLayer<P>>::empty(),
        };
        let s2 = plan::seq_if(opts.opentsdb.enable, seq![HttpLayer::<P>::Opentsdb(instance)]);
        let s3 = plan::seq_if(opts.influxdb.enable, seq![HttpLayer::<P>::Influxdb(instance)]);
        let s4 = plan::seq_if(
            opts.prom_store.enable,
            seq![
                HttpLayer::<P>::Prom {
                    instance,
                    pipeline: Some(instance),
                    with_metric_engine: opts.prom_store.with_metric_engine,
                    validation_mode: opts.http.prom_validation_mode,
                },
                HttpLayer::Prometheus(instance),
            ],
        );
        let s5 = plan::seq_if(opts.otlp.enable, seq![HttpLayer::<P>::Otlp(instance)]);
        let s6 = plan::seq_if(opts.jaeger.enable, seq![HttpLayer::<P>::Jaeger(instance)]);
        let l1 = l0 + users;
        let l2 = l1 + s2;
        let l3 = l2 + s3;
        let l4 = l3 + s4;
        let l5 = l4 + s5;
        assert(self.http_builder_layers(opts) == l5 + s6);
        lemma_rises(l0, users, 0, 3, 4);
        lemma_rises(l1, s2, 0, 4, 5);
        lemma_rises(l2, s3, 0, 5, 6);
        lemma_rises(l3, s4, 0, 6, 8);
        lemma_rises(l4, s5, 0, 8, 9);
        lemma_rises(l5, s6, 0, 9, 10);
    }

    /// An HTTP server is made of the builder that was handed over, and of one for its
    /// settings only where none was. Metrics, all plugins and the options as TOML are added
    /// in any case, and nothing else.
    pub proof fn law_http_server_is_complete(
        self,
        opts: FrontendOptions<P>,
        toml: String,
        server: HttpServerPlan<P>,
        layer: HttpLayer<P>,
    )
        requires
            self.plans_http_server(opts, toml, server),
        ensures
            self.http_server_builder matches Some(builder) ==> server.builder
                == HttpBuilderSource::<P>::Given(builder),
            self.http_server_builder is None ==> {
                &&& server.builder matches HttpBuilderSource::Create(created)
                &&& created.settings == opts.http.settings
                &&& created.layers@.contains(layer) <==> self.belongs(opts, layer)
            },
            server.layers@.len() == 3,
            server.layers@[0] is Metrics,
            server.layers@[1] == HttpLayer::<P>::Plugins(self.plugins),
            server.layers@[2] == HttpLayer::<P>::GreptimeConfigOptions(toml),
    {
        self.law_http_parts_belong(opts, layer);
    }

    /// A gRPC server has five parts. The same handler answers database and Flight
    /// requests: it asks the instance, with the users of the plugins and the compression of
    /// the options, and runs requests on the runtime of the builder exactly in standalone
    /// mode.
    pub proof fn law_grpc_server_is_complete(self, opts: FrontendOptions<P>)
        ensures
            self.grpc_layers(opts).len() == 5,
            self.grpc_layers(opts)[0] matches GrpcLayer::Database(handler) && {
                &&& handler.instance == self.instance
                &&& handler.user_provider == self.plugins.user_provider
                &&& handler.flight_compression == opts.grpc.flight_compression
                &&& handler.on_builder_runtime <==> opts.meta_client is None
                &&& self.grpc_layers(opts)[3] == GrpcLayer::<P>::Flight(handler)
            },
            self.grpc_layers(opts)[1] matches GrpcLayer::Prometheus { instance, user_provider } && {
                &&& instance == self.instance
                &&& user_provider == self.plugins.user_provider
            },
            self.grpc_layers(opts)[2] == GrpcLayer::<P>::OtelArrow(self.instance),
            self.grpc_layers(opts)[4] == GrpcLayer::<P>::Frontend(self.instance),
    {
    }

    /// A MySQL server turns connections without TLS away exactly in the modes that require
    /// it, whatever the paths and the watching, and connections without a database exactly
    /// if it is told to. The rest is handed on.
    pub proof fn law_mysql_server_follows_its_options(
        self,
        opts: MysqlOptions,
        tls_config: P::TlsConfig,
    )
        ensures
            self.spec_mysql_server(opts, tls_config).force_tls <==> (match opts.tls.mode {
                TlsMode::Disable => false,
                TlsMode::Prefer => false,
                TlsMode::Require => true,
                TlsMode::VerifyCa => true,
                TlsMode::VerifyFull => true,
            }),
            self.spec_mysql_server(opts, tls_config).reject_no_database <==> (
            match opts.reject_no_database {
                Some(reject) => reject,
                None => false,
            }),
            self.spec_mysql_server(opts, tls_config).keep_alive_secs == options::whole_seconds(
                opts.keep_alive,
            ),
            self.spec_mysql_server(opts, tls_config).tls_config == tls_config,
            self.spec_mysql_server(opts, tls_config).instance == self.instance,
            self.spec_mysql_server(opts, tls_config).user_provider == self.plugins.user_provider,
    {
    }

    /// A PostgreSQL server turns connections without TLS away exactly in the modes that
    /// require it, whatever the paths and the watching. The rest is handed on.
    pub proof fn law_postgres_server_follows_its_options(
        self,
        opts: PostgresOptions,
        tls_config: P::TlsConfig,
    )
        ensures
            self.spec_postgres_server(opts, tls_config).force_tls <==> (match opts.tls.mode {
                TlsMode::Disable => false,
                TlsMode::Prefer => false,
                TlsMode::Require => true,
                TlsMode::VerifyCa => true,
                TlsMode::VerifyFull => true,
            }),
            self.spec_postgres_server(opts, tls_config).keep_alive_secs == options::whole_seconds(
                opts.keep_alive,
            ),
            self.spec_postgres_server(opts, tls_config).tls_config == tls_config,
            self.spec_postgres_server(opts, tls_config).instance == self.instance,
            self.spec_postgres_server(opts, tls_config).user_provider
                == self.plugins.user_provider,
    {
    }

    /// The two servers that speak SQL treat connections without TLS alike where their modes
    /// are the same, and are told apart by their protocol: each is made of its own section.
    pub proof fn law_sql_servers_are_alike(
        self,
        opts: FrontendOptions<P>,
        mysql_config: P::TlsConfig,
        postgres_config: P::TlsConfig,
    )
        ensures
            self.spec_sql_server(opts, SqlServer::Mysql, mysql_config) matches
                ServerRequest::Mysql(mysql) && {
                &&& self.spec_sql_server(opts, SqlServer::Postgres, postgres_config) matches
                    ServerRequest::Postgres(postgres)
                &&& opts.mysql.tls.mode == opts.postgres.tls.mode ==> mysql.force_tls
                    == postgres.force_tls
                &&& opts.mysql.keep_alive == opts.postgres.keep_alive ==> mysql.keep_alive_secs
                    == postgres.keep_alive_secs
                &&& mysql == self.spec_mysql_server(opts.mysql, mysql_config)
                &&& postgres == self.spec_postgres_server(opts.postgres, postgres_config)
            },
    {
    }
}

/// The gRPC and the HTTP server are always there, and come first. The MySQL and the
/// PostgreSQL server follow in this order, each if and only if it is enabled itself. No
/// server is there twice.
pub proof fn law_enabled_servers<P: Platform>(opts: FrontendOptions<P>)
    ensures
        opts.enabled_servers().len() >= 2,
        opts.enabled_servers()[0] == ServerKind::Grpc,
        opts.enabled_servers()[1] == ServerKind::Http,
        opts.enabled_servers().contains(ServerKind::Sql(SqlServer::Mysql)) <==> opts.mysql.enable,
        opts.enabled_servers().contains(ServerKind::Sql(SqlServer::Postgres))
            <==> opts.postgres.enable,
        opts.mysql.enable ==> opts.enabled_servers()[2] == ServerKind::Sql(SqlServer::Mysql),
        opts.postgres.enable ==> opts.enabled_servers().last() == ServerKind::Sql(
            SqlServer::Postgres,
        ),
        opts.enabled_servers().no_duplicates(),
{
    let servers = opts.enabled_servers();
    if opts.mysql.enable {
        assert(servers[2] == ServerKind::Sql(SqlServer::Mysql));
    }
    if opts.postgres.enable {
        assert(servers[servers.len() - 1] == ServerKind::Sql(SqlServer::Postgres));
    }
}

/// Each server listens on the address of its own section, and those that speak SQL have
/// the TLS options of their own section.
pub proof fn law_each_server_has_its_own_section<P: Platform>(opts: FrontendOptions<P>)
    ensures
        opts.spec_addr(ServerKind::Grpc) == opts.grpc.bind_addr@,
        opts.spec_addr(ServerKind::Http) == opts.http.addr@,
        opts.spec_addr(ServerKind::Sql(SqlServer::Mysql)) == opts.mysql.addr@,
        opts.spec_addr(ServerKind::Sql(SqlServer::Postgres)) == opts.postgres.addr@,
        opts.spec_sql_tls(SqlServer::Mysql) == opts.mysql.tls,
        opts.spec_sql_tls(SqlServer::Postgres) == opts.postgres.tls,
{
}

} // verus!
