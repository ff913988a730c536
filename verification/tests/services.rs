use std::sync::Arc;
use std::time::Duration;

use greptime_services::services::{
    parse_addr, BuildAction, BuildError, FrontendOptions, GrpcBuilderSource, GrpcLayer,
    GrpcOptions, HttpBuilderSource, HttpLayer, HttpOptions, MysqlOptions, Platform, Plugins,
    PostgresOptions, PromStoreOptions, ProtocolOptions, ServerHandler, ServerKind, ServerRequest,
    Services, SqlServer,
};
use greptime_services::tls::{TlsError, TlsMode, TlsOption};

struct Texts;

impl Platform for Texts {
    type Options = &'static str;
    type Instance = &'static str;
    type GrpcBuilder = &'static str;
    type HttpBuilder = &'static str;
    type GrpcSettings = &'static str;
    type HttpSettings = &'static str;
    type MetaClient = ();
    type FlightCompression = u8;
    type PromValidationMode = char;
    type UserProvider = &'static str;
    type LogValidator = &'static str;
    type LogIngestInterceptor = &'static str;
    type OtherPlugins = &'static str;
    type Addr = String;
    type Server = String;
    type TlsConfig = String;
    type Failure = &'static str;
}

const MYSQL: ServerKind = ServerKind::Sql(SqlServer::Mysql);
const POSTGRES: ServerKind = ServerKind::Sql(SqlServer::Postgres);

fn plugins(with: bool) -> Plugins<Texts> {
    Plugins {
        user_provider: with.then_some(Arc::new("users")),
        log_validator: with.then_some(Arc::new("validator")),
        log_ingest_interceptor: with.then_some(Arc::new("interceptor")),
        others: Arc::new("others"),
    }
}

fn services(with_plugins: bool) -> Services<Texts> {
    Services::new("options", Arc::new("instance"), plugins(with_plugins))
}

fn tls(mode: TlsMode) -> TlsOption {
    TlsOption::new(Some(mode), Some("crt".to_string()), Some("key".to_string()))
}

fn options(mysql: bool, postgres: bool) -> FrontendOptions<Texts> {
    FrontendOptions {
        grpc: GrpcOptions {
            bind_addr: "127.0.0.1:4001".to_string(),
            tls: tls(TlsMode::Prefer),
            flight_compression: 7,
            settings: Arc::new("grpc settings"),
        },
        http: HttpOptions {
            addr: "127.0.0.1:4000".to_string(),
            prom_validation_mode: 's',
            settings: Arc::new("http settings"),
        },
        mysql: MysqlOptions {
            enable: mysql,
            addr: "127.0.0.1:4002".to_string(),
            tls: tls(TlsMode::Require),
            keep_alive: Duration::from_millis(2999),
            reject_no_database: None,
        },
        postgres: PostgresOptions {
            enable: postgres,
            addr: "127.0.0.1:4003".to_string(),
            tls: tls(TlsMode::Disable),
            keep_alive: Duration::from_secs(5),
        },
        opentsdb: ProtocolOptions { enable: false },
        influxdb: ProtocolOptions { enable: false },
        prom_store: PromStoreOptions { enable: false, with_metric_engine: true },
        otlp: ProtocolOptions { enable: false },
        jaeger: ProtocolOptions { enable: false },
        meta_client: None,
    }
}

fn layer_name(layer: &HttpLayer<Texts>) -> String {
    match layer {
        HttpLayer::Sql(i) => format!("sql {i}"),
        HttpLayer::LogIngest { instance, validator, interceptor } => {
            format!("ingest {instance} {validator:?} {interceptor:?}")
        }
        HttpLayer::Logs(i) => format!("logs {i}"),
        HttpLayer::UserProvider(u) => format!("users {u}"),
        HttpLayer::Opentsdb(i) => format!("opentsdb {i}"),
        HttpLayer::Influxdb(i) => format!("influxdb {i}"),
        HttpLayer::Prom { instance, pipeline, with_metric_engine, validation_mode } => {
            format!("prom {instance} {pipeline:?} {with_metric_engine} {validation_mode}")
        }
        HttpLayer::Prometheus(i) => format!("prometheus {i}"),
        HttpLayer::Otlp(i) => format!("otlp {i}"),
        HttpLayer::Jaeger(i) => format!("jaeger {i}"),
        HttpLayer::Metrics => "metrics".to_string(),
        HttpLayer::Plugins(p) => format!("plugins {:?} and {}", p.user_provider, p.others),
        HttpLayer::GreptimeConfigOptions(toml) => format!("config {toml}"),
    }
}

fn layer_names(layers: &[HttpLayer<Texts>]) -> Vec<String> {
    layers.iter().map(layer_name).collect()
}

/// The failures of a build, and the actions it took.
#[derive(Default)]
struct Driver {
    fail_toml: bool,
    fail_addr: Option<&'static str>,
    fail_grpc_builder: bool,
    fail_tls: bool,
    fail_watch: bool,
    log: Vec<String>,
}

type Built = Result<Vec<ServerHandler<Texts>>, BuildError<Texts>>;

fn result<T>(value: T, fails: bool, failure: &'static str) -> Result<T, &'static str> {
    if fails {
        Err(failure)
    } else {
        Ok(value)
    }
}

impl Driver {
    fn run(&mut self, services: Services<Texts>, opts: FrontendOptions<Texts>) -> Built {
        let mut opts = Some(opts);
        let mut action = services.build();
        loop {
            action = match action {
                BuildAction::FormatToml(next) => {
                    assert_eq!("options", next.services.opts);
                    let formatted = ("toml".to_string(), opts.take().unwrap());
                    next.resume(result(formatted, self.fail_toml, "no toml"))
                }
                BuildAction::ParseAddr(next) => {
                    let addr = next.addr().to_string();
                    self.log.push(format!("parse {addr}"));
                    let fails = self.fail_addr == Some(addr.as_str());
                    next.resume(result(addr, fails, "no addr"))
                }
                BuildAction::CreateGrpcBuilder(next) => {
                    assert_eq!("grpc settings", *next.plan.settings);
                    assert_eq!(tls(TlsMode::Prefer), next.plan.tls);
                    self.log.push("grpc builder".to_string());
                    next.resume(result("made", self.fail_grpc_builder, "no builder"))
                }
                BuildAction::LoadTls(next) => {
                    self.log.push(format!("load {:?}", next.tls_option.mode));
                    let loaded = format!("tls of {:?}", next.server);
                    next.resume(if self.fail_tls {
                        Err(TlsError::InvalidKey)
                    } else {
                        Ok(loaded)
                    })
                }
                BuildAction::WatchTls(next) => {
                    self.log.push(format!("watch {}", next.tls_config));
                    next.resume(if self.fail_watch {
                        Err(TlsError::FileWatch {
                            path: "crt".to_string(),
                            reason: "no space".to_string(),
                        })
                    } else {
                        Ok(())
                    })
                }
                BuildAction::CreateServer(request, next) => {
                    let server = self.create(request);
                    next.resume(server)
                }
                BuildAction::Finish(built) => return built,
            }
        }
    }

    fn create(&mut self, request: ServerRequest<Texts>) -> String {
        match request {
            ServerRequest::Grpc(plan) => {
                assert_eq!(5, plan.layers.len());
                format!("grpc of {}", plan.builder)
            }
            ServerRequest::Http(plan) => {
                let builder = match plan.builder {
                    HttpBuilderSource::Given(builder) => builder.to_string(),
                    HttpBuilderSource::Create(plan) => format!("{} layers", plan.layers.len()),
                };
                assert_eq!("config toml", layer_names(&plan.layers)[2]);
                format!("http of {builder}")
            }
            ServerRequest::Mysql(plan) => format!(
                "mysql {} {} {} {} {}",
                plan.instance,
                plan.force_tls,
                plan.tls_config,
                plan.keep_alive_secs,
                plan.reject_no_database
            ),
            ServerRequest::Postgres(plan) => format!(
                "postgres {} {} {} {}",
                plan.instance, plan.force_tls, plan.tls_config, plan.keep_alive_secs
            ),
        }
    }
}

fn handlers(built: Built) -> Vec<(ServerKind, String, String)> {
    match built {
        Ok(handlers) => handlers.into_iter().map(|h| (h.kind, h.server, h.addr)).collect(),
        Err(_) => panic!("the build failed"),
    }
}

fn handler(kind: ServerKind, server: &str, addr: &str) -> (ServerKind, String, String) {
    (kind, server.to_string(), addr.to_string())
}

#[test]
fn all_servers_are_built_in_order() {
    let mut driver = Driver::default();
    let built = driver.run(services(false), options(true, true));
    assert_eq!(
        vec![
            handler(ServerKind::Grpc, "grpc of made", "127.0.0.1:4001"),
            handler(ServerKind::Http, "http of 3 layers", "127.0.0.1:4000"),
            handler(MYSQL, "mysql instance true tls of Mysql 2 false", "127.0.0.1:4002"),
            handler(POSTGRES, "postgres instance false tls of Postgres 5", "127.0.0.1:4003"),
        ],
        handlers(built)
    );
    assert_eq!(
        vec![
            "parse 127.0.0.1:4001",
            "grpc builder",
            "parse 127.0.0.1:4000",
            "parse 127.0.0.1:4002",
            "load Require",
            "watch tls of Mysql",
            "parse 127.0.0.1:4003",
            "load Disable",
            "watch tls of Postgres",
        ],
        driver.log
    );
}

#[test]
fn servers_that_are_not_enabled_are_left_out() {
    for (mysql, postgres, expected) in [
        (false, false, vec![ServerKind::Grpc, ServerKind::Http]),
        (true, false, vec![ServerKind::Grpc, ServerKind::Http, MYSQL]),
        (false, true, vec![ServerKind::Grpc, ServerKind::Http, POSTGRES]),
    ] {
        let built = Driver::default().run(services(true), options(mysql, postgres));
        let kinds: Vec<ServerKind> = handlers(built).into_iter().map(|h| h.0).collect();
        assert_eq!(expected, kinds);
    }
}

#[test]
fn given_builders_are_used() {
    let given = services(false).with_grpc_server_builder("mine").with_http_server_builder("own");
    assert_eq!(Some("mine"), given.grpc_server_builder);
    assert_eq!(Some("own"), given.http_server_builder);
    let mut driver = Driver { fail_grpc_builder: true, ..Default::default() };
    let built = handlers(driver.run(given, options(false, false)));
    assert_eq!("grpc of mine", built[0].1);
    assert_eq!("http of own", built[1].1);
}

#[test]
fn the_first_failure_ends_a_build() {
    let run = |mut driver: Driver| {
        let built = driver.run(services(false), options(true, true));
        (built.err().expect("the build succeeded"), driver.log.len())
    };
    let (error, actions) = run(Driver { fail_toml: true, ..Default::default() });
    assert!(matches!(error, BuildError::TomlFormat { error: "no toml" }));
    assert_eq!(0, actions);

    let fail_addr = Some("127.0.0.1:4000");
    let (error, actions) = run(Driver { fail_addr, fail_tls: true, ..Default::default() });
    assert!(matches!(
        error,
        BuildError::ParseAddr { addr, error: "no addr" } if addr == "127.0.0.1:4000"
    ));
    assert_eq!(3, actions);

    let (error, actions) = run(Driver { fail_grpc_builder: true, ..Default::default() });
    assert!(matches!(error, BuildError::InvalidTlsConfig { error: "no builder" }));
    assert_eq!(2, actions);

    let (error, actions) = run(Driver { fail_tls: true, fail_watch: true, ..Default::default() });
    assert!(matches!(error, BuildError::StartServer { cause: TlsError::InvalidKey }));
    assert_eq!(5, actions);

    let (error, actions) = run(Driver { fail_watch: true, ..Default::default() });
    assert!(matches!(
        error,
        BuildError::StartServer { cause: TlsError::FileWatch { .. } }
    ));
    assert_eq!(6, actions);
}

#[test]
fn addresses_keep_their_text_in_errors() {
    assert!(matches!(parse_addr::<Texts>("x", Ok("y".to_string())), Ok(addr) if addr == "y"));
    assert!(matches!(
        parse_addr::<Texts>("nowhere", Err("bad")),
        Err(BuildError::ParseAddr { addr, error: "bad" }) if addr == "nowhere"
    ));
}

#[test]
fn an_http_server_serves_logs_and_sql() {
    let plan = services(false).http_server_builder(&options(false, false));
    assert_eq!("http settings", *plan.settings);
    assert_eq!(
        vec!["sql instance", "ingest instance None None", "logs instance"],
        layer_names(&plan.layers)
    );
}

#[test]
fn an_http_server_serves_every_protocol_that_is_enabled() {
    let mut opts = options(false, false);
    opts.opentsdb.enable = true;
    opts.influxdb.enable = true;
    opts.prom_store.enable = true;
    opts.otlp.enable = true;
    opts.jaeger.enable = true;
    let plan = services(true).http_server_builder(&opts);
    assert_eq!(
        vec![
            "sql instance",
            "ingest instance Some(\"validator\") Some(\"interceptor\")",
            "logs instance",
            "users users",
            "opentsdb instance",
            "influxdb instance",
            "prom instance Some(\"instance\") true s",
            "prometheus instance",
            "otlp instance",
            "jaeger instance",
        ],
        layer_names(&plan.layers)
    );
}

#[test]
fn an_http_server_ends_with_its_own_parts() {
    let mut services = services(true).with_http_server_builder("own");
    let plan = services.build_http_server(&options(false, false), "a = 1".to_string());
    assert!(matches!(plan.builder, HttpBuilderSource::Given("own")));
    assert_eq!(
        vec!["metrics", "plugins Some(\"users\") and others", "config a = 1"],
        layer_names(&plan.layers)
    );
    let plan = services.build_http_server(&options(false, false), String::new());
    assert!(matches!(plan.builder, HttpBuilderSource::Create(_)));
}

#[test]
fn a_grpc_server_uses_its_runtime_in_standalone_mode() {
    let mut services = services(true);
    let mut opts = options(false, false);
    assert!(matches!(services.take_grpc_builder(&opts), GrpcBuilderSource::Create(_)));
    for standalone in [true, false] {
        opts.meta_client = if standalone { None } else { Some(()) };
        let plan = services.build_grpc_server("builder", &opts);
        assert_eq!("builder", plan.builder);
        match &plan.layers[..] {
            [GrpcLayer::Database(database), GrpcLayer::Prometheus { user_provider, .. }, GrpcLayer::OtelArrow(instance), GrpcLayer::Flight(flight), GrpcLayer::Frontend(_)] =>
            {
                assert_eq!(standalone, database.on_builder_runtime);
                assert_eq!(standalone, flight.on_builder_runtime);
                assert_eq!(7, database.flight_compression);
                assert_eq!("users", **user_provider.as_ref().unwrap());
                assert_eq!("users", **flight.user_provider.as_ref().unwrap());
                assert_eq!("instance", **instance);
            }
            _ => panic!("unexpected layers"),
        }
    }
}

#[test]
fn a_mysql_server_may_reject_connections_without_database() {
    let mut opts = options(true, false).mysql;
    for (setting, expected) in [(None, false), (Some(false), false), (Some(true), true)] {
        opts.reject_no_database = setting;
        let plan = services(true).mysql_server(&opts, "tls".to_string());
        assert_eq!(expected, plan.reject_no_database);
        assert_eq!(2, plan.keep_alive_secs);
        assert_eq!("users", *plan.user_provider.unwrap());
    }
}
