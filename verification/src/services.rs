//! The servers of a frontend: what each of them is made of, and in which order
//! they are put together.
pub mod laws;
pub mod options;
pub mod plan;
pub mod plan_laws;
pub mod startup;

pub use options::{
    FrontendOptions, GrpcOptions, HttpOptions, MysqlOptions, Platform, Plugins, PostgresOptions,
    PromStoreOptions, ProtocolOptions, ServerKind, SqlServer,
};
pub use plan::{
    GrpcBuilderPlan, GrpcBuilderSource, GrpcLayer, GrpcServerPlan, HttpBuilderPlan,
    HttpBuilderSource, HttpLayer, HttpServerPlan, MysqlServerPlan, PostgresServerPlan,
    RequestHandler, ServerRequest, Services,
};
pub use startup::{
    parse_addr, AwaitAddr, AwaitGrpcBuilder, AwaitServer, AwaitTls, AwaitToml, AwaitWatch,
    BuildAction, BuildCore, BuildError, ServerHandler,
};
