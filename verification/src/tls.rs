//! TLS options of the protocol servers, loading of the server configuration
//! they name, and reloading it when the certificate files change.
pub mod laws;
pub mod option;
pub mod pem;
pub mod reload;
pub mod setup;
pub mod watch;

pub use option::{ParseTlsModeError, TlsMode, TlsOption};
pub use pem::{PemItem, PrivateKey};
pub use reload::ReloadableTlsServerConfig;
pub use setup::{finish_setup, AwaitCert, AwaitKey, SetupAction, TlsError};
pub use watch::{
    maybe_watch_tls_config, next_reload_action, FileChange, ReloaderAction, ReloaderEvent,
    WatchAction, WatchEvent,
};
