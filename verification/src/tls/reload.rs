//! A container for a TLS server configuration that can be replaced while the
//! server runs.
use std::sync::Arc;

use rustls::ServerConfig;
use vstd::prelude::*;

use crate::tls::option;
use crate::tls::option::TlsOption;
use crate::tls::setup::TlsError;

verus! {

/// A mutable container for TLS server config.
///
/// This struct allows dynamic reloading of server certificates and keys.
#[derive(Debug)]
pub struct ReloadableTlsServerConfig {
    tls_option: TlsOption,
    config: Option<Arc<ServerConfig>>,
    version: usize,
}

/// What a container holds.
pub ghost struct ReloadableView {
    pub tls_option: option::TlsOptionView,
    pub config: Option<ServerConfig>,
    pub version: usize,
}

impl View for ReloadableTlsServerConfig {
    type V = ReloadableView;

    closed spec fn view(&self) -> ReloadableView {
        ReloadableView {
            tls_option: self.tls_option@,
            config: unshared(self.config),
            version: self.version,
        }
    }
}

/// A shared value that may be absent, without the sharing.
pub open spec fn unshared(config: Option<Arc<ServerConfig>>) -> Option<ServerConfig> {
    match config {
        Some(config) => Some(*config),
        None => None,
    }
}

/// The version after this one. It starts over after the largest number.
pub open spec fn next_version(version: usize) -> usize {
    if version == usize::MAX {
        0
    } else {
        (version + 1) as usize
    }
}

impl ReloadableView {
    /// A container that was just made for an option.
    pub open spec fn made(
        tls_option: option::TlsOptionView,
        config: Option<ServerConfig>,
    ) -> ReloadableView {
        ReloadableView { tls_option, config, version: 0 }
    }

    /// What a reload returns whose setup ended like this.
    pub open spec fn reload_result(
        setup: Result<Option<ServerConfig>, TlsError>,
    ) -> Result<(), TlsError> {
        match setup {
            Ok(_) => Ok(()),
            Err(error) => Err(error),
        }
    }

    /// A container after a reload whose setup ended like this: a configuration
    /// replaces the one held, an error changes nothing.
    pub open spec fn reloaded(
        self,
        setup: Result<Option<ServerConfig>, TlsError>,
    ) -> ReloadableView {
        match setup {
            Ok(config) => ReloadableView {
                config,
                version: next_version(self.version),
                ..self
            },
            Err(_) => self,
        }
    }
}

/// Shares a configuration that may be absent.
fn share(config: Option<ServerConfig>) -> (shared: Option<Arc<ServerConfig>>)
    ensures
        unshared(shared) == config,
{
    match config {
        Some(config) => Some(Arc::new(config)),
        None => None,
    }
}

impl ReloadableTlsServerConfig {
    /// Creates a container from what the setup of `tls_option` ended with.
    pub fn try_new(
        tls_option: TlsOption,
        setup: Result<Option<ServerConfig>, TlsError>,
    ) -> (res: Result<ReloadableTlsServerConfig, TlsError>)
        ensures
            match setup {
                Ok(config) => res matches Ok(container) && container@ == (ReloadableView {
                    tls_option: tls_option@,
                    config,
                    version: 0,
                }) && container@ == ReloadableView::made(tls_option@, config),
                Err(error) => res == Err::<ReloadableTlsServerConfig, TlsError>(error),
            },
    {
        match setup {
            Ok(config) => Ok(
                ReloadableTlsServerConfig { tls_option, config: share(config), version: 0 },
            ),
            Err(error) => Err(error),
        }
    }

    /// Replaces the configuration by what a new setup of the option ended with.
    pub fn reload(&mut self, setup: Result<Option<ServerConfig>, TlsError>) -> (res: Result<
        (),
        TlsError,
    >)
        ensures
            final(self)@ == old(self)@.reloaded(setup),
            res == ReloadableView::reload_result(setup),
            match setup {
                Ok(_) => res == Ok::<(), TlsError>(()),
                Err(error) => res == Err::<(), TlsError>(error),
            },
    {
        match setup {
            Ok(config) => {
                self.config = share(config);
                self.version = self.version.wrapping_add(1);
                Ok(())
            },
            Err(error) => Err(error),
        }
    }

    /// Get the server config hold by this container.
    pub fn get_server_config(&self) -> (config: Option<Arc<ServerConfig>>)
        ensures
            unshared(config) == self@.config,
    {
        match &self.config {
            Some(config) => Some(config.clone()),
            None => None,
        }
    }

    /// Get associated `TlsOption`.
    pub fn get_tls_option(&self) -> (tls_option: &TlsOption)
        ensures
            tls_option@ == self@.tls_option,
    {
        &self.tls_option
    }

    /// Get version of current config.
    ///
    /// This version will auto increase when server config get reloaded.
    pub fn get_version(&self) -> (version: usize)
        ensures
            version == self@.version,
    {
        self.version
    }
}

} // verus!
