//! Loading the server configuration that a `TlsOption` names.
//!
//! Setting up takes two files. Each step says which file is to be read next, and
//! goes on with what the reading gave, until the configuration is there.
use rustls::ServerConfig;
use vstd::prelude::*;

use crate::tls::option;
use crate::tls::option::{TlsMode, TlsOption};
use crate::tls::pem;
use crate::tls::pem::{read_certs, read_first_item, single_cert_config, PemItem, PrivateKey};

verus! {

/// Why a TLS configuration could not be loaded or watched.
#[derive(Debug)]
pub enum TlsError {
    /// A file could not be read, or not as PEM.
    InternalIo { error: std::io::Error },
    /// The first section of the key file is not a private key.
    InvalidKey,
    /// The certificates and the key do not make a configuration.
    InvalidServerConfig { cause: rustls::Error },
    /// A path could not be watched.
    FileWatch { path: String, reason: String },
}

/// What the setting up of a configuration asks for next.
#[derive(Debug)]
pub enum SetupAction {
    /// Read the file at `AwaitCert::path`, and resume with its bytes.
    ReadCert(AwaitCert),
    /// Read the file at `AwaitKey::path`, and resume with its bytes.
    ReadKey(AwaitKey),
    /// Setting up has ended. There is no configuration where TLS is disabled.
    Finish(Result<Option<ServerConfig>, TlsError>),
}

/// A setup that waits for the certificate file.
#[derive(Debug)]
pub struct AwaitCert {
    pub cert_path: String,
    pub key_path: String,
}

/// A setup that has its certificates and waits for the key file.
#[derive(Debug)]
pub struct AwaitKey {
    pub chain: Vec<Vec<u8>>,
    pub key_path: String,
}

impl PemItem {
    /// The private key that a section holds, if it holds one.
    pub fn into_private_key(self) -> (key: Option<PrivateKey>)
        ensures
            match self {
                PemItem::Pkcs1Key(der) => key == Some(PrivateKey::Pkcs1(der)),
                PemItem::Pkcs8Key(der) => key == Some(PrivateKey::Pkcs8(der)),
                PemItem::Sec1Key(der) => key == Some(PrivateKey::Sec1(der)),
                _ => key is None,
            },
    {
        match self {
            PemItem::Pkcs1Key(der) => Some(PrivateKey::Pkcs1(der)),
            PemItem::Pkcs8Key(der) => Some(PrivateKey::Pkcs8(der)),
            PemItem::Sec1Key(der) => Some(PrivateKey::Sec1(der)),
            _ => None,
        }
    }
}

/// The private key that the first section of a key file holds, if there is a
/// section and it holds one.
pub open spec fn key_in(item: Option<pem::PemItemView>) -> Option<pem::PrivateKeyView> {
    match item {
        Some(pem::PemItemView::Pkcs1Key(der)) => Some(pem::PrivateKeyView::Pkcs1(der)),
        Some(pem::PemItemView::Pkcs8Key(der)) => Some(pem::PrivateKeyView::Pkcs8(der)),
        Some(pem::PemItemView::Sec1Key(der)) => Some(pem::PrivateKeyView::Sec1(der)),
        _ => None,
    }
}

impl TlsOption {
    /// Starts the loading of the configuration. Nothing is read where TLS is
    /// disabled.
    pub fn setup(&self) -> (action: SetupAction)
        ensures
            self@.starts_setup(action),
    {
        if let TlsMode::Disable = self.mode {
            return SetupAction::Finish(Ok(None));
        }
        SetupAction::ReadCert(
            AwaitCert { cert_path: self.cert_path.clone(), key_path: self.key_path.clone() },
        )
    }
}

impl option::TlsOptionView {
    /// What `TlsOption::setup` asks for.
    pub open spec fn starts_setup(self, action: SetupAction) -> bool {
        if self.mode == TlsMode::Disable {
            action == SetupAction::Finish(Ok(None))
        } else {
            action matches SetupAction::ReadCert(next) && {
                &&& next.cert_path@ == self.cert_path
                &&& next.key_path@ == self.key_path
            }
        }
    }
}

impl AwaitCert {
    /// The path of the file that the setup waits for.
    pub open spec fn awaited_path(self) -> Seq<char> {
        self.cert_path@
    }

    /// What comes of reading the certificate file: an error where it could not be
    /// read, or not as PEM, and the request for the key file otherwise.
    pub open spec fn leads_to(
        self,
        file: Result<Vec<u8>, std::io::Error>,
        action: SetupAction,
    ) -> bool {
        match file {
            Err(error) => action == SetupAction::Finish(Err(TlsError::InternalIo { error })),
            Ok(bytes) => match pem::pem_certs(bytes@) {
                Err(_) => action matches SetupAction::Finish(Err(TlsError::InternalIo { .. })),
                Ok(chain) => action matches SetupAction::ReadKey(next) && {
                    &&& pem::chain_view(next.chain@) == chain
                    &&& next.key_path == self.key_path
                },
            },
        }
    }

    /// The path of the file to read.
    pub fn path(&self) -> (path: &str)
        ensures
            path@ == self.cert_path@,
            path@ == self.awaited_path(),
    {
        self.cert_path.as_str()
    }

    /// Goes on with the certificate file, or with the error of reading it.
    pub fn resume(self, file: Result<Vec<u8>, std::io::Error>) -> (action: SetupAction)
        ensures
            self.leads_to(file, action),
    {
        match file {
            Ok(bytes) => self.with_certs(read_certs(bytes.as_slice())),
            Err(error) => SetupAction::Finish(Err(TlsError::InternalIo { error })),
        }
    }

    /// Goes on with the certificates of the file, or with the error of finding
    /// them.
    pub fn with_certs(self, certs: Result<Vec<Vec<u8>>, std::io::Error>) -> (action: SetupAction)
        ensures
            match certs {
                Ok(chain) => action == SetupAction::ReadKey(
                    (AwaitKey { chain, key_path: self.key_path }),
                ),
                Err(error) => action == SetupAction::Finish(Err(TlsError::InternalIo { error })),
            },
    {
        match certs {
            Ok(chain) => SetupAction::ReadKey(AwaitKey { chain, key_path: self.key_path }),
            Err(error) => SetupAction::Finish(Err(TlsError::InternalIo { error })),
        }
    }
}

/// A setup that reached the TLS library with this chain and this key: it ended
/// with a configuration that serves them and asks for no client certificate, or
/// because they were refused.
pub open spec fn configured(
    action: SetupAction,
    chain: Seq<Seq<u8>>,
    key: pem::PrivateKeyView,
) -> bool {
    match action {
        SetupAction::Finish(Ok(Some(config))) => {
            &&& pem::served_identity(config) == (chain, key)
            &&& !pem::asks_client_cert(config)
        },
        SetupAction::Finish(Err(TlsError::InvalidServerConfig { cause })) => pem::may_refuse(
            chain,
            key,
            cause,
        ),
        _ => false,
    }
}

impl AwaitKey {
    /// The path of the file that the setup waits for.
    pub open spec fn awaited_path(self) -> Seq<char> {
        self.key_path@
    }

    /// What comes of reading the key file: an error where it could not be read, or
    /// not as PEM, or its first section is not a private key, and what the TLS library
    /// makes of the key otherwise.
    pub open spec fn leads_to(
        self,
        file: Result<Vec<u8>, std::io::Error>,
        action: SetupAction,
    ) -> bool {
        match file {
            Err(error) => action == SetupAction::Finish(Err(TlsError::InternalIo { error })),
            Ok(bytes) => match pem::pem_first_item(bytes@) {
                Err(_) => action matches SetupAction::Finish(Err(TlsError::InternalIo { .. })),
                Ok(item) => self.item_leads_to(item, action),
            },
        }
    }

    /// What comes of the first section of the key file.
    pub open spec fn item_leads_to(self, item: Option<pem::PemItemView>, action: SetupAction) -> bool {
        match key_in(item) {
            None => action == SetupAction::Finish(Err(TlsError::InvalidKey)),
            Some(key) => configured(action, pem::chain_view(self.chain@), key),
        }
    }

    /// The path of the file to read.
    pub fn path(&self) -> (path: &str)
        ensures
            path@ == self.key_path@,
            path@ == self.awaited_path(),
    {
        self.key_path.as_str()
    }

    /// Goes on with the key file, or with the error of reading it.
    pub fn resume(self, file: Result<Vec<u8>, std::io::Error>) -> (action: SetupAction)
        ensures
            self.leads_to(file, action),
    {
        match file {
            Ok(bytes) => self.with_item(read_first_item(bytes.as_slice())),
            Err(error) => SetupAction::Finish(Err(TlsError::InternalIo { error })),
        }
    }

    /// Goes on with the first section of the key file, or with the error of
    /// finding it.
    pub fn with_item(self, item: Result<Option<PemItem>, std::io::Error>) -> (action: SetupAction)
        ensures
            match item {
                Ok(item) => self.item_leads_to(pem::item_view(item), action),
                Err(error) => action == SetupAction::Finish(Err(TlsError::InternalIo { error })),
            },
    {
        let key = match item {
            Ok(Some(item)) => item.into_private_key(),
            Ok(None) => None,
            Err(error) => return SetupAction::Finish(Err(TlsError::InternalIo { error })),
        };
        match key {
            Some(key) => finish_setup(single_cert_config(self.chain, key)),
            None => SetupAction::Finish(Err(TlsError::InvalidKey)),
        }
    }
}

/// Ends a setup with what the TLS library made of the certificates and the key.
pub fn finish_setup(config: Result<ServerConfig, rustls::Error>) -> (action: SetupAction)
    ensures
        match config {
            Ok(config) => action == SetupAction::Finish(Ok(Some(config))),
            Err(cause) => action == SetupAction::Finish(
                Err(TlsError::InvalidServerConfig { cause }),
            ),
        },
{
    match config {
        Ok(config) => SetupAction::Finish(Ok(Some(config))),
        Err(cause) => SetupAction::Finish(Err(TlsError::InvalidServerConfig { cause })),
    }
}

} // verus!
