//! What the PEM reader and the TLS library contribute: certificates and keys
//! out of PEM files, and a server configuration made of them.
use rustls::ServerConfig;
use rustls_pemfile::Item;
use rustls_pki_types::{CertificateDer, PrivateKeyDer};
use vstd::prelude::*;

verus! {

/// `std::io::Error`, carried from where it arises to the caller.
#[verifier::external_type_specification]
#[verifier::external_body]
pub struct ExIoError(std::io::Error);

/// `rustls::Error`, carried from where it arises to the caller.
#[verifier::external_type_specification]
#[verifier::external_body]
pub struct ExRustlsError(rustls::Error);

/// `rustls::ServerConfig`, carried from where it is made to the caller.
#[verifier::external_type_specification]
#[verifier::external_body]
pub struct ExServerConfig(rustls::ServerConfig);

/// A section of a PEM file, with the DER bytes it holds.
#[derive(Debug)]
pub enum PemItem {
    X509Certificate(Vec<u8>),
    SubjectPublicKeyInfo(Vec<u8>),
    Pkcs1Key(Vec<u8>),
    Pkcs8Key(Vec<u8>),
    Sec1Key(Vec<u8>),
    Crl(Vec<u8>),
    Csr(Vec<u8>),
    Unknown,
}

/// A `PemItem` with its bytes as a sequence.
pub ghost enum PemItemView {
    X509Certificate(Seq<u8>),
    SubjectPublicKeyInfo(Seq<u8>),
    Pkcs1Key(Seq<u8>),
    Pkcs8Key(Seq<u8>),
    Sec1Key(Seq<u8>),
    Crl(Seq<u8>),
    Csr(Seq<u8>),
    Unknown,
}

/// A private key, with the encoding of its DER bytes.
#[derive(Debug)]
pub enum PrivateKey {
    Pkcs1(Vec<u8>),
    Pkcs8(Vec<u8>),
    Sec1(Vec<u8>),
}

/// A `PrivateKey` with its bytes as a sequence.
pub ghost enum PrivateKeyView {
    Pkcs1(Seq<u8>),
    Pkcs8(Seq<u8>),
    Sec1(Seq<u8>),
}

impl View for PemItem {
    type V = PemItemView;

    open spec fn view(&self) -> PemItemView {
        match self {
            PemItem::X509Certificate(der) => PemItemView::X509Certificate(der@),
            PemItem::SubjectPublicKeyInfo(der) => PemItemView::SubjectPublicKeyInfo(der@),
            PemItem::Pkcs1Key(der) => PemItemView::Pkcs1Key(der@),
            PemItem::Pkcs8Key(der) => PemItemView::Pkcs8Key(der@),
            PemItem::Sec1Key(der) => PemItemView::Sec1Key(der@),
            PemItem::Crl(der) => PemItemView::Crl(der@),
            PemItem::Csr(der) => PemItemView::Csr(der@),
            PemItem::Unknown => PemItemView::Unknown,
        }
    }
}

impl View for PrivateKey {
    type V = PrivateKeyView;

    open spec fn view(&self) -> PrivateKeyView {
        match self {
            PrivateKey::Pkcs1(der) => PrivateKeyView::Pkcs1(der@),
            PrivateKey::Pkcs8(der) => PrivateKeyView::Pkcs8(der@),
            PrivateKey::Sec1(der) => PrivateKeyView::Sec1(der@),
        }
    }
}

/// A certificate chain as a sequence of byte sequences.
pub open spec fn chain_view(chain: Seq<Vec<u8>>) -> Seq<Seq<u8>> {
    chain.map_values(|der: Vec<u8>| der@)
}

/// An item that may be absent, with its bytes as a sequence.
pub open spec fn item_view(item: Option<PemItem>) -> Option<PemItemView> {
    match item {
        Some(item) => Some(item@),
        None => None,
    }
}

/// The certificates of a PEM file in the order of the file, or an error where a
/// section of the file cannot be read.
pub uninterp spec fn pem_certs(pem: Seq<u8>) -> Result<Seq<Seq<u8>>, ()>;

/// The first section of a PEM file whose kind the reader knows, `None` where there is
/// none, or an error where a section up to there cannot be read.
pub uninterp spec fn pem_first_item(pem: Seq<u8>) -> Result<Option<PemItemView>, ()>;

/// The certificate chain that a server with this configuration presents, and the
/// private key that it signs with.
pub uninterp spec fn served_identity(config: ServerConfig) -> (Seq<Seq<u8>>, PrivateKeyView);

/// Whether a server with this configuration asks its clients for a certificate.
pub uninterp spec fn asks_client_cert(config: ServerConfig) -> bool;

/// Whether this is an error with which the TLS library may refuse to serve a chain
/// with a key. Which one it is, if any, rests on the crypto provider.
pub uninterp spec fn may_refuse(
    chain: Seq<Seq<u8>>,
    key: PrivateKeyView,
    cause: rustls::Error,
) -> bool;

/// `rustls_pemfile::certs` on the bytes of a file, its items collected up to the
/// first error. The bytes alone decide what comes out, named `pem_certs`. Which
/// error is returned is left unsaid.
#[verifier::external_body]
pub(crate) fn read_certs(pem: &[u8]) -> (res: Result<Vec<Vec<u8>>, std::io::Error>)
    ensures
        match res {
            Ok(chain) => pem_certs(pem@) == Ok::<Seq<Seq<u8>>, ()>(chain_view(chain@)),
            Err(_) => pem_certs(pem@) == Err::<Seq<Seq<u8>>, ()>(()),
        },
{
    let mut reader = pem;
    rustls_pemfile::certs(&mut reader).map(|cert| cert.map(|der| der.to_vec())).collect()
}

/// `rustls_pemfile::read_one` at the start of a file. It passes over text between
/// sections and over sections of a kind that it does not know. The bytes alone decide what
/// comes out, named `pem_first_item`. Which error is returned is left unsaid.
#[verifier::external_body]
pub(crate) fn read_first_item(pem: &[u8]) -> (res: Result<Option<PemItem>, std::io::Error>)
    ensures
        match res {
            Ok(item) => pem_first_item(pem@) == Ok::<Option<PemItemView>, ()>(item_view(item)),
            Err(_) => pem_first_item(pem@) == Err::<Option<PemItemView>, ()>(()),
        },
{
    let mut reader = pem;
    Ok(rustls_pemfile::read_one(&mut reader)?.map(|item| match item {
        Item::X509Certificate(der) => PemItem::X509Certificate(der.to_vec()),
        Item::SubjectPublicKeyInfo(der) => PemItem::SubjectPublicKeyInfo(der.to_vec()),
        Item::Pkcs1Key(der) => PemItem::Pkcs1Key(der.secret_pkcs1_der().to_vec()),
        Item::Pkcs8Key(der) => PemItem::Pkcs8Key(der.secret_pkcs8_der().to_vec()),
        Item::Sec1Key(der) => PemItem::Sec1Key(der.secret_sec1_der().to_vec()),
        Item::Crl(der) => PemItem::Crl(der.to_vec()),
        Item::Csr(der) => PemItem::Csr(der.to_vec()),
        _ => PemItem::Unknown,
    }))
}

/// `rustls::ServerConfig::builder`, `with_no_client_auth` and `with_single_cert`.
/// A configuration that comes back presents this chain and signs with this key
/// on every connection, and asks no client for a certificate. An error that comes
/// back is one that this chain and this key may be refused with. Which of the two
/// comes back is left unsaid: it rests on the crypto provider of the process, which
/// judges the key. The crate is built with
/// one provider, so that there is always one to take, and that one supports the
/// protocol versions asked for. A process that installs a provider of its own has
/// to install one that does, too: `builder` panics otherwise.
#[verifier::external_body]
pub(crate) fn single_cert_config(chain: Vec<Vec<u8>>, key: PrivateKey) -> (res: Result<
    ServerConfig,
    rustls::Error,
>)
    ensures
        match res {
            Ok(config) => {
                &&& served_identity(config) == (chain_view(chain@), key@)
                &&& !asks_client_cert(config)
            },
            Err(cause) => may_refuse(chain_view(chain@), key@, cause),
        },
{
    let chain = chain.into_iter().map(CertificateDer::from).collect();
    let key = match key {
        PrivateKey::Pkcs1(der) => PrivateKeyDer::Pkcs1(der.into()),
        PrivateKey::Pkcs8(der) => PrivateKeyDer::Pkcs8(der.into()),
        PrivateKey::Sec1(der) => PrivateKeyDer::Sec1(der.into()),
    };
    ServerConfig::builder().with_no_client_auth().with_single_cert(chain, key)
}

} // verus!
