use std::io;
use std::sync::Arc;

use greptime_services::tls::TlsMode::Disable;
use greptime_services::tls::{
    finish_setup, maybe_watch_tls_config, next_reload_action, AwaitCert, AwaitKey, FileChange,
    ParseTlsModeError, PemItem, PrivateKey, ReloadableTlsServerConfig, ReloaderAction,
    ReloaderEvent, SetupAction, TlsError, TlsMode, TlsOption, WatchAction, WatchEvent,
};
use rustls::ServerConfig;

/// A certificate for the key of the number one.
const CERT_ONE: &str = "\
-----BEGIN CERTIFICATE-----
MIIBfzCCASWgAwIBAgIUT3AcnmvfGfjtyBCmTDNpV9xapU4wCgYIKoZIzj0EAwIw
FDESMBAGA1UEAwwJbG9jYWxob3N0MCAXDTI2MTExNjAyMDQwNFoYDzIxMjYxMDIz
MDIwNDA0WjAUMRIwEAYDVQQDDAlsb2NhbGhvc3QwWTATBgcqhkjOPQIBBggqhkjO
PQMBBwNCAARrF9Hy4SxCR/i85uVjpEDydwN9gS3rM6D0oTlF2JjClk/jQuL+Gn+b
jufrSnwPnhYrzjNXazFezsu2QGg3v1H1o1MwUTAdBgNVHQ4EFgQUtGejmZ6176Zx
3gAy8Iqcnl79oOEwHwYDVR0jBBgwFoAUtGejmZ6176Zx3gAy8Iqcnl79oOEwDwYD
VR0TAQH/BAUwAwEB/zAKBggqhkjOPQQDAgNIADBFAiA0tI343PiDDzqpy58AeTfH
GDiKa018L09CzYqoJYrtJAIhAM4Qun4Xg1m8ye4H0BnLPctJmnsSo48YjjyQIP81
PntW
-----END CERTIFICATE-----
";

/// A certificate for the key of the number two.
const CERT_TWO: &str = "\
-----BEGIN CERTIFICATE-----
MIIBfzCCASWgAwIBAgIUb9MU3GZQu7yfrjxuRbGRCn55VL4wCgYIKoZIzj0EAwIw
FDESMBAGA1UEAwwJbG9jYWxob3N0MCAXDTI2MTExNjAyMDQwNFoYDzIxMjYxMDIz
MDIwNDA0WjAUMRIwEAYDVQQDDAlsb2NhbGhvc3QwWTATBgcqhkjOPQIBBggqhkjO
PQMBBwNCAAR88nsYjQNPfopSOAMEtRrDwIlp4nfyGzWmC0j8R2aZeAd3VRDbjtBA
KT2axp90MNu6fa3mPOmCKZ4Et50ieHPRo1MwUTAdBgNVHQ4EFgQUW0cXsE6s7VfE
7KFyjKmnHTsiQ0AwHwYDVR0jBBgwFoAUW0cXsE6s7VfE7KFyjKmnHTsiQ0AwDwYD
VR0TAQH/BAUwAwEB/zAKBggqhkjOPQQDAgNIADBFAiEAoRLK4mRnF1gz5SLc/Sup
EE/aHodJSP/jYMR2wVBod08CIGPGxAa3KnGAhuZgFJgLMwAafCUKJkfCcWxaF8UM
UZow
-----END CERTIFICATE-----
";

/// The public key of the number one.
const PUBLIC_KEY_ONE: &str = "\
-----BEGIN PUBLIC KEY-----
MFkwEwYHKoZIzj0CAQYIKoZIzj0DAQcDQgAEaxfR8uEsQkf4vOblY6RA8ncDfYEt
6zOg9KE5RdiYwpZP40Li/hp/m47n60p8D54WK84zV2sxXs7LtkBoN79R9Q==
-----END PUBLIC KEY-----
";

fn base64(bytes: &[u8]) -> String {
    let digits = b"ABCDEFGHIJKLMNOPQRSTUVWXYZabcdefghijklmnopqrstuvwxyz0123456789+/";
    let mut text = String::new();
    for group in bytes.chunks(3) {
        let byte = |i: usize| u32::from(*group.get(i).unwrap_or(&0));
        let bits = byte(0) << 16 | byte(1) << 8 | byte(2);
        for i in 0..4 {
            let digit = digits[(bits >> (18 - 6 * i) & 63) as usize];
            text.push(if i <= group.len() { char::from(digit) } else { '=' });
        }
    }
    text
}

fn pem(label: &str, der: &[u8]) -> String {
    format!("-----BEGIN {label}-----\n{}\n-----END {label}-----\n", base64(der))
}

/// A DER value: its tag, its length, which is small, and its contents.
fn der(tag: u8, contents: &[&[u8]]) -> Vec<u8> {
    let contents = contents.concat();
    assert!(contents.len() < 256);
    let mut value = vec![tag];
    if contents.len() >= 128 {
        value.push(0x81);
    }
    value.push(contents.len() as u8);
    value.extend(contents);
    value
}

const P256: &[u8] = &[0x06, 0x08, 0x2a, 0x86, 0x48, 0xce, 0x3d, 0x03, 0x01, 0x07];
const EC_PUBLIC_KEY: &[u8] = &[0x06, 0x07, 0x2a, 0x86, 0x48, 0xce, 0x3d, 0x02, 0x01];

/// The private key whose secret is a small number, on the curve P-256. It is as public
/// as the number. The certificate holds its public part.
fn small_key(number: u8, cert: &str) -> Vec<u8> {
    let chain = await_key(&option(TlsMode::Require, false), cert).chain;
    let start = chain[0].windows(4).position(|bytes| bytes == [0x03, 0x42, 0x00, 0x04]).unwrap();
    let public = &chain[0][start..start + 68];
    let mut secret = [0; 32];
    secret[31] = number;
    der(
        0x30,
        &[&[0x02, 0x01, 0x01], &der(0x04, &[&secret]), &der(0xa0, &[P256]), &der(0xa1, &[public])],
    )
}

fn sec1_key(number: u8, cert: &str) -> String {
    pem("EC PRIVATE KEY", &small_key(number, cert))
}

fn pkcs8_key(number: u8, cert: &str) -> String {
    let algorithm = der(0x30, &[EC_PUBLIC_KEY, P256]);
    let key = der(0x04, &[&small_key(number, cert)]);
    pem("PRIVATE KEY", &der(0x30, &[&[0x02, 0x01, 0x00], &algorithm, &key]))
}

type Setup = Result<Option<ServerConfig>, TlsError>;

fn option_from_json(text: &str) -> TlsOption {
    let value: serde_json::Value = serde_json::from_str(text).unwrap();
    let text_of = |name: &str| value.get(name).map(|v| v.as_str().unwrap().to_string());
    TlsOption::from_config(
        value.get("mode").unwrap().as_str().unwrap(),
        text_of("cert_path"),
        text_of("key_path"),
        value.get("watch").map(|v| v.as_bool().unwrap()),
    )
    .unwrap()
}

fn option(mode: TlsMode, watch: bool) -> TlsOption {
    TlsOption {
        mode,
        cert_path: "/some_dir/some.crt".to_string(),
        key_path: "/some_dir/some.key".to_string(),
        watch,
    }
}

fn await_cert(option: &TlsOption) -> AwaitCert {
    match option.setup() {
        SetupAction::ReadCert(next) => next,
        other => panic!("unexpected action {other:?}"),
    }
}

fn await_key(option: &TlsOption, cert: &str) -> AwaitKey {
    match await_cert(option).resume(Ok(cert.as_bytes().to_vec())) {
        SetupAction::ReadKey(next) => next,
        other => panic!("unexpected action {other:?}"),
    }
}

fn finished(action: SetupAction) -> Setup {
    match action {
        SetupAction::Finish(setup) => setup,
        other => panic!("unexpected action {other:?}"),
    }
}

fn load(option: &TlsOption, cert: &str, key: &str) -> Setup {
    finished(await_key(option, cert).resume(Ok(key.as_bytes().to_vec())))
}

fn container(mode: TlsMode, watch: bool) -> ReloadableTlsServerConfig {
    ReloadableTlsServerConfig::try_new(option(mode, watch), Ok(None)).unwrap()
}

#[test]
fn test_new_tls_option() {
    assert_eq!(TlsOption::default(), TlsOption::new(None, None, None));
    assert_eq!(
        TlsOption {
            mode: Disable,
            ..Default::default()
        },
        TlsOption::new(Some(Disable), None, None)
    );
    assert_eq!(
        TlsOption {
            mode: Disable,
            cert_path: "/path/to/cert_path".to_string(),
            key_path: "/path/to/key_path".to_string(),
            watch: false
        },
        TlsOption::new(
            Some(Disable),
            Some("/path/to/cert_path".to_string()),
            Some("/path/to/key_path".to_string())
        )
    );
}

#[test]
fn test_tls_option_disable() {
    let s = r#"
        {
            "mode": "disable"
        }
        "#;

    let t: TlsOption = option_from_json(s);

    assert!(!t.should_force_tls());

    assert!(matches!(t.mode, TlsMode::Disable));
    assert!(t.key_path.is_empty());
    assert!(t.cert_path.is_empty());
    assert!(!t.watch_enabled());

    let setup = finished(t.setup());
    let setup = setup.unwrap();
    assert!(setup.is_none());
}

#[test]
fn test_tls_option_prefer() {
    let s = r#"
        {
            "mode": "prefer",
            "cert_path": "/some_dir/some.crt",
            "key_path": "/some_dir/some.key"
        }
        "#;

    let t: TlsOption = option_from_json(s);

    assert!(!t.should_force_tls());

    assert!(matches!(t.mode, TlsMode::Prefer));
    assert!(!t.key_path.is_empty());
    assert!(!t.cert_path.is_empty());
    assert!(!t.watch_enabled());
}

#[test]
fn test_tls_option_require() {
    let s = r#"
        {
            "mode": "require",
            "cert_path": "/some_dir/some.crt",
            "key_path": "/some_dir/some.key"
        }
        "#;

    let t: TlsOption = option_from_json(s);

    assert!(t.should_force_tls());

    assert!(matches!(t.mode, TlsMode::Require));
    assert!(!t.key_path.is_empty());
    assert!(!t.cert_path.is_empty());
    assert!(!t.watch_enabled());
}

#[test]
fn test_tls_option_verify_ca() {
    let s = r#"
        {
            "mode": "verify_ca",
            "cert_path": "/some_dir/some.crt",
            "key_path": "/some_dir/some.key"
        }
        "#;

    let t: TlsOption = option_from_json(s);

    assert!(t.should_force_tls());

    assert!(matches!(t.mode, TlsMode::VerifyCa));
    assert!(!t.key_path.is_empty());
    assert!(!t.cert_path.is_empty());
    assert!(!t.watch_enabled());
}

#[test]
fn test_tls_option_verify_full() {
    let s = r#"
        {
            "mode": "verify_full",
            "cert_path": "/some_dir/some.crt",
            "key_path": "/some_dir/some.key"
        }
        "#;

    let t: TlsOption = option_from_json(s);

    assert!(t.should_force_tls());

    assert!(matches!(t.mode, TlsMode::VerifyFull));
    assert!(!t.key_path.is_empty());
    assert!(!t.cert_path.is_empty());
    assert!(!t.watch_enabled());
}

#[test]
fn test_tls_option_watch_enabled() {
    let s = r#"
        {
            "mode": "verify_full",
            "cert_path": "/some_dir/some.crt",
            "key_path": "/some_dir/some.key",
            "watch": true
        }
        "#;

    let t: TlsOption = option_from_json(s);

    assert!(t.should_force_tls());

    assert!(matches!(t.mode, TlsMode::VerifyFull));
    assert!(!t.key_path.is_empty());
    assert!(!t.cert_path.is_empty());
    assert!(t.watch_enabled());
}

#[test]
fn modes_are_read_from_both_spellings() {
    for (mode, name, config_name) in [
        (TlsMode::Disable, "disable", "disable"),
        (TlsMode::Prefer, "prefer", "prefer"),
        (TlsMode::Require, "require", "require"),
        (TlsMode::VerifyCa, "verify-ca", "verify_ca"),
        (TlsMode::VerifyFull, "verify-full", "verify_full"),
    ] {
        assert_eq!(Ok(mode), TlsMode::parse(name));
        assert_eq!(Ok(mode), name.parse::<TlsMode>());
        assert_eq!(config_name, mode.to_config_name());
        assert_eq!(Ok(mode), TlsMode::from_config_name(config_name));
    }
}

#[test]
fn unknown_modes_are_refused() {
    let unknown = Err(ParseTlsModeError::VariantNotFound);
    assert_eq!(unknown, TlsMode::parse("verify_ca"));
    assert_eq!(unknown, TlsMode::parse("Disable"));
    assert_eq!(unknown, "".parse::<TlsMode>());
    assert_eq!(unknown, TlsMode::from_config_name("verify-ca"));
    assert_eq!(
        Err(ParseTlsModeError::VariantNotFound),
        TlsOption::from_config("allow", None, None, Some(true))
    );
}

#[test]
fn defaults_and_clones() {
    assert_eq!(TlsMode::Disable, TlsMode::default());
    let original = option(TlsMode::Require, true);
    assert_eq!(original, original.clone());
    assert_eq!("/some_dir/some.crt", original.cert_path());
    assert_eq!("/some_dir/some.key", original.key_path());
}

#[test]
fn watching_needs_tls() {
    assert!(!option(TlsMode::Disable, true).watch_enabled());
    assert!(option(TlsMode::Prefer, true).watch_enabled());
}

#[test]
fn setup_asks_for_the_certificate_and_then_for_the_key() {
    let tls = option(TlsMode::Prefer, false);
    let cert = await_cert(&tls);
    assert_eq!("/some_dir/some.crt", cert.path());
    let key = await_key(&tls, CERT_ONE);
    assert_eq!("/some_dir/some.key", key.path());
    assert_eq!(1, key.chain.len());
    // The certificate is handed over as DER: a sequence with a two-byte length.
    assert_eq!(vec![0x30, 0x82], key.chain[0][..2].to_vec());
    assert_eq!(387, key.chain[0].len());
}

#[test]
fn a_chain_keeps_its_order_and_leaves_other_sections_out() {
    let file = format!("{CERT_TWO}{PUBLIC_KEY_ONE}{CERT_ONE}");
    let chain = await_key(&option(TlsMode::Require, false), &file).chain;
    let one = await_key(&option(TlsMode::Require, false), CERT_ONE).chain;
    let two = await_key(&option(TlsMode::Require, false), CERT_TWO).chain;
    assert_eq!(vec![two[0].clone(), one[0].clone()], chain);
    assert_ne!(one, two);
}

#[test]
fn a_key_keeps_its_encoding() {
    let tls = option(TlsMode::Require, false);
    for (cert, key) in [
        (CERT_ONE, sec1_key(1, CERT_ONE)),
        (CERT_ONE, pkcs8_key(1, CERT_ONE)),
        (CERT_TWO, sec1_key(2, CERT_TWO)),
        (CERT_TWO, pkcs8_key(2, CERT_TWO)),
    ] {
        let config = load(&tls, cert, &key).unwrap();
        assert!(config.unwrap().alpn_protocols.is_empty());
    }
    // The same bytes under another encoding are taken for a key, and refused as one.
    for label in ["RSA PRIVATE KEY", "PRIVATE KEY"] {
        let key = pem(label, &small_key(1, CERT_ONE));
        let setup = load(&tls, CERT_ONE, &key);
        assert!(matches!(setup, Err(TlsError::InvalidServerConfig { .. })));
    }
}

#[test]
fn every_key_encoding_is_a_key() {
    assert!(matches!(
        PemItem::Pkcs1Key(vec![1]).into_private_key(),
        Some(PrivateKey::Pkcs1(der)) if der == vec![1]
    ));
    assert!(matches!(
        PemItem::Pkcs8Key(vec![2]).into_private_key(),
        Some(PrivateKey::Pkcs8(der)) if der == vec![2]
    ));
    assert!(matches!(
        PemItem::Sec1Key(vec![3]).into_private_key(),
        Some(PrivateKey::Sec1(der)) if der == vec![3]
    ));
}

#[test]
fn a_key_of_another_certificate_is_refused() {
    let tls = option(TlsMode::Require, false);
    let setup = load(&tls, CERT_ONE, &pkcs8_key(2, CERT_TWO));
    assert!(matches!(setup, Err(TlsError::InvalidServerConfig { .. })));
    let setup = load(&tls, "", &sec1_key(1, CERT_ONE));
    assert!(matches!(setup, Err(TlsError::InvalidServerConfig { .. })));
}

#[test]
fn a_key_file_has_to_start_with_a_key() {
    let tls = option(TlsMode::Require, false);
    for file in ["", "no sections here\n", CERT_ONE, PUBLIC_KEY_ONE] {
        assert!(matches!(load(&tls, CERT_ONE, file), Err(TlsError::InvalidKey)));
    }
    // A key after another section is not looked for.
    let file = format!("{CERT_ONE}{}", sec1_key(1, CERT_ONE));
    assert!(matches!(load(&tls, CERT_ONE, &file), Err(TlsError::InvalidKey)));
}

#[test]
fn sections_of_unknown_kinds_are_passed_over() {
    let tls = option(TlsMode::Require, false);
    let file = format!("{}{}", pem("SOMETHING ELSE", &[1, 2, 3]), sec1_key(1, CERT_ONE));
    assert!(load(&tls, CERT_ONE, &file).unwrap().is_some());
}

#[test]
fn neither_the_mode_nor_the_watching_decides_a_setup() {
    for mode in [TlsMode::Prefer, TlsMode::Require, TlsMode::VerifyCa, TlsMode::VerifyFull] {
        for watch in [false, true] {
            let tls = option(mode, watch);
            let config = load(&tls, CERT_ONE, &sec1_key(1, CERT_ONE)).unwrap().unwrap();
            assert!(format!("{config:?}").contains("NoClientAuth"));
            assert!(matches!(load(&tls, CERT_ONE, CERT_ONE), Err(TlsError::InvalidKey)));
            let setup = load(&tls, CERT_ONE, &sec1_key(2, CERT_TWO));
            assert!(matches!(setup, Err(TlsError::InvalidServerConfig { .. })));
        }
    }
}

#[test]
fn unreadable_files_end_the_setup() {
    let tls = option(TlsMode::VerifyFull, false);
    let missing = || io::Error::new(io::ErrorKind::NotFound, "missing");

    let setup = finished(await_cert(&tls).resume(Err(missing())));
    assert!(matches!(setup, Err(TlsError::InternalIo { error }) if error.kind() == io::ErrorKind::NotFound));
    let setup = finished(await_key(&tls, CERT_ONE).resume(Err(missing())));
    assert!(matches!(setup, Err(TlsError::InternalIo { error }) if error.kind() == io::ErrorKind::NotFound));

    let cut = CERT_ONE.replace("-----END CERTIFICATE-----", "");
    let setup = finished(await_cert(&tls).resume(Ok(cut.clone().into_bytes())));
    assert!(matches!(setup, Err(TlsError::InternalIo { error }) if error.kind() == io::ErrorKind::InvalidData));
    let setup = finished(await_key(&tls, CERT_ONE).resume(Ok(cut.into_bytes())));
    assert!(matches!(setup, Err(TlsError::InternalIo { error }) if error.kind() == io::ErrorKind::InvalidData));
}

#[test]
fn each_step_of_a_setup_takes_its_outcome() {
    let tls = option(TlsMode::Require, false);
    let next = match await_cert(&tls).with_certs(Ok(vec![vec![1, 2], vec![3]])) {
        SetupAction::ReadKey(next) => next,
        other => panic!("unexpected action {other:?}"),
    };
    assert_eq!(vec![vec![1, 2], vec![3]], next.chain);
    let other = io::Error::other("broken");
    assert!(matches!(
        finished(next.with_item(Err(other))),
        Err(TlsError::InternalIo { .. })
    ));
    let next = await_key(&tls, CERT_ONE);
    assert!(matches!(
        finished(next.with_item(Ok(Some(PemItem::Unknown)))),
        Err(TlsError::InvalidKey)
    ));
    assert!(PemItem::Csr(vec![7]).into_private_key().is_none());
    assert!(matches!(
        finished(finish_setup(Err(rustls::Error::General("refused".to_string())))),
        Err(TlsError::InvalidServerConfig { .. })
    ));
}

#[test]
fn a_reload_replaces_the_configuration_and_counts() {
    let tls = option(TlsMode::Require, true);
    let first = load(&tls, CERT_ONE, &sec1_key(1, CERT_ONE));
    let mut config = ReloadableTlsServerConfig::try_new(tls.clone(), first).unwrap();
    assert_eq!(0, config.get_version());
    assert_eq!(&tls, config.get_tls_option());
    let before: Arc<ServerConfig> = config.get_server_config().unwrap();

    assert!(config.reload(load(&tls, CERT_ONE, &pkcs8_key(1, CERT_ONE))).is_ok());
    assert_eq!(1, config.get_version());
    let after = config.get_server_config().unwrap();
    assert!(!Arc::ptr_eq(&before, &after));

    let failed = config.reload(load(&tls, CERT_ONE, ""));
    assert!(matches!(failed, Err(TlsError::InvalidKey)));
    assert_eq!(1, config.get_version());
    assert!(Arc::ptr_eq(&after, &config.get_server_config().unwrap()));
}

#[test]
fn a_container_needs_a_setup_that_succeeded() {
    let disabled = TlsOption::default();
    let setup = finished(disabled.setup());
    let config = ReloadableTlsServerConfig::try_new(disabled, setup).unwrap();
    assert!(config.get_server_config().is_none());
    let mut config = config;
    let again = finished(config.get_tls_option().setup());
    assert!(config.reload(again).is_ok());
    assert!(config.get_server_config().is_none());
    assert_eq!(1, config.get_version());
    assert!(matches!(
        ReloadableTlsServerConfig::try_new(TlsOption::default(), Err(TlsError::InvalidKey)),
        Err(TlsError::InvalidKey)
    ));
}

#[test]
fn nothing_is_watched_unless_asked_for() {
    for (mode, watch) in [(TlsMode::Disable, true), (TlsMode::Require, false)] {
        assert!(matches!(
            maybe_watch_tls_config(&container(mode, watch), WatchEvent::Begin),
            WatchAction::Finish(Ok(()))
        ));
    }
}

#[test]
fn both_files_are_watched() {
    let config = container(TlsMode::Require, true);
    assert!(matches!(
        maybe_watch_tls_config(&config, WatchEvent::Begin),
        WatchAction::CreateWatcher
    ));
    assert!(matches!(
        maybe_watch_tls_config(&config, WatchEvent::WatcherCreated(Ok(()))),
        WatchAction::WatchCert(path) if path == "/some_dir/some.crt"
    ));
    assert!(matches!(
        maybe_watch_tls_config(&config, WatchEvent::CertWatched(Ok(()))),
        WatchAction::WatchKey(path) if path == "/some_dir/some.key"
    ));
    assert!(matches!(
        maybe_watch_tls_config(&config, WatchEvent::KeyWatched(Ok(()))),
        WatchAction::StartReloader
    ));
}

#[test]
fn a_failed_watch_names_its_path() {
    let config = container(TlsMode::Require, true);
    let fails_at = |event, expected: &str| match maybe_watch_tls_config(&config, event) {
        WatchAction::Finish(Err(TlsError::FileWatch { path, reason })) => {
            assert_eq!(expected, path);
            assert_eq!("no space", reason);
        }
        other => panic!("unexpected action {other:?}"),
    };
    let failure = || Err("no space".to_string());
    fails_at(WatchEvent::WatcherCreated(failure()), "<none>");
    fails_at(WatchEvent::CertWatched(failure()), "/some_dir/some.crt");
    fails_at(WatchEvent::KeyWatched(failure()), "/some_dir/some.key");
}

#[test]
fn only_new_contents_are_reloaded() {
    for (event, expected) in [
        (ReloaderEvent::Begin, ReloaderAction::Receive),
        (ReloaderEvent::Changed(FileChange::Modify), ReloaderAction::Reload),
        (ReloaderEvent::Changed(FileChange::Create), ReloaderAction::Reload),
        (ReloaderEvent::Changed(FileChange::Any), ReloaderAction::Receive),
        (ReloaderEvent::Changed(FileChange::Access), ReloaderAction::Receive),
        (ReloaderEvent::Changed(FileChange::Remove), ReloaderAction::Receive),
        (ReloaderEvent::Changed(FileChange::Other), ReloaderAction::Receive),
        (ReloaderEvent::WatchFailed, ReloaderAction::Receive),
        (ReloaderEvent::Reloaded(Ok(())), ReloaderAction::Receive),
        (ReloaderEvent::Reloaded(Err(TlsError::InvalidKey)), ReloaderAction::Receive),
        (ReloaderEvent::Disconnected, ReloaderAction::Stop),
    ] {
        assert_eq!(expected, next_reload_action(event));
    }
}

#[test]
fn a_changed_key_file_is_reloaded() {
    let tls = option(TlsMode::Require, true);
    let first = load(&tls, CERT_ONE, &sec1_key(1, CERT_ONE));
    let mut config = ReloadableTlsServerConfig::try_new(tls.clone(), first).unwrap();
    let before = config.get_server_config().unwrap();

    let reports = [
        (ReloaderEvent::Changed(FileChange::Access), pkcs8_key(1, CERT_ONE)),
        (ReloaderEvent::Changed(FileChange::Modify), String::new()),
        (ReloaderEvent::WatchFailed, pkcs8_key(1, CERT_ONE)),
        (ReloaderEvent::Changed(FileChange::Modify), pkcs8_key(1, CERT_ONE)),
        (ReloaderEvent::Changed(FileChange::Remove), sec1_key(1, CERT_ONE)),
    ];
    for (event, key) in reports {
        if next_reload_action(event) == ReloaderAction::Reload {
            let reloaded = config.reload(load(&tls, CERT_ONE, &key));
            let next = next_reload_action(ReloaderEvent::Reloaded(reloaded));
            assert_eq!(ReloaderAction::Receive, next);
        }
    }
    assert_eq!(1, config.get_version());
    assert!(!Arc::ptr_eq(&before, &config.get_server_config().unwrap()));
}
