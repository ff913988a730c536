//! What holds of the TLS options, of a whole setup, of the watching, and of a
//! container over its reloads.
use std::sync::Arc;

use rustls::ServerConfig;
use vstd::prelude::*;

use crate::tls::option;
use crate::tls::option::TlsMode;
use crate::tls::pem;
use crate::tls::reload;
use crate::tls::setup;
use crate::tls::setup::{SetupAction, TlsError};
use crate::tls::watch;
use crate::tls::watch::{FileChange, ReloaderAction, ReloaderEvent, WatchAction, WatchEvent};

verus! {

/// No two modes share a spelling, neither on the command line nor in a
/// configuration file: what is read back is the mode that was written.
pub proof fn law_mode_spellings_differ(left: TlsMode, right: TlsMode)
    ensures
        left.name() == right.name() ==> left == right,
        left.config_name() == right.config_name() ==> left == right,
{
    reveal_strlit("disable");
    reveal_strlit("prefer");
    reveal_strlit("require");
    reveal_strlit("verify-ca");
    reveal_strlit("verify-full");
    reveal_strlit("verify_ca");
    reveal_strlit("verify_full");
    assert("disable"@.len() == 7 && "prefer"@.len() == 6 && "require"@.len() == 7);
    assert("verify-ca"@.len() == 9 && "verify-full"@.len() == 11);
    assert("verify_ca"@.len() == 9 && "verify_full"@.len() == 11);
    assert("disable"@[0] != "require"@[0]);
}

/// The spelling of a mode on the command line is its spelling in a configuration file
/// with hyphens in place of underscores.
pub proof fn law_spellings_match(mode: TlsMode, i: int)
    requires
        0 <= i < mode.name().len(),
    ensures
        mode.name().len() == mode.config_name().len(),
        mode.name()[i] == (if mode.config_name()[i] == '_' {
            '-'
        } else {
            mode.config_name()[i]
        }),
        mode.config_name()[i] == (if mode.name()[i] == '-' {
            '_'
        } else {
            mode.name()[i]
        }),
{
    reveal_strlit("disable");
    reveal_strlit("prefer");
    reveal_strlit("require");
    reveal_strlit("verify-ca");
    reveal_strlit("verify-full");
    reveal_strlit("verify_ca");
    reveal_strlit("verify_full");
    assert("disable"@.len() == 7 && "prefer"@.len() == 6 && "require"@.len() == 7);
    assert("verify-ca"@.len() == 9 && "verify-full"@.len() == 11);
    assert("verify_ca"@.len() == 9 && "verify_full"@.len() == 11);
    match mode {
        TlsMode::Disable => {
            assert(i == 0 || i == 1 || i == 2 || i == 3 || i == 4 || i == 5 || i == 6);
        },
        TlsMode::Prefer => {
            assert(i == 0 || i == 1 || i == 2 || i == 3 || i == 4 || i == 5);
        },
        TlsMode::Require => {
            assert(i == 0 || i == 1 || i == 2 || i == 3 || i == 4 || i == 5 || i == 6);
        },
        TlsMode::VerifyCa => {
            assert(i == 0 || i == 1 || i == 2 || i == 3 || i == 4 || i == 5 || i == 6 || i == 7
                || i == 8);
        },
        TlsMode::VerifyFull => {
            assert(i == 0 || i == 1 || i == 2 || i == 3 || i == 4 || i == 5 || i == 6 || i == 7
                || i == 8 || i == 9 || i == 10);
        },
    }
}

/// The mode alone decides whether connections without TLS are turned away: they are in
/// the three modes that require it. The files are watched where TLS is on and the option
/// says so.
pub proof fn law_mode_decides(tls: option::TlsOptionView)
    ensures
        tls.forces_tls() <==> (match tls.mode {
            TlsMode::Disable => false,
            TlsMode::Prefer => false,
            TlsMode::Require => true,
            TlsMode::VerifyCa => true,
            TlsMode::VerifyFull => true,
        }),
        tls.watches() <==> (match tls.mode {
            TlsMode::Disable => false,
            TlsMode::Prefer => tls.watch,
            TlsMode::Require => tls.watch,
            TlsMode::VerifyCa => tls.watch,
            TlsMode::VerifyFull => tls.watch,
        }),
{
}

/// A setting that is given is taken over as it is, whatever the others are. One that is
/// not given is that of the default option, which has no TLS, no paths and no watching.
pub proof fn law_given_settings_are_kept(
    mode: Option<TlsMode>,
    cert_path: Option<String>,
    key_path: Option<String>,
)
    ensures
        ({
            let tls = option::TlsOptionView::given(mode, cert_path, key_path);
            let empty = option::TlsOptionView::empty();
            &&& mode matches Some(given) ==> tls.mode == given
            &&& mode is None ==> tls.mode == empty.mode
            &&& cert_path matches Some(path) ==> tls.cert_path == path@
            &&& cert_path is None ==> tls.cert_path == empty.cert_path
            &&& key_path matches Some(path) ==> tls.key_path == path@
            &&& key_path is None ==> tls.key_path == empty.key_path
            &&& tls.watch == empty.watch
            &&& empty.mode == TlsMode::Disable && !empty.watch
            &&& empty.cert_path.len() == 0 && empty.key_path.len() == 0
        }),
{
}

/// A section of a configuration file makes the same option as the same settings given
/// one by one, but that it can also ask for the watching. What it says of the watching
/// is taken over in every mode.
pub proof fn law_section_settings_are_kept(
    mode: TlsMode,
    cert_path: Option<String>,
    key_path: Option<String>,
    watch: Option<bool>,
)
    ensures
        ({
            let tls = option::TlsOptionView::of_section(mode, cert_path, key_path, watch);
            let given = option::TlsOptionView::given(Some(mode), cert_path, key_path);
            &&& tls.mode == mode
            &&& tls.cert_path == given.cert_path
            &&& tls.key_path == given.key_path
            &&& cert_path matches Some(path) ==> tls.cert_path == path@
            &&& key_path matches Some(path) ==> tls.key_path == path@
            &&& watch matches Some(watch) ==> tls.watch == watch
            &&& watch is None ==> tls == given
        }),
{
}

/// A server that turns connections without TLS away has TLS, and so has one that
/// watches its certificate files.
pub proof fn law_tls_is_there_where_it_is_needed(tls: option::TlsOptionView)
    ensures
        tls.forces_tls() ==> tls.mode != TlsMode::Disable,
        tls.watches() ==> tls.mode != TlsMode::Disable,
{
}

/// What comes of reading the two files that a setup may ask for.
pub ghost struct SetupFiles {
    pub cert: Result<Vec<u8>, std::io::Error>,
    pub key: Result<Vec<u8>, std::io::Error>,
}

impl SetupFiles {
    /// Whether an action follows another one, once that is answered.
    pub open spec fn step(self, action: SetupAction, next: SetupAction) -> bool {
        match action {
            SetupAction::ReadCert(waiting) => waiting.leads_to(self.cert, next),
            SetupAction::ReadKey(waiting) => waiting.leads_to(self.key, next),
            SetupAction::Finish(_) => false,
        }
    }

    /// Whether these are the actions of a setup of the option, from the start, each
    /// after the answer to the one before.
    pub open spec fn run(self, tls: option::TlsOptionView, actions: Seq<SetupAction>) -> bool {
        &&& actions.len() > 0
        &&& tls.starts_setup(actions[0])
        &&& forall|i: int|
            0 <= i < actions.len() - 1 ==> self.step(#[trigger] actions[i], actions[i + 1])
    }

    /// What a setup that has TLS ends with. The files count in order: the
    /// certificates first, and then the key.
    pub open spec fn outcome(self, res: Result<Option<ServerConfig>, TlsError>) -> bool {
        match self.cert {
            Err(error) => res == Err::<Option<ServerConfig>, TlsError>(
                TlsError::InternalIo { error },
            ),
            Ok(cert) => match pem::pem_certs(cert@) {
                Err(_) => res matches Err(TlsError::InternalIo { .. }),
                Ok(chain) => self.key_outcome(chain, res),
            },
        }
    }

    /// What a setup that has its certificates ends with.
    pub open spec fn key_outcome(
        self,
        chain: Seq<Seq<u8>>,
        res: Result<Option<ServerConfig>, TlsError>,
    ) -> bool {
        match self.key {
            Err(error) => res == Err::<Option<ServerConfig>, TlsError>(
                TlsError::InternalIo { error },
            ),
            Ok(key) => match pem::pem_first_item(key@) {
                Err(_) => res matches Err(TlsError::InternalIo { .. }),
                Ok(item) => match setup::key_in(item) {
                    None => res == Err::<Option<ServerConfig>, TlsError>(TlsError::InvalidKey),
                    Some(key) => setup::configured(SetupAction::Finish(res), chain, key),
                },
            },
        }
    }

    /// A setup reads the certificate file and then the key file, and asks for
    /// nothing else. It ends with a configuration that serves exactly the
    /// certificates and the key of these files and asks for no client certificate, or with the error of the first thing
    /// that failed. Where TLS is disabled it reads nothing and ends with no
    /// configuration.
    pub proof fn law_setup_outcome(self, tls: option::TlsOptionView, actions: Seq<SetupAction>)
        requires
            self.run(tls, actions),
        ensures
            actions.len() <= 3,
            tls.mode == TlsMode::Disable ==> actions == seq![
                SetupAction::Finish(Ok::<Option<ServerConfig>, TlsError>(None)),
            ],
            tls.mode != TlsMode::Disable && actions.last() is Finish ==> self.outcome(
                actions.last()->Finish_0,
            ),
    {
        if actions.len() > 1 {
            assert(self.step(actions[0], actions[1]));
        }
        if actions.len() > 2 {
            assert(self.step(actions[1], actions[2]));
        }
        if actions.len() > 3 {
            assert(self.step(actions[2], actions[3]));
        }
        if tls.mode == TlsMode::Disable {
            assert(actions =~= seq![
                SetupAction::Finish(Ok::<Option<ServerConfig>, TlsError>(None)),
            ]);
        }
    }

    /// A setup that succeeds brings a configuration exactly where TLS is not
    /// disabled.
    pub proof fn law_configuration_unless_disabled(
        self,
        tls: option::TlsOptionView,
        actions: Seq<SetupAction>,
        config: Option<ServerConfig>,
    )
        requires
            self.run(tls, actions),
            actions.last() == SetupAction::Finish(Ok(config)),
        ensures
            config is None <==> tls.mode == TlsMode::Disable,
    {
        self.law_setup_outcome(tls, actions);
    }

    /// A setup with TLS reads the file at the certificate path first. It reads the file at
    /// the key path if and only if there are certificates, and then ends.
    pub proof fn law_setup_reads_its_own_files(
        self,
        tls: option::TlsOptionView,
        actions: Seq<SetupAction>,
    )
        requires
            tls.mode != TlsMode::Disable,
            self.run(tls, actions),
            actions.last() is Finish,
        ensures
            actions[0] matches SetupAction::ReadCert(waiting) && waiting.awaited_path()
                == tls.cert_path,
            self.cert matches Ok(cert) && pem::pem_certs(cert@) is Ok ==> {
                &&& actions.len() == 3
                &&& actions[1] matches SetupAction::ReadKey(waiting)
                &&& waiting.awaited_path() == tls.key_path
            },
            !(self.cert matches Ok(cert) && pem::pem_certs(cert@) is Ok) ==> actions.len() == 2,
    {
        self.lemma_first_steps(tls, actions);
    }

    /// What the files hold decides how a setup with TLS ends. A certificate file that
    /// cannot be read, or not as PEM, ends it first, whatever the key file is. A key file
    /// that starts with a key is handed to the TLS library in its own encoding, byte by
    /// byte and with the whole chain: the configuration serves exactly that, or exactly that
    /// was refused. One that starts with anything else, or with nothing, has no valid key.
    pub proof fn law_each_section_keeps_its_encoding(
        self,
        tls: option::TlsOptionView,
        actions: Seq<SetupAction>,
        res: Result<Option<ServerConfig>, TlsError>,
        der: Seq<u8>,
    )
        requires
            tls.mode != TlsMode::Disable,
            self.run(tls, actions),
            actions.last() == SetupAction::Finish(res),
        ensures
            self.cert matches Err(error) ==> res == Err::<Option<ServerConfig>, TlsError>(
                TlsError::InternalIo { error },
            ),
            self.cert matches Ok(cert) && pem::pem_certs(cert@) is Err ==> unreadable(res),
            self.cert matches Ok(cert) && pem::pem_certs(cert@) is Ok ==> {
                let chain = pem::pem_certs(self.cert->Ok_0@)->Ok_0;
                &&& self.key matches Err(error) ==> res == Err::<Option<ServerConfig>, TlsError>(
                    TlsError::InternalIo { error },
                )
                &&& self.starts_with(Err(())) ==> unreadable(res)
                &&& self.starts_with(Ok(None)) ==> no_valid_key(res)
                &&& self.starts_with(Ok(Some(pem::PemItemView::Pkcs1Key(der)))) ==> answered(
                    res,
                    chain,
                    pem::PrivateKeyView::Pkcs1(der),
                )
                &&& self.starts_with(Ok(Some(pem::PemItemView::Pkcs8Key(der)))) ==> answered(
                    res,
                    chain,
                    pem::PrivateKeyView::Pkcs8(der),
                )
                &&& self.starts_with(Ok(Some(pem::PemItemView::Sec1Key(der)))) ==> answered(
                    res,
                    chain,
                    pem::PrivateKeyView::Sec1(der),
                )
                &&& self.starts_with(Ok(Some(pem::PemItemView::X509Certificate(der))))
                    ==> no_valid_key(res)
                &&& self.starts_with(Ok(Some(pem::PemItemView::SubjectPublicKeyInfo(der))))
                    ==> no_valid_key(res)
                &&& self.starts_with(Ok(Some(pem::PemItemView::Crl(der)))) ==> no_valid_key(res)
                &&& self.starts_with(Ok(Some(pem::PemItemView::Csr(der)))) ==> no_valid_key(res)
                &&& self.starts_with(Ok(Some(pem::PemItemView::Unknown))) ==> no_valid_key(res)
            },
    {
        self.law_setup_outcome(tls, actions);
    }

    /// Whether the key file could be read, and starts with this section.
    pub open spec fn starts_with(self, item: Result<Option<pem::PemItemView>, ()>) -> bool {
        self.key matches Ok(key) && pem::pem_first_item(key@) == item
    }

    /// Once TLS is on, the paths and the files alone decide a setup: neither the mode nor
    /// the watching plays a part. Two options with the same paths read the same files in
    /// the same order, and end alike: with configurations that serve the same
    /// certificates and key, or with errors of the same kind. Only the TLS library may
    /// answer differently, where it refuses the one and not the other.
    pub proof fn law_only_paths_and_files_count(
        self,
        left: option::TlsOptionView,
        right: option::TlsOptionView,
        left_actions: Seq<SetupAction>,
        right_actions: Seq<SetupAction>,
        left_res: Result<Option<ServerConfig>, TlsError>,
        right_res: Result<Option<ServerConfig>, TlsError>,
    )
        requires
            left.cert_path == right.cert_path,
            left.key_path == right.key_path,
            left.mode != TlsMode::Disable,
            right.mode != TlsMode::Disable,
            self.run(left, left_actions),
            self.run(right, right_actions),
            left_actions.last() == SetupAction::Finish(left_res),
            right_actions.last() == SetupAction::Finish(right_res),
        ensures
            left_actions.len() == right_actions.len(),
            forall|i: int|
                0 <= i < left_actions.len() ==> same_request(
                    #[trigger] left_actions[i],
                    right_actions[i],
                ),
            refused(left_res) == refused(right_res) ==> same_outcome(left_res, right_res),
            refused(left_res) ==> refused(right_res) || right_res is Ok,
            refused(right_res) ==> refused(left_res) || left_res is Ok,
    {
        self.law_setup_outcome(left, left_actions);
        self.law_setup_outcome(right, right_actions);
        self.lemma_first_steps(left, left_actions);
        self.lemma_first_steps(right, right_actions);
    }

    proof fn lemma_first_steps(self, tls: option::TlsOptionView, actions: Seq<SetupAction>)
        requires
            tls.mode != TlsMode::Disable,
            self.run(tls, actions),
            actions.last() is Finish,
        ensures
            actions[0] matches SetupAction::ReadCert(waiting) && {
                &&& waiting.cert_path@ == tls.cert_path
                &&& waiting.key_path@ == tls.key_path
            },
            if self.cert matches Ok(cert) && pem::pem_certs(cert@) is Ok {
                &&& actions.len() == 3
                &&& actions[1] matches SetupAction::ReadKey(waiting) && waiting.key_path@
                    == tls.key_path
            } else {
                actions.len() == 2
            },
    {
        assert(self.step(actions[0], actions[1]));
        if actions.len() > 2 {
            assert(self.step(actions[1], actions[2]));
        }
        if actions.len() > 3 {
            assert(self.step(actions[2], actions[3]));
        }
    }
}

/// Whether a setup ended because a file could not be read, or not as PEM.
pub open spec fn unreadable(res: Result<Option<ServerConfig>, TlsError>) -> bool {
    res matches Err(TlsError::InternalIo { .. })
}

/// Whether a setup ended because there was no key to use.
pub open spec fn no_valid_key(res: Result<Option<ServerConfig>, TlsError>) -> bool {
    res matches Err(TlsError::InvalidKey)
}

/// Whether a setup ended with what the TLS library answered to this chain and this key:
/// a configuration that serves them and asks no client for a certificate, or the error
/// that they were refused with.
pub open spec fn answered(
    res: Result<Option<ServerConfig>, TlsError>,
    chain: Seq<Seq<u8>>,
    key: pem::PrivateKeyView,
) -> bool {
    ||| res matches Ok(Some(config)) && pem::served_identity(config) == (chain, key)
        && !pem::asks_client_cert(config)
    ||| res matches Err(TlsError::InvalidServerConfig { cause }) && pem::may_refuse(
        chain,
        key,
        cause,
    )
}

/// Whether two actions read the same file, or both end a setup.
pub open spec fn same_request(left: SetupAction, right: SetupAction) -> bool {
    match (left, right) {
        (SetupAction::ReadCert(left), SetupAction::ReadCert(right)) => {
            left.cert_path@ == right.cert_path@
        },
        (SetupAction::ReadKey(left), SetupAction::ReadKey(right)) => {
            left.key_path@ == right.key_path@
        },
        (SetupAction::Finish(_), SetupAction::Finish(_)) => true,
        _ => false,
    }
}

/// Whether a setup ended because the TLS library refused the certificates and the key.
pub open spec fn refused(res: Result<Option<ServerConfig>, TlsError>) -> bool {
    res matches Err(TlsError::InvalidServerConfig { .. })
}

/// Whether two setups ended with configurations that serve alike, or with errors of the
/// same kind.
pub open spec fn same_outcome(
    left: Result<Option<ServerConfig>, TlsError>,
    right: Result<Option<ServerConfig>, TlsError>,
) -> bool {
    match (left, right) {
        (Ok(Some(left)), Ok(Some(right))) => {
            &&& pem::served_identity(left) == pem::served_identity(right)
            &&& pem::asks_client_cert(left) == pem::asks_client_cert(right)
        },
        (Err(TlsError::InternalIo { .. }), Err(TlsError::InternalIo { .. })) => true,
        (Err(TlsError::InvalidKey), Err(TlsError::InvalidKey)) => true,
        (
            Err(TlsError::InvalidServerConfig { .. }),
            Err(TlsError::InvalidServerConfig { .. }),
        ) => true,
        _ => false,
    }
}

/// Whether a setup of an option may end like this.
pub open spec fn setup_of(
    tls: option::TlsOptionView,
    res: Result<Option<ServerConfig>, TlsError>,
) -> bool {
    exists|files: SetupFiles, actions: Seq<SetupAction>| #[trigger]
        files.run(tls, actions) && actions.last() == SetupAction::Finish(res)
}

/// What comes of everything that the watching may ask for.
pub ghost struct WatchAnswers {
    pub watcher_created: Result<(), String>,
    pub cert_watched: Result<(), String>,
    pub key_watched: Result<(), String>,
}

impl WatchAnswers {
    /// The event that an action leads to, if it leads to one.
    pub open spec fn answer(self, action: WatchAction) -> Option<WatchEvent> {
        match action {
            WatchAction::CreateWatcher => Some(WatchEvent::WatcherCreated(self.watcher_created)),
            WatchAction::WatchCert(_) => Some(WatchEvent::CertWatched(self.cert_watched)),
            WatchAction::WatchKey(_) => Some(WatchEvent::KeyWatched(self.key_watched)),
            _ => None,
        }
    }

    /// Whether these are the actions of the watching of an option, from the start,
    /// each after the answer to the one before.
    pub open spec fn run(self, tls: option::TlsOptionView, actions: Seq<WatchAction>) -> bool {
        &&& actions.len() > 0
        &&& tls.watch_leads_to(WatchEvent::Begin, actions[0])
        &&& forall|i: int|
            0 <= i < actions.len() - 1 ==> match self.answer(#[trigger] actions[i]) {
                Some(event) => tls.watch_leads_to(event, actions[i + 1]),
                None => false,
            }
    }

    /// What the watching of an option that watches ends with.
    pub open spec fn outcome(self, tls: option::TlsOptionView, last: WatchAction) -> bool {
        match (self.watcher_created, self.cert_watched, self.key_watched) {
            (Err(reason), _, _) => watch::fails_at(last, watch::no_path(), reason),
            (Ok(_), Err(reason), _) => watch::fails_at(last, tls.cert_path, reason),
            (Ok(_), Ok(_), Err(reason)) => watch::fails_at(last, tls.key_path, reason),
            (Ok(_), Ok(_), Ok(_)) => last == WatchAction::StartReloader,
        }
    }

    /// The watching of an option ends with a reloader on both files, or with the
    /// error of the first thing that failed. Where nothing is to be watched, it asks
    /// for nothing and ends with success.
    pub proof fn law_watch_outcome(self, tls: option::TlsOptionView, actions: Seq<WatchAction>)
        requires
            self.run(tls, actions),
        ensures
            actions.len() <= 4,
            !tls.watches() ==> actions == seq![WatchAction::Finish(Ok(()))],
            tls.watches() && self.answer(actions.last()) is None ==> self.outcome(
                tls,
                actions.last(),
            ),
    {
        if actions.len() > 1 {
            assert(self.answer(actions[0]) is Some);
        }
        if actions.len() > 2 {
            assert(self.answer(actions[1]) is Some);
        }
        if actions.len() > 3 {
            assert(self.answer(actions[2]) is Some);
        }
        if actions.len() > 4 {
            assert(self.answer(actions[3]) is Some);
        }
        if !tls.watches() {
            assert(actions =~= seq![WatchAction::Finish(Ok(()))]);
        }
    }
}

impl WatchAnswers {
    /// The actions of the watching of an option that watches, one by one: a watcher, the
    /// certificate file of the option, its key file, and then the reloader. Each comes only
    /// after the success of the one before. A failure names the path that could not be
    /// watched, if it was a path, and the reason.
    pub proof fn law_watching_in_order(self, tls: option::TlsOptionView, actions: Seq<WatchAction>)
        requires
            tls.watches(),
            self.run(tls, actions),
        ensures
            actions[0] == WatchAction::CreateWatcher,
            actions.len() > 1 && self.watcher_created is Ok ==> {
                &&& actions[1] matches WatchAction::WatchCert(path)
                &&& path@ == tls.cert_path
            },
            actions.len() > 2 && self.cert_watched is Ok ==> {
                &&& self.watcher_created is Ok
                &&& actions[2] matches WatchAction::WatchKey(path)
                &&& path@ == tls.key_path
            },
            actions.len() > 3 && self.key_watched is Ok ==> {
                &&& self.watcher_created is Ok && self.cert_watched is Ok
                &&& actions[3] == WatchAction::StartReloader
            },
            forall|i: int|
                0 <= i < actions.len() ==> (#[trigger] actions[i] == WatchAction::StartReloader ==> i
                    == 3 && self.watcher_created is Ok && self.cert_watched is Ok
                    && self.key_watched is Ok),
            forall|i: int| 0 <= i < actions.len() ==> !(#[trigger] actions[i] matches
                WatchAction::Finish(Ok(_))),
            actions.last() matches WatchAction::Finish(Err(error)) ==> {
                &&& error matches TlsError::FileWatch { path, reason }
                &&& match (self.watcher_created, self.cert_watched, self.key_watched) {
                    (Err(why), _, _) => path@ == "<none>"@ && reason == why,
                    (Ok(_), Err(why), _) => path@ == tls.cert_path && reason == why,
                    (Ok(_), Ok(_), Err(why)) => path@ == tls.key_path && reason == why,
                    (Ok(_), Ok(_), Ok(_)) => false,
                }
            },
    {
        self.law_watch_outcome(tls, actions);
        if actions.len() > 1 {
            assert(self.answer(actions[0]) is Some);
        }
        if actions.len() > 2 {
            assert(self.answer(actions[1]) is Some);
        }
        if actions.len() > 3 {
            assert(self.answer(actions[2]) is Some);
        }
    }
}

/// A container starts with the configuration of its first setup, at version zero. A
/// reload returns the error of its setup, and succeeds exactly if the setup did.
pub proof fn law_container_starts_with_its_setup(
    tls: option::TlsOptionView,
    config: Option<ServerConfig>,
    setup: Result<Option<ServerConfig>, TlsError>,
)
    ensures
        reload::ReloadableView::made(tls, config).tls_option == tls,
        reload::ReloadableView::made(tls, config).config == config,
        reload::ReloadableView::made(tls, config).version == 0,
        reload::ReloadableView::reload_result(setup) is Ok <==> setup is Ok,
        setup matches Err(error) ==> reload::ReloadableView::reload_result(setup) == Err::<
            (),
            TlsError,
        >(error),
{
}

/// Sharing a configuration neither changes it nor loses it.
pub proof fn law_sharing_keeps_the_configuration(config: Arc<ServerConfig>)
    ensures
        reload::unshared(Some(config)) == Some(*config),
        reload::unshared(None) is None,
{
}

/// A container after reloads whose setups ended like these, in order.
pub open spec fn after_reloads(
    container: reload::ReloadableView,
    setups: Seq<Result<Option<ServerConfig>, TlsError>>,
) -> reload::ReloadableView
    decreases setups.len(),
{
    if setups.len() == 0 {
        container
    } else {
        after_reloads(container, setups.drop_last()).reloaded(setups.last())
    }
}

/// How many of these setups succeeded.
pub open spec fn successes(setups: Seq<Result<Option<ServerConfig>, TlsError>>) -> nat
    decreases setups.len(),
{
    if setups.len() == 0 {
        0
    } else {
        successes(setups.drop_last()) + (if setups.last() is Ok {
            1nat
        } else {
            0
        })
    }
}

/// The version of a container counts the reloads that succeeded, starting over
/// after the largest number. Its option stays.
pub proof fn law_version_counts_reloads(
    container: reload::ReloadableView,
    setups: Seq<Result<Option<ServerConfig>, TlsError>>,
)
    ensures
        after_reloads(container, setups).version == (container.version + successes(setups)) % (
        usize::MAX + 1),
        after_reloads(container, setups).tls_option == container.tls_option,
    decreases setups.len(),
{
    if setups.len() > 0 {
        law_version_counts_reloads(container, setups.drop_last());
        let total = container.version + successes(setups.drop_last());
        let size = usize::MAX + 1;
        vstd::arithmetic::div_mod::lemma_add_mod_noop(total, 1, size);
        vstd::arithmetic::div_mod::lemma_small_mod(1, size as nat);
        if total % size == usize::MAX {
            vstd::arithmetic::div_mod::lemma_mod_self_0(size);
        } else {
            vstd::arithmetic::div_mod::lemma_small_mod((total % size + 1) as nat, size as nat);
        }
    } else {
        vstd::arithmetic::div_mod::lemma_small_mod(container.version as nat, (usize::MAX + 1) as nat);
    }
}

/// A container holds the configuration of the last reload that succeeded, and
/// the one it had before where none did.
pub proof fn law_last_configuration_stays(
    container: reload::ReloadableView,
    setups: Seq<Result<Option<ServerConfig>, TlsError>>,
    last: int,
)
    requires
        -1 <= last < setups.len(),
        last >= 0 ==> setups[last] is Ok,
        forall|i: int| last < i < setups.len() ==> setups[i] is Err,
    ensures
        after_reloads(container, setups).config == (if last >= 0 {
            setups[last]->Ok_0
        } else {
            container.config
        }),
    decreases setups.len(),
{
    if last < setups.len() - 1 {
        assert(setups.last() is Err);
        let earlier = setups.drop_last();
        assert forall|i: int| last < i < earlier.len() implies earlier[i] is Err by {
            assert(setups[i] is Err);
        }
        law_last_configuration_stays(container, earlier, last);
    }
}

/// A container that was made and reloaded with setups of its own option holds the
/// configuration of one of them, so that it holds one exactly where TLS is not
/// disabled.
pub proof fn law_container_serves_its_option(
    container: reload::ReloadableView,
    setups: Seq<Result<Option<ServerConfig>, TlsError>>,
)
    requires
        setup_of(container.tls_option, Ok(container.config)),
        forall|i: int|
            0 <= i < setups.len() ==> setup_of(container.tls_option, #[trigger] setups[i]),
    ensures
        setup_of(container.tls_option, Ok(after_reloads(container, setups).config)),
        after_reloads(container, setups).config is None <==> container.tls_option.mode
            == TlsMode::Disable,
    decreases setups.len(),
{
    let tls = container.tls_option;
    let config = after_reloads(container, setups).config;
    if setups.len() > 0 {
        let earlier = setups.drop_last();
        assert forall|i: int| 0 <= i < earlier.len() implies setup_of(
            container.tls_option,
            #[trigger] earlier[i],
        ) by {
            assert(setup_of(tls, setups[i]));
        }
        law_container_serves_its_option(container, earlier);
        assert(setup_of(tls, setups[setups.len() - 1]));
    }
    let (files, actions) = choose|files: SetupFiles, actions: Seq<SetupAction>| #[trigger]
        files.run(tls, actions) && actions.last() == SetupAction::Finish(
            Ok::<Option<ServerConfig>, TlsError>(config),
        );
    files.law_configuration_unless_disabled(tls, actions, config);
}

/// A report of the watcher, and what a setup ends with if the report calls for one.
pub ghost struct Report {
    /// Absent where the watcher reports an error.
    pub change: Option<FileChange>,
    pub setup: Result<Option<ServerConfig>, TlsError>,
}

impl Report {
    /// The event that the reloader sees.
    pub open spec fn event(self) -> ReloaderEvent {
        match self.change {
            Some(change) => ReloaderEvent::Changed(change),
            None => ReloaderEvent::WatchFailed,
        }
    }

    /// The event that the reloader sees after a reload.
    pub open spec fn reloaded(self) -> ReloaderEvent {
        match self.setup {
            Ok(_) => ReloaderEvent::Reloaded(Ok(())),
            Err(error) => ReloaderEvent::Reloaded(Err(error)),
        }
    }

    /// Whether the report is of a file that was created or modified.
    pub open spec fn is_change(self) -> bool {
        self.change matches Some(change) && watch::calls_for_reload(change)
    }
}

/// A container after the reloader has seen these reports, in order.
pub open spec fn after_reports(
    container: reload::ReloadableView,
    reports: Seq<Report>,
) -> reload::ReloadableView
    decreases reports.len(),
{
    if reports.len() == 0 {
        container
    } else {
        let before = after_reports(container, reports.drop_last());
        if watch::reloader_next(reports.last().event()) == ReloaderAction::Reload {
            before.reloaded(reports.last().setup)
        } else {
            before
        }
    }
}

/// The setups that reports of created and modified files call for, in order.
pub open spec fn called_for(reports: Seq<Report>) -> Seq<Result<Option<ServerConfig>, TlsError>> {
    reports.filter(|report: Report| report.is_change()).map_values(|report: Report| report.setup)
}

/// A reload is called for when a file was created or modified, and by no other change.
pub proof fn law_new_contents_call_for_a_reload(change: FileChange)
    ensures
        watch::reloader_next(ReloaderEvent::Changed(change)) == (match change {
            FileChange::Create => ReloaderAction::Reload,
            FileChange::Modify => ReloaderAction::Reload,
            FileChange::Remove => ReloaderAction::Receive,
            FileChange::Access => ReloaderAction::Receive,
            FileChange::Any => ReloaderAction::Receive,
            FileChange::Other => ReloaderAction::Receive,
        }),
{
}

/// A reloader waits for the next report after each report and each reload, however
/// that ended. Only the end of the watcher ends it.
pub proof fn law_reloader_lasts(report: Report)
    ensures
        watch::reloader_next(ReloaderEvent::Begin) == ReloaderAction::Receive,
        watch::reloader_next(report.event()) == (if report.is_change() {
            ReloaderAction::Reload
        } else {
            ReloaderAction::Receive
        }),
        watch::reloader_next(report.reloaded()) == ReloaderAction::Receive,
        watch::reloader_next(ReloaderEvent::Disconnected) == ReloaderAction::Stop,
{
}

/// A watched container is reloaded once for each report of a created or modified
/// file, in the order of the reports, and for nothing else. So its version counts the
/// changes that could be loaded.
pub proof fn law_changes_are_reloaded(container: reload::ReloadableView, reports: Seq<Report>)
    ensures
        after_reports(container, reports) == after_reloads(container, called_for(reports)),
        after_reports(container, reports).version == (container.version + successes(
            called_for(reports),
        )) % (usize::MAX + 1),
    decreases reports.len(),
{
    reveal(Seq::filter);
    law_version_counts_reloads(container, called_for(reports));
    if reports.len() > 0 {
        let earlier = reports.drop_last();
        law_changes_are_reloaded(container, earlier);
        if reports.last().is_change() {
            assert(called_for(reports).drop_last() =~= called_for(earlier));
            assert(called_for(reports).last() == reports.last().setup);
        } else {
            assert(called_for(reports) =~= called_for(earlier));
        }
    }
}

} // verus!
