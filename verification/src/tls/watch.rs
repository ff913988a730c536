//! Watching the certificate files, and reloading when they change.
use vstd::prelude::*;

use crate::tls::option;
use crate::tls::reload::ReloadableTlsServerConfig;
use crate::tls::setup::TlsError;

verus! {

/// What became of the last thing that the watching asked for. A failure brings
/// the reason that the file watcher gave.
#[derive(Debug)]
pub enum WatchEvent {
    /// Nothing was asked for yet.
    Begin,
    WatcherCreated(Result<(), String>),
    CertWatched(Result<(), String>),
    KeyWatched(Result<(), String>),
}

/// What the watching asks for next.
#[derive(Debug)]
pub enum WatchAction {
    /// Create a file watcher.
    CreateWatcher,
    /// Watch the certificate file at this path, without its subdirectories.
    WatchCert(String),
    /// Watch the key file at this path, without its subdirectories.
    WatchKey(String),
    /// Run the reloader on the events of the watcher, and return with success.
    StartReloader,
    /// Return with this result, with no reloader running.
    Finish(Result<(), TlsError>),
}

/// What a file watcher reports of a file.
#[derive(Debug, Clone, Copy, PartialEq, Eq, Structural)]
pub enum FileChange {
    Any,
    Access,
    Create,
    Modify,
    Remove,
    Other,
}

/// What became of the last thing that the reloader asked for.
#[derive(Debug)]
pub enum ReloaderEvent {
    /// The reloader starts.
    Begin,
    /// The watcher reported a change.
    Changed(FileChange),
    /// The watcher reported an error.
    WatchFailed,
    /// The watcher is gone and reports no more.
    Disconnected,
    /// The configuration was reloaded, or could not be.
    Reloaded(Result<(), TlsError>),
}

/// What the reloader asks for next.
#[derive(Debug, Clone, Copy, PartialEq, Eq, Structural)]
pub enum ReloaderAction {
    /// Wait for the next report of the watcher.
    Receive,
    /// Set the configuration up anew, and reload the container with the outcome.
    Reload,
    /// End.
    Stop,
}

/// Where no path is at fault.
pub open spec fn no_path() -> Seq<char> {
    "<none>"@
}

/// An action that ends the watching with a failure at this path.
pub open spec fn fails_at(action: WatchAction, path: Seq<char>, reason: String) -> bool {
    action matches WatchAction::Finish(Err(TlsError::FileWatch { path: at, reason: why })) && {
        &&& at@ == path
        &&& why == reason
    }
}

impl option::TlsOptionView {
    /// What the watching of this option asks for after an event.
    pub open spec fn watch_leads_to(self, event: WatchEvent, action: WatchAction) -> bool {
        match event {
            WatchEvent::Begin => if self.watches() {
                action == WatchAction::CreateWatcher
            } else {
                action == WatchAction::Finish(Ok(()))
            },
            WatchEvent::WatcherCreated(Ok(_)) => action matches WatchAction::WatchCert(path)
                && path@ == self.cert_path,
            WatchEvent::WatcherCreated(Err(reason)) => fails_at(action, no_path(), reason),
            WatchEvent::CertWatched(Ok(_)) => action matches WatchAction::WatchKey(path)
                && path@ == self.key_path,
            WatchEvent::CertWatched(Err(reason)) => fails_at(action, self.cert_path, reason),
            WatchEvent::KeyWatched(Ok(_)) => action == WatchAction::StartReloader,
            WatchEvent::KeyWatched(Err(reason)) => fails_at(action, self.key_path, reason),
        }
    }
}

/// Watches the certificate and the key file of a container, if its option says
/// so. Starts with `WatchEvent::Begin`, and goes on with what became of each
/// action.
pub fn maybe_watch_tls_config(
    tls_server_config: &ReloadableTlsServerConfig,
    event: WatchEvent,
) -> (action: WatchAction)
    ensures
        tls_server_config@.tls_option.watch_leads_to(event, action),
{
    let tls_option = tls_server_config.get_tls_option();
    match event {
        WatchEvent::Begin => if tls_option.watch_enabled() {
            WatchAction::CreateWatcher
        } else {
            WatchAction::Finish(Ok(()))
        },
        WatchEvent::WatcherCreated(Ok(_)) => {
            WatchAction::WatchCert(tls_option.cert_path().to_owned())
        },
        WatchEvent::WatcherCreated(Err(reason)) => {
            WatchAction::Finish(Err(TlsError::FileWatch { path: "<none>".to_owned(), reason }))
        },
        WatchEvent::CertWatched(Ok(_)) => {
            WatchAction::WatchKey(tls_option.key_path().to_owned())
        },
        WatchEvent::CertWatched(Err(reason)) => {
            let path = tls_option.cert_path().to_owned();
            WatchAction::Finish(Err(TlsError::FileWatch { path, reason }))
        },
        WatchEvent::KeyWatched(Ok(_)) => WatchAction::StartReloader,
        WatchEvent::KeyWatched(Err(reason)) => {
            let path = tls_option.key_path().to_owned();
            WatchAction::Finish(Err(TlsError::FileWatch { path, reason }))
        },
    }
}

/// Whether a change of a watched file calls for a reload.
pub open spec fn calls_for_reload(change: FileChange) -> bool {
    change == FileChange::Modify || change == FileChange::Create
}

/// What the reloader does after an event. It reloads when a file was created or
/// modified, passes over everything else, a failed reload included, and stops
/// with the watcher.
pub open spec fn reloader_next(event: ReloaderEvent) -> ReloaderAction {
    match event {
        ReloaderEvent::Changed(change) => if calls_for_reload(change) {
            ReloaderAction::Reload
        } else {
            ReloaderAction::Receive
        },
        ReloaderEvent::Disconnected => ReloaderAction::Stop,
        _ => ReloaderAction::Receive,
    }
}

/// What the reloader asks for after an event. Starts with `ReloaderEvent::Begin`,
/// and goes on with what became of each action.
pub fn next_reload_action(event: ReloaderEvent) -> (action: ReloaderAction)
    ensures
        action == reloader_next(event),
{
    match event {
        ReloaderEvent::Changed(FileChange::Modify | FileChange::Create) => ReloaderAction::Reload,
        ReloaderEvent::Changed(_) => ReloaderAction::Receive,
        ReloaderEvent::Disconnected => ReloaderAction::Stop,
        ReloaderEvent::Begin | ReloaderEvent::WatchFailed | ReloaderEvent::Reloaded(_) => {
            ReloaderAction::Receive
        },
    }
}

} // verus!
