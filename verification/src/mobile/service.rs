//! The decisions of the mobile service: reading the encryption key it is
//! given, encrypting an old configuration for migration, and the automatic
//! poller that polls the observer at the poll interval until it is paused or
//! told to quit.
use crate::account::Account;
use crate::backend::{AccountStateKind, Backend, BackendResult};
use crate::encryption::{
    base64_bytes, encrypt, encrypt_error_text, encrypts, key_error_text, EncryptionKey, ENCRYPTION_KEY_BYTES_LEN,
};
use crate::mobile::errors::{ConfigError, ServiceError};
use crate::proxy::{clone_proxy_opt, proxy_opt_view, Proxy};
use vstd::prelude::*;
use vstd::string::StringSliceAdditionalSpecFns;

verus! {

/// The status of an observed account as the mobile application shows it.
#[derive(Debug, Copy, Clone, PartialEq, Eq, Structural)]
pub enum ObserverAccountStatus {
    Online,
    Offline,
    LoggedOut,
}

/// An observed account as the mobile application shows it.
#[derive(Debug)]
pub struct ObserverAccount {
    pub email: String,
    pub backend: String,
    pub proxy: Option<Proxy>,
    pub status: ObserverAccountStatus,
}

/// How the mobile application shows `account`: its email, its backend's
/// name, its proxy, and online if it is logged in, logged out otherwise.
pub fn observed_account<B: Backend>(account: &Account<B>) -> (r: ObserverAccount)
    ensures
        r.email@ == account.email_view(),
        r.backend@ == account.backend_value().spec_name(),
        proxy_opt_view(r.proxy) == account.proxy_view(),
        r.status == (if account.state_kind() == AccountStateKind::LoggedIn {
            ObserverAccountStatus::Online
        } else {
            ObserverAccountStatus::LoggedOut
        }),
{
    ObserverAccount {
        email: account.email().clone(),
        backend: account.backend().name(),
        proxy: clone_proxy_opt(account.get_proxy().as_ref()),
        status: if account.is_logged_in() {
            ObserverAccountStatus::Online
        } else {
            ObserverAccountStatus::LoggedOut
        },
    }
}

/// What the service answers for the backend's verdict on a proxy: success
/// if the backend could be reached through it, a proxy error otherwise.
pub fn proxy_check_reply(verdict: BackendResult<()>) -> (r: Result<(), ServiceError>)
    ensures
        verdict is Ok ==> r is Ok,
        verdict is Err ==> r matches Err(ServiceError::ProxyError),
{
    match verdict {
        Ok(()) => Ok(()),
        Err(_) => Err(ServiceError::ProxyError),
    }
}

/// Check that `backend` can be reached through `proxy`. Without a proxy
/// there is nothing to check; with one, the backend's verdict is answered as
/// [`proxy_check_reply`] says.
pub fn check_proxy<B: Backend>(backend: &B, proxy: Option<Proxy>) -> (r: Result<(), ServiceError>)
    ensures
        proxy is None ==> r is Ok,
        r matches Err(e) ==> e is ProxyError,
        proxy matches Some(p) ==> exists|c: BackendResult<()>|
            #[trigger] backend.spec_check_proxy(p@, c) && (r is Ok <==> c is Ok),
{
    match proxy {
        Some(p) => {
            let c = backend.check_proxy(&p);
            let ghost cg = c;
            let r = proxy_check_reply(c);
            proof {
                assert(backend.spec_check_proxy(p@, cg));
            }
            r
        },
        None => Ok(()),
    }
}

/// Whether `text` is the base64 form of a valid encryption key.
pub open spec fn is_key_text(text: Seq<char>) -> bool {
    base64_bytes(text) matches Some(b) && b.len() == ENCRYPTION_KEY_BYTES_LEN
}

/// The encryption key given to the service as base64 text; text that is not
/// a valid key is a cryptographic configuration error.
pub fn service_key(encryption_key: &str) -> (r: Result<EncryptionKey, ServiceError>)
    ensures
        is_key_text(encryption_key@) ==> (r matches Ok(k) && Some(k@) == base64_bytes(encryption_key@)),
        !is_key_text(encryption_key@) ==> (r matches Err(ServiceError::Config { error: ConfigError::Crypto { msg } })
            && msg@ == key_error_text(encryption_key@)),
{
    match EncryptionKey::with_base64(encryption_key) {
        Ok(k) => Ok(k),
        Err(e) => Err(ServiceError::Config { error: ConfigError::Crypto { msg: e } }),
    }
}

/// The encrypted form of an old configuration, to be written to the new
/// configuration file: the key must be valid base64 key text ("Invalid
/// crypto key:" and the reason otherwise), and the configuration is encrypted
/// with it.
pub fn migrate_config_bytes(encryption_key: &str, config: &str) -> (r: Result<Vec<u8>, ServiceError>)
    ensures
        !is_key_text(encryption_key@) ==> (r matches Err(ServiceError::Config { error: ConfigError::Crypto { msg } })
            && msg@ == "Invalid crypto key:"@ + key_error_text(encryption_key@)),
        is_key_text(encryption_key@) && r is Err ==> (r matches Err(
            ServiceError::Config { error: ConfigError::Crypto { msg } },
        ) && msg@ == encrypt_error_text(config.spec_bytes())),
        r matches Ok(e) ==> (base64_bytes(encryption_key@) matches Some(k) && encrypts(k, config.spec_bytes(), e@)),
        is_key_text(encryption_key@) && config.spec_bytes().len() == 0 ==> r is Err,
        is_key_text(encryption_key@) && 0 < config.spec_bytes().len() && config.spec_bytes().len() / 64 < 0xffff_ffff
            ==> r is Ok,
{
    let key = match EncryptionKey::with_base64(encryption_key) {
        Ok(k) => k,
        Err(e) => {
            let mut msg = String::from_str("Invalid crypto key:");
            msg.append(e.as_str());
            return Err(ServiceError::Config { error: ConfigError::Crypto { msg } });
        },
    };
    let bytes = config.as_bytes();
    match encrypt(&key, bytes) {
        Ok(e) => Ok(e),
        Err(e) => Err(ServiceError::Config { error: ConfigError::Crypto { msg: e } }),
    }
}

/// A message sent to the automatic poller.
#[derive(Debug, Copy, Clone, PartialEq, Eq, Structural)]
pub enum AutoPollerMessage {
    Pause,
    Resume,
    Quit,
}

/// What waiting for a message gave.
#[derive(Debug, Copy, Clone, PartialEq, Eq, Structural)]
pub enum AutoPollerWait {
    /// A message arrived.
    Message(AutoPollerMessage),
    /// The poll interval went by without a message.
    Timeout,
    /// The sending side is gone.
    Disconnected,
}

/// What the automatic poller does next.
#[derive(Debug, Copy, Clone, PartialEq, Eq, Structural)]
pub enum AutoPollerStep {
    /// Wait, as long as it takes, for the next message.
    WaitForMessage,
    /// Poll the observer, then wait for a message at most the poll interval.
    PollThenWait,
    /// Stop the poller.
    Stop,
}

/// The automatic poller: whether it is paused and whether it was told to
/// quit. It starts paused.
#[derive(Debug, Copy, Clone, PartialEq, Eq, Structural)]
pub struct AutoPoller {
    pub paused: bool,
    pub quit: bool,
}

/// What the poller does next: stop once told to quit, wait while paused,
/// otherwise poll.
pub open spec fn step_of(p: AutoPoller) -> AutoPollerStep {
    if p.quit {
        AutoPollerStep::Stop
    } else if p.paused {
        AutoPollerStep::WaitForMessage
    } else {
        AutoPollerStep::PollThenWait
    }
}

/// The poller after a wait. Pause pauses, resume resumes, quit pauses and
/// quits; a timeout changes nothing, so that the next step polls again; a
/// closed channel stops the poller.
pub open spec fn after_wait(p: AutoPoller, w: AutoPollerWait) -> AutoPoller {
    match w {
        AutoPollerWait::Message(AutoPollerMessage::Pause) => AutoPoller { paused: true, quit: false },
        AutoPollerWait::Message(AutoPollerMessage::Resume) => AutoPoller { paused: false, quit: false },
        AutoPollerWait::Message(AutoPollerMessage::Quit) => AutoPoller { paused: true, quit: true },
        AutoPollerWait::Timeout => p,
        AutoPollerWait::Disconnected => AutoPoller { paused: p.paused, quit: true },
    }
}

impl AutoPoller {
    /// A poller that waits to be resumed.
    pub fn new() -> (r: Self)
        ensures
            r.paused && !r.quit,
    {
        AutoPoller { paused: true, quit: false }
    }

    /// What the poller does next; see [`step_of`].
    pub fn next_step(&self) -> (r: AutoPollerStep)
        ensures
            r == step_of(*self),
    {
        if self.quit {
            AutoPollerStep::Stop
        } else if self.paused {
            AutoPollerStep::WaitForMessage
        } else {
            AutoPollerStep::PollThenWait
        }
    }

    /// Take in what the wait gave; see [`after_wait`].
    pub fn on_wait(&mut self, w: AutoPollerWait)
        ensures
            *final(self) == after_wait(*old(self), w),
    {
        match w {
            AutoPollerWait::Message(AutoPollerMessage::Pause) => {
                self.paused = true;
                self.quit = false;
            },
            AutoPollerWait::Message(AutoPollerMessage::Resume) => {
                self.paused = false;
                self.quit = false;
            },
            AutoPollerWait::Message(AutoPollerMessage::Quit) => {
                self.paused = true;
                self.quit = true;
            },
            AutoPollerWait::Timeout => {},
            AutoPollerWait::Disconnected => {
                self.quit = true;
            },
        }
    }
}

/// Law: once told to quit, or once its channel is closed, the poller stops.
pub proof fn law_quit_stops(p: AutoPoller)
    ensures
        step_of(after_wait(p, AutoPollerWait::Message(AutoPollerMessage::Quit))) == AutoPollerStep::Stop,
        step_of(after_wait(p, AutoPollerWait::Disconnected)) == AutoPollerStep::Stop,
{
}

/// Law: a paused poller does not poll until it is resumed, and a running
/// one polls again each time the interval goes by.
pub proof fn law_pause_and_resume(p: AutoPoller)
    ensures
        step_of(after_wait(p, AutoPollerWait::Message(AutoPollerMessage::Pause))) == AutoPollerStep::WaitForMessage,
        step_of(after_wait(p, AutoPollerWait::Message(AutoPollerMessage::Resume))) == AutoPollerStep::PollThenWait,
        step_of(p) == AutoPollerStep::PollThenWait ==> step_of(after_wait(p, AutoPollerWait::Timeout))
            == AutoPollerStep::PollThenWait,
        step_of(AutoPoller { paused: true, quit: false }) == AutoPollerStep::WaitForMessage,
{
}

} // verus!
