//! The mobile entry point: its errors, the key it creates, and the
//! application state it answers for (the poll interval and the Android
//! notification ids).
use crate::encryption::{base64_text, EncryptionKey};
use crate::mobile::android::{next_group, AccountNotificationIds, AndroidState, StateError, StateExtension};
use crate::mobile::service::is_key_text;
use vstd::prelude::*;

verus! {

/// Errors reported to the mobile application.
#[derive(Debug)]
pub enum YhmError {
    AccountAlreadyExist(String),
    AccountNotFound(String),
    Backend(String),
    State(String),
    BackendNotFound(String),
    V1Import(String),
    ProxyTest(String),
}

/// A new encryption key, written as standard base64 text.
pub fn new_encryption_key() -> (r: String)
    ensures
        exists|k: Seq<u8>| k.len() == crate::encryption::ENCRYPTION_KEY_BYTES_LEN && r@ == base64_text(k),
        r@.len() == 44,
        r@.last() == '=',
{
    let key = EncryptionKey::new();
    key.to_base64()
}

impl StateError {
    /// The text of this error.
    pub fn to_text(&self) -> (r: &'static str)
        ensures
            r@ == match self {
                StateError::NoSuchTable => "no such table"@,
                StateError::ValueOutOfRange => "value out of range"@,
                StateError::Full => "database or disk is full"@,
            },
    {
        match self {
            StateError::NoSuchTable => "no such table",
            StateError::ValueOutOfRange => "value out of range",
            StateError::Full => "database or disk is full",
        }
    }
}

/// The state error reported to the application: its text.
pub open spec fn state_error_text(e: StateError) -> Seq<char> {
    match e {
        StateError::NoSuchTable => "no such table"@,
        StateError::ValueOutOfRange => "value out of range"@,
        StateError::Full => "database or disk is full"@,
    }
}

fn state_error(e: StateError) -> (r: YhmError)
    ensures
        r matches YhmError::State(m) && m@ == state_error_text(e),
{
    YhmError::State(e.to_text().to_owned())
}

/// The "you have mail" instance of the application: the poll interval, in
/// seconds, and the Android tables.
pub struct Yhm {
    state: AndroidState,
    poll_interval: u64,
}

impl Yhm {
    /// The Android tables.
    pub closed spec fn android(&self) -> AndroidState {
        self.state
    }

    /// The poll interval in seconds.
    pub closed spec fn interval(&self) -> u64 {
        self.poll_interval
    }

    /// An instance over the application state `state`, whose poll interval
    /// is `poll_interval` seconds, opened with `encryption_key` (base64 key
    /// text); the Android tables are created if they do not exist. Key text
    /// that is not a valid key is a state error.
    pub fn new(encryption_key: &str, state: AndroidState, poll_interval: u64) -> (r: Result<Self, YhmError>)
        ensures
            is_key_text(encryption_key@) ==> (r matches Ok(y) && y.android().ready()
                && y.android().ids() == state.ids() && y.android().sequence() == state.sequence()
                && y.interval() == poll_interval),
            !is_key_text(encryption_key@) ==> (r matches Err(YhmError::State(_))),
    {
        match EncryptionKey::with_base64(encryption_key) {
            Ok(_) => {},
            Err(e) => {
                return Err(YhmError::State(e));
            },
        }
        let mut state = state;
        match state.android_init_tables() {
            Ok(()) => {},
            Err(e) => {
                return Err(state_error(e));
            },
        }
        Ok(Yhm { state, poll_interval })
    }

    /// The current poll interval, in seconds.
    pub fn poll_interval(&self) -> (r: Result<u64, YhmError>)
        ensures
            r == Ok::<u64, YhmError>(self.interval()),
    {
        Ok(self.poll_interval)
    }

    /// Set the poll interval, in seconds.
    pub fn set_poll_interval(&mut self, interval: u64) -> (r: Result<(), YhmError>)
        ensures
            r is Ok,
            final(self).interval() == interval,
            final(self).android() == old(self).android(),
    {
        self.poll_interval = interval;
        Ok(())
    }

    /// The stable notification ids of the account `email`, created on first
    /// use; see [`StateExtension::android_get_or_create_notification_ids`].
    /// A failure is reported as a state error with its text.
    pub fn android_get_or_create_notification_ids(&mut self, email: &str) -> (r: Result<
        AccountNotificationIds,
        YhmError,
    >)
        ensures
            final(self).interval() == old(self).interval(),
            final(self).android().sequence() == old(self).android().sequence(),
            final(self).android().ready() == old(self).android().ready(),
            !old(self).android().ready() ==> (r matches Err(YhmError::State(m)) && m@ == "no such table"@)
                && final(self).android().ids() == old(self).android().ids(),
            old(self).android().ready() ==> match r {
                Ok(ids) => {
                    ||| exists|i: int| 0 <= i < old(self).android().ids().len() && old(self).android().ids()[i].0 == email@
                        && ids == (#[trigger] old(self).android().ids()[i]).1
                        && final(self).android().ids() == old(self).android().ids()
                        && forall|k: int| 0 <= k < i ==> old(self).android().ids()[k].0 != email@
                    ||| (forall|i: int| 0 <= i < old(self).android().ids().len() ==> (#[trigger] old(self).android().ids()[i]).0 != email@)
                        && ids.group == next_group(old(self).android().ids()) && ids.status == ids.group + 1
                        && ids.error == ids.group + 2
                        && final(self).android().ids() == old(self).android().ids().push((email@, ids))
                },
                Err(e) => e matches YhmError::State(m) && m@ == "value out of range"@
                    && final(self).android().ids() == old(self).android().ids()
                    && (forall|i: int| 0 <= i < old(self).android().ids().len() ==> (#[trigger] old(self).android().ids()[i]).0 != email@)
                    && next_group(old(self).android().ids()) + 2 > i32::MAX,
            },
            old(self).android().ready() ==> (r is Err <==> (forall|i: int| 0 <= i < old(self).android().ids().len()
                ==> (#[trigger] old(self).android().ids()[i]).0 != email@) && next_group(old(self).android().ids()) + 2 > i32::MAX),
    {
        let e = email.to_owned();
        match self.state.android_get_or_create_notification_ids(&e) {
            Ok(ids) => Ok(ids),
            Err(err) => Err(state_error(err)),
        }
    }

    /// The next notification id for a mail of the account `email`; see
    /// [`StateExtension::android_next_mail_notification_id`]. A failure is
    /// reported as a state error with its text.
    pub fn android_next_mail_notification_id(&mut self, email: &str) -> (r: Result<i32, YhmError>)
        ensures
            final(self).interval() == old(self).interval(),
            final(self).android().ids() == old(self).android().ids(),
            old(self).android().ready() && old(self).android().sequence() < crate::mobile::android::MAX_SEQUENCE ==> {
                &&& final(self).android().sequence() == old(self).android().sequence() + 1
                &&& r == Ok::<i32, YhmError>(((old(self).android().sequence() + 1) % 0x7fff_ffff) as i32)
            },
            !old(self).android().ready() ==> (r matches Err(YhmError::State(m)) && m@ == "no such table"@),
            old(self).android().ready() && old(self).android().sequence() >= crate::mobile::android::MAX_SEQUENCE ==> (
            r matches Err(YhmError::State(m)) && m@ == "database or disk is full"@ && final(self).android().sequence()
                == old(self).android().sequence()),
            final(self).android().ready() == old(self).android().ready(),
    {
        let e = email.to_owned();
        match self.state.android_next_mail_notification_id(&e) {
            Ok(id) => Ok(id),
            Err(err) => Err(state_error(err)),
        }
    }
}

} // verus!
