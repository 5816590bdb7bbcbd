//! Actions on messages and the events reported to the mobile applications.
use vstd::prelude::*;

verus! {

/// An action to be taken on an account. Since this is specific to each
/// backend, only the serialized data the account needs to carry it out is
/// kept.
#[derive(Debug)]
pub struct Action(String);

impl View for Action {
    type V = Seq<char>;

    closed spec fn view(&self) -> Seq<char> {
        self.0@
    }
}

impl Action {
    /// An action from its encoded `data`.
    pub fn with(data: String) -> (r: Self)
        ensures
            r@ == data@,
    {
        Action(data)
    }

    /// The encoded data of this action.
    pub fn take(self) -> (r: String)
        ensures
            r@ == self@,
    {
        self.0
    }
}

impl Clone for Action {
    fn clone(&self) -> (r: Self)
        ensures
            r@ == self@,
    {
        Action(self.0.clone())
    }
}

/// A newly received email and what can be done with it.
#[derive(Debug)]
pub struct NewEmail {
    /// Sender of the email.
    pub sender: String,
    /// Subject of the email.
    pub subject: String,
    /// Moves this message to the trash.
    pub move_to_trash_action: Option<Action>,
    /// Marks this message as read.
    pub mark_as_read_action: Option<Action>,
    /// Moves this message to spam.
    pub move_to_spam_action: Option<Action>,
}

/// An event reported to the application.
#[derive(Debug)]
pub enum Event {
    /// One or more emails have arrived.
    Email { email: String, backend: String, emails: Vec<NewEmail> },
    /// The account has been logged out.
    LoggedOut(String),
    /// The account's servers are not reachable.
    Offline(String),
    /// A general error occurred: the account and the message.
    Error(String, String),
}

/// Why a backend operation on an account failed.
#[derive(Debug)]
pub enum PollerError {
    /// A request failed; its message.
    Http(String),
    /// The account's session has expired.
    SessionExpired,
    /// The application state could not be read or written; its message.
    Db(String),
    /// No backend has this name.
    UnknownBackend(String),
    /// Any other failure; its message.
    Unknown(String),
    /// The action is not valid or not recognized.
    InvalidAction,
}

/// Implemented by the accounts of each backend.
pub trait Poller {
    /// The emails that arrived since the last check.
    fn check(&mut self) -> Result<Vec<NewEmail>, PollerError>;

    /// Carry out `action`.
    fn apply(&mut self, action: &Action) -> Result<(), PollerError>;

    /// Log the account out.
    fn logout(&mut self) -> Result<(), PollerError>;
}

} // verus!
