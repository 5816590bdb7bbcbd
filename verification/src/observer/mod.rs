//! The observer: the worker that watches every active account, and the values
//! it reports.
use crate::account::{Account, AccountError};
use crate::backend::{Backend, EmailInfo};
use crate::proxy::{proxy_opt_view, Proxy, ProxyView};
use vstd::prelude::*;

pub mod builder;
pub mod config;
pub mod poll;
pub mod public;
pub mod rpc;
pub mod worker;

verus! {

/// Account status for the accounts being watched by the observer.
#[derive(Debug, Copy, Clone, PartialEq, Eq, Structural)]
pub enum ObserverAccountStatus {
    /// The account's backend is offline.
    Offline,
    /// The account's backend is online and the account is logged in.
    Online,
    /// The account is logged out or the session expired.
    LoggedOut,
    /// The account encountered an error.
    Error,
}

impl ObserverAccountStatus {
    /// The text shown for this status.
    pub fn to_text(&self) -> (r: &'static str)
        ensures
            r@ == match self {
                ObserverAccountStatus::Offline => "Offline"@,
                ObserverAccountStatus::Online => "Online"@,
                ObserverAccountStatus::LoggedOut => "LoggedOut"@,
                ObserverAccountStatus::Error => "Error Occurred"@,
            },
    {
        match self {
            ObserverAccountStatus::Offline => "Offline",
            ObserverAccountStatus::Online => "Online",
            ObserverAccountStatus::LoggedOut => "LoggedOut",
            ObserverAccountStatus::Error => "Error Occurred",
        }
    }
}

/// Account info for the active accounts of the observer.
#[derive(Debug)]
pub struct ObserverAccount {
    pub email: String,
    pub status: ObserverAccountStatus,
    pub backend: String,
    pub proxy: Option<Proxy>,
}

/// Errors that may occur while the observer runs.
pub enum ObserverError<B: Backend> {
    /// The given account is already active; it is handed back.
    AccountAlreadyActive(Account<B>),
    /// An account operation failed.
    AccountError(AccountError),
    /// No account with this email.
    NoSuchAccount(String),
    /// The record of the accounts could not be updated.
    Config(crate::observer::config::ConfigError),
    /// Unknown error, with its message.
    Unknown(String),
}

pub type ObserverResult<T, B> = Result<T, ObserverError<B>>;

/// What the observer reports to the application.
#[derive(Debug)]
pub enum Notification {
    /// New emails arrived for `account` of `backend`.
    NewEmail { account: String, backend: String, emails: Vec<EmailInfo> },
    /// An account was added: its email, its backend's name and its proxy.
    AccountAdded(String, String, Option<Proxy>),
    /// An account was logged out.
    AccountLoggedOut(String),
    /// An account was removed.
    AccountRemoved(String),
    /// The servers of an account cannot be reached.
    AccountOffline(String),
    /// An account is online again.
    AccountOnline(String),
    /// An account operation failed.
    AccountError(String, AccountError),
    /// A proxy was applied to an account.
    ProxyApplied(String, Option<Proxy>),
    /// The access token of an account was refreshed.
    AccountTokenRefresh(String),
    /// A general error, with its message.
    Error(String),
}

} // verus!
