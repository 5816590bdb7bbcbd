//! How the observer's notifications reach the mobile applications: each one
//! becomes a call of the application's notifier.
use crate::mobile::errors::{service_error_of_account, ServiceError};
use crate::observer::Notification;
use crate::proxy::Proxy;
use vstd::prelude::*;

verus! {

/// The callbacks the mobile applications provide.
pub trait Notifier {
    fn new_email(&self, account: String, backend: String, count: u32);

    fn account_added(&self, email: String);

    fn account_logged_out(&self, email: String);

    fn account_removed(&self, email: String);

    fn account_offline(&self, email: String);

    fn account_online(&self, email: String);

    fn account_error(&self, email: String, error: ServiceError);

    fn proxy_applied(&self, email: String, proxy: Option<Proxy>);

    fn account_token_refreshed(&self, email: String);
}

/// Which callback a notification is delivered through, with its arguments.
#[derive(Debug)]
pub enum Callback {
    NewEmail { account: String, backend: String, count: u32 },
    AccountAdded(String),
    AccountLoggedOut(String),
    AccountRemoved(String),
    AccountOffline(String),
    AccountOnline(String),
    AccountError(String, ServiceError),
    ProxyApplied(String, Option<Proxy>),
    AccountTokenRefreshed(String),
}

/// The number of new emails as the applications are told it: the count,
/// cut to 32 bits.
pub open spec fn email_count(n: nat) -> u32 {
    n as u32
}

/// The callback a notification goes to: each kind of notification has its
/// own; new mail is told as the number of emails, an account error as a
/// service error. A general error has no callback.
pub fn callback_of(n: Notification) -> (r: Option<Callback>)
    ensures
        match n {
            Notification::NewEmail { account, backend, emails } => r matches Some(
                Callback::NewEmail { account: a, backend: b, count },
            ) && a == account && b == backend && count == email_count(emails@.len()),
            Notification::AccountAdded(e, _, _) => r == Some(Callback::AccountAdded(e)),
            Notification::AccountLoggedOut(e) => r == Some(Callback::AccountLoggedOut(e)),
            Notification::AccountRemoved(e) => r == Some(Callback::AccountRemoved(e)),
            Notification::AccountOffline(e) => r == Some(Callback::AccountOffline(e)),
            Notification::AccountOnline(e) => r == Some(Callback::AccountOnline(e)),
            Notification::AccountError(e, err) => r == Some(Callback::AccountError(e, service_error_of_account(err))),
            Notification::ProxyApplied(e, p) => r == Some(Callback::ProxyApplied(e, p)),
            Notification::AccountTokenRefresh(e) => r == Some(Callback::AccountTokenRefreshed(e)),
            Notification::Error(_) => r is None,
        },
{
    match n {
        Notification::NewEmail { account, backend, emails } => {
            let count: u32 = #[verifier::truncate] (emails.len() as u32);
            Some(Callback::NewEmail { account, backend, count })
        },
        Notification::AccountAdded(e, _, _) => Some(Callback::AccountAdded(e)),
        Notification::AccountLoggedOut(e) => Some(Callback::AccountLoggedOut(e)),
        Notification::AccountRemoved(e) => Some(Callback::AccountRemoved(e)),
        Notification::AccountOffline(e) => Some(Callback::AccountOffline(e)),
        Notification::AccountOnline(e) => Some(Callback::AccountOnline(e)),
        Notification::AccountError(e, err) => Some(Callback::AccountError(e, ServiceError::from_account(err))),
        Notification::ProxyApplied(e, p) => Some(Callback::ProxyApplied(e, p)),
        Notification::AccountTokenRefresh(e) => Some(Callback::AccountTokenRefreshed(e)),
        Notification::Error(_) => None,
    }
}

/// Delivers the observer's notifications to a mobile application.
pub struct NotifierWrapper<N: Notifier>(pub N);

impl<N: Notifier> NotifierWrapper<N> {
    /// Deliver `n` through its callback; see [`callback_of`].
    pub fn notify(&self, n: Notification) {
        match callback_of(n) {
            Some(Callback::NewEmail { account, backend, count }) => self.0.new_email(account, backend, count),
            Some(Callback::AccountAdded(e)) => self.0.account_added(e),
            Some(Callback::AccountLoggedOut(e)) => self.0.account_logged_out(e),
            Some(Callback::AccountRemoved(e)) => self.0.account_removed(e),
            Some(Callback::AccountOffline(e)) => self.0.account_offline(e),
            Some(Callback::AccountOnline(e)) => self.0.account_online(e),
            Some(Callback::AccountError(e, err)) => self.0.account_error(e, err),
            Some(Callback::ProxyApplied(e, p)) => self.0.proxy_applied(e, p),
            Some(Callback::AccountTokenRefreshed(e)) => self.0.account_token_refreshed(e),
            None => {},
        }
    }
}

} // verus!
