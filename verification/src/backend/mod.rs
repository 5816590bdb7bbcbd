//! The interface that every mail backend implements, and the values that the
//! backends hand back to the rest of the library.
use crate::proxy::{proxy_ref_view, Proxy, ProxyView};
use vstd::prelude::*;

pub mod null;
pub mod proton;
pub mod proton_check;
pub mod proton_errors;

verus! {

/// Expected backend errors. Each one carries the message of its cause.
#[derive(Debug)]
pub enum BackendError {
    /// The user account has been logged out or the token expired.
    LoggedOut,
    /// The request or connection timed out.
    Timeout(String),
    /// Connection error.
    Connection(String),
    /// The request could not be completed.
    Request(String),
    /// The server answered with an error.
    API(String),
    /// An unknown error occurred.
    Unknown(String),
    /// The backend asks for human verification with a captcha (the html page).
    HVCaptchaRequest(String),
    /// The supplied human verification data is not valid.
    HVDataInvalid(String),
    /// Encoding or decoding failed.
    EncodeOrDecode(String),
}

/// Which kind of failure a [`BackendError`] is.
#[derive(Debug, Copy, Clone, PartialEq, Eq, Structural)]
pub enum BackendErrorKind {
    LoggedOut,
    Timeout,
    Connection,
    Request,
    API,
    Unknown,
    HVCaptchaRequest,
    HVDataInvalid,
    EncodeOrDecode,
}

impl BackendError {
    /// The kind of this error.
    pub open spec fn kind(&self) -> BackendErrorKind {
        match self {
            BackendError::LoggedOut => BackendErrorKind::LoggedOut,
            BackendError::Timeout(_) => BackendErrorKind::Timeout,
            BackendError::Connection(_) => BackendErrorKind::Connection,
            BackendError::Request(_) => BackendErrorKind::Request,
            BackendError::API(_) => BackendErrorKind::API,
            BackendError::Unknown(_) => BackendErrorKind::Unknown,
            BackendError::HVCaptchaRequest(_) => BackendErrorKind::HVCaptchaRequest,
            BackendError::HVDataInvalid(_) => BackendErrorKind::HVDataInvalid,
            BackendError::EncodeOrDecode(_) => BackendErrorKind::EncodeOrDecode,
        }
    }

    /// The message this error carries (none for a logged-out account).
    pub open spec fn message(&self) -> Seq<char> {
        match self {
            BackendError::LoggedOut => Seq::empty(),
            BackendError::Timeout(m) => m@,
            BackendError::Connection(m) => m@,
            BackendError::Request(m) => m@,
            BackendError::API(m) => m@,
            BackendError::Unknown(m) => m@,
            BackendError::HVCaptchaRequest(m) => m@,
            BackendError::HVDataInvalid(m) => m@,
            BackendError::EncodeOrDecode(m) => m@,
        }
    }

    /// The kind of this error.
    pub fn error_kind(&self) -> (r: BackendErrorKind)
        ensures
            r == self.kind(),
    {
        match self {
            BackendError::LoggedOut => BackendErrorKind::LoggedOut,
            BackendError::Timeout(_) => BackendErrorKind::Timeout,
            BackendError::Connection(_) => BackendErrorKind::Connection,
            BackendError::Request(_) => BackendErrorKind::Request,
            BackendError::API(_) => BackendErrorKind::API,
            BackendError::Unknown(_) => BackendErrorKind::Unknown,
            BackendError::HVCaptchaRequest(_) => BackendErrorKind::HVCaptchaRequest,
            BackendError::HVDataInvalid(_) => BackendErrorKind::HVDataInvalid,
            BackendError::EncodeOrDecode(_) => BackendErrorKind::EncodeOrDecode,
        }
    }
}

pub type BackendResult<T> = Result<T, BackendError>;

/// Sender and subject of a newly received email.
#[derive(Debug)]
pub struct EmailInfo {
    pub sender: String,
    pub subject: String,
}

impl View for EmailInfo {
    type V = (Seq<char>, Seq<char>);

    open spec fn view(&self) -> (Seq<char>, Seq<char>) {
        (self.sender@, self.subject@)
    }
}

impl Clone for EmailInfo {
    fn clone(&self) -> (r: Self)
        ensures
            r@ == self@,
    {
        EmailInfo { sender: self.sender.clone(), subject: self.subject.clone() }
    }
}

/// Reply for new email queries.
#[derive(Debug)]
pub struct NewEmailReply {
    pub emails: Vec<EmailInfo>,
}

/// The values of a list of emails.
pub open spec fn emails_view(emails: Seq<EmailInfo>) -> Seq<(Seq<char>, Seq<char>)> {
    emails.map_values(|e: EmailInfo| e@)
}

impl NewEmailReply {
    /// A reply without any email.
    pub fn empty() -> (r: NewEmailReply)
        ensures
            r.emails@.len() == 0,
    {
        NewEmailReply { emails: Vec::new() }
    }
}

/// State of an account, as a backend hands it out.
pub enum AccountState<A, T> {
    /// The account has been logged out.
    LoggedOut,
    /// The account is awaiting 2FA TOTP code.
    AwaitingTotp(T),
    /// The account is fully logged in.
    LoggedIn(A),
}

/// The three states an account can be in.
#[derive(Debug, Copy, Clone, PartialEq, Eq, Structural)]
pub enum AccountStateKind {
    LoggedOut,
    AwaitingTotp,
    LoggedIn,
}

impl<A, T> AccountState<A, T> {
    /// Which of the three states this is.
    pub open spec fn kind(&self) -> AccountStateKind {
        match self {
            AccountState::LoggedOut => AccountStateKind::LoggedOut,
            AccountState::AwaitingTotp(_) => AccountStateKind::AwaitingTotp,
            AccountState::LoggedIn(_) => AccountStateKind::LoggedIn,
        }
    }
}

/// Implemented by each account that a backend has logged in.
pub trait Account: Sized {
    /// Whether a check may leave the session as `after` and answer `r`. A
    /// session that does not say allows any answer.
    open spec fn spec_check(&self, after: Self, r: (BackendResult<NewEmailReply>, bool)) -> bool {
        true
    }

    /// Check whether new mail is available. If the account token was refreshed
    /// the second member of the tuple is true.
    fn check(&mut self) -> (r: (BackendResult<NewEmailReply>, bool))
        ensures
            old(self).spec_check(*final(self), r),
    ;

    /// Whether logging out may leave the session as `after` and answer `r`.
    /// A session that does not say allows any answer.
    open spec fn spec_logout(&self, after: Self, r: BackendResult<()>) -> bool {
        true
    }

    /// Log the account out.
    fn logout(&mut self) -> (r: BackendResult<()>)
        ensures
            old(self).spec_logout(*final(self), r),
    ;

    /// Whether applying `proxy` may leave the session as `after` and answer
    /// `r`. A session that does not say allows any answer.
    open spec fn spec_set_proxy(&self, proxy: Option<ProxyView>, after: Self, r: BackendResult<()>) -> bool {
        true
    }

    /// Apply the given proxy to the connector. If proxy is none, remove it.
    fn set_proxy(&mut self, proxy: Option<&Proxy>) -> (r: BackendResult<()>)
        ensures
            old(self).spec_set_proxy(proxy_ref_view(proxy), *final(self), r),
    ;

    /// Whether `r` is what the account may give as the data that refreshes
    /// its access credentials. A session that does not say allows any
    /// answer.
    open spec fn spec_auth_refresher_config(&self, r: Result<String, String>) -> bool {
        true
    }

    /// The information needed to refresh the account's access credentials,
    /// as JSON text, or the message of the failure.
    fn auth_refresher_config(&self) -> (r: Result<String, String>)
        ensures
            self.spec_auth_refresher_config(r),
    ;
}

/// Implemented by accounts that wait for a 2FA code.
pub trait AwaitTotp: Sized {
    /// The account type that a successful submission produces.
    type Account: Account;

    /// Whether submitting `totp` may answer `r`. A waiting session that does
    /// not say allows any answer.
    open spec fn spec_submit_totp(&self, totp: Seq<char>, r: Result<Self::Account, (Self, BackendError)>) -> bool {
        true
    }

    /// Submit the TOTP code. On failure the waiting state is handed back.
    fn submit_totp(self, totp: &str) -> (r: Result<Self::Account, (Self, BackendError)>)
        ensures
            self.spec_submit_totp(totp@, r),
    ;
}

/// Implemented by the values that refresh an account's login credentials.
pub trait AuthRefresher: Sized {
    type Account: Account;
    type Totp: AwaitTotp<Account = Self::Account>;

    /// Whether refreshing through `proxy` may answer `r`. A refresher that
    /// does not say allows any answer.
    open spec fn spec_refresh(
        &self,
        proxy: Option<ProxyView>,
        r: Result<AccountState<Self::Account, Self::Totp>, BackendError>,
    ) -> bool {
        true
    }

    /// Log the account back in, through `proxy` if there is one.
    fn refresh(self, proxy: Option<&Proxy>) -> (r: Result<
        AccountState<Self::Account, Self::Totp>,
        BackendError,
    >)
        ensures
            self.spec_refresh(proxy_ref_view(proxy), r),
    ;
}

/// The name of a backend whose implementation does not give it in its
/// specification.
pub closed spec fn backend_name_unknown() -> Seq<char> {
    Seq::empty()
}

/// Implemented by each mail backend.
pub trait Backend: Sized {
    type Account: Account;
    type Totp: AwaitTotp<Account = Self::Account>;
    type Refresher: AuthRefresher<Account = Self::Account, Totp = Self::Totp>;

    /// The backend's name; a backend that does not say is taken to have an
    /// unknown one.
    open spec fn spec_name(&self) -> Seq<char> {
        backend_name_unknown()
    }

    /// The backend's name.
    fn name(&self) -> (r: String)
        ensures
            r@ == self.spec_name(),
    ;

    /// The backend's description.
    fn description(&self) -> String;

    /// Whether `r` is an answer the backend may give when `username` logs in
    /// with `password` through `proxy`. A backend that does not say allows
    /// any answer.
    open spec fn spec_login(
        &self,
        username: Seq<char>,
        password: Seq<char>,
        proxy: Option<ProxyView>,
        r: BackendResult<AccountState<Self::Account, Self::Totp>>,
    ) -> bool {
        true
    }

    /// Log an account in.
    fn login(&self, username: &str, password: &str, proxy: Option<&Proxy>) -> (r: BackendResult<
        AccountState<Self::Account, Self::Totp>,
    >)
        ensures
            self.spec_login(username@, password@, proxy_ref_view(proxy), r),
    ;

    /// Whether checking `proxy` may answer `r`. A backend that does not say
    /// allows any answer.
    open spec fn spec_check_proxy(&self, proxy: ProxyView, r: BackendResult<()>) -> bool {
        true
    }

    /// Check the proxy settings.
    fn check_proxy(&self, proxy: &Proxy) -> (r: BackendResult<()>)
        ensures
            self.spec_check_proxy(proxy@, r),
    ;

    /// Whether `r` is an answer the backend may give when asked to read the
    /// session data `value`. A backend that does not say allows any answer.
    open spec fn spec_refresher_from_config(&self, value: Seq<char>, r: Result<Self::Refresher, String>) -> bool {
        true
    }

    /// Load from JSON text what is needed to refresh an account's access
    /// credentials, or the message of the failure.
    fn auth_refresher_from_config(&self, value: &str) -> (r: Result<Self::Refresher, String>)
        ensures
            self.spec_refresher_from_config(value@, r),
    ;
}

} // verus!
