//! Null backend implementation, useful for testing: it knows a fixed list of
//! accounts and reports one new email on every check.
use crate::backend::{
    Account, AccountState, AuthRefresher, AwaitTotp, Backend, BackendError, BackendResult, EmailInfo,
    NewEmailReply,
};
use crate::proxy::{Proxy, ProxyView};
use crate::text::{decimal, push_decimal};
use std::sync::Arc;
use vstd::prelude::*;
use vstd::string::*;

verus! {

/// An account the null backend knows. `wait_time` is a delay, in
/// milliseconds, that the application may apply to the slow operations;
/// with `refresh`, every check of the account reports its token refreshed.
#[derive(Debug)]
pub struct NullTestAccount {
    pub email: String,
    pub password: String,
    pub totp: Option<String>,
    pub wait_time: Option<u64>,
    pub refresh: bool,
}

impl Clone for NullTestAccount {
    fn clone(&self) -> (r: Self)
        ensures
            r.email@ == self.email@,
            r.password@ == self.password@,
            r.totp == self.totp,
            r.wait_time == self.wait_time,
            r.refresh == self.refresh,
    {
        NullTestAccount {
            email: self.email.clone(),
            password: self.password.clone(),
            totp: match &self.totp {
                Some(t) => Some(t.clone()),
                None => None,
            },
            wait_time: self.wait_time,
            refresh: self.refresh,
        }
    }
}

/// The name of the null backend.
pub const NULL_BACKEND_NAME: &'static str = "Null Backend";

/// The JSON text that records the email and the check counter of a null
/// account.
pub uninterp spec fn null_config_json(email: Seq<char>, counter: u64) -> Seq<char>;

/// The email and the counter that JSON text records, if it is an object with
/// a string field `email` and an unsigned integer field `counter`.
pub uninterp spec fn null_config_fields(json: Seq<char>) -> Option<(Seq<char>, u64)>;

/// The email and counter of a decoded null configuration, by their views.
pub open spec fn fields_view(o: Option<(String, u64)>) -> Option<(Seq<char>, u64)> {
    match o {
        Some((e, c)) => Some((e@, c)),
        None => None,
    }
}

/// The JSON object `{"email": email, "counter": counter}` as text.
///
/// Trusted: builds a `serde_json::Value` object and calls `to_string` on it.
/// The text is named by `null_config_json`; nothing else is claimed.
#[verifier::external_body]
fn fields_config_json(email: &String, counter: u64) -> (r: String)
    ensures
        r@ == null_config_json(email@, counter),
{
    let mut m = serde_json::Map::new();
    m.insert("email".to_owned(), serde_json::Value::String(email.clone()));
    m.insert("counter".to_owned(), serde_json::Value::from(counter));
    serde_json::Value::Object(m).to_string()
}

/// The string field `email` and the unsigned field `counter` of the JSON
/// object in `json`, if it has both.
///
/// Trusted: calls `serde_json::from_str::<serde_json::Value>`, then `get`,
/// `as_str` and `as_u64`. The result is named by `null_config_fields`; the
/// contract also claims that the text `fields_config_json` makes is read back
/// to the fields it was made from, as serde_json documents for its own output.
#[verifier::external_body]
fn fields_from_config_json(json: &str) -> (r: Option<(String, u64)>)
    ensures
        fields_view(r) == null_config_fields(json@),
        forall|e: Seq<char>, c: u64| json@ == null_config_json(e, c) ==> fields_view(r) == Some((e, c)),
{
    let v: serde_json::Value = serde_json::from_str(json).ok()?;
    let email = v.get("email")?.as_str()?.to_owned();
    let counter = v.get("counter")?.as_u64()?;
    Some((email, counter))
}

/// The null backend: its accounts, keyed by email (the last of equal emails
/// wins).
#[derive(Debug)]
pub struct NullBackend {
    accounts: Vec<NullTestAccount>,
}

/// A backend that knows `accounts`.
pub fn new_backend(accounts: &Vec<NullTestAccount>) -> (r: Arc<NullBackend>)
    ensures
        r.accounts_view().len() == accounts@.len(),
        forall|i: int| 0 <= i < accounts@.len() ==> (#[trigger] r.accounts_view()[i]).email@ == accounts@[i].email@
            && r.accounts_view()[i].password@ == accounts@[i].password@
            && r.accounts_view()[i].totp == accounts@[i].totp,
{
    let mut v: Vec<NullTestAccount> = Vec::new();
    let mut i: usize = 0;
    while i < accounts.len()
        invariant
            i <= accounts@.len(),
            v@.len() == i,
            forall|j: int| 0 <= j < i ==> (#[trigger] v@[j]).email@ == accounts@[j].email@
                && v@[j].password@ == accounts@[j].password@ && v@[j].totp == accounts@[j].totp,
        decreases accounts@.len() - i,
    {
        v.push(accounts[i].clone());
        i = i + 1;
    }
    Arc::new(NullBackend { accounts: v })
}

/// The position of the last account in `accounts` with email `email`.
pub open spec fn last_with_email(accounts: Seq<NullTestAccount>, email: Seq<char>) -> Option<int>
    decreases accounts.len(),
{
    if accounts.len() == 0 {
        None
    } else if accounts.last().email@ == email {
        Some(accounts.len() - 1)
    } else {
        last_with_email(accounts.drop_last(), email)
    }
}

impl NullBackend {
    /// The accounts the backend knows.
    pub closed spec fn accounts_view(&self) -> Seq<NullTestAccount> {
        self.accounts@
    }

    /// The account with `email`, if the backend knows one.
    fn lookup(&self, email: &String) -> (r: Option<&NullTestAccount>)
        ensures
            match last_with_email(self.accounts@, email@) {
                Some(i) => r == Some(&self.accounts@[i]),
                None => r is None,
            },
    {
        let mut i: usize = self.accounts.len();
        proof {
            assert(self.accounts@.take(i as int) =~= self.accounts@);
        }
        while i > 0
            invariant
                i <= self.accounts@.len(),
                last_with_email(self.accounts@, email@) == last_with_email(self.accounts@.take(i as int), email@),
            decreases i,
        {
            proof {
                assert(self.accounts@.take(i as int).drop_last() =~= self.accounts@.take(i - 1));
                assert(self.accounts@.take(i as int).last() == self.accounts@[i - 1]);
            }
            if self.accounts[i - 1].email.eq(email) {
                return Some(&self.accounts[i - 1]);
            }
            i = i - 1;
        }
        None
    }
}

/// What logging into the null backend gives, by the state it leads to.
pub open spec fn null_login_kind(accounts: Seq<NullTestAccount>, email: Seq<char>, password: Seq<char>) -> Option<
    bool,
> {
    match last_with_email(accounts, email) {
        Some(i) => if accounts[i].password@ == password {
            Some(accounts[i].totp is Some)
        } else {
            None
        },
        None => None,
    }
}

impl Backend for NullBackend {
    type Account = NullAccount;
    type Totp = NullAwaitTotp;
    type Refresher = NullAuthRefresher;

    open spec fn spec_name(&self) -> Seq<char> {
        NULL_BACKEND_NAME@
    }

    /// Every proxy passes the check.
    open spec fn spec_check_proxy(&self, proxy: ProxyView, r: BackendResult<()>) -> bool {
        r is Ok
    }

    /// Session data that records an email and a counter restores that
    /// account; other text is refused.
    open spec fn spec_refresher_from_config(&self, value: Seq<char>, r: Result<NullAuthRefresher, String>) -> bool {
        &&& match null_config_fields(value) {
            Some((e, c)) => r matches Ok(x) && x.email@ == e && x.counter == c,
            None => r is Err,
        }
        &&& forall|e: Seq<char>, c: u64| value == null_config_json(e, c) ==> (r matches Ok(x) && x.email@ == e && x.counter == c)
    }

    /// A known account with the right password logs in, or waits for its
    /// TOTP code if it has one, as a fresh account; anything else is refused.
    open spec fn spec_login(
        &self,
        username: Seq<char>,
        password: Seq<char>,
        proxy: Option<ProxyView>,
        r: BackendResult<AccountState<NullAccount, NullAwaitTotp>>,
    ) -> bool {
        match null_login_kind(self.accounts_view(), username, password) {
            None => r matches Err(BackendError::Request(_)),
            Some(true) => r matches Ok(AccountState::AwaitingTotp(t)) && t.email@ == username,
            Some(false) => r matches Ok(AccountState::LoggedIn(a)) && a.email@ == username && a.counter == 0
                && a.refresh == self.accounts_view()[last_with_email(self.accounts_view(), username)->0].refresh,
        }
    }

    fn name(&self) -> (r: String) {
        NULL_BACKEND_NAME.to_owned()
    }

    fn description(&self) -> (r: String)
        ensures
            r@ == "Test backend to verify app behavior"@,
    {
        "Test backend to verify app behavior".to_owned()
    }

    /// A known account with the right password logs in, or waits for its
    /// TOTP code if it has one; anything else is refused.
    fn login(&self, username: &str, password: &str, proxy: Option<&Proxy>) -> (r: BackendResult<
        AccountState<NullAccount, NullAwaitTotp>,
    >)
        ensures
            match null_login_kind(self.accounts_view(), username@, password@) {
                None => r matches Err(BackendError::Request(_)),
                Some(true) => r matches Ok(AccountState::AwaitingTotp(t)) && t.email@ == username@,
                Some(false) => r matches Ok(AccountState::LoggedIn(a)) && a.email@ == username@ && a.counter == 0
                    && a.refresh == self.accounts_view()[last_with_email(self.accounts_view(), username@)->0].refresh,
            },
    {
        let email = username.to_owned();
        match self.lookup(&email) {
            Some(account) => {
                if !account.password.eq(&password.to_owned()) {
                    return Err(BackendError::Request("invalid user name or password".to_owned()));
                }
                match &account.totp {
                    Some(totp) => Ok(
                        AccountState::AwaitingTotp(
                            NullAwaitTotp {
                                email,
                                totp: totp.clone(),
                                wait_time: account.wait_time,
                                refresh: account.refresh,
                            },
                        ),
                    ),
                    None => Ok(
                        AccountState::LoggedIn(
                            NullAccount { email, wait_time: account.wait_time, counter: 0, refresh: account.refresh },
                        ),
                    ),
                }
            },
            None => Err(BackendError::Request("invalid user name or password".to_owned())),
        }
    }

    fn check_proxy(&self, proxy: &Proxy) -> (r: BackendResult<()>)
        ensures
            r is Ok,
    {
        Ok(())
    }

    fn auth_refresher_from_config(&self, value: &str) -> (r: Result<NullAuthRefresher, String>)
        ensures
            match null_config_fields(value@) {
                Some((e, c)) => r matches Ok(x) && x.email@ == e && x.counter == c,
                None => r is Err,
            },
            forall|e: Seq<char>, c: u64| value@ == null_config_json(e, c) ==> (r matches Ok(x) && x.email@ == e && x.counter == c),
    {
        match fields_from_config_json(value) {
            Some((email, counter)) => Ok(NullAuthRefresher { email, counter }),
            None => Err("invalid null account configuration".to_owned()),
        }
    }
}

/// A logged-in null account; `counter` counts the checks made, and with
/// `refresh` every check reports the token refreshed.
#[derive(Debug)]
pub struct NullAccount {
    pub email: String,
    pub wait_time: Option<u64>,
    pub counter: u64,
    pub refresh: bool,
}

/// The email the null backend reports on check number `counter`.
pub open spec fn null_email_info(counter: nat) -> (Seq<char>, Seq<char>) {
    ("Null "@ + decimal(counter), "Null Subject "@ + decimal(counter))
}

impl NullAccount {
    /// The email reported on check number `counter`.
    pub fn create_email_info(counter: u64) -> (r: EmailInfo)
        ensures
            r@ == null_email_info(counter as nat),
    {
        let mut sender = "Null ".to_owned();
        push_decimal(&mut sender, counter);
        let mut subject = "Null Subject ".to_owned();
        push_decimal(&mut subject, counter);
        EmailInfo { sender, subject }
    }

    /// The reply to check number `counter`: one email.
    pub fn create_email_reply(counter: u64) -> (r: NewEmailReply)
        ensures
            crate::backend::emails_view(r.emails@) == seq![null_email_info(counter as nat)],
    {
        let mut emails: Vec<EmailInfo> = Vec::new();
        emails.push(Self::create_email_info(counter));
        proof {
            assert(crate::backend::emails_view(emails@) =~= seq![null_email_info(counter as nat)]);
        }
        NewEmailReply { emails }
    }
}

impl Account for NullAccount {
    /// A check counts itself and reports one email; the token counts as
    /// refreshed if the account was made with `refresh`.
    open spec fn spec_check(&self, after: Self, r: (BackendResult<NewEmailReply>, bool)) -> bool {
        &&& after.counter == self.counter.wrapping_add(1)
        &&& after.email == self.email
        &&& after.wait_time == self.wait_time
        &&& after.refresh == self.refresh
        &&& r.0 matches Ok(reply) && crate::backend::emails_view(reply.emails@) == seq![
            null_email_info(after.counter as nat),
        ]
        &&& r.1 == self.refresh
    }

    /// Logging out always succeeds and changes nothing.
    open spec fn spec_logout(&self, after: Self, r: BackendResult<()>) -> bool {
        r is Ok && after == *self
    }

    /// Any proxy is applied and changes nothing.
    open spec fn spec_set_proxy(&self, proxy: Option<ProxyView>, after: Self, r: BackendResult<()>) -> bool {
        r is Ok && after == *self
    }

    /// The session data names the account's email and its check counter.
    open spec fn spec_auth_refresher_config(&self, r: Result<String, String>) -> bool {
        r matches Ok(s) && s@ == null_config_json(self.email@, self.counter)
    }

    /// Count the check and report one email; the token counts as refreshed
    /// if the account was made with `refresh`.
    fn check(&mut self) -> (r: (BackendResult<NewEmailReply>, bool))
        ensures
            final(self).counter == old(self).counter.wrapping_add(1),
            final(self).email == old(self).email,
            final(self).refresh == old(self).refresh,
            final(self).wait_time == old(self).wait_time,
            r.0 matches Ok(reply) && crate::backend::emails_view(reply.emails@) == seq![null_email_info(final(self).counter as nat)],
            r.1 == old(self).refresh,
    {
        self.counter = self.counter.wrapping_add(1);
        (Ok(Self::create_email_reply(self.counter)), self.refresh)
    }

    fn logout(&mut self) -> (r: BackendResult<()>)
        ensures
            r is Ok,
    {
        Ok(())
    }

    fn set_proxy(&mut self, proxy: Option<&Proxy>) -> (r: BackendResult<()>)
        ensures
            r is Ok,
    {
        Ok(())
    }

    fn auth_refresher_config(&self) -> (r: Result<String, String>)
        ensures
            r matches Ok(s) && s@ == null_config_json(self.email@, self.counter),
    {
        Ok(fields_config_json(&self.email, self.counter))
    }
}

/// A null account waiting for its TOTP code.
#[derive(Debug)]
pub struct NullAwaitTotp {
    pub email: String,
    pub totp: String,
    pub wait_time: Option<u64>,
    pub refresh: bool,
}

impl AwaitTotp for NullAwaitTotp {
    type Account = NullAccount;

    /// The right code logs the account in as a fresh account; a wrong one is
    /// refused and the account keeps waiting.
    open spec fn spec_submit_totp(&self, totp: Seq<char>, r: Result<NullAccount, (NullAwaitTotp, BackendError)>) -> bool {
        if self.totp@ == totp {
            r matches Ok(a) && a.email == self.email && a.counter == 0 && a.refresh == self.refresh
        } else {
            r matches Err((t, BackendError::Request(_))) && t == *self
        }
    }

    /// The right code logs the account in; a wrong one is refused.
    fn submit_totp(self, totp: &str) -> (r: Result<NullAccount, (NullAwaitTotp, BackendError)>)
        ensures
            self.totp@ == totp@ ==> (r matches Ok(a) && a.email == self.email && a.counter == 0 && a.refresh
                == self.refresh),
            self.totp@ != totp@ ==> (r matches Err((t, BackendError::Request(_))) && t == self),
    {
        if !self.totp.eq(&totp.to_owned()) {
            return Err((self, BackendError::Request("Invalid totp".to_owned())));
        }
        Ok(NullAccount { email: self.email, wait_time: self.wait_time, counter: 0, refresh: self.refresh })
    }
}

/// Restores a null account from its email and check counter.
#[derive(Debug)]
pub struct NullAuthRefresher {
    pub email: String,
    pub counter: u64,
}

impl AuthRefresher for NullAuthRefresher {
    type Account = NullAccount;
    type Totp = NullAwaitTotp;

    /// The account comes back logged in with its email and counter.
    open spec fn spec_refresh(
        &self,
        proxy: Option<ProxyView>,
        r: Result<AccountState<NullAccount, NullAwaitTotp>, BackendError>,
    ) -> bool {
        r matches Ok(AccountState::LoggedIn(a)) && a.email == self.email && a.counter == self.counter && !a.refresh
    }

    fn refresh(self, proxy: Option<&Proxy>) -> (r: Result<AccountState<NullAccount, NullAwaitTotp>, BackendError>)
        ensures
            r matches Ok(AccountState::LoggedIn(a)) && a.email == self.email && a.counter == self.counter
                && !a.refresh,
    {
        Ok(AccountState::LoggedIn(NullAccount { email: self.email, wait_time: None, counter: self.counter, refresh: false }))
    }
}

/// Law: the session data a null account gives is read back by its backend
/// to a refresher for the same email and check counter, so that the account
/// can be restored from what was recorded of it.
pub proof fn law_null_given_session_restores(
    account: NullAccount,
    given: Result<String, String>,
    backend: NullBackend,
    read: Result<NullAuthRefresher, String>,
)
    requires
        account.spec_auth_refresher_config(given),
        given is Ok ==> backend.spec_refresher_from_config(given->Ok_0@, read),
    ensures
        given is Ok,
        read matches Ok(x) && x.email@ == account.email@ && x.counter == account.counter,
{
}

/// Law: the session data a null account stores is read back by its backend
/// to a refresher for the same email and counter, and refreshing with it
/// logs the same account back in.
pub proof fn law_null_session_round_trip(
    backend: NullBackend,
    account: NullAccount,
    read: Result<NullAuthRefresher, String>,
    proxy: Option<ProxyView>,
    refreshed: Result<AccountState<NullAccount, NullAwaitTotp>, BackendError>,
)
    requires
        backend.spec_refresher_from_config(null_config_json(account.email@, account.counter), read),
        read is Ok ==> read->Ok_0.spec_refresh(proxy, refreshed),
    ensures
        read matches Ok(x) && x.email@ == account.email@ && x.counter == account.counter,
        refreshed matches Ok(AccountState::LoggedIn(a)) && a.email@ == account.email@ && a.counter == account.counter,
{
}

} // verus!
