//! A user account of some backend, and the states it moves through.
use crate::backend::Account as BackendAccount;
use crate::backend::{
    AccountState, AccountStateKind, AuthRefresher, AwaitTotp, Backend, BackendError,
    BackendErrorKind, NewEmailReply,
};
use crate::proxy::{clone_proxy_opt, proxy_opt_eq, proxy_opt_view, proxy_ref_view, Proxy, ProxyView};
use std::sync::Arc;
use vstd::prelude::*;

verus! {

/// A second handle on a shared value.
///
/// Trusted: calls `Arc::clone`, which std documents as making another pointer
/// to the same allocation; the contract says the handle points at the same
/// value.
#[verifier::external_body]
pub(crate) fn arc_clone<T>(a: &Arc<T>) -> (r: Arc<T>)
    ensures
        *r == **a,
{
    Arc::clone(a)
}

/// Error returned from account operations.
#[derive(Debug)]
pub enum AccountError {
    /// The account is not in the right state for this operation.
    InvalidState,
    /// The backend reported an error.
    Backend(BackendError),
    /// The proxy configuration is invalid or the proxy is unreachable.
    Proxy,
    /// Unknown error, with its message.
    Unknown(String),
}

impl AccountError {
    /// Whether this error says that the account has been logged out.
    pub open spec fn spec_is_logged_out(&self) -> bool {
        match self {
            AccountError::Backend(e) => e.kind() == BackendErrorKind::LoggedOut,
            _ => false,
        }
    }

    /// Whether this error says that the account has been logged out.
    pub fn is_logged_out(&self) -> (r: bool)
        ensures
            r == self.spec_is_logged_out(),
    {
        if let AccountError::Backend(e) = self {
            return matches!(e, BackendError::LoggedOut);
        }
        false
    }
}

pub type AccountResult<T> = Result<T, AccountError>;

/// Represents a user account. Use [`Account::login`] to log it in.
pub struct Account<B: Backend> {
    backend: Arc<B>,
    state: AccountState<B::Account, B::Totp>,
    email: String,
    proxy: Option<Proxy>,
}

impl<B: Backend> Account<B> {
    /// Which state the account is in.
    pub open spec fn state_kind(&self) -> AccountStateKind {
        self.state_value().kind()
    }

    /// The account's email.
    pub closed spec fn email_view(&self) -> Seq<char> {
        self.email@
    }

    /// The account's email, as the string it is kept in.
    pub closed spec fn email_string(&self) -> String {
        self.email
    }

    /// The proxy applied to the account.
    pub closed spec fn proxy_view(&self) -> Option<ProxyView> {
        proxy_opt_view(self.proxy)
    }

    /// The account's backend.
    pub closed spec fn backend_value(&self) -> B {
        *self.backend
    }

    /// The account's state, with the backend session it holds.
    pub closed spec fn state_value(&self) -> AccountState<B::Account, B::Totp> {
        self.state
    }

    /// Whether the account and its email, proxy and backend stay as they are
    /// in `after`, whatever its state.
    pub open spec fn same_identity(&self, after: Self) -> bool {
        &&& after.email_view() == self.email_view()
        &&& after.email_string() == self.email_string()
        &&& after.proxy_view() == self.proxy_view()
        &&& after.backend_value() == self.backend_value()
    }

    /// Whether a check of this account may answer `r` and leave it as
    /// `after`: a logged-in account answers what its session's check gave,
    /// and becomes logged out if that says so; any other account is in the
    /// wrong state and stays as it is.
    pub open spec fn check_outcome(&self, after: Self, r: (AccountResult<NewEmailReply>, bool)) -> bool {
        &&& self.same_identity(after)
        &&& match self.state_value() {
            AccountState::LoggedIn(a) => match r.0 {
                Ok(reply) => (after.state_value() matches AccountState::LoggedIn(a2) && a.spec_check(a2, (Ok(reply), r.1))),
                Err(AccountError::Backend(e)) => if e is LoggedOut {
                    after.state_value() is LoggedOut && exists|a2: B::Account| a.spec_check(a2, (Err(e), r.1))
                } else {
                    (after.state_value() matches AccountState::LoggedIn(a2) && a.spec_check(a2, (Err(e), r.1)))
                },
                Err(_) => false,
            },
            _ => r.0 matches Err(AccountError::InvalidState) && !r.1 && after.state_value() == self.state_value(),
        }
    }

    /// Whether applying `proxy` to this account may answer `r` and leave it
    /// as `after`: the same proxy again changes nothing; a new one is first
    /// checked with the backend (a refusal is a proxy error), then applied
    /// to a logged-in session (a refusal is that session's error), and only
    /// then recorded.
    pub open spec fn set_proxy_outcome(&self, proxy: Option<ProxyView>, after: Self, r: AccountResult<bool>) -> bool {
        &&& after.email_view() == self.email_view()
        &&& after.email_string() == self.email_string()
        &&& after.backend_value() == self.backend_value()
        &&& if self.proxy_view() == proxy {
            r matches Ok(false) && after.proxy_view() == self.proxy_view() && after.state_value() == self.state_value()
        } else {
            &&& proxy matches Some(p) ==> exists|c: crate::backend::BackendResult<()>|
                #[trigger] self.backend_value().spec_check_proxy(p, c) && (c is Err <==> r matches Err(AccountError::Proxy))
            &&& proxy is None ==> !(r matches Err(AccountError::Proxy))
            &&& r matches Err(AccountError::Proxy) ==> after.proxy_view() == self.proxy_view()
                && after.state_value() == self.state_value()
            &&& r matches Err(AccountError::Backend(e)) ==> (self.state_value() matches AccountState::LoggedIn(a)
                && after.state_value() matches AccountState::LoggedIn(a2) && a.spec_set_proxy(proxy, a2, Err(e))
                && after.proxy_view() == self.proxy_view())
            &&& r is Ok ==> r == Ok::<bool, AccountError>(true) && after.proxy_view() == proxy
            &&& r is Ok && self.state_value() is LoggedIn ==> (self.state_value() matches AccountState::LoggedIn(a)
                && after.state_value() matches AccountState::LoggedIn(a2) && a.spec_set_proxy(proxy, a2, Ok(())))
            &&& r is Ok && !(self.state_value() is LoggedIn) ==> after.state_value() == self.state_value()
            &&& r is Err ==> (r->Err_0 is Proxy || r->Err_0 is Backend)
        }
    }

    /// Whether logging this account out may answer `r` and leave it as
    /// `after`: a logged-in account logs its session out and is logged out
    /// if that succeeds, keeping the session otherwise; any other account is
    /// simply logged out.
    pub open spec fn logout_outcome(&self, after: Self, r: AccountResult<()>) -> bool {
        &&& self.same_identity(after)
        &&& match self.state_value() {
            AccountState::LoggedIn(a) => match r {
                Ok(()) => after.state_value() is LoggedOut && exists|a2: B::Account| a.spec_logout(a2, Ok(())),
                Err(AccountError::Backend(e)) => (after.state_value() matches AccountState::LoggedIn(a2) && a.spec_logout(a2, Err(e))),
                Err(_) => false,
            },
            _ => r is Ok && after.state_value() is LoggedOut,
        }
    }

    /// Move the state out, leaving the account logged out.
    fn take_state(&mut self) -> (r: AccountState<B::Account, B::Totp>)
        ensures
            r == old(self).state,
            final(self).state.kind() == AccountStateKind::LoggedOut,
            final(self).email == old(self).email,
            final(self).proxy == old(self).proxy,
            final(self).backend == old(self).backend,
    {
        let mut state = AccountState::LoggedOut;
        std::mem::swap(&mut state, &mut self.state);
        state
    }

    /// A logged-out account.
    pub fn new(backend: Arc<B>, email: String, proxy: Option<Proxy>) -> (r: Self)
        ensures
            r.state_kind() == AccountStateKind::LoggedOut,
            r.email_view() == email@,
            r.proxy_view() == proxy_opt_view(proxy),
            r.backend_value() == *backend,
    {
        Account { backend, state: AccountState::LoggedOut, email, proxy }
    }

    /// An account in the given state.
    pub fn with_state(
        backend: Arc<B>,
        email: String,
        state: AccountState<B::Account, B::Totp>,
        proxy: Option<Proxy>,
    ) -> (r: Self)
        ensures
            r.state_kind() == state.kind(),
            r.email_view() == email@,
            r.proxy_view() == proxy_opt_view(proxy),
            r.backend_value() == *backend,
    {
        Account { backend, state, email, proxy }
    }

    /// Take ownership of the current account and leave this instance
    /// logged out, without a proxy.
    pub fn take(&mut self) -> (r: Account<B>)
        ensures
            r.state_kind() == old(self).state_kind(),
            r.email_view() == old(self).email_view(),
            r.proxy_view() == old(self).proxy_view(),
            r.backend_value() == old(self).backend_value(),
            final(self).state_kind() == AccountStateKind::LoggedOut,
            final(self).email_view() == old(self).email_view(),
            final(self).proxy_view() == None::<ProxyView>,
            final(self).backend_value() == old(self).backend_value(),
    {
        let state = self.take_state();
        let proxy = self.proxy.take();
        Account { backend: arc_clone(&self.backend), email: self.email.clone(), state, proxy }
    }

    /// Whether the account is logged in.
    pub fn is_logged_in(&self) -> (r: bool)
        ensures
            r == (self.state_kind() == AccountStateKind::LoggedIn),
    {
        matches!(self.state, AccountState::LoggedIn(..))
    }

    /// Whether the account is logged out.
    pub fn is_logged_out(&self) -> (r: bool)
        ensures
            r == (self.state_kind() == AccountStateKind::LoggedOut),
    {
        matches!(self.state, AccountState::LoggedOut)
    }

    /// Whether the account is awaiting a TOTP code.
    pub fn is_awaiting_totp(&self) -> (r: bool)
        ensures
            r == (self.state_kind() == AccountStateKind::AwaitingTotp),
    {
        matches!(self.state, AccountState::AwaitingTotp(..))
    }

    /// The account's email.
    pub fn email(&self) -> (r: &String)
        ensures
            r@ == self.email_view(),
            *r == self.email_string(),
    {
        &self.email
    }

    /// The account's backend.
    pub fn backend(&self) -> (r: &B)
        ensures
            *r == self.backend_value(),
    {
        &self.backend
    }

    /// Run the check for new mail. An account that the backend reports as
    /// logged out becomes logged out. The second member tells whether the
    /// access token was refreshed.
    pub fn check(&mut self) -> (r: (AccountResult<NewEmailReply>, bool))
        ensures
            final(self).email_view() == old(self).email_view(),
            final(self).email_string() == old(self).email_string(),
            final(self).proxy_view() == old(self).proxy_view(),
            final(self).backend_value() == old(self).backend_value(),
            old(self).state_kind() != AccountStateKind::LoggedIn ==> (r.0 matches Err(
                AccountError::InvalidState,
            ) && !r.1 && final(self).state_kind() == old(self).state_kind()),
            old(self).state_kind() == AccountStateKind::LoggedIn ==> {
                &&& !(r.0 matches Err(AccountError::InvalidState))
                &&& r.0 is Err ==> r.0->Err_0 is Backend
                &&& final(self).state_kind() == if r.0 matches Err(e) && e.spec_is_logged_out() {
                    AccountStateKind::LoggedOut
                } else {
                    AccountStateKind::LoggedIn
                }
            },
            old(self).check_outcome(*final(self), r),
    {
        let old_state = self.take_state();
        match old_state {
            AccountState::LoggedIn(mut a) => {
                let ghost a0 = a;
                let (res, refreshed) = a.check();
                proof {
                    assert(a0.spec_check(a, (res, refreshed)));
                }
                match res {
                    Ok(reply) => {
                        self.state = AccountState::LoggedIn(a);
                        (Ok(reply), refreshed)
                    },
                    Err(e) => {
                        let lo = matches!(e, BackendError::LoggedOut);
                        if !lo {
                            self.state = AccountState::LoggedIn(a);
                        }
                        (Err(AccountError::Backend(e)), refreshed)
                    },
                }
            },
            other => {
                self.state = other;
                (Err(AccountError::InvalidState), false)
            },
        }
    }

    /// Log in with the given password. Only a logged-out account can log in.
    pub fn login(&mut self, password: &str) -> (r: AccountResult<()>)
        ensures
            final(self).email_view() == old(self).email_view(),
            final(self).proxy_view() == old(self).proxy_view(),
            final(self).backend_value() == old(self).backend_value(),
            old(self).state_kind() != AccountStateKind::LoggedOut ==> (r matches Err(
                AccountError::InvalidState,
            ) && final(self).state_kind() == old(self).state_kind()),
            old(self).state_kind() == AccountStateKind::LoggedOut ==> (r is Err ==> (
            r->Err_0 is Backend && final(self).state_kind() == AccountStateKind::LoggedOut)),
            old(self).state_kind() == AccountStateKind::LoggedOut ==> exists|res: crate::backend::BackendResult<AccountState<B::Account, B::Totp>>|
                {
                    &&& #[trigger] old(self).backend_value().spec_login(old(self).email_view(), password@, old(self).proxy_view(), res)
                    &&& res matches Ok(s) ==> r is Ok && final(self).state_value() == s
                    &&& res matches Err(e) ==> r matches Err(AccountError::Backend(x)) && x == e
                },
    {
        if !self.is_logged_out() {
            return Err(AccountError::InvalidState);
        }
        let proxy = self.proxy.as_ref();
        proof {
            assert(proxy_ref_view(proxy) == self.proxy_view());
        }
        let res = self.backend.login(self.email.as_str(), password, proxy);
        let ghost res_g = res;
        let r = match res {
            Ok(state) => {
                self.state = state;
                Ok(())
            },
            Err(e) => Err(AccountError::Backend(e)),
        };
        proof {
            assert(old(self).backend_value().spec_login(old(self).email_view(), password@, old(self).proxy_view(), res_g));
        }
        r
    }

    /// Log the account out. If the backend fails to log out, the account stays
    /// logged in.
    pub fn logout(&mut self) -> (r: AccountResult<()>)
        ensures
            final(self).email_view() == old(self).email_view(),
            final(self).email_string() == old(self).email_string(),
            final(self).proxy_view() == old(self).proxy_view(),
            final(self).backend_value() == old(self).backend_value(),
            r is Ok ==> final(self).state_kind() == AccountStateKind::LoggedOut,
            r is Err ==> (old(self).state_kind() == AccountStateKind::LoggedIn
                && final(self).state_kind() == AccountStateKind::LoggedIn
                && r->Err_0 is Backend),
            old(self).state_kind() != AccountStateKind::LoggedIn ==> r is Ok,
            old(self).logout_outcome(*final(self), r),
    {
        let old_state = self.take_state();
        match old_state {
            AccountState::LoggedOut => Ok(()),
            AccountState::AwaitingTotp(_) => Ok(()),
            AccountState::LoggedIn(mut account) => {
                let ghost a0 = account;
                let res = account.logout();
                let ghost res_g = res;
                proof {
                    assert(a0.spec_logout(account, res_g));
                }
                match res {
                    Err(e) => {
                        self.state = AccountState::LoggedIn(account);
                        Err(AccountError::Backend(e))
                    },
                    Ok(u) => {
                        proof {
                            assert(res_g is Ok);
                            assert(a0.spec_logout(account, Ok(u)));
                        }
                        Ok(())
                    },
                }
            },
        }
    }

    /// Submit a TOTP code. Only an account awaiting the code accepts it; on
    /// failure it keeps waiting.
    pub fn submit_totp(&mut self, totp: &str) -> (r: AccountResult<()>)
        ensures
            final(self).email_view() == old(self).email_view(),
            final(self).proxy_view() == old(self).proxy_view(),
            final(self).backend_value() == old(self).backend_value(),
            old(self).state_kind() != AccountStateKind::AwaitingTotp ==> (r matches Err(
                AccountError::InvalidState,
            ) && final(self).state_kind() == old(self).state_kind()),
            old(self).state_kind() == AccountStateKind::AwaitingTotp ==> (
            final(self).state_kind() == if r is Ok {
                AccountStateKind::LoggedIn
            } else {
                AccountStateKind::AwaitingTotp
            } && (r is Err ==> r->Err_0 is Backend)),
            old(self).state_kind() != AccountStateKind::AwaitingTotp ==> final(self).state_value() == old(self).state_value(),
            old(self).state_value() matches AccountState::AwaitingTotp(t) ==> {
                &&& r is Ok ==> (final(self).state_value() matches AccountState::LoggedIn(a) && t.spec_submit_totp(
                    totp@,
                    Ok(a),
                ))
                &&& r matches Err(AccountError::Backend(e)) ==> (final(self).state_value() matches AccountState::AwaitingTotp(
                    t2,
                ) && t.spec_submit_totp(totp@, Err((t2, e))))
            },
    {
        let old_state = self.take_state();
        match old_state {
            AccountState::LoggedOut => Err(AccountError::InvalidState),
            AccountState::AwaitingTotp(t) => {
                let ghost t0 = t;
                let res = t.submit_totp(totp);
                let ghost rg = res;
                proof {
                    assert(t0.spec_submit_totp(totp@, rg));
                }
                match res {
                    Ok(a) => {
                        self.state = AccountState::LoggedIn(a);
                        Ok(())
                    },
                    Err((t, e)) => {
                        self.state = AccountState::AwaitingTotp(t);
                        Err(AccountError::Backend(e))
                    },
                }
            },
            AccountState::LoggedIn(a) => {
                self.state = AccountState::LoggedIn(a);
                Err(AccountError::InvalidState)
            },
        }
    }

    /// Refresh the authentication token of a logged-out account.
    pub fn refresh(&mut self, refresher: B::Refresher) -> (r: AccountResult<()>)
        ensures
            final(self).email_view() == old(self).email_view(),
            final(self).proxy_view() == old(self).proxy_view(),
            final(self).backend_value() == old(self).backend_value(),
            old(self).state_kind() != AccountStateKind::LoggedOut ==> (r matches Err(
                AccountError::InvalidState,
            ) && final(self).state_kind() == old(self).state_kind()),
            old(self).state_kind() == AccountStateKind::LoggedOut ==> (r is Err ==> (
            r->Err_0 is Backend && final(self).state_kind() == AccountStateKind::LoggedOut)),
            old(self).state_kind() == AccountStateKind::LoggedOut ==> exists|res: crate::backend::BackendResult<AccountState<B::Account, B::Totp>>|
                {
                    &&& #[trigger] refresher.spec_refresh(old(self).proxy_view(), res)
                    &&& res matches Ok(s) ==> r is Ok && final(self).state_value() == s
                    &&& res matches Err(e) ==> r matches Err(AccountError::Backend(x)) && x == e
                },
    {
        if !self.is_logged_out() {
            return Err(AccountError::InvalidState);
        }
        let proxy = self.proxy.as_ref();
        proof {
            assert(proxy_ref_view(proxy) == self.proxy_view());
        }
        let ghost rf = refresher;
        let res = refresher.refresh(proxy);
        let ghost res_g = res;
        let r = match res {
            Ok(state) => {
                self.state = state;
                Ok(())
            },
            Err(e) => Err(AccountError::Backend(e)),
        };
        proof {
            assert(rf.spec_refresh(old(self).proxy_view(), res_g));
        }
        r
    }

    /// Apply a proxy configuration to this account. Returns whether anything
    /// changed: the same proxy twice is no change. A new proxy is first
    /// checked with the backend, then applied to a logged-in session.
    pub fn set_proxy(&mut self, proxy: Option<&Proxy>) -> (r: AccountResult<bool>)
        ensures
            final(self).email_view() == old(self).email_view(),
            final(self).state_kind() == old(self).state_kind(),
            final(self).backend_value() == old(self).backend_value(),
            old(self).proxy_view() == proxy_ref_view(proxy) ==> (r matches Ok(false)
                && final(self).proxy_view() == old(self).proxy_view()),
            old(self).proxy_view() != proxy_ref_view(proxy) ==> {
                &&& r matches Ok(b) ==> b && final(self).proxy_view() == proxy_ref_view(proxy)
                &&& r is Err ==> final(self).proxy_view() == old(self).proxy_view()
                &&& r is Err ==> (r->Err_0 is Proxy && proxy is Some) || (r->Err_0 is Backend
                    && old(self).state_kind() == AccountStateKind::LoggedIn)
                &&& proxy matches Some(p) ==> exists|c: crate::backend::BackendResult<()>|
                    #[trigger] old(self).backend_value().spec_check_proxy(p@, c) && (c is Err <==> r matches Err(
                        AccountError::Proxy,
                    ))
                &&& r matches Err(AccountError::Backend(e)) ==> (old(self).state_value() matches AccountState::LoggedIn(a)
                    && final(self).state_value() matches AccountState::LoggedIn(a2) && a.spec_set_proxy(
                    proxy_ref_view(proxy),
                    a2,
                    Err(e),
                ))
                &&& r is Ok ==> (old(self).state_value() matches AccountState::LoggedIn(a) ==> (final(self).state_value() matches AccountState::LoggedIn(a2)
                    && a.spec_set_proxy(proxy_ref_view(proxy), a2, Ok(()))))
                &&& old(self).state_kind() != AccountStateKind::LoggedIn ==> final(self).state_value() == old(self).state_value()
                &&& !(r matches Err(AccountError::Proxy)) && !(r matches Err(AccountError::Backend(_))) ==> r is Ok
            },
            old(self).set_proxy_outcome(proxy_ref_view(proxy), *final(self), r),
    {
        if proxy_opt_eq(self.proxy.as_ref(), proxy) {
            return Ok(false);
        }
        if let Some(p) = proxy {
            let c = self.backend.check_proxy(p);
            let ghost cg = c;
            proof {
                assert(old(self).backend_value().spec_check_proxy(p@, cg));
            }
            if c.is_err() {
                return Err(AccountError::Proxy);
            }
        }
        let st = self.take_state();
        match st {
            AccountState::LoggedIn(mut a) => {
                let ghost a0 = a;
                let res = a.set_proxy(proxy);
                let ghost rg = res;
                proof {
                    assert(a0.spec_set_proxy(proxy_ref_view(proxy), a, rg));
                }
                self.state = AccountState::LoggedIn(a);
                match res {
                    Err(e) => {
                        return Err(AccountError::Backend(e));
                    },
                    Ok(u) => {
                        proof {
                            assert(rg is Ok);
                        }
                    },
                }
            },
            other => {
                self.state = other;
            },
        }
        self.proxy = clone_proxy_opt(proxy);
        Ok(true)
    }

    /// The proxy currently applied to this account.
    pub fn get_proxy(&self) -> (r: &Option<Proxy>)
        ensures
            proxy_opt_view(*r) == self.proxy_view(),
    {
        &self.proxy
    }

    /// The backend session of a logged-in account.
    pub fn get_impl(&self) -> (r: Option<&B::Account>)
        ensures
            r is Some == (self.state_kind() == AccountStateKind::LoggedIn),
            r matches Some(a) ==> (self.state_value() matches AccountState::LoggedIn(x) && x == *a),
            r is None ==> !(self.state_value() is LoggedIn),
    {
        if let AccountState::LoggedIn(a) = &self.state {
            Some(a)
        } else {
            None
        }
    }
}

} // verus!
