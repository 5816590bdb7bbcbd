//! The observer as its users drive it: the backends it knows, the accounts
//! it watches, keyed by email, and the record of those accounts, which it
//! keeps up to date with every change. Writing the record out, and polling,
//! are left to the caller.
use crate::account::{Account, AccountError};
use crate::backend::{Account as BackendAccount, AccountState, AccountStateKind, Backend};
use crate::observer::poll::{
    account_backend_names, account_email_strings, account_kinds, poll_checks, poll_gives, poll_inplace, refreshed_by, refreshed_into, sessions_given,
    TaskTrace,
};
use crate::observer::config::{ConfigError, ConfigInner, StoredAccountView};
use crate::observer::worker::{account_part, lemma_no_dup_index, lemma_push_no_dup, lemma_remove_no_dup};
use crate::observer::{Notification, ObserverError, ObserverResult};
use crate::proxy::{clone_proxy_opt, proxy_opt_view, proxy_ref_view, Proxy, ProxyView};
use std::sync::Arc;
use vstd::prelude::*;

verus! {

/// The emails of a list of accounts.
pub open spec fn account_emails<B: Backend>(s: Seq<Account<B>>) -> Seq<Seq<char>> {
    s.map_values(|a: Account<B>| a.email_view())
}

/// The observer: its backends, its record and its accounts.
pub struct Observer<B: Backend> {
    backends: Vec<Arc<B>>,
    config: ConfigInner,
    accounts: Vec<Account<B>>,
}

impl<B: Backend> Observer<B> {
    /// The emails of the watched accounts, in order.
    pub closed spec fn emails(&self) -> Seq<Seq<char>> {
        account_emails(self.accounts@)
    }

    /// The emails of the watched accounts, as the strings they are kept in.
    pub closed spec fn email_strings(&self) -> Seq<String> {
        account_email_strings(self.accounts@)
    }

    /// The states of the watched accounts, in order.
    pub closed spec fn kinds(&self) -> Seq<AccountStateKind> {
        account_kinds(self.accounts@)
    }

    /// The names of the watched accounts' backends, in order.
    pub closed spec fn backend_names(&self) -> Seq<Seq<char>> {
        account_backend_names(self.accounts@)
    }

    /// The watched accounts, in order.
    pub closed spec fn accounts_view(&self) -> Seq<Account<B>> {
        self.accounts@
    }

    /// The record of the accounts.
    pub closed spec fn record(&self) -> ConfigInner {
        self.config
    }

    /// The backends, in the order they were given.
    pub closed spec fn backends_view(&self) -> Seq<Arc<B>> {
        self.backends@
    }

    /// No email is watched twice, and the record is consistent.
    pub closed spec fn wf(&self) -> bool {
        &&& self.emails().no_duplicates()
        &&& self.config.wf()
    }

    /// An observer with the given backends and record, watching no account
    /// yet.
    pub fn new(backends: Vec<Arc<B>>, config: ConfigInner) -> (r: Self)
        requires
            config.wf(),
        ensures
            r.wf(),
            r.emails().len() == 0,
            r.record() == config,
            r.backends_view() == backends@,
    {
        let r = Observer { backends, config, accounts: Vec::new() };
        proof {
            assert(r.emails() =~= Seq::<Seq<char>>::empty());
        }
        r
    }

    /// An observer as [`Observer::new`] makes it, whose poll interval is
    /// `poll_interval_secs` seconds.
    pub fn build(backends: Vec<Arc<B>>, config: ConfigInner, poll_interval_secs: u64) -> (r: Self)
        requires
            config.wf(),
        ensures
            r.wf(),
            r.emails().len() == 0,
            r.record().accounts() == config.accounts(),
            r.record().interval() == poll_interval_secs,
            r.record().is_dirty() == (config.is_dirty() || poll_interval_secs != config.interval()),
            r.backends_view() == backends@,
    {
        let mut r = Self::new(backends, config);
        r.set_poll_interval(poll_interval_secs);
        r
    }

    /// Add a backend.
    pub fn with_backend(self, backend: Arc<B>) -> (r: Self)
        requires
            self.wf(),
        ensures
            r.wf(),
            r.backends_view() == self.backends_view().push(backend),
            r.emails() == self.emails(),
            r.record() == self.record(),
    {
        let mut s = self;
        s.backends.push(backend);
        s
    }

    /// The number of watched accounts.
    pub fn len(&self) -> (r: usize)
        ensures
            r == self.emails().len(),
    {
        self.accounts.len()
    }

    /// Whether no account is watched.
    pub fn is_empty(&self) -> (r: bool)
        ensures
            r <==> self.emails().len() == 0,
    {
        self.accounts.len() == 0
    }

    /// The watched accounts, in order.
    pub fn accounts(&self) -> (r: &Vec<Account<B>>)
        ensures
            r@ == self.accounts_view(),
            account_emails(r@) == self.emails(),
    {
        &self.accounts
    }

    /// The record of the accounts.
    pub fn config(&self) -> (r: &ConfigInner)
        ensures
            *r == self.record(),
    {
        &self.config
    }

    /// Note that the record has been written out as
    /// [`ConfigInner::pending_write`] gave it.
    pub fn record_written(&mut self)
        requires
            old(self).wf(),
        ensures
            final(self).wf(),
            !final(self).record().is_dirty(),
            final(self).record().accounts() == old(self).record().accounts(),
            final(self).record().entries() == old(self).record().entries(),
            final(self).record().interval() == old(self).record().interval(),
            final(self).accounts_view() == old(self).accounts_view(),
            final(self).emails() == old(self).emails(),
            final(self).backends_view() == old(self).backends_view(),
    {
        self.config.mark_written();
    }

    /// The position of the account with `email`.
    fn find(&self, email: &String) -> (r: Option<usize>)
        ensures
            r matches Some(i) ==> i < self.emails().len() && self.emails()[i as int] == email@,
            r is None ==> !self.emails().contains(email@),
    {
        let mut i: usize = 0;
        while i < self.accounts.len()
            invariant
                i <= self.accounts@.len(),
                self.emails().len() == self.accounts@.len(),
                forall|j: int| 0 <= j < i ==> self.emails()[j] != email@,
            decreases self.accounts@.len() - i,
        {
            if self.accounts[i].email().eq(email) {
                return Some(i);
            }
            i = i + 1;
        }
        None
    }

    /// The account with `email`, if it is watched.
    pub fn get_account(&self, email: &String) -> (r: Option<&Account<B>>)
        requires
            self.wf(),
        ensures
            r is Some <==> self.emails().contains(email@),
            r matches Some(a) ==> a.email_view() == email@,
    {
        match self.find(email) {
            Some(i) => Some(&self.accounts[i]),
            None => None,
        }
    }

    /// The first backend named `name`.
    pub fn backend_by_name(&self, name: &String) -> (r: Option<Arc<B>>)
        ensures
            r matches Some(b) ==> b.spec_name() == name@ && exists|i: int| 0 <= i < self.backends_view().len()
                && *self.backends_view()[i] == *b,
            r is None ==> forall|i: int| 0 <= i < self.backends_view().len() ==> (#[trigger] self.backends_view()[i]).spec_name()
                != name@,
    {
        let mut i: usize = 0;
        while i < self.backends.len()
            invariant
                i <= self.backends@.len(),
                forall|j: int| 0 <= j < i ==> (#[trigger] self.backends@[j]).spec_name() != name@,
            decreases self.backends@.len() - i,
        {
            let n = self.backends[i].name();
            if n.eq(name) {
                let b = crate::account::arc_clone(&self.backends[i]);
                proof {
                    assert(*self.backends_view()[i as int] == *b);
                }
                return Some(b);
            }
            i = i + 1;
        }
        None
    }

    /// Set the poll interval, in seconds, in the record.
    pub fn set_poll_interval(&mut self, secs: u64)
        requires
            old(self).wf(),
        ensures
            final(self).wf(),
            final(self).emails() == old(self).emails(),
            final(self).accounts_view() == old(self).accounts_view(),
            final(self).backends_view() == old(self).backends_view(),
            final(self).record().accounts() == old(self).record().accounts(),
            final(self).record().interval() == secs,
            final(self).record().is_dirty() == (old(self).record().is_dirty() || secs != old(self).record().interval()),
    {
        self.config.set_poll_interval(secs);
    }

    /// The poll interval, in seconds.
    pub fn get_poll_interval(&self) -> (r: u64)
        ensures
            r == self.record().interval(),
    {
        self.config.poll_interval()
    }

    /// Watch `account`. An account whose email is already watched is
    /// replaced by it, which is announced as the account coming online; a
    /// new one is announced as added. Either way the record is updated
    /// first; if the record cannot take the account, it is not watched.
    pub fn add_account(&mut self, account: Account<B>) -> (r: (ObserverResult<(), B>, Vec<Notification>))
        requires
            old(self).wf(),
        ensures
            final(self).wf(),
            final(self).backends_view() == old(self).backends_view(),
            final(self).record().interval() == old(self).record().interval(),
            r.0 is Err ==> final(self).emails() == old(self).emails() && final(self).record().accounts()
                == old(self).record().accounts() && (r.0 matches Err(ObserverError::Config(ConfigError::Unknown(_)))),
            r.0 is Ok ==> final(self).record().accounts().dom() == old(self).record().accounts().dom().insert(
                account.email_view(),
            ) && final(self).record().accounts()[account.email_view()].backend == account.backend_value().spec_name()
                && final(self).record().accounts()[account.email_view()].proxy == account.proxy_view()
                && final(self).record().accounts().remove(account.email_view()) == old(self).record().accounts().remove(
                account.email_view(),
            ),
            old(self).emails().contains(account.email_view()) ==> {
                &&& r.0 is Ok ==> r.1@.len() == 1 && (r.1@[0] matches Notification::AccountOnline(e) && e@
                    == account.email_view())
                &&& r.0 is Err ==> r.1@.len() == 0
                &&& r.0 is Ok ==> final(self).emails() == old(self).emails()
            },
            !old(self).emails().contains(account.email_view()) ==> {
                &&& r.1@.len() == 1
                &&& r.1@[0] matches Notification::AccountAdded(e, b, p) && e@ == account.email_view() && b@
                    == account.backend_value().spec_name() && proxy_opt_view(p) == account.proxy_view()
                &&& r.0 is Ok ==> final(self).emails() == old(self).emails().push(account.email_view())
                &&& r.0 is Ok ==> final(self).accounts_view() == old(self).accounts_view().push(account)
            },
            forall|i: int| 0 <= i < old(self).emails().len() && old(self).emails()[i] == account.email_view() && r.0 is Ok
                ==> final(self).accounts_view() == old(self).accounts_view().update(i, account),
            r.0 is Err ==> final(self).accounts_view() == old(self).accounts_view(),
            account.state_kind() != AccountStateKind::LoggedIn ==> r.0 is Ok,
            r.0 is Ok ==> (account.state_value() matches AccountState::LoggedIn(a) ==> exists|text: String|
                #[trigger] a.spec_auth_refresher_config(Ok(text))
                    && final(self).record().accounts()[account.email_view()].auth_refresher == Some(text@)),
            r.0 is Ok && account.state_kind() != AccountStateKind::LoggedIn ==> final(self).record().accounts()[account.email_view()].auth_refresher is None,
    {
        let mut notes: Vec<Notification> = Vec::new();
        match self.find(account.email()) {
            Some(i) => {
                if let Err(m) = self.config.add_or_update_account(&account) {
                    return (Err(ObserverError::Config(ConfigError::Unknown(m))), notes);
                }
                notes.push(Notification::AccountOnline(account.email().clone()));
                let ghost before = self.accounts@;
                let ghost e = account.email_view();
                let ghost acc = account;
                self.accounts.set(i, account);
                proof {
                    assert(account_emails(self.accounts@) =~= account_emails(before).update(i as int, e));
                    assert(account_emails(before)[i as int] == e);
                    assert(account_emails(before).update(i as int, e) =~= account_emails(before));
                    lemma_no_dup_index(account_emails(before), i as int);
                    assert(self.accounts@ == before.update(i as int, acc));
                }
                (Ok(()), notes)
            },
            None => {
                notes.push(
                    Notification::AccountAdded(
                        account.email().clone(),
                        account.backend().name(),
                        clone_proxy_opt(account.get_proxy().as_ref()),
                    ),
                );
                if let Err(m) = self.config.add_or_update_account(&account) {
                    return (Err(ObserverError::Config(ConfigError::Unknown(m))), notes);
                }
                let ghost before = self.accounts@;
                let ghost e = account.email_view();
                self.accounts.push(account);
                proof {
                    assert(account_emails(self.accounts@) =~= account_emails(before).push(e));
                    lemma_push_no_dup(account_emails(before), e);
                }
                (Ok(()), notes)
            },
        }
    }

    /// Log out the account `email`, but keep watching it. The logout is
    /// announced and the account's session data is dropped from the record.
    pub fn logout_account(&mut self, email: &String) -> (r: (ObserverResult<(), B>, Vec<Notification>))
        requires
            old(self).wf(),
        ensures
            final(self).wf(),
            final(self).emails() == old(self).emails(),
            final(self).backends_view() == old(self).backends_view(),
            final(self).record().interval() == old(self).record().interval(),
            !old(self).emails().contains(email@) ==> (r.0 matches Err(ObserverError::NoSuchAccount(e)) && e@ == email@)
                && r.1@.len() == 0 && final(self).record() == old(self).record(),
            r.0 matches Err(ObserverError::AccountError(_)) ==> r.1@.len() == 0 && final(self).record()
                == old(self).record() && final(self).kinds() == old(self).kinds()
                && final(self).email_strings() == old(self).email_strings()
                && exists|i: int| 0 <= i < old(self).emails().len() && old(self).emails()[i] == email@
                    && #[trigger] old(self).kinds()[i] == AccountStateKind::LoggedIn,
            forall|i: int| 0 <= i < old(self).emails().len() && old(self).emails()[i] == email@
                && old(self).kinds()[i] != AccountStateKind::LoggedIn ==> r.0 is Ok,
            forall|i: int| 0 <= i < old(self).emails().len() && old(self).emails()[i] == email@ && r.0 is Ok
                ==> final(self).kinds() == old(self).kinds().update(i, AccountStateKind::LoggedOut),
            forall|i: int| 0 <= i < old(self).emails().len() && old(self).emails()[i] == email@ ==> {
                &&& old(self).accounts_view()[i].logout_outcome(final(self).accounts_view()[i], account_part(r.0))
                &&& final(self).accounts_view() == old(self).accounts_view().update(i, final(self).accounts_view()[i])
            },
            r.0 is Ok ==> {
                &&& r.1@.len() == 1
                &&& r.1@[0] matches Notification::AccountLoggedOut(e) && e@ == email@
                &&& old(self).record().accounts().dom().contains(email@) ==> final(self).record().accounts()
                    == old(self).record().accounts().insert(
                    email@,
                    StoredAccountView { auth_refresher: None, ..old(self).record().accounts()[email@] },
                )
                &&& !old(self).record().accounts().dom().contains(email@) ==> final(self).record().accounts()
                    == old(self).record().accounts()
                &&& exists|i: int| 0 <= i < final(self).emails().len() && final(self).emails()[i] == email@
                    && (#[trigger] final(self).accounts_view()[i]).state_kind() == AccountStateKind::LoggedOut
            },
            r.0 is Ok || r.0 matches Err(ObserverError::NoSuchAccount(_)) || r.0 matches Err(
                ObserverError::AccountError(AccountError::Backend(_)),
            ),
    {
        let notes: Vec<Notification> = Vec::new();
        match self.find(email) {
            None => (Err(ObserverError::NoSuchAccount(email.clone())), notes),
            Some(i) => {
                let ghost before = self.accounts@;
                let mut account = self.accounts.remove(i);
                let ghost kind0 = account.state_kind();
                let ghost acc0 = account;
                let res = account.logout();
                self.accounts.insert(i, account);
                proof {
                    assert(self.accounts@ =~= before.update(i as int, account));
                    assert(account_emails(self.accounts@) =~= account_emails(before));
                    assert(self.accounts_view()[i as int] == account);
                    lemma_no_dup_index(account_emails(before), i as int);
                    assert(acc0.logout_outcome(account, res));
                    assert(old(self).kinds()[i as int] == kind0);
                    assert(account_email_strings(self.accounts@) =~= account_email_strings(before));
                    if res is Err {
                        assert(account_kinds(self.accounts@) =~= account_kinds(before));
                    } else {
                        assert(account_kinds(self.accounts@) =~= account_kinds(before).update(i as int, AccountStateKind::LoggedOut));
                    }
                }
                match res {
                    Err(e) => (Err(ObserverError::AccountError(e)), notes),
                    Ok(()) => {
                        let mut notes = notes;
                        notes.push(Notification::AccountLoggedOut(email.clone()));
                        self.config.account_logged_out(email);
                        proof {
                            assert(self.emails()[i as int] == email@);
                            assert(self.accounts_view()[i as int].state_kind() == AccountStateKind::LoggedOut);
                        }
                        (Ok(()), notes)
                    },
                }
            },
        }
    }

    /// Stop watching the account `email` and log it out. The removal is
    /// announced and the account leaves the record, even if its logout then
    /// fails.
    pub fn remove_account(&mut self, email: &String) -> (r: (ObserverResult<(), B>, Vec<Notification>))
        requires
            old(self).wf(),
        ensures
            final(self).wf(),
            final(self).backends_view() == old(self).backends_view(),
            final(self).record().interval() == old(self).record().interval(),
            !final(self).emails().contains(email@),
            !old(self).emails().contains(email@) ==> (r.0 matches Err(ObserverError::NoSuchAccount(e)) && e@ == email@)
                && r.1@.len() == 0 && final(self).record() == old(self).record() && final(self).emails()
                == old(self).emails(),
            old(self).emails().contains(email@) ==> {
                &&& r.1@.len() == 1
                &&& r.1@[0] matches Notification::AccountRemoved(e) && e@ == email@
                &&& final(self).record().accounts() == old(self).record().accounts().remove(email@)
                &&& final(self).emails().len() == old(self).emails().len() - 1
                &&& r.0 is Ok || r.0 matches Err(ObserverError::AccountError(AccountError::Backend(_)))
            },
            forall|i: int| 0 <= i < old(self).emails().len() && old(self).emails()[i] == email@ ==> {
                &&& final(self).accounts_view() == old(self).accounts_view().remove(i)
                &&& old(self).kinds()[i] != AccountStateKind::LoggedIn ==> r.0 is Ok
                &&& exists|after: Account<B>| #[trigger] old(self).accounts_view()[i].logout_outcome(after, account_part(r.0))
            },
    {
        let mut notes: Vec<Notification> = Vec::new();
        match self.find(email) {
            None => (Err(ObserverError::NoSuchAccount(email.clone())), notes),
            Some(i) => {
                let ghost before = self.accounts@;
                let mut account = self.accounts.remove(i);
                proof {
                    assert(old(self).kinds()[i as int] == account.state_kind());
                    assert(account_emails(self.accounts@) =~= account_emails(before).remove(i as int));
                    lemma_remove_no_dup(account_emails(before), i as int);
                    lemma_no_dup_index(account_emails(before), i as int);
                    assert forall|j: int| 0 <= j < account_emails(self.accounts@).len() implies account_emails(
                        self.accounts@,
                    )[j] != email@ by {
                        let j2 = if j < i { j } else { j + 1 };
                        assert(account_emails(self.accounts@)[j] == account_emails(before)[j2]);
                    }
                }
                notes.push(Notification::AccountRemoved(email.clone()));
                self.config.account_removed(email);
                let ghost acc0 = account;
                let res = account.logout();
                let ghost res_g = res;
                let r0: ObserverResult<(), B> = match res {
                    Err(e) => Err(ObserverError::AccountError(e)),
                    Ok(u) => Ok(u),
                };
                proof {
                    assert(acc0 == old(self).accounts_view()[i as int]);
                    assert(account_part(r0) == res_g);
                    assert(acc0.logout_outcome(account, account_part(r0)));
                }
                (r0, notes)
            },
        }
    }

    /// Apply `proxy` to the account `email`. Whether anything changed is
    /// returned; a change is announced and recorded.
    pub fn set_proxy_settings(&mut self, email: &String, proxy: Option<Proxy>) -> (r: (
        ObserverResult<bool, B>,
        Vec<Notification>,
    ))
        requires
            old(self).wf(),
        ensures
            final(self).wf(),
            final(self).emails() == old(self).emails(),
            final(self).backends_view() == old(self).backends_view(),
            final(self).record().interval() == old(self).record().interval(),
            !old(self).emails().contains(email@) ==> (r.0 matches Err(ObserverError::NoSuchAccount(e)) && e@ == email@)
                && r.1@.len() == 0 && final(self).record() == old(self).record(),
            !(r.0 matches Ok(true)) ==> r.1@.len() == 0 && final(self).record() == old(self).record(),
            r.0 matches Ok(true) ==> {
                &&& r.1@.len() == 1
                &&& r.1@[0] matches Notification::ProxyApplied(e, p) && e@ == email@ && proxy_opt_view(p)
                    == proxy_opt_view(proxy)
                &&& old(self).record().accounts().dom().contains(email@) ==> final(self).record().accounts()
                    == old(self).record().accounts().insert(
                    email@,
                    StoredAccountView { proxy: proxy_opt_view(proxy), ..old(self).record().accounts()[email@] },
                )
                &&& !old(self).record().accounts().dom().contains(email@) ==> final(self).record().accounts()
                    == old(self).record().accounts()
            },
            forall|i: int| 0 <= i < old(self).emails().len() && old(self).emails()[i] == email@ ==> {
                &&& old(self).accounts_view()[i].set_proxy_outcome(
                    proxy_opt_view(proxy),
                    final(self).accounts_view()[i],
                    account_part(r.0),
                )
                &&& final(self).accounts_view() == old(self).accounts_view().update(i, final(self).accounts_view()[i])
            },
    {
        let mut notes: Vec<Notification> = Vec::new();
        match self.find(email) {
            None => (Err(ObserverError::NoSuchAccount(email.clone())), notes),
            Some(i) => {
                let ghost before = self.accounts@;
                let mut account = self.accounts.remove(i);
                let ghost acc0 = account;
                let pr = proxy.as_ref();
                proof {
                    assert(proxy_ref_view(pr) == proxy_opt_view(proxy));
                    lemma_no_dup_index(account_emails(before), i as int);
                }
                let res = account.set_proxy(pr);
                let ghost res_g = res;
                self.accounts.insert(i, account);
                proof {
                    assert(self.accounts@ =~= before.update(i as int, account));
                    assert(account_emails(self.accounts@) =~= account_emails(before));
                    assert(acc0 == old(self).accounts_view()[i as int]);
                    assert(acc0.set_proxy_outcome(proxy_opt_view(proxy), account, res_g));
                    assert(self.accounts_view()[i as int] == account);
                }
                match res {
                    Err(e) => (Err(ObserverError::AccountError(e)), notes),
                    Ok(false) => (Ok(false), notes),
                    Ok(true) => {
                        notes.push(Notification::ProxyApplied(email.clone(), clone_proxy_opt(proxy.as_ref())));
                        self.config.account_proxy_changed(email, proxy);
                        (Ok(true), notes)
                    },
                }
            },
        }
    }

    /// Poll every logged-in account, in order, on this thread; see
    /// [`poll_inplace`].
    pub fn poll_foreground(&mut self) -> (r: Vec<Notification>)
        requires
            old(self).wf(),
        ensures
            final(self).wf(),
            final(self).emails() == old(self).emails(),
            final(self).backends_view() == old(self).backends_view(),
            final(self).record().interval() == old(self).record().interval(),
            final(self).record().accounts().dom() == old(self).record().accounts().dom(),
            exists|trace: Seq<TaskTrace>, pairs: Seq<(Seq<char>, Seq<char>)>|
                #[trigger] poll_gives(
                    old(self).email_strings(),
                    old(self).kinds(),
                    old(self).backend_names(),
                    trace,
                    r@,
                ) && final(self).record().accounts() == #[trigger] refreshed_into(old(self).record().accounts(), pairs)
                    && refreshed_by(old(self).email_strings(), old(self).kinds(), trace, pairs)
                    && poll_checks(old(self).accounts_view(), final(self).accounts_view(), trace)
                    && sessions_given(final(self).accounts_view(), pairs),
    {
        let r = poll_inplace(&mut self.accounts, &mut self.config);
        proof {
            let (trace, pairs) = choose|trace: Seq<TaskTrace>, pairs: Seq<(Seq<char>, Seq<char>)>|
                #[trigger] poll_gives(
                    account_email_strings(old(self).accounts@),
                    account_kinds(old(self).accounts@),
                    account_backend_names(old(self).accounts@),
                    trace,
                    r@,
                ) && self.config.accounts() == #[trigger] refreshed_into(old(self).config.accounts(), pairs)
                    && refreshed_by(account_email_strings(old(self).accounts@), account_kinds(old(self).accounts@), trace, pairs)
                    && poll_checks(old(self).accounts@, self.accounts@, trace)
                    && sessions_given(self.accounts@, pairs);
            assert(poll_gives(old(self).email_strings(), old(self).kinds(), old(self).backend_names(), trace, r@));
            assert(self.record().accounts() == refreshed_into(old(self).record().accounts(), pairs));
            assert(refreshed_by(old(self).email_strings(), old(self).kinds(), trace, pairs));
        }
        r
    }
}

} // verus!
