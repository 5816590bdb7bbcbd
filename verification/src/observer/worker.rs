//! The observer's worker: it holds the active accounts, answers the requests
//! made to the observer and polls the accounts for new mail.
use crate::account::{Account, AccountError, AccountResult};
use crate::backend::{AccountStateKind, Backend, BackendError, NewEmailReply};
use crate::observer::{
    Notification, ObserverAccount, ObserverAccountStatus, ObserverError, ObserverResult,
};
use crate::config::{account_stored_view, config_accounts_view, stored_views, Config, ConfigGenError, ConfigJSON};
use crate::proxy::{clone_proxy_opt, proxy_opt_view, proxy_ref_view, Proxy};
use vstd::prelude::*;

verus! {

/// The emails of a list of active accounts.
pub open spec fn emails_of<B: Backend>(s: Seq<WorkerAccount<B>>) -> Seq<Seq<char>> {
    s.map_values(|a: WorkerAccount<B>| a.account.email_view())
}

/// The statuses of a list of active accounts.
pub open spec fn statuses_of<B: Backend>(s: Seq<WorkerAccount<B>>) -> Seq<ObserverAccountStatus> {
    s.map_values(|a: WorkerAccount<B>| a.status)
}

/// The states of a list of active accounts.
pub open spec fn kinds_of<B: Backend>(s: Seq<WorkerAccount<B>>) -> Seq<AccountStateKind> {
    s.map_values(|a: WorkerAccount<B>| a.account.state_kind())
}

/// The accounts of a list of active accounts.
pub open spec fn accounts_of<B: Backend>(s: Seq<WorkerAccount<B>>) -> Seq<Account<B>> {
    s.map_values(|a: WorkerAccount<B>| a.account)
}

/// The account's own part of an observer's answer: success, or the error
/// the account gave (any other error is none of the account's).
pub open spec fn account_part<B: Backend, T>(r: ObserverResult<T, B>) -> AccountResult<T> {
    match r {
        Ok(v) => Ok(v),
        Err(ObserverError::AccountError(e)) => Err(e),
        Err(_) => Err(AccountError::InvalidState),
    }
}

/// Whether the accounts `after` are `before` with only the one at `i`
/// changed.
pub open spec fn only_changed_at<B: Backend>(before: Seq<Account<B>>, after: Seq<Account<B>>, i: int) -> bool {
    &&& after.len() == before.len()
    &&& forall|k: int| 0 <= k < before.len() && k != i ==> after[k] == before[k]
}

/// Whether a poll round took the accounts `before` to `after` by the checks
/// in `trace`: each account that the round passes over (see [`skipped`]) is
/// left as it was, and each other one was checked once and gave what its
/// trace entry holds.
pub open spec fn round_checks<B: Backend>(
    before: Seq<Account<B>>,
    after: Seq<Account<B>>,
    statuses: Seq<ObserverAccountStatus>,
    kinds: Seq<AccountStateKind>,
    trace: Seq<CheckTrace>,
) -> bool {
    &&& after.len() == before.len()
    &&& forall|j: int| 0 <= j < before.len() ==> #[trigger] checked_at(before, after, statuses, kinds, trace, j)
}

/// Whether the account at `j` was left as it was, if the round passes it
/// over, or was checked once and gave what `trace[j]` holds.
pub open spec fn checked_at<B: Backend>(
    before: Seq<Account<B>>,
    after: Seq<Account<B>>,
    statuses: Seq<ObserverAccountStatus>,
    kinds: Seq<AccountStateKind>,
    trace: Seq<CheckTrace>,
    j: int,
) -> bool {
    if skipped(statuses, kinds, j) {
        after[j] == before[j]
    } else {
        before[j].check_outcome(after[j], (trace[j].0, trace[j].1))
    }
}

/// An active account and the status the observer last saw it in.
pub struct WorkerAccount<B: Backend> {
    pub account: Account<B>,
    pub status: ObserverAccountStatus,
}

/// Observer background worker: the active accounts, keyed by email, the poll
/// interval in milliseconds and whether polling is paused.
pub struct Worker<B: Backend> {
    accounts: Vec<WorkerAccount<B>>,
    poll_interval_ms: u64,
    paused: bool,
}

/// A request made to the observer.
pub enum ObserverRequest<B: Backend> {
    Exit,
    AddAccount(Account<B>),
    LogoutAccount(String),
    RemoveAccount(String),
    GetAccounts,
    Pause,
    Resume,
    GenConfig,
    SetPollInterval(u64),
    GetPollInterval,
    ApplyProxy(String, Option<Proxy>),
    GetProxy(String),
}

/// The answer to a request made to the observer.
pub enum ObserverReply<B: Backend> {
    /// The request has no answer.
    Nothing,
    Done(ObserverResult<(), B>),
    Accounts(Vec<ObserverAccount>),
    Config(Result<ConfigJSON, ConfigGenError>),
    PollInterval(u64),
    Proxy(ObserverResult<Option<Proxy>, B>),
}

/// What polling one account gives: its new status and the notifications to
/// deliver.
pub struct PollOutcome {
    pub status: ObserverAccountStatus,
    pub notifications: Vec<Notification>,
}

/// The token-refresh notification, if the token was refreshed.
pub open spec fn refresh_notes(refreshed: bool, email: String) -> Seq<Notification> {
    if refreshed {
        seq![Notification::AccountTokenRefresh(email)]
    } else {
        seq![]
    }
}

/// Whether a check failed the way the account had already failed: it is
/// offline and still cannot reach its servers, or logged out and still is.
pub open spec fn repeated_failure(status: ObserverAccountStatus, result: AccountResult<NewEmailReply>) -> bool {
    match result {
        Err(AccountError::Backend(BackendError::LoggedOut)) => status == ObserverAccountStatus::LoggedOut,
        Err(AccountError::Backend(BackendError::Timeout(_))) => status == ObserverAccountStatus::Offline,
        Err(AccountError::Backend(BackendError::Connection(_))) => status == ObserverAccountStatus::Offline,
        _ => false,
    }
}

/// What the observer does with the result of checking an account that was in
/// `status`: the new status and the notifications. A status change is
/// announced once: an account that is already offline (or logged out) and
/// fails the same way again is passed over in silence.
pub open spec fn poll_outcome_spec(
    status: ObserverAccountStatus,
    result: AccountResult<NewEmailReply>,
    refreshed: bool,
    email: String,
    backend: String,
) -> (ObserverAccountStatus, Seq<Notification>) {
    match result {
        Ok(check) => {
            let online = if status != ObserverAccountStatus::Online {
                seq![Notification::AccountOnline(email)]
            } else {
                seq![]
            };
            let mail = if check.emails@.len() > 0 {
                seq![Notification::NewEmail { account: email, backend, emails: check.emails }]
            } else {
                seq![]
            };
            (ObserverAccountStatus::Online, online + mail + refresh_notes(refreshed, email))
        },
        Err(AccountError::Backend(be)) => match be {
            BackendError::LoggedOut => if status == ObserverAccountStatus::LoggedOut {
                (status, seq![])
            } else {
                (
                    ObserverAccountStatus::LoggedOut,
                    seq![Notification::AccountLoggedOut(email)] + refresh_notes(refreshed, email),
                )
            },
            BackendError::Timeout(_) | BackendError::Connection(_) => if status
                == ObserverAccountStatus::Offline {
                (status, seq![])
            } else {
                (
                    ObserverAccountStatus::Offline,
                    seq![Notification::AccountOffline(email)] + refresh_notes(refreshed, email),
                )
            },
            _ => (
                ObserverAccountStatus::Error,
                seq![Notification::AccountError(email, AccountError::Backend(be))] + refresh_notes(
                    refreshed,
                    email,
                ),
            ),
        },
        Err(_) => (status, refresh_notes(refreshed, email)),
    }
}

/// Decide what the result of checking an account means; see
/// [`poll_outcome_spec`].
pub fn poll_outcome(
    status: ObserverAccountStatus,
    result: AccountResult<NewEmailReply>,
    refreshed: bool,
    email: &String,
    backend: &String,
) -> (r: PollOutcome)
    ensures
        (r.status, r.notifications@) == poll_outcome_spec(
            status,
            result,
            refreshed,
            *email,
            *backend,
        ),
{
    let mut notes: Vec<Notification> = Vec::new();
    let mut new_status = status;
    match result {
        Ok(check) => {
            if status != ObserverAccountStatus::Online {
                notes.push(Notification::AccountOnline(email.clone()));
            }
            new_status = ObserverAccountStatus::Online;
            if check.emails.len() > 0 {
                notes.push(
                    Notification::NewEmail {
                        account: email.clone(),
                        backend: backend.clone(),
                        emails: check.emails,
                    },
                );
            }
        },
        Err(e) => {
            let kind = match &e {
                AccountError::Backend(be) => Some(be.error_kind()),
                _ => None,
            };
            match kind {
                Some(crate::backend::BackendErrorKind::LoggedOut) => {
                    if status == ObserverAccountStatus::LoggedOut {
                        return PollOutcome { status, notifications: notes };
                    }
                    notes.push(Notification::AccountLoggedOut(email.clone()));
                    new_status = ObserverAccountStatus::LoggedOut;
                },
                Some(crate::backend::BackendErrorKind::Timeout) | Some(
                    crate::backend::BackendErrorKind::Connection,
                ) => {
                    if status == ObserverAccountStatus::Offline {
                        return PollOutcome { status, notifications: notes };
                    }
                    notes.push(Notification::AccountOffline(email.clone()));
                    new_status = ObserverAccountStatus::Offline;
                },
                Some(_) => {
                    new_status = ObserverAccountStatus::Error;
                    notes.push(Notification::AccountError(email.clone(), e));
                },
                None => {},
            }
        },
    }
    if refreshed {
        notes.push(Notification::AccountTokenRefresh(email.clone()));
    }
    PollOutcome { status: new_status, notifications: notes }
}

/// What checking one account gave: the result, whether the access token
/// was refreshed, and the name of the account's backend.
pub type CheckTrace = (AccountResult<NewEmailReply>, bool, String);

/// Whether a poll round passes over the account at `i` without checking
/// it: it is logged out, or its status says so.
pub open spec fn skipped(statuses: Seq<ObserverAccountStatus>, kinds: Seq<AccountStateKind>, i: int) -> bool {
    kinds[i] == AccountStateKind::LoggedOut || statuses[i] == ObserverAccountStatus::LoggedOut
}

/// A poll round over the first `k` accounts, whose checks gave `trace`:
/// the statuses and the notifications, in order. An account that is logged
/// out is marked so and passed over; any other is taken through
/// [`poll_outcome_spec`].
pub open spec fn poll_round(
    statuses: Seq<ObserverAccountStatus>,
    kinds: Seq<AccountStateKind>,
    emails: Seq<String>,
    trace: Seq<CheckTrace>,
    k: nat,
) -> (Seq<ObserverAccountStatus>, Seq<Notification>)
    decreases k,
{
    if k == 0 {
        (statuses, seq![])
    } else {
        let prev = poll_round(statuses, kinds, emails, trace, (k - 1) as nat);
        let i = k - 1;
        if skipped(prev.0, kinds, i) {
            (prev.0.update(i, ObserverAccountStatus::LoggedOut), prev.1)
        } else {
            let out = poll_outcome_spec(prev.0[i], trace[i].0, trace[i].1, emails[i], trace[i].2);
            (prev.0.update(i, out.0), prev.1 + out.1)
        }
    }
}

/// Whether a poll round over all the accounts in `statuses` and `kinds`,
/// whose checks gave `trace` (each with the name of the account's backend),
/// left `final_statuses` and `notes`.
pub open spec fn round_gives(
    statuses: Seq<ObserverAccountStatus>,
    kinds: Seq<AccountStateKind>,
    emails: Seq<String>,
    names: Seq<Seq<char>>,
    trace: Seq<CheckTrace>,
    final_statuses: Seq<ObserverAccountStatus>,
    notes: Seq<Notification>,
) -> bool {
    let round = poll_round(statuses, kinds, emails, trace, statuses.len());
    &&& trace.len() == statuses.len()
    &&& forall|j: int| 0 <= j < statuses.len() && !skipped(statuses, kinds, j) ==> (#[trigger] trace[j]).2@ == names[j]
    &&& round.0 == final_statuses
    &&& round.1 == notes
}

/// The status under which the observer starts watching an account.
pub open spec fn initial_status(kind: AccountStateKind) -> ObserverAccountStatus {
    match kind {
        AccountStateKind::LoggedIn => ObserverAccountStatus::Online,
        AccountStateKind::LoggedOut => ObserverAccountStatus::LoggedOut,
        AccountStateKind::AwaitingTotp => ObserverAccountStatus::Offline,
    }
}

/// The status under which the observer starts watching `account`.
pub fn account_status_to_observer_account_status<B: Backend>(account: &Account<B>) -> (r:
    ObserverAccountStatus)
    ensures
        r == initial_status(account.state_kind()),
{
    if account.is_logged_in() {
        ObserverAccountStatus::Online
    } else if account.is_logged_out() {
        ObserverAccountStatus::LoggedOut
    } else {
        ObserverAccountStatus::Offline
    }
}

impl<B: Backend> Worker<B> {
    /// The emails of the active accounts, in order.
    pub closed spec fn emails(&self) -> Seq<Seq<char>> {
        emails_of(self.accounts@)
    }

    /// The statuses of the active accounts, in order.
    pub closed spec fn statuses(&self) -> Seq<ObserverAccountStatus> {
        statuses_of(self.accounts@)
    }

    /// The states of the active accounts, in order.
    pub closed spec fn state_kinds(&self) -> Seq<AccountStateKind> {
        kinds_of(self.accounts@)
    }

    /// The emails of the active accounts, as the strings they are kept in.
    pub closed spec fn email_strings(&self) -> Seq<String> {
        self.accounts@.map_values(|a: WorkerAccount<B>| a.account.email_string())
    }

    /// The names of the active accounts' backends, in order.
    pub closed spec fn backend_names(&self) -> Seq<Seq<char>> {
        self.accounts@.map_values(|a: WorkerAccount<B>| a.account.backend_value().spec_name())
    }

    /// The active accounts, in order.
    pub closed spec fn account_values(&self) -> Seq<Account<B>> {
        accounts_of(self.accounts@)
    }

    /// The proxies of the active accounts, in order.
    pub closed spec fn proxies(&self) -> Seq<Option<crate::proxy::ProxyView>> {
        self.accounts@.map_values(|a: WorkerAccount<B>| a.account.proxy_view())
    }

    /// Whether polling is paused.
    pub closed spec fn is_paused(&self) -> bool {
        self.paused
    }

    /// The poll interval in milliseconds.
    pub closed spec fn interval(&self) -> u64 {
        self.poll_interval_ms
    }

    /// No two active accounts share an email, and an account that is logged
    /// out has the logged-out status.
    pub open spec fn wf(&self) -> bool {
        &&& self.emails().no_duplicates()
        &&& self.statuses().len() == self.emails().len()
        &&& self.state_kinds().len() == self.emails().len()
        &&& forall|i: int| 0 <= i < self.state_kinds().len() && self.state_kinds()[i]
            == AccountStateKind::LoggedOut ==> self.statuses()[i] == ObserverAccountStatus::LoggedOut
    }

    /// A worker without accounts.
    pub fn new(poll_interval_ms: u64) -> (r: Self)
        ensures
            r.wf(),
            r.emails().len() == 0,
            !r.is_paused(),
            r.interval() == poll_interval_ms,
    {
        let r = Worker { accounts: Vec::new(), poll_interval_ms, paused: false };
        proof {
            assert(r.emails() =~= Seq::<Seq<char>>::empty());
            assert(r.statuses() =~= Seq::<ObserverAccountStatus>::empty());
            assert(r.state_kinds() =~= Seq::<AccountStateKind>::empty());
        }
        r
    }

    /// The position of the account with `email`, if it is active.
    pub fn find(&self, email: &String) -> (r: Option<usize>)
        ensures
            r matches Some(i) ==> i < self.emails().len() && self.emails()[i as int] == email@,
            r is None ==> !self.emails().contains(email@),
    {
        let mut i: usize = 0;
        while i < self.accounts.len()
            invariant
                i <= self.accounts@.len(),
                self.emails().len() == self.accounts@.len(),
                forall|j: int| 0 <= j < i ==> self.emails()[j] != email@,
            decreases self.accounts@.len() - i,
        {
            proof {
                assert(self.emails()[i as int] == self.accounts@[i as int].account.email_view());
            }
            if self.accounts[i].account.email().eq(email) {
                return Some(i);
            }
            i = i + 1;
        }
        None
    }
}

impl<B: Backend> Worker<B> {
    /// Add an account. An account whose email is already active replaces it
    /// only if that one is logged out; otherwise the new account is handed
    /// back in the error.
    pub fn add_account(&mut self, account: Account<B>) -> (r: (ObserverResult<(), B>, Vec<Notification>))
        requires
            old(self).wf(),
        ensures
            final(self).wf(),
            final(self).is_paused() == old(self).is_paused(),
            final(self).interval() == old(self).interval(),
            !old(self).emails().contains(account.email_view()) ==> {
                &&& r.0 is Ok
                &&& r.1@.len() == 1
                &&& r.1@[0] matches Notification::AccountAdded(s, b, p) && s@ == account.email_view()
                    && b@ == account.backend_value().spec_name() && proxy_opt_view(p) == account.proxy_view()
                &&& final(self).emails() == old(self).emails().push(account.email_view())
                &&& final(self).statuses() == old(self).statuses().push(initial_status(account.state_kind()))
                &&& final(self).state_kinds() == old(self).state_kinds().push(account.state_kind())
            },
            forall|i: int| 0 <= i < old(self).emails().len() && old(self).emails()[i] == account.email_view() ==> {
                if old(self).statuses()[i] == ObserverAccountStatus::LoggedOut {
                    &&& r.0 is Ok
                    &&& r.1@.len() == 1
                    &&& r.1@[0] matches Notification::AccountOnline(s) && s@ == account.email_view()
                    &&& final(self).emails() == old(self).emails()
                    &&& final(self).statuses() == old(self).statuses().update(i, initial_status(account.state_kind()))
                    &&& final(self).state_kinds() == old(self).state_kinds().update(i, account.state_kind())
                } else {
                    &&& r.0 matches Err(ObserverError::AccountAlreadyActive(a)) && a == account
                    &&& r.1@.len() == 0
                    &&& final(self).emails() == old(self).emails()
                    &&& final(self).statuses() == old(self).statuses()
                    &&& final(self).state_kinds() == old(self).state_kinds()
                }
            },
    {
        let status = account_status_to_observer_account_status(&account);
        let mut notes: Vec<Notification> = Vec::new();
        let ghost e = account.email_view();
        match self.find(account.email()) {
            Some(i) => {
                proof {
                    assert(self.accounts@[i as int].status == self.statuses()[i as int]);
                    lemma_no_dup_index(self.emails(), i as int);
                }
                if self.accounts[i].status == ObserverAccountStatus::LoggedOut {
                    notes.push(Notification::AccountOnline(account.email().clone()));
                    let ghost old_accounts = self.accounts@;
                    self.accounts.set(i, WorkerAccount { account, status });
                    proof {
                        assert(self.emails() =~= old(self).emails());
                        assert(self.statuses() =~= old(self).statuses().update(i as int, status));
                        assert(self.state_kinds() =~= old(self).state_kinds().update(i as int, self.accounts@[i as int].account.state_kind()));
                    }
                    (Ok(()), notes)
                } else {
                    (Err(ObserverError::AccountAlreadyActive(account)), notes)
                }
            },
            None => {
                notes.push(
                    Notification::AccountAdded(
                        account.email().clone(),
                        account.backend().name(),
                        clone_proxy_opt(account.get_proxy().as_ref()),
                    ),
                );
                let ghost kind = account.state_kind();
                self.accounts.push(WorkerAccount { account, status });
                proof {
                    assert(self.emails() =~= old(self).emails().push(e));
                    assert(self.statuses() =~= old(self).statuses().push(status));
                    assert(self.state_kinds() =~= old(self).state_kinds().push(kind));
                    lemma_push_no_dup(old(self).emails(), e);
                }
                (Ok(()), notes)
            },
        }
    }
}

impl<B: Backend> Worker<B> {
    /// Log an account out, but keep observing it; a successful logout is
    /// announced.
    pub fn logout_account(&mut self, email: String) -> (r: (ObserverResult<(), B>, Vec<Notification>))
        requires
            old(self).wf(),
        ensures
            final(self).wf(),
            final(self).emails() == old(self).emails(),
            final(self).proxies() == old(self).proxies(),
            final(self).is_paused() == old(self).is_paused(),
            final(self).interval() == old(self).interval(),
            !old(self).emails().contains(email@) ==> (r.0 matches Err(ObserverError::NoSuchAccount(e))
                && e == email && r.1@.len() == 0 && final(self).statuses() == old(self).statuses()
                && final(self).state_kinds() == old(self).state_kinds()),
            forall|i: int| 0 <= i < old(self).emails().len() && old(self).emails()[i] == email@ ==> {
                &&& r.0 is Ok ==> final(self).statuses() == old(self).statuses().update(i, ObserverAccountStatus::LoggedOut)
                    && final(self).state_kinds() == old(self).state_kinds().update(i, AccountStateKind::LoggedOut)
                    && r.1@ == seq![Notification::AccountLoggedOut(email)]
                &&& r.0 is Err ==> r.0->Err_0 is AccountError && final(self).statuses() == old(self).statuses()
                    && final(self).state_kinds() == old(self).state_kinds()
                    && old(self).state_kinds()[i] == AccountStateKind::LoggedIn && r.1@.len() == 0
                &&& old(self).state_kinds()[i] != AccountStateKind::LoggedIn ==> r.0 is Ok
                &&& old(self).account_values()[i].logout_outcome(final(self).account_values()[i], account_part(r.0))
                &&& only_changed_at(old(self).account_values(), final(self).account_values(), i)
            },
    {
        let mut notes: Vec<Notification> = Vec::new();
        match self.find(&email) {
            None => (Err(ObserverError::NoSuchAccount(email)), notes),
            Some(i) => {
                proof {
                    lemma_no_dup_index(self.emails(), i as int);
                }
                let mut wa = self.accounts.remove(i);
                let ghost acc0 = wa.account;
                let res = wa.account.logout();
                let ghost res_g = res;
                let ok = res.is_ok();
                if ok {
                    wa.status = ObserverAccountStatus::LoggedOut;
                }
                self.accounts.insert(i, wa);
                proof {
                    assert(self.accounts@ =~= old(self).accounts@.update(i as int, wa));
                    assert(self.emails() =~= old(self).emails());
                    assert(self.proxies() =~= old(self).proxies());
                    if ok {
                        assert(self.statuses() =~= old(self).statuses().update(i as int, ObserverAccountStatus::LoggedOut));
                        assert(self.state_kinds() =~= old(self).state_kinds().update(i as int, AccountStateKind::LoggedOut));
                    } else {
                        assert(self.statuses() =~= old(self).statuses());
                        assert(self.state_kinds() =~= old(self).state_kinds());
                    }
                    assert(accounts_of(self.accounts@) =~= accounts_of(old(self).accounts@).update(i as int, wa.account));
                    assert(acc0 == old(self).account_values()[i as int]);
                    assert(acc0.logout_outcome(wa.account, res_g));
                }
                match res {
                    Ok(()) => {
                        notes.push(Notification::AccountLoggedOut(email));
                        (Ok(()), notes)
                    },
                    Err(e) => (Err(ObserverError::AccountError(e)), notes),
                }
            },
        }
    }

    /// Stop observing an account and log it out. The account leaves the
    /// observer even if logging out fails; it is announced as removed only
    /// when logging out succeeds. An unknown email is no error.
    pub fn remove_account(&mut self, email: String) -> (r: (ObserverResult<(), B>, Vec<Notification>))
        requires
            old(self).wf(),
        ensures
            final(self).wf(),
            final(self).is_paused() == old(self).is_paused(),
            final(self).interval() == old(self).interval(),
            !old(self).emails().contains(email@) ==> (r.0 is Ok && r.1@.len() == 0
                && final(self).emails() == old(self).emails()
                && final(self).statuses() == old(self).statuses()
                && final(self).state_kinds() == old(self).state_kinds()),
            forall|i: int| 0 <= i < old(self).emails().len() && old(self).emails()[i] == email@ ==> {
                &&& final(self).emails() == old(self).emails().remove(i)
                &&& final(self).statuses() == old(self).statuses().remove(i)
                &&& final(self).state_kinds() == old(self).state_kinds().remove(i)
                &&& r.0 is Ok ==> r.1@ == seq![Notification::AccountRemoved(email)]
                &&& r.0 is Err ==> r.0->Err_0 is AccountError && r.1@.len() == 0
                    && old(self).state_kinds()[i] == AccountStateKind::LoggedIn
                &&& old(self).state_kinds()[i] != AccountStateKind::LoggedIn ==> r.0 is Ok
                &&& exists|after: Account<B>| #[trigger] old(self).account_values()[i].logout_outcome(after, account_part(r.0))
                &&& final(self).account_values() == old(self).account_values().remove(i)
            },
    {
        let mut notes: Vec<Notification> = Vec::new();
        match self.find(&email) {
            None => (Ok(()), notes),
            Some(i) => {
                proof {
                    lemma_no_dup_index(self.emails(), i as int);
                }
                let mut wa = self.accounts.remove(i);
                proof {
                    assert(self.accounts@ =~= old(self).accounts@.remove(i as int));
                    assert(self.emails() =~= old(self).emails().remove(i as int));
                    assert(self.statuses() =~= old(self).statuses().remove(i as int));
                    assert(self.state_kinds() =~= old(self).state_kinds().remove(i as int));
                    lemma_remove_no_dup(old(self).emails(), i as int);
                    assert(accounts_of(self.accounts@) =~= accounts_of(old(self).accounts@).remove(i as int));
                }
                let ghost acc0 = wa.account;
                let res = wa.account.logout();
                proof {
                    assert(acc0 == old(self).account_values()[i as int]);
                    assert(acc0.logout_outcome(wa.account, res));
                }
                let ghost res_g = res;
                let r0: ObserverResult<(), B> = match res {
                    Ok(u) => {
                        notes.push(Notification::AccountRemoved(email));
                        Ok(u)
                    },
                    Err(e) => Err(ObserverError::AccountError(e)),
                };
                proof {
                    assert(account_part(r0) == res_g);
                    assert(old(self).account_values()[i as int].logout_outcome(wa.account, account_part(r0)));
                }
                (r0, notes)
            },
        }
    }

    /// The active accounts with their status, backend and proxy.
    pub fn get_accounts(&self) -> (r: Vec<ObserverAccount>)
        ensures
            r@.len() == self.emails().len(),
            forall|i: int| 0 <= i < r@.len() ==> {
                &&& (#[trigger] r@[i]).email@ == self.emails()[i]
                &&& r@[i].status == self.statuses()[i]
                &&& r@[i].backend@ == self.backend_names()[i]
                &&& proxy_opt_view(r@[i].proxy) == self.proxies()[i]
            },
    {
        let mut out: Vec<ObserverAccount> = Vec::new();
        let mut i: usize = 0;
        while i < self.accounts.len()
            invariant
                i <= self.accounts@.len(),
                out@.len() == i,
                self.emails().len() == self.accounts@.len(),
                forall|j: int| 0 <= j < i ==> {
                    &&& (#[trigger] out@[j]).email@ == self.emails()[j]
                    &&& out@[j].status == self.statuses()[j]
                    &&& out@[j].backend@ == self.backend_names()[j]
                    &&& proxy_opt_view(out@[j].proxy) == self.proxies()[j]
                },
            decreases self.accounts@.len() - i,
        {
            let wa = &self.accounts[i];
            proof {
                assert(self.emails()[i as int] == wa.account.email_view());
                assert(self.statuses()[i as int] == wa.status);
                assert(self.proxies()[i as int] == wa.account.proxy_view());
                assert(self.backend_names()[i as int] == wa.account.backend_value().spec_name());
            }
            out.push(ObserverAccount {
                email: wa.account.email().clone(),
                status: wa.status,
                backend: wa.account.backend().name(),
                proxy: clone_proxy_opt(wa.account.get_proxy().as_ref()),
            });
            i = i + 1;
        }
        out
    }

    /// Pause polling.
    pub fn pause(&mut self)
        ensures
            final(self).is_paused(),
            final(self).emails() == old(self).emails(),
            final(self).statuses() == old(self).statuses(),
            final(self).state_kinds() == old(self).state_kinds(),
            final(self).interval() == old(self).interval(),
    {
        self.paused = true;
    }

    /// Resume polling.
    pub fn resume(&mut self)
        ensures
            !final(self).is_paused(),
            final(self).emails() == old(self).emails(),
            final(self).statuses() == old(self).statuses(),
            final(self).state_kinds() == old(self).state_kinds(),
            final(self).interval() == old(self).interval(),
    {
        self.paused = false;
    }

    /// Set the poll interval, in milliseconds.
    pub fn set_poll_interval(&mut self, interval_ms: u64)
        ensures
            final(self).interval() == interval_ms,
            final(self).is_paused() == old(self).is_paused(),
            final(self).emails() == old(self).emails(),
            final(self).statuses() == old(self).statuses(),
            final(self).state_kinds() == old(self).state_kinds(),
    {
        self.poll_interval_ms = interval_ms;
    }

    /// The poll interval, in milliseconds.
    pub fn get_poll_interval(&self) -> (r: u64)
        ensures
            r == self.interval(),
    {
        self.poll_interval_ms
    }

    /// The stored form of the observed state: the poll interval in seconds
    /// and each active account, in order. (An account that awaits its TOTP
    /// code cannot be stored.)
    pub fn gen_config(&self) -> (r: Result<ConfigJSON, ConfigGenError>)
        requires
            forall|i: int| 0 <= i < self.state_kinds().len() ==> self.state_kinds()[i] != AccountStateKind::AwaitingTotp,
        ensures
            r matches Ok(c) ==> c.poll_interval == Some((self.interval() / 1000) as u64)
                && stored_views(config_accounts_view(c.accounts@)).len() == self.emails().len()
                && forall|i: int| 0 <= i < self.emails().len() ==> (#[trigger] stored_views(config_accounts_view(c.accounts@))[i]).0 == self.emails()[i]
                    && stored_views(config_accounts_view(c.accounts@))[i].2 == (self.state_kinds()[i] == AccountStateKind::LoggedIn)
                    && stored_views(config_accounts_view(c.accounts@))[i].1 == self.backend_names()[i]
                    && stored_views(config_accounts_view(c.accounts@))[i].2 == (self.state_kinds()[i] == AccountStateKind::LoggedIn)
                    && stored_views(config_accounts_view(c.accounts@))[i].3 == self.proxies()[i],
            (forall|i: int| 0 <= i < self.state_kinds().len() ==> self.state_kinds()[i] != AccountStateKind::LoggedIn)
                ==> r is Ok,
            r matches Err(e) ==> e matches ConfigGenError::BackendConfig { account, .. } && exists|i: int|
                0 <= i < self.emails().len() && self.state_kinds()[i] == AccountStateKind::LoggedIn
                    && #[trigger] self.emails()[i] == account@,
            r matches Ok(c) ==> c.accounts@.len() == self.account_values().len() && forall|i: int|
                0 <= i < self.account_values().len() ==> crate::config::stores_session(
                    #[trigger] self.account_values()[i],
                    c.accounts@[i].value,
                ),
    {
        let mut json_accounts: Vec<crate::config::ConfigJSONAccount> = Vec::new();
        let mut i: usize = 0;
        while i < self.accounts.len()
            invariant
                i <= self.accounts@.len(),
                forall|k: int| 0 <= k < self.state_kinds().len() ==> self.state_kinds()[k] != AccountStateKind::AwaitingTotp,
                stored_views(config_accounts_view(json_accounts@)).len() == i,
                forall|k: int| 0 <= k < i ==> (#[trigger] stored_views(config_accounts_view(json_accounts@))[k]) == account_stored_view(self.accounts@[k].account),
                json_accounts@.len() == i,
                forall|k: int| 0 <= k < i ==> crate::config::stores_session(#[trigger] self.account_values()[k], json_accounts@[k].value),
            decreases self.accounts@.len() - i,
        {
            proof {
                assert(self.state_kinds()[i as int] == self.accounts@[i as int].account.state_kind());
            }
            proof {
                assert(self.emails()[i as int] == self.accounts@[i as int].account.email_view());
            }
            let a = match Config::store_account(&self.accounts[i].account) {
                Ok(a) => a,
                Err(e) => {
                    return Err(e);
                },
            };
            let ghost before = json_accounts@;
            json_accounts.push(a);
            proof {
                assert(stored_views(config_accounts_view(json_accounts@)) =~= stored_views(config_accounts_view(before)).push(crate::config::stored_view(a@)));
                assert(self.account_values()[i as int] == self.accounts@[i as int].account);
                assert forall|k: int| 0 <= k < i + 1 implies crate::config::stores_session(#[trigger] self.account_values()[k], json_accounts@[k].value) by {
                    if k < i {
                        assert(json_accounts@[k] == before[k]);
                    }
                }
            }
            i = i + 1;
        }
        proof {
            assert forall|k: int| 0 <= k < self.emails().len() implies (#[trigger] stored_views(config_accounts_view(json_accounts@))[k]).0 == self.emails()[k]
                && stored_views(config_accounts_view(json_accounts@))[k].1 == self.backend_names()[k]
                && stored_views(config_accounts_view(json_accounts@))[k].2 == (self.state_kinds()[k] == AccountStateKind::LoggedIn)
                && stored_views(config_accounts_view(json_accounts@))[k].3 == self.proxies()[k] by {
                assert(self.emails()[k] == self.accounts@[k].account.email_view());
                assert(self.backend_names()[k] == self.accounts@[k].account.backend_value().spec_name());
                assert(self.state_kinds()[k] == self.accounts@[k].account.state_kind());
                assert(self.proxies()[k] == self.accounts@[k].account.proxy_view());
            }
        }
        Ok(ConfigJSON { poll_interval: Some(self.poll_interval_ms / 1000), accounts: json_accounts })
    }

    /// Whether polling is paused.
    pub fn paused(&self) -> (r: bool)
        ensures
            r == self.is_paused(),
    {
        self.paused
    }

    /// Whether some active account waits for its TOTP code; the stored form
    /// of the state cannot be generated then.
    pub fn has_account_awaiting_totp(&self) -> (r: bool)
        requires
            self.wf(),
        ensures
            r == exists|i: int| 0 <= i < self.state_kinds().len() && self.state_kinds()[i]
                == AccountStateKind::AwaitingTotp,
    {
        let mut i: usize = 0;
        while i < self.accounts.len()
            invariant
                i <= self.accounts@.len(),
                self.state_kinds().len() == self.accounts@.len(),
                forall|j: int| 0 <= j < i ==> self.state_kinds()[j] != AccountStateKind::AwaitingTotp,
            decreases self.accounts@.len() - i,
        {
            proof {
                assert(self.state_kinds()[i as int] == self.accounts@[i as int].account.state_kind());
            }
            if self.accounts[i].account.is_awaiting_totp() {
                return true;
            }
            i = i + 1;
        }
        false
    }

    /// The proxy of the account with `email`.
    pub fn get_proxy(&self, email: String) -> (r: ObserverResult<Option<Proxy>, B>)
        requires
            self.wf(),
        ensures
            !self.emails().contains(email@) ==> (r matches Err(ObserverError::NoSuchAccount(e)) && e == email),
            forall|i: int| 0 <= i < self.emails().len() && self.emails()[i] == email@ ==>
                (r matches Ok(p) && proxy_opt_view(p) == self.proxies()[i]),
    {
        match self.find(&email) {
            None => Err(ObserverError::NoSuchAccount(email)),
            Some(i) => {
                proof {
                    assert(self.proxies()[i as int] == self.accounts@[i as int].account.proxy_view());
                }
                let p = clone_proxy_opt(self.accounts[i].account.get_proxy().as_ref());
                proof {
                    lemma_no_dup_index(self.emails(), i as int);
                }
                Ok(p)
            },
        }
    }
}

impl<B: Backend> Worker<B> {
    /// Apply `proxy` to the account with `email`; a change is announced.
    pub fn apply_proxy(&mut self, email: String, proxy: Option<Proxy>) -> (r: (ObserverResult<(), B>, Vec<Notification>))
        requires
            old(self).wf(),
        ensures
            final(self).wf(),
            final(self).emails() == old(self).emails(),
            final(self).statuses() == old(self).statuses(),
            final(self).state_kinds() == old(self).state_kinds(),
            final(self).is_paused() == old(self).is_paused(),
            final(self).interval() == old(self).interval(),
            !old(self).emails().contains(email@) ==> (r.0 matches Err(ObserverError::NoSuchAccount(e))
                && e == email && r.1@.len() == 0 && final(self).proxies() == old(self).proxies()),
            forall|i: int| 0 <= i < old(self).emails().len() && old(self).emails()[i] == email@ ==> {
                &&& old(self).proxies()[i] == proxy_opt_view(proxy) ==> (r.0 is Ok && r.1@.len() == 0
                    && final(self).proxies() == old(self).proxies())
                &&& old(self).proxies()[i] != proxy_opt_view(proxy) && r.0 is Ok ==> (
                    r.1@ == seq![Notification::ProxyApplied(email, proxy)]
                    && final(self).proxies() == old(self).proxies().update(i, proxy_opt_view(proxy)))
                &&& r.0 is Err ==> (r.0->Err_0 is AccountError && r.1@.len() == 0
                    && final(self).proxies() == old(self).proxies())
                &&& exists|res: AccountResult<bool>|
                    #[trigger] old(self).account_values()[i].set_proxy_outcome(
                        proxy_opt_view(proxy),
                        final(self).account_values()[i],
                        res,
                    ) && (r.0 is Ok <==> res is Ok) && (r.0 matches Err(ObserverError::AccountError(e)) ==> res
                        == Err::<bool, AccountError>(e))
                &&& only_changed_at(old(self).account_values(), final(self).account_values(), i)
            },
    {
        let mut notes: Vec<Notification> = Vec::new();
        match self.find(&email) {
            None => (Err(ObserverError::NoSuchAccount(email)), notes),
            Some(i) => {
                proof {
                    lemma_no_dup_index(self.emails(), i as int);
                }
                let mut wa = self.accounts.remove(i);
                let ghost acc0 = wa.account;
                let pr = proxy.as_ref();
                proof {
                    assert(proxy_ref_view(pr) == proxy_opt_view(proxy));
                }
                let res = wa.account.set_proxy(pr);
                self.accounts.insert(i, wa);
                proof {
                    assert(acc0 == old(self).account_values()[i as int]);
                    assert(accounts_of(self.accounts@) =~= accounts_of(old(self).accounts@).update(i as int, wa.account));
                    assert(acc0.set_proxy_outcome(proxy_opt_view(proxy), wa.account, res));
                    assert(self.accounts@ =~= old(self).accounts@.update(i as int, wa));
                    assert(self.emails() =~= old(self).emails());
                    assert(self.statuses() =~= old(self).statuses());
                    assert(self.state_kinds() =~= old(self).state_kinds());
                    assert(self.proxies() =~= old(self).proxies().update(i as int, wa.account.proxy_view()));
                    if res is Err || res == Ok::<bool, AccountError>(false) {
                        assert(self.proxies() =~= old(self).proxies());
                    }
                }
                let ghost res_g = res;
                let ghost pv = proxy_opt_view(proxy);
                let r0: ObserverResult<(), B> = match res {
                    Ok(changed) => {
                        if changed {
                            notes.push(Notification::ProxyApplied(email, proxy));
                        }
                        Ok(())
                    },
                    Err(e) => Err(ObserverError::AccountError(e)),
                };
                proof {
                    assert(old(self).account_values()[i as int].set_proxy_outcome(pv, self.account_values()[i as int], res_g));
                    assert(r0 is Ok <==> res_g is Ok);
                }
                (r0, notes)
            },
        }
    }

    /// Poll every active account that is not logged out, in order, and
    /// return what to notify. Nothing happens while polling is paused. The
    /// round goes as [`poll_round`] says for the results the accounts' checks
    /// gave.
    pub fn poll_accounts(&mut self) -> (r: Vec<Notification>)
        requires
            old(self).wf(),
        ensures
            final(self).wf(),
            final(self).emails() == old(self).emails(),
            final(self).email_strings() == old(self).email_strings(),
            final(self).is_paused() == old(self).is_paused(),
            final(self).interval() == old(self).interval(),
            old(self).is_paused() ==> r@.len() == 0 && *final(self) == *old(self),
            !old(self).is_paused() ==> exists|trace: Seq<CheckTrace>|
                #[trigger] round_gives(
                    old(self).statuses(),
                    old(self).state_kinds(),
                    old(self).email_strings(),
                    old(self).backend_names(),
                    trace,
                    final(self).statuses(),
                    r@,
                ) && round_checks(
                    old(self).account_values(),
                    final(self).account_values(),
                    old(self).statuses(),
                    old(self).state_kinds(),
                    trace,
                ),
            final(self).statuses().len() == old(self).statuses().len(),
            forall|j: int| 0 <= j < old(self).statuses().len() && old(self).statuses()[j]
                == ObserverAccountStatus::LoggedOut ==> (final(self).statuses()[j]
                == ObserverAccountStatus::LoggedOut && final(self).state_kinds()[j]
                == old(self).state_kinds()[j]),
    {
        let mut notes: Vec<Notification> = Vec::new();
        if self.paused {
            return notes;
        }
        let n = self.accounts.len();
        let ghost st0 = old(self).statuses();
        let ghost kinds0 = old(self).state_kinds();
        let ghost emails0 = old(self).email_strings();
        let ghost names0 = old(self).backend_names();
        let ghost mut trace: Seq<CheckTrace> = Seq::empty();
        let mut i: usize = 0;
        while i < n
            invariant
                n == self.accounts@.len(),
                i <= n,
                !self.paused,
                self.paused == old(self).paused,
                self.poll_interval_ms == old(self).poll_interval_ms,
                self.emails() == old(self).emails(),
                self.email_strings() == emails0,
                self.backend_names() == names0,
                st0 == old(self).statuses(),
                kinds0 == old(self).state_kinds(),
                emails0 == old(self).email_strings(),
                names0 == old(self).backend_names(),
                self.statuses().len() == n,
                self.state_kinds().len() == n,
                old(self).emails().len() == n,
                old(self).statuses().len() == n,
                old(self).state_kinds().len() == n,
                self.wf(),
                trace.len() == i,
                forall|j: int| 0 <= j < i && !skipped(st0, kinds0, j) ==> (#[trigger] trace[j]).2@ == names0[j],
                poll_round(st0, kinds0, emails0, trace, i as nat) == (self.statuses(), notes@),
                forall|j: int| 0 <= j < n && old(self).statuses()[j]
                    == ObserverAccountStatus::LoggedOut ==> (self.statuses()[j]
                    == ObserverAccountStatus::LoggedOut && self.state_kinds()[j]
                    == old(self).state_kinds()[j]),
                forall|j: int| i <= j < n ==> self.statuses()[j] == old(self).statuses()[j]
                    && self.state_kinds()[j] == old(self).state_kinds()[j],
                self.account_values().len() == n,
                forall|j: int| i <= j < n ==> self.account_values()[j] == old(self).account_values()[j],
                forall|j: int| 0 <= j < i ==> #[trigger] checked_at(old(self).account_values(), self.account_values(), st0, kinds0, trace, j),
            decreases n - i,
        {
            let ghost before = self.accounts@;
            let ghost t_prev = trace;
            let ghost notes_before = notes@;
            let ghost round_before = poll_round(st0, kinds0, emails0, trace, i as nat);
            proof {
                assert(before[i as int].status == self.statuses()[i as int]);
                assert(before[i as int].account.state_kind() == self.state_kinds()[i as int]);
                assert(before[i as int].status == old(self).statuses()[i as int]);
                assert(before[i as int].account.state_kind() == old(self).state_kinds()[i as int]);
                assert(before[i as int].account.email_string() == emails0[i as int]);
                assert(before[i as int].account.backend_value().spec_name() == names0[i as int]);
                assert(round_before.0[i as int] == st0[i as int]);
            }
            let mut wa = self.accounts.remove(i);
            if wa.account.is_logged_out() {
                wa.status = ObserverAccountStatus::LoggedOut;
            }
            if wa.status == ObserverAccountStatus::LoggedOut {
                self.accounts.insert(i, wa);
                proof {
                    assert(self.accounts@ =~= before.update(i as int, wa));
                    lemma_update_views(before, i as int, wa);
                    lemma_step_keeps_views(before, i as int, wa);
                    assert(self.email_strings() =~= emails0);
                    assert(self.backend_names() =~= names0);
                    assert(skipped(st0, kinds0, i as int));
                    let t2 = trace.push((Err(AccountError::InvalidState), false, emails0[i as int]));
                    assert(t2.take(i as int) =~= trace);
                    assert(trace.take(i as int) =~= trace);
                    lemma_round_prefix(st0, kinds0, emails0, trace, t2, i as nat);
                    trace = t2;
                    assert(self.statuses() =~= round_before.0.update(i as int, ObserverAccountStatus::LoggedOut));
                    assert(accounts_of(self.accounts@) =~= accounts_of(before));
                    assert forall|j: int| 0 <= j < i + 1 implies #[trigger] checked_at(
                        old(self).account_values(),
                        self.account_values(),
                        st0,
                        kinds0,
                        trace,
                        j,
                    ) by {
                        if j < i {
                            assert(checked_at(old(self).account_values(), accounts_of(before), st0, kinds0, t_prev, j));
                            assert(trace[j] == t_prev[j]);
                        }
                    }
                }
                i = i + 1;
                continue;
            }
            let ghost acc0 = wa.account;
            proof {
                assert(accounts_of(before)[i as int] == before[i as int].account);
                assert(acc0 == old(self).account_values()[i as int]);
            }
            let (result, refreshed) = wa.account.check();
            let ghost acc1 = wa.account;
            let backend_name = wa.account.backend().name();
            let ghost res_g = result;
            let ghost status_before = wa.status;
            let mut out = poll_outcome(wa.status, result, refreshed, wa.account.email(), &backend_name);
            wa.status = out.status;
            let ghost out_notes = out.notifications@;
            notes.append(&mut out.notifications);
            self.accounts.insert(i, wa);
            proof {
                assert(self.accounts@ =~= before.update(i as int, wa));
                lemma_update_views(before, i as int, wa);
                lemma_step_keeps_views(before, i as int, wa);
                assert(self.email_strings() =~= emails0);
                assert(self.backend_names() =~= names0);
                assert(!skipped(st0, kinds0, i as int));
                let t2 = trace.push((res_g, refreshed, backend_name));
                assert(t2.take(i as int) =~= trace);
                    assert(trace.take(i as int) =~= trace);
                lemma_round_prefix(st0, kinds0, emails0, trace, t2, i as nat);
                trace = t2;
                assert(notes@ =~= notes_before + out_notes);
                assert(self.statuses() =~= round_before.0.update(i as int, out.status));
                assert(accounts_of(self.accounts@) =~= accounts_of(before).update(i as int, acc1));
                assert(acc0.check_outcome(acc1, (trace[i as int].0, trace[i as int].1)));
                assert forall|j: int| 0 <= j < i + 1 implies #[trigger] checked_at(
                    old(self).account_values(),
                    self.account_values(),
                    st0,
                    kinds0,
                    trace,
                    j,
                ) by {
                    if j < i {
                        assert(checked_at(old(self).account_values(), accounts_of(before), st0, kinds0, t_prev, j));
                        assert(trace[j] == t_prev[j]);
                    }
                }
            }
            i = i + 1;
        }
        proof {
            assert(round_gives(st0, kinds0, emails0, names0, trace, self.statuses(), notes@));
            assert(round_checks(old(self).account_values(), self.account_values(), st0, kinds0, trace));
        }
        notes
    }
}

/// A poll round over the first `k` accounts depends only on the first `k`
/// entries of the trace.
pub proof fn lemma_round_prefix(
    statuses: Seq<ObserverAccountStatus>,
    kinds: Seq<AccountStateKind>,
    emails: Seq<String>,
    t1: Seq<CheckTrace>,
    t2: Seq<CheckTrace>,
    k: nat,
)
    requires
        k <= t1.len(),
        k <= t2.len(),
        t1.take(k as int) == t2.take(k as int),
    ensures
        poll_round(statuses, kinds, emails, t1, k) == poll_round(statuses, kinds, emails, t2, k),
    decreases k,
{
    if k > 0 {
        assert(t1.take(k - 1) =~= t1.take(k as int).take(k - 1));
        assert(t2.take(k - 1) =~= t2.take(k as int).take(k - 1));
        lemma_round_prefix(statuses, kinds, emails, t1, t2, (k - 1) as nat);
        assert(t1[k - 1] == t1.take(k as int)[k - 1]);
        assert(t2[k - 1] == t2.take(k as int)[k - 1]);
    }
}

impl<B: Backend> Worker<B> {
    /// Handle one request made to the observer: the first member says whether
    /// the worker should exit, the second is the answer, the third what to
    /// notify. Each request is carried out by the method of the same name.
    pub fn handle_request(&mut self, request: ObserverRequest<B>) -> (r: (bool, ObserverReply<B>, Vec<Notification>))
        requires
            old(self).wf(),
            request is GenConfig ==> forall|i: int| 0 <= i < old(self).state_kinds().len()
                ==> old(self).state_kinds()[i] != AccountStateKind::AwaitingTotp,
        ensures
            final(self).wf(),
            r.0 <==> request is Exit,
            match request {
                ObserverRequest::Exit => r.1 is Nothing && r.2@.len() == 0
                    && final(self).emails() == old(self).emails()
                    && final(self).statuses() == old(self).statuses()
                    && final(self).is_paused() == old(self).is_paused()
                    && final(self).interval() == old(self).interval(),
                ObserverRequest::AddAccount(a) => r.1 matches ObserverReply::Done(res)
                    && final(self).is_paused() == old(self).is_paused()
                    && final(self).interval() == old(self).interval()
                    && (!old(self).emails().contains(a.email_view()) ==> {
                        &&& res is Ok
                        &&& r.2@.len() == 1
                        &&& r.2@[0] matches Notification::AccountAdded(s, b, p) && s@ == a.email_view()
                            && b@ == a.backend_value().spec_name() && proxy_opt_view(p) == a.proxy_view()
                        &&& final(self).emails() == old(self).emails().push(a.email_view())
                        &&& final(self).statuses() == old(self).statuses().push(initial_status(a.state_kind()))
                        &&& final(self).state_kinds() == old(self).state_kinds().push(a.state_kind())
                    })
                    && (forall|i: int| 0 <= i < old(self).emails().len() && old(self).emails()[i] == a.email_view() ==> {
                        if old(self).statuses()[i] == ObserverAccountStatus::LoggedOut {
                            &&& res is Ok
                            &&& r.2@.len() == 1
                            &&& r.2@[0] matches Notification::AccountOnline(s) && s@ == a.email_view()
                            &&& final(self).emails() == old(self).emails()
                            &&& final(self).statuses() == old(self).statuses().update(i, initial_status(a.state_kind()))
                            &&& final(self).state_kinds() == old(self).state_kinds().update(i, a.state_kind())
                        } else {
                            &&& res matches Err(ObserverError::AccountAlreadyActive(x)) && x == a
                            &&& r.2@.len() == 0
                            &&& final(self).emails() == old(self).emails()
                            &&& final(self).statuses() == old(self).statuses()
                            &&& final(self).state_kinds() == old(self).state_kinds()
                        }
                    }),
                ObserverRequest::LogoutAccount(e) => r.1 matches ObserverReply::Done(res)
                    && final(self).emails() == old(self).emails()
                    && final(self).proxies() == old(self).proxies()
                    && final(self).is_paused() == old(self).is_paused()
                    && final(self).interval() == old(self).interval()
                    && (!old(self).emails().contains(e@) ==> (res matches Err(ObserverError::NoSuchAccount(x))
                        && x == e && r.2@.len() == 0 && final(self).statuses() == old(self).statuses()
                        && final(self).state_kinds() == old(self).state_kinds()))
                    && (forall|i: int| 0 <= i < old(self).emails().len() && old(self).emails()[i] == e@ ==> {
                        &&& res is Ok ==> final(self).statuses() == old(self).statuses().update(i, ObserverAccountStatus::LoggedOut)
                            && final(self).state_kinds() == old(self).state_kinds().update(i, AccountStateKind::LoggedOut)
                            && r.2@ == seq![Notification::AccountLoggedOut(e)]
                        &&& res is Err ==> res->Err_0 is AccountError && final(self).statuses() == old(self).statuses()
                            && final(self).state_kinds() == old(self).state_kinds()
                            && old(self).state_kinds()[i] == AccountStateKind::LoggedIn && r.2@.len() == 0
                        &&& old(self).state_kinds()[i] != AccountStateKind::LoggedIn ==> res is Ok
                        &&& old(self).account_values()[i].logout_outcome(final(self).account_values()[i], account_part(res))
                        &&& only_changed_at(old(self).account_values(), final(self).account_values(), i)
                    }),
                ObserverRequest::RemoveAccount(e) => r.1 matches ObserverReply::Done(res)
                    && final(self).is_paused() == old(self).is_paused()
                    && final(self).interval() == old(self).interval()
                    && !final(self).emails().contains(e@)
                    && (!old(self).emails().contains(e@) ==> (res is Ok && r.2@.len() == 0
                        && final(self).emails() == old(self).emails()
                        && final(self).statuses() == old(self).statuses()
                        && final(self).state_kinds() == old(self).state_kinds()))
                    && (forall|i: int| 0 <= i < old(self).emails().len() && old(self).emails()[i] == e@ ==> {
                        &&& final(self).emails() == old(self).emails().remove(i)
                        &&& final(self).statuses() == old(self).statuses().remove(i)
                        &&& final(self).state_kinds() == old(self).state_kinds().remove(i)
                        &&& res is Ok ==> r.2@ == seq![Notification::AccountRemoved(e)]
                        &&& res is Err ==> res->Err_0 is AccountError && r.2@.len() == 0
                            && old(self).state_kinds()[i] == AccountStateKind::LoggedIn
                        &&& old(self).state_kinds()[i] != AccountStateKind::LoggedIn ==> res is Ok
                        &&& exists|after: Account<B>| #[trigger] old(self).account_values()[i].logout_outcome(after, account_part(res))
                        &&& final(self).account_values() == old(self).account_values().remove(i)
                    }),
                ObserverRequest::GetAccounts => r.1 matches ObserverReply::Accounts(v) && r.2@.len() == 0
                    && v@.len() == old(self).emails().len()
                    && (forall|i: int| 0 <= i < v@.len() ==> {
                        &&& (#[trigger] v@[i]).email@ == old(self).emails()[i]
                        &&& v@[i].status == old(self).statuses()[i]
                        &&& v@[i].backend@ == old(self).backend_names()[i]
                        &&& proxy_opt_view(v@[i].proxy) == old(self).proxies()[i]
                    })
                    && final(self).emails() == old(self).emails()
                    && final(self).statuses() == old(self).statuses(),
                ObserverRequest::Pause => r.1 is Nothing && r.2@.len() == 0 && final(self).is_paused()
                    && final(self).emails() == old(self).emails()
                    && final(self).statuses() == old(self).statuses(),
                ObserverRequest::Resume => r.1 is Nothing && r.2@.len() == 0 && !final(self).is_paused()
                    && final(self).emails() == old(self).emails()
                    && final(self).statuses() == old(self).statuses(),
                ObserverRequest::GenConfig => r.1 matches ObserverReply::Config(res) && r.2@.len() == 0
                    && final(self).emails() == old(self).emails()
                    && final(self).statuses() == old(self).statuses()
                    && (res matches Ok(c) ==> c.poll_interval == Some((old(self).interval() / 1000) as u64)
                        && stored_views(config_accounts_view(c.accounts@)).len() == old(self).emails().len()
                        && forall|i: int| 0 <= i < old(self).emails().len() ==> (#[trigger] stored_views(config_accounts_view(c.accounts@))[i]).0 == old(self).emails()[i]
                            && stored_views(config_accounts_view(c.accounts@))[i].1 == old(self).backend_names()[i]
                            && stored_views(config_accounts_view(c.accounts@))[i].2 == (old(self).state_kinds()[i] == AccountStateKind::LoggedIn)
                            && stored_views(config_accounts_view(c.accounts@))[i].3 == old(self).proxies()[i])
                    && ((forall|i: int| 0 <= i < old(self).state_kinds().len() ==> old(self).state_kinds()[i] != AccountStateKind::LoggedIn)
                        ==> res is Ok)
                    && (res matches Err(x) ==> x matches ConfigGenError::BackendConfig { account, .. } && exists|i: int|
                        0 <= i < old(self).emails().len() && old(self).state_kinds()[i] == AccountStateKind::LoggedIn
                            && #[trigger] old(self).emails()[i] == account@),
                ObserverRequest::SetPollInterval(d) => r.1 is Nothing && r.2@.len() == 0
                    && final(self).interval() == d
                    && final(self).emails() == old(self).emails()
                    && final(self).statuses() == old(self).statuses(),
                ObserverRequest::GetPollInterval => r.1 == ObserverReply::<B>::PollInterval(old(self).interval())
                    && r.2@.len() == 0
                    && final(self).emails() == old(self).emails()
                    && final(self).statuses() == old(self).statuses(),
                ObserverRequest::ApplyProxy(e, p) => r.1 matches ObserverReply::Done(res)
                    && final(self).emails() == old(self).emails()
                    && final(self).statuses() == old(self).statuses()
                    && final(self).state_kinds() == old(self).state_kinds()
                    && (!old(self).emails().contains(e@) ==> (res matches Err(ObserverError::NoSuchAccount(x))
                        && x == e && r.2@.len() == 0 && final(self).proxies() == old(self).proxies()))
                    && (forall|i: int| 0 <= i < old(self).emails().len() && old(self).emails()[i] == e@ ==> {
                        &&& old(self).proxies()[i] == proxy_opt_view(p) ==> (res is Ok && r.2@.len() == 0
                            && final(self).proxies() == old(self).proxies())
                        &&& old(self).proxies()[i] != proxy_opt_view(p) && res is Ok ==> (
                            r.2@ == seq![Notification::ProxyApplied(e, p)]
                            && final(self).proxies() == old(self).proxies().update(i, proxy_opt_view(p)))
                        &&& res is Err ==> (res->Err_0 is AccountError && r.2@.len() == 0
                            && final(self).proxies() == old(self).proxies())
                        &&& exists|ares: AccountResult<bool>|
                            #[trigger] old(self).account_values()[i].set_proxy_outcome(
                                proxy_opt_view(p),
                                final(self).account_values()[i],
                                ares,
                            ) && (res is Ok <==> ares is Ok) && (res matches Err(ObserverError::AccountError(e)) ==> ares
                                == Err::<bool, AccountError>(e))
                        &&& only_changed_at(old(self).account_values(), final(self).account_values(), i)
                    }),
                ObserverRequest::GetProxy(e) => r.1 matches ObserverReply::Proxy(res) && r.2@.len() == 0
                    && final(self).emails() == old(self).emails()
                    && final(self).statuses() == old(self).statuses()
                    && (!old(self).emails().contains(e@) ==> (res matches Err(ObserverError::NoSuchAccount(x)) && x == e))
                    && (forall|i: int| 0 <= i < old(self).emails().len() && old(self).emails()[i] == e@ ==>
                        (res matches Ok(q) && proxy_opt_view(q) == old(self).proxies()[i])),
            },
    {
        let none: Vec<Notification> = Vec::new();
        match request {
            ObserverRequest::Exit => (true, ObserverReply::Nothing, none),
            ObserverRequest::AddAccount(account) => {
                let ghost e = account.email_view();
                let (res, notes) = self.add_account(account);
                proof {
                    if !old(self).emails().contains(e) {
                        assert(self.emails().last() == e);
                    } else {
                        let i = choose|i: int| 0 <= i < old(self).emails().len() && old(self).emails()[i] == e;
                        assert(self.emails()[i] == e);
                    }
                }
                (false, ObserverReply::Done(res), notes)
            },
            ObserverRequest::LogoutAccount(email) => {
                let (res, notes) = self.logout_account(email);
                (false, ObserverReply::Done(res), notes)
            },
            ObserverRequest::RemoveAccount(email) => {
                let ghost e = email@;
                let (res, notes) = self.remove_account(email);
                proof {
                    if old(self).emails().contains(e) {
                        let i = choose|i: int| 0 <= i < old(self).emails().len() && old(self).emails()[i] == e;
                        lemma_no_dup_index(old(self).emails(), i);
                        assert forall|j: int| 0 <= j < self.emails().len() implies self.emails()[j] != e by {
                            if j < i {
                                assert(self.emails()[j] == old(self).emails()[j]);
                            } else {
                                assert(self.emails()[j] == old(self).emails()[j + 1]);
                            }
                        }
                    }
                }
                (false, ObserverReply::Done(res), notes)
            },
            ObserverRequest::GetAccounts => (false, ObserverReply::Accounts(self.get_accounts()), none),
            ObserverRequest::Pause => {
                self.pause();
                (false, ObserverReply::Nothing, none)
            },
            ObserverRequest::Resume => {
                self.resume();
                (false, ObserverReply::Nothing, none)
            },
            ObserverRequest::GenConfig => (false, ObserverReply::Config(self.gen_config()), none),
            ObserverRequest::SetPollInterval(d) => {
                self.set_poll_interval(d);
                (false, ObserverReply::Nothing, none)
            },
            ObserverRequest::GetPollInterval => (false, ObserverReply::PollInterval(self.get_poll_interval()), none),
            ObserverRequest::ApplyProxy(email, proxy) => {
                let (res, notes) = self.apply_proxy(email, proxy);
                (false, ObserverReply::Done(res), notes)
            },
            ObserverRequest::GetProxy(email) => {
                let ghost e = email@;
                let res = self.get_proxy(email);
                (false, ObserverReply::Proxy(res), none)
            },
        }
    }
}

/// Replacing an account by one with the same email, whose status is
/// logged out whenever it is logged out, keeps the worker well formed.
pub proof fn lemma_step_keeps_views<B: Backend>(s: Seq<WorkerAccount<B>>, i: int, w: WorkerAccount<B>)
    requires
        0 <= i < s.len(),
        w.account.email_view() == s[i].account.email_view(),
        w.account.state_kind() == AccountStateKind::LoggedOut ==> w.status == ObserverAccountStatus::LoggedOut,
        emails_of(s).no_duplicates(),
        forall|j: int| 0 <= j < s.len() && #[trigger] kinds_of(s)[j]
            == AccountStateKind::LoggedOut ==> statuses_of(s)[j]
            == ObserverAccountStatus::LoggedOut,
    ensures
        emails_of(s.update(i, w))
            == emails_of(s),
        forall|j: int| 0 <= j < s.len() && s.update(i, w)[j].account.state_kind() == AccountStateKind::LoggedOut
            ==> s.update(i, w)[j].status == ObserverAccountStatus::LoggedOut,
{
    assert(emails_of(s.update(i, w))
        =~= emails_of(s));
    assert forall|j: int| 0 <= j < s.len() && s.update(i, w)[j].account.state_kind()
        == AccountStateKind::LoggedOut implies s.update(i, w)[j].status
        == ObserverAccountStatus::LoggedOut by {
        if j != i {
            assert(kinds_of(s)[j] == s[j].account.state_kind());
            assert(statuses_of(s)[j] == s[j].status);
        }
    }
}

/// How the views of the worker change when one account is replaced.
pub proof fn lemma_update_views<B: Backend>(s: Seq<WorkerAccount<B>>, i: int, w: WorkerAccount<B>)
    requires
        0 <= i < s.len(),
    ensures
        emails_of(s.update(i, w))
            == emails_of(s).update(i, w.account.email_view()),
        statuses_of(s.update(i, w))
            == statuses_of(s).update(i, w.status),
        kinds_of(s.update(i, w))
            == kinds_of(s).update(i, w.account.state_kind()),
{
    assert(emails_of(s.update(i, w))
            =~= emails_of(s).update(i, w.account.email_view()));
    assert(statuses_of(s.update(i, w))
            =~= statuses_of(s).update(i, w.status));
    assert(kinds_of(s.update(i, w))
            =~= kinds_of(s).update(i, w.account.state_kind()));
}

/// Removing an element keeps a sequence free of duplicates.
pub proof fn lemma_remove_no_dup<T>(s: Seq<T>, i: int)
    requires
        s.no_duplicates(),
        0 <= i < s.len(),
    ensures
        s.remove(i).no_duplicates(),
{
    assert forall|a: int, b: int| 0 <= a < s.remove(i).len() && 0 <= b < s.remove(i).len() && a != b implies s.remove(i)[a] != s.remove(i)[b] by {
        let a2 = if a < i { a } else { a + 1 };
        let b2 = if b < i { b } else { b + 1 };
        assert(s.remove(i)[a] == s[a2]);
        assert(s.remove(i)[b] == s[b2]);
    }
}

/// In a sequence without duplicates, the element at `i` occurs only at `i`.
pub proof fn lemma_no_dup_index<T>(s: Seq<T>, i: int)
    requires
        s.no_duplicates(),
        0 <= i < s.len(),
    ensures
        forall|j: int| 0 <= j < s.len() && s[j] == s[i] ==> j == i,
{
}

/// Appending an element that does not occur keeps a sequence free of
/// duplicates.
pub proof fn lemma_push_no_dup<T>(s: Seq<T>, x: T)
    requires
        s.no_duplicates(),
        !s.contains(x),
    ensures
        s.push(x).no_duplicates(),
{
    assert forall|i: int, j: int| 0 <= i < s.push(x).len() && 0 <= j < s.push(x).len() && i != j implies s.push(x)[i] != s.push(x)[j] by {
        if i == s.len() {
            assert(s.contains(s[j]));
        } else if j == s.len() {
            assert(s.contains(s[i]));
        }
    }
}

/// Whether a backend error means the servers could not be reached.
pub open spec fn is_unreachable(e: BackendError) -> bool {
    e is Timeout || e is Connection
}

/// Law: an account going offline is announced once. However often it then
/// fails to reach its servers again, it is passed over without a
/// notification and stays offline.
pub proof fn law_offline_announced_once(
    status: ObserverAccountStatus,
    e1: BackendError,
    e2: BackendError,
    email: String,
    backend: String,
)
    requires
        is_unreachable(e1),
        is_unreachable(e2),
    ensures
        ({
            let first = poll_outcome_spec(status, Err(AccountError::Backend(e1)), false, email, backend);
            &&& first.0 == ObserverAccountStatus::Offline
            &&& status != ObserverAccountStatus::Offline ==> first.1 == seq![Notification::AccountOffline(email)]
            &&& poll_outcome_spec(first.0, Err(AccountError::Backend(e2)), false, email, backend)
                == (ObserverAccountStatus::Offline, Seq::<Notification>::empty())
        }),
{
}

/// Law: a logged-out account is announced once; the same failure again is
/// passed over in silence.
pub proof fn law_logged_out_announced_once(status: ObserverAccountStatus, email: String, backend: String)
    ensures
        ({
            let first = poll_outcome_spec(
                status,
                Err(AccountError::Backend(BackendError::LoggedOut)),
                false,
                email,
                backend,
            );
            &&& first.0 == ObserverAccountStatus::LoggedOut
            &&& status != ObserverAccountStatus::LoggedOut ==> first.1
                == seq![Notification::AccountLoggedOut(email)]
            &&& poll_outcome_spec(
                first.0,
                Err(AccountError::Backend(BackendError::LoggedOut)),
                false,
                email,
                backend,
            ) == (ObserverAccountStatus::LoggedOut, Seq::<Notification>::empty())
        }),
{
}

/// Law: an account that answers is online, and coming back online is
/// announced once: a second successful check announces only its new mail.
pub proof fn law_online_announced_once(
    status: ObserverAccountStatus,
    first: NewEmailReply,
    second: NewEmailReply,
    email: String,
    backend: String,
)
    ensures
        ({
            let a = poll_outcome_spec(status, Ok(first), false, email, backend);
            let b = poll_outcome_spec(a.0, Ok(second), false, email, backend);
            &&& a.0 == ObserverAccountStatus::Online
            &&& status != ObserverAccountStatus::Online ==> a.1[0] == Notification::AccountOnline(email)
            &&& b.0 == ObserverAccountStatus::Online
            &&& b.1 == (if second.emails@.len() > 0 {
                seq![Notification::NewEmail { account: email, backend, emails: second.emails }]
            } else {
                Seq::<Notification>::empty()
            })
        }),
{
    let a = poll_outcome_spec(status, Ok(first), false, email, backend);
    let b = poll_outcome_spec(a.0, Ok(second), false, email, backend);
    assert(b.1 =~= (if second.emails@.len() > 0 {
        seq![Notification::NewEmail { account: email, backend, emails: second.emails }]
    } else {
        Seq::<Notification>::empty()
    }));
}

/// Law: new mail is announced with exactly the emails the check found, and a
/// refreshed token is announced last, whatever the check gave, unless the
/// account failed again the way it had failed before.
pub proof fn law_new_mail_and_refresh_announced(
    status: ObserverAccountStatus,
    result: AccountResult<NewEmailReply>,
    email: String,
    backend: String,
)
    ensures
        ({
            let out = poll_outcome_spec(status, result, true, email, backend);
            &&& !repeated_failure(status, result) ==> out.1.len() > 0 && out.1.last()
                == Notification::AccountTokenRefresh(email)
            &&& (result is Ok && result->Ok_0.emails@.len() > 0 ==> out.1.contains(
                Notification::NewEmail { account: email, backend, emails: result->Ok_0.emails },
            ))
        }),
{
    let out = poll_outcome_spec(status, result, true, email, backend);
    if let Ok(check) = result {
        if check.emails@.len() > 0 {
            let online = if status != ObserverAccountStatus::Online {
                seq![Notification::AccountOnline(email)]
            } else {
                seq![]
            };
            let k = online.len() as int;
            assert(out.1[k] == Notification::NewEmail { account: email, backend, emails: check.emails });
        }
    }
}

/// Law: a check that fails with any other backend error puts the account in
/// error and reports that error once per check, whatever state it was in;
/// an error that is none of the backend's leaves its state as it was and
/// announces nothing but a refreshed token.
pub proof fn law_other_failure_reported(
    status: ObserverAccountStatus,
    be: BackendError,
    other: AccountError,
    refreshed: bool,
    email: String,
    backend: String,
)
    requires
        !is_unreachable(be),
        !(be is LoggedOut),
        !(other is Backend),
    ensures
        poll_outcome_spec(status, Err(AccountError::Backend(be)), false, email, backend) == (
            ObserverAccountStatus::Error,
            seq![Notification::AccountError(email, AccountError::Backend(be))],
        ),
        poll_outcome_spec(status, Err(other), refreshed, email, backend).0 == status,
        !refreshed ==> poll_outcome_spec(status, Err(other), refreshed, email, backend).1 == Seq::<Notification>::empty(),
{
    assert(seq![Notification::AccountError(email, AccountError::Backend(be))] + refresh_notes(false, email)
        =~= seq![Notification::AccountError(email, AccountError::Backend(be))]);
}

/// A poll round over the first `k` accounts leaves the later ones as they
/// were.
pub proof fn lemma_round_untouched(
    statuses: Seq<ObserverAccountStatus>,
    kinds: Seq<AccountStateKind>,
    emails: Seq<String>,
    trace: Seq<CheckTrace>,
    k: nat,
)
    requires
        k <= statuses.len(),
    ensures
        poll_round(statuses, kinds, emails, trace, k).0.len() == statuses.len(),
        forall|i: int| k <= i < statuses.len() ==> #[trigger] poll_round(statuses, kinds, emails, trace, k).0[i]
            == statuses[i],
    decreases k,
{
    if k > 0 {
        lemma_round_untouched(statuses, kinds, emails, trace, (k - 1) as nat);
    }
}

/// Law: within a poll round, an account that is already offline and still
/// cannot reach its servers adds no notification and stays offline, and the
/// round goes on with the next account.
pub proof fn law_round_silent_while_offline(
    statuses: Seq<ObserverAccountStatus>,
    kinds: Seq<AccountStateKind>,
    emails: Seq<String>,
    trace: Seq<CheckTrace>,
    j: nat,
)
    requires
        j < statuses.len(),
        j < trace.len(),
        kinds[j as int] != AccountStateKind::LoggedOut,
        statuses[j as int] == ObserverAccountStatus::Offline,
        trace[j as int].0 matches Err(AccountError::Backend(e)) && is_unreachable(e),
    ensures
        poll_round(statuses, kinds, emails, trace, j + 1) == poll_round(statuses, kinds, emails, trace, j),
{
    lemma_round_untouched(statuses, kinds, emails, trace, j);
    let prev = poll_round(statuses, kinds, emails, trace, j);
    assert(prev.0[j as int] == statuses[j as int]);
    assert(prev.0.update(j as int, ObserverAccountStatus::Offline) =~= prev.0);
}

/// Law: within a poll round, an account already logged out is passed over
/// without a check and without a notification.
pub proof fn law_round_skips_logged_out(
    statuses: Seq<ObserverAccountStatus>,
    kinds: Seq<AccountStateKind>,
    emails: Seq<String>,
    trace: Seq<CheckTrace>,
    j: nat,
)
    requires
        j < statuses.len(),
        statuses[j as int] == ObserverAccountStatus::LoggedOut,
    ensures
        poll_round(statuses, kinds, emails, trace, j + 1) == poll_round(statuses, kinds, emails, trace, j),
{
    lemma_round_untouched(statuses, kinds, emails, trace, j);
    let prev = poll_round(statuses, kinds, emails, trace, j);
    assert(prev.0.update(j as int, ObserverAccountStatus::LoggedOut) =~= prev.0);
}

} // verus!
