//! One round of polling over a list of check tasks: what each task's result
//! is reported as, and how the session data that tasks refreshed on the way
//! is recorded.
use crate::account::{Account, AccountError};
use crate::backend::{Account as BackendAccount, AccountState, AccountStateKind, Backend, BackendError, BackendResult, NewEmailReply};
use crate::backend::proton_errors::{http_error_kind, HttpError};
use crate::observer::config::{ConfigInner, StoredAccountView};
use crate::observer::public::account_emails;
use crate::observer::Notification;
use vstd::prelude::*;

verus! {

/// What a task's check result is reported as: whether the account's
/// request succeeded, and the notification, if any. New mail is announced
/// with the emails found; a logged-out account, an account whose servers
/// cannot be reached, and any other failure each have their notification.
pub open spec fn task_report_spec(email: String, backend: String, result: BackendResult<NewEmailReply>) -> (
    bool,
    Seq<Notification>,
) {
    match result {
        Ok(check) => (
            true,
            if check.emails@.len() > 0 {
                seq![Notification::NewEmail { account: email, backend, emails: check.emails }]
            } else {
                seq![]
            },
        ),
        Err(e) => (
            false,
            match e {
                BackendError::LoggedOut => seq![Notification::AccountLoggedOut(email)],
                BackendError::Timeout(_) | BackendError::Connection(_) => seq![
                    Notification::AccountOffline(email),
                ],
                _ => seq![Notification::AccountError(email, AccountError::Backend(e))],
            },
        ),
    }
}

/// Report a task's check result; see [`task_report_spec`].
pub fn task_report(email: &String, backend: &String, result: BackendResult<NewEmailReply>) -> (r: (
    bool,
    Vec<Notification>,
))
    ensures
        (r.0, r.1@) == task_report_spec(*email, *backend, result),
{
    let mut notes: Vec<Notification> = Vec::new();
    match result {
        Ok(check) => {
            if check.emails.len() > 0 {
                notes.push(
                    Notification::NewEmail {
                        account: email.clone(),
                        backend: backend.clone(),
                        emails: check.emails,
                    },
                );
            }
            (true, notes)
        },
        Err(e) => {
            let kind = e.error_kind();
            match kind {
                crate::backend::BackendErrorKind::LoggedOut => {
                    notes.push(Notification::AccountLoggedOut(email.clone()));
                },
                crate::backend::BackendErrorKind::Timeout | crate::backend::BackendErrorKind::Connection => {
                    notes.push(Notification::AccountOffline(email.clone()));
                },
                _ => {
                    notes.push(Notification::AccountError(email.clone(), AccountError::Backend(e)));
                },
            }
            (false, notes)
        },
    }
}

/// Law: a failed check is reported as not succeeded, with one notification
/// about the account: an account whose servers could not be reached (a
/// timeout or a failed connection) is offline, a logged-out account is
/// logged out, and any other failure is an error of the account that
/// carries the backend's error.
pub proof fn law_failed_check_report(email: String, backend: String, e: BackendError)
    ensures
        !task_report_spec(email, backend, Err(e)).0,
        crate::observer::worker::is_unreachable(e) ==> task_report_spec(email, backend, Err(e)).1 == seq![
            Notification::AccountOffline(email),
        ],
        e is LoggedOut ==> task_report_spec(email, backend, Err(e)).1 == seq![Notification::AccountLoggedOut(email)],
        !crate::observer::worker::is_unreachable(e) && !(e is LoggedOut) ==> task_report_spec(email, backend, Err(e)).1
            == seq![Notification::AccountError(email, AccountError::Backend(e))],
{
}

/// Law: a Proton request that failed is reported by what went wrong: one
/// that timed out or could not connect puts the account offline, and a
/// server answer with http code 401 logs it out; `b` is the backend error
/// the failure is turned into.
pub proof fn law_failed_request_reported(e: HttpError, b: BackendError, email: String, backend: String)
    requires
        b.kind() == http_error_kind(e),
    ensures
        e is Timeout || e is Connection ==> task_report_spec(email, backend, Err(b)) == (
            false,
            seq![Notification::AccountOffline(email)],
        ),
        (e matches HttpError::API(a) && a.http_code == 401) ==> task_report_spec(email, backend, Err(b)) == (
            false,
            seq![Notification::AccountLoggedOut(email)],
        ),
{
}

/// Law: a successful check is reported as succeeded; the emails found are
/// announced as new mail of the account, all of them, and a check that
/// found none is silent.
pub proof fn law_successful_check_report(email: String, backend: String, reply: NewEmailReply)
    ensures
        task_report_spec(email, backend, Ok(reply)).0,
        reply.emails@.len() == 0 ==> task_report_spec(email, backend, Ok(reply)).1 == Seq::<Notification>::empty(),
        reply.emails@.len() > 0 ==> task_report_spec(email, backend, Ok(reply)).1 == seq![
            (Notification::NewEmail { account: email, backend, emails: reply.emails }),
        ],
{
}

/// The record after storing, in order, the session data that tasks
/// refreshed: each (email, data) pair replaces the data of a recorded
/// account and is ignored for an email that is not recorded.
pub open spec fn refreshed_into(
    accounts: Map<Seq<char>, StoredAccountView>,
    refreshed: Seq<(Seq<char>, Seq<char>)>,
) -> Map<Seq<char>, StoredAccountView>
    decreases refreshed.len(),
{
    if refreshed.len() == 0 {
        accounts
    } else {
        let before = refreshed_into(accounts, refreshed.drop_last());
        let (email, data) = refreshed.last();
        if before.dom().contains(email) {
            before.insert(email, StoredAccountView { auth_refresher: Some(data), ..before[email] })
        } else {
            before
        }
    }
}

/// The views of a list of (email, data) pairs.
pub open spec fn pairs_view(v: Seq<(String, String)>) -> Seq<(Seq<char>, Seq<char>)> {
    v.map_values(|p: (String, String)| (p.0@, p.1@))
}

/// Store the session data that tasks refreshed during a round, in order;
/// see [`refreshed_into`]. The record is to be written out if any of it was
/// stored.
pub fn record_refreshed(config: &mut ConfigInner, refreshed: Vec<(String, String)>)
    requires
        old(config).wf(),
    ensures
        final(config).wf(),
        final(config).interval() == old(config).interval(),
        final(config).accounts() == refreshed_into(old(config).accounts(), pairs_view(refreshed@)),
        final(config).accounts().dom() == old(config).accounts().dom(),
        final(config).is_dirty() == (old(config).is_dirty() || exists|j: int|
            0 <= j < refreshed@.len() && old(config).accounts().dom().contains(#[trigger] refreshed@[j].0@)),
{
    let ghost all = pairs_view(refreshed@);
    let mut i: usize = 0;
    while i < refreshed.len()
        invariant
            config.wf(),
            i <= refreshed@.len(),
            all == pairs_view(refreshed@),
            config.interval() == old(config).interval(),
            config.accounts() == refreshed_into(old(config).accounts(), all.take(i as int)),
            config.accounts().dom() == old(config).accounts().dom(),
            config.is_dirty() == (old(config).is_dirty() || exists|j: int|
                0 <= j < i && old(config).accounts().dom().contains(#[trigger] refreshed@[j].0@)),
        decreases refreshed@.len() - i,
    {
        proof {
            assert(all.take(i + 1).drop_last() =~= all.take(i as int));
            assert(all.take(i + 1).last() == all[i as int]);
        }
        let ghost was_dirty = config.is_dirty();
        let (email, data) = &refreshed[i];
        config.account_refreshed(email, data.clone());
        proof {
            assert(config.accounts().dom() =~= old(config).accounts().dom());
            if old(config).accounts().dom().contains(refreshed@[i as int].0@) {
                assert(config.is_dirty());
            } else {
                assert(config.is_dirty() == was_dirty);
            }
            assert(config.is_dirty() == (old(config).is_dirty() || exists|j: int|
                0 <= j < i + 1 && old(config).accounts().dom().contains(#[trigger] refreshed@[j].0@))) by {
                if exists|j: int| 0 <= j < i + 1 && old(config).accounts().dom().contains(#[trigger] refreshed@[j].0@) {
                    let j = choose|j: int| 0 <= j < i + 1 && old(config).accounts().dom().contains(#[trigger] refreshed@[j].0@);
                    if j < i {
                        assert(exists|j2: int| 0 <= j2 < i && old(config).accounts().dom().contains(#[trigger] refreshed@[j2].0@));
                    }
                }
            }
        }
        i = i + 1;
    }
    proof {
        assert(all.take(all.len() as int) =~= all);
    }
}

/// What checking one account gave in a foreground poll: the result, whether
/// the account's session was refreshed, and the name of the account's
/// backend.
pub type TaskTrace = (BackendResult<NewEmailReply>, bool, String);

/// The notifications of a foreground poll over the first `k` accounts,
/// whose checks gave `trace`: each logged-in account's result is reported as
/// [`task_report_spec`] says; the others are passed over.
pub open spec fn poll_notes(
    emails: Seq<String>,
    kinds: Seq<AccountStateKind>,
    trace: Seq<TaskTrace>,
    k: nat,
) -> Seq<Notification>
    decreases k,
{
    if k == 0 {
        seq![]
    } else {
        let prev = poll_notes(emails, kinds, trace, (k - 1) as nat);
        let i = k - 1;
        if kinds[i] == AccountStateKind::LoggedIn {
            prev + task_report_spec(emails[i], trace[i].2, trace[i].0).1
        } else {
            prev
        }
    }
}

/// Whether `trace` fits a foreground poll over accounts with these emails,
/// states and backend names, and gives `notes`.
pub open spec fn poll_gives(
    emails: Seq<String>,
    kinds: Seq<AccountStateKind>,
    names: Seq<Seq<char>>,
    trace: Seq<TaskTrace>,
    notes: Seq<Notification>,
) -> bool {
    &&& trace.len() == kinds.len()
    &&& forall|j: int| 0 <= j < kinds.len() && kinds[j] == AccountStateKind::LoggedIn ==> (#[trigger] trace[j]).2@
        == names[j]
    &&& notes == poll_notes(emails, kinds, trace, kinds.len() as nat)
}

/// Whether every (email, data) pair was refreshed by one of the accounts,
/// with these emails and states, that was logged in and whose check, in
/// `trace`, reported its session refreshed.
pub open spec fn refreshed_by(
    emails: Seq<String>,
    kinds: Seq<AccountStateKind>,
    trace: Seq<TaskTrace>,
    pairs: Seq<(Seq<char>, Seq<char>)>,
) -> bool {
    forall|k: int| 0 <= k < pairs.len() ==> #[trigger] refreshed_account(emails, kinds, trace, pairs[k].0)
}

/// Whether the account with `email` was logged in and its check, in
/// `trace`, reported its session refreshed.
pub open spec fn refreshed_account(
    emails: Seq<String>,
    kinds: Seq<AccountStateKind>,
    trace: Seq<TaskTrace>,
    email: Seq<char>,
) -> bool {
    exists|j: int|
        0 <= j < kinds.len() && j < trace.len() && kinds[j] == AccountStateKind::LoggedIn && #[trigger] trace[j].1
            && emails[j]@ == email
}

/// Whether `data` is session data that `account`, logged in, may give.
pub open spec fn gives_session<B: Backend>(account: Account<B>, data: Seq<char>) -> bool {
    account.state_value() matches AccountState::LoggedIn(a) && exists|s: String|
        #[trigger] a.spec_auth_refresher_config(Ok(s)) && s@ == data
}

/// Whether one of the first `bound` accounts of `accounts` has `email` and
/// may give `data` as its session data.
pub open spec fn session_source<B: Backend>(accounts: Seq<Account<B>>, bound: int, email: Seq<char>, data: Seq<char>) -> bool {
    exists|j: int| 0 <= j < bound && j < accounts.len() && (#[trigger] accounts[j]).email_string()@ == email
        && gives_session(accounts[j], data)
}

/// Whether each (email, data) pair holds session data that the account with
/// that email, among `accounts`, may give.
pub open spec fn sessions_given<B: Backend>(accounts: Seq<Account<B>>, pairs: Seq<(Seq<char>, Seq<char>)>) -> bool {
    forall|k: int| 0 <= k < pairs.len() ==> #[trigger] session_source(accounts, accounts.len() as int, pairs[k].0, pairs[k].1)
}

/// A backend's answer as an account's answer.
pub open spec fn as_account_result<T>(r: BackendResult<T>) -> crate::account::AccountResult<T> {
    match r {
        Ok(v) => Ok(v),
        Err(e) => Err(AccountError::Backend(e)),
    }
}

/// Whether a foreground poll took the accounts `before` to `after` by the
/// checks in `trace`: each account that was not logged in is left as it
/// was, and each logged-in one was checked once and gave what its trace
/// entry holds.
pub open spec fn poll_checks<B: Backend>(before: Seq<Account<B>>, after: Seq<Account<B>>, trace: Seq<TaskTrace>) -> bool {
    &&& after.len() == before.len()
    &&& forall|j: int| 0 <= j < before.len() ==> #[trigger] polled_at(before, after, trace, j)
}

/// Whether the account at `j` was left as it was, if it was not logged in,
/// or was checked once and gave what `trace[j]` holds.
pub open spec fn polled_at<B: Backend>(before: Seq<Account<B>>, after: Seq<Account<B>>, trace: Seq<TaskTrace>, j: int) -> bool {
    if before[j].state_kind() == AccountStateKind::LoggedIn {
        before[j].check_outcome(after[j], (as_account_result(trace[j].0), trace[j].1))
    } else {
        after[j] == before[j]
    }
}

/// The emails of a list of accounts, as the strings they are kept in.
pub open spec fn account_email_strings<B: Backend>(s: Seq<Account<B>>) -> Seq<String> {
    s.map_values(|a: Account<B>| a.email_string())
}

/// The states of a list of accounts.
pub open spec fn account_kinds<B: Backend>(s: Seq<Account<B>>) -> Seq<AccountStateKind> {
    s.map_values(|a: Account<B>| a.state_kind())
}

/// The names of the backends of a list of accounts.
pub open spec fn account_backend_names<B: Backend>(s: Seq<Account<B>>) -> Seq<Seq<char>> {
    s.map_values(|a: Account<B>| a.backend_value().spec_name())
}

/// Check every logged-in account of `accounts`, in order: each check's
/// result is reported as [`task_report`] says, and the session data of each
/// account whose session was refreshed on the way is stored in `config`
/// afterwards. The accounts keep their emails and backends, and stay in
/// their order.
pub fn poll_inplace<B: Backend>(accounts: &mut Vec<Account<B>>, config: &mut ConfigInner) -> (r: Vec<Notification>)
    requires
        old(config).wf(),
    ensures
        final(config).wf(),
        account_emails(final(accounts)@) == account_emails(old(accounts)@),
        account_email_strings(final(accounts)@) == account_email_strings(old(accounts)@),
        account_backend_names(final(accounts)@) == account_backend_names(old(accounts)@),
        final(config).interval() == old(config).interval(),
        final(config).accounts().dom() == old(config).accounts().dom(),
        exists|trace: Seq<TaskTrace>, pairs: Seq<(Seq<char>, Seq<char>)>|
            #[trigger] poll_gives(
                account_email_strings(old(accounts)@),
                account_kinds(old(accounts)@),
                account_backend_names(old(accounts)@),
                trace,
                r@,
            ) && final(config).accounts() == #[trigger] refreshed_into(old(config).accounts(), pairs)
                && refreshed_by(account_email_strings(old(accounts)@), account_kinds(old(accounts)@), trace, pairs)
                && poll_checks(old(accounts)@, final(accounts)@, trace)
                && sessions_given(final(accounts)@, pairs),
{
    let mut notes: Vec<Notification> = Vec::new();
    let mut refreshed_data: Vec<(String, String)> = Vec::new();
    let ghost emails0 = account_email_strings(old(accounts)@);
    let ghost kinds0 = account_kinds(old(accounts)@);
    let ghost names0 = account_backend_names(old(accounts)@);
    let ghost views0 = account_emails(old(accounts)@);
    let ghost mut trace: Seq<TaskTrace> = Seq::empty();
    let n = accounts.len();
    let mut i: usize = 0;
    while i < n
        invariant
            n == accounts@.len(),
            i <= n,
            account_emails(accounts@) == views0,
            account_email_strings(accounts@) == emails0,
            account_backend_names(accounts@) == names0,
            *config == *old(config),
            kinds0.len() == n,
            forall|j: int| i <= j < n ==> account_kinds(accounts@)[j] == kinds0[j],
            trace.len() == i,
            forall|j: int| 0 <= j < i && kinds0[j] == AccountStateKind::LoggedIn ==> (#[trigger] trace[j]).2@
                == names0[j],
            notes@ == poll_notes(emails0, kinds0, trace, i as nat),
            refreshed_by(emails0, kinds0, trace, pairs_view(refreshed_data@)),
            forall|j: int| i <= j < n ==> accounts@[j] == old(accounts)@[j],
            forall|j: int| 0 <= j < i ==> #[trigger] polled_at(old(accounts)@, accounts@, trace, j),
            forall|k: int| 0 <= k < refreshed_data@.len() ==> #[trigger] session_source(
                accounts@,
                i as int,
                pairs_view(refreshed_data@)[k].0,
                pairs_view(refreshed_data@)[k].1,
            ),
        decreases n - i,
    {
        let ghost notes_before = notes@;
        proof {
            assert(account_kinds(accounts@)[i as int] == accounts@[i as int].state_kind());
            assert(account_email_strings(accounts@)[i as int] == accounts@[i as int].email_string());
            assert(account_backend_names(accounts@)[i as int] == accounts@[i as int].backend_value().spec_name());
        }
        if accounts[i].is_logged_in() {
            let ghost before = accounts@;
            let mut account = accounts.remove(i);
            proof {
                assert(account.state_kind() == AccountStateKind::LoggedIn);
            }
            let ghost acc0 = account;
            let ghost t_prev = trace;
            let (res, refreshed) = account.check();
            let ghost res0 = res;
            let result = match res {
                Ok(reply) => Ok(reply),
                Err(AccountError::Backend(e)) => Err(e),
                Err(e) => {
                    // A logged-in account fails its check only with a
                    // backend error.
                    proof {
                        assert(false);
                    }
                    Err(BackendError::Unknown(String::new()))
                },
            };
            let backend_name = account.backend().name();
            let ghost result_g = result;
            let (_, mut report) = task_report(account.email(), &backend_name, result);
            let ghost report_g = report@;
            notes.append(&mut report);
            let ghost before_data = refreshed_data@;
            if refreshed {
                if let Some(a) = account.get_impl() {
                    if let Ok(v) = crate::backend::Account::auth_refresher_config(a) {
                        proof {
                            assert(a.spec_auth_refresher_config(Ok(v)));
                            assert(gives_session(account, v@));
                        }
                        refreshed_data.push((account.email().clone(), v));
                    }
                }
            }
            proof {
                assert(account.email_string() == emails0[i as int]);
                assert(refreshed_data@.len() > before_data.len() ==> refreshed
                    && refreshed_data@.len() == before_data.len() + 1
                    && refreshed_data@.last().0@ == emails0[i as int]@);
                assert(refreshed_data@.len() <= before_data.len() ==> refreshed_data@ == before_data);
                assert(refreshed_data@.take(before_data.len() as int) =~= before_data);
                assert(refreshed_data@.len() > before_data.len() ==> gives_session(account, pairs_view(refreshed_data@).last().1)
                    && pairs_view(refreshed_data@).last().0 == account.email_string()@);
            }
            accounts.insert(i, account);
            proof {
                assert(accounts@ =~= before.update(i as int, account));
                assert(account_emails(accounts@) =~= account_emails(before));
                assert(account_email_strings(accounts@) =~= emails0);
                assert(account_backend_names(accounts@) =~= names0);
                let t2 = trace.push((result_g, refreshed, backend_name));
                assert(t2.take(i as int) =~= trace);
                assert(trace.take(i as int) =~= trace);
                lemma_poll_notes_prefix(emails0, kinds0, trace, t2, i as nat);
                assert(kinds0[i as int] == AccountStateKind::LoggedIn);
                assert forall|k: int| 0 <= k < pairs_view(refreshed_data@).len() implies #[trigger] refreshed_account(
                    emails0,
                    kinds0,
                    t2,
                    pairs_view(refreshed_data@)[k].0,
                ) by {
                    if k < before_data.len() {
                        assert(refreshed_data@[k] == refreshed_data@.take(before_data.len() as int)[k]);
                        assert(pairs_view(refreshed_data@)[k] == pairs_view(before_data)[k]);
                        assert(refreshed_account(emails0, kinds0, trace, pairs_view(before_data)[k].0));
                        let j = choose|j: int|
                            0 <= j < kinds0.len() && j < trace.len() && kinds0[j] == AccountStateKind::LoggedIn
                                && #[trigger] trace[j].1 && emails0[j]@ == pairs_view(before_data)[k].0;
                        assert(t2[j] == trace[j]);
                    } else {
                        assert(pairs_view(refreshed_data@)[k].0 == emails0[i as int]@);
                        assert(t2[i as int].1);
                    }
                }
                assert(refreshed_by(emails0, kinds0, t2, pairs_view(refreshed_data@)));
                trace = t2;
                assert forall|k: int| 0 <= k < refreshed_data@.len() implies #[trigger] session_source(
                    accounts@,
                    i + 1,
                    pairs_view(refreshed_data@)[k].0,
                    pairs_view(refreshed_data@)[k].1,
                ) by {
                    if k < before_data.len() {
                        assert(refreshed_data@[k] == refreshed_data@.take(before_data.len() as int)[k]);
                        assert(pairs_view(refreshed_data@)[k] == pairs_view(before_data)[k]);
                        assert(session_source(before, i as int, pairs_view(before_data)[k].0, pairs_view(before_data)[k].1));
                        let j = choose|j: int| 0 <= j < i && j < before.len()
                            && (#[trigger] before[j]).email_string()@ == pairs_view(before_data)[k].0
                            && gives_session(before[j], pairs_view(before_data)[k].1);
                        assert(accounts@[j] == before[j]);
                    } else {
                        assert(accounts@[i as int] == account);
                        assert(pairs_view(refreshed_data@)[k] == pairs_view(refreshed_data@).last());
                    }
                }
                assert(notes@ =~= notes_before + report_g);
                assert(acc0 == old(accounts)@[i as int]);
                assert(as_account_result(result_g) == res0);
                assert forall|j: int| 0 <= j < i + 1 implies #[trigger] polled_at(old(accounts)@, accounts@, trace, j) by {
                    if j < i {
                        assert(polled_at(old(accounts)@, before, t_prev, j));
                        assert(trace[j] == t_prev[j]);
                    }
                }
            }
        } else {
            proof {
                let t_prev = trace;
                let t2 = trace.push((Err(BackendError::LoggedOut), false, emails0[i as int]));
                assert(t2.take(i as int) =~= trace);
                assert(trace.take(i as int) =~= trace);
                lemma_poll_notes_prefix(emails0, kinds0, trace, t2, i as nat);
                assert forall|k: int| 0 <= k < pairs_view(refreshed_data@).len() implies #[trigger] refreshed_account(
                    emails0,
                    kinds0,
                    t2,
                    pairs_view(refreshed_data@)[k].0,
                ) by {
                    assert(refreshed_account(emails0, kinds0, trace, pairs_view(refreshed_data@)[k].0));
                    let j = choose|j: int|
                        0 <= j < kinds0.len() && j < trace.len() && kinds0[j] == AccountStateKind::LoggedIn
                            && #[trigger] trace[j].1 && emails0[j]@ == pairs_view(refreshed_data@)[k].0;
                    assert(t2[j] == trace[j]);
                }
                assert(refreshed_by(emails0, kinds0, t2, pairs_view(refreshed_data@)));
                trace = t2;
                assert forall|k: int| 0 <= k < refreshed_data@.len() implies #[trigger] session_source(
                    accounts@,
                    i + 1,
                    pairs_view(refreshed_data@)[k].0,
                    pairs_view(refreshed_data@)[k].1,
                ) by {
                    assert(session_source(accounts@, i as int, pairs_view(refreshed_data@)[k].0, pairs_view(refreshed_data@)[k].1));
                    let j = choose|j: int| 0 <= j < i && j < accounts@.len()
                        && (#[trigger] accounts@[j]).email_string()@ == pairs_view(refreshed_data@)[k].0
                        && gives_session(accounts@[j], pairs_view(refreshed_data@)[k].1);
                }
                assert forall|j: int| 0 <= j < i + 1 implies #[trigger] polled_at(old(accounts)@, accounts@, trace, j) by {
                    if j < i {
                        assert(polled_at(old(accounts)@, accounts@, t_prev, j));
                        assert(trace[j] == t_prev[j]);
                    }
                }
            }
        }
        i = i + 1;
    }
    proof {
        assert(poll_gives(emails0, kinds0, names0, trace, notes@));
    }
    let ghost pairs = pairs_view(refreshed_data@);
    record_refreshed(config, refreshed_data);
    proof {
        assert(refreshed_by(emails0, kinds0, trace, pairs));
        assert(poll_checks(old(accounts)@, accounts@, trace));
    }
    proof {
        assert(config.accounts() == refreshed_into(old(config).accounts(), pairs));
        assert forall|k: int| 0 <= k < pairs.len() implies #[trigger] session_source(
            accounts@,
            accounts@.len() as int,
            pairs[k].0,
            pairs[k].1,
        ) by {
            assert(session_source(accounts@, i as int, pairs[k].0, pairs[k].1));
        }
    }
    notes
}

/// A foreground poll over the first `k` accounts depends only on the first
/// `k` entries of the trace.
pub proof fn lemma_poll_notes_prefix(
    emails: Seq<String>,
    kinds: Seq<AccountStateKind>,
    t1: Seq<TaskTrace>,
    t2: Seq<TaskTrace>,
    k: nat,
)
    requires
        k <= t1.len(),
        k <= t2.len(),
        t1.take(k as int) == t2.take(k as int),
    ensures
        poll_notes(emails, kinds, t1, k) == poll_notes(emails, kinds, t2, k),
    decreases k,
{
    if k > 0 {
        assert(t1.take(k - 1) =~= t1.take(k as int).take(k - 1));
        assert(t2.take(k - 1) =~= t2.take(k as int).take(k - 1));
        lemma_poll_notes_prefix(emails, kinds, t1, t2, (k - 1) as nat);
        assert(t1[k - 1] == t1.take(k as int)[k - 1]);
        assert(t2[k - 1] == t2.take(k as int)[k - 1]);
    }
}

} // verus!
