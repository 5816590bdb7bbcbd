use std::cell::Cell;
use std::rc::Rc;
use std::sync::Arc;
use you_have_mail_common::account::Account;
use you_have_mail_common::backend::{
    Account as BackendAccount, AccountState, AuthRefresher, AwaitTotp, Backend, BackendError,
    BackendResult, EmailInfo, NewEmailReply,
};
use you_have_mail_common::observer::worker::{poll_outcome, ObserverReply, ObserverRequest, Worker};
use you_have_mail_common::observer::{Notification, ObserverAccountStatus, ObserverError};
use you_have_mail_common::Proxy;

/// An account whose checks give, in order, the results it was given.
struct ScriptAccount {
    results: Vec<(BackendResult<NewEmailReply>, bool)>,
    calls: Rc<Cell<usize>>,
}

impl ScriptAccount {
    fn new(results: Vec<(BackendResult<NewEmailReply>, bool)>) -> Self {
        ScriptAccount { results, calls: Rc::new(Cell::new(0)) }
    }
}

impl BackendAccount for ScriptAccount {
    fn check(&mut self) -> (BackendResult<NewEmailReply>, bool) {
        assert!(!self.results.is_empty(), "unexpected check");
        self.calls.set(self.calls.get() + 1);
        self.results.remove(0)
    }

    fn logout(&mut self) -> BackendResult<()> {
        Ok(())
    }

    fn set_proxy(&mut self, _proxy: Option<&Proxy>) -> BackendResult<()> {
        Ok(())
    }

    fn auth_refresher_config(&self) -> Result<String, String> {
        Ok("{}".to_string())
    }
}

struct ScriptTotp;

impl AwaitTotp for ScriptTotp {
    type Account = ScriptAccount;

    fn submit_totp(self, _totp: &str) -> Result<ScriptAccount, (Self, BackendError)> {
        Ok(ScriptAccount::new(Vec::new()))
    }
}

struct ScriptRefresher;

impl AuthRefresher for ScriptRefresher {
    type Account = ScriptAccount;
    type Totp = ScriptTotp;

    fn refresh(self, _proxy: Option<&Proxy>) -> Result<AccountState<ScriptAccount, ScriptTotp>, BackendError> {
        Ok(AccountState::LoggedIn(ScriptAccount::new(Vec::new())))
    }
}

struct ScriptBackend;

impl Backend for ScriptBackend {
    type Account = ScriptAccount;
    type Totp = ScriptTotp;
    type Refresher = ScriptRefresher;

    fn name(&self) -> String {
        "Script".to_string()
    }

    fn description(&self) -> String {
        "Scripted checks".to_string()
    }

    fn login(
        &self,
        _username: &str,
        _password: &str,
        _proxy: Option<&Proxy>,
    ) -> BackendResult<AccountState<ScriptAccount, ScriptTotp>> {
        Err(BackendError::Unknown("no login".to_string()))
    }

    fn check_proxy(&self, _proxy: &Proxy) -> BackendResult<()> {
        Ok(())
    }

    fn auth_refresher_from_config(&self, _value: &str) -> Result<ScriptRefresher, String> {
        Ok(ScriptRefresher)
    }
}

fn offline() -> (BackendResult<NewEmailReply>, bool) {
    (Err(BackendError::Timeout("offline".to_string())), false)
}

fn one_email(refreshed: bool) -> (BackendResult<NewEmailReply>, bool) {
    (
        Ok(NewEmailReply {
            emails: vec![EmailInfo {
                sender: "Foo".to_string(),
                subject: "Bar".to_string(),
            }],
        }),
        refreshed,
    )
}

fn worker_with(results: Vec<(BackendResult<NewEmailReply>, bool)>) -> Worker<ScriptBackend> {
    worker_counting(results).0
}

/// A worker watching "foo", whose checks give `results`, and the number of
/// checks made so far.
fn worker_counting(results: Vec<(BackendResult<NewEmailReply>, bool)>) -> (Worker<ScriptBackend>, Rc<Cell<usize>>) {
    let script = ScriptAccount::new(results);
    let calls = script.calls.clone();
    let account = Account::with_state(
        Arc::new(ScriptBackend),
        "foo".to_string(),
        AccountState::LoggedIn(script),
        None,
    );
    let mut worker = Worker::new(1);
    let (res, notes) = worker.add_account(account);
    assert!(res.is_ok());
    assert_eq!(notes.len(), 1);
    assert!(matches!(&notes[0], Notification::AccountAdded(e, b, None) if e == "foo" && b == "Script"));
    (worker, calls)
}

fn count(notes: &[Notification], f: fn(&Notification) -> bool) -> usize {
    notes.iter().filter(|n| f(n)).count()
}

#[test]
fn worker_notifies_offline_only_once() {
    let (mut worker, calls) = worker_counting(vec![offline(), offline(), offline(), offline()]);

    // Poll account multiple times
    let mut all = Vec::new();
    all.extend(worker.poll_accounts());
    all.extend(worker.poll_accounts());
    all.extend(worker.poll_accounts());
    all.extend(worker.poll_accounts());
    assert_eq!(all.len(), 1);
    assert!(matches!(&all[0], Notification::AccountOffline(e) if e == "foo"));
    assert_eq!(calls.get(), 4);
}

#[test]
fn worker_notifies_offline_only_once_and_continues_once_account_comes_online() {
    let mut worker = worker_with(vec![offline(), offline(), one_email(false)]);

    // First two are offline
    let first = worker.poll_accounts();
    let second = worker.poll_accounts();
    // Last one should be online
    let third = worker.poll_accounts();
    assert_eq!(first.len(), 1);
    assert!(matches!(&first[0], Notification::AccountOffline(_)));
    assert!(second.is_empty());
    assert_eq!(third.len(), 2);
    assert!(matches!(&third[0], Notification::AccountOnline(e) if e == "foo"));
    assert!(matches!(&third[1], Notification::NewEmail { account, backend, emails }
        if account == "foo" && backend == "Script" && emails.len() == 1 && emails[0].sender == "Foo"));
}

#[test]
fn worker_notifies_logged_out_only_once_and_continues_offline() {
    let (mut worker, calls) = worker_counting(vec![(Err(BackendError::LoggedOut), false)]);

    // First call puts the account in logged out mode.
    let first = worker.poll_accounts();
    assert_eq!(first.len(), 1);
    assert!(matches!(&first[0], Notification::AccountLoggedOut(e) if e == "foo"));
    // Next calls are noop: the account is not checked again.
    assert!(worker.poll_accounts().is_empty());
    assert!(worker.poll_accounts().is_empty());
    assert_eq!(calls.get(), 1);
}

#[test]
fn worker_notifies_account_refresh() {
    let mut worker = worker_with(vec![
        (Err(BackendError::Unknown("error".to_string())), true),
        one_email(true),
    ]);
    let first = worker.poll_accounts();
    assert_eq!(first.len(), 2);
    assert!(matches!(&first[0], Notification::AccountError(e, _) if e == "foo"));
    assert!(matches!(&first[1], Notification::AccountTokenRefresh(e) if e == "foo"));
    let second = worker.poll_accounts();
    assert_eq!(second.len(), 3);
    assert!(matches!(&second[0], Notification::AccountOnline(_)));
    assert!(matches!(&second[1], Notification::NewEmail { .. }));
    assert!(matches!(&second[2], Notification::AccountTokenRefresh(_)));
    assert_eq!(count(&second, |n| matches!(n, Notification::AccountError(..))), 0);
}

#[test]
fn paused_worker_does_not_poll() {
    let (mut worker, calls) = worker_counting(vec![]);
    let (exit, reply, notes) = worker.handle_request(ObserverRequest::Pause);
    assert!(!exit);
    assert!(matches!(reply, ObserverReply::Nothing));
    assert!(notes.is_empty());
    assert!(worker.poll_accounts().is_empty());
    assert_eq!(calls.get(), 0);
    let (exit, _, _) = worker.handle_request(ObserverRequest::Resume);
    assert!(!exit);
    assert!(!worker.paused());
}

#[test]
fn observer_tests_adding_account_with_same_email_twice_is_error() {
    let mut worker = worker_with(vec![]);
    let again = Account::with_state(
        Arc::new(ScriptBackend),
        "foo".to_string(),
        AccountState::LoggedIn(ScriptAccount::new(vec![])),
        None,
    );
    let (res, notes) = worker.add_account(again);
    assert!(matches!(res, Err(ObserverError::AccountAlreadyActive(_))));
    assert!(notes.is_empty());
}

#[test]
fn worker_adding_account_after_logout_works() {
    let mut worker = worker_with(vec![]);
    let (res, notes) = worker.logout_account("foo".to_string());
    assert!(res.is_ok());
    assert_eq!(notes.len(), 1);
    assert!(matches!(&notes[0], Notification::AccountLoggedOut(e) if e == "foo"));
    let again = Account::with_state(
        Arc::new(ScriptBackend),
        "foo".to_string(),
        AccountState::LoggedIn(ScriptAccount::new(vec![one_email(false)])),
        None,
    );
    let (res, notes) = worker.add_account(again);
    assert!(res.is_ok());
    assert_eq!(notes.len(), 1);
    assert!(matches!(&notes[0], Notification::AccountOnline(e) if e == "foo"));
}

#[test]
fn worker_removing_account_produces_remove_notification() {
    let mut worker = worker_with(vec![]);
    let (res, notes) = worker.remove_account("foo".to_string());
    assert!(res.is_ok());
    assert_eq!(notes.len(), 1);
    assert!(matches!(&notes[0], Notification::AccountRemoved(e) if e == "foo"));
    assert!(worker.get_accounts().is_empty());
    let (res, notes) = worker.remove_account("foo".to_string());
    assert!(res.is_ok());
    assert!(notes.is_empty());
}

#[test]
fn worker_poll_interval_requests() {
    let mut worker = worker_with(vec![]);
    assert_eq!(worker.get_poll_interval(), 1);
    let (_, reply, _) = worker.handle_request(ObserverRequest::SetPollInterval(20));
    assert!(matches!(reply, ObserverReply::Nothing));
    let (_, reply, _) = worker.handle_request(ObserverRequest::GetPollInterval);
    assert!(matches!(reply, ObserverReply::PollInterval(20)));
}

#[test]
fn worker_proxy_settings() {
    let mut worker = worker_with(vec![]);
    let proxy = Proxy {
        protocol: you_have_mail_common::ProxyProtocol::Socks5,
        auth: None,
        url: "127.0.0.1".to_string(),
        port: 1080,
    };
    let (res, notes) = worker.apply_proxy("foo".to_string(), Some(proxy.clone()));
    assert!(res.is_ok());
    assert_eq!(notes.len(), 1);
    assert!(matches!(&notes[0], Notification::ProxyApplied(e, Some(_)) if e == "foo"));
    let got = worker.get_proxy("foo".to_string());
    assert!(matches!(got, Ok(Some(p)) if p == proxy));
    // The same proxy again changes nothing.
    let (res, notes) = worker.apply_proxy("foo".to_string(), Some(proxy));
    assert!(res.is_ok());
    assert!(notes.is_empty());
    let (res, _) = worker.apply_proxy("bar".to_string(), None);
    assert!(matches!(res, Err(ObserverError::NoSuchAccount(e)) if e == "bar"));
}

#[test]
fn worker_exit_request() {
    let mut worker = worker_with(vec![]);
    let (exit, reply, notes) = worker.handle_request(ObserverRequest::Exit);
    assert!(exit);
    assert!(matches!(reply, ObserverReply::Nothing));
    assert!(notes.is_empty());
}

#[test]
fn poll_outcome_offline_then_silent() {
    let email = "foo".to_string();
    let backend = "B".to_string();
    let out = poll_outcome(
        ObserverAccountStatus::Online,
        Err(you_have_mail_common::account::AccountError::Backend(BackendError::Connection("x".to_string()))),
        false,
        &email,
        &backend,
    );
    assert_eq!(out.status, ObserverAccountStatus::Offline);
    assert_eq!(out.notifications.len(), 1);
    let again = poll_outcome(
        out.status,
        Err(you_have_mail_common::account::AccountError::Backend(BackendError::Timeout("x".to_string()))),
        false,
        &email,
        &backend,
    );
    assert_eq!(again.status, ObserverAccountStatus::Offline);
    assert!(again.notifications.is_empty());
}

#[test]
fn poll_round_goes_on_past_an_account_still_offline() {
    let mut worker = worker_with(vec![offline(), offline()]);
    let second = Account::with_state(
        Arc::new(ScriptBackend),
        "bar".to_string(),
        AccountState::LoggedIn(ScriptAccount::new(vec![one_email(false), one_email(false)])),
        None,
    );
    let (res, _) = worker.add_account(second);
    assert!(res.is_ok());
    let first = worker.poll_accounts();
    assert_eq!(first.len(), 2);
    assert!(matches!(&first[0], Notification::AccountOffline(e) if e == "foo"));
    assert!(matches!(&first[1], Notification::NewEmail { account, .. } if account == "bar"));
    // "foo" is still offline and silent; "bar" is still checked.
    let again = worker.poll_accounts();
    assert_eq!(again.len(), 1);
    assert!(matches!(&again[0], Notification::NewEmail { account, .. } if account == "bar"));
}

#[test]
fn worker_logout_request_is_announced() {
    let mut worker = worker_with(vec![]);
    let (exit, reply, notes) = worker.handle_request(ObserverRequest::LogoutAccount("foo".to_string()));
    assert!(!exit);
    assert!(matches!(reply, ObserverReply::Done(Ok(()))));
    assert_eq!(notes.len(), 1);
    assert!(matches!(&notes[0], Notification::AccountLoggedOut(e) if e == "foo"));
    let accounts = worker.get_accounts();
    assert_eq!(accounts[0].status, ObserverAccountStatus::LoggedOut);
    let (_, reply, notes) = worker.handle_request(ObserverRequest::LogoutAccount("bar".to_string()));
    assert!(matches!(reply, ObserverReply::Done(Err(ObserverError::NoSuchAccount(e))) if e == "bar"));
    assert!(notes.is_empty());
}

#[test]
fn observer_tests_test_get_set_poll_interval() {
    let start_poll_interval = 10u64;
    let mut worker: Worker<ScriptBackend> = Worker::new(start_poll_interval);
    let (_, reply, _) = worker.handle_request(ObserverRequest::GetPollInterval);
    assert!(matches!(reply, ObserverReply::PollInterval(v) if v == start_poll_interval));
    let new_poll_interval = 20_000u64;
    worker.handle_request(ObserverRequest::SetPollInterval(new_poll_interval));
    let (_, reply, _) = worker.handle_request(ObserverRequest::GetPollInterval);
    assert!(matches!(reply, ObserverReply::PollInterval(v) if v == new_poll_interval));
}

#[test]
fn worker_generates_its_config() {
    let worker = worker_with(vec![]);
    let config = worker.gen_config().unwrap_or_else(|_| panic!("failed to generate"));
    assert_eq!(config.accounts.len(), 1);
    assert_eq!(config.accounts[0].email, "foo");
    assert_eq!(config.accounts[0].backend, "Script");
    assert_eq!(config.accounts[0].value.as_deref(), Some("{}"));
    let empty: Worker<ScriptBackend> = Worker::new(5000);
    let config = empty.gen_config().unwrap_or_else(|_| panic!("failed to generate"));
    assert!(config.accounts.is_empty());
    assert_eq!(config.poll_interval, Some(5));
}
