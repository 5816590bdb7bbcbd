use std::sync::Arc;
use you_have_mail_common::account::Account;
use you_have_mail_common::backend::Account as BackendAccount;
use you_have_mail_common::backend::null::{new_backend, NullBackend, NullTestAccount};
use you_have_mail_common::observer::config::{ConfigAuthRefresher, ConfigInner};
use you_have_mail_common::observer::public::Observer;
use you_have_mail_common::observer::Notification;
use you_have_mail_common::{Proxy, ProxyProtocol};

fn new_backend_and_account() -> (Arc<NullBackend>, Account<NullBackend>) {
    new_backend_and_account_with(false)
}

fn new_backend_and_account_with(refresh: bool) -> (Arc<NullBackend>, Account<NullBackend>) {
    let accounts = NullTestAccount {
        email: "foo".to_string(),
        password: "bar".to_string(),
        totp: None,
        wait_time: None,
        refresh,
    };
    let backend = new_backend(&vec![accounts]);
    let mut account = Account::new(backend.clone(), "foo".to_string(), None);
    account.login("bar").unwrap();
    assert!(account.is_logged_in());
    (backend, account)
}

fn with_observer(backend: Arc<NullBackend>, poll_interval_secs: u64) -> Observer<NullBackend> {
    Observer::build(vec![backend], ConfigInner::fresh(), poll_interval_secs)
}

fn has_new_email_for(notes: &[Notification], email: &str) -> bool {
    notes.iter().any(|n| matches!(n, Notification::NewEmail { account, .. } if account == email))
}

#[test]
fn tests_notifier_called() {
    let (backend, account) = new_backend_and_account();
    let mut observer = with_observer(backend, 1);
    let (res, notes) = observer.add_account(account);
    res.unwrap_or_else(|_| panic!("failed to add"));
    assert!(matches!(&notes[..], [Notification::AccountAdded(e, _, None)] if e == "foo"));
    let notes = observer.poll_foreground();
    assert!(has_new_email_for(&notes, "foo"));
}

#[test]
fn tests_adding_account_after_logout_works() {
    let (backend, account) = new_backend_and_account();
    let (_, account2) = new_backend_and_account();
    let mut observer = with_observer(backend, 1);
    let (res, notes) = observer.add_account(account);
    assert!(res.is_ok());
    assert!(matches!(&notes[..], [Notification::AccountAdded(..)]));
    let (res, notes) = observer.logout_account(&"foo".to_string());
    assert!(res.is_ok());
    assert!(matches!(&notes[..], [Notification::AccountLoggedOut(e)] if e == "foo"));
    let (res, notes) = observer.add_account(account2);
    assert!(res.is_ok());
    assert!(matches!(&notes[..], [Notification::AccountOnline(e)] if e == "foo"));
    let notes = observer.poll_foreground();
    assert!(has_new_email_for(&notes, "foo"));
}

#[test]
fn tests_removing_account_produces_remove_notification() {
    let (backend, account) = new_backend_and_account();
    let mut observer = with_observer(backend, 1);
    let (_, added) = observer.add_account(account);
    assert!(matches!(&added[..], [Notification::AccountAdded(..)]));
    let (res, notes) = observer.remove_account(&"foo".to_string());
    assert!(res.is_ok());
    assert!(matches!(&notes[..], [Notification::AccountRemoved(e)] if e == "foo"));
    assert!(observer.is_empty());
    assert!(observer.config().get_account(&"foo".to_string()).is_none());
}

#[test]
fn tests_test_proxy_settings() {
    // Apply the same proxy twice in a row and then remove it.
    let (backend, account) = new_backend_and_account();
    let mut observer = with_observer(backend, 1);
    let proxy = Proxy {
        protocol: ProxyProtocol::Https,
        auth: None,
        url: "127.0.0.1".into(),
        port: 1080,
    };
    let (_, added) = observer.add_account(account);
    assert!(matches!(&added[..], [Notification::AccountAdded(..)]));
    let (res, notes) = observer.set_proxy_settings(&"foo".to_string(), Some(proxy.clone()));
    assert!(matches!(res, Ok(true)));
    assert!(matches!(&notes[..], [Notification::ProxyApplied(_, Some(_))]));
    let (res, notes) = observer.set_proxy_settings(&"foo".to_string(), Some(proxy.clone()));
    assert!(matches!(res, Ok(false)));
    assert!(notes.is_empty());
    let (res, notes) = observer.set_proxy_settings(&"foo".to_string(), None);
    assert!(matches!(res, Ok(true)));
    assert!(matches!(&notes[..], [Notification::ProxyApplied(_, None)]));
    let notes = observer.poll_foreground();
    assert!(has_new_email_for(&notes, "foo"));
}

#[test]
fn public_observer_keeps_its_record() {
    let (backend, account) = new_backend_and_account();
    let mut observer = with_observer(backend.clone(), 20);
    assert_eq!(observer.get_poll_interval(), 20);
    observer.set_poll_interval(30);
    assert_eq!(observer.get_poll_interval(), 30);
    let _ = observer.add_account(account);
    let rec = observer.config().get_account(&"foo".to_string()).unwrap();
    assert!(matches!(rec.auth_refresher, ConfigAuthRefresher::Resolved(_)));
    let _ = observer.logout_account(&"foo".to_string());
    let rec = observer.config().get_account(&"foo".to_string()).unwrap();
    assert!(matches!(rec.auth_refresher, ConfigAuthRefresher::Absent));
    assert!(observer.get_account(&"foo".to_string()).unwrap().is_logged_out());
    assert!(observer.backend_by_name(&"Null Backend".to_string()).is_some());
    assert!(observer.backend_by_name(&"Other".to_string()).is_none());
    assert!(observer.logout_account(&"bar".to_string()).0.is_err());
    assert!(observer.remove_account(&"bar".to_string()).0.is_err());
}

#[test]
fn test_account_refreshed() {
    let (backend, account) = new_backend_and_account_with(true);
    let mut observer = with_observer(backend, 10);
    let account_refresh_data_start = account
        .get_impl()
        .expect("invalid state")
        .auth_refresher_config()
        .expect("failed to serialize");
    let (res, notes) = observer.add_account(account);
    assert!(res.is_ok());
    assert!(matches!(&notes[..], [Notification::AccountAdded(..)]));
    let notes = observer.poll_foreground();
    assert!(has_new_email_for(&notes, "foo"));
    let cfg_account = observer
        .config()
        .get_account(&"foo".to_string())
        .expect("failed to locate account");
    let ConfigAuthRefresher::Resolved(value) = &cfg_account.auth_refresher else {
        panic!("unexpected state");
    };
    let account_refresh_data_current = observer
        .get_account(&"foo".to_string())
        .expect("Failed to locate account")
        .get_impl()
        .expect("invalid state")
        .auth_refresher_config()
        .expect("failed to serialize");
    assert_ne!(&account_refresh_data_start, value);
    assert_eq!(&account_refresh_data_current, value);
}

#[test]
fn public_observer_keeps_record_without_refresh() {
    let (backend, account) = new_backend_and_account();
    let mut observer = with_observer(backend, 10);
    let _ = observer.add_account(account);
    let before = observer.config().get_account(&"foo".to_string()).unwrap();
    let before = match &before.auth_refresher {
        ConfigAuthRefresher::Resolved(v) => v.clone(),
        ConfigAuthRefresher::Absent => panic!("unexpected state"),
    };
    let _ = observer.poll_foreground();
    let after = observer.config().get_account(&"foo".to_string()).unwrap();
    assert!(matches!(&after.auth_refresher, ConfigAuthRefresher::Resolved(v) if *v == before));
}
