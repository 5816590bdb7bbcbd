use std::sync::Arc;
use you_have_mail_common::account::{Account, AccountError};
use you_have_mail_common::backend::null::{new_backend, NullTestAccount};
use you_have_mail_common::backend::{BackendError, EmailInfo, NewEmailReply};
use you_have_mail_common::config::{ConfigJSON, ConfigJSONAccount};
use you_have_mail_common::observer::builder::load_accounts;
use you_have_mail_common::observer::config::{ConfigAuthRefresher, ConfigInner};
use you_have_mail_common::observer::poll::{record_refreshed, task_report};
use you_have_mail_common::observer::rpc::{send_failed, GetAccountList, ObserverRPCError, RemoveAccountRequest};
use you_have_mail_common::observer::worker::ObserverRequest;
use you_have_mail_common::observer::{Notification, ObserverAccountStatus};

fn null_backend() -> Arc<you_have_mail_common::backend::null::NullBackend> {
    new_backend(&vec![NullTestAccount {
        email: "foo".to_string(),
        password: "foo".to_string(),
        totp: None,
        wait_time: None,
        refresh: false,
    }])
}

#[test]
fn task_results_are_reported() {
    let email = "foo".to_string();
    let backend = "B".to_string();
    let (ok, notes) = task_report(&email, &backend, Ok(NewEmailReply { emails: vec![] }));
    assert!(ok);
    assert!(notes.is_empty());
    let (ok, notes) = task_report(
        &email,
        &backend,
        Ok(NewEmailReply {
            emails: vec![EmailInfo { sender: "s".to_string(), subject: "t".to_string() }],
        }),
    );
    assert!(ok);
    assert!(matches!(&notes[..], [Notification::NewEmail { account, emails, .. }] if account == "foo" && emails.len() == 1));
    let (ok, notes) = task_report(&email, &backend, Err(BackendError::LoggedOut));
    assert!(!ok);
    assert!(matches!(&notes[..], [Notification::AccountLoggedOut(e)] if e == "foo"));
    let (_, notes) = task_report(&email, &backend, Err(BackendError::Connection("c".to_string())));
    assert!(matches!(&notes[..], [Notification::AccountOffline(_)]));
    let (_, notes) = task_report(&email, &backend, Err(BackendError::API("a".to_string())));
    assert!(matches!(&notes[..], [Notification::AccountError(e, AccountError::Backend(BackendError::API(_)))] if e == "foo"));
}

#[test]
fn refreshed_session_data_is_recorded() {
    let backend = null_backend();
    let mut account = Account::new(backend, "foo".to_string(), None);
    account.login("foo").unwrap();
    let mut config = ConfigInner::fresh();
    config.add_or_update_account(&account).unwrap();
    config.mark_written();
    record_refreshed(&mut config, vec![("bar".to_string(), "x".to_string())]);
    assert!(!config.dirty());
    record_refreshed(
        &mut config,
        vec![("foo".to_string(), "first".to_string()), ("foo".to_string(), "second".to_string())],
    );
    assert!(config.dirty());
    let rec = config.get_account(&"foo".to_string()).unwrap();
    assert!(matches!(&rec.auth_refresher, ConfigAuthRefresher::Resolved(v) if v == "second"));
}

#[test]
fn accounts_come_back_from_the_record() {
    let backend = null_backend();
    let json = ConfigJSON {
        poll_interval: Some(30),
        accounts: vec![
            ConfigJSONAccount {
                email: "foo".to_string(),
                backend: "Null Backend".to_string(),
                value: Some("{\"email\":\"foo\",\"counter\":3}".to_string()),
                proxy: None,
            },
            ConfigJSONAccount {
                email: "bar".to_string(),
                backend: "Null Backend".to_string(),
                value: Some("not json".to_string()),
                proxy: None,
            },
            ConfigJSONAccount {
                email: "baz".to_string(),
                backend: "Gone Backend".to_string(),
                value: None,
                proxy: None,
            },
        ],
    };
    let config = ConfigInner::from_json(json);
    let (accounts, notes) = load_accounts(&vec![backend], &config);
    assert_eq!(accounts.len(), 2);
    assert_eq!(accounts[0].0.email(), "foo");
    assert!(accounts[0].1.is_some());
    assert_eq!(accounts[1].0.email(), "bar");
    assert!(accounts[1].1.is_none());
    assert!(accounts.iter().all(|(a, _)| a.is_logged_out()));
    assert_eq!(notes.len(), 2);
    assert!(notes.iter().any(|n| matches!(n, Notification::Error(m)
        if m == "Could not find backend Gone Backend for baz, account will not be added")));
    assert!(notes.iter().any(|n| matches!(n, Notification::Error(m) if m.starts_with("Failed to restore bar's form config: "))));
}

#[test]
fn requests_give_back_their_payload() {
    let request = RemoveAccountRequest { email: "foo".to_string() }
        .into_request::<you_have_mail_common::backend::null::NullBackend>();
    assert!(matches!(&request, ObserverRequest::RemoveAccount(e) if e == "foo"));
    let recovered = RemoveAccountRequest::recover_send_value(request);
    let err: ObserverRPCError<String, ()> = send_failed(recovered);
    assert!(matches!(err, ObserverRPCError::SendFailed(e) if e == "foo"));
    let other = RemoveAccountRequest::recover_send_value(
        GetAccountList {}.into_request::<you_have_mail_common::backend::null::NullBackend>(),
    );
    let err: ObserverRPCError<String, ()> = send_failed(other);
    assert!(matches!(err, ObserverRPCError::SendFailedUnexpectedType));
}

#[test]
fn status_text() {
    assert_eq!(ObserverAccountStatus::Offline.to_text(), "Offline");
    assert_eq!(ObserverAccountStatus::Online.to_text(), "Online");
    assert_eq!(ObserverAccountStatus::LoggedOut.to_text(), "LoggedOut");
    assert_eq!(ObserverAccountStatus::Error.to_text(), "Error Occurred");
}
