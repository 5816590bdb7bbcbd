use you_have_mail_common::account::Account;
use you_have_mail_common::backend::null::{new_backend, NullTestAccount};

#[test]
fn test_login_flow() {
    let accounts = NullTestAccount {
        email: "foo".to_string(),
        password: "bar".to_string(),
        totp: Some("1234".to_string()),
        wait_time: None,
        refresh: false,
    };
    let backend = new_backend(&vec![accounts]);

    let mut account = Account::new(backend, "foo".to_string(), None);
    account.login("b").expect_err("Account should not be logged in");

    account.login("bar").unwrap();
    assert!(!account.is_logged_out());
    assert!(!account.is_logged_in());
    assert!(account.is_awaiting_totp());

    account.submit_totp("foo").expect_err("Expected err");

    account.submit_totp("1234").unwrap();

    assert!(!account.is_logged_out());
    assert!(account.is_logged_in());
    assert!(!account.is_awaiting_totp());

    account.logout().unwrap();

    assert!(account.is_logged_out());
    assert!(!account.is_logged_in());
    assert!(!account.is_awaiting_totp());
}

#[test]
fn null_account_reports_one_new_email_per_check() {
    let backend = new_backend(&vec![NullTestAccount {
        email: "foo".to_string(),
        password: "foo".to_string(),
        totp: None,
        wait_time: None,
        refresh: false,
    }]);
    let mut account = Account::new(backend, "foo".to_string(), None);
    account.login("foo").unwrap();
    let (first, refreshed) = account.check();
    assert!(!refreshed);
    let first = first.unwrap();
    assert_eq!(first.emails.len(), 1);
    assert_eq!(first.emails[0].sender, "Null 1");
    assert_eq!(first.emails[0].subject, "Null Subject 1");
    let second = account.check().0.unwrap();
    assert_eq!(second.emails[0].sender, "Null 2");
}

#[test]
fn logged_out_account_cannot_check() {
    let backend = new_backend(&vec![]);
    let mut account = Account::new(backend, "foo".to_string(), None);
    assert!(account.check().0.is_err());
    assert!(account.logout().is_ok());
}
