use you_have_mail_common::encryption::EncryptionKey;
use you_have_mail_common::mobile::android::AndroidState;
use you_have_mail_common::mobile::errors::{ConfigError, ServiceError};
use you_have_mail_common::mobile::events::Action;
use you_have_mail_common::mobile::service::{
    migrate_config_bytes, service_key, AutoPoller, AutoPollerMessage, AutoPollerStep, AutoPollerWait,
};
use you_have_mail_common::mobile::yhm::{new_encryption_key, Yhm, YhmError};
use you_have_mail_common::account::AccountError;
use you_have_mail_common::api::{HumanVerification, VerificationType};
use you_have_mail_common::backend::BackendError;
use you_have_mail_common::mobile::errors::RequestErrorCategory;
use you_have_mail_common::mobile::proton::{ProtonHumanVerification, ProtonHumanVerificationType};
use you_have_mail_common::observer::ObserverError;
use you_have_mail_common::backend::null::{new_backend, NullTestAccount};
use you_have_mail_common::backend::EmailInfo;
use you_have_mail_common::mobile::notify::{callback_of, Callback};
use you_have_mail_common::observer::Notification;

#[test]
fn action_round_trip() {
    let a = Action::with("{\"id\":1}".to_string());
    assert_eq!(a.take(), "{\"id\":1}");
}

#[test]
fn new_encryption_key_is_a_valid_key() {
    let text = new_encryption_key();
    assert_eq!(text.len(), 44);
    let key = EncryptionKey::with_base64(&text).unwrap();
    assert_eq!(key.to_base64(), text);
    assert!(service_key(&text).is_ok());
}

#[test]
fn invalid_service_key_is_a_crypto_error() {
    assert!(matches!(
        service_key("short"),
        Err(ServiceError::Config { error: ConfigError::Crypto { .. } })
    ));
    assert!(matches!(
        migrate_config_bytes("short", "{}"),
        Err(ServiceError::Config { error: ConfigError::Crypto { msg } }) if msg.starts_with("Invalid crypto key:")
    ));
}

#[test]
fn migrated_config_decrypts_to_the_old_config() {
    let text = new_encryption_key();
    let key = EncryptionKey::with_base64(&text).unwrap();
    let bytes = migrate_config_bytes(&text, "{\"accounts\":[]}").unwrap();
    let plain = you_have_mail_common::encryption::decrypt(&key, &bytes).unwrap();
    assert_eq!(plain, b"{\"accounts\":[]}".to_vec());
    assert!(migrate_config_bytes(&text, "").is_err());
}

#[test]
fn auto_poller_steps() {
    let mut p = AutoPoller::new();
    assert_eq!(p.next_step(), AutoPollerStep::WaitForMessage);
    p.on_wait(AutoPollerWait::Message(AutoPollerMessage::Resume));
    assert_eq!(p.next_step(), AutoPollerStep::PollThenWait);
    p.on_wait(AutoPollerWait::Timeout);
    assert_eq!(p.next_step(), AutoPollerStep::PollThenWait);
    p.on_wait(AutoPollerWait::Message(AutoPollerMessage::Pause));
    assert_eq!(p.next_step(), AutoPollerStep::WaitForMessage);
    p.on_wait(AutoPollerWait::Message(AutoPollerMessage::Quit));
    assert_eq!(p.next_step(), AutoPollerStep::Stop);
    let mut q = AutoPoller::new();
    q.on_wait(AutoPollerWait::Message(AutoPollerMessage::Resume));
    q.on_wait(AutoPollerWait::Disconnected);
    assert_eq!(q.next_step(), AutoPollerStep::Stop);
}

#[test]
fn yhm_android_ids_and_interval() {
    let key = new_encryption_key();
    let mut yhm = Yhm::new(&key, AndroidState::new(), 300).unwrap();
    assert_eq!(yhm.poll_interval().unwrap(), 300);
    yhm.set_poll_interval(60).unwrap();
    assert_eq!(yhm.poll_interval().unwrap(), 60);
    let ids = yhm.android_get_or_create_notification_ids("foo").unwrap();
    assert_eq!(ids.group, 100);
    assert_eq!(yhm.android_next_mail_notification_id("foo").unwrap(), 1);
    assert!(matches!(Yhm::new("bad key", AndroidState::new(), 300), Err(YhmError::State(_))));
}


#[test]
fn backend_errors_become_service_errors() {
    assert!(matches!(ServiceError::from_backend(BackendError::LoggedOut), ServiceError::LoggedOut));
    // A timeout is reported as a connection failure.
    assert!(matches!(
        ServiceError::from_backend(BackendError::Timeout("t".to_string())),
        ServiceError::RequestError { category: RequestErrorCategory::Connection, msg } if msg == "t"
    ));
    assert!(matches!(
        ServiceError::from_backend(BackendError::API("a".to_string())),
        ServiceError::RequestError { category: RequestErrorCategory::API, .. }
    ));
    assert!(matches!(
        ServiceError::from_account(AccountError::InvalidState),
        ServiceError::InvalidAccountState
    ));
    assert!(matches!(ServiceError::from_account(AccountError::Proxy), ServiceError::ProxyError));
    let e: ObserverError<you_have_mail_common::backend::null::NullBackend> =
        ObserverError::NoSuchAccount("foo".to_string());
    assert!(matches!(ServiceError::from_observer(e), ServiceError::AccountNotFound { email } if email == "foo"));
}

#[test]
fn human_verification_kinds() {
    let hv = ProtonHumanVerification::from_human_verification(HumanVerification {
        token: "tok".to_string(),
        methods: vec![VerificationType::Captcha, VerificationType::Email, VerificationType::Sms],
    });
    assert_eq!(hv.token, "tok");
    assert_eq!(
        hv.methods,
        vec![
            ProtonHumanVerificationType::Captcha,
            ProtonHumanVerificationType::Email,
            ProtonHumanVerificationType::Sms
        ]
    );
    // Email and sms are exchanged on the way back.
    assert_eq!(ProtonHumanVerificationType::Email.to_verification_type(), VerificationType::Sms);
    assert_eq!(ProtonHumanVerificationType::Sms.to_verification_type(), VerificationType::Email);
    assert_eq!(ProtonHumanVerificationType::Captcha.to_text(), "Captcha");
}

#[test]
fn observed_accounts_as_the_mobile_application_shows_them() {
    let backend = new_backend(&vec![NullTestAccount {
        email: "foo".to_string(),
        password: "foo".to_string(),
        totp: None,
        wait_time: None,
        refresh: false,
    }]);
    let mut account = you_have_mail_common::account::Account::new(backend.clone(), "foo".to_string(), None);
    let shown = you_have_mail_common::mobile::service::observed_account(&account);
    assert_eq!(shown.status, you_have_mail_common::mobile::service::ObserverAccountStatus::LoggedOut);
    account.login("foo").unwrap();
    let shown = you_have_mail_common::mobile::service::observed_account(&account);
    assert_eq!(shown.status, you_have_mail_common::mobile::service::ObserverAccountStatus::Online);
    assert_eq!(shown.backend, "Null Backend");
    assert!(you_have_mail_common::mobile::service::check_proxy(backend.as_ref(), None).is_ok());
}

#[test]
fn notifications_reach_their_callbacks() {
    let n = Notification::NewEmail {
        account: "foo".to_string(),
        backend: "B".to_string(),
        emails: vec![
            EmailInfo { sender: "a".to_string(), subject: "x".to_string() },
            EmailInfo { sender: "b".to_string(), subject: "y".to_string() },
        ],
    };
    assert!(matches!(callback_of(n), Some(Callback::NewEmail { account, backend, count: 2 })
        if account == "foo" && backend == "B"));
    assert!(callback_of(Notification::Error("e".to_string())).is_none());
    assert!(matches!(
        callback_of(Notification::AccountError("foo".to_string(), AccountError::Backend(BackendError::LoggedOut))),
        Some(Callback::AccountError(e, ServiceError::LoggedOut)) if e == "foo"
    ));
    assert!(matches!(
        callback_of(Notification::AccountTokenRefresh("foo".to_string())),
        Some(Callback::AccountTokenRefreshed(e)) if e == "foo"
    ));
}

#[test]
fn service_key_errors_say_why() {
    assert!(matches!(
        service_key("not base64!"),
        Err(ServiceError::Config { error: ConfigError::Crypto { msg } }) if msg.starts_with("Failed to decode base64: ") && msg.len() > "Failed to decode base64: ".len()
    ));
    assert!(matches!(
        service_key("AAAA"),
        Err(ServiceError::Config { error: ConfigError::Crypto { msg } }) if msg == "Invalid Key bytes"
    ));
    assert!(matches!(
        migrate_config_bytes("AAAA", "{}"),
        Err(ServiceError::Config { error: ConfigError::Crypto { msg } }) if msg == "Invalid crypto key:Invalid Key bytes"
    ));
    let text = new_encryption_key();
    assert!(matches!(
        migrate_config_bytes(&text, ""),
        Err(ServiceError::Config { error: ConfigError::Crypto { msg } }) if msg == "Empty data"
    ));
}

#[test]
fn proxy_checks_are_answered() {
    assert!(you_have_mail_common::mobile::service::proxy_check_reply(Ok(())).is_ok());
    assert!(matches!(
        you_have_mail_common::mobile::service::proxy_check_reply(Err(BackendError::Connection("refused".to_string()))),
        Err(ServiceError::ProxyError)
    ));
    let backend = new_backend(&vec![]);
    let proxy = you_have_mail_common::Proxy {
        protocol: you_have_mail_common::ProxyProtocol::Socks5,
        auth: None,
        url: "127.0.0.1".to_string(),
        port: 1080,
    };
    assert!(you_have_mail_common::mobile::service::check_proxy(backend.as_ref(), Some(proxy)).is_ok());
}
