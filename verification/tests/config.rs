use you_have_mail_common::account::Account;
use you_have_mail_common::backend::null::{new_backend, NullTestAccount};
use you_have_mail_common::backend::Backend;
use you_have_mail_common::config::{Config, ConfigJSON, ConfigJSONAccount, DEFAULT_POLL_INTERVAL_SECS};
use you_have_mail_common::encryption::{decrypt, encrypt, EncryptionKey};
use you_have_mail_common::observer::config::{open_stored, ConfigAuthRefresher, ConfigError, ConfigInner, StoredFile};
use you_have_mail_common::{Proxy, ProxyAuth, ProxyProtocol};

fn test_proxy() -> Proxy {
    Proxy {
        protocol: ProxyProtocol::Socks5,
        auth: Some(ProxyAuth {
            username: "Hello".into(),
            password: "Goodbye".into(),
        }),
        url: "127.0.0.1".into(),
        port: 1080,
    }
}

fn test_accounts() -> Vec<NullTestAccount> {
    vec![
        NullTestAccount {
            email: "foo".to_string(),
            password: "foo".to_string(),
            totp: None,
            wait_time: None,
            refresh: false,
        },
        NullTestAccount {
            email: "bar".to_string(),
            password: "bar".to_string(),
            totp: None,
            wait_time: None,
            refresh: false,
        },
    ]
}

#[test]
fn test_config_store_and_load() {
    let proxy = test_proxy();
    let null_backed = new_backend(&test_accounts());

    let poll_interval = 10u64;

    let account1 = {
        let mut a = Account::new(null_backed.clone(), "foo".to_string(), Some(proxy.clone()));
        a.login("foo").unwrap();
        a
    };
    let account2 = Account::new(null_backed.clone(), "bar".to_string(), None);

    let config_generated = Config::store(poll_interval, &vec![account1, account2]).unwrap();

    let config = Config::load(&vec![null_backed], &config_generated).unwrap();

    assert_eq!(config.accounts.len(), 2);
    assert_eq!(config.accounts[0].0.email(), "foo");
    assert_eq!(config.accounts[1].0.email(), "bar");
    assert_eq!(config.accounts[0].0.get_proxy(), &Some(proxy));
    assert!(config.accounts[0].1.is_some());
    assert!(config.accounts[1].1.is_none());
    assert_eq!(config.poll_interval, poll_interval);
}

#[test]
fn stored_auth_data_restores_the_same_account() {
    let null_backed = new_backend(&test_accounts());
    let mut account = Account::new(null_backed.clone(), "foo".to_string(), None);
    account.login("foo").unwrap();
    let stored = Config::store(10, &vec![account]).unwrap();
    let value = stored.accounts[0].value.clone().unwrap();
    assert!(value.contains("foo"));
    let loaded = Config::load(&vec![null_backed], &stored).unwrap();
    let refresher = loaded.accounts.into_iter().next().unwrap().1.unwrap();
    assert_eq!(refresher.email, "foo");
}

#[test]
fn config_load_skips_unknown_backend_and_defaults_interval() {
    let null_backed = new_backend(&test_accounts());
    let json = ConfigJSON {
        poll_interval: None,
        accounts: vec![
            ConfigJSONAccount {
                email: "foo".to_string(),
                backend: "Other Backend".to_string(),
                value: None,
                proxy: None,
            },
            ConfigJSONAccount {
                email: "bar".to_string(),
                backend: "Null Backend".to_string(),
                value: None,
                proxy: None,
            },
        ],
    };
    let config = Config::load(&vec![null_backed], &json).unwrap();
    assert_eq!(config.accounts.len(), 1);
    assert_eq!(config.accounts[0].0.email(), "bar");
    assert!(config.accounts[0].0.is_logged_out());
    assert_eq!(config.poll_interval, DEFAULT_POLL_INTERVAL_SECS);
    assert_eq!(DEFAULT_POLL_INTERVAL_SECS, 300);
}

#[test]
fn config_load_fails_on_unreadable_auth_data() {
    let null_backed = new_backend(&test_accounts());
    let json = ConfigJSON {
        poll_interval: Some(5),
        accounts: vec![ConfigJSONAccount {
            email: "foo".to_string(),
            backend: "Null Backend".to_string(),
            value: Some("not json".to_string()),
            proxy: None,
        }],
    };
    assert!(Config::load(&vec![null_backed], &json).is_err());
}

#[test]
fn test_config_v2_store_and_load() {
    let encryption_key = EncryptionKey::new();
    let proxy = test_proxy();
    let null_backed = new_backend(&test_accounts());
    let poll_interval = 10u64;

    let account1 = {
        let mut a = Account::new(null_backed.clone(), "foo".to_string(), Some(proxy.clone()));
        a.login("foo").unwrap();
        a
    };
    let account2 = Account::new(null_backed.clone(), "bar".to_string(), None);

    // Initialize config: there is no file yet.
    let stored = {
        let opened = open_stored(&encryption_key, StoredFile::Missing).unwrap();
        assert!(opened.is_none());
        let mut inner = ConfigInner::fresh();
        assert_eq!(inner.len(), 0);
        assert!(!inner.dirty());

        inner.add_or_update_account(&account1).unwrap();
        inner.add_or_update_account(&account2).unwrap();
        inner.set_poll_interval(poll_interval);
        assert!(inner.dirty());
        let json = inner.pending_write().unwrap();
        inner.mark_written();
        assert!(inner.pending_write().is_none());
        json
    };

    // Load config second time.
    let stored = {
        let mut inner = ConfigInner::from_json(stored);
        assert_eq!(inner.len(), 2);
        {
            let account = inner.get_account(&"foo".to_string()).expect("Account not found");
            assert_eq!(account.backend, null_backed.name());
            assert_eq!(account.proxy, Some(proxy));
            assert!(matches!(account.auth_refresher, ConfigAuthRefresher::Resolved(_)));
        }
        {
            let account = inner.get_account(&"bar".to_string()).expect("Account not found");
            assert_eq!(account.backend, null_backed.name());
            assert_eq!(account.proxy, None);
            assert!(matches!(account.auth_refresher, ConfigAuthRefresher::Absent));
        }
        assert_eq!(inner.poll_interval(), poll_interval);

        inner.account_logged_out(&"foo".to_string());
        inner.account_removed(&"bar".to_string());
        inner.pending_write().expect("changes to write")
    };

    // Load config a third time and check that the changes were applied.
    let inner = ConfigInner::from_json(stored);
    assert_eq!(inner.len(), 1);
    let account = inner.get_account(&"foo".to_string()).expect("Account not found");
    assert_eq!(account.backend, null_backed.name());
    assert!(account.proxy.is_some());
    assert!(matches!(account.auth_refresher, ConfigAuthRefresher::Absent));
}

#[test]
fn config_v2_unchanged_record_is_not_written() {
    let mut inner = ConfigInner::fresh();
    inner.set_poll_interval(DEFAULT_POLL_INTERVAL_SECS);
    inner.account_removed(&"nobody".to_string());
    inner.account_logged_out(&"nobody".to_string());
    inner.account_refreshed(&"nobody".to_string(), "{}".to_string());
    inner.account_proxy_changed(&"nobody".to_string(), None);
    assert!(!inner.dirty());
    assert!(inner.pending_write().is_none());
    let mut created = ConfigInner::new(20);
    assert!(created.dirty());
    created.mark_written();
    assert!(!created.dirty());
}

#[test]
fn config_v2_later_entry_wins() {
    let json = ConfigJSON {
        poll_interval: None,
        accounts: vec![
            ConfigJSONAccount {
                email: "foo".to_string(),
                backend: "A".to_string(),
                value: None,
                proxy: None,
            },
            ConfigJSONAccount {
                email: "foo".to_string(),
                backend: "B".to_string(),
                value: Some("{}".to_string()),
                proxy: None,
            },
        ],
    };
    let inner = ConfigInner::from_json(json);
    assert_eq!(inner.len(), 1);
    assert_eq!(inner.poll_interval(), 300);
    let account = inner.get_account(&"foo".to_string()).unwrap();
    assert_eq!(account.backend, "B");
    assert!(matches!(&account.auth_refresher, ConfigAuthRefresher::Resolved(v) if v == "{}"));
}

#[test]
fn config_v2_open_stored_file() {
    let key = EncryptionKey::new();
    let data = encrypt(&key, b"{\"accounts\":[]}").unwrap();
    let opened = open_stored(&key, StoredFile::Contents(data)).unwrap().unwrap();
    assert_eq!(opened.as_slice(), b"{\"accounts\":[]}");
    assert!(matches!(
        open_stored(&key, StoredFile::Unreadable("denied".to_string())),
        Err(ConfigError::IO(m)) if m == "denied"
    ));
    assert!(matches!(
        open_stored(&key, StoredFile::Contents(vec![0u8; 40])),
        Err(ConfigError::Crypto(_))
    ));
    let plain = decrypt(&key, &encrypt(&key, b"x").unwrap()).unwrap();
    assert_eq!(plain, b"x".to_vec());
}
