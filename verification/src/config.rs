//! The stored application state: the accounts with their backends, auth
//! tokens and proxies, and the poll interval. The JSON text itself is read
//! and written by the application; this module turns it into accounts and
//! back.
use crate::account::{arc_clone, Account};
use crate::backend::{Account as BackendAccount, AccountState, AccountStateKind, Backend};
use crate::proxy::{clone_proxy_opt, proxy_opt_view, Proxy, ProxyView};
use crate::text::string_opt_view;
use std::sync::Arc;
use vstd::prelude::*;

verus! {

/// The poll interval, in seconds, when the stored state gives none.
pub const DEFAULT_POLL_INTERVAL_SECS: u64 = 300;

/// One stored account: its email, the name of its backend, the backend's
/// auth data as JSON text (for an account that is not logged out) and its
/// proxy.
#[derive(Debug)]
pub struct ConfigJSONAccount {
    pub email: String,
    pub backend: String,
    pub value: Option<String>,
    pub proxy: Option<Proxy>,
}

/// Value of a stored account: email, backend name, auth data, proxy.
pub type ConfigAccountView = (Seq<char>, Seq<char>, Option<Seq<char>>, Option<ProxyView>);

impl View for ConfigJSONAccount {
    type V = ConfigAccountView;

    open spec fn view(&self) -> ConfigAccountView {
        (self.email@, self.backend@, string_opt_view(self.value), proxy_opt_view(self.proxy))
    }
}

/// The stored state: poll interval in seconds and accounts.
#[derive(Debug)]
pub struct ConfigJSON {
    pub poll_interval: Option<u64>,
    pub accounts: Vec<ConfigJSONAccount>,
}

/// The values of the stored accounts.
pub open spec fn config_accounts_view(v: Seq<ConfigJSONAccount>) -> Seq<ConfigAccountView> {
    v.map_values(|a: ConfigJSONAccount| a@)
}

/// Why the stored state could not be loaded.
#[derive(Debug)]
pub enum ConfigLoadError {
    /// The backend of an account was not found.
    BackendNotFound { account: String, backend: String },
    /// The backend could not read an account's auth data.
    BackendConfig { account: String, backend: String, error: String },
    /// The JSON text could not be read.
    JSON(String),
}

/// Why the state could not be stored.
#[derive(Debug)]
pub enum ConfigGenError {
    /// The backend could not give an account's auth data.
    BackendConfig { account: String, error: String },
    /// The JSON text could not be written.
    JSON(String),
}

/// Loaded state: each account, logged out, with what refreshes its login if
/// the state held auth data for it, and the poll interval in seconds.
pub struct Config<B: Backend> {
    pub accounts: Vec<(Account<B>, Option<B::Refresher>)>,
    pub poll_interval: u64,
}

/// Whether some backend is named `name`.
pub open spec fn has_named<B: Backend>(backends: Seq<Arc<B>>, name: Seq<char>) -> bool {
    exists|i: int| 0 <= i < backends.len() && (#[trigger] backends[i]).spec_name() == name
}

/// The accounts that loading keeps: those whose backend is known, in
/// order.
pub open spec fn kept_accounts<B: Backend>(backends: Seq<Arc<B>>, accounts: Seq<ConfigAccountView>) -> Seq<
    ConfigAccountView,
>
    decreases accounts.len(),
{
    if accounts.len() == 0 {
        seq![]
    } else {
        let rest = kept_accounts(backends, accounts.drop_last());
        if has_named(backends, accounts.last().1) {
            rest.push(accounts.last())
        } else {
            rest
        }
    }
}

/// Whether the refresher a loaded account came with, if any, is what a
/// backend named as its entry says gave for the entry's session data.
pub open spec fn restored_by<B: Backend>(
    backends: Seq<Arc<B>>,
    entry: ConfigAccountView,
    refresher: Option<B::Refresher>,
) -> bool {
    match refresher {
        Some(x) => match entry.2 {
            Some(v) => exists|b: int|
                0 <= b < backends.len() && backends[b].spec_name() == entry.1
                    && #[trigger] backends[b].spec_refresher_from_config(v, Ok(x)),
            None => false,
        },
        None => true,
    }
}

/// What is known of a loaded account: email, backend name, whether it came
/// with auth data, proxy.
pub open spec fn loaded_view<B: Backend>(entry: (Account<B>, Option<B::Refresher>)) -> (Seq<char>, Seq<char>, bool, Option<ProxyView>) {
    (entry.0.email_view(), entry.0.backend_value().spec_name(), entry.1 is Some, entry.0.proxy_view())
}

/// The values of loaded accounts.
pub open spec fn loaded_views<B: Backend>(v: Seq<(Account<B>, Option<B::Refresher>)>) -> Seq<(Seq<char>, Seq<char>, bool, Option<ProxyView>)> {
    v.map_values(|e: (Account<B>, Option<B::Refresher>)| loaded_view(e))
}

/// What is known of a stored account, in the same shape.
pub open spec fn stored_view(a: ConfigAccountView) -> (Seq<char>, Seq<char>, bool, Option<ProxyView>) {
    (a.0, a.1, a.2 is Some, a.3)
}

/// The values of stored accounts, in the same shape.
pub open spec fn stored_views(v: Seq<ConfigAccountView>) -> Seq<(Seq<char>, Seq<char>, bool, Option<ProxyView>)> {
    v.map_values(|a: ConfigAccountView| stored_view(a))
}

/// Find the first backend named `tag`.
fn find_backend_with_tag<B: Backend>(backends: &Vec<Arc<B>>, tag: &String) -> (r: Option<usize>)
    ensures
        r matches Some(i) ==> i < backends@.len() && backends@[i as int].spec_name() == tag@,
        r is None ==> !has_named(backends@, tag@),
{
    let mut i: usize = 0;
    while i < backends.len()
        invariant
            i <= backends@.len(),
            forall|j: int| 0 <= j < i ==> (#[trigger] backends@[j]).spec_name() != tag@,
        decreases backends@.len() - i,
    {
        let name = backends[i].name();
        if name.eq(tag) {
            return Some(i);
        }
        i = i + 1;
    }
    None
}

impl<B: Backend> Config<B> {
    /// Load the stored state. Accounts whose backend is not among
    /// `backends` are skipped; an account whose auth data its backend cannot
    /// read fails the load. Every account starts logged out, with the
    /// refresher for its auth data if it had any. The poll interval defaults
    /// to five minutes.
    pub fn load(backends: &Vec<Arc<B>>, config: &ConfigJSON) -> (r: Result<Self, ConfigLoadError>)
        ensures
            r matches Ok(c) ==> {
                &&& c.poll_interval == match config.poll_interval {
                    Some(p) => p,
                    None => DEFAULT_POLL_INTERVAL_SECS,
                }
                &&& loaded_views(c.accounts@) == stored_views(kept_accounts(backends@, config_accounts_view(config.accounts@)))
                &&& forall|i: int| 0 <= i < c.accounts@.len() ==> (#[trigger] c.accounts@[i]).0.state_kind() == AccountStateKind::LoggedOut
                &&& forall|i: int| 0 <= i < c.accounts@.len() ==> restored_by(
                    backends@,
                    kept_accounts(backends@, config_accounts_view(config.accounts@))[i],
                    (#[trigger] c.accounts@[i]).1,
                )
            },
            r matches Err(e) ==> e is BackendConfig,
            (forall|i: int| 0 <= i < config.accounts@.len() ==> (#[trigger] config_accounts_view(config.accounts@)[i]).2 is None
                || !has_named(backends@, config_accounts_view(config.accounts@)[i].1)) ==> r is Ok,
            r matches Err(ConfigLoadError::BackendConfig { account, backend, .. }) ==> exists|i: int|
                0 <= i < config.accounts@.len() && (#[trigger] config_accounts_view(config.accounts@)[i]).0 == account@
                    && config_accounts_view(config.accounts@)[i].1 == backend@
                    && config_accounts_view(config.accounts@)[i].2 is Some
                    && has_named(backends@, backend@),
            r matches Err(ConfigLoadError::BackendConfig { account, backend, error }) ==> exists|i: int, b: int|
                {
                    &&& 0 <= i < config.accounts@.len() && 0 <= b < backends@.len()
                    &&& (#[trigger] config_accounts_view(config.accounts@)[i]).0 == account@
                    &&& (#[trigger] backends@[b]).spec_name() == backend@
                    &&& config_accounts_view(config.accounts@)[i].2 matches Some(v)
                        && backends@[b].spec_refresher_from_config(v, Err(error))
                },
    {
        let accounts = &config.accounts;
        let mut result: Vec<(Account<B>, Option<B::Refresher>)> = Vec::new();
        let mut i: usize = 0;
        while i < accounts.len()
            invariant
                i <= accounts@.len(),
                accounts@ == config.accounts@,
                loaded_views(result@) == stored_views(kept_accounts(backends@, config_accounts_view(accounts@.take(i as int)))),
                forall|j: int| 0 <= j < result@.len() ==> (#[trigger] result@[j]).0.state_kind() == AccountStateKind::LoggedOut,
                forall|j: int| 0 <= j < result@.len() ==> restored_by(
                    backends@,
                    kept_accounts(backends@, config_accounts_view(accounts@.take(i as int)))[j],
                    (#[trigger] result@[j]).1,
                ),
            decreases accounts@.len() - i,
        {
            let account = &accounts[i];
            proof {
                assert(config_accounts_view(accounts@.take(i + 1)).drop_last() =~= config_accounts_view(accounts@.take(i as int)));
                assert(config_accounts_view(accounts@.take(i + 1)).last() == account@);
            }
            match find_backend_with_tag(backends, &account.backend) {
                None => {},
                Some(b) => {
                    let refresher = match &account.value {
                        Some(value) => match backends[b].auth_refresher_from_config(value.as_str()) {
                            Ok(r) => {
                                proof {
                                    assert(backends@[b as int].spec_refresher_from_config(value@, Ok(r)));
                                    assert(account@.2 == Some(value@));
                                    assert(backends@[b as int].spec_name() == account@.1);
                                    let ghost bi: int = b as int;
                                    assert(0 <= bi < backends@.len());
                                    assert(exists|bb: int|
                                        0 <= bb < backends@.len() && backends@[bb].spec_name() == account@.1
                                            && #[trigger] backends@[bb].spec_refresher_from_config(value@, Ok(r))) by {
                                        assert(backends@[bi].spec_refresher_from_config(value@, Ok(r)));
                                    }
                                    let ghost sr: Option<B::Refresher> = Some(r);
                                    assert(sr matches Some(x) && x == r);
                                    assert(account@.2->Some_0 == value@);
                                    assert(backends@[bi].spec_refresher_from_config(account@.2->Some_0, Ok(sr->Some_0)));
                                    assert(restored_by(backends@, account@, sr));
                                }
                                Some(r)
                            },
                            Err(e) => {
                                proof {
                                    assert(config_accounts_view(config.accounts@)[i as int] == account@);
                                    assert(backends@[b as int].spec_refresher_from_config(value@, Err(e)));
                                }
                                return Err(ConfigLoadError::BackendConfig {
                                    account: account.email.clone(),
                                    backend: account.backend.clone(),
                                    error: e,
                                });
                            },
                        },
                        None => None,
                    };
                    let proxy = clone_proxy_opt(account.proxy.as_ref());
                    let acc = Account::new(arc_clone(&backends[b]), account.email.clone(), proxy);
                    let ghost before = result@;
                    result.push((acc, refresher));
                    proof {
                        assert(has_named(backends@, account.backend@));
                        assert(loaded_views(result@) =~= loaded_views(before).push(loaded_view((acc, refresher))));
                        let k0 = kept_accounts(backends@, config_accounts_view(accounts@.take(i as int)));
                        let k1 = kept_accounts(backends@, config_accounts_view(accounts@.take(i + 1)));
                        assert(k1 == k0.push(account@));
                        assert(restored_by(backends@, account@, refresher));
                        assert forall|j: int| 0 <= j < result@.len() implies restored_by(
                            backends@,
                            k1[j],
                            (#[trigger] result@[j]).1,
                        ) by {
                            if j < before.len() {
                                assert(result@[j] == before[j]);
                                assert(k1[j] == k0[j]);
                            }
                        }
                    }
                },
            }
            i = i + 1;
        }
        proof {
            assert(accounts@.take(accounts@.len() as int) =~= accounts@);
        }
        let poll = match config.poll_interval {
            Some(p) => p,
            None => DEFAULT_POLL_INTERVAL_SECS,
        };
        Ok(Config { accounts: result, poll_interval: poll })
    }
}

/// Whether `value` is the auth data stored for `account`: for a logged-in
/// account, data that its session may give; for any other, none.
pub open spec fn stores_session<B: Backend>(account: Account<B>, value: Option<String>) -> bool {
    match account.state_value() {
        AccountState::LoggedIn(a) => value matches Some(s) && a.spec_auth_refresher_config(Ok(s)),
        _ => value is None,
    }
}

/// What storing keeps of an account: email, backend name, whether it is
/// logged in (and so stores auth data), proxy.
pub open spec fn account_stored_view<B: Backend>(a: Account<B>) -> (Seq<char>, Seq<char>, bool, Option<ProxyView>) {
    (a.email_view(), a.backend_value().spec_name(), a.state_kind() == AccountStateKind::LoggedIn, a.proxy_view())
}

impl<B: Backend> Config<B> {
    /// The stored form of one account. A logged-in account stores the auth
    /// data its backend gives; a logged-out one stores none. (An account
    /// that awaits its TOTP code cannot be stored.)
    pub fn store_account(account: &Account<B>) -> (r: Result<ConfigJSONAccount, ConfigGenError>)
        requires
            account.state_kind() != AccountStateKind::AwaitingTotp,
        ensures
            r matches Ok(j) ==> stored_view(j@) == account_stored_view(*account),
            r is Err ==> account.state_kind() == AccountStateKind::LoggedIn && r->Err_0 is BackendConfig,
            r matches Err(ConfigGenError::BackendConfig { account: e, .. }) ==> e@ == account.email_view(),
            r matches Ok(j) ==> stores_session(*account, j.value),
            r matches Err(ConfigGenError::BackendConfig { error, .. }) ==> (account.state_value() matches AccountState::LoggedIn(a)
                && a.spec_auth_refresher_config(Err(error))),
    {
        let value = if !account.is_logged_out() {
            let account_impl = account.get_impl().unwrap();
            match account_impl.auth_refresher_config() {
                Ok(v) => Some(v),
                Err(e) => {
                    return Err(ConfigGenError::BackendConfig { account: account.email().clone(), error: e });
                },
            }
        } else {
            None
        };
        Ok(ConfigJSONAccount {
            email: account.email().clone(),
            backend: account.backend().name(),
            value,
            proxy: clone_proxy_opt(account.get_proxy().as_ref()),
        })
    }

    /// The stored form of the state: the poll interval in seconds and each
    /// account, in order.
    pub fn store(poll_interval: u64, accounts: &Vec<Account<B>>) -> (r: Result<ConfigJSON, ConfigGenError>)
        requires
            forall|i: int| 0 <= i < accounts@.len() ==> (#[trigger] accounts@[i]).state_kind() != AccountStateKind::AwaitingTotp,
        ensures
            r matches Ok(c) ==> c.poll_interval == Some(poll_interval)
                && stored_views(config_accounts_view(c.accounts@)) == accounts@.map_values(|a: Account<B>| account_stored_view(a)),
            r is Err ==> r->Err_0 is BackendConfig,
            (forall|i: int| 0 <= i < accounts@.len() ==> (#[trigger] accounts@[i]).state_kind() == AccountStateKind::LoggedOut)
                ==> r is Ok,
            r matches Err(ConfigGenError::BackendConfig { account, .. }) ==> exists|i: int|
                0 <= i < accounts@.len() && (#[trigger] accounts@[i]).state_kind() == AccountStateKind::LoggedIn
                    && accounts@[i].email_view() == account@,
            r matches Ok(c) ==> c.accounts@.len() == accounts@.len() && forall|i: int| 0 <= i < accounts@.len()
                ==> stores_session(#[trigger] accounts@[i], c.accounts@[i].value),
    {
        let mut json_accounts: Vec<ConfigJSONAccount> = Vec::new();
        let mut i: usize = 0;
        while i < accounts.len()
            invariant
                i <= accounts@.len(),
                forall|k: int| 0 <= k < accounts@.len() ==> (#[trigger] accounts@[k]).state_kind() != AccountStateKind::AwaitingTotp,
                stored_views(config_accounts_view(json_accounts@)) == accounts@.take(i as int).map_values(|a: Account<B>| account_stored_view(a)),
                json_accounts@.len() == i,
                forall|k: int| 0 <= k < i ==> stores_session(#[trigger] accounts@[k], json_accounts@[k].value),
            decreases accounts@.len() - i,
        {
            let a = match Self::store_account(&accounts[i]) {
                Ok(a) => a,
                Err(e) => {
                    return Err(e);
                },
            };
            let ghost before = json_accounts@;
            json_accounts.push(a);
            proof {
                assert(stored_views(config_accounts_view(json_accounts@)) =~= stored_views(config_accounts_view(before)).push(stored_view(a@)));
                assert(accounts@.take(i + 1).map_values(|a: Account<B>| account_stored_view(a))
                    =~= accounts@.take(i as int).map_values(|a: Account<B>| account_stored_view(a)).push(account_stored_view(accounts@[i as int])));
            }
            i = i + 1;
        }
        proof {
            assert(accounts@.take(accounts@.len() as int) =~= accounts@);
        }
        Ok(ConfigJSON { poll_interval: Some(poll_interval), accounts: json_accounts })
    }
}

/// Law: loading what was stored gives back every account, with its email,
/// backend, proxy and whether it had auth data, as long as each account's
/// backend is among those that loading knows.
pub proof fn law_store_then_load<B: Backend>(backends: Seq<Arc<B>>, stored: Seq<ConfigAccountView>)
    requires
        forall|i: int| 0 <= i < stored.len() ==> has_named(backends, (#[trigger] stored[i]).1),
    ensures
        kept_accounts(backends, stored) == stored,
    decreases stored.len(),
{
    if stored.len() > 0 {
        assert forall|i: int| 0 <= i < stored.drop_last().len() implies has_named(backends, (#[trigger] stored.drop_last()[i]).1) by {
            assert(stored.drop_last()[i] == stored[i]);
        }
        law_store_then_load(backends, stored.drop_last());
        assert(has_named(backends, stored[stored.len() - 1].1));
        assert(stored.drop_last().push(stored.last()) =~= stored);
    }
}

} // verus!
