//! The observer's record of its accounts, keyed by email, and its poll
//! interval, with a flag that says whether the record changed since it was
//! last written out. The application reads and writes the encrypted JSON
//! text; this module keeps the record and turns it into that JSON value and
//! back.
use crate::account::Account;
use crate::backend::{Account as BackendAccount, AccountState, AccountStateKind, Backend};
use crate::config::{ConfigJSON, ConfigJSONAccount, DEFAULT_POLL_INTERVAL_SECS};
use crate::proxy::{clone_proxy_opt, proxy_opt_view, Proxy, ProxyView};
use crate::text::string_opt_view;
use vstd::prelude::*;

verus! {

/// The data that restores an account's session, if it has one: the
/// backend's JSON text.
#[derive(Debug)]
pub enum ConfigAuthRefresher {
    Resolved(String),
    Absent,
}

impl ConfigAuthRefresher {
    /// The JSON text, if any.
    pub open spec fn text(&self) -> Option<Seq<char>> {
        match self {
            ConfigAuthRefresher::Resolved(v) => Some(v@),
            ConfigAuthRefresher::Absent => None,
        }
    }
}

/// What is recorded of one account: its backend's name, its session data and
/// its proxy.
#[derive(Debug)]
pub struct ConfigAccount {
    pub backend: String,
    pub auth_refresher: ConfigAuthRefresher,
    pub proxy: Option<Proxy>,
}

/// Value of a recorded account: backend name, session data, proxy.
pub struct StoredAccountView {
    pub backend: Seq<char>,
    pub auth_refresher: Option<Seq<char>>,
    pub proxy: Option<ProxyView>,
}

impl View for ConfigAccount {
    type V = StoredAccountView;

    open spec fn view(&self) -> StoredAccountView {
        StoredAccountView {
            backend: self.backend@,
            auth_refresher: self.auth_refresher.text(),
            proxy: proxy_opt_view(self.proxy),
        }
    }
}

/// The accounts a list of (email, account) entries records; a later entry
/// for an email replaces an earlier one.
pub open spec fn accounts_map(s: Seq<(Seq<char>, StoredAccountView)>) -> Map<Seq<char>, StoredAccountView>
    decreases s.len(),
{
    if s.len() == 0 {
        Map::empty()
    } else {
        accounts_map(s.drop_last()).insert(s.last().0, s.last().1)
    }
}

/// The emails of a list of entries.
pub open spec fn entry_keys(s: Seq<(Seq<char>, StoredAccountView)>) -> Seq<Seq<char>> {
    s.map_values(|e: (Seq<char>, StoredAccountView)| e.0)
}

/// The entries a list of stored JSON accounts stands for.
pub open spec fn json_entries(v: Seq<ConfigJSONAccount>) -> Seq<(Seq<char>, StoredAccountView)> {
    v.map_values(
        |a: ConfigJSONAccount|
            (
                a.email@,
                StoredAccountView {
                    backend: a.backend@,
                    auth_refresher: string_opt_view(a.value),
                    proxy: proxy_opt_view(a.proxy),
                },
            ),
    )
}

/// The observer's record: poll interval in seconds, the accounts by email,
/// and whether it changed since it was last written out.
pub struct ConfigInner {
    poll_interval: u64,
    accounts: Vec<(String, ConfigAccount)>,
    dirty: bool,
}

/// What an account is recorded as: its backend's name, its session data if
/// it has a session and its proxy.
pub open spec fn recorded_as(backend: Seq<char>, refresher: Option<Seq<char>>, proxy: Option<ProxyView>) -> StoredAccountView {
    StoredAccountView { backend, auth_refresher: refresher, proxy }
}

impl ConfigInner {
    /// The entries, in the order they are kept.
    pub closed spec fn entries(&self) -> Seq<(Seq<char>, StoredAccountView)> {
        self.accounts@.map_values(|e: (String, ConfigAccount)| (e.0@, e.1@))
    }

    /// The recorded accounts, by email.
    pub open spec fn accounts(&self) -> Map<Seq<char>, StoredAccountView> {
        accounts_map(self.entries())
    }

    /// The poll interval in seconds.
    pub closed spec fn interval(&self) -> u64 {
        self.poll_interval
    }

    /// Whether the record changed since it was last written out.
    pub closed spec fn is_dirty(&self) -> bool {
        self.dirty
    }

    /// No email is recorded twice.
    pub closed spec fn wf(&self) -> bool {
        entry_keys(self.entries()).no_duplicates()
    }

    /// A record without accounts, to be written out.
    pub fn new(poll_interval_secs: u64) -> (r: Self)
        ensures
            r.wf(),
            r.accounts() == Map::<Seq<char>, StoredAccountView>::empty(),
            r.interval() == poll_interval_secs,
            r.is_dirty(),
    {
        let r = ConfigInner { poll_interval: poll_interval_secs, accounts: Vec::new(), dirty: true };
        proof {
            assert(r.entries() =~= Seq::empty());
            assert(entry_keys(r.entries()) =~= Seq::empty());
        }
        r
    }

    /// The record when nothing was written out yet: no accounts, the default
    /// poll interval, nothing to write.
    pub fn fresh() -> (r: Self)
        ensures
            r.wf(),
            r.accounts() == Map::<Seq<char>, StoredAccountView>::empty(),
            r.interval() == DEFAULT_POLL_INTERVAL_SECS,
            !r.is_dirty(),
    {
        let r = ConfigInner { poll_interval: DEFAULT_POLL_INTERVAL_SECS, accounts: Vec::new(), dirty: false };
        proof {
            assert(r.entries() =~= Seq::empty());
            assert(entry_keys(r.entries()) =~= Seq::empty());
        }
        r
    }

    /// The number of recorded accounts.
    pub fn len(&self) -> (r: usize)
        requires
            self.wf(),
        ensures
            r == self.accounts().len(),
    {
        proof {
            lemma_accounts_map_len(self.entries());
        }
        self.accounts.len()
    }

    /// Whether no account is recorded.
    pub fn is_empty(&self) -> (r: bool)
        requires
            self.wf(),
        ensures
            r <==> self.accounts().len() == 0,
    {
        self.len() == 0
    }

    /// The poll interval in seconds.
    pub fn poll_interval(&self) -> (r: u64)
        ensures
            r == self.interval(),
    {
        self.poll_interval
    }

    /// Whether the record changed since it was last written out.
    pub fn dirty(&self) -> (r: bool)
        ensures
            r == self.is_dirty(),
    {
        self.dirty
    }

    /// The record was written out.
    pub fn mark_written(&mut self)
        ensures
            !final(self).is_dirty(),
            final(self).accounts() == old(self).accounts(),
            final(self).entries() == old(self).entries(),
            final(self).interval() == old(self).interval(),
            final(self).wf() == old(self).wf(),
    {
        self.dirty = false;
    }

    /// Set the poll interval; the record changes only if the interval does.
    pub fn set_poll_interval(&mut self, secs: u64)
        ensures
            final(self).interval() == secs,
            final(self).accounts() == old(self).accounts(),
            final(self).entries() == old(self).entries(),
            final(self).wf() == old(self).wf(),
            final(self).is_dirty() == (old(self).is_dirty() || secs != old(self).interval()),
    {
        if secs != self.poll_interval {
            self.poll_interval = secs;
            self.dirty = true;
        }
    }

    /// The position of the entry for `email`.
    fn position(&self, email: &String) -> (r: Option<usize>)
        ensures
            r matches Some(i) ==> i < self.entries().len() && self.entries()[i as int].0 == email@,
            r is None ==> forall|j: int| 0 <= j < self.entries().len() ==> self.entries()[j].0 != email@,
    {
        let mut i: usize = 0;
        while i < self.accounts.len()
            invariant
                i <= self.accounts@.len(),
                forall|j: int| 0 <= j < i ==> self.entries()[j].0 != email@,
            decreases self.accounts@.len() - i,
        {
            if self.accounts[i].0.eq(email) {
                return Some(i);
            }
            i = i + 1;
        }
        None
    }

    /// The record of the account `email`, if any.
    pub fn get_account(&self, email: &String) -> (r: Option<&ConfigAccount>)
        requires
            self.wf(),
        ensures
            r is Some <==> self.accounts().dom().contains(email@),
            r matches Some(a) ==> a@ == self.accounts()[email@],
    {
        proof {
            lemma_accounts_map_char(self.entries());
        }
        match self.position(email) {
            Some(i) => Some(&self.accounts[i].1),
            None => None,
        }
    }

    /// The recorded accounts: email and record, each email once.
    pub fn get_accounts(&self) -> (r: &Vec<(String, ConfigAccount)>)
        ensures
            r@.map_values(|e: (String, ConfigAccount)| (e.0@, e.1@)) == self.entries(),
    {
        &self.accounts
    }

    /// Record `entry` under `email`, replacing what was recorded for it.
    fn put(&mut self, email: String, entry: ConfigAccount)
        requires
            old(self).wf(),
        ensures
            final(self).wf(),
            final(self).accounts() == old(self).accounts().insert(email@, entry@),
            final(self).interval() == old(self).interval(),
            final(self).is_dirty() == old(self).is_dirty(),
    {
        let ghost key = email@;
        let ghost v = entry@;
        let ghost before = self.entries();
        proof {
            lemma_accounts_map_char(before);
        }
        match self.position(&email) {
            Some(i) => {
                self.accounts.set(i, (email, entry));
                proof {
                    assert(self.entries() =~= before.update(i as int, (key, v)));
                    assert(entry_keys(self.entries()) =~= entry_keys(before));
                    lemma_accounts_map_update(before, i as int, v);
                }
            },
            None => {
                self.accounts.push((email, entry));
                proof {
                    assert(self.entries() =~= before.push((key, v)));
                    assert(self.entries().drop_last() =~= before);
                    assert(entry_keys(self.entries()) =~= entry_keys(before).push(key));
                    assert(!entry_keys(before).contains(key)) by {
                        if entry_keys(before).contains(key) {
                            let j = choose|j: int| 0 <= j < entry_keys(before).len() && entry_keys(before)[j] == key;
                            assert(before[j].0 == key);
                        }
                    }
                    crate::observer::worker::lemma_push_no_dup(entry_keys(before), key);
                }
            },
        }
    }

    /// Record `account` under its email: its backend's name, its session data
    /// (when it is logged in, as its backend gives it) and its proxy. Fails,
    /// changing nothing, if the backend cannot give the session data.
    pub fn add_or_update_account<B: Backend>(&mut self, account: &Account<B>) -> (r: Result<(), String>)
        requires
            old(self).wf(),
        ensures
            final(self).wf(),
            final(self).interval() == old(self).interval(),
            r is Err ==> final(self).accounts() == old(self).accounts()
                && final(self).is_dirty() == old(self).is_dirty(),
            r is Err ==> account.state_kind() == AccountStateKind::LoggedIn,
            r is Ok ==> final(self).is_dirty(),
            r is Ok ==> final(self).accounts().dom() == old(self).accounts().dom().insert(account.email_view()),
            r is Ok ==> final(self).accounts().remove(account.email_view()) == old(self).accounts().remove(
                account.email_view(),
            ),
            r is Ok ==> ({
                let rec = final(self).accounts()[account.email_view()];
                &&& rec.backend == account.backend_value().spec_name()
                &&& rec.proxy == account.proxy_view()
                &&& (rec.auth_refresher is Some <==> account.state_kind() == AccountStateKind::LoggedIn)
            }),
            r is Ok ==> (account.state_value() matches AccountState::LoggedIn(a) ==> exists|text: String|
                #[trigger] a.spec_auth_refresher_config(Ok(text))
                    && final(self).accounts()[account.email_view()].auth_refresher == Some(text@)),
            r matches Err(e) ==> (account.state_value() matches AccountState::LoggedIn(a)
                && a.spec_auth_refresher_config(Err(e))),
    {
        let ghost mut given: Option<String> = None;
        let refresher = match account.get_impl() {
            Some(a) => match a.auth_refresher_config() {
                Ok(v) => {
                    proof {
                        given = Some(v);
                    }
                    ConfigAuthRefresher::Resolved(v)
                },
                Err(e) => {
                    return Err(e);
                },
            },
            None => ConfigAuthRefresher::Absent,
        };
        let ghost recorded = refresher.text();
        let entry = ConfigAccount {
            backend: account.backend().name(),
            auth_refresher: refresher,
            proxy: clone_proxy_opt(account.get_proxy().as_ref()),
        };
        self.put(account.email().clone(), entry);
        self.dirty = true;
        proof {
            assert(final(self).accounts().remove(account.email_view()) =~= old(self).accounts().remove(
                account.email_view(),
            ));
            assert(final(self).accounts().dom() =~= old(self).accounts().dom().insert(account.email_view()));
            if let AccountState::LoggedIn(a) = account.state_value() {
                assert(recorded == Some(given->Some_0@));
                assert(a.spec_auth_refresher_config(Ok(given->Some_0)));
            }
        }
        Ok(())
    }

    /// Forget the account `email`; the record changes only if it was there.
    pub fn account_removed(&mut self, email: &String)
        requires
            old(self).wf(),
        ensures
            final(self).wf(),
            final(self).accounts() == old(self).accounts().remove(email@),
            final(self).interval() == old(self).interval(),
            final(self).is_dirty() == (old(self).is_dirty() || old(self).accounts().dom().contains(email@)),
    {
        let ghost key = email@;
        let ghost before = self.entries();
        proof {
            lemma_accounts_map_char(before);
        }
        match self.position(email) {
            Some(i) => {
                self.accounts.remove(i);
                self.dirty = true;
                proof {
                    assert(self.entries() =~= before.remove(i as int));
                    assert(entry_keys(self.entries()) =~= entry_keys(before).remove(i as int));
                    crate::observer::worker::lemma_remove_no_dup(entry_keys(before), i as int);
                    lemma_accounts_map_char(self.entries());
                    assert forall|j: int| 0 <= j < before.len() && before[j].0 == key implies j == i by {
                        assert(entry_keys(before)[j] == entry_keys(before)[i as int]);
                    }
                    assert(self.accounts() =~= accounts_map(before).remove(key)) by {
                        assert forall|k: Seq<char>| #[trigger] self.accounts().dom().contains(k)
                            == accounts_map(before).remove(key).dom().contains(k) by {
                            if self.accounts().dom().contains(k) {
                                let j = choose|j: int| 0 <= j < self.entries().len() && self.entries()[j].0 == k;
                                let j2 = if j < i { j } else { j + 1 };
                                assert(before[j2] == self.entries()[j]);
                            }
                            if accounts_map(before).dom().contains(k) && k != key {
                                let j = choose|j: int| 0 <= j < before.len() && before[j].0 == k;
                                let j2 = if j < i { j } else { j - 1 };
                                assert(self.entries()[j2] == before[j]);
                            }
                        }
                        assert forall|k: Seq<char>| #[trigger] self.accounts().dom().contains(k) implies
                            self.accounts()[k] == accounts_map(before).remove(key)[k] by {
                            let j = choose|j: int| 0 <= j < self.entries().len() && self.entries()[j].0 == k;
                            let j2 = if j < i { j } else { j + 1 };
                            assert(before[j2] == self.entries()[j]);
                        }
                    }
                }
            },
            None => {
                proof {
                    assert(accounts_map(before).remove(key) =~= accounts_map(before));
                }
            },
        }
    }

    /// Replace the session data, the proxy, or both, of the account `email`,
    /// if it is recorded.
    fn update_existing(&mut self, email: &String, refresher: Option<ConfigAuthRefresher>, proxy: Option<Option<Proxy>>)
        requires
            old(self).wf(),
        ensures
            final(self).wf(),
            final(self).interval() == old(self).interval(),
            !old(self).accounts().dom().contains(email@) ==> final(self).accounts() == old(self).accounts()
                && final(self).is_dirty() == old(self).is_dirty(),
            old(self).accounts().dom().contains(email@) ==> final(self).is_dirty()
                && final(self).accounts() == old(self).accounts().insert(
                email@,
                StoredAccountView {
                    backend: old(self).accounts()[email@].backend,
                    auth_refresher: match refresher {
                        Some(r) => r.text(),
                        None => old(self).accounts()[email@].auth_refresher,
                    },
                    proxy: match proxy {
                        Some(p) => proxy_opt_view(p),
                        None => old(self).accounts()[email@].proxy,
                    },
                },
            ),
    {
        proof {
            lemma_accounts_map_char(self.entries());
        }
        match self.position(email) {
            Some(i) => {
                let (key, mut entry) = self.accounts.remove(i);
                proof {
                    assert(key@ == email@);
                }
                match refresher {
                    Some(r) => {
                        entry.auth_refresher = r;
                    },
                    None => {},
                }
                match proxy {
                    Some(p) => {
                        entry.proxy = p;
                    },
                    None => {},
                }
                let ghost kv = key@;
                let ghost ev = entry@;
                self.accounts.insert(i, (key, entry));
                proof {
                    assert(self.entries() =~= old(self).entries().update(i as int, (kv, ev)));
                    assert(entry_keys(self.entries()) =~= entry_keys(old(self).entries()));
                    lemma_accounts_map_update(old(self).entries(), i as int, ev);
                }
                self.dirty = true;
            },
            None => {},
        }
    }

    /// Store new session data for the account `email`, if it is recorded.
    pub fn account_refreshed(&mut self, email: &String, value: String)
        requires
            old(self).wf(),
        ensures
            final(self).wf(),
            final(self).interval() == old(self).interval(),
            !old(self).accounts().dom().contains(email@) ==> final(self).accounts() == old(self).accounts()
                && final(self).is_dirty() == old(self).is_dirty(),
            old(self).accounts().dom().contains(email@) ==> final(self).is_dirty()
                && final(self).accounts() == old(self).accounts().insert(
                email@,
                StoredAccountView { auth_refresher: Some(value@), ..old(self).accounts()[email@] },
            ),
    {
        self.update_existing(email, Some(ConfigAuthRefresher::Resolved(value)), None);
    }

    /// Drop the session data of the account `email`, if it is recorded.
    pub fn account_logged_out(&mut self, email: &String)
        requires
            old(self).wf(),
        ensures
            final(self).wf(),
            final(self).interval() == old(self).interval(),
            !old(self).accounts().dom().contains(email@) ==> final(self).accounts() == old(self).accounts()
                && final(self).is_dirty() == old(self).is_dirty(),
            old(self).accounts().dom().contains(email@) ==> final(self).is_dirty()
                && final(self).accounts() == old(self).accounts().insert(
                email@,
                StoredAccountView { auth_refresher: None, ..old(self).accounts()[email@] },
            ),
    {
        self.update_existing(email, Some(ConfigAuthRefresher::Absent), None);
    }

    /// Store the new proxy of the account `email`, if it is recorded.
    pub fn account_proxy_changed(&mut self, email: &String, proxy: Option<Proxy>)
        requires
            old(self).wf(),
        ensures
            final(self).wf(),
            final(self).interval() == old(self).interval(),
            !old(self).accounts().dom().contains(email@) ==> final(self).accounts() == old(self).accounts()
                && final(self).is_dirty() == old(self).is_dirty(),
            old(self).accounts().dom().contains(email@) ==> final(self).is_dirty()
                && final(self).accounts() == old(self).accounts().insert(
                email@,
                StoredAccountView { proxy: proxy_opt_view(proxy), ..old(self).accounts()[email@] },
            ),
    {
        self.update_existing(email, None, Some(proxy));
    }
}

impl ConfigInner {
    /// The JSON value written out: the poll interval and each account, in
    /// the order they are kept.
    pub fn to_json(&self) -> (r: ConfigJSON)
        ensures
            r.poll_interval == Some(self.interval()),
            json_entries(r.accounts@) == self.entries(),
    {
        let mut out: Vec<ConfigJSONAccount> = Vec::new();
        let mut i: usize = 0;
        while i < self.accounts.len()
            invariant
                i <= self.accounts@.len(),
                out@.len() == i,
                json_entries(out@) == self.entries().take(i as int),
            decreases self.accounts@.len() - i,
        {
            let (email, account) = &self.accounts[i];
            let value = match &account.auth_refresher {
                ConfigAuthRefresher::Resolved(v) => Some(v.clone()),
                ConfigAuthRefresher::Absent => None,
            };
            let ghost before = out@;
            out.push(
                ConfigJSONAccount {
                    email: email.clone(),
                    backend: account.backend.clone(),
                    value,
                    proxy: clone_proxy_opt(account.proxy.as_ref()),
                },
            );
            proof {
                assert(json_entries(out@) =~= json_entries(before).push(self.entries()[i as int]));
                assert(self.entries().take(i + 1) =~= self.entries().take(i as int).push(self.entries()[i as int]));
            }
            i = i + 1;
        }
        proof {
            assert(self.entries().take(self.entries().len() as int) =~= self.entries());
        }
        ConfigJSON { poll_interval: Some(self.poll_interval), accounts: out }
    }

    /// The record a JSON value stands for: its poll interval (the default if
    /// it has none) and its accounts, a later one replacing an earlier one
    /// with the same email. Nothing is left to write.
    pub fn from_json(json: ConfigJSON) -> (r: Self)
        ensures
            r.wf(),
            r.accounts() == accounts_map(json_entries(json.accounts@)),
            r.interval() == match json.poll_interval {
                Some(p) => p,
                None => DEFAULT_POLL_INTERVAL_SECS,
            },
            !r.is_dirty(),
    {
        let interval = match json.poll_interval {
            Some(p) => p,
            None => DEFAULT_POLL_INTERVAL_SECS,
        };
        let mut r = ConfigInner::fresh();
        r.set_poll_interval(interval);
        r.mark_written();
        let ghost all = json_entries(json.accounts@);
        let mut i: usize = 0;
        while i < json.accounts.len()
            invariant
                r.wf(),
                !r.is_dirty(),
                r.interval() == interval,
                i <= json.accounts@.len(),
                all == json_entries(json.accounts@),
                r.accounts() == accounts_map(all.take(i as int)),
            decreases json.accounts@.len() - i,
        {
            let a = &json.accounts[i];
            let entry = ConfigAccount {
                backend: a.backend.clone(),
                auth_refresher: match &a.value {
                    Some(v) => ConfigAuthRefresher::Resolved(v.clone()),
                    None => ConfigAuthRefresher::Absent,
                },
                proxy: clone_proxy_opt(a.proxy.as_ref()),
            };
            proof {
                assert(all.take(i + 1).drop_last() =~= all.take(i as int));
                assert(all.take(i + 1).last() == all[i as int]);
            }
            r.put(a.email.clone(), entry);
            i = i + 1;
        }
        proof {
            assert(all.take(all.len() as int) =~= all);
        }
        r
    }
}

impl ConfigInner {
    /// What is to be written out after a change: the JSON value when the
    /// record changed since it was last written, nothing otherwise.
    pub fn pending_write(&self) -> (r: Option<ConfigJSON>)
        ensures
            r is Some <==> self.is_dirty(),
            r matches Some(j) ==> j.poll_interval == Some(self.interval()) && json_entries(j.accounts@)
                == self.entries(),
    {
        if self.dirty {
            Some(self.to_json())
        } else {
            None
        }
    }
}

/// Why the record could not be read or written.
#[derive(Debug)]
pub enum ConfigError {
    /// The file could not be read or written.
    IO(String),
    /// The JSON text could not be read or written.
    JSON(String),
    /// The file could not be encrypted or decrypted.
    Crypto(String),
    /// Any other failure.
    Unknown(String),
}

/// What reading the record's file gave.
#[derive(Debug)]
pub enum StoredFile {
    /// There is no such file.
    Missing,
    /// The file exists but could not be read; the reason.
    Unreadable(String),
    /// The file's bytes.
    Contents(Vec<u8>),
}

/// The first step of loading the record: a missing file means there is no
/// record yet (`None`), one that cannot be read fails, and the contents are
/// decrypted with `key` into the JSON text to read (`Some`), or fail as
/// undecryptable.
pub fn open_stored(key: &crate::encryption::EncryptionKey, file: StoredFile) -> (r: Result<Option<Vec<u8>>, ConfigError>)
    ensures
        file is Missing ==> r matches Ok(None),
        file matches StoredFile::Unreadable(m) ==> (r matches Err(ConfigError::IO(e)) && e@ == m@),
        file matches StoredFile::Contents(d) ==> match crate::encryption::decrypt_spec(key@, d@) {
            Some(p) => r matches Ok(Some(v)) && v@ == p,
            None => r matches Err(ConfigError::Crypto(_)),
        },
        file matches StoredFile::Contents(d) ==> forall|p: Seq<u8>| crate::encryption::encrypts(key@, p, d@)
            ==> (r matches Ok(Some(v)) && v@ == p),
{
    match file {
        StoredFile::Missing => Ok(None),
        StoredFile::Unreadable(m) => Err(ConfigError::IO(m)),
        StoredFile::Contents(d) => match crate::encryption::decrypt(key, d.as_slice()) {
            Ok(p) => Ok(Some(p)),
            Err(e) => Err(ConfigError::Crypto(e)),
        },
    }
}

/// Law: reading back the JSON value that was written out for a record gives
/// the same accounts and the same poll interval.
pub proof fn law_write_then_read(c: ConfigInner, written: ConfigJSON)
    requires
        written.poll_interval == Some(c.interval()),
        json_entries(written.accounts@) == c.entries(),
    ensures
        accounts_map(json_entries(written.accounts@)) == c.accounts(),
        match written.poll_interval {
            Some(p) => p,
            None => DEFAULT_POLL_INTERVAL_SECS,
        } == c.interval(),
{
}

/// Characterization of [`accounts_map`] when no email occurs twice: an email
/// is recorded iff some entry has it, and it maps to that entry's account.
pub proof fn lemma_accounts_map_char(s: Seq<(Seq<char>, StoredAccountView)>)
    ensures
        forall|k: Seq<char>| #[trigger] accounts_map(s).dom().contains(k) <==> exists|j: int|
            0 <= j < s.len() && s[j].0 == k,
        entry_keys(s).no_duplicates() ==> forall|j: int| 0 <= j < s.len() ==> #[trigger] accounts_map(s)[s[j].0]
            == s[j].1,
        accounts_map(s).dom().finite(),
    decreases s.len(),
{
    if s.len() > 0 {
        let p = s.drop_last();
        lemma_accounts_map_char(p);
        assert forall|k: Seq<char>| #[trigger] accounts_map(s).dom().contains(k) <==> exists|j: int|
            0 <= j < s.len() && s[j].0 == k by {
            if accounts_map(s).dom().contains(k) && k != s.last().0 {
                let j = choose|j: int| 0 <= j < p.len() && p[j].0 == k;
                assert(s[j] == p[j]);
            }
            if k == s.last().0 {
                assert(s[s.len() - 1].0 == k);
            }
            if exists|j: int| 0 <= j < s.len() && s[j].0 == k {
                let j = choose|j: int| 0 <= j < s.len() && s[j].0 == k;
                if j < s.len() - 1 {
                    assert(p[j] == s[j]);
                }
            }
        }
        if entry_keys(s).no_duplicates() {
            assert(entry_keys(p) =~= entry_keys(s).drop_last());
            assert(entry_keys(p).no_duplicates()) by {
                assert forall|a: int, b: int| 0 <= a < entry_keys(p).len() && 0 <= b < entry_keys(p).len()
                    && a != b implies entry_keys(p)[a] != entry_keys(p)[b] by {
                    assert(entry_keys(p)[a] == entry_keys(s)[a]);
                    assert(entry_keys(p)[b] == entry_keys(s)[b]);
                }
            }
            assert forall|j: int| 0 <= j < s.len() implies #[trigger] accounts_map(s)[s[j].0] == s[j].1 by {
                if j < s.len() - 1 {
                    assert(entry_keys(s)[j] != entry_keys(s)[s.len() - 1]);
                    assert(p[j] == s[j]);
                }
            }
        }
    }
}

/// With no email twice, the record holds as many accounts as there are
/// entries.
pub proof fn lemma_accounts_map_len(s: Seq<(Seq<char>, StoredAccountView)>)
    requires
        entry_keys(s).no_duplicates(),
    ensures
        accounts_map(s).len() == s.len(),
    decreases s.len(),
{
    if s.len() > 0 {
        let p = s.drop_last();
        assert(entry_keys(p) =~= entry_keys(s).drop_last());
        assert(entry_keys(p).no_duplicates()) by {
            assert forall|a: int, b: int| 0 <= a < entry_keys(p).len() && 0 <= b < entry_keys(p).len()
                && a != b implies entry_keys(p)[a] != entry_keys(p)[b] by {
                assert(entry_keys(p)[a] == entry_keys(s)[a]);
                assert(entry_keys(p)[b] == entry_keys(s)[b]);
            }
        }
        lemma_accounts_map_len(p);
        lemma_accounts_map_char(p);
        assert(!accounts_map(p).dom().contains(s.last().0)) by {
            if accounts_map(p).dom().contains(s.last().0) {
                let j = choose|j: int| 0 <= j < p.len() && p[j].0 == s.last().0;
                assert(entry_keys(s)[j] == entry_keys(s)[s.len() - 1]);
            }
        }
    }
}

/// Replacing the account of the entry at `i` replaces it in the record.
pub proof fn lemma_accounts_map_update(s: Seq<(Seq<char>, StoredAccountView)>, i: int, v: StoredAccountView)
    requires
        entry_keys(s).no_duplicates(),
        0 <= i < s.len(),
    ensures
        accounts_map(s.update(i, (s[i].0, v))) == accounts_map(s).insert(s[i].0, v),
{
    let t = s.update(i, (s[i].0, v));
    assert(entry_keys(t) =~= entry_keys(s));
    lemma_accounts_map_char(s);
    lemma_accounts_map_char(t);
    assert(accounts_map(t) =~= accounts_map(s).insert(s[i].0, v)) by {
        assert forall|k: Seq<char>| #[trigger] accounts_map(t).dom().contains(k)
            == accounts_map(s).insert(s[i].0, v).dom().contains(k) by {
            if accounts_map(t).dom().contains(k) {
                let j = choose|j: int| 0 <= j < t.len() && t[j].0 == k;
                assert(s[j].0 == k);
            }
            if accounts_map(s).dom().contains(k) {
                let j = choose|j: int| 0 <= j < s.len() && s[j].0 == k;
                assert(t[j].0 == k);
            }
            if k == s[i].0 {
                assert(t[i].0 == k);
            }
        }
        assert forall|k: Seq<char>| #[trigger] accounts_map(t).dom().contains(k) implies accounts_map(t)[k]
            == accounts_map(s).insert(s[i].0, v)[k] by {
            let j = choose|j: int| 0 <= j < t.len() && t[j].0 == k;
            if j != i {
                assert(t[j] == s[j]);
                assert(entry_keys(s)[j] != entry_keys(s)[i]);
            }
        }
    }
}

} // verus!
