//! Building the observer's accounts from its record: each recorded account
//! whose backend is known comes back, with what restores its session when
//! the record holds session data that its backend can read.
use crate::account::{arc_clone, Account};
use crate::backend::{AccountStateKind, Backend};
use crate::config::has_named;
use crate::observer::config::{ConfigInner, StoredAccountView};
use crate::observer::Notification;
use crate::proxy::{clone_proxy_opt, ProxyView};
use std::sync::Arc;
use vstd::prelude::*;

verus! {

/// The recorded entries whose backend is known, in order.
pub open spec fn known_entries<B: Backend>(backends: Seq<Arc<B>>, s: Seq<(Seq<char>, StoredAccountView)>) -> Seq<
    (Seq<char>, StoredAccountView),
>
    decreases s.len(),
{
    if s.len() == 0 {
        seq![]
    } else {
        let rest = known_entries(backends, s.drop_last());
        if has_named(backends, s.last().1.backend) {
            rest.push(s.last())
        } else {
            rest
        }
    }
}

/// How many recorded entries name a backend that is not known.
pub open spec fn unknown_count<B: Backend>(backends: Seq<Arc<B>>, s: Seq<(Seq<char>, StoredAccountView)>) -> nat
    decreases s.len(),
{
    if s.len() == 0 {
        0
    } else {
        unknown_count(backends, s.drop_last()) + if has_named(backends, s.last().1.backend) {
            0nat
        } else {
            1nat
        }
    }
}

/// What is known of a restored account: email, backend name, proxy.
pub open spec fn restored_view<B: Backend>(e: (Account<B>, Option<B::Refresher>)) -> (Seq<char>, Seq<char>, Option<ProxyView>) {
    (e.0.email_view(), e.0.backend_value().spec_name(), e.0.proxy_view())
}

/// What is known of a recorded entry, in the same shape.
pub open spec fn entry_view(e: (Seq<char>, StoredAccountView)) -> (Seq<char>, Seq<char>, Option<ProxyView>) {
    (e.0, e.1.backend, e.1.proxy)
}

/// How many of the restored accounts had session data that their backend
/// could not read.
pub open spec fn failed_count<B: Backend>(
    restored: Seq<(Account<B>, Option<B::Refresher>)>,
    entries: Seq<(Seq<char>, StoredAccountView)>,
) -> nat
    decreases restored.len(),
{
    if restored.len() == 0 || entries.len() != restored.len() {
        0
    } else {
        failed_count(restored.drop_last(), entries.drop_last()) + if entries.last().1.auth_refresher is Some
            && restored.last().1 is None {
            1nat
        } else {
            0nat
        }
    }
}

/// The error reported for a recorded account whose backend is not known.
pub open spec fn unknown_backend_text(email: Seq<char>, backend: Seq<char>) -> Seq<char> {
    "Could not find backend "@ + backend + " for "@ + email + ", account will not be added"@
}

/// The error reported for a recorded account whose session data its
/// backend could not read, with the backend's reason.
pub open spec fn restore_failed_text(email: Seq<char>, reason: Seq<char>) -> Seq<char> {
    "Failed to restore "@ + email + "'s form config: "@ + reason
}

/// The texts of the errors reported while restoring `entries`, in order,
/// where `fails` holds, for each entry, the reason its session data could not
/// be read, if it could not.
pub open spec fn load_texts<B: Backend>(
    backends: Seq<Arc<B>>,
    entries: Seq<(Seq<char>, StoredAccountView)>,
    fails: Seq<Option<Seq<char>>>,
) -> Seq<Seq<char>>
    decreases entries.len(),
{
    if entries.len() == 0 {
        seq![]
    } else {
        let rest = load_texts(backends, entries.drop_last(), fails.drop_last());
        let e = entries.last();
        if !has_named(backends, e.1.backend) {
            rest.push(unknown_backend_text(e.0, e.1.backend))
        } else {
            match fails.last() {
                Some(reason) => rest.push(restore_failed_text(e.0, reason)),
                None => rest,
            }
        }
    }
}

/// Whether a backend named `backend` refused the session data `value`
/// with `reason`.
pub open spec fn refused_by<B: Backend>(backends: Seq<Arc<B>>, backend: Seq<char>, value: Seq<char>, reason: Seq<char>) -> bool {
    exists|b: int, e: String|
        0 <= b < backends.len() && backends[b].spec_name() == backend && e@ == reason
            && #[trigger] backends[b].spec_refresher_from_config(value, Err(e))
}

/// The texts of error notifications (empty for any other notification).
pub open spec fn error_texts(notes: Seq<Notification>) -> Seq<Seq<char>> {
    notes.map_values(
        |n: Notification|
            match n {
                Notification::Error(m) => m@,
                _ => Seq::<char>::empty(),
            },
    )
}

/// Find the first backend named `name`.
fn backend_named<B: Backend>(backends: &Vec<Arc<B>>, name: &String) -> (r: Option<usize>)
    ensures
        r matches Some(i) ==> i < backends@.len() && backends@[i as int].spec_name() == name@,
        r is None ==> !has_named(backends@, name@),
{
    let mut i: usize = 0;
    while i < backends.len()
        invariant
            i <= backends@.len(),
            forall|j: int| 0 <= j < i ==> (#[trigger] backends@[j]).spec_name() != name@,
        decreases backends@.len() - i,
    {
        let n = backends[i].name();
        if n.eq(name) {
            return Some(i);
        }
        i = i + 1;
    }
    None
}

/// Restore the recorded accounts, in the order they are kept. An account
/// whose backend is not known is left out, with an error notification; one
/// with session data that its backend cannot read comes back without it,
/// with an error notification. Every account comes back logged out, with
/// what restores its session when there is one.
pub fn load_accounts<B: Backend>(backends: &Vec<Arc<B>>, config: &ConfigInner) -> (r: (
    Vec<(Account<B>, Option<B::Refresher>)>,
    Vec<Notification>,
))
    ensures
        r.0@.map_values(|e: (Account<B>, Option<B::Refresher>)| restored_view(e)) == known_entries(
            backends@,
            config.entries(),
        ).map_values(|e: (Seq<char>, StoredAccountView)| entry_view(e)),
        forall|i: int| 0 <= i < r.0@.len() ==> (#[trigger] r.0@[i]).0.state_kind() == AccountStateKind::LoggedOut,
        forall|i: int| 0 <= i < r.0@.len() && (#[trigger] r.0@[i]).1 is Some ==> known_entries(
            backends@,
            config.entries(),
        )[i].1.auth_refresher is Some,
        r.1@.len() == unknown_count(backends@, config.entries()) + failed_count(
            r.0@,
            known_entries(backends@, config.entries()),
        ),
        forall|i: int| 0 <= i < r.1@.len() ==> (#[trigger] r.1@[i]) is Error,
        exists|fails: Seq<Option<Seq<char>>>|
            {
                &&& fails.len() == config.entries().len()
                &&& forall|i: int|
                    0 <= i < fails.len() && (#[trigger] fails[i]) is Some ==> has_named(
                        backends@,
                        config.entries()[i].1.backend,
                    ) && config.entries()[i].1.auth_refresher is Some && refused_by(
                        backends@,
                        config.entries()[i].1.backend,
                        config.entries()[i].1.auth_refresher->Some_0,
                        fails[i]->Some_0,
                    )
                &&& error_texts(r.1@) == load_texts(backends@, config.entries(), fails)
            },
{
    let ghost all = config.entries();
    let list = config.get_accounts();
    let mut restored: Vec<(Account<B>, Option<B::Refresher>)> = Vec::new();
    let mut notes: Vec<Notification> = Vec::new();
    let ghost mut fails: Seq<Option<Seq<char>>> = seq![];
    let mut i: usize = 0;
    while i < list.len()
        invariant
            i <= list@.len(),
            list@.map_values(|e: (String, crate::observer::config::ConfigAccount)| (e.0@, e.1@)) == all,
            restored@.map_values(|e: (Account<B>, Option<B::Refresher>)| restored_view(e)) == known_entries(
                backends@,
                all.take(i as int),
            ).map_values(|e: (Seq<char>, StoredAccountView)| entry_view(e)),
            restored@.len() == known_entries(backends@, all.take(i as int)).len(),
            forall|j: int| 0 <= j < restored@.len() ==> (#[trigger] restored@[j]).0.state_kind()
                == AccountStateKind::LoggedOut,
            forall|j: int| 0 <= j < restored@.len() && (#[trigger] restored@[j]).1 is Some ==> known_entries(
                backends@,
                all.take(i as int),
            )[j].1.auth_refresher is Some,
            notes@.len() == unknown_count(backends@, all.take(i as int)) + failed_count(
                restored@,
                known_entries(backends@, all.take(i as int)),
            ),
            forall|j: int| 0 <= j < notes@.len() ==> (#[trigger] notes@[j]) is Error,
            fails.len() == i,
            forall|j: int|
                0 <= j < i && (#[trigger] fails[j]) is Some ==> has_named(backends@, all[j].1.backend)
                    && all[j].1.auth_refresher is Some && refused_by(
                        backends@,
                        all[j].1.backend,
                        all[j].1.auth_refresher->Some_0,
                        fails[j]->Some_0,
                    ),
            error_texts(notes@) == load_texts(backends@, all.take(i as int), fails),
        decreases list@.len() - i,
    {
        let (email, cfg) = &list[i];
        let ghost e = all[i as int];
        proof {
            assert(all.take(i + 1).drop_last() =~= all.take(i as int));
            assert(all.take(i + 1).last() == e);
            assert(e == (email@, cfg@));
        }
        let ghost prev_known = known_entries(backends@, all.take(i as int));
        let ghost notes_before = notes@;
        let ghost mut reason: Option<Seq<char>> = None;
        match backend_named(backends, &cfg.backend) {
            None => {
                let mut m = String::from_str("Could not find backend ");
                m.append(cfg.backend.as_str());
                m.append(" for ");
                m.append(email.as_str());
                m.append(", account will not be added");
                notes.push(Notification::Error(m));
                proof {
                    assert(error_texts(notes@) =~= error_texts(notes_before).push(
                        unknown_backend_text(email@, cfg.backend@),
                    ));
                }
            },
            Some(b) => {
                let mut failed = false;
                let refresher = match &cfg.auth_refresher {
                    crate::observer::config::ConfigAuthRefresher::Resolved(v) => {
                        match backends[b].auth_refresher_from_config(v.as_str()) {
                            Ok(r) => Some(r),
                            Err(err) => {
                                let mut m = String::from_str("Failed to restore ");
                                m.append(email.as_str());
                                m.append("'s form config: ");
                                m.append(err.as_str());
                                notes.push(Notification::Error(m));
                                proof {
                                    assert(backends@[b as int].spec_refresher_from_config(v@, Err(err)));
                                    assert(refused_by(backends@, cfg.backend@, v@, err@));
                                    reason = Some(err@);
                                    assert(error_texts(notes@) =~= error_texts(notes_before).push(
                                        restore_failed_text(email@, err@),
                                    ));
                                }
                                failed = true;
                                None
                            },
                        }
                    },
                    crate::observer::config::ConfigAuthRefresher::Absent => None,
                };
                let account = Account::new(arc_clone(&backends[b]), email.clone(), clone_proxy_opt(cfg.proxy.as_ref()));
                let ghost before = restored@;
                restored.push((account, refresher));
                proof {
                    let k = known_entries(backends@, all.take(i + 1));
                    assert(has_named(backends@, e.1.backend));
                    assert(k == prev_known.push(e));
                    assert(restored@.drop_last() =~= before);
                    assert(k.drop_last() =~= prev_known);
                    assert(restored@.map_values(|e: (Account<B>, Option<B::Refresher>)| restored_view(e))
                        =~= before.map_values(|e: (Account<B>, Option<B::Refresher>)| restored_view(e)).push(
                        restored_view((account, refresher)),
                    ));
                    assert(k.map_values(|e: (Seq<char>, StoredAccountView)| entry_view(e)) =~= prev_known.map_values(
                        |e: (Seq<char>, StoredAccountView)| entry_view(e),
                    ).push(entry_view(e)));
                    assert(failed == (e.1.auth_refresher is Some && refresher is None));
                }
            },
        }
        proof {
            let f2 = fails.push(reason);
            assert(f2.drop_last() =~= fails);
            assert(all.take(i + 1).drop_last() =~= all.take(i as int));
            assert(error_texts(notes@) == load_texts(backends@, all.take(i + 1), f2));
            fails = f2;
        }
        i = i + 1;
    }
    proof {
        assert(all.take(all.len() as int) =~= all);
    }
    (restored, notes)
}

} // verus!
