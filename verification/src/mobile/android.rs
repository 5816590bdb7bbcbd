//! Notification ids of the Android application. Each account gets three
//! stable ids (group, status, error), handed out in steps of three from 100;
//! every new mail notification gets the next id of a counter that never goes
//! back.
use vstd::prelude::*;

verus! {

/// Notification ids associated with a given account.
#[derive(Debug, Copy, Clone, PartialEq, Eq, Structural)]
pub struct AccountNotificationIds {
    /// For notification grouping.
    pub group: i32,
    /// For status updates, such as logout.
    pub status: i32,
    /// For error reporting.
    pub error: i32,
}

/// The group id of the first account.
pub const START_GROUP_ID: i32 = 100;

/// Why a query on the Android tables failed.
#[derive(Debug, Copy, Clone, PartialEq, Eq, Structural)]
pub enum StateError {
    /// The tables have not been created.
    NoSuchTable,
    /// A new id does not fit in 32 bits.
    ValueOutOfRange,
    /// The mail notification counter is exhausted.
    Full,
}

/// The Android tables: the stable ids of each account, and the counter of
/// mail notification ids.
#[derive(Debug)]
pub struct AndroidState {
    initialized: bool,
    notification_ids: Vec<(String, AccountNotificationIds)>,
    mail_sequence: u64,
}

/// The largest group id handed out, if any.
pub open spec fn max_group(ids: Seq<(Seq<char>, AccountNotificationIds)>) -> Option<int>
    decreases ids.len(),
{
    if ids.len() == 0 {
        None
    } else {
        match max_group(ids.drop_last()) {
            None => Some(ids.last().1.group as int),
            Some(m) => Some(if ids.last().1.group > m { ids.last().1.group as int } else { m }),
        }
    }
}

/// The group id the next new account gets.
pub open spec fn next_group(ids: Seq<(Seq<char>, AccountNotificationIds)>) -> int {
    match max_group(ids) {
        None => START_GROUP_ID as int,
        Some(m) => m + 3,
    }
}

/// The largest value the mail notification counter reaches.
pub const MAX_SEQUENCE: u64 = 0x7fff_ffff_ffff_ffff;

impl AndroidState {
    /// The stable ids handed out, by email, in order.
    pub closed spec fn ids(&self) -> Seq<(Seq<char>, AccountNotificationIds)> {
        self.notification_ids@.map_values(|e: (String, AccountNotificationIds)| (e.0@, e.1))
    }

    /// The last mail notification counter value handed out.
    pub closed spec fn sequence(&self) -> u64 {
        self.mail_sequence
    }

    /// Whether the tables exist.
    pub closed spec fn ready(&self) -> bool {
        self.initialized
    }

    /// Tables not created yet.
    pub fn new() -> (r: Self)
        ensures
            !r.ready(),
            r.ids().len() == 0,
            r.sequence() == 0,
    {
        let r = AndroidState { initialized: false, notification_ids: Vec::new(), mail_sequence: 0 };
        proof {
            assert(r.ids() =~= Seq::<(Seq<char>, AccountNotificationIds)>::empty());
        }
        r
    }

    fn find(&self, email: &String) -> (r: Option<usize>)
        ensures
            r matches Some(i) ==> i < self.ids().len() && self.ids()[i as int].0 == email@
                && forall|j: int| 0 <= j < i ==> self.ids()[j].0 != email@,
            r is None ==> forall|j: int| 0 <= j < self.ids().len() ==> self.ids()[j].0 != email@,
    {
        let mut i: usize = 0;
        while i < self.notification_ids.len()
            invariant
                i <= self.notification_ids@.len(),
                forall|j: int| 0 <= j < i ==> self.ids()[j].0 != email@,
            decreases self.notification_ids@.len() - i,
        {
            if self.notification_ids[i].0.eq(email) {
                return Some(i);
            }
            i = i + 1;
        }
        None
    }

    fn largest_group(&self) -> (r: Option<i32>)
        ensures
            r is None <==> self.ids().len() == 0,
            r matches Some(g) ==> max_group(self.ids()) == Some(g as int),
    {
        let mut best: Option<i32> = None;
        let mut i: usize = 0;
        while i < self.notification_ids.len()
            invariant
                i <= self.notification_ids@.len(),
                best is None <==> i == 0,
                best matches Some(b) ==> max_group(self.ids().take(i as int)) == Some(b as int),
            decreases self.notification_ids@.len() - i,
        {
            proof {
                assert(self.ids().take(i + 1).drop_last() =~= self.ids().take(i as int));
                assert(self.ids().take(i + 1).last() == self.ids()[i as int]);
            }
            let g = self.notification_ids[i].1.group;
            best = match best {
                None => Some(g),
                Some(m) => Some(if g > m { g } else { m }),
            };
            i = i + 1;
        }
        proof {
            assert(self.ids().take(self.ids().len() as int) =~= self.ids());
        }
        best
    }
}

/// Extension of the application state with the Android tables.
pub trait StateExtension {
    /// Create the Android tables, if they do not exist.
    fn android_init_tables(&mut self) -> Result<(), StateError>;

    /// The next unique notification id for a mail of the account `email`.
    fn android_next_mail_notification_id(&mut self, email: &String) -> Result<i32, StateError>;

    /// The three stable notification ids of the account `email`, created
    /// on first use.
    fn android_get_or_create_notification_ids(&mut self, email: &String) -> Result<
        AccountNotificationIds,
        StateError,
    >;
}

impl StateExtension for AndroidState {
    fn android_init_tables(&mut self) -> (r: Result<(), StateError>)
        ensures
            r is Ok,
            final(self).ready(),
            final(self).ids() == old(self).ids(),
            final(self).sequence() == old(self).sequence(),
    {
        self.initialized = true;
        Ok(())
    }

    /// The counter moves on by one and the id is the counter modulo
    /// `i32::MAX`.
    fn android_next_mail_notification_id(&mut self, email: &String) -> (r: Result<i32, StateError>)
        ensures
            final(self).ids() == old(self).ids(),
            final(self).ready() == old(self).ready(),
            !old(self).ready() ==> r == Err::<i32, StateError>(StateError::NoSuchTable)
                && final(self).sequence() == old(self).sequence(),
            old(self).ready() && old(self).sequence() >= MAX_SEQUENCE ==> r == Err::<i32, StateError>(StateError::Full)
                && final(self).sequence() == old(self).sequence(),
            old(self).ready() && old(self).sequence() < MAX_SEQUENCE ==> {
                &&& final(self).sequence() == old(self).sequence() + 1
                &&& r == Ok::<i32, StateError>(((old(self).sequence() + 1) % 0x7fff_ffff) as i32)
            },
    {
        if !self.initialized {
            return Err(StateError::NoSuchTable);
        }
        if self.mail_sequence >= MAX_SEQUENCE {
            return Err(StateError::Full);
        }
        self.mail_sequence = self.mail_sequence + 1;
        Ok((self.mail_sequence % 0x7fff_ffff) as i32)
    }

    /// An account keeps the ids it got first. A new account gets the next
    /// group id (100 for the first, else three more than the largest), and
    /// the two after it.
    fn android_get_or_create_notification_ids(&mut self, email: &String) -> (r: Result<
        AccountNotificationIds,
        StateError,
    >)
        ensures
            final(self).sequence() == old(self).sequence(),
            final(self).ready() == old(self).ready(),
            !old(self).ready() ==> r == Err::<AccountNotificationIds, StateError>(StateError::NoSuchTable)
                && final(self).ids() == old(self).ids(),
            old(self).ready() ==> match r {
                Ok(ids) => {
                    ||| exists|i: int| 0 <= i < old(self).ids().len() && old(self).ids()[i].0 == email@
                        && ids == (#[trigger] old(self).ids()[i]).1 && final(self).ids() == old(self).ids()
                        && forall|k: int| 0 <= k < i ==> old(self).ids()[k].0 != email@
                    ||| (forall|i: int| 0 <= i < old(self).ids().len() ==> (#[trigger] old(self).ids()[i]).0 != email@)
                        && ids.group == next_group(old(self).ids()) && ids.status == ids.group + 1
                        && ids.error == ids.group + 2
                        && final(self).ids() == old(self).ids().push((email@, ids))
                },
                Err(e) => e == StateError::ValueOutOfRange && final(self).ids() == old(self).ids()
                    && (forall|i: int| 0 <= i < old(self).ids().len() ==> (#[trigger] old(self).ids()[i]).0 != email@)
                    && next_group(old(self).ids()) + 2 > i32::MAX,
            },
            old(self).ready() ==> (r is Err <==> (forall|i: int| 0 <= i < old(self).ids().len()
                ==> (#[trigger] old(self).ids()[i]).0 != email@) && next_group(old(self).ids()) + 2 > i32::MAX),
    {
        if !self.initialized {
            return Err(StateError::NoSuchTable);
        }
        match self.find(email) {
            Some(i) => {
                let ids = self.notification_ids[i].1;
                proof {
                    assert(self.ids()[i as int].1 == ids);
                    assert(self.ids()[i as int].0 == email@);
                }
                Ok(ids)
            },
            None => {
                let largest = self.largest_group();
                let gid: i64 = match largest {
                    None => START_GROUP_ID as i64,
                    Some(m) => m as i64 + 3,
                };
                proof {
                    if self.ids().len() == 0 {
                        assert(max_group(self.ids()) is None);
                    }
                    assert(gid == next_group(self.ids()));
                }
                if gid + 2 > i32::MAX as i64 {
                    return Err(StateError::ValueOutOfRange);
                }
                let ids = AccountNotificationIds {
                    group: gid as i32,
                    status: (gid + 1) as i32,
                    error: (gid + 2) as i32,
                };
                let ghost before = self.ids();
                self.notification_ids.push((email.clone(), ids));
                proof {
                    assert(self.ids() =~= before.push((email@, ids)));
                }
                Ok(ids)
            },
        }
    }
}

/// Law: a new account's ids lie above those of every account before it, so
/// no two accounts share an id.
pub proof fn law_next_group_above_all(ids: Seq<(Seq<char>, AccountNotificationIds)>)
    ensures
        forall|i: int| 0 <= i < ids.len() ==> next_group(ids) >= (#[trigger] ids[i]).1.group + 3,
    decreases ids.len(),
{
    if ids.len() > 0 {
        law_next_group_above_all(ids.drop_last());
        assert forall|i: int| 0 <= i < ids.len() implies next_group(ids) >= (#[trigger] ids[i]).1.group + 3 by {
            if i < ids.len() - 1 {
                assert(ids.drop_last()[i] == ids[i]);
            }
        }
    }
}

} // verus!
