//! The Proton Mail backend's own logic: which folders to watch, and which of
//! the messages an event stream reports are new, unread mail to announce.
use crate::backend::{EmailInfo, NewEmailReply};
use crate::event::{label_ids_view, Event, EventAction, LabelEvent, Message, MessageEvent, MoreEvents};
use crate::label::{Boolean, Id as LabelId, Label};
use vstd::prelude::*;

verus! {

/// The set of values in a list of label IDs.
pub open spec fn id_set(ids: Seq<LabelId>) -> Set<Seq<char>> {
    Set::new(|x: Seq<char>| label_ids_view(ids).contains(x))
}

/// The set of values in a list of strings.
pub open spec fn str_set(ids: Seq<String>) -> Set<Seq<char>> {
    Set::new(|x: Seq<char>| exists|i: int| 0 <= i < ids.len() && (#[trigger] ids[i])@ == x)
}

/// The folders watched after one label event.
pub open spec fn label_step(active: Set<Seq<char>>, ev: LabelEvent) -> Set<Seq<char>> {
    match ev.action {
        EventAction::Create => match ev.label {
            Some(l) => if l.notify == Boolean::True {
                active.insert(l.id@)
            } else {
                active
            },
            None => active,
        },
        EventAction::Update | EventAction::UpdateFlags => match ev.label {
            Some(l) => if l.notify == Boolean::True {
                active.insert(l.id@)
            } else {
                active.remove(l.id@)
            },
            None => active,
        },
        EventAction::Delete => active.remove(ev.id@),
    }
}

/// The folders watched after a list of label events, applied in order.
pub open spec fn apply_label_events(active: Set<Seq<char>>, evs: Seq<LabelEvent>) -> Set<Seq<char>>
    decreases evs.len(),
{
    if evs.len() == 0 {
        active
    } else {
        label_step(apply_label_events(active, evs.drop_last()), evs.last())
    }
}

/// Law: the last label event decides the watched state of the folder it is
/// about. A folder created or updated with notifications on is watched; one
/// updated with notifications off, or deleted, is not; a creation never
/// stops the watch of a folder; an event without a folder changes nothing
/// (but a deletion); and every other folder `x` keeps the state it had
/// before the event.
pub proof fn law_label_event_sets_watch(active: Set<Seq<char>>, evs: Seq<LabelEvent>, x: Seq<char>)
    requires
        evs.len() > 0,
    ensures
        evs.last().label matches Some(l) ==> (evs.last().action != EventAction::Delete && l.notify == Boolean::True
            ==> apply_label_events(active, evs).contains(l.id@)),
        evs.last().label matches Some(l) ==> ((evs.last().action == EventAction::Update || evs.last().action
            == EventAction::UpdateFlags) && l.notify != Boolean::True ==> !apply_label_events(active, evs).contains(l.id@)),
        evs.last().action == EventAction::Delete ==> !apply_label_events(active, evs).contains(evs.last().id@),
        evs.last().action == EventAction::Create ==> apply_label_events(active, evs.drop_last()).subset_of(
            apply_label_events(active, evs),
        ),
        evs.last().action != EventAction::Delete && evs.last().label is None ==> apply_label_events(active, evs)
            == apply_label_events(active, evs.drop_last()),
        x != evs.last().id@ && !(evs.last().label matches Some(l) && l.id@ == x) ==> (apply_label_events(
            active,
            evs,
        ).contains(x) == apply_label_events(active, evs.drop_last()).contains(x)),
{
}

/// Whether a message with these labels lies in a watched folder.
pub open spec fn publishes(active: Set<Seq<char>>, labels: Seq<LabelId>) -> bool {
    exists|i: int| 0 <= i < labels.len() && active.contains((#[trigger] labels[i])@)
}

/// Which folders of an account are watched, and the last event seen.
#[derive(Debug)]
pub struct TaskState {
    last_event_id: Option<String>,
    active_folder_ids: Vec<LabelId>,
}

impl TaskState {
    /// The watched folders.
    pub closed spec fn active(&self) -> Set<Seq<char>> {
        id_set(self.active_folder_ids@)
    }

    /// The last event seen.
    pub closed spec fn last_event(&self) -> Option<String> {
        self.last_event_id
    }

    /// The last event seen.
    pub fn last_event_id(&self) -> (r: &Option<String>)
        ensures
            *r == self.last_event(),
    {
        &self.last_event_id
    }

    /// No folder is listed twice.
    pub closed spec fn wf(&self) -> bool {
        label_ids_view(self.active_folder_ids@).no_duplicates()
    }

    /// A task that watches the inbox alone and has seen no event.
    pub fn new() -> (r: Self)
        ensures
            r.wf(),
            r.active() == Set::<Seq<char>>::empty().insert("0"@),
            r.last_event() is None,
    {
        let mut v: Vec<LabelId> = Vec::new();
        v.push(LabelId::inbox());
        let r = TaskState { last_event_id: None, active_folder_ids: v };
        proof {
            assert(label_ids_view(r.active_folder_ids@) =~= seq!["0"@]);
            assert forall|x: Seq<char>| r.active().contains(x) <==> x == "0"@ by {
                if x == "0"@ {
                    assert(label_ids_view(r.active_folder_ids@)[0] == x);
                }
            }
            assert(r.active() =~= Set::<Seq<char>>::empty().insert("0"@));
        }
        r
    }

    /// Whether the folder `id` is watched.
    fn position(&self, id: &String) -> (r: Option<usize>)
        ensures
            r matches Some(i) ==> i < self.active_folder_ids@.len() && self.active_folder_ids@[i as int]@ == id@,
            r is None ==> !self.active().contains(id@),
    {
        let mut i: usize = 0;
        while i < self.active_folder_ids.len()
            invariant
                i <= self.active_folder_ids@.len(),
                forall|j: int| 0 <= j < i ==> self.active_folder_ids@[j]@ != id@,
            decreases self.active_folder_ids@.len() - i,
        {
            if self.active_folder_ids[i].0.eq(id) {
                return Some(i);
            }
            i = i + 1;
        }
        proof {
            if self.active().contains(id@) {
                let k = choose|k: int| 0 <= k < label_ids_view(self.active_folder_ids@).len() && label_ids_view(self.active_folder_ids@)[k] == id@;
                assert(self.active_folder_ids@[k]@ == id@);
            }
        }
        None
    }

    /// Watch the folder `id`.
    fn insert_folder(&mut self, id: LabelId)
        requires
            old(self).wf(),
        ensures
            final(self).wf(),
            final(self).active() == old(self).active().insert(id@),
            final(self).last_event() == old(self).last_event(),
    {
        match self.position(&id.0) {
            None => {
                let ghost x = id@;
                let ghost ov = label_ids_view(old(self).active_folder_ids@);
                self.active_folder_ids.push(id);
                proof {
                    assert(label_ids_view(self.active_folder_ids@) =~= ov.push(x));
                    assert(!ov.contains(x));
                    crate::observer::worker::lemma_push_no_dup(ov, x);
                    assert forall|y: Seq<char>| self.active().contains(y) <==> old(self).active().insert(x).contains(y) by {
                        if self.active().contains(y) {
                            let k = choose|k: int| 0 <= k < ov.push(x).len() && ov.push(x)[k] == y;
                            if k < ov.len() {
                                assert(ov[k] == y);
                            }
                        }
                        if old(self).active().contains(y) {
                            let k = choose|k: int| 0 <= k < ov.len() && ov[k] == y;
                            assert(ov.push(x)[k] == y);
                        }
                        if y == x {
                            assert(ov.push(x)[ov.len() as int] == y);
                        }
                    }
                    assert(self.active() =~= old(self).active().insert(x));
                }
            },
            Some(i) => {
                proof {
                    assert(label_ids_view(self.active_folder_ids@)[i as int] == id@);
                    assert(self.active().contains(id@));
                    assert(self.active() =~= old(self).active().insert(id@));
                }
            },
        }
    }

    /// Stop watching the folder `id`.
    fn remove_folder(&mut self, id: &String)
        requires
            old(self).wf(),
        ensures
            final(self).wf(),
            final(self).active() == old(self).active().remove(id@),
            final(self).last_event() == old(self).last_event(),
    {
        match self.position(id) {
            None => {
                proof {
                    assert(self.active() =~= old(self).active().remove(id@));
                }
            },
            Some(i) => {
                let ghost old_view = label_ids_view(self.active_folder_ids@);
                self.active_folder_ids.remove(i);
                proof {
                    assert(label_ids_view(self.active_folder_ids@) =~= old_view.remove(i as int));
                    crate::observer::worker::lemma_remove_no_dup(old_view, i as int);
                    crate::observer::worker::lemma_no_dup_index(old_view, i as int);
                    assert forall|x: Seq<char>| self.active().contains(x) <==> old(self).active().remove(id@).contains(x) by {
                        if self.active().contains(x) {
                            let k = choose|k: int| 0 <= k < old_view.remove(i as int).len() && old_view.remove(i as int)[k] == x;
                            let k2 = if k < i { k } else { k + 1 };
                            assert(old_view[k2] == x);
                            assert(k2 != i);
                        }
                        if old(self).active().remove(id@).contains(x) {
                            let k = choose|k: int| 0 <= k < old_view.len() && old_view[k] == x;
                            assert(k != i);
                            if k < i {
                                assert(old_view.remove(i as int)[k] == x);
                            } else {
                                assert(old_view.remove(i as int)[k - 1] == x);
                            }
                        }
                    }
                    assert(self.active() =~= old(self).active().remove(id@));
                }
            },
        }
    }

    /// Update the watched folders with the label events, in order: a folder
    /// that is created or updated with notifications on is watched, one that
    /// is updated with notifications off or deleted is not.
    pub fn handle_label_events(&mut self, events: &Vec<LabelEvent>)
        requires
            old(self).wf(),
        ensures
            final(self).wf(),
            final(self).active() == apply_label_events(old(self).active(), events@),
            final(self).last_event() == old(self).last_event(),
    {
        let mut i: usize = 0;
        while i < events.len()
            invariant
                i <= events@.len(),
                self.wf(),
                self.active() == apply_label_events(old(self).active(), events@.take(i as int)),
                self.last_event_id == old(self).last_event_id,
            decreases events@.len() - i,
        {
            let event = &events[i];
            proof {
                assert(events@.take(i + 1).drop_last() =~= events@.take(i as int));
                assert(events@.take(i + 1).last() == events@[i as int]);
            }
            match event.action {
                EventAction::Create => {
                    if let Some(label) = &event.label {
                        if label.notify == Boolean::True {
                            self.insert_folder(label.id.clone());
                        }
                    }
                },
                EventAction::Update | EventAction::UpdateFlags => {
                    if let Some(label) = &event.label {
                        if label.notify == Boolean::True {
                            self.insert_folder(label.id.clone());
                        } else {
                            self.remove_folder(&label.id.0);
                        }
                    }
                },
                EventAction::Delete => {
                    self.remove_folder(&event.id);
                },
            }
            i = i + 1;
        }
        proof {
            assert(events@.take(events@.len() as int) =~= events@);
        }
    }

    /// Whether a message with the labels `label_list` lies in a watched
    /// folder.
    pub fn should_publish_notification(&self, label_list: &Vec<LabelId>) -> (r: bool)
        ensures
            r == publishes(self.active(), label_list@),
    {
        let mut i: usize = 0;
        while i < label_list.len()
            invariant
                i <= label_list@.len(),
                forall|j: int| 0 <= j < i ==> !self.active().contains((#[trigger] label_list@[j])@),
            decreases label_list@.len() - i,
        {
            if self.position(&label_list[i].0).is_some() {
                proof {
                    assert(self.active().contains(label_list@[i as int]@)) by {
                        let k = choose|k: int| 0 <= k < self.active_folder_ids@.len() && self.active_folder_ids@[k]@ == label_list@[i as int]@;
                        assert(label_ids_view(self.active_folder_ids@)[k] == label_list@[i as int]@);
                    }
                }
                return true;
            }
            i = i + 1;
        }
        false
    }

    /// First-time setup, first step: remember the latest event.
    pub fn set_last_event(&mut self, latest_event_id: String)
        requires
            old(self).wf(),
        ensures
            final(self).wf(),
            final(self).last_event() == Some(latest_event_id),
            final(self).active() == old(self).active(),
    {
        self.last_event_id = Some(latest_event_id);
    }

    /// First-time setup, second step: watch each folder that has
    /// notifications on.
    pub fn watch_folders(&mut self, folders: Vec<Label>)
        requires
            old(self).wf(),
        ensures
            final(self).wf(),
            final(self).last_event() == old(self).last_event(),
            final(self).active() == old(self).active().union(Set::new(|x: Seq<char>| exists|i: int| 0 <= i < folders@.len()
                && folders@[i].notify == Boolean::True && (#[trigger] folders@[i]).id@ == x)),
    {
        let ghost latest_event_id = self.last_event_id;
        let ghost target = Set::new(|x: Seq<char>| exists|i: int| 0 <= i < folders@.len()
                && folders@[i].notify == Boolean::True && (#[trigger] folders@[i]).id@ == x);
        let mut i: usize = 0;
        while i < folders.len()
            invariant
                i <= folders@.len(),
                self.wf(),
                self.last_event_id == latest_event_id,
                self.active() == old(self).active().union(Set::new(|x: Seq<char>| exists|j: int| 0 <= j < i
                    && folders@[j].notify == Boolean::True && (#[trigger] folders@[j]).id@ == x)),
            decreases folders@.len() - i,
        {
            let ghost before = self.active();
            if folders[i].notify == Boolean::True {
                self.insert_folder(folders[i].id.clone());
            }
            proof {
                let a = Set::new(|x: Seq<char>| exists|j: int| 0 <= j < i
                    && folders@[j].notify == Boolean::True && (#[trigger] folders@[j]).id@ == x);
                let b = Set::new(|x: Seq<char>| exists|j: int| 0 <= j < i + 1
                    && folders@[j].notify == Boolean::True && (#[trigger] folders@[j]).id@ == x);
                assert forall|x: Seq<char>| b.contains(x) <==> (a.contains(x) || (folders@[i as int].notify == Boolean::True && folders@[i as int].id@ == x)) by {
                    if b.contains(x) {
                        let j = choose|j: int| 0 <= j < i + 1 && folders@[j].notify == Boolean::True && (#[trigger] folders@[j]).id@ == x;
                        if j < i {
                            assert(a.contains(x));
                        }
                    }
                }
                assert(self.active() =~= old(self).active().union(b));
            }
            i = i + 1;
        }
        proof {
            assert(target =~= Set::new(|x: Seq<char>| exists|j: int| 0 <= j < folders@.len()
                && folders@[j].notify == Boolean::True && (#[trigger] folders@[j]).id@ == x));
        }
    }
}

/// Value of a collected message: ID, sender and subject.
pub type MsgView = (Seq<char>, Seq<char>, Seq<char>);

/// The sender shown for a message: its sender name, else its address.
pub open spec fn sender_of(m: Message) -> Seq<char> {
    match m.sender_name {
        Some(n) => n@,
        None => m.sender_address@,
    }
}

/// Where the scan of a message event stream stands: the new messages
/// collected, in order, and the IDs of those still unseen.
pub struct MsgScan {
    pub emails: Seq<MsgView>,
    pub unseen: Set<Seq<char>>,
}

/// One message event. A message that is created already read was opened by
/// another client: it is passed over. A new unread message in a watched
/// folder is collected and unseen; one that is read later, or deleted, is no
/// longer unseen.
pub open spec fn msg_step(st: MsgScan, ev: MessageEvent, active: Set<Seq<char>>) -> MsgScan {
    match ev.action {
        EventAction::Create => match ev.message {
            Some(m) => if m.unread != Boolean::False && publishes(active, m.labels@) {
                MsgScan {
                    emails: st.emails.push((m.id@, sender_of(m), m.subject@)),
                    unseen: st.unseen.insert(m.id@),
                }
            } else {
                st
            },
            None => st,
        },
        EventAction::Update | EventAction::UpdateFlags => match ev.message {
            Some(m) => if m.unread == Boolean::False {
                MsgScan { unseen: st.unseen.remove(m.id@), ..st }
            } else {
                st
            },
            None => st,
        },
        EventAction::Delete => MsgScan { unseen: st.unseen.remove(ev.id@), ..st },
    }
}

/// The scan after a list of message events, in order.
pub open spec fn msg_scan(st: MsgScan, evs: Seq<MessageEvent>, active: Set<Seq<char>>) -> MsgScan
    decreases evs.len(),
{
    if evs.len() == 0 {
        st
    } else {
        msg_step(msg_scan(st, evs.drop_last(), active), evs.last(), active)
    }
}

/// Whether a message with these labels is in the inbox.
pub open spec fn in_inbox(labels: Seq<LabelId>) -> bool {
    exists|i: int| 0 <= i < labels.len() && (#[trigger] labels[i])@ == "0"@
}

/// One message event, for an account whose inbox alone is watched: as
/// [`msg_step`] with the inbox as the one watched folder, except that an
/// update also makes a message seen once it has left the inbox.
pub open spec fn inbox_step(st: MsgScan, ev: MessageEvent) -> MsgScan {
    match ev.action {
        EventAction::Create => match ev.message {
            Some(m) => if m.unread != Boolean::False && in_inbox(m.labels@) {
                MsgScan {
                    emails: st.emails.push((m.id@, sender_of(m), m.subject@)),
                    unseen: st.unseen.insert(m.id@),
                }
            } else {
                st
            },
            None => st,
        },
        EventAction::Update | EventAction::UpdateFlags => match ev.message {
            Some(m) => if m.unread == Boolean::False || !in_inbox(m.labels@) {
                MsgScan { unseen: st.unseen.remove(m.id@), ..st }
            } else {
                st
            },
            None => st,
        },
        EventAction::Delete => MsgScan { unseen: st.unseen.remove(ev.id@), ..st },
    }
}

/// The inbox-only scan after a list of message events, in order.
pub open spec fn inbox_scan(st: MsgScan, evs: Seq<MessageEvent>) -> MsgScan
    decreases evs.len(),
{
    if evs.len() == 0 {
        st
    } else {
        inbox_step(inbox_scan(st, evs.drop_last()), evs.last())
    }
}

/// The emails to announce: the collected messages that are still unseen,
/// in the order they arrived.
pub open spec fn reply_of(emails: Seq<MsgView>, unseen: Set<Seq<char>>) -> Seq<(Seq<char>, Seq<char>)>
    decreases emails.len(),
{
    if emails.len() == 0 {
        seq![]
    } else {
        let rest = reply_of(emails.drop_last(), unseen);
        if unseen.contains(emails.last().0) {
            rest.push((emails.last().1, emails.last().2))
        } else {
            rest
        }
    }
}

/// A message collected while scanning events.
#[derive(Debug)]
pub struct MsgInfo {
    pub id: String,
    pub sender: String,
    pub subject: String,
}

impl View for MsgInfo {
    type V = MsgView;

    open spec fn view(&self) -> MsgView {
        (self.id@, self.sender@, self.subject@)
    }
}

/// The values of a list of collected messages.
pub open spec fn msgs_view(v: Seq<MsgInfo>) -> Seq<MsgView> {
    v.map_values(|m: MsgInfo| m@)
}

/// Tracks the messages of an event stream, so that a notification is shown
/// only for a message that no other client has opened.
#[derive(Debug)]
pub struct EventState {
    new_emails: Vec<MsgInfo>,
    unseen: Vec<String>,
}

impl EventState {
    /// The collected messages.
    pub closed spec fn emails(&self) -> Seq<MsgView> {
        msgs_view(self.new_emails@)
    }

    /// The IDs of the collected messages that are still unseen.
    pub closed spec fn unseen_ids(&self) -> Set<Seq<char>> {
        str_set(self.unseen@)
    }

    /// No ID is listed twice.
    pub closed spec fn wf(&self) -> bool {
        forall|i: int, j: int| 0 <= i < self.unseen@.len() && 0 <= j < self.unseen@.len() && i != j
            ==> (#[trigger] self.unseen@[i])@ != (#[trigger] self.unseen@[j])@
    }

    /// The scan this state stands for.
    pub open spec fn scan(&self) -> MsgScan {
        MsgScan { emails: self.emails(), unseen: self.unseen_ids() }
    }

    /// Nothing collected.
    pub fn new() -> (r: Self)
        ensures
            r.wf(),
            r.emails() == Seq::<MsgView>::empty(),
            r.unseen_ids() == Set::<Seq<char>>::empty(),
    {
        let r = EventState { new_emails: Vec::new(), unseen: Vec::new() };
        proof {
            assert(r.emails() =~= Seq::<MsgView>::empty());
            assert(r.unseen_ids() =~= Set::<Seq<char>>::empty());
        }
        r
    }

    fn unseen_position(&self, id: &String) -> (r: Option<usize>)
        ensures
            r matches Some(i) ==> i < self.unseen@.len() && self.unseen@[i as int]@ == id@,
            r is None ==> !self.unseen_ids().contains(id@),
    {
        let mut i: usize = 0;
        while i < self.unseen.len()
            invariant
                i <= self.unseen@.len(),
                forall|j: int| 0 <= j < i ==> self.unseen@[j]@ != id@,
            decreases self.unseen@.len() - i,
        {
            if self.unseen[i].eq(id) {
                return Some(i);
            }
            i = i + 1;
        }
        None
    }

    fn mark_unseen(&mut self, id: String)
        requires
            old(self).wf(),
        ensures
            final(self).wf(),
            final(self).unseen_ids() == old(self).unseen_ids().insert(id@),
            final(self).emails() == old(self).emails(),
    {
        if self.unseen_position(&id).is_none() {
            let ghost x = id@;
            self.unseen.push(id);
            proof {
                assert forall|y: Seq<char>| self.unseen_ids().contains(y) <==> old(self).unseen_ids().insert(x).contains(y) by {
                    if self.unseen_ids().contains(y) {
                        let k = choose|k: int| 0 <= k < self.unseen@.len() && (#[trigger] self.unseen@[k])@ == y;
                        if k < old(self).unseen@.len() {
                            assert(old(self).unseen@[k] == self.unseen@[k]);
                        }
                    }
                    if old(self).unseen_ids().contains(y) {
                        let k = choose|k: int| 0 <= k < old(self).unseen@.len() && (#[trigger] old(self).unseen@[k])@ == y;
                        assert(self.unseen@[k] == old(self).unseen@[k]);
                    }
                    if y == x {
                        assert(self.unseen@[old(self).unseen@.len() as int]@ == y);
                    }
                }
                assert(self.unseen_ids() =~= old(self).unseen_ids().insert(x));
                assert forall|i: int, j: int| 0 <= i < self.unseen@.len() && 0 <= j < self.unseen@.len() && i != j
                    implies (#[trigger] self.unseen@[i])@ != (#[trigger] self.unseen@[j])@ by {
                    if i < old(self).unseen@.len() && j < old(self).unseen@.len() {
                        assert(self.unseen@[i] == old(self).unseen@[i]);
                        assert(self.unseen@[j] == old(self).unseen@[j]);
                    } else if i < old(self).unseen@.len() {
                        assert(self.unseen@[i] == old(self).unseen@[i]);
                        assert(old(self).unseen_ids().contains(old(self).unseen@[i]@));
                    } else {
                        assert(self.unseen@[j] == old(self).unseen@[j]);
                        assert(old(self).unseen_ids().contains(old(self).unseen@[j]@));
                    }
                }
            }
        } else {
            proof {
                assert(self.unseen_ids() =~= old(self).unseen_ids().insert(id@));
            }
        }
    }

    fn mark_seen(&mut self, id: &String)
        requires
            old(self).wf(),
        ensures
            final(self).wf(),
            final(self).unseen_ids() == old(self).unseen_ids().remove(id@),
            final(self).emails() == old(self).emails(),
    {
        match self.unseen_position(id) {
            None => {
                proof {
                    assert(self.unseen_ids() =~= old(self).unseen_ids().remove(id@));
                }
            },
            Some(i) => {
                let ghost ov = self.unseen@;
                self.unseen.remove(i);
                proof {
                    assert(self.unseen@ =~= ov.remove(i as int));
                    assert forall|y: Seq<char>| self.unseen_ids().contains(y) <==> old(self).unseen_ids().remove(id@).contains(y) by {
                        if self.unseen_ids().contains(y) {
                            let k = choose|k: int| 0 <= k < self.unseen@.len() && (#[trigger] self.unseen@[k])@ == y;
                            let k2 = if k < i { k } else { k + 1 };
                            assert(ov[k2] == self.unseen@[k]);
                            assert(k2 != i);
                        }
                        if old(self).unseen_ids().remove(id@).contains(y) {
                            let k = choose|k: int| 0 <= k < ov.len() && (#[trigger] ov[k])@ == y;
                            assert(k != i);
                            if k < i {
                                assert(self.unseen@[k] == ov[k]);
                            } else {
                                assert(self.unseen@[k - 1] == ov[k]);
                            }
                        }
                    }
                    assert(self.unseen_ids() =~= old(self).unseen_ids().remove(id@));
                    assert forall|a: int, b: int| 0 <= a < self.unseen@.len() && 0 <= b < self.unseen@.len() && a != b
                        implies (#[trigger] self.unseen@[a])@ != (#[trigger] self.unseen@[b])@ by {
                        let a2 = if a < i { a } else { a + 1 };
                        let b2 = if b < i { b } else { b + 1 };
                        assert(self.unseen@[a] == ov[a2]);
                        assert(self.unseen@[b] == ov[b2]);
                    }
                }
            },
        }
    }

    /// Scan message events in order, against the folders that `state`
    /// watches; see [`msg_step`].
    pub fn handle_message_events(&mut self, msg_events: &Vec<MessageEvent>, state: &TaskState)
        requires
            old(self).wf(),
        ensures
            final(self).wf(),
            final(self).scan() == msg_scan(old(self).scan(), msg_events@, state.active()),
    {
        let ghost st0 = self.scan();
        let mut i: usize = 0;
        while i < msg_events.len()
            invariant
                i <= msg_events@.len(),
                self.wf(),
                self.scan() == msg_scan(st0, msg_events@.take(i as int), state.active()),
                st0 == old(self).scan(),
            decreases msg_events@.len() - i,
        {
            let msg_event = &msg_events[i];
            proof {
                assert(msg_events@.take(i + 1).drop_last() =~= msg_events@.take(i as int));
                assert(msg_events@.take(i + 1).last() == msg_events@[i as int]);
            }
            match msg_event.action {
                EventAction::Create => {
                    if let Some(message) = &msg_event.message {
                        if message.unread != Boolean::False && state.should_publish_notification(&message.labels) {
                            let sender = match &message.sender_name {
                                Some(name) => name.clone(),
                                None => message.sender_address.clone(),
                            };
                            let ghost before = self.emails();
                            self.new_emails.push(MsgInfo {
                                id: message.id.clone(),
                                subject: message.subject.clone(),
                                sender,
                            });
                            proof {
                                assert(self.emails() =~= before.push((message.id@, sender_of(*message), message.subject@)));
                            }
                            self.mark_unseen(message.id.clone());
                        }
                    }
                },
                EventAction::Update | EventAction::UpdateFlags => {
                    if let Some(message) = &msg_event.message {
                        if message.unread == Boolean::False {
                            self.mark_seen(&message.id);
                        }
                    }
                },
                EventAction::Delete => {
                    self.mark_seen(&msg_event.id);
                },
            }
            i = i + 1;
        }
        proof {
            assert(msg_events@.take(msg_events@.len() as int) =~= msg_events@);
        }
    }

    /// Scan message events in order, for an account whose inbox alone is
    /// watched; see [`inbox_step`].
    pub fn handle_inbox_message_events(&mut self, msg_events: &Vec<MessageEvent>)
        requires
            old(self).wf(),
        ensures
            final(self).wf(),
            final(self).scan() == inbox_scan(old(self).scan(), msg_events@),
    {
        let ghost st0 = self.scan();
        let inbox = LabelId::inbox();
        let mut i: usize = 0;
        while i < msg_events.len()
            invariant
                i <= msg_events@.len(),
                self.wf(),
                inbox@ == "0"@,
                self.scan() == inbox_scan(st0, msg_events@.take(i as int)),
                st0 == old(self).scan(),
            decreases msg_events@.len() - i,
        {
            let msg_event = &msg_events[i];
            proof {
                assert(msg_events@.take(i + 1).drop_last() =~= msg_events@.take(i as int));
                assert(msg_events@.take(i + 1).last() == msg_events@[i as int]);
            }
            match msg_event.action {
                EventAction::Create => {
                    if let Some(message) = &msg_event.message {
                        if message.unread != Boolean::False && contains_label(&message.labels, &inbox) {
                            let sender = match &message.sender_name {
                                Some(name) => name.clone(),
                                None => message.sender_address.clone(),
                            };
                            let ghost before = self.emails();
                            self.new_emails.push(MsgInfo {
                                id: message.id.clone(),
                                subject: message.subject.clone(),
                                sender,
                            });
                            proof {
                                assert(self.emails() =~= before.push((message.id@, sender_of(*message), message.subject@)));
                            }
                            self.mark_unseen(message.id.clone());
                        }
                    }
                },
                EventAction::Update | EventAction::UpdateFlags => {
                    if let Some(message) = &msg_event.message {
                        if message.unread == Boolean::False || !contains_label(&message.labels, &inbox) {
                            self.mark_seen(&message.id);
                        }
                    }
                },
                EventAction::Delete => {
                    self.mark_seen(&msg_event.id);
                },
            }
            i = i + 1;
        }
        proof {
            assert(msg_events@.take(msg_events@.len() as int) =~= msg_events@);
        }
    }

    /// The emails to announce: the collected messages that are still unseen,
    /// in the order they arrived.
    pub fn into_new_email_reply(self) -> (r: NewEmailReply)
        ensures
            crate::backend::emails_view(r.emails@) == reply_of(self.emails(), self.unseen_ids()),
    {
        if self.unseen.len() == 0 {
            proof {
                assert(self.unseen_ids() =~= Set::<Seq<char>>::empty());
                lemma_reply_of_none_unseen(self.emails());
            }
            return NewEmailReply { emails: Vec::new() };
        }
        let mut result: Vec<EmailInfo> = Vec::new();
        let mut i: usize = 0;
        while i < self.new_emails.len()
            invariant
                i <= self.new_emails@.len(),
                crate::backend::emails_view(result@) == reply_of(self.emails().take(i as int), self.unseen_ids()),
            decreases self.new_emails@.len() - i,
        {
            let msg = &self.new_emails[i];
            proof {
                assert(self.emails().take(i + 1).drop_last() =~= self.emails().take(i as int));
                assert(self.emails().take(i + 1).last() == msg@);
            }
            let unseen = self.unseen_position(&msg.id).is_some();
            proof {
                if self.unseen_ids().contains(msg.id@) {
                    assert(unseen);
                }
            }
            if unseen {
                let ghost before = result@;
                result.push(EmailInfo { sender: msg.sender.clone(), subject: msg.subject.clone() });
                proof {
                    assert(crate::backend::emails_view(result@) =~= crate::backend::emails_view(before).push((msg.sender@, msg.subject@)));
                    assert(self.unseen_ids().contains(msg.id@)) by {
                        let k = choose|k: int| 0 <= k < self.unseen@.len() && self.unseen@[k]@ == msg.id@;
                    }
                }
            }
            i = i + 1;
        }
        proof {
            assert(self.emails().take(self.new_emails@.len() as int) =~= self.emails());
        }
        NewEmailReply { emails: result }
    }
}

/// Without unseen messages there is nothing to announce.
pub proof fn lemma_reply_of_none_unseen(emails: Seq<MsgView>)
    ensures
        reply_of(emails, Set::<Seq<char>>::empty()) == Seq::<(Seq<char>, Seq<char>)>::empty(),
    decreases emails.len(),
{
    if emails.len() > 0 {
        lemma_reply_of_none_unseen(emails.drop_last());
    }
}

/// Whether `labels` holds `id`.
fn contains_label(labels: &Vec<LabelId>, id: &LabelId) -> (r: bool)
    ensures
        r == exists|i: int| 0 <= i < labels@.len() && (#[trigger] labels@[i])@ == id@,
{
    let mut i: usize = 0;
    while i < labels.len()
        invariant
            i <= labels@.len(),
            forall|j: int| 0 <= j < i ==> (#[trigger] labels@[j])@ != id@,
        decreases labels@.len() - i,
    {
        if labels[i].0.eq(&id.0) {
            return true;
        }
        i = i + 1;
    }
    false
}

/// Where the walk through an account's event stream stands: the last event
/// read and whether the server said more were waiting.
#[derive(Debug)]
pub struct EventCursor {
    pub event_id: String,
    pub has_more: MoreEvents,
}

impl TaskState {
    /// Take in one event fetched at `cursor`. An event that is the one already
    /// read, with no more waiting, ends the walk (`false`). Any other event
    /// has its messages scanned into `result` for the inbox alone (see
    /// [`inbox_step`]), and moves the cursor and the last event seen to it
    /// (`true`).
    pub fn apply_event(&mut self, cursor: &mut EventCursor, result: &mut EventState, event: Event) -> (r: bool)
        requires
            old(self).wf(),
            old(result).wf(),
        ensures
            final(self).wf(),
            final(result).wf(),
            r == (event.event_id@ != old(cursor).event_id@ || old(cursor).has_more == MoreEvents::Yes),
            final(self).active() == old(self).active(),
            !r ==> (final(self).last_event() == old(self).last_event()
                && final(result).scan() == old(result).scan() && final(cursor).event_id@ == old(cursor).event_id@
                && final(cursor).has_more == old(cursor).has_more),
            r ==> {
                &&& final(self).last_event() matches Some(id) && id@ == event.event_id@
                &&& final(cursor).event_id@ == event.event_id@
                &&& final(cursor).has_more == event.more
                &&& final(result).scan() == match event.messages {
                    Some(m) => inbox_scan(old(result).scan(), m@),
                    None => old(result).scan(),
                }
            },
    {
        if event.event_id.eq(&cursor.event_id) && cursor.has_more == MoreEvents::No {
            return false;
        }
        if let Some(message_events) = &event.messages {
            result.handle_inbox_message_events(message_events);
        }
        self.last_event_id = Some(event.event_id.clone());
        cursor.event_id = event.event_id;
        cursor.has_more = event.more;
        true
    }
}

/// Law: a message that is deleted, or read, after it was collected is not
/// announced.
pub proof fn law_removed_message_not_announced(st: MsgScan, evs: Seq<MessageEvent>, active: Set<Seq<char>>, id: Seq<char>)
    requires
        evs.len() > 0,
        ({
            ||| evs.last().action == EventAction::Delete && evs.last().id@ == id
            ||| (evs.last().action == EventAction::Update || evs.last().action == EventAction::UpdateFlags)
                && (evs.last().message matches Some(m) && m.unread == Boolean::False && m.id@ == id)
        }),
    ensures
        !msg_scan(st, evs, active).unseen.contains(id),
{
}

/// Law: what is announced is always among the collected messages, and only
/// unseen ones: every unseen ID belongs to a collected message when the scan
/// starts from nothing.
pub proof fn law_unseen_are_collected(evs: Seq<MessageEvent>, active: Set<Seq<char>>)
    ensures
        forall|x: Seq<char>| #[trigger] msg_scan(MsgScan { emails: seq![], unseen: Set::empty() }, evs, active).unseen.contains(x)
            ==> exists|k: int| 0 <= k < msg_scan(MsgScan { emails: seq![], unseen: Set::empty() }, evs, active).emails.len()
                && (#[trigger] msg_scan(MsgScan { emails: seq![], unseen: Set::empty() }, evs, active).emails[k]).0 == x,
    decreases evs.len(),
{
    let st0 = MsgScan { emails: seq![], unseen: Set::empty() };
    if evs.len() > 0 {
        law_unseen_are_collected(evs.drop_last(), active);
        let prev = msg_scan(st0, evs.drop_last(), active);
        let cur = msg_scan(st0, evs, active);
        assert forall|x: Seq<char>| #[trigger] cur.unseen.contains(x) implies exists|k: int| 0 <= k < cur.emails.len() && (#[trigger] cur.emails[k]).0 == x by {
            if prev.unseen.contains(x) {
                let k = choose|k: int| 0 <= k < prev.emails.len() && (#[trigger] prev.emails[k]).0 == x;
                assert(cur.emails[k] == prev.emails[k]);
            } else {
                assert(cur.emails.last().0 == x);
            }
        }
    }
}

/// Law: a message that arrives already read was opened by another client:
/// it is passed over, and the scan goes on with the next event.
pub proof fn law_read_on_arrival_skipped(st: MsgScan, evs: Seq<MessageEvent>, k: int, active: Set<Seq<char>>)
    requires
        0 <= k < evs.len(),
        evs[k].action == EventAction::Create,
        evs[k].message matches Some(m) && m.unread == Boolean::False,
    ensures
        msg_scan(st, evs.take(k + 1), active) == msg_scan(st, evs.take(k), active),
{
    assert(evs.take(k + 1).drop_last() =~= evs.take(k));
    assert(evs.take(k + 1).last() == evs[k]);
}

/// Whether `ev` is the creation of the unread message `id` in the inbox.
pub open spec fn is_inbox_arrival(ev: MessageEvent, id: Seq<char>) -> bool {
    ev.action == EventAction::Create && match ev.message {
        Some(m) => m.id@ == id && m.unread == Boolean::True && in_inbox(m.labels@),
        None => false,
    }
}

/// Whether `evs` holds the creation of the unread message `id` in the
/// inbox.
pub open spec fn created_in_inbox(evs: Seq<MessageEvent>, id: Seq<char>) -> bool {
    exists|i: int| 0 <= i < evs.len() && is_inbox_arrival(#[trigger] evs[i], id)
}

/// Law: an account whose inbox alone is watched is told only of messages
/// that arrived, unread, in its inbox.
pub proof fn law_inbox_only(evs: Seq<MessageEvent>)
    ensures
        forall|k: int|
            0 <= k < inbox_scan(MsgScan { emails: seq![], unseen: Set::empty() }, evs).emails.len()
                ==> created_in_inbox(
                evs,
                (#[trigger] inbox_scan(MsgScan { emails: seq![], unseen: Set::empty() }, evs).emails[k]).0,
            ),
    decreases evs.len(),
{
    let st0 = MsgScan { emails: seq![], unseen: Set::empty() };
    if evs.len() > 0 {
        let p = evs.drop_last();
        law_inbox_only(p);
        let prev = inbox_scan(st0, p);
        let cur = inbox_scan(st0, evs);
        assert forall|k: int| 0 <= k < cur.emails.len() implies created_in_inbox(evs, (#[trigger] cur.emails[k]).0) by {
            if k < prev.emails.len() {
                assert(cur.emails[k] == prev.emails[k]);
                assert(created_in_inbox(p, prev.emails[k].0));
                let i = choose|i: int| 0 <= i < p.len() && is_inbox_arrival(#[trigger] p[i], prev.emails[k].0);
                assert(evs[i] == p[i]);
            } else {
                let last = evs.len() - 1;
                assert(evs[last] == evs.last());
                assert(is_inbox_arrival(evs[last], cur.emails[k].0));
            }
        }
    }
}

/// Whether `ev` is the creation of the unread message `id` in a folder of
/// `active`.
pub open spec fn is_watched_arrival(ev: MessageEvent, id: Seq<char>, active: Set<Seq<char>>) -> bool {
    ev.action == EventAction::Create && match ev.message {
        Some(m) => m.id@ == id && m.unread == Boolean::True && publishes(active, m.labels@),
        None => false,
    }
}

/// Law: an account is told only of messages that arrived, unread, in one of
/// its watched folders.
pub proof fn law_watched_folders_only(evs: Seq<MessageEvent>, active: Set<Seq<char>>)
    ensures
        forall|k: int|
            0 <= k < msg_scan(MsgScan { emails: seq![], unseen: Set::empty() }, evs, active).emails.len()
                ==> exists|i: int|
                0 <= i < evs.len() && is_watched_arrival(
                    #[trigger] evs[i],
                    (#[trigger] msg_scan(MsgScan { emails: seq![], unseen: Set::empty() }, evs, active).emails[k]).0,
                    active,
                ),
    decreases evs.len(),
{
    let st0 = MsgScan { emails: seq![], unseen: Set::empty() };
    if evs.len() > 0 {
        let p = evs.drop_last();
        law_watched_folders_only(p, active);
        let prev = msg_scan(st0, p, active);
        let cur = msg_scan(st0, evs, active);
        assert forall|k: int| 0 <= k < cur.emails.len() implies exists|i: int|
            0 <= i < evs.len() && is_watched_arrival(#[trigger] evs[i], (#[trigger] cur.emails[k]).0, active) by {
            if k < prev.emails.len() {
                assert(cur.emails[k] == prev.emails[k]);
                let i = choose|i: int| 0 <= i < p.len() && is_watched_arrival(#[trigger] p[i], prev.emails[k].0, active);
                assert(evs[i] == p[i]);
            } else {
                let last = evs.len() - 1;
                assert(evs[last] == evs.last());
                assert(is_watched_arrival(evs[last], cur.emails[k].0, active));
            }
        }
    }
}

/// Whether `ev` takes the message `id` off the list of those to announce in
/// an inbox-only scan: it reports the message read, or moved out of the
/// inbox, or deleted.
pub open spec fn inbox_drops(ev: MessageEvent, id: Seq<char>) -> bool {
    ||| ev.action == EventAction::Delete && ev.id@ == id
    ||| (ev.action == EventAction::Update || ev.action == EventAction::UpdateFlags) && match ev.message {
        Some(m) => m.id@ == id && (m.unread == Boolean::False || !in_inbox(m.labels@)),
        None => false,
    }
}

/// Once an event of the stream drops the message `id`, it stays dropped
/// unless it arrives again, unread, in the inbox.
proof fn lemma_inbox_dropped_stays(st: MsgScan, evs: Seq<MessageEvent>, k: int, id: Seq<char>)
    requires
        0 <= k < evs.len(),
        inbox_drops(evs[k], id),
        forall|j: int| k < j < evs.len() ==> !is_inbox_arrival(#[trigger] evs[j], id),
    ensures
        !inbox_scan(st, evs).unseen.contains(id),
    decreases evs.len(),
{
    let p = evs.drop_last();
    let last = evs.len() - 1;
    assert(evs[last] == evs.last());
    if k < last {
        assert forall|j: int| k < j < p.len() implies !is_inbox_arrival(#[trigger] p[j], id) by {
            assert(p[j] == evs[j]);
        }
        assert(p[k] == evs[k]);
        lemma_inbox_dropped_stays(st, p, k, id);
        assert(!is_inbox_arrival(evs[last], id));
    }
}

/// Law: in an inbox-only scan, a message that is read (on any client) or
/// moved out of the inbox is not announced, unless it arrives again, unread,
/// in the inbox later in the stream.
pub proof fn law_inbox_read_or_moved_not_announced(st: MsgScan, evs: Seq<MessageEvent>, k: int, id: Seq<char>)
    requires
        0 <= k < evs.len(),
        evs[k].action == EventAction::Update || evs[k].action == EventAction::UpdateFlags,
        evs[k].message matches Some(m) && m.id@ == id && (m.unread == Boolean::False || !in_inbox(m.labels@)),
        forall|j: int| k < j < evs.len() ==> !is_inbox_arrival(#[trigger] evs[j], id),
    ensures
        !inbox_scan(st, evs).unseen.contains(id),
        reply_of(inbox_scan(st, evs).emails, inbox_scan(st, evs).unseen) == reply_of(
            inbox_scan(st, evs).emails.filter(other_than(id)),
            inbox_scan(st, evs).unseen,
        ),
{
    lemma_inbox_dropped_stays(st, evs, k, id);
    lemma_reply_without_seen(inbox_scan(st, evs).emails, inbox_scan(st, evs).unseen, id);
}

/// Law: in an inbox-only scan, a message that is deleted is not announced,
/// unless it arrives again, unread, in the inbox later in the stream.
pub proof fn law_inbox_deleted_not_announced(st: MsgScan, evs: Seq<MessageEvent>, k: int, id: Seq<char>)
    requires
        0 <= k < evs.len(),
        evs[k].action == EventAction::Delete,
        evs[k].id@ == id,
        forall|j: int| k < j < evs.len() ==> !is_inbox_arrival(#[trigger] evs[j], id),
    ensures
        !inbox_scan(st, evs).unseen.contains(id),
        reply_of(inbox_scan(st, evs).emails, inbox_scan(st, evs).unseen) == reply_of(
            inbox_scan(st, evs).emails.filter(other_than(id)),
            inbox_scan(st, evs).unseen,
        ),
{
    lemma_inbox_dropped_stays(st, evs, k, id);
    lemma_reply_without_seen(inbox_scan(st, evs).emails, inbox_scan(st, evs).unseen, id);
}

/// Whether a collected message is other than the message `id`.
pub open spec fn other_than(id: Seq<char>) -> spec_fn(MsgView) -> bool {
    |e: MsgView| e.0 != id
}

/// A message that is no longer unseen takes no part in the reply: the reply
/// is the same as if it had never been collected.
pub proof fn lemma_reply_without_seen(emails: Seq<MsgView>, unseen: Set<Seq<char>>, id: Seq<char>)
    requires
        !unseen.contains(id),
    ensures
        reply_of(emails, unseen) == reply_of(emails.filter(other_than(id)), unseen),
    decreases emails.len(),
{
    reveal(Seq::filter);
    if emails.len() > 0 {
        lemma_reply_without_seen(emails.drop_last(), unseen, id);
        let f = emails.filter(other_than(id));
        if emails.last().0 != id {
            assert(f.drop_last() == emails.drop_last().filter(other_than(id)));
            assert(f.last() == emails.last());
        }
    }
}

/// A collected message that is still unseen is announced with the sender
/// and subject it was collected with.
pub proof fn lemma_reply_of_unseen(emails: Seq<MsgView>, unseen: Set<Seq<char>>, p: int)
    requires
        0 <= p < emails.len(),
        unseen.contains(emails[p].0),
    ensures
        reply_of(emails, unseen).contains((emails[p].1, emails[p].2)),
    decreases emails.len(),
{
    let last = emails.len() - 1;
    if p == last {
        let r = reply_of(emails, unseen);
        assert(r[r.len() - 1] == (emails[p].1, emails[p].2));
    } else {
        assert(emails.drop_last()[p] == emails[p]);
        lemma_reply_of_unseen(emails.drop_last(), unseen, p);
        let rest = reply_of(emails.drop_last(), unseen);
        let i = choose|i: int| 0 <= i < rest.len() && rest[i] == (emails[p].1, emails[p].2);
        if unseen.contains(emails.last().0) {
            assert(rest.push((emails.last().1, emails.last().2))[i] == rest[i]);
        }
    }
}

/// An unread message that arrives in the inbox, and is not dropped later in
/// the stream, stays unseen and collected with its sender and subject.
proof fn lemma_inbox_arrival_kept(st: MsgScan, evs: Seq<MessageEvent>, k: int, id: Seq<char>)
    requires
        0 <= k < evs.len(),
        is_inbox_arrival(evs[k], id),
        forall|j: int| k < j < evs.len() ==> !inbox_drops(#[trigger] evs[j], id),
    ensures
        inbox_scan(st, evs).unseen.contains(id),
        inbox_scan(st, evs).emails.contains((id, sender_of(evs[k].message->Some_0), evs[k].message->Some_0.subject@)),
    decreases evs.len(),
{
    let p = evs.drop_last();
    let last = evs.len() - 1;
    assert(evs[last] == evs.last());
    let cur = inbox_scan(st, evs);
    let entry = (id, sender_of(evs[k].message->Some_0), evs[k].message->Some_0.subject@);
    if k == last {
        assert(cur.emails[cur.emails.len() - 1] == entry);
    } else {
        assert forall|j: int| k < j < p.len() implies !inbox_drops(#[trigger] p[j], id) by {
            assert(p[j] == evs[j]);
        }
        assert(p[k] == evs[k]);
        lemma_inbox_arrival_kept(st, p, k, id);
        let prev = inbox_scan(st, p);
        assert(!inbox_drops(evs[last], id));
        let i = choose|i: int| 0 <= i < prev.emails.len() && prev.emails[i] == entry;
        assert(cur.emails[i] == entry);
    }
}

/// Law: in an inbox-only scan, an unread message that arrives in the inbox,
/// and is not read, moved out of the inbox or deleted later in the stream,
/// is announced with its sender and subject.
pub proof fn law_inbox_arrival_announced(st: MsgScan, evs: Seq<MessageEvent>, k: int, id: Seq<char>)
    requires
        0 <= k < evs.len(),
        is_inbox_arrival(evs[k], id),
        forall|j: int| k < j < evs.len() ==> !inbox_drops(#[trigger] evs[j], id),
    ensures
        inbox_scan(st, evs).unseen.contains(id),
        reply_of(inbox_scan(st, evs).emails, inbox_scan(st, evs).unseen).contains(
            (sender_of(evs[k].message->Some_0), evs[k].message->Some_0.subject@),
        ),
{
    lemma_inbox_arrival_kept(st, evs, k, id);
    let cur = inbox_scan(st, evs);
    let entry = (id, sender_of(evs[k].message->Some_0), evs[k].message->Some_0.subject@);
    let i = choose|i: int| 0 <= i < cur.emails.len() && cur.emails[i] == entry;
    lemma_reply_of_unseen(cur.emails, cur.unseen, i);
}

/// Whether `ev` makes the message `id` seen in a scan of watched folders:
/// it reports the message read, or deleted.
pub open spec fn msg_drops(ev: MessageEvent, id: Seq<char>) -> bool {
    ||| ev.action == EventAction::Delete && ev.id@ == id
    ||| (ev.action == EventAction::Update || ev.action == EventAction::UpdateFlags) && match ev.message {
        Some(m) => m.id@ == id && m.unread == Boolean::False,
        None => false,
    }
}

/// An unread message that arrives in a watched folder, and is not dropped
/// later in the stream, stays unseen and collected with its sender and
/// subject.
proof fn lemma_watched_arrival_kept(st: MsgScan, evs: Seq<MessageEvent>, active: Set<Seq<char>>, k: int, id: Seq<char>)
    requires
        0 <= k < evs.len(),
        is_watched_arrival(evs[k], id, active),
        forall|j: int| k < j < evs.len() ==> !msg_drops(#[trigger] evs[j], id),
    ensures
        msg_scan(st, evs, active).unseen.contains(id),
        msg_scan(st, evs, active).emails.contains((id, sender_of(evs[k].message->Some_0), evs[k].message->Some_0.subject@)),
    decreases evs.len(),
{
    let p = evs.drop_last();
    let last = evs.len() - 1;
    assert(evs[last] == evs.last());
    let cur = msg_scan(st, evs, active);
    let entry = (id, sender_of(evs[k].message->Some_0), evs[k].message->Some_0.subject@);
    if k == last {
        assert(cur.emails[cur.emails.len() - 1] == entry);
    } else {
        assert forall|j: int| k < j < p.len() implies !msg_drops(#[trigger] p[j], id) by {
            assert(p[j] == evs[j]);
        }
        assert(p[k] == evs[k]);
        lemma_watched_arrival_kept(st, p, active, k, id);
        let prev = msg_scan(st, p, active);
        assert(!msg_drops(evs[last], id));
        let i = choose|i: int| 0 <= i < prev.emails.len() && prev.emails[i] == entry;
        assert(cur.emails[i] == entry);
    }
}

/// Law: an unread message that arrives in a watched folder, and is not read
/// or deleted later in the stream, is announced with its sender and
/// subject.
pub proof fn law_watched_arrival_announced(st: MsgScan, evs: Seq<MessageEvent>, active: Set<Seq<char>>, k: int, id: Seq<char>)
    requires
        0 <= k < evs.len(),
        is_watched_arrival(evs[k], id, active),
        forall|j: int| k < j < evs.len() ==> !msg_drops(#[trigger] evs[j], id),
    ensures
        msg_scan(st, evs, active).unseen.contains(id),
        reply_of(msg_scan(st, evs, active).emails, msg_scan(st, evs, active).unseen).contains(
            (sender_of(evs[k].message->Some_0), evs[k].message->Some_0.subject@),
        ),
{
    lemma_watched_arrival_kept(st, evs, active, k, id);
    let cur = msg_scan(st, evs, active);
    let entry = (id, sender_of(evs[k].message->Some_0), evs[k].message->Some_0.subject@);
    let i = choose|i: int| 0 <= i < cur.emails.len() && cur.emails[i] == entry;
    lemma_reply_of_unseen(cur.emails, cur.unseen, i);
}

/// Whether a collected message is still unseen.
pub open spec fn still_unseen(unseen: Set<Seq<char>>) -> spec_fn(MsgView) -> bool {
    |e: MsgView| unseen.contains(e.0)
}

/// Law: the reply holds exactly the collected messages that are still
/// unseen, each as its sender and subject, in the order they arrived.
pub proof fn law_reply_is_unseen_in_order(emails: Seq<MsgView>, unseen: Set<Seq<char>>)
    ensures
        reply_of(emails, unseen) == emails.filter(still_unseen(unseen)).map_values(
            |e: MsgView| (e.1, e.2),
        ),
    decreases emails.len(),
{
    reveal(Seq::filter);
    if emails.len() > 0 {
        law_reply_is_unseen_in_order(emails.drop_last(), unseen);
        let f = emails.filter(still_unseen(unseen));
        if unseen.contains(emails.last().0) {
            assert(f.drop_last() == emails.drop_last().filter(still_unseen(unseen)));
            assert(f.map_values(|e: MsgView| (e.1, e.2)) =~= f.drop_last().map_values(|e: MsgView| (e.1, e.2)).push(
                (emails.last().1, emails.last().2),
            ));
        }
    } else {
        assert(emails.filter(still_unseen(unseen)).map_values(|e: MsgView| (e.1, e.2)) =~= seq![]);
    }
}

} // verus!
