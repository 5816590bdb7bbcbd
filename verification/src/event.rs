//! Events of the mail API: what changed in an account since a given event.
use crate::label::{Boolean, Id as LabelId, Label};
use vstd::prelude::*;

verus! {

/// What happened to the object of an event.
#[derive(Debug, Copy, Clone, PartialEq, Eq, Structural)]
pub enum EventAction {
    Delete,
    Create,
    Update,
    UpdateFlags,
}

/// Whether more events wait after this one.
#[derive(Debug, Copy, Clone, PartialEq, Eq, Structural)]
pub enum MoreEvents {
    No,
    Yes,
}

/// A message as the events describe it.
#[derive(Debug)]
pub struct Message {
    pub id: String,
    pub labels: Vec<LabelId>,
    pub subject: String,
    pub sender_address: String,
    pub sender_name: Option<String>,
    pub unread: Boolean,
}

/// The values of a list of label IDs.
pub open spec fn label_ids_view(ids: Seq<LabelId>) -> Seq<Seq<char>> {
    ids.map_values(|i: LabelId| i@)
}

/// A change to a message.
#[derive(Debug)]
pub struct MessageEvent {
    pub id: String,
    pub action: EventAction,
    pub message: Option<Message>,
}

/// A change to a label.
#[derive(Debug)]
pub struct LabelEvent {
    pub id: String,
    pub action: EventAction,
    pub label: Option<Label>,
}

/// What changed in an account since the previous event.
#[derive(Debug)]
pub struct Event {
    pub event_id: String,
    pub more: MoreEvents,
    pub messages: Option<Vec<MessageEvent>>,
    pub labels: Option<Vec<LabelEvent>>,
}

} // verus!
