//! The check of a Proton account for new mail, as a sequence of requests:
//! refresh the session if it was restored from saved data, note the latest
//! event the first time, then walk the event stream from the last event
//! seen until the server has nothing newer, collecting the new unread mail
//! of the inbox. The requests themselves are made by the caller, which
//! hands each result back.
use crate::backend::proton::{inbox_scan, reply_of, EventCursor, EventState, MsgScan, TaskState};
use crate::backend::proton_errors::{
    backend_error_from_http, backend_error_from_refresh, http_error_kind, http_error_message, is_invalid_token,
    HttpError,
};
use crate::backend::{BackendError, BackendErrorKind, NewEmailReply};
use crate::event::{Event, MoreEvents};
use vstd::prelude::*;

verus! {

/// The next request of a check, or its end.
#[derive(Debug)]
pub enum CheckStep {
    /// Refresh the session with the saved data.
    Refresh,
    /// Fetch the ID of the latest event.
    FetchLatestEvent,
    /// Fetch the event that follows the given event.
    FetchEvent(String),
    /// The check is over; these are the new emails.
    Done(NewEmailReply),
    /// The check failed.
    Failed(BackendError),
}

/// What the last request gave.
#[derive(Debug)]
pub enum CheckInput {
    Refreshed(Result<(), HttpError>),
    LatestEvent(Result<String, HttpError>),
    Event(Result<Event, HttpError>),
}

/// Which request the check waits for.
#[derive(Debug, Copy, Clone, PartialEq, Eq, Structural)]
pub enum CheckStage {
    Refreshing,
    FetchingLatest,
    Walking,
    Over,
}

/// A check in progress: what it waits for, where it stands in the event
/// stream and what it collected.
#[derive(Debug)]
pub struct ProtonCheck {
    stage: CheckStage,
    cursor: EventCursor,
    result: EventState,
}

/// The first request once the session is usable: fetch the latest event if
/// no event was ever seen, else walk on from the last event seen.
pub open spec fn walk_or_setup(last: Option<String>) -> CheckStage {
    match last {
        None => CheckStage::FetchingLatest,
        Some(_) => CheckStage::Walking,
    }
}

impl ProtonCheck {
    /// The request the check waits for.
    pub closed spec fn stage(&self) -> CheckStage {
        self.stage
    }

    /// What the check collected.
    pub closed spec fn scan(&self) -> MsgScan {
        self.result.scan()
    }

    /// The event the walk stands at and whether the server said more were
    /// waiting.
    pub closed spec fn at(&self) -> (Seq<char>, MoreEvents) {
        (self.cursor.event_id@, self.cursor.has_more)
    }

    /// The collected state is consistent.
    pub closed spec fn wf(&self) -> bool {
        self.result.wf()
    }

    /// Set the check up to walk on from the last event `task` saw, or to
    /// fetch the latest event if it saw none.
    fn walk_from(&mut self, task: &TaskState) -> (r: CheckStep)
        requires
            old(self).wf(),
        ensures
            final(self).wf(),
            final(self).scan() == old(self).scan(),
            final(self).stage() == walk_or_setup(task.last_event()),
            task.last_event() is None ==> r is FetchLatestEvent,
            task.last_event() matches Some(id) ==> (r matches CheckStep::FetchEvent(e) && e@ == id@
                && final(self).at() == (id@, MoreEvents::No)),
    {
        match task.last_event_id() {
            None => {
                self.stage = CheckStage::FetchingLatest;
                CheckStep::FetchLatestEvent
            },
            Some(id) => {
                self.stage = CheckStage::Walking;
                self.cursor = EventCursor { event_id: id.clone(), has_more: MoreEvents::No };
                CheckStep::FetchEvent(id.clone())
            },
        }
    }

    /// Start a check of an account whose watch list is `task`. A session
    /// restored from saved data is refreshed first.
    pub fn start(needs_refresh: bool, task: &TaskState) -> (r: (ProtonCheck, CheckStep))
        ensures
            r.0.wf(),
            r.0.scan() == (MsgScan { emails: Seq::empty(), unseen: Set::empty() }),
            needs_refresh ==> r.0.stage() == CheckStage::Refreshing && r.1 is Refresh,
            !needs_refresh ==> r.0.stage() == walk_or_setup(task.last_event()),
            !needs_refresh && task.last_event() is None ==> r.1 is FetchLatestEvent,
            !needs_refresh && task.last_event() is Some ==> (r.1 matches CheckStep::FetchEvent(e) && e@
                == task.last_event()->Some_0@ && r.0.at() == (e@, MoreEvents::No)),
    {
        let mut check = ProtonCheck {
            stage: CheckStage::Refreshing,
            cursor: EventCursor { event_id: String::new(), has_more: MoreEvents::No },
            result: EventState::new(),
        };
        if needs_refresh {
            (check, CheckStep::Refresh)
        } else {
            let step = check.walk_from(task);
            (check, step)
        }
    }

    /// The check failed with `e`.
    fn fail(&mut self, e: BackendError) -> (r: CheckStep)
        ensures
            final(self).stage() == CheckStage::Over,
            final(self).scan() == old(self).scan(),
            final(self).wf() == old(self).wf(),
            r == CheckStep::Failed(e),
    {
        self.stage = CheckStage::Over;
        CheckStep::Failed(e)
    }

    /// Take in the result of the request the check waited for and say what
    /// comes next. A failed refresh maps as [`backend_error_from_refresh`]
    /// says, any other failed request as [`backend_error_from_http`] says.
    /// The latest event is remembered as soon as it is known, and the walk
    /// starts from it. Each event fetched is taken in by
    /// [`TaskState::apply_event`], which looks at the inbox alone; the walk
    /// ends, with the emails collected, at the first event that is the one
    /// already read with no more waiting. A result that does not answer
    /// the request waited for ends the check as an unknown error.
    pub fn advance(&mut self, task: &mut TaskState, input: CheckInput) -> (r: CheckStep)
        requires
            old(self).wf(),
            old(task).wf(),
        ensures
            final(self).wf(),
            final(task).wf(),
            match (old(self).stage(), input) {
                (CheckStage::Refreshing, CheckInput::Refreshed(Err(e))) => {
                    &&& final(self).stage() == CheckStage::Over
                    &&& is_invalid_token(e) ==> (r matches CheckStep::Failed(BackendError::LoggedOut))
                    &&& !is_invalid_token(e) ==> (r matches CheckStep::Failed(b) && b.kind() == http_error_kind(e)
                        && b.message() == http_error_message(e))
                    &&& *final(task) == *old(task)
                },
                (CheckStage::Refreshing, CheckInput::Refreshed(Ok(()))) => {
                    &&& final(self).stage() == walk_or_setup(old(task).last_event())
                    &&& final(self).scan() == old(self).scan()
                    &&& *final(task) == *old(task)
                    &&& old(task).last_event() is None ==> r is FetchLatestEvent
                    &&& old(task).last_event() is Some ==> (r matches CheckStep::FetchEvent(id) && id@
                        == old(task).last_event()->Some_0@)
                },
                (CheckStage::FetchingLatest, CheckInput::LatestEvent(Err(e))) => {
                    &&& final(self).stage() == CheckStage::Over
                    &&& r matches CheckStep::Failed(b) && b.kind() == http_error_kind(e) && b.message()
                        == http_error_message(e)
                    &&& *final(task) == *old(task)
                },
                (CheckStage::FetchingLatest, CheckInput::LatestEvent(Ok(id))) => {
                    &&& final(task).last_event() == Some(id)
                    &&& final(task).active() == old(task).active()
                    &&& final(self).stage() == CheckStage::Walking
                    &&& final(self).scan() == old(self).scan()
                    &&& r matches CheckStep::FetchEvent(e) && e@ == id@
                    &&& final(self).at() == (id@, MoreEvents::No)
                },
                (CheckStage::Walking, CheckInput::Event(Err(e))) => {
                    &&& final(self).stage() == CheckStage::Over
                    &&& r matches CheckStep::Failed(b) && b.kind() == http_error_kind(e) && b.message()
                        == http_error_message(e)
                    &&& *final(task) == *old(task)
                },
                (CheckStage::Walking, CheckInput::Event(Ok(ev))) => {
                    let moves = ev.event_id@ != old(self).at().0 || old(self).at().1 == MoreEvents::Yes;
                    &&& final(task).active() == old(task).active()
                    &&& moves ==> {
                        &&& final(self).stage() == CheckStage::Walking
                        &&& final(task).last_event() matches Some(id) && id@ == ev.event_id@
                        &&& final(self).at() == (ev.event_id@, ev.more)
                        &&& r matches CheckStep::FetchEvent(next) && next@ == ev.event_id@
                        &&& final(self).scan() == match ev.messages {
                            Some(m) => inbox_scan(old(self).scan(), m@),
                            None => old(self).scan(),
                        }
                    }
                    &&& !moves ==> {
                        &&& final(self).stage() == CheckStage::Over
                        &&& final(task).last_event() == old(task).last_event()
                        &&& r matches CheckStep::Done(reply) && crate::backend::emails_view(reply.emails@)
                            == reply_of(old(self).scan().emails, old(self).scan().unseen)
                    }
                },
                _ => {
                    &&& final(self).stage() == CheckStage::Over
                    &&& *final(task) == *old(task)
                    &&& r matches CheckStep::Failed(b) && b.kind() == BackendErrorKind::Unknown && b.message()
                        == "Unexpected state"@
                },
            },
    {
        match (self.stage, input) {
            (CheckStage::Refreshing, CheckInput::Refreshed(Err(e))) => self.fail(backend_error_from_refresh(e)),
            (CheckStage::Refreshing, CheckInput::Refreshed(Ok(()))) => self.walk_from(task),
            (CheckStage::FetchingLatest, CheckInput::LatestEvent(Err(e))) => self.fail(backend_error_from_http(e)),
            (CheckStage::FetchingLatest, CheckInput::LatestEvent(Ok(id))) => {
                task.set_last_event(id);
                self.walk_from(task)
            },
            (CheckStage::Walking, CheckInput::Event(Err(e))) => self.fail(backend_error_from_http(e)),
            (CheckStage::Walking, CheckInput::Event(Ok(ev))) => {
                if task.apply_event(&mut self.cursor, &mut self.result, ev) {
                    CheckStep::FetchEvent(self.cursor.event_id.clone())
                } else {
                    self.stage = CheckStage::Over;
                    let mut done = EventState::new();
                    std::mem::swap(&mut done, &mut self.result);
                    CheckStep::Done(done.into_new_email_reply())
                }
            },
            _ => {
                proof {
                    reveal_strlit("Unexpected state");
                }
                self.fail(BackendError::Unknown(String::from_str("Unexpected state")))
            },
        }
    }
}

/// What restores a session: the user's ID and the refresh token.
#[derive(Debug)]
pub struct SessionRefreshData {
    pub user_uid: String,
    pub token: String,
}

/// Whether a session's saved data must be written again after a check: it
/// must, unless the data the session had when the check began (none if the
/// session was refreshed during the check) is the data it has now.
pub fn refresh_data_changed(before: &Option<SessionRefreshData>, now: &SessionRefreshData) -> (r: bool)
    ensures
        r == !(before matches Some(b) && b.user_uid@ == now.user_uid@ && b.token@ == now.token@),
{
    match before {
        Some(b) => !(b.user_uid.eq(&now.user_uid) && b.token.eq(&now.token)),
        None => true,
    }
}

} // verus!
