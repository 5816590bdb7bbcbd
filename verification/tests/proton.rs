use you_have_mail_common::backend::proton::{EventCursor, EventState, TaskState};
use you_have_mail_common::event::{Event, EventAction, LabelEvent, Message, MessageEvent, MoreEvents};
use you_have_mail_common::label::{Boolean, Id, Label, Type};

fn message(id: &str, labels: &[&str], unread: Boolean, sender_name: Option<&str>) -> Message {
    Message {
        id: id.to_string(),
        labels: labels.iter().map(|l| Id(l.to_string())).collect(),
        subject: format!("subject {id}"),
        sender_address: format!("{id}@example.com"),
        sender_name: sender_name.map(|s| s.to_string()),
        unread,
    }
}

fn created(m: Message) -> MessageEvent {
    MessageEvent { id: m.id.clone(), action: EventAction::Create, message: Some(m) }
}

fn folder(id: &str, notify: Boolean) -> Label {
    Label {
        id: Id(id.to_string()),
        parent_id: None,
        name: id.to_string(),
        path: id.to_string(),
        color: String::new(),
        label_type: Type::Folder,
        notify,
        display: Boolean::True,
        sticky: Boolean::False,
        expanded: Boolean::False,
        order: 0,
    }
}

#[test]
fn new_unread_inbox_message_is_announced() {
    let task = TaskState::new();
    let mut state = EventState::new();
    state.handle_message_events(
        &vec![
            created(message("a", &["0"], Boolean::True, Some("Alice"))),
            created(message("b", &["5"], Boolean::True, None)),
            created(message("c", &["0"], Boolean::True, None)),
        ],
        &task,
    );
    let reply = state.into_new_email_reply();
    assert_eq!(reply.emails.len(), 2);
    assert_eq!(reply.emails[0].sender, "Alice");
    assert_eq!(reply.emails[0].subject, "subject a");
    assert_eq!(reply.emails[1].sender, "c@example.com");
}

#[test]
fn message_read_on_arrival_is_skipped() {
    let task = TaskState::new();
    let mut state = EventState::new();
    state.handle_message_events(
        &vec![
            created(message("a", &["0"], Boolean::False, None)),
            created(message("b", &["0"], Boolean::True, Some("Bob"))),
        ],
        &task,
    );
    let reply = state.into_new_email_reply();
    assert_eq!(reply.emails.len(), 1);
    assert_eq!(reply.emails[0].sender, "Bob");
    assert_eq!(reply.emails[0].subject, "subject b");
}

#[test]
fn message_read_or_deleted_later_is_not_announced() {
    let task = TaskState::new();
    let mut state = EventState::new();
    state.handle_message_events(
        &vec![
            created(message("a", &["0"], Boolean::True, None)),
            created(message("b", &["0"], Boolean::True, None)),
            created(message("c", &["0"], Boolean::True, None)),
            MessageEvent {
                id: "a".to_string(),
                action: EventAction::Update,
                message: Some(message("a", &["0"], Boolean::False, None)),
            },
            MessageEvent { id: "b".to_string(), action: EventAction::Delete, message: None },
        ],
        &task,
    );
    let reply = state.into_new_email_reply();
    assert_eq!(reply.emails.len(), 1);
    assert_eq!(reply.emails[0].subject, "subject c");
}

#[test]
fn custom_folders_follow_label_events() {
    let mut task = TaskState::new();
    assert!(task.should_publish_notification(&vec![Id::inbox()]));
    assert!(!task.should_publish_notification(&vec![Id("custom".to_string())]));
    task.handle_label_events(&vec![LabelEvent {
        id: "custom".to_string(),
        action: EventAction::Create,
        label: Some(folder("custom", Boolean::True)),
    }]);
    assert!(task.should_publish_notification(&vec![Id("custom".to_string())]));
    task.handle_label_events(&vec![LabelEvent {
        id: "custom".to_string(),
        action: EventAction::Update,
        label: Some(folder("custom", Boolean::False)),
    }]);
    assert!(!task.should_publish_notification(&vec![Id("custom".to_string())]));
    task.handle_label_events(&vec![LabelEvent { id: "0".to_string(), action: EventAction::Delete, label: None }]);
    assert!(!task.should_publish_notification(&vec![Id::inbox()]));
}

#[test]
fn init_watches_folders_with_notifications() {
    let mut task = TaskState::new();
    task.set_last_event("e1".to_string());
    task.watch_folders(vec![folder("f1", Boolean::True), folder("f2", Boolean::False)]);
    assert_eq!(task.last_event_id(), &Some("e1".to_string()));
    assert!(task.should_publish_notification(&vec![Id("f1".to_string())]));
    assert!(!task.should_publish_notification(&vec![Id("f2".to_string())]));
    assert!(task.should_publish_notification(&vec![Id::inbox()]));
}

#[test]
fn event_walk_ends_at_the_last_event() {
    let mut task = TaskState::new();
    let mut state = EventState::new();
    let mut cursor = EventCursor { event_id: "e1".to_string(), has_more: MoreEvents::No };
    let next = Event {
        event_id: "e2".to_string(),
        more: MoreEvents::No,
        messages: Some(vec![created(message("a", &["0"], Boolean::True, None))]),
        labels: None,
    };
    assert!(task.apply_event(&mut cursor, &mut state, next));
    assert_eq!(cursor.event_id, "e2");
    assert_eq!(task.last_event_id(), &Some("e2".to_string()));
    let same = Event { event_id: "e2".to_string(), more: MoreEvents::No, messages: None, labels: None };
    assert!(!task.apply_event(&mut cursor, &mut state, same));
    let reply = state.into_new_email_reply();
    assert_eq!(reply.emails.len(), 1);
}

use you_have_mail_common::api::APIError;
use you_have_mail_common::backend::proton_check::{
    refresh_data_changed, CheckInput, CheckStep, ProtonCheck, SessionRefreshData,
};
use you_have_mail_common::backend::proton_errors::HttpError;
use you_have_mail_common::backend::BackendError;

#[test]
fn first_check_sets_up_then_walks_events() {
    let mut task = TaskState::new();
    let (mut check, step) = ProtonCheck::start(false, &task);
    assert!(matches!(step, CheckStep::FetchLatestEvent));
    let step = check.advance(&mut task, CheckInput::LatestEvent(Ok("e1".to_string())));
    assert!(matches!(&step, CheckStep::FetchEvent(id) if id == "e1"));
    assert_eq!(task.last_event_id(), &Some("e1".to_string()));
    let step = check.advance(
        &mut task,
        CheckInput::Event(Ok(Event {
            event_id: "e2".to_string(),
            more: MoreEvents::No,
            messages: Some(vec![
                created(message("m", &["0"], Boolean::True, Some("Bob"))),
                created(message("w", &["work"], Boolean::True, Some("Carol"))),
            ]),
            labels: None,
        })),
    );
    assert!(matches!(&step, CheckStep::FetchEvent(id) if id == "e2"));
    let step = check.advance(
        &mut task,
        CheckInput::Event(Ok(Event { event_id: "e2".to_string(), more: MoreEvents::No, messages: None, labels: None })),
    );
    match step {
        CheckStep::Done(reply) => {
            assert_eq!(reply.emails.len(), 1);
            assert_eq!(reply.emails[0].sender, "Bob");
        }
        _ => panic!("the walk should be over"),
    }
    assert_eq!(task.last_event_id(), &Some("e2".to_string()));
}

#[test]
fn restored_session_with_invalid_token_is_logged_out() {
    let mut task = TaskState::new();
    let (mut check, step) = ProtonCheck::start(true, &task);
    assert!(matches!(step, CheckStep::Refresh));
    let mut e = APIError::new(400);
    e.api_code = 10013;
    let step = check.advance(&mut task, CheckInput::Refreshed(Err(HttpError::API(e))));
    assert!(matches!(step, CheckStep::Failed(BackendError::LoggedOut)));
}

#[test]
fn check_failures_and_unexpected_results() {
    let mut task = TaskState::new();
    task.set_last_event("e5".to_string());
    let (mut check, step) = ProtonCheck::start(false, &task);
    assert!(matches!(&step, CheckStep::FetchEvent(id) if id == "e5"));
    let step = check.advance(&mut task, CheckInput::Event(Err(HttpError::Connection("down".to_string()))));
    assert!(matches!(step, CheckStep::Failed(BackendError::Connection(m)) if m == "down"));
    let (mut check, _) = ProtonCheck::start(false, &task);
    let step = check.advance(&mut task, CheckInput::Refreshed(Ok(())));
    assert!(matches!(step, CheckStep::Failed(BackendError::Unknown(m)) if m == "Unexpected state"));
}

#[test]
fn changed_session_data_is_saved_again() {
    let now = SessionRefreshData { user_uid: "u".to_string(), token: "t2".to_string() };
    let same = SessionRefreshData { user_uid: "u".to_string(), token: "t2".to_string() };
    let older = SessionRefreshData { user_uid: "u".to_string(), token: "t1".to_string() };
    assert!(!refresh_data_changed(&Some(same), &now));
    assert!(refresh_data_changed(&Some(older), &now));
    assert!(refresh_data_changed(&None, &now));
}

#[test]
fn inbox_scan_forgets_messages_that_leave_the_inbox() {
    let mut state = EventState::new();
    state.handle_inbox_message_events(&vec![
        created(message("a", &["0"], Boolean::True, None)),
        created(message("b", &["0"], Boolean::True, None)),
        created(message("c", &["6"], Boolean::True, None)),
        MessageEvent {
            id: "a".to_string(),
            action: EventAction::Update,
            message: Some(message("a", &["6"], Boolean::True, None)),
        },
    ]);
    let reply = state.into_new_email_reply();
    assert_eq!(reply.emails.len(), 1);
    assert_eq!(reply.emails[0].subject, "subject b");
}
