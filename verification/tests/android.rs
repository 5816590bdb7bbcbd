use you_have_mail_common::mobile::android::{
    AndroidState, StateError, StateExtension, START_GROUP_ID,
};

fn new_state() -> AndroidState {
    let mut state = AndroidState::new();
    state.android_init_tables().unwrap();
    state
}

#[test]
fn check_get_or_create_notification_ids() {
    let mut state = new_state();

    // Insert first time should start with START_GROUP_ID
    let ids = state
        .android_get_or_create_notification_ids(&"foo".to_string())
        .unwrap();

    assert_eq!(ids.group, START_GROUP_ID);
    assert_eq!(ids.status, START_GROUP_ID + 1);
    assert_eq!(ids.error, START_GROUP_ID + 2);

    // Insert the second time, no changes
    let ids2 = state
        .android_get_or_create_notification_ids(&"foo".to_string())
        .unwrap();
    assert_eq!(ids, ids2);

    // Other account
    let ids3 = state
        .android_get_or_create_notification_ids(&"bar".to_string())
        .unwrap();
    assert_eq!(ids3.group, START_GROUP_ID + 3);
    assert_eq!(ids3.status, START_GROUP_ID + 4);
    assert_eq!(ids3.error, START_GROUP_ID + 5);
}

#[test]
fn check_next_mail_notification_id() {
    let mut state = new_state();

    let id_foo_1 = state.android_next_mail_notification_id(&"foo".to_string()).unwrap();
    let id_foo_2 = state.android_next_mail_notification_id(&"foo".to_string()).unwrap();
    let id_bar_1 = state.android_next_mail_notification_id(&"bar".to_string()).unwrap();
    let id_foo_3 = state.android_next_mail_notification_id(&"foo".to_string()).unwrap();
    let id_bar_2 = state.android_next_mail_notification_id(&"bar".to_string()).unwrap();
    assert!(id_foo_1 < id_foo_2);
    assert!(id_foo_2 < id_bar_1);
    assert!(id_bar_1 < id_foo_3);
    assert!(id_foo_3 < id_bar_2);
}

#[test]
fn next_mail_notification_id_counts_from_one() {
    let mut state = new_state();
    assert_eq!(state.android_next_mail_notification_id(&"foo".to_string()), Ok(1));
    assert_eq!(state.android_next_mail_notification_id(&"bar".to_string()), Ok(2));
}

#[test]
fn tables_must_exist() {
    let mut state = AndroidState::new();
    assert_eq!(
        state.android_next_mail_notification_id(&"foo".to_string()),
        Err(StateError::NoSuchTable)
    );
    assert_eq!(
        state.android_get_or_create_notification_ids(&"foo".to_string()),
        Err(StateError::NoSuchTable)
    );
}

#[test]
fn notification_ids_never_shared() {
    let mut state = new_state();
    let a = state.android_get_or_create_notification_ids(&"a".to_string()).unwrap();
    let b = state.android_get_or_create_notification_ids(&"b".to_string()).unwrap();
    let c = state.android_get_or_create_notification_ids(&"c".to_string()).unwrap();
    let all = [a.group, a.status, a.error, b.group, b.status, b.error, c.group, c.status, c.error];
    for i in 0..all.len() {
        for j in 0..all.len() {
            if i != j {
                assert_ne!(all[i], all[j]);
            }
        }
    }
    assert_eq!(c.group, 106);
}
