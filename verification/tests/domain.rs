use tasktrack::domain::{
    ActiveTask, NewTask, TaskContent, TaskContentError, TaskDescription, TaskDescriptionError,
    TaskId, Timestamp,
};

fn now_timestamp() -> Timestamp {
    Timestamp::from_micros(chrono::Local::now().timestamp_micros())
}

#[test]
fn task_id_from_u64() {
    let id = TaskId::from(1);
    assert_eq!(u64::from(id), 1);
}

#[test]
fn task_id_into_u64() {
    let id = TaskId::from(1);
    let val: u64 = id.into();
    assert_eq!(val, 1);
}

#[test]
fn task_content_new() {
    let content = TaskContent::new("Task content".to_string()).unwrap();
    assert_eq!(String::from(content), "Task content");
}

#[test]
fn task_content_new_empty() {
    let content = TaskContent::new("".to_string());
    assert!(content.is_err());
    assert!(content
        .unwrap_err()
        .message()
        .contains("Task content must not be empty"));
}

#[test]
fn task_content_new_too_long() {
    let content = TaskContent::new("a".repeat(501));
    assert!(content.is_err());
    assert!(content
        .unwrap_err()
        .message()
        .contains("Task content is too long"));
}

#[test]
fn task_content_into_string() {
    let content = TaskContent::new("Task content".to_string()).unwrap();
    let val: String = content.into();
    assert_eq!(val, "Task content");
}

#[test]
fn task_content_boundary() {
    let content = TaskContent::new("a".repeat(500)).unwrap();
    assert_eq!(String::from(content), "a".repeat(500));
    assert_eq!(
        TaskContent::new("".to_string()).unwrap_err(),
        TaskContentError::Empty
    );
    assert_eq!(
        TaskContent::new("a".repeat(501)).unwrap_err(),
        TaskContentError::TooLong
    );
}

#[test]
fn task_description_new() {
    let description = TaskDescription::new("Task description".to_string()).unwrap();
    assert_eq!(String::from(description), "Task description");
}

#[test]
fn task_description_new_too_long() {
    let description = TaskDescription::new("a".repeat(2001));
    assert!(description.is_err());
    assert!(description
        .unwrap_err()
        .message()
        .contains("Task description is too long"));
}

#[test]
fn task_description_new_empty() {
    let description = TaskDescription::new("".to_string());
    assert!(description.is_err());
    assert!(description
        .unwrap_err()
        .message()
        .contains("Task description must not be empty"));
}

#[test]
fn task_description_into_string() {
    let description = TaskDescription::new("Task description".to_string()).unwrap();
    let val: String = description.into();
    assert_eq!(val, "Task description");
}

#[test]
fn task_description_boundary() {
    let description = TaskDescription::new("a".repeat(2000)).unwrap();
    assert_eq!(String::from(description), "a".repeat(2000));
    assert_eq!(
        TaskDescription::new("".to_string()).unwrap_err(),
        TaskDescriptionError::Empty
    );
    assert_eq!(
        TaskDescription::new("a".repeat(2001)).unwrap_err(),
        TaskDescriptionError::TooLong
    );
}

#[test]
fn task_operations() {
    let task = ActiveTask::new(
        TaskId::from(1),
        TaskContent::new_or_panic("Task content".into()),
        TaskDescription::new_or_panic("Task description".into()),
        now_timestamp(),
    );
    assert_eq!(*task.id(), TaskId::from(1));
    assert_eq!(
        task.content(),
        &TaskContent::new_or_panic("Task content".into())
    );
    assert_eq!(
        task.description(),
        &TaskDescription::new_or_panic("Task description".into())
    );

    let task = task.modify_content(TaskContent::new_or_panic("New content".into()));
    assert_eq!(
        task.content(),
        &TaskContent::new_or_panic("New content".into())
    );

    let task = task.modify_description(TaskDescription::new_or_panic("New description".into()));
    assert_eq!(
        task.description(),
        &TaskDescription::new_or_panic("New description".into())
    );

    task.close().reopen();
}

#[test]
fn close_reopen_round_trip() {
    let created = Timestamp::from_micros(1_700_000_000_000_000);
    let task = ActiveTask::new(
        TaskId::from(9),
        TaskContent::new_or_panic("Water the plants".into()),
        TaskDescription::new_or_panic("Twice a week".into()),
        created,
    );
    let back = task.close().reopen();
    assert_eq!(*back.id(), TaskId::from(9));
    assert_eq!(
        back.content(),
        &TaskContent::new_or_panic("Water the plants".into())
    );
    assert_eq!(
        back.description(),
        &TaskDescription::new_or_panic("Twice a week".into())
    );
    assert_eq!(*back.created_at(), created);
}

#[test]
fn modify_preserves_other_fields() {
    let created = Timestamp::from_micros(42);
    let task = ActiveTask::new(
        TaskId::from(3),
        TaskContent::new_or_panic("Old content".into()),
        TaskDescription::new_or_panic("Old description".into()),
        created,
    );
    let task = task.modify_content(TaskContent::new_or_panic("New content".into()));
    assert_eq!(*task.id(), TaskId::from(3));
    assert_eq!(
        task.description(),
        &TaskDescription::new_or_panic("Old description".into())
    );
    assert_eq!(*task.created_at(), created);
    let task = task.modify_description(TaskDescription::new_or_panic("New description".into()));
    assert_eq!(*task.id(), TaskId::from(3));
    assert_eq!(
        task.content(),
        &TaskContent::new_or_panic("New content".into())
    );
    assert_eq!(*task.created_at(), created);
}

#[test]
fn new_task_holds_parts() {
    let draft = NewTask::new(
        TaskContent::new_or_panic("Buy milk".into()),
        TaskDescription::new_or_panic("2%".into()),
    );
    assert_eq!(draft.content(), &TaskContent::new_or_panic("Buy milk".into()));
    assert_eq!(draft.description(), &TaskDescription::new_or_panic("2%".into()));
}

#[test]
fn timestamp_round_trip() {
    let t = Timestamp::from_micros(-5);
    assert_eq!(t.micros(), -5);
}
