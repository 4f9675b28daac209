use arcee_code::task_store::{TaskStatus, TaskStore};

#[test]
fn test_create_and_list() {
    let mut store = TaskStore::new();
    store.create("Task 1".into(), "Desc 1".into(), None);
    store.create("Task 2".into(), "Desc 2".into(), Some("Working".into()));

    let list = store.list();
    assert_eq!(list.len(), 2);
    assert_eq!(list[0].id, "1");
    assert_eq!(list[1].id, "2");
    assert_eq!(list[1].active_form.as_deref(), Some("Working"));
}

#[test]
fn test_get_and_update() {
    let mut store = TaskStore::new();
    store.create("Task 1".into(), "Desc 1".into(), None);

    let task = store.get_mut("1").unwrap();
    task.status = TaskStatus::InProgress;
    task.owner = Some("agent-1".into());

    let task = store.get("1").unwrap();
    assert_eq!(task.status, TaskStatus::InProgress);
    assert_eq!(task.owner.as_deref(), Some("agent-1"));
}

#[test]
fn test_delete() {
    let mut store = TaskStore::new();
    store.create("Task 1".into(), "Desc 1".into(), None);
    assert!(store.delete("1"));
    assert!(store.get("1").is_none());
    assert!(store.list().is_empty());
}

#[test]
fn test_delete_cleans_up_references() {
    let mut store = TaskStore::new();
    store.create("Task 1".into(), "Desc 1".into(), None);
    store.create("Task 2".into(), "Desc 2".into(), None);
    store.create("Task 3".into(), "Desc 3".into(), None);

    let t2 = store.get_mut("2").unwrap();
    t2.blocks.push("3".to_string());
    let t3 = store.get_mut("3").unwrap();
    t3.blocked_by.push("2".to_string());

    store.delete("2");

    let t3 = store.get("3").unwrap();
    assert!(t3.blocked_by.is_empty());
}

#[test]
fn test_task_status_roundtrip() {
    for status in &[
        TaskStatus::Pending,
        TaskStatus::InProgress,
        TaskStatus::Completed,
        TaskStatus::Deleted,
    ] {
        assert_eq!(TaskStatus::from_str(status.as_str()).as_ref(), Some(status));
    }
}

#[test]
fn unknown_status_is_rejected() {
    assert_eq!(TaskStatus::from_str("done"), None);
    assert_eq!(TaskStatus::from_str("in_progress"), Some(TaskStatus::InProgress));
}

#[test]
fn ids_keep_counting_after_delete() {
    let mut store = TaskStore::new();
    store.create("a".into(), "a".into(), None);
    assert!(store.delete("1"));
    assert!(store.delete("1"));
    assert!(!store.delete("9"));
    let t = store.create("b".into(), "b".into(), None);
    assert_eq!(t.id, "2");
    assert_eq!(t.status, TaskStatus::Pending);
}
