use arcee_code::background_tasks::BackgroundTaskStore;
use arcee_code::task_store::{TaskStatus, TaskStore};
use arcee_code::tool_input::{ArgField, ArgValue, ToolInput};
use arcee_code::tools::tasks::{
    TaskCreateTool, TaskGetTool, TaskListTool, TaskOutputRequest, TaskOutputTool, TaskPoll,
    TaskUpdateTool, TASK_OUTPUT_TIMEOUT_NANOS,
};

fn input(fields: Vec<(&str, ArgValue)>) -> ToolInput {
    ToolInput {
        fields: Some(
            fields
                .into_iter()
                .map(|(k, v)| ArgField { key: k.to_string(), value: v, rendered: String::new() })
                .collect(),
        ),
        rendered: String::new(),
    }
}

fn s(v: &str) -> ArgValue {
    ArgValue::Str(v.to_string())
}

#[test]
fn create_get_and_list_tasks() {
    let mut store = TaskStore::new();
    let o = TaskCreateTool::run(&mut store, &input(vec![("subject", s("Write docs")), ("description", s("All of them"))])).unwrap();
    assert_eq!(
        o.render(),
        "Task #1 created\n\nCreated task #1: Write docs\n\nNext:\n - Use TaskUpdate to set status=in_progress when you start working on it"
    );
    let err = TaskCreateTool::run(&mut store, &input(vec![("subject", s("x"))])).err().unwrap();
    assert_eq!(err, "Missing 'description' parameter");

    let o = TaskGetTool::run(&store, &input(vec![("taskId", s("1"))])).unwrap();
    assert!(o.render().starts_with("Task #1 [pending]: Write docs\n\nTask #1\nSubject: Write docs"));
    let o = TaskGetTool::run(&store, &input(vec![("taskId", s("7"))])).unwrap();
    assert!(o.is_error);
    assert_eq!(o.render(), "Task #7 not found");

    let o = TaskListTool::run(&store);
    assert_eq!(
        o.render(),
        "1 pending, 0 in_progress, 0 completed (1 total)\n\ntasks [1]:\n  id | status | subject | owner | blocked_by\n  1 | pending | Write docs |  | \n\nNext:\n - Use TaskGet for full details on a specific task"
    );
}

#[test]
fn empty_task_list() {
    let store = TaskStore::new();
    assert_eq!(
        TaskListTool::run(&store).render(),
        "0 tasks\n\n0 results. No tasks found.\n\nNext:\n - Use TaskCreate to add a task"
    );
}

#[test]
fn update_fields_lists_and_metadata() {
    let mut store = TaskStore::new();
    store.create("a".into(), "b".into(), None);
    let o = TaskUpdateTool::run(
        &mut store,
        &input(vec![
            ("taskId", s("1")),
            ("status", s("in_progress")),
            ("owner", s("me")),
            ("addBlocks", ArgValue::Array(vec![Some("2".into()), None, Some("2".into()), Some("3".into())])),
            (
                "metadata",
                ArgValue::Object(vec![
                    ("k".into(), Some("1".into())),
                    ("j".into(), Some("true".into())),
                    ("k".into(), Some("\"x\"".into())),
                    ("j".into(), None),
                ]),
            ),
        ]),
    )
    .unwrap();
    assert_eq!(o.render(), "Task #1 updated\n\nUpdated task #1: status → in_progress, owner, blocks, metadata");
    let t = store.get("1").unwrap();
    assert_eq!(t.status, TaskStatus::InProgress);
    assert_eq!(t.owner.as_deref(), Some("me"));
    assert_eq!(t.blocks, vec!["2".to_string(), "3".to_string()]);
    assert_eq!(t.metadata, vec![("k".to_string(), "\"x\"".to_string())]);
}

#[test]
fn update_errors_and_no_changes() {
    let mut store = TaskStore::new();
    store.create("a".into(), "b".into(), None);
    let o = TaskUpdateTool::run(&mut store, &input(vec![("taskId", s("1")), ("status", s("done"))])).unwrap();
    assert!(o.is_error);
    assert_eq!(o.render(), "Invalid status 'done'. Must be: pending, in_progress, completed, or deleted");
    let o = TaskUpdateTool::run(&mut store, &input(vec![("taskId", s("1"))])).unwrap();
    assert_eq!(o.render(), "0 results. No changes applied to task #1");
    let o = TaskUpdateTool::run(&mut store, &input(vec![("taskId", s("5")), ("subject", s("z"))])).unwrap();
    assert_eq!(o.render(), "Task #5 not found");
    assert!(TaskUpdateTool::run(&mut store, &input(vec![])).is_err());
}

#[test]
fn update_deleted_removes_task() {
    let mut store = TaskStore::new();
    store.create("a".into(), "b".into(), None);
    let o = TaskUpdateTool::run(&mut store, &input(vec![("taskId", s("1")), ("status", s("deleted"))])).unwrap();
    assert_eq!(o.render(), "Task #1 deleted\n\nTask #1 was removed.");
    assert!(store.get("1").is_none());
    let o = TaskUpdateTool::run(&mut store, &input(vec![("taskId", s("9")), ("status", s("deleted"))])).unwrap();
    assert!(o.is_error);
}

#[test]
fn task_output_polling() {
    let mut bg = BackgroundTaskStore::new();
    let id = bg.register("build".into(), "bash".into(), 0);
    let req = TaskOutputRequest { task_id: id.clone(), block: true };
    assert!(matches!(TaskOutputTool::poll(&req, &bg, 0, "0.0"), TaskPoll::Wait));
    match TaskOutputTool::poll(&req, &bg, TASK_OUTPUT_TIMEOUT_NANOS + 1, "300.0") {
        TaskPoll::Done(o) => assert_eq!(o.render(), format!("Timed out waiting for background task #{id} to complete")),
        TaskPoll::Wait => panic!("expected an answer"),
    }
    let quick = TaskOutputRequest { task_id: id.clone(), block: false };
    match TaskOutputTool::poll(&quick, &bg, 0, "1.5") {
        TaskPoll::Done(o) => assert_eq!(
            o.render(),
            format!("task #{id} [running] 1.5s\n\nBackground task #{id} [running] — build (1.5s elapsed, still running)\n\nNext:\n - Wait for the completion notification, or call again with block=true")
        ),
        TaskPoll::Wait => panic!("expected an answer"),
    }
    bg.fail(&id, "boom".into(), 2_000_000_000);
    match TaskOutputTool::poll(&req, &bg, 0, "2.0") {
        TaskPoll::Done(o) => {
            assert!(o.is_error);
            assert_eq!(o.render(), format!("task #{id} [failed] 2.0s\n\nBackground task #{id} [failed] — build (2.0s)\n\nboom"));
        }
        TaskPoll::Wait => panic!("expected an answer"),
    }
    let missing = TaskOutputRequest { task_id: "zz".into(), block: true };
    match TaskOutputTool::poll(&missing, &bg, 0, "0") {
        TaskPoll::Done(o) => assert_eq!(o.render(), "No background task found with id 'zz'"),
        TaskPoll::Wait => panic!("expected an answer"),
    }
}
