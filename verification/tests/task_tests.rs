use hellox::task_commands::{task_command_text, TaskCommand};
use hellox::tasks::{
    add_task, clear_tasks, format_task_list, get_task, remove_task, stop_task, transition_task,
    update_task, TaskError, TaskItem, TaskPatch, TaskTransition,
};

fn item(id: &str, content: &str, status: &str) -> TaskItem {
    TaskItem {
        id: id.to_string(),
        content: content.to_string(),
        status: status.to_string(),
        priority: None,
        description: None,
        output: None,
    }
}

#[test]
fn add_task_assigns_incrementing_ids() {
    let mut tasks = Vec::new();
    let first = add_task(&mut tasks, String::from("write docs"), None, None).expect("add first");
    let second = add_task(
        &mut tasks,
        String::from("verify docs"),
        Some(String::from("high")),
        Some(String::from("verify command outputs")),
    )
    .expect("add second");

    assert_eq!(first.id, "task-1");
    assert_eq!(second.id, "task-2");
    assert_eq!(second.priority.as_deref(), Some("high"));
    assert_eq!(
        second.description.as_deref(),
        Some("verify command outputs")
    );
}

#[test]
fn transition_and_remove_task_persist_changes() {
    let mut tasks = vec![item("task-1", "ship feature", "pending")];

    let updated = transition_task(&mut tasks, "task-1", TaskTransition::Start).expect("start");
    assert_eq!(updated.status, "in_progress");

    let removed = remove_task(&mut tasks, "task-1").expect("remove");
    assert_eq!(removed.id, "task-1");
    assert!(tasks.is_empty());
}

#[test]
fn clear_completed_removes_only_completed_items() {
    let mut tasks = vec![
        item("task-1", "keep", "pending"),
        item("task-2", "drop", "completed"),
    ];

    let removed = clear_tasks(&mut tasks, true, false).expect("clear completed");
    assert_eq!(removed.len(), 1);
    let rendered = format_task_list(&tasks);
    assert!(rendered.contains("task-1"));
    assert!(!rendered.contains("task-2"));
}

#[test]
fn update_show_and_stop_task_roundtrip() {
    let mut tasks = vec![item("task-1", "ship feature", "pending")];

    let updated = update_task(
        &mut tasks,
        "task-1",
        TaskPatch {
            content: None,
            status: Some(String::from("in_progress")),
            priority: Some(Some(String::from("high"))),
            description: Some(Some(String::from("needs review"))),
            output: Some(Some(String::from("started work"))),
        },
    )
    .expect("update");
    assert_eq!(updated.status, "in_progress");
    assert_eq!(updated.priority.as_deref(), Some("high"));

    let shown = get_task(&tasks, "task-1").expect("show");
    assert_eq!(shown.description.as_deref(), Some("needs review"));

    let stopped = stop_task(&mut tasks, "task-1", Some(String::from("blocked"))).expect("stop");
    assert_eq!(stopped.status, "cancelled");
    assert_eq!(stopped.output.as_deref(), Some("blocked"));
}

#[test]
fn task_update_and_output_commands_roundtrip() {
    let mut tasks = Vec::new();
    task_command_text(
        &mut tasks,
        "/tmp/workspace",
        TaskCommand::Add {
            content: "Review local workflow surface".to_string(),
            priority: Some("high".to_string()),
            description: Some("Focus on task UI parity".to_string()),
        },
    )
    .expect("add task");

    let updated = task_command_text(
        &mut tasks,
        "/tmp/workspace",
        TaskCommand::Update {
            task_id: "task-1".to_string(),
            content: None,
            priority: None,
            clear_priority: false,
            description: None,
            clear_description: true,
            status: Some("in_progress".to_string()),
            output: Some("Started implementation".to_string()),
            clear_output: false,
        },
    )
    .expect("update task");
    assert!(updated.contains("status: in_progress"));
    assert!(updated.contains("output: Started implementation"));
    assert!(updated.contains("description: (none)"));

    let output = task_command_text(
        &mut tasks,
        "/tmp/workspace",
        TaskCommand::Output {
            task_id: "task-1".to_string(),
        },
    )
    .expect("task output");
    assert!(output.contains("Started implementation"));
}

#[test]
fn task_stop_records_reason() {
    let mut tasks = Vec::new();
    task_command_text(
        &mut tasks,
        "/tmp/workspace",
        TaskCommand::Add {
            content: "Ship docs".to_string(),
            priority: None,
            description: None,
        },
    )
    .expect("add task");

    let stopped = task_command_text(
        &mut tasks,
        "/tmp/workspace",
        TaskCommand::Stop {
            task_id: "task-1".to_string(),
            reason: Some("Blocked by host validation".to_string()),
        },
    )
    .expect("stop task");
    assert!(stopped.contains("status: cancelled"));
    assert!(stopped.contains("Blocked by host validation"));
}

#[test]
fn added_task_is_read_back_under_its_id() {
    let mut tasks = vec![item("task-7", "old", "pending"), item("custom", "x", "pending")];
    let added = add_task(&mut tasks, String::from("  next  "), None, None).expect("add");
    assert_eq!(added.id, "task-8");
    assert_eq!(added.content, "next");
    let read = get_task(&tasks, "task-8").expect("get");
    assert_eq!(read, added);
}

#[test]
fn removed_task_is_not_found_again() {
    let mut tasks = vec![item("task-1", "a", "pending"), item("task-2", "b", "pending")];
    remove_task(&mut tasks, "task-1").expect("remove");
    assert_eq!(
        get_task(&tasks, "task-1"),
        Err(TaskError::NotFound("task-1".to_string()))
    );
}

#[test]
fn task_errors_have_their_messages() {
    let mut tasks = vec![item("task-1", "a", "pending")];
    let empty = add_task(&mut tasks, String::from("   "), None, None).unwrap_err();
    assert_eq!(empty.message(), "task content cannot be empty");
    let bad = update_task(
        &mut tasks,
        "task-1",
        TaskPatch {
            content: None,
            status: Some("Done-ish".to_string()),
            priority: None,
            description: None,
            output: None,
        },
    )
    .unwrap_err();
    assert_eq!(
        bad.message(),
        "unsupported task status `Done-ish`; use pending, in_progress, completed, or cancelled"
    );
    let none = update_task(
        &mut tasks,
        "task-1",
        TaskPatch {
            content: None,
            status: None,
            priority: None,
            description: None,
            output: None,
        },
    )
    .unwrap_err();
    assert_eq!(none.message(), "task update requires at least one field change");
    let mode = clear_tasks(&mut tasks, true, true).unwrap_err();
    assert_eq!(mode.message(), "choose exactly one clear mode: `completed` or `all`");
    let missing = get_task(&tasks, "task-9").unwrap_err();
    assert_eq!(missing.message(), "task `task-9` was not found");
}

#[test]
fn status_aliases_are_normalized_and_list_filters() {
    let mut tasks = vec![item("task-1", "a", "pending"), item("task-2", "b", "pending")];
    let updated = update_task(
        &mut tasks,
        "task-2",
        TaskPatch {
            content: None,
            status: Some(" In-Progress ".to_string()),
            priority: None,
            description: None,
            output: None,
        },
    )
    .expect("update");
    assert_eq!(updated.status, "in_progress");
    let listed = task_command_text(
        &mut tasks,
        "/tmp/workspace",
        TaskCommand::List {
            status: Some("in-progress".to_string()),
            limit: None,
        },
    )
    .expect("list");
    assert_eq!(
        listed,
        "task_id\tstatus\tpriority\tcontent\ntask-2\tin_progress\t-\tb"
    );
    let limited = task_command_text(
        &mut tasks,
        "/tmp/workspace",
        TaskCommand::List {
            status: None,
            limit: Some(1),
        },
    )
    .expect("list");
    assert_eq!(limited, "task_id\tstatus\tpriority\tcontent\ntask-1\tpending\t-\ta");
    assert_eq!(format_task_list(&Vec::new()), "No tasks found.");
}

#[test]
fn clear_all_and_add_message_name_the_file() {
    let mut tasks = Vec::new();
    let added = task_command_text(
        &mut tasks,
        "/tmp/ws",
        TaskCommand::Add {
            content: "x".to_string(),
            priority: None,
            description: None,
        },
    )
    .expect("add");
    assert!(added.starts_with("Added task `task-1` at `/tmp/ws/.hellox/todos.json`.\n"));
    let cleared = task_command_text(
        &mut tasks,
        "/tmp/ws",
        TaskCommand::Clear {
            completed: false,
            all: true,
        },
    )
    .expect("clear");
    assert_eq!(cleared, "Removed 1 task(s).");
    assert!(tasks.is_empty());
}
