//! The `tasks` subcommands: each one applied to a loaded task list, with the text
//! it prints.

use vstd::prelude::*;

use crate::paths::path_join;
use crate::tasks::{
    add_task, clear_tasks, find_task, lemma_find_task, format_task_list, get_task, is_valid_status,
    new_task_spec, normalize_optional_spec, remove_task, status_form, stop_task,
    task_list_text, tasks_view, todo_file_path, transition_status_spec, transition_task,
    update_task, validate_task_status, completed_part, remaining_part,
    max_id_number, TaskError, TaskItem, TaskPatch, TaskTransition, TaskView,
};
use crate::text::{decimal, opt_string_view, push_decimal, replace_char, replace_seq, str_eq, trim_seq};

verus! {

/// A `tasks` subcommand, without the workspace it runs in.
#[allow(inconsistent_fields)]
pub enum TaskCommand {
    List { status: Option<String>, limit: Option<usize> },
    Show { task_id: String },
    Add { content: String, priority: Option<String>, description: Option<String> },
    Update {
        task_id: String,
        content: Option<String>,
        priority: Option<String>,
        clear_priority: bool,
        description: Option<String>,
        clear_description: bool,
        status: Option<String>,
        output: Option<String>,
        clear_output: bool,
    },
    Output { task_id: String },
    Stop { task_id: String, reason: Option<String> },
    Start { task_id: String },
    Done { task_id: String },
    Cancel { task_id: String },
    Remove { task_id: String },
    Clear { completed: bool, all: bool },
}

/// An optional text, or `(none)`.
pub open spec fn or_none(v: Option<Seq<char>>) -> Seq<char> {
    match v {
        Some(s) => s,
        None => "(none)"@,
    }
}

/// The detail block of a task.
pub open spec fn task_detail_text(t: TaskView) -> Seq<char> {
    "task_id: "@ + t.id + "\nstatus: "@ + t.status + "\npriority: "@ + or_none(t.priority)
        + "\ncontent: "@ + t.content + "\ndescription: "@ + or_none(t.description)
        + "\noutput: "@ + or_none(t.output)
}

/// The output block of a task.
pub open spec fn task_output_text(t: TaskView) -> Seq<char> {
    "task_id: "@ + t.id + "\nstatus: "@ + t.status + "\noutput: "@ + or_none(t.output)
}

fn append_or_none(out: &mut String, v: &Option<String>)
    ensures
        final(out)@ == old(out)@ + or_none(opt_string_view(*v)),
{
    match v {
        Some(s) => out.append(s.as_str()),
        None => out.append("(none)"),
    }
}

/// The detail block of a task.
pub fn format_task_detail(task: &TaskItem) -> (res: String)
    ensures
        res@ == task_detail_text(task@),
{
    let mut s = "task_id: ".to_owned();
    s.append(task.id.as_str());
    s.append("\nstatus: ");
    s.append(task.status.as_str());
    s.append("\npriority: ");
    append_or_none(&mut s, &task.priority);
    s.append("\ncontent: ");
    s.append(task.content.as_str());
    s.append("\ndescription: ");
    append_or_none(&mut s, &task.description);
    s.append("\noutput: ");
    append_or_none(&mut s, &task.output);
    s
}

/// The output block of a task.
pub fn format_task_output(task: &TaskItem) -> (res: String)
    ensures
        res@ == task_output_text(task@),
{
    let mut s = "task_id: ".to_owned();
    s.append(task.id.as_str());
    s.append("\nstatus: ");
    s.append(task.status.as_str());
    s.append("\noutput: ");
    append_or_none(&mut s, &task.output);
    s
}

/// A field change from a command line: `--clear-…` empties the field, a value sets
/// it, neither leaves it alone.
pub open spec fn merged_field(value: Option<Seq<char>>, clear: bool) -> Option<Option<Seq<char>>> {
    if clear {
        Some(None)
    } else {
        match value {
            Some(v) => Some(Some(v)),
            None => None,
        }
    }
}

/// The view of a field change.
pub open spec fn change_view(c: Option<Option<String>>) -> Option<Option<Seq<char>>> {
    match c {
        Some(v) => Some(opt_string_view(v)),
        None => None,
    }
}

/// A field change from a value and a clear flag.
pub fn merge_optional_field(value: Option<String>, clear: bool) -> (res: Option<Option<String>>)
    ensures
        change_view(res) == merged_field(opt_string_view(value), clear),
{
    if clear {
        Some(None)
    } else {
        match value {
            Some(v) => Some(Some(v)),
            None => None,
        }
    }
}

/// The tasks whose status is `status`, in list order.
pub open spec fn with_status(tasks: Seq<TaskView>, status: Seq<char>) -> Seq<TaskView> {
    tasks.filter(|t: TaskView| t.status == status)
}

/// At most the first `limit` tasks.
pub open spec fn limited(tasks: Seq<TaskView>, limit: Option<usize>) -> Seq<TaskView> {
    match limit {
        Some(n) => if n < tasks.len() {
            tasks.take(n as int)
        } else {
            tasks
        },
        None => tasks,
    }
}

/// The task file path as it is shown: backslashes turned into slashes.
pub open spec fn shown_task_file(workspace_root: Seq<char>) -> Seq<char> {
    replace_seq(path_join(path_join(workspace_root, ".hellox"@), "todos.json"@), '\\', "/"@)
}

/// The tasks of `tasks` whose status is `status`.
fn tasks_with_status(tasks: &Vec<TaskItem>, status: &str) -> (res: Vec<TaskItem>)
    ensures
        tasks_view(res@) == with_status(tasks_view(tasks@), status@),
{
    let ghost tv = tasks_view(tasks@);
    let mut out: Vec<TaskItem> = Vec::new();
    let mut i: usize = 0;
    while i < tasks.len()
        invariant
            tv == tasks_view(tasks@),
            i <= tasks@.len(),
            tasks_view(out@) == with_status(tv.take(i as int), status@),
        decreases tasks@.len() - i,
    {
        let ghost prefix = tv.take(i as int);
        assert(tv.take(i + 1) =~= prefix.push(tv[i as int]));
        proof {
            prefix.lemma_filter_push(tv[i as int], |t: TaskView| t.status == status@);
        }
        if str_eq(tasks[i].status.as_str(), status) {
            let ghost prev = out@;
            out.push(tasks[i].duplicate());
            assert(tasks_view(out@) =~= tasks_view(prev).push(tv[i as int]));
        }
        i = i + 1;
    }
    assert(tv.take(i as int) =~= tv);
    out
}

/// The listing text for `tasks list`.
pub open spec fn list_outcome(tasks: Seq<TaskView>, status: Option<Seq<char>>, limit: Option<usize>) -> Result<Seq<char>, Seq<char>> {
    match status {
        Some(s) => if is_valid_status(status_form(s)) {
            Ok(task_list_text(limited(with_status(tasks, status_form(s)), limit)))
        } else {
            Err(s)
        },
        None => Ok(task_list_text(limited(tasks, limit))),
    }
}

/// Law: a listing without a status lists the tasks in order, the first `n` of them
/// under a limit `n`; a listing by status keeps exactly the tasks with that status, in list order,
/// and a limit then keeps the first `n` of them: the limited listing is the full
/// listing of that status cut to its first `n` rows. An unknown status is refused
/// with the typed text.
pub proof fn lemma_list_filters_then_limits(tasks: Seq<TaskView>, status: Seq<char>, n: usize)
    ensures
        list_outcome(tasks, None, None) == Ok::<Seq<char>, Seq<char>>(task_list_text(tasks)),
        list_outcome(tasks, None, Some(n)) == Ok::<Seq<char>, Seq<char>>(
            task_list_text(tasks.take(if n < tasks.len() { n as int } else { tasks.len() as int })),
        ),
        !is_valid_status(status_form(status)) ==> list_outcome(tasks, Some(status), Some(n))
            == Err::<Seq<char>, Seq<char>>(status),
        is_valid_status(status_form(status)) ==> ({
            let st = status_form(status);
            let all = with_status(tasks, st);
            &&& list_outcome(tasks, Some(status), None) == Ok::<Seq<char>, Seq<char>>(
                task_list_text(all),
            )
            &&& list_outcome(tasks, Some(status), Some(n)) == Ok::<Seq<char>, Seq<char>>(
                task_list_text(all.take(if n < all.len() { n as int } else { all.len() as int })),
            )
            &&& forall|j: int| 0 <= j < all.len() ==> (#[trigger] all[j]).status == st
            &&& forall|j: int|
                0 <= j < tasks.len() && (#[trigger] tasks[j]).status == st ==> all.contains(tasks[j])
        }),
{
    broadcast use vstd::seq_lib::group_filter_ensures;

    let st = status_form(status);
    let all = with_status(tasks, st);
    assert(all.take(all.len() as int) =~= all);
    assert(tasks.take(tasks.len() as int) =~= tasks);
    assert forall|j: int| 0 <= j < all.len() implies (#[trigger] all[j]).status == st by {
        tasks.lemma_filter_pred(|t: TaskView| t.status == st, j);
    }
    assert forall|j: int| 0 <= j < tasks.len() && (#[trigger] tasks[j]).status == st implies all.contains(
        tasks[j],
    ) by {
        tasks.lemma_filter_contains(|t: TaskView| t.status == st, j);
    }
}

/// "Marked task `<id>` as `<status>`."
pub open spec fn marked_text(t: TaskView) -> Seq<char> {
    "Marked task `"@ + t.id + "` as `"@ + t.status + "`."@
}

fn marked_message(t: &TaskItem) -> (res: String)
    ensures
        res@ == marked_text(t@),
{
    let mut m = "Marked task `".to_owned();
    m.append(t.id.as_str());
    m.append("` as `");
    m.append(t.status.as_str());
    m.append("`.");
    m
}

fn headed_detail(head: &str, t: &TaskItem, tail: &str) -> (res: String)
    ensures
        res@ == head@ + t@.id + tail@ + task_detail_text(t@),
{
    let mut m = head.to_owned();
    m.append(t.id.as_str());
    m.append(tail);
    m.append(format_task_detail(t).as_str());
    m
}

/// The patch an update command describes.
pub open spec fn command_patch_fields(
    content: Option<Seq<char>>,
    status: Option<Seq<char>>,
    priority: Option<Option<Seq<char>>>,
    description: Option<Option<Seq<char>>>,
    output: Option<Option<Seq<char>>>,
) -> bool {
    content is None && status is None && priority is None && description is None && output is None
}

/// Runs one `tasks` subcommand against the task list of the workspace at
/// `workspace_root`, changing the list as the command says and returning the text it
/// prints. On a refusal the list is left as it was.
pub fn task_command_text(tasks: &mut Vec<TaskItem>, workspace_root: &str, command: TaskCommand) -> (res:
    Result<String, TaskError>)
    requires
        command is Add ==> max_id_number(tasks_view(old(tasks)@)) < usize::MAX,
    ensures
        res is Err ==> final(tasks)@ == old(tasks)@,
        match command {
            TaskCommand::List { status, limit } => final(tasks)@ == old(tasks)@ && match list_outcome(
                tasks_view(old(tasks)@),
                opt_string_view(status),
                limit,
            ) {
                Ok(text) => res matches Ok(r) && r@ == text,
                Err(s) => res matches Err(e) && (e matches TaskError::InvalidStatus(v) && v@ == s),
            },
            TaskCommand::Show { task_id } => final(tasks)@ == old(tasks)@ && match find_task(
                tasks_view(old(tasks)@),
                task_id@,
            ) {
                Some(i) => res matches Ok(r) && r@ == task_detail_text(tasks_view(old(tasks)@)[i as int]),
                None => res matches Err(e) && (e matches TaskError::NotFound(id) && id@ == task_id@),
            },
            TaskCommand::Output { task_id } => final(tasks)@ == old(tasks)@ && match find_task(
                tasks_view(old(tasks)@),
                task_id@,
            ) {
                Some(i) => res matches Ok(r) && r@ == task_output_text(tasks_view(old(tasks)@)[i as int]),
                None => res matches Err(e) && (e matches TaskError::NotFound(id) && id@ == task_id@),
            },
            TaskCommand::Add { content, priority, description } => if trim_seq(content@).len() > 0 {
                let t = new_task_spec(
                    tasks_view(old(tasks)@),
                    content@,
                    opt_string_view(priority),
                    opt_string_view(description),
                );
                &&& tasks_view(final(tasks)@) == tasks_view(old(tasks)@).push(t)
                &&& res matches Ok(r) && r@ == "Added task `"@ + t.id + "` at `"@ + shown_task_file(
                    workspace_root@,
                ) + "`.\n"@ + task_detail_text(t)
            } else {
                res matches Err(e) && (e matches TaskError::EmptyField(l) && l@ == "task content"@)
            },
            TaskCommand::Update {
                task_id,
                content,
                priority,
                clear_priority,
                description,
                clear_description,
                status,
                output,
                clear_output,
            } => if command_patch_fields(
                opt_string_view(content),
                opt_string_view(status),
                merged_field(opt_string_view(priority), clear_priority),
                merged_field(opt_string_view(description), clear_description),
                merged_field(opt_string_view(output), clear_output),
            ) {
                res matches Err(e) && e == TaskError::EmptyCommand
            } else {
                match find_task(tasks_view(old(tasks)@), task_id@) {
                    None => res matches Err(e) && (e matches TaskError::NotFound(id) && id@
                        == task_id@),
                    Some(i) => match content {
                        Some(c) if trim_seq(c@).len() == 0 => res matches Err(e) && (e matches TaskError::EmptyField(
                            l,
                        ) && l@ == "task content"@),
                        _ => match status {
                            Some(s) if !is_valid_status(status_form(s@)) => res matches Err(e) && (e matches TaskError::InvalidStatus(
                                v,
                            ) && v@ == s@),
                            _ => {
                                let t = tasks_view(final(tasks)@)[i as int];
                                res matches Ok(r) && tasks_view(final(tasks)@) == tasks_view(
                                    old(tasks)@,
                                ).update(i as int, t) && t.id == task_id@ && t.content == (match content {
                                    Some(c) => trim_seq(c@),
                                    None => tasks_view(old(tasks)@)[i as int].content,
                                }) && t.status == (match status {
                                    Some(s) => status_form(s@),
                                    None => tasks_view(old(tasks)@)[i as int].status,
                                }) && t.priority == (match merged_field(
                                    opt_string_view(priority),
                                    clear_priority,
                                ) {
                                    Some(p) => normalize_optional_spec(p),
                                    None => tasks_view(old(tasks)@)[i as int].priority,
                                }) && t.description == (match merged_field(
                                    opt_string_view(description),
                                    clear_description,
                                ) {
                                    Some(d) => normalize_optional_spec(d),
                                    None => tasks_view(old(tasks)@)[i as int].description,
                                }) && t.output == (match merged_field(
                                    opt_string_view(output),
                                    clear_output,
                                ) {
                                    Some(o) => normalize_optional_spec(o),
                                    None => tasks_view(old(tasks)@)[i as int].output,
                                }) && r@ == "Updated task `"@ + t.id + "`.\n"@ + task_detail_text(t)
                            },
                        },
                    },
                }
            },
            TaskCommand::Stop { task_id, reason } => match find_task(
                tasks_view(old(tasks)@),
                task_id@,
            ) {
                Some(i) => {
                    let t = TaskView {
                        status: "cancelled"@,
                        output: match opt_string_view(reason) {
                            Some(r) => normalize_optional_spec(Some(r)),
                            None => tasks_view(old(tasks)@)[i as int].output,
                        },
                        ..tasks_view(old(tasks)@)[i as int]
                    };
                    &&& tasks_view(final(tasks)@) == tasks_view(old(tasks)@).update(i as int, t)
                    &&& res matches Ok(r) && r@ == "Stopped task `"@ + t.id + "`.\n"@
                        + task_detail_text(t)
                },
                None => res matches Err(e) && (e matches TaskError::NotFound(id) && id@ == task_id@),
            },
            TaskCommand::Start { task_id } => transition_outcome(
                old(tasks)@,
                final(tasks)@,
                task_id@,
                TaskTransition::Start,
                res,
            ),
            TaskCommand::Done { task_id } => transition_outcome(
                old(tasks)@,
                final(tasks)@,
                task_id@,
                TaskTransition::Complete,
                res,
            ),
            TaskCommand::Cancel { task_id } => transition_outcome(
                old(tasks)@,
                final(tasks)@,
                task_id@,
                TaskTransition::Cancel,
                res,
            ),
            TaskCommand::Remove { task_id } => match find_task(
                tasks_view(old(tasks)@),
                task_id@,
            ) {
                Some(i) => {
                    &&& tasks_view(final(tasks)@) == tasks_view(old(tasks)@).remove(i as int)
                    &&& res matches Ok(r) && r@ == "Removed task `"@ + task_id@ + "`."@
                },
                None => res matches Err(e) && (e matches TaskError::NotFound(id) && id@ == task_id@),
            },
            TaskCommand::Clear { completed, all } => if completed == all {
                res matches Err(e) && e == TaskError::ClearMode
            } else if completed {
                &&& tasks_view(final(tasks)@) == remaining_part(tasks_view(old(tasks)@))
                &&& res matches Ok(r) && r@ == "Removed "@ + decimal(
                    completed_part(tasks_view(old(tasks)@)).len(),
                ) + " task(s)."@
            } else {
                &&& final(tasks)@.len() == 0
                &&& res matches Ok(r) && r@ == "Removed "@ + decimal(old(tasks)@.len()) + " task(s)."@
            },
        },
{
    match command {
        TaskCommand::List { status, limit } => {
            let mut listed = match status {
                Some(s) => {
                    let st = match validate_task_status(s.as_str()) {
                        Ok(v) => v,
                        Err(e) => return Err(e),
                    };
                    tasks_with_status(tasks, st.as_str())
                },
                None => {
                    let mut all: Vec<TaskItem> = Vec::new();
                    let mut i: usize = 0;
                    while i < tasks.len()
                        invariant
                            i <= tasks@.len(),
                            tasks_view(all@) == tasks_view(tasks@).take(i as int),
                        decreases tasks@.len() - i,
                    {
                        let ghost prev = all@;
                        all.push(tasks[i].duplicate());
                        assert(tasks_view(all@) =~= tasks_view(prev).push(tasks_view(tasks@)[i as int]));
                        assert(tasks_view(tasks@).take(i + 1) =~= tasks_view(tasks@).take(i as int).push(
                            tasks_view(tasks@)[i as int],
                        ));
                        i = i + 1;
                    }
                    assert(tasks_view(tasks@).take(i as int) =~= tasks_view(tasks@));
                    all
                },
            };
            match limit {
                Some(n) => if n < listed.len() {
                    let ghost before = listed@;
                    listed.truncate(n);
                    assert(tasks_view(listed@) =~= tasks_view(before).take(n as int));
                },
                None => {},
            }
            Ok(format_task_list(&listed))
        },
        TaskCommand::Show { task_id } => match {
            proof {
                lemma_find_task(tasks_view(tasks@), task_id@);
            }
            get_task(tasks, task_id.as_str())
        } {
            Ok(t) => Ok(format_task_detail(&t)),
            Err(e) => Err(e),
        },
        TaskCommand::Output { task_id } => match {
            proof {
                lemma_find_task(tasks_view(tasks@), task_id@);
            }
            get_task(tasks, task_id.as_str())
        } {
            Ok(t) => Ok(format_task_output(&t)),
            Err(e) => Err(e),
        },
        TaskCommand::Add { content, priority, description } => {
            let task = match add_task(tasks, content, priority, description) {
                Ok(t) => t,
                Err(e) => return Err(e),
            };
            let file = replace_char(todo_file_path(workspace_root).as_str(), '\\', "/");
            let mut m = "Added task `".to_owned();
            m.append(task.id.as_str());
            m.append("` at `");
            m.append(file.as_str());
            m.append("`.\n");
            m.append(format_task_detail(&task).as_str());
            Ok(m)
        },
        TaskCommand::Update {
            task_id,
            content,
            priority,
            clear_priority,
            description,
            clear_description,
            status,
            output,
            clear_output,
        } => {
            let patch = TaskPatch {
                content,
                status,
                priority: merge_optional_field(priority, clear_priority),
                description: merge_optional_field(description, clear_description),
                output: merge_optional_field(output, clear_output),
            };
            if patch.is_empty() {
                return Err(TaskError::EmptyCommand);
            }
            proof {
                lemma_find_task(tasks_view(tasks@), task_id@);
            }
            match update_task(tasks, task_id.as_str(), patch) {
                Ok(t) => Ok(headed_detail("Updated task `", &t, "`.\n")),
                Err(e) => Err(e),
            }
        },
        TaskCommand::Stop { task_id, reason } => match {
            proof {
                lemma_find_task(tasks_view(tasks@), task_id@);
            }
            stop_task(tasks, task_id.as_str(), reason)
        } {
            Ok(t) => Ok(headed_detail("Stopped task `", &t, "`.\n")),
            Err(e) => Err(e),
        },
        TaskCommand::Start { task_id } => match {
            proof {
                lemma_find_task(tasks_view(tasks@), task_id@);
            }
            transition_task(
            tasks,
            task_id.as_str(),
            TaskTransition::Start,
        )
        } {
            Ok(t) => Ok(marked_message(&t)),
            Err(e) => Err(e),
        },
        TaskCommand::Done { task_id } => match {
            proof {
                lemma_find_task(tasks_view(tasks@), task_id@);
            }
            transition_task(
            tasks,
            task_id.as_str(),
            TaskTransition::Complete,
        )
        } {
            Ok(t) => Ok(marked_message(&t)),
            Err(e) => Err(e),
        },
        TaskCommand::Cancel { task_id } => match {
            proof {
                lemma_find_task(tasks_view(tasks@), task_id@);
            }
            transition_task(
            tasks,
            task_id.as_str(),
            TaskTransition::Cancel,
        )
        } {
            Ok(t) => Ok(marked_message(&t)),
            Err(e) => Err(e),
        },
        TaskCommand::Remove { task_id } => match {
            proof {
                lemma_find_task(tasks_view(tasks@), task_id@);
            }
            remove_task(tasks, task_id.as_str())
        } {
            Ok(t) => {
                let mut m = "Removed task `".to_owned();
                m.append(t.id.as_str());
                m.append("`.");
                Ok(m)
            },
            Err(e) => Err(e),
        },
        TaskCommand::Clear { completed, all } => {
            let removed = match clear_tasks(tasks, completed, all) {
                Ok(r) => r,
                Err(e) => return Err(e),
            };
            let mut m = "Removed ".to_owned();
            push_decimal(&mut m, removed.len() as u64);
            m.append(" task(s).");
            Ok(m)
        },
    }
}

/// What a lifecycle command does to the list and prints.
pub open spec fn transition_outcome(
    before: Seq<TaskItem>,
    after: Seq<TaskItem>,
    task_id: Seq<char>,
    transition: TaskTransition,
    res: Result<String, TaskError>,
) -> bool {
    match find_task(tasks_view(before), task_id) {
        Some(i) => {
            let t = TaskView { status: transition_status_spec(transition), ..tasks_view(before)[i as int] };
            &&& tasks_view(after) == tasks_view(before).update(i as int, t)
            &&& res matches Ok(r) && r@ == marked_text(t)
        },
        None => res matches Err(e) && (e matches TaskError::NotFound(id) && id@ == task_id),
    }
}

} // verus!
