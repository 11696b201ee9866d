//! The workspace task list: adding, editing, finishing and listing tasks.

use vstd::prelude::*;

use crate::paths::{join_path, path_join};
use crate::text::{
    decimal, has_prefix, join, join_seq, keyword_form, keyword_form_of, lemma_parse_decimal,
    opt_string_view, parse_usize, parse_usize_seq, push_decimal, str_eq, trim, trim_seq, views,
};

verus! {

/// Name of the task file inside the workspace's `.hellox` directory.
pub const TASK_FILE_NAME: &'static str = "todos.json";

/// The task file of a workspace: `.hellox/todos.json` under its root.
pub fn todo_file_path(workspace_root: &str) -> (res: String)
    ensures
        res@ == path_join(path_join(workspace_root@, ".hellox"@), TASK_FILE_NAME@),
{
    join_path(join_path(workspace_root, ".hellox").as_str(), TASK_FILE_NAME)
}

/// A lifecycle step a task can be moved to.
#[derive(Clone, Copy, Debug, PartialEq, Eq, Structural)]
pub enum TaskTransition {
    Start,
    Complete,
    Cancel,
}

/// The status a transition sets.
pub open spec fn transition_status_spec(t: TaskTransition) -> Seq<char> {
    match t {
        TaskTransition::Start => "in_progress"@,
        TaskTransition::Complete => "completed"@,
        TaskTransition::Cancel => "cancelled"@,
    }
}

impl TaskTransition {
    /// The status this transition sets.
    pub fn status(&self) -> (res: &'static str)
        ensures
            res@ == transition_status_spec(*self),
    {
        match self {
            TaskTransition::Start => "in_progress",
            TaskTransition::Complete => "completed",
            TaskTransition::Cancel => "cancelled",
        }
    }
}

/// Field changes for one task; `Some(None)` clears an optional field.
#[derive(Debug)]
pub struct TaskPatch {
    pub content: Option<String>,
    pub status: Option<String>,
    pub priority: Option<Option<String>>,
    pub description: Option<Option<String>>,
    pub output: Option<Option<String>>,
}

impl Default for TaskPatch {
    /// The patch that changes nothing.
    fn default() -> (res: Self)
        ensures
            res.content is None,
            res.status is None,
            res.priority is None,
            res.description is None,
            res.output is None,
    {
        TaskPatch { content: None, status: None, priority: None, description: None, output: None }
    }
}

impl TaskPatch {
    /// Whether the patch changes nothing.
    pub fn is_empty(&self) -> (res: bool)
        ensures
            res == (self.content is None && self.status is None && self.priority is None
                && self.description is None && self.output is None),
    {
        self.content.is_none() && self.status.is_none() && self.priority.is_none()
            && self.description.is_none() && self.output.is_none()
    }
}

/// One task of the list.
#[derive(Debug, PartialEq, Eq)]
pub struct TaskItem {
    pub id: String,
    pub content: String,
    pub status: String,
    pub priority: Option<String>,
    pub description: Option<String>,
    pub output: Option<String>,
}

/// A task as plain text values.
pub struct TaskView {
    pub id: Seq<char>,
    pub content: Seq<char>,
    pub status: Seq<char>,
    pub priority: Option<Seq<char>>,
    pub description: Option<Seq<char>>,
    pub output: Option<Seq<char>>,
}

impl TaskItem {
    /// The task as plain text values.
    pub open spec fn view(&self) -> TaskView {
        TaskView {
            id: self.id@,
            content: self.content@,
            status: self.status@,
            priority: opt_string_view(self.priority),
            description: opt_string_view(self.description),
            output: opt_string_view(self.output),
        }
    }
}

/// A task list as plain text values.
pub open spec fn tasks_view(tasks: Seq<TaskItem>) -> Seq<TaskView> {
    tasks.map_values(|t: TaskItem| t@)
}

/// Why a task operation was refused.
#[derive(Debug, PartialEq, Eq)]
pub enum TaskError {
    /// No task has the given id.
    NotFound(String),
    /// An update named no field.
    EmptyPatch,
    /// A required text (named by the label) was empty after trimming.
    EmptyField(String),
    /// A status outside pending, in_progress, completed and cancelled.
    InvalidStatus(String),
    /// Clearing needs exactly one of "completed" and "all".
    ClearMode,
    /// An update command named no field.
    EmptyCommand,
}

/// The message shown for a refused task operation.
pub open spec fn task_error_text(e: &TaskError) -> Seq<char> {
    match e {
        TaskError::NotFound(id) => "task `"@ + id@ + "` was not found"@,
        TaskError::EmptyPatch => "task update requires at least one field change"@,
        TaskError::EmptyField(label) => label@ + " cannot be empty"@,
        TaskError::InvalidStatus(v) => "unsupported task status `"@ + v@
            + "`; use pending, in_progress, completed, or cancelled"@,
        TaskError::ClearMode => "choose exactly one clear mode: `completed` or `all`"@,
        TaskError::EmptyCommand => "tasks update requires at least one field change"@,
    }
}

impl TaskError {
    /// The message shown for the refusal.
    pub fn message(&self) -> (res: String)
        ensures
            res@ == task_error_text(self),
    {
        match self {
            TaskError::NotFound(id) => {
                let mut m = "task `".to_owned();
                m.append(id.as_str());
                m.append("` was not found");
                m
            },
            TaskError::EmptyPatch => "task update requires at least one field change".to_owned(),
            TaskError::EmptyField(label) => {
                let mut m = label.clone();
                m.append(" cannot be empty");
                m
            },
            TaskError::InvalidStatus(v) => {
                let mut m = "unsupported task status `".to_owned();
                m.append(v.as_str());
                m.append("`; use pending, in_progress, completed, or cancelled");
                m
            },
            TaskError::ClearMode => "choose exactly one clear mode: `completed` or `all`".to_owned(),
            TaskError::EmptyCommand => "tasks update requires at least one field change".to_owned(),
        }
    }
}

/// Copies an optional string.
pub fn clone_opt(o: &Option<String>) -> (res: Option<String>)
    ensures
        opt_string_view(res) == opt_string_view(*o),
{
    match o {
        Some(s) => Some(s.clone()),
        None => None,
    }
}

impl TaskItem {
    /// A copy of the task.
    pub fn duplicate(&self) -> (res: TaskItem)
        ensures
            res@ == self@,
    {
        TaskItem {
            id: self.id.clone(),
            content: self.content.clone(),
            status: self.status.clone(),
            priority: clone_opt(&self.priority),
            description: clone_opt(&self.description),
            output: clone_opt(&self.output),
        }
    }
}

/// Trimmed text, or nothing when it is empty.
pub open spec fn normalize_optional_spec(value: Option<Seq<char>>) -> Option<Seq<char>> {
    match value {
        Some(v) => if trim_seq(v).len() > 0 {
            Some(trim_seq(v))
        } else {
            None
        },
        None => None,
    }
}

/// Trimmed text, or nothing when it is empty.
pub fn normalize_optional_text(value: Option<String>) -> (res: Option<String>)
    ensures
        opt_string_view(res) == normalize_optional_spec(opt_string_view(value)),
{
    match value {
        Some(v) => {
            let t = trim(v.as_str());
            if t.as_str().unicode_len() > 0 {
                Some(t)
            } else {
                None
            }
        },
        None => None,
    }
}

/// Trimmed required text; an error naming `label` when it is empty.
pub fn normalize_required_text(value: String, label: &str) -> (res: Result<String, TaskError>)
    ensures
        match res {
            Ok(v) => trim_seq(value@).len() > 0 && v@ == trim_seq(value@),
            Err(e) => trim_seq(value@).len() == 0 && (e matches TaskError::EmptyField(l) && l@ == label@),
        },
{
    let t = trim(value.as_str());
    if t.as_str().unicode_len() > 0 {
        Ok(t)
    } else {
        Err(TaskError::EmptyField(label.to_owned()))
    }
}


/// The canonical form of a typed status: trimmed, lower case, `-` read as `_`.
pub open spec fn status_form(value: Seq<char>) -> Seq<char> {
    keyword_form(value)
}

/// Whether `s` is one of the four task statuses.
pub open spec fn is_valid_status(s: Seq<char>) -> bool {
    s == "pending"@ || s == "in_progress"@ || s == "completed"@ || s == "cancelled"@
}

/// The canonical form of a typed status.
fn status_form_of(value: &str) -> (res: String)
    ensures
        res@ == status_form(value@),
{
    keyword_form_of(value)
}

fn is_valid_status_text(s: &str) -> (res: bool)
    ensures
        res == is_valid_status(s@),
{
    str_eq(s, "pending") || str_eq(s, "in_progress") || str_eq(s, "completed") || str_eq(
        s,
        "cancelled",
    )
}

/// Checks a typed status; its canonical form when valid.
pub fn validate_task_status(value: &str) -> (res: Result<String, TaskError>)
    ensures
        match res {
            Ok(s) => is_valid_status(status_form(value@)) && s@ == status_form(value@),
            Err(e) => !is_valid_status(status_form(value@)) && (e matches TaskError::InvalidStatus(v)
                && v@ == value@),
        },
{
    let normalized = status_form_of(value);
    if is_valid_status_text(normalized.as_str()) {
        Ok(normalized)
    } else {
        Err(TaskError::InvalidStatus(value.to_owned()))
    }
}

/// The canonical form of a stored status, if it is a valid one.
pub fn normalize_status(value: Option<&str>) -> (res: Option<String>)
    ensures
        match value {
            Some(v) => if is_valid_status(status_form(v@)) {
                res matches Some(s) && s@ == status_form(v@)
            } else {
                res is None
            },
            None => res is None,
        },
{
    match value {
        Some(v) => {
            let normalized = status_form_of(v);
            if is_valid_status_text(normalized.as_str()) {
                Some(normalized)
            } else {
                None
            }
        },
        None => None,
    }
}

/// The number in an id of the form `task-<n>`.
pub open spec fn id_number(id: Seq<char>) -> Option<usize> {
    if has_prefix(id, "task-"@) {
        parse_usize_seq(id.subrange(5, id.len() as int))
    } else {
        None
    }
}

/// The largest number among ids of the form `task-<n>`, or 0.
pub open spec fn max_id_number(tasks: Seq<TaskView>) -> nat
    decreases tasks.len(),
{
    if tasks.len() == 0 {
        0
    } else {
        let rest = max_id_number(tasks.drop_last());
        match id_number(tasks.last().id) {
            Some(n) => if n > rest {
                n as nat
            } else {
                rest
            },
            None => rest,
        }
    }
}

/// The id a new task gets: one past the largest `task-<n>` number.
pub open spec fn next_id_spec(tasks: Seq<TaskView>) -> Seq<char> {
    "task-"@ + decimal(max_id_number(tasks) + 1)
}

fn id_number_of(id: &str) -> (res: Option<usize>)
    ensures
        res == id_number(id@),
{
    proof {
        reveal_strlit("task-");
    }
    if !crate::text::starts_with(id, "task-") {
        return None;
    }
    let chars = crate::text::chars_of(id);
    let rest = crate::text::string_from_range(&chars, 5, chars.len());
    parse_usize(rest.as_str())
}

/// The largest `task-<n>` number in use, or 0.
fn max_task_number(tasks: &Vec<TaskItem>) -> (res: usize)
    ensures
        res as nat == max_id_number(tasks_view(tasks@)),
{
    let mut max: usize = 0;
    let mut i: usize = 0;
    while i < tasks.len()
        invariant
            i <= tasks@.len(),
            max as nat == max_id_number(tasks_view(tasks@.subrange(0, i as int))),
        decreases tasks@.len() - i,
    {
        assert(tasks_view(tasks@.subrange(0, i + 1)).drop_last() =~= tasks_view(
            tasks@.subrange(0, i as int),
        ));
        match id_number_of(tasks[i].id.as_str()) {
            Some(n) => if n > max {
                max = n;
            },
            None => {},
        }
        i = i + 1;
    }
    assert(tasks@.subrange(0, i as int) =~= tasks@);
    max
}

/// The id a new task gets.
pub fn next_task_id(tasks: &Vec<TaskItem>) -> (res: String)
    requires
        max_id_number(tasks_view(tasks@)) < usize::MAX,
    ensures
        res@ == next_id_spec(tasks_view(tasks@)),
{
    let max = max_task_number(tasks);
    let mut res = String::new();
    res.append("task-");
    push_decimal(&mut res, (max + 1) as u64);
    res
}


/// Index of the first task with id `id` at or after `k`.
pub open spec fn find_task_from(tasks: Seq<TaskView>, id: Seq<char>, k: nat) -> Option<nat>
    decreases tasks.len() - k,
{
    if k >= tasks.len() {
        None
    } else if tasks[k as int].id == id {
        Some(k)
    } else {
        find_task_from(tasks, id, k + 1)
    }
}

/// Index of the first task with id `id`.
pub open spec fn find_task(tasks: Seq<TaskView>, id: Seq<char>) -> Option<nat> {
    find_task_from(tasks, id, 0)
}

proof fn lemma_find_task_from(tasks: Seq<TaskView>, id: Seq<char>, k: nat)
    ensures
        match find_task_from(tasks, id, k) {
            Some(i) => k <= i < tasks.len() && tasks[i as int].id == id && forall|j: int|
                k <= j < i ==> tasks[j].id != id,
            None => forall|j: int| k <= j < tasks.len() ==> tasks[j].id != id,
        },
    decreases tasks.len() - k,
{
    if k < tasks.len() && tasks[k as int].id != id {
        lemma_find_task_from(tasks, id, k + 1);
    }
}

/// Law helper: the first match is characterised by position and id.
pub proof fn lemma_find_task(tasks: Seq<TaskView>, id: Seq<char>)
    ensures
        match find_task(tasks, id) {
            Some(i) => i < tasks.len() && tasks[i as int].id == id && forall|j: int|
                0 <= j < i ==> tasks[j].id != id,
            None => forall|j: int| 0 <= j < tasks.len() ==> tasks[j].id != id,
        },
{
    lemma_find_task_from(tasks, id, 0);
}

/// Index of the first task with id `task_id`.
pub fn find_task_index(tasks: &Vec<TaskItem>, task_id: &str) -> (res: Option<usize>)
    ensures
        match res {
            Some(i) => find_task(tasks_view(tasks@), task_id@) == Some(i as nat) && i < tasks@.len(),
            None => find_task(tasks_view(tasks@), task_id@) is None,
        },
{
    proof {
        lemma_find_task(tasks_view(tasks@), task_id@);
    }
    let ghost tv = tasks_view(tasks@);
    let mut i: usize = 0;
    while i < tasks.len()
        invariant
            tv == tasks_view(tasks@),
            i <= tasks@.len(),
            find_task(tv, task_id@) == find_task_from(tv, task_id@, i as nat),
        decreases tasks@.len() - i,
    {
        if str_eq(tasks[i].id.as_str(), task_id) {
            return Some(i);
        }
        i = i + 1;
    }
    None
}

/// The first task with id `task_id`.
pub fn get_task(tasks: &Vec<TaskItem>, task_id: &str) -> (res: Result<TaskItem, TaskError>)
    ensures
        match find_task(tasks_view(tasks@), task_id@) {
            Some(i) => res matches Ok(t) && t@ == tasks@[i as int]@,
            None => res matches Err(e) && (e matches TaskError::NotFound(id) && id@ == task_id@),
        },
{
    match find_task_index(tasks, task_id) {
        Some(i) => Ok(tasks[i].duplicate()),
        None => Err(TaskError::NotFound(task_id.to_owned())),
    }
}

/// The task `add_task` creates.
pub open spec fn new_task_spec(
    tasks: Seq<TaskView>,
    content: Seq<char>,
    priority: Option<Seq<char>>,
    description: Option<Seq<char>>,
) -> TaskView {
    TaskView {
        id: next_id_spec(tasks),
        content: trim_seq(content),
        status: "pending"@,
        priority: normalize_optional_spec(priority),
        description: normalize_optional_spec(description),
        output: None,
    }
}

/// Appends a new pending task with the next free id; refuses empty content.
pub fn add_task(
    tasks: &mut Vec<TaskItem>,
    content: String,
    priority: Option<String>,
    description: Option<String>,
) -> (res: Result<TaskItem, TaskError>)
    requires
        max_id_number(tasks_view(old(tasks)@)) < usize::MAX,
    ensures
        trim_seq(content@).len() > 0 ==> (res matches Ok(t) && t@ == new_task_spec(
            tasks_view(old(tasks)@),
            content@,
            opt_string_view(priority),
            opt_string_view(description),
        ) && tasks_view(final(tasks)@) == tasks_view(old(tasks)@).push(t@)),
        trim_seq(content@).len() == 0 ==> (res matches Err(e) && (e matches TaskError::EmptyField(l)
            && l@ == "task content"@) && final(tasks)@ == old(tasks)@),
{
    let id = next_task_id(tasks);
    let content = match normalize_required_text(content, "task content") {
        Ok(c) => c,
        Err(e) => return Err(e),
    };
    let task = TaskItem {
        id,
        content,
        status: "pending".to_owned(),
        priority: normalize_optional_text(priority),
        description: normalize_optional_text(description),
        output: None,
    };
    let copy = task.duplicate();
    tasks.push(task);
    Ok(copy)
}

/// A patch as plain text values.
pub open spec fn patched_task(t: TaskView, patch: &TaskPatch) -> TaskView {
    TaskView {
        id: t.id,
        content: match patch.content {
            Some(c) => trim_seq(c@),
            None => t.content,
        },
        status: match patch.status {
            Some(s) => status_form(s@),
            None => t.status,
        },
        priority: match patch.priority {
            Some(p) => normalize_optional_spec(opt_string_view(p)),
            None => t.priority,
        },
        description: match patch.description {
            Some(d) => normalize_optional_spec(opt_string_view(d)),
            None => t.description,
        },
        output: match patch.output {
            Some(o) => normalize_optional_spec(opt_string_view(o)),
            None => t.output,
        },
    }
}

/// The reasons an update is refused.
pub enum UpdateRefusal {
    EmptyPatch,
    Missing,
    EmptyContent,
    BadStatus,
}

/// Why a patch would be refused for a list, checked in this order: it is empty, the
/// task is missing, the new content is empty, the new status is unknown.
pub open spec fn update_refusal(tasks: Seq<TaskView>, task_id: Seq<char>, patch: &TaskPatch) -> Option<UpdateRefusal> {
    if patch.content is None && patch.status is None && patch.priority is None
        && patch.description is None && patch.output is None {
        Some(UpdateRefusal::EmptyPatch)
    } else if find_task(tasks, task_id) is None {
        Some(UpdateRefusal::Missing)
    } else if patch.content matches Some(c) && trim_seq(c@).len() == 0 {
        Some(UpdateRefusal::EmptyContent)
    } else if patch.status matches Some(s) && !is_valid_status(status_form(s@)) {
        Some(UpdateRefusal::BadStatus)
    } else {
        None
    }
}

fn apply_optional(current: &Option<String>, change: Option<Option<String>>) -> (res: Option<String>)
    ensures
        opt_string_view(res) == match change {
            Some(v) => normalize_optional_spec(opt_string_view(v)),
            None => opt_string_view(*current),
        },
{
    match change {
        Some(v) => normalize_optional_text(v),
        None => clone_opt(current),
    }
}

/// Applies `patch` to the first task with id `task_id`; on any refusal the list is
/// left as it was.
pub fn update_task(tasks: &mut Vec<TaskItem>, task_id: &str, patch: TaskPatch) -> (res: Result<
    TaskItem,
    TaskError,
>)
    ensures
        match update_refusal(tasks_view(old(tasks)@), task_id@, &patch) {
            Some(UpdateRefusal::EmptyPatch) => res matches Err(e) && e == TaskError::EmptyPatch,
            Some(UpdateRefusal::Missing) => res matches Err(e) && (e matches TaskError::NotFound(id) && id@ == task_id@),
            Some(UpdateRefusal::EmptyContent) => res matches Err(e) && (e matches TaskError::EmptyField(l) && l@ == "task content"@),
            Some(UpdateRefusal::BadStatus) => res matches Err(e) && (e matches TaskError::InvalidStatus(v) && patch.status
                matches Some(s) && v@ == s@),
            None => {
                let i = find_task(tasks_view(old(tasks)@), task_id@)->0;
                res matches Ok(t) && t@ == patched_task(old(tasks)@[i as int]@, &patch)
                    && tasks_view(final(tasks)@) == tasks_view(old(tasks)@).update(i as int, t@)
            },
        },
        res is Err ==> final(tasks)@ == old(tasks)@,
{
    if patch.is_empty() {
        return Err(TaskError::EmptyPatch);
    }
    let index = match find_task_index(tasks, task_id) {
        Some(i) => i,
        None => return Err(TaskError::NotFound(task_id.to_owned())),
    };
    let ghost old_patch = patch;
    let content = match patch.content {
        Some(c) => match normalize_required_text(c, "task content") {
            Ok(v) => v,
            Err(e) => return Err(e),
        },
        None => tasks[index].content.clone(),
    };
    let status = match patch.status {
        Some(s) => match validate_task_status(s.as_str()) {
            Ok(v) => v,
            Err(e) => return Err(e),
        },
        None => tasks[index].status.clone(),
    };
    let updated = TaskItem {
        id: tasks[index].id.clone(),
        content,
        status,
        priority: apply_optional(&tasks[index].priority, patch.priority),
        description: apply_optional(&tasks[index].description, patch.description),
        output: apply_optional(&tasks[index].output, patch.output),
    };
    let copy = updated.duplicate();
    tasks.set(index, updated);
    Ok(copy)
}

/// Marks the first task with id `task_id` cancelled, recording a non-empty reason
/// as its output.
pub fn stop_task(tasks: &mut Vec<TaskItem>, task_id: &str, reason: Option<String>) -> (res: Result<
    TaskItem,
    TaskError,
>)
    ensures
        match find_task(tasks_view(old(tasks)@), task_id@) {
            Some(i) => res matches Ok(t) && t@ == (TaskView {
                status: "cancelled"@,
                output: match opt_string_view(reason) {
                    Some(r) => normalize_optional_spec(Some(r)),
                    None => old(tasks)@[i as int]@.output,
                },
                ..old(tasks)@[i as int]@
            }) && tasks_view(final(tasks)@) == tasks_view(old(tasks)@).update(i as int, t@),
            None => res matches Err(e) && (e matches TaskError::NotFound(id) && id@ == task_id@)
                && final(tasks)@ == old(tasks)@,
        },
{
    let index = match find_task_index(tasks, task_id) {
        Some(i) => i,
        None => return Err(TaskError::NotFound(task_id.to_owned())),
    };
    let output = match reason {
        Some(r) => normalize_optional_text(Some(r)),
        None => clone_opt(&tasks[index].output),
    };
    let updated = TaskItem {
        id: tasks[index].id.clone(),
        content: tasks[index].content.clone(),
        status: "cancelled".to_owned(),
        priority: clone_opt(&tasks[index].priority),
        description: clone_opt(&tasks[index].description),
        output,
    };
    let copy = updated.duplicate();
    tasks.set(index, updated);
    Ok(copy)
}

/// Moves the first task with id `task_id` to the status of `transition`.
pub fn transition_task(tasks: &mut Vec<TaskItem>, task_id: &str, transition: TaskTransition) -> (res:
    Result<TaskItem, TaskError>)
    ensures
        match find_task(tasks_view(old(tasks)@), task_id@) {
            Some(i) => res matches Ok(t) && t@ == (TaskView {
                status: transition_status_spec(transition),
                ..old(tasks)@[i as int]@
            }) && tasks_view(final(tasks)@) == tasks_view(old(tasks)@).update(i as int, t@),
            None => res matches Err(e) && (e matches TaskError::NotFound(id) && id@ == task_id@)
                && final(tasks)@ == old(tasks)@,
        },
{
    let index = match find_task_index(tasks, task_id) {
        Some(i) => i,
        None => return Err(TaskError::NotFound(task_id.to_owned())),
    };
    let updated = TaskItem {
        id: tasks[index].id.clone(),
        content: tasks[index].content.clone(),
        status: transition.status().to_owned(),
        priority: clone_opt(&tasks[index].priority),
        description: clone_opt(&tasks[index].description),
        output: clone_opt(&tasks[index].output),
    };
    let copy = updated.duplicate();
    tasks.set(index, updated);
    Ok(copy)
}

/// Removes the first task with id `task_id` and returns it.
pub fn remove_task(tasks: &mut Vec<TaskItem>, task_id: &str) -> (res: Result<TaskItem, TaskError>)
    ensures
        match find_task(tasks_view(old(tasks)@), task_id@) {
            Some(i) => res matches Ok(t) && t@ == old(tasks)@[i as int]@ && tasks_view(final(tasks)@)
                == tasks_view(old(tasks)@).remove(i as int),
            None => res matches Err(e) && (e matches TaskError::NotFound(id) && id@ == task_id@)
                && final(tasks)@ == old(tasks)@,
        },
{
    let index = match find_task_index(tasks, task_id) {
        Some(i) => i,
        None => return Err(TaskError::NotFound(task_id.to_owned())),
    };
    let removed = tasks.remove(index);
    assert(tasks_view(tasks@) =~= tasks_view(old(tasks)@).remove(index as int));
    Ok(removed)
}

/// The tasks whose status is exactly `completed`, in list order.
pub open spec fn completed_part(tasks: Seq<TaskView>) -> Seq<TaskView> {
    tasks.filter(|t: TaskView| t.status == "completed"@)
}

/// The tasks whose status is anything but `completed`, in list order.
pub open spec fn remaining_part(tasks: Seq<TaskView>) -> Seq<TaskView> {
    tasks.filter(|t: TaskView| t.status != "completed"@)
}

/// Clears the list: with `completed_only` the completed tasks, with `all` every task.
/// Exactly one of the two must be set. Returns the removed tasks in list order.
pub fn clear_tasks(tasks: &mut Vec<TaskItem>, completed_only: bool, all: bool) -> (res: Result<
    Vec<TaskItem>,
    TaskError,
>)
    ensures
        completed_only == all ==> (res matches Err(e) && e == TaskError::ClearMode && final(tasks)@
            == old(tasks)@),
        completed_only && !all ==> (res matches Ok(r) && tasks_view(r@) == completed_part(
            tasks_view(old(tasks)@),
        ) && tasks_view(final(tasks)@) == remaining_part(tasks_view(old(tasks)@))),
        all && !completed_only ==> (res matches Ok(r) && tasks_view(r@) == tasks_view(old(tasks)@)
            && final(tasks)@.len() == 0),
{
    if completed_only == all {
        return Err(TaskError::ClearMode);
    }
    let ghost before = tasks_view(tasks@);
    if completed_only {
        let mut removed: Vec<TaskItem> = Vec::new();
        let mut kept: Vec<TaskItem> = Vec::new();
        let mut i: usize = 0;
        while i < tasks.len()
            invariant
                before == tasks_view(tasks@),
                i <= tasks@.len(),
                tasks_view(removed@) == completed_part(before.take(i as int)),
                tasks_view(kept@) == remaining_part(before.take(i as int)),
            decreases tasks@.len() - i,
        {
            let ghost prefix = before.take(i as int);
            assert(before.take(i + 1) =~= prefix.push(before[i as int]));
            proof {
                prefix.lemma_filter_push(before[i as int], |t: TaskView| t.status == "completed"@);
                prefix.lemma_filter_push(before[i as int], |t: TaskView| t.status != "completed"@);
            }
            let item = tasks[i].duplicate();
            if str_eq(tasks[i].status.as_str(), "completed") {
                removed.push(item);
            } else {
                kept.push(item);
            }
            i = i + 1;
        }
        assert(before.take(i as int) =~= before);
        *tasks = kept;
        Ok(removed)
    } else {
        let mut removed: Vec<TaskItem> = Vec::new();
        let mut i: usize = 0;
        while i < tasks.len()
            invariant
                before == tasks_view(tasks@),
                i <= tasks@.len(),
                tasks_view(removed@) == before.take(i as int),
            decreases tasks@.len() - i,
        {
            let ghost prev = removed@;
            removed.push(tasks[i].duplicate());
            assert(tasks_view(removed@) =~= tasks_view(prev).push(before[i as int]));
            assert(before.take(i + 1) =~= before.take(i as int).push(before[i as int]));
            i = i + 1;
        }
        assert(before.take(i as int) =~= before);
        tasks.clear();
        Ok(removed)
    }
}

/// The header row of a task listing.
pub open spec fn task_list_header() -> Seq<char> {
    "task_id\tstatus\tpriority\tcontent"@
}

/// One row of a task listing: id, status, priority (or `-`) and content, tab-separated.
pub open spec fn task_row(t: TaskView) -> Seq<char> {
    t.id + "\t"@ + t.status + "\t"@ + match t.priority {
        Some(p) => p,
        None => "-"@,
    } + "\t"@ + t.content
}

/// The listing of a task list.
pub open spec fn task_list_text(tasks: Seq<TaskView>) -> Seq<char> {
    if tasks.len() == 0 {
        "No tasks found."@
    } else {
        join_seq(seq![task_list_header()] + tasks.map_values(|t: TaskView| task_row(t)), "\n"@)
    }
}

fn task_row_text(t: &TaskItem) -> (res: String)
    ensures
        res@ == task_row(t@),
{
    let mut row = t.id.clone();
    row.append("\t");
    row.append(t.status.as_str());
    row.append("\t");
    match &t.priority {
        Some(p) => row.append(p.as_str()),
        None => row.append("-"),
    }
    row.append("\t");
    row.append(t.content.as_str());
    row
}

/// A tab-separated listing of the tasks, or a notice when there are none.
pub fn format_task_list(tasks: &Vec<TaskItem>) -> (res: String)
    ensures
        res@ == task_list_text(tasks_view(tasks@)),
{
    if tasks.len() == 0 {
        return "No tasks found.".to_owned();
    }
    let ghost tv = tasks_view(tasks@);
    let mut lines: Vec<String> = Vec::new();
    lines.push("task_id\tstatus\tpriority\tcontent".to_owned());
    let mut i: usize = 0;
    while i < tasks.len()
        invariant
            tv == tasks_view(tasks@),
            i <= tasks@.len(),
            views(lines@) == seq![task_list_header()] + tv.take(i as int).map_values(
                |t: TaskView| task_row(t),
            ),
        decreases tasks@.len() - i,
    {
        let ghost prev = lines@;
        lines.push(task_row_text(&tasks[i]));
        assert(views(lines@) =~= views(prev).push(task_row(tv[i as int])));
        assert(tv.take(i + 1).map_values(|t: TaskView| task_row(t)) =~= tv.take(i as int).map_values(
            |t: TaskView| task_row(t),
        ).push(task_row(tv[i as int])));
        assert(views(lines@) =~= seq![task_list_header()] + tv.take(i + 1).map_values(
            |t: TaskView| task_row(t),
        ));
        i = i + 1;
    }
    assert(tv.take(i as int) =~= tv);
    join(&lines, "\n")
}

/// No two tasks of the list share an id.
pub open spec fn ids_unique(tasks: Seq<TaskView>) -> bool {
    forall|i: int, j: int| 0 <= i < j < tasks.len() ==> tasks[i].id != tasks[j].id
}

/// The id a new task gets carries the number one past the largest one in use.
proof fn lemma_next_id_number(tasks: Seq<TaskView>)
    requires
        max_id_number(tasks) < usize::MAX,
    ensures
        id_number(next_id_spec(tasks)) == Some((max_id_number(tasks) + 1) as usize),
{
    reveal_strlit("task-");
    let m = max_id_number(tasks) + 1;
    let id = next_id_spec(tasks);
    assert(id.subrange(0, 5) =~= "task-"@);
    assert(id.subrange(5, id.len() as int) =~= decimal(m));
    lemma_parse_decimal(m);
}

/// No `task-<n>` number in the list exceeds `max_id_number`.
proof fn lemma_max_id_bounds(tasks: Seq<TaskView>, j: int)
    requires
        0 <= j < tasks.len(),
        id_number(tasks[j].id) is Some,
    ensures
        id_number(tasks[j].id)->0 <= max_id_number(tasks),
    decreases tasks.len(),
{
    if j < tasks.len() - 1 {
        lemma_max_id_bounds(tasks.drop_last(), j);
    }
}

/// The id a new task gets is not in use.
proof fn lemma_next_id_fresh(tasks: Seq<TaskView>)
    requires
        max_id_number(tasks) < usize::MAX,
    ensures
        forall|j: int| 0 <= j < tasks.len() ==> tasks[j].id != next_id_spec(tasks),
{
    lemma_next_id_number(tasks);
    assert forall|j: int| 0 <= j < tasks.len() implies tasks[j].id != next_id_spec(tasks) by {
        if tasks[j].id == next_id_spec(tasks) {
            lemma_max_id_bounds(tasks, j);
        }
    }
}

/// A task that `add_task` appends is the one found under its id afterwards, its id
/// (`task-` and one more than the largest number of a `task-<n>` id) differs from
/// every id of the list, ids that were unique stay unique, and the next task added
/// gets the following number.
pub proof fn lemma_added_task_is_found(
    tasks: Seq<TaskView>,
    content: Seq<char>,
    priority: Option<Seq<char>>,
    description: Option<Seq<char>>,
)
    requires
        max_id_number(tasks) < usize::MAX,
    ensures
        forall|j: int| 0 <= j < tasks.len() ==> #[trigger] tasks[j].id != next_id_spec(tasks),
        find_task(
            tasks.push(new_task_spec(tasks, content, priority, description)),
            next_id_spec(tasks),
        ) == Some(tasks.len()),
        ids_unique(tasks) ==> ids_unique(
            tasks.push(new_task_spec(tasks, content, priority, description)),
        ),
        max_id_number(tasks.push(new_task_spec(tasks, content, priority, description)))
            == max_id_number(tasks) + 1,
{
    let t = new_task_spec(tasks, content, priority, description);
    let after = tasks.push(t);
    lemma_next_id_fresh(tasks);
    lemma_next_id_number(tasks);
    lemma_find_task(after, t.id);
    assert(after.drop_last() =~= tasks);
    assert(after[tasks.len() as int] == t);
}

/// After `remove_task` takes out the task found under an id, no task of a list with
/// unique ids is found under it any more.
pub proof fn lemma_removed_task_is_gone(tasks: Seq<TaskView>, id: Seq<char>)
    requires
        ids_unique(tasks),
        find_task(tasks, id) is Some,
    ensures
        find_task(tasks.remove(find_task(tasks, id)->0 as int), id) is None,
        ids_unique(tasks.remove(find_task(tasks, id)->0 as int)),
{
    let i = find_task(tasks, id)->0 as int;
    let after = tasks.remove(i);
    lemma_find_task(tasks, id);
    lemma_find_task(after, id);
    assert forall|j: int| 0 <= j < after.len() implies after[j].id != id by {
        if j < i {
            assert(after[j] == tasks[j]);
        } else {
            assert(after[j] == tasks[j + 1]);
        }
    }
    assert forall|a: int, b: int| 0 <= a < b < after.len() implies after[a].id != after[b].id by {
        let a2 = if a < i { a } else { a + 1 };
        let b2 = if b < i { b } else { b + 1 };
        assert(after[a] == tasks[a2]);
        assert(after[b] == tasks[b2]);
    }
}

/// A task changed in place under the same id (by `update_task`, `stop_task` or
/// `transition_task`) is the one found under that id afterwards, and unique ids stay
/// unique.
pub proof fn lemma_changed_task_is_found(tasks: Seq<TaskView>, id: Seq<char>, t: TaskView)
    requires
        find_task(tasks, id) is Some,
        t.id == id,
    ensures
        find_task(tasks.update(find_task(tasks, id)->0 as int, t), id) == find_task(tasks, id),
        ids_unique(tasks) ==> ids_unique(tasks.update(find_task(tasks, id)->0 as int, t)),
{
    let i = find_task(tasks, id)->0 as int;
    let after = tasks.update(i, t);
    lemma_find_task(tasks, id);
    lemma_find_task(after, id);
    assert forall|k: int| 0 <= k < after.len() implies #[trigger] after[k].id == tasks[k].id by {
        if k == i {
            assert(after[k] == t);
        }
    }
    assert(after[i].id == id);
    match find_task(after, id) {
        Some(i2) => {
            if (i2 as int) < i {
                assert(after[i2 as int].id == tasks[i2 as int].id);
            }
        },
        None => {},
    }
}

/// Clearing completed tasks splits the list: every removed task is completed, no
/// kept task is, and together they are as many as the list had.
pub proof fn lemma_clear_completed_partitions(tasks: Seq<TaskView>)
    ensures
        forall|i: int| 0 <= i < completed_part(tasks).len() ==> (#[trigger] completed_part(tasks)[i]).status
            == "completed"@,
        forall|i: int| 0 <= i < remaining_part(tasks).len() ==> (#[trigger] remaining_part(tasks)[i]).status
            != "completed"@,
        completed_part(tasks).len() + remaining_part(tasks).len() == tasks.len(),
    decreases tasks.len(),
{
    let p = |t: TaskView| t.status == "completed"@;
    let q = |t: TaskView| t.status != "completed"@;
    assert forall|i: int| 0 <= i < completed_part(tasks).len() implies (#[trigger] completed_part(
        tasks,
    )[i]).status == "completed"@ by {
        tasks.lemma_filter_pred(p, i);
    }
    assert forall|i: int| 0 <= i < remaining_part(tasks).len() implies (#[trigger] remaining_part(
        tasks,
    )[i]).status != "completed"@ by {
        tasks.lemma_filter_pred(q, i);
    }
    if tasks.len() == 0 {
        reveal(Seq::filter);
    } else {
        let rest = tasks.drop_last();
        lemma_clear_completed_partitions(rest);
        assert(rest.push(tasks.last()) =~= tasks);
        rest.lemma_filter_push(tasks.last(), p);
        rest.lemma_filter_push(tasks.last(), q);
    }
}

/// The task a stored entry at 0-based `index` becomes: a missing id is
/// `task-<index + 1>`, a missing or unknown status is `pending`, a known one is put in
/// its canonical form.
pub open spec fn stored_task_spec(
    index: nat,
    id: Option<Seq<char>>,
    content: Seq<char>,
    status: Option<Seq<char>>,
    priority: Option<Seq<char>>,
    description: Option<Seq<char>>,
    output: Option<Seq<char>>,
) -> TaskView {
    TaskView {
        id: match id {
            Some(i) => i,
            None => "task-"@ + decimal(index + 1),
        },
        content,
        status: match status {
            Some(s) => if is_valid_status(status_form(s)) {
                status_form(s)
            } else {
                "pending"@
            },
            None => "pending"@,
        },
        priority,
        description,
        output,
    }
}

/// The task a stored entry at 0-based `index` becomes.
pub fn stored_task(
    index: usize,
    id: Option<String>,
    content: String,
    status: Option<String>,
    priority: Option<String>,
    description: Option<String>,
    output: Option<String>,
) -> (res: TaskItem)
    requires
        index < usize::MAX,
    ensures
        res@ == stored_task_spec(
            index as nat,
            opt_string_view(id),
            content@,
            opt_string_view(status),
            opt_string_view(priority),
            opt_string_view(description),
            opt_string_view(output),
        ),
{
    let id = match id {
        Some(i) => i,
        None => {
            let mut s = "task-".to_owned();
            push_decimal(&mut s, (index + 1) as u64);
            s
        },
    };
    let status = match &status {
        Some(s) => match normalize_status(Some(s.as_str())) {
            Some(n) => n,
            None => "pending".to_owned(),
        },
        None => "pending".to_owned(),
    };
    TaskItem { id, content, status, priority, description, output }
}

/// Whether a task can still be added: the largest `task-<n>` number in use is below
/// the largest `usize`.
pub fn max_id_below_limit(tasks: &Vec<TaskItem>) -> (res: bool)
    ensures
        res == (max_id_number(tasks_view(tasks@)) < usize::MAX),
{
    max_task_number(tasks) < usize::MAX
}

} // verus!
