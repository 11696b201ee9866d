//! Typed shortcuts that act on the selected workflow step: moving the selection,
//! and editing, duplicating, moving or removing the step.

use vstd::prelude::*;

use crate::text::{
    join, join_seq, lower_seq, parse_usize, parse_usize_seq, split_whitespace, str_eq,
    to_ascii_lowercase, trim, trim_seq, views, words,
};

verus! {

/// The command word (ASCII lower case) and the remaining words of a typed line; none
/// for a blank line or a slash command.
pub open spec fn command_parts(input: Seq<char>) -> Option<(Seq<char>, Seq<Seq<char>>)> {
    let t = trim_seq(input);
    if t.len() == 0 || t[0] == '/' {
        None
    } else {
        let w = words(t);
        if w.len() == 0 {
            None
        } else {
            Some((lower_seq(w[0]), w.drop_first()))
        }
    }
}

/// Splits a typed line into its command word and the rest.
pub fn split_command(input: &str) -> (res: Option<(String, Vec<String>)>)
    ensures
        match command_parts(input@) {
            Some((cmd, tail)) => res matches Some((c, t)) && c@ == cmd && views(t@) == tail,
            None => res is None,
        },
{
    let trimmed = trim(input);
    let chars = crate::text::chars_of(trimmed.as_str());
    if chars.len() == 0 || chars[0] == '/' {
        return None;
    }
    let mut parts = split_whitespace(trimmed.as_str());
    if parts.len() == 0 {
        return None;
    }
    let first = parts.remove(0);
    assert(views(parts@) =~= words(trim_seq(input@)).drop_first());
    Some((to_ascii_lowercase(first.as_str()), parts))
}

/// Moving the selection among the steps of a workflow.
#[derive(Clone, Copy, Debug, PartialEq, Eq, Structural)]
pub enum WorkflowStepNavigationShortcut {
    Next,
    Previous,
    First,
    Last,
}

/// Where the selection went, and whether it moved.
#[derive(Clone, Copy, Debug, PartialEq, Eq, Structural)]
pub struct WorkflowStepNavigationResult {
    pub step_number: usize,
    pub changed: bool,
}

/// The end of the list a navigation stops at.
pub open spec fn boundary_spec(s: WorkflowStepNavigationShortcut) -> Seq<char> {
    match s {
        WorkflowStepNavigationShortcut::Next | WorkflowStepNavigationShortcut::Last => "last"@,
        WorkflowStepNavigationShortcut::Previous | WorkflowStepNavigationShortcut::First => "first"@,
    }
}

impl WorkflowStepNavigationShortcut {
    /// The end of the list the navigation stops at.
    pub fn boundary_name(self) -> (res: &'static str)
        ensures
            res@ == boundary_spec(self),
    {
        match self {
            WorkflowStepNavigationShortcut::Next | WorkflowStepNavigationShortcut::Last => "last",
            WorkflowStepNavigationShortcut::Previous | WorkflowStepNavigationShortcut::First => "first",
        }
    }
}

/// A shortcut that takes no words after it, or its usage text.
pub open spec fn bare<T>(tail: Seq<Seq<char>>, value: T, usage: Seq<char>) -> Result<T, Seq<char>> {
    if tail.len() == 0 {
        Ok(value)
    } else {
        Err(usage)
    }
}

/// The navigation a typed line asks for; an error with the usage when the command
/// has extra words; none when the line is no navigation command.
pub open spec fn navigation_spec(input: Seq<char>) -> Option<Result<WorkflowStepNavigationShortcut, Seq<char>>> {
    match command_parts(input) {
        None => None,
        Some((cmd, tail)) => if cmd == "next"@ {
            Some(bare(tail, WorkflowStepNavigationShortcut::Next, "Usage: next"@))
        } else if cmd == "prev"@ || cmd == "previous"@ {
            Some(bare(tail, WorkflowStepNavigationShortcut::Previous, "Usage: prev"@))
        } else if cmd == "first"@ {
            Some(bare(tail, WorkflowStepNavigationShortcut::First, "Usage: first"@))
        } else if cmd == "last"@ {
            Some(bare(tail, WorkflowStepNavigationShortcut::Last, "Usage: last"@))
        } else {
            None
        },
    }
}

fn no_tail<T>(tail: &Vec<String>, value: T, usage: &str) -> (res: Result<T, String>)
    ensures
        match bare(views(tail@), value, usage@) {
            Ok(v) => res matches Ok(r) && r == v,
            Err(u) => res matches Err(e) && e@ == u,
        },
{
    if tail.len() == 0 {
        Ok(value)
    } else {
        Err(usage.to_owned())
    }
}

/// Reads a navigation shortcut.
pub fn parse_workflow_step_navigation(input: &str) -> (res: Option<
    Result<WorkflowStepNavigationShortcut, String>,
>)
    ensures
        match navigation_spec(input@) {
            None => res is None,
            Some(Ok(s)) => res matches Some(Ok(r)) && r == s,
            Some(Err(u)) => res matches Some(Err(e)) && e@ == u,
        },
{
    let (cmd, tail) = match split_command(input) {
        Some(p) => p,
        None => return None,
    };
    let c = cmd.as_str();
    if str_eq(c, "next") {
        Some(no_tail(&tail, WorkflowStepNavigationShortcut::Next, "Usage: next"))
    } else if str_eq(c, "prev") || str_eq(c, "previous") {
        Some(no_tail(&tail, WorkflowStepNavigationShortcut::Previous, "Usage: prev"))
    } else if str_eq(c, "first") {
        Some(no_tail(&tail, WorkflowStepNavigationShortcut::First, "Usage: first"))
    } else if str_eq(c, "last") {
        Some(no_tail(&tail, WorkflowStepNavigationShortcut::Last, "Usage: last"))
    } else {
        None
    }
}

/// The step a navigation lands on, from the selection clamped into `1..=count`.
pub open spec fn navigation_target(selected: usize, count: usize, s: WorkflowStepNavigationShortcut) -> int {
    let sel = if selected < 1 {
        1
    } else if selected > count {
        count as int
    } else {
        selected as int
    };
    match s {
        WorkflowStepNavigationShortcut::Next => if sel + 1 > count {
            count as int
        } else {
            sel + 1
        },
        WorkflowStepNavigationShortcut::Previous => if sel > 1 {
            sel - 1
        } else {
            1
        },
        WorkflowStepNavigationShortcut::First => 1,
        WorkflowStepNavigationShortcut::Last => count as int,
    }
}

/// The selection clamped into `1..=count`.
pub open spec fn clamped_selection(selected: usize, count: usize) -> int {
    if selected < 1 {
        1
    } else if selected > count {
        count as int
    } else {
        selected as int
    }
}

/// Moves the selection among `step_count` steps, stopping at either end.
pub fn execute_workflow_step_navigation(
    selected_step: usize,
    step_count: usize,
    shortcut: WorkflowStepNavigationShortcut,
) -> (res: Result<WorkflowStepNavigationResult, String>)
    requires
        shortcut == WorkflowStepNavigationShortcut::Next ==> clamped_selection(selected_step, step_count)
            < usize::MAX,
    ensures
        step_count == 0 ==> (res matches Err(e) && e@ == "No workflow steps are available yet."@),
        step_count > 0 ==> (res matches Ok(r) && r.step_number == navigation_target(
            selected_step,
            step_count,
            shortcut,
        ) && r.changed == (r.step_number != clamped_selection(selected_step, step_count))),
{
    if step_count == 0 {
        return Err("No workflow steps are available yet.".to_owned());
    }
    let selected = if selected_step < 1 {
        1
    } else if selected_step > step_count {
        step_count
    } else {
        selected_step
    };
    let step_number = match shortcut {
        WorkflowStepNavigationShortcut::Next => if selected + 1 > step_count {
            step_count
        } else {
            selected + 1
        },
        WorkflowStepNavigationShortcut::Previous => if selected > 1 {
            selected - 1
        } else {
            1
        },
        WorkflowStepNavigationShortcut::First => 1,
        WorkflowStepNavigationShortcut::Last => step_count,
    };
    Ok(WorkflowStepNavigationResult { step_number, changed: step_number != selected })
}

/// Navigation never leaves `1..=count`, and the ends stay put under the moves towards
/// them.
pub proof fn lemma_navigation_stays_in_range(
    selected: usize,
    count: usize,
    s: WorkflowStepNavigationShortcut,
)
    requires
        count > 0,
    ensures
        1 <= navigation_target(selected, count, s) <= count,
        (s == WorkflowStepNavigationShortcut::Next || s == WorkflowStepNavigationShortcut::Last)
            && clamped_selection(selected, count) == count ==> navigation_target(selected, count, s)
            == count,
        (s == WorkflowStepNavigationShortcut::Previous || s == WorkflowStepNavigationShortcut::First)
            && clamped_selection(selected, count) == 1 ==> navigation_target(selected, count, s)
            == 1,
{
}

/// An edit of the selected workflow step.
#[allow(inconsistent_fields)]
#[derive(Debug, PartialEq, Eq)]
pub enum WorkflowStepShortcut {
    Duplicate { to_step_number: Option<usize> },
    Move { to_step_number: usize },
    Remove,
    SetName { value: String },
    ClearName,
    SetPrompt { value: String },
    SetWhen { value: String },
    ClearWhen,
    SetModel { value: String },
    ClearModel,
    SetBackend { value: String },
    ClearBackend,
    SetStepCwd { value: String },
    ClearStepCwd,
    SetRunMode { run_in_background: bool },
}

/// A step edit as plain values.
pub enum ShortcutSpec {
    Duplicate(Option<usize>),
    Move(usize),
    Remove,
    SetName(Seq<char>),
    ClearName,
    SetPrompt(Seq<char>),
    SetWhen(Seq<char>),
    ClearWhen,
    SetModel(Seq<char>),
    ClearModel,
    SetBackend(Seq<char>),
    ClearBackend,
    SetStepCwd(Seq<char>),
    ClearStepCwd,
    SetRunMode(bool),
}

/// The plain values of a step edit.
pub open spec fn shortcut_view(s: WorkflowStepShortcut) -> ShortcutSpec {
    match s {
        WorkflowStepShortcut::Duplicate { to_step_number } => ShortcutSpec::Duplicate(to_step_number),
        WorkflowStepShortcut::Move { to_step_number } => ShortcutSpec::Move(to_step_number),
        WorkflowStepShortcut::Remove => ShortcutSpec::Remove,
        WorkflowStepShortcut::SetName { value } => ShortcutSpec::SetName(value@),
        WorkflowStepShortcut::ClearName => ShortcutSpec::ClearName,
        WorkflowStepShortcut::SetPrompt { value } => ShortcutSpec::SetPrompt(value@),
        WorkflowStepShortcut::SetWhen { value } => ShortcutSpec::SetWhen(value@),
        WorkflowStepShortcut::ClearWhen => ShortcutSpec::ClearWhen,
        WorkflowStepShortcut::SetModel { value } => ShortcutSpec::SetModel(value@),
        WorkflowStepShortcut::ClearModel => ShortcutSpec::ClearModel,
        WorkflowStepShortcut::SetBackend { value } => ShortcutSpec::SetBackend(value@),
        WorkflowStepShortcut::ClearBackend => ShortcutSpec::ClearBackend,
        WorkflowStepShortcut::SetStepCwd { value } => ShortcutSpec::SetStepCwd(value@),
        WorkflowStepShortcut::ClearStepCwd => ShortcutSpec::ClearStepCwd,
        WorkflowStepShortcut::SetRunMode { run_in_background } => ShortcutSpec::SetRunMode(
            run_in_background,
        ),
    }
}

/// The words after a command joined by single spaces, or the usage when that is
/// empty.
pub open spec fn required_text(tail: Seq<Seq<char>>, usage: Seq<char>) -> Result<Seq<char>, Seq<char>> {
    let v = trim_seq(join_seq(tail, " "@));
    if v.len() == 0 {
        Err(usage)
    } else {
        Ok(v)
    }
}

/// A single positive step number after a command, or the usage.
pub open spec fn required_number(tail: Seq<Seq<char>>, usage: Seq<char>) -> Result<usize, Seq<char>> {
    if tail.len() == 1 && (parse_usize_seq(tail[0]) matches Some(n) && n > 0) {
        Ok(parse_usize_seq(tail[0])->0)
    } else {
        Err(usage)
    }
}

/// An optional single positive step number after a command, or the usage.
pub open spec fn optional_number(tail: Seq<Seq<char>>, usage: Seq<char>) -> Result<Option<usize>, Seq<char>> {
    if tail.len() == 0 {
        Ok(None)
    } else {
        match required_number(tail, usage) {
            Ok(n) => Ok(Some(n)),
            Err(u) => Err(u),
        }
    }
}

/// A result's value mapped into a step edit.
pub open spec fn map_ok<T>(r: Result<T, Seq<char>>, f: spec_fn(T) -> ShortcutSpec) -> Result<ShortcutSpec, Seq<char>> {
    match r {
        Ok(v) => Ok(f(v)),
        Err(u) => Err(u),
    }
}

/// The step edit a typed line asks for; an error with the usage when its words do
/// not fit; none when the line is no step edit.
pub open spec fn step_shortcut_spec(input: Seq<char>) -> Option<Result<ShortcutSpec, Seq<char>>> {
    match command_parts(input) {
        None => None,
        Some((c, tail)) => if c == "dup"@ || c == "duplicate"@ {
            Some(map_ok(optional_number(tail, "Usage: dup [to-step-number]"@), |n: Option<usize>| ShortcutSpec::Duplicate(n)))
        } else if c == "move"@ {
            Some(map_ok(required_number(tail, "Usage: move <to-step-number>"@), |n: usize| ShortcutSpec::Move(n)))
        } else if c == "rm"@ || c == "remove"@ || c == "delete"@ {
            Some(bare(tail, ShortcutSpec::Remove, "Usage: rm"@))
        } else if c == "name"@ || c == "rename"@ {
            Some(map_ok(required_text(tail, "Usage: name <text>"@), |v: Seq<char>| ShortcutSpec::SetName(v)))
        } else if c == "clear-name"@ {
            Some(bare(tail, ShortcutSpec::ClearName, "Usage: clear-name"@))
        } else if c == "prompt"@ {
            Some(map_ok(required_text(tail, "Usage: prompt <text>"@), |v: Seq<char>| ShortcutSpec::SetPrompt(v)))
        } else if c == "when"@ {
            Some(map_ok(required_text(tail, "Usage: when <json>"@), |v: Seq<char>| ShortcutSpec::SetWhen(v)))
        } else if c == "clear-when"@ {
            Some(bare(tail, ShortcutSpec::ClearWhen, "Usage: clear-when"@))
        } else if c == "model"@ {
            Some(map_ok(required_text(tail, "Usage: model <name>"@), |v: Seq<char>| ShortcutSpec::SetModel(v)))
        } else if c == "clear-model"@ {
            Some(bare(tail, ShortcutSpec::ClearModel, "Usage: clear-model"@))
        } else if c == "backend"@ {
            Some(map_ok(required_text(tail, "Usage: backend <name>"@), |v: Seq<char>| ShortcutSpec::SetBackend(v)))
        } else if c == "clear-backend"@ {
            Some(bare(tail, ShortcutSpec::ClearBackend, "Usage: clear-backend"@))
        } else if c == "step-cwd"@ || c == "cwd"@ {
            Some(map_ok(required_text(tail, "Usage: step-cwd <path>"@), |v: Seq<char>| ShortcutSpec::SetStepCwd(v)))
        } else if c == "clear-step-cwd"@ || c == "clear-cwd"@ {
            Some(bare(tail, ShortcutSpec::ClearStepCwd, "Usage: clear-step-cwd"@))
        } else if c == "background"@ || c == "bg"@ {
            Some(bare(tail, ShortcutSpec::SetRunMode(true), "Usage: background"@))
        } else if c == "foreground"@ || c == "fg"@ {
            Some(bare(tail, ShortcutSpec::SetRunMode(false), "Usage: foreground"@))
        } else {
            None
        },
    }
}

fn parse_required_text(tail: &Vec<String>, usage: &str) -> (res: Result<String, String>)
    ensures
        match required_text(views(tail@), usage@) {
            Ok(v) => res matches Ok(r) && r@ == v,
            Err(u) => res matches Err(e) && e@ == u,
        },
{
    let joined = join(tail, " ");
    let value = trim(joined.as_str());
    if value.as_str().unicode_len() == 0 {
        Err(usage.to_owned())
    } else {
        Ok(value)
    }
}

fn parse_required_step_number(tail: &Vec<String>, usage: &str) -> (res: Result<usize, String>)
    ensures
        match required_number(views(tail@), usage@) {
            Ok(n) => res matches Ok(r) && r == n,
            Err(u) => res matches Err(e) && e@ == u,
        },
{
    if tail.len() == 1 {
        match parse_usize(tail[0].as_str()) {
            Some(n) => if n > 0 {
                return Ok(n);
            },
            None => {},
        }
    }
    Err(usage.to_owned())
}

fn parse_optional_step_number(tail: &Vec<String>, usage: &str) -> (res: Result<Option<usize>, String>)
    ensures
        match optional_number(views(tail@), usage@) {
            Ok(n) => res matches Ok(r) && r == n,
            Err(u) => res matches Err(e) && e@ == u,
        },
{
    if tail.len() == 0 {
        Ok(None)
    } else {
        match parse_required_step_number(tail, usage) {
            Ok(n) => Ok(Some(n)),
            Err(e) => Err(e),
        }
    }
}

/// Reads a step edit.
pub fn parse_workflow_step_shortcut(input: &str) -> (res: Option<Result<WorkflowStepShortcut, String>>)
    ensures
        match step_shortcut_spec(input@) {
            None => res is None,
            Some(Ok(s)) => res matches Some(Ok(r)) && shortcut_view(r) == s,
            Some(Err(u)) => res matches Some(Err(e)) && e@ == u,
        },
{
    let (cmd, tail) = match split_command(input) {
        Some(p) => p,
        None => return None,
    };
    let c = cmd.as_str();
    if str_eq(c, "dup") || str_eq(c, "duplicate") {
        Some(
            match parse_optional_step_number(&tail, "Usage: dup [to-step-number]") {
                Ok(n) => Ok(WorkflowStepShortcut::Duplicate { to_step_number: n }),
                Err(e) => Err(e),
            },
        )
    } else if str_eq(c, "move") {
        Some(
            match parse_required_step_number(&tail, "Usage: move <to-step-number>") {
                Ok(n) => Ok(WorkflowStepShortcut::Move { to_step_number: n }),
                Err(e) => Err(e),
            },
        )
    } else if str_eq(c, "rm") || str_eq(c, "remove") || str_eq(c, "delete") {
        Some(no_tail(&tail, WorkflowStepShortcut::Remove, "Usage: rm"))
    } else if str_eq(c, "name") || str_eq(c, "rename") {
        Some(
            match parse_required_text(&tail, "Usage: name <text>") {
                Ok(v) => Ok(WorkflowStepShortcut::SetName { value: v }),
                Err(e) => Err(e),
            },
        )
    } else if str_eq(c, "clear-name") {
        Some(no_tail(&tail, WorkflowStepShortcut::ClearName, "Usage: clear-name"))
    } else if str_eq(c, "prompt") {
        Some(
            match parse_required_text(&tail, "Usage: prompt <text>") {
                Ok(v) => Ok(WorkflowStepShortcut::SetPrompt { value: v }),
                Err(e) => Err(e),
            },
        )
    } else if str_eq(c, "when") {
        Some(
            match parse_required_text(&tail, "Usage: when <json>") {
                Ok(v) => Ok(WorkflowStepShortcut::SetWhen { value: v }),
                Err(e) => Err(e),
            },
        )
    } else if str_eq(c, "clear-when") {
        Some(no_tail(&tail, WorkflowStepShortcut::ClearWhen, "Usage: clear-when"))
    } else if str_eq(c, "model") {
        Some(
            match parse_required_text(&tail, "Usage: model <name>") {
                Ok(v) => Ok(WorkflowStepShortcut::SetModel { value: v }),
                Err(e) => Err(e),
            },
        )
    } else if str_eq(c, "clear-model") {
        Some(no_tail(&tail, WorkflowStepShortcut::ClearModel, "Usage: clear-model"))
    } else if str_eq(c, "backend") {
        Some(
            match parse_required_text(&tail, "Usage: backend <name>") {
                Ok(v) => Ok(WorkflowStepShortcut::SetBackend { value: v }),
                Err(e) => Err(e),
            },
        )
    } else if str_eq(c, "clear-backend") {
        Some(no_tail(&tail, WorkflowStepShortcut::ClearBackend, "Usage: clear-backend"))
    } else if str_eq(c, "step-cwd") || str_eq(c, "cwd") {
        Some(
            match parse_required_text(&tail, "Usage: step-cwd <path>") {
                Ok(v) => Ok(WorkflowStepShortcut::SetStepCwd { value: v }),
                Err(e) => Err(e),
            },
        )
    } else if str_eq(c, "clear-step-cwd") || str_eq(c, "clear-cwd") {
        Some(no_tail(&tail, WorkflowStepShortcut::ClearStepCwd, "Usage: clear-step-cwd"))
    } else if str_eq(c, "background") || str_eq(c, "bg") {
        Some(
            no_tail(
                &tail,
                WorkflowStepShortcut::SetRunMode { run_in_background: true },
                "Usage: background",
            ),
        )
    } else if str_eq(c, "foreground") || str_eq(c, "fg") {
        Some(
            no_tail(
                &tail,
                WorkflowStepShortcut::SetRunMode { run_in_background: false },
                "Usage: foreground",
            ),
        )
    } else {
        None
    }
}

} // verus!
