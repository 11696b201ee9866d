//! The `workflow` editing subcommands: which script they name, the edit they make
//! and the line they print above the script's detail.

use vstd::prelude::*;

use crate::paths::{join_path, path_join};
use crate::task_commands::{change_view as task_change_view, merge_optional_field, merged_field};
use crate::tasks::normalize_optional_spec;
use crate::text::{decimal, opt_string_view, push_decimal};
use crate::workflow_doc::{
    add_workflow_step, duplicate_workflow_step, duplicate_outcome, insert_outcome,
    move_outcome, move_workflow_step, remove_outcome, remove_workflow_step,
    set_workflow_continue_on_error, set_workflow_shared_context, shown_name, step_error_text,
    update_outcome, update_workflow_step, doc_steps, same_other_fields, reads_same,
    DocValue, FieldValue, StepEditError, WorkflowDocument, WorkflowStepDraft, WorkflowStepPatch,
};

verus! {

/// How a command names a workflow script.
pub enum WorkflowLookupTarget {
    Named(String),
    Path(String),
}

/// The target a name and a script path give: the trimmed name, or the path, or
/// nothing; an error naming the command when both are given.
pub open spec fn lookup_spec(name: Option<Seq<char>>, script_path: Option<Seq<char>>) -> Option<Option<(bool, Seq<char>)>> {
    match (normalize_optional_spec(name), script_path) {
        (Some(n), None) => Some(Some((true, n))),
        (None, Some(p)) => Some(Some((false, p))),
        (Some(_), Some(_)) => None,
        (None, None) => Some(None),
    }
}

/// The view of a target: whether it is a name, and its text.
pub open spec fn target_view(t: WorkflowLookupTarget) -> (bool, Seq<char>) {
    match t {
        WorkflowLookupTarget::Named(n) => (true, n@),
        WorkflowLookupTarget::Path(p) => (false, p@),
    }
}

/// The refusal when both a name and a script path are given.
pub open spec fn both_given_text(label: Seq<char>) -> Seq<char> {
    label + " accepts either a workflow name or `--script-path`, but not both"@
}

/// The refusal when neither a name nor a script path is given.
pub open spec fn none_given_text(label: Seq<char>) -> Seq<char> {
    label + " requires a workflow name or `--script-path`"@
}

/// The script a command names, if any.
pub fn resolve_optional_lookup_target(
    workflow_name: Option<String>,
    script_path: Option<String>,
    label: &str,
) -> (res: Result<Option<WorkflowLookupTarget>, String>)
    ensures
        match lookup_spec(opt_string_view(workflow_name), opt_string_view(script_path)) {
            None => res matches Err(e) && e@ == both_given_text(label@),
            Some(None) => res matches Ok(None),
            Some(Some(t)) => res matches Ok(Some(r)) && target_view(r) == t,
        },
{
    match (crate::tasks::normalize_optional_text(workflow_name), script_path) {
        (Some(n), None) => Ok(Some(WorkflowLookupTarget::Named(n))),
        (None, Some(p)) => Ok(Some(WorkflowLookupTarget::Path(p))),
        (Some(_), Some(_)) => {
            let mut m = label.to_owned();
            m.append(" accepts either a workflow name or `--script-path`, but not both");
            Err(m)
        },
        (None, None) => Ok(None),
    }
}

/// The script a command names; an error when it names none.
pub fn resolve_lookup_target(workflow_name: Option<String>, script_path: Option<String>, label: &str) -> (res:
    Result<WorkflowLookupTarget, String>)
    ensures
        match lookup_spec(opt_string_view(workflow_name), opt_string_view(script_path)) {
            None => res matches Err(e) && e@ == both_given_text(label@),
            Some(None) => res matches Err(e) && e@ == none_given_text(label@),
            Some(Some(t)) => res matches Ok(r) && target_view(r) == t,
        },
{
    match resolve_optional_lookup_target(workflow_name, script_path, label) {
        Ok(Some(t)) => Ok(t),
        Ok(None) => {
            let mut m = label.to_owned();
            m.append(" requires a workflow name or `--script-path`");
            Err(m)
        },
        Err(e) => Err(e),
    }
}

/// A script path as used: an absolute path as it is, a relative one under the
/// workspace root.
pub fn resolve_script_path(root: &str, path: &str) -> (res: String)
    ensures
        res@ == path_join(root@, path@),
{
    join_path(root, path)
}

/// The run mode an update asks for: background, foreground, or unchanged; both at
/// once is refused.
pub fn merge_background_flags(run_in_background: bool, foreground: bool) -> (res: Result<
    Option<bool>,
    String,
>)
    ensures
        run_in_background && foreground ==> (res matches Err(e) && e@
            == "choose either `--run-in-background` or `--foreground`, but not both"@),
        !(run_in_background && foreground) ==> res == Ok::<Option<bool>, String>(
            if run_in_background {
                Some(true)
            } else if foreground {
                Some(false)
            } else {
                None
            },
        ),
{
    if run_in_background && foreground {
        return Err("choose either `--run-in-background` or `--foreground`, but not both".to_owned());
    }
    if run_in_background {
        Ok(Some(true))
    } else if foreground {
        Ok(Some(false))
    } else {
        Ok(None)
    }
}

/// An editing subcommand of `workflow`, applied to a loaded script.
#[allow(inconsistent_fields)]
pub enum WorkflowAuthoringCommand {
    AddStep {
        name: Option<String>,
        prompt: String,
        index: Option<usize>,
        when: Option<String>,
        model: Option<String>,
        backend: Option<String>,
        step_cwd: Option<String>,
        run_in_background: bool,
    },
    UpdateStep {
        step_number: usize,
        name: Option<String>,
        clear_name: bool,
        prompt: Option<String>,
        when: Option<String>,
        clear_when: bool,
        model: Option<String>,
        clear_model: bool,
        backend: Option<String>,
        clear_backend: bool,
        step_cwd: Option<String>,
        clear_step_cwd: bool,
        run_in_background: bool,
        foreground: bool,
    },
    DuplicateStep { step_number: usize, to_step_number: Option<usize>, name: Option<String> },
    MoveStep { step_number: usize, to_step_number: usize },
    RemoveStep { step_number: usize },
    SetSharedContext { value: Option<String> },
    ClearSharedContext,
    EnableContinueOnError,
    DisableContinueOnError,
}

/// The line an added step prints above the script detail.
pub open spec fn added_head(n: usize, path: Seq<char>) -> Seq<char> {
    "Added workflow step "@ + decimal(n as nat) + " at `"@ + path + "`.\n"@
}

/// What an add-step command did, given the edit's own result `r`.
pub open spec fn add_command_ok(
    before: Map<Seq<char>, crate::workflow_doc::DocValue>,
    after: Map<Seq<char>, crate::workflow_doc::DocValue>,
    path_shown: Seq<char>,
    draft: &WorkflowStepDraft,
    index: Option<usize>,
    res: Result<String, String>,
    r: Result<usize, StepEditError>,
) -> bool {
    &&& match doc_steps(before) {
        None => r matches Err(e) && e is StepsNotArray,
        Some(s) => doc_steps(after) matches Some(a) && insert_outcome(s, a, draft, index, r),
    }
    &&& match r {
        Ok(n) => res matches Ok(m) && m@ == added_head(n, path_shown),
        Err(e) => res matches Err(m) && m@ == step_error_text(&e),
    }
}

/// What a duplicate-step command did, given the edit's own result `r`.
pub open spec fn duplicate_command_ok(
    before: Map<Seq<char>, crate::workflow_doc::DocValue>,
    after: Map<Seq<char>, crate::workflow_doc::DocValue>,
    path_shown: Seq<char>,
    step_number: usize,
    to_step_number: Option<usize>,
    name: Option<Seq<char>>,
    res: Result<String, String>,
    r: Result<(usize, Option<String>), StepEditError>,
) -> bool {
    &&& match doc_steps(before) {
        None => r matches Err(e) && e is StepsNotArray,
        Some(s) => doc_steps(after) matches Some(a) && duplicate_outcome(
            s,
            a,
            step_number,
            to_step_number,
            name,
            r,
        ),
    }
    &&& match r {
        Ok((n, new_name)) => res matches Ok(m) && m@ == "Duplicated workflow step "@ + decimal(
            step_number as nat,
        ) + " into step "@ + decimal(n as nat) + " (`"@ + shown_name(opt_string_view(new_name))
            + "`) at `"@ + path_shown + "`.\n"@,
        Err(e) => res matches Err(m) && m@ == step_error_text(&e),
    }
}

/// What a move-step command did, given the edit's own result `r`.
pub open spec fn move_command_ok(
    before: Map<Seq<char>, crate::workflow_doc::DocValue>,
    after: Map<Seq<char>, crate::workflow_doc::DocValue>,
    path_shown: Seq<char>,
    step_number: usize,
    to_step_number: usize,
    res: Result<String, String>,
    r: Result<(usize, Option<String>), StepEditError>,
) -> bool {
    &&& match doc_steps(before) {
        None => r matches Err(e) && e is StepsNotArray,
        Some(s) => doc_steps(after) matches Some(a) && move_outcome(
            s,
            a,
            step_number,
            to_step_number,
            r,
        ),
    }
    &&& match r {
        Ok((n, moved)) => res matches Ok(m) && m@ == "Moved workflow step "@ + decimal(
            step_number as nat,
        ) + " (`"@ + shown_name(opt_string_view(moved)) + "`) to step "@ + decimal(n as nat)
            + " in `"@ + path_shown + "`.\n"@,
        Err(e) => res matches Err(m) && m@ == step_error_text(&e),
    }
}

/// What a remove-step command did, given the edit's own result `r`.
pub open spec fn remove_command_ok(
    before: Map<Seq<char>, crate::workflow_doc::DocValue>,
    after: Map<Seq<char>, crate::workflow_doc::DocValue>,
    path_shown: Seq<char>,
    step_number: usize,
    res: Result<String, String>,
    r: Result<Option<String>, StepEditError>,
) -> bool {
    &&& match doc_steps(before) {
        None => r matches Err(e) && e is StepsNotArray,
        Some(s) => doc_steps(after) matches Some(a) && remove_outcome(s, a, step_number, r),
    }
    &&& match r {
        Ok(removed) => res matches Ok(m) && m@ == "Removed workflow step "@ + decimal(
            step_number as nat,
        ) + " (`"@ + shown_name(opt_string_view(removed)) + "`) from `"@ + path_shown + "`.\n"@,
        Err(e) => res matches Err(m) && m@ == step_error_text(&e),
    }
}

/// Adds a step as an add-step command says; returns the line it prints.
pub fn add_step_command(
    doc: &mut WorkflowDocument,
    path_shown: &str,
    draft: WorkflowStepDraft,
    index: Option<usize>,
) -> (res: Result<String, String>)
    requires
        doc_steps(old(doc).fields@) matches Some(s) ==> s.len() < usize::MAX,
    ensures
        same_other_fields(old(doc).fields@, final(doc).fields@),
        res is Err ==> reads_same(old(doc).fields@, final(doc).fields@),
        exists|r: Result<usize, StepEditError>|
            #[trigger] add_command_ok(old(doc).fields@, final(doc).fields@, path_shown@, &draft, index, res, r),
{
    let ghost d = draft;
    let ghost before = doc.fields@;
    let r = add_workflow_step(doc, draft, index);
    let ghost rg = r;
    let res = match r {
        Ok(n) => {
            let mut m = "Added workflow step ".to_owned();
            push_decimal(&mut m, n as u64);
            m.append(" at `");
            m.append(path_shown);
            m.append("`.\n");
            Ok(m)
        },
        Err(e) => Err(e.message()),
    };
    assert(add_command_ok(before, doc.fields@, path_shown@, &d, index, res, rg));
    res
}

/// What an update-step command did, given the edit's own result `r`.
pub open spec fn update_command_ok(
    before: Map<Seq<char>, crate::workflow_doc::DocValue>,
    after: Map<Seq<char>, crate::workflow_doc::DocValue>,
    path_shown: Seq<char>,
    step_number: usize,
    patch: &WorkflowStepPatch,
    res: Result<String, String>,
    r: Result<(), StepEditError>,
) -> bool {
    &&& (patch.name is None && patch.prompt is None && patch.when is None && patch.model is None
        && patch.backend is None && patch.step_cwd is None && patch.run_in_background is None ==> (
    r matches Err(e) && e is EmptyPatch))
    &&& (!(patch.name is None && patch.prompt is None && patch.when is None && patch.model is None
        && patch.backend is None && patch.step_cwd is None && patch.run_in_background is None)
        ==> match doc_steps(before) {
        None => r matches Err(e) && e is StepsNotArray,
        Some(s) => doc_steps(after) matches Some(a) && update_outcome(s, a, step_number, patch, r),
    })
    &&& match r {
        Ok(()) => res matches Ok(m) && m@ == "Updated workflow step "@ + decimal(step_number as nat)
            + " at `"@ + path_shown + "`.\n"@,
        Err(e) => res matches Err(m) && m@ == step_error_text(&e),
    }
}

/// Changes a step as an update-step command says; returns the line it prints.
pub fn update_step_command(
    doc: &mut WorkflowDocument,
    path_shown: &str,
    step_number: usize,
    patch: WorkflowStepPatch,
) -> (res: Result<String, String>)
    ensures
        same_other_fields(old(doc).fields@, final(doc).fields@),
        res is Err ==> reads_same(old(doc).fields@, final(doc).fields@),
        exists|r: Result<(), StepEditError>|
            #[trigger] update_command_ok(
                old(doc).fields@,
                final(doc).fields@,
                path_shown@,
                step_number,
                &patch,
                res,
                r,
            ),
{
    let ghost p = patch;
    let ghost before = doc.fields@;
    let r = update_workflow_step(doc, step_number, patch);
    let ghost rg = r;
    let res = match r {
        Ok(()) => {
            let mut m = "Updated workflow step ".to_owned();
            push_decimal(&mut m, step_number as u64);
            m.append(" at `");
            m.append(path_shown);
            m.append("`.\n");
            Ok(m)
        },
        Err(e) => Err(e.message()),
    };
    assert(update_command_ok(before, doc.fields@, path_shown@, step_number, &p, res, rg));
    res
}

/// Copies a step as a duplicate-step command says; returns the line it prints.
pub fn duplicate_step_command(
    doc: &mut WorkflowDocument,
    path_shown: &str,
    step_number: usize,
    to_step_number: Option<usize>,
    name: Option<String>,
) -> (res: Result<String, String>)
    requires
        doc_steps(old(doc).fields@) matches Some(s) ==> s.len() < usize::MAX,
    ensures
        same_other_fields(old(doc).fields@, final(doc).fields@),
        res is Err ==> reads_same(old(doc).fields@, final(doc).fields@),
        exists|r: Result<(usize, Option<String>), StepEditError>|
            #[trigger] duplicate_command_ok(
                old(doc).fields@,
                final(doc).fields@,
                path_shown@,
                step_number,
                to_step_number,
                opt_string_view(name),
                res,
                r,
            ),
{
    let ghost nm = opt_string_view(name);
    let ghost before = doc.fields@;
    let r = duplicate_workflow_step(doc, step_number, to_step_number, name);
    let ghost rg = r;
    let res = match r {
        Ok((n, new_name)) => {
            let mut m = "Duplicated workflow step ".to_owned();
            push_decimal(&mut m, step_number as u64);
            m.append(" into step ");
            push_decimal(&mut m, n as u64);
            m.append(" (`");
            match &new_name {
                Some(x) => m.append(x.as_str()),
                None => m.append("(unnamed)"),
            }
            m.append("`) at `");
            m.append(path_shown);
            m.append("`.\n");
            Ok(m)
        },
        Err(e) => Err(e.message()),
    };
    assert(duplicate_command_ok(before, doc.fields@, path_shown@, step_number, to_step_number, nm, res, rg));
    res
}

/// Moves a step as a move-step command says; returns the line it prints.
pub fn move_step_command(
    doc: &mut WorkflowDocument,
    path_shown: &str,
    step_number: usize,
    to_step_number: usize,
) -> (res: Result<String, String>)
    ensures
        same_other_fields(old(doc).fields@, final(doc).fields@),
        res is Err ==> reads_same(old(doc).fields@, final(doc).fields@),
        exists|r: Result<(usize, Option<String>), StepEditError>|
            #[trigger] move_command_ok(
                old(doc).fields@,
                final(doc).fields@,
                path_shown@,
                step_number,
                to_step_number,
                res,
                r,
            ),
{
    let ghost before = doc.fields@;
    let r = move_workflow_step(doc, step_number, to_step_number);
    let ghost rg = r;
    let res = match r {
        Ok((n, moved)) => {
            let mut m = "Moved workflow step ".to_owned();
            push_decimal(&mut m, step_number as u64);
            m.append(" (`");
            match &moved {
                Some(x) => m.append(x.as_str()),
                None => m.append("(unnamed)"),
            }
            m.append("`) to step ");
            push_decimal(&mut m, n as u64);
            m.append(" in `");
            m.append(path_shown);
            m.append("`.\n");
            Ok(m)
        },
        Err(e) => Err(e.message()),
    };
    assert(move_command_ok(before, doc.fields@, path_shown@, step_number, to_step_number, res, rg));
    res
}

/// Removes a step as a remove-step command says; returns the line it prints.
pub fn remove_step_command(doc: &mut WorkflowDocument, path_shown: &str, step_number: usize) -> (res:
    Result<String, String>)
    ensures
        same_other_fields(old(doc).fields@, final(doc).fields@),
        res is Err ==> reads_same(old(doc).fields@, final(doc).fields@),
        exists|r: Result<Option<String>, StepEditError>|
            #[trigger] remove_command_ok(old(doc).fields@, final(doc).fields@, path_shown@, step_number, res, r),
{
    let ghost before = doc.fields@;
    let r = remove_workflow_step(doc, step_number);
    let ghost rg = r;
    let res = match r {
        Ok(removed) => {
            let mut m = "Removed workflow step ".to_owned();
            push_decimal(&mut m, step_number as u64);
            m.append(" (`");
            match &removed {
                Some(x) => m.append(x.as_str()),
                None => m.append("(unnamed)"),
            }
            m.append("`) from `");
            m.append(path_shown);
            m.append("`.\n");
            Ok(m)
        },
        Err(e) => Err(e.message()),
    };
    assert(remove_command_ok(before, doc.fields@, path_shown@, step_number, res, rg));
    res
}

/// The patch an update-step command describes, with the run mode already merged.
pub open spec fn command_patch(
    p: &WorkflowStepPatch,
    name: Option<Seq<char>>,
    clear_name: bool,
    prompt: Option<Seq<char>>,
    when: Option<Seq<char>>,
    clear_when: bool,
    model: Option<Seq<char>>,
    clear_model: bool,
    backend: Option<Seq<char>>,
    clear_backend: bool,
    step_cwd: Option<Seq<char>>,
    clear_step_cwd: bool,
    run_mode: Option<bool>,
) -> bool {
    &&& task_change_view(p.name) == merged_field(name, clear_name)
    &&& opt_string_view(p.prompt) == prompt
    &&& task_change_view(p.when) == merged_field(when, clear_when)
    &&& task_change_view(p.model) == merged_field(model, clear_model)
    &&& task_change_view(p.backend) == merged_field(backend, clear_backend)
    &&& task_change_view(p.step_cwd) == merged_field(step_cwd, clear_step_cwd)
    &&& p.run_in_background == run_mode
}

/// Applies an editing subcommand to a loaded script; returns the line it prints
/// above the script's detail. A refused command leaves the script as it was.
pub fn apply_authoring_command(doc: &mut WorkflowDocument, path_shown: &str, command: WorkflowAuthoringCommand) -> (res:
    Result<String, String>)
    requires
        doc_steps(old(doc).fields@) matches Some(s) ==> s.len() < usize::MAX,
    ensures
        same_other_fields(old(doc).fields@, final(doc).fields@) || (match command {
            WorkflowAuthoringCommand::SetSharedContext { .. } => true,
            WorkflowAuthoringCommand::ClearSharedContext => true,
            WorkflowAuthoringCommand::EnableContinueOnError => true,
            WorkflowAuthoringCommand::DisableContinueOnError => true,
            _ => false,
        }),
        res is Err ==> reads_same(old(doc).fields@, final(doc).fields@),
        match command {
            WorkflowAuthoringCommand::SetSharedContext { value } => res matches Ok(m) && m@
                == "Updated shared_context for `"@ + path_shown@ + "`.\n"@
                && crate::workflow_doc::shared_context_of(final(doc).fields@)
                == normalize_optional_spec(opt_string_view(value)) && final(doc).fields@.remove(
                "shared_context"@,
            ) == old(doc).fields@.remove("shared_context"@),
            WorkflowAuthoringCommand::ClearSharedContext => res matches Ok(m) && m@
                == "Cleared shared_context for `"@ + path_shown@ + "`.\n"@
                && !final(doc).fields@.contains_key("shared_context"@) && final(doc).fields@.remove(
                "shared_context"@,
            ) == old(doc).fields@.remove("shared_context"@),
            WorkflowAuthoringCommand::EnableContinueOnError => res matches Ok(m) && m@
                == "Enabled continue_on_error for `"@ + path_shown@ + "`.\n"@
                && final(doc).fields@.contains_key("continue_on_error"@) && final(doc).fields@["continue_on_error"@]
                == DocValue::Field(FieldValue::Flag(true)) && final(doc).fields@.remove(
                "continue_on_error"@,
            ) == old(doc).fields@.remove("continue_on_error"@),
            WorkflowAuthoringCommand::DisableContinueOnError => res matches Ok(m) && m@
                == "Disabled continue_on_error for `"@ + path_shown@ + "`.\n"@
                && !final(doc).fields@.contains_key("continue_on_error"@) && final(doc).fields@.remove(
                "continue_on_error"@,
            ) == old(doc).fields@.remove("continue_on_error"@),
            WorkflowAuthoringCommand::AddStep {
                name,
                prompt,
                index,
                when,
                model,
                backend,
                step_cwd,
                run_in_background,
            } => exists|r: Result<usize, StepEditError>|
                #[trigger] add_command_ok(
                    old(doc).fields@,
                    final(doc).fields@,
                    path_shown@,
                    &(WorkflowStepDraft {
                        name,
                        prompt,
                        when,
                        model,
                        backend,
                        step_cwd,
                        run_in_background,
                    }),
                    index,
                    res,
                    r,
                ),
            WorkflowAuthoringCommand::UpdateStep {
                step_number,
                name,
                clear_name,
                prompt,
                when,
                clear_when,
                model,
                clear_model,
                backend,
                clear_backend,
                step_cwd,
                clear_step_cwd,
                run_in_background,
                foreground,
            } => if run_in_background && foreground {
                res matches Err(e) && e@
                    == "choose either `--run-in-background` or `--foreground`, but not both"@
            } else {
                exists|p: WorkflowStepPatch, r: Result<(), StepEditError>|
                    command_patch(
                        &p,
                        opt_string_view(name),
                        clear_name,
                        opt_string_view(prompt),
                        opt_string_view(when),
                        clear_when,
                        opt_string_view(model),
                        clear_model,
                        opt_string_view(backend),
                        clear_backend,
                        opt_string_view(step_cwd),
                        clear_step_cwd,
                        if run_in_background {
                            Some(true)
                        } else if foreground {
                            Some(false)
                        } else {
                            None
                        },
                    ) && #[trigger] update_command_ok(
                        old(doc).fields@,
                        final(doc).fields@,
                        path_shown@,
                        step_number,
                        &p,
                        res,
                        r,
                    )
            },
            WorkflowAuthoringCommand::DuplicateStep { step_number, to_step_number, name } => exists|
                r: Result<(usize, Option<String>), StepEditError>,
            |
                #[trigger] duplicate_command_ok(
                    old(doc).fields@,
                    final(doc).fields@,
                    path_shown@,
                    step_number,
                    to_step_number,
                    opt_string_view(name),
                    res,
                    r,
                ),
            WorkflowAuthoringCommand::MoveStep { step_number, to_step_number } => exists|
                r: Result<(usize, Option<String>), StepEditError>,
            |
                #[trigger] move_command_ok(
                    old(doc).fields@,
                    final(doc).fields@,
                    path_shown@,
                    step_number,
                    to_step_number,
                    res,
                    r,
                ),
            WorkflowAuthoringCommand::RemoveStep { step_number } => exists|
                r: Result<Option<String>, StepEditError>,
            |
                #[trigger] remove_command_ok(
                    old(doc).fields@,
                    final(doc).fields@,
                    path_shown@,
                    step_number,
                    res,
                    r,
                ),
        },
{
    match command {
        WorkflowAuthoringCommand::AddStep {
            name,
            prompt,
            index,
            when,
            model,
            backend,
            step_cwd,
            run_in_background,
        } => {
            let draft = WorkflowStepDraft {
                name,
                prompt,
                when,
                model,
                backend,
                step_cwd,
                run_in_background,
            };
            add_step_command(doc, path_shown, draft, index)
        },
        WorkflowAuthoringCommand::UpdateStep {
            step_number,
            name,
            clear_name,
            prompt,
            when,
            clear_when,
            model,
            clear_model,
            backend,
            clear_backend,
            step_cwd,
            clear_step_cwd,
            run_in_background,
            foreground,
        } => {
            let run_mode = match merge_background_flags(run_in_background, foreground) {
                Ok(m) => m,
                Err(e) => return Err(e),
            };
            let patch = WorkflowStepPatch {
                name: merge_optional_field(name, clear_name),
                prompt,
                when: merge_optional_field(when, clear_when),
                model: merge_optional_field(model, clear_model),
                backend: merge_optional_field(backend, clear_backend),
                step_cwd: merge_optional_field(step_cwd, clear_step_cwd),
                run_in_background: run_mode,
            };
            update_step_command(doc, path_shown, step_number, patch)
        },
        WorkflowAuthoringCommand::DuplicateStep { step_number, to_step_number, name } => {
            duplicate_step_command(doc, path_shown, step_number, to_step_number, name)
        },
        WorkflowAuthoringCommand::MoveStep { step_number, to_step_number } => {
            move_step_command(doc, path_shown, step_number, to_step_number)
        },
        WorkflowAuthoringCommand::RemoveStep { step_number } => {
            remove_step_command(doc, path_shown, step_number)
        },
        WorkflowAuthoringCommand::SetSharedContext { value } => {
            set_workflow_shared_context(doc, value);
            let mut m = "Updated shared_context for `".to_owned();
            m.append(path_shown);
            m.append("`.\n");
            Ok(m)
        },
        WorkflowAuthoringCommand::ClearSharedContext => {
            set_workflow_shared_context(doc, None);
            let mut m = "Cleared shared_context for `".to_owned();
            m.append(path_shown);
            m.append("`.\n");
            Ok(m)
        },
        WorkflowAuthoringCommand::EnableContinueOnError => {
            set_workflow_continue_on_error(doc, true);
            let mut m = "Enabled continue_on_error for `".to_owned();
            m.append(path_shown);
            m.append("`.\n");
            Ok(m)
        },
        WorkflowAuthoringCommand::DisableContinueOnError => {
            set_workflow_continue_on_error(doc, false);
            let mut m = "Disabled continue_on_error for `".to_owned();
            m.append(path_shown);
            m.append("`.\n");
            Ok(m)
        },
    }
}

} // verus!
