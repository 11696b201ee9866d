//! Text views of workflow scripts: the detail of one script, the list of scripts and
//! the validation report.

use vstd::prelude::*;

use crate::paths::{join_path, path_join};
use crate::tasks::{normalize_optional_spec, normalize_optional_text};
use crate::text::{decimal, join, join_seq, push_decimal, replace_char, replace_seq, views};

verus! {

/// What a script listing shows of one script.
pub struct WorkflowScriptSummary {
    pub name: String,
    pub path: String,
    pub step_count: usize,
    pub continue_on_error: bool,
    pub shared_context: Option<String>,
    pub dynamic_command: bool,
    pub validation_error: Option<String>,
}

/// What a script detail shows of one step.
pub struct WorkflowStepSummary {
    pub name: Option<String>,
    pub prompt_chars: usize,
    pub when: bool,
    pub model: Option<String>,
    pub backend: Option<String>,
    pub cwd: Option<String>,
    pub run_in_background: bool,
}

/// A script with its steps.
pub struct WorkflowScriptDetail {
    pub summary: WorkflowScriptSummary,
    pub steps: Vec<WorkflowStepSummary>,
}

/// A path as shown: backslashes turned into slashes.
pub open spec fn path_text_spec(p: Seq<char>) -> Seq<char> {
    replace_seq(p, '\\', "/"@)
}

/// A path as shown.
pub fn path_text(path: &str) -> (res: String)
    ensures
        res@ == path_text_spec(path@),
{
    replace_char(path, '\\', "/")
}

/// `true` or `false`, as `{}` shows a boolean.
pub open spec fn bool_text(b: bool) -> Seq<char> {
    if b {
        "true"@
    } else {
        "false"@
    }
}

/// `yes` or `no`.
pub open spec fn yes_no(b: bool) -> Seq<char> {
    if b {
        "yes"@
    } else {
        "no"@
    }
}

/// An optional text, or the placeholder.
pub open spec fn or_text(v: Option<Seq<char>>, placeholder: Seq<char>) -> Seq<char> {
    match v {
        Some(s) => s,
        None => placeholder,
    }
}

/// The attributes shown for a step: its prompt length, then each setting it has.
pub open spec fn step_attributes(s: WorkflowStepSummary) -> Seq<Seq<char>> {
    seq!["prompt_chars="@ + decimal(s.prompt_chars as nat)] + (if s.when {
        seq!["when=true"@]
    } else {
        seq![]
    }) + (match s.model {
        Some(m) => seq!["model="@ + m@],
        None => seq![],
    }) + (match s.backend {
        Some(b) => seq!["backend="@ + b@],
        None => seq![],
    }) + (match s.cwd {
        Some(c) => seq!["cwd="@ + c@],
        None => seq![],
    }) + (if s.run_in_background {
        seq!["background=true"@]
    } else {
        seq![]
    })
}

/// The line of the step at 0-based `index`.
pub open spec fn step_line(index: int, s: WorkflowStepSummary) -> Seq<char> {
    "  "@ + decimal((index + 1) as nat) + ". "@ + or_text(
        crate::text::opt_string_view(s.name),
        "(unnamed)"@,
    ) + " ["@ + join_seq(step_attributes(s), ", "@) + "]"@
}

/// The header lines of a script detail.
pub open spec fn detail_header(s: WorkflowScriptSummary) -> Seq<Seq<char>> {
    seq![
        "workflow: "@ + s.name@,
        "path: "@ + path_text_spec(s.path@),
        "steps: "@ + decimal(s.step_count as nat),
        "continue_on_error: "@ + bool_text(s.continue_on_error),
        "dynamic_command: "@ + yes_no(s.dynamic_command),
        "shared_context: "@ + or_text(crate::text::opt_string_view(s.shared_context), "(none)"@),
    ]
}

/// The detail text of a script.
pub open spec fn detail_text(summary: WorkflowScriptSummary, steps: Seq<WorkflowStepSummary>) -> Seq<char> {
    if steps.len() == 0 {
        join_seq(detail_header(summary).push("step_details: (none)"@), "\n"@)
    } else {
        join_seq(
            detail_header(summary).push("step_details:"@) + Seq::new(
                steps.len(),
                |i: int| step_line(i, steps[i]),
            ),
            "\n"@,
        )
    }
}

fn push_opt_attr(attrs: &mut Vec<String>, prefix: &str, v: &Option<String>)
    ensures
        views(final(attrs)@) == views(old(attrs)@) + match *v {
            Some(x) => seq![prefix@ + x@],
            None => Seq::<Seq<char>>::empty(),
        },
{
    match v {
        Some(x) => {
            let mut a = prefix.to_owned();
            a.append(x.as_str());
            let ghost before = attrs@;
            attrs.push(a);
            assert(views(attrs@) =~= views(before) + seq![prefix@ + x@]);
        },
        None => {
            assert(views(attrs@) =~= views(attrs@) + Seq::<Seq<char>>::empty());
        },
    }
}

fn step_line_text(index: usize, s: &WorkflowStepSummary) -> (res: String)
    requires
        index < usize::MAX,
    ensures
        res@ == step_line(index as int, *s),
{
    let mut attrs: Vec<String> = Vec::new();
    let mut first = "prompt_chars=".to_owned();
    push_decimal(&mut first, s.prompt_chars as u64);
    push_line(&mut attrs, first);
    let ghost a0 = views(attrs@);
    assert(a0 =~= seq!["prompt_chars="@ + decimal(s.prompt_chars as nat)]);
    if s.when {
        push_line(&mut attrs, "when=true".to_owned());
    }
    let ghost a1 = views(attrs@);
    assert(a1 =~= a0 + (if s.when {
        seq!["when=true"@]
    } else {
        Seq::<Seq<char>>::empty()
    }));
    push_opt_attr(&mut attrs, "model=", &s.model);
    push_opt_attr(&mut attrs, "backend=", &s.backend);
    push_opt_attr(&mut attrs, "cwd=", &s.cwd);
    let ghost a4 = views(attrs@);
    if s.run_in_background {
        push_line(&mut attrs, "background=true".to_owned());
    }
    assert(views(attrs@) =~= a4 + (if s.run_in_background {
        seq!["background=true"@]
    } else {
        Seq::<Seq<char>>::empty()
    }));
    assert(views(attrs@) =~= step_attributes(*s));
    let mut line = "  ".to_owned();
    push_decimal(&mut line, (index + 1) as u64);
    line.append(". ");
    match &s.name {
        Some(n) => line.append(n.as_str()),
        None => line.append("(unnamed)"),
    }
    line.append(" [");
    line.append(join(&attrs, ", ").as_str());
    line.append("]");
    line
}

fn push_line(lines: &mut Vec<String>, line: String)
    ensures
        views(final(lines)@) == views(old(lines)@).push(line@),
{
    lines.push(line);
    assert(views(lines@) =~= views(old(lines)@).push(line@));
}

/// The detail text of a script: its summary lines, then one line per step with its
/// settings.
pub fn render_workflow_detail(detail: &WorkflowScriptDetail) -> (res: String)
    requires
        detail.steps@.len() < usize::MAX,
    ensures
        res@ == detail_text(detail.summary, detail.steps@),
{
    let s = &detail.summary;
    let mut lines: Vec<String> = Vec::new();
    let mut l = "workflow: ".to_owned();
    l.append(s.name.as_str());
    push_line(&mut lines, l);
    let mut l = "path: ".to_owned();
    l.append(path_text(s.path.as_str()).as_str());
    push_line(&mut lines, l);
    let mut l = "steps: ".to_owned();
    push_decimal(&mut l, s.step_count as u64);
    push_line(&mut lines, l);
    let mut l = "continue_on_error: ".to_owned();
    l.append(if s.continue_on_error { "true" } else { "false" });
    push_line(&mut lines, l);
    let mut l = "dynamic_command: ".to_owned();
    l.append(if s.dynamic_command { "yes" } else { "no" });
    push_line(&mut lines, l);
    let mut l = "shared_context: ".to_owned();
    match &s.shared_context {
        Some(c) => l.append(c.as_str()),
        None => l.append("(none)"),
    }
    push_line(&mut lines, l);
    assert(views(lines@) =~= detail_header(detail.summary));
    if detail.steps.len() == 0 {
        push_line(&mut lines, "step_details: (none)".to_owned());
        return join(&lines, "\n");
    }
    push_line(&mut lines, "step_details:".to_owned());
    let ghost head = views(lines@);
    let mut i: usize = 0;
    while i < detail.steps.len()
        invariant
            i <= detail.steps@.len(),
            detail.steps@.len() < usize::MAX,
            views(lines@) == head + Seq::new(i as nat, |k: int| step_line(k, detail.steps@[k])),
        decreases detail.steps@.len() - i,
    {
        push_line(&mut lines, step_line_text(i, &detail.steps[i]));
        assert(views(lines@) =~= head + Seq::new((i + 1) as nat, |k: int| step_line(k, detail.steps@[k])));
        i = i + 1;
    }
    join(&lines, "\n")
}

/// Whether a workflow can be run as `/<name>`: not empty, no slashes, no white
/// space.
pub open spec fn invocable_name(name: Seq<char>) -> bool {
    name.len() > 0 && forall|i: int|
        0 <= i < name.len() ==> name[i] != '/' && name[i] != '\\' && !crate::text::is_ws(
            #[trigger] name[i],
        )
}

/// Whether a workflow can be run as `/<name>`.
pub fn is_invocable_workflow_name(name: &str) -> (res: bool)
    ensures
        res == invocable_name(name@),
{
    let chars = crate::text::chars_of(name);
    if chars.len() == 0 {
        return false;
    }
    let mut i: usize = 0;
    while i < chars.len()
        invariant
            chars@ == name@,
            i <= chars@.len(),
            forall|k: int|
                0 <= k < i ==> chars@[k] != '/' && chars@[k] != '\\' && !crate::text::is_ws(
                    #[trigger] chars@[k],
                ),
        decreases chars@.len() - i,
    {
        let c = chars[i];
        if c == '/' || c == '\\' || crate::text::is_whitespace(c) {
            return false;
        }
        i = i + 1;
    }
    true
}

/// The directory workflow scripts live in, as shown.
pub open spec fn workflow_root_text(root: Seq<char>) -> Seq<char> {
    path_text_spec(path_join(path_join(root, ".hellox"@), "workflows"@))
}

pub(crate) fn workflow_root_shown(root: &str) -> (res: String)
    ensures
        res@ == workflow_root_text(root@),
{
    path_text(join_path(join_path(root, ".hellox").as_str(), "workflows").as_str())
}

/// The listing line of one script.
pub open spec fn list_line(w: WorkflowScriptSummary) -> Seq<char> {
    match w.validation_error {
        Some(e) => "- "@ + w.name@ + " — invalid, dynamic_command: "@ + yes_no(w.dynamic_command)
            + ", error: "@ + e@ + ", path: "@ + path_text_spec(w.path@),
        None => "- "@ + w.name@ + " — valid, "@ + decimal(w.step_count as nat)
            + " step(s), dynamic_command: "@ + yes_no(w.dynamic_command) + ", continue_on_error: "@
            + bool_text(w.continue_on_error) + ", shared_context: "@ + or_text(
            crate::text::opt_string_view(w.shared_context),
            "(none)"@,
        ) + ", path: "@ + path_text_spec(w.path@),
    }
}

/// The listing of the scripts under a workspace root.
pub open spec fn list_text(root: Seq<char>, workflows: Seq<WorkflowScriptSummary>) -> Seq<char> {
    if workflows.len() == 0 {
        "No workflow scripts found under `"@ + workflow_root_text(root) + "`."@
    } else {
        join_seq(
            seq!["Workflow scripts under `"@ + workflow_root_text(root) + "`:"@] + workflows.map_values(
                |w: WorkflowScriptSummary| list_line(w),
            ),
            "\n"@,
        )
    }
}

fn list_line_text(w: &WorkflowScriptSummary) -> (res: String)
    ensures
        res@ == list_line(*w),
{
    let mut l = "- ".to_owned();
    l.append(w.name.as_str());
    match &w.validation_error {
        Some(e) => {
            l.append(" — invalid, dynamic_command: ");
            l.append(if w.dynamic_command { "yes" } else { "no" });
            l.append(", error: ");
            l.append(e.as_str());
        },
        None => {
            l.append(" — valid, ");
            push_decimal(&mut l, w.step_count as u64);
            l.append(" step(s), dynamic_command: ");
            l.append(if w.dynamic_command { "yes" } else { "no" });
            l.append(", continue_on_error: ");
            l.append(if w.continue_on_error { "true" } else { "false" });
            l.append(", shared_context: ");
            match &w.shared_context {
                Some(c) => l.append(c.as_str()),
                None => l.append("(none)"),
            }
        },
    }
    l.append(", path: ");
    l.append(path_text(w.path.as_str()).as_str());
    l
}

/// The listing of the scripts under a workspace root: one line each, valid ones with
/// their settings, invalid ones with their error.
pub fn render_workflow_list(root: &str, workflows: &Vec<WorkflowScriptSummary>) -> (res: String)
    ensures
        res@ == list_text(root@, workflows@),
{
    let shown_root = workflow_root_shown(root);
    if workflows.len() == 0 {
        let mut m = "No workflow scripts found under `".to_owned();
        m.append(shown_root.as_str());
        m.append("`.");
        return m;
    }
    let mut lines: Vec<String> = Vec::new();
    let mut first = "Workflow scripts under `".to_owned();
    first.append(shown_root.as_str());
    first.append("`:");
    push_line(&mut lines, first);
    let ghost head = views(lines@);
    assert(head =~= seq!["Workflow scripts under `"@ + workflow_root_text(root@) + "`:"@]);
    let mut i: usize = 0;
    while i < workflows.len()
        invariant
            i <= workflows@.len(),
            views(lines@) == head + workflows@.take(i as int).map_values(
                |w: WorkflowScriptSummary| list_line(w),
            ),
        decreases workflows@.len() - i,
    {
        push_line(&mut lines, list_line_text(&workflows[i]));
        assert(workflows@.take(i + 1).map_values(|w: WorkflowScriptSummary| list_line(w))
            =~= workflows@.take(i as int).map_values(|w: WorkflowScriptSummary| list_line(w)).push(
            list_line(workflows@[i as int]),
        ));
        assert(views(lines@) =~= head + workflows@.take(i + 1).map_values(
            |w: WorkflowScriptSummary| list_line(w),
        ));
        i = i + 1;
    }
    assert(workflows@.take(i as int) =~= workflows@);
    join(&lines, "\n")
}

/// What a step detail shows of a step as stored: names trimmed (blank ones dropped),
/// the prompt's length after trimming, whether a condition is set, and the run mode
/// (foreground unless stored as background).
pub fn step_summary(
    name: Option<String>,
    prompt: &str,
    when: bool,
    model: Option<String>,
    backend: Option<String>,
    cwd: Option<String>,
    run_in_background: Option<bool>,
) -> (res: WorkflowStepSummary)
    ensures
        crate::text::opt_string_view(res.name) == normalize_optional_spec(
            crate::text::opt_string_view(name),
        ),
        res.prompt_chars == crate::text::trim_seq(prompt@).len(),
        res.when == when,
        crate::text::opt_string_view(res.model) == normalize_optional_spec(
            crate::text::opt_string_view(model),
        ),
        crate::text::opt_string_view(res.backend) == normalize_optional_spec(
            crate::text::opt_string_view(backend),
        ),
        crate::text::opt_string_view(res.cwd) == normalize_optional_spec(
            crate::text::opt_string_view(cwd),
        ),
        res.run_in_background == (run_in_background == Some(true)),
{
    let trimmed = crate::text::trim(prompt);
    WorkflowStepSummary {
        name: normalize_optional_text(name),
        prompt_chars: trimmed.as_str().unicode_len(),
        when,
        model: normalize_optional_text(model),
        backend: normalize_optional_text(backend),
        cwd: normalize_optional_text(cwd),
        run_in_background: match run_in_background {
            Some(b) => b,
            None => false,
        },
    }
}

/// What a listing shows of a readable script.
pub fn script_summary(
    name: String,
    path: String,
    step_count: usize,
    continue_on_error: Option<bool>,
    shared_context: Option<String>,
) -> (res: WorkflowScriptSummary)
    ensures
        res.name@ == name@,
        res.path@ == path@,
        res.step_count == step_count,
        res.continue_on_error == (continue_on_error == Some(true)),
        crate::text::opt_string_view(res.shared_context) == normalize_optional_spec(
            crate::text::opt_string_view(shared_context),
        ),
        res.dynamic_command == invocable_name(name@),
        res.validation_error is None,
{
    let dynamic_command = is_invocable_workflow_name(name.as_str());
    WorkflowScriptSummary {
        name,
        path,
        step_count,
        continue_on_error: match continue_on_error {
            Some(b) => b,
            None => false,
        },
        shared_context: normalize_optional_text(shared_context),
        dynamic_command,
        validation_error: None,
    }
}

} // verus!
