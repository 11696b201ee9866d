//! Workflow scripts as read from their files: the script detail and the
//! validation report.

use vstd::prelude::*;

use crate::named_map::NamedMap;
use crate::tasks::{normalize_optional_spec, normalize_optional_text};
use crate::workflow_doc::{
    doc_steps, object_view, step_view, steps_view, DocValue, FieldValue, FieldView, StepEntry,
    StepView, WorkflowDocument,
};
use crate::text::{
    decimal, join, join_seq, lemma_text_less_total,
    lemma_text_less_transitive, opt_string_view, push_decimal, str_eq, str_less, text_less, views,
};
use crate::workflow_render::{
    invocable_name, is_invocable_workflow_name, path_text, path_text_spec, script_summary,
    step_summary, workflow_root_shown, workflow_root_text, yes_no, WorkflowScriptDetail, WorkflowScriptSummary,
    WorkflowStepSummary,
};

verus! {

/// One step of a script file, as far as the detail and the validation read it.
#[derive(Debug)]
pub struct WorkflowStepFile {
    pub name: Option<String>,
    pub prompt: String,
    pub has_when: bool,
    pub model: Option<String>,
    pub backend: Option<String>,
    pub cwd: Option<String>,
    pub run_in_background: Option<bool>,
}

/// A script file: its steps and run settings.
#[derive(Debug)]
pub struct WorkflowScriptFile {
    pub steps: Vec<WorkflowStepFile>,
    pub continue_on_error: Option<bool>,
    pub shared_context: Option<String>,
}

/// The detail of a readable script named `name` at `path`.
pub fn detail_from_file(name: String, path: String, file: WorkflowScriptFile) -> (res: WorkflowScriptDetail)
    ensures
        res.summary.name@ == name@,
        res.summary.path@ == path@,
        res.summary.step_count == file.steps@.len(),
        res.summary.continue_on_error == (file.continue_on_error == Some(true)),
        opt_string_view(res.summary.shared_context) == normalize_optional_spec(
            opt_string_view(file.shared_context),
        ),
        res.summary.dynamic_command == invocable_name(name@),
        res.summary.validation_error is None,
        res.steps@.len() == file.steps@.len(),
        forall|i: int|
            0 <= i < res.steps@.len() ==> {
                let s = #[trigger] res.steps@[i];
                let f = file.steps@[i];
                &&& opt_string_view(s.name) == normalize_optional_spec(opt_string_view(f.name))
                &&& s.prompt_chars == crate::text::trim_seq(f.prompt@).len()
                &&& s.when == f.has_when
                &&& opt_string_view(s.model) == normalize_optional_spec(opt_string_view(f.model))
                &&& opt_string_view(s.backend) == normalize_optional_spec(opt_string_view(f.backend))
                &&& opt_string_view(s.cwd) == normalize_optional_spec(opt_string_view(f.cwd))
                &&& s.run_in_background == (f.run_in_background == Some(true))
            },
{
    let ghost steps_in = file.steps@;
    let summary = script_summary(
        name,
        path,
        file.steps.len(),
        file.continue_on_error,
        file.shared_context,
    );
    let mut rest = file.steps;
    let mut steps: Vec<WorkflowStepSummary> = Vec::new();
    let n = rest.len();
    let mut i: usize = 0;
    while i < n
        invariant
            n == steps_in.len(),
            i <= n,
            rest@ == steps_in.subrange(i as int, n as int),
            steps@.len() == i,
            forall|k: int|
                0 <= k < i ==> {
                    let s = #[trigger] steps@[k];
                    let f = steps_in[k];
                    &&& opt_string_view(s.name) == normalize_optional_spec(opt_string_view(f.name))
                    &&& s.prompt_chars == crate::text::trim_seq(f.prompt@).len()
                    &&& s.when == f.has_when
                    &&& opt_string_view(s.model) == normalize_optional_spec(opt_string_view(f.model))
                    &&& opt_string_view(s.backend) == normalize_optional_spec(
                        opt_string_view(f.backend),
                    )
                    &&& opt_string_view(s.cwd) == normalize_optional_spec(opt_string_view(f.cwd))
                    &&& s.run_in_background == (f.run_in_background == Some(true))
                },
        decreases n - i,
    {
        let step = rest.remove(0);
        assert(step == steps_in[i as int]);
        let summary_step = step_summary(
            step.name,
            step.prompt.as_str(),
            step.has_when,
            step.model,
            step.backend,
            step.cwd,
            step.run_in_background,
        );
        steps.push(summary_step);
        assert(rest@ =~= steps_in.subrange(i + 1, n as int));
        i = i + 1;
    }
    WorkflowScriptDetail { summary, steps }
}

/// What a listing shows of a script that could not be read.
pub fn unreadable_script_summary(name: String, path: String, error: String) -> (res: WorkflowScriptSummary)
    ensures
        res.name@ == name@,
        res.path@ == path@,
        res.step_count == 0,
        !res.continue_on_error,
        res.shared_context is None,
        res.dynamic_command == invocable_name(name@),
        opt_string_view(res.validation_error) == Some(error@),
{
    let dynamic_command = is_invocable_workflow_name(name.as_str());
    WorkflowScriptSummary {
        name,
        path,
        step_count: 0,
        continue_on_error: false,
        shared_context: None,
        dynamic_command,
        validation_error: Some(error),
    }
}

/// The validation report of one script.
#[derive(Debug)]
pub struct WorkflowValidationSummary {
    pub name: String,
    pub path: String,
    pub valid: bool,
    pub dynamic_command: bool,
    pub step_count: Option<usize>,
    pub messages: Vec<String>,
}

/// How many of `names` are `Some(x)`.
pub open spec fn name_count(names: Seq<Option<Seq<char>>>, x: Seq<char>) -> nat
    decreases names.len(),
{
    if names.len() == 0 {
        0
    } else {
        name_count(names.drop_last(), x) + if names.last() == Some(x) {
            1nat
        } else {
            0nat
        }
    }
}

/// How many of `names` are absent.
pub open spec fn unnamed_count(names: Seq<Option<Seq<char>>>) -> nat
    decreases names.len(),
{
    if names.len() == 0 {
        0
    } else {
        unnamed_count(names.drop_last()) + if names.last() is None {
            1nat
        } else {
            0nat
        }
    }
}

/// The first position from `k` on whose text does not come before `x`.
pub open spec fn text_pos(s: Seq<Seq<char>>, x: Seq<char>, k: int) -> int
    decreases s.len() - k,
{
    if k >= s.len() {
        s.len() as int
    } else if !text_less(s[k], x) {
        k
    } else {
        text_pos(s, x, k + 1)
    }
}

/// `s` with `x` added in code-point order, unless it is already there.
pub open spec fn insert_text(s: Seq<Seq<char>>, x: Seq<char>) -> Seq<Seq<char>> {
    let p = text_pos(s, x, 0);
    if p < s.len() && s[p] == x {
        s
    } else {
        s.insert(p, x)
    }
}

/// The names among the first `k` of `names` that occur more than once in all of
/// `names`, each once, in code-point order.
pub open spec fn duplicates_upto(names: Seq<Option<Seq<char>>>, k: int) -> Seq<Seq<char>>
    decreases k,
{
    if k <= 0 {
        seq![]
    } else {
        let prev = duplicates_upto(names, k - 1);
        match names[k - 1] {
            Some(x) => if name_count(names, x) >= 2 {
                insert_text(prev, x)
            } else {
                prev
            },
            None => prev,
        }
    }
}

/// The names that occur more than once, each once, in code-point order.
pub open spec fn duplicate_names(names: Seq<Option<Seq<char>>>) -> Seq<Seq<char>> {
    duplicates_upto(names, names.len() as int)
}

/// Whether every text of `s` comes before the next.
pub open spec fn strictly_ascending(s: Seq<Seq<char>>) -> bool {
    forall|i: int, j: int| 0 <= i < j < s.len() ==> text_less(#[trigger] s[i], #[trigger] s[j])
}

proof fn lemma_text_pos(s: Seq<Seq<char>>, x: Seq<char>, k: int)
    requires
        0 <= k <= s.len(),
    ensures
        k <= text_pos(s, x, k) <= s.len(),
        forall|m: int| k <= m < text_pos(s, x, k) ==> text_less(#[trigger] s[m], x),
        text_pos(s, x, k) < s.len() ==> !text_less(s[text_pos(s, x, k)], x),
    decreases s.len() - k,
{
    if k < s.len() && text_less(s[k], x) {
        lemma_text_pos(s, x, k + 1);
    }
}

proof fn lemma_insert_text(s: Seq<Seq<char>>, x: Seq<char>)
    requires
        strictly_ascending(s),
    ensures
        strictly_ascending(insert_text(s, x)),
        forall|y: Seq<char>| insert_text(s, x).contains(y) <==> (s.contains(y) || y == x),
{
    let p = text_pos(s, x, 0);
    lemma_text_pos(s, x, 0);
    let t = insert_text(s, x);
    if p < s.len() && s[p] == x {
        assert forall|y: Seq<char>| t.contains(y) <==> (s.contains(y) || y == x) by {
            if y == x {
                assert(s[p] == y);
            }
        }
    } else {
        assert(t == s.insert(p, x));
        if p < s.len() {
            assert(!text_less(s[p], x));
            lemma_text_less_total(s[p], x);
            assert(text_less(x, s[p]));
        }
        assert forall|i: int, j: int| 0 <= i < j < t.len() implies text_less(#[trigger] t[i], #[trigger] t[j]) by {
            if j < p {
                assert(t[i] == s[i] && t[j] == s[j]);
            } else if j == p {
                assert(t[j] == x && t[i] == s[i]);
            } else if i < p {
                assert(t[i] == s[i] && t[j] == s[j - 1]);
                assert(text_less(s[i], x));
                assert(text_less(x, s[p]));
                if j - 1 > p {
                    lemma_text_less_transitive(x, s[p], s[j - 1]);
                }
                lemma_text_less_transitive(s[i], x, s[j - 1]);
            } else if i == p {
                assert(t[i] == x && t[j] == s[j - 1]);
                if j - 1 > p {
                    lemma_text_less_transitive(x, s[p], s[j - 1]);
                }
            } else {
                assert(t[i] == s[i - 1] && t[j] == s[j - 1]);
            }
        }
        assert forall|y: Seq<char>| t.contains(y) <==> (s.contains(y) || y == x) by {
            if t.contains(y) {
                let i = choose|i: int| 0 <= i < t.len() && t[i] == y;
                if i < p {
                    assert(s[i] == y);
                } else if i > p {
                    assert(s[i - 1] == y);
                }
            }
            if s.contains(y) {
                let i = choose|i: int| 0 <= i < s.len() && s[i] == y;
                if i < p {
                    assert(t[i] == y);
                } else {
                    assert(t[i + 1] == y);
                }
            }
            if y == x {
                assert(t[p] == y);
            }
        }
    }
}

proof fn lemma_duplicates_upto(names: Seq<Option<Seq<char>>>, k: int)
    requires
        0 <= k <= names.len(),
    ensures
        strictly_ascending(duplicates_upto(names, k)),
        forall|y: Seq<char>|
            duplicates_upto(names, k).contains(y) <==> exists|i: int|
                0 <= i < k && #[trigger] names[i] == Some(y) && name_count(names, y) >= 2,
    decreases k,
{
    if k > 0 {
        lemma_duplicates_upto(names, k - 1);
        let prev = duplicates_upto(names, k - 1);
        match names[k - 1] {
            Some(x) => if name_count(names, x) >= 2 {
                lemma_insert_text(prev, x);
            },
            None => {},
        }
        assert forall|y: Seq<char>|
            duplicates_upto(names, k).contains(y) <==> exists|i: int|
                0 <= i < k && #[trigger] names[i] == Some(y) && name_count(names, y) >= 2 by {
            if exists|i: int| 0 <= i < k && #[trigger] names[i] == Some(y) && name_count(names, y) >= 2 {
                let i = choose|i: int| 0 <= i < k && #[trigger] names[i] == Some(y) && name_count(names, y) >= 2;
                if i < k - 1 {
                    assert(prev.contains(y));
                } else {
                    assert(names[k - 1] == Some(y));
                }
            }
            if duplicates_upto(names, k).contains(y) {
                if prev.contains(y) {
                    let i = choose|i: int|
                        0 <= i < k - 1 && #[trigger] names[i] == Some(y) && name_count(names, y) >= 2;
                    assert(0 <= i < k && names[i] == Some(y) && name_count(names, y) >= 2);
                } else {
                    assert(names[k - 1] == Some(y) && name_count(names, y) >= 2);
                }
            }
        }
    }
}

/// Law: the duplicate names are listed in strictly ascending code-point order,
/// and a name is listed exactly when it names more than one step.
pub proof fn lemma_duplicate_names(names: Seq<Option<Seq<char>>>)
    ensures
        strictly_ascending(duplicate_names(names)),
        forall|y: Seq<char>| duplicate_names(names).contains(y) <==> name_count(names, y) >= 2,
{
    lemma_duplicates_upto(names, names.len() as int);
    assert forall|y: Seq<char>| duplicate_names(names).contains(y) <==> name_count(names, y) >= 2 by {
        if name_count(names, y) >= 2 {
            lemma_count_witness(names, y);
        }
    }
}

proof fn lemma_count_witness(names: Seq<Option<Seq<char>>>, y: Seq<char>)
    requires
        name_count(names, y) > 0,
    ensures
        exists|i: int| 0 <= i < names.len() && #[trigger] names[i] == Some(y),
    decreases names.len(),
{
    if names.last() == Some(y) {
        assert(names[names.len() - 1] == Some(y));
    } else {
        lemma_count_witness(names.drop_last(), y);
        let i = choose|i: int| 0 <= i < names.len() - 1 && #[trigger] names.drop_last()[i] == Some(y);
        assert(names[i] == Some(y));
    }
}

/// The names of `steps` as validation reads them: trimmed, blank ones absent.
pub open spec fn step_names(steps: Seq<WorkflowStepFile>) -> Seq<Option<Seq<char>>> {
    steps.map_values(|s: WorkflowStepFile| normalize_optional_spec(opt_string_view(s.name)))
}

/// The message for a script without steps.
pub open spec fn no_steps_message() -> Seq<char> {
    "workflow must define at least one step"@
}

/// The message listing the names that occur more than once.
pub open spec fn duplicates_message(dups: Seq<Seq<char>>) -> Seq<char> {
    "duplicate step names: "@ + join_seq(dups, ", "@)
}

/// The message counting the steps without a name.
pub open spec fn unnamed_message(n: nat) -> Seq<char> {
    "unnamed steps: "@ + decimal(n)
        + " (allowed, but they cannot be referenced via `steps.<name>` placeholders)"@
}

/// The message for a script that cannot be run as `/<name>`.
pub open spec fn not_invocable_message() -> Seq<char> {
    "dynamic `/name` invocation is unavailable because the workflow name is nested or contains whitespace"@
}

/// The findings of a validation, in order: no steps, duplicate names, unnamed
/// steps, no `/<name>` invocation.
pub open spec fn validation_messages(names: Seq<Option<Seq<char>>>, dynamic_command: bool) -> Seq<Seq<char>> {
    let dups = duplicate_names(names);
    let unnamed = unnamed_count(names);
    (if names.len() == 0 {
        seq![no_steps_message()]
    } else {
        seq![]
    }) + (if dups.len() > 0 {
        seq![duplicates_message(dups)]
    } else {
        seq![]
    }) + (if unnamed > 0 {
        seq![unnamed_message(unnamed)]
    } else {
        seq![]
    }) + (if !dynamic_command {
        seq![not_invocable_message()]
    } else {
        seq![]
    })
}

fn push_message(messages: &mut Vec<String>, m: String)
    ensures
        views(final(messages)@) == views(old(messages)@).push(m@),
{
    messages.push(m);
    assert(views(messages@) =~= views(old(messages)@).push(m@));
}

/// Validates a readable script: valid when it has a step; reports duplicate and
/// missing step names, and a name that cannot be run as `/<name>`.
pub fn validation_from_file(
    name: String,
    path: String,
    file: &WorkflowScriptFile,
    dynamic_command: bool,
) -> (res: WorkflowValidationSummary)
    ensures
        res.name@ == name@,
        res.path@ == path@,
        res.valid == (file.steps@.len() > 0),
        res.dynamic_command == dynamic_command,
        res.step_count == Some(file.steps@.len() as usize),
        views(res.messages@) == validation_messages(step_names(file.steps@), dynamic_command),
{
    let ghost names_spec = step_names(file.steps@);
    let n = file.steps.len();
    let mut names: Vec<Option<String>> = Vec::new();
    let mut i: usize = 0;
    while i < n
        invariant
            n == file.steps@.len(),
            names_spec == step_names(file.steps@),
            i <= n,
            names@.len() == i,
            forall|k: int| 0 <= k < i ==> opt_string_view(#[trigger] names@[k]) == names_spec[k],
        decreases n - i,
    {
        let step_name = match &file.steps[i].name {
            Some(s) => Some(s.clone()),
            None => None,
        };
        names.push(normalize_optional_text(step_name));
        i = i + 1;
    }
    let mut unnamed: usize = 0;
    let mut dups: Vec<String> = Vec::new();
    let mut j: usize = 0;
    while j < n
        invariant
            n == names@.len(),
            names_spec.len() == n,
            forall|k: int| 0 <= k < n ==> opt_string_view(#[trigger] names@[k]) == names_spec[k],
            j <= n,
            unnamed == unnamed_count(names_spec.take(j as int)),
            unnamed <= j,
            views(dups@) == duplicates_upto(names_spec, j as int),
        decreases n - j,
    {
        assert(names_spec.take(j + 1).drop_last() =~= names_spec.take(j as int));
        match &names[j] {
            None => {
                unnamed = unnamed + 1;
            },
            Some(x) => {
                let count = count_name(&names, x.as_str(), Ghost(names_spec));
                if count >= 2 {
                    add_sorted(&mut dups, x.as_str());
                }
            },
        }
        j = j + 1;
    }
    assert(names_spec.take(n as int) =~= names_spec);
    let mut messages: Vec<String> = Vec::new();
    let ghost dspec = duplicate_names(names_spec);
    if n == 0 {
        push_message(&mut messages, "workflow must define at least one step".to_string());
    }
    if dups.len() > 0 {
        let mut m = "duplicate step names: ".to_string();
        m.append(join(&dups, ", ").as_str());
        push_message(&mut messages, m);
    }
    if unnamed > 0 {
        let mut m = "unnamed steps: ".to_string();
        push_decimal(&mut m, unnamed as u64);
        m.append(" (allowed, but they cannot be referenced via `steps.<name>` placeholders)");
        push_message(&mut messages, m);
    }
    if !dynamic_command {
        push_message(
            &mut messages,
            "dynamic `/name` invocation is unavailable because the workflow name is nested or contains whitespace".to_string(),
        );
    }
    assert(views(messages@) =~= validation_messages(names_spec, dynamic_command));
    WorkflowValidationSummary {
        name,
        path,
        valid: n > 0,
        dynamic_command,
        step_count: Some(n),
        messages,
    }
}

fn count_name(names: &Vec<Option<String>>, x: &str, Ghost(spec): Ghost<Seq<Option<Seq<char>>>>) -> (res: usize)
    requires
        names@.len() == spec.len(),
        forall|k: int| 0 <= k < spec.len() ==> opt_string_view(#[trigger] names@[k]) == spec[k],
    ensures
        res == name_count(spec, x@),
{
    let mut count: usize = 0;
    let mut i: usize = 0;
    while i < names.len()
        invariant
            names@.len() == spec.len(),
            forall|k: int| 0 <= k < spec.len() ==> opt_string_view(#[trigger] names@[k]) == spec[k],
            i <= names@.len(),
            count == name_count(spec.take(i as int), x@),
            count <= i,
        decreases names@.len() - i,
    {
        assert(spec.take(i + 1).drop_last() =~= spec.take(i as int));
        let hit = match &names[i] {
            Some(y) => str_eq(y.as_str(), x),
            None => false,
        };
        assert(hit == (spec[i as int] == Some(x@)));
        if hit {
            count = count + 1;
        }
        i = i + 1;
    }
    assert(spec.take(names@.len() as int) =~= spec);
    count
}

fn add_sorted(list: &mut Vec<String>, x: &str)
    ensures
        views(final(list)@) == insert_text(views(old(list)@), x@),
{
    let ghost s = views(list@);
    let mut k: usize = 0;
    while k < list.len() && str_less(list[k].as_str(), x)
        invariant
            s == views(list@),
            k <= list@.len(),
            text_pos(s, x@, 0) == text_pos(s, x@, k as int),
        decreases list@.len() - k,
    {
        k = k + 1;
    }
    assert(text_pos(s, x@, k as int) == k);
    if k < list.len() && str_eq(list[k].as_str(), x) {
        return;
    }
    list.insert(k, x.to_string());
    assert(views(list@) =~= s.insert(k as int, x@));
}

/// The report of a script that could not be read.
pub fn unreadable_validation(name: String, path: String, dynamic_command: bool, error: String) -> (res:
    WorkflowValidationSummary)
    ensures
        res.name@ == name@,
        res.path@ == path@,
        !res.valid,
        res.dynamic_command == dynamic_command,
        res.step_count is None,
        views(res.messages@) == seq![error@],
{
    let mut messages: Vec<String> = Vec::new();
    push_message(&mut messages, error);
    WorkflowValidationSummary { name, path, valid: false, dynamic_command, step_count: None, messages }
}

/// The first line of one script's report.
pub open spec fn report_line(r: WorkflowValidationSummary) -> Seq<char> {
    "- "@ + r.name@ + " — "@ + (if r.valid {
        "valid"@
    } else {
        "invalid"@
    }) + ", "@ + (match r.step_count {
        Some(c) => decimal(c as nat),
        None => "?"@,
    }) + " step(s), dynamic_command: "@ + yes_no(r.dynamic_command) + ", path: "@ + path_text_spec(
        r.path@,
    )
}

/// The findings of one report, indented under it.
pub open spec fn finding_lines(messages: Seq<Seq<char>>) -> Seq<Seq<char>> {
    messages.map_values(|m: Seq<char>| "  - "@ + m)
}

/// The lines of the reports, each followed by its findings.
pub open spec fn report_lines(results: Seq<WorkflowValidationSummary>) -> Seq<Seq<char>>
    decreases results.len(),
{
    if results.len() == 0 {
        seq![]
    } else {
        report_lines(results.drop_last()) + seq![report_line(results.last())] + finding_lines(
            views(results.last().messages@),
        )
    }
}

/// The validation report of a workspace's scripts.
pub open spec fn validation_text(results: Seq<WorkflowValidationSummary>, root: Seq<char>) -> Seq<char> {
    if results.len() == 0 {
        "No workflow scripts found under `"@ + workflow_root_text(root) + "`."@
    } else {
        join_seq(
            seq!["Workflow validation under `"@ + workflow_root_text(root) + "`:"@] + report_lines(
                results,
            ),
            "\n"@,
        )
    }
}

fn report_line_text(r: &WorkflowValidationSummary) -> (res: String)
    ensures
        res@ == report_line(*r),
{
    let mut l = "- ".to_string();
    l.append(r.name.as_str());
    l.append(" — ");
    if r.valid {
        l.append("valid");
    } else {
        l.append("invalid");
    }
    l.append(", ");
    match r.step_count {
        Some(c) => push_decimal(&mut l, c as u64),
        None => l.append("?"),
    }
    l.append(" step(s), dynamic_command: ");
    if r.dynamic_command {
        l.append("yes");
    } else {
        l.append("no");
    }
    l.append(", path: ");
    l.append(path_text(r.path.as_str()).as_str());
    l
}

/// Renders the validation reports of a workspace's scripts.
pub fn render_workflow_validation(results: &Vec<WorkflowValidationSummary>, root: &str) -> (res: String)
    ensures
        res@ == validation_text(results@, root@),
{
    let shown_root = workflow_root_shown(root);
    if results.len() == 0 {
        let mut m = "No workflow scripts found under `".to_string();
        m.append(shown_root.as_str());
        m.append("`.");
        return m;
    }
    let mut lines: Vec<String> = Vec::new();
    let mut first = "Workflow validation under `".to_string();
    first.append(shown_root.as_str());
    first.append("`:");
    push_message(&mut lines, first);
    let ghost head = views(lines@);
    assert(head =~= seq!["Workflow validation under `"@ + workflow_root_text(root@) + "`:"@]);
    let mut i: usize = 0;
    while i < results.len()
        invariant
            i <= results@.len(),
            views(lines@) == head + report_lines(results@.take(i as int)),
        decreases results@.len() - i,
    {
        let r = &results[i];
        assert(results@.take(i + 1).drop_last() =~= results@.take(i as int));
        let ghost before = views(lines@);
        push_message(&mut lines, report_line_text(r));
        let mut k: usize = 0;
        while k < r.messages.len()
            invariant
                r == results@[i as int],
                k <= r.messages@.len(),
                views(lines@) == before + seq![report_line(*r)] + finding_lines(
                    views(r.messages@).take(k as int),
                ),
            decreases r.messages@.len() - k,
        {
            let mut m = "  - ".to_string();
            m.append(r.messages[k].as_str());
            push_message(&mut lines, m);
            assert(views(r.messages@).take(k + 1) =~= views(r.messages@).take(k as int).push(
                r.messages@[k as int]@,
            ));
            assert(views(lines@) =~= before + seq![report_line(*r)] + finding_lines(
                views(r.messages@).take(k + 1),
            ));
            k = k + 1;
        }
        assert(views(r.messages@).take(k as int) =~= views(r.messages@));
        assert(views(lines@) =~= head + report_lines(results@.take(i + 1)));
        i = i + 1;
    }
    assert(results@.take(i as int) =~= results@);
    join(&lines, "\n")
}

/// Where workflow scripts live, relative to the workspace root.
pub const WORKFLOW_DIRECTORY: &'static str = ".hellox/workflows";

/// Whether `t` has a `..` segment between slashes (or at either end).
pub open spec fn has_parent_segment(t: Seq<char>) -> bool {
    exists|i: int|
        0 <= i && i + 2 <= t.len() && #[trigger] t[i] == '.' && t[i + 1] == '.' && (i == 0 || t[i
            - 1] == '/') && (i + 2 == t.len() || t[i + 2] == '/')
}

/// Whether a workflow name, read as a Unix path, leaves the workflow directory:
/// it is absolute or climbs with `..`.
pub open spec fn escapes_workflow_dir(t: Seq<char>) -> bool {
    (t.len() > 0 && t[0] == '/') || has_parent_segment(t)
}

/// The name a new script is created under, or why it is refused.
pub open spec fn workflow_name_spec(name: Seq<char>) -> Result<Seq<char>, Seq<char>> {
    let t = crate::text::trim_seq(name);
    if t.len() == 0 {
        Err("workflow name cannot be empty"@)
    } else if escapes_workflow_dir(t) {
        Err("workflow name must stay within `"@ + WORKFLOW_DIRECTORY@ + "`"@)
    } else {
        Ok(t)
    }
}

/// Checks the name a new script is created under: trimmed, not blank, and
/// staying inside the workflow directory.
pub fn check_workflow_name(name: &str) -> (res: Result<String, String>)
    ensures
        match res {
            Ok(t) => workflow_name_spec(name@) == Ok::<Seq<char>, Seq<char>>(t@),
            Err(m) => workflow_name_spec(name@) == Err::<Seq<char>, Seq<char>>(m@),
        },
{
    let t = crate::text::trim(name);
    if t.unicode_len() == 0 {
        return Err("workflow name cannot be empty".to_string());
    }
    let chars = crate::text::chars_of(t.as_str());
    let n = chars.len();
    let mut escapes = chars[0] == '/';
    let mut i: usize = 0;
    while i < n && !escapes
        invariant
            chars@ == t@,
            t@ == crate::text::trim_seq(name@),
            n == chars@.len(),
            n > 0,
            i <= n,
            escapes == (chars@[0] == '/'),
            !escapes ==> forall|k: int|
                0 <= k < i ==> !(k + 2 <= t@.len() && #[trigger] t@[k] == '.' && t@[k + 1] == '.' && (k
                    == 0 || t@[k - 1] == '/') && (k + 2 == t@.len() || t@[k + 2] == '/')),
        decreases n - i,
    {
        if n - i >= 2 && chars[i] == '.' && chars[i + 1] == '.' && (i == 0 || chars[i - 1] == '/')
            && (i + 2 == n || chars[i + 2] == '/') {
            assert(has_parent_segment(t@));
            let mut m = "workflow name must stay within `".to_string();
            m.append(WORKFLOW_DIRECTORY);
            m.append("`");
            return Err(m);
        }
        i = i + 1;
    }
    if escapes {
        let mut m = "workflow name must stay within `".to_string();
        m.append(WORKFLOW_DIRECTORY);
        m.append("`");
        return Err(m);
    }
    Ok(t)
}

/// The first step of a new script.
pub open spec fn review_prompt() -> Seq<char> {
    "Review the current workspace state and summarize the most important findings."@
}

/// The second step of a new script.
pub open spec fn act_prompt() -> Seq<char> {
    "Continue from {{workflow.previous_result}} and complete the next concrete task."@
}

/// A step of a new script: its name and prompt.
pub open spec fn template_step(name: Seq<char>, prompt: Seq<char>) -> StepView {
    StepView::Object(map!["name"@ => FieldView::Text(name), "prompt"@ => FieldView::Text(prompt)])
}

fn template_step_entry(name: &str, prompt: &str) -> (res: StepEntry)
    ensures
        step_view(res) == template_step(name@, prompt@),
{
    let mut fields: NamedMap<FieldValue> = NamedMap::new();
    fields.insert("name".to_string(), FieldValue::Text(name.to_string()));
    fields.insert("prompt".to_string(), FieldValue::Text(prompt.to_string()));
    proof {
        reveal_strlit("name");
        reveal_strlit("prompt");
    }
    assert(object_view(fields@) =~= map!["name"@ => FieldView::Text(name@), "prompt"@ => FieldView::Text(prompt@)]);
    StepEntry::Object(fields)
}

/// A new script: a review step and an act step, the shared context when one is
/// given (trimmed, not blank), and `continue_on_error` when asked for.
pub fn workflow_template(shared_context: Option<String>, continue_on_error: bool) -> (res: WorkflowDocument)
    ensures
        doc_steps(res.fields@) == Some(seq![
            template_step("review"@, review_prompt()),
            template_step("act"@, act_prompt()),
        ]),
        match normalize_optional_spec(opt_string_view(shared_context)) {
            Some(c) => res.fields@.contains_key("shared_context"@) && (res.fields@["shared_context"@]
                matches DocValue::Field(FieldValue::Text(t)) && t@ == c),
            None => !res.fields@.contains_key("shared_context"@),
        },
        continue_on_error ==> res.fields@.contains_key("continue_on_error"@) && res.fields@["continue_on_error"@]
            == DocValue::Field(FieldValue::Flag(true)),
        !continue_on_error ==> !res.fields@.contains_key("continue_on_error"@),
        res.fields@.dom() =~= set!["steps"@].union(
            if normalize_optional_spec(opt_string_view(shared_context)) is Some {
                set!["shared_context"@]
            } else {
                Set::empty()
            },
        ).union(
            if continue_on_error {
                set!["continue_on_error"@]
            } else {
                Set::empty()
            },
        ),
{
    proof {
        reveal_strlit("steps");
        reveal_strlit("shared_context");
        reveal_strlit("continue_on_error");
        reveal_strlit("review");
        reveal_strlit("act");
    }
    let mut fields: NamedMap<DocValue> = NamedMap::new();
    match normalize_optional_text(shared_context) {
        Some(c) => fields.insert("shared_context".to_string(), DocValue::Field(FieldValue::Text(c))),
        None => {},
    }
    if continue_on_error {
        fields.insert("continue_on_error".to_string(), DocValue::Field(FieldValue::Flag(true)));
    }
    let mut steps: Vec<StepEntry> = Vec::new();
    steps.push(template_step_entry("review", "Review the current workspace state and summarize the most important findings."));
    steps.push(template_step_entry("act", "Continue from {{workflow.previous_result}} and complete the next concrete task."));
    let ghost sv = steps@;
    assert("steps"@.len() != "shared_context"@.len());
    assert("steps"@.len() != "continue_on_error"@.len());
    fields.insert("steps".to_string(), DocValue::Steps(steps));
    assert(steps_view(sv) =~= seq![
        template_step("review"@, review_prompt()),
        template_step("act"@, act_prompt()),
    ]);
    WorkflowDocument { fields }
}

} // verus!
