//! Recorded workflow runs: their records, the step tally, and how the run
//! history is filtered and ordered.

use vstd::prelude::*;

use crate::text::{
    chars_of, concat2, eq_ignore_ascii_case, lemma_text_less_asymmetric, lemma_text_less_transitive, str_less, text_less, find_from, find_str, lemma_find_from_found, lower_seq, opt_string_view,
    opt_view, replace_char, replace_seq, str_eq, string_from_range, strip_all_suffix, trim,
    trim_end_matches_str, trim_seq,
};

use crate::paths::{join_path, path_join};
use crate::tasks::{normalize_optional_spec, normalize_optional_text};
use crate::workflow_render::{path_text, path_text_spec};

verus! {

/// Where workflow scripts live, relative to the workspace root.
pub const WORKFLOW_SCRIPT_PREFIX: &'static str = ".hellox/workflows/";

/// How many steps of a run ended in each state.
#[derive(Clone, Copy, Debug, PartialEq, Eq, Structural)]
pub struct WorkflowRunSummary {
    pub total_steps: usize,
    pub completed_steps: usize,
    pub failed_steps: usize,
    pub running_steps: usize,
    pub skipped_steps: usize,
}

impl Default for WorkflowRunSummary {
    fn default() -> (res: Self)
        ensures
            res == (WorkflowRunSummary {
                total_steps: 0,
                completed_steps: 0,
                failed_steps: 0,
                running_steps: 0,
                skipped_steps: 0,
            }),
    {
        WorkflowRunSummary {
            total_steps: 0,
            completed_steps: 0,
            failed_steps: 0,
            running_steps: 0,
            skipped_steps: 0,
        }
    }
}

/// One step of a recorded run.
#[derive(Debug)]
pub struct WorkflowRunStepRecord {
    pub name: String,
    pub status: String,
    pub result_text: Option<String>,
    pub error: Option<String>,
    pub reason: Option<String>,
}

/// A recorded run of a workflow.
#[derive(Debug)]
pub struct WorkflowRunRecord {
    pub run_id: String,
    pub status: String,
    pub workflow_name: Option<String>,
    pub workflow_source: Option<String>,
    pub requested_script_path: Option<String>,
    pub started_at: u64,
    pub finished_at: u64,
    pub shared_context: Option<String>,
    pub continue_on_error: Option<bool>,
    pub summary: WorkflowRunSummary,
    pub steps: Vec<WorkflowRunStepRecord>,
    pub error: Option<String>,
    pub result_text: String,
}

/// The tally a step status counts toward.
#[derive(Clone, Copy, Debug, PartialEq, Eq, Structural)]
pub enum StepOutcome {
    Completed,
    Failed,
    Running,
    Skipped,
    Other,
}

/// The tally of a step status: "completed" and "coordinated" count as completed.
pub open spec fn step_outcome_spec(status: Seq<char>) -> StepOutcome {
    if status == "completed"@ || status == "coordinated"@ {
        StepOutcome::Completed
    } else if status == "failed"@ {
        StepOutcome::Failed
    } else if status == "running"@ {
        StepOutcome::Running
    } else if status == "skipped"@ {
        StepOutcome::Skipped
    } else {
        StepOutcome::Other
    }
}

/// The tally of a step status.
pub fn step_outcome(status: &str) -> (res: StepOutcome)
    ensures
        res == step_outcome_spec(status@),
{
    if str_eq(status, "completed") || str_eq(status, "coordinated") {
        StepOutcome::Completed
    } else if str_eq(status, "failed") {
        StepOutcome::Failed
    } else if str_eq(status, "running") {
        StepOutcome::Running
    } else if str_eq(status, "skipped") {
        StepOutcome::Skipped
    } else {
        StepOutcome::Other
    }
}

/// How many of `steps` count toward `outcome`.
pub open spec fn outcome_count(steps: Seq<WorkflowRunStepRecord>, outcome: StepOutcome) -> nat
    decreases steps.len(),
{
    if steps.len() == 0 {
        0
    } else {
        outcome_count(steps.drop_last(), outcome) + if step_outcome_spec(steps.last().status@)
            == outcome {
            1nat
        } else {
            0nat
        }
    }
}

proof fn lemma_outcome_count_bound(steps: Seq<WorkflowRunStepRecord>, outcome: StepOutcome)
    ensures
        outcome_count(steps, outcome) <= steps.len(),
    decreases steps.len(),
{
    if steps.len() > 0 {
        lemma_outcome_count_bound(steps.drop_last(), outcome);
    }
}

/// The tally of a list of steps.
pub open spec fn summary_spec(steps: Seq<WorkflowRunStepRecord>) -> WorkflowRunSummary {
    WorkflowRunSummary {
        total_steps: steps.len() as usize,
        completed_steps: outcome_count(steps, StepOutcome::Completed) as usize,
        failed_steps: outcome_count(steps, StepOutcome::Failed) as usize,
        running_steps: outcome_count(steps, StepOutcome::Running) as usize,
        skipped_steps: outcome_count(steps, StepOutcome::Skipped) as usize,
    }
}

/// Counts the steps of a run by how they ended.
pub fn summary_from_steps(steps: &Vec<WorkflowRunStepRecord>) -> (res: WorkflowRunSummary)
    ensures
        res == summary_spec(steps@),
{
    let mut summary = WorkflowRunSummary {
        total_steps: steps.len(),
        completed_steps: 0,
        failed_steps: 0,
        running_steps: 0,
        skipped_steps: 0,
    };
    let mut i: usize = 0;
    while i < steps.len()
        invariant
            i <= steps@.len(),
            summary.total_steps == steps@.len(),
            summary.completed_steps == outcome_count(steps@.take(i as int), StepOutcome::Completed),
            summary.failed_steps == outcome_count(steps@.take(i as int), StepOutcome::Failed),
            summary.running_steps == outcome_count(steps@.take(i as int), StepOutcome::Running),
            summary.skipped_steps == outcome_count(steps@.take(i as int), StepOutcome::Skipped),
        decreases steps@.len() - i,
    {
        let ghost before = steps@.take(i as int);
        let ghost after = steps@.take(i + 1);
        assert(after.drop_last() =~= before);
        assert(after.last() == steps@[i as int]);
        proof {
            lemma_outcome_count_bound(after, StepOutcome::Completed);
            lemma_outcome_count_bound(after, StepOutcome::Failed);
            lemma_outcome_count_bound(after, StepOutcome::Running);
            lemma_outcome_count_bound(after, StepOutcome::Skipped);
        }
        match step_outcome(steps[i].status.as_str()) {
            StepOutcome::Completed => summary.completed_steps = summary.completed_steps + 1,
            StepOutcome::Failed => summary.failed_steps = summary.failed_steps + 1,
            StepOutcome::Running => summary.running_steps = summary.running_steps + 1,
            StepOutcome::Skipped => summary.skipped_steps = summary.skipped_steps + 1,
            StepOutcome::Other => {},
        }
        i = i + 1;
    }
    assert(steps@.take(steps@.len() as int) =~= steps@);
    summary
}

/// The workflow a script path names: what follows the first `.hellox/workflows/`
/// (backslashes read as slashes), without trailing `.json`s and surrounding
/// whitespace, when anything is left.
pub open spec fn workflow_name_from_source_spec(source: Seq<char>) -> Option<Seq<char>> {
    let normalized = replace_seq(source, '\\', "/"@);
    match find_from(normalized, WORKFLOW_SCRIPT_PREFIX@, 0) {
        Some(marker) => {
            let relative = normalized.subrange(
                (marker + WORKFLOW_SCRIPT_PREFIX@.len()) as int,
                normalized.len() as int,
            );
            let name = trim_seq(strip_all_suffix(relative, ".json"@));
            if name.len() > 0 {
                Some(name)
            } else {
                None
            }
        },
        None => None,
    }
}

/// The workflow a recorded script path names, if it lies under the workflow directory.
pub fn derive_workflow_name_from_source(source: &str) -> (res: Option<String>)
    ensures
        opt_string_view(res) == workflow_name_from_source_spec(source@),
{
    let normalized = replace_char(source, '\\', "/");
    match find_str(normalized.as_str(), WORKFLOW_SCRIPT_PREFIX) {
        Some(marker) => {
            let chars = chars_of(normalized.as_str());
            let prefix_len = WORKFLOW_SCRIPT_PREFIX.unicode_len();
            proof {
                reveal_strlit(".hellox/workflows/");
                lemma_find_from_found(normalized@, WORKFLOW_SCRIPT_PREFIX@, 0);
            }
            let n = chars.len();
            let relative = string_from_range(&chars, marker + prefix_len, n);
            let stripped = trim_end_matches_str(relative.as_str(), ".json");
            let name = trim(stripped.as_str());
            if name.unicode_len() > 0 {
                Some(name)
            } else {
                None
            }
        },
        None => None,
    }
}

/// Whether a character may stand in a run id: an ASCII letter or digit, `-` or `_`.
pub open spec fn run_id_char(c: char) -> bool {
    ('a' <= c && c <= 'z') || ('A' <= c && c <= 'Z') || ('0' <= c && c <= '9') || c == '-' || c
        == '_'
}

/// Whether a run id is safe to use as a file name.
pub open spec fn safe_run_id_spec(value: Seq<char>) -> bool {
    forall|i: int| 0 <= i < value.len() ==> run_id_char(#[trigger] value[i])
}

/// Whether a run id holds only ASCII letters, digits, `-` and `_`.
pub fn is_safe_run_id(value: &str) -> (res: bool)
    ensures
        res == safe_run_id_spec(value@),
{
    let chars = chars_of(value);
    let mut i: usize = 0;
    while i < chars.len()
        invariant
            chars@ == value@,
            i <= chars@.len(),
            forall|k: int| 0 <= k < i ==> run_id_char(#[trigger] value@[k]),
        decreases chars@.len() - i,
    {
        let c = chars[i];
        if !(('a' <= c && c <= 'z') || ('A' <= c && c <= 'Z') || ('0' <= c && c <= '9') || c == '-'
            || c == '_') {
            assert(!run_id_char(value@[i as int]));
            return false;
        }
        i = i + 1;
    }
    true
}

/// A filter as typed: trimmed, and absent when blank.
pub open spec fn filter_spec(value: Option<Seq<char>>) -> Option<Seq<char>> {
    normalize_optional_spec(value)
}

/// A filter as typed: trimmed, and absent when blank.
pub fn normalize_filter(value: Option<&str>) -> (res: Option<String>)
    ensures
        opt_string_view(res) == filter_spec(opt_view(value)),
{
    match value {
        Some(v) => {
            let t = trim(v);
            if t.unicode_len() > 0 {
                Some(t)
            } else {
                None
            }
        },
        None => None,
    }
}

/// A required value, trimmed; refused with "`label` cannot be empty" when blank.
pub fn normalize_required_text(value: &str, label: &str) -> (res: Result<String, String>)
    ensures
        trim_seq(value@).len() > 0 ==> (res matches Ok(v) && v@ == trim_seq(value@)),
        trim_seq(value@).len() == 0 ==> (res matches Err(m) && m@ == label@ + " cannot be empty"@),
{
    let t = trim(value);
    if t.unicode_len() > 0 {
        Ok(t)
    } else {
        Err(concat2(label, " cannot be empty"))
    }
}

/// The message for a run id that holds other characters.
pub open spec fn unsafe_run_id_message() -> Seq<char> {
    "workflow run id must only contain ASCII letters, numbers, `-`, or `_`"@
}

/// The run id a lookup reads, or why it is refused: blank, or holding characters
/// a file name should not.
pub fn check_run_id(run_id: &str) -> (res: Result<String, String>)
    ensures
        trim_seq(run_id@).len() == 0 ==> (res matches Err(m) && m@
            == "workflow run id cannot be empty"@),
        trim_seq(run_id@).len() > 0 && safe_run_id_spec(trim_seq(run_id@)) ==> (res matches Ok(v)
            && v@ == trim_seq(run_id@)),
        trim_seq(run_id@).len() > 0 && !safe_run_id_spec(trim_seq(run_id@)) ==> (res matches Err(m)
            && m@ == unsafe_run_id_message()),
{
    proof {
        reveal_strlit("workflow run id");
        reveal_strlit(" cannot be empty");
        reveal_strlit("workflow run id cannot be empty");
    }
    match normalize_required_text(run_id, "workflow run id") {
        Ok(value) => {
            if is_safe_run_id(value.as_str()) {
                Ok(value)
            } else {
                Err("workflow run id must only contain ASCII letters, numbers, `-`, or `_`".to_string())
            }
        },
        Err(message) => {
            assert(message@ =~= "workflow run id cannot be empty"@);
            Err(message)
        },
    }
}

/// Whether a run belongs to the workflow `filter` (ASCII case ignored): by its
/// recorded name, or by the name its script path gives.
pub open spec fn run_matches_spec(record: WorkflowRunRecord, filter: Seq<char>) -> bool {
    (match record.workflow_name {
        Some(name) => lower_seq(name@) == lower_seq(filter),
        None => false,
    }) || (match record.workflow_source {
        Some(source) => match workflow_name_from_source_spec(source@) {
            Some(name) => lower_seq(name) == lower_seq(filter),
            None => false,
        },
        None => false,
    })
}

/// Whether a run belongs to the workflow `filter`.
pub fn matches_workflow_filter(record: &WorkflowRunRecord, filter: &str) -> (res: bool)
    ensures
        res == run_matches_spec(*record, filter@),
{
    let by_name = match &record.workflow_name {
        Some(name) => eq_ignore_ascii_case(name.as_str(), filter),
        None => false,
    };
    if by_name {
        return true;
    }
    match &record.workflow_source {
        Some(source) => match derive_workflow_name_from_source(source.as_str()) {
            Some(name) => eq_ignore_ascii_case(name.as_str(), filter),
            None => false,
        },
        None => false,
    }
}

/// Whether run `a` is listed before run `b`: it finished later, or at the same
/// time with a greater run id.
pub open spec fn run_before(a: WorkflowRunRecord, b: WorkflowRunRecord) -> bool {
    a.finished_at > b.finished_at || (a.finished_at == b.finished_at && text_less(
        b.run_id@,
        a.run_id@,
    ))
}

proof fn lemma_run_before_transitive(a: WorkflowRunRecord, b: WorkflowRunRecord, c: WorkflowRunRecord)
    requires
        run_before(a, b),
        run_before(b, c),
    ensures
        run_before(a, c),
{
    if a.finished_at == b.finished_at && b.finished_at == c.finished_at {
        lemma_text_less_transitive(c.run_id@, b.run_id@, a.run_id@);
    }
}

proof fn lemma_run_before_asymmetric(a: WorkflowRunRecord, b: WorkflowRunRecord)
    requires
        run_before(a, b),
    ensures
        !run_before(b, a),
{
    if a.finished_at == b.finished_at {
        lemma_text_less_asymmetric(b.run_id@, a.run_id@);
    }
}

/// Whether run `a` is listed before run `b`.
pub fn is_run_before(a: &WorkflowRunRecord, b: &WorkflowRunRecord) -> (res: bool)
    ensures
        res == run_before(*a, *b),
{
    a.finished_at > b.finished_at || (a.finished_at == b.finished_at && str_less(
        b.run_id.as_str(),
        a.run_id.as_str(),
    ))
}

/// Where `r` goes in the listing `s`: before the first run, from `k` on, that it
/// is listed before; at the end when there is none.
pub open spec fn insert_pos_from(s: Seq<WorkflowRunRecord>, r: WorkflowRunRecord, k: int) -> int
    decreases s.len() - k,
{
    if k >= s.len() {
        s.len() as int
    } else if run_before(r, s[k]) {
        k
    } else {
        insert_pos_from(s, r, k + 1)
    }
}

/// The listing `s` with `r` added in its place, after the runs that tie with it.
pub open spec fn insert_run(s: Seq<WorkflowRunRecord>, r: WorkflowRunRecord) -> Seq<WorkflowRunRecord> {
    s.insert(insert_pos_from(s, r, 0), r)
}

/// The runs of `s`, most recently finished first; runs that tie keep their order.
pub open spec fn sorted_runs(s: Seq<WorkflowRunRecord>) -> Seq<WorkflowRunRecord>
    decreases s.len(),
{
    if s.len() == 0 {
        s
    } else {
        insert_run(sorted_runs(s.drop_last()), s.last())
    }
}

/// Whether no run of `s` is listed before a run that precedes it.
pub open spec fn runs_ordered(s: Seq<WorkflowRunRecord>) -> bool {
    forall|i: int, j: int| 0 <= i < j < s.len() ==> !run_before(#[trigger] s[j], #[trigger] s[i])
}

proof fn lemma_insert_pos(s: Seq<WorkflowRunRecord>, r: WorkflowRunRecord, k: int)
    requires
        0 <= k <= s.len(),
    ensures
        k <= insert_pos_from(s, r, k) <= s.len(),
        forall|m: int| k <= m < insert_pos_from(s, r, k) ==> !run_before(r, #[trigger] s[m]),
        insert_pos_from(s, r, k) < s.len() ==> run_before(r, s[insert_pos_from(s, r, k)]),
    decreases s.len() - k,
{
    if k < s.len() && !run_before(r, s[k]) {
        lemma_insert_pos(s, r, k + 1);
    }
}

proof fn lemma_insert_run_ordered(s: Seq<WorkflowRunRecord>, r: WorkflowRunRecord)
    requires
        runs_ordered(s),
    ensures
        runs_ordered(insert_run(s, r)),
        insert_run(s, r).to_multiset() == s.to_multiset().insert(r),
{
    let p = insert_pos_from(s, r, 0);
    lemma_insert_pos(s, r, 0);
    let t = insert_run(s, r);
    assert(t.len() == s.len() + 1);
    assert forall|i: int, j: int| 0 <= i < j < t.len() implies !run_before(#[trigger] t[j], #[trigger] t[i]) by {
        if j < p {
            assert(t[i] == s[i] && t[j] == s[j]);
        } else if j == p {
            assert(t[j] == r && t[i] == s[i]);
        } else if i < p {
            assert(t[i] == s[i] && t[j] == s[j - 1]);
        } else if i == p {
            assert(t[i] == r && t[j] == s[j - 1]);
            assert(run_before(r, s[p]));
            if run_before(s[j - 1], r) {
                if j - 1 == p {
                    lemma_run_before_asymmetric(r, s[p]);
                } else {
                    lemma_run_before_transitive(s[j - 1], r, s[p]);
                    assert(!run_before(s[j - 1], s[p]));
                }
            }
        } else {
            assert(t[i] == s[i - 1] && t[j] == s[j - 1]);
        }
    }
    vstd::seq_lib::to_multiset_insert(s, p, r);
}

/// Law: the run listing is ordered most recent first, and holds exactly the
/// runs it was given.
pub proof fn lemma_sorted_runs_ordered(s: Seq<WorkflowRunRecord>)
    ensures
        runs_ordered(sorted_runs(s)),
        sorted_runs(s).to_multiset() == s.to_multiset(),
    decreases s.len(),
{
    if s.len() > 0 {
        lemma_sorted_runs_ordered(s.drop_last());
        lemma_insert_run_ordered(sorted_runs(s.drop_last()), s.last());
        vstd::seq_lib::to_multiset_build(s.drop_last(), s.last());
        assert(s.drop_last().push(s.last()) =~= s);
    }
}

/// The test of whether a run belongs to the workflow `f`.
pub open spec fn belongs_to(f: Seq<char>) -> spec_fn(WorkflowRunRecord) -> bool {
    |r: WorkflowRunRecord| run_matches_spec(r, f)
}

/// The runs of `s` that belong to the workflow `filter`, or all of them.
pub open spec fn filter_runs(s: Seq<WorkflowRunRecord>, filter: Option<Seq<char>>) -> Seq<WorkflowRunRecord> {
    match filter {
        Some(f) => s.filter(belongs_to(f)),
        None => s,
    }
}

/// The run history as listed: the runs of the named workflow (all runs when no
/// name is given), most recent first, at most `limit` of them.
pub open spec fn run_listing_spec(
    records: Seq<WorkflowRunRecord>,
    workflow_name: Option<Seq<char>>,
    limit: usize,
) -> Seq<WorkflowRunRecord> {
    let sorted = sorted_runs(filter_runs(records, filter_spec(workflow_name)));
    if limit <= sorted.len() {
        sorted.subrange(0, limit as int)
    } else {
        sorted
    }
}

/// Law: a run listing holds at most `limit` runs, most recent first, each of them
/// a run it was given, and each of the named workflow when a name is given.
pub proof fn lemma_run_listing(records: Seq<WorkflowRunRecord>, workflow_name: Option<Seq<char>>, limit: usize)
    ensures
        ({
            let listing = run_listing_spec(records, workflow_name, limit);
            &&& listing.len() <= limit
            &&& runs_ordered(listing)
            &&& forall|i: int| 0 <= i < listing.len() ==> records.contains(#[trigger] listing[i])
            &&& filter_spec(workflow_name) matches Some(f) ==> forall|i: int|
                0 <= i < listing.len() ==> run_matches_spec(#[trigger] listing[i], f)
        }),
{
    let filtered = filter_runs(records, filter_spec(workflow_name));
    let sorted = sorted_runs(filtered);
    lemma_sorted_runs_ordered(filtered);
    let listing = run_listing_spec(records, workflow_name, limit);
    assert forall|i: int| 0 <= i < listing.len() implies records.contains(#[trigger] listing[i])
        && (filter_spec(workflow_name) matches Some(f) ==> run_matches_spec(listing[i], f)) by {
        let x = listing[i];
        assert(x == sorted[i]);
        assert(sorted.contains(x));
        vstd::seq_lib::to_multiset_contains(sorted, x);
        vstd::seq_lib::to_multiset_contains(filtered, x);
        let j = choose|j: int| 0 <= j < filtered.len() && filtered[j] == x;
        match filter_spec(workflow_name) {
            Some(f) => {
                records.lemma_filter_pred(belongs_to(f), j);
                assert(records.filter(belongs_to(f)).contains(x));
                records.lemma_filter_contains_rev(belongs_to(f), x);
            },
            None => {},
        }
    }
}

/// The message for a listing limit of zero.
pub open spec fn zero_limit_message() -> Seq<char> {
    "workflow runs limit must be at least 1"@
}

/// Lists recorded runs: those of the named workflow (all when no name is given),
/// most recent first, at most `limit`; refused when `limit` is zero.
pub fn select_workflow_runs(
    records: Vec<WorkflowRunRecord>,
    workflow_name: Option<&str>,
    limit: usize,
) -> (res: Result<Vec<WorkflowRunRecord>, String>)
    ensures
        limit == 0 ==> (res matches Err(m) && m@ == zero_limit_message()),
        limit > 0 ==> (res matches Ok(v) && v@ == run_listing_spec(records@, opt_view(workflow_name), limit)),
{
    if limit == 0 {
        return Err("workflow runs limit must be at least 1".to_string());
    }
    let filter = normalize_filter(workflow_name);
    let ghost fspec = filter_spec(opt_view(workflow_name));
    let ghost all = records@;
    let mut rest = records;
    let mut listed: Vec<WorkflowRunRecord> = Vec::new();
    let mut i: usize = 0;
    let n = rest.len();
    while i < n
        invariant
            n == all.len(),
            i <= n,
            rest@ == all.subrange(i as int, n as int),
            opt_string_view(filter) == fspec,
            listed@ == sorted_runs(filter_runs(all.take(i as int), fspec)),
        decreases n - i,
    {
        let r = rest.remove(0);
        let ghost prefix = all.take(i as int);
        let ghost next = all.take(i + 1);
        assert(r == all[i as int]);
        assert(next.drop_last() =~= prefix);
        assert(next.last() == r);
        let keep = match &filter {
            Some(f) => matches_workflow_filter(&r, f.as_str()),
            None => true,
        };
        if keep {
            let mut k: usize = 0;
            while k < listed.len() && !is_run_before(&r, &listed[k])
                invariant
                    k <= listed@.len(),
                    insert_pos_from(listed@, r, 0) == insert_pos_from(listed@, r, k as int),
                decreases listed@.len() - k,
            {
                k = k + 1;
            }
            assert(insert_pos_from(listed@, r, k as int) == k);
            let ghost before = listed@;
            listed.insert(k, r);
            proof {
                reveal(Seq::filter);
                let fp = filter_runs(prefix, fspec);
                assert(filter_runs(next, fspec) =~= fp.push(r)) by {
                    if let Some(f) = fspec {
                        assert(belongs_to(f)(r));
                        assert(next.filter(belongs_to(f)) == next.drop_last().filter(belongs_to(f)).push(
                            next.last(),
                        ));
                    }
                }
                assert(fp.push(r).drop_last() =~= fp);
                assert(listed@ == insert_run(before, r));
            }
        } else {
            proof {
                reveal(Seq::filter);
                if let Some(f) = fspec {
                    assert(!belongs_to(f)(r));
                    assert(next.filter(belongs_to(f)) == next.drop_last().filter(belongs_to(f)));
                }
            }
        }
        assert(rest@ =~= all.subrange(i + 1, n as int));
        i = i + 1;
    }
    assert(all.take(n as int) =~= all);
    listed.truncate(limit);
    Ok(listed)
}

/// Where a workspace keeps its run records, as shown.
pub open spec fn runs_root_text(root: Seq<char>) -> Seq<char> {
    path_text_spec(path_join(path_join(root, ".hellox"@), "workflow-runs"@))
}

/// Where a workspace keeps its run records, as shown.
pub fn workflow_runs_root_text(root: &str) -> (res: String)
    ensures
        res@ == runs_root_text(root@),
{
    path_text(join_path(join_path(root, ".hellox").as_str(), "workflow-runs").as_str())
}

/// The file of one run record.
pub fn workflow_run_path(root: &str, run_id: &str) -> (res: String)
    ensures
        res@ == path_join(path_join(path_join(root@, ".hellox"@), "workflow-runs"@), run_id@ + ".json"@),
{
    let runs = join_path(join_path(root, ".hellox").as_str(), "workflow-runs");
    let file = concat2(run_id, ".json");
    join_path(runs.as_str(), file.as_str())
}

/// The message when no run is recorded (for the workflow `filter`, when given).
pub open spec fn no_runs_message(filter: Option<Seq<char>>, root: Seq<char>) -> Seq<char> {
    match filter {
        Some(name) => "no workflow runs found for `"@ + name + "` under `"@ + runs_root_text(root)
            + "`"@,
        None => "no workflow runs found under `"@ + runs_root_text(root) + "`"@,
    }
}

/// The most recently finished run (of the named workflow, when a name is given),
/// or why there is none.
pub fn latest_workflow_run(records: Vec<WorkflowRunRecord>, workflow_name: Option<&str>, root: &str) -> (res:
    Result<WorkflowRunRecord, String>)
    ensures
        ({
            let listing = run_listing_spec(records@, opt_view(workflow_name), 1);
            match res {
                Ok(r) => listing.len() > 0 && r == listing[0],
                Err(m) => listing.len() == 0 && m@ == no_runs_message(
                    filter_spec(opt_view(workflow_name)),
                    root@,
                ),
            }
        }),
{
    let listed = select_workflow_runs(records, workflow_name, 1);
    match listed {
        Ok(mut runs) => {
            if runs.len() > 0 {
                Ok(runs.remove(0))
            } else {
                let shown = workflow_runs_root_text(root);
                match normalize_filter(workflow_name) {
                    Some(name) => {
                        let mut m = "no workflow runs found for `".to_string();
                        m.append(name.as_str());
                        m.append("` under `");
                        m.append(shown.as_str());
                        m.append("`");
                        Err(m)
                    },
                    None => {
                        let mut m = "no workflow runs found under `".to_string();
                        m.append(shown.as_str());
                        m.append("`");
                        Err(m)
                    },
                }
            }
        },
        Err(m) => Err(m),
    }
}

/// How a run was asked for: by workflow name or by script path.
#[derive(Debug)]
pub enum WorkflowRunTarget {
    Named(String),
    Path(String),
}

/// What a run was asked with, as its record keeps it.
#[derive(Debug)]
pub struct WorkflowRunInvocation {
    pub workflow_name: Option<String>,
    pub requested_script_path: Option<String>,
    pub shared_context: Option<String>,
    pub continue_on_error: Option<bool>,
}

impl WorkflowRunInvocation {
    /// What a run of `target` records about how it was asked for.
    pub fn from_target(target: &WorkflowRunTarget, shared_context: Option<String>, continue_on_error: Option<bool>) -> (res: Self)
        ensures
            opt_string_view(res.shared_context) == normalize_optional_spec(opt_string_view(shared_context)),
            res.continue_on_error == continue_on_error,
            match target {
                WorkflowRunTarget::Named(name) => opt_string_view(res.workflow_name) == normalize_optional_spec(Some(name@))
                    && res.requested_script_path is None,
                WorkflowRunTarget::Path(path) => res.workflow_name is None
                    && opt_string_view(res.requested_script_path) == Some(path_text_spec(path@)),
            },
    {
        match target {
            WorkflowRunTarget::Named(name) => WorkflowRunInvocation {
                workflow_name: normalize_filter(Some(name.as_str())),
                requested_script_path: None,
                shared_context: normalize_optional_text(shared_context),
                continue_on_error,
            },
            WorkflowRunTarget::Path(path) => WorkflowRunInvocation {
                workflow_name: None,
                requested_script_path: Some(path_text(path.as_str())),
                shared_context: normalize_optional_text(shared_context),
                continue_on_error,
            },
        }
    }
}

/// The record of a run that failed to start or finish: status "failed", no
/// steps, the error as both error and result text.
pub fn build_failure_record(
    run_id: String,
    invocation: WorkflowRunInvocation,
    started_at: u64,
    finished_at: u64,
    error_text: &str,
) -> (res: WorkflowRunRecord)
    ensures
        res.run_id == run_id,
        res.status@ == "failed"@,
        res.workflow_name == invocation.workflow_name,
        opt_string_view(res.workflow_source) == opt_string_view(invocation.requested_script_path),
        res.requested_script_path == invocation.requested_script_path,
        res.started_at == started_at,
        res.finished_at == finished_at,
        res.shared_context == invocation.shared_context,
        res.continue_on_error == invocation.continue_on_error,
        res.summary == (WorkflowRunSummary {
            total_steps: 0,
            completed_steps: 0,
            failed_steps: 0,
            running_steps: 0,
            skipped_steps: 0,
        }),
        res.steps@.len() == 0,
        opt_string_view(res.error) == Some(error_text@),
        res.result_text@ == error_text@,
{
    let requested_script_path = invocation.requested_script_path;
    let workflow_source = match &requested_script_path {
        Some(p) => Some(p.clone()),
        None => None,
    };
    WorkflowRunRecord {
        run_id,
        status: "failed".to_string(),
        workflow_name: invocation.workflow_name,
        workflow_source,
        requested_script_path,
        started_at,
        finished_at,
        shared_context: invocation.shared_context,
        continue_on_error: invocation.continue_on_error,
        summary: WorkflowRunSummary::default(),
        steps: Vec::new(),
        error: Some(error_text.to_string()),
        result_text: error_text.to_string(),
    }
}

/// One step of what a finished workflow reported: each value as the report held
/// it when it was a JSON string (`result` is the `result` text inside the step's
/// `result` object).
#[derive(Debug)]
pub struct StepReport {
    pub name: Option<String>,
    pub status: Option<String>,
    pub result: Option<String>,
    pub error: Option<String>,
    pub reason: Option<String>,
}

/// The tally a finished workflow reported: each count when it was a JSON
/// non-negative integer.
#[derive(Clone, Copy, Debug)]
pub struct SummaryReport {
    pub total_steps: Option<u64>,
    pub completed_steps: Option<u64>,
    pub failed_steps: Option<u64>,
    pub running_steps: Option<u64>,
    pub skipped_steps: Option<u64>,
}

/// What a finished workflow reported, as its record reads it: the text values
/// when they were JSON strings, the steps when they were a list, the tally when
/// one was given.
#[derive(Debug)]
pub struct RunReport {
    pub workflow_source: Option<String>,
    pub status: Option<String>,
    pub steps: Option<Vec<StepReport>>,
    pub summary: Option<SummaryReport>,
}

/// A reported count as kept: itself when it fits in `usize`, else zero.
pub open spec fn count_spec(v: Option<u64>) -> usize {
    match v {
        Some(n) => if n <= usize::MAX {
            n as usize
        } else {
            0
        },
        None => 0,
    }
}

fn reported_count(v: Option<u64>) -> (res: usize)
    ensures
        res == count_spec(v),
{
    match v {
        Some(n) => if n as u128 <= usize::MAX as u128 {
            n as usize
        } else {
            0
        },
        None => 0,
    }
}

/// The tally a reported one gives.
pub open spec fn summary_from_report_spec(r: SummaryReport) -> WorkflowRunSummary {
    WorkflowRunSummary {
        total_steps: count_spec(r.total_steps),
        completed_steps: count_spec(r.completed_steps),
        failed_steps: count_spec(r.failed_steps),
        running_steps: count_spec(r.running_steps),
        skipped_steps: count_spec(r.skipped_steps),
    }
}

/// The tally a reported one gives.
pub fn summary_from_report(r: SummaryReport) -> (res: WorkflowRunSummary)
    ensures
        res == summary_from_report_spec(r),
{
    WorkflowRunSummary {
        total_steps: reported_count(r.total_steps),
        completed_steps: reported_count(r.completed_steps),
        failed_steps: reported_count(r.failed_steps),
        running_steps: reported_count(r.running_steps),
        skipped_steps: reported_count(r.skipped_steps),
    }
}

/// A reported text with a fallback: the trimmed text, or `fallback` when it is
/// absent or blank.
pub open spec fn text_or(v: Option<Seq<char>>, fallback: Seq<char>) -> Seq<char> {
    match normalize_optional_spec(v) {
        Some(t) => t,
        None => fallback,
    }
}

/// Whether a step record is what a reported step gives.
pub open spec fn step_from_report_spec(r: StepReport, s: WorkflowRunStepRecord) -> bool {
    &&& s.name@ == text_or(opt_string_view(r.name), "(unnamed)"@)
    &&& s.status@ == text_or(opt_string_view(r.status), "unknown"@)
    &&& opt_string_view(s.result_text) == opt_string_view(r.result)
    &&& opt_string_view(s.error) == normalize_optional_spec(opt_string_view(r.error))
    &&& opt_string_view(s.reason) == normalize_optional_spec(opt_string_view(r.reason))
}

fn text_or_fallback(v: Option<String>, fallback: &str) -> (res: String)
    ensures
        res@ == text_or(opt_string_view(v), fallback@),
{
    match normalize_optional_text(v) {
        Some(t) => t,
        None => fallback.to_string(),
    }
}

/// The record of one reported step: blank names and statuses read as
/// "(unnamed)" and "unknown", texts trimmed, blank ones dropped.
pub fn step_record_from_report(r: StepReport) -> (res: WorkflowRunStepRecord)
    ensures
        step_from_report_spec(r, res),
{
    WorkflowRunStepRecord {
        name: text_or_fallback(r.name, "(unnamed)"),
        status: text_or_fallback(r.status, "unknown"),
        result_text: r.result,
        error: normalize_optional_text(r.error),
        reason: normalize_optional_text(r.reason),
    }
}

/// The record of a run that finished, from what it reported (`None` when the
/// report was not JSON): the reported status ("completed" when none), the
/// workflow name asked for or else the one the reported script path gives, the
/// reported steps, and the reported tally or else the tally of those steps.
pub fn build_success_record(
    run_id: String,
    invocation: WorkflowRunInvocation,
    started_at: u64,
    finished_at: u64,
    result_text: &str,
    report: Option<RunReport>,
) -> (res: WorkflowRunRecord)
    ensures
        res.run_id == run_id,
        ({
            let source = match report {
                Some(r) => normalize_optional_spec(opt_string_view(r.workflow_source)),
                None => None,
            };
            &&& opt_string_view(res.workflow_source) == source
            &&& opt_string_view(res.workflow_name) == match opt_string_view(invocation.workflow_name) {
                Some(n) => Some(n),
                None => match source {
                    Some(src) => workflow_name_from_source_spec(src),
                    None => None,
                },
            }
        }),
        res.status@ == text_or(
            match report {
                Some(r) => opt_string_view(r.status),
                None => None,
            },
            "completed"@,
        ),
        res.requested_script_path == invocation.requested_script_path,
        res.started_at == started_at,
        res.finished_at == finished_at,
        res.shared_context == invocation.shared_context,
        res.continue_on_error == invocation.continue_on_error,
        match report {
            Some(r) => match r.steps {
                Some(v) => res.steps@.len() == v@.len() && forall|i: int|
                    0 <= i < v@.len() ==> step_from_report_spec(v@[i], #[trigger] res.steps@[i]),
                None => res.steps@.len() == 0,
            },
            None => res.steps@.len() == 0,
        },
        match report {
            Some(r) => match r.summary {
                Some(t) => res.summary == summary_from_report_spec(t),
                None => res.summary == summary_spec(res.steps@),
            },
            None => res.summary == summary_spec(res.steps@),
        },
        res.error is None,
        res.result_text@ == result_text@,
{
    let (source, status, reported_steps, reported_summary) = match report {
        Some(r) => (normalize_optional_text(r.workflow_source), r.status, r.steps, r.summary),
        None => (None, None, None, None),
    };
    let workflow_name = match invocation.workflow_name {
        Some(n) => Some(n),
        None => match &source {
            Some(src) => derive_workflow_name_from_source(src.as_str()),
            None => None,
        },
    };
    let mut steps: Vec<WorkflowRunStepRecord> = Vec::new();
    match reported_steps {
        Some(list) => {
            let ghost all = list@;
            let mut rest = list;
            let n = rest.len();
            let mut i: usize = 0;
            while i < n
                invariant
                    n == all.len(),
                    i <= n,
                    rest@ == all.subrange(i as int, n as int),
                    steps@.len() == i,
                    forall|k: int| 0 <= k < i ==> step_from_report_spec(all[k], #[trigger] steps@[k]),
                decreases n - i,
            {
                let r = rest.remove(0);
                assert(r == all[i as int]);
                steps.push(step_record_from_report(r));
                assert(rest@ =~= all.subrange(i + 1, n as int));
                i = i + 1;
            }
        },
        None => {},
    }
    let summary = match reported_summary {
        Some(t) => summary_from_report(t),
        None => summary_from_steps(&steps),
    };
    WorkflowRunRecord {
        run_id,
        status: text_or_fallback(status, "completed"),
        workflow_name,
        workflow_source: source,
        requested_script_path: invocation.requested_script_path,
        started_at,
        finished_at,
        shared_context: invocation.shared_context,
        continue_on_error: invocation.continue_on_error,
        summary,
        steps,
        error: None,
        result_text: result_text.to_string(),
    }
}

} // verus!
