//! The scripts of a workspace as listed: ordered by name, filtered to those that
//! can be run, and looked up by name.

use vstd::prelude::*;

use crate::text::{
    eq_ignore_ascii_case, lemma_text_less_asymmetric, lemma_text_less_transitive, lower_seq,
    opt_string_view, str_less, text_less, trim, trim_seq,
};
use crate::workflow_render::{workflow_root_shown, workflow_root_text, WorkflowScriptSummary};
use crate::workflow_validation::WorkflowValidationSummary;

verus! {

/// Something listed under a name.
pub trait NamedEntry: Sized {
    /// The name it is listed under.
    spec fn entry_name(&self) -> Seq<char>;

    /// The name it is listed under.
    fn name_text(&self) -> (res: &str)
        ensures
            res@ == self.entry_name(),
    ;
}

impl NamedEntry for WorkflowScriptSummary {
    open spec fn entry_name(&self) -> Seq<char> {
        self.name@
    }

    fn name_text(&self) -> (res: &str) {
        self.name.as_str()
    }
}

impl NamedEntry for WorkflowValidationSummary {
    open spec fn entry_name(&self) -> Seq<char> {
        self.name@
    }

    fn name_text(&self) -> (res: &str) {
        self.name.as_str()
    }
}

/// Where `x` goes in `s`: before the first entry, from `k` on, whose name comes
/// after its name; at the end when there is none.
pub open spec fn name_pos<T: NamedEntry>(s: Seq<T>, x: T, k: int) -> int
    decreases s.len() - k,
{
    if k >= s.len() {
        s.len() as int
    } else if text_less(x.entry_name(), s[k].entry_name()) {
        k
    } else {
        name_pos(s, x, k + 1)
    }
}

/// The entries of `s` ordered by name; entries with the same name keep their order.
pub open spec fn sorted_by_name<T: NamedEntry>(s: Seq<T>) -> Seq<T>
    decreases s.len(),
{
    if s.len() == 0 {
        s
    } else {
        let prev = sorted_by_name(s.drop_last());
        prev.insert(name_pos(prev, s.last(), 0), s.last())
    }
}

/// Whether no entry of `s` has a name that comes before the name of an entry
/// ahead of it.
pub open spec fn names_ordered<T: NamedEntry>(s: Seq<T>) -> bool {
    forall|i: int, j: int|
        0 <= i < j < s.len() ==> !text_less(#[trigger] s[j].entry_name(), #[trigger] s[i].entry_name())
}

proof fn lemma_name_pos<T: NamedEntry>(s: Seq<T>, x: T, k: int)
    requires
        0 <= k <= s.len(),
    ensures
        k <= name_pos(s, x, k) <= s.len(),
        forall|m: int| k <= m < name_pos(s, x, k) ==> !text_less(x.entry_name(), #[trigger] s[m].entry_name()),
        name_pos(s, x, k) < s.len() ==> text_less(x.entry_name(), s[name_pos(s, x, k)].entry_name()),
    decreases s.len() - k,
{
    if k < s.len() && !text_less(x.entry_name(), s[k].entry_name()) {
        lemma_name_pos(s, x, k + 1);
    }
}

/// Law: listing by name orders the entries by name and keeps every entry.
pub proof fn lemma_sorted_by_name<T: NamedEntry>(s: Seq<T>)
    ensures
        names_ordered(sorted_by_name(s)),
        sorted_by_name(s).to_multiset() == s.to_multiset(),
    decreases s.len(),
{
    if s.len() > 0 {
        let prev = sorted_by_name(s.drop_last());
        let x = s.last();
        lemma_sorted_by_name(s.drop_last());
        let p = name_pos(prev, x, 0);
        lemma_name_pos(prev, x, 0);
        let t = prev.insert(p, x);
        assert forall|i: int, j: int| 0 <= i < j < t.len() implies !text_less(
            #[trigger] t[j].entry_name(),
            #[trigger] t[i].entry_name(),
        ) by {
            if j < p {
                assert(t[i] == prev[i] && t[j] == prev[j]);
            } else if j == p {
                assert(t[j] == x && t[i] == prev[i]);
            } else if i < p {
                assert(t[i] == prev[i] && t[j] == prev[j - 1]);
            } else if i == p {
                assert(t[i] == x && t[j] == prev[j - 1]);
                if text_less(prev[j - 1].entry_name(), x.entry_name()) {
                    if j - 1 == p {
                        lemma_text_less_asymmetric(x.entry_name(), prev[p].entry_name());
                    } else {
                        lemma_text_less_transitive(prev[j - 1].entry_name(), x.entry_name(), prev[p].entry_name());
                    }
                }
            } else {
                assert(t[i] == prev[i - 1] && t[j] == prev[j - 1]);
            }
        }
        vstd::seq_lib::to_multiset_insert(prev, p, x);
        vstd::seq_lib::to_multiset_build(s.drop_last(), x);
        assert(s.drop_last().push(x) =~= s);
    }
}

/// Orders entries by name (code-point order); entries with the same name keep
/// their order.
pub fn sort_by_name<T: NamedEntry>(entries: Vec<T>) -> (res: Vec<T>)
    ensures
        res@ == sorted_by_name(entries@),
{
    let ghost all = entries@;
    let mut rest = entries;
    let mut sorted: Vec<T> = Vec::new();
    let n = rest.len();
    let mut i: usize = 0;
    while i < n
        invariant
            n == all.len(),
            i <= n,
            rest@ == all.subrange(i as int, n as int),
            sorted@ == sorted_by_name(all.take(i as int)),
        decreases n - i,
    {
        let x = rest.remove(0);
        assert(x == all[i as int]);
        assert(all.take(i + 1).drop_last() =~= all.take(i as int));
        let mut k: usize = 0;
        while k < sorted.len() && !str_less(x.name_text(), sorted[k].name_text())
            invariant
                k <= sorted@.len(),
                name_pos(sorted@, x, 0) == name_pos(sorted@, x, k as int),
            decreases sorted@.len() - k,
        {
            k = k + 1;
        }
        assert(name_pos(sorted@, x, k as int) == k);
        sorted.insert(k, x);
        assert(rest@ =~= all.subrange(i + 1, n as int));
        i = i + 1;
    }
    assert(all.take(n as int) =~= all);
    sorted
}

/// Whether a listed script can be run as `/<name>`: it was read without error and
/// its name allows it.
pub open spec fn runnable(w: WorkflowScriptSummary) -> bool {
    w.validation_error is None && w.dynamic_command
}

/// The scripts of a listing that can be run as `/<name>`, in listing order.
pub fn invocable_workflows(workflows: Vec<WorkflowScriptSummary>) -> (res: Vec<WorkflowScriptSummary>)
    ensures
        res@ == workflows@.filter(|w: WorkflowScriptSummary| runnable(w)),
{
    let ghost all = workflows@;
    let mut rest = workflows;
    let mut kept: Vec<WorkflowScriptSummary> = Vec::new();
    let n = rest.len();
    let mut i: usize = 0;
    while i < n
        invariant
            n == all.len(),
            i <= n,
            rest@ == all.subrange(i as int, n as int),
            kept@ == all.take(i as int).filter(|w: WorkflowScriptSummary| runnable(w)),
        decreases n - i,
    {
        let w = rest.remove(0);
        assert(w == all[i as int]);
        proof {
            reveal(Seq::filter);
            assert(all.take(i + 1).drop_last() =~= all.take(i as int));
        }
        let keep = w.validation_error.is_none() && w.dynamic_command;
        if keep {
            kept.push(w);
        }
        assert(rest@ =~= all.subrange(i + 1, n as int));
        i = i + 1;
    }
    assert(all.take(n as int) =~= all);
    kept
}

/// The first position from `k` on of a script read without error whose name
/// equals `name` up to ASCII case.
pub open spec fn named_index(workflows: Seq<WorkflowScriptSummary>, name: Seq<char>, k: int) -> Option<int>
    decreases workflows.len() - k,
{
    if k >= workflows.len() {
        None
    } else if workflows[k].validation_error is None && lower_seq(workflows[k].name@) == lower_seq(name) {
        Some(k)
    } else {
        named_index(workflows, name, k + 1)
    }
}

/// The script a name stands for: the first script of the listing read without
/// error whose name equals the trimmed name up to ASCII case; none for a blank name.
pub open spec fn resolve_named_spec(workflows: Seq<WorkflowScriptSummary>, name: Seq<char>) -> Option<Seq<char>> {
    let t = trim_seq(name);
    if t.len() == 0 {
        None
    } else {
        match named_index(workflows, t, 0) {
            Some(i) => Some(workflows[i].name@),
            None => None,
        }
    }
}

/// The name of the script a name stands for in a listing.
pub fn resolve_named_workflow(workflows: &Vec<WorkflowScriptSummary>, name: &str) -> (res: Option<String>)
    ensures
        opt_string_view(res) == resolve_named_spec(workflows@, name@),
{
    let t = trim(name);
    if t.unicode_len() == 0 {
        return None;
    }
    let mut i: usize = 0;
    while i < workflows.len()
        invariant
            t@ == trim_seq(name@),
            t@.len() > 0,
            i <= workflows@.len(),
            named_index(workflows@, t@, 0) == named_index(workflows@, t@, i as int),
        decreases workflows@.len() - i,
    {
        let w = &workflows[i];
        if w.validation_error.is_none() && eq_ignore_ascii_case(w.name.as_str(), t.as_str()) {
            assert(named_index(workflows@, t@, i as int) == Some(i as int));
            let found = w.name.clone();
            assert(found@ == workflows@[i as int].name@);
            return Some(found);
        }
        i = i + 1;
    }
    None
}

/// The message for a name that no readable script of the workspace has.
pub open spec fn not_found_message(name: Seq<char>, root: Seq<char>) -> Seq<char> {
    "workflow `"@ + name + "` was not found under `"@ + workflow_root_text(root) + "`"@
}

/// The name of the existing script a name stands for, or why there is none.
pub fn resolve_existing_workflow_name(workflows: &Vec<WorkflowScriptSummary>, name: &str, root: &str) -> (res:
    Result<String, String>)
    ensures
        match resolve_named_spec(workflows@, name@) {
            Some(found) => res matches Ok(n) && n@ == found,
            None => res matches Err(m) && m@ == not_found_message(name@, root@),
        },
{
    match resolve_named_workflow(workflows, name) {
        Some(found) => Ok(found),
        None => {
            let mut m = "workflow `".to_string();
            m.append(name);
            m.append("` was not found under `");
            m.append(workflow_root_shown(root).as_str());
            m.append("`");
            Err(m)
        },
    }
}

} // verus!
