//! Editing a workflow script: its steps (adding, changing, duplicating, moving,
//! removing) and its shared context and continue-on-error setting.
//!
//! A script is a JSON object; the values the editing reads (texts, flags, the step
//! list) are held as such, any other JSON value is carried along unchanged.

use vstd::prelude::*;

use crate::named_map::NamedMap;
use crate::step_input::{shortcut_view, ShortcutSpec, WorkflowStepShortcut};
use crate::tasks::normalize_optional_spec;
use crate::text::{decimal, lemma_decimal_digits, opt_string_view, push_decimal, str_eq, trim, trim_seq, views};

verus! {

#[verifier::external_type_specification]
#[verifier::external_body]
pub struct ExJsonValue(serde_json::Value);

#[verifier::external_type_specification]
#[verifier::external_body]
pub struct ExJsonError(serde_json::Error);

/// The JSON value `serde_json` reads from a text, or nothing when the text is not JSON.
pub uninterp spec fn json_parse(text: Seq<char>) -> Option<serde_json::Value>;

/// Parses a JSON value. Calls `serde_json::from_str::<serde_json::Value>`, a function
/// of the text alone; what it reads is named, not spelled out.
#[verifier::external_body]
fn parse_json(text: &str) -> (res: Result<serde_json::Value, serde_json::Error>)
    ensures
        match res {
            Ok(v) => json_parse(text@) == Some(v),
            Err(_) => json_parse(text@) is None,
        },
{
    serde_json::from_str::<serde_json::Value>(text)
}

/// Copies a JSON value. Calls `<serde_json::Value as Clone>::clone`, which the crate
/// derives, so the copy is the same value.
#[verifier::external_body]
fn clone_json(v: &serde_json::Value) -> (res: serde_json::Value)
    ensures
        res == *v,
{
    v.clone()
}

/// A value of a step or script field.
pub enum FieldValue {
    Text(String),
    Flag(bool),
    Json(serde_json::Value),
}

/// A field value with its text as characters.
pub enum FieldView {
    Text(Seq<char>),
    Flag(bool),
    Json(serde_json::Value),
}

/// The view of a field value.
pub open spec fn field_view(f: FieldValue) -> FieldView {
    match f {
        FieldValue::Text(s) => FieldView::Text(s@),
        FieldValue::Flag(b) => FieldView::Flag(b),
        FieldValue::Json(v) => FieldView::Json(v),
    }
}

/// The view of a JSON object's fields.
pub open spec fn object_view(m: Map<Seq<char>, FieldValue>) -> Map<Seq<char>, FieldView> {
    Map::new(|k: Seq<char>| m.contains_key(k), |k: Seq<char>| field_view(m[k]))
}

/// One step of a script: an object, or any other JSON value found in the list.
pub enum StepEntry {
    Object(NamedMap<FieldValue>),
    Other(serde_json::Value),
}

/// The view of a step.
pub enum StepView {
    Object(Map<Seq<char>, FieldView>),
    Other(serde_json::Value),
}

/// The view of a step.
pub open spec fn step_view(s: StepEntry) -> StepView {
    match s {
        StepEntry::Object(m) => StepView::Object(object_view(m@)),
        StepEntry::Other(v) => StepView::Other(v),
    }
}

/// The views of a step list.
pub open spec fn steps_view(v: Seq<StepEntry>) -> Seq<StepView> {
    v.map_values(|s: StepEntry| step_view(s))
}

/// A top-level value of a script.
pub enum DocValue {
    Steps(Vec<StepEntry>),
    Field(FieldValue),
}

/// A workflow script.
pub struct WorkflowDocument {
    pub fields: NamedMap<DocValue>,
}

/// The step list of a script (empty when it has none), or nothing when `steps` is
/// not a list.
pub open spec fn doc_steps(fields: Map<Seq<char>, DocValue>) -> Option<Seq<StepView>> {
    if !fields.contains_key("steps"@) {
        Some(seq![])
    } else {
        match fields["steps"@] {
            DocValue::Steps(v) => Some(steps_view(v@)),
            DocValue::Field(_) => None,
        }
    }
}

/// The name of a step: its `name` field when that is text.
pub open spec fn step_name(s: StepView) -> Option<Seq<char>> {
    match s {
        StepView::Object(m) => if m.contains_key("name"@) {
            match m["name"@] {
                FieldView::Text(t) => Some(t),
                _ => None,
            }
        } else {
            None
        },
        StepView::Other(_) => None,
    }
}

/// Why an edit of a script was refused.
#[derive(Debug)]
pub enum StepEditError {
    /// An insert position outside `1..=max`.
    IndexOutOfRange { index: usize, max: usize },
    /// A step number outside `1..=len`.
    NumberOutOfRange { number: usize, len: usize },
    /// `steps` holds something other than a list.
    StepsNotArray,
    /// The step to change is not an object.
    StepNotObject,
    /// A required text (named by the label) was empty after trimming.
    EmptyField(String),
    /// The `when` condition is not JSON.
    WhenNotJson,
    /// An update named no field.
    EmptyPatch,
}

/// The message shown for a refused edit.
pub open spec fn step_error_text(e: &StepEditError) -> Seq<char> {
    match e {
        StepEditError::IndexOutOfRange { index, max } => "workflow step index `"@ + decimal(
            *index as nat,
        ) + "` is out of range; expected 1..="@ + decimal(*max as nat),
        StepEditError::NumberOutOfRange { number, len } => "workflow step number `"@ + decimal(
            *number as nat,
        ) + "` is out of range; expected 1..="@ + decimal(*len as nat),
        StepEditError::StepsNotArray => "workflow `steps` must be a JSON array"@,
        StepEditError::StepNotObject => "workflow step must be a JSON object"@,
        StepEditError::EmptyField(label) => label@ + " cannot be empty"@,
        StepEditError::WhenNotJson => "failed to parse workflow when condition as JSON"@,
        StepEditError::EmptyPatch => "workflow update-step requires at least one field change"@,
    }
}

impl StepEditError {
    /// The message shown for the refusal.
    pub fn message(&self) -> (res: String)
        ensures
            res@ == step_error_text(self),
    {
        match self {
            StepEditError::IndexOutOfRange { index, max } => {
                let mut m = "workflow step index `".to_owned();
                push_decimal(&mut m, *index as u64);
                m.append("` is out of range; expected 1..=");
                push_decimal(&mut m, *max as u64);
                m
            },
            StepEditError::NumberOutOfRange { number, len } => {
                let mut m = "workflow step number `".to_owned();
                push_decimal(&mut m, *number as u64);
                m.append("` is out of range; expected 1..=");
                push_decimal(&mut m, *len as u64);
                m
            },
            StepEditError::StepsNotArray => "workflow `steps` must be a JSON array".to_owned(),
            StepEditError::StepNotObject => "workflow step must be a JSON object".to_owned(),
            StepEditError::EmptyField(label) => {
                let mut m = label.clone();
                m.append(" cannot be empty");
                m
            },
            StepEditError::WhenNotJson => "failed to parse workflow when condition as JSON".to_owned(),
            StepEditError::EmptyPatch => "workflow update-step requires at least one field change".to_owned(),
        }
    }
}

/// Where a new step goes in a list of `len`: at the end by default, else before the
/// given 1-based position, which may be one past the end.
pub open spec fn insert_index_spec(index: Option<usize>, len: usize) -> Result<int, (usize, usize)> {
    match index {
        None => Ok(len as int),
        Some(i) => if i == 0 || i > len + 1 {
            Err((i, (len + 1) as usize))
        } else {
            Ok(i - 1)
        },
    }
}

/// Where a new step goes in a list of `len`.
pub fn normalize_insert_index(index: Option<usize>, len: usize) -> (res: Result<usize, StepEditError>)
    requires
        len < usize::MAX,
    ensures
        match insert_index_spec(index, len) {
            Ok(i) => res matches Ok(r) && r == i,
            Err((i, m)) => res matches Err(e) && (e matches StepEditError::IndexOutOfRange {
                index,
                max,
            } && index == i && max == m),
        },
{
    match index {
        None => Ok(len),
        Some(i) => if i == 0 || i > len + 1 {
            Err(StepEditError::IndexOutOfRange { index: i, max: len + 1 })
        } else {
            Ok(i - 1)
        },
    }
}

/// The 0-based position of an existing 1-based step number.
pub fn normalize_existing_index(step_number: usize, len: usize) -> (res: Result<usize, StepEditError>)
    ensures
        1 <= step_number <= len ==> res == Ok::<usize, StepEditError>((step_number - 1) as usize),
        !(1 <= step_number <= len) ==> (res matches Err(e) && (e matches StepEditError::NumberOutOfRange {
            number,
            len: l,
        } && number == step_number && l == len)),
{
    if step_number == 0 || step_number > len {
        return Err(StepEditError::NumberOutOfRange { number: step_number, len });
    }
    Ok(step_number - 1)
}

impl FieldValue {
    /// A copy of the value.
    pub fn duplicate(&self) -> (res: FieldValue)
        ensures
            field_view(res) == field_view(*self),
    {
        match self {
            FieldValue::Text(s) => FieldValue::Text(s.clone()),
            FieldValue::Flag(b) => FieldValue::Flag(*b),
            FieldValue::Json(v) => FieldValue::Json(clone_json(v)),
        }
    }
}

/// A field's entry in an object view, if present.
pub open spec fn entry_of(m: Map<Seq<char>, FieldView>, k: Seq<char>) -> Option<FieldView> {
    if m.contains_key(k) {
        Some(m[k])
    } else {
        None
    }
}

/// The entry of a text field after a change: unchanged without one, else the
/// trimmed text, or no entry when that is empty or the change clears it.
pub open spec fn text_change(old: Option<FieldView>, change: Option<Option<Seq<char>>>) -> Option<FieldView> {
    match change {
        None => old,
        Some(v) => match normalize_optional_spec(v) {
            Some(t) => Some(FieldView::Text(t)),
            None => None,
        },
    }
}

/// The view of a text change.
pub open spec fn change_view(c: Option<Option<String>>) -> Option<Option<Seq<char>>> {
    match c {
        Some(v) => Some(opt_string_view(v)),
        None => None,
    }
}

proof fn lemma_object_insert(m: Map<Seq<char>, FieldValue>, k: Seq<char>, v: FieldValue)
    ensures
        object_view(m.insert(k, v)) == object_view(m).insert(k, field_view(v)),
{
    assert(object_view(m.insert(k, v)) =~= object_view(m).insert(k, field_view(v)));
}

proof fn lemma_object_remove(m: Map<Seq<char>, FieldValue>, k: Seq<char>)
    ensures
        object_view(m.remove(k)) == object_view(m).remove(k),
{
    assert(object_view(m.remove(k)) =~= object_view(m).remove(k));
}

/// Whether `after` has the entries of `before` at every key but `key`.
pub open spec fn only_key_changed(
    before: Map<Seq<char>, FieldView>,
    after: Map<Seq<char>, FieldView>,
    key: Seq<char>,
) -> bool {
    forall|k: Seq<char>| k != key ==> #[trigger] entry_of(after, k) == entry_of(before, k)
}

/// Sets a text field of an object as a change says.
fn set_text_field(object: &mut NamedMap<FieldValue>, key: &str, change: Option<Option<String>>)
    ensures
        only_key_changed(object_view(old(object)@), object_view(final(object)@), key@),
        entry_of(object_view(final(object)@), key@) == text_change(
            entry_of(object_view(old(object)@), key@),
            change_view(change),
        ),
{
    let ghost before = object@;
    match change {
        None => {},
        Some(v) => {
            let normalized = crate::tasks::normalize_optional_text(v);
            match normalized {
                Some(t) => {
                    let value = FieldValue::Text(t);
                    let ghost g = value;
                    object.insert(key.to_owned(), value);
                    proof {
                        lemma_object_insert(before, key@, g);
                    }
                },
                None => {
                    let _ = object.take(key);
                    proof {
                        lemma_object_remove(before, key@);
                    }
                },
            }
        },
    }
}

/// The names of the steps that have one, in list order.
pub open spec fn names_of(s: Seq<StepView>) -> Seq<Seq<char>>
    decreases s.len(),
{
    if s.len() == 0 {
        seq![]
    } else {
        names_of(s.drop_last()) + match step_name(s.last()) {
            Some(n) => seq![n],
            None => seq![],
        }
    }
}

proof fn lemma_names_of(s: Seq<StepView>)
    ensures
        names_of(s).len() <= s.len(),
        forall|x: Seq<char>|
            names_of(s).contains(x) <==> exists|i: int|
                0 <= i < s.len() && #[trigger] step_name(s[i]) == Some(x),
    decreases s.len(),
{
    if s.len() > 0 {
        let rest = s.drop_last();
        lemma_names_of(rest);
        let tail: Seq<Seq<char>> = match step_name(s.last()) {
            Some(n) => seq![n],
            None => seq![],
        };
        assert forall|x: Seq<char>|
            names_of(s).contains(x) <==> exists|i: int|
                0 <= i < s.len() && #[trigger] step_name(s[i]) == Some(x) by {
            if names_of(s).contains(x) {
                let k = choose|k: int| 0 <= k < names_of(s).len() && names_of(s)[k] == x;
                if k < names_of(rest).len() {
                    assert(names_of(rest)[k] == x);
                    assert(names_of(rest).contains(x));
                    let i = choose|i: int| 0 <= i < rest.len() && #[trigger] step_name(rest[i]) == Some(x);
                    assert(s[i] == rest[i]);
                } else {
                    assert(step_name(s[s.len() - 1]) == Some(x));
                }
            }
            if exists|i: int| 0 <= i < s.len() && #[trigger] step_name(s[i]) == Some(x) {
                let i = choose|i: int| 0 <= i < s.len() && #[trigger] step_name(s[i]) == Some(x);
                if i < rest.len() {
                    assert(rest[i] == s[i]);
                    assert(names_of(rest).contains(x));
                    let k = choose|k: int| 0 <= k < names_of(rest).len() && names_of(rest)[k] == x;
                    assert(names_of(s)[k] == x);
                } else {
                    assert(names_of(s)[names_of(rest).len() as int] == x);
                }
            }
        }
    }
}

/// The `k`-th name tried for a copy of a step named `name`: `<name> copy`, then
/// `<name> copy 2`, `<name> copy 3`, and so on.
pub open spec fn dup_candidate(name: Seq<char>, k: nat) -> Seq<char> {
    if k <= 1 {
        name + " copy"@
    } else {
        name + " copy "@ + decimal(k)
    }
}

/// The name a copy of a step named `name` gets: the first candidate that no step of
/// the list is named.
pub open spec fn is_first_free_candidate(name: Seq<char>, steps: Seq<StepView>, k: nat) -> bool {
    &&& k >= 1
    &&& !names_of(steps).contains(dup_candidate(name, k))
    &&& forall|j: nat| 1 <= j < k ==> names_of(steps).contains(#[trigger] dup_candidate(name, j))
}

proof fn lemma_candidates_distinct(name: Seq<char>, j: nat, k: nat)
    requires
        1 <= j < k,
    ensures
        dup_candidate(name, j) != dup_candidate(name, k),
{
    reveal_strlit(" copy");
    reveal_strlit(" copy ");
    lemma_decimal_digits(k);
    if j == 1 {
        assert(dup_candidate(name, j).len() < dup_candidate(name, k).len());
    } else {
        lemma_decimal_digits(j);
        if dup_candidate(name, j) == dup_candidate(name, k) {
            let a = dup_candidate(name, j);
            let b = dup_candidate(name, k);
            let start = name.len() + 6;
            assert(a.subrange(start as int, a.len() as int) =~= decimal(j));
            assert(b.subrange(start as int, b.len() as int) =~= decimal(k));
        }
    }
}

/// The first `m` candidates.
pub open spec fn candidates(name: Seq<char>, m: nat) -> Seq<Seq<char>> {
    Seq::new(m, |i: int| dup_candidate(name, (i + 1) as nat))
}

/// If the first `m` candidates are all taken, the list has at least `m` names.
proof fn lemma_taken_candidates_bound(name: Seq<char>, steps: Seq<StepView>, m: nat)
    requires
        forall|j: nat| 1 <= j <= m ==> names_of(steps).contains(#[trigger] dup_candidate(name, j)),
    ensures
        m <= steps.len(),
{
    let c = candidates(name, m);
    let existing = names_of(steps);
    lemma_names_of(steps);
    assert(c.no_duplicates()) by {
        assert forall|a: int, b: int| 0 <= a < c.len() && 0 <= b < c.len() && a != b implies c[a]
            != c[b] by {
            if a < b {
                lemma_candidates_distinct(name, (a + 1) as nat, (b + 1) as nat);
            } else {
                lemma_candidates_distinct(name, (b + 1) as nat, (a + 1) as nat);
            }
        }
    }
    c.unique_seq_to_set();
    existing.lemma_cardinality_of_set();
    assert(c.to_set().subset_of(existing.to_set())) by {
        assert forall|x: Seq<char>| c.to_set().contains(x) implies existing.to_set().contains(x) by {
            let i = choose|i: int| 0 <= i < c.len() && c[i] == x;
            assert(names_of(steps).contains(dup_candidate(name, (i + 1) as nat)));
        }
    }
    vstd::set_lib::lemma_len_subset(c.to_set(), existing.to_set());
}

fn contains_text(list: &Vec<String>, x: &str) -> (res: bool)
    ensures
        res == views(list@).contains(x@),
{
    let mut i: usize = 0;
    while i < list.len()
        invariant
            i <= list@.len(),
            forall|j: int| 0 <= j < i ==> list@[j]@ != x@,
        decreases list@.len() - i,
    {
        if str_eq(list[i].as_str(), x) {
            assert(views(list@)[i as int] == x@);
            return true;
        }
        i = i + 1;
    }
    assert(!views(list@).contains(x@)) by {
        if views(list@).contains(x@) {
            let k = choose|k: int| 0 <= k < views(list@).len() && views(list@)[k] == x@;
            assert(list@[k]@ == x@);
        }
    }
    false
}

/// The name of a step, if it has a text one.
fn entry_name(step: &StepEntry) -> (res: Option<String>)
    ensures
        opt_string_view(res) == step_name(step_view(*step)),
{
    match step {
        StepEntry::Object(m) => match m.get("name") {
            Some(FieldValue::Text(t)) => Some(t.clone()),
            _ => None,
        },
        StepEntry::Other(_) => None,
    }
}

fn step_names(steps: &Vec<StepEntry>) -> (res: Vec<String>)
    ensures
        views(res@) == names_of(steps_view(steps@)),
{
    let ghost sv = steps_view(steps@);
    let mut names: Vec<String> = Vec::new();
    let mut i: usize = 0;
    while i < steps.len()
        invariant
            sv == steps_view(steps@),
            i <= steps@.len(),
            views(names@) == names_of(sv.take(i as int)),
        decreases steps@.len() - i,
    {
        assert(sv.take(i + 1).drop_last() =~= sv.take(i as int));
        let ghost prev = names@;
        match entry_name(&steps[i]) {
            Some(n) => {
                names.push(n);
                assert(views(names@) =~= views(prev) + seq![sv[i as int]->Object_0["name"@]->Text_0]);
            },
            None => {},
        }
        assert(views(names@) =~= names_of(sv.take(i + 1)));
        i = i + 1;
    }
    assert(sv.take(i as int) =~= sv);
    names
}

/// The name for a copy of a step named `name`: the first of `<name> copy`,
/// `<name> copy 2`, … that no step of the list has.
pub fn unique_duplicate_name(name: &str, steps: &Vec<StepEntry>) -> (res: String)
    requires
        steps@.len() < usize::MAX,
    ensures
        exists|k: nat|
            is_first_free_candidate(name@, steps_view(steps@), k) && res@ == dup_candidate(
                name@,
                k,
            ),
{
    let existing = step_names(steps);
    let ghost sv = steps_view(steps@);
    let mut suffix: usize = 1;
    loop
        invariant
            views(existing@) == names_of(sv),
            sv == steps_view(steps@),
            1 <= suffix <= steps@.len() + 1,
            steps@.len() < usize::MAX,
            forall|j: nat| 1 <= j < suffix ==> names_of(sv).contains(#[trigger] dup_candidate(name@, j)),
        decreases steps@.len() + 1 - suffix,
    {
        let mut candidate = name.to_owned();
        if suffix == 1 {
            candidate.append(" copy");
        } else {
            candidate.append(" copy ");
            push_decimal(&mut candidate, suffix as u64);
        }
        assert(candidate@ == dup_candidate(name@, suffix as nat));
        if !contains_text(&existing, candidate.as_str()) {
            assert(is_first_free_candidate(name@, sv, suffix as nat));
            return candidate;
        }
        proof {
            lemma_taken_candidates_bound(name@, sv, suffix as nat);
            assert(sv.len() == steps@.len());
        }
        assert(suffix <= steps@.len());
        suffix = suffix + 1;
    }
}

/// A new step as typed: its prompt is required, the rest optional.
pub struct WorkflowStepDraft {
    pub name: Option<String>,
    pub prompt: String,
    pub when: Option<String>,
    pub model: Option<String>,
    pub backend: Option<String>,
    pub step_cwd: Option<String>,
    pub run_in_background: bool,
}

/// Field changes for one step; `Some(None)` clears an optional field.
pub struct WorkflowStepPatch {
    pub name: Option<Option<String>>,
    pub prompt: Option<String>,
    pub when: Option<Option<String>>,
    pub model: Option<Option<String>>,
    pub backend: Option<Option<String>>,
    pub step_cwd: Option<Option<String>>,
    pub run_in_background: Option<bool>,
}

impl Default for WorkflowStepPatch {
    fn default() -> (res: Self)
        ensures
            res.name is None && res.prompt is None && res.when is None && res.model is None
                && res.backend is None && res.step_cwd is None && res.run_in_background is None,
    {
        WorkflowStepPatch {
            name: None,
            prompt: None,
            when: None,
            model: None,
            backend: None,
            step_cwd: None,
            run_in_background: None,
        }
    }
}

impl WorkflowStepPatch {
    /// Whether the patch changes nothing.
    pub fn is_empty(&self) -> (res: bool)
        ensures
            res == (self.name is None && self.prompt is None && self.when is None && self.model
                is None && self.backend is None && self.step_cwd is None
                && self.run_in_background is None),
    {
        self.name.is_none() && self.prompt.is_none() && self.when.is_none() && self.model.is_none()
            && self.backend.is_none() && self.step_cwd.is_none()
            && self.run_in_background.is_none()
    }
}

/// The fields a step edit may touch.
pub open spec fn is_step_key(k: Seq<char>) -> bool {
    k == "name"@ || k == "prompt"@ || k == "when"@ || k == "model"@ || k == "backend"@ || k
        == "cwd"@ || k == "run_in_background"@
}

/// Whether a `when` change can be applied: a non-blank value must be JSON.
pub open spec fn when_change_valid(change: Option<Option<Seq<char>>>) -> bool {
    match change {
        Some(v) => match normalize_optional_spec(v) {
            Some(t) => json_parse(t) is Some,
            None => true,
        },
        None => true,
    }
}

/// The `when` entry after a change: unchanged without one, gone when cleared or
/// blank, else the JSON value the trimmed text reads as.
pub open spec fn when_entry_ok(old: Option<FieldView>, new: Option<FieldView>, change: Option<Option<Seq<char>>>) -> bool {
    match change {
        None => new == old,
        Some(v) => match normalize_optional_spec(v) {
            None => new is None,
            Some(t) => match json_parse(t) {
                Some(j) => new == Some(FieldView::Json(j)),
                None => false,
            },
        },
    }
}

/// The run mode entry after a change: `true` is stored, `false` removes it.
pub open spec fn flag_change(old: Option<FieldView>, change: Option<bool>) -> Option<FieldView> {
    match change {
        None => old,
        Some(true) => Some(FieldView::Flag(true)),
        Some(false) => None,
    }
}

/// Whether `new` is `old` with a patch applied.
pub open spec fn patched_fields(old: Map<Seq<char>, FieldView>, new: Map<Seq<char>, FieldView>, patch: &WorkflowStepPatch) -> bool {
    &&& forall|k: Seq<char>| !is_step_key(k) ==> #[trigger] entry_of(new, k) == entry_of(old, k)
    &&& entry_of(new, "name"@) == text_change(entry_of(old, "name"@), change_view(patch.name))
    &&& entry_of(new, "prompt"@) == match patch.prompt {
        Some(p) => Some(FieldView::Text(trim_seq(p@))),
        None => entry_of(old, "prompt"@),
    }
    &&& when_entry_ok(entry_of(old, "when"@), entry_of(new, "when"@), change_view(patch.when))
    &&& entry_of(new, "model"@) == text_change(entry_of(old, "model"@), change_view(patch.model))
    &&& entry_of(new, "backend"@) == text_change(entry_of(old, "backend"@), change_view(patch.backend))
    &&& entry_of(new, "cwd"@) == text_change(entry_of(old, "cwd"@), change_view(patch.step_cwd))
    &&& entry_of(new, "run_in_background"@) == flag_change(
        entry_of(old, "run_in_background"@),
        patch.run_in_background,
    )
}

/// Whether a patch sets a blank prompt.
pub open spec fn blank_prompt(patch: &WorkflowStepPatch) -> bool {
    patch.prompt matches Some(p) && trim_seq(p@).len() == 0
}

/// Whether a patch can be applied to a step object, and the error when not: a blank
/// prompt first, then a `when` that is not JSON.
pub open spec fn patch_error(patch: &WorkflowStepPatch) -> Option<StepEditError> {
    if blank_prompt(patch) {
        Some(StepEditError::EmptyField(arbitrary()))
    } else if !when_change_valid(change_view(patch.when)) {
        Some(StepEditError::WhenNotJson)
    } else {
        None
    }
}

fn set_json_value(object: &mut NamedMap<FieldValue>, key: &str, change: Option<Option<serde_json::Value>>)
    ensures
        only_key_changed(object_view(old(object)@), object_view(final(object)@), key@),
        entry_of(object_view(final(object)@), key@) == match change {
            None => entry_of(object_view(old(object)@), key@),
            Some(None) => None,
            Some(Some(j)) => Some(FieldView::Json(j)),
        },
{
    let ghost before = object@;
    match change {
        None => {},
        Some(Some(j)) => {
            let value = FieldValue::Json(j);
            let ghost g = value;
            object.insert(key.to_owned(), value);
            proof {
                lemma_object_insert(before, key@, g);
            }
        },
        Some(None) => {
            let _ = object.take(key);
            proof {
                lemma_object_remove(before, key@);
            }
        },
    }
}

fn set_flag_field(object: &mut NamedMap<FieldValue>, key: &str, change: Option<bool>)
    ensures
        only_key_changed(object_view(old(object)@), object_view(final(object)@), key@),
        entry_of(object_view(final(object)@), key@) == flag_change(
            entry_of(object_view(old(object)@), key@),
            change,
        ),
{
    let ghost before = object@;
    match change {
        None => {},
        Some(true) => {
            let value = FieldValue::Flag(true);
            let ghost g = value;
            object.insert(key.to_owned(), value);
            proof {
                lemma_object_insert(before, key@, g);
            }
        },
        Some(false) => {
            let _ = object.take(key);
            proof {
                lemma_object_remove(before, key@);
            }
        },
    }
}

/// The fields a step edit touches have different names.
proof fn lemma_step_keys_distinct()
    ensures
        "name"@ != "prompt"@,
        "name"@ != "when"@,
        "name"@ != "model"@,
        "name"@ != "backend"@,
        "name"@ != "cwd"@,
        "name"@ != "run_in_background"@,
        "prompt"@ != "when"@,
        "prompt"@ != "model"@,
        "prompt"@ != "backend"@,
        "prompt"@ != "cwd"@,
        "prompt"@ != "run_in_background"@,
        "when"@ != "model"@,
        "when"@ != "backend"@,
        "when"@ != "cwd"@,
        "when"@ != "run_in_background"@,
        "model"@ != "backend"@,
        "model"@ != "cwd"@,
        "model"@ != "run_in_background"@,
        "backend"@ != "cwd"@,
        "backend"@ != "run_in_background"@,
        "cwd"@ != "run_in_background"@,
{
    reveal_strlit("name");
    reveal_strlit("prompt");
    reveal_strlit("when");
    reveal_strlit("model");
    reveal_strlit("backend");
    reveal_strlit("cwd");
    reveal_strlit("run_in_background");
    assert("name"@.len() == 4);
    assert("prompt"@.len() == 6);
    assert("when"@.len() == 4);
    assert("model"@.len() == 5);
    assert("backend"@.len() == 7);
    assert("cwd"@.len() == 3);
    assert("run_in_background"@.len() == 17);
    assert("name"@[0] != "when"@[0]);
}

/// The seven field updates of a step patch, each touching only its own field, compose:
/// every other field keeps its first entry, and each step field ends with the entry its
/// own update gave it, made from the entry it had at the start.
proof fn lemma_step_updates_compose(
    o0: Map<Seq<char>, FieldView>,
    o1: Map<Seq<char>, FieldView>,
    o2: Map<Seq<char>, FieldView>,
    o3: Map<Seq<char>, FieldView>,
    o4: Map<Seq<char>, FieldView>,
    o5: Map<Seq<char>, FieldView>,
    o6: Map<Seq<char>, FieldView>,
    o7: Map<Seq<char>, FieldView>,
)
    requires
        only_key_changed(o0, o1, "name"@),
        only_key_changed(o1, o2, "prompt"@),
        only_key_changed(o2, o3, "when"@),
        only_key_changed(o3, o4, "model"@),
        only_key_changed(o4, o5, "backend"@),
        only_key_changed(o5, o6, "cwd"@),
        only_key_changed(o6, o7, "run_in_background"@),
    ensures
        forall|k: Seq<char>| !is_step_key(k) ==> #[trigger] entry_of(o7, k) == entry_of(o0, k),
        entry_of(o7, "name"@) == entry_of(o1, "name"@),
        entry_of(o7, "prompt"@) == entry_of(o2, "prompt"@),
        entry_of(o1, "prompt"@) == entry_of(o0, "prompt"@),
        entry_of(o7, "when"@) == entry_of(o3, "when"@),
        entry_of(o2, "when"@) == entry_of(o0, "when"@),
        entry_of(o7, "model"@) == entry_of(o4, "model"@),
        entry_of(o3, "model"@) == entry_of(o0, "model"@),
        entry_of(o7, "backend"@) == entry_of(o5, "backend"@),
        entry_of(o4, "backend"@) == entry_of(o0, "backend"@),
        entry_of(o7, "cwd"@) == entry_of(o6, "cwd"@),
        entry_of(o5, "cwd"@) == entry_of(o0, "cwd"@),
        entry_of(o6, "run_in_background"@) == entry_of(o0, "run_in_background"@),
{
    lemma_step_keys_distinct();
}

/// Applies a patch to the fields of a step.
fn patch_object(object: &mut NamedMap<FieldValue>, patch: WorkflowStepPatch) -> (res: Result<
    (),
    StepEditError,
>)
    ensures
        blank_prompt(&patch) ==> (res matches Err(e) && (e matches StepEditError::EmptyField(l) && l@
            == "workflow prompt"@)),
        !blank_prompt(&patch) && !when_change_valid(change_view(patch.when)) ==> (res matches Err(
            e,
        ) && e is WhenNotJson),
        patch_error(&patch) is None ==> (res is Ok && patched_fields(
            object_view(old(object)@),
            object_view(final(object)@),
            &patch,
        )),
        res is Err ==> final(object)@ == old(object)@,
{
    proof {
        reveal_strlit("name");
        reveal_strlit("prompt");
        reveal_strlit("when");
        reveal_strlit("model");
        reveal_strlit("backend");
        reveal_strlit("cwd");
        reveal_strlit("run_in_background");
    }
    proof {
        lemma_step_keys_distinct();
    }
    let prompt_value = match patch.prompt {
        Some(prompt) => {
            let t = trim(prompt.as_str());
            if t.as_str().unicode_len() == 0 {
                return Err(StepEditError::EmptyField("workflow prompt".to_owned()));
            }
            Some(t)
        },
        None => None,
    };
    let when_value = match patch.when {
        None => None,
        Some(v) => match crate::tasks::normalize_optional_text(v) {
            Some(t) => match parse_json(t.as_str()) {
                Ok(j) => Some(Some(j)),
                Err(_) => return Err(StepEditError::WhenNotJson),
            },
            None => Some(None),
        },
    };
    let ghost o0 = object_view(object@);
    set_text_field(object, "name", patch.name);
    let ghost o1 = object_view(object@);
    match prompt_value {
        Some(t) => {
            let ghost before = object@;
            let value = FieldValue::Text(t);
            let ghost g = value;
            object.insert("prompt".to_owned(), value);
            proof {
                lemma_object_insert(before, "prompt"@, g);
            }
        },
        None => {},
    }
    let ghost o2 = object_view(object@);
    set_json_value(object, "when", when_value);
    let ghost o3 = object_view(object@);
    set_text_field(object, "model", patch.model);
    let ghost o4 = object_view(object@);
    set_text_field(object, "backend", patch.backend);
    let ghost o5 = object_view(object@);
    set_text_field(object, "cwd", patch.step_cwd);
    let ghost o6 = object_view(object@);
    set_flag_field(object, "run_in_background", patch.run_in_background);
    let ghost o7 = object_view(object@);
    proof {
        lemma_step_updates_compose(o0, o1, o2, o3, o4, o5, o6, o7);
    }
    Ok(())
}

fn clone_object(m: &NamedMap<FieldValue>) -> (res: NamedMap<FieldValue>)
    ensures
        object_view(res@) == object_view(m@),
{
    let n = m.len();
    let mut out: NamedMap<FieldValue> = NamedMap::new();
    let mut i: usize = 0;
    while i < n
        invariant
            n == m.names().len(),
            forall|k: Seq<char>| #[trigger] m@.contains_key(k) <==> m.names().contains(k),
            i <= n,
            forall|k: Seq<char>| #[trigger] out@.contains_key(k) <==> m.names().take(i as int).contains(k),
            forall|k: Seq<char>| out@.contains_key(k) ==> field_view(#[trigger] out@[k]) == field_view(m@[k]),
        decreases n - i,
    {
        let (name, value) = m.entry(i);
        let ghost key = name@;
        let copy = value.duplicate();
        out.insert(name.clone(), copy);
        proof {
            let t0 = m.names().take(i as int);
            let t1 = m.names().take(i + 1);
            assert(t1 =~= t0.push(key));
            assert forall|k: Seq<char>| #[trigger] out@.contains_key(k) <==> t1.contains(k) by {
                if t1.contains(k) && k != key {
                    let j = choose|j: int| 0 <= j < t1.len() && t1[j] == k;
                    assert(t0[j] == k);
                }
                if t0.contains(k) {
                    let j = choose|j: int| 0 <= j < t0.len() && t0[j] == k;
                    assert(t1[j] == k);
                }
                if k == key {
                    assert(t1[i as int] == k);
                }
            }
        }
        i = i + 1;
    }
    proof {
        assert(m.names().take(n as int) =~= m.names());
    }
    assert(object_view(out@) =~= object_view(m@));
    out
}

impl StepEntry {
    /// A copy of the step.
    pub fn duplicate(&self) -> (res: StepEntry)
        ensures
            step_view(res) == step_view(*self),
    {
        match self {
            StepEntry::Object(m) => StepEntry::Object(clone_object(m)),
            StepEntry::Other(v) => StepEntry::Other(clone_json(v)),
        }
    }
}

/// The patch that builds a new step from a draft.
pub open spec fn draft_patch_spec(d: &WorkflowStepDraft) -> WorkflowStepPatch {
    WorkflowStepPatch {
        name: Some(d.name),
        prompt: Some(d.prompt),
        when: Some(d.when),
        model: Some(d.model),
        backend: Some(d.backend),
        step_cwd: Some(d.step_cwd),
        run_in_background: Some(d.run_in_background),
    }
}

/// The step a draft makes, or why it cannot be made: a blank prompt first, then a
/// `when` that is not JSON.
fn draft_to_step(draft: WorkflowStepDraft) -> (res: Result<StepEntry, StepEditError>)
    ensures
        blank_prompt(&draft_patch_spec(&draft)) ==> (res matches Err(e) && (e matches StepEditError::EmptyField(
            l,
        ) && l@ == "workflow prompt"@)),
        !blank_prompt(&draft_patch_spec(&draft)) && !when_change_valid(
            change_view(draft_patch_spec(&draft).when),
        ) ==> (res matches Err(e) && e is WhenNotJson),
        patch_error(&draft_patch_spec(&draft)) is None ==> (res matches Ok(s) && (step_view(s) matches StepView::Object(
            m,
        ) && patched_fields(Map::empty(), m, &draft_patch_spec(&draft)))),
{
    let ghost d = draft;
    let patch = WorkflowStepPatch {
        name: Some(draft.name),
        prompt: Some(draft.prompt),
        when: Some(draft.when),
        model: Some(draft.model),
        backend: Some(draft.backend),
        step_cwd: Some(draft.step_cwd),
        run_in_background: Some(draft.run_in_background),
    };
    assert(patch == draft_patch_spec(&d));
    let mut object: NamedMap<FieldValue> = NamedMap::new();
    assert(object_view(object@) =~= Map::empty());
    match patch_object(&mut object, patch) {
        Ok(()) => Ok(StepEntry::Object(object)),
        Err(e) => Err(e),
    }
}

proof fn lemma_steps_view_insert(v: Seq<StepEntry>, i: int, x: StepEntry)
    requires
        0 <= i <= v.len(),
    ensures
        steps_view(v.insert(i, x)) == steps_view(v).insert(i, step_view(x)),
{
    assert(steps_view(v.insert(i, x)) =~= steps_view(v).insert(i, step_view(x)));
}

proof fn lemma_steps_view_remove(v: Seq<StepEntry>, i: int)
    requires
        0 <= i < v.len(),
    ensures
        steps_view(v.remove(i)) == steps_view(v).remove(i),
{
    assert(steps_view(v.remove(i)) =~= steps_view(v).remove(i));
}

/// The error a number outside `1..=len` gives.
pub open spec fn number_error(res_err: StepEditError, number: usize, len: int) -> bool {
    res_err matches StepEditError::NumberOutOfRange { number: n, len: l } && n == number && l == len
}

/// The outcome of `insert_step`: what it returns and the step list it leaves.
pub open spec fn insert_outcome(before: Seq<StepView>, after: Seq<StepView>, draft: &WorkflowStepDraft, index: Option<usize>, res: Result<usize, StepEditError>) -> bool {
    match insert_index_spec(index, before.len() as usize) {
        Err((i, m)) => res matches Err(e) && (e matches StepEditError::IndexOutOfRange {
            index: a,
            max: b,
        } && a == i && b == m),
        Ok(at) => match patch_error(&draft_patch_spec(draft)) {
            Some(StepEditError::EmptyField(_)) => res matches Err(e) && (e matches StepEditError::EmptyField(
                l,
            ) && l@ == "workflow prompt"@),
            Some(_) => res matches Err(e) && e is WhenNotJson,
            None => res matches Ok(n) && n == at + 1 && at < after.len() && after.remove(at) == before && (after[at] matches StepView::Object(
                m,
            ) && patched_fields(Map::empty(), m, &draft_patch_spec(draft))),
        },
    }
}

/// The outcome of `update_step_at`: what it returns and the step list it leaves.
pub open spec fn update_outcome(before: Seq<StepView>, after: Seq<StepView>, step_number: usize, patch: &WorkflowStepPatch, res: Result<(), StepEditError>) -> bool {
    if !(1 <= step_number <= before.len()) {
        res matches Err(e) && number_error(e, step_number, before.len() as int)
    } else {
        match before[step_number - 1] {
            StepView::Other(_) => res matches Err(e) && e is StepNotObject,
            StepView::Object(m) => match patch_error(patch) {
                Some(StepEditError::EmptyField(_)) => res matches Err(e) && (e matches StepEditError::EmptyField(
                    l,
                ) && l@ == "workflow prompt"@),
                Some(_) => res matches Err(e) && e is WhenNotJson,
                None => res is Ok && after.remove(step_number - 1) == before.remove(step_number - 1)
                    && (after[step_number - 1] matches StepView::Object(m2) && patched_fields(
                    m,
                    m2,
                    patch,
                )),
            },
        }
    }
}

/// The outcome of `remove_step_at`: what it returns and the step list it leaves.
pub open spec fn remove_outcome(before: Seq<StepView>, after: Seq<StepView>, step_number: usize, res: Result<Option<String>, StepEditError>) -> bool {
    if !(1 <= step_number <= before.len()) {
        res matches Err(e) && number_error(e, step_number, before.len() as int)
    } else {
        res matches Ok(name) && opt_string_view(name) == step_name(before[step_number - 1])
            && after == before.remove(step_number - 1)
    }
}

/// The outcome of `move_step_at`: what it returns and the step list it leaves.
pub open spec fn move_outcome(before: Seq<StepView>, after: Seq<StepView>, step_number: usize, to_step_number: usize, res: Result<(usize, Option<String>), StepEditError>) -> bool {
    if !(1 <= step_number <= before.len()) {
        res matches Err(e) && number_error(e, step_number, before.len() as int)
    } else if !(1 <= to_step_number <= before.len()) {
        res matches Err(e) && number_error(e, to_step_number, before.len() as int)
    } else {
        let src = step_number - 1;
        let at = move_target(src, to_step_number - 1);
        &&& res matches Ok((n, name)) && n == at + 1 && opt_string_view(name) == step_name(before[src])
        &&& after == before.remove(src).insert(at, before[src])
    }
}

/// The outcome of `duplicate_step_at`: what it returns and the step list it leaves.
pub open spec fn duplicate_outcome(before: Seq<StepView>, after: Seq<StepView>, step_number: usize, to_step_number: Option<usize>, name: Option<Seq<char>>, res: Result<(usize, Option<String>), StepEditError>) -> bool {
    if !(1 <= step_number <= before.len()) {
        res matches Err(e) && number_error(e, step_number, before.len() as int)
    } else {
        let src = step_number - 1;
        let target = match to_step_number {
            Some(t) => Some(t),
            None => Some((step_number + 1) as usize),
        };
        match insert_index_spec(target, before.len() as usize) {
            Err((a, b)) => res matches Err(e) && (e matches StepEditError::IndexOutOfRange {
                index,
                max,
            } && index == a && max == b),
            Ok(at) => match before[src] {
                StepView::Other(_) => res matches Err(e) && e is StepNotObject,
                StepView::Object(m) => res matches Ok((n, new_name)) && n == at + 1 && at < after.len() && duplicate_name_ok(
                    before,
                    src,
                    name,
                    opt_string_view(new_name),
                ) && after.remove(at) == before && (after[at] matches StepView::Object(m2) && (forall|
                    k: Seq<char>,
                | k != "name"@ ==> #[trigger] entry_of(m2, k) == entry_of(m, k)) && entry_of(
                    m2,
                    "name"@,
                ) == text_change(entry_of(m, "name"@), Some(opt_string_view(new_name)))),
            },
        }
    }
}

/// Adds a step made from `draft` to a step list, at the end or before the 1-based
/// `index`; returns its step number.
fn insert_step(steps: &mut Vec<StepEntry>, draft: WorkflowStepDraft, index: Option<usize>) -> (res:
    Result<usize, StepEditError>)
    requires
        old(steps)@.len() < usize::MAX,
    ensures
        res is Err ==> steps_view(final(steps)@) == steps_view(old(steps)@),
        insert_outcome(steps_view(old(steps)@), steps_view(final(steps)@), &draft, index, res),
{
    let at = match normalize_insert_index(index, steps.len()) {
        Ok(a) => a,
        Err(e) => return Err(e),
    };
    let step = match draft_to_step(draft) {
        Ok(s) => s,
        Err(e) => return Err(e),
    };
    let ghost before = steps@;
    let ghost g = step;
    steps.insert(at, step);
    proof {
        lemma_steps_view_insert(before, at as int, g);
        assert(steps_view(steps@).remove(at as int) =~= steps_view(before));
    }
    Ok(at + 1)
}

/// Applies a patch to the step with 1-based number `step_number`.
fn update_step_at(steps: &mut Vec<StepEntry>, step_number: usize, patch: WorkflowStepPatch) -> (res:
    Result<(), StepEditError>)
    ensures
        res is Err ==> steps_view(final(steps)@) == steps_view(old(steps)@),
        update_outcome(steps_view(old(steps)@), steps_view(final(steps)@), step_number, &patch, res),
{
    let i = match normalize_existing_index(step_number, steps.len()) {
        Ok(i) => i,
        Err(e) => return Err(e),
    };
    let ghost before = steps@;
    let entry = steps.remove(i);
    let ghost removed = steps@;
    match entry {
        StepEntry::Object(mut m) => {
            let r = patch_object(&mut m, patch);
            let back = StepEntry::Object(m);
            let ghost g = back;
            steps.insert(i, back);
            proof {
                lemma_steps_view_insert(removed, i as int, g);
                lemma_steps_view_remove(before, i as int);
                assert(steps_view(steps@).remove(i as int) =~= steps_view(before).remove(i as int));
                if r is Err {
                    assert(steps_view(steps@) =~= steps_view(before));
                }
            }
            r
        },
        StepEntry::Other(v) => {
            let back = StepEntry::Other(v);
            let ghost g = back;
            steps.insert(i, back);
            proof {
                lemma_steps_view_insert(removed, i as int, g);
                lemma_steps_view_remove(before, i as int);
                assert(steps_view(steps@) =~= steps_view(before));
            }
            Err(StepEditError::StepNotObject)
        },
    }
}

/// Removes the step with 1-based number `step_number`; returns its name.
fn remove_step_at(steps: &mut Vec<StepEntry>, step_number: usize) -> (res: Result<
    Option<String>,
    StepEditError,
>)
    ensures
        res is Err ==> steps_view(final(steps)@) == steps_view(old(steps)@),
        remove_outcome(steps_view(old(steps)@), steps_view(final(steps)@), step_number, res),
{
    let i = match normalize_existing_index(step_number, steps.len()) {
        Ok(i) => i,
        Err(e) => return Err(e),
    };
    let ghost before = steps@;
    let removed = steps.remove(i);
    proof {
        lemma_steps_view_remove(before, i as int);
    }
    Ok(entry_name(&removed))
}

/// Where a moved step lands: before its target, counted in the list without it.
pub open spec fn move_target(source: int, destination: int) -> int {
    if destination > source {
        destination - 1
    } else {
        destination
    }
}

/// Moves the step with 1-based number `step_number` as a move to
/// `to_step_number` does; returns where it landed (1-based) and its name.
fn move_step_at(steps: &mut Vec<StepEntry>, step_number: usize, to_step_number: usize) -> (res:
    Result<(usize, Option<String>), StepEditError>)
    ensures
        res is Err ==> steps_view(final(steps)@) == steps_view(old(steps)@),
        move_outcome(steps_view(old(steps)@), steps_view(final(steps)@), step_number, to_step_number, res),
{
    let src = match normalize_existing_index(step_number, steps.len()) {
        Ok(i) => i,
        Err(e) => return Err(e),
    };
    let dst = match normalize_existing_index(to_step_number, steps.len()) {
        Ok(i) => i,
        Err(e) => return Err(e),
    };
    let name = entry_name(&steps[src]);
    let ghost before = steps@;
    let moved = steps.remove(src);
    let ghost removed = steps@;
    let at = if dst > src {
        dst - 1
    } else {
        dst
    };
    let ghost g = moved;
    steps.insert(at, moved);
    proof {
        lemma_steps_view_remove(before, src as int);
        lemma_steps_view_insert(removed, at as int, g);
    }
    Ok((at + 1, name))
}

/// Whether `new_name` is the name a copy of the step at `i` gets: the given name
/// trimmed when it is not blank, else a fresh `<name> copy…` when the step is named,
/// else none.
pub open spec fn duplicate_name_ok(s: Seq<StepView>, i: int, name: Option<Seq<char>>, new_name: Option<Seq<char>>) -> bool {
    if normalize_optional_spec(name) is Some {
        new_name == normalize_optional_spec(name)
    } else if step_name(s[i]) is Some {
        let n = step_name(s[i])->0;
        exists|k: nat| is_first_free_candidate(n, s, k) && new_name == Some(#[trigger] dup_candidate(n, k))
    } else {
        new_name is None
    }
}

/// Copies the step with 1-based number `step_number` to before `to_step_number`
/// (by default right after it), naming the copy; returns where the copy landed
/// (1-based) and its name.
fn duplicate_step_at(
    steps: &mut Vec<StepEntry>,
    step_number: usize,
    to_step_number: Option<usize>,
    name: Option<String>,
) -> (res: Result<(usize, Option<String>), StepEditError>)
    requires
        old(steps)@.len() < usize::MAX,
    ensures
        res is Err ==> steps_view(final(steps)@) == steps_view(old(steps)@),
        duplicate_outcome(steps_view(old(steps)@), steps_view(final(steps)@), step_number, to_step_number, opt_string_view(name), res),
{
    let src = match normalize_existing_index(step_number, steps.len()) {
        Ok(i) => i,
        Err(e) => return Err(e),
    };
    let ghost sv = steps_view(steps@);
    assert(sv[src as int] == step_view(steps@[src as int]));
    let ghost name_v = opt_string_view(name);
    let normalized = crate::tasks::normalize_optional_text(name);
    assert(opt_string_view(normalized) == normalize_optional_spec(name_v));
    let new_name = match normalized {
        Some(t) => Some(t),
        None => match entry_name(&steps[src]) {
            Some(n) => {
                let u = unique_duplicate_name(n.as_str(), steps);
                proof {
                    let k = choose|k: nat|
                        is_first_free_candidate(n@, steps_view(steps@), k) && u@ == dup_candidate(
                            n@,
                            k,
                        );
                    assert(is_first_free_candidate(n@, sv, k) && Some(u@) == Some(
                        dup_candidate(n@, k),
                    ));
                    assert(step_name(sv[src as int]) == Some(n@));
                    assert(normalize_optional_spec(name_v) is None);
                    assert(exists|k2: nat|
                        is_first_free_candidate(n@, sv, k2) && Some(u@) == Some(
                            #[trigger] dup_candidate(n@, k2),
                        ));
                    let nn = step_name(sv[src as int])->0;
                    assert(nn == n@);
                    assert(is_first_free_candidate(nn, sv, k));
                    assert(Some(u@) == Some(dup_candidate(nn, k)));
                    assert(duplicate_name_ok(sv, src as int, name_v, Some(u@)));
                }
                Some(u)
            },
            None => None,
        },
    };
    let target = match to_step_number {
        Some(t) => Some(t),
        None => Some(step_number + 1),
    };
    let at = match normalize_insert_index(target, steps.len()) {
        Ok(a) => a,
        Err(e) => return Err(e),
    };
    let mut object = match &steps[src] {
        StepEntry::Object(m) => clone_object(m),
        StepEntry::Other(_) => return Err(StepEditError::StepNotObject),
    };
    let ghost before_name = object_view(object@);
    let name_change = match &new_name {
        Some(t) => Some(Some(t.clone())),
        None => Some(None),
    };
    set_text_field(&mut object, "name", name_change);
    let ghost before = steps@;
    let copy = StepEntry::Object(object);
    let ghost g = copy;
    steps.insert(at, copy);
    proof {
        lemma_steps_view_insert(before, at as int, g);
        assert(steps_view(steps@).remove(at as int) =~= steps_view(before));
    }
    Ok((at + 1, new_name))
}

/// Whether two scripts agree on every field but `steps`.
pub open spec fn same_other_fields(a: Map<Seq<char>, DocValue>, b: Map<Seq<char>, DocValue>) -> bool {
    a.remove("steps"@) == b.remove("steps"@)
}

/// Whether a script reads the same as before: the same fields, and the same steps.
pub open spec fn reads_same(a: Map<Seq<char>, DocValue>, b: Map<Seq<char>, DocValue>) -> bool {
    &&& same_other_fields(a, b)
    &&& doc_steps(a) == doc_steps(b)
    &&& a.contains_key("steps"@) == b.contains_key("steps"@)
}

/// Takes the step list out of a script; also tells whether it had a `steps` field.
fn take_steps(doc: &mut WorkflowDocument) -> (res: Result<(Vec<StepEntry>, bool), StepEditError>)
    ensures
        match doc_steps(old(doc).fields@) {
            None => res matches Err(e) && e is StepsNotArray && final(doc).fields@ == old(
                doc,
            ).fields@,
            Some(sv) => res matches Ok((v, had)) && steps_view(v@) == sv && had == old(
                doc,
            ).fields@.contains_key("steps"@) && final(doc).fields@ == old(doc).fields@.remove(
                "steps"@,
            ),
        },
{
    let ghost before = doc.fields@;
    match doc.fields.take("steps") {
        None => {
            assert(steps_view(Seq::<StepEntry>::empty()) =~= Seq::<StepView>::empty());
            Ok((Vec::new(), false))
        },
        Some(DocValue::Steps(v)) => Ok((v, true)),
        Some(other) => {
            let ghost g = other;
            doc.fields.insert("steps".to_owned(), other);
            assert(before.remove("steps"@).insert("steps"@, g) =~= before);
            Err(StepEditError::StepsNotArray)
        },
    }
}

/// Puts a step list into a script.
fn put_steps(doc: &mut WorkflowDocument, steps: Vec<StepEntry>)
    ensures
        doc_steps(final(doc).fields@) == Some(steps_view(steps@)),
        final(doc).fields@.contains_key("steps"@),
        final(doc).fields@.remove("steps"@) == old(doc).fields@.remove("steps"@),
{
    let ghost before = doc.fields@;
    let ghost g = steps;
    doc.fields.insert("steps".to_owned(), DocValue::Steps(steps));
    assert(doc.fields@.remove("steps"@) =~= before.remove("steps"@));
}

/// Puts back a step list that an edit left unchanged.
fn restore_steps(doc: &mut WorkflowDocument, steps: Vec<StepEntry>, had: bool)
    requires
        !old(doc).fields@.contains_key("steps"@),
    ensures
        had ==> doc_steps(final(doc).fields@) == Some(steps_view(steps@)),
        !had ==> final(doc).fields@ == old(doc).fields@,
        final(doc).fields@.contains_key("steps"@) == had,
        final(doc).fields@.remove("steps"@) == old(doc).fields@.remove("steps"@),
{
    if had {
        put_steps(doc, steps);
    } else {
        assert(doc.fields@.remove("steps"@) =~= doc.fields@);
    }
}

/// Adds a step made from `draft`, at the end or before the 1-based `index`;
/// returns its step number. The script is left as it was on a refusal.
pub fn add_workflow_step(doc: &mut WorkflowDocument, draft: WorkflowStepDraft, index: Option<usize>) -> (res:
    Result<usize, StepEditError>)
    requires
        doc_steps(old(doc).fields@) matches Some(s) ==> s.len() < usize::MAX,
    ensures
        same_other_fields(old(doc).fields@, final(doc).fields@),
        res is Err ==> reads_same(old(doc).fields@, final(doc).fields@),
        match doc_steps(old(doc).fields@) {
            None => res matches Err(e) && e is StepsNotArray,
            Some(s) => doc_steps(final(doc).fields@) matches Some(a) && insert_outcome(
                s,
                a,
                &draft,
                index,
                res,
            ),
        },
{
    let ghost before = doc.fields@;
    let (mut steps, had) = match take_steps(doc) {
        Ok(p) => p,
        Err(e) => return Err(e),
    };
    let ghost d = draft;
    let r = insert_step(&mut steps, draft, index);
    if r.is_ok() {
        put_steps(doc, steps);
    } else {
        restore_steps(doc, steps, had);
    }
    proof {
        assert(before.remove("steps"@).remove("steps"@) =~= before.remove("steps"@));
    }
    r
}

/// Applies a patch to the step with 1-based number `step_number`. The script is
/// left as it was on a refusal.
pub fn update_workflow_step(doc: &mut WorkflowDocument, step_number: usize, patch: WorkflowStepPatch) -> (res:
    Result<(), StepEditError>)
    ensures
        same_other_fields(old(doc).fields@, final(doc).fields@),
        res is Err ==> reads_same(old(doc).fields@, final(doc).fields@),
        patch.name is None && patch.prompt is None && patch.when is None && patch.model is None
            && patch.backend is None && patch.step_cwd is None && patch.run_in_background is None
            ==> (res matches Err(e) && e is EmptyPatch),
        !(patch.name is None && patch.prompt is None && patch.when is None && patch.model is None
            && patch.backend is None && patch.step_cwd is None && patch.run_in_background is None)
            ==> match doc_steps(old(doc).fields@) {
            None => res matches Err(e) && e is StepsNotArray,
            Some(s) => doc_steps(final(doc).fields@) matches Some(a) && update_outcome(
                s,
                a,
                step_number,
                &patch,
                res,
            ),
        },
{
    if patch.is_empty() {
        return Err(StepEditError::EmptyPatch);
    }
    let ghost before = doc.fields@;
    let (mut steps, had) = match take_steps(doc) {
        Ok(p) => p,
        Err(e) => return Err(e),
    };
    let ghost p = patch;
    let r = update_step_at(&mut steps, step_number, patch);
    if r.is_ok() {
        put_steps(doc, steps);
    } else {
        restore_steps(doc, steps, had);
    }
    proof {
        assert(before.remove("steps"@).remove("steps"@) =~= before.remove("steps"@));
    }
    r
}

/// Removes the step with 1-based number `step_number`; returns its name. The script
/// is left as it was on a refusal.
pub fn remove_workflow_step(doc: &mut WorkflowDocument, step_number: usize) -> (res: Result<
    Option<String>,
    StepEditError,
>)
    ensures
        same_other_fields(old(doc).fields@, final(doc).fields@),
        res is Err ==> reads_same(old(doc).fields@, final(doc).fields@),
        match doc_steps(old(doc).fields@) {
            None => res matches Err(e) && e is StepsNotArray,
            Some(s) => doc_steps(final(doc).fields@) matches Some(a) && remove_outcome(
                s,
                a,
                step_number,
                res,
            ),
        },
{
    let ghost before = doc.fields@;
    let (mut steps, had) = match take_steps(doc) {
        Ok(p) => p,
        Err(e) => return Err(e),
    };
    let r = remove_step_at(&mut steps, step_number);
    if r.is_ok() {
        put_steps(doc, steps);
    } else {
        restore_steps(doc, steps, had);
    }
    proof {
        assert(before.remove("steps"@).remove("steps"@) =~= before.remove("steps"@));
    }
    r
}

/// Moves the step with 1-based number `step_number` towards `to_step_number`;
/// returns where it landed and its name. The script is left as it was on a refusal.
pub fn move_workflow_step(doc: &mut WorkflowDocument, step_number: usize, to_step_number: usize) -> (res:
    Result<(usize, Option<String>), StepEditError>)
    ensures
        same_other_fields(old(doc).fields@, final(doc).fields@),
        res is Err ==> reads_same(old(doc).fields@, final(doc).fields@),
        match doc_steps(old(doc).fields@) {
            None => res matches Err(e) && e is StepsNotArray,
            Some(s) => doc_steps(final(doc).fields@) matches Some(a) && move_outcome(
                s,
                a,
                step_number,
                to_step_number,
                res,
            ),
        },
{
    let ghost before = doc.fields@;
    let (mut steps, had) = match take_steps(doc) {
        Ok(p) => p,
        Err(e) => return Err(e),
    };
    let r = move_step_at(&mut steps, step_number, to_step_number);
    if r.is_ok() {
        put_steps(doc, steps);
    } else {
        restore_steps(doc, steps, had);
    }
    proof {
        assert(before.remove("steps"@).remove("steps"@) =~= before.remove("steps"@));
    }
    r
}

/// Copies the step with 1-based number `step_number` to before `to_step_number`
/// (by default right after it) under `name` or a fresh copy name; returns where the
/// copy landed and its name. The script is left as it was on a refusal.
pub fn duplicate_workflow_step(
    doc: &mut WorkflowDocument,
    step_number: usize,
    to_step_number: Option<usize>,
    name: Option<String>,
) -> (res: Result<(usize, Option<String>), StepEditError>)
    requires
        doc_steps(old(doc).fields@) matches Some(s) ==> s.len() < usize::MAX,
    ensures
        same_other_fields(old(doc).fields@, final(doc).fields@),
        res is Err ==> reads_same(old(doc).fields@, final(doc).fields@),
        match doc_steps(old(doc).fields@) {
            None => res matches Err(e) && e is StepsNotArray,
            Some(s) => doc_steps(final(doc).fields@) matches Some(a) && duplicate_outcome(
                s,
                a,
                step_number,
                to_step_number,
                opt_string_view(name),
                res,
            ),
        },
{
    let ghost before = doc.fields@;
    let (mut steps, had) = match take_steps(doc) {
        Ok(p) => p,
        Err(e) => return Err(e),
    };
    let r = duplicate_step_at(&mut steps, step_number, to_step_number, name);
    if r.is_ok() {
        put_steps(doc, steps);
    } else {
        restore_steps(doc, steps, had);
    }
    proof {
        assert(before.remove("steps"@).remove("steps"@) =~= before.remove("steps"@));
    }
    r
}

/// The script's shared context, if it is text.
pub open spec fn shared_context_of(fields: Map<Seq<char>, DocValue>) -> Option<Seq<char>> {
    if fields.contains_key("shared_context"@) {
        match fields["shared_context"@] {
            DocValue::Field(FieldValue::Text(t)) => Some(t@),
            _ => None,
        }
    } else {
        None
    }
}

/// Sets the shared context to the trimmed value, or removes it when the value is
/// missing or blank; the other fields are kept.
pub fn set_workflow_shared_context(doc: &mut WorkflowDocument, value: Option<String>)
    ensures
        final(doc).fields@.remove("shared_context"@) == old(doc).fields@.remove("shared_context"@),
        final(doc).fields@.contains_key("shared_context"@) == (normalize_optional_spec(
            opt_string_view(value),
        ) is Some),
        shared_context_of(final(doc).fields@) == normalize_optional_spec(opt_string_view(value)),
{
    let ghost before = doc.fields@;
    match crate::tasks::normalize_optional_text(value) {
        Some(t) => {
            doc.fields.insert("shared_context".to_owned(), DocValue::Field(FieldValue::Text(t)));
            assert(doc.fields@.remove("shared_context"@) =~= before.remove("shared_context"@));
        },
        None => {
            let _ = doc.fields.take("shared_context");
            assert(doc.fields@.remove("shared_context"@) =~= before.remove("shared_context"@));
        },
    }
}

/// Turns continue-on-error on (stored as `true`) or off (the field removed); the
/// other fields are kept.
pub fn set_workflow_continue_on_error(doc: &mut WorkflowDocument, enabled: bool)
    ensures
        final(doc).fields@.remove("continue_on_error"@) == old(doc).fields@.remove(
            "continue_on_error"@,
        ),
        final(doc).fields@.contains_key("continue_on_error"@) == enabled,
        enabled ==> final(doc).fields@["continue_on_error"@] == DocValue::Field(FieldValue::Flag(true)),
{
    let ghost before = doc.fields@;
    if enabled {
        doc.fields.insert("continue_on_error".to_owned(), DocValue::Field(FieldValue::Flag(true)));
    } else {
        let _ = doc.fields.take("continue_on_error");
    }
    assert(doc.fields@.remove("continue_on_error"@) =~= before.remove("continue_on_error"@));
}

/// Removing the step that an add reported (by its number) gives back the list the
/// add started from.
pub proof fn lemma_remove_undoes_add(
    before: Seq<StepView>,
    after: Seq<StepView>,
    restored: Seq<StepView>,
    draft: &WorkflowStepDraft,
    index: Option<usize>,
    number: usize,
    removed: Result<Option<String>, StepEditError>,
)
    requires
        insert_outcome(before, after, draft, index, Ok(number)),
        remove_outcome(after, restored, number, removed),
    ensures
        restored == before,
        removed is Ok,
{
    match insert_index_spec(index, before.len() as usize) {
        Ok(at) => {
            assert(patch_error(&draft_patch_spec(draft)) is None);
            assert(number == at + 1);
            assert(after.remove(at).len() == before.len());
            assert(1 <= number <= after.len());
            assert(restored == after.remove(number - 1));
        },
        Err(_) => {},
    }
}

/// A move keeps the same steps, each as often as before, and puts the moved one
/// where it reports.
pub proof fn lemma_move_keeps_steps(
    before: Seq<StepView>,
    after: Seq<StepView>,
    step_number: usize,
    to_step_number: usize,
    res: Result<(usize, Option<String>), StepEditError>,
)
    requires
        move_outcome(before, after, step_number, to_step_number, res),
        res is Ok,
    ensures
        after.to_multiset() == before.to_multiset(),
        after.len() == before.len(),
        after[res->Ok_0.0 - 1] == before[step_number - 1],
{
    let src = step_number - 1;
    let at = move_target(src, to_step_number - 1);
    vstd::seq_lib::to_multiset_remove(before, src);
    vstd::seq_lib::to_multiset_insert(before.remove(src), at, before[src]);
    assert(before.to_multiset().remove(before[src]).insert(before[src]) =~= before.to_multiset())
        by {
        broadcast use vstd::multiset::group_multiset_axioms;
        vstd::seq_lib::to_multiset_contains(before, before[src]);
    }
}

/// A moved step moved back down from where it landed returns the list to what it
/// was, when the first move went down the list.
pub proof fn lemma_move_down_then_back(
    before: Seq<StepView>,
    after: Seq<StepView>,
    back: Seq<StepView>,
    step_number: usize,
    to_step_number: usize,
    res: Result<(usize, Option<String>), StepEditError>,
    res_back: Result<(usize, Option<String>), StepEditError>,
)
    requires
        move_outcome(before, after, step_number, to_step_number, res),
        res is Ok,
        to_step_number >= step_number,
        move_outcome(after, back, res->Ok_0.0, step_number, res_back),
    ensures
        back == before,
{
    let src = step_number - 1;
    let at = move_target(src, to_step_number - 1);
    assert(after.remove(at) =~= before.remove(src));
    assert(before.remove(src).insert(src, before[src]) =~= before);
}

/// A generated copy name is not the name of any step of the list.
pub proof fn lemma_duplicate_name_is_fresh(s: Seq<StepView>, i: int, name: Option<Seq<char>>, new_name: Seq<char>)
    requires
        0 <= i < s.len(),
        normalize_optional_spec(name) is None,
        step_name(s[i]) is Some,
        duplicate_name_ok(s, i, name, Some(new_name)),
    ensures
        forall|j: int| 0 <= j < s.len() ==> step_name(#[trigger] s[j]) != Some(new_name),
{
    lemma_names_of(s);
}

/// A step name as shown: the name, or `(unnamed)`.
pub open spec fn shown_name(name: Option<Seq<char>>) -> Seq<char> {
    match name {
        Some(n) => n,
        None => "(unnamed)"@,
    }
}

/// What a step edit from the panel reports: the step to select next and a message.
pub struct ShortcutOutcome {
    pub selected_step: Option<usize>,
    pub message: String,
}

/// The word that names the field a shortcut edits (for a run mode, the mode).
pub open spec fn field_label(s: ShortcutSpec) -> Seq<char> {
    match s {
        ShortcutSpec::SetName(_) => "name"@,
        ShortcutSpec::ClearName => "name"@,
        ShortcutSpec::SetPrompt(_) => "prompt"@,
        ShortcutSpec::SetWhen(_) => "when condition"@,
        ShortcutSpec::ClearWhen => "when condition"@,
        ShortcutSpec::SetModel(_) => "model"@,
        ShortcutSpec::ClearModel => "model"@,
        ShortcutSpec::SetBackend(_) => "backend"@,
        ShortcutSpec::ClearBackend => "backend"@,
        ShortcutSpec::SetStepCwd(_) => "cwd"@,
        ShortcutSpec::ClearStepCwd => "cwd"@,
        ShortcutSpec::SetRunMode(b) => if b {
            "background"@
        } else {
            "foreground"@
        },
        _ => seq![],
    }
}

/// Whether a shortcut clears a field.
pub open spec fn clears_field(s: ShortcutSpec) -> bool {
    s is ClearName || s is ClearWhen || s is ClearModel || s is ClearBackend || s is ClearStepCwd
}

/// The message of a field shortcut: "Updated workflow step <n> <field>.",
/// "Cleared workflow step <n> <field>." or "Set workflow step <n> to <mode> mode.".
pub open spec fn field_message(selected: usize, s: ShortcutSpec) -> Seq<char> {
    let n = decimal(selected as nat);
    if s is SetRunMode {
        "Set"@ + " workflow step "@ + n + " to "@ + field_label(s) + " mode."@
    } else if clears_field(s) {
        "Cleared"@ + " workflow step "@ + n + " "@ + field_label(s) + "."@
    } else {
        "Updated"@ + " workflow step "@ + n + " "@ + field_label(s) + "."@
    }
}

/// The patch a field shortcut applies.
pub open spec fn shortcut_patch(s: ShortcutSpec, p: &WorkflowStepPatch) -> bool {
    let none_but = |f: int|
        (f == 0 || p.name is None) && (f == 1 || p.prompt is None) && (f == 2 || p.when is None)
            && (f == 3 || p.model is None) && (f == 4 || p.backend is None) && (f == 5
            || p.step_cwd is None) && (f == 6 || p.run_in_background is None);
    match s {
        ShortcutSpec::SetName(v) => none_but(0) && change_view(p.name) == Some(Some(v)),
        ShortcutSpec::ClearName => none_but(0) && change_view(p.name) == Some(None::<Seq<char>>),
        ShortcutSpec::SetPrompt(v) => none_but(1) && (p.prompt matches Some(x) && x@ == v),
        ShortcutSpec::SetWhen(v) => none_but(2) && change_view(p.when) == Some(Some(v)),
        ShortcutSpec::ClearWhen => none_but(2) && change_view(p.when) == Some(None::<Seq<char>>),
        ShortcutSpec::SetModel(v) => none_but(3) && change_view(p.model) == Some(Some(v)),
        ShortcutSpec::ClearModel => none_but(3) && change_view(p.model) == Some(None::<Seq<char>>),
        ShortcutSpec::SetBackend(v) => none_but(4) && change_view(p.backend) == Some(Some(v)),
        ShortcutSpec::ClearBackend => none_but(4) && change_view(p.backend) == Some(
            None::<Seq<char>>,
        ),
        ShortcutSpec::SetStepCwd(v) => none_but(5) && change_view(p.step_cwd) == Some(Some(v)),
        ShortcutSpec::ClearStepCwd => none_but(5) && change_view(p.step_cwd) == Some(
            None::<Seq<char>>,
        ),
        ShortcutSpec::SetRunMode(b) => none_but(6) && p.run_in_background == Some(b),
        _ => false,
    }
}

/// Whether a shortcut edits one field of the step.
pub open spec fn is_field_shortcut(s: ShortcutSpec) -> bool {
    !(s is Duplicate || s is Move || s is Remove)
}

/// The entry a text field gets from a typed value: its trimmed text, or no entry when
/// that is blank.
pub open spec fn typed_text_entry(v: Seq<char>) -> Option<FieldView> {
    if trim_seq(v).len() > 0 {
        Some(FieldView::Text(trim_seq(v)))
    } else {
        None
    }
}

/// What a field shortcut leaves in the step object it edits (`m` before, `m2` after):
/// the field it names gets the typed value (or loses its entry when cleared), and
/// every other entry of the step stays as it was.
pub open spec fn field_edit_result(
    f: ShortcutSpec,
    m: Map<Seq<char>, FieldView>,
    m2: Map<Seq<char>, FieldView>,
) -> bool {
    match f {
        ShortcutSpec::SetName(v) => only_key_changed(m, m2, "name"@) && entry_of(m2, "name"@)
            == typed_text_entry(v),
        ShortcutSpec::ClearName => only_key_changed(m, m2, "name"@) && entry_of(m2, "name"@) is None,
        ShortcutSpec::SetPrompt(v) => only_key_changed(m, m2, "prompt"@) && entry_of(m2, "prompt"@)
            == Some(FieldView::Text(trim_seq(v))),
        ShortcutSpec::SetWhen(v) => only_key_changed(m, m2, "when"@) && (trim_seq(v).len() == 0
            ==> entry_of(m2, "when"@) is None) && (trim_seq(v).len() > 0 ==> (json_parse(
            trim_seq(v),
        ) matches Some(j) && entry_of(m2, "when"@) == Some(FieldView::Json(j)))),
        ShortcutSpec::ClearWhen => only_key_changed(m, m2, "when"@) && entry_of(m2, "when"@) is None,
        ShortcutSpec::SetModel(v) => only_key_changed(m, m2, "model"@) && entry_of(m2, "model"@)
            == typed_text_entry(v),
        ShortcutSpec::ClearModel => only_key_changed(m, m2, "model"@) && entry_of(m2, "model"@) is None,
        ShortcutSpec::SetBackend(v) => only_key_changed(m, m2, "backend"@) && entry_of(
            m2,
            "backend"@,
        ) == typed_text_entry(v),
        ShortcutSpec::ClearBackend => only_key_changed(m, m2, "backend"@) && entry_of(
            m2,
            "backend"@,
        ) is None,
        ShortcutSpec::SetStepCwd(v) => only_key_changed(m, m2, "cwd"@) && entry_of(m2, "cwd"@)
            == typed_text_entry(v),
        ShortcutSpec::ClearStepCwd => only_key_changed(m, m2, "cwd"@) && entry_of(m2, "cwd"@) is None,
        ShortcutSpec::SetRunMode(b) => only_key_changed(m, m2, "run_in_background"@) && entry_of(
            m2,
            "run_in_background"@,
        ) == (if b {
            Some(FieldView::Flag(true))
        } else {
            None
        }),
        _ => true,
    }
}

/// Law: a field shortcut that succeeds edits exactly the field it names in the
/// selected step, which is an object: `cwd` for a working directory, `backend` for a
/// backend, and so on; every other entry of that step is left as it was, the same
/// step stays selected, and the other steps keep their places and contents.
pub proof fn lemma_field_shortcut_edits_its_field(
    s: Seq<StepView>,
    a: Seq<StepView>,
    selected: usize,
    f: ShortcutSpec,
    res: Result<ShortcutOutcome, StepEditError>,
)
    requires
        is_field_shortcut(f),
        shortcut_ok(s, a, selected, f, res),
        res is Ok,
    ensures
        1 <= selected <= s.len(),
        a.remove(selected - 1) == s.remove(selected - 1),
        res matches Ok(o) && o.selected_step == Some(selected),
        s[selected - 1] matches StepView::Object(m) && a[selected - 1] matches StepView::Object(m2)
            && field_edit_result(f, m, m2),
{
    lemma_step_keys_distinct();
    let (p, r): (WorkflowStepPatch, Result<(), StepEditError>) = choose|
        p: WorkflowStepPatch,
        r: Result<(), StepEditError>,
    |
        shortcut_patch(f, &p) && update_outcome(s, a, selected, &p, r) && match r {
            Ok(()) => res matches Ok(o) && o.selected_step == Some(selected) && o.message@
                == field_message(selected, f),
            Err(e) => res == Err::<ShortcutOutcome, StepEditError>(e),
        };
    assert(r is Ok);
}

/// The step selected after removing step `selected` from a list that then has
/// `remaining` steps: the same number, or the last one; none when nothing is left.
pub open spec fn selection_after_remove(selected: usize, remaining: nat) -> Option<usize> {
    if remaining == 0 {
        None
    } else if selected < remaining {
        Some(selected)
    } else {
        Some(remaining as usize)
    }
}

fn push_shown_name(m: &mut String, name: &Option<String>)
    ensures
        final(m)@ == old(m)@ + shown_name(opt_string_view(*name)),
{
    match name {
        Some(n) => m.append(n.as_str()),
        None => m.append("(unnamed)"),
    }
}

fn field_patch(shortcut: WorkflowStepShortcut) -> (res: (WorkflowStepPatch, String))
    requires
        is_field_shortcut(shortcut_view(shortcut)),
    ensures
        shortcut_patch(shortcut_view(shortcut), &res.0),
        res.1@ == field_label(shortcut_view(shortcut)),
{
    let mut p = WorkflowStepPatch::default();
    let label = match shortcut {
        WorkflowStepShortcut::SetName { value } => {
            p.name = Some(Some(value));
            "name"
        },
        WorkflowStepShortcut::ClearName => {
            p.name = Some(None);
            "name"
        },
        WorkflowStepShortcut::SetPrompt { value } => {
            p.prompt = Some(value);
            "prompt"
        },
        WorkflowStepShortcut::SetWhen { value } => {
            p.when = Some(Some(value));
            "when condition"
        },
        WorkflowStepShortcut::ClearWhen => {
            p.when = Some(None);
            "when condition"
        },
        WorkflowStepShortcut::SetModel { value } => {
            p.model = Some(Some(value));
            "model"
        },
        WorkflowStepShortcut::ClearModel => {
            p.model = Some(None);
            "model"
        },
        WorkflowStepShortcut::SetBackend { value } => {
            p.backend = Some(Some(value));
            "backend"
        },
        WorkflowStepShortcut::ClearBackend => {
            p.backend = Some(None);
            "backend"
        },
        WorkflowStepShortcut::SetStepCwd { value } => {
            p.step_cwd = Some(Some(value));
            "cwd"
        },
        WorkflowStepShortcut::ClearStepCwd => {
            p.step_cwd = Some(None);
            "cwd"
        },
        WorkflowStepShortcut::SetRunMode { run_in_background } => {
            p.run_in_background = Some(run_in_background);
            if run_in_background {
                "background"
            } else {
                "foreground"
            }
        },
        _ => "",
    };
    (p, label.to_owned())
}

/// The outcome of a duplicate shortcut.
pub open spec fn duplicate_shortcut_ok(s: Seq<StepView>, a: Seq<StepView>, selected_step: usize, to: Option<usize>, res: Result<ShortcutOutcome, StepEditError>) -> bool {
    exists|r: Result<(usize, Option<String>), StepEditError>|
        duplicate_outcome(s, a, selected_step, to, None, r) && match r {
            Ok((n, name)) => res matches Ok(o) && o.selected_step == Some(n) && o.message@
                == "Duplicated workflow step "@ + decimal(selected_step as nat) + " into step "@
                + decimal(n as nat) + " (`"@ + shown_name(opt_string_view(name)) + "`)."@,
            Err(e) => res == Err::<ShortcutOutcome, StepEditError>(e),
        }
}

/// The outcome of a move shortcut.
pub open spec fn move_shortcut_ok(s: Seq<StepView>, a: Seq<StepView>, selected_step: usize, to: usize, res: Result<ShortcutOutcome, StepEditError>) -> bool {
    exists|r: Result<(usize, Option<String>), StepEditError>|
        move_outcome(s, a, selected_step, to, r) && match r {
            Ok((n, name)) => res matches Ok(o) && o.selected_step == Some(n) && o.message@
                == "Moved workflow step "@ + decimal(selected_step as nat) + " (`"@ + shown_name(
                opt_string_view(name),
            ) + "`) to step "@ + decimal(n as nat) + "."@,
            Err(e) => res == Err::<ShortcutOutcome, StepEditError>(e),
        }
}

/// The outcome of a remove shortcut.
pub open spec fn remove_shortcut_ok(s: Seq<StepView>, a: Seq<StepView>, selected_step: usize, res: Result<ShortcutOutcome, StepEditError>) -> bool {
    exists|r: Result<Option<String>, StepEditError>|
        remove_outcome(s, a, selected_step, r) && match r {
            Ok(name) => res matches Ok(o) && o.selected_step == selection_after_remove(
                selected_step,
                a.len(),
            ) && o.message@ == "Removed workflow step "@ + decimal(selected_step as nat) + " (`"@
                + shown_name(opt_string_view(name)) + "`)."@,
            Err(e) => res == Err::<ShortcutOutcome, StepEditError>(e),
        }
}

/// The outcome of a field shortcut.
pub open spec fn field_shortcut_ok(s: Seq<StepView>, a: Seq<StepView>, selected_step: usize, f: ShortcutSpec, res: Result<ShortcutOutcome, StepEditError>) -> bool {
    exists|p: WorkflowStepPatch, r: Result<(), StepEditError>|
        shortcut_patch(f, &p) && update_outcome(s, a, selected_step, &p, r) && match r {
            Ok(()) => res matches Ok(o) && o.selected_step == Some(selected_step) && o.message@
                == field_message(selected_step, f),
            Err(e) => res == Err::<ShortcutOutcome, StepEditError>(e),
        }
}

/// The outcome of a step shortcut on a script whose steps were `s` and are now `a`.
pub open spec fn shortcut_ok(s: Seq<StepView>, a: Seq<StepView>, selected_step: usize, f: ShortcutSpec, res: Result<ShortcutOutcome, StepEditError>) -> bool {
    match f {
        ShortcutSpec::Duplicate(to) => duplicate_shortcut_ok(s, a, selected_step, to, res),
        ShortcutSpec::Move(to) => move_shortcut_ok(s, a, selected_step, to, res),
        ShortcutSpec::Remove => remove_shortcut_ok(s, a, selected_step, res),
        _ => field_shortcut_ok(s, a, selected_step, f, res),
    }
}

/// The frame every shortcut keeps: other fields unchanged, nothing changed on a
/// refusal, and the step list still a list.
pub open spec fn shortcut_frame(before: Map<Seq<char>, DocValue>, after: Map<Seq<char>, DocValue>, f: ShortcutSpec, selected_step: usize, res: Result<ShortcutOutcome, StepEditError>) -> bool {
    &&& same_other_fields(before, after)
    &&& res is Err ==> reads_same(before, after)
    &&& doc_steps(before) is None ==> (res matches Err(e) && e is StepsNotArray)
    &&& doc_steps(before) matches Some(s) ==> (doc_steps(after) matches Some(a) && shortcut_ok(
        s,
        a,
        selected_step,
        f,
        res,
    ))
}

fn duplicate_shortcut(doc: &mut WorkflowDocument, selected_step: usize, to_step_number: Option<usize>) -> (res:
    Result<ShortcutOutcome, StepEditError>)
    requires
        doc_steps(old(doc).fields@) matches Some(s) ==> s.len() < usize::MAX,
    ensures
        shortcut_frame(old(doc).fields@, final(doc).fields@, ShortcutSpec::Duplicate(to_step_number), selected_step, res),
{
    let r = duplicate_workflow_step(doc, selected_step, to_step_number, None);
    let ghost rg = r;
    match r {
        Ok((n, name)) => {
            let mut m = "Duplicated workflow step ".to_owned();
            push_decimal(&mut m, selected_step as u64);
            m.append(" into step ");
            push_decimal(&mut m, n as u64);
            m.append(" (`");
            push_shown_name(&mut m, &name);
            m.append("`).");
            Ok(ShortcutOutcome { selected_step: Some(n), message: m })
        },
        Err(e) => Err(e),
    }
}

fn move_shortcut(doc: &mut WorkflowDocument, selected_step: usize, to_step_number: usize) -> (res:
    Result<ShortcutOutcome, StepEditError>)
    ensures
        shortcut_frame(old(doc).fields@, final(doc).fields@, ShortcutSpec::Move(to_step_number), selected_step, res),
{
    let r = move_workflow_step(doc, selected_step, to_step_number);
    let ghost rg = r;
    match r {
        Ok((n, name)) => {
            let mut m = "Moved workflow step ".to_owned();
            push_decimal(&mut m, selected_step as u64);
            m.append(" (`");
            push_shown_name(&mut m, &name);
            m.append("`) to step ");
            push_decimal(&mut m, n as u64);
            m.append(".");
            Ok(ShortcutOutcome { selected_step: Some(n), message: m })
        },
        Err(e) => Err(e),
    }
}

fn remove_shortcut(doc: &mut WorkflowDocument, selected_step: usize) -> (res: Result<
    ShortcutOutcome,
    StepEditError,
>)
    ensures
        shortcut_frame(old(doc).fields@, final(doc).fields@, ShortcutSpec::Remove, selected_step, res),
{
    let r = remove_workflow_step(doc, selected_step);
    let ghost rg = r;
    match r {
        Ok(name) => {
            let remaining = step_count(doc);
            let next = if remaining == 0 {
                None
            } else if selected_step < remaining {
                Some(selected_step)
            } else {
                Some(remaining)
            };
            let mut m = "Removed workflow step ".to_owned();
            push_decimal(&mut m, selected_step as u64);
            m.append(" (`");
            push_shown_name(&mut m, &name);
            m.append("`).");
            Ok(ShortcutOutcome { selected_step: next, message: m })
        },
        Err(e) => Err(e),
    }
}

fn field_shortcut(doc: &mut WorkflowDocument, selected_step: usize, shortcut: WorkflowStepShortcut) -> (res:
    Result<ShortcutOutcome, StepEditError>)
    requires
        is_field_shortcut(shortcut_view(shortcut)),
    ensures
        shortcut_frame(old(doc).fields@, final(doc).fields@, shortcut_view(shortcut), selected_step, res),
{
    let ghost f = shortcut_view(shortcut);
    let set_mode = match &shortcut {
        WorkflowStepShortcut::SetRunMode { .. } => true,
        _ => false,
    };
    let clears = match &shortcut {
        WorkflowStepShortcut::ClearName => true,
        WorkflowStepShortcut::ClearWhen => true,
        WorkflowStepShortcut::ClearModel => true,
        WorkflowStepShortcut::ClearBackend => true,
        WorkflowStepShortcut::ClearStepCwd => true,
        _ => false,
    };
    let (patch, label) = field_patch(shortcut);
    let ghost p = patch;
    let r = update_workflow_step(doc, selected_step, patch);
    let ghost rg = r;
    match r {
        Ok(()) => {
            let mut m = if set_mode {
                "Set".to_owned()
            } else if clears {
                "Cleared".to_owned()
            } else {
                "Updated".to_owned()
            };
            m.append(" workflow step ");
            push_decimal(&mut m, selected_step as u64);
            if set_mode {
                m.append(" to ");
                m.append(label.as_str());
                m.append(" mode.");
            } else {
                m.append(" ");
                m.append(label.as_str());
                m.append(".");
            }
            Ok(ShortcutOutcome { selected_step: Some(selected_step), message: m })
        },
        Err(e) => Err(e),
    }
}

/// Applies a step shortcut typed in the panel to the selected step (1-based) of a
/// script; returns the step to select next and the message to show. The script is
/// left as it was on a refusal.
pub fn execute_workflow_step_shortcut(
    doc: &mut WorkflowDocument,
    selected_step: usize,
    shortcut: WorkflowStepShortcut,
) -> (res: Result<ShortcutOutcome, StepEditError>)
    requires
        doc_steps(old(doc).fields@) matches Some(s) ==> s.len() < usize::MAX,
    ensures
        shortcut_frame(old(doc).fields@, final(doc).fields@, shortcut_view(shortcut), selected_step, res),
{
    match shortcut {
        WorkflowStepShortcut::Duplicate { to_step_number } => duplicate_shortcut(doc, selected_step, to_step_number),
        WorkflowStepShortcut::Move { to_step_number } => move_shortcut(doc, selected_step, to_step_number),
        WorkflowStepShortcut::Remove => remove_shortcut(doc, selected_step),
        other => field_shortcut(doc, selected_step, other),
    }
}

/// Number of steps in a script whose `steps` is a list.
fn step_count(doc: &WorkflowDocument) -> (res: usize)
    requires
        doc_steps(doc.fields@) is Some,
    ensures
        res == doc_steps(doc.fields@)->0.len(),
{
    match doc.fields.get("steps") {
        Some(DocValue::Steps(v)) => v.len(),
        _ => 0,
    }
}

/// Whether a script's step list leaves room for one more step.
pub fn doc_step_limit_ok(doc: &WorkflowDocument) -> (res: bool)
    ensures
        res == (doc_steps(doc.fields@) matches Some(s) ==> s.len() < usize::MAX),
{
    match doc.fields.get("steps") {
        Some(DocValue::Steps(v)) => v.len() < usize::MAX,
        _ => true,
    }
}

} // verus!
