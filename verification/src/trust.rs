//! Decisions of the workspace trust prompt: keys, dialog state, line styling and
//! the remembered trust of workspaces.

use vstd::prelude::*;

use crate::keys::{is_ctrl_c, is_ctrl_c_spec, KeyCode, KeyInput};
use crate::language::AppLanguage;
use crate::text::{
    concat2, concat3, has_prefix, replace_char, replace_seq, starts_with, str_eq, trim,
    trim_seq, trim_start, trim_start_seq, views,
};
use crate::trust_copy::{other_selection, selection_choice, TrustChoice, TrustMode, TrustSelection};

verus! {

/// ANSI reset sequence.
pub const ANSI_RESET: &'static str = "\x1b[0m";

/// ANSI bold.
pub const ANSI_BOLD: &'static str = "\x1b[1m";

/// ANSI dim.
pub const ANSI_DIM: &'static str = "\x1b[2m";

/// ANSI yellow, for warnings.
pub const ANSI_WARNING: &'static str = "\x1b[33m";

/// ANSI cyan, for the highlighted option.
pub const ANSI_SUGGESTION: &'static str = "\x1b[36m";

/// What a key does in the trust dialog.
#[derive(Clone, Copy, Debug, PartialEq, Eq, Structural)]
pub enum TrustKeyAction {
    MovePrevious,
    MoveNext,
    Confirm,
    ConfirmTrust,
    ConfirmExit,
    Cancel,
    ArmExit,
    ExitImmediately,
    Ignore,
}

/// Single keys that answer "yes".
pub open spec fn single_key_accept_spec(language: AppLanguage, value: char) -> bool {
    value == 'y' || value == 'Y' || (language == AppLanguage::SimplifiedChinese && value == '是')
}

/// Single keys that answer "no".
pub open spec fn single_key_reject_spec(language: AppLanguage, value: char) -> bool {
    value == 'n' || value == 'N' || (language == AppLanguage::SimplifiedChinese && value == '否')
}

/// Whether a single key answers "yes".
pub fn matches_single_key_accept(language: AppLanguage, value: char) -> (res: bool)
    ensures
        res == single_key_accept_spec(language, value),
{
    match language {
        AppLanguage::English => value == 'y' || value == 'Y',
        AppLanguage::SimplifiedChinese => value == 'y' || value == 'Y' || value == '是',
    }
}

/// Whether a single key answers "no".
pub fn matches_single_key_reject(language: AppLanguage, value: char) -> (res: bool)
    ensures
        res == single_key_reject_spec(language, value),
{
    match language {
        AppLanguage::English => value == 'n' || value == 'N',
        AppLanguage::SimplifiedChinese => value == 'n' || value == 'N' || value == '否',
    }
}

/// The action of a key: Ctrl+C arms, then forces, the exit; arrows move; Enter
/// confirms; Esc cancels; `1`/`2` and the yes/no letters answer directly.
pub open spec fn trust_key_action_spec(language: AppLanguage, key: KeyInput, exit_pending: bool) -> TrustKeyAction {
    if is_ctrl_c_spec(key) {
        if exit_pending {
            TrustKeyAction::ExitImmediately
        } else {
            TrustKeyAction::ArmExit
        }
    } else {
        match key.code {
            KeyCode::Up | KeyCode::Left => TrustKeyAction::MovePrevious,
            KeyCode::Down | KeyCode::Right => TrustKeyAction::MoveNext,
            KeyCode::Enter => TrustKeyAction::Confirm,
            KeyCode::Esc => TrustKeyAction::Cancel,
            KeyCode::Char(ch) => if ch == '1' {
                TrustKeyAction::ConfirmTrust
            } else if ch == '2' {
                TrustKeyAction::ConfirmExit
            } else if single_key_accept_spec(language, ch) {
                TrustKeyAction::ConfirmTrust
            } else if single_key_reject_spec(language, ch) {
                TrustKeyAction::ConfirmExit
            } else {
                TrustKeyAction::Ignore
            },
            KeyCode::Other => TrustKeyAction::Ignore,
        }
    }
}

/// The action of a key in the trust dialog.
pub fn resolve_key_action(language: AppLanguage, key: KeyInput, exit_pending: bool) -> (res:
    TrustKeyAction)
    ensures
        res == trust_key_action_spec(language, key, exit_pending),
{
    if is_ctrl_c(key) {
        return if exit_pending {
            TrustKeyAction::ExitImmediately
        } else {
            TrustKeyAction::ArmExit
        };
    }
    match key.code {
        KeyCode::Up | KeyCode::Left => TrustKeyAction::MovePrevious,
        KeyCode::Down | KeyCode::Right => TrustKeyAction::MoveNext,
        KeyCode::Enter => TrustKeyAction::Confirm,
        KeyCode::Esc => TrustKeyAction::Cancel,
        KeyCode::Char(ch) => {
            if ch == '1' {
                TrustKeyAction::ConfirmTrust
            } else if ch == '2' {
                TrustKeyAction::ConfirmExit
            } else if matches_single_key_accept(language, ch) {
                TrustKeyAction::ConfirmTrust
            } else if matches_single_key_reject(language, ch) {
                TrustKeyAction::ConfirmExit
            } else {
                TrustKeyAction::Ignore
            }
        },
        KeyCode::Other => TrustKeyAction::Ignore,
    }
}

/// State of the interactive trust dialog.
#[derive(Clone, Copy, Debug, PartialEq, Eq, Structural)]
pub struct TrustDialogState {
    pub selection: TrustSelection,
    pub exit_pending: bool,
}

/// What the dialog does after a key: keep asking in a new state, or answer.
#[derive(Clone, Copy, Debug, PartialEq, Eq, Structural)]
pub enum TrustDialogOutcome {
    Continue(TrustDialogState),
    Finished(TrustChoice),
}

/// The dialog's state at its start: "trust" highlighted, no exit armed.
pub fn initial_trust_dialog_state() -> (res: TrustDialogState)
    ensures
        res == (TrustDialogState { selection: TrustSelection::Trust, exit_pending: false }),
{
    TrustDialogState { selection: TrustSelection::Trust, exit_pending: false }
}

/// The dialog's reaction to one key action.
pub open spec fn trust_dialog_step_spec(state: TrustDialogState, action: TrustKeyAction) -> TrustDialogOutcome {
    match action {
        TrustKeyAction::MovePrevious | TrustKeyAction::MoveNext => TrustDialogOutcome::Continue(
            TrustDialogState { selection: other_selection(state.selection), exit_pending: false },
        ),
        TrustKeyAction::Confirm => TrustDialogOutcome::Finished(selection_choice(state.selection)),
        TrustKeyAction::ConfirmTrust => TrustDialogOutcome::Finished(TrustChoice::Trust),
        TrustKeyAction::ConfirmExit | TrustKeyAction::Cancel | TrustKeyAction::ExitImmediately => {
            TrustDialogOutcome::Finished(TrustChoice::Exit)
        },
        TrustKeyAction::ArmExit => TrustDialogOutcome::Continue(
            TrustDialogState { selection: state.selection, exit_pending: true },
        ),
        TrustKeyAction::Ignore => TrustDialogOutcome::Continue(state),
    }
}

/// The dialog's reaction to one key, given the key's action.
pub fn trust_dialog_step(state: TrustDialogState, action: TrustKeyAction) -> (res:
    TrustDialogOutcome)
    ensures
        res == trust_dialog_step_spec(state, action),
{
    match action {
        TrustKeyAction::MovePrevious => TrustDialogOutcome::Continue(
            TrustDialogState { selection: state.selection.previous(), exit_pending: false },
        ),
        TrustKeyAction::MoveNext => TrustDialogOutcome::Continue(
            TrustDialogState { selection: state.selection.next(), exit_pending: false },
        ),
        TrustKeyAction::Confirm => TrustDialogOutcome::Finished(state.selection.choice()),
        TrustKeyAction::ConfirmTrust => TrustDialogOutcome::Finished(TrustChoice::Trust),
        TrustKeyAction::ConfirmExit => TrustDialogOutcome::Finished(TrustChoice::Exit),
        TrustKeyAction::Cancel => TrustDialogOutcome::Finished(TrustChoice::Exit),
        TrustKeyAction::ArmExit => TrustDialogOutcome::Continue(
            TrustDialogState { selection: state.selection, exit_pending: true },
        ),
        TrustKeyAction::ExitImmediately => TrustDialogOutcome::Finished(TrustChoice::Exit),
        TrustKeyAction::Ignore => TrustDialogOutcome::Continue(state),
    }
}

/// The dialog's reaction to a key event.
pub fn trust_dialog_handle_key(language: AppLanguage, state: TrustDialogState, key: KeyInput) -> (res:
    TrustDialogOutcome)
    ensures
        res == trust_dialog_step_spec(state, trust_key_action_spec(language, key, state.exit_pending)),
{
    let action = resolve_key_action(language, key, state.exit_pending);
    trust_dialog_step(state, action)
}

/// Law: pressing Ctrl+C twice in a row ends the dialog with "exit", whatever
/// state it was in.
pub proof fn lemma_double_ctrl_c_exits(language: AppLanguage, state: TrustDialogState, key: KeyInput)
    requires
        is_ctrl_c_spec(key),
    ensures
        match trust_dialog_step_spec(state, trust_key_action_spec(language, key, state.exit_pending)) {
            TrustDialogOutcome::Continue(next) => trust_dialog_step_spec(
                next,
                trust_key_action_spec(language, key, next.exit_pending),
            ) == TrustDialogOutcome::Finished(TrustChoice::Exit),
            TrustDialogOutcome::Finished(choice) => choice == TrustChoice::Exit,
        },
{
}

/// Law: moving the highlight twice brings it back, and always disarms a pending exit.
pub proof fn lemma_move_twice_returns(state: TrustDialogState)
    ensures
        match trust_dialog_step_spec(state, TrustKeyAction::MoveNext) {
            TrustDialogOutcome::Continue(s1) => match trust_dialog_step_spec(s1, TrustKeyAction::MovePrevious) {
                TrustDialogOutcome::Continue(s2) => s2.selection == state.selection && !s1.exit_pending && !s2.exit_pending,
                TrustDialogOutcome::Finished(_) => false,
            },
            TrustDialogOutcome::Finished(_) => false,
        },
{
}

/// The dialog's reaction to a key event, as `trust_dialog_handle_key` gives it.
pub open spec fn key_outcome(language: AppLanguage, state: TrustDialogState, key: KeyInput) -> TrustDialogOutcome {
    trust_dialog_step_spec(state, trust_key_action_spec(language, key, state.exit_pending))
}

/// Law: what each key does to the dialog. Enter answers with the highlighted option
/// ("trust" when "Yes, I trust this folder" is highlighted, "exit" otherwise); an
/// arrow moves the highlight to the other option and disarms a pending exit; `1`,
/// `y` and `Y` trust; `2`, `n`, `N` and Esc exit; a first Ctrl+C keeps the
/// highlight and arms the exit, a second one exits.
pub proof fn lemma_trust_dialog_keys(language: AppLanguage, state: TrustDialogState, key: KeyInput)
    ensures
        key.code == KeyCode::Enter ==> key_outcome(language, state, key) == TrustDialogOutcome::Finished(
            if state.selection == TrustSelection::Trust {
                TrustChoice::Trust
            } else {
                TrustChoice::Exit
            },
        ),
        (key.code == KeyCode::Up || key.code == KeyCode::Down || key.code == KeyCode::Left || key.code
            == KeyCode::Right) ==> key_outcome(language, state, key) == TrustDialogOutcome::Continue(
            TrustDialogState {
                selection: if state.selection == TrustSelection::Trust {
                    TrustSelection::Exit
                } else {
                    TrustSelection::Trust
                },
                exit_pending: false,
            },
        ),
        (key.code == KeyCode::Char('1') || key.code == KeyCode::Char('y') || key.code == KeyCode::Char(
            'Y',
        )) ==> key_outcome(language, state, key) == TrustDialogOutcome::Finished(TrustChoice::Trust),
        (key.code == KeyCode::Char('2') || key.code == KeyCode::Char('n') || key.code == KeyCode::Char(
            'N',
        ) || key.code == KeyCode::Esc) ==> key_outcome(language, state, key)
            == TrustDialogOutcome::Finished(TrustChoice::Exit),
        is_ctrl_c_spec(key) && !state.exit_pending ==> key_outcome(language, state, key)
            == TrustDialogOutcome::Continue(
            TrustDialogState { selection: state.selection, exit_pending: true },
        ),
        is_ctrl_c_spec(key) && state.exit_pending ==> key_outcome(language, state, key)
            == TrustDialogOutcome::Finished(TrustChoice::Exit),
{
}

/// `value` between a style prefix and the reset sequence.
pub open spec fn colorize_spec(prefix: Seq<char>, value: Seq<char>) -> Seq<char> {
    prefix + value + ANSI_RESET@
}

/// `value` between a style prefix and the reset sequence.
pub fn colorize(prefix: &str, value: &str) -> (res: String)
    ensures
        res@ == colorize_spec(prefix@, value@),
{
    concat3(prefix, value, ANSI_RESET)
}

/// Whether a (left-trimmed) line is the dialog footer.
pub open spec fn footer_line_spec(trimmed: Seq<char>) -> bool {
    has_prefix(trimmed, "Enter "@) || has_prefix(trimmed, "Press Ctrl+C"@) || has_prefix(
        trimmed,
        "再按一次 Ctrl+C"@,
    ) || has_prefix(trimmed, "Enter 确认"@)
}

/// Whether a (left-trimmed) line is the dialog footer.
pub fn is_trust_footer_line(trimmed: &str) -> (res: bool)
    ensures
        res == footer_line_spec(trimmed@),
{
    starts_with(trimmed, "Enter ") || starts_with(trimmed, "Press Ctrl+C") || starts_with(
        trimmed,
        "再按一次 Ctrl+C",
    ) || starts_with(trimmed, "Enter 确认")
}

/// Whether a line, left-trimmed, is the dialog title in either language.
pub open spec fn is_title_line(line: Seq<char>) -> bool {
    let t = trim_start_seq(line);
    t == "Accessing workspace:"@ || t == "正在访问工作区："@
}

/// Whether a line holds only white space.
pub open spec fn is_blank(line: Seq<char>) -> bool {
    trim_seq(line).len() == 0
}

/// First title line at or after `k`.
pub open spec fn find_title(lines: Seq<Seq<char>>, k: nat) -> Option<nat>
    decreases lines.len() - k,
{
    if k >= lines.len() {
        None
    } else if is_title_line(lines[k as int]) {
        Some(k)
    } else {
        find_title(lines, k + 1)
    }
}

/// First non-blank line at or after `k`.
pub open spec fn find_nonblank(lines: Seq<Seq<char>>, k: nat) -> Option<nat>
    decreases lines.len() - k,
{
    if k >= lines.len() {
        None
    } else if !is_blank(lines[k as int]) {
        Some(k)
    } else {
        find_nonblank(lines, k + 1)
    }
}

/// First blank line at or after `k`.
pub open spec fn find_blank(lines: Seq<Seq<char>>, k: nat) -> Option<nat>
    decreases lines.len() - k,
{
    if k >= lines.len() {
        None
    } else if is_blank(lines[k as int]) {
        Some(k)
    } else {
        find_blank(lines, k + 1)
    }
}

/// Whether `line` belongs to the workspace path block: the non-blank lines that
/// follow the title, up to the next blank line.
pub open spec fn trust_path_line_spec(lines: Seq<Seq<char>>, line: Seq<char>) -> bool {
    !is_blank(line) && match find_title(lines, 0) {
        None => false,
        Some(t) => match find_nonblank(lines, t + 1) {
            None => false,
            Some(start) => {
                let end = match find_blank(lines, start) {
                    Some(e) => e,
                    None => lines.len(),
                };
                exists|i: int| start <= i < end && lines[i] == line
            },
        },
    }
}

fn is_blank_line(line: &str) -> (res: bool)
    ensures
        res == is_blank(line@),
{
    let t = trim(line);
    t.as_str().unicode_len() == 0
}

fn is_title(line: &str) -> (res: bool)
    ensures
        res == is_title_line(line@),
{
    let t = trim_start(line);
    str_eq(t.as_str(), "Accessing workspace:") || str_eq(t.as_str(), "正在访问工作区：")
}

/// Whether `line` belongs to the workspace path block of the dialog `lines`.
#[verifier::loop_isolation(false)]
pub fn is_trust_path_line(lines: &Vec<String>, line: &str) -> (res: bool)
    ensures
        res == trust_path_line_spec(views(lines@), line@),
{
    let ghost ls = views(lines@);
    if is_blank_line(line) {
        return false;
    }
    let n = lines.len();
    let mut t: usize = 0;
    while t < n && !is_title(lines[t].as_str())
        invariant
            n == lines@.len(),
            ls == views(lines@),
            t <= n,
            find_title(ls, 0) == find_title(ls, t as nat),
        decreases n - t,
    {
        t = t + 1;
    }
    if t >= n {
        return false;
    }
    let mut start = t + 1;
    while start < n && is_blank_line(lines[start].as_str())
        invariant
            n == lines@.len(),
            ls == views(lines@),
            t < start <= n,
            find_nonblank(ls, (t + 1) as nat) == find_nonblank(ls, start as nat),
        decreases n - start,
    {
        start = start + 1;
    }
    if start >= n {
        return false;
    }
    let mut end = start;
    while end < n && !is_blank_line(lines[end].as_str())
        invariant
            n == lines@.len(),
            ls == views(lines@),
            start <= end <= n,
            find_blank(ls, start as nat) == find_blank(ls, end as nat),
        decreases n - end,
    {
        end = end + 1;
    }
    let mut i = start;
    while i < end
        invariant
            n == lines@.len(),
            ls == views(lines@),
            start <= i <= end <= n,
            forall|k: int| start <= k < i ==> ls[k] != line@,
        decreases end - i,
    {
        if str_eq(lines[i].as_str(), line) {
            assert(ls[i as int] == line@);
            return true;
        }
        i = i + 1;
    }
    false
}

/// How a dialog line is styled on screen.
pub open spec fn style_trust_line_spec(lines: Seq<Seq<char>>, line: Seq<char>) -> Seq<char> {
    let trimmed = trim_start_seq(line);
    if has_prefix(line, "╭"@) {
        colorize_spec(ANSI_WARNING@, line)
    } else if trimmed == "Accessing workspace:"@ || trimmed == "正在访问工作区："@ {
        colorize_spec(ANSI_BOLD@ + ANSI_WARNING@, line)
    } else if trust_path_line_spec(lines, line) {
        colorize_spec(ANSI_BOLD@, line)
    } else if has_prefix(trimmed, "❯"@) {
        colorize_spec(ANSI_BOLD@ + ANSI_SUGGESTION@, line)
    } else if has_prefix(trimmed, "Security guide"@) || has_prefix(trimmed, "安全指南"@) {
        colorize_spec(ANSI_DIM@, line)
    } else if footer_line_spec(trimmed) {
        colorize_spec(ANSI_DIM@, line)
    } else {
        line
    }
}

/// How a dialog line is styled on screen.
pub fn style_trust_dialog_line(lines: &Vec<String>, line: &str) -> (res: String)
    ensures
        res@ == style_trust_line_spec(views(lines@), line@),
{
    let trimmed = trim_start(line);
    let t = trimmed.as_str();
    if starts_with(line, "╭") {
        return colorize(ANSI_WARNING, line);
    }
    if str_eq(t, "Accessing workspace:") || str_eq(t, "正在访问工作区：") {
        let prefix = concat2(ANSI_BOLD, ANSI_WARNING);
        return colorize(prefix.as_str(), line);
    }
    if is_trust_path_line(lines, line) {
        return colorize(ANSI_BOLD, line);
    }
    if starts_with(t, "❯") {
        let prefix = concat2(ANSI_BOLD, ANSI_SUGGESTION);
        return colorize(prefix.as_str(), line);
    }
    if starts_with(t, "Security guide") || starts_with(t, "安全指南") {
        return colorize(ANSI_DIM, line);
    }
    if is_trust_footer_line(t) {
        return colorize(ANSI_DIM, line);
    }
    line.to_owned()
}


/// A workspace that was trusted, and when (seconds since the Unix epoch).
#[derive(Debug)]
pub struct TrustedWorkspace {
    pub path: String,
    pub accepted_at: u64,
}

/// The remembered trust decisions, one entry per normalized workspace path.
#[derive(Debug)]
pub struct WorkspaceTrustStore {
    pub trusted_workspaces: Vec<TrustedWorkspace>,
}

/// The workspaces of a list of entries, each with the time it was trusted; a later
/// entry for the same path wins.
pub open spec fn trust_map(entries: Seq<TrustedWorkspace>) -> Map<Seq<char>, u64>
    decreases entries.len(),
{
    if entries.len() == 0 {
        Map::empty()
    } else {
        trust_map(entries.drop_last()).insert(entries.last().path@, entries.last().accepted_at)
    }
}

/// Whether no path occurs twice.
pub open spec fn unique_paths(entries: Seq<TrustedWorkspace>) -> bool {
    forall|i: int, j: int|
        0 <= i < j < entries.len() ==> entries[i].path@ != entries[j].path@
}

proof fn lemma_trust_map_domain(entries: Seq<TrustedWorkspace>, p: Seq<char>)
    ensures
        trust_map(entries).contains_key(p) <==> exists|i: int|
            0 <= i < entries.len() && #[trigger] entries[i].path@ == p,
    decreases entries.len(),
{
    if entries.len() > 0 {
        lemma_trust_map_domain(entries.drop_last(), p);
        if exists|i: int| 0 <= i < entries.len() && #[trigger] entries[i].path@ == p {
            let i = choose|i: int| 0 <= i < entries.len() && #[trigger] entries[i].path@ == p;
            if i < entries.len() - 1 {
                assert(entries.drop_last()[i].path@ == p);
            }
        }
        if exists|i: int| 0 <= i < entries.len() - 1 && #[trigger] entries.drop_last()[i].path@ == p {
            let i = choose|i: int| 0 <= i < entries.len() - 1 && #[trigger] entries.drop_last()[i].path@ == p;
            assert(entries[i].path@ == p);
        }
    }
}

proof fn lemma_trust_map_update(entries: Seq<TrustedWorkspace>, k: int, e: TrustedWorkspace)
    requires
        unique_paths(entries),
        0 <= k < entries.len(),
        entries[k].path@ == e.path@,
    ensures
        trust_map(entries.update(k, e)) == trust_map(entries).insert(e.path@, e.accepted_at),
        unique_paths(entries.update(k, e)),
    decreases entries.len(),
{
    let upd = entries.update(k, e);
    if k == entries.len() - 1 {
        assert(upd.drop_last() =~= entries.drop_last());
        assert(trust_map(upd) =~= trust_map(entries).insert(e.path@, e.accepted_at));
    } else {
        let d = entries.drop_last();
        assert(unique_paths(d));
        lemma_trust_map_update(d, k, e);
        assert(upd.drop_last() =~= d.update(k, e));
        assert(entries.last().path@ != e.path@);
        assert(trust_map(upd) =~= trust_map(entries).insert(e.path@, e.accepted_at));
    }
    assert forall|i: int, j: int| 0 <= i < j < upd.len() implies upd[i].path@ != upd[j].path@ by {
        assert(entries[i].path@ != entries[j].path@);
    }
}

impl WorkspaceTrustStore {
    /// The trusted workspaces, each with the time it was trusted.
    pub open spec fn view(&self) -> Map<Seq<char>, u64> {
        trust_map(self.trusted_workspaces@)
    }

    /// Well-formedness: every path has one entry.
    pub open spec fn wf(&self) -> bool {
        unique_paths(self.trusted_workspaces@)
    }

    /// A store that trusts nothing.
    pub fn new() -> (res: Self)
        ensures
            res.wf(),
            res@ == Map::<Seq<char>, u64>::empty(),
    {
        WorkspaceTrustStore { trusted_workspaces: Vec::new() }
    }

    /// Whether the workspace at `normalized` is trusted.
    pub fn contains(&self, normalized: &str) -> (res: bool)
        ensures
            res == self@.contains_key(normalized@),
    {
        proof {
            lemma_trust_map_domain(self.trusted_workspaces@, normalized@);
        }
        let mut i: usize = 0;
        while i < self.trusted_workspaces.len()
            invariant
                i <= self.trusted_workspaces@.len(),
                forall|k: int| 0 <= k < i ==> self.trusted_workspaces@[k].path@ != normalized@,
            decreases self.trusted_workspaces@.len() - i,
        {
            if str_eq(self.trusted_workspaces[i].path.as_str(), normalized) {
                assert(self.trusted_workspaces@[i as int].path@ == normalized@);
                proof {
                    lemma_trust_map_domain(self.trusted_workspaces@, normalized@);
                }
                return true;
            }
            i = i + 1;
        }
        false
    }

    /// Trusts the workspace at `normalized` from `accepted_at` on, replacing an
    /// earlier entry for it.
    pub fn insert(&mut self, normalized: &str, accepted_at: u64)
        requires
            old(self).wf(),
        ensures
            final(self).wf(),
            final(self)@ == old(self)@.insert(normalized@, accepted_at),
            ({
                let before = old(self).trusted_workspaces@;
                let after = final(self).trusted_workspaces@;
                if exists|k: int| 0 <= k < before.len() && #[trigger] before[k].path@ == normalized@ {
                    &&& after.len() == before.len()
                    &&& forall|k: int|
                        0 <= k < before.len() ==> if before[k].path@ == normalized@ {
                            (#[trigger] after[k]).path@ == normalized@ && after[k].accepted_at == accepted_at
                        } else {
                            after[k] == before[k]
                        }
                } else {
                    &&& after.len() == before.len() + 1
                    &&& after.subrange(0, before.len() as int) == before
                    &&& after.last().path@ == normalized@
                    &&& after.last().accepted_at == accepted_at
                }
            }),
    {
        let entry = TrustedWorkspace { path: normalized.to_owned(), accepted_at };
        let mut i: usize = 0;
        while i < self.trusted_workspaces.len()
            invariant
                self.trusted_workspaces@ == old(self).trusted_workspaces@,
                unique_paths(self.trusted_workspaces@),
                entry.path@ == normalized@,
                entry.accepted_at == accepted_at,
                i <= self.trusted_workspaces@.len(),
                forall|k: int| 0 <= k < i ==> self.trusted_workspaces@[k].path@ != normalized@,
            decreases self.trusted_workspaces@.len() - i,
        {
            if str_eq(self.trusted_workspaces[i].path.as_str(), normalized) {
                proof {
                    lemma_trust_map_update(self.trusted_workspaces@, i as int, entry);
                }
                self.trusted_workspaces.set(i, entry);
                return;
            }
            i = i + 1;
        }
        let ghost before = self.trusted_workspaces@;
        self.trusted_workspaces.push(entry);
        assert(self.trusted_workspaces@.drop_last() =~= before);
        assert forall|a: int, b: int| 0 <= a < b < self.trusted_workspaces@.len() implies
            self.trusted_workspaces@[a].path@ != self.trusted_workspaces@[b].path@ by {
            if b < before.len() {
                assert(before[a].path@ != before[b].path@);
            }
        }
    }
}

/// Workspaces trusted for this session only.
#[derive(Debug)]
pub struct SessionTrustCache {
    pub entries: Vec<String>,
}

impl SessionTrustCache {
    /// The paths trusted for this session.
    pub open spec fn view(&self) -> Set<Seq<char>> {
        Set::new(|p: Seq<char>| exists|i: int| 0 <= i < self.entries@.len() && #[trigger] self.entries@[i]@ == p)
    }

    /// A cache that trusts nothing.
    pub fn new() -> (res: Self)
        ensures
            res@ == Set::<Seq<char>>::empty(),
    {
        let res = SessionTrustCache { entries: Vec::new() };
        assert(res@ =~= Set::<Seq<char>>::empty());
        res
    }

    /// Whether `normalized` is trusted for this session.
    pub fn contains(&self, normalized: &str) -> (res: bool)
        ensures
            res == self@.contains(normalized@),
    {
        let mut i: usize = 0;
        while i < self.entries.len()
            invariant
                i <= self.entries@.len(),
                forall|k: int| 0 <= k < i ==> self.entries@[k]@ != normalized@,
            decreases self.entries@.len() - i,
        {
            if str_eq(self.entries[i].as_str(), normalized) {
                assert(self.entries@[i as int]@ == normalized@);
                return true;
            }
            i = i + 1;
        }
        false
    }

    /// Trusts `normalized` for the rest of the session.
    pub fn insert(&mut self, normalized: &str)
        ensures
            final(self)@ == old(self)@.insert(normalized@),
    {
        if !self.contains(normalized) {
            let ghost before = self.entries@;
            self.entries.push(normalized.to_owned());
            assert forall|p: Seq<char>| #[trigger] self@.contains(p) == old(self)@.insert(normalized@).contains(p) by {
                if p == normalized@ {
                    assert(self.entries@[before.len() as int]@ == p);
                }
                if exists|i: int| 0 <= i < before.len() && #[trigger] before[i]@ == p {
                    let i = choose|i: int| 0 <= i < before.len() && #[trigger] before[i]@ == p;
                    assert(self.entries@[i]@ == p);
                }
                if exists|i: int| 0 <= i < self.entries@.len() && #[trigger] self.entries@[i]@ == p {
                    let i = choose|i: int| 0 <= i < self.entries@.len() && #[trigger] self.entries@[i]@ == p;
                    if i < before.len() {
                        assert(before[i]@ == p);
                    }
                }
            }
            assert(self@ =~= old(self)@.insert(normalized@));
        } else {
            assert(self@ =~= old(self)@.insert(normalized@));
        }
    }
}

/// Whether `normalized` is trusted under `mode`: in the store when remembered,
/// in the session cache when session-only.
pub open spec fn is_trusted_spec(
    store: Map<Seq<char>, u64>,
    cache: Set<Seq<char>>,
    normalized: Seq<char>,
    mode: TrustMode,
) -> bool {
    match mode {
        TrustMode::RememberWorkspace => store.contains_key(normalized),
        TrustMode::SessionOnly => cache.contains(normalized),
    }
}

/// Whether the workspace at `normalized` is trusted under `mode`.
pub fn is_workspace_trusted(
    store: &WorkspaceTrustStore,
    cache: &SessionTrustCache,
    normalized: &str,
    mode: TrustMode,
) -> (res: bool)
    ensures
        res == is_trusted_spec(store@, cache@, normalized@, mode),
{
    match mode {
        TrustMode::RememberWorkspace => store.contains(normalized),
        TrustMode::SessionOnly => cache.contains(normalized),
    }
}

/// Records that the workspace at `normalized` is trusted: in the store (from
/// `accepted_at` on) when remembered, in the session cache when session-only.
pub fn remember_workspace_trust(
    store: &mut WorkspaceTrustStore,
    cache: &mut SessionTrustCache,
    normalized: &str,
    mode: TrustMode,
    accepted_at: u64,
)
    requires
        old(store).wf(),
    ensures
        final(store).wf(),
        match mode {
            TrustMode::RememberWorkspace => final(store)@ == old(store)@.insert(normalized@, accepted_at)
                && final(cache)@ == old(cache)@,
            TrustMode::SessionOnly => final(store)@ == old(store)@ && final(cache)@ == old(cache)@.insert(
                normalized@,
            ),
        },
{
    match mode {
        TrustMode::RememberWorkspace => store.insert(normalized, accepted_at),
        TrustMode::SessionOnly => cache.insert(normalized),
    }
}

/// Law: once a workspace is remembered as trusted under a mode, it reads as
/// trusted under that mode, and every workspace trusted before stays trusted.
pub proof fn lemma_remembered_trust_is_read_back(
    store: Map<Seq<char>, u64>,
    cache: Set<Seq<char>>,
    normalized: Seq<char>,
    other: Seq<char>,
    mode: TrustMode,
    other_mode: TrustMode,
    accepted_at: u64,
)
    ensures
        ({
            let (store2, cache2) = match mode {
                TrustMode::RememberWorkspace => (store.insert(normalized, accepted_at), cache),
                TrustMode::SessionOnly => (store, cache.insert(normalized)),
            };
            &&& is_trusted_spec(store2, cache2, normalized, mode)
            &&& is_trusted_spec(store, cache, other, other_mode) ==> is_trusted_spec(
                store2,
                cache2,
                other,
                other_mode,
            )
        }),
{
}

/// The trust mode of a workspace: session-only for the home directory itself,
/// remembered otherwise.
pub open spec fn trust_mode_spec(normalized: Seq<char>, home: Option<Seq<char>>) -> TrustMode {
    if home == Some(normalized) {
        TrustMode::SessionOnly
    } else {
        TrustMode::RememberWorkspace
    }
}

/// The trust mode of a workspace, given its normalized path and the normalized
/// home directory.
pub fn resolve_trust_mode(normalized: &str, home: Option<&str>) -> (res: TrustMode)
    ensures
        res == trust_mode_spec(normalized@, match home {
            Some(h) => Some(h@),
            None => None,
        }),
{
    match home {
        Some(h) => {
            if str_eq(h, normalized) {
                TrustMode::SessionOnly
            } else {
                TrustMode::RememberWorkspace
            }
        },
        None => TrustMode::RememberWorkspace,
    }
}

/// `s` with every leading copy of `prefix` removed (`str::trim_start_matches`).
pub open spec fn strip_all_prefix(s: Seq<char>, prefix: Seq<char>) -> Seq<char>
    decreases s.len(),
{
    if prefix.len() > 0 && has_prefix(s, prefix) {
        strip_all_prefix(s.subrange(prefix.len() as int, s.len() as int), prefix)
    } else {
        s
    }
}

/// The stored form of a displayed workspace path: forward slashes, without the
/// `//?/` prefix of extended Windows paths.
pub open spec fn normalized_path_spec(display: Seq<char>) -> Seq<char> {
    strip_all_prefix(replace_seq(display, '\\', "/"@), "//?/"@)
}

/// The stored form of a displayed workspace path.
pub fn normalize_workspace_path_text(display: &str) -> (res: String)
    ensures
        res@ == normalized_path_spec(display@),
{
    let replaced = replace_char(display, '\\', "/");
    let mut cur = replaced;
    let prefix = "//?/";
    proof {
        reveal_strlit("//?/");
    }
    while starts_with(cur.as_str(), prefix)
        invariant
            strip_all_prefix(cur@, prefix@) == normalized_path_spec(display@),
            prefix@.len() == 4,
        decreases cur@.len(),
    {
        let chars = crate::text::chars_of(cur.as_str());
        cur = crate::text::string_from_range(&chars, 4, chars.len());
    }
    cur
}

} // verus!
