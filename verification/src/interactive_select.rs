//! The numbered single-choice list used during onboarding.

use vstd::prelude::*;

use crate::keys::{is_ctrl_c, is_ctrl_c_spec, KeyCode, KeyInput};
use crate::text::{concat3, decimal, has_prefix, push_decimal, starts_with, trim_start, trim_start_seq, views};
use crate::trust::{ANSI_BOLD, ANSI_DIM, ANSI_RESET, ANSI_SUGGESTION};

verus! {

/// One choice of the list: what is shown, and what choosing it yields.
#[derive(Debug)]
pub struct InteractiveOption<T> {
    pub label: String,
    pub value: T,
}

/// The labels of a list of options.
pub open spec fn option_labels<T>(options: Seq<InteractiveOption<T>>) -> Seq<Seq<char>> {
    options.map_values(|o: InteractiveOption<T>| o.label@)
}

/// The line of option `index`: `❯` marks the selected one, then its number from 1.
pub open spec fn option_line_spec(label: Seq<char>, index: nat, selected: nat) -> Seq<char> {
    (if index == selected {
        "❯"@
    } else {
        " "@
    }) + " "@ + decimal(index + 1) + ". "@ + label
}

/// The list's lines: one per option, a blank line, then the footer.
pub open spec fn select_lines_spec(labels: Seq<Seq<char>>, selected: nat, footer: Seq<char>) -> Seq<
    Seq<char>,
> {
    Seq::new(labels.len(), |i: int| option_line_spec(labels[i], i as nat, selected)) + seq![
        seq![],
        footer,
    ]
}

/// The list's lines: one per option, a blank line, then the footer.
pub fn render_lines<T>(options: &[InteractiveOption<T>], selected_index: usize, footer: &str) -> (res:
    Vec<String>)
    ensures
        views(res@) == select_lines_spec(option_labels(options@), selected_index as nat, footer@),
{
    let ghost labels = option_labels(options@);
    let mut lines: Vec<String> = Vec::new();
    let mut i: usize = 0;
    while i < options.len()
        invariant
            i <= options@.len(),
            labels == option_labels(options@),
            views(lines@) == Seq::new(
                i as nat,
                |k: int| option_line_spec(labels[k], k as nat, selected_index as nat),
            ),
        decreases options@.len() - i,
    {
        let mut line = String::new();
        line.append(if i == selected_index {
            "❯"
        } else {
            " "
        });
        line.append(" ");
        push_decimal(&mut line, (i + 1) as u64);
        line.append(". ");
        line.append(options[i].label.as_str());
        let ghost prev = lines@;
        assert(line@ == option_line_spec(labels[i as int], i as nat, selected_index as nat));
        lines.push(line);
        assert(views(lines@) =~= views(prev).push(
            option_line_spec(labels[i as int], i as nat, selected_index as nat),
        ));
        i = i + 1;
        assert(views(lines@) =~= Seq::new(
            i as nat,
            |k: int| option_line_spec(labels[k], k as nat, selected_index as nat),
        ));
    }
    let ghost body = lines@;
    lines.push(String::new());
    lines.push(footer.to_owned());
    assert(views(lines@) =~= views(body) + seq![seq![], footer@]);
    lines
}

/// How a list line is styled: the selected option bold cyan, hints dim.
pub open spec fn style_line_spec(line: Seq<char>) -> Seq<char> {
    let t = trim_start_seq(line);
    if has_prefix(t, "❯"@) {
        ANSI_BOLD@ + ANSI_SUGGESTION@ + line + ANSI_RESET@
    } else if has_prefix(t, "Enter "@) || has_prefix(t, "Press Ctrl+C"@) || has_prefix(
        t,
        "Enter 确认"@,
    ) || has_prefix(t, "再按一次 Ctrl+C"@) {
        ANSI_DIM@ + line + ANSI_RESET@
    } else {
        line
    }
}

/// How a list line is styled on screen.
pub fn style_line(line: &str) -> (res: String)
    ensures
        res@ == style_line_spec(line@),
{
    let trimmed = trim_start(line);
    let t = trimmed.as_str();
    if starts_with(t, "❯") {
        let mut s = String::new();
        s.append(ANSI_BOLD);
        s.append(ANSI_SUGGESTION);
        s.append(line);
        s.append(ANSI_RESET);
        return s;
    }
    if starts_with(t, "Enter ") || starts_with(t, "Press Ctrl+C") || starts_with(t, "Enter 确认")
        || starts_with(t, "再按一次 Ctrl+C") {
        return concat3(ANSI_DIM, line, ANSI_RESET);
    }
    line.to_owned()
}

/// The option a digit key picks: `1` is the first; other keys and numbers past the
/// end pick nothing.
pub open spec fn number_key_spec(ch: char, option_count: nat) -> Option<nat> {
    if '0' <= ch <= '9' {
        let d = (ch as u32 - 48) as nat;
        if 1 <= d <= option_count {
            Some((d - 1) as nat)
        } else {
            None
        }
    } else {
        None
    }
}

/// The option a digit key picks.
pub fn number_key_to_index(ch: char, option_count: usize) -> (res: Option<usize>)
    ensures
        match res {
            Some(i) => number_key_spec(ch, option_count as nat) == Some(i as nat),
            None => number_key_spec(ch, option_count as nat) is None,
        },
{
    if '0' <= ch && ch <= '9' {
        let d = (ch as u32 - 48) as usize;
        if d >= 1 && d <= option_count {
            Some(d - 1)
        } else {
            None
        }
    } else {
        None
    }
}

/// What a key does in the list.
#[derive(Clone, Copy, Debug, PartialEq, Eq, Structural)]
pub enum SelectionKeyAction {
    MovePrevious,
    MoveNext,
    Confirm,
    Choose(usize),
    Cancel,
    ArmExit,
    ExitImmediately,
    Ignore,
}

/// The action of a key: Ctrl+C arms, then forces, the exit; arrows move; Enter
/// confirms; Esc cancels; a digit picks that option.
pub open spec fn selection_key_spec(key: KeyInput, option_count: nat, exit_pending: bool) -> SelectionKeyAction {
    if is_ctrl_c_spec(key) {
        if exit_pending {
            SelectionKeyAction::ExitImmediately
        } else {
            SelectionKeyAction::ArmExit
        }
    } else {
        match key.code {
            KeyCode::Up | KeyCode::Left => SelectionKeyAction::MovePrevious,
            KeyCode::Down | KeyCode::Right => SelectionKeyAction::MoveNext,
            KeyCode::Enter => SelectionKeyAction::Confirm,
            KeyCode::Esc => SelectionKeyAction::Cancel,
            KeyCode::Char(ch) => match number_key_spec(ch, option_count) {
                Some(i) => SelectionKeyAction::Choose(i as usize),
                None => SelectionKeyAction::Ignore,
            },
            KeyCode::Other => SelectionKeyAction::Ignore,
        }
    }
}

/// The action of a key in the list.
pub fn resolve_key_action(key: KeyInput, option_count: usize, exit_pending: bool) -> (res:
    SelectionKeyAction)
    ensures
        res == selection_key_spec(key, option_count as nat, exit_pending),
{
    if is_ctrl_c(key) {
        return if exit_pending {
            SelectionKeyAction::ExitImmediately
        } else {
            SelectionKeyAction::ArmExit
        };
    }
    match key.code {
        KeyCode::Up | KeyCode::Left => SelectionKeyAction::MovePrevious,
        KeyCode::Down | KeyCode::Right => SelectionKeyAction::MoveNext,
        KeyCode::Enter => SelectionKeyAction::Confirm,
        KeyCode::Esc => SelectionKeyAction::Cancel,
        KeyCode::Char(ch) => match number_key_to_index(ch, option_count) {
            Some(i) => SelectionKeyAction::Choose(i),
            None => SelectionKeyAction::Ignore,
        },
        KeyCode::Other => SelectionKeyAction::Ignore,
    }
}

/// State of the list: the highlighted option and whether Ctrl+C was pressed once.
#[derive(Clone, Copy, Debug, PartialEq, Eq, Structural)]
pub struct SelectionState {
    pub selection: usize,
    pub exit_pending: bool,
}

/// What the list does after a key: keep asking, return an option's index, or give up.
#[derive(Clone, Copy, Debug, PartialEq, Eq, Structural)]
pub enum SelectionOutcome {
    Continue(SelectionState),
    Chosen(usize),
    Cancelled,
}

/// The list's first state: the default option (clamped to the list), no exit armed.
pub fn initial_selection_state(default_index: usize, option_count: usize) -> (res: SelectionState)
    requires
        option_count > 0,
    ensures
        res.selection == (if default_index < option_count {
            default_index
        } else {
            (option_count - 1) as usize
        }),
        !res.exit_pending,
{
    let selection = if default_index < option_count {
        default_index
    } else {
        option_count - 1
    };
    SelectionState { selection, exit_pending: false }
}

/// The list's reaction to one action; moving wraps around the ends.
pub open spec fn selection_step_spec(state: SelectionState, action: SelectionKeyAction, n: nat) -> SelectionOutcome {
    match action {
        SelectionKeyAction::MovePrevious => SelectionOutcome::Continue(
            SelectionState {
                selection: if state.selection == 0 {
                    (n - 1) as usize
                } else {
                    (state.selection - 1) as usize
                },
                exit_pending: false,
            },
        ),
        SelectionKeyAction::MoveNext => SelectionOutcome::Continue(
            SelectionState { selection: ((state.selection + 1) % (n as int)) as usize, exit_pending: false },
        ),
        SelectionKeyAction::Confirm => SelectionOutcome::Chosen(state.selection),
        SelectionKeyAction::Choose(i) => SelectionOutcome::Chosen(i),
        SelectionKeyAction::Cancel | SelectionKeyAction::ExitImmediately => SelectionOutcome::Cancelled,
        SelectionKeyAction::ArmExit => SelectionOutcome::Continue(
            SelectionState { selection: state.selection, exit_pending: true },
        ),
        SelectionKeyAction::Ignore => SelectionOutcome::Continue(state),
    }
}

/// The list's reaction to a key, for a list of `option_count` options.
pub fn selection_step(state: SelectionState, key: KeyInput, option_count: usize) -> (res:
    SelectionOutcome)
    requires
        option_count > 0,
        state.selection < option_count,
    ensures
        res == selection_step_spec(
            state,
            selection_key_spec(key, option_count as nat, state.exit_pending),
            option_count as nat,
        ),
        match res {
            SelectionOutcome::Continue(s) => s.selection < option_count,
            SelectionOutcome::Chosen(i) => i < option_count,
            SelectionOutcome::Cancelled => true,
        },
{
    match resolve_key_action(key, option_count, state.exit_pending) {
        SelectionKeyAction::MovePrevious => SelectionOutcome::Continue(
            SelectionState {
                selection: if state.selection == 0 {
                    option_count - 1
                } else {
                    state.selection - 1
                },
                exit_pending: false,
            },
        ),
        SelectionKeyAction::MoveNext => SelectionOutcome::Continue(
            SelectionState { selection: (state.selection + 1) % option_count, exit_pending: false },
        ),
        SelectionKeyAction::Confirm => SelectionOutcome::Chosen(state.selection),
        SelectionKeyAction::Choose(i) => SelectionOutcome::Chosen(i),
        SelectionKeyAction::Cancel => SelectionOutcome::Cancelled,
        SelectionKeyAction::ArmExit => SelectionOutcome::Continue(
            SelectionState { selection: state.selection, exit_pending: true },
        ),
        SelectionKeyAction::ExitImmediately => SelectionOutcome::Cancelled,
        SelectionKeyAction::Ignore => SelectionOutcome::Continue(state),
    }
}


/// The list's reaction to a key event, as `selection_step` gives it.
pub open spec fn key_outcome(state: SelectionState, key: KeyInput, n: nat) -> SelectionOutcome {
    selection_step_spec(state, selection_key_spec(key, n, state.exit_pending), n)
}

/// Law: what each key does to a list of `n` options. Down and Right move the highlight
/// to the next option, from the last back to the first; Up and Left move it to the
/// previous one, from the first to the last; both disarm a pending exit. Enter
/// chooses the highlighted option, a digit `d` from 1 to `n` chooses option `d`,
/// Esc gives up, and Ctrl+C arms the exit, then gives up.
pub proof fn lemma_selection_keys(state: SelectionState, key: KeyInput, n: nat)
    requires
        n > 0,
        state.selection < n,
    ensures
        (key.code == KeyCode::Down || key.code == KeyCode::Right) ==> key_outcome(state, key, n)
            == SelectionOutcome::Continue(
            SelectionState {
                selection: if state.selection + 1 == n {
                    0
                } else {
                    (state.selection + 1) as usize
                },
                exit_pending: false,
            },
        ),
        (key.code == KeyCode::Up || key.code == KeyCode::Left) ==> key_outcome(state, key, n)
            == SelectionOutcome::Continue(
            SelectionState {
                selection: if state.selection == 0 {
                    (n - 1) as usize
                } else {
                    (state.selection - 1) as usize
                },
                exit_pending: false,
            },
        ),
        key.code == KeyCode::Enter ==> key_outcome(state, key, n) == SelectionOutcome::Chosen(
            state.selection,
        ),
        key.code == KeyCode::Esc ==> key_outcome(state, key, n) == SelectionOutcome::Cancelled,
        key.code matches KeyCode::Char(c) ==> ('1' <= c <= '9' && (c as int) - 48 <= n ==> key_outcome(
            state,
            key,
            n,
        ) == SelectionOutcome::Chosen(((c as int) - 49) as usize)),
        is_ctrl_c_spec(key) && !state.exit_pending ==> key_outcome(state, key, n)
            == SelectionOutcome::Continue(SelectionState { selection: state.selection, exit_pending: true }),
        is_ctrl_c_spec(key) && state.exit_pending ==> key_outcome(state, key, n)
            == SelectionOutcome::Cancelled,
{
    if state.selection + 1 < n {
        assert((state.selection + 1) % (n as int) == state.selection + 1) by (nonlinear_arith)
            requires
                0 <= state.selection + 1 < n,
        ;
    } else {
        assert((state.selection + 1) % (n as int) == 0) by (nonlinear_arith)
            requires
                state.selection + 1 == n,
                n > 0,
        ;
    }
}

} // verus!
