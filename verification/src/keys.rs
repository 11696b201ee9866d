//! Keyboard input as the interactive dialogs read it.

use vstd::prelude::*;

verus! {

/// Which key was pressed.
#[derive(Clone, Copy, Debug, PartialEq, Eq, Structural)]
pub enum KeyCode {
    Up,
    Down,
    Left,
    Right,
    Enter,
    Esc,
    Char(char),
    Other,
}

/// Whether the key went down, repeats, or was released.
#[derive(Clone, Copy, Debug, PartialEq, Eq, Structural)]
pub enum KeyKind {
    Press,
    Repeat,
    Release,
}

/// One key event: the key, whether Control was held, and its kind.
#[derive(Clone, Copy, Debug, PartialEq, Eq, Structural)]
pub struct KeyInput {
    pub code: KeyCode,
    pub control: bool,
    pub kind: KeyKind,
}

/// Whether the event is Ctrl+C (either case).
pub open spec fn is_ctrl_c_spec(key: KeyInput) -> bool {
    key.control && (key.code == KeyCode::Char('c') || key.code == KeyCode::Char('C'))
}

/// Whether the event is Ctrl+C (either case).
pub fn is_ctrl_c(key: KeyInput) -> (res: bool)
    ensures
        res == is_ctrl_c_spec(key),
{
    key.control && (key.code == KeyCode::Char('c') || key.code == KeyCode::Char('C'))
}

/// Whether the dialogs act on the event: key presses and repeats, not releases.
pub fn is_key_press(key: KeyInput) -> (res: bool)
    ensures
        res == (key.kind == KeyKind::Press || key.kind == KeyKind::Repeat),
{
    match key.kind {
        KeyKind::Press | KeyKind::Repeat => true,
        KeyKind::Release => false,
    }
}

} // verus!
