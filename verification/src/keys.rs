//! The key-event vocabulary of the dispatcher, and the actions it produces.
//!
//! Key events arrive from the terminal and are reduced to the parts the
//! dispatcher inspects: a key code and whether the control modifier is held.
//! The editor pane owns its own modal state; the dispatcher only queries
//! which mode the editor currently reports, so that mode is an input here.

use vstd::prelude::*;

verus! {

/// The key codes the dispatcher distinguishes. Every other key collapses
/// into `Other`: the dispatcher treats all of those alike.
#[derive(Clone, Copy, Debug, PartialEq, Eq, Structural)]
pub enum KeyCode {
    Tab,
    Esc,
    Enter,
    Up,
    Down,
    Char(char),
    Other,
}

/// One key press: the code and whether Ctrl was held with it.
#[derive(Clone, Copy, Debug, PartialEq, Eq, Structural)]
pub struct KeyEvent {
    pub code: KeyCode,
    pub ctrl: bool,
}

/// The mode the editor pane reports for its active buffer. The dispatcher
/// branches only on whether the mode is `Normal`; the remaining variants
/// mirror the editing sub-modes the editor itself distinguishes.
#[derive(Clone, Copy, Debug, PartialEq, Eq, Structural)]
pub enum EditorMode {
    Normal,
    Insert,
    Visual,
    Search,
}

/// An operation forwarded to the tree pane.
#[derive(Clone, Copy, Debug, PartialEq, Eq, Structural)]
pub enum TreeOp {
    MoveUp,
    MoveDown,
    ToggleSelect,
}

/// What one key event means. The surrounding event loop performs the action:
/// it forwards the carried event to the editor, applies the tree operation,
/// saves, quits, or repaints.
///
/// `ToggleOverlay(true)` opens the path-chooser overlay. `ToggleOverlay(false)`
/// closes it; the loop then forwards the dismissing Escape event to the
/// editor so the overlay's own line editor can react to the dismissal.
#[derive(Clone, Copy, Debug, PartialEq, Eq, Structural)]
pub enum Action {
    Continue,
    SwitchFocus,
    Quit,
    Save,
    ToggleOverlay(bool),
    ForwardToEditor(KeyEvent),
    ForwardToTree(TreeOp),
}

/// The designated focus-switch key.
pub open spec fn is_focus_switch(ev: KeyEvent) -> bool {
    ev.code is Tab
}

/// The designated quit combination.
pub open spec fn is_quit(ev: KeyEvent) -> bool {
    ev.ctrl && ev.code == KeyCode::Char('q')
}

/// The designated save combination.
pub open spec fn is_save(ev: KeyEvent) -> bool {
    ev.ctrl && ev.code == KeyCode::Char('s')
}

/// The key that, pressed twice in a row in the editor's normal mode,
/// opens the path-chooser overlay.
pub open spec fn trigger_key() -> KeyCode {
    KeyCode::Char('f')
}

/// A sequence-trigger press: the trigger key while the editor reports
/// normal mode.
pub open spec fn is_trigger(ev: KeyEvent, mode: EditorMode) -> bool {
    ev.code == trigger_key() && mode is Normal
}

} // verus!
