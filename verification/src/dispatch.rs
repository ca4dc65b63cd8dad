//! The focus and command dispatcher: the sole arbiter of what a key event
//! means at any moment.
//!
//! The dispatcher owns which pane has focus, the progress of the two-key
//! overlay command, the overlay flag, the visibility of the editor pane and
//! the currently selected document. [`spec_step`] is the mathematical
//! transition function; [`Dispatcher::dispatch`] is the executable mirror,
//! proved equal to it step for step.

use vstd::prelude::*;

use crate::keys::{Action, EditorMode, KeyCode, KeyEvent, TreeOp};
use crate::keys::{is_focus_switch, is_quit, is_save, is_trigger, trigger_key};
use crate::store::{store_after, DocumentStore};

verus! {

/// Which pane receives non-global key events.
#[derive(Clone, Copy, Debug, PartialEq, Eq, Structural)]
pub enum Focus {
    Editor,
    Tree,
}

/// Progress toward the two-key overlay command: either nothing is buffered,
/// or one press of the trigger key awaits its repetition.
#[derive(Clone, Copy, Debug, PartialEq, Eq, Structural)]
pub enum Pending {
    Idle,
    Awaiting(KeyCode),
}

/// The dispatcher's whole state. Every field is mutated only by
/// [`Dispatcher::dispatch`] and [`Dispatcher::select_document`].
pub struct Dispatcher {
    /// Which pane non-global keys are routed to.
    pub focus: Focus,
    /// The buffered first half of the two-key overlay command.
    pub pending: Pending,
    /// Whether the modal path-chooser overlay is open.
    pub overlay_visible: bool,
    /// Whether any document has been selected yet; never reset.
    pub editor_visible: bool,
    /// The most recently selected document, `None` before the first selection.
    pub current_doc: Option<String>,
}

/// The other pane.
pub open spec fn toggled(f: Focus) -> Focus {
    match f {
        Focus::Editor => Focus::Tree,
        Focus::Tree => Focus::Editor,
    }
}

impl Dispatcher {
    /// A key may be buffered only while the editor pane has focus, and the
    /// buffered key can only be the overlay trigger.
    pub open spec fn wf(&self) -> bool {
        self.pending matches Pending::Awaiting(k) ==> (self.focus is Editor && k
            == trigger_key())
    }

    /// The state before any key has been handled.
    pub open spec fn initial_spec() -> Dispatcher {
        Dispatcher {
            focus: Focus::Tree,
            pending: Pending::Idle,
            overlay_visible: false,
            editor_visible: false,
            current_doc: None,
        }
    }

    pub fn new() -> (d: Dispatcher)
        ensures
            d == Dispatcher::initial_spec(),
            d.wf(),
    {
        Dispatcher {
            focus: Focus::Tree,
            pending: Pending::Idle,
            overlay_visible: false,
            editor_visible: false,
            current_doc: None,
        }
    }
}

/// What one key event does to the dispatcher state, and the action it
/// produces. The guards are tried in priority order; the first match wins.
///
/// 1. The focus-switch key switches panes and clears the key buffer,
///    whatever the overlay or sequence state.
/// 2. The quit combination asks the loop to exit.
/// 3. The save combination asks the loop to persist the current document.
/// 4. Escape clears the key buffer; if the overlay is open it also closes
///    it, and the loop forwards the Escape to the editor.
/// 5. With the editor focused: the trigger key in normal mode either arms
///    the two-key command or, if already armed, opens the overlay; any
///    other key clears the buffer and is forwarded to the editor.
/// 6. With the tree focused: Down, Up and Enter become tree operations;
///    anything else is ignored.
pub open spec fn spec_step(s: Dispatcher, ev: KeyEvent, mode: EditorMode) -> (Dispatcher, Action) {
    if is_focus_switch(ev) {
        (Dispatcher { focus: toggled(s.focus), pending: Pending::Idle, ..s }, Action::SwitchFocus)
    } else if is_quit(ev) {
        (s, Action::Quit)
    } else if is_save(ev) {
        (s, Action::Save)
    } else if ev.code is Esc {
        if s.overlay_visible {
            (
                Dispatcher { pending: Pending::Idle, overlay_visible: false, ..s },
                Action::ToggleOverlay(false),
            )
        } else {
            (Dispatcher { pending: Pending::Idle, ..s }, Action::Continue)
        }
    } else if s.focus is Editor {
        if is_trigger(ev, mode) {
            if s.pending == Pending::Awaiting(ev.code) {
                (
                    Dispatcher { pending: Pending::Idle, overlay_visible: true, ..s },
                    Action::ToggleOverlay(true),
                )
            } else {
                (Dispatcher { pending: Pending::Awaiting(ev.code), ..s }, Action::Continue)
            }
        } else {
            (Dispatcher { pending: Pending::Idle, ..s }, Action::ForwardToEditor(ev))
        }
    } else {
        match ev.code {
            KeyCode::Down => (s, Action::ForwardToTree(TreeOp::MoveDown)),
            KeyCode::Up => (s, Action::ForwardToTree(TreeOp::MoveUp)),
            KeyCode::Enter => (s, Action::ForwardToTree(TreeOp::ToggleSelect)),
            _ => (s, Action::Continue),
        }
    }
}

impl Dispatcher {
    /// Handle one key event: mutate the dispatcher state and return the
    /// action the event loop must perform, exactly as [`spec_step`] says.
    pub fn dispatch(&mut self, ev: KeyEvent, mode: EditorMode) -> (action: Action)
        requires
            old(self).wf(),
        ensures
            final(self).wf(),
            *final(self) == spec_step(*old(self), ev, mode).0,
            action == spec_step(*old(self), ev, mode).1,
    {
        if ev.code == KeyCode::Tab {
            self.focus = match self.focus {
                Focus::Editor => Focus::Tree,
                Focus::Tree => Focus::Editor,
            };
            self.pending = Pending::Idle;
            Action::SwitchFocus
        } else if ev.ctrl && ev.code == KeyCode::Char('q') {
            Action::Quit
        } else if ev.ctrl && ev.code == KeyCode::Char('s') {
            Action::Save
        } else if ev.code == KeyCode::Esc {
            self.pending = Pending::Idle;
            if self.overlay_visible {
                self.overlay_visible = false;
                Action::ToggleOverlay(false)
            } else {
                Action::Continue
            }
        } else if self.focus == Focus::Editor {
            if mode == EditorMode::Normal && ev.code == KeyCode::Char('f') {
                if self.pending == Pending::Awaiting(KeyCode::Char('f')) {
                    self.pending = Pending::Idle;
                    self.overlay_visible = true;
                    Action::ToggleOverlay(true)
                } else {
                    self.pending = Pending::Awaiting(KeyCode::Char('f'));
                    Action::Continue
                }
            } else {
                self.pending = Pending::Idle;
                Action::ForwardToEditor(ev)
            }
        } else {
            match ev.code {
                KeyCode::Down => Action::ForwardToTree(TreeOp::MoveDown),
                KeyCode::Up => Action::ForwardToTree(TreeOp::MoveUp),
                KeyCode::Enter => Action::ForwardToTree(TreeOp::ToggleSelect),
                _ => Action::Continue,
            }
        }
    }

    /// The tree-selection side effect: record `id` as the current document,
    /// reveal the editor pane, and make sure the store holds an entry for
    /// it. Creation is lazy, never re-initializing: re-selecting a document
    /// reuses its existing entry, so its text and history survive.
    ///
    /// Returns the entry's index in the store and whether it was created now.
    pub fn select_document(&mut self, store: &mut DocumentStore, id: String) -> (r: (
        usize,
        bool,
    ))
        requires
            old(store).wf(),
        ensures
            final(store).wf(),
            final(store)@ == store_after(old(store)@, id@),
            r.1 == !old(store)@.contains(id@),
            r.0 < final(store)@.len(),
            final(store)@[r.0 as int] == id@,
            final(self).current_doc == Some(id),
            final(self).editor_visible,
            final(self).focus == old(self).focus,
            final(self).pending == old(self).pending,
            final(self).overlay_visible == old(self).overlay_visible,
            old(self).wf() ==> final(self).wf(),
    {
        let r = store.get_or_create(&id);
        self.current_doc = Some(id);
        self.editor_visible = true;
        r
    }
}

} // verus!
