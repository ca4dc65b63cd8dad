//! Laws of the dispatcher, proved over the transition function
//! [`spec_step`]: how key routing, the two-key overlay command, focus
//! switching and overlay dismissal behave across whole sequences of events.

use vstd::prelude::*;

use crate::dispatch::{spec_step, toggled, Dispatcher};
use crate::keys::{is_focus_switch, is_quit, is_save, is_trigger, trigger_key};
use crate::keys::{Action, EditorMode, KeyEvent};

verus! {

/// A key press that none of the global guards claims and that does not
/// continue the two-key overlay command: with the editor focused, such a
/// key is simply forwarded.
pub open spec fn plain_editor_key(ev: KeyEvent, mode: EditorMode) -> bool {
    &&& !is_focus_switch(ev)
    &&& !is_quit(ev)
    &&& !is_save(ev)
    &&& !(ev.code is Esc)
    &&& !is_trigger(ev, mode)
}

/// The actions produced by handling the events of `evs` in order, each
/// with the editor mode reported at that moment, starting from state `s`.
pub open spec fn run_actions(s: Dispatcher, evs: Seq<(KeyEvent, EditorMode)>) -> Seq<Action>
    decreases evs.len(),
{
    if evs.len() == 0 {
        Seq::<Action>::empty()
    } else {
        let stepped = spec_step(s, evs[0].0, evs[0].1);
        seq![stepped.1] + run_actions(stepped.0, evs.drop_first())
    }
}

/// With the editor focused, a sequence of keys containing no focus
/// switch, no quit or save combination, no Escape and no overlay trigger
/// is forwarded to the editor unchanged, one action per key, in the order
/// received.
pub proof fn lemma_editor_keys_forwarded_in_order(s: Dispatcher, evs: Seq<(KeyEvent, EditorMode)>)
    requires
        s.focus is Editor,
        forall|i: int| 0 <= i < evs.len() ==> plain_editor_key(#[trigger] evs[i].0, evs[i].1),
    ensures
        run_actions(s, evs).len() == evs.len(),
        forall|i: int|
            0 <= i < evs.len() ==> run_actions(s, evs)[i] == Action::ForwardToEditor(
                #[trigger] evs[i].0,
            ),
    decreases evs.len(),
{
    if evs.len() > 0 {
        let stepped = spec_step(s, evs[0].0, evs[0].1);
        assert(plain_editor_key(evs[0].0, evs[0].1));
        assert(stepped.1 == Action::ForwardToEditor(evs[0].0));
        assert(stepped.0.focus is Editor);
        assert(forall|i: int|
            0 <= i < evs.drop_first().len() ==> plain_editor_key(
                #[trigger] evs.drop_first()[i].0,
                evs.drop_first()[i].1,
            ));
        lemma_editor_keys_forwarded_in_order(stepped.0, evs.drop_first());
        assert forall|i: int| 0 <= i < evs.len() implies run_actions(s, evs)[i]
            == Action::ForwardToEditor(#[trigger] evs[i].0) by {
            if i > 0 {
                assert(run_actions(s, evs)[i] == run_actions(stepped.0, evs.drop_first())[i - 1]);
                assert(evs.drop_first()[i - 1] == evs[i]);
            }
        }
    }
}

/// Arming the two-key command with the trigger and then pressing any
/// ordinary key other than the trigger does not open the overlay: the
/// buffered key is dropped, not swallowed, and the second key is
/// forwarded to the editor.
pub proof fn lemma_mismatched_second_key(
    s: Dispatcher,
    ev1: KeyEvent,
    mode1: EditorMode,
    ev2: KeyEvent,
    mode2: EditorMode,
)
    requires
        s.focus is Editor,
        s.pending is Idle,
        !s.overlay_visible,
        is_trigger(ev1, mode1),
        ev2.code != trigger_key(),
        plain_editor_key(ev2, mode2),
    ensures
        spec_step(s, ev1, mode1).1 == Action::Continue,
        !spec_step(s, ev1, mode1).0.overlay_visible,
        spec_step(spec_step(s, ev1, mode1).0, ev2, mode2).1 == Action::ForwardToEditor(ev2),
        !spec_step(spec_step(s, ev1, mode1).0, ev2, mode2).0.overlay_visible,
        spec_step(spec_step(s, ev1, mode1).0, ev2, mode2).0.pending is Idle,
{
}

/// Pressing the trigger twice in a row in the editor's normal mode opens
/// the overlay exactly once: the first press only arms the command and
/// leaves the overlay closed, the second opens it and disarms the
/// command.
pub proof fn lemma_double_trigger_opens_overlay(s: Dispatcher, ev: KeyEvent)
    requires
        s.focus is Editor,
        s.pending is Idle,
        !s.overlay_visible,
        ev.code == trigger_key(),
    ensures
        spec_step(s, ev, EditorMode::Normal).1 == Action::Continue,
        !spec_step(s, ev, EditorMode::Normal).0.overlay_visible,
        spec_step(spec_step(s, ev, EditorMode::Normal).0, ev, EditorMode::Normal).1
            == Action::ToggleOverlay(true),
        spec_step(spec_step(s, ev, EditorMode::Normal).0, ev, EditorMode::Normal).0.overlay_visible,
        spec_step(spec_step(s, ev, EditorMode::Normal).0, ev, EditorMode::Normal).0.pending is Idle,
{
}

/// Once the overlay is open, every key but Escape leaves it open:
/// re-triggering the command can only re-assert the overlay, never
/// toggle it off.
pub proof fn lemma_overlay_closes_only_on_esc(s: Dispatcher, ev: KeyEvent, mode: EditorMode)
    requires
        s.overlay_visible,
        !(ev.code is Esc),
    ensures
        spec_step(s, ev, mode).0.overlay_visible,
{
}

/// With the overlay open and the editor reporting a mode other than
/// normal, a further press of the trigger key is simply forwarded to the
/// editor, and the overlay stays open.
pub proof fn lemma_trigger_forwarded_outside_normal(s: Dispatcher, ev: KeyEvent, mode: EditorMode)
    requires
        s.focus is Editor,
        s.overlay_visible,
        ev.code == trigger_key(),
        !(mode is Normal),
    ensures
        spec_step(s, ev, mode).1 == Action::ForwardToEditor(ev),
        spec_step(s, ev, mode).0.overlay_visible,
{
}

/// No key event hides the editor pane or changes which document is
/// current: once a document has been selected, only a further selection
/// touches either, so the pane never closes again.
pub proof fn lemma_dispatch_preserves_visibility(s: Dispatcher, ev: KeyEvent, mode: EditorMode)
    ensures
        spec_step(s, ev, mode).0.editor_visible == s.editor_visible,
        spec_step(s, ev, mode).0.current_doc == s.current_doc,
{
}

/// The focus-switch key toggles focus strictly alternately, whatever the
/// overlay or pending-sequence state: one press moves focus to the other
/// pane, a second press restores it.
pub proof fn lemma_focus_switch_alternates(
    s: Dispatcher,
    ev1: KeyEvent,
    mode1: EditorMode,
    ev2: KeyEvent,
    mode2: EditorMode,
)
    requires
        is_focus_switch(ev1),
        is_focus_switch(ev2),
    ensures
        spec_step(s, ev1, mode1).1 == Action::SwitchFocus,
        spec_step(s, ev1, mode1).0.focus == toggled(s.focus),
        spec_step(spec_step(s, ev1, mode1).0, ev2, mode2).0.focus == s.focus,
{
}

/// Opening the overlay with the two-key command and dismissing it with
/// Escape returns focus and the key buffer to the state they held before
/// the command began; the Escape closes the overlay, and the event loop
/// forwards it to the editor so the overlay's line editor can react.
pub proof fn lemma_escape_restores_state(
    s: Dispatcher,
    ev: KeyEvent,
    esc: KeyEvent,
    mode3: EditorMode,
)
    requires
        s.focus is Editor,
        s.pending is Idle,
        !s.overlay_visible,
        ev.code == trigger_key(),
        esc.code is Esc,
    ensures
        spec_step(spec_step(s, ev, EditorMode::Normal).0, ev, EditorMode::Normal).0.overlay_visible,
        spec_step(
            spec_step(spec_step(s, ev, EditorMode::Normal).0, ev, EditorMode::Normal).0,
            esc,
            mode3,
        ).1 == Action::ToggleOverlay(false),
        !spec_step(
            spec_step(spec_step(s, ev, EditorMode::Normal).0, ev, EditorMode::Normal).0,
            esc,
            mode3,
        ).0.overlay_visible,
        spec_step(
            spec_step(spec_step(s, ev, EditorMode::Normal).0, ev, EditorMode::Normal).0,
            esc,
            mode3,
        ).0.focus == s.focus,
        spec_step(
            spec_step(spec_step(s, ev, EditorMode::Normal).0, ev, EditorMode::Normal).0,
            esc,
            mode3,
        ).0.pending == s.pending,
        spec_step(
            spec_step(spec_step(s, ev, EditorMode::Normal).0, ev, EditorMode::Normal).0,
            esc,
            mode3,
        ).0.editor_visible == s.editor_visible,
        spec_step(
            spec_step(spec_step(s, ev, EditorMode::Normal).0, ev, EditorMode::Normal).0,
            esc,
            mode3,
        ).0.current_doc == s.current_doc,
{
}

} // verus!
