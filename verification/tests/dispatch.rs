use docshell::dispatch::{Dispatcher, Focus, Pending};
use docshell::keys::{Action, EditorMode, KeyCode, KeyEvent, TreeOp};

fn key(code: KeyCode) -> KeyEvent {
    KeyEvent { code, ctrl: false }
}

fn ctrl(c: char) -> KeyEvent {
    KeyEvent { code: KeyCode::Char(c), ctrl: true }
}

fn editor_focused() -> Dispatcher {
    let mut d = Dispatcher::new();
    d.dispatch(key(KeyCode::Tab), EditorMode::Normal);
    assert_eq!(d.focus, Focus::Editor);
    d
}

#[test]
fn initial_state_is_tree_focused_and_bare() {
    let d = Dispatcher::new();
    assert_eq!(d.focus, Focus::Tree);
    assert_eq!(d.pending, Pending::Idle);
    assert!(!d.overlay_visible);
    assert!(!d.editor_visible);
    assert!(d.current_doc.is_none());
}

#[test]
fn ordinary_editor_keys_forwarded_in_order() {
    let mut d = editor_focused();
    let pressed = [
        key(KeyCode::Char('h')),
        key(KeyCode::Char('e')),
        key(KeyCode::Up),
        key(KeyCode::Enter),
        key(KeyCode::Other),
        key(KeyCode::Char('q')),
        key(KeyCode::Char('s')),
    ];
    for ev in pressed {
        let action = d.dispatch(ev, EditorMode::Insert);
        assert_eq!(action, Action::ForwardToEditor(ev));
        assert_eq!(d.focus, Focus::Editor);
        assert!(!d.overlay_visible);
    }
}

#[test]
fn trigger_then_other_key_does_not_open_overlay() {
    let mut d = editor_focused();
    let armed = d.dispatch(key(KeyCode::Char('f')), EditorMode::Normal);
    assert_eq!(armed, Action::Continue);
    assert_eq!(d.pending, Pending::Awaiting(KeyCode::Char('f')));

    let second = key(KeyCode::Char('x'));
    let action = d.dispatch(second, EditorMode::Normal);
    assert_eq!(action, Action::ForwardToEditor(second));
    assert!(!d.overlay_visible);
    assert_eq!(d.pending, Pending::Idle);
}

#[test]
fn double_trigger_opens_overlay_exactly_once() {
    let mut d = editor_focused();
    assert_eq!(d.dispatch(key(KeyCode::Char('f')), EditorMode::Normal), Action::Continue);
    assert!(!d.overlay_visible);
    assert_eq!(
        d.dispatch(key(KeyCode::Char('f')), EditorMode::Normal),
        Action::ToggleOverlay(true)
    );
    assert!(d.overlay_visible);
    assert_eq!(d.pending, Pending::Idle);
}

#[test]
fn trigger_with_overlay_open_is_forwarded_outside_normal_mode() {
    let mut d = editor_focused();
    d.dispatch(key(KeyCode::Char('f')), EditorMode::Normal);
    d.dispatch(key(KeyCode::Char('f')), EditorMode::Normal);
    assert!(d.overlay_visible);

    let third = key(KeyCode::Char('f'));
    let action = d.dispatch(third, EditorMode::Insert);
    assert_eq!(action, Action::ForwardToEditor(third));
    assert!(d.overlay_visible);
}

#[test]
fn retriggering_with_overlay_open_never_toggles_it_off() {
    let mut d = editor_focused();
    d.dispatch(key(KeyCode::Char('f')), EditorMode::Normal);
    d.dispatch(key(KeyCode::Char('f')), EditorMode::Normal);
    assert!(d.overlay_visible);
    d.dispatch(key(KeyCode::Char('f')), EditorMode::Normal);
    assert!(d.overlay_visible);
    d.dispatch(key(KeyCode::Char('f')), EditorMode::Normal);
    assert!(d.overlay_visible);
}

#[test]
fn trigger_in_insert_mode_is_forwarded_not_buffered() {
    let mut d = editor_focused();
    let f = key(KeyCode::Char('f'));
    let action = d.dispatch(f, EditorMode::Insert);
    assert_eq!(action, Action::ForwardToEditor(f));
    assert_eq!(d.pending, Pending::Idle);
    assert!(!d.overlay_visible);
}

#[test]
fn ctrl_q_quits_and_ctrl_s_saves() {
    let mut d = editor_focused();
    assert_eq!(d.dispatch(ctrl('q'), EditorMode::Normal), Action::Quit);
    assert_eq!(d.dispatch(ctrl('s'), EditorMode::Normal), Action::Save);
    let mut t = Dispatcher::new();
    assert_eq!(t.dispatch(ctrl('q'), EditorMode::Normal), Action::Quit);
    assert_eq!(t.dispatch(ctrl('s'), EditorMode::Normal), Action::Save);
}

#[test]
fn tab_toggles_focus_strictly_alternately() {
    let mut d = Dispatcher::new();
    assert_eq!(d.dispatch(key(KeyCode::Tab), EditorMode::Normal), Action::SwitchFocus);
    assert_eq!(d.focus, Focus::Editor);
    assert_eq!(d.dispatch(key(KeyCode::Tab), EditorMode::Normal), Action::SwitchFocus);
    assert_eq!(d.focus, Focus::Tree);
    assert_eq!(d.dispatch(key(KeyCode::Tab), EditorMode::Normal), Action::SwitchFocus);
    assert_eq!(d.focus, Focus::Editor);
}

#[test]
fn tab_toggles_focus_even_with_pending_key_and_overlay() {
    let mut d = editor_focused();
    d.dispatch(key(KeyCode::Char('f')), EditorMode::Normal);
    assert_eq!(d.pending, Pending::Awaiting(KeyCode::Char('f')));
    assert_eq!(d.dispatch(key(KeyCode::Tab), EditorMode::Normal), Action::SwitchFocus);
    assert_eq!(d.focus, Focus::Tree);
    assert_eq!(d.pending, Pending::Idle);

    let mut e = editor_focused();
    e.dispatch(key(KeyCode::Char('f')), EditorMode::Normal);
    e.dispatch(key(KeyCode::Char('f')), EditorMode::Normal);
    assert!(e.overlay_visible);
    assert_eq!(e.dispatch(key(KeyCode::Tab), EditorMode::Normal), Action::SwitchFocus);
    assert_eq!(e.focus, Focus::Tree);
    assert!(e.overlay_visible);
}

#[test]
fn escape_with_overlay_open_restores_prior_state() {
    let mut d = editor_focused();
    let focus_before = d.focus;
    let pending_before = d.pending;
    d.dispatch(key(KeyCode::Char('f')), EditorMode::Normal);
    d.dispatch(key(KeyCode::Char('f')), EditorMode::Normal);
    assert!(d.overlay_visible);

    let action = d.dispatch(key(KeyCode::Esc), EditorMode::Insert);
    assert_eq!(action, Action::ToggleOverlay(false));
    assert!(!d.overlay_visible);
    assert_eq!(d.focus, focus_before);
    assert_eq!(d.pending, pending_before);
}

#[test]
fn escape_without_overlay_just_clears_pending() {
    let mut d = editor_focused();
    d.dispatch(key(KeyCode::Char('f')), EditorMode::Normal);
    assert_eq!(d.pending, Pending::Awaiting(KeyCode::Char('f')));
    let action = d.dispatch(key(KeyCode::Esc), EditorMode::Normal);
    assert_eq!(action, Action::Continue);
    assert_eq!(d.pending, Pending::Idle);
    assert!(!d.overlay_visible);
}

#[test]
fn tree_focus_maps_navigation_keys_and_ignores_the_rest() {
    let mut d = Dispatcher::new();
    assert_eq!(d.focus, Focus::Tree);
    assert_eq!(
        d.dispatch(key(KeyCode::Down), EditorMode::Normal),
        Action::ForwardToTree(TreeOp::MoveDown)
    );
    assert_eq!(
        d.dispatch(key(KeyCode::Up), EditorMode::Normal),
        Action::ForwardToTree(TreeOp::MoveUp)
    );
    assert_eq!(
        d.dispatch(key(KeyCode::Enter), EditorMode::Normal),
        Action::ForwardToTree(TreeOp::ToggleSelect)
    );
    assert_eq!(d.dispatch(key(KeyCode::Char('f')), EditorMode::Normal), Action::Continue);
    assert_eq!(d.dispatch(key(KeyCode::Other), EditorMode::Normal), Action::Continue);
    assert_eq!(d.focus, Focus::Tree);
}

#[test]
fn ctrl_trigger_still_arms_the_sequence() {
    let mut d = editor_focused();
    let armed = d.dispatch(ctrl('f'), EditorMode::Normal);
    assert_eq!(armed, Action::Continue);
    assert_eq!(d.pending, Pending::Awaiting(KeyCode::Char('f')));
    assert_eq!(
        d.dispatch(key(KeyCode::Char('f')), EditorMode::Normal),
        Action::ToggleOverlay(true)
    );
    assert!(d.overlay_visible);
}
