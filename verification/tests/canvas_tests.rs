use glrail::canvas::{
    Action, Canvas, DocCommand, KeyInput, LineInput, NormalOutput, NormalState, PointerInput, Ref, same_ref,
};

fn idle() -> PointerInput {
    PointerInput {
        dragging: false,
        drag_delta: (0, 0),
        released: false,
        right_clicked: false,
        shift: false,
        click_pos: (0, 0),
        closest: None,
    }
}

#[test]
fn new_canvas_is_normal_and_empty() {
    let c = Canvas::new();
    assert_eq!(c.action(), Action::Normal(NormalState::Default));
    assert!(c.selection().is_empty());
}

#[test]
fn tool_keys_later_wins() {
    let mut c = Canvas::new();
    c.handle_keys(false, true, false);
    assert_eq!(c.action(), Action::DrawingLine(None));
    c.handle_keys(true, false, true);
    assert_eq!(c.action(), Action::DrawObjectType(None));
    c.handle_keys(true, false, false);
    assert_eq!(c.action(), Action::Normal(NormalState::Default));
    c.handle_keys(false, false, false);
    assert_eq!(c.action(), Action::Normal(NormalState::Default));
}

#[test]
fn global_keys_undo_redo() {
    let c = Canvas::new();
    assert_eq!(c.handle_global_keys(true, false, true, false), vec![DocCommand::Undo]);
    assert_eq!(c.handle_global_keys(true, true, true, false), vec![DocCommand::Redo]);
    assert_eq!(c.handle_global_keys(true, false, false, true), vec![DocCommand::Redo]);
    assert_eq!(c.handle_global_keys(true, false, true, true), vec![DocCommand::Undo, DocCommand::Redo]);
    assert_eq!(c.handle_global_keys(false, false, true, true), vec![]);
    assert_eq!(c.handle_global_keys(true, true, false, true), vec![]);
}

#[test]
fn click_selects_and_shift_click_adds() {
    let mut c = Canvas::new();
    let a = Ref::Node((1, 2));
    let b = Ref::Track((0, 0), (1, 1));
    let out = c.normalstate(NormalState::Default, PointerInput { released: true, closest: Some(a), ..idle() });
    assert_eq!(out, NormalOutput { window: None, open_context_menu: false });
    assert_eq!(c.selection(), vec![a]);
    c.normalstate(NormalState::Default, PointerInput { released: true, shift: true, closest: Some(b), ..idle() });
    assert_eq!(c.selection().len(), 2);
    c.normalstate(NormalState::Default, PointerInput { released: true, shift: true, closest: Some(b), ..idle() });
    assert_eq!(c.selection().len(), 2);
    c.normalstate(NormalState::Default, PointerInput { released: true, closest: Some(b), ..idle() });
    assert_eq!(c.selection(), vec![b]);
    c.normalstate(NormalState::Default, PointerInput { released: true, ..idle() });
    assert!(c.selection().is_empty());
}

#[test]
fn drag_on_thing_moves_and_off_thing_opens_window() {
    let mut c = Canvas::new();
    let a = Ref::Node((1, 2));
    let b = Ref::Node((3, 3));
    c.normalstate(NormalState::Default, PointerInput { released: true, closest: Some(a), ..idle() });
    c.normalstate(NormalState::Default, PointerInput { released: true, shift: true, closest: Some(b), ..idle() });
    // grabbing a selected thing keeps the selection
    c.normalstate(NormalState::Default, PointerInput { dragging: true, closest: Some(a), ..idle() });
    assert_eq!(c.action(), Action::Normal(NormalState::DragMove));
    assert_eq!(c.selection().len(), 2);
    c.normalstate(NormalState::DragMove, PointerInput { dragging: true, ..idle() });
    assert_eq!(c.action(), Action::Normal(NormalState::DragMove));
    c.normalstate(NormalState::DragMove, idle());
    assert_eq!(c.action(), Action::Normal(NormalState::Default));
    // grabbing an unselected thing selects just it
    let d = Ref::Track((0, 0), (0, 1));
    c.normalstate(NormalState::Default, PointerInput { dragging: true, closest: Some(d), ..idle() });
    assert_eq!(c.selection(), vec![d]);
    // dragging on empty space starts a window at the press
    let mut w = Canvas::new();
    w.normalstate(NormalState::Default, PointerInput { dragging: true, click_pos: (10, 20), ..idle() });
    assert_eq!(w.action(), Action::Normal(NormalState::SelectWindow((10, 20))));
    let out = w.normalstate(
        NormalState::SelectWindow((10, 20)),
        PointerInput { dragging: true, drag_delta: (5, -3), ..idle() },
    );
    assert_eq!(out.window, Some(((10, 20), (15, 17))));
    let out = w.normalstate(NormalState::SelectWindow((10, 20)), idle());
    assert_eq!(out.window, None);
    assert_eq!(w.action(), Action::Normal(NormalState::Default));
}

#[test]
fn right_click_opens_context_menu() {
    let mut c = Canvas::new();
    let out = c.normalstate(NormalState::Default, PointerInput { right_clicked: true, ..idle() });
    assert!(out.open_context_menu);
    let out = c.normalstate(NormalState::DragMove, PointerInput { right_clicked: true, ..idle() });
    assert!(!out.open_context_menu);
}

#[test]
fn drawing_a_line() {
    let mut c = Canvas::new();
    c.handle_keys(false, true, false);
    assert_eq!(c.drawingline(None, (1, 1), false, true), None);
    assert_eq!(c.action(), Action::DrawingLine(None));
    assert_eq!(c.drawingline(None, (1, 1), true, true), None);
    assert_eq!(c.action(), Action::DrawingLine(Some((1, 1))));
    assert_eq!(c.drawingline(Some((1, 1)), (4, 2), true, true), None);
    assert_eq!(c.action(), Action::DrawingLine(Some((1, 1))));
    assert_eq!(c.drawingline(Some((1, 1)), (4, 2), true, false), Some(((1, 1), (4, 2))));
    assert_eq!(c.action(), Action::DrawingLine(None));
}

#[test]
fn refs_compare_by_value() {
    assert!(same_ref(&Ref::Node((1, 2)), &Ref::Node((1, 2))));
    assert!(!same_ref(&Ref::Node((1, 2)), &Ref::Node((2, 1))));
    assert!(!same_ref(&Ref::Node((0, 0)), &Ref::Track((0, 0), (0, 0))));
    assert!(same_ref(&Ref::Track((0, 0), (1, 1)), &Ref::Track((0, 0), (1, 1))));
}

fn no_keys() -> KeyInput {
    KeyInput {
        ctrl: false,
        shift: false,
        z_pressed: false,
        y_pressed: false,
        a_pressed: false,
        d_pressed: false,
        s_pressed: false,
        canvas_active: false,
        any_active: false,
    }
}

fn still(at: (i32, i32)) -> LineInput {
    LineInput { pointer_ongrid: at, hovered: true, mouse_down: false }
}

#[test]
fn draw_runs_the_active_tool() {
    let mut c = Canvas::new();
    let a = Ref::Node((2, 2));
    // normal tool: a click selects, and undo is asked for
    let out = c.draw(
        KeyInput { ctrl: true, z_pressed: true, ..no_keys() },
        PointerInput { released: true, closest: Some(a), ..idle() },
        still((0, 0)),
    );
    assert_eq!(out.commands, vec![DocCommand::Undo]);
    assert_eq!(out.normal, Some(NormalOutput { window: None, open_context_menu: false }));
    assert_eq!(out.line, None);
    assert_eq!(c.selection(), vec![a]);
    // D switches to the line tool, which starts a line on a press
    let out = c.draw(
        KeyInput { d_pressed: true, ..no_keys() },
        idle(),
        LineInput { pointer_ongrid: (1, 1), hovered: true, mouse_down: true },
    );
    assert_eq!(out.normal, None);
    assert_eq!(c.action(), Action::DrawingLine(Some((1, 1))));
    // releasing ends the line
    let out = c.draw(no_keys(), idle(), still((3, 0)));
    assert_eq!(out.line, Some(((1, 1), (3, 0))));
    assert_eq!(c.action(), Action::DrawingLine(None));
    assert_eq!(c.selection(), vec![a]);
    // tool keys are ignored while another widget is active
    c.draw(KeyInput { a_pressed: true, any_active: true, ..no_keys() }, idle(), still((0, 0)));
    assert_eq!(c.action(), Action::DrawingLine(None));
    c.draw(KeyInput { a_pressed: true, any_active: true, canvas_active: true, ..no_keys() }, idle(), still((0, 0)));
    assert_eq!(c.action(), Action::Normal(NormalState::Default));
}
