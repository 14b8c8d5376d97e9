use watershot::{
    to_global, Args, DisplaySelection, ExitState, Extents, Key, Preselection, Rect,
    RectangleSelection, RuntimeData, Selection, SelectionModifier, SelectionState,
    WindowDescriptor,
};

fn no_args() -> Args {
    Args {
        copy: false,
        stdout: false,
        save: None,
        window_search: None,
        window_under_cursor: false,
        active_window: false,
        auto_capture: false,
    }
}

fn session(monitors: Vec<Rect<i32>>, windows: Vec<WindowDescriptor>, backend: bool) -> RuntimeData {
    RuntimeData::new(monitors, windows, backend, 10, &no_args(), None, None, (0, 0))
}

fn one_monitor() -> RuntimeData {
    session(vec![Rect::new(0, 0, 1920, 1080)], vec![], false)
}

fn rect_sel(sel: &Selection) -> RectangleSelection {
    match sel {
        Selection::Rectangle(Some(s)) => *s,
        _ => panic!("not a rectangle selection"),
    }
}

#[test]
fn drag_out_a_new_rectangle() {
    let mut s = one_monitor();
    assert_eq!(s.area, Rect::new(0, 0, 1920, 1080));
    s.press(0, (100, 100));
    let sel = rect_sel(&s.selection);
    assert_eq!(sel.extents, Extents { start_x: 100, start_y: 100, end_x: 100, end_y: 100 });
    assert!(sel.active);
    s.motion((300, 250));
    let sel = rect_sel(&s.selection);
    assert_eq!(sel.extents, Extents { start_x: 100, start_y: 100, end_x: 300, end_y: 250 });
    s.release();
    let sel = rect_sel(&s.selection);
    assert!(!sel.active);
    assert_eq!(sel.extents.to_rect(), Rect::new(100, 100, 200, 150));
    s.press_key(Key::Return);
    assert_eq!(s.exit, ExitState::ExitWithSelection(Rect::new(100, 100, 200, 150)));
}

#[test]
fn handle_hit_radius() {
    let existing = RectangleSelection {
        extents: Extents { start_x: 100, start_y: 100, end_x: 300, end_y: 250 },
        modifier: None,
        active: false,
    };
    let mut sel = Some(existing);
    let st = RuntimeData::process_selection_handles(&mut sel, (100, 175), 10);
    assert_eq!(st, SelectionState::HandlesChanged);
    assert_eq!(sel.unwrap().modifier, Some(SelectionModifier::Left));
    assert!(sel.unwrap().active);

    let mut sel = Some(existing);
    let st = RuntimeData::process_selection_handles(&mut sel, (300, 100), 10);
    assert_eq!(st, SelectionState::HandlesChanged);
    assert_eq!(sel.unwrap().modifier, Some(SelectionModifier::TopRight));

    let mut sel = Some(existing);
    let st = RuntimeData::process_selection_handles(&mut sel, (100, 101), 10);
    assert_eq!(st, SelectionState::HandlesChanged);
    assert_eq!(sel.unwrap().modifier, Some(SelectionModifier::TopLeft));

    let mut sel = Some(existing);
    let st = RuntimeData::process_selection_handles(&mut sel, (111, 175), 10);
    assert_eq!(st, SelectionState::CenterChanged);
    assert_eq!(
        sel.unwrap().modifier,
        Some(SelectionModifier::Center(111, 175, existing.extents))
    );

    let mut sel = Some(existing);
    let st = RuntimeData::process_selection_handles(&mut sel, (500, 500), 10);
    assert_eq!(st, SelectionState::Unchanged);
    assert_eq!(sel, Some(existing));

    let mut none: Option<RectangleSelection> = None;
    let st = RuntimeData::process_selection_handles(&mut none, (100, 100), 10);
    assert_eq!(st, SelectionState::Unchanged);
    assert_eq!(none, None);
}

#[test]
fn left_handle_wins_ties_on_tiny_rect() {
    let mut sel = Some(RectangleSelection {
        extents: Extents { start_x: 100, start_y: 100, end_x: 102, end_y: 102 },
        modifier: None,
        active: false,
    });
    let st = RuntimeData::process_selection_handles(&mut sel, (100, 100), 50);
    assert_eq!(st, SelectionState::HandlesChanged);
    assert_eq!(sel.unwrap().modifier, Some(SelectionModifier::Left));
}

#[test]
fn handle_drag_can_flip_rect() {
    let mut s = one_monitor();
    s.press(0, (100, 100));
    s.motion((300, 250));
    s.release();
    // grab the left edge and drag it past the right edge
    s.press(0, (100, 175));
    assert_eq!(rect_sel(&s.selection).modifier, Some(SelectionModifier::Left));
    s.motion((400, 10));
    s.release();
    let sel = rect_sel(&s.selection);
    assert_eq!(sel.extents, Extents { start_x: 400, start_y: 100, end_x: 300, end_y: 250 });
    assert_eq!(sel.extents.to_rect(), Rect::new(300, 100, 100, 150));
    assert_eq!(sel.modifier, Some(SelectionModifier::Left));
}

#[test]
fn center_drag_moves_and_clamps() {
    let mut s = one_monitor();
    s.press(0, (100, 100));
    s.motion((300, 250));
    s.release();
    s.press(0, (200, 200));
    assert!(matches!(rect_sel(&s.selection).modifier, Some(SelectionModifier::Center(200, 200, _))));
    s.motion((250, 150));
    assert_eq!(rect_sel(&s.selection).extents.to_rect(), Rect::new(150, 50, 200, 150));
    // far past the top left corner: clamped, size kept
    s.motion((0, 0));
    assert_eq!(rect_sel(&s.selection).extents.to_rect(), Rect::new(0, 0, 200, 150));
    s.motion((1919, 1079));
    assert_eq!(rect_sel(&s.selection).extents.to_rect(), Rect::new(1720, 930, 200, 150));
}

#[test]
fn press_outside_starts_new_rectangle() {
    let mut s = one_monitor();
    s.press(0, (100, 100));
    s.motion((300, 250));
    s.release();
    s.press(0, (1000, 900));
    let sel = rect_sel(&s.selection);
    assert_eq!(sel.extents, Extents { start_x: 1000, start_y: 900, end_x: 1000, end_y: 900 });
    assert_eq!(sel.modifier, None);
}

#[test]
fn motion_without_active_drag_changes_nothing() {
    let mut s = one_monitor();
    s.press(0, (100, 100));
    s.release();
    s.motion((500, 500));
    assert_eq!(
        rect_sel(&s.selection).extents,
        Extents { start_x: 100, start_y: 100, end_x: 100, end_y: 100 }
    );
}

#[test]
fn mode_cycle_without_window_backend() {
    let mut s = one_monitor();
    assert_eq!(s.selection, Selection::Rectangle(None));
    s.press(0, (10, 10));
    s.press_key(Key::Tab);
    assert_eq!(s.selection, Selection::Display(None));
    s.press_key(Key::Tab);
    assert_eq!(s.selection, Selection::Rectangle(None));
    assert_eq!(s.exit, ExitState::Running);
}

#[test]
fn mode_cycle_with_window_backend() {
    let mut s = session(vec![Rect::new(0, 0, 1920, 1080)], vec![], true);
    s.cycle_mode();
    assert_eq!(s.selection, Selection::Display(None));
    s.cycle_mode();
    assert_eq!(s.selection, Selection::Window(None));
    s.cycle_mode();
    assert_eq!(s.selection, Selection::Rectangle(None));
}

#[test]
fn escape_cancels() {
    let mut s = one_monitor();
    s.press(0, (100, 100));
    s.press_key(Key::Escape);
    assert_eq!(s.exit, ExitState::ExitOnly);
}

#[test]
fn other_keys_do_nothing() {
    let mut s = one_monitor();
    s.press_key(Key::Other);
    assert_eq!(s.exit, ExitState::Running);
    assert_eq!(s.selection, Selection::Rectangle(None));
}

#[test]
fn confirm_without_selection_gives_no_result() {
    let mut s = one_monitor();
    s.confirm();
    assert_eq!(s.exit, ExitState::ExitOnly);
    let mut s = one_monitor();
    s.cycle_mode();
    s.confirm();
    assert_eq!(s.exit, ExitState::ExitOnly);
}

#[test]
fn confirm_display_in_image_coordinates() {
    let mut s = session(
        vec![Rect::new(-1920, 0, 1920, 1080), Rect::new(0, 0, 1920, 1080)],
        vec![], false);
    assert_eq!(s.area, Rect::new(-1920, 0, 3840, 1080));
    s.cycle_mode();
    s.press(1, (500, 500));
    assert_eq!(s.selection, Selection::Display(Some(DisplaySelection::new(1))));
    s.confirm();
    assert_eq!(s.exit, ExitState::ExitWithSelection(Rect::new(1920, 0, 1920, 1080)));
}

#[test]
fn confirm_rectangle_in_image_coordinates() {
    let mut s = session(
        vec![Rect::new(-1920, -100, 1920, 1080), Rect::new(0, 0, 1920, 1080)],
        vec![], false);
    s.press(0, (-10, 0));
    s.motion((10, 20));
    s.release();
    s.confirm();
    assert_eq!(s.exit, ExitState::ExitWithSelection(Rect::new(1910, 100, 20, 20)));
}

fn window(x: i32, y: i32, width: i32, height: i32, id: u64) -> WindowDescriptor {
    WindowDescriptor { rect: Rect::new(x, y, width, height), id }
}

#[test]
fn confirm_picked_window() {
    let mut s = session(
        vec![Rect::new(0, 0, 1920, 1080)],
        vec![window(50, 60, 400, 300, 7)], true);
    s.selection = Selection::Window(Some(window(50, 60, 400, 300, 7)));
    s.press_key(Key::Return);
    assert_eq!(s.exit, ExitState::ExitWithSelection(Rect::new(50, 60, 400, 300)));
}

#[test]
fn flatten_window_and_idempotence() {
    let w = window(50, 60, 400, 300, 7);
    let flat = Selection::Window(Some(w)).flattened();
    match flat {
        Selection::Rectangle(Some(sel)) => {
            assert_eq!(sel.extents.to_rect(), w.rect);
            assert_eq!(sel.modifier, None);
            assert!(!sel.active);
        }
        _ => panic!("window did not flatten to a rectangle"),
    }
    assert_eq!(flat.flattened(), flat);
    assert_eq!(Selection::Window(None).flattened(), Selection::Rectangle(None));
    let d = Selection::Display(Some(DisplaySelection::new(2)));
    assert_eq!(d.flattened(), d);
    assert_eq!(d.flattened().flattened(), d.flattened());
    let r = Selection::Rectangle(Some(RectangleSelection::new(3, 4)));
    assert_eq!(r.flattened(), r);
}

#[test]
fn from_window_picks_mode() {
    let w = window(1, 2, 3, 4, 9);
    assert_eq!(Selection::from_window(Some(w)), Selection::Window(Some(w)));
    assert_eq!(Selection::from_window(None), Selection::Rectangle(None));
    assert_eq!(Selection::default(), Selection::Rectangle(None));
}

#[test]
fn window_mode_press_picks_window_under_pointer() {
    let mut s = session(
        vec![Rect::new(0, 0, 1920, 1080)],
        vec![window(50, 60, 400, 300, 7), window(1000, 100, 300, 300, 8)], true);
    s.cycle_mode();
    s.cycle_mode();
    s.press(0, (1100, 200));
    assert_eq!(s.selection, Selection::Window(Some(window(1000, 100, 300, 300, 8))));
    // nothing under the pointer: the pick stays
    s.press(0, (1800, 1000));
    assert_eq!(s.selection, Selection::Window(Some(window(1000, 100, 300, 300, 8))));
    // a press inside another window picks that one
    s.press(0, (200, 200));
    assert_eq!(s.selection, Selection::Window(Some(window(50, 60, 400, 300, 7))));
}

#[test]
fn window_mode_handle_press_turns_into_rectangle() {
    let mut s = session(
        vec![Rect::new(0, 0, 1920, 1080)],
        vec![window(50, 60, 400, 300, 7)], true);
    s.selection = Selection::Window(Some(window(50, 60, 400, 300, 7)));
    s.press(0, (450, 360));
    let sel = rect_sel(&s.selection);
    assert_eq!(sel.modifier, Some(SelectionModifier::BottomRight));
    assert!(sel.active);
    s.motion((500, 400));
    assert_eq!(rect_sel(&s.selection).extents.to_rect(), Rect::new(50, 60, 450, 340));
}

#[test]
fn windows_are_kept_as_given() {
    let s = session(
        vec![Rect::new(0, 0, 1920, 1080)],
        vec![window(-100, 50, 400, 300, 1), window(3000, 0, 10, 10, 2)],
        true,
    );
    assert_eq!(s.windows, vec![window(-100, 50, 400, 300, 1), window(3000, 0, 10, 10, 2)]);
    assert_eq!(s.window_at((10, 60)), Some(window(-100, 50, 400, 300, 1)));
    assert_eq!(s.window_at((3005, 5)), Some(window(3000, 0, 10, 10, 2)));
    assert_eq!(s.window_at((1000, 60)), None);
}

#[test]
fn confirm_partly_offscreen_window_keeps_its_rect() {
    let w = window(-100, 50, 400, 300, 1);
    let mut s = session(vec![Rect::new(0, 0, 1920, 1080)], vec![w], true);
    s.preselect(Some(w), false);
    assert_eq!(s.exit, ExitState::Running);
    s.confirm();
    assert_eq!(s.exit, ExitState::ExitWithSelection(Rect::new(-100, 50, 400, 300)));
}

#[test]
fn preselect_with_auto_capture() {
    let w = window(50, 60, 400, 300, 7);
    let mut s = session(vec![Rect::new(0, 0, 1920, 1080)], vec![w], true);
    s.preselect(Some(w), true);
    assert_eq!(s.selection, Selection::Window(Some(w)));
    assert_eq!(s.exit, ExitState::ExitWithSelection(Rect::new(50, 60, 400, 300)));
}

#[test]
fn preselect_without_window_or_backend() {
    let w = window(50, 60, 400, 300, 7);
    let mut s = session(vec![Rect::new(0, 0, 1920, 1080)], vec![w], true);
    s.preselect(None, true);
    assert_eq!(s.selection, Selection::Rectangle(None));
    assert_eq!(s.exit, ExitState::Running);
    let mut s = session(vec![Rect::new(0, 0, 1920, 1080)], vec![], false);
    s.preselect(Some(w), true);
    assert_eq!(s.selection, Selection::Rectangle(None));
    assert_eq!(s.exit, ExitState::Running);
}

#[test]
fn new_preselects_as_args_ask() {
    let a = window(50, 60, 400, 300, 7);
    let b = window(1000, 100, 300, 300, 8);
    let c = window(10, 10, 20, 20, 9);
    let monitors = vec![Rect::new(0, 0, 1920, 1080)];
    let mut args = no_args();
    args.window_search = Some("class=Alacritty".to_string());
    args.window_under_cursor = true;
    let s = RuntimeData::new(monitors.clone(), vec![a, b], true, 10, &args, Some(c), Some(a), (1100, 200));
    assert_eq!(s.selection, Selection::Window(Some(c)));
    assert_eq!(s.exit, ExitState::Running);
    args.window_search = None;
    let s = RuntimeData::new(monitors.clone(), vec![a, b], true, 10, &args, Some(c), Some(a), (1100, 200));
    assert_eq!(s.selection, Selection::Window(Some(b)));
    args.window_under_cursor = false;
    args.active_window = true;
    args.auto_capture = true;
    let s = RuntimeData::new(monitors.clone(), vec![a, b], true, 10, &args, Some(c), Some(a), (1100, 200));
    assert_eq!(s.selection, Selection::Window(Some(a)));
    assert_eq!(s.exit, ExitState::ExitWithSelection(Rect::new(50, 60, 400, 300)));
    // without a window backend nothing is picked
    let s = RuntimeData::new(monitors, vec![a, b], false, 10, &args, Some(c), Some(a), (1100, 200));
    assert_eq!(s.selection, Selection::Rectangle(None));
    assert_eq!(s.exit, ExitState::Running);
}

#[test]
fn new_under_cursor_without_window_there() {
    let a = window(50, 60, 400, 300, 7);
    let mut args = no_args();
    args.window_under_cursor = true;
    args.auto_capture = true;
    let s = RuntimeData::new(vec![Rect::new(0, 0, 1920, 1080)], vec![a], true, 10, &args, None, None, (1500, 900));
    assert_eq!(s.selection, Selection::Rectangle(None));
    assert_eq!(s.exit, ExitState::Running);
}

#[test]
fn handle_drag_past_the_desktop_is_not_clamped() {
    let mut s = one_monitor();
    s.press(0, (100, 100));
    s.motion((300, 250));
    s.release();
    s.press(0, (300, 250));
    assert_eq!(rect_sel(&s.selection).modifier, Some(SelectionModifier::BottomRight));
    assert!(s.can_move_to((2500, -40)));
    s.motion((2500, -40));
    let sel = rect_sel(&s.selection);
    assert_eq!(sel.extents, Extents { start_x: 100, start_y: 100, end_x: 2500, end_y: -40 });
    assert_eq!(sel.extents.to_rect(), Rect::new(100, -40, 2400, 140));
}

#[test]
fn fresh_drag_past_the_desktop_moves_only_its_end() {
    let mut s = one_monitor();
    s.press(0, (100, 100));
    s.motion((-500, 3000));
    let sel = rect_sel(&s.selection);
    assert_eq!(sel.extents, Extents { start_x: 100, start_y: 100, end_x: -500, end_y: 3000 });
    assert!(sel.active);
    assert_eq!(sel.modifier, None);
}

#[test]
fn center_drag_with_pointer_outside_the_desktop() {
    let mut s = one_monitor();
    s.press(0, (100, 100));
    s.motion((300, 250));
    s.release();
    s.press(0, (200, 200));
    s.motion((-5000, 5000));
    assert_eq!(rect_sel(&s.selection).extents.to_rect(), Rect::new(0, 930, 200, 150));
}

#[test]
fn can_move_to_refuses_points_out_of_range() {
    let s = one_monitor();
    assert!(s.can_move_to((-3000, 5000)));
    assert!(!s.can_move_to((i32::MAX, 0)));
    assert!(!s.can_move_to((0, -0x2000_0001)));
}

#[test]
fn to_global_adds_monitor_origin() {
    assert_eq!(to_global((10, 20), &Rect::new(-1920, 100, 1920, 1080)), Some((-1910, 120)));
    assert_eq!(to_global((i32::MAX, 0), &Rect::new(1, 0, 10, 10)), None);
}

#[test]
fn preselection_order() {
    let mut args = Args {
        copy: false,
        stdout: false,
        save: None,
        window_search: Some("class=Alacritty".to_string()),
        window_under_cursor: true,
        active_window: true,
        auto_capture: false,
    };
    assert_eq!(args.preselection(), Preselection::Search);
    args.window_search = None;
    assert_eq!(args.preselection(), Preselection::UnderCursor);
    args.window_under_cursor = false;
    assert_eq!(args.preselection(), Preselection::Focused);
    args.active_window = false;
    assert_eq!(args.preselection(), Preselection::Nothing);
}
