use flutter_glfw::drag::DragSession;

fn delta(cursor: (f64, f64), start: (f64, f64)) -> (i32, i32) {
    ((cursor.0 - start.0) as i32, (cursor.1 - start.1) as i32)
}

#[test]
fn new_session_is_not_dragging() {
    let d = DragSession::new((0.0, 0.0));
    assert!(!d.is_dragging());
    assert_eq!(*d.start_cursor_pos(), (0.0, 0.0));
}

#[test]
fn drag_scenario_moves_then_stops() {
    let mut d = DragSession::new((0.0, 0.0));
    let mut window = (10, 10);
    d.start_drag((100.0, 100.0));
    assert!(d.is_dragging());
    let (dragging, target) = d.drag_window(window, delta((120.0, 115.0), *d.start_cursor_pos()));
    assert!(dragging);
    assert_eq!(target, Some((30, 25)));
    window = target.unwrap();
    d.end_drag();
    let (dragging, target) = d.drag_window(window, delta((200.0, 200.0), *d.start_cursor_pos()));
    assert!(!dragging);
    assert_eq!(target, None);
    assert_eq!(window, (30, 25));
}

#[test]
fn idle_drag_never_moves() {
    let d = DragSession::new((5.0, 5.0));
    assert_eq!(d.drag_window((3, 4), (100, -100)), (false, None));
    assert_eq!(d.drag_window((i32::MAX, i32::MIN), (i32::MAX, i32::MIN)), (false, None));
}

#[test]
fn start_then_end_leaves_position() {
    let mut d = DragSession::new((0.0, 0.0));
    d.start_drag((50.0, 60.0));
    d.end_drag();
    assert!(!d.is_dragging());
    assert_eq!(*d.start_cursor_pos(), (50.0, 60.0));
    assert_eq!(d.drag_window((7, 8), (9, 9)), (false, None));
}

#[test]
fn end_drag_when_idle_is_a_no_op() {
    let mut d = DragSession::new((1.0, 2.0));
    d.end_drag();
    assert!(!d.is_dragging());
    assert_eq!(*d.start_cursor_pos(), (1.0, 2.0));
}

#[test]
fn drag_moves_by_displacement_from_call_time_position() {
    let mut d = DragSession::new((0.0, 0.0));
    d.start_drag((10.5, 20.25));
    let step = delta((4.0, 30.0), *d.start_cursor_pos());
    assert_eq!(step, (-6, 9));
    assert_eq!(d.drag_window((100, 100), step), (true, Some((94, 109))));
    // The anchor is fixed: the same displacement from the new position moves again.
    assert_eq!(d.drag_window((94, 109), step), (true, Some((88, 118))));
    // No displacement, no movement.
    assert_eq!(d.drag_window((94, 109), (0, 0)), (true, Some((94, 109))));
}

#[test]
fn restarting_a_drag_moves_the_anchor() {
    let mut d = DragSession::new((0.0, 0.0));
    d.start_drag((1.0, 1.0));
    d.start_drag((3.0, 4.0));
    assert_eq!(*d.start_cursor_pos(), (3.0, 4.0));
    let step = delta((13.0, 14.0), *d.start_cursor_pos());
    assert_eq!(d.drag_window((0, 0), step), (true, Some((10, 10))));
}

#[test]
fn drag_to_the_edge_of_the_range() {
    let mut d = DragSession::new(());
    d.start_drag(());
    assert_eq!(
        d.drag_window((i32::MAX - 1, i32::MIN + 1), (1, -1)),
        (true, Some((i32::MAX, i32::MIN)))
    );
}
