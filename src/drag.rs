//! Drag-to-move state machine of the window control adapter.
use vstd::prelude::*;

verus! {

/// Whether an integer fits in an `i32`.
pub open spec fn in_i32(v: int) -> bool {
    i32::MIN <= v <= i32::MAX
}

/// Whether a window at `pos` can be moved by `delta` without leaving the `i32` range.
pub open spec fn can_move(pos: (i32, i32), delta: (i32, i32)) -> bool {
    in_i32(pos.0 + delta.0) && in_i32(pos.1 + delta.1)
}

/// What a drag session is: whether a drag is in progress, and the cursor
/// position recorded when it started.
pub struct DragModel<C> {
    pub dragging: bool,
    pub start_cursor_pos: C,
}

/// The session after `start_drag` at cursor position `cursor`.
pub open spec fn started<C>(m: DragModel<C>, cursor: C) -> DragModel<C> {
    DragModel { dragging: true, start_cursor_pos: cursor }
}

/// The session after `end_drag`.
pub open spec fn ended<C>(m: DragModel<C>) -> DragModel<C> {
    DragModel { dragging: false, start_cursor_pos: m.start_cursor_pos }
}

/// What a pointer move does: the `dragging` flag that is returned, and the
/// position the window is moved to, if any. `delta` is the integer displacement
/// of the cursor from the recorded start position; `pos` is the window's
/// position when the call is made.
pub open spec fn drag_step<C>(m: DragModel<C>, pos: (i32, i32), delta: (i32, i32)) -> (
    bool,
    Option<(i32, i32)>,
) {
    if m.dragging {
        (true, Some(((pos.0 + delta.0) as i32, (pos.1 + delta.1) as i32)))
    } else {
        (false, None)
    }
}

/// Where the window stands after a step whose move is `target`.
pub open spec fn position_after(pos: (i32, i32), target: Option<(i32, i32)>) -> (i32, i32) {
    match target {
        Some(p) => p,
        None => pos,
    }
}

/// While a drag is in progress, a pointer move puts the window at its position
/// at call time plus the cursor's displacement from the drag's start. The anchor
/// stays fixed, so a second move with the same displacement, made from
/// wherever the window then stands, moves it by that displacement again: it
/// adds no movement exactly when the displacement is zero.
pub proof fn drag_moves_by_displacement<C>(
    m: DragModel<C>,
    pos: (i32, i32),
    later_pos: (i32, i32),
    delta: (i32, i32),
)
    requires
        m.dragging,
        can_move(pos, delta),
        can_move(later_pos, delta),
    ensures
        drag_step(m, pos, delta).0,
        position_after(pos, drag_step(m, pos, delta).1).0 == pos.0 + delta.0,
        position_after(pos, drag_step(m, pos, delta).1).1 == pos.1 + delta.1,
        (position_after(later_pos, drag_step(m, later_pos, delta).1) == later_pos) <==> (delta.0
            == 0 && delta.1 == 0),
{
}

/// Without a drag in progress, a pointer move never moves the window and
/// reports `false`.
pub proof fn idle_drag_keeps_position<C>(m: DragModel<C>, pos: (i32, i32), delta: (i32, i32))
    requires
        !m.dragging,
    ensures
        drag_step(m, pos, delta) == (false, None::<(i32, i32)>),
        position_after(pos, drag_step(m, pos, delta).1) == pos,
{
}

/// Ending a drag right after starting it leaves no drag in progress, so the
/// window stays where it is on any later pointer move. (Starting and ending a
/// drag never touch the window themselves.)
pub proof fn start_then_end_keeps_position<C>(
    m: DragModel<C>,
    cursor: C,
    pos: (i32, i32),
    delta: (i32, i32),
)
    ensures
        !ended(started(m, cursor)).dragging,
        ended(started(m, cursor)).start_cursor_pos == cursor,
        drag_step(ended(started(m, cursor)), pos, delta) == (false, None::<(i32, i32)>),
        position_after(pos, drag_step(ended(started(m, cursor)), pos, delta).1) == pos,
{
}

/// The drag state of one window control adapter. `C` is the type of a cursor
/// position; the session records it and hands it back, and never reads it.
pub struct DragSession<C> {
    dragging: bool,
    start_cursor_pos: C,
}

impl<C> View for DragSession<C> {
    type V = DragModel<C>;

    closed spec fn view(&self) -> DragModel<C> {
        DragModel { dragging: self.dragging, start_cursor_pos: self.start_cursor_pos }
    }
}

impl<C> DragSession<C> {
    /// A session with no drag in progress, whose recorded cursor position is `initial`.
    pub fn new(initial: C) -> (r: Self)
        ensures
            r@ == (DragModel { dragging: false, start_cursor_pos: initial }),
    {
        DragSession { dragging: false, start_cursor_pos: initial }
    }

    pub fn is_dragging(&self) -> (r: bool)
        ensures
            r == self@.dragging,
    {
        self.dragging
    }

    /// The cursor position recorded by the last `start_drag`.
    pub fn start_cursor_pos(&self) -> (r: &C)
        ensures
            *r == self@.start_cursor_pos,
    {
        &self.start_cursor_pos
    }

    /// Begins a drag, anchored at the cursor position `cursor`.
    pub fn start_drag(&mut self, cursor: C)
        ensures
            final(self)@ == started(old(self)@, cursor),
    {
        self.dragging = true;
        self.start_cursor_pos = cursor;
    }

    /// Ends the drag; does nothing when none is in progress.
    pub fn end_drag(&mut self)
        ensures
            final(self)@ == ended(old(self)@),
    {
        self.dragging = false;
    }

    /// Handles a pointer move. While a drag is in progress the window, now at
    /// `window_pos`, is to move by `cursor_delta` (the cursor's displacement
    /// from the recorded start position); otherwise it stays. Returns the
    /// `dragging` flag and the position to move the window to, if any.
    pub fn drag_window(&self, window_pos: (i32, i32), cursor_delta: (i32, i32)) -> (r: (
        bool,
        Option<(i32, i32)>,
    ))
        requires
            self@.dragging ==> can_move(window_pos, cursor_delta),
        ensures
            r == drag_step(self@, window_pos, cursor_delta),
            r.0 == self@.dragging,
            !self@.dragging ==> r.1 is None,
            self@.dragging ==> (r.1 matches Some((x, y)) && x == window_pos.0 + cursor_delta.0 && y
                == window_pos.1 + cursor_delta.1),
    {
        if self.dragging {
            let x: i32 = window_pos.0 + cursor_delta.0;
            let y: i32 = window_pos.1 + cursor_delta.1;
            (true, Some((x, y)))
        } else {
            (false, None)
        }
    }
}

} // verus!
