//! A frame: a window-like node that is dragged around by its title bar.

use vstd::prelude::*;

pub mod builder;

use crate::components::grab::Grabbed;
use crate::layout::{UiRect, Val, fits};

verus! {

/// How far the cursor moved since the previous update, on each axis.
pub open spec fn drag_step(grabbed: Grabbed) -> (int, int) {
    (
        grabbed.cursor_offset.x - grabbed.previous_cursor_offset.x,
        grabbed.cursor_offset.y - grabbed.previous_cursor_offset.y,
    )
}

/// The `left` edge of a frame at `position` after it followed its grabber.
pub open spec fn moved_left(position: UiRect, grabbed: Grabbed) -> int {
    position.left.px_or_zero() + drag_step(grabbed).0
}

/// The `top` edge of a frame at `position` after it followed its grabber.
/// The cursor's height grows upward and `top` grows downward.
pub open spec fn moved_top(position: UiRect, grabbed: Grabbed) -> int {
    position.top.px_or_zero() - drag_step(grabbed).1
}

/// Whether the moved frame's edges fit coordinates.
pub open spec fn move_fits(position: UiRect, grabbed: Grabbed) -> bool {
    fits(moved_left(position, grabbed)) && fits(moved_top(position, grabbed))
}

/// The position of a frame after it followed its grabber.
pub open spec fn moved_frame(position: UiRect, grabbed: Grabbed) -> UiRect {
    UiRect {
        left: Val::Px(moved_left(position, grabbed) as i32),
        right: Val::Undefined,
        top: Val::Px(moved_top(position, grabbed) as i32),
        bottom: Val::Undefined,
    }
}

/// Moves a frame by as much as its grabber was dragged since the last update.
///
/// `position` is the frame's position as its style has it. An edge that is not
/// a length counts as 0. The result sets `left` and `top` and nothing else.
pub fn move_frame(position: UiRect, grabbed: &Grabbed) -> (moved: UiRect)
    requires
        move_fits(position, *grabbed),
    ensures
        moved == moved_frame(position, *grabbed),
{
    let dx: i64 = grabbed.cursor_offset.x as i64 - grabbed.previous_cursor_offset.x as i64;
    let dy: i64 = grabbed.cursor_offset.y as i64 - grabbed.previous_cursor_offset.y as i64;
    let x: i64 = position.left.get_px_or_zero() as i64;
    let y: i64 = position.top.get_px_or_zero() as i64;
    UiRect {
        left: Val::Px((x + dx) as i32),
        right: Val::Undefined,
        top: Val::Px((y - dy) as i32),
        bottom: Val::Undefined,
    }
}

/// A grabber that did not move leaves a frame with `left` and `top` where it was.
pub proof fn lemma_still_grabber_keeps_frame(position: UiRect, grabbed: Grabbed)
    requires
        grabbed.cursor_offset == grabbed.previous_cursor_offset,
    ensures
        move_fits(position, grabbed),
        moved_frame(position, grabbed).left == Val::Px(position.left.px_or_zero() as i32),
        moved_frame(position, grabbed).top == Val::Px(position.top.px_or_zero() as i32),
{
}

} // verus!
