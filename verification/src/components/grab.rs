//! Grabbing a node with the pointer and following the pointer while it is held.

use vstd::prelude::*;
use crate::layout::{Interaction, Point, fits};

verus! {

/// The state of a node while it is actively grabbed.
#[derive(Clone, Copy, Debug, PartialEq, Eq, Structural)]
pub struct Grabbed {
    /// Position of the window's cursor when grabbing started.
    pub cursor_position: Point,
    /// The current offset of the cursor relative to when grabbing started.
    pub cursor_offset: Point,
    /// The cursor offset during the previous update.
    pub previous_cursor_offset: Point,
}

/// What to do to a grabbable node's `Grabbed` state.
#[derive(Clone, Copy, Debug, PartialEq, Eq, Structural)]
pub enum GrabChange {
    /// Leave the node as it is.
    Keep,
    /// Grabbing starts: attach this state.
    Insert(Grabbed),
    /// Grabbing ends: remove the state.
    Remove,
}

/// The state of a node that was grabbed this moment, with the cursor at `cursor`.
pub open spec fn grab_start(cursor: Point) -> Grabbed {
    Grabbed {
        cursor_position: cursor,
        cursor_offset: Point { x: 0, y: 0 },
        previous_cursor_offset: Point { x: 0, y: 0 },
    }
}

/// What `grab` decides.
pub open spec fn grab_change(interaction: Interaction, grabbed: bool, cursor: Option<Point>) -> GrabChange {
    if interaction == Interaction::Clicked {
        if !grabbed && cursor.is_some() {
            GrabChange::Insert(grab_start(cursor.unwrap()))
        } else {
            GrabChange::Keep
        }
    } else if grabbed {
        GrabChange::Remove
    } else {
        GrabChange::Keep
    }
}

/// Decides whether a grabbable node starts or stops being grabbed.
///
/// `grabbed` says whether the node holds a `Grabbed` state now, `cursor` is the
/// cursor's position in the primary window, if it has one. A clicked node that
/// is not grabbed yet becomes grabbed where the cursor is; a node that is no
/// longer clicked loses its state.
pub fn grab(interaction: Interaction, grabbed: bool, cursor: Option<Point>) -> (change: GrabChange)
    ensures
        change == grab_change(interaction, grabbed, cursor),
{
    match interaction {
        Interaction::Clicked => {
            if !grabbed {
                if let Some(cursor_position) = cursor {
                    return GrabChange::Insert(
                        Grabbed {
                            cursor_position,
                            cursor_offset: Point { x: 0, y: 0 },
                            previous_cursor_offset: Point { x: 0, y: 0 },
                        },
                    );
                }
            }
            GrabChange::Keep
        },
        _ => {
            if grabbed {
                GrabChange::Remove
            } else {
                GrabChange::Keep
            }
        },
    }
}

impl Grabbed {
    /// Whether the offset of `cursor` from the grab's start fits a coordinate.
    pub open spec fn offset_fits(self, cursor: Point) -> bool {
        &&& fits(cursor.x - self.cursor_position.x)
        &&& fits(cursor.y - self.cursor_position.y)
    }

    /// The state after the cursor moved to `cursor`.
    pub open spec fn moved_to(self, cursor: Point) -> Grabbed {
        Grabbed {
            cursor_position: self.cursor_position,
            cursor_offset: Point {
                x: (cursor.x - self.cursor_position.x) as i32,
                y: (cursor.y - self.cursor_position.y) as i32,
            },
            previous_cursor_offset: self.cursor_offset,
        }
    }

    /// Where the cursor is now: the grab's start plus the current offset.
    pub open spec fn cursor_now(self) -> (int, int) {
        (self.cursor_position.x + self.cursor_offset.x, self.cursor_position.y + self.cursor_offset.y)
    }
}

/// Follows the cursor while a node is grabbed.
///
/// With a cursor, the current offset becomes the cursor's distance from where
/// the grab started and the previous offset becomes what the current one was.
/// Without one nothing changes. Returns whether a field got a new value.
pub fn grabbed_move(grabbed: &mut Grabbed, cursor: Option<Point>) -> (changed: bool)
    requires
        cursor.is_some() ==> old(grabbed).offset_fits(cursor.unwrap()),
    ensures
        cursor.is_some() ==> *final(grabbed) == old(grabbed).moved_to(cursor.unwrap()),
        cursor.is_none() ==> *final(grabbed) == *old(grabbed),
        changed == (*final(grabbed) != *old(grabbed)),
{
    let mut changed = false;
    if let Some(cursor_position) = cursor {
        let last_offset = grabbed.cursor_offset;
        let offset = Point {
            x: cursor_position.x - grabbed.cursor_position.x,
            y: cursor_position.y - grabbed.cursor_position.y,
        };
        if grabbed.cursor_offset != offset {
            grabbed.cursor_offset = offset;
            changed = true;
        }
        if grabbed.previous_cursor_offset != last_offset {
            grabbed.previous_cursor_offset = last_offset;
            changed = true;
        }
    }
    changed
}

/// After a move the grab's start plus its offset is the cursor.
pub proof fn lemma_moved_to_tracks_cursor(g: Grabbed, cursor: Point)
    requires
        g.offset_fits(cursor),
    ensures
        g.moved_to(cursor).cursor_now() == (cursor.x as int, cursor.y as int),
        g.moved_to(cursor).cursor_position == g.cursor_position,
        g.moved_to(cursor).previous_cursor_offset == g.cursor_offset,
{
}

} // verus!
