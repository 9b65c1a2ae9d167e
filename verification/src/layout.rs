//! Plain values that stand for what the host UI stores on its nodes.
//!
//! Every length and coordinate is a whole number of layout units. The host
//! chooses the unit (a pixel, or a fraction of one) and converts at its edge.

use vstd::prelude::*;

verus! {

/// A position or an extent on the UI plane.
#[derive(Clone, Copy, Debug, PartialEq, Eq, Structural)]
pub struct Point {
    pub x: i32,
    pub y: i32,
}

impl Point {
    pub fn new(x: i32, y: i32) -> (p: Point)
        ensures
            p == (Point { x, y }),
    {
        Point { x, y }
    }

    /// The origin, which is also the size of a node that has not been laid out.
    pub fn zero() -> (p: Point)
        ensures
            p == (Point { x: 0, y: 0 }),
    {
        Point { x: 0, y: 0 }
    }
}

/// One edge or length of a node's style.
#[derive(Clone, Copy, Debug, PartialEq, Eq, Structural)]
pub enum Val {
    /// Nothing was set.
    Undefined,
    /// The layout decides.
    Auto,
    /// A length in layout units.
    Px(i32),
    /// A share of the parent, in hundredths.
    Percent(i32),
}

impl Val {
    /// The length that `self` holds when it is `Px`, else 0.
    pub open spec fn px_or_zero(self) -> int {
        match self {
            Val::Px(v) => v as int,
            _ => 0,
        }
    }

    /// The length that `self` holds when it is `Px`, else 0.
    pub fn get_px_or_zero(self) -> (v: i32)
        ensures
            v == self.px_or_zero(),
    {
        match self {
            Val::Px(v) => v,
            _ => 0,
        }
    }
}

/// The four edges that place a node.
#[derive(Clone, Copy, Debug, PartialEq, Eq, Structural)]
pub struct UiRect {
    pub left: Val,
    pub right: Val,
    pub top: Val,
    pub bottom: Val,
}

impl UiRect {
    /// The rect with no edge set.
    pub open spec fn unset() -> UiRect {
        UiRect { left: Val::Undefined, right: Val::Undefined, top: Val::Undefined, bottom: Val::Undefined }
    }

    /// The rect with the same value on every edge.
    pub fn all(value: Val) -> (r: UiRect)
        ensures
            r == (UiRect { left: value, right: value, top: value, bottom: value }),
    {
        UiRect { left: value, right: value, top: value, bottom: value }
    }
}

impl Default for UiRect {
    fn default() -> (r: UiRect)
        ensures
            r == UiRect::unset(),
    {
        UiRect { left: Val::Undefined, right: Val::Undefined, top: Val::Undefined, bottom: Val::Undefined }
    }
}

/// What the pointer is doing to a node.
#[derive(Clone, Copy, Debug, PartialEq, Eq, Structural)]
pub enum Interaction {
    /// The node has been clicked.
    Clicked,
    /// The node has been hovered over.
    Hovered,
    /// Nothing has happened.
    Idle,
}

/// Whether a node takes part in layout.
#[derive(Clone, Copy, Debug, PartialEq, Eq, Structural)]
pub enum Display {
    /// The node is laid out and shown.
    Flex,
    /// The node is left out of layout.
    Hidden,
}

/// An axis-aligned rectangle by its two corners.
#[derive(Clone, Copy, Debug, PartialEq, Eq, Structural)]
pub struct Bounds {
    pub min: Point,
    pub max: Point,
}

/// Whether `v` fits a coordinate.
pub open spec fn fits(v: int) -> bool {
    i32::MIN <= v <= i32::MAX
}

/// Half of `v`, rounded toward zero.
pub open spec fn half(v: int) -> int {
    if v >= 0 {
        v / 2
    } else {
        -((-v) / 2)
    }
}

/// The larger of two numbers.
pub open spec fn larger(a: int, b: int) -> int {
    if a >= b {
        a
    } else {
        b
    }
}

/// The smaller of two numbers.
pub open spec fn smaller(a: int, b: int) -> int {
    if a <= b {
        a
    } else {
        b
    }
}

} // verus!
