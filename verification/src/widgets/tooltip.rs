//! Where a tooltip goes: beside the cursor, beside another node, or where it is told.
//!
//! Positions are measured from the lower left corner of the window, so a node
//! placed by `left` and `bottom` covers `left .. left + width` and
//! `bottom .. bottom + height`.

use vstd::prelude::*;

pub mod builder;

use crate::layout::{Point, UiRect, Val, fits, half};

verus! {

/// Describes the positioning of the tooltip.
#[derive(Clone, Copy, Debug, PartialEq, Eq, Structural)]
pub enum TooltipPosition {
    /// Tooltip follows the cursor.
    FollowCursor,
    /// Tooltip is positioned relative to the node with this id.
    Node(u64),
    /// Uses absolute positioning on the screen.
    Absolute(Point),
    /// Raw rect, written to the style as it is.
    Rect(UiRect),
    /// Disables automatic positioning of the tooltip node.
    Manual,
}

impl Default for TooltipPosition {
    fn default() -> (p: TooltipPosition)
        ensures
            p == TooltipPosition::Manual,
    {
        TooltipPosition::Manual
    }
}

/// Describes the alignment of the tooltip relative to its position.
/// This is ignored when using a `Rect` position.
#[derive(Clone, Copy, Debug, PartialEq, Eq, Structural)]
pub enum TooltipAlign {
    Bottom,
    Left,
    Right,
    Top,
}

impl Default for TooltipAlign {
    fn default() -> (a: TooltipAlign)
        ensures
            a == TooltipAlign::Top,
    {
        TooltipAlign::Top
    }
}

/// The gap between the cursor and a tooltip that follows it.
pub const CURSOR_MARGIN: i32 = 5;

/// The gap between a node and a tooltip that is attached to it.
pub const NODE_MARGIN: i32 = 2;

/// The point on the edge of a node that a tooltip on side `align` is anchored to:
/// the middle of that edge, for a node of size `size` centred on `position`.
pub open spec fn node_point(align: TooltipAlign, size: Point, position: Point) -> (int, int) {
    match align {
        TooltipAlign::Bottom => (position.x as int, position.y - half(size.y as int)),
        TooltipAlign::Left => (position.x - half(size.x as int), position.y as int),
        TooltipAlign::Right => (position.x + half(size.x as int), position.y as int),
        TooltipAlign::Top => (position.x as int, position.y + half(size.y as int)),
    }
}

/// The `left` edge of a tooltip of size `size` put on side `align` of `point`, `offset` away.
pub open spec fn tooltip_left(align: TooltipAlign, size: Point, point: Point, offset: int) -> int {
    match align {
        TooltipAlign::Bottom => point.x - half(size.x as int),
        TooltipAlign::Left => point.x - size.x - offset,
        TooltipAlign::Right => point.x + offset,
        TooltipAlign::Top => point.x - half(size.x as int),
    }
}

/// The `bottom` edge of a tooltip of size `size` put on side `align` of `point`, `offset` away.
pub open spec fn tooltip_bottom(align: TooltipAlign, size: Point, point: Point, offset: int) -> int {
    match align {
        TooltipAlign::Bottom => point.y - size.y - offset,
        TooltipAlign::Left => point.y - half(size.y as int),
        TooltipAlign::Right => point.y - half(size.y as int),
        TooltipAlign::Top => point.y + offset,
    }
}

/// Whether the anchor point on a node fits coordinates.
pub open spec fn node_point_fits(align: TooltipAlign, size: Point, position: Point) -> bool {
    fits(node_point(align, size, position).0) && fits(node_point(align, size, position).1)
}

/// Whether both edges of the placed tooltip fit coordinates.
pub open spec fn tooltip_rect_fits(align: TooltipAlign, size: Point, point: Point, offset: int) -> bool {
    fits(tooltip_left(align, size, point, offset)) && fits(tooltip_bottom(align, size, point, offset))
}

/// The rect that places a tooltip by its `left` and `bottom` edges.
pub open spec fn tooltip_rect(align: TooltipAlign, size: Point, point: Point, offset: int) -> UiRect {
    UiRect {
        left: Val::Px(tooltip_left(align, size, point, offset) as i32),
        right: Val::Undefined,
        top: Val::Undefined,
        bottom: Val::Px(tooltip_bottom(align, size, point, offset) as i32),
    }
}

/// Finds the middle of the edge of a node on which a tooltip with `align` sits.
pub fn calculate_node_point(align: TooltipAlign, size: Point, position: Point) -> (p: Point)
    requires
        node_point_fits(align, size, position),
    ensures
        (p.x as int, p.y as int) == node_point(align, size, position),
{
    match align {
        TooltipAlign::Bottom => Point { x: position.x, y: position.y - size.y / 2 },
        TooltipAlign::Left => Point { x: position.x - size.x / 2, y: position.y },
        TooltipAlign::Right => Point { x: position.x + size.x / 2, y: position.y },
        TooltipAlign::Top => Point { x: position.x, y: position.y + size.y / 2 },
    }
}

/// Places a tooltip of size `tooltip_size` on side `align` of `point`, `offset` away
/// from it and centred on it along the other axis.
pub fn calculate_tooltip_rect(align: TooltipAlign, tooltip_size: Point, point: Point, offset: i32) -> (r: UiRect)
    requires
        tooltip_rect_fits(align, tooltip_size, point, offset as int),
    ensures
        r == tooltip_rect(align, tooltip_size, point, offset as int),
{
    let px: i64 = point.x as i64;
    let py: i64 = point.y as i64;
    let w: i64 = tooltip_size.x as i64;
    let h: i64 = tooltip_size.y as i64;
    let off: i64 = offset as i64;
    let half_w: i64 = (tooltip_size.x / 2) as i64;
    let half_h: i64 = (tooltip_size.y / 2) as i64;
    let (left, bottom): (i64, i64) = match align {
        TooltipAlign::Bottom => (px - half_w, py - h - off),
        TooltipAlign::Left => (px - w - off, py - half_h),
        TooltipAlign::Right => (px + off, py - half_h),
        TooltipAlign::Top => (px - half_w, py + off),
    };
    UiRect {
        left: Val::Px(left as i32),
        right: Val::Undefined,
        top: Val::Undefined,
        bottom: Val::Px(bottom as i32),
    }
}

/// A placed tooltip keeps clear of its anchor: the edge that faces the point is
/// exactly `offset` away from it, and along the other axis the tooltip's middle
/// is the point (up to the half unit lost in halving an odd size).
pub proof fn lemma_tooltip_keeps_clear(align: TooltipAlign, size: Point, point: Point, offset: int)
    requires
        size.x >= 0,
        size.y >= 0,
    ensures
        align == TooltipAlign::Top ==> tooltip_bottom(align, size, point, offset) == point.y + offset,
        align == TooltipAlign::Bottom ==> tooltip_bottom(align, size, point, offset) + size.y == point.y - offset,
        align == TooltipAlign::Right ==> tooltip_left(align, size, point, offset) == point.x + offset,
        align == TooltipAlign::Left ==> tooltip_left(align, size, point, offset) + size.x == point.x - offset,
        align == TooltipAlign::Top || align == TooltipAlign::Bottom ==> {
            &&& tooltip_left(align, size, point, offset) <= point.x
            &&& point.x <= tooltip_left(align, size, point, offset) + size.x
            &&& 0 <= size.x - 2 * (point.x - tooltip_left(align, size, point, offset)) <= 1
        },
        align == TooltipAlign::Left || align == TooltipAlign::Right ==> {
            &&& tooltip_bottom(align, size, point, offset) <= point.y
            &&& point.y <= tooltip_bottom(align, size, point, offset) + size.y
            &&& 0 <= size.y - 2 * (point.y - tooltip_bottom(align, size, point, offset)) <= 1
        },
{
}

/// What the style's position becomes for a tooltip with a fixed position.
pub open spec fn fixed_position(position: TooltipPosition) -> Option<UiRect> {
    match position {
        TooltipPosition::Absolute(pos) => Some(
            UiRect { left: Val::Px(pos.x), right: Val::Undefined, top: Val::Px(pos.y), bottom: Val::Undefined },
        ),
        TooltipPosition::Rect(rect) => Some(rect),
        _ => None,
    }
}

/// Places a tooltip whose position does not depend on anything that moves.
///
/// An `Absolute` position sets `left` and `top`; a `Rect` is taken as it is.
/// For the other positions nothing is written.
pub fn position_update_system(position: TooltipPosition) -> (rect: Option<UiRect>)
    ensures
        rect == fixed_position(position),
{
    match position {
        TooltipPosition::Absolute(pos) => Some(
            UiRect { left: Val::Px(pos.x), right: Val::Undefined, top: Val::Px(pos.y), bottom: Val::Undefined },
        ),
        TooltipPosition::Rect(rect) => Some(rect),
        _ => None,
    }
}

/// Whether a tooltip with `position` is placed by the cursor at `cursor`.
pub open spec fn follows_cursor(position: TooltipPosition, cursor: Option<Point>) -> bool {
    position == TooltipPosition::FollowCursor && cursor.is_some()
}

/// Places a tooltip that follows the cursor.
///
/// `node_size` is the tooltip's own measured size and `cursor` the cursor's
/// position in the primary window, if it has one. Only a `FollowCursor`
/// tooltip is placed, and only while there is a cursor: it then sits
/// `CURSOR_MARGIN` away from the cursor on the side that `align` names.
pub fn position_update_cursor_system(
    position: TooltipPosition,
    align: TooltipAlign,
    node_size: Point,
    cursor: Option<Point>,
) -> (rect: Option<UiRect>)
    requires
        follows_cursor(position, cursor) ==> tooltip_rect_fits(align, node_size, cursor.unwrap(), CURSOR_MARGIN as int),
    ensures
        rect == if follows_cursor(position, cursor) {
            Some(tooltip_rect(align, node_size, cursor.unwrap(), CURSOR_MARGIN as int))
        } else {
            None
        },
{
    if let TooltipPosition::FollowCursor = position {
        if let Some(pos) = cursor {
            return Some(calculate_tooltip_rect(align, node_size, pos, CURSOR_MARGIN));
        }
    }
    None
}

/// What a pass over the tooltips does with one that may be attached to a node.
#[derive(Clone, Copy, Debug, PartialEq, Eq, Structural)]
pub enum NodePlacement {
    /// Nothing to write for this tooltip; go on with the next.
    Unchanged,
    /// Write this rect to the tooltip's style; go on with the next.
    Place(UiRect),
    /// The tooltip has no size yet: end the pass.
    NotLaidOut,
}

/// The node that a tooltip is attached to: its centre and its size.
#[derive(Clone, Copy, Debug, PartialEq, Eq, Structural)]
pub struct TargetNode {
    pub center: Point,
    pub size: Point,
}

/// The anchor point on `target`, as a point.
pub open spec fn target_point(align: TooltipAlign, target: TargetNode) -> Point {
    Point {
        x: node_point(align, target.size, target.center).0 as i32,
        y: node_point(align, target.size, target.center).1 as i32,
    }
}

/// Whether a tooltip with `position` is placed against `target`.
pub open spec fn attached(position: TooltipPosition, target: Option<TargetNode>) -> bool {
    position is Node && target.is_some()
}

/// Whether placing the tooltip against `target` stays within coordinates.
pub open spec fn attachment_fits(align: TooltipAlign, node_size: Point, target: TargetNode) -> bool {
    &&& node_point_fits(align, target.size, target.center)
    &&& tooltip_rect_fits(align, node_size, target_point(align, target), NODE_MARGIN as int)
}

/// What `position_update_node_system` decides.
pub open spec fn node_placement(
    position: TooltipPosition,
    align: TooltipAlign,
    node_size: Point,
    target: Option<TargetNode>,
    current: UiRect,
) -> NodePlacement {
    if !attached(position, target) {
        NodePlacement::Unchanged
    } else if node_size == (Point { x: 0, y: 0 }) {
        NodePlacement::NotLaidOut
    } else {
        let rect = tooltip_rect(align, node_size, target_point(align, target.unwrap()), NODE_MARGIN as int);
        if current == rect {
            NodePlacement::Unchanged
        } else {
            NodePlacement::Place(rect)
        }
    }
}

/// Places a tooltip that is attached to a node.
///
/// `target` is the node that a `Node` position names, where it exists, and
/// `current` the tooltip's position as its style has it now. The tooltip goes
/// `NODE_MARGIN` away from the middle of the target's edge on side `align`.
/// A rect is handed back only where it differs from `current`. A tooltip whose
/// own size is still zero has not been laid out, and ends the pass.
pub fn position_update_node_system(
    position: TooltipPosition,
    align: TooltipAlign,
    node_size: Point,
    target: Option<TargetNode>,
    current: UiRect,
) -> (placement: NodePlacement)
    requires
        attached(position, target) && node_size != (Point { x: 0, y: 0 }) ==> attachment_fits(
            align,
            node_size,
            target.unwrap(),
        ),
    ensures
        placement == node_placement(position, align, node_size, target, current),
{
    if let TooltipPosition::Node(_) = position {
        if let Some(other) = target {
            if node_size == Point::zero() {
                return NodePlacement::NotLaidOut;
            }
            let point = calculate_node_point(align, other.size, other.center);
            let rect = calculate_tooltip_rect(align, node_size, point, NODE_MARGIN);
            if current != rect {
                return NodePlacement::Place(rect);
            }
        }
    }
    NodePlacement::Unchanged
}

} // verus!
