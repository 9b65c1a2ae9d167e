use bevy_ui_widgets::components::grab::Grabbed;
use bevy_ui_widgets::layout::{Bounds, Point, UiRect, Val};
use bevy_ui_widgets::text::extract_text_uinodes;
use bevy_ui_widgets::utils::get_uinode_clipped_rect;
use bevy_ui_widgets::widgets::frame::move_frame;
use bevy_ui_widgets::widgets::tooltip::{
    calculate_node_point, calculate_tooltip_rect, position_update_cursor_system, position_update_node_system,
    position_update_system, NodePlacement, TargetNode, TooltipAlign, TooltipPosition, CURSOR_MARGIN, NODE_MARGIN,
};

fn placed(left: i32, bottom: i32) -> UiRect {
    UiRect { left: Val::Px(left), right: Val::Undefined, top: Val::Undefined, bottom: Val::Px(bottom) }
}

#[test]
fn val_px_or_zero() {
    assert_eq!(Val::Px(12).get_px_or_zero(), 12);
    assert_eq!(Val::Px(-3).get_px_or_zero(), -3);
    assert_eq!(Val::Undefined.get_px_or_zero(), 0);
    assert_eq!(Val::Auto.get_px_or_zero(), 0);
    assert_eq!(Val::Percent(50).get_px_or_zero(), 0);
}

#[test]
fn ui_rect_default_and_all() {
    let d = UiRect::default();
    assert_eq!(d.left, Val::Undefined);
    assert_eq!(d.right, Val::Undefined);
    assert_eq!(d.top, Val::Undefined);
    assert_eq!(d.bottom, Val::Undefined);
    let a = UiRect::all(Val::Px(2));
    assert_eq!(a, UiRect { left: Val::Px(2), right: Val::Px(2), top: Val::Px(2), bottom: Val::Px(2) });
}

#[test]
fn unclipped_rect_is_centred_on_position() {
    let (min, max) = get_uinode_clipped_rect(Point::new(100, 50), Point::new(40, 20), None);
    assert_eq!(min, Point::new(80, 40));
    assert_eq!(max, Point::new(120, 60));
}

#[test]
fn odd_size_halves_toward_zero() {
    let (min, max) = get_uinode_clipped_rect(Point::new(10, 10), Point::new(5, 3), None);
    assert_eq!(min, Point::new(8, 9));
    assert_eq!(max, Point::new(12, 11));
}

#[test]
fn clip_cuts_rect_down() {
    let clip = Bounds { min: Point::new(90, 0), max: Point::new(110, 55) };
    let (min, max) = get_uinode_clipped_rect(Point::new(100, 50), Point::new(40, 20), Some(clip));
    assert_eq!(min, Point::new(90, 40));
    assert_eq!(max, Point::new(110, 55));
}

#[test]
fn wide_clip_changes_nothing() {
    let clip = Bounds { min: Point::new(-1000, -1000), max: Point::new(1000, 1000) };
    let (min, max) = get_uinode_clipped_rect(Point::new(100, 50), Point::new(40, 20), Some(clip));
    assert_eq!(min, Point::new(80, 40));
    assert_eq!(max, Point::new(120, 60));
}

#[test]
fn clip_apart_from_node_gives_empty_rect() {
    let clip = Bounds { min: Point::new(200, 200), max: Point::new(300, 300) };
    let (min, max) = get_uinode_clipped_rect(Point::new(100, 50), Point::new(40, 20), Some(clip));
    assert_eq!(min, Point::new(200, 200));
    assert_eq!(max, Point::new(120, 60));
}

#[test]
fn node_point_is_middle_of_edge() {
    let size = Point::new(40, 20);
    let pos = Point::new(100, 50);
    assert_eq!(calculate_node_point(TooltipAlign::Bottom, size, pos), Point::new(100, 40));
    assert_eq!(calculate_node_point(TooltipAlign::Left, size, pos), Point::new(80, 50));
    assert_eq!(calculate_node_point(TooltipAlign::Right, size, pos), Point::new(120, 50));
    assert_eq!(calculate_node_point(TooltipAlign::Top, size, pos), Point::new(100, 60));
}

#[test]
fn tooltip_rect_for_each_side() {
    let size = Point::new(40, 20);
    let point = Point::new(100, 100);
    assert_eq!(calculate_tooltip_rect(TooltipAlign::Bottom, size, point, 5), placed(80, 75));
    assert_eq!(calculate_tooltip_rect(TooltipAlign::Left, size, point, 5), placed(55, 90));
    assert_eq!(calculate_tooltip_rect(TooltipAlign::Right, size, point, 5), placed(105, 90));
    assert_eq!(calculate_tooltip_rect(TooltipAlign::Top, size, point, 5), placed(80, 105));
}

#[test]
fn tooltip_rect_keeps_clear_of_point() {
    let size = Point::new(31, 17);
    let point = Point::new(-4, 9);
    let offset = 3;
    let top = calculate_tooltip_rect(TooltipAlign::Top, size, point, offset);
    assert_eq!(top.bottom, Val::Px(point.y + offset));
    let bottom = calculate_tooltip_rect(TooltipAlign::Bottom, size, point, offset);
    assert_eq!(bottom.bottom.get_px_or_zero() + size.y, point.y - offset);
    let right = calculate_tooltip_rect(TooltipAlign::Right, size, point, offset);
    assert_eq!(right.left, Val::Px(point.x + offset));
    let left = calculate_tooltip_rect(TooltipAlign::Left, size, point, offset);
    assert_eq!(left.left.get_px_or_zero() + size.x, point.x - offset);
    assert_eq!(top.left, Val::Px(-19));
    assert_eq!(right.bottom, Val::Px(1));
}

#[test]
fn tooltip_rect_sets_left_and_bottom_only() {
    let r = calculate_tooltip_rect(TooltipAlign::Top, Point::new(10, 10), Point::new(0, 0), 0);
    assert_eq!(r.right, Val::Undefined);
    assert_eq!(r.top, Val::Undefined);
    assert_eq!(r.left, Val::Px(-5));
    assert_eq!(r.bottom, Val::Px(0));
}

#[test]
fn tooltip_defaults() {
    assert_eq!(TooltipPosition::default(), TooltipPosition::Manual);
    assert_eq!(TooltipAlign::default(), TooltipAlign::Top);
    assert_eq!(CURSOR_MARGIN, 5);
    assert_eq!(NODE_MARGIN, 2);
}

#[test]
fn absolute_position_sets_left_and_top() {
    let r = position_update_system(TooltipPosition::Absolute(Point::new(12, 34)));
    assert_eq!(
        r,
        Some(UiRect { left: Val::Px(12), right: Val::Undefined, top: Val::Px(34), bottom: Val::Undefined })
    );
}

#[test]
fn rect_position_is_taken_as_it_is() {
    let rect = UiRect { left: Val::Percent(10), right: Val::Auto, top: Val::Px(1), bottom: Val::Undefined };
    assert_eq!(position_update_system(TooltipPosition::Rect(rect)), Some(rect));
}

#[test]
fn moving_positions_are_not_fixed() {
    assert_eq!(position_update_system(TooltipPosition::FollowCursor), None);
    assert_eq!(position_update_system(TooltipPosition::Node(7)), None);
    assert_eq!(position_update_system(TooltipPosition::Manual), None);
}

#[test]
fn tooltip_follows_cursor() {
    let r = position_update_cursor_system(
        TooltipPosition::FollowCursor,
        TooltipAlign::Right,
        Point::new(40, 20),
        Some(Point::new(200, 100)),
    );
    assert_eq!(r, Some(placed(205, 90)));
}

#[test]
fn tooltip_without_cursor_stays() {
    let r = position_update_cursor_system(TooltipPosition::FollowCursor, TooltipAlign::Right, Point::new(40, 20), None);
    assert_eq!(r, None);
}

#[test]
fn only_follow_cursor_tooltips_follow() {
    let cursor = Some(Point::new(200, 100));
    let size = Point::new(40, 20);
    assert_eq!(position_update_cursor_system(TooltipPosition::Manual, TooltipAlign::Top, size, cursor), None);
    assert_eq!(position_update_cursor_system(TooltipPosition::Node(3), TooltipAlign::Top, size, cursor), None);
    assert_eq!(
        position_update_cursor_system(TooltipPosition::Absolute(Point::new(1, 1)), TooltipAlign::Top, size, cursor),
        None
    );
}

#[test]
fn tooltip_sits_above_target_node() {
    let target = TargetNode { center: Point::new(100, 50), size: Point::new(16, 16) };
    let r = position_update_node_system(
        TooltipPosition::Node(9),
        TooltipAlign::Top,
        Point::new(40, 20),
        Some(target),
        UiRect::default(),
    );
    assert_eq!(r, NodePlacement::Place(placed(80, 60)));
}

#[test]
fn tooltip_sits_left_of_target_node() {
    let target = TargetNode { center: Point::new(100, 50), size: Point::new(16, 16) };
    let r = position_update_node_system(
        TooltipPosition::Node(9),
        TooltipAlign::Left,
        Point::new(40, 20),
        Some(target),
        UiRect::default(),
    );
    assert_eq!(r, NodePlacement::Place(placed(50, 40)));
}

#[test]
fn tooltip_in_place_is_not_written_again() {
    let target = TargetNode { center: Point::new(100, 50), size: Point::new(16, 16) };
    let r = position_update_node_system(
        TooltipPosition::Node(9),
        TooltipAlign::Top,
        Point::new(40, 20),
        Some(target),
        placed(80, 60),
    );
    assert_eq!(r, NodePlacement::Unchanged);
}

#[test]
fn tooltip_without_size_ends_the_pass() {
    let target = TargetNode { center: Point::new(100, 50), size: Point::new(16, 16) };
    let r = position_update_node_system(
        TooltipPosition::Node(9),
        TooltipAlign::Top,
        Point::new(0, 0),
        Some(target),
        UiRect::default(),
    );
    assert_eq!(r, NodePlacement::NotLaidOut);
}

#[test]
fn tooltip_with_missing_target_stays() {
    let r = position_update_node_system(
        TooltipPosition::Node(9),
        TooltipAlign::Top,
        Point::new(0, 0),
        None,
        UiRect::default(),
    );
    assert_eq!(r, NodePlacement::Unchanged);
}

#[test]
fn tooltip_not_attached_to_node_stays() {
    let target = TargetNode { center: Point::new(100, 50), size: Point::new(16, 16) };
    let r = position_update_node_system(
        TooltipPosition::FollowCursor,
        TooltipAlign::Top,
        Point::new(40, 20),
        Some(target),
        UiRect::default(),
    );
    assert_eq!(r, NodePlacement::Unchanged);
}

#[test]
fn frame_moves_with_drag() {
    let grabbed = Grabbed {
        cursor_position: Point::new(0, 0),
        cursor_offset: Point::new(15, 7),
        previous_cursor_offset: Point::new(10, 10),
    };
    let position = UiRect { left: Val::Px(100), right: Val::Px(0), top: Val::Px(50), bottom: Val::Px(0) };
    let moved = move_frame(position, &grabbed);
    assert_eq!(
        moved,
        UiRect { left: Val::Px(105), right: Val::Undefined, top: Val::Px(53), bottom: Val::Undefined }
    );
}

#[test]
fn frame_without_lengths_moves_from_zero() {
    let grabbed = Grabbed {
        cursor_position: Point::new(0, 0),
        cursor_offset: Point::new(4, 6),
        previous_cursor_offset: Point::new(0, 0),
    };
    let position = UiRect { left: Val::Auto, right: Val::Undefined, top: Val::Percent(10), bottom: Val::Undefined };
    let moved = move_frame(position, &grabbed);
    assert_eq!(moved.left, Val::Px(4));
    assert_eq!(moved.top, Val::Px(-6));
}

#[test]
fn still_grabber_keeps_frame() {
    let grabbed = Grabbed {
        cursor_position: Point::new(9, 9),
        cursor_offset: Point::new(4, 6),
        previous_cursor_offset: Point::new(4, 6),
    };
    let position = UiRect { left: Val::Px(30), right: Val::Undefined, top: Val::Px(40), bottom: Val::Undefined };
    assert_eq!(move_frame(position, &grabbed), position);
}

#[test]
fn text_extraction_needs_visible_sized_node() {
    assert!(extract_text_uinodes(true, Point::new(10, 10)));
    assert!(extract_text_uinodes(true, Point::new(0, 10)));
    assert!(!extract_text_uinodes(true, Point::new(0, 0)));
    assert!(!extract_text_uinodes(false, Point::new(10, 10)));
    assert!(!extract_text_uinodes(false, Point::new(0, 0)));
}
