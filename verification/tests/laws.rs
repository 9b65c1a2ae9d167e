use bevy_ui_widgets::components::grab::{grabbed_move, Grabbed};
use bevy_ui_widgets::components::toggle::{toggle, Toggle};
use bevy_ui_widgets::layout::{Bounds, Interaction, Point, Val};
use bevy_ui_widgets::theming::properties::ThemeProperty;
use bevy_ui_widgets::theming::theme_manager::make_storage_key;
use bevy_ui_widgets::utils::get_uinode_clipped_rect;
use bevy_ui_widgets::widgets::slider::{Slider, Track};
use bevy_ui_widgets::widgets::tooltip::{calculate_tooltip_rect, TooltipAlign};

const ALL_PROPERTIES: [ThemeProperty; 27] = [
    ThemeProperty::Display,
    ThemeProperty::PositionType,
    ThemeProperty::Direction,
    ThemeProperty::FlexDirection,
    ThemeProperty::FlexWrap,
    ThemeProperty::AlignItems,
    ThemeProperty::AlignSelf,
    ThemeProperty::AlignContent,
    ThemeProperty::JustifyContent,
    ThemeProperty::Position,
    ThemeProperty::Margin,
    ThemeProperty::Padding,
    ThemeProperty::Border,
    ThemeProperty::FlexGrow,
    ThemeProperty::FlexShrink,
    ThemeProperty::FlexBasis,
    ThemeProperty::Size,
    ThemeProperty::MinSize,
    ThemeProperty::MaxSize,
    ThemeProperty::AspectRatio,
    ThemeProperty::Overflow,
    ThemeProperty::TextColor,
    ThemeProperty::TextFontPath,
    ThemeProperty::TextFontSize,
    ThemeProperty::TextHorizontalAlign,
    ThemeProperty::TextVerticalAlign,
    ThemeProperty::Color,
];

#[test]
fn two_clicks_restore_a_toggle() {
    for start in [Toggle::Off, Toggle::On] {
        let mut t = start;
        toggle(Interaction::Clicked, &mut t);
        assert_ne!(t, start);
        toggle(Interaction::Clicked, &mut t);
        assert_eq!(t, start);
    }
}

#[test]
fn grab_start_plus_offset_is_cursor() {
    let mut g = Grabbed {
        cursor_position: Point::new(-20, 35),
        cursor_offset: Point::new(0, 0),
        previous_cursor_offset: Point::new(0, 0),
    };
    for cursor in [Point::new(0, 0), Point::new(-100, 7), Point::new(512, -3)] {
        grabbed_move(&mut g, Some(cursor));
        assert_eq!(g.cursor_position.x + g.cursor_offset.x, cursor.x);
        assert_eq!(g.cursor_position.y + g.cursor_offset.y, cursor.y);
    }
}

#[test]
fn clipped_rect_stays_within_clip_and_node() {
    let clip = Bounds { min: Point::new(-10, 5), max: Point::new(60, 45) };
    for (position, size) in [
        (Point::new(0, 0), Point::new(30, 30)),
        (Point::new(50, 40), Point::new(40, 20)),
        (Point::new(25, 25), Point::new(200, 200)),
        (Point::new(25, 25), Point::new(1, 1)),
    ] {
        let (min, max) = get_uinode_clipped_rect(position, size, Some(clip));
        let (node_min, node_max) = get_uinode_clipped_rect(position, size, None);
        assert!(min.x >= clip.min.x && min.y >= clip.min.y);
        assert!(max.x <= clip.max.x && max.y <= clip.max.y);
        assert!(min.x >= node_min.x && min.y >= node_min.y);
        assert!(max.x <= node_max.x && max.y <= node_max.y);
    }
}

#[test]
fn dragged_value_lies_in_range_on_a_step() {
    for (min, max, step) in [(0, 100, 1), (0, 100, 10), (0, 95, 10), (3, 13, 5), (-50, 50, 7), (0, 1, 1)] {
        for width in [1, 7, 50, 100, 333] {
            let track = Track { min_x: 20, max_x: 20 + width };
            let slider = Slider { value: min, min, max, step };
            for cursor in -5..(width + 30) {
                let v = slider.value_at(track, cursor as i64);
                assert!(min <= v && v <= max);
                assert_eq!((v - min) % step, 0);
            }
        }
    }
}

#[test]
fn dragged_value_reaches_both_ends() {
    for (min, max, step) in [(0, 100, 1), (0, 100, 10), (3, 13, 5), (-50, 50, 4)] {
        let track = Track { min_x: -30, max_x: 170 };
        let slider = Slider { value: 0, min, max, step };
        assert_eq!(slider.value_at(track, -30), min);
        assert_eq!(slider.value_at(track, -31), min);
        assert_eq!(slider.value_at(track, 170), max);
        assert_eq!(slider.value_at(track, 171), max);
    }
}

#[test]
fn thumb_stays_on_track_and_moves_forward() {
    let track = Track { min_x: 5, max_x: 130 };
    let mut last = 0;
    for value in -10..120 {
        let offset = Slider { value, min: 0, max: 100, step: 1 }.thumb_offset(track);
        assert!(0 <= offset && offset <= 125);
        assert!(offset >= last);
        last = offset;
    }
    assert_eq!(Slider { value: 0, min: 0, max: 100, step: 1 }.thumb_offset(track), 0);
    assert_eq!(Slider { value: 100, min: 0, max: 100, step: 1 }.thumb_offset(track), 125);
}

#[test]
fn dragging_to_the_thumb_keeps_the_value() {
    for (min, max, step) in [(0, 100, 10), (0, 100, 2), (3, 13, 5), (-50, 50, 4), (0, 90, 30)] {
        for width in [max - min, max - min + 1, 150, 1000] {
            let track = Track { min_x: 40, max_x: 40 + width };
            let mut value = min;
            while value <= max {
                let slider = Slider { value, min, max, step };
                let offset = slider.thumb_offset(track);
                assert_eq!(slider.value_at(track, (track.min_x + offset) as i64), value);
                value += step;
            }
        }
    }
}

#[test]
fn tooltip_keeps_clear_on_every_side() {
    for size in [Point::new(0, 0), Point::new(1, 1), Point::new(40, 21), Point::new(7, 300)] {
        for point in [Point::new(0, 0), Point::new(-50, 80), Point::new(640, 360)] {
            for offset in [0, 2, 5] {
                let top = calculate_tooltip_rect(TooltipAlign::Top, size, point, offset);
                let bottom = calculate_tooltip_rect(TooltipAlign::Bottom, size, point, offset);
                let left = calculate_tooltip_rect(TooltipAlign::Left, size, point, offset);
                let right = calculate_tooltip_rect(TooltipAlign::Right, size, point, offset);
                assert_eq!(top.bottom, Val::Px(point.y + offset));
                assert_eq!(bottom.bottom, Val::Px(point.y - offset - size.y));
                assert_eq!(left.left, Val::Px(point.x - offset - size.x));
                assert_eq!(right.left, Val::Px(point.x + offset));
                for rect in [top, bottom] {
                    let l = rect.left.get_px_or_zero();
                    assert!(l <= point.x && point.x <= l + size.x);
                    assert!((size.x - 2 * (point.x - l)) == 0 || (size.x - 2 * (point.x - l)) == 1);
                }
                for rect in [left, right] {
                    let b = rect.bottom.get_px_or_zero();
                    assert!(b <= point.y && point.y <= b + size.y);
                    assert!((size.y - 2 * (point.y - b)) == 0 || (size.y - 2 * (point.y - b)) == 1);
                }
            }
        }
    }
}

#[test]
fn property_names_are_distinct_and_hold_no_colon() {
    for (i, a) in ALL_PROPERTIES.iter().enumerate() {
        assert!(!a.property_name().contains(':'));
        for b in ALL_PROPERTIES.iter().skip(i + 1) {
            assert_ne!(a.property_name(), b.property_name());
        }
    }
}

#[test]
fn storage_keys_differ_for_different_properties_or_keys() {
    let keys = ["", "a", "a:", ":a", "button", "button:color", "color"];
    let mut seen: Vec<(String, &str, &str)> = Vec::new();
    for key in keys {
        for property in ALL_PROPERTIES {
            let stored = make_storage_key(key, property.property_name());
            for (other, other_key, other_name) in seen.iter() {
                assert!(*other != stored || (*other_key == key && *other_name == property.property_name()));
            }
            seen.push((stored, key, property.property_name()));
        }
    }
    assert_eq!(seen.len(), 7 * 27);
}
