use bevy_ui_widgets::components::grab::{grab, grabbed_move, GrabChange, Grabbed};
use bevy_ui_widgets::components::interaction::InteractionStates;
use bevy_ui_widgets::components::toggle::{toggle, Toggle};
use bevy_ui_widgets::layout::{Interaction, Point};

#[test]
fn toggle_starts_off() {
    assert_eq!(Toggle::default(), Toggle::Off);
}

#[test]
fn click_flips_toggle() {
    let mut t = Toggle::Off;
    assert!(toggle(Interaction::Clicked, &mut t));
    assert_eq!(t, Toggle::On);
    assert!(toggle(Interaction::Clicked, &mut t));
    assert_eq!(t, Toggle::Off);
}

#[test]
fn hover_and_idle_leave_toggle_alone() {
    let mut t = Toggle::On;
    assert!(!toggle(Interaction::Hovered, &mut t));
    assert_eq!(t, Toggle::On);
    assert!(!toggle(Interaction::Idle, &mut t));
    assert_eq!(t, Toggle::On);
}

#[test]
fn interaction_selects_matching_value() {
    let states = InteractionStates { clicked: 1u32, hovered: 2u32, none: 3u32 };
    assert_eq!(*states.select(Interaction::Clicked), 1);
    assert_eq!(*states.select(Interaction::Hovered), 2);
    assert_eq!(*states.select(Interaction::Idle), 3);
}

#[test]
fn interaction_selects_by_reference() {
    let states = InteractionStates {
        clicked: String::from("pressed.png"),
        hovered: String::from("hover.png"),
        none: String::from("idle.png"),
    };
    assert_eq!(states.select(Interaction::Hovered), "hover.png");
}

#[test]
fn click_starts_grab_at_cursor() {
    let change = grab(Interaction::Clicked, false, Some(Point::new(30, 40)));
    assert_eq!(
        change,
        GrabChange::Insert(Grabbed {
            cursor_position: Point::new(30, 40),
            cursor_offset: Point::new(0, 0),
            previous_cursor_offset: Point::new(0, 0),
        })
    );
}

#[test]
fn click_without_cursor_does_not_grab() {
    assert_eq!(grab(Interaction::Clicked, false, None), GrabChange::Keep);
}

#[test]
fn click_while_grabbed_keeps_grab() {
    assert_eq!(grab(Interaction::Clicked, true, Some(Point::new(1, 2))), GrabChange::Keep);
}

#[test]
fn release_ends_grab() {
    assert_eq!(grab(Interaction::Hovered, true, Some(Point::new(1, 2))), GrabChange::Remove);
    assert_eq!(grab(Interaction::Idle, true, None), GrabChange::Remove);
}

#[test]
fn release_without_grab_keeps() {
    assert_eq!(grab(Interaction::Hovered, false, None), GrabChange::Keep);
    assert_eq!(grab(Interaction::Idle, false, Some(Point::new(0, 0))), GrabChange::Keep);
}

#[test]
fn grabbed_move_follows_cursor() {
    let mut g = Grabbed {
        cursor_position: Point::new(100, 50),
        cursor_offset: Point::new(0, 0),
        previous_cursor_offset: Point::new(0, 0),
    };
    assert!(grabbed_move(&mut g, Some(Point::new(110, 45))));
    assert_eq!(g.cursor_position, Point::new(100, 50));
    assert_eq!(g.cursor_offset, Point::new(10, -5));
    assert_eq!(g.previous_cursor_offset, Point::new(0, 0));
    assert!(grabbed_move(&mut g, Some(Point::new(120, 45))));
    assert_eq!(g.cursor_offset, Point::new(20, -5));
    assert_eq!(g.previous_cursor_offset, Point::new(10, -5));
}

#[test]
fn grabbed_move_settles_when_cursor_rests() {
    let mut g = Grabbed {
        cursor_position: Point::new(0, 0),
        cursor_offset: Point::new(3, 4),
        previous_cursor_offset: Point::new(1, 1),
    };
    assert!(grabbed_move(&mut g, Some(Point::new(3, 4))));
    assert_eq!(g.cursor_offset, Point::new(3, 4));
    assert_eq!(g.previous_cursor_offset, Point::new(3, 4));
    assert!(!grabbed_move(&mut g, Some(Point::new(3, 4))));
    assert_eq!(g.previous_cursor_offset, Point::new(3, 4));
}

#[test]
fn grabbed_move_without_cursor_changes_nothing() {
    let start = Grabbed {
        cursor_position: Point::new(7, 8),
        cursor_offset: Point::new(3, 4),
        previous_cursor_offset: Point::new(1, 1),
    };
    let mut g = start;
    assert!(!grabbed_move(&mut g, None));
    assert_eq!(g, start);
}
