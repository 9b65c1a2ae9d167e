//! The part of a node's style and colour that the widgets set themselves.

use vstd::prelude::*;
use crate::layout::{Display, UiRect, Val};
use crate::widgets::slider::Slider;
use crate::widgets::tooltip::{TooltipAlign, TooltipPosition};

verus! {

/// Whether a node is placed by the layout or by its own position.
#[derive(Clone, Copy, Debug, PartialEq, Eq, Structural)]
pub enum PositionType {
    Relative,
    Absolute,
}

/// The axis along which a node lays out its children.
#[derive(Clone, Copy, Debug, PartialEq, Eq, Structural)]
pub enum FlexDirection {
    Row,
    Column,
}

/// How children are spread along the main axis.
#[derive(Clone, Copy, Debug, PartialEq, Eq, Structural)]
pub enum JustifyContent {
    FlexStart,
    FlexEnd,
    Center,
    SpaceBetween,
    SpaceAround,
}

/// How children are aligned across the main axis.
#[derive(Clone, Copy, Debug, PartialEq, Eq, Structural)]
pub enum AlignItems {
    FlexStart,
    FlexEnd,
    Center,
    Stretch,
}

/// A width and a height.
#[derive(Clone, Copy, Debug, PartialEq, Eq, Structural)]
pub struct Size {
    pub width: Val,
    pub height: Val,
}

/// The colour of a node. Channels are in hundredths of full intensity.
#[derive(Clone, Copy, Debug, PartialEq, Eq, Structural)]
pub enum Color {
    /// The colour that the host gives a node by default.
    Unset,
    /// Fully transparent.
    Transparent,
    /// An opaque colour.
    Rgb(u8, u8, u8),
}

/// The style fields that the widgets set.
#[derive(Clone, Copy, Debug, PartialEq, Eq, Structural)]
pub struct Style {
    pub display: Display,
    pub position_type: PositionType,
    pub flex_direction: FlexDirection,
    pub justify_content: JustifyContent,
    pub align_items: AlignItems,
    pub position: UiRect,
    pub margin: UiRect,
    pub border: UiRect,
    pub size: Size,
    pub min_size: Size,
    /// Whether the node keeps its width equal to its height.
    pub square: bool,
}

impl Style {
    /// The style of a node that no widget has touched.
    pub open spec fn plain() -> Style {
        Style {
            display: Display::Flex,
            position_type: PositionType::Relative,
            flex_direction: FlexDirection::Row,
            justify_content: JustifyContent::FlexStart,
            align_items: AlignItems::Stretch,
            position: UiRect::unset(),
            margin: UiRect::unset(),
            border: UiRect::unset(),
            size: Size { width: Val::Auto, height: Val::Auto },
            min_size: Size { width: Val::Auto, height: Val::Auto },
            square: false,
        }
    }
}

impl Default for Style {
    fn default() -> (style: Style)
        ensures
            style == Style::plain(),
    {
        Style {
            display: Display::Flex,
            position_type: PositionType::Relative,
            flex_direction: FlexDirection::Row,
            justify_content: JustifyContent::FlexStart,
            align_items: AlignItems::Stretch,
            position: UiRect::default(),
            margin: UiRect::default(),
            border: UiRect::default(),
            size: Size { width: Val::Auto, height: Val::Auto },
            min_size: Size { width: Val::Auto, height: Val::Auto },
            square: false,
        }
    }
}

/// The style and colour that a widget gives one of its plain nodes.
#[derive(Clone, Copy, Debug, PartialEq, Eq, Structural)]
pub struct NodeLook {
    pub style: Style,
    pub color: Color,
}

/// What the root of a slider holds of the slider's own.
#[derive(Clone, Copy, Debug, PartialEq, Eq, Structural)]
pub struct SliderBundle {
    /// Describes the value properties of the slider.
    pub slider: Slider,
    /// Describes the style including flexbox settings.
    pub style: Style,
    /// Describes the color of the node.
    pub color: Color,
}

impl SliderBundle {
    /// The style of a slider's root: a column whose children are stretched
    /// across it and spread along it.
    pub open spec fn root_style() -> Style {
        Style {
            display: Display::Flex,
            flex_direction: FlexDirection::Column,
            justify_content: JustifyContent::SpaceAround,
            align_items: AlignItems::Stretch,
            ..Style::plain()
        }
    }

    /// The style that a slider's root starts with.
    pub fn default_style() -> (style: Style)
        ensures
            style == SliderBundle::root_style(),
    {
        let mut style = Style::default();
        style.display = Display::Flex;
        style.flex_direction = FlexDirection::Column;
        style.justify_content = JustifyContent::SpaceAround;
        style.align_items = AlignItems::Stretch;
        style
    }
}

impl Default for SliderBundle {
    fn default() -> (bundle: SliderBundle)
        ensures
            bundle == (SliderBundle {
                slider: Slider { value: 0, min: 0, max: 100, step: 1 },
                style: SliderBundle::root_style(),
                color: Color::Transparent,
            }),
    {
        SliderBundle { slider: Slider::default(), style: SliderBundle::default_style(), color: Color::Transparent }
    }
}

/// The look of a slider's track: ten units high, as wide as the layout makes it.
pub open spec fn slider_track_look() -> NodeLook {
    NodeLook {
        style: Style { size: Size { width: Val::Auto, height: Val::Px(10) }, ..Style::plain() },
        color: Color::Rgb(25, 25, 25),
    }
}

/// The look of a slider's thumb: a square of sixteen units, placed by its own position.
pub open spec fn slider_thumb_look() -> NodeLook {
    NodeLook {
        style: Style {
            position_type: PositionType::Absolute,
            size: Size { width: Val::Px(16), height: Val::Px(16) },
            ..Style::plain()
        },
        color: Color::Rgb(25, 25, 25),
    }
}

/// The look that a slider's track starts with.
pub fn default_slider_track() -> (look: NodeLook)
    ensures
        look == slider_track_look(),
{
    let mut style = Style::default();
    style.size = Size { width: Val::Auto, height: Val::Px(10) };
    NodeLook { style, color: Color::Rgb(25, 25, 25) }
}

/// The look that a slider's thumb starts with.
pub fn default_slider_thumb() -> (look: NodeLook)
    ensures
        look == slider_thumb_look(),
{
    let mut style = Style::default();
    style.position_type = PositionType::Absolute;
    style.size = Size { width: Val::Px(16), height: Val::Px(16) };
    NodeLook { style, color: Color::Rgb(25, 25, 25) }
}

/// What the root of a tooltip holds of the tooltip's own.
#[derive(Clone, Copy, Debug, PartialEq, Eq, Structural)]
pub struct TooltipBundle {
    pub position: TooltipPosition,
    pub align: TooltipAlign,
    /// Describes the style including flexbox settings.
    pub style: Style,
    /// Describes the color of the node.
    pub color: Color,
}

impl TooltipBundle {
    /// The style of a tooltip's root: placed by its own position, with a
    /// border of two units and its content centred.
    pub open spec fn root_style() -> Style {
        Style {
            position_type: PositionType::Absolute,
            border: UiRect { left: Val::Px(2), right: Val::Px(2), top: Val::Px(2), bottom: Val::Px(2) },
            align_items: AlignItems::Center,
            ..Style::plain()
        }
    }

    /// The style that a tooltip's root starts with.
    pub fn default_style() -> (style: Style)
        ensures
            style == TooltipBundle::root_style(),
    {
        let mut style = Style::default();
        style.position_type = PositionType::Absolute;
        style.border = UiRect::all(Val::Px(2));
        style.align_items = AlignItems::Center;
        style
    }
}

impl Default for TooltipBundle {
    fn default() -> (bundle: TooltipBundle)
        ensures
            bundle == (TooltipBundle {
                position: TooltipPosition::FollowCursor,
                align: TooltipAlign::Right,
                style: TooltipBundle::root_style(),
                color: Color::Unset,
            }),
    {
        TooltipBundle {
            position: TooltipPosition::FollowCursor,
            align: TooltipAlign::Right,
            style: TooltipBundle::default_style(),
            color: Color::Unset,
        }
    }
}

/// The look of a frame's root: placed at the window's corner by its own
/// position, with a border of two units, its children in a column from the end.
pub open spec fn frame_root_look() -> NodeLook {
    NodeLook {
        style: Style {
            position_type: PositionType::Absolute,
            position: UiRect { left: Val::Px(0), right: Val::Px(0), top: Val::Px(0), bottom: Val::Px(0) },
            border: UiRect { left: Val::Px(2), right: Val::Px(2), top: Val::Px(2), bottom: Val::Px(2) },
            align_items: AlignItems::Stretch,
            flex_direction: FlexDirection::Column,
            justify_content: JustifyContent::FlexEnd,
            ..Style::plain()
        },
        color: Color::Unset,
    }
}

/// The look of a frame's title bar: at least 25 units high, transparent, the
/// title at one end and the close button at the other.
pub open spec fn frame_title_bar_look() -> NodeLook {
    NodeLook {
        style: Style {
            justify_content: JustifyContent::SpaceBetween,
            align_items: AlignItems::Center,
            min_size: Size { width: Val::Undefined, height: Val::Px(25) },
            ..Style::plain()
        },
        color: Color::Transparent,
    }
}

/// The look of a frame's title: a margin of five units.
pub open spec fn frame_title_text_look() -> NodeLook {
    NodeLook {
        style: Style {
            margin: UiRect { left: Val::Px(5), right: Val::Px(5), top: Val::Px(5), bottom: Val::Px(5) },
            ..Style::plain()
        },
        color: Color::Unset,
    }
}

/// The look of a frame's close button: square.
pub open spec fn frame_close_button_look() -> NodeLook {
    NodeLook { style: Style { square: true, ..Style::plain() }, color: Color::Unset }
}

/// The look that a frame's root starts with.
pub fn default_frame_root() -> (look: NodeLook)
    ensures
        look == frame_root_look(),
{
    let mut style = Style::default();
    style.position_type = PositionType::Absolute;
    style.position = UiRect::all(Val::Px(0));
    style.border = UiRect::all(Val::Px(2));
    style.align_items = AlignItems::Stretch;
    style.flex_direction = FlexDirection::Column;
    style.justify_content = JustifyContent::FlexEnd;
    NodeLook { style, color: Color::Unset }
}

/// The look that a frame's title bar starts with.
pub fn default_frame_title_bar() -> (look: NodeLook)
    ensures
        look == frame_title_bar_look(),
{
    let mut style = Style::default();
    style.justify_content = JustifyContent::SpaceBetween;
    style.align_items = AlignItems::Center;
    style.min_size = Size { width: Val::Undefined, height: Val::Px(25) };
    NodeLook { style, color: Color::Transparent }
}

/// The look that a frame's title starts with.
pub fn default_frame_title_text() -> (look: NodeLook)
    ensures
        look == frame_title_text_look(),
{
    let mut style = Style::default();
    style.margin = UiRect::all(Val::Px(5));
    NodeLook { style, color: Color::Unset }
}

/// The look that a frame's close button starts with.
pub fn default_frame_close_button() -> (look: NodeLook)
    ensures
        look == frame_close_button_look(),
{
    let mut style = Style::default();
    style.square = true;
    NodeLook { style, color: Color::Unset }
}

} // verus!
