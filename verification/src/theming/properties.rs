//! The properties that a theme can set, and the names they are stored under.

use vstd::prelude::*;
use crate::theming::theme_manager::colon_free;

verus! {

/// A property of a node that a theme can set.
#[derive(Clone, Copy, Debug, PartialEq, Eq, Structural)]
pub enum ThemeProperty {
    Display,
    PositionType,
    Direction,
    FlexDirection,
    FlexWrap,
    AlignItems,
    AlignSelf,
    AlignContent,
    JustifyContent,
    Position,
    Margin,
    Padding,
    Border,
    FlexGrow,
    FlexShrink,
    FlexBasis,
    Size,
    MinSize,
    MaxSize,
    AspectRatio,
    Overflow,
    TextColor,
    TextFontPath,
    TextFontSize,
    TextHorizontalAlign,
    TextVerticalAlign,
    Color,
}

impl ThemeProperty {
    /// The unique name for this property, used for storage.
    pub open spec fn name(self) -> Seq<char> {
        match self {
            ThemeProperty::Display => "display"@,
            ThemeProperty::PositionType => "position-type"@,
            ThemeProperty::Direction => "direction"@,
            ThemeProperty::FlexDirection => "flex-direction"@,
            ThemeProperty::FlexWrap => "flex-wrap"@,
            ThemeProperty::AlignItems => "align-items"@,
            ThemeProperty::AlignSelf => "align-self"@,
            ThemeProperty::AlignContent => "align-content"@,
            ThemeProperty::JustifyContent => "justify-content"@,
            ThemeProperty::Position => "position"@,
            ThemeProperty::Margin => "margin"@,
            ThemeProperty::Padding => "padding"@,
            ThemeProperty::Border => "border"@,
            ThemeProperty::FlexGrow => "flex-grow"@,
            ThemeProperty::FlexShrink => "flex-shrink"@,
            ThemeProperty::FlexBasis => "flex-basis"@,
            ThemeProperty::Size => "size"@,
            ThemeProperty::MinSize => "min-size"@,
            ThemeProperty::MaxSize => "max-size"@,
            ThemeProperty::AspectRatio => "aspect-ratio"@,
            ThemeProperty::Overflow => "overflow"@,
            ThemeProperty::TextColor => "color"@,
            ThemeProperty::TextFontPath => "font-path"@,
            ThemeProperty::TextFontSize => "font-size"@,
            ThemeProperty::TextHorizontalAlign => "text-horizontal-align"@,
            ThemeProperty::TextVerticalAlign => "text-vertical-align"@,
            ThemeProperty::Color => "background-color"@,
        }
    }

    /// The unique name for this property, used for storage.
    pub fn property_name(self) -> (name: &'static str)
        ensures
            name@ == self.name(),
    {
        match self {
            ThemeProperty::Display => "display",
            ThemeProperty::PositionType => "position-type",
            ThemeProperty::Direction => "direction",
            ThemeProperty::FlexDirection => "flex-direction",
            ThemeProperty::FlexWrap => "flex-wrap",
            ThemeProperty::AlignItems => "align-items",
            ThemeProperty::AlignSelf => "align-self",
            ThemeProperty::AlignContent => "align-content",
            ThemeProperty::JustifyContent => "justify-content",
            ThemeProperty::Position => "position",
            ThemeProperty::Margin => "margin",
            ThemeProperty::Padding => "padding",
            ThemeProperty::Border => "border",
            ThemeProperty::FlexGrow => "flex-grow",
            ThemeProperty::FlexShrink => "flex-shrink",
            ThemeProperty::FlexBasis => "flex-basis",
            ThemeProperty::Size => "size",
            ThemeProperty::MinSize => "min-size",
            ThemeProperty::MaxSize => "max-size",
            ThemeProperty::AspectRatio => "aspect-ratio",
            ThemeProperty::Overflow => "overflow",
            ThemeProperty::TextColor => "color",
            ThemeProperty::TextFontPath => "font-path",
            ThemeProperty::TextFontSize => "font-size",
            ThemeProperty::TextHorizontalAlign => "text-horizontal-align",
            ThemeProperty::TextVerticalAlign => "text-vertical-align",
            ThemeProperty::Color => "background-color",
        }
    }
}

/// No property name holds a colon, so a storage key splits in one way only.
pub proof fn lemma_property_names_colon_free(property: ThemeProperty)
    ensures
        colon_free(property.name()),
{
    reveal_strlit("display");
    reveal_strlit("position-type");
    reveal_strlit("direction");
    reveal_strlit("flex-direction");
    reveal_strlit("flex-wrap");
    reveal_strlit("align-items");
    reveal_strlit("align-self");
    reveal_strlit("align-content");
    reveal_strlit("justify-content");
    reveal_strlit("position");
    reveal_strlit("margin");
    reveal_strlit("padding");
    reveal_strlit("border");
    reveal_strlit("flex-grow");
    reveal_strlit("flex-shrink");
    reveal_strlit("flex-basis");
    reveal_strlit("size");
    reveal_strlit("min-size");
    reveal_strlit("max-size");
    reveal_strlit("aspect-ratio");
    reveal_strlit("overflow");
    reveal_strlit("color");
    reveal_strlit("font-path");
    reveal_strlit("font-size");
    reveal_strlit("text-horizontal-align");
    reveal_strlit("text-vertical-align");
    reveal_strlit("background-color");
}

/// Two properties never share a name.
pub proof fn lemma_property_names_distinct(a: ThemeProperty, b: ThemeProperty)
    requires
        a != b,
    ensures
        a.name() != b.name(),
{
    reveal_strlit("display");
    reveal_strlit("position-type");
    reveal_strlit("direction");
    reveal_strlit("flex-direction");
    reveal_strlit("flex-wrap");
    reveal_strlit("align-items");
    reveal_strlit("align-self");
    reveal_strlit("align-content");
    reveal_strlit("justify-content");
    reveal_strlit("position");
    reveal_strlit("margin");
    reveal_strlit("padding");
    reveal_strlit("border");
    reveal_strlit("flex-grow");
    reveal_strlit("flex-shrink");
    reveal_strlit("flex-basis");
    reveal_strlit("size");
    reveal_strlit("min-size");
    reveal_strlit("max-size");
    reveal_strlit("aspect-ratio");
    reveal_strlit("overflow");
    reveal_strlit("color");
    reveal_strlit("font-path");
    reveal_strlit("font-size");
    reveal_strlit("text-horizontal-align");
    reveal_strlit("text-vertical-align");
    reveal_strlit("background-color");
    // Names of one length differ in one of these letters.
    assert(a.name().len() == b.name().len() ==> a.name()[0] != b.name()[0] || a.name()[1] != b.name()[1] || a.name()[2]
        != b.name()[2] || a.name()[5] != b.name()[5]);
}

} // verus!
