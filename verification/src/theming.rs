//! Theming: properties set per theme key and copied onto the nodes that carry the key.

use vstd::prelude::*;
use vstd::string::StringExecFns;
use crate::theming::properties::ThemeProperty;
use crate::theming::theme_manager::ThemeManager;

pub mod properties;
pub mod theme_manager;

verus! {

/// The theme key of a node: the name under which its properties are set.
pub struct ThemeKey(pub String);

impl View for ThemeKey {
    type V = Seq<char>;

    open spec fn view(&self) -> Seq<char> {
        self.0@
    }
}

impl ThemeKey {
    /// The key named `s`.
    pub fn from(s: &str) -> (key: ThemeKey)
        ensures
            key@ == s@,
    {
        ThemeKey(String::from_str(s))
    }
}

/// A property that the theme sets for a node, with the handle of its value.
#[derive(Clone, Copy, Debug, PartialEq, Eq, Structural)]
pub struct ThemedProperty {
    pub property: ThemeProperty,
    pub handle: u64,
}

/// Those of `properties` that `theme` sets for `key`, in the order of `properties`.
pub open spec fn themed(theme: ThemeManager, key: Seq<char>, properties: Seq<ThemeProperty>) -> Seq<ThemedProperty>
    decreases properties.len(),
{
    if properties.len() == 0 {
        Seq::empty()
    } else {
        let rest = themed(theme, key, properties.drop_last());
        let property = properties.last();
        match theme.property(key, property.name()) {
            Some(handle) => rest.push(ThemedProperty { property, handle }),
            None => rest,
        }
    }
}

/// The properties that go to a node's style, in the order in which they are applied.
pub open spec fn style_properties() -> Seq<ThemeProperty> {
    seq![
        ThemeProperty::Display,
        ThemeProperty::PositionType,
        ThemeProperty::Direction,
        ThemeProperty::FlexDirection,
        ThemeProperty::FlexWrap,
        ThemeProperty::AlignItems,
        ThemeProperty::AlignSelf,
        ThemeProperty::AlignContent,
        ThemeProperty::JustifyContent,
        ThemeProperty::Position,
        ThemeProperty::Margin,
        ThemeProperty::Padding,
        ThemeProperty::Border,
        ThemeProperty::FlexGrow,
        ThemeProperty::FlexShrink,
        ThemeProperty::FlexBasis,
        ThemeProperty::Size,
        ThemeProperty::MinSize,
        ThemeProperty::MaxSize,
        ThemeProperty::AspectRatio,
        ThemeProperty::Overflow,
    ]
}

/// The properties that go to a node's text, in the order in which they are applied.
pub open spec fn text_properties() -> Seq<ThemeProperty> {
    seq![
        ThemeProperty::TextHorizontalAlign,
        ThemeProperty::TextVerticalAlign,
        ThemeProperty::TextColor,
        ThemeProperty::TextFontSize,
        ThemeProperty::TextFontPath,
    ]
}

/// Collects those of `properties` that `theme` sets for `key`.
pub fn themed_properties(theme: &ThemeManager, key: &ThemeKey, properties: &Vec<ThemeProperty>) -> (set: Vec<
    ThemedProperty,
>)
    ensures
        set@ == themed(*theme, key@, properties@),
{
    let mut set: Vec<ThemedProperty> = Vec::new();
    let mut i: usize = 0;
    while i < properties.len()
        invariant
            i <= properties@.len(),
            set@ == themed(*theme, key@, properties@.take(i as int)),
        decreases properties@.len() - i,
    {
        let property = properties[i];
        assert(properties@.take(i + 1).drop_last() == properties@.take(i as int));
        assert(properties@.take(i + 1).last() == property);
        if let Some(handle) = theme.get_property(key.0.as_str(), property.property_name()) {
            set.push(ThemedProperty { property, handle });
        }
        i = i + 1;
    }
    assert(properties@.take(i as int) == properties@);
    set
}

/// The background colour that the theme sets for a node with `key`, if it sets one.
pub fn update_color(theme: &ThemeManager, key: &ThemeKey) -> (handle: Option<u64>)
    ensures
        handle == theme.property(key@, ThemeProperty::Color.name()),
{
    theme.get_property(key.0.as_str(), ThemeProperty::Color.property_name())
}

/// The style properties that the theme sets for a node with `key`, in the
/// order in which they are applied.
pub fn update_style(theme: &ThemeManager, key: &ThemeKey) -> (set: Vec<ThemedProperty>)
    ensures
        set@ == themed(*theme, key@, style_properties()),
{
    let properties = vec![
        ThemeProperty::Display,
        ThemeProperty::PositionType,
        ThemeProperty::Direction,
        ThemeProperty::FlexDirection,
        ThemeProperty::FlexWrap,
        ThemeProperty::AlignItems,
        ThemeProperty::AlignSelf,
        ThemeProperty::AlignContent,
        ThemeProperty::JustifyContent,
        ThemeProperty::Position,
        ThemeProperty::Margin,
        ThemeProperty::Padding,
        ThemeProperty::Border,
        ThemeProperty::FlexGrow,
        ThemeProperty::FlexShrink,
        ThemeProperty::FlexBasis,
        ThemeProperty::Size,
        ThemeProperty::MinSize,
        ThemeProperty::MaxSize,
        ThemeProperty::AspectRatio,
        ThemeProperty::Overflow,
    ];
    assert(properties@ =~= style_properties());
    themed_properties(theme, key, &properties)
}

/// The text properties that the theme sets for a node with `key`, in the
/// order in which they are applied.
pub fn update_text_nodes(theme: &ThemeManager, key: &ThemeKey) -> (set: Vec<ThemedProperty>)
    ensures
        set@ == themed(*theme, key@, text_properties()),
{
    let properties = vec![
        ThemeProperty::TextHorizontalAlign,
        ThemeProperty::TextVerticalAlign,
        ThemeProperty::TextColor,
        ThemeProperty::TextFontSize,
        ThemeProperty::TextFontPath,
    ];
    assert(properties@ =~= text_properties());
    themed_properties(theme, key, &properties)
}

/// What `themed` hands out is set in the theme, and nothing that is set among
/// the properties asked for is left out.
pub proof fn lemma_themed_sound_and_complete(theme: ThemeManager, key: Seq<char>, properties: Seq<ThemeProperty>)
    ensures
        forall|i: int|
            0 <= i < themed(theme, key, properties).len() ==> theme.property(
                key,
                (#[trigger] themed(theme, key, properties)[i]).property.name(),
            ) == Some(themed(theme, key, properties)[i].handle),
        forall|j: int|
            0 <= j < properties.len() && theme.property(key, (#[trigger] properties[j]).name()).is_some()
                ==> exists|i: int|
                0 <= i < themed(theme, key, properties).len() && (#[trigger] themed(theme, key, properties)[i])
                    == (ThemedProperty {
                    property: properties[j],
                    handle: theme.property(key, properties[j].name()).unwrap(),
                }),
        themed(theme, key, properties).len() <= properties.len(),
    decreases properties.len(),
{
    if properties.len() > 0 {
        let front = properties.drop_last();
        let rest = themed(theme, key, front);
        let all = themed(theme, key, properties);
        lemma_themed_sound_and_complete(theme, key, front);
        assert forall|j: int|
            0 <= j < properties.len() && theme.property(key, (#[trigger] properties[j]).name()).is_some() implies exists|
            i: int,
        |
            0 <= i < all.len() && (#[trigger] all[i]) == (ThemedProperty {
                property: properties[j],
                handle: theme.property(key, properties[j].name()).unwrap(),
            }) by {
            if j < front.len() {
                assert(front[j] == properties[j]);
                let i = choose|i: int|
                    0 <= i < rest.len() && (#[trigger] rest[i]) == (ThemedProperty {
                        property: front[j],
                        handle: theme.property(key, front[j].name()).unwrap(),
                    });
                assert(all[i] == rest[i]);
            } else {
                assert(all[all.len() - 1].property == properties[j]);
            }
        }
        assert forall|i: int| 0 <= i < all.len() implies theme.property(key, (#[trigger] all[i]).property.name())
            == Some(all[i].handle) by {
            if i < rest.len() {
                assert(all[i] == rest[i]);
            }
        }
    }
}

} // verus!
