use bevy_ui_widgets::theming::properties::ThemeProperty;
use bevy_ui_widgets::theming::theme_manager::{make_storage_key, ThemeManager};
use bevy_ui_widgets::theming::{update_color, update_style, update_text_nodes, themed_properties, ThemeKey, ThemedProperty};

#[test]
fn storage_key_joins_with_colon() {
    assert_eq!(make_storage_key("button", "color"), "button:color");
    assert_eq!(make_storage_key("", "size"), ":size");
    assert_eq!(make_storage_key("a:b", "margin"), "a:b:margin");
}

#[test]
fn theme_key_from_str() {
    let key = ThemeKey::from("panel");
    assert_eq!(key.0, "panel");
}

#[test]
fn property_names() {
    assert_eq!(ThemeProperty::Display.property_name(), "display");
    assert_eq!(ThemeProperty::PositionType.property_name(), "position-type");
    assert_eq!(ThemeProperty::Direction.property_name(), "direction");
    assert_eq!(ThemeProperty::FlexDirection.property_name(), "flex-direction");
    assert_eq!(ThemeProperty::FlexWrap.property_name(), "flex-wrap");
    assert_eq!(ThemeProperty::AlignItems.property_name(), "align-items");
    assert_eq!(ThemeProperty::AlignSelf.property_name(), "align-self");
    assert_eq!(ThemeProperty::AlignContent.property_name(), "align-content");
    assert_eq!(ThemeProperty::JustifyContent.property_name(), "justify-content");
    assert_eq!(ThemeProperty::Position.property_name(), "position");
    assert_eq!(ThemeProperty::Margin.property_name(), "margin");
    assert_eq!(ThemeProperty::Padding.property_name(), "padding");
    assert_eq!(ThemeProperty::Border.property_name(), "border");
    assert_eq!(ThemeProperty::FlexGrow.property_name(), "flex-grow");
    assert_eq!(ThemeProperty::FlexShrink.property_name(), "flex-shrink");
    assert_eq!(ThemeProperty::FlexBasis.property_name(), "flex-basis");
    assert_eq!(ThemeProperty::Size.property_name(), "size");
    assert_eq!(ThemeProperty::MinSize.property_name(), "min-size");
    assert_eq!(ThemeProperty::MaxSize.property_name(), "max-size");
    assert_eq!(ThemeProperty::AspectRatio.property_name(), "aspect-ratio");
    assert_eq!(ThemeProperty::Overflow.property_name(), "overflow");
    assert_eq!(ThemeProperty::TextColor.property_name(), "color");
    assert_eq!(ThemeProperty::TextFontPath.property_name(), "font-path");
    assert_eq!(ThemeProperty::TextFontSize.property_name(), "font-size");
    assert_eq!(ThemeProperty::TextHorizontalAlign.property_name(), "text-horizontal-align");
    assert_eq!(ThemeProperty::TextVerticalAlign.property_name(), "text-vertical-align");
    assert_eq!(ThemeProperty::Color.property_name(), "background-color");
}

#[test]
fn new_manager_holds_nothing() {
    let theme = ThemeManager::new();
    assert_eq!(theme.get_property("button", "color"), None);
    assert_eq!(theme.get_property("", ""), None);
}

#[test]
fn set_property_is_found_again() {
    let mut theme = ThemeManager::new();
    theme.set_property("button", "color", 7);
    assert_eq!(theme.get_property("button", "color"), Some(7));
    assert_eq!(theme.get_property("button", "size"), None);
    assert_eq!(theme.get_property("label", "color"), None);
}

#[test]
fn set_property_replaces_earlier_handle() {
    let mut theme = ThemeManager::new();
    theme.set_property("button", "color", 7);
    theme.set_property("button", "color", 9);
    assert_eq!(theme.get_property("button", "color"), Some(9));
}

#[test]
fn set_property_chains() {
    let mut theme = ThemeManager::new();
    theme.set_property("button", "color", 1).set_property("button", "size", 2).set_property("label", "color", 3);
    assert_eq!(theme.get_property("button", "color"), Some(1));
    assert_eq!(theme.get_property("button", "size"), Some(2));
    assert_eq!(theme.get_property("label", "color"), Some(3));
    assert_eq!(theme.get_property("label", "size"), None);
}

#[test]
fn properties_of_other_keys_are_kept() {
    let mut theme = ThemeManager::new();
    theme.set_property("button", "color", 1);
    theme.set_property("label", "color", 2);
    theme.set_property("button", "size", 3);
    assert_eq!(theme.get_property("button", "color"), Some(1));
    assert_eq!(theme.get_property("label", "color"), Some(2));
    assert_eq!(theme.get_property("button", "size"), Some(3));
}

#[test]
fn key_with_colon_does_not_collide() {
    let mut theme = ThemeManager::new();
    theme.set_property("a", "b:color", 1);
    assert_eq!(theme.get_property("a:b", "color"), Some(1));
    theme.set_property("panel", ThemeProperty::Margin.property_name(), 2);
    assert_eq!(theme.get_property("panel:margin", ""), None);
}

#[test]
fn update_color_reads_background_color() {
    let mut theme = ThemeManager::new();
    let key = ThemeKey::from("button");
    assert_eq!(update_color(&theme, &key), None);
    theme.set_property("button", "color", 4);
    assert_eq!(update_color(&theme, &key), None);
    theme.set_property("button", "background-color", 5);
    assert_eq!(update_color(&theme, &key), Some(5));
}

#[test]
fn update_style_lists_set_properties_in_order() {
    let mut theme = ThemeManager::new();
    theme.set_property("panel", "overflow", 1);
    theme.set_property("panel", "display", 2);
    theme.set_property("panel", "margin", 3);
    theme.set_property("panel", "color", 4);
    theme.set_property("other", "padding", 5);
    let set = update_style(&theme, &ThemeKey::from("panel"));
    assert_eq!(
        set,
        vec![
            ThemedProperty { property: ThemeProperty::Display, handle: 2 },
            ThemedProperty { property: ThemeProperty::Margin, handle: 3 },
            ThemedProperty { property: ThemeProperty::Overflow, handle: 1 },
        ]
    );
}

#[test]
fn update_style_covers_every_style_property() {
    let mut theme = ThemeManager::new();
    let names = [
        "display", "position-type", "direction", "flex-direction", "flex-wrap", "align-items", "align-self",
        "align-content", "justify-content", "position", "margin", "padding", "border", "flex-grow", "flex-shrink",
        "flex-basis", "size", "min-size", "max-size", "aspect-ratio", "overflow",
    ];
    let mut handle = 0u64;
    for name in names {
        theme.set_property("k", name, handle);
        handle += 1;
    }
    let set = update_style(&theme, &ThemeKey::from("k"));
    assert_eq!(set.len(), 21);
    for (i, themed) in set.iter().enumerate() {
        assert_eq!(themed.handle, i as u64);
        assert_eq!(themed.property.property_name(), names[i]);
    }
}

#[test]
fn update_text_nodes_lists_text_properties_in_order() {
    let mut theme = ThemeManager::new();
    theme.set_property("label", "font-path", 1);
    theme.set_property("label", "font-size", 2);
    theme.set_property("label", "color", 3);
    theme.set_property("label", "text-vertical-align", 4);
    theme.set_property("label", "text-horizontal-align", 5);
    theme.set_property("label", "display", 6);
    let set = update_text_nodes(&theme, &ThemeKey::from("label"));
    assert_eq!(
        set,
        vec![
            ThemedProperty { property: ThemeProperty::TextHorizontalAlign, handle: 5 },
            ThemedProperty { property: ThemeProperty::TextVerticalAlign, handle: 4 },
            ThemedProperty { property: ThemeProperty::TextColor, handle: 3 },
            ThemedProperty { property: ThemeProperty::TextFontSize, handle: 2 },
            ThemedProperty { property: ThemeProperty::TextFontPath, handle: 1 },
        ]
    );
}

#[test]
fn themed_properties_keeps_order_asked_for() {
    let mut theme = ThemeManager::new();
    theme.set_property("k", "size", 1);
    theme.set_property("k", "border", 2);
    let asked = vec![ThemeProperty::Size, ThemeProperty::Margin, ThemeProperty::Border, ThemeProperty::Size];
    let set = themed_properties(&theme, &ThemeKey::from("k"), &asked);
    assert_eq!(
        set,
        vec![
            ThemedProperty { property: ThemeProperty::Size, handle: 1 },
            ThemedProperty { property: ThemeProperty::Border, handle: 2 },
            ThemedProperty { property: ThemeProperty::Size, handle: 1 },
        ]
    );
    assert_eq!(themed_properties(&theme, &ThemeKey::from("k"), &Vec::new()), Vec::new());
}
