use xml2gpui::color::{hex_to_rgba, Rgba};
use xml2gpui::length::{extract_length_from_class_name, AbsoluteLength};
use xml2gpui::style::{
    tailwind_to_gpui, set_attributes, BorderStep, BoxSide, ContentAlign, CornerSet, CursorKind,
    ElementStyle,
    FontWeightName, ItemsAlign, JustifyKind, LayoutFlag, RadiusSize, ScaleStep, ShadowSize, Side,
    SizeTarget, StyleMutation, TextSizeStep,
};

#[test]
fn hex_opaque_black() {
    assert_eq!(hex_to_rgba("#000000"), Some(Rgba { r: 0, g: 0, b: 0, a: 255 }));
}

#[test]
fn hex_red() {
    assert_eq!(hex_to_rgba("#FF0000"), Some(Rgba { r: 255, g: 0, b: 0, a: 255 }));
}

#[test]
fn hex_green_with_alpha() {
    assert_eq!(hex_to_rgba("#00FF0080"), Some(Rgba { r: 0, g: 255, b: 0, a: 128 }));
}

#[test]
fn hex_without_hash() {
    assert_eq!(hex_to_rgba("102030"), Some(Rgba { r: 16, g: 32, b: 48, a: 255 }));
}

#[test]
fn hex_malformed() {
    assert_eq!(hex_to_rgba("#12"), None);
    assert_eq!(hex_to_rgba("#GGGGGG"), None);
    assert_eq!(hex_to_rgba("#12345G"), None);
    assert_eq!(hex_to_rgba("#123456GG"), None);
    assert_eq!(hex_to_rgba(""), None);
}

#[test]
fn hex_extra_digits_ignored_unless_eight() {
    // Seven digits: color from the first six, seventh ignored.
    assert_eq!(hex_to_rgba("#1234567"), Some(Rgba { r: 18, g: 52, b: 86, a: 255 }));
    // Nine digits: not an alpha form either.
    assert_eq!(hex_to_rgba("#123456789"), Some(Rgba { r: 18, g: 52, b: 86, a: 255 }));
}

#[test]
fn length_pixels() {
    assert_eq!(extract_length_from_class_name("4px"), AbsoluteLength::Pixels(4000));
}

#[test]
fn length_rems() {
    assert_eq!(extract_length_from_class_name("2.5rem"), AbsoluteLength::Rems(2500));
}

#[test]
fn length_no_unit_is_zero() {
    assert_eq!(extract_length_from_class_name("4"), AbsoluteLength::Pixels(0));
}

#[test]
fn length_no_digits_is_zero() {
    assert_eq!(extract_length_from_class_name("xlpx"), AbsoluteLength::Pixels(0));
}

#[test]
fn length_fraction_digits() {
    assert_eq!(extract_length_from_class_name("0.5px"), AbsoluteLength::Pixels(500));
    assert_eq!(extract_length_from_class_name("10rem"), AbsoluteLength::Rems(10000));
}

#[test]
fn length_huge_integer_part_clamps() {
    assert_eq!(
        extract_length_from_class_name("99999999999999999999px"),
        AbsoluteLength::Pixels(1_000_000_000_000_000_000),
    );
}

#[test]
fn exact_flex_col() {
    assert_eq!(
        tailwind_to_gpui("flex-col"),
        Some(StyleMutation::Layout(LayoutFlag::FlexCol)),
    );
}

#[test]
fn exact_unknown_token() {
    assert_eq!(tailwind_to_gpui("totally-bogus"), None);
}

#[test]
fn exact_spacing_and_sizing() {
    assert_eq!(
        tailwind_to_gpui("p-4"),
        Some(StyleMutation::Padding(BoxSide::All, ScaleStep::S4)),
    );
    assert_eq!(
        tailwind_to_gpui("px-2"),
        Some(StyleMutation::Padding(BoxSide::X, ScaleStep::S2)),
    );
    assert_eq!(
        tailwind_to_gpui("m-auto"),
        Some(StyleMutation::Margin(BoxSide::All, ScaleStep::Auto)),
    );
    assert_eq!(
        tailwind_to_gpui("w-1/2"),
        Some(StyleMutation::Sizing(SizeTarget::Width, ScaleStep::F1_2)),
    );
    assert_eq!(
        tailwind_to_gpui("h-96"),
        Some(StyleMutation::Sizing(SizeTarget::Height, ScaleStep::S96)),
    );
    assert_eq!(
        tailwind_to_gpui("size-0.5"),
        Some(StyleMutation::Sizing(SizeTarget::Both, ScaleStep::D05)),
    );
    assert_eq!(
        tailwind_to_gpui("min-w-full"),
        Some(StyleMutation::Sizing(SizeTarget::MinWidth, ScaleStep::Full)),
    );
    assert_eq!(
        tailwind_to_gpui("top-1/3"),
        Some(StyleMutation::Inset(Side::Top, ScaleStep::F1_3)),
    );
}

#[test]
fn exact_spacing_rejects_foreign_steps() {
    // `auto` is a margin step but not a padding step; `0.5` only sizes.
    assert_eq!(tailwind_to_gpui("p-auto"), None);
    assert_eq!(tailwind_to_gpui("p-7"), None);
    assert_eq!(tailwind_to_gpui("w-0.5"), None);
}

#[test]
fn exact_small_vocabularies() {
    assert_eq!(
        tailwind_to_gpui("cursor-pointer"),
        Some(StyleMutation::Cursor(CursorKind::Pointer)),
    );
    assert_eq!(
        tailwind_to_gpui("justify-between"),
        Some(StyleMutation::JustifyContent(JustifyKind::Between)),
    );
    assert_eq!(
        tailwind_to_gpui("items-center"),
        Some(StyleMutation::AlignItems(ItemsAlign::Center)),
    );
    assert_eq!(
        tailwind_to_gpui("font-bold"),
        Some(StyleMutation::FontWeight(FontWeightName::Bold)),
    );
    assert_eq!(
        tailwind_to_gpui("text-2xl"),
        Some(StyleMutation::TextSize(TextSizeStep::Xl2)),
    );
    assert_eq!(
        tailwind_to_gpui("shadow-md"),
        Some(StyleMutation::Shadow(ShadowSize::Md)),
    );
}

#[test]
fn exact_borders_and_radii() {
    assert_eq!(
        tailwind_to_gpui("border"),
        Some(StyleMutation::BorderWidthStep(BoxSide::All, BorderStep::Bare)),
    );
    assert_eq!(
        tailwind_to_gpui("border-t-2"),
        Some(StyleMutation::BorderWidthStep(BoxSide::Top, BorderStep::W2)),
    );
    assert_eq!(
        tailwind_to_gpui("border-4"),
        Some(StyleMutation::BorderWidthStep(BoxSide::All, BorderStep::W4)),
    );
    assert_eq!(
        tailwind_to_gpui("rounded-md"),
        Some(StyleMutation::CornerRadiusStep(CornerSet::All, RadiusSize::Md)),
    );
    assert_eq!(
        tailwind_to_gpui("rounded-tl-2xl"),
        Some(StyleMutation::CornerRadiusStep(CornerSet::TopLeft, RadiusSize::Xl2)),
    );
}

#[test]
fn dynamic_colors() {
    assert_eq!(
        tailwind_to_gpui("bg-[#102030]"),
        Some(StyleMutation::BackgroundColor(Rgba { r: 16, g: 32, b: 48, a: 255 })),
    );
    assert_eq!(
        tailwind_to_gpui("text-color-[#00FF0080]"),
        Some(StyleMutation::TextColor(Rgba { r: 0, g: 255, b: 0, a: 128 })),
    );
    assert_eq!(
        tailwind_to_gpui("border-[#ffffff]"),
        Some(StyleMutation::BorderColor(Rgba { r: 255, g: 255, b: 255, a: 255 })),
    );
    // A malformed embedded color degrades to "unrecognized".
    assert_eq!(tailwind_to_gpui("bg-[#12]"), None);
}

#[test]
fn dynamic_rounded_lengths() {
    assert_eq!(
        tailwind_to_gpui("rounded-4px"),
        Some(StyleMutation::CornerRadius(CornerSet::All, AbsoluteLength::Pixels(4000))),
    );
    // A recognized side code selects the corner; the length comes from
    // the text after it.
    assert_eq!(
        tailwind_to_gpui("rounded-t-4px"),
        Some(StyleMutation::CornerRadius(CornerSet::Top, AbsoluteLength::Pixels(4000))),
    );
    assert_eq!(
        tailwind_to_gpui("rounded-bl-2.5rem"),
        Some(StyleMutation::CornerRadius(CornerSet::BottomLeft, AbsoluteLength::Rems(2500))),
    );
    // A bare side code leaves no length text at all.
    assert_eq!(
        tailwind_to_gpui("rounded-t"),
        Some(StyleMutation::CornerRadius(CornerSet::Top, AbsoluteLength::Pixels(0))),
    );
}

#[test]
fn dynamic_border_lengths() {
    assert_eq!(
        tailwind_to_gpui("border-t-4px"),
        Some(StyleMutation::BorderWidth(Side::Top, AbsoluteLength::Pixels(4000))),
    );
    // No recognized edge code: the value is applied as a uniform corner
    // radius, mirroring the rounded- fallback.
    assert_eq!(
        tailwind_to_gpui("border-4px"),
        Some(StyleMutation::CornerRadius(CornerSet::All, AbsoluteLength::Pixels(4000))),
    );
}

#[test]
fn more_table_entries() {
    assert_eq!(
        tailwind_to_gpui("content-stretch"),
        Some(StyleMutation::AlignContent(ContentAlign::Stretch)),
    );
    assert_eq!(
        tailwind_to_gpui("overflow-x-hidden"),
        Some(StyleMutation::Layout(LayoutFlag::OverflowXHidden)),
    );
    assert_eq!(
        tailwind_to_gpui("flex-col_reverse"),
        Some(StyleMutation::Layout(LayoutFlag::FlexColReverse)),
    );
    assert_eq!(
        tailwind_to_gpui("border-l"),
        Some(StyleMutation::BorderWidthStep(BoxSide::Left, BorderStep::Bare)),
    );
    assert_eq!(
        tailwind_to_gpui("bottom-auto"),
        Some(StyleMutation::Inset(Side::Bottom, ScaleStep::Auto)),
    );
    assert_eq!(
        tailwind_to_gpui("mx-1/2"),
        Some(StyleMutation::Margin(BoxSide::X, ScaleStep::F1_2)),
    );
    assert_eq!(
        tailwind_to_gpui("rounded-bl-md"),
        Some(StyleMutation::CornerRadiusStep(CornerSet::BottomLeft, RadiusSize::Md)),
    );
}

#[test]
fn dynamic_rounded_rem() {
    assert_eq!(
        tailwind_to_gpui("rounded-1.5rem"),
        Some(StyleMutation::CornerRadius(CornerSet::All, AbsoluteLength::Rems(1500))),
    );
}

#[test]
fn set_attributes_applies_font_then_classes() {
    let mut style = ElementStyle::new();
    let attrs = vec![
        ("class".to_string(), "flex flex-col p-4".to_string()),
        ("font".to_string(), "Inter".to_string()),
    ];
    set_attributes(&mut style, &attrs);
    assert_eq!(style.font, Some("Inter".to_string()));
    assert_eq!(
        style.mutations,
        vec![
            StyleMutation::Layout(LayoutFlag::Flex),
            StyleMutation::Layout(LayoutFlag::FlexCol),
            StyleMutation::Padding(BoxSide::All, ScaleStep::S4),
        ],
    );
}

#[test]
fn set_attributes_unknown_token_leaves_style_unchanged() {
    let mut style = ElementStyle::new();
    let attrs = vec![("class".to_string(), "totally-bogus".to_string())];
    set_attributes(&mut style, &attrs);
    assert_eq!(style.font, None);
    assert_eq!(style.mutations, vec![]);
}

#[test]
fn set_attributes_first_attribute_wins() {
    let mut style = ElementStyle::new();
    let attrs = vec![
        ("class".to_string(), "flex".to_string()),
        ("class".to_string(), "p-4".to_string()),
    ];
    set_attributes(&mut style, &attrs);
    assert_eq!(style.mutations, vec![StyleMutation::Layout(LayoutFlag::Flex)]);
}

#[test]
fn class_splits_on_any_unicode_whitespace() {
    let mut style = ElementStyle::new();
    let attrs = vec![(
        "class".to_string(),
        "flex\u{000C}flex-col\u{2003}p-4".to_string(),
    )];
    set_attributes(&mut style, &attrs);
    assert_eq!(
        style.mutations,
        vec![
            StyleMutation::Layout(LayoutFlag::Flex),
            StyleMutation::Layout(LayoutFlag::FlexCol),
            StyleMutation::Padding(BoxSide::All, ScaleStep::S4),
        ],
    );
}
