use list_item_layout::content::{
    static_representation, GeneratedContentInfo, ListStyleType, ListStyleTypeContent,
};

#[test]
fn none_has_no_content() {
    assert_eq!(
        ListStyleTypeContent::from_list_style_type(ListStyleType::NoMarker),
        ListStyleTypeContent::Absent
    );
}

#[test]
fn fixed_glyphs_are_static_text() {
    assert_eq!(
        ListStyleTypeContent::from_list_style_type(ListStyleType::Disc),
        ListStyleTypeContent::StaticText('\u{2022}')
    );
    assert_eq!(
        ListStyleTypeContent::from_list_style_type(ListStyleType::Circle),
        ListStyleTypeContent::StaticText('\u{25E6}')
    );
    assert_eq!(
        ListStyleTypeContent::from_list_style_type(ListStyleType::Square),
        ListStyleTypeContent::StaticText('\u{25AA}')
    );
    assert_eq!(
        ListStyleTypeContent::from_list_style_type(ListStyleType::DisclosureOpen),
        ListStyleTypeContent::StaticText('\u{25BE}')
    );
    assert_eq!(
        ListStyleTypeContent::from_list_style_type(ListStyleType::DisclosureClosed),
        ListStyleTypeContent::StaticText('\u{2023}')
    );
}

#[test]
fn counters_are_generated_content() {
    for keyword in [
        ListStyleType::Decimal,
        ListStyleType::LowerAlpha,
        ListStyleType::UpperAlpha,
        ListStyleType::CjkDecimal,
        ListStyleType::KatakanaIroha,
        ListStyleType::Other,
    ] {
        assert_eq!(
            ListStyleTypeContent::from_list_style_type(keyword),
            ListStyleTypeContent::GeneratedContent(Box::new(GeneratedContentInfo::ListItem))
        );
        assert!(keyword.needs_generated_content());
        assert!(!keyword.is_static_glyph());
    }
}

#[test]
fn static_representation_gives_the_glyph() {
    assert_eq!(static_representation(ListStyleType::Disc), '\u{2022}');
    assert_eq!(static_representation(ListStyleType::DisclosureClosed), '\u{2023}');
    assert!(ListStyleType::Disc.is_static_glyph());
    assert!(!ListStyleType::Disc.needs_generated_content());
    assert!(!ListStyleType::NoMarker.needs_generated_content());
    assert!(!ListStyleType::NoMarker.is_static_glyph());
}
