//! What a marker shows: the `list-style-type` keywords and the kind of
//! content each of them asks for.

use vstd::prelude::*;

verus! {

/// The computed value of the `list-style-type` property.
#[derive(Clone, Copy, Debug, PartialEq, Eq, Structural)]
pub enum ListStyleType {
    /// The keyword `none`: the item has no marker.
    NoMarker,
    Disc,
    Circle,
    Square,
    DisclosureOpen,
    DisclosureClosed,
    Decimal,
    LowerAlpha,
    UpperAlpha,
    ArabicIndic,
    Bengali,
    Cambodian,
    CjkDecimal,
    Devanagari,
    Gujarati,
    Gurmukhi,
    Kannada,
    Khmer,
    Lao,
    Malayalam,
    Mongolian,
    Myanmar,
    Oriya,
    Persian,
    Telugu,
    Thai,
    Tibetan,
    CjkEarthlyBranch,
    CjkHeavenlyStem,
    LowerGreek,
    Hiragana,
    HiraganaIroha,
    Katakana,
    KatakanaIroha,
    /// A counter style that has no keyword of its own here: a custom
    /// `@counter-style`, `symbols()`, a string, or a keyword that is not
    /// recognised.
    Other,
}

/// The kinds of content that are only known once counters are resolved.
#[derive(Clone, Copy, Debug, PartialEq, Eq, Structural)]
pub enum GeneratedContentInfo {
    /// The marker of a list item: the text of the item's counter.
    ListItem,
    /// Nothing to generate.
    Empty,
}

/// The kind of content that `list-style-type` results in.
#[derive(Clone, Debug, PartialEq, Eq)]
pub enum ListStyleTypeContent {
    /// No marker at all.
    Absent,
    /// A marker that is one fixed glyph.
    StaticText(char),
    /// A marker whose text the generated-content pass has to resolve.
    GeneratedContent(Box<GeneratedContentInfo>),
}

impl ListStyleType {
    /// Whether this keyword stands for one fixed glyph.
    pub open spec fn spec_is_static_glyph(self) -> bool {
        self is Disc || self is Circle || self is Square || self is DisclosureOpen
            || self is DisclosureClosed
    }

    /// The glyph of a keyword that stands for one: bullet, white bullet,
    /// small black square, small down-pointing triangle, triangular bullet.
    pub open spec fn spec_static_representation(self) -> char
        recommends
            self.spec_is_static_glyph(),
    {
        match self {
            ListStyleType::Disc => '\u{2022}',
            ListStyleType::Circle => '\u{25E6}',
            ListStyleType::Square => '\u{25AA}',
            ListStyleType::DisclosureOpen => '\u{25BE}',
            _ => '\u{2023}',
        }
    }

    /// Whether a marker of this type has text that depends on counters:
    /// every type but `none` and the fixed glyphs.
    pub open spec fn spec_needs_generated_content(self) -> bool {
        !(self is NoMarker) && !self.spec_is_static_glyph()
    }

    /// Whether this keyword stands for one fixed glyph.
    #[verifier::when_used_as_spec(spec_is_static_glyph)]
    pub fn is_static_glyph(self) -> (r: bool)
        ensures
            r == self.spec_is_static_glyph(),
    {
        match self {
            ListStyleType::Disc
            | ListStyleType::Circle
            | ListStyleType::Square
            | ListStyleType::DisclosureOpen
            | ListStyleType::DisclosureClosed => true,
            _ => false,
        }
    }

    /// Whether a marker of this type has text that depends on counters.
    #[verifier::when_used_as_spec(spec_needs_generated_content)]
    pub fn needs_generated_content(self) -> (r: bool)
        ensures
            r == self.spec_needs_generated_content(),
    {
        match self {
            ListStyleType::Disc
            | ListStyleType::NoMarker
            | ListStyleType::Circle
            | ListStyleType::Square
            | ListStyleType::DisclosureOpen
            | ListStyleType::DisclosureClosed => false,
            _ => true,
        }
    }
}

/// The glyph of a keyword that stands for one fixed glyph.
pub fn static_representation(list_style_type: ListStyleType) -> (glyph: char)
    requires
        list_style_type.spec_is_static_glyph(),
    ensures
        glyph == list_style_type.spec_static_representation(),
{
    match list_style_type {
        ListStyleType::Disc => '\u{2022}',
        ListStyleType::Circle => '\u{25E6}',
        ListStyleType::Square => '\u{25AA}',
        ListStyleType::DisclosureOpen => '\u{25BE}',
        _ => '\u{2023}',
    }
}

impl ListStyleTypeContent {
    /// The content that a marker of the given type needs: nothing for
    /// `none`, the glyph for a fixed-glyph keyword, and generated list-item
    /// content for everything else.
    pub open spec fn spec_from_list_style_type(list_style_type: ListStyleType) -> Self {
        if list_style_type is NoMarker {
            ListStyleTypeContent::Absent
        } else if list_style_type.spec_is_static_glyph() {
            ListStyleTypeContent::StaticText(list_style_type.spec_static_representation())
        } else {
            ListStyleTypeContent::GeneratedContent(Box::new(GeneratedContentInfo::ListItem))
        }
    }

    /// Returns the content to be used for the given value of the
    /// `list-style-type` property. The glyph of a static marker comes
    /// without the separator that sets it off from the item's content.
    pub fn from_list_style_type(list_style_type: ListStyleType) -> (content: ListStyleTypeContent)
        ensures
            content == Self::spec_from_list_style_type(list_style_type),
    {
        match list_style_type {
            ListStyleType::NoMarker => ListStyleTypeContent::Absent,
            ListStyleType::Disc
            | ListStyleType::Circle
            | ListStyleType::Square
            | ListStyleType::DisclosureOpen
            | ListStyleType::DisclosureClosed => {
                let text = static_representation(list_style_type);
                ListStyleTypeContent::StaticText(text)
            },
            _ => ListStyleTypeContent::GeneratedContent(Box::new(GeneratedContentInfo::ListItem)),
        }
    }
}

/// The separator that follows a static marker glyph: a no-break space.
pub const MARKER_SEPARATOR: char = '\u{a0}';

} // verus!
