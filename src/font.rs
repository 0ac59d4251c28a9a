//! Font descriptions: a family name with weight, style and stretch.
use vstd::prelude::*;

verus! {

/// Font weight, from thin to black.
#[derive(Debug, Clone, Copy, PartialEq, Eq, Default, Structural)]
pub enum FontWeight {
    Thin,
    ExtraLight,
    Light,
    #[default]
    Regular,
    Medium,
    SemiBold,
    Bold,
    ExtraBold,
    Black,
}

/// The numeric weight (100 to 900) of `w`.
pub open spec fn weight_value(w: FontWeight) -> u16 {
    match w {
        FontWeight::Thin => 100,
        FontWeight::ExtraLight => 200,
        FontWeight::Light => 300,
        FontWeight::Regular => 400,
        FontWeight::Medium => 500,
        FontWeight::SemiBold => 600,
        FontWeight::Bold => 700,
        FontWeight::ExtraBold => 800,
        FontWeight::Black => 900,
    }
}

impl FontWeight {
    /// The numeric weight, from 100 (thin) to 900 (black).
    pub fn value(&self) -> (r: u16)
        ensures
            r == weight_value(*self),
    {
        match self {
            FontWeight::Thin => 100,
            FontWeight::ExtraLight => 200,
            FontWeight::Light => 300,
            FontWeight::Regular => 400,
            FontWeight::Medium => 500,
            FontWeight::SemiBold => 600,
            FontWeight::Bold => 700,
            FontWeight::ExtraBold => 800,
            FontWeight::Black => 900,
        }
    }
}

/// Font slant.
#[derive(Debug, Clone, Copy, PartialEq, Eq, Default, Structural)]
pub enum FontStyle {
    #[default]
    Normal,
    Italic,
    Oblique,
}

/// Font width.
#[derive(Debug, Clone, Copy, PartialEq, Eq, Default, Structural)]
pub enum FontStretch {
    UltraCondensed,
    ExtraCondensed,
    Condensed,
    SemiCondensed,
    #[default]
    Normal,
    SemiExpanded,
    Expanded,
    ExtraExpanded,
    UltraExpanded,
}

/// A font description.
#[derive(Debug, Clone)]
pub struct Font {
    family: String,
    weight: FontWeight,
    style: FontStyle,
    stretch: FontStretch,
}

impl Font {
    pub closed spec fn family_spec(&self) -> Seq<char> {
        self.family@
    }

    pub closed spec fn weight_spec(&self) -> FontWeight {
        self.weight
    }

    pub closed spec fn style_spec(&self) -> FontStyle {
        self.style
    }

    pub closed spec fn stretch_spec(&self) -> FontStretch {
        self.stretch
    }

    /// The family `family` at regular weight, normal style and stretch.
    pub fn new(family: &str) -> (r: Font)
        ensures
            r.family_spec() == family@,
            r.weight_spec() == FontWeight::Regular,
            r.style_spec() == FontStyle::Normal,
            r.stretch_spec() == FontStretch::Normal,
    {
        Font {
            family: family.to_owned(),
            weight: FontWeight::Regular,
            style: FontStyle::Normal,
            stretch: FontStretch::Normal,
        }
    }

    /// The generic sans-serif family.
    pub fn sans_serif() -> (r: Font)
        ensures
            r.family_spec() == "sans-serif"@,
            r.weight_spec() == FontWeight::Regular,
            r.style_spec() == FontStyle::Normal,
            r.stretch_spec() == FontStretch::Normal,
    {
        Font::new("sans-serif")
    }

    /// The generic serif family.
    pub fn serif() -> (r: Font)
        ensures
            r.family_spec() == "serif"@,
            r.weight_spec() == FontWeight::Regular,
            r.style_spec() == FontStyle::Normal,
            r.stretch_spec() == FontStretch::Normal,
    {
        Font::new("serif")
    }

    /// The generic monospace family.
    pub fn monospace() -> (r: Font)
        ensures
            r.family_spec() == "monospace"@,
            r.weight_spec() == FontWeight::Regular,
            r.style_spec() == FontStyle::Normal,
            r.stretch_spec() == FontStretch::Normal,
    {
        Font::new("monospace")
    }

    /// The family name.
    pub fn family(&self) -> (r: &str)
        ensures
            r@ == self.family_spec(),
    {
        self.family.as_str()
    }

    pub fn weight(&self) -> (r: FontWeight)
        ensures
            r == self.weight_spec(),
    {
        self.weight
    }

    /// The same font at weight `weight`.
    pub fn with_weight(self, weight: FontWeight) -> (r: Font)
        ensures
            r.weight_spec() == weight,
            r.family_spec() == self.family_spec(),
            r.style_spec() == self.style_spec(),
            r.stretch_spec() == self.stretch_spec(),
    {
        Font { weight, ..self }
    }

    pub fn style(&self) -> (r: FontStyle)
        ensures
            r == self.style_spec(),
    {
        self.style
    }

    /// The same font in style `style`.
    pub fn with_style(self, style: FontStyle) -> (r: Font)
        ensures
            r.style_spec() == style,
            r.family_spec() == self.family_spec(),
            r.weight_spec() == self.weight_spec(),
            r.stretch_spec() == self.stretch_spec(),
    {
        Font { style, ..self }
    }

    pub fn stretch(&self) -> (r: FontStretch)
        ensures
            r == self.stretch_spec(),
    {
        self.stretch
    }

    /// The same font at stretch `stretch`.
    pub fn with_stretch(self, stretch: FontStretch) -> (r: Font)
        ensures
            r.stretch_spec() == stretch,
            r.family_spec() == self.family_spec(),
            r.weight_spec() == self.weight_spec(),
            r.style_spec() == self.style_spec(),
    {
        Font { stretch, ..self }
    }

    /// The same font in bold.
    pub fn bold(self) -> (r: Font)
        ensures
            r.weight_spec() == FontWeight::Bold,
            r.family_spec() == self.family_spec(),
            r.style_spec() == self.style_spec(),
            r.stretch_spec() == self.stretch_spec(),
    {
        self.with_weight(FontWeight::Bold)
    }

    /// The same font in italic.
    pub fn italic(self) -> (r: Font)
        ensures
            r.style_spec() == FontStyle::Italic,
            r.family_spec() == self.family_spec(),
            r.weight_spec() == self.weight_spec(),
            r.stretch_spec() == self.stretch_spec(),
    {
        self.with_style(FontStyle::Italic)
    }
}

impl Default for Font {
    /// The sans-serif family.
    fn default() -> (r: Font)
        ensures
            r.family_spec() == "sans-serif"@,
            r.weight_spec() == FontWeight::Regular,
            r.style_spec() == FontStyle::Normal,
            r.stretch_spec() == FontStretch::Normal,
    {
        Font::sans_serif()
    }
}

} // verus!
