//! Text style descriptors.

use vstd::prelude::*;

use super::Color;
use crate::math::Scalar;

verus! {

/// Describes the style of text.
#[derive(Debug, Clone, PartialEq)]
pub struct TextStyle<T> {
    /// The font of the text.
    pub font: Font,
    /// The color of the text.
    pub color: Color<T>,
    /// The size of the text.
    pub size: T,
    /// The alignment of the text within its bounding-box.
    pub alignment: TextAlignment,
}

/// Describes the font of text.
#[derive(Debug, Clone, PartialEq)]
pub struct Font {
    /// The name of the font.
    pub family: FontFamily,
    /// Fallback fonts to use.
    pub fallback: Vec<FontFamily>,
    /// The style of the font (normal, italic).
    pub style: FontStyle,
    /// The thickness of the glyphs.
    pub weight: FontWeight,
}

/// The name of a font.
#[derive(Debug, Clone, PartialEq, Eq, Hash)]
pub enum FontFamily {
    SansSerif,
    Serif,
    Monospace,
    Named(String),
}

/// The style of a font (normal, italic).
#[derive(Debug, Clone, Copy, PartialEq, Eq, Hash)]
pub enum FontStyle {
    Normal,
    Italic,
}

/// The thickness of the glyphs of a font, on the usual 1 to 1000 scale.
#[derive(Debug, Clone, Copy, PartialEq, Eq, PartialOrd, Ord, Hash)]
pub struct FontWeight(u16);

/// How to align text within its bounding-box.
#[derive(Debug, Clone, Copy, PartialEq, Eq, Hash)]
pub enum TextAlignment {
    /// Align text to the start of the bounding-box.
    Start,
    /// Align text to the middle of the bounding-box.
    Middle,
    /// Align text to the end of the bounding-box.
    End,
}

impl FontWeight {
    /// The value of the weight, at the specification level.
    pub closed spec fn spec_get(self) -> u16 {
        self.0
    }

    /// Returns a new font weight for a weight value.
    pub fn new(value: u16) -> (r: Self)
        ensures
            r.spec_get() == value,
    {
        FontWeight(value)
    }

    /// The value of the weight.
    pub fn get(self) -> (r: u16)
        ensures
            r == self.spec_get(),
    {
        self.0
    }

    /// Font weight of 700.
    pub fn bold() -> (r: Self)
        ensures
            r.spec_get() == 700,
    {
        FontWeight(700)
    }

    /// Font weight of 400.
    pub fn normal() -> (r: Self)
        ensures
            r.spec_get() == 400,
    {
        FontWeight(400)
    }
}

impl Default for FontWeight {
    /// The normal font weight, 400.
    fn default() -> (r: Self)
        ensures
            r.spec_get() == 400,
    {
        FontWeight::normal()
    }
}

impl Default for FontFamily {
    /// The sans-serif generic family.
    fn default() -> (r: Self)
        ensures
            r == FontFamily::SansSerif,
    {
        FontFamily::SansSerif
    }
}

impl Default for FontStyle {
    /// The normal (upright) style.
    fn default() -> (r: Self)
        ensures
            r == FontStyle::Normal,
    {
        FontStyle::Normal
    }
}

impl Default for TextAlignment {
    /// Alignment to the start of the bounding-box.
    fn default() -> (r: Self)
        ensures
            r == TextAlignment::Start,
    {
        TextAlignment::Start
    }
}

impl Default for Font {
    /// The sans-serif family with no fallbacks, normal style and weight.
    fn default() -> (r: Self)
        ensures
            r.family == FontFamily::SansSerif,
            r.fallback@.len() == 0,
            r.style == FontStyle::Normal,
            r.weight.spec_get() == 400,
    {
        Font {
            family: FontFamily::SansSerif,
            fallback: Vec::new(),
            style: FontStyle::Normal,
            weight: FontWeight::normal(),
        }
    }
}

impl<T: Scalar> Default for TextStyle<T> {
    /// The default font, white text of size 16, aligned to the start.
    fn default() -> (r: Self)
        ensures
            r.font.family == FontFamily::SansSerif,
            r.font.fallback@.len() == 0,
            r.font.style == FontStyle::Normal,
            r.font.weight.spec_get() == 400,
            r.color == (Color {
                r: T::spec_one(),
                g: T::spec_one(),
                b: T::spec_one(),
                a: T::spec_one(),
            }),
            r.size.lift() == 16,
            r.alignment == TextAlignment::Start,
    {
        TextStyle {
            font: Font::default(),
            color: Color::white(),
            size: T::from_small(16),
            alignment: TextAlignment::Start,
        }
    }
}

} // verus!
