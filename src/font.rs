//! A font as layout sees it: per-code-point glyph metrics and the line metrics.
use vstd::prelude::*;
use crate::math::Vec2;
use std::collections::HashMap;

verus! {

broadcast use vstd::std_specs::hash::group_hash_axioms;

/// Metrics of one rasterized glyph, in whole pixels, with its quad in the atlas.
#[derive(Clone, Copy, Debug)]
pub struct Glyph {
    /// How far the pen moves after this glyph.
    pub advance: u16,
    /// Whether the glyph draws anything (a space does not).
    pub has_outline: bool,
    pub bitmap_left: i16,
    pub bitmap_top: i16,
    pub bitmap_width: u16,
    pub bitmap_height: u16,
    /// Corners of the glyph's quad in the texture atlas.
    pub tex_coords: [Vec2; 4],
}

/// What a font is: a partial map from code points to glyphs, and line metrics.
pub struct FontView {
    pub glyphs: Map<u32, Glyph>,
    pub height: u16,
    pub ascender: u16,
}

/// A font: glyph table keyed by code point, line height and ascender.
pub struct Font {
    glyphs: HashMap<u32, Glyph>,
    height: u16,
    ascender: u16,
}

impl View for Font {
    type V = FontView;

    closed spec fn view(&self) -> FontView {
        FontView { glyphs: self.glyphs@, height: self.height, ascender: self.ascender }
    }
}

/// Horizontal advance of `code` in `font`: the glyph's advance when the font
/// maps it, else the font's height (the size of the fallback square).
pub open spec fn advance_of(font: FontView, code: u32) -> int {
    if font.glyphs.contains_key(code) {
        font.glyphs[code].advance as int
    } else {
        font.height as int
    }
}

impl Font {
    /// A font with no glyphs yet.
    pub fn new(height: u16, ascender: u16) -> (r: Font)
        ensures
            r@.glyphs == Map::<u32, Glyph>::empty(),
            r@.height == height,
            r@.ascender == ascender,
    {
        Font { glyphs: HashMap::new(), height, ascender }
    }

    /// Maps `code` to `glyph`, replacing any glyph it had.
    pub fn add_glyph(&mut self, code: u32, glyph: Glyph)
        ensures
            final(self)@.glyphs == old(self)@.glyphs.insert(code, glyph),
            final(self)@.height == old(self)@.height,
            final(self)@.ascender == old(self)@.ascender,
    {
        self.glyphs.insert(code, glyph);
    }

    pub fn get_glyph(&self, code: u32) -> (r: Option<Glyph>)
        ensures
            r == (if self@.glyphs.contains_key(code) {
                Some(self@.glyphs[code])
            } else {
                None::<Glyph>
            }),
    {
        match self.glyphs.get(&code) {
            Some(g) => Some(*g),
            None => None,
        }
    }

    pub fn get_glyph_advance(&self, code: u32) -> (r: u16)
        ensures
            r as int == advance_of(self@, code),
    {
        match self.glyphs.get(&code) {
            Some(g) => g.advance,
            None => self.height,
        }
    }

    pub fn get_height(&self) -> (r: u16)
        ensures
            r == self@.height,
    {
        self.height
    }

    pub fn get_ascender(&self) -> (r: u16)
        ensures
            r == self@.ascender,
    {
        self.ascender
    }
}

} // verus!
