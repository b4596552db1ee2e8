//! The font engine: a parsed font face and the queries made of it.
//!
//! Every query depends on the font's bytes alone; each is named below as a
//! function of those bytes.
use vstd::prelude::*;

use owned_ttf_parser::AsFaceRef;

use crate::geometry::Rect;

verus! {

/// A parsed font that owns its bytes.
#[verifier::external_type_specification]
#[verifier::external_body]
pub struct ExOwnedFace(owned_ttf_parser::OwnedFace);

/// The bytes parse as a font (first face of the file).
pub uninterp spec fn font_parses(data: Seq<u8>) -> bool;

/// The font's units per em.
pub uninterp spec fn upm_of(data: Seq<u8>) -> u16;

/// The font's capital height, when its OS/2 table has one.
pub uninterp spec fn capital_height_of(data: Seq<u8>) -> Option<i16>;

/// The font's horizontal ascender.
pub uninterp spec fn ascender_of(data: Seq<u8>) -> i16;

/// The font's horizontal descender.
pub uninterp spec fn descender_of(data: Seq<u8>) -> i16;

/// The font's global bounding box.
pub uninterp spec fn global_box_of(data: Seq<u8>) -> Rect;

/// The glyph the font maps to a character, if any.
pub uninterp spec fn glyph_of(data: Seq<u8>, c: char) -> Option<u16>;

/// The horizontal advance of a glyph, when the font has one.
pub uninterp spec fn advance_of(data: Seq<u8>, glyph: u16) -> Option<u16>;

/// The left side bearing of a glyph, when the font has one.
pub uninterp spec fn lsb_of(data: Seq<u8>, glyph: u16) -> Option<i16>;

/// A parsed font together with the bytes it was parsed from.
pub struct Font {
    face: owned_ttf_parser::OwnedFace,
    data: Ghost<Seq<u8>>,
}

impl Font {
    /// The bytes the font was parsed from.
    pub closed spec fn data(&self) -> Seq<u8> {
        self.data@
    }

    /// The parsed face, for decoding glyph outlines.
    pub fn face(&self) -> (r: &owned_ttf_parser::OwnedFace) {
        &self.face
    }
}

/// Relies on `OwnedFace::from_vec`: parses the first face of a font file; the
/// outcome depends on the bytes alone.
#[verifier::external_body]
pub(crate) fn parse_face(data: Vec<u8>) -> (r: Option<Font>)
    ensures
        r is Some <==> font_parses(data@),
        r matches Some(f) ==> f.data() == data@,
{
    let bytes = Ghost(data@);
    owned_ttf_parser::OwnedFace::from_vec(data, 0).ok().map(|face| Font { face, data: bytes })
}

/// Relies on `Face::units_per_em`, which the `head` table parser keeps in 16..=16384.
#[verifier::external_body]
pub(crate) fn units_per_em(font: &Font) -> (r: u16)
    ensures
        r == upm_of(font.data()),
        16 <= r <= 16384,
{
    font.face.as_face_ref().units_per_em()
}

/// Relies on `Face::capital_height`: the OS/2 capital height, when present.
#[verifier::external_body]
pub(crate) fn capital_height(font: &Font) -> (r: Option<i16>)
    ensures
        r == capital_height_of(font.data()),
{
    font.face.as_face_ref().capital_height()
}

/// Relies on `Face::ascender`.
#[verifier::external_body]
pub(crate) fn ascender(font: &Font) -> (r: i16)
    ensures
        r == ascender_of(font.data()),
{
    font.face.as_face_ref().ascender()
}

/// Relies on `Face::descender`.
#[verifier::external_body]
pub(crate) fn descender(font: &Font) -> (r: i16)
    ensures
        r == descender_of(font.data()),
{
    font.face.as_face_ref().descender()
}

/// Relies on `Face::global_bounding_box`: the `head` table's box, converted field by field.
#[verifier::external_body]
pub(crate) fn global_bounding_box(font: &Font) -> (r: Rect)
    ensures
        r == global_box_of(font.data()),
{
    let b = font.face.as_face_ref().global_bounding_box();
    Rect { x_min: b.x_min, y_min: b.y_min, x_max: b.x_max, y_max: b.y_max }
}

/// Relies on `Face::glyph_index`: the glyph mapped to `c` by a Unicode `cmap` subtable.
#[verifier::external_body]
pub(crate) fn glyph_index(font: &Font, c: char) -> (r: Option<u16>)
    ensures
        r == glyph_of(font.data(), c),
{
    font.face.as_face_ref().glyph_index(c).map(|g| g.0)
}

/// Relies on `Face::glyph_hor_advance`: the `hmtx` advance of a glyph, when present.
#[verifier::external_body]
pub(crate) fn glyph_hor_advance(font: &Font, glyph: u16) -> (r: Option<u16>)
    ensures
        r == advance_of(font.data(), glyph),
{
    font.face.as_face_ref().glyph_hor_advance(owned_ttf_parser::GlyphId(glyph))
}

/// Relies on `Face::glyph_hor_side_bearing`: the `hmtx` left side bearing, when present.
#[verifier::external_body]
pub(crate) fn glyph_hor_side_bearing(font: &Font, glyph: u16) -> (r: Option<i16>)
    ensures
        r == lsb_of(font.data(), glyph),
{
    font.face.as_face_ref().glyph_hor_side_bearing(owned_ttf_parser::GlyphId(glyph))
}

} // verus!
