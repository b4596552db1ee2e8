//! The per-font outline cache and the queries made of it.
//!
//! Decoding a glyph's path events is the font engine's work and is driven from
//! outside: `outline` either answers from the cache or names the glyph to
//! decode, and `complete` turns the recorded events into a render and caches it.
use vstd::prelude::*;

use std::collections::HashMap;

use crate::face::{self, Font};
use crate::geometry::Rect;
use crate::outline::InstructionOutlineBuilder;
use crate::render::{render_of, scale_render, unscaled_render, FontMetrics, OutlineRender, RenderView};

verus! {

broadcast use vstd::std_specs::hash::group_hash_axioms;

/// The failures reported to callers.
#[derive(Clone, Copy, Debug, PartialEq, Eq, Structural)]
pub enum FontError {
    /// The bytes are not a font that can be parsed.
    Load,
    /// The font maps no glyph to this character.
    GlyphNotFound(char),
    /// This character has not been decoded and cached yet.
    NotDecoded(char),
    /// The engine recorded path events for this character but reported no
    /// box: its outline could not be decoded whole.
    OutlineFailed(char),
}

/// The answer to an outline request.
pub enum Lookup {
    /// The cached render, at scale 1.
    Ready(OutlineRender),
    /// Not cached yet: the glyph to decode and hand to `complete`.
    Decode(u16),
}

/// One parsed font and the renders of the characters requested so far.
pub struct FontManager {
    font: Font,
    outlines_cache: HashMap<u32, OutlineRender>,
}

/// The cache key of a character: its Unicode scalar value.
pub open spec fn key(c: char) -> u32 {
    c as u32
}

/// What a cache answers for `c`.
pub open spec fn cached_answer(cache: Map<u32, RenderView>, c: char) -> Option<RenderView> {
    if cache.contains_key(key(c)) {
        Some(cache[key(c)])
    } else {
        None
    }
}

/// The font-wide metrics of the font parsed from `data`; a missing capital
/// height reads as zero.
pub open spec fn metrics_of(data: Seq<u8>) -> FontMetrics {
    FontMetrics {
        units_per_em: face::upm_of(data),
        capital_height: match face::capital_height_of(data) {
            Some(h) => h,
            None => 0,
        },
        ascender: face::ascender_of(data),
        descender: face::descender_of(data),
    }
}

/// The scale-1 render of a glyph of the font parsed from `data`, from the
/// path events the engine recorded for it and the box it reported.
pub open spec fn glyph_render(
    data: Seq<u8>,
    glyph: u16,
    events: Seq<crate::outline::DrawInstruction>,
    glyph_box: Option<Rect>,
) -> RenderView {
    render_of(
        events,
        glyph_box,
        face::advance_of(data, glyph),
        face::lsb_of(data, glyph),
        face::global_box_of(data),
        metrics_of(data),
    )
}

/// Every character of `text` is in the cache.
pub open spec fn all_cached(cache: Map<u32, RenderView>, text: Seq<char>) -> bool {
    forall|i: int| 0 <= i < text.len() ==> cache.contains_key(key(#[trigger] text[i]))
}

/// The renders of `text` at font size `k`, one per character in order.
pub open spec fn string_renders(cache: Map<u32, RenderView>, text: Seq<char>, k: u16) -> Seq<
    RenderView,
> {
    text.map_values(|c: char| scale_render(cache[key(c)], k))
}

/// What a cache miss for `c` answers, given the glyph the font maps to `c`.
pub open spec fn miss_answer(c: char, glyph: Option<u16>) -> Result<Lookup, FontError> {
    match glyph {
        Some(g) => Ok(Lookup::Decode(g)),
        None => Err(FontError::GlyphNotFound(c)),
    }
}

/// The answer to a cache miss for `c`: the glyph to decode, or `GlyphNotFound`
/// when the font maps no glyph to `c`.
pub fn resolve_miss(c: char, glyph: Option<u16>) -> (r: Result<Lookup, FontError>)
    ensures
        r == miss_answer(c, glyph),
{
    match glyph {
        Some(g) => Ok(Lookup::Decode(g)),
        None => Err(FontError::GlyphNotFound(c)),
    }
}

impl View for FontManager {
    type V = Map<u32, RenderView>;

    closed spec fn view(&self) -> Map<u32, RenderView> {
        self.outlines_cache@.map_values(|r: OutlineRender| r@)
    }
}

impl FontManager {
    /// Every cached render is at scale 1 and fits a later scaling.
    pub closed spec fn wf(&self) -> bool {
        forall|k: u32| #[trigger]
            self.outlines_cache@.contains_key(k) ==> unscaled_render(self.outlines_cache@[k]@)
    }

    /// The bytes of the font this manager was created from.
    pub closed spec fn data(&self) -> Seq<u8> {
        self.font.data()
    }

    /// Parses a font file; the cache starts empty. Fails with `Load` exactly
    /// when the bytes are not a font.
    pub fn new(data: Vec<u8>) -> (r: Result<FontManager, FontError>)
        ensures
            r is Ok <==> face::font_parses(data@),
            match r {
                Ok(fm) => fm.wf() && fm@ == Map::<u32, RenderView>::empty() && fm.data() == data@,
                Err(e) => e == FontError::Load,
            },
    {
        match face::parse_face(data) {
            Some(font) => {
                let fm = FontManager { font, outlines_cache: HashMap::new() };
                assert(fm@ =~= Map::<u32, RenderView>::empty());
                Ok(fm)
            },
            None => Err(FontError::Load),
        }
    }

    /// The parsed face, for decoding glyph outlines.
    pub fn face(&self) -> (r: &owned_ttf_parser::OwnedFace) {
        self.font.face()
    }

    /// The font-wide metrics, read from the font on each call.
    pub fn metrics(&self) -> (r: FontMetrics)
        ensures
            r == metrics_of(self.data()),
            16 <= r.units_per_em <= 16384,
    {
        let capital_height = match face::capital_height(&self.font) {
            Some(h) => h,
            None => 0,
        };
        FontMetrics {
            units_per_em: face::units_per_em(&self.font),
            capital_height,
            ascender: face::ascender(&self.font),
            descender: face::descender(&self.font),
        }
    }

    /// The cached render of `c`; otherwise the glyph to decode, or
    /// `GlyphNotFound` when the font maps no glyph to `c`. Never changes the cache.
    pub fn outline(&self, c: char) -> (r: Result<Lookup, FontError>)
        requires
            self.wf(),
        ensures
            match cached_answer(self@, c) {
                Some(v) => r matches Ok(Lookup::Ready(x)) && x@ == v,
                None => r == miss_answer(c, face::glyph_of(self.data(), c)),
            },
    {
        match self.outlines_cache.get(&(c as u32)) {
            Some(v) => Ok(Lookup::Ready(v.duplicate())),
            None => {
                let glyph = face::glyph_index(&self.font, c);
                resolve_miss(c, glyph)
            },
        }
    }

    /// Turns the decoded path events of `glyph` (the glyph of `c`) and the box
    /// the engine reported into a scale-1 render, caches it under `c` and
    /// returns a copy. Horizontal metrics and font-wide metrics are read from
    /// the font. Events without a box are a partial outline: `OutlineFailed`,
    /// and the cache is left unchanged.
    pub fn complete(
        &mut self,
        c: char,
        glyph: u16,
        events: &InstructionOutlineBuilder,
        glyph_box: Option<Rect>,
    ) -> (r: Result<OutlineRender, FontError>)
        requires
            old(self).wf(),
            events.wf(),
        ensures
            final(self).wf(),
            final(self).data() == old(self).data(),
            r is Err <==> (glyph_box is None && events@.len() > 0),
            match r {
                Ok(v) => v@ == glyph_render(old(self).data(), glyph, events@, glyph_box)
                    && final(self)@ == old(self)@.insert(key(c), v@),
                Err(e) => e == FontError::OutlineFailed(c) && final(self)@ == old(self)@,
            },
    {
        if glyph_box.is_none() && events.instructions().len() > 0 {
            return Err(FontError::OutlineFailed(c));
        }
        let advance = face::glyph_hor_advance(&self.font, glyph);
        let lsb = face::glyph_hor_side_bearing(&self.font, glyph);
        let global = face::global_bounding_box(&self.font);
        let metrics = self.metrics();
        let render = OutlineRender::assemble(
            events.instructions(),
            glyph_box,
            advance,
            lsb,
            global,
            metrics,
        );
        let copy = render.duplicate();
        self.outlines_cache.insert(c as u32, render);
        assert(self@ =~= old(self)@.insert(key(c), copy@));
        Ok(copy)
    }

    /// The renders of `text` at font size `font_size`, one per character in
    /// order, each a scaled copy of the cached render. Reads the cache only;
    /// fails with `NotDecoded` naming the first character not cached.
    pub fn render_string(&self, text: &Vec<char>, font_size: u16) -> (r: Result<
        Vec<OutlineRender>,
        FontError,
    >)
        requires
            self.wf(),
        ensures
            match r {
                Ok(v) => all_cached(self@, text@) && v@.map_values(|x: OutlineRender| x@)
                    == string_renders(self@, text@, font_size),
                Err(e) => exists|i: int|
                    0 <= i < text@.len() && !self@.contains_key(key(#[trigger] text@[i]))
                        && all_cached(self@, text@.take(i)) && e == FontError::NotDecoded(text@[i]),
            },
    {
        let mut out: Vec<OutlineRender> = Vec::new();
        let mut i: usize = 0;
        while i < text.len()
            invariant
                self.wf(),
                i <= text@.len(),
                all_cached(self@, text@.take(i as int)),
                out@.map_values(|x: OutlineRender| x@) == string_renders(
                    self@,
                    text@.take(i as int),
                    font_size,
                ),
            decreases text@.len() - i,
        {
            let c = text[i];
            assert(text@.take(i + 1) == text@.take(i as int).push(c));
            match self.outlines_cache.get(&(c as u32)) {
                Some(v) => {
                    assert(self@.contains_key(key(c)) && self@[key(c)] == v@);
                    let s = v.scaled(font_size);
                    let ghost prev = out@;
                    out.push(s);
                    assert(out@ == prev.push(s));
                    assert(out@.map_values(|x: OutlineRender| x@) =~= prev.map_values(
                        |x: OutlineRender| x@,
                    ).push(s@));
                    assert(out@.map_values(|x: OutlineRender| x@) =~= string_renders(
                        self@,
                        text@.take(i + 1),
                        font_size,
                    ));
                },
                None => {
                    assert(text@[i as int] == c);
                    return Err(FontError::NotDecoded(c));
                },
            }
            i = i + 1;
        }
        assert(text@.take(i as int) == text@);
        Ok(out)
    }
}

/// A character's cached render never changes: once `v` is stored for `c`,
/// the cache answers `v` for `c`, and storing it leaves every other
/// character's answer as it was.
pub proof fn lemma_cache_idempotent(cache: Map<u32, RenderView>, c: char, v: RenderView)
    ensures
        cached_answer(cache.insert(key(c), v), c) == Some(v),
        forall|d: char|
            d != c ==> #[trigger] cached_answer(cache.insert(key(c), v), d) == cached_answer(
                cache,
                d,
            ),
{
    assert forall|d: char| d != c implies #[trigger] cached_answer(cache.insert(key(c), v), d)
        == cached_answer(cache, d) by {
        vstd::utf8::char_u32_cast(c, key(c));
        vstd::utf8::char_u32_cast(d, key(d));
        assert(key(d) != key(c));
    }
}

/// The font-wide metrics of every render of one font are the font's own: two
/// glyphs of the same font carry equal metrics.
pub proof fn lemma_metrics_shared(
    data: Seq<u8>,
    g1: u16,
    e1: Seq<crate::outline::DrawInstruction>,
    b1: Option<Rect>,
    g2: u16,
    e2: Seq<crate::outline::DrawInstruction>,
    b2: Option<Rect>,
)
    ensures
        glyph_render(data, g1, e1, b1).upm == face::upm_of(data),
        glyph_render(data, g1, e1, b1).upm == glyph_render(data, g2, e2, b2).upm,
        glyph_render(data, g1, e1, b1).ascender == glyph_render(data, g2, e2, b2).ascender,
        glyph_render(data, g1, e1, b1).descender == glyph_render(data, g2, e2, b2).descender,
        glyph_render(data, g1, e1, b1).capital_height == glyph_render(
            data,
            g2,
            e2,
            b2,
        ).capital_height,
{
}

/// A miss on a character the font does not map is the `GlyphNotFound` failure
/// for that character, never a render.
pub proof fn lemma_missing_glyph(c: char)
    ensures
        miss_answer(c, None) == Err::<Lookup, FontError>(FontError::GlyphNotFound(c)),
{
}

/// The render of a character inside a string depends only on that character,
/// the cache and the font size: two strings drawn from one cache give equal
/// renders wherever they hold the same character, in their own order.
pub proof fn lemma_string_reuses_cache(
    cache: Map<u32, RenderView>,
    t1: Seq<char>,
    t2: Seq<char>,
    k: u16,
    i: int,
    j: int,
)
    requires
        0 <= i < t1.len(),
        0 <= j < t2.len(),
        t1[i] == t2[j],
    ensures
        string_renders(cache, t1, k).len() == t1.len(),
        string_renders(cache, t1, k)[i] == string_renders(cache, t2, k)[j],
        string_renders(cache, t1, k)[i] == scale_render(cache[key(t1[i])], k),
{
}

} // verus!
