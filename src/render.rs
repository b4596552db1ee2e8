//! The finished, normalised outline of one glyph and its metrics.
use vstd::prelude::*;

use crate::geometry::{BBox, Rect};
use crate::outline::{raw_commands, DrawInstruction};
use crate::transform::{
    box_within, crop_bbox, crop_box, crop_commands, crop_instructions, cropped_bound,
    cropped_commands, lemma_bbox_rederived, lemma_order_preserved, lemma_transform_composition, scale_bbox,
    scale_box, scale_commands, scale_instructions, transform_commands,
};

verus! {

/// Font-wide vertical metrics, in font units.
#[derive(Clone, Copy, Debug, PartialEq, Eq, Structural)]
pub struct FontMetrics {
    pub units_per_em: u16,
    pub capital_height: i16,
    pub ascender: i16,
    pub descender: i16,
}

/// The normalised outline of one glyph.
///
/// Coordinates, `advance_width`, `lsb` and `bbox` are in font units multiplied
/// by `scale`; with `scale` set to a font size in pixels, dividing by `upm`
/// gives pixels. The vertical metrics are in plain font units.
#[derive(Clone, Debug)]
pub struct OutlineRender {
    pub instructions: Vec<DrawInstruction>,
    pub advance_width: i64,
    /// Left side bearing.
    pub lsb: i64,
    pub upm: u16,
    pub scale: u16,
    /// Absent for a glyph without contours.
    pub bbox: Option<BBox>,
    pub capital_height: i16,
    pub ascender: i16,
    pub descender: i16,
}

/// The mathematical value of an `OutlineRender`.
pub struct RenderView {
    pub instructions: Seq<DrawInstruction>,
    pub advance_width: int,
    pub lsb: int,
    pub upm: u16,
    pub scale: u16,
    pub bbox: Option<BBox>,
    pub capital_height: i16,
    pub ascender: i16,
    pub descender: i16,
}

impl View for OutlineRender {
    type V = RenderView;

    open spec fn view(&self) -> RenderView {
        RenderView {
            instructions: self.instructions@,
            advance_width: self.advance_width as int,
            lsb: self.lsb as int,
            upm: self.upm,
            scale: self.scale,
            bbox: self.bbox,
            capital_height: self.capital_height,
            ascender: self.ascender,
            descender: self.descender,
        }
    }
}

/// The advance width: the horizontal-metrics entry when the font has one;
/// otherwise the width of the font's global box, never below zero.
pub open spec fn advance_rule(advance: Option<u16>, global: Rect) -> int {
    match advance {
        Some(a) => a as int,
        None => if global.spec_width() < 0 {
            0
        } else {
            global.spec_width()
        },
    }
}

/// The left side bearing: the font's entry, or zero when it has none.
pub open spec fn lsb_rule(lsb: Option<i16>) -> int {
    match lsb {
        Some(v) => v as int,
        None => 0,
    }
}

/// The render of a glyph at scale 1 from what the font engine reported: the
/// recorded raw commands, the glyph's raw box (absent only for a glyph without
/// contours, which records no commands), its horizontal metrics when
/// present, the font's global box and the font-wide metrics.
pub open spec fn render_of(
    raw: Seq<DrawInstruction>,
    glyph_box: Option<Rect>,
    advance: Option<u16>,
    lsb: Option<i16>,
    global: Rect,
    m: FontMetrics,
) -> RenderView {
    RenderView {
        instructions: match glyph_box {
            Some(b) => crop_commands(raw, b),
            None => Seq::empty(),
        },
        advance_width: advance_rule(advance, global),
        lsb: lsb_rule(lsb),
        upm: m.units_per_em,
        scale: 1,
        bbox: match glyph_box {
            Some(b) => Some(crop_box(b)),
            None => None,
        },
        capital_height: m.capital_height,
        ascender: m.ascender,
        descender: m.descender,
    }
}

/// A render at scale 1 whose values all fit a later scaling.
pub open spec fn unscaled_render(v: RenderView) -> bool {
    &&& v.scale == 1
    &&& cropped_commands(v.instructions)
    &&& 0 <= v.advance_width <= 0x1_0000
    &&& -0x1_0000 <= v.lsb <= 0x1_0000
    &&& match v.bbox {
        Some(bb) => box_within(bb, cropped_bound()),
        None => true,
    }
}

/// The same render with every length multiplied by `k`.
pub open spec fn scale_render(v: RenderView, k: u16) -> RenderView {
    RenderView {
        instructions: scale_commands(v.instructions, k as i64),
        advance_width: v.advance_width * k,
        lsb: v.lsb * k,
        upm: v.upm,
        scale: k,
        bbox: match v.bbox {
            Some(bb) => Some(scale_box(bb, k as i64)),
            None => None,
        },
        capital_height: v.capital_height,
        ascender: v.ascender,
        descender: v.descender,
    }
}

fn copy_instructions(v: &Vec<DrawInstruction>) -> (r: Vec<DrawInstruction>)
    ensures
        r@ == v@,
{
    let mut out: Vec<DrawInstruction> = Vec::new();
    let mut i: usize = 0;
    while i < v.len()
        invariant
            i <= v@.len(),
            out@ == v@.take(i as int),
        decreases v@.len() - i,
    {
        out.push(v[i]);
        assert(v@.take(i + 1) == v@.take(i as int).push(v@[i as int]));
        i = i + 1;
    }
    assert(v@.take(i as int) == v@);
    out
}

fn fallback_advance(global: Rect) -> (r: i64)
    ensures
        r == advance_rule(None, global),
{
    let w = global.width();
    if w < 0 {
        0
    } else {
        w as i64
    }
}

impl OutlineRender {
    /// Builds the scale-1 render of a glyph from what the font engine reported.
    pub fn assemble(
        raw: &Vec<DrawInstruction>,
        glyph_box: Option<Rect>,
        advance: Option<u16>,
        lsb: Option<i16>,
        global: Rect,
        metrics: FontMetrics,
    ) -> (r: OutlineRender)
        requires
            raw_commands(raw@),
            glyph_box is None ==> raw@.len() == 0,
        ensures
            r@ == render_of(raw@, glyph_box, advance, lsb, global, metrics),
            unscaled_render(r@),
    {
        let (instructions, bbox) = match glyph_box {
            Some(b) => (crop_instructions(raw, &b), Some(crop_bbox(&b))),
            None => (Vec::new(), None),
        };
        let advance_width: i64 = match advance {
            Some(a) => a as i64,
            None => fallback_advance(global),
        };
        let lsb: i64 = match lsb {
            Some(v) => v as i64,
            None => 0,
        };
        OutlineRender {
            instructions,
            advance_width,
            lsb,
            upm: metrics.units_per_em,
            scale: 1,
            bbox,
            capital_height: metrics.capital_height,
            ascender: metrics.ascender,
            descender: metrics.descender,
        }
    }

    /// A value copy of the render.
    pub fn duplicate(&self) -> (r: OutlineRender)
        ensures
            r@ == self@,
    {
        OutlineRender {
            instructions: copy_instructions(&self.instructions),
            advance_width: self.advance_width,
            lsb: self.lsb,
            upm: self.upm,
            scale: self.scale,
            bbox: self.bbox,
            capital_height: self.capital_height,
            ascender: self.ascender,
            descender: self.descender,
        }
    }

    /// A copy of a scale-1 render with every length multiplied by the font size `k`.
    pub fn scaled(&self, k: u16) -> (r: OutlineRender)
        requires
            unscaled_render(self@),
        ensures
            r@ == scale_render(self@, k),
    {
        let bbox = match &self.bbox {
            Some(bb) => Some(scale_bbox(bb, k)),
            None => None,
        };
        assert(0 <= self.advance_width * (k as int) <= 0x1_0000 * 0xffff) by (nonlinear_arith)
            requires
                0 <= self.advance_width <= 0x1_0000,
                0 <= k <= 0xffff,
        ;
        assert(-0x1_0000 * 0xffff <= self.lsb * (k as int) <= 0x1_0000 * 0xffff)
            by (nonlinear_arith)
            requires
                -0x1_0000 <= self.lsb <= 0x1_0000,
                0 <= k <= 0xffff,
        ;
        OutlineRender {
            instructions: scale_instructions(&self.instructions, k),
            advance_width: self.advance_width * (k as i64),
            lsb: self.lsb * (k as i64),
            upm: self.upm,
            scale: k,
            bbox,
            capital_height: self.capital_height,
            ascender: self.ascender,
            descender: self.descender,
        }
    }
}

/// A glyph without contours (no box) renders as no commands and no box, and
/// its advance is the font's horizontal-metrics entry whenever there is one.
pub proof fn lemma_empty_glyph(
    raw: Seq<DrawInstruction>,
    advance: u16,
    lsb: Option<i16>,
    global: Rect,
    m: FontMetrics,
)
    ensures
        render_of(raw, None, Some(advance), lsb, global, m).instructions.len() == 0,
        render_of(raw, None, Some(advance), lsb, global, m).bbox is None,
        render_of(raw, None, Some(advance), lsb, global, m).advance_width == advance as int,
{
}

/// A glyph with a box, rendered and then scaled to font size `k`, holds each
/// raw command transformed by `((x - x_min) * k, (y_max - y) * k)` in the
/// recorded order, and a box at the origin whose size is the raw size times `k`.
pub proof fn lemma_scaled_render(
    raw: Seq<DrawInstruction>,
    b: Rect,
    advance: Option<u16>,
    lsb: Option<i16>,
    global: Rect,
    m: FontMetrics,
    k: u16,
)
    requires
        raw_commands(raw),
    ensures
        scale_render(render_of(raw, Some(b), advance, lsb, global, m), k).instructions
            == transform_commands(raw, b, k as i64),
        scale_render(render_of(raw, Some(b), advance, lsb, global, m), k).bbox == Some(
            BBox {
                x: 0,
                y: 0,
                width: (b.spec_width() * k) as i64,
                height: (b.spec_height() * k) as i64,
            },
        ),
{
    lemma_transform_composition(raw, b, k as i64);
    lemma_bbox_rederived(b, k as i64);
}

/// The render keeps the recorded path order: one command per recorded event,
/// at the same position and of the same kind, `Close` included.
pub proof fn lemma_render_keeps_order(
    raw: Seq<DrawInstruction>,
    glyph_box: Option<Rect>,
    advance: Option<u16>,
    lsb: Option<i16>,
    global: Rect,
    m: FontMetrics,
)
    requires
        glyph_box is None ==> raw.len() == 0,
    ensures
        render_of(raw, glyph_box, advance, lsb, global, m).instructions.len() == raw.len(),
        forall|i: int|
            0 <= i < raw.len() ==> (#[trigger] render_of(
                raw,
                glyph_box,
                advance,
                lsb,
                global,
                m,
            ).instructions[i]).tag_of() == raw[i].tag_of(),
{
    if let Some(b) = glyph_box {
        lemma_order_preserved(raw, b, 1);
    }
}

} // verus!
