//! The tight-crop normalisation of a raw outline.
//!
//! Policy: each glyph is mirrored about the top of its own raw bounding box and
//! moved so that the box's left edge lies on `x = 0`. The glyph's top-left
//! corner becomes the origin and Y grows downward. Scaling by the font size is
//! a separate, exact integer multiplication applied afterwards.
use vstd::prelude::*;

use crate::geometry::{point_within, BBox, Point, Rect};
use crate::outline::{
    inverted_point, raw_bound, raw_commands, scaled_point, translated_point, DrawInstruction,
};

verus! {

/// Largest magnitude of a coordinate after cropping a raw outline.
pub open spec fn cropped_bound() -> int {
    0x2_0000_0000
}

/// Largest font size, in pixels, by which a cropped outline is scaled.
pub open spec fn max_scale() -> int {
    0xffff
}

/// Every point of every command lies within the bound of cropped coordinates.
pub open spec fn cropped_commands(s: Seq<DrawInstruction>) -> bool {
    forall|i: int|
        0 <= i < s.len() ==> (#[trigger] s[i]).all_points(
            |p: Point| point_within(p, cropped_bound()),
        )
}

/// A raw point mirrored about the box's top and moved to the box's left edge.
pub open spec fn crop_point(p: Point, b: Rect) -> Point {
    Point { x: (p.x - b.x_min) as i64, y: (b.y_max - p.y) as i64 }
}

/// The full transform of a raw point: crop, then scale by `k`.
pub open spec fn transform_point(p: Point, b: Rect, k: i64) -> Point {
    Point { x: ((p.x - b.x_min) * k) as i64, y: ((b.y_max - p.y) * k) as i64 }
}

pub open spec fn crop_commands(s: Seq<DrawInstruction>, b: Rect) -> Seq<DrawInstruction> {
    s.map_values(|d: DrawInstruction| d.map_points(|p: Point| crop_point(p, b)))
}

pub open spec fn scale_commands(s: Seq<DrawInstruction>, k: i64) -> Seq<DrawInstruction> {
    s.map_values(|d: DrawInstruction| d.map_points(|p: Point| scaled_point(p, k)))
}

pub open spec fn transform_commands(s: Seq<DrawInstruction>, b: Rect, k: i64) -> Seq<
    DrawInstruction,
> {
    s.map_values(|d: DrawInstruction| d.map_points(|p: Point| transform_point(p, b, k)))
}

/// The raw box re-expressed in cropped space.
pub open spec fn crop_box(b: Rect) -> BBox {
    BBox { x: 0, y: 0, width: b.spec_width() as i64, height: b.spec_height() as i64 }
}

pub open spec fn scale_box(bb: BBox, k: i64) -> BBox {
    BBox {
        x: (bb.x * k) as i64,
        y: (bb.y * k) as i64,
        width: (bb.width * k) as i64,
        height: (bb.height * k) as i64,
    }
}

pub open spec fn box_within(bb: BBox, bound: int) -> bool {
    -bound <= bb.x <= bound && -bound <= bb.y <= bound && -bound <= bb.width <= bound && -bound
        <= bb.height <= bound
}

proof fn lemma_points_of_map(d: DrawInstruction, f: spec_fn(Point) -> Point)
    ensures
        d.map_points(f).points() == d.points().map_values(f),
{
    assert(d.map_points(f).points() =~= d.points().map_values(f));
}

proof fn lemma_scaled_fits(v: int, k: int)
    requires
        -cropped_bound() <= v <= cropped_bound(),
        0 <= k <= max_scale(),
    ensures
        -cropped_bound() * max_scale() <= v * k <= cropped_bound() * max_scale(),
{
    assert(-cropped_bound() * max_scale() <= v * k <= cropped_bound() * max_scale())
        by (nonlinear_arith)
        requires
            -cropped_bound() <= v <= cropped_bound(),
            0 <= k <= max_scale(),
    ;
}

fn crop_instruction(d: DrawInstruction, b: &Rect) -> (r: DrawInstruction)
    requires
        d.all_points(|p: Point| point_within(p, raw_bound())),
    ensures
        r == d.map_points(|p: Point| crop_point(p, *b)),
        r.all_points(|p: Point| point_within(p, cropped_bound())),
{
    let left = b.x_min as i64;
    let top = b.y_max as i64;
    proof {
        lemma_points_of_map(d, |p: Point| crop_point(p, *b));
    }
    match d {
        DrawInstruction::MoveTo(p) => {
            assert(d.points()[0] == p);
            DrawInstruction::MoveTo(Point::new(p.x - left, top - p.y))
        },
        DrawInstruction::LineTo(p) => {
            assert(d.points()[0] == p);
            DrawInstruction::LineTo(Point::new(p.x - left, top - p.y))
        },
        DrawInstruction::QuadTo(c, p) => {
            assert(d.points()[0] == c);
            assert(d.points()[1] == p);
            DrawInstruction::QuadTo(
                Point::new(c.x - left, top - c.y),
                Point::new(p.x - left, top - p.y),
            )
        },
        DrawInstruction::CurveTo(c1, c2, p) => {
            assert(d.points()[0] == c1);
            assert(d.points()[1] == c2);
            assert(d.points()[2] == p);
            DrawInstruction::CurveTo(
                Point::new(c1.x - left, top - c1.y),
                Point::new(c2.x - left, top - c2.y),
                Point::new(p.x - left, top - p.y),
            )
        },
        DrawInstruction::Close => DrawInstruction::Close,
    }
}

/// Crops every command of a raw outline: mirrored about `b.y_max`, moved by `-b.x_min`.
pub fn crop_instructions(raw: &Vec<DrawInstruction>, b: &Rect) -> (r: Vec<DrawInstruction>)
    requires
        raw_commands(raw@),
    ensures
        r@ == crop_commands(raw@, *b),
        cropped_commands(r@),
{
    let mut out: Vec<DrawInstruction> = Vec::new();
    let mut i: usize = 0;
    while i < raw.len()
        invariant
            i <= raw@.len(),
            raw_commands(raw@),
            out@ == crop_commands(raw@.take(i as int), *b),
            cropped_commands(out@),
        decreases raw@.len() - i,
    {
        let c = crop_instruction(raw[i], b);
        out.push(c);
        proof {
            assert(raw@.take(i + 1) == raw@.take(i as int).push(raw@[i as int]));
            assert(crop_commands(raw@.take(i + 1), *b) =~= crop_commands(raw@.take(i as int), *b).push(c));
        }
        i = i + 1;
    }
    assert(raw@.take(i as int) == raw@);
    out
}

/// Multiplies every point of a cropped outline by the font size `k`.
pub fn scale_instructions(cmds: &Vec<DrawInstruction>, k: u16) -> (r: Vec<DrawInstruction>)
    requires
        cropped_commands(cmds@),
    ensures
        r@ == scale_commands(cmds@, k as i64),
{
    let mut out: Vec<DrawInstruction> = Vec::new();
    let mut i: usize = 0;
    while i < cmds.len()
        invariant
            i <= cmds@.len(),
            cropped_commands(cmds@),
            out@ == scale_commands(cmds@.take(i as int), k as i64),
        decreases cmds@.len() - i,
    {
        let mut d = cmds[i];
        proof {
            assert(cmds@[i as int].all_points(|p: Point| point_within(p, cropped_bound())));
            assert forall|j: int| 0 <= j < d.points().len() implies ({
                let p = #[trigger] d.points()[j];
                i64::MIN <= p.x * k <= i64::MAX && i64::MIN <= p.y * k <= i64::MAX
            }) by {
                let p = d.points()[j];
                assert(point_within(p, cropped_bound()));
                lemma_scaled_fits(p.x as int, k as int);
                lemma_scaled_fits(p.y as int, k as int);
            }
        }
        d.scale(k as i64);
        out.push(d);
        proof {
            assert(cmds@.take(i + 1) == cmds@.take(i as int).push(cmds@[i as int]));
            assert(scale_commands(cmds@.take(i + 1), k as i64) =~= scale_commands(
                cmds@.take(i as int),
                k as i64,
            ).push(d));
        }
        i = i + 1;
    }
    assert(cmds@.take(i as int) == cmds@);
    out
}

/// The raw box re-expressed in cropped space: origin at zero, same size.
pub fn crop_bbox(b: &Rect) -> (r: BBox)
    ensures
        r == crop_box(*b),
{
    BBox { x: 0, y: 0, width: b.width() as i64, height: b.height() as i64 }
}

/// Scales a cropped box by the font size `k`.
pub fn scale_bbox(bb: &BBox, k: u16) -> (r: BBox)
    requires
        box_within(*bb, cropped_bound()),
    ensures
        r == scale_box(*bb, k as i64),
{
    proof {
        lemma_scaled_fits(bb.x as int, k as int);
        lemma_scaled_fits(bb.y as int, k as int);
        lemma_scaled_fits(bb.width as int, k as int);
        lemma_scaled_fits(bb.height as int, k as int);
    }
    let k = k as i64;
    BBox { x: bb.x * k, y: bb.y * k, width: bb.width * k, height: bb.height * k }
}

proof fn lemma_map_keeps_tag(d: DrawInstruction, f: spec_fn(Point) -> Point)
    ensures
        d.map_points(f).tag_of() == d.tag_of(),
{
}

proof fn lemma_compose_command(d: DrawInstruction, b: Rect, k: i64)
    requires
        d.all_points(|p: Point| point_within(p, raw_bound())),
    ensures
        d.map_points(|p: Point| crop_point(p, b)).map_points(|p: Point| scaled_point(p, k))
            == d.map_points(|p: Point| transform_point(p, b, k)),
{
    let n = d.points().len();
    assert forall|j: int| 0 <= j < n implies scaled_point(crop_point(#[trigger] d.points()[j], b), k)
        == transform_point(d.points()[j], b, k) by {
        assert(point_within(d.points()[j], raw_bound()));
    }
    match d {
        DrawInstruction::MoveTo(p) => {
            assert(d.points()[0] == p);
        },
        DrawInstruction::LineTo(p) => {
            assert(d.points()[0] == p);
        },
        DrawInstruction::QuadTo(c, p) => {
            assert(d.points()[0] == c);
            assert(d.points()[1] == p);
        },
        DrawInstruction::CurveTo(c1, c2, p) => {
            assert(d.points()[0] == c1);
            assert(d.points()[1] == c2);
            assert(d.points()[2] == p);
        },
        DrawInstruction::Close => {},
    }
}

/// The transform keeps the recorded path order: one output command per input
/// command, at the same position, of the same kind, none dropped or added
/// (`Close` included).
pub proof fn lemma_order_preserved(raw: Seq<DrawInstruction>, b: Rect, k: i64)
    ensures
        crop_commands(raw, b).len() == raw.len(),
        transform_commands(raw, b, k).len() == raw.len(),
        forall|i: int|
            0 <= i < raw.len() ==> (#[trigger] crop_commands(raw, b)[i]).tag_of() == raw[i].tag_of()
                && transform_commands(raw, b, k)[i].tag_of() == raw[i].tag_of(),
{
    assert forall|i: int| 0 <= i < raw.len() implies (#[trigger] crop_commands(
        raw,
        b,
    )[i]).tag_of() == raw[i].tag_of() && transform_commands(raw, b, k)[i].tag_of()
        == raw[i].tag_of() by {
        lemma_map_keeps_tag(raw[i], |p: Point| crop_point(p, b));
        lemma_map_keeps_tag(raw[i], |p: Point| transform_point(p, b, k));
    }
}

/// Cropping and then scaling by `k` is the single transform that maps every
/// raw point `p` (control points included) to
/// `((p.x - b.x_min) * k, (b.y_max - p.y) * k)`.
pub proof fn lemma_transform_composition(raw: Seq<DrawInstruction>, b: Rect, k: i64)
    requires
        raw_commands(raw),
    ensures
        scale_commands(crop_commands(raw, b), k) == transform_commands(raw, b, k),
{
    assert forall|i: int| 0 <= i < raw.len() implies #[trigger] scale_commands(
        crop_commands(raw, b),
        k,
    )[i] == transform_commands(raw, b, k)[i] by {
        lemma_compose_command(raw[i], b, k);
    }
    assert(scale_commands(crop_commands(raw, b), k) =~= transform_commands(raw, b, k));
}

/// After the transform the box starts at the origin and its size is the raw
/// size times `k`; the raw box's top-left corner goes to the origin and its
/// bottom-right corner to `(width * k, height * k)`.
pub proof fn lemma_bbox_rederived(b: Rect, k: i64)
    requires
        0 <= k <= max_scale(),
    ensures
        scale_box(crop_box(b), k) == (BBox {
            x: 0,
            y: 0,
            width: (b.spec_width() * k) as i64,
            height: (b.spec_height() * k) as i64,
        }),
        transform_point(Point { x: b.x_min as i64, y: b.y_max as i64 }, b, k) == Point::zero_spec(),
        transform_point(Point { x: b.x_max as i64, y: b.y_min as i64 }, b, k) == (Point {
            x: (b.spec_width() * k) as i64,
            y: (b.spec_height() * k) as i64,
        }),
{
    assert(0 * (k as int) == 0) by (nonlinear_arith);
}

/// On one raw command, `translate` by `(-b.x_min, 0)`, then `invert_y` about
/// `b.y_max`, then `scale` by `k` is the transform of each of its points,
/// control points included, and keeps its kind.
pub proof fn lemma_instruction_chain(d: DrawInstruction, b: Rect, k: i64)
    requires
        d.all_points(|p: Point| point_within(p, raw_bound())),
    ensures
        d.map_points(|p: Point| translated_point(p, Point { x: -b.x_min as i64, y: 0 })).map_points(
            |p: Point| inverted_point(p, b.y_max as i64),
        ).map_points(|p: Point| scaled_point(p, k)) == d.map_points(
            |p: Point| transform_point(p, b, k),
        ),
        d.map_points(|p: Point| transform_point(p, b, k)).tag_of() == d.tag_of(),
{
    let delta = Point { x: -b.x_min as i64, y: 0 };
    let n = d.points().len();
    assert forall|j: int| 0 <= j < n implies scaled_point(
        inverted_point(translated_point(#[trigger] d.points()[j], delta), b.y_max as i64),
        k,
    ) == transform_point(d.points()[j], b, k) by {
        assert(point_within(d.points()[j], raw_bound()));
    }
    match d {
        DrawInstruction::MoveTo(p) => {
            assert(d.points()[0] == p);
        },
        DrawInstruction::LineTo(p) => {
            assert(d.points()[0] == p);
        },
        DrawInstruction::QuadTo(c, p) => {
            assert(d.points()[0] == c);
            assert(d.points()[1] == p);
        },
        DrawInstruction::CurveTo(c1, c2, p) => {
            assert(d.points()[0] == c1);
            assert(d.points()[1] == c2);
            assert(d.points()[2] == p);
        },
        DrawInstruction::Close => {},
    }
}

} // verus!
