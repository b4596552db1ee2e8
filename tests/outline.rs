use wiggly_outline::transform::{crop_bbox, crop_instructions, scale_bbox, scale_instructions};
use wiggly_outline::{
    BBox, DrawInstruction, DrawInstructionTag, FontMetrics, InstructionOutlineBuilder,
    OutlineRender, Point, Rect,
};

fn metrics() -> FontMetrics {
    FontMetrics { units_per_em: 1000, capital_height: 700, ascender: 800, descender: -200 }
}

fn letter_h() -> InstructionOutlineBuilder {
    let mut b = InstructionOutlineBuilder::new();
    b.move_to(50, 700);
    b.line_to(50, 0);
    b.quad_to(350, 350, 650, 0);
    b.curve_to(650, 200, 600, 500, 650, 700);
    b.close();
    b
}

#[test]
fn builder_records_events_in_order() {
    let b = letter_h();
    let tags: Vec<DrawInstructionTag> = b.instructions().iter().map(|d| d.tag()).collect();
    assert_eq!(
        tags,
        vec![
            DrawInstructionTag::MoveTo,
            DrawInstructionTag::LineTo,
            DrawInstructionTag::QuadTo,
            DrawInstructionTag::CurveTo,
            DrawInstructionTag::Close,
        ]
    );
    assert_eq!(b.instructions()[2], DrawInstruction::QuadTo(Point::new(350, 350), Point::new(650, 0)));
}

#[test]
fn empty_builder_has_no_commands() {
    let b = InstructionOutlineBuilder::new();
    assert!(b.instructions().is_empty());
}

#[test]
fn transform_keeps_order_and_maps_every_point() {
    let b = letter_h();
    let r = Rect::new(50, 0, 650, 700);
    let cropped = crop_instructions(b.instructions(), &r);
    let scaled = scale_instructions(&cropped, 16);
    // (p.x - 50) * 16, (700 - p.y) * 16, control points included.
    assert_eq!(
        scaled,
        vec![
            DrawInstruction::MoveTo(Point::new(0, 0)),
            DrawInstruction::LineTo(Point::new(0, 11200)),
            DrawInstruction::QuadTo(Point::new(4800, 5600), Point::new(9600, 11200)),
            DrawInstruction::CurveTo(Point::new(9600, 8000), Point::new(8800, 3200), Point::new(9600, 0)),
            DrawInstruction::Close,
        ]
    );
}

#[test]
fn letter_h_at_sixteen_pixels() {
    let b = letter_h();
    let glyph_box = Rect::new(50, 0, 650, 700);
    let global = Rect::new(-100, -200, 900, 800);
    let r = OutlineRender::assemble(b.instructions(), Some(glyph_box), Some(700), Some(50), global, metrics());
    assert_eq!(r.bbox, Some(BBox { x: 0, y: 0, width: 600, height: 700 }));
    assert_eq!(r.scale, 1);
    let s = r.scaled(16);
    // Units of 1/1000 pixel: 600 * 16 / 1000 = 9.6 px wide, 700 * 16 / 1000 = 11.2 px high.
    assert_eq!(s.bbox, Some(BBox { x: 0, y: 0, width: 9600, height: 11200 }));
    assert_eq!(s.scale, 16);
    assert_eq!(s.upm, 1000);
    assert_eq!(s.advance_width, 700 * 16);
    assert_eq!(s.lsb, 50 * 16);
    // The top of the glyph maps to y = 0, its bottom to the scaled height.
    assert_eq!(s.instructions[0], DrawInstruction::MoveTo(Point::new(0, 0)));
    assert_eq!(s.instructions[1], DrawInstruction::LineTo(Point::new(0, 11200)));
    let w = s.bbox.unwrap().width as f64 / s.upm as f64;
    assert!((w - 9.6).abs() < 1e-9);
    assert_eq!(s.ascender, 800);
    assert_eq!(s.capital_height, 700);
    assert_eq!(s.descender, -200);
}

#[test]
fn bbox_rederived_at_origin() {
    let bb = crop_bbox(&Rect::new(-30, -250, 470, 510));
    assert_eq!(bb, BBox { x: 0, y: 0, width: 500, height: 760 });
    assert_eq!(scale_bbox(&bb, 12), BBox { x: 0, y: 0, width: 6000, height: 9120 });
}

#[test]
fn glyph_without_contours() {
    let b = InstructionOutlineBuilder::new();
    let global = Rect::new(-100, -200, 900, 800);
    let r = OutlineRender::assemble(b.instructions(), None, Some(260), None, global, metrics());
    assert!(r.instructions.is_empty());
    assert_eq!(r.bbox, None);
    assert_eq!(r.advance_width, 260);
    assert_eq!(r.lsb, 0);
}

#[test]
fn advance_fallback_is_the_global_box_width() {
    let b = letter_h();
    let global = Rect::new(-100, -200, 900, 800);
    let r = OutlineRender::assemble(b.instructions(), Some(Rect::new(50, 0, 650, 700)), None, None, global, metrics());
    assert_eq!(r.advance_width, 1000);
    let narrow = Rect::new(0, 0, 20, 10);
    let r = OutlineRender::assemble(b.instructions(), Some(Rect::new(0, 0, 10, 10)), None, None, narrow, metrics());
    assert_eq!(r.advance_width, 20);
}

#[test]
fn advance_falls_back_to_global_box_width() {
    let b = InstructionOutlineBuilder::new();
    let global = Rect::new(-100, -200, 900, 800);
    let r = OutlineRender::assemble(b.instructions(), None, None, None, global, metrics());
    assert_eq!(r.advance_width, 1000);
}

#[test]
fn advance_fallback_never_negative() {
    let b = InstructionOutlineBuilder::new();
    let global = Rect::new(900, 0, -100, 10);
    let r = OutlineRender::assemble(b.instructions(), None, None, None, global, metrics());
    assert_eq!(r.advance_width, 0);
}

#[test]
fn duplicate_is_value_equal() {
    let b = letter_h();
    let r = OutlineRender::assemble(b.instructions(), Some(Rect::new(50, 0, 650, 700)), Some(700), Some(50), Rect::new(0, 0, 1, 1), metrics());
    let d = r.duplicate();
    assert_eq!(d.instructions, r.instructions);
    assert_eq!(d.bbox, r.bbox);
    assert_eq!(d.advance_width, r.advance_width);
}

#[test]
fn largest_scale() {
    let mut b = InstructionOutlineBuilder::new();
    b.move_to(i32::MIN, i32::MAX);
    let r = Rect::new(32767, -32768, -32768, 32767);
    let cropped = crop_instructions(b.instructions(), &r);
    let scaled = scale_instructions(&cropped, u16::MAX);
    let x = (i32::MIN as i64 - 32767) * 65535;
    let y = (32767 - i32::MAX as i64) * 65535;
    assert_eq!(scaled, vec![DrawInstruction::MoveTo(Point::new(x, y))]);
}
