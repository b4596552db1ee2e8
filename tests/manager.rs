use wiggly_outline::{
    resolve_miss, FontError, FontManager, InstructionOutlineBuilder, Lookup, OutlineRender, Rect,
};

fn push_u16(v: &mut Vec<u8>, x: u16) {
    v.extend_from_slice(&x.to_be_bytes());
}

fn push_u32(v: &mut Vec<u8>, x: u32) {
    v.extend_from_slice(&x.to_be_bytes());
}

/// A font with only `head`, `hhea` and `maxp`: 1000 units per em, global box
/// (-100, -200, 900, 800), ascender 800, descender -200, no character map and
/// no horizontal metrics.
fn tiny_font() -> Vec<u8> {
    let mut head = Vec::new();
    push_u32(&mut head, 0x0001_0000);
    push_u32(&mut head, 0x0001_0000);
    push_u32(&mut head, 0);
    push_u32(&mut head, 0x5F0F_3CF5);
    push_u16(&mut head, 0);
    push_u16(&mut head, 1000);
    head.extend_from_slice(&[0u8; 16]);
    for x in [-100i16, -200, 900, 800] {
        head.extend_from_slice(&x.to_be_bytes());
    }
    push_u16(&mut head, 0);
    push_u16(&mut head, 8);
    push_u16(&mut head, 2);
    push_u16(&mut head, 0);
    push_u16(&mut head, 0);
    assert_eq!(head.len(), 54);

    let mut hhea = Vec::new();
    push_u32(&mut hhea, 0x0001_0000);
    hhea.extend_from_slice(&800i16.to_be_bytes());
    hhea.extend_from_slice(&(-200i16).to_be_bytes());
    push_u16(&mut hhea, 0);
    hhea.extend_from_slice(&[0u8; 24]);
    push_u16(&mut hhea, 0);
    assert_eq!(hhea.len(), 36);

    let mut maxp = Vec::new();
    push_u32(&mut maxp, 0x0000_5000);
    push_u16(&mut maxp, 5);

    let tables: [(&[u8; 4], &Vec<u8>); 3] = [(b"head", &head), (b"hhea", &hhea), (b"maxp", &maxp)];
    let mut font = Vec::new();
    push_u32(&mut font, 0x0001_0000);
    push_u16(&mut font, 3);
    push_u16(&mut font, 0);
    push_u16(&mut font, 0);
    push_u16(&mut font, 0);
    let mut offset = 12 + 16 * tables.len() as u32;
    for (tag, data) in tables.iter() {
        font.extend_from_slice(&tag[..]);
        push_u32(&mut font, 0);
        push_u32(&mut font, offset);
        push_u32(&mut font, data.len() as u32);
        offset += data.len() as u32;
    }
    for (_, data) in tables.iter() {
        font.extend_from_slice(data);
    }
    font
}

fn events(width: i32) -> InstructionOutlineBuilder {
    let mut b = InstructionOutlineBuilder::new();
    b.move_to(0, 0);
    b.line_to(width, 500);
    b.close();
    b
}

fn ready(r: Result<Lookup, FontError>) -> OutlineRender {
    match r {
        Ok(Lookup::Ready(v)) => v,
        _ => panic!("expected a cached render"),
    }
}

#[test]
fn malformed_font_is_a_load_error() {
    assert!(matches!(FontManager::new(vec![1, 2, 3, 4]), Err(FontError::Load)));
    assert!(matches!(FontManager::new(Vec::new()), Err(FontError::Load)));
}

#[test]
fn font_metrics_are_read() {
    let fm = FontManager::new(tiny_font()).ok().unwrap();
    let m = fm.metrics();
    assert_eq!(m.units_per_em, 1000);
    assert_eq!(m.ascender, 800);
    assert_eq!(m.descender, -200);
    assert_eq!(m.capital_height, 0);
}

#[test]
fn unmapped_character_is_glyph_not_found() {
    let fm = FontManager::new(tiny_font()).ok().unwrap();
    assert!(matches!(fm.outline('A'), Err(FontError::GlyphNotFound('A'))));
    assert!(matches!(fm.outline('\u{7}'), Err(FontError::GlyphNotFound('\u{7}'))));
}

#[test]
fn miss_answers() {
    assert!(matches!(resolve_miss('x', None), Err(FontError::GlyphNotFound('x'))));
    assert!(matches!(resolve_miss('x', Some(42)), Ok(Lookup::Decode(42))));
}

#[test]
fn cached_outline_is_returned_unchanged() {
    let mut fm = FontManager::new(tiny_font()).ok().unwrap();
    let stored = fm.complete('A', 1, &events(400), Some(Rect::new(0, 0, 400, 500))).ok().unwrap();
    let first = ready(fm.outline('A'));
    let second = ready(fm.outline('A'));
    assert_eq!(first.instructions, stored.instructions);
    assert_eq!(second.instructions, first.instructions);
    assert_eq!(second.bbox, first.bbox);
    assert_eq!(second.advance_width, first.advance_width);
    // No horizontal metrics in the font: the advance is the global box width.
    assert_eq!(first.advance_width, 1000);
    assert_eq!(first.bbox.unwrap().width, 400);
    assert_eq!(first.upm, 1000);
    assert_eq!(first.ascender, 800);
    // Other characters are not affected.
    assert!(matches!(fm.outline('b'), Err(FontError::GlyphNotFound('b'))));
}

#[test]
fn string_renders_in_input_order_from_the_cache() {
    let mut fm = FontManager::new(tiny_font()).ok().unwrap();
    fm.complete('A', 1, &events(400), Some(Rect::new(0, 0, 400, 500))).ok().unwrap();
    fm.complete('b', 2, &events(300), Some(Rect::new(0, 0, 300, 500))).ok().unwrap();
    let ab = fm.render_string(&vec!['A', 'b'], 16).ok().unwrap();
    assert_eq!(ab.len(), 2);
    assert_eq!(ab[0].bbox.unwrap().width, 400 * 16);
    assert_eq!(ab[1].bbox.unwrap().width, 300 * 16);
    assert_eq!(ab[0].advance_width, 1000 * 16);
    let ba = fm.render_string(&vec!['b', 'A'], 16).ok().unwrap();
    assert_eq!(ba[0].instructions, ab[1].instructions);
    assert_eq!(ba[1].instructions, ab[0].instructions);
    assert_eq!(ba[0].bbox, ab[1].bbox);
    assert_eq!(ba[1].bbox, ab[0].bbox);
}

#[test]
fn string_with_undecoded_character_names_it() {
    let mut fm = FontManager::new(tiny_font()).ok().unwrap();
    fm.complete('A', 1, &events(400), Some(Rect::new(0, 0, 400, 500))).ok().unwrap();
    assert!(matches!(
        fm.render_string(&vec!['A', 'z', 'q'], 16),
        Err(FontError::NotDecoded('z'))
    ));
    assert_eq!(fm.render_string(&Vec::new(), 16).ok().unwrap().len(), 0);
}

#[test]
fn space_has_no_commands() {
    let mut fm = FontManager::new(tiny_font()).ok().unwrap();
    let r = fm.complete(' ', 3, &InstructionOutlineBuilder::new(), None).ok().unwrap();
    assert!(r.instructions.is_empty());
    assert_eq!(r.bbox, None);
    // Without a horizontal-metrics entry the global box width stands in.
    assert_eq!(r.advance_width, 1000);
}

#[test]
fn partial_outline_is_refused() {
    let mut fm = FontManager::new(tiny_font()).ok().unwrap();
    assert!(matches!(fm.complete('A', 1, &events(400), None), Err(FontError::OutlineFailed('A'))));
    // Nothing was cached.
    assert!(matches!(fm.outline('A'), Err(FontError::GlyphNotFound('A'))));
}

#[test]
fn renders_carry_the_font_metrics() {
    let mut fm = FontManager::new(tiny_font()).ok().unwrap();
    let a = fm.complete('A', 1, &events(400), Some(Rect::new(0, 0, 400, 500))).ok().unwrap();
    let b = fm.complete('b', 2, &events(300), Some(Rect::new(0, 0, 300, 500))).ok().unwrap();
    assert_eq!(a.upm, 1000);
    assert_eq!(a.ascender, 800);
    assert_eq!(a.descender, -200);
    assert_eq!(a.capital_height, 0);
    assert_eq!(b.upm, a.upm);
    assert_eq!(b.ascender, a.ascender);
}
