use rg3d_ui::brush::{Brush, Color};
use rg3d_ui::font::{Font, Glyph};
use rg3d_ui::formatted_text::{FormattedText, FormattedTextBuilder, TextLine};
use rg3d_ui::math::{Constraint, Extent, Vec2};
use rg3d_ui::{HorizontalAlignment, VerticalAlignment};
use std::sync::Arc;

fn quad(base: i64) -> [Vec2; 4] {
    [
        Vec2::new(base, 0),
        Vec2::new(base + 8, 0),
        Vec2::new(base + 8, 9),
        Vec2::new(base, 9),
    ]
}

fn glyph(advance: u16, outline: bool, base: i64) -> Glyph {
    Glyph {
        advance,
        has_outline: outline,
        bitmap_left: 1,
        bitmap_top: 2,
        bitmap_width: 8,
        bitmap_height: 9,
        tex_coords: quad(base),
    }
}

/// Height 16, ascender 12; letters advance 10, except 'b' (12) and ' ' (5,
/// nothing drawn).
fn test_font() -> Arc<Font> {
    let mut font = Font::new(16, 12);
    for c in "aHelocdefgx".chars() {
        font.add_glyph(c as u32, glyph(10, true, c as i64));
    }
    font.add_glyph('b' as u32, glyph(12, true, 'b' as i64));
    font.add_glyph(' ' as u32, glyph(5, false, 0));
    Arc::new(font)
}

fn text_with(s: &str, wrap: bool, constraint: Constraint) -> FormattedText {
    FormattedTextBuilder::new()
        .with_font(test_font())
        .with_text(s.to_string())
        .with_wrap(wrap)
        .with_constraint(constraint)
        .build()
}

fn ranges(lines: &[TextLine]) -> Vec<(usize, usize)> {
    lines.iter().map(|l| (l.begin, l.end)).collect()
}

#[test]
fn text_round_trips_through_set_text() {
    let mut t = FormattedTextBuilder::new().build();
    let s = "héllo, wörld ✓ 🌍\r\n";
    t.set_text(s);
    assert_eq!(t.text(), s);
    assert_eq!(t.get_raw_text().len(), s.chars().count());
    assert_eq!(t.get_raw_text()[1], 'é' as u32);
}

#[test]
fn builder_text_is_stored_as_code_points() {
    let t = FormattedTextBuilder::new().with_text("a€".to_string()).build();
    assert_eq!(t.get_raw_text(), &[97u32, 0x20AC][..]);
    assert_eq!(t.text(), "a€");
}

#[test]
fn build_twice_gives_same_layout() {
    let mut t = text_with("ab cd\nefg", true, Constraint::new(Extent::Finite(25), Extent::Finite(100)));
    let s1 = t.build();
    let lines1: Vec<TextLine> = t.get_lines().to_vec();
    let glyphs1: Vec<_> = t.get_glyphs().iter().map(|g| (g.get_bounds(), *g.get_tex_coords())).collect();
    let s2 = t.build();
    assert_eq!(s1, s2);
    assert_eq!(lines1, t.get_lines().to_vec());
    let glyphs2: Vec<_> = t.get_glyphs().iter().map(|g| (g.get_bounds(), *g.get_tex_coords())).collect();
    assert_eq!(glyphs1, glyphs2);
}

#[test]
fn lines_cover_everything_but_line_breaks() {
    let s = "ab\ncd\r\n\nef";
    let mut t = text_with(s, false, Constraint::unbounded());
    t.build();
    let lines = t.get_lines();
    assert_eq!(ranges(lines), vec![(0, 2), (3, 5), (6, 6), (7, 7), (8, 10)]);
    let codes = t.get_raw_text();
    for i in 0..codes.len() {
        let covered = lines.iter().filter(|l| l.begin <= i && i < l.end).count();
        let is_break = codes[i] == 10 || codes[i] == 13;
        assert_eq!(covered, if is_break { 0 } else { 1 });
    }
    for w in lines.windows(2) {
        assert!(w[0].end <= w[1].begin);
    }
}

#[test]
fn single_line_without_wrap() {
    let mut t = text_with("Hello", false, Constraint::unbounded());
    let size = t.build();
    assert_eq!(ranges(t.get_lines()), vec![(0, 5)]);
    assert_eq!(t.get_lines()[0].width, 50);
    assert_eq!(size, Vec2::new(50, 12));
}

#[test]
fn explicit_line_break() {
    let mut t = text_with("ab\ncd", false, Constraint::unbounded());
    let size = t.build();
    let lines = t.get_lines();
    assert_eq!(ranges(lines), vec![(0, 2), (3, 5)]);
    assert_eq!(lines[0].width, 22);
    assert_eq!(lines[1].width, 20);
    assert_eq!(lines[0].y_offset, 0);
    assert_eq!(lines[1].y_offset, 12);
    assert!(lines.iter().all(|l| l.height == 12));
    assert_eq!(size, Vec2::new(22, 24));
}

#[test]
fn trailing_line_break_adds_no_empty_line() {
    let mut t = text_with("ab\n", false, Constraint::unbounded());
    t.build();
    assert_eq!(ranges(t.get_lines()), vec![(0, 2)]);
}

#[test]
fn wrap_moves_second_char_to_new_line() {
    // 'a' advances 10 and 'b' 12: together 22, more than 15.
    let mut t = text_with("ab", true, Constraint::new(Extent::Finite(15), Extent::Infinite));
    t.build();
    let lines = t.get_lines();
    assert_eq!(ranges(lines), vec![(0, 1), (1, 2)]);
    assert_eq!(lines[0].width, 10);
    assert_eq!(lines[1].width, 12);
}

#[test]
fn wrap_with_room_too_small_for_first_char() {
    let mut t = text_with("ab", true, Constraint::new(Extent::Finite(5), Extent::Infinite));
    t.build();
    assert_eq!(ranges(t.get_lines()), vec![(0, 0), (0, 1), (1, 2)]);
    assert_eq!(t.get_lines()[2].width, 12);
}

#[test]
fn wrap_is_ignored_without_width_limit() {
    let mut t = text_with("aaaaaaaa", true, Constraint::unbounded());
    t.build();
    assert_eq!(ranges(t.get_lines()), vec![(0, 8)]);
}

#[test]
fn unmapped_code_point_gets_fallback_glyph() {
    let mut t = text_with("zA", false, Constraint::unbounded());
    let size = t.build();
    let glyphs = t.get_glyphs();
    assert_eq!(glyphs.len(), 2);
    for (k, g) in glyphs.iter().enumerate() {
        assert_eq!(*g.get_tex_coords(), [Vec2::zero(); 4]);
        let b = g.get_bounds();
        assert_eq!((b.x, b.y, b.w, b.h), (16 * k as i64, 12, 16, 16));
    }
    assert_eq!(t.get_lines()[0].width, 32);
    assert_eq!(size, Vec2::new(32, 12));
}

#[test]
fn outlined_glyph_is_placed_from_its_metrics() {
    let mut t = text_with("a b", false, Constraint::unbounded());
    t.build();
    let glyphs = t.get_glyphs();
    // The space draws nothing but moves the pen by 5.
    assert_eq!(glyphs.len(), 2);
    let a = glyphs[0].get_bounds();
    assert_eq!((a.x, a.y, a.w, a.h), (1, 12 - 2 - 9, 8, 9));
    assert_eq!(*glyphs[0].get_tex_coords(), quad('a' as i64));
    let b = glyphs[1].get_bounds();
    assert_eq!(b.x, 10 + 5 + 1);
    assert_eq!(*glyphs[1].get_tex_coords(), quad('b' as i64));
}

#[test]
fn center_alignment_splits_leftover_width() {
    let mut t = text_with("ab", false, Constraint::new(Extent::Finite(100), Extent::Infinite));
    t.set_horizontal_alignment(HorizontalAlignment::Center);
    t.build();
    let line = t.get_lines()[0];
    assert_eq!(line.width, 22);
    assert_eq!(line.x_offset, (100 - 22) / 2);
    assert_eq!(t.get_glyphs()[0].get_bounds().x, 39 + 1);
}

#[test]
fn center_alignment_rounds_down() {
    let mut t = text_with("a", false, Constraint::new(Extent::Finite(15), Extent::Infinite));
    t.set_horizontal_alignment(HorizontalAlignment::Center);
    t.build();
    assert_eq!(t.get_lines()[0].x_offset, 2);
    let mut t = text_with("ab", false, Constraint::new(Extent::Finite(17), Extent::Infinite));
    t.set_horizontal_alignment(HorizontalAlignment::Center);
    t.build();
    assert_eq!(t.get_lines()[0].x_offset, -3);
}

#[test]
fn right_and_stretch_alignment() {
    let mut t = text_with("ab\na", false, Constraint::new(Extent::Finite(50), Extent::Infinite));
    t.set_horizontal_alignment(HorizontalAlignment::Right);
    t.build();
    let offsets: Vec<i64> = t.get_lines().iter().map(|l| l.x_offset).collect();
    assert_eq!(offsets, vec![28, 40]);
    t.set_horizontal_alignment(HorizontalAlignment::Stretch);
    t.build();
    assert!(t.get_lines().iter().all(|l| l.x_offset == 0));
}

#[test]
fn alignment_ignores_unbounded_axes() {
    let mut t = text_with("ab", false, Constraint::unbounded());
    t.set_horizontal_alignment(HorizontalAlignment::Right);
    t.set_vertical_alignment(VerticalAlignment::Bottom);
    t.build();
    assert_eq!(t.get_lines()[0].x_offset, 0);
    assert_eq!(t.get_lines()[0].y_offset, 0);
}

#[test]
fn vertical_alignment_moves_the_block() {
    let mut t = text_with("a\nb", false, Constraint::new(Extent::Finite(100), Extent::Finite(100)));
    t.set_vertical_alignment(VerticalAlignment::Bottom);
    t.build();
    let ys: Vec<i64> = t.get_lines().iter().map(|l| l.y_offset).collect();
    assert_eq!(ys, vec![76, 88]);
    t.set_vertical_alignment(VerticalAlignment::Center);
    t.build();
    let ys: Vec<i64> = t.get_lines().iter().map(|l| l.y_offset).collect();
    assert_eq!(ys, vec![38, 50]);
    assert_eq!(t.get_glyphs()[1].get_bounds().y, 50 + 12 - 2 - 9);
}

#[test]
fn no_font_measures_zero() {
    let mut t = FormattedTextBuilder::new().with_text("some text\nhere".to_string()).build();
    assert_eq!(t.build(), Vec2::zero());
    assert!(t.get_lines().is_empty());
    assert!(t.get_glyphs().is_empty());
    assert!(t.get_font().is_none());
}

#[test]
fn empty_text_has_no_lines() {
    let mut t = text_with("", true, Constraint::unbounded());
    assert_eq!(t.build(), Vec2::zero());
    assert!(t.get_lines().is_empty());
}

#[test]
fn rebuild_replaces_previous_layout() {
    let mut t = text_with("ab\ncd\nef", false, Constraint::unbounded());
    t.build();
    assert_eq!(t.get_lines().len(), 3);
    t.set_text("x");
    t.build();
    assert_eq!(ranges(t.get_lines()), vec![(0, 1)]);
    assert_eq!(t.get_glyphs().len(), 1);
}

#[test]
fn insert_and_remove_code_points() {
    let mut t = FormattedTextBuilder::new().with_text("ac".to_string()).build();
    t.insert_char('b', 1);
    assert_eq!(t.text(), "abc");
    t.insert_char('d', 3);
    assert_eq!(t.text(), "abcd");
    t.insert_char('_', 0);
    assert_eq!(t.text(), "_abcd");
    t.remove_at(0).remove_at(3);
    assert_eq!(t.text(), "abc");
}

#[test]
fn range_width_sums_advances() {
    let t = text_with("abz", false, Constraint::unbounded());
    assert_eq!(t.get_range_width(0..3), 10 + 12 + 16);
    assert_eq!(t.get_range_width(1..2), 12);
    assert_eq!(t.get_range_width(2..2), 0);
    let plain = FormattedTextBuilder::new().with_text("abz".to_string()).build();
    assert_eq!(plain.get_range_width(0..3), 0);
}

#[test]
fn builder_defaults() {
    let t = FormattedTextBuilder::new().build();
    assert_eq!(t.horizontal_alignment(), HorizontalAlignment::Left);
    assert_eq!(t.vertical_alignment(), VerticalAlignment::Top);
    assert!(!t.is_wrap());
    assert_eq!(t.text(), "");
    match t.brush() {
        Brush::Solid(c) => assert_eq!(c, Color::white()),
        _ => panic!("expected a solid brush"),
    }
}

#[test]
fn setters_replace_configuration() {
    let mut t = FormattedTextBuilder::default().build();
    t.set_font(test_font())
        .set_wrap(true)
        .set_brush(Brush::Solid(Color::opaque(1, 2, 3)))
        .set_constraint(Constraint::new(Extent::Finite(15), Extent::Infinite))
        .set_text("ab");
    assert!(t.is_wrap());
    match t.brush() {
        Brush::Solid(c) => assert_eq!(c, Color::opaque(1, 2, 3)),
        _ => panic!("expected a solid brush"),
    }
    let font = t.get_font().expect("font was set");
    assert_eq!(font.get_height(), 16);
    t.build();
    assert_eq!(t.get_lines().len(), 2);
}

#[test]
fn font_lookup() {
    let font = test_font();
    assert_eq!(font.get_glyph('b' as u32).map(|g| g.advance), Some(12));
    assert!(font.get_glyph('z' as u32).is_none());
    assert_eq!(font.get_glyph_advance('z' as u32), 16);
    assert_eq!(font.get_glyph_advance('a' as u32), 10);
    assert_eq!(font.get_ascender(), 12);
}

#[test]
fn text_line_length() {
    let l = TextLine { begin: 3, end: 7, width: 0, height: 0, x_offset: 0, y_offset: 0 };
    assert_eq!(l.len(), 4);
    assert!(!l.is_empty());
    let e = TextLine { begin: 2, end: 2, ..l };
    assert!(e.is_empty());
}
