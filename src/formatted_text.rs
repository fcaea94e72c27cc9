//! Text layout: a code-point buffer, line breaking, alignment and glyph
//! placement against a font.
use vstd::prelude::*;
use vstd::utf8::is_scalar;
use crate::brush::{Brush, BrushView, Color};
use crate::font::{advance_of, Font, FontView};
use crate::math::{Constraint, Extent, Rect, Vec2};
use crate::{HorizontalAlignment, VerticalAlignment};
use std::ops::Range;
use std::sync::Arc;

verus! {

/// A placed glyph: where it is drawn, relative to the text block's origin,
/// and which quad of the font atlas it shows.
#[derive(Clone, Copy, Debug)]
pub struct TextGlyph {
    pub bounds: Rect,
    pub tex_coords: [Vec2; 4],
}

impl TextGlyph {
    pub fn get_bounds(&self) -> (r: Rect)
        ensures
            r == self.bounds,
    {
        self.bounds
    }

    pub fn get_tex_coords(&self) -> (r: &[Vec2; 4])
        ensures
            *r == self.tex_coords,
    {
        &self.tex_coords
    }
}

/// One line of formatted text.
#[derive(Clone, Copy, Debug, PartialEq, Eq, Structural)]
pub struct TextLine {
    /// Index of the first code point of the line.
    pub begin: usize,
    /// Index one past the last code point of the line.
    pub end: usize,
    /// Sum of the advances of the line's code points.
    pub width: i64,
    /// Height of the line: the font's ascender.
    pub height: i64,
    /// Horizontal position of the line within the block.
    pub x_offset: i64,
    /// Vertical position of the line within the block.
    pub y_offset: i64,
}

impl TextLine {
    fn new() -> (r: TextLine)
        ensures
            r == (TextLine { begin: 0, end: 0, width: 0, height: 0, x_offset: 0, y_offset: 0 }),
    {
        TextLine { begin: 0, end: 0, width: 0, height: 0, x_offset: 0, y_offset: 0 }
    }

    pub fn len(&self) -> (r: usize)
        requires
            self.begin <= self.end,
        ensures
            r == self.end - self.begin,
    {
        self.end - self.begin
    }

    pub fn is_empty(&self) -> (r: bool)
        ensures
            r == (self.end == self.begin),
    {
        self.end == self.begin
    }
}

/// Line feed and carriage return end a line and belong to none.
pub open spec fn is_line_break(code: u32) -> bool {
    code == 10 || code == 13
}

/// What `text()` gives for stored code points: each valid scalar value as its
/// character, anything else left out.
pub open spec fn decode(codes: Seq<u32>) -> Seq<char>
    decreases codes.len(),
{
    if codes.len() == 0 {
        Seq::empty()
    } else {
        let rest = decode(codes.drop_last());
        let c = codes.last();
        if is_scalar(c) {
            rest.push(c as char)
        } else {
            rest
        }
    }
}

/// Code points of a string, in order.
pub open spec fn encode(s: Seq<char>) -> Seq<u32> {
    s.map_values(|c: char| c as u32)
}

/// Sum of the advances of the code points at `[begin, end)`.
pub open spec fn range_width(text: Seq<u32>, font: FontView, begin: int, end: int) -> int
    decreases end - begin,
{
    if end <= begin {
        0
    } else {
        range_width(text, font, begin, end - 1) + advance_of(font, text[end - 1])
    }
}

/// Whether a line of width `width` does not fit in `limit`.
pub open spec fn exceeds(width: int, limit: Extent) -> bool {
    match limit {
        Extent::Finite(x) => width > x as int,
        Extent::Infinite => false,
    }
}

/// A line as the breaker delimits it: the range `[begin, end)` and its width.
pub struct Span {
    pub begin: int,
    pub end: int,
    pub width: int,
}

/// The breaker after a prefix of the text: the lines it has closed, and the
/// start and width of the line it is filling.
pub struct BreakState {
    pub lines: Seq<Span>,
    pub begin: int,
    pub width: int,
}

/// The breaker takes code point `code`, at index `i`, of advance `advance`.
pub open spec fn break_step(
    st: BreakState,
    i: int,
    code: u32,
    advance: int,
    wrap: bool,
    limit: Extent,
) -> BreakState {
    if is_line_break(code) {
        BreakState {
            lines: st.lines.push(Span { begin: st.begin, end: i, width: st.width }),
            begin: i + 1,
            width: 0,
        }
    } else if wrap && exceeds(st.width + advance, limit) {
        BreakState {
            lines: st.lines.push(Span { begin: st.begin, end: i, width: st.width }),
            begin: i,
            width: advance,
        }
    } else {
        BreakState { lines: st.lines, begin: st.begin, width: st.width + advance }
    }
}

/// The breaker after the first `n` code points of `text`.
pub open spec fn break_prefix(
    text: Seq<u32>,
    font: FontView,
    wrap: bool,
    limit: Extent,
    n: nat,
) -> BreakState
    decreases n,
{
    if n == 0 {
        BreakState { lines: Seq::empty(), begin: 0, width: 0 }
    } else {
        let i = n - 1;
        break_step(
            break_prefix(text, font, wrap, limit, (n - 1) as nat),
            i,
            text[i],
            advance_of(font, text[i]),
            wrap,
            limit,
        )
    }
}

/// The lines of `text`: those the breaker closed, then the line it was
/// filling at the end, when that one is not empty.
pub open spec fn break_lines(text: Seq<u32>, font: FontView, wrap: bool, limit: Extent) -> Seq<
    Span,
> {
    let st = break_prefix(text, font, wrap, limit, text.len());
    if st.begin < text.len() {
        st.lines.push(Span { begin: st.begin, end: text.len() as int, width: st.width })
    } else {
        st.lines
    }
}

/// Horizontal offset of a line of width `width` (halves round down).
pub open spec fn line_x_offset(align: HorizontalAlignment, limit: Extent, width: int) -> int {
    match limit {
        Extent::Finite(c) => match align {
            HorizontalAlignment::Center => (c - width) / 2,
            HorizontalAlignment::Right => c - width,
            _ => 0,
        },
        Extent::Infinite => 0,
    }
}

/// Vertical position of the first line, for a block of height `total` (halves
/// round down).
pub open spec fn block_y_start(align: VerticalAlignment, limit: Extent, total: int) -> int {
    match limit {
        Extent::Finite(c) => match align {
            VerticalAlignment::Center => (c - total) / 2,
            VerticalAlignment::Bottom => c - total,
            _ => 0,
        },
        Extent::Infinite => 0,
    }
}

/// The zero vector.
pub open spec fn origin() -> Vec2 {
    Vec2 { x: 0, y: 0 }
}

/// The glyph emitted for `code` with the pen at `(x, y)`: the font's glyph
/// when it has an outline, nothing for one without, and a square of the
/// font's height with a zero atlas quad for a code point the font lacks.
pub open spec fn glyph_at(font: FontView, code: u32, x: int, y: int) -> Option<TextGlyph> {
    if font.glyphs.contains_key(code) {
        let g = font.glyphs[code];
        if g.has_outline {
            Some(
                TextGlyph {
                    bounds: Rect {
                        x: (x + g.bitmap_left) as i64,
                        y: (y + font.ascender - g.bitmap_top - g.bitmap_height) as i64,
                        w: g.bitmap_width as i64,
                        h: g.bitmap_height as i64,
                    },
                    tex_coords: g.tex_coords,
                },
            )
        } else {
            None
        }
    } else {
        Some(
            TextGlyph {
                bounds: Rect {
                    x: x as i64,
                    y: (y + font.ascender) as i64,
                    w: font.height as i64,
                    h: font.height as i64,
                },
                tex_coords: [origin(), origin(), origin(), origin()],
            },
        )
    }
}

/// Glyphs of the code points at `[begin, end)`, the pen starting at `(x, y)`
/// and moving right by each code point's advance.
pub open spec fn span_glyphs(
    text: Seq<u32>,
    font: FontView,
    begin: int,
    end: int,
    x: int,
    y: int,
) -> Seq<TextGlyph>
    decreases end - begin,
{
    if end <= begin {
        Seq::empty()
    } else {
        let before = span_glyphs(text, font, begin, end - 1, x, y);
        match glyph_at(font, text[end - 1], x + range_width(text, font, begin, end - 1), y) {
            Some(g) => before.push(g),
            None => before,
        }
    }
}

/// Glyphs of the first `n` lines, in order.
pub open spec fn lines_glyphs(text: Seq<u32>, font: FontView, lines: Seq<TextLine>, n: nat) -> Seq<
    TextGlyph,
>
    decreases n,
{
    if n == 0 {
        Seq::empty()
    } else {
        let l = lines[n - 1];
        lines_glyphs(text, font, lines, (n - 1) as nat) + span_glyphs(
            text,
            font,
            l.begin as int,
            l.end as int,
            l.x_offset as int,
            l.y_offset as int,
        )
    }
}

/// Widest of the first `n` lines, and never below zero.
pub open spec fn max_width(spans: Seq<Span>, n: nat) -> int
    decreases n,
{
    if n == 0 {
        0
    } else {
        let m = max_width(spans, (n - 1) as nat);
        if spans[n - 1].width > m {
            spans[n - 1].width
        } else {
            m
        }
    }
}

/// What a formatted text holds.
pub struct FormattedTextView {
    pub font: Option<FontView>,
    pub text: Seq<u32>,
    pub lines: Seq<TextLine>,
    pub glyphs: Seq<TextGlyph>,
    pub vertical_alignment: VerticalAlignment,
    pub horizontal_alignment: HorizontalAlignment,
    pub brush: BrushView,
    pub constraint: Constraint,
    pub wrap: bool,
}

/// Line `k` of `spans`, aligned and placed below the `k` lines before it.
pub open spec fn placed_line(
    spans: Seq<Span>,
    k: int,
    h_align: HorizontalAlignment,
    v_align: VerticalAlignment,
    constraint: Constraint,
    ascender: int,
) -> TextLine {
    let top = block_y_start(v_align, constraint.y, spans.len() * ascender);
    TextLine {
        begin: spans[k].begin as usize,
        end: spans[k].end as usize,
        width: spans[k].width as i64,
        height: ascender as i64,
        x_offset: line_x_offset(h_align, constraint.x, spans[k].width) as i64,
        y_offset: (top + k * ascender) as i64,
    }
}

/// The lines of `v`, broken, aligned and stacked from the block's top.
pub open spec fn layout_lines(v: FormattedTextView, font: FontView) -> Seq<TextLine> {
    let spans = break_lines(v.text, font, v.wrap, v.constraint.x);
    Seq::new(
        spans.len(),
        |k: int|
            placed_line(
                spans,
                k,
                v.horizontal_alignment,
                v.vertical_alignment,
                v.constraint,
                font.ascender as int,
            ),
    )
}

/// `v` after a layout pass: unchanged without a font, else with its lines and
/// glyphs computed afresh.
pub open spec fn built(v: FormattedTextView) -> FormattedTextView {
    match v.font {
        None => v,
        Some(font) => {
            let lines = layout_lines(v, font);
            FormattedTextView {
                lines,
                glyphs: lines_glyphs(v.text, font, lines, lines.len()),
                ..v
            }
        },
    }
}

/// The size a layout pass measures: zero without a font, else the widest
/// line's width and one ascender per line.
pub open spec fn built_size(v: FormattedTextView) -> (int, int) {
    match v.font {
        None => (0, 0),
        Some(font) => {
            let spans = break_lines(v.text, font, v.wrap, v.constraint.x);
            (max_width(spans, spans.len()), spans.len() * font.ascender)
        },
    }
}

/// Text laid out against a font: the code points, the configuration, and the
/// lines and glyphs of the last layout pass.
#[derive(Clone)]
pub struct FormattedText {
    font: Option<Arc<Font>>,
    text: Vec<u32>,
    lines: Vec<TextLine>,
    glyphs: Vec<TextGlyph>,
    vertical_alignment: VerticalAlignment,
    horizontal_alignment: HorizontalAlignment,
    brush: Brush,
    constraint: Constraint,
    wrap: bool,
}

impl View for FormattedText {
    type V = FormattedTextView;

    closed spec fn view(&self) -> FormattedTextView {
        FormattedTextView {
            font: match self.font {
                Some(f) => Some(f@),
                None => None,
            },
            text: self.text@,
            lines: self.lines@,
            glyphs: self.glyphs@,
            vertical_alignment: self.vertical_alignment,
            horizontal_alignment: self.horizontal_alignment,
            brush: self.brush@,
            constraint: self.constraint,
            wrap: self.wrap,
        }
    }
}

/// Relies on `char::from_u32`: a value is a `char` exactly when it is a
/// Unicode scalar value, and then that `char` is the value.
#[verifier::external_body]
fn char_from_code(code: u32) -> (r: Option<char>)
    ensures
        r == (if is_scalar(code) {
            Some(code as char)
        } else {
            None::<char>
        }),
{
    char::from_u32(code)
}

/// Relies on `String::push`: appends one character.
#[verifier::external_body]
fn push_char(s: &mut String, c: char)
    ensures
        final(s)@ == old(s)@.push(c),
{
    s.push(c)
}

/// Relies on `Arc::clone`: a second handle to the same font.
#[verifier::external_body]
fn share_font(font: &Arc<Font>) -> (r: Arc<Font>)
    ensures
        r@ == font@,
{
    Arc::clone(font)
}

impl FormattedText {
    pub fn get_glyphs(&self) -> (r: &[TextGlyph])
        ensures
            r@ == self@.glyphs,
    {
        self.glyphs.as_slice()
    }

    pub fn get_font(&self) -> (r: Option<Arc<Font>>)
        ensures
            match r {
                Some(f) => self@.font == Some(f@),
                None => self@.font is None,
            },
    {
        match &self.font {
            Some(f) => Some(share_font(f)),
            None => None,
        }
    }

    pub fn set_font(&mut self, font: Arc<Font>) -> (r: &mut Self)
        ensures
            r@ == (FormattedTextView { font: Some(font@), ..old(self)@ }),
            *final(self) == *final(r),
    {
        self.font = Some(font);
        self
    }

    pub fn get_lines(&self) -> (r: &[TextLine])
        ensures
            r@ == self@.lines,
    {
        self.lines.as_slice()
    }

    pub fn set_vertical_alignment(&mut self, vertical_alignment: VerticalAlignment) -> (r:
        &mut Self)
        ensures
            r@ == (FormattedTextView { vertical_alignment, ..old(self)@ }),
            *final(self) == *final(r),
    {
        self.vertical_alignment = vertical_alignment;
        self
    }

    pub fn vertical_alignment(&self) -> (r: VerticalAlignment)
        ensures
            r == self@.vertical_alignment,
    {
        self.vertical_alignment
    }

    pub fn set_horizontal_alignment(&mut self, horizontal_alignment: HorizontalAlignment) -> (r:
        &mut Self)
        ensures
            r@ == (FormattedTextView { horizontal_alignment, ..old(self)@ }),
            *final(self) == *final(r),
    {
        self.horizontal_alignment = horizontal_alignment;
        self
    }

    pub fn horizontal_alignment(&self) -> (r: HorizontalAlignment)
        ensures
            r == self@.horizontal_alignment,
    {
        self.horizontal_alignment
    }

    /// Sets the paint; layout does not read it.
    pub fn set_brush(&mut self, brush: Brush) -> (r: &mut Self)
        ensures
            r@ == (FormattedTextView { brush: brush@, ..old(self)@ }),
            *final(self) == *final(r),
    {
        self.brush = brush;
        self
    }

    pub fn brush(&self) -> (r: Brush)
        ensures
            r@ == self@.brush,
    {
        self.brush.clone()
    }

    pub fn set_constraint(&mut self, constraint: Constraint) -> (r: &mut Self)
        ensures
            r@ == (FormattedTextView { constraint, ..old(self)@ }),
            *final(self) == *final(r),
    {
        self.constraint = constraint;
        self
    }

    pub fn get_raw_text(&self) -> (r: &[u32])
        ensures
            r@ == self@.text,
    {
        self.text.as_slice()
    }

    /// The stored code points as a string, skipping any that is not a
    /// Unicode scalar value.
    pub fn text(&self) -> (r: String)
        ensures
            r@ == decode(self@.text),
    {
        let mut s = "".to_owned();
        proof {
            reveal_strlit("");
        }
        let mut i: usize = 0;
        while i < self.text.len()
            invariant
                i <= self.text.len(),
                s@ == decode(self.text@.take(i as int)),
            decreases self.text.len() - i,
        {
            let code = self.text[i];
            assert(self.text@.take(i + 1).drop_last() == self.text@.take(i as int));
            match char_from_code(code) {
                Some(c) => push_char(&mut s, c),
                None => {},
            }
            i = i + 1;
        }
        assert(self.text@.take(i as int) == self.text@);
        s
    }

    /// Replaces the content with the code points of `text`, in order.
    pub fn set_text(&mut self, text: &str) -> (r: &mut Self)
        ensures
            r@ == (FormattedTextView { text: encode(text@), ..old(self)@ }),
            *final(self) == *final(r),
    {
        self.text.clear();
        append_codes(text, &mut self.text);
        self
    }

    pub fn set_wrap(&mut self, wrap: bool) -> (r: &mut Self)
        ensures
            r@ == (FormattedTextView { wrap, ..old(self)@ }),
            *final(self) == *final(r),
    {
        self.wrap = wrap;
        self
    }

    pub fn is_wrap(&self) -> (r: bool)
        ensures
            r == self@.wrap,
    {
        self.wrap
    }

    /// Inserts `c` before index `index`; `index` equal to the length appends.
    pub fn insert_char(&mut self, c: char, index: usize) -> (r: &mut Self)
        requires
            index <= old(self)@.text.len(),
        ensures
            r@ == (FormattedTextView {
                text: old(self)@.text.insert(index as int, c as u32),
                ..old(self)@
            }),
            *final(self) == *final(r),
    {
        let code = c as u32;
        if index == self.text.len() {
            self.text.push(code);
            assert(self.text@ == old(self)@.text.insert(index as int, code));
        } else {
            self.text.insert(index, code);
        }
        self
    }

    /// Removes the code point at `index`.
    pub fn remove_at(&mut self, index: usize) -> (r: &mut Self)
        requires
            index < old(self)@.text.len(),
        ensures
            r@ == (FormattedTextView { text: old(self)@.text.remove(index as int), ..old(self)@ }),
            *final(self) == *final(r),
    {
        self.text.remove(index);
        self
    }

    /// Lays the text out: breaks it into lines, aligns and stacks them, and
    /// places a glyph for each visible code point. Returns the measured size:
    /// the widest line's width and one ascender per line. Without a font it
    /// returns zero and leaves everything as it was.
    pub fn build(&mut self) -> (r: Vec2)
        requires
            old(self)@.text.len() <= u32::MAX,
        ensures
            final(self)@ == built(old(self)@),
            r.x == built_size(old(self)@).0,
            r.y == built_size(old(self)@).1,
    {
        match &self.font {
            None => Vec2::zero(),
            Some(font) => {
                break_text(&self.text, font, self.wrap, self.constraint.x, &mut self.lines);
                let max_w = place_lines(
                    &self.text,
                    font,
                    self.wrap,
                    self.horizontal_alignment,
                    self.vertical_alignment,
                    self.constraint,
                    &mut self.lines,
                    &mut self.glyphs,
                );
                proof {
                    lemma_break_lines(self.text@, font@, self.wrap, self.constraint.x);
                    assert(self.lines@.len() * font@.ascender <= 0x1_0000_0001 * 65535)
                        by (nonlinear_arith)
                        requires
                            0 <= self.lines@.len() <= 0x1_0000_0001,
                            0 <= font@.ascender <= 65535,
                    ;
                }
                let total: i64 = self.lines.len() as i64 * font.get_ascender() as i64;
                Vec2::new(max_w, total)
            },
        }
    }

    /// Sum of the advances of the code points at `range`; zero without a font.
    pub fn get_range_width(&self, range: Range<usize>) -> (r: i64)
        requires
            range.start >= range.end || range.end <= self@.text.len(),
            self@.text.len() <= u32::MAX,
        ensures
            r == match self@.font {
                Some(font) => range_width(self@.text, font, range.start as int, range.end as int),
                None => 0,
            },
    {
        let mut width: i64 = 0;
        match &self.font {
            Some(font) => {
                let mut i: usize = range.start;
                while i < range.end
                    invariant
                        range.start <= i,
                        range.start >= range.end ==> i == range.start,
                        range.start < range.end ==> i <= range.end <= self.text.len(),
                        self.text.len() <= u32::MAX,
                        0 <= width <= (i - range.start) * 65535,
                        width == range_width(self.text@, font@, range.start as int, i as int),
                    decreases range.end - i,
                {
                    let adv = font.get_glyph_advance(self.text[i]);
                    width = width + adv as i64;
                    i = i + 1;
                }
                assert(range.start < range.end ==> i == range.end);
            },
            None => {},
        }
        width
    }
}

/// A line as the breaker records it, before alignment and placement.
spec fn raw_line(span: Span) -> TextLine {
    TextLine {
        begin: span.begin as usize,
        end: span.end as usize,
        width: span.width as i64,
        height: 0,
        x_offset: 0,
        y_offset: 0,
    }
}

pub(crate) proof fn lemma_range_width_bounds(text: Seq<u32>, font: FontView, begin: int, end: int)
    requires
        begin <= end,
    ensures
        0 <= range_width(text, font, begin, end) <= (end - begin) * 65535,
    decreases end - begin,
{
    if end > begin {
        lemma_range_width_bounds(text, font, begin, end - 1);
    }
}

/// What the breaker keeps true: lines are ordered, within the scanned
/// prefix, and as wide as the advances they cover.
pub(crate) proof fn lemma_break_prefix(text: Seq<u32>, font: FontView, wrap: bool, limit: Extent, n: nat)
    requires
        n <= text.len(),
    ensures
        ({
            let st = break_prefix(text, font, wrap, limit, n);
            &&& 0 <= st.begin <= n
            &&& st.width == range_width(text, font, st.begin, n as int)
            &&& st.lines.len() <= n
            &&& forall|k: int|
                0 <= k < st.lines.len() ==> 0 <= #[trigger] st.lines[k].begin <= st.lines[k].end
                    <= st.begin && st.lines[k].width == range_width(
                    text,
                    font,
                    st.lines[k].begin,
                    st.lines[k].end,
                )
            &&& forall|k: int|
                0 <= k < st.lines.len() - 1 ==> #[trigger] st.lines[k].end <= st.lines[k
                    + 1].begin
        }),
    decreases n,
{
    if n > 0 {
        lemma_break_prefix(text, font, wrap, limit, (n - 1) as nat);
        let i = n - 1;
        let prev = break_prefix(text, font, wrap, limit, (n - 1) as nat);
        let st = break_prefix(text, font, wrap, limit, n);
        let adv = advance_of(font, text[i]);
        assert(range_width(text, font, i, i) == 0);
        assert(range_width(text, font, n as int, n as int) == 0);
        assert(range_width(text, font, prev.begin, n as int) == prev.width + adv);
        if is_line_break(text[i]) || (wrap && exceeds(prev.width + adv, limit)) {
            let last = Span { begin: prev.begin, end: i, width: prev.width };
            assert(st.lines == prev.lines.push(last));
            assert forall|k: int| 0 <= k < st.lines.len() implies 0 <= #[trigger] st.lines[k].begin
                <= st.lines[k].end <= st.begin && st.lines[k].width == range_width(
                text,
                font,
                st.lines[k].begin,
                st.lines[k].end,
            ) by {
                if k < prev.lines.len() {
                    assert(st.lines[k] == prev.lines[k]);
                }
            }
            assert forall|k: int| 0 <= k < st.lines.len() - 1 implies #[trigger] st.lines[k].end
                <= st.lines[k + 1].begin by {
                assert(st.lines[k] == prev.lines[k]);
                assert(prev.lines[k].begin <= prev.lines[k].end);
                if k + 1 < prev.lines.len() {
                    assert(st.lines[k + 1] == prev.lines[k + 1]);
                }
            }
        }
    }
}

/// The finished lines: ordered, within the text, as wide as their advances.
pub(crate) proof fn lemma_break_lines(text: Seq<u32>, font: FontView, wrap: bool, limit: Extent)
    ensures
        ({
            let spans = break_lines(text, font, wrap, limit);
            &&& spans.len() <= text.len() + 1
            &&& forall|k: int|
                0 <= k < spans.len() ==> 0 <= #[trigger] spans[k].begin <= spans[k].end
                    <= text.len() && spans[k].width == range_width(
                    text,
                    font,
                    spans[k].begin,
                    spans[k].end,
                )
            &&& forall|k: int|
                0 <= k < spans.len() - 1 ==> #[trigger] spans[k].end <= spans[k + 1].begin
        }),
{
    lemma_break_prefix(text, font, wrap, limit, text.len());
    let st = break_prefix(text, font, wrap, limit, text.len());
    let spans = break_lines(text, font, wrap, limit);
    if st.begin < text.len() {
        assert forall|k: int| 0 <= k < spans.len() - 1 implies #[trigger] spans[k].end
            <= spans[k + 1].begin by {
            assert(spans[k] == st.lines[k]);
            assert(st.lines[k].begin <= st.lines[k].end);
            if k + 1 < st.lines.len() {
                assert(spans[k + 1] == st.lines[k + 1]);
            }
        }
        assert forall|k: int| 0 <= k < spans.len() implies 0 <= #[trigger] spans[k].begin
            <= spans[k].end <= text.len() && spans[k].width == range_width(
            text,
            font,
            spans[k].begin,
            spans[k].end,
        ) by {
            if k < st.lines.len() {
                assert(spans[k] == st.lines[k]);
            }
        }
    }
}

/// `d / 2`, rounded down.
fn half_down(d: i64) -> (r: i64)
    requires
        d > i64::MIN,
    ensures
        r == d as int / 2,
{
    if d >= 0 {
        d / 2
    } else {
        let m: i64 = -(d + 1);
        -(m / 2) - 1
    }
}

/// Breaks `text` into `lines`, replacing what they held.
fn break_text(text: &Vec<u32>, font: &Font, wrap: bool, limit: Extent, lines: &mut Vec<TextLine>)
    requires
        text.len() <= u32::MAX,
    ensures
        ({
            let spans = break_lines(text@, font@, wrap, limit);
            &&& final(lines)@.len() == spans.len()
            &&& forall|k: int|
                0 <= k < spans.len() ==> #[trigger] final(lines)@[k] == raw_line(spans[k])
        }),
{
    let ghost fv = font@;
    lines.clear();
    let n = text.len();
    let mut begin: usize = 0;
    let mut width: i64 = 0;
    let mut i: usize = 0;
    while i < n
        invariant
            n == text.len(),
            n <= u32::MAX,
            i <= n,
            fv == font@,
            ({
                let st = break_prefix(text@, fv, wrap, limit, i as nat);
                &&& st.begin == begin
                &&& st.width == width
                &&& lines@.len() == st.lines.len()
                &&& forall|k: int|
                    0 <= k < st.lines.len() ==> #[trigger] lines@[k] == raw_line(st.lines[k])
            }),
        decreases n - i,
    {
        proof {
            lemma_break_prefix(text@, fv, wrap, limit, i as nat);
            lemma_range_width_bounds(text@, fv, begin as int, i as int);
            assert((i - begin) * 65535 <= 0x1_0000_0000 * 65535) by (nonlinear_arith)
                requires
                    0 <= i - begin <= 0x1_0000_0000,
            ;
        }
        let code = text[i];
        let advance: i64 = font.get_glyph_advance(code) as i64;
        let new_width: i64 = width + advance;
        let over = match limit {
            Extent::Finite(c) => new_width > c as i64,
            Extent::Infinite => false,
        };
        if code == 10 || code == 13 {
            lines.push(TextLine { begin, end: i, width, height: 0, x_offset: 0, y_offset: 0 });
            begin = i + 1;
            width = 0;
        } else if wrap && over {
            lines.push(TextLine { begin, end: i, width, height: 0, x_offset: 0, y_offset: 0 });
            begin = i;
            width = advance;
        } else {
            width = new_width;
        }
        i = i + 1;
    }
    if begin < n {
        lines.push(TextLine { begin, end: n, width, height: 0, x_offset: 0, y_offset: 0 });
    }
}

/// Aligns and stacks the freshly broken `lines`, and fills `glyphs` with the
/// glyphs of each line in turn. Returns the widest line's width.
#[verifier::rlimit(40)]
fn place_lines(
    text: &Vec<u32>,
    font: &Font,
    wrap: bool,
    h_align: HorizontalAlignment,
    v_align: VerticalAlignment,
    constraint: Constraint,
    lines: &mut Vec<TextLine>,
    glyphs: &mut Vec<TextGlyph>,
) -> (max_w: i64)
    requires
        text.len() <= u32::MAX,
        ({
            let spans = break_lines(text@, font@, wrap, constraint.x);
            &&& old(lines)@.len() == spans.len()
            &&& forall|k: int|
                0 <= k < spans.len() ==> #[trigger] old(lines)@[k] == raw_line(spans[k])
        }),
    ensures
        ({
            let spans = break_lines(text@, font@, wrap, constraint.x);
            let placed = Seq::new(
                spans.len(),
                |k: int|
                    placed_line(spans, k, h_align, v_align, constraint, font@.ascender as int),
            );
            &&& final(lines)@ == placed
            &&& final(glyphs)@ == lines_glyphs(text@, font@, placed, placed.len())
            &&& max_w == max_width(spans, spans.len())
        }),
{
    let ghost fv = font@;
    let ghost spans = break_lines(text@, fv, wrap, constraint.x);
    let ghost placed = Seq::new(
        spans.len(),
        |k: int| placed_line(spans, k, h_align, v_align, constraint, fv.ascender as int),
    );
    proof {
        lemma_break_lines(text@, fv, wrap, constraint.x);
    }
    glyphs.clear();
    let asc: i64 = font.get_ascender() as i64;
    let count = lines.len();
    proof {
        assert(count * asc <= 0x1_0000_0001 * 65535) by (nonlinear_arith)
            requires
                0 <= count <= 0x1_0000_0001,
                0 <= asc <= 65535,
        ;
    }
    let total: i64 = count as i64 * asc;
    let top: i64 = match constraint.y {
        Extent::Finite(c) => match v_align {
            VerticalAlignment::Center => half_down(c as i64 - total),
            VerticalAlignment::Bottom => c as i64 - total,
            _ => 0,
        },
        Extent::Infinite => 0,
    };
    assert(top == block_y_start(v_align, constraint.y, spans.len() * fv.ascender));
    let mut y: i64 = top;
    let mut max_w: i64 = 0;
    let mut li: usize = 0;
    while li < count
        invariant
            text.len() <= u32::MAX,
            fv == font@,
            asc == fv.ascender,
            count == spans.len(),
            spans == break_lines(text@, fv, wrap, constraint.x),
            placed == Seq::new(
                spans.len(),
                |k: int| placed_line(spans, k, h_align, v_align, constraint, fv.ascender as int),
            ),
            lines@.len() == count,
            total == count * asc,
            0 <= total <= 0x1_0000_0001 * 65535,
            top == block_y_start(v_align, constraint.y, total as int),
            -0x8000_0000 - 0x1_0000_0001 * 65535 <= top <= 0x8000_0000,
            li <= count,
            y == top + li * asc,
            li * asc <= total,
            forall|k: int| 0 <= k < li ==> #[trigger] lines@[k] == placed[k],
            forall|k: int| li <= k < count ==> #[trigger] lines@[k] == raw_line(spans[k]),
            glyphs@ == lines_glyphs(text@, fv, placed, li as nat),
            max_w == max_width(spans, li as nat),
            0 <= max_w <= 0x1_0000_0000 * 65535,
            forall|k: int|
                0 <= k < spans.len() ==> 0 <= #[trigger] spans[k].begin <= spans[k].end
                    <= text.len() && spans[k].width == range_width(
                    text@,
                    fv,
                    spans[k].begin,
                    spans[k].end,
                ),
        decreases count - li,
    {
        let line = lines[li];
        let ghost sp = spans[li as int];
        proof {
            lemma_range_width_bounds(text@, fv, sp.begin, sp.end);
            assert((sp.end - sp.begin) * 65535 <= 0x1_0000_0000 * 65535) by (nonlinear_arith)
                requires
                    0 <= sp.end - sp.begin <= 0x1_0000_0000,
            ;
        }
        assert(line.width == sp.width);
        let x_off: i64 = match constraint.x {
            Extent::Finite(c) => match h_align {
                HorizontalAlignment::Center => half_down(c as i64 - line.width),
                HorizontalAlignment::Right => c as i64 - line.width,
                _ => 0,
            },
            Extent::Infinite => 0,
        };
        assert(x_off == placed[li as int].x_offset);
        assert(y == placed[li as int].y_offset);
        let mut x: i64 = x_off;
        let mut j: usize = line.begin;
        while j < line.end
            invariant
                text.len() <= u32::MAX,
                fv == font@,
                asc == fv.ascender,
                line.begin <= j <= line.end <= text.len(),
                -0x8000_0000 - 0x1_0000_0000 * 65535 <= x_off <= 0x8000_0000,
                -0x8000_0000 - 0x1_0000_0001 * 65535 <= y <= 0x8000_0000 + 0x1_0000_0001 * 65535,
                x == x_off + range_width(text@, fv, line.begin as int, j as int),
                glyphs@ == lines_glyphs(text@, fv, placed, li as nat) + span_glyphs(
                    text@,
                    fv,
                    line.begin as int,
                    j as int,
                    x_off as int,
                    y as int,
                ),
            decreases line.end - j,
        {
            proof {
                lemma_range_width_bounds(text@, fv, line.begin as int, j as int);
                assert((j - line.begin) * 65535 <= 0x1_0000_0000 * 65535) by (nonlinear_arith)
                    requires
                        0 <= j - line.begin <= 0x1_0000_0000,
                ;
            }
            let ghost before = glyphs@;
            let code = text[j];
            match font.get_glyph(code) {
                Some(g) => {
                    if g.has_outline {
                        glyphs.push(
                            TextGlyph {
                                bounds: Rect {
                                    x: x + g.bitmap_left as i64,
                                    y: y + asc - g.bitmap_top as i64 - g.bitmap_height as i64,
                                    w: g.bitmap_width as i64,
                                    h: g.bitmap_height as i64,
                                },
                                tex_coords: g.tex_coords,
                            },
                        );
                    }
                    x = x + g.advance as i64;
                },
                None => {
                    let h: i64 = font.get_height() as i64;
                    let z = Vec2::zero();
                    glyphs.push(
                        TextGlyph { bounds: Rect { x, y: y + asc, w: h, h }, tex_coords: [z, z, z, z] },
                    );
                    x = x + h;
                },
            }
            j = j + 1;
            assert(glyphs@ == lines_glyphs(text@, fv, placed, li as nat) + span_glyphs(
                text@,
                fv,
                line.begin as int,
                j as int,
                x_off as int,
                y as int,
            ));
        }
        lines[li] = TextLine {
            begin: line.begin,
            end: line.end,
            width: line.width,
            height: asc,
            x_offset: x_off,
            y_offset: y,
        };
        assert(lines@[li as int] == placed[li as int]);
        if line.width > max_w {
            max_w = line.width;
        }
        proof {
            assert((li + 1) * asc <= total) by (nonlinear_arith)
                requires
                    li + 1 <= count,
                    total == count * asc,
                    asc >= 0,
            ;
            assert((li + 1) * asc == li * asc + asc) by (nonlinear_arith);
        }
        y = y + asc;
        li = li + 1;
    }
    assert(lines@ == placed);
    max_w
}

/// Appends the code points of `s` to `out`, in order.
fn append_codes(s: &str, out: &mut Vec<u32>)
    ensures
        final(out)@ == old(out)@ + encode(s@),
{
    let ghost start = out@;
    for c in it: s.chars()
        invariant
            it.seq() == s@,
            out@ == start + encode(it.seq().take(it.index())),
    {
        assert(it.seq().take(it.index() + 1) == it.seq().take(it.index()).push(c));
        out.push(c as u32);
    }
    proof {
        assert(s@.take(s@.len() as int) == s@);
    }
}

/// What a builder holds.
pub struct FormattedTextBuilderView {
    pub font: Option<FontView>,
    pub brush: BrushView,
    pub constraint: Constraint,
    pub text: Seq<char>,
    pub vertical_alignment: VerticalAlignment,
    pub horizontal_alignment: HorizontalAlignment,
    pub wrap: bool,
}

/// Collects the configuration of a formatted text.
pub struct FormattedTextBuilder {
    font: Option<Arc<Font>>,
    brush: Brush,
    constraint: Constraint,
    text: String,
    vertical_alignment: VerticalAlignment,
    horizontal_alignment: HorizontalAlignment,
    wrap: bool,
}

impl View for FormattedTextBuilder {
    type V = FormattedTextBuilderView;

    closed spec fn view(&self) -> FormattedTextBuilderView {
        FormattedTextBuilderView {
            font: match self.font {
                Some(f) => Some(f@),
                None => None,
            },
            brush: self.brush@,
            constraint: self.constraint,
            text: self.text@,
            vertical_alignment: self.vertical_alignment,
            horizontal_alignment: self.horizontal_alignment,
            wrap: self.wrap,
        }
    }
}

/// The configuration a new builder starts from: no font, empty text, left and
/// top alignment, white paint, 128 by 128 units of room, no wrapping.
pub open spec fn default_builder(v: FormattedTextBuilderView) -> bool {
    &&& v.font is None
    &&& v.text.len() == 0
    &&& v.horizontal_alignment == HorizontalAlignment::Left
    &&& v.vertical_alignment == VerticalAlignment::Top
    &&& v.brush == BrushView::Solid(Color { r: 255, g: 255, b: 255, a: 255 })
    &&& v.constraint == Constraint { x: Extent::Finite(128), y: Extent::Finite(128) }
    &&& !v.wrap
}

impl Default for FormattedTextBuilder {
    fn default() -> (r: Self)
        ensures
            default_builder(r@),
    {
        Self::new()
    }
}

impl FormattedTextBuilder {
    pub fn new() -> (r: FormattedTextBuilder)
        ensures
            default_builder(r@),
    {
        let text = "".to_owned();
        proof {
            reveal_strlit("");
        }
        FormattedTextBuilder {
            font: None,
            text,
            horizontal_alignment: HorizontalAlignment::Left,
            vertical_alignment: VerticalAlignment::Top,
            brush: Brush::Solid(Color::white()),
            constraint: Constraint::new(Extent::Finite(128), Extent::Finite(128)),
            wrap: false,
        }
    }

    pub fn with_font(self, font: Arc<Font>) -> (r: Self)
        ensures
            r@ == (FormattedTextBuilderView { font: Some(font@), ..self@ }),
    {
        FormattedTextBuilder { font: Some(font), ..self }
    }

    pub fn with_vertical_alignment(self, vertical_alignment: VerticalAlignment) -> (r: Self)
        ensures
            r@ == (FormattedTextBuilderView { vertical_alignment, ..self@ }),
    {
        FormattedTextBuilder { vertical_alignment: vertical_alignment, ..self }
    }

    pub fn with_wrap(self, wrap: bool) -> (r: Self)
        ensures
            r@ == (FormattedTextBuilderView { wrap, ..self@ }),
    {
        FormattedTextBuilder { wrap: wrap, ..self }
    }

    pub fn with_horizontal_alignment(self, horizontal_alignment: HorizontalAlignment) -> (r:
        Self)
        ensures
            r@ == (FormattedTextBuilderView { horizontal_alignment, ..self@ }),
    {
        FormattedTextBuilder { horizontal_alignment: horizontal_alignment, ..self }
    }

    pub fn with_text(self, text: String) -> (r: Self)
        ensures
            r@ == (FormattedTextBuilderView { text: text@, ..self@ }),
    {
        FormattedTextBuilder { text: text, ..self }
    }

    pub fn with_constraint(self, constraint: Constraint) -> (r: Self)
        ensures
            r@ == (FormattedTextBuilderView { constraint, ..self@ }),
    {
        FormattedTextBuilder { constraint: constraint, ..self }
    }

    pub fn with_brush(self, brush: Brush) -> (r: Self)
        ensures
            r@ == (FormattedTextBuilderView { brush: brush@, ..self@ }),
    {
        FormattedTextBuilder { brush: brush, ..self }
    }

    /// A formatted text with this configuration and no layout yet.
    pub fn build(self) -> (r: FormattedText)
        ensures
            r@ == (FormattedTextView {
                font: self@.font,
                text: encode(self@.text),
                lines: Seq::empty(),
                glyphs: Seq::empty(),
                vertical_alignment: self@.vertical_alignment,
                horizontal_alignment: self@.horizontal_alignment,
                brush: self@.brush,
                constraint: self@.constraint,
                wrap: self@.wrap,
            }),
    {
        let mut text: Vec<u32> = Vec::new();
        append_codes(self.text.as_str(), &mut text);
        assert(text@ == encode(self@.text));
        FormattedText {
            font: self.font,
            text,
            lines: Vec::new(),
            glyphs: Vec::new(),
            vertical_alignment: self.vertical_alignment,
            horizontal_alignment: self.horizontal_alignment,
            brush: self.brush,
            constraint: self.constraint,
            wrap: self.wrap,
        }
    }
}

} // verus!
