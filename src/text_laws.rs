//! Laws of the text engine that relate several operations or hold of every
//! input.
use vstd::prelude::*;
use crate::font::{advance_of, FontView};
use crate::formatted_text::{
    break_lines,
    break_prefix,
    built,
    built_size,
    decode,
    encode,
    is_line_break,
    lemma_break_lines,
    lemma_break_prefix,
    glyph_at,
    origin,
    FormattedTextView,
    Span,
    TextLine,
};
use crate::math::Extent;
use crate::HorizontalAlignment;

verus! {

/// Storing the code points of any string and reading the text back gives
/// the string unchanged.
pub proof fn round_trip(s: Seq<char>)
    ensures
        decode(encode(s)) == s,
    decreases s.len(),
{
    let e = encode(s);
    if s.len() > 0 {
        round_trip(s.drop_last());
        assert(e.drop_last() == encode(s.drop_last()));
        let c = s.last();
        vstd::utf8::char_is_scalar(c);
        vstd::utf8::char_u32_cast(c, c as u32);
        assert(e.last() == c as u32);
        assert(s.drop_last().push(c) == s);
    } else {
        assert(e.len() == 0);
        assert(s == Seq::<char>::empty());
    }
}

/// A second layout pass with nothing changed in between gives the same
/// lines, glyphs and size as the first.
pub proof fn build_is_idempotent(v: FormattedTextView)
    ensures
        built(built(v)) == built(v),
        built_size(built(v)) == built_size(v),
{
}

/// Whether span `sp` holds index `i`.
pub open spec fn span_covers(sp: Span, i: int) -> bool {
    sp.begin <= i < sp.end
}

/// Whether line `l` holds index `i`.
pub open spec fn line_covers(l: TextLine, i: int) -> bool {
    l.begin <= i < l.end
}

proof fn lemma_prefix_cover(text: Seq<u32>, font: FontView, wrap: bool, limit: Extent, n: nat)
    requires
        n <= text.len(),
    ensures
        ({
            let st = break_prefix(text, font, wrap, limit, n);
            &&& forall|i: int|
                0 <= i < st.begin ==> (is_line_break(#[trigger] text[i]) <==> !exists|k: int|
                    0 <= k < st.lines.len() && #[trigger] span_covers(st.lines[k], i))
            &&& forall|i: int| st.begin <= i < n ==> !is_line_break(#[trigger] text[i])
        }),
    decreases n,
{
    if n > 0 {
        let i = n - 1;
        lemma_prefix_cover(text, font, wrap, limit, i as nat);
        lemma_break_prefix(text, font, wrap, limit, i as nat);
        let prev = break_prefix(text, font, wrap, limit, i as nat);
        let st = break_prefix(text, font, wrap, limit, n);
        if st.lines.len() != prev.lines.len() {
            let last = Span { begin: prev.begin, end: i, width: prev.width };
            assert(st.lines == prev.lines.push(last));
            assert forall|j: int| 0 <= j < st.begin implies (is_line_break(#[trigger] text[j])
                <==> !exists|k: int|
                0 <= k < st.lines.len() && #[trigger] span_covers(st.lines[k], j)) by {
                if j < prev.begin {
                    if exists|k: int| 0 <= k < st.lines.len() && #[trigger] span_covers(st.lines[k], j) {
                        let k = choose|k: int|
                            0 <= k < st.lines.len() && #[trigger] span_covers(st.lines[k], j);
                        assert(k < prev.lines.len());
                        assert(span_covers(prev.lines[k], j));
                    }
                    if exists|k: int|
                        0 <= k < prev.lines.len() && #[trigger] span_covers(prev.lines[k], j) {
                        let k = choose|k: int|
                            0 <= k < prev.lines.len() && #[trigger] span_covers(prev.lines[k], j);
                        assert(st.lines[k] == prev.lines[k]);
                        assert(span_covers(st.lines[k], j));
                    }
                } else if j < i {
                    assert(span_covers(st.lines[prev.lines.len() as int], j));
                } else {
                    assert(is_line_break(text[j]));
                    assert forall|k: int| 0 <= k < st.lines.len() implies !#[trigger] span_covers(
                        st.lines[k],
                        j,
                    ) by {
                        if k < prev.lines.len() {
                            assert(st.lines[k] == prev.lines[k]);
                            assert(prev.lines[k].begin <= prev.lines[k].end);
                        }
                    }
                }
            }
        }
    }
}

/// The lines of a layout pass are ordered and disjoint, lie within the text,
/// and leave out exactly the line feeds and carriage returns: every other
/// code point lies in one line.
pub proof fn lines_cover_text(v: FormattedTextView)
    requires
        v.font is Some,
        v.text.len() <= u32::MAX,
    ensures
        ({
            let lines = built(v).lines;
            &&& forall|k: int|
                0 <= k < lines.len() ==> #[trigger] lines[k].begin <= lines[k].end <= v.text.len()
            &&& forall|k: int|
                0 <= k < lines.len() - 1 ==> #[trigger] lines[k].end <= lines[k + 1].begin
            &&& forall|i: int|
                0 <= i < v.text.len() ==> (is_line_break(#[trigger] v.text[i]) <==> !exists|k: int|
                    0 <= k < lines.len() && #[trigger] line_covers(lines[k], i))
        }),
{
    let font = v.font->Some_0;
    let text = v.text;
    lemma_break_lines(text, font, v.wrap, v.constraint.x);
    lemma_break_prefix(text, font, v.wrap, v.constraint.x, text.len());
    lemma_prefix_cover(text, font, v.wrap, v.constraint.x, text.len());
    let st = break_prefix(text, font, v.wrap, v.constraint.x, text.len());
    let spans = break_lines(text, font, v.wrap, v.constraint.x);
    let lines = built(v).lines;
    assert(lines.len() == spans.len());
    assert forall|k: int| 0 <= k < lines.len() implies lines[k].begin == spans[k].begin
        && lines[k].end == spans[k].end by {
        assert(0 <= spans[k].begin <= spans[k].end <= text.len());
    }
    assert forall|k: int| 0 <= k < lines.len() - 1 implies #[trigger] lines[k].end <= lines[k
        + 1].begin by {
        assert(lines[k].end == spans[k].end);
        assert(lines[k + 1].begin == spans[k + 1].begin);
    }
    assert forall|i: int| 0 <= i < text.len() implies (is_line_break(#[trigger] text[i])
        <==> !exists|k: int| 0 <= k < lines.len() && #[trigger] line_covers(lines[k], i)) by {
        if i < st.begin {
            if exists|k: int| 0 <= k < lines.len() && #[trigger] line_covers(lines[k], i) {
                let k = choose|k: int| 0 <= k < lines.len() && #[trigger] line_covers(lines[k], i);
                if k < st.lines.len() {
                    assert(spans[k] == st.lines[k]);
                    assert(span_covers(st.lines[k], i));
                } else {
                    assert(spans[k].begin == st.begin);
                }
            }
            if exists|k: int| 0 <= k < st.lines.len() && #[trigger] span_covers(st.lines[k], i) {
                let k = choose|k: int|
                    0 <= k < st.lines.len() && #[trigger] span_covers(st.lines[k], i);
                assert(spans[k] == st.lines[k]);
                assert(line_covers(lines[k], i));
            }
        } else {
            let k = st.lines.len() as int;
            assert(line_covers(lines[k], i));
        }
    }
}

/// Without a font a layout pass measures zero and changes nothing, whatever
/// the text.
pub proof fn no_font_measures_zero(v: FormattedTextView)
    requires
        v.font is None,
    ensures
        built_size(v) == (0int, 0int),
        built(v) == v,
{
}

/// With wrapping on, when the first two code points are no line breaks and
/// together do not fit, the second one starts a new line, whose width so far
/// is that code point's own advance.
pub proof fn wrap_starts_new_line(text: Seq<u32>, font: FontView, limit: i32)
    requires
        text.len() >= 2,
        !is_line_break(text[0]),
        !is_line_break(text[1]),
        advance_of(font, text[0]) + advance_of(font, text[1]) > limit,
    ensures
        ({
            let st = break_prefix(text, font, true, Extent::Finite(limit), 2);
            &&& st.begin == 1
            &&& st.width == advance_of(font, text[1])
            &&& st.lines.last() == (Span { begin: 0, end: 1, width: advance_of(font, text[0]) })
        }),
{
    let lim = Extent::Finite(limit);
    let s0 = break_prefix(text, font, true, lim, 0);
    let s1 = break_prefix(text, font, true, lim, 1);
    assert(s0.begin == 0 && s0.width == 0);
    assert(s1.width == advance_of(font, text[0]));
}

/// A code point the font lacks becomes a square of the font's height with a
/// zero atlas quad, and moves the pen by the font's height.
pub proof fn fallback_glyph(font: FontView, code: u32, x: int, y: int)
    requires
        !font.glyphs.contains_key(code),
    ensures
        glyph_at(font, code, x, y) is Some,
        glyph_at(font, code, x, y)->Some_0.tex_coords@ == seq![origin(), origin(), origin(), origin()],
        glyph_at(font, code, x, y)->Some_0.bounds.w == font.height,
        glyph_at(font, code, x, y)->Some_0.bounds.h == font.height,
        advance_of(font, code) == font.height,
{
    let g = glyph_at(font, code, x, y)->Some_0;
    assert(g.tex_coords@ =~= seq![origin(), origin(), origin(), origin()]);
}

/// Centred text in a bounded width: a single line of width `w` starts at
/// half of what the width leaves over, rounded down.
pub proof fn center_alignment(v: FormattedTextView)
    requires
        v.font is Some,
        v.text.len() <= u32::MAX,
        v.horizontal_alignment == HorizontalAlignment::Center,
        v.constraint.x is Finite,
        built(v).lines.len() == 1,
    ensures
        built(v).lines[0].x_offset == (v.constraint.x->Finite_0 - built(v).lines[0].width) / 2,
{
    let font = v.font->Some_0;
    lemma_break_lines(v.text, font, v.wrap, v.constraint.x);
    let spans = break_lines(v.text, font, v.wrap, v.constraint.x);
    crate::formatted_text::lemma_range_width_bounds(v.text, font, spans[0].begin, spans[0].end);
    assert((spans[0].end - spans[0].begin) * 65535 <= 0x1_0000_0000 * 65535) by (nonlinear_arith)
        requires
            0 <= spans[0].end - spans[0].begin <= 0x1_0000_0000,
    ;
}

} // verus!
