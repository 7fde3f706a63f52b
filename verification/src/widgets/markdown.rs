//! **Markdown** widget configuration: a markdown source and the theme whose
//! palette colors it.

use vstd::prelude::*;

use pulldown_cmark::{Event, Options, Parser, Tag, TagEnd};

use crate::text::chars_of;
use crate::theme::{palette_of, Palette, Rgb, Theme};
use crate::widgets::comm_log::spaces;
use crate::widgets::countdown_timer::decimal;

verus! {

/// A markdown-rendering widget.
#[derive(Debug, Clone)]
pub struct Markdown {
    /// The markdown source.
    pub text: String,
    /// Theme whose palette drives colors.
    pub theme: Theme,
}

impl Default for Markdown {
    fn default() -> (m: Markdown)
        ensures
            m.text@ == Seq::<char>::empty(),
            m.theme == Theme::Cyberpunk,
    {
        Markdown { text: String::new(), theme: Theme::Cyberpunk }
    }
}

impl Markdown {
    /// A widget rendering `text`, default theme.
    pub fn new(text: &str) -> (m: Markdown)
        ensures
            m.text@ == text@,
            m.theme == Theme::Cyberpunk,
    {
        Markdown { text: String::from_str(text), theme: Theme::Cyberpunk }
    }

    /// Set the theme.
    pub fn theme(self, theme: Theme) -> (m: Markdown)
        ensures
            m.text@ == self.text@,
            m.theme == theme,
    {
        Markdown { theme, ..self }
    }
}

} // verus!

verus! {

/// A text style: optional foreground and background colors plus the text
/// modifiers the renderer uses.
#[derive(Debug, Clone, Copy, PartialEq, Eq, Structural)]
pub struct MdStyle {
    pub fg: Option<Rgb>,
    pub bg: Option<Rgb>,
    pub bold: bool,
    pub italic: bool,
    pub crossed: bool,
    pub underlined: bool,
    pub dim: bool,
}

/// The style with nothing set.
pub open spec fn plain_style() -> MdStyle {
    MdStyle { fg: None, bg: None, bold: false, italic: false, crossed: false, underlined: false, dim: false }
}

/// The plain style with only a foreground color.
pub open spec fn fg_style(c: Rgb) -> MdStyle {
    MdStyle { fg: Some(c), ..plain_style() }
}

/// A run of chars drawn in one style.
#[derive(Debug, Clone)]
pub struct MdSpan {
    pub text: Vec<char>,
    pub style: MdStyle,
}

/// A span as plain values: its chars and its style.
pub open spec fn span_view(s: MdSpan) -> (Seq<char>, MdStyle) {
    (s.text@, s.style)
}

/// A line as plain values.
pub open spec fn line_view(l: Seq<MdSpan>) -> Seq<(Seq<char>, MdStyle)> {
    l.map_values(|s: MdSpan| span_view(s))
}

/// Lines as plain values.
pub open spec fn lines_view(ls: Seq<Vec<MdSpan>>) -> Seq<Seq<(Seq<char>, MdStyle)>> {
    ls.map_values(|l: Vec<MdSpan>| line_view(l@))
}

/// Consecutive same-styled chars grouped into spans, in order.
pub open spec fn group_spans(cs: Seq<(char, MdStyle)>) -> Seq<(Seq<char>, MdStyle)>
    decreases cs.len(),
{
    if cs.len() == 0 {
        seq![]
    } else {
        let g = group_spans(cs.drop_last());
        let c = cs.last();
        if g.len() > 0 && g.last().1 == c.1 {
            g.update(g.len() - 1, (g.last().0.push(c.0), c.1))
        } else {
            g.push((seq![c.0], c.1))
        }
    }
}

/// The chars of a styled run.
pub open spec fn run_chars(cs: Seq<(char, MdStyle)>) -> Seq<char> {
    cs.map_values(|p: (char, MdStyle)| p.0)
}

/// The chars of a line, spans concatenated.
pub open spec fn line_chars(l: Seq<(Seq<char>, MdStyle)>) -> Seq<char>
    decreases l.len(),
{
    if l.len() == 0 {
        seq![]
    } else {
        line_chars(l.drop_last()) + l.last().0
    }
}

/// Grouping loses no char and merges exactly the runs: the spans spell the
/// input, none is empty, and neighbouring spans differ in style.
pub proof fn lemma_group_spans(cs: Seq<(char, MdStyle)>)
    ensures
        line_chars(group_spans(cs)) == run_chars(cs),
        forall|i: int| 0 <= i < group_spans(cs).len() ==> #[trigger] group_spans(cs)[i].0.len() > 0,
        forall|i: int|
            0 < i < group_spans(cs).len() ==> #[trigger] group_spans(cs)[i].1 != group_spans(cs)[i - 1].1,
    decreases cs.len(),
{
    if cs.len() > 0 {
        let p = cs.drop_last();
        lemma_group_spans(p);
        let g = group_spans(p);
        let c = cs.last();
        assert(run_chars(cs) =~= run_chars(p).push(c.0));
        if g.len() > 0 && g.last().1 == c.1 {
            let h = g.update(g.len() - 1, (g.last().0.push(c.0), c.1));
            assert(h.drop_last() =~= g.drop_last());
            assert(line_chars(g) == line_chars(g.drop_last()) + g.last().0);
            assert(line_chars(h) =~= line_chars(g) + seq![c.0]);
        } else {
            let h = g.push((seq![c.0], c.1));
            assert(h.drop_last() =~= g);
            assert(line_chars(h) =~= line_chars(g) + seq![c.0]);
        }
    }
}

/// Group consecutive same-styled chars into spans.
pub fn chars_to_line(cs: &[(char, MdStyle)]) -> (l: Vec<MdSpan>)
    ensures
        line_view(l@) == group_spans(cs@),
{
    let mut spans: Vec<MdSpan> = Vec::new();
    let mut i: usize = 0;
    while i < cs.len()
        invariant
            i <= cs@.len(),
            line_view(spans@) == group_spans(cs@.take(i as int)),
        decreases cs@.len() - i,
    {
        let (c, s) = cs[i];
        let ghost pre = spans@;
        assert(cs@.take(i + 1).drop_last() =~= cs@.take(i as int));
        let n = spans.len();
        if n > 0 && spans[n - 1].style == s {
            let mut last = spans.pop().unwrap();
            last.text.push(c);
            spans.push(last);
            assert(line_view(spans@) =~= line_view(pre).update(
                n - 1,
                (line_view(pre).last().0.push(c), s),
            ));
        } else {
            let mut t: Vec<char> = Vec::new();
            t.push(c);
            spans.push(MdSpan { text: t, style: s });
            assert(line_view(spans@) =~= line_view(pre).push((seq![c], s)));
        }
        i = i + 1;
    }
    assert(cs@.take(cs@.len() as int) =~= cs@);
    spans
}

} // verus!

verus! {

/// A sequence of vectors viewed as a sequence of sequences.
pub open spec fn seqs_of<A>(v: Seq<Vec<A>>) -> Seq<Seq<A>> {
    v.map_values(|x: Vec<A>| x@)
}

/// Word-splitting state after reading `seg`: the finished words and the word
/// being read. Spaces end a word; runs of spaces yield no empty word.
pub open spec fn tok_state(seg: Seq<(char, MdStyle)>) -> (Seq<Seq<(char, MdStyle)>>, Seq<(char, MdStyle)>)
    decreases seg.len(),
{
    if seg.len() == 0 {
        (seq![], seq![])
    } else {
        let (w, cur) = tok_state(seg.drop_last());
        let p = seg.last();
        if p.0 == ' ' {
            if cur.len() > 0 {
                (w.push(cur), seq![])
            } else {
                (w, cur)
            }
        } else {
            (w, cur.push(p))
        }
    }
}

/// The words of a segment: its maximal runs of non-space chars.
pub open spec fn seg_words(seg: Seq<(char, MdStyle)>) -> Seq<Seq<(char, MdStyle)>> {
    let (w, cur) = tok_state(seg);
    if cur.len() > 0 {
        w.push(cur)
    } else {
        w
    }
}

/// `s` cut into pieces of `w` elements (the last one shorter).
pub open spec fn chunks_of<A>(s: Seq<A>, w: nat) -> Seq<Seq<A>>
    decreases s.len(),
{
    if s.len() <= w || w == 0 {
        seq![s]
    } else {
        seq![s.take(w as int)] + chunks_of(s.skip(w as int), w)
    }
}

/// Greedy packing state after placing `words` on rows of `width` cells:
/// the finished rows, the open row, and the style of the last word's first
/// char (which styles the space before the next word). A word joins the
/// open row (after one space) when it fits; otherwise the row is closed; a
/// word longer than a whole row is cut into row-sized pieces.
pub open spec fn pack_state(words: Seq<Seq<(char, MdStyle)>>, width: nat) -> (
    Seq<Seq<(char, MdStyle)>>,
    Seq<(char, MdStyle)>,
    MdStyle,
)
    decreases words.len(),
{
    if words.len() == 0 {
        (seq![], seq![], plain_style())
    } else {
        let (rows, row, sp) = pack_state(words.drop_last(), width);
        let word = words.last();
        let sp2 = if word.len() > 0 {
            word[0].1
        } else {
            sp
        };
        let needed = word.len() + if row.len() > 0 {
            1int
        } else {
            0
        };
        let closes = row.len() > 0 && row.len() + needed > width;
        let rows1 = if closes {
            rows.push(row)
        } else {
            rows
        };
        let row1 = if closes {
            seq![]
        } else {
            row
        };
        if row1.len() == 0 && word.len() > width {
            (rows1 + chunks_of(word, width), row1, sp2)
        } else {
            (rows1, (if row1.len() > 0 {
                row1.push((' ', sp2))
            } else {
                row1
            }) + word, sp2)
        }
    }
}

/// The rows a segment (no hard breaks) wraps to at `width` cells: words
/// packed greedily; a zero width keeps the segment on one row; there is
/// always at least one row.
pub open spec fn wrap_rows(seg: Seq<(char, MdStyle)>, width: nat) -> Seq<Seq<(char, MdStyle)>> {
    if width == 0 {
        seq![seg]
    } else {
        let (rows, row, sp) = pack_state(seg_words(seg), width);
        if row.len() > 0 || rows.len() == 0 {
            rows.push(row)
        } else {
            rows
        }
    }
}

/// Append `src[from..to]` to `dst`.
fn copy_run(dst: &mut Vec<(char, MdStyle)>, src: &Vec<(char, MdStyle)>, from: usize, to: usize)
    requires
        from <= to <= src@.len(),
    ensures
        final(dst)@ == old(dst)@ + src@.subrange(from as int, to as int),
{
    let mut i = from;
    while i < to
        invariant
            from <= i <= to,
            to <= src@.len(),
            dst@ == old(dst)@ + src@.subrange(from as int, i as int),
        decreases to - i,
    {
        dst.push(src[i]);
        i = i + 1;
        assert(dst@ =~= old(dst)@ + src@.subrange(from as int, i as int));
    }
}

/// The words of a segment.
fn split_words(seg: &[(char, MdStyle)]) -> (words: Vec<Vec<(char, MdStyle)>>)
    ensures
        seqs_of(words@) == seg_words(seg@),
{
    let mut words: Vec<Vec<(char, MdStyle)>> = Vec::new();
    let mut cur: Vec<(char, MdStyle)> = Vec::new();
    let mut i: usize = 0;
    while i < seg.len()
        invariant
            i <= seg@.len(),
            (seqs_of(words@), cur@) == tok_state(seg@.take(i as int)),
        decreases seg@.len() - i,
    {
        let p = seg[i];
        assert(seg@.take(i + 1).drop_last() =~= seg@.take(i as int));
        let ghost w0 = words@;
        if p.0 == ' ' {
            if cur.len() > 0 {
                words.push(cur);
                cur = Vec::new();
                assert(seqs_of(words@) =~= seqs_of(w0).push(tok_state(seg@.take(i as int)).1));
            }
        } else {
            cur.push(p);
        }
        i = i + 1;
    }
    assert(seg@.take(seg@.len() as int) =~= seg@);
    if cur.len() > 0 {
        let ghost w0 = words@;
        words.push(cur);
        assert(seqs_of(words@) =~= seqs_of(w0).push(tok_state(seg@).1));
    }
    words
}

/// Append the row-sized pieces of `word` to `rows`.
fn push_chunks(rows: &mut Vec<Vec<(char, MdStyle)>>, word: &Vec<(char, MdStyle)>, width: usize)
    requires
        width > 0,
    ensures
        seqs_of(final(rows)@) == seqs_of(old(rows)@) + chunks_of(word@, width as nat),
{
    let n = word.len();
    let mut start: usize = 0;
    assert(word@.skip(0) =~= word@);
    while n - start > width
        invariant
            width > 0,
            start <= n,
            n == word@.len(),
            seqs_of(rows@) + chunks_of(word@.skip(start as int), width as nat) == seqs_of(old(rows)@)
                + chunks_of(word@, width as nat),
        decreases n - start,
    {
        let mut piece: Vec<(char, MdStyle)> = Vec::new();
        copy_run(&mut piece, word, start, start + width);
        let ghost r0 = rows@;
        let ghost rest = word@.skip(start as int);
        assert(piece@ =~= rest.take(width as int));
        assert(rest.skip(width as int) =~= word@.skip(start + width));
        rows.push(piece);
        assert(seqs_of(rows@) =~= seqs_of(r0).push(rest.take(width as int)));
        assert(chunks_of(rest, width as nat) == seq![rest.take(width as int)] + chunks_of(
            rest.skip(width as int),
            width as nat,
        ));
        assert(seqs_of(rows@) + chunks_of(word@.skip(start + width), width as nat) =~= seqs_of(r0)
            + chunks_of(rest, width as nat));
        start = start + width;
    }
    let mut piece: Vec<(char, MdStyle)> = Vec::new();
    copy_run(&mut piece, word, start, n);
    let ghost r0 = rows@;
    assert(piece@ =~= word@.skip(start as int));
    rows.push(piece);
    assert(chunks_of(word@.skip(start as int), width as nat) == seq![word@.skip(start as int)]);
    assert(seqs_of(rows@) =~= seqs_of(r0) + chunks_of(word@.skip(start as int), width as nat));
}

} // verus!

verus! {

/// Rows as styled lines: each row's chars grouped into spans.
pub open spec fn rows_to_lines(rows: Seq<Seq<(char, MdStyle)>>) -> Seq<Seq<(Seq<char>, MdStyle)>> {
    rows.map_values(|r: Seq<(char, MdStyle)>| group_spans(r))
}

fn lines_of_rows(rows: &Vec<Vec<(char, MdStyle)>>) -> (lines: Vec<Vec<MdSpan>>)
    ensures
        lines_view(lines@) == rows_to_lines(seqs_of(rows@)),
{
    let mut lines: Vec<Vec<MdSpan>> = Vec::new();
    let mut i: usize = 0;
    while i < rows.len()
        invariant
            i <= rows@.len(),
            lines_view(lines@) == rows_to_lines(seqs_of(rows@).take(i as int)),
        decreases rows@.len() - i,
    {
        let l = chars_to_line(rows[i].as_slice());
        let ghost l0 = lines@;
        lines.push(l);
        assert(seqs_of(rows@)[i as int] == rows@[i as int]@);
        assert(lines_view(lines@) =~= lines_view(l0).push(line_view(l@)));
        assert(rows_to_lines(seqs_of(rows@).take(i + 1)) =~= rows_to_lines(
            seqs_of(rows@).take(i as int),
        ).push(group_spans(seqs_of(rows@)[i as int])));
        i = i + 1;
    }
    assert(seqs_of(rows@).take(rows@.len() as int) =~= seqs_of(rows@));
    lines
}

/// Word-wrap one segment (no hard breaks) into styled lines of at most
/// `width` cells: the [`wrap_rows`] of the segment, each grouped into spans.
pub fn wrap_segment(segment: &[(char, MdStyle)], width: usize) -> (lines: Vec<Vec<MdSpan>>)
    ensures
        lines_view(lines@) == rows_to_lines(wrap_rows(segment@, width as nat)),
{
    if width == 0 {
        let l = chars_to_line(segment);
        let mut lines: Vec<Vec<MdSpan>> = Vec::new();
        lines.push(l);
        assert(lines_view(lines@) =~= rows_to_lines(wrap_rows(segment@, width as nat)));
        return lines;
    }
    let words = split_words(segment);
    let ghost ws = seqs_of(words@);
    let mut rows: Vec<Vec<(char, MdStyle)>> = Vec::new();
    let mut row: Vec<(char, MdStyle)> = Vec::new();
    let mut space_style = MdStyle {
        fg: None,
        bg: None,
        bold: false,
        italic: false,
        crossed: false,
        underlined: false,
        dim: false,
    };
    let mut k: usize = 0;
    assert(ws.take(0) =~= Seq::<Seq<(char, MdStyle)>>::empty());
    while k < words.len()
        invariant
            width > 0,
            ws == seqs_of(words@),
            k <= words@.len(),
            row@.len() <= width,
            (seqs_of(rows@), row@, space_style) == pack_state(ws.take(k as int), width as nat),
        decreases words@.len() - k,
    {
        let word = &words[k];
        assert(ws.take(k + 1).drop_last() =~= ws.take(k as int));
        assert(ws.take(k + 1).last() == word@);
        if word.len() > 0 {
            space_style = word[0].1;
        }
        let closes = row.len() > 0 && word.len() >= width - row.len();
        if closes {
            let ghost r0 = rows@;
            rows.push(row);
            row = Vec::new();
            assert(seqs_of(rows@) =~= seqs_of(r0).push(pack_state(ws.take(k as int), width as nat).1));
        }
        if row.len() == 0 && word.len() > width {
            push_chunks(&mut rows, word, width);
        } else {
            if row.len() > 0 {
                row.push((' ', space_style));
            }
            copy_run(&mut row, word, 0, word.len());
            assert(word@.subrange(0, word@.len() as int) =~= word@);
        }
        k = k + 1;
    }
    assert(ws.take(words@.len() as int) =~= ws);
    if row.len() > 0 || rows.len() == 0 {
        let ghost r0 = rows@;
        rows.push(row);
        assert(seqs_of(rows@) =~= seqs_of(r0).push(pack_state(ws, width as nat).1));
    }
    lines_of_rows(&rows)
}

} // verus!

verus! {

/// Splitting state at hard breaks (`'\n'`) after reading `cs`: the finished
/// segments and the segment being read.
pub open spec fn brk_state(cs: Seq<(char, MdStyle)>) -> (Seq<Seq<(char, MdStyle)>>, Seq<(char, MdStyle)>)
    decreases cs.len(),
{
    if cs.len() == 0 {
        (seq![], seq![])
    } else {
        let (done, cur) = brk_state(cs.drop_last());
        if cs.last().0 == '\n' {
            (done.push(cur), seq![])
        } else {
            (done, cur.push(cs.last()))
        }
    }
}

/// The segments of `cs` between hard breaks (always at least one).
pub open spec fn break_segments(cs: Seq<(char, MdStyle)>) -> Seq<Seq<(char, MdStyle)>> {
    brk_state(cs).0.push(brk_state(cs).1)
}

/// Lines of the given segments, each segment wrapped on its own.
pub open spec fn segments_lines(segs: Seq<Seq<(char, MdStyle)>>, width: nat) -> Seq<
    Seq<(Seq<char>, MdStyle)>,
> {
    segs.map_values(|seg: Seq<(char, MdStyle)>| rows_to_lines(wrap_rows(seg, width))).flatten()
}

/// Styled text with hard breaks, word-wrapped at `width`: each segment
/// between breaks wrapped on its own, the lines in order.
pub open spec fn wrapped_lines(cs: Seq<(char, MdStyle)>, width: nat) -> Seq<Seq<(Seq<char>, MdStyle)>> {
    segments_lines(break_segments(cs), width)
}

proof fn lemma_segments_lines_push(segs: Seq<Seq<(char, MdStyle)>>, seg: Seq<(char, MdStyle)>, width: nat)
    ensures
        segments_lines(segs.push(seg), width) == segments_lines(segs, width) + rows_to_lines(
            wrap_rows(seg, width),
        ),
{
    let f = |s: Seq<(char, MdStyle)>| rows_to_lines(wrap_rows(s, width));
    assert(segs.push(seg).map_values(f) =~= segs.map_values(f).push(f(seg)));
    segs.map_values(f).lemma_flatten_push(f(seg));
}

proof fn lemma_lines_view_append(a: Seq<Vec<MdSpan>>, b: Seq<Vec<MdSpan>>)
    ensures
        lines_view(a + b) == lines_view(a) + lines_view(b),
{
    assert(lines_view(a + b) =~= lines_view(a) + lines_view(b));
}

/// Word-wrap styled text with hard breaks into lines of at most `width`
/// cells.
pub fn wrap_styled(content: &Vec<(char, MdStyle)>, width: usize) -> (lines: Vec<Vec<MdSpan>>)
    ensures
        lines_view(lines@) == wrapped_lines(content@, width as nat),
{
    let mut lines: Vec<Vec<MdSpan>> = Vec::new();
    let mut cur: Vec<(char, MdStyle)> = Vec::new();
    let mut i: usize = 0;
    assert(content@.take(0) =~= Seq::<(char, MdStyle)>::empty());
    assert(seqs_of(Seq::<Vec<(char, MdStyle)>>::empty()) =~= Seq::<Seq<(char, MdStyle)>>::empty());
    assert(segments_lines(seq![], width as nat) =~= seq![]) by {
        reveal_with_fuel(Seq::flatten, 2);
    }
    while i < content.len()
        invariant
            i <= content@.len(),
            cur@ == brk_state(content@.take(i as int)).1,
            lines_view(lines@) == segments_lines(brk_state(content@.take(i as int)).0, width as nat),
        decreases content@.len() - i,
    {
        let p = content[i];
        assert(content@.take(i + 1).drop_last() =~= content@.take(i as int));
        if p.0 == '\n' {
            let mut more = wrap_segment(cur.as_slice(), width);
            let ghost l0 = lines@;
            let ghost m0 = more@;
            lines.append(&mut more);
            proof {
                lemma_lines_view_append(l0, m0);
                lemma_segments_lines_push(brk_state(content@.take(i as int)).0, cur@, width as nat);
            }
            cur = Vec::new();
        } else {
            cur.push(p);
        }
        i = i + 1;
    }
    assert(content@.take(content@.len() as int) =~= content@);
    let mut more = wrap_segment(cur.as_slice(), width);
    let ghost l0 = lines@;
    let ghost m0 = more@;
    lines.append(&mut more);
    proof {
        lemma_lines_view_append(l0, m0);
        lemma_segments_lines_push(brk_state(content@).0, cur@, width as nat);
    }
    lines
}

} // verus!

verus! {

/// The renderer's state as plain values.
pub struct MdModel {
    /// Lines produced so far.
    pub out: Seq<Seq<(Seq<char>, MdStyle)>>,
    /// Styled chars of the paragraph, heading or list item being read
    /// (`'\n'` marks a hard break).
    pub inline: Seq<(char, MdStyle)>,
    pub bold: bool,
    pub italic: bool,
    pub strike: bool,
    pub link: bool,
    /// Level of the heading being read.
    pub heading: Option<u8>,
    /// Block-quote nesting.
    pub quote_depth: usize,
    /// Open lists, innermost last: whether ordered, and the current number.
    pub list_stack: Seq<(bool, usize)>,
    /// Whether a list item is open.
    pub item_active: bool,
    /// Raw text of the fenced code block being read.
    pub code_block: Option<Seq<char>>,
    /// Colors.
    pub palette: Palette,
    /// Line width in cells (at least 1).
    pub width: usize,
}

/// The style of body text under the current flags: accent when in a
/// heading (else the foreground), bold in headings and strong text, italic,
/// crossed out, underlined in links, dimmed in quotes.
pub open spec fn text_style_of(m: MdModel) -> MdStyle {
    MdStyle {
        fg: Some(if m.heading is Some { m.palette.accent } else { m.palette.fg }),
        bg: None,
        bold: m.heading is Some || m.bold,
        italic: m.italic,
        crossed: m.strike,
        underlined: m.link,
        dim: m.quote_depth > 0,
    }
}

/// The style of inline code: bold accent2 on the panel color.
pub open spec fn code_style_of(p: Palette) -> MdStyle {
    MdStyle { fg: Some(p.accent2), bg: Some(p.panel), bold: true, ..plain_style() }
}

/// The block-quote bar prefix: `"▏ "` per nesting level.
pub open spec fn quote_prefix(depth: nat) -> Seq<char> {
    Seq::new(2 * depth, |i: int| if i % 2 == 0 { '▏' } else { ' ' })
}

/// The list prefix of the first line of an item: two spaces per enclosing
/// list, then `"<n>. "` in an ordered list or `"• "`.
pub open spec fn list_prefix(stack: Seq<(bool, usize)>) -> Seq<char> {
    if stack.len() == 0 {
        seq![]
    } else {
        spaces(2 * (stack.len() - 1) as nat) + if stack.last().0 {
            decimal(stack.last().1 as nat) + seq!['.', ' ']
        } else {
            seq!['•', ' ']
        }
    }
}

/// The text to wrap when flushing: the inline chars, after `#`s and a space
/// in the heading style when in a heading.
pub open spec fn decorated_of(m: MdModel) -> Seq<(char, MdStyle)> {
    match m.heading {
        Some(level) => Seq::new(level as nat, |i: int| ('#', text_style_of(m))).push(
            (' ', text_style_of(m)),
        ) + m.inline,
        None => m.inline,
    }
}

/// Width of the first-line prefix: the quote bars and the list marker.
pub open spec fn prefix_width(m: MdModel) -> nat {
    (quote_prefix(m.quote_depth as nat) + list_prefix(m.list_stack)).len()
}

/// Whether the prefix leaves at least one cell of the line for the body;
/// when it does not, the lines are drawn without prefixes.
pub open spec fn prefix_fits(m: MdModel) -> bool {
    prefix_width(m) < m.width
}

/// The prefix span of flushed line `i`: on the first line the quote bars and
/// the list marker (muted in a quote, accent otherwise), on later lines the
/// quote bars and spaces as wide as the marker (muted); no text when the
/// prefix does not fit.
pub open spec fn prefix_span(m: MdModel, i: int) -> (Seq<char>, MdStyle) {
    let q = quote_prefix(m.quote_depth as nat);
    let l = list_prefix(m.list_stack);
    if i == 0 {
        (
            if prefix_fits(m) { q + l } else { seq![] },
            if m.quote_depth > 0 { fg_style(m.palette.muted) } else { fg_style(m.palette.accent) },
        )
    } else {
        (if prefix_fits(m) { q + spaces(l.len()) } else { seq![] }, fg_style(m.palette.muted))
    }
}

/// Width left for the body: the line width less the prefix when the prefix
/// fits, else the whole line width (at least 1).
pub open spec fn body_width_of(m: MdModel) -> nat {
    if prefix_fits(m) {
        (m.width - prefix_width(m)) as nat
    } else if m.width < 1 {
        1
    } else {
        m.width as nat
    }
}

/// The lines a flush emits: the decorated text wrapped to the body width,
/// each line after its prefix span (omitted when the prefix is empty).
pub open spec fn flush_lines(m: MdModel) -> Seq<Seq<(Seq<char>, MdStyle)>> {
    let w = wrapped_lines(decorated_of(m), body_width_of(m));
    Seq::new(
        w.len(),
        |i: int|
            if prefix_span(m, i).0.len() > 0 {
                seq![prefix_span(m, i)] + w[i]
            } else {
                w[i]
            },
    )
}

/// Flushing the open paragraph: nothing happens when no text was read and
/// no heading or item is open; otherwise its lines are emitted, the inline
/// buffer is emptied and the heading closed.
pub open spec fn flush_of(m: MdModel) -> MdModel {
    if m.inline.len() == 0 && m.heading is None && !m.item_active {
        m
    } else {
        MdModel { out: m.out + flush_lines(m), inline: seq![], heading: None, ..m }
    }
}

/// The lines of a fenced code block at `width` cells: each source line cut
/// into width-sized pieces, each piece in the code style followed by spaces
/// on the panel color up to the width.
pub open spec fn code_lines(code: Seq<char>, p: Palette, width: usize) -> Seq<Seq<(Seq<char>, MdStyle)>> {
    let bw = if width < 1 {
        1nat
    } else {
        width as nat
    };
    text_lines(code).map_values(|raw: Seq<char>| raw_code_lines(raw, p, bw)).flatten()
}

/// The lines of one source line of a code block: its width-sized pieces,
/// each in the code style and padded with spaces on the panel color.
pub open spec fn raw_code_lines(raw: Seq<char>, p: Palette, bw: nat) -> Seq<Seq<(Seq<char>, MdStyle)>> {
    chunks_of(raw, bw).map_values(|chunk: Seq<char>| code_row(chunk, p, bw))
}

/// One code-block row: the piece, then the padding span.
pub open spec fn code_row(chunk: Seq<char>, p: Palette, bw: nat) -> Seq<(Seq<char>, MdStyle)> {
    seq![
        (chunk, MdStyle { fg: Some(p.accent2), bg: Some(p.panel), ..plain_style() }),
        (spaces((bw - chunk.len()) as nat), MdStyle { bg: Some(p.panel), ..plain_style() }),
    ]
}

/// `s` split at every `'\n'` (always at least one piece).
pub open spec fn text_lines(s: Seq<char>) -> Seq<Seq<char>> {
    text_state(s).0.push(text_state(s).1)
}

/// Splitting state at `'\n'` after reading `s`.
pub open spec fn text_state(s: Seq<char>) -> (Seq<Seq<char>>, Seq<char>)
    decreases s.len(),
{
    if s.len() == 0 {
        (seq![], seq![])
    } else {
        let (done, cur) = text_state(s.drop_last());
        if s.last() == '\n' {
            (done.push(cur), seq![])
        } else {
            (done, cur.push(s.last()))
        }
    }
}

} // verus!

verus! {

/// The markdown renderer: turns events into styled lines.
pub struct MdRenderer {
    palette: Palette,
    width: usize,
    out: Vec<Vec<MdSpan>>,
    inline: Vec<(char, MdStyle)>,
    bold: bool,
    italic: bool,
    strike: bool,
    link: bool,
    heading: Option<u8>,
    quote_depth: usize,
    list_stack: Vec<(bool, usize)>,
    item_active: bool,
    code_block: Option<Vec<char>>,
}

/// A copy of a char vector.
fn copy_chars(v: &Vec<char>) -> (r: Vec<char>)
    ensures
        r@ == v@,
{
    let mut r: Vec<char> = Vec::new();
    let mut i: usize = 0;
    while i < v.len()
        invariant
            i <= v@.len(),
            r@ == v@.take(i as int),
        decreases v@.len() - i,
    {
        r.push(v[i]);
        i = i + 1;
        assert(r@ =~= v@.take(i as int));
    }
    assert(v@.take(v@.len() as int) =~= v@);
    r
}

/// Append the decimal digits of `n`.
fn push_decimal_chars(v: &mut Vec<char>, n: usize)
    ensures
        final(v)@ == old(v)@ + decimal(n as nat),
    decreases n,
{
    if n >= 10 {
        push_decimal_chars(v, n / 10);
    }
    v.push(((n % 10) as u8 + 48) as char);
    assert(final(v)@ =~= old(v)@ + decimal(n as nat));
}

impl MdRenderer {
    /// The state as plain values.
    pub closed spec fn model(&self) -> MdModel {
        MdModel {
            out: lines_view(self.out@),
            inline: self.inline@,
            bold: self.bold,
            italic: self.italic,
            strike: self.strike,
            link: self.link,
            heading: self.heading,
            quote_depth: self.quote_depth,
            list_stack: self.list_stack@,
            item_active: self.item_active,
            code_block: match self.code_block {
                Some(v) => Some(v@),
                None => None,
            },
            palette: self.palette,
            width: self.width,
        }
    }

    /// The style of body text under the current flags.
    fn text_style(&self) -> (s: MdStyle)
        ensures
            s == text_style_of(self.model()),
    {
        MdStyle {
            fg: Some(
                if self.heading.is_some() {
                    self.palette.accent
                } else {
                    self.palette.fg
                },
            ),
            bg: None,
            bold: self.heading.is_some() || self.bold,
            italic: self.italic,
            crossed: self.strike,
            underlined: self.link,
            dim: self.quote_depth > 0,
        }
    }

    /// The style of inline code.
    fn code_style(&self) -> (s: MdStyle)
        ensures
            s == code_style_of(self.model().palette),
    {
        MdStyle {
            fg: Some(self.palette.accent2),
            bg: Some(self.palette.panel),
            bold: true,
            italic: false,
            crossed: false,
            underlined: false,
            dim: false,
        }
    }

    fn quote_prefix_chars(&self) -> (v: Vec<char>)
        ensures
            v@ == quote_prefix(self.quote_depth as nat),
    {
        let mut v: Vec<char> = Vec::new();
        let mut i: usize = 0;
        while i < self.quote_depth
            invariant
                i <= self.quote_depth,
                v@ == quote_prefix(i as nat),
            decreases self.quote_depth - i,
        {
            v.push('▏');
            v.push(' ');
            i = i + 1;
            assert(v@ =~= quote_prefix(i as nat));
        }
        v
    }

    fn list_prefix_chars(&self) -> (v: Vec<char>)
        ensures
            v@ == list_prefix(self.list_stack@),
    {
        let mut v: Vec<char> = Vec::new();
        let n = self.list_stack.len();
        if n == 0 {
            return v;
        }
        let mut i: usize = 1;
        while i < n
            invariant
                1 <= i <= n,
                v@ == spaces(2 * (i - 1) as nat),
            decreases n - i,
        {
            v.push(' ');
            v.push(' ');
            i = i + 1;
            assert(v@ =~= spaces(2 * (i - 1) as nat));
        }
        let (ordered, counter) = self.list_stack[n - 1];
        let ghost pre = v@;
        if ordered {
            push_decimal_chars(&mut v, counter);
            v.push('.');
            v.push(' ');
        } else {
            v.push('•');
            v.push(' ');
        }
        assert(v@ =~= list_prefix(self.list_stack@));
        v
    }

    /// Emit the open paragraph, heading or item (see [`flush_of`]).
    fn flush_inline(&mut self)
        ensures
            final(self).model() == flush_of(old(self).model()),
    {
        if self.inline.len() == 0 && self.heading.is_none() && !self.item_active {
            return;
        }
        let ghost m = self.model();
        let mut inline: Vec<(char, MdStyle)> = Vec::new();
        std::mem::swap(&mut inline, &mut self.inline);
        assert(self.inline@ =~= Seq::<(char, MdStyle)>::empty());
        assert(inline@ == m.inline);
        let q = self.quote_prefix_chars();
        let l = self.list_prefix_chars();
        let mut first = copy_chars(&q);
        let mut l2 = copy_chars(&l);
        first.append(&mut l2);
        let mut cont = copy_chars(&q);
        let mut k: usize = 0;
        while k < l.len()
            invariant
                k <= l@.len(),
                cont@ == q@ + spaces(k as nat),
            decreases l@.len() - k,
        {
            cont.push(' ');
            k = k + 1;
            assert(cont@ =~= q@ + spaces(k as nat));
        }
        let pfx_w = first.len();
        let body_w: usize = if pfx_w < self.width {
            self.width - pfx_w
        } else {
            first = Vec::new();
            cont = Vec::new();
            if self.width < 1 {
                1
            } else {
                self.width
            }
        };
        assert(body_w as nat == body_width_of(m));
        let ts = self.text_style();
        let mut decorated: Vec<(char, MdStyle)> = Vec::new();
        match self.heading {
            Some(level) => {
                let mut j: u8 = 0;
                while j < level
                    invariant
                        j <= level,
                        decorated@ == Seq::new(j as nat, |i: int| ('#', ts)),
                    decreases level - j,
                {
                    decorated.push(('#', ts));
                    j = j + 1;
                    assert(decorated@ =~= Seq::new(j as nat, |i: int| ('#', ts)));
                }
                decorated.push((' ', ts));
                decorated.append(&mut inline);
            },
            None => {
                decorated = inline;
            },
        }
        assert(decorated@ == decorated_of(m));
        let mut wrapped = wrap_styled(&decorated, body_w);
        let ghost w = wrapped_lines(decorated_of(m), body_width_of(m));
        let ghost out0 = self.out@;
        let quote_style = MdStyle { fg: Some(self.palette.muted), bg: None, bold: false, italic: false, crossed: false, underlined: false, dim: false };
        let list_style = MdStyle { fg: Some(self.palette.accent), bg: None, bold: false, italic: false, crossed: false, underlined: false, dim: false };
        let first_style = if self.quote_depth > 0 {
            quote_style
        } else {
            list_style
        };
        let total = wrapped.len();
        assert(total == w.len());
        assert(flush_lines(m).len() == w.len());
        let mut i: usize = 0;
        while i < total
            invariant
                total == w.len(),
                i <= total,
                lines_view(wrapped@) == w.skip(i as int),
                lines_view(self.out@) == lines_view(out0) + flush_lines(m).take(i as int),
                m.palette == self.palette,
                m.quote_depth == self.quote_depth,
                m.list_stack == self.list_stack@,
                first@ == prefix_span(m, 0).0,
                first_style == prefix_span(m, 0).1,
                cont@ == prefix_span(m, 1).0,
                quote_style == prefix_span(m, 1).1,
                flush_lines(m).len() == w.len(),
                w == wrapped_lines(decorated_of(m), body_width_of(m)),
                self.inline@ == Seq::<(char, MdStyle)>::empty(),
                self.width == m.width,
                self.bold == m.bold,
                self.italic == m.italic,
                self.strike == m.strike,
                self.link == m.link,
                self.heading == m.heading,
                self.item_active == m.item_active,
                self.model().code_block == m.code_block,
            decreases total - i,
        {
            let ghost wv = wrapped@;
            assert(wv.len() == lines_view(wv).len());
            let row = wrapped.remove(0);
            assert(lines_view(wrapped@) =~= w.skip(i + 1)) by {
                assert(wrapped@ =~= wv.subrange(1, wv.len() as int));
                assert forall|j: int| 0 <= j < lines_view(wrapped@).len() implies lines_view(wrapped@)[j] == w.skip(i + 1)[j] by {
                    assert(lines_view(wv)[j + 1] == w.skip(i as int)[j + 1]);
                }
            }
            assert(line_view(row@) == w[i as int]) by {
                assert(lines_view(wv)[0] == w.skip(i as int)[0]);
            }
            let mut line: Vec<MdSpan> = Vec::new();
            let (pfx, st) = if i == 0 {
                (copy_chars(&first), first_style)
            } else {
                (copy_chars(&cont), quote_style)
            };
            assert(pfx@ == prefix_span(m, i as int).0 && st == prefix_span(m, i as int).1);
            let ghost ps = prefix_span(m, i as int);
            if pfx.len() > 0 {
                line.push(MdSpan { text: pfx, style: st });
            }
            let ghost lv0 = line@;
            assert(line_view(lv0) =~= (if ps.0.len() > 0 {
                seq![ps]
            } else {
                seq![]
            }));
            let mut row = row;
            line.append(&mut row);
            let ghost o0 = self.out@;
            self.out.push(line);
            proof {
                assert(line_view(line@) =~= line_view(lv0) + w[i as int]);
                assert(flush_lines(m)[i as int] == (if ps.0.len() > 0 {
                    seq![ps] + w[i as int]
                } else {
                    w[i as int]
                }));
                assert(line_view(line@) =~= flush_lines(m)[i as int]);
                assert(lines_view(self.out@) =~= lines_view(o0).push(line_view(line@)));
                assert(flush_lines(m).take(i + 1) =~= flush_lines(m).take(i as int).push(
                    flush_lines(m)[i as int],
                ));
            }
            i = i + 1;
        }
        assert(flush_lines(m).take(total as int) =~= flush_lines(m));
        self.heading = None;
        assert(self.inline@ =~= Seq::<(char, MdStyle)>::empty());
        assert(self.model().out =~= flush_of(m).out);
        assert(self.model().inline =~= flush_of(m).inline);
    }
}

} // verus!

verus! {

proof fn lemma_code_lines_push(raws: Seq<Seq<char>>, raw: Seq<char>, p: Palette, bw: nat)
    ensures
        raws.push(raw).map_values(|r: Seq<char>| raw_code_lines(r, p, bw)).flatten() == raws.map_values(
            |r: Seq<char>| raw_code_lines(r, p, bw),
        ).flatten() + raw_code_lines(raw, p, bw),
{
    let f = |r: Seq<char>| raw_code_lines(r, p, bw);
    assert(raws.push(raw).map_values(f) =~= raws.map_values(f).push(f(raw)));
    raws.map_values(f).lemma_flatten_push(f(raw));
}

impl MdRenderer {
    /// Append the rows of one code-block source line.
    fn emit_code_raw(&mut self, raw: &Vec<char>, bw: usize)
        requires
            bw >= 1,
        ensures
            final(self).model() == (MdModel {
                out: old(self).model().out + raw_code_lines(raw@, old(self).palette, bw as nat),
                ..old(self).model()
            }),
    {
        let ghost m = self.model();
        let p = self.palette;
        let n = raw.len();
        let mut start: usize = 0;
        assert(raw@.skip(0) =~= raw@);
        loop
            invariant_except_break
                start <= n,
                n == raw@.len(),
                bw >= 1,
                p == m.palette,
                self.model() == (MdModel { out: self.model().out, ..m }),
                self.model().out + raw_code_lines(raw@.skip(start as int), p, bw as nat) == m.out
                    + raw_code_lines(raw@, p, bw as nat),
            ensures
                self.model() == (MdModel { out: m.out + raw_code_lines(raw@, p, bw as nat), ..m }),
            decreases n - start,
        {
            let rest_len = n - start;
            let ghost rest = raw@.skip(start as int);
            let end = if rest_len <= bw {
                n
            } else {
                start + bw
            };
            let mut chunk: Vec<char> = Vec::new();
            let mut j = start;
            while j < end
                invariant
                    start <= j <= end <= n,
                    n == raw@.len(),
                    chunk@ == raw@.subrange(start as int, j as int),
                decreases end - j,
            {
                chunk.push(raw[j]);
                j = j + 1;
                assert(chunk@ =~= raw@.subrange(start as int, j as int));
            }
            let clen = chunk.len();
            let mut pad: Vec<char> = Vec::new();
            let mut k: usize = 0;
            while k < bw - clen
                invariant
                    clen <= bw,
                    k <= bw - clen,
                    pad@ == spaces(k as nat),
                decreases bw - clen - k,
            {
                pad.push(' ');
                k = k + 1;
                assert(pad@ =~= spaces(k as nat));
            }
            let cs = MdStyle { fg: Some(p.accent2), bg: Some(p.panel), bold: false, italic: false, crossed: false, underlined: false, dim: false };
            let bg = MdStyle { fg: None, bg: Some(p.panel), bold: false, italic: false, crossed: false, underlined: false, dim: false };
            let mut line: Vec<MdSpan> = Vec::new();
            line.push(MdSpan { text: chunk, style: cs });
            line.push(MdSpan { text: pad, style: bg });
            let ghost o0 = self.out@;
            self.out.push(line);
            proof {
                assert(line_view(line@) =~= code_row(raw@.subrange(start as int, end as int), p, bw as nat));
                assert(lines_view(self.out@) =~= lines_view(o0).push(line_view(line@)));
                if rest_len <= bw {
                    assert(raw@.subrange(start as int, end as int) =~= rest);
                    assert(chunks_of(rest, bw as nat) == seq![rest]);
                    assert(raw_code_lines(rest, p, bw as nat) =~= seq![code_row(rest, p, bw as nat)]);
                } else {
                    assert(raw@.subrange(start as int, end as int) =~= rest.take(bw as int));
                    assert(rest.skip(bw as int) =~= raw@.skip(end as int));
                    assert(chunks_of(rest, bw as nat) == seq![rest.take(bw as int)] + chunks_of(
                        rest.skip(bw as int),
                        bw as nat,
                    ));
                    assert(raw_code_lines(rest, p, bw as nat) =~= seq![code_row(rest.take(bw as int), p, bw as nat)]
                        + raw_code_lines(raw@.skip(end as int), p, bw as nat));
                }
            }
            if rest_len <= bw {
                assert(self.model().out =~= m.out + raw_code_lines(raw@, p, bw as nat));
                break;
            }
            assert(self.model().out + raw_code_lines(raw@.skip(end as int), p, bw as nat) =~= m.out
                + raw_code_lines(raw@, p, bw as nat));
            start = end;
        }
    }

    /// Append the lines of a fenced code block (see [`code_lines`]).
    fn push_code_block(&mut self, code: &Vec<char>)
        ensures
            final(self).model() == (MdModel {
                out: old(self).model().out + code_lines(code@, old(self).palette, old(self).width),
                ..old(self).model()
            }),
    {
        let ghost m = self.model();
        let bw: usize = if self.width < 1 {
            1
        } else {
            self.width
        };
        let ghost f = |r: Seq<char>| raw_code_lines(r, m.palette, bw as nat);
        let mut cur: Vec<char> = Vec::new();
        let mut i: usize = 0;
        assert(code@.take(0) =~= Seq::<char>::empty());
        assert(Seq::<Seq<char>>::empty().map_values(f).flatten() =~= seq![]) by {
            reveal_with_fuel(Seq::flatten, 2);
        }
        assert(m.out + Seq::<Seq<char>>::empty().map_values(f).flatten() =~= m.out);
        while i < code.len()
            invariant
                i <= code@.len(),
                bw >= 1,
                bw as nat == (if m.width < 1 { 1nat } else { m.width as nat }),
                self.palette == m.palette,
                f == (|r: Seq<char>| raw_code_lines(r, m.palette, bw as nat)),
                cur@ == text_state(code@.take(i as int)).1,
                self.model() == (MdModel {
                    out: m.out + text_state(code@.take(i as int)).0.map_values(f).flatten(),
                    ..m
                }),
            decreases code@.len() - i,
        {
            let c = code[i];
            assert(code@.take(i + 1).drop_last() =~= code@.take(i as int));
            if c == '\n' {
                let ghost o = self.model().out;
                self.emit_code_raw(&cur, bw);
                proof {
                    lemma_code_lines_push(text_state(code@.take(i as int)).0, cur@, m.palette, bw as nat);
                    assert(self.model().out =~= m.out + text_state(code@.take(i + 1)).0.map_values(f).flatten());
                }
                cur = Vec::new();
            } else {
                cur.push(c);
            }
            i = i + 1;
        }
        assert(code@.take(code@.len() as int) =~= code@);
        self.emit_code_raw(&cur, bw);
        proof {
            lemma_code_lines_push(text_state(code@).0, cur@, m.palette, bw as nat);
            assert(self.model().out =~= m.out + code_lines(code@, m.palette, m.width));
        }
    }
}

} // verus!

verus! {

/// A markdown block or inline container, as the renderer sees it.
#[derive(Debug, Clone, Copy, PartialEq, Eq, Structural)]
pub enum MdTag {
    Paragraph,
    /// A heading of the given level (1 to 6).
    Heading(u8),
    Strong,
    Emphasis,
    Strikethrough,
    /// A fenced or indented code block.
    CodeBlock,
    /// A list; ordered lists carry their first number.
    List(Option<u64>),
    Item,
    BlockQuote,
    Link,
    /// Anything else (rendered as its content).
    Other,
}

/// A markdown parse event, as the renderer sees it.
#[derive(Debug, Clone)]
pub enum MdEvent {
    Start(MdTag),
    End(MdTag),
    Text(String),
    Code(String),
    SoftBreak,
    HardBreak,
    Rule,
    /// Anything else (ignored).
    Other,
}

/// The number before an ordered list's first item (the counter is bumped
/// when each item starts).
pub open spec fn list_begin(start: Option<u64>) -> usize {
    match start {
        Some(n) => if (n as usize) >= 1 {
            ((n as usize) - 1) as usize
        } else {
            0
        },
        None => 0,
    }
}

/// `n + 1`, saturating.
pub open spec fn sat_inc(n: usize) -> usize {
    if n == usize::MAX {
        n
    } else {
        (n + 1) as usize
    }
}

/// The list stack with the innermost ordered list's counter bumped.
pub open spec fn bump_top(stack: Seq<(bool, usize)>) -> Seq<(bool, usize)> {
    if stack.len() > 0 && stack.last().0 {
        stack.update(stack.len() - 1, (true, sat_inc(stack.last().1)))
    } else {
        stack
    }
}

/// `s` with each char in style `st`.
pub open spec fn styled(s: Seq<char>, st: MdStyle) -> Seq<(char, MdStyle)> {
    s.map_values(|c: char| (c, st))
}

/// The renderer state after one event.
pub open spec fn md_step(m: MdModel, e: MdEvent) -> MdModel {
    match e {
        MdEvent::Start(tag) => match tag {
            MdTag::Heading(l) => MdModel { heading: Some(l), ..m },
            MdTag::Strong => MdModel { bold: true, ..m },
            MdTag::Emphasis => MdModel { italic: true, ..m },
            MdTag::Strikethrough => MdModel { strike: true, ..m },
            MdTag::Link => MdModel { link: true, ..m },
            MdTag::CodeBlock => MdModel { code_block: Some(seq![]), ..flush_of(m) },
            MdTag::List(start) => MdModel {
                list_stack: m.list_stack.push((start is Some, list_begin(start))),
                ..m
            },
            MdTag::Item => MdModel {
                item_active: true,
                list_stack: bump_top(flush_of(m).list_stack),
                ..flush_of(m)
            },
            MdTag::BlockQuote => MdModel {
                quote_depth: sat_inc(flush_of(m).quote_depth),
                ..flush_of(m)
            },
            _ => m,
        },
        MdEvent::End(tag) => match tag {
            MdTag::Paragraph | MdTag::Heading(_) => flush_of(m),
            MdTag::Strong => MdModel { bold: false, ..m },
            MdTag::Emphasis => MdModel { italic: false, ..m },
            MdTag::Strikethrough => MdModel { strike: false, ..m },
            MdTag::Link => MdModel { link: false, ..m },
            MdTag::CodeBlock => match m.code_block {
                Some(c) => MdModel {
                    out: m.out + code_lines(c, m.palette, m.width),
                    code_block: None,
                    ..m
                },
                None => m,
            },
            MdTag::List(_) => MdModel {
                list_stack: if flush_of(m).list_stack.len() > 0 {
                    flush_of(m).list_stack.drop_last()
                } else {
                    flush_of(m).list_stack
                },
                ..flush_of(m)
            },
            MdTag::Item => MdModel { item_active: false, ..flush_of(m) },
            MdTag::BlockQuote => MdModel {
                quote_depth: if flush_of(m).quote_depth > 0 {
                    (flush_of(m).quote_depth - 1) as usize
                } else {
                    0
                },
                ..flush_of(m)
            },
            _ => m,
        },
        MdEvent::Text(s) => match m.code_block {
            Some(c) => MdModel { code_block: Some(c + s@), ..m },
            None => MdModel { inline: m.inline + styled(s@, text_style_of(m)), ..m },
        },
        MdEvent::Code(s) => MdModel { inline: m.inline + styled(s@, code_style_of(m.palette)), ..m },
        MdEvent::SoftBreak | MdEvent::HardBreak => if m.code_block is None {
            MdModel { inline: m.inline.push(('\n', text_style_of(m))), ..m }
        } else {
            m
        },
        MdEvent::Rule => MdModel {
            out: flush_of(m).out.push(
                seq![(Seq::new(if m.width < 1 { 1nat } else { m.width as nat }, |i: int| '─'), fg_style(m.palette.muted))],
            ),
            ..flush_of(m)
        },
        MdEvent::Other => m,
    }
}

} // verus!

verus! {

impl MdRenderer {
    fn push_styled(&mut self, s: &str, st: MdStyle)
        ensures
            final(self).model() == (MdModel {
                inline: old(self).model().inline + styled(s@, st),
                ..old(self).model()
            }),
    {
        let chars = chars_of(s);
        let ghost i0 = self.inline@;
        let mut i: usize = 0;
        while i < chars.len()
            invariant
                i <= chars@.len(),
                chars@ == s@,
                self.model() == (MdModel { inline: i0 + styled(s@.take(i as int), st), ..old(self).model() }),
            decreases chars@.len() - i,
        {
            self.inline.push((chars[i], st));
            i = i + 1;
            assert(self.inline@ =~= i0 + styled(s@.take(i as int), st));
        }
        assert(s@.take(s@.len() as int) =~= s@);
    }

    /// Apply a start event.
    fn start_tag(&mut self, tag: MdTag)
        ensures
            final(self).model() == md_step(old(self).model(), MdEvent::Start(tag)),
    {
        match tag {
            MdTag::Heading(l) => {
                self.heading = Some(l);
            },
            MdTag::Strong => {
                self.bold = true;
            },
            MdTag::Emphasis => {
                self.italic = true;
            },
            MdTag::Strikethrough => {
                self.strike = true;
            },
            MdTag::Link => {
                self.link = true;
            },
            MdTag::CodeBlock => {
                self.flush_inline();
                self.code_block = Some(Vec::new());
                assert(self.model().code_block == Some(Seq::<char>::empty()));
            },
            MdTag::List(start) => {
                let ordered = start.is_some();
                let begin: usize = match start {
                    Some(n) => {
                        let u: usize = #[verifier::truncate] (n as usize);
                        if u >= 1 {
                            u - 1
                        } else {
                            0
                        }
                    },
                    None => 0,
                };
                let ghost l0 = self.list_stack@;
                self.list_stack.push((ordered, begin));
                assert(self.list_stack@ =~= l0.push((start is Some, list_begin(start))));
            },
            MdTag::Item => {
                self.flush_inline();
                self.item_active = true;
                let n = self.list_stack.len();
                let ghost l0 = self.list_stack@;
                if n > 0 && self.list_stack[n - 1].0 {
                    let c = self.list_stack[n - 1].1;
                    self.list_stack.set(n - 1, (true, c.saturating_add(1)));
                }
                assert(self.list_stack@ =~= bump_top(l0));
            },
            MdTag::BlockQuote => {
                self.flush_inline();
                self.quote_depth = self.quote_depth.saturating_add(1);
            },
            _ => {},
        }
    }

    /// Apply an end event.
    fn end_tag(&mut self, tag: MdTag)
        ensures
            final(self).model() == md_step(old(self).model(), MdEvent::End(tag)),
    {
        match tag {
            MdTag::Paragraph | MdTag::Heading(_) => {
                self.flush_inline();
            },
            MdTag::Strong => {
                self.bold = false;
            },
            MdTag::Emphasis => {
                self.italic = false;
            },
            MdTag::Strikethrough => {
                self.strike = false;
            },
            MdTag::Link => {
                self.link = false;
            },
            MdTag::CodeBlock => {
                let mut taken: Option<Vec<char>> = None;
                std::mem::swap(&mut taken, &mut self.code_block);
                match taken {
                    Some(code) => {
                        self.push_code_block(&code);
                    },
                    None => {},
                }
            },
            MdTag::List(_) => {
                self.flush_inline();
                let ghost l0 = self.list_stack@;
                let _ = self.list_stack.pop();
                assert(self.list_stack@ =~= (if l0.len() > 0 {
                    l0.drop_last()
                } else {
                    l0
                }));
            },
            MdTag::Item => {
                self.flush_inline();
                self.item_active = false;
            },
            MdTag::BlockQuote => {
                self.flush_inline();
                self.quote_depth = self.quote_depth.saturating_sub(1);
            },
            _ => {},
        }
    }

    /// Apply a text event: raw text inside a code block, styled body text
    /// otherwise.
    fn text(&mut self, s: &String)
        ensures
            final(self).model() == md_step(old(self).model(), MdEvent::Text(*s)),
    {
        if self.code_block.is_some() {
            let mut taken: Option<Vec<char>> = None;
            std::mem::swap(&mut taken, &mut self.code_block);
            let mut buf = taken.unwrap();
            let ghost b0 = buf@;
            let mut cs = chars_of(s.as_str());
            buf.append(&mut cs);
            self.code_block = Some(buf);
            assert(self.model().code_block == Some(b0 + s@));
        } else {
            let st = self.text_style();
            self.push_styled(s.as_str(), st);
        }
    }

    /// Apply a thematic break: a full-width muted rule line.
    fn rule(&mut self)
        ensures
            final(self).model() == md_step(old(self).model(), MdEvent::Rule),
    {
        let ghost m = self.model();
        self.flush_inline();
        let w = if self.width < 1 {
            1
        } else {
            self.width
        };
        let mut rule: Vec<char> = Vec::new();
        let mut i: usize = 0;
        while i < w
            invariant
                i <= w,
                rule@ == Seq::new(i as nat, |k: int| '─'),
            decreases w - i,
        {
            rule.push('─');
            i = i + 1;
            assert(rule@ =~= Seq::new(i as nat, |k: int| '─'));
        }
        let st = MdStyle { fg: Some(self.palette.muted), bg: None, bold: false, italic: false, crossed: false, underlined: false, dim: false };
        let mut line: Vec<MdSpan> = Vec::new();
        line.push(MdSpan { text: rule, style: st });
        let ghost o0 = self.out@;
        self.out.push(line);
        assert(line_view(line@) =~= seq![(Seq::new(if m.width < 1 { 1nat } else { m.width as nat }, |k: int| '─'), fg_style(m.palette.muted))]);
        assert(lines_view(self.out@) =~= lines_view(o0).push(line_view(line@)));
    }

    /// Apply one event (see [`md_step`]).
    pub fn event(&mut self, e: &MdEvent)
        ensures
            final(self).model() == md_step(old(self).model(), *e),
    {
        match e {
            MdEvent::Start(tag) => self.start_tag(*tag),
            MdEvent::End(tag) => self.end_tag(*tag),
            MdEvent::Text(s) => self.text(s),
            MdEvent::Code(s) => {
                let st = self.code_style();
                self.push_styled(s.as_str(), st);
            },
            MdEvent::SoftBreak | MdEvent::HardBreak => {
                if self.code_block.is_none() {
                    let st = self.text_style();
                    let ghost i0 = self.inline@;
                    self.inline.push(('\n', st));
                }
            },
            MdEvent::Rule => self.rule(),
            MdEvent::Other => {},
        }
    }
}

} // verus!

verus! {

/// The renderer state before any event: nothing emitted, no open block.
pub open spec fn md_init(p: Palette, width: usize) -> MdModel {
    MdModel {
        out: seq![],
        inline: seq![],
        bold: false,
        italic: false,
        strike: false,
        link: false,
        heading: None,
        quote_depth: 0,
        list_stack: seq![],
        item_active: false,
        code_block: None,
        palette: p,
        width,
    }
}

/// The renderer state after a sequence of events.
pub open spec fn md_run(events: Seq<MdEvent>, init: MdModel) -> MdModel
    decreases events.len(),
{
    if events.len() == 0 {
        init
    } else {
        md_step(md_run(events.drop_last(), init), events.last())
    }
}

/// The state after the input ends: the open paragraph is flushed, then an
/// unterminated code block is emitted.
pub open spec fn md_finish(m: MdModel) -> MdModel {
    let f = flush_of(m);
    match f.code_block {
        Some(c) => MdModel { out: f.out + code_lines(c, f.palette, f.width), code_block: None, ..f },
        None => f,
    }
}

/// The lines of a document: the events rendered at `width` cells (at least
/// one) in the theme's palette; an empty document gives one empty line.
pub open spec fn md_document(events: Seq<MdEvent>, t: Theme, width: u16) -> Seq<Seq<(Seq<char>, MdStyle)>> {
    let w: usize = if width < 1 {
        1
    } else {
        width as usize
    };
    let out = md_finish(md_run(events, md_init(palette_of(t), w))).out;
    if out.len() == 0 {
        seq![seq![]]
    } else {
        out
    }
}

/// Render markdown parse events into styled lines no wider than `width`
/// cells (one cell for a zero width; see [`md_document`]).
pub fn markdown_lines(events: &Vec<MdEvent>, theme: Theme, width: u16) -> (lines: Vec<Vec<MdSpan>>)
    ensures
        lines_view(lines@) == md_document(events@, theme, width),
        lines_fit(lines_view(lines@), if width < 1 { 1nat } else { width as nat }),
{
    proof {
        lemma_document_fits(events@, theme, width);
    }
    let w: usize = if width < 1 {
        1
    } else {
        width as usize
    };
    let mut r = MdRenderer {
        palette: theme.palette(),
        width: w,
        out: Vec::new(),
        inline: Vec::new(),
        bold: false,
        italic: false,
        strike: false,
        link: false,
        heading: None,
        quote_depth: 0,
        list_stack: Vec::new(),
        item_active: false,
        code_block: None,
    };
    let ghost init = md_init(palette_of(theme), w);
    assert(r.model() =~= init) by {
        assert(lines_view(r.out@) =~= seq![]);
        assert(r.inline@ =~= seq![]);
        assert(r.list_stack@ =~= seq![]);
    }
    let mut i: usize = 0;
    while i < events.len()
        invariant
            i <= events@.len(),
            r.model() == md_run(events@.take(i as int), init),
        decreases events@.len() - i,
    {
        assert(events@.take(i + 1).drop_last() =~= events@.take(i as int));
        r.event(&events[i]);
        i = i + 1;
    }
    assert(events@.take(events@.len() as int) =~= events@);
    r.flush_inline();
    let mut taken: Option<Vec<char>> = None;
    std::mem::swap(&mut taken, &mut r.code_block);
    match taken {
        Some(code) => {
            r.push_code_block(&code);
        },
        None => {},
    }
    let mut out = r.out;
    if out.len() == 0 {
        out.push(Vec::new());
        assert(line_view(out@[0]@) =~= seq![]);
        assert(lines_view(out@) =~= seq![seq![]]);
    }
    out
}

/// Render a CommonMark document (with strikethrough) into styled,
/// word-wrapped lines (see [`md_document`]); the document is read by the
/// parser whose events are named [`md_events_of`].
pub fn markdown_to_lines(md: &str, theme: Theme, width: u16) -> (lines: Vec<Vec<MdSpan>>)
    ensures
        lines_view(lines@) == md_document(md_events_of(md@), theme, width),
        lines_fit(lines_view(lines@), if width < 1 { 1nat } else { width as nat }),
{
    let events = parse_markdown(md);
    markdown_lines(&events, theme, width)
}

#[verifier::external_type_specification]
#[verifier::external_body]
pub struct ExMdStartTag<'a>(Tag<'a>);

#[verifier::external_type_specification]
#[verifier::external_body]
pub struct ExMdEndTag(TagEnd);

/// The events that `pulldown_cmark`'s parser (with strikethrough on) reads
/// from a document, as the renderer sees them.
pub uninterp spec fn md_events_of(md: Seq<char>) -> Seq<MdEvent>;

/// A `pulldown_cmark::Tag` as the renderer's tag, variant for variant (the
/// heading's level as its number, a list's first number); the tags the
/// renderer has no use for become [`MdTag::Other`].
#[verifier::external_body]
fn start_tag_of(t: &Tag) -> MdTag {
    match t {
        Tag::Paragraph => MdTag::Paragraph,
        Tag::Heading { level, .. } => MdTag::Heading(*level as u8),
        Tag::Strong => MdTag::Strong,
        Tag::Emphasis => MdTag::Emphasis,
        Tag::Strikethrough => MdTag::Strikethrough,
        Tag::CodeBlock(_) => MdTag::CodeBlock,
        Tag::List(start) => MdTag::List(*start),
        Tag::Item => MdTag::Item,
        Tag::BlockQuote(_) => MdTag::BlockQuote,
        Tag::Link { .. } => MdTag::Link,
        _ => MdTag::Other,
    }
}

/// A `pulldown_cmark::TagEnd` as the renderer's tag, variant for variant;
/// the ends the renderer has no use for become [`MdTag::Other`].
#[verifier::external_body]
fn end_tag_of(t: &TagEnd) -> MdTag {
    match t {
        TagEnd::Paragraph => MdTag::Paragraph,
        TagEnd::Heading(level) => MdTag::Heading(*level as u8),
        TagEnd::Strong => MdTag::Strong,
        TagEnd::Emphasis => MdTag::Emphasis,
        TagEnd::Strikethrough => MdTag::Strikethrough,
        TagEnd::CodeBlock => MdTag::CodeBlock,
        TagEnd::List(_) => MdTag::List(None),
        TagEnd::Item => MdTag::Item,
        TagEnd::BlockQuote(_) => MdTag::BlockQuote,
        TagEnd::Link => MdTag::Link,
        _ => MdTag::Other,
    }
}

/// `pulldown_cmark::Parser::new_ext` with strikethrough on, its events
/// converted one for one (events the renderer has no use for become
/// [`MdEvent::Other`]).
///
/// Trusted: the parser is a pure function of the document text, so its
/// events are named [`md_events_of`] of that text.
#[verifier::external_body]
pub(crate) fn parse_markdown(md: &str) -> (v: Vec<MdEvent>)
    ensures
        v@ == md_events_of(md@),
{
    let mut opts = Options::empty();
    opts.insert(Options::ENABLE_STRIKETHROUGH);
    Parser::new_ext(md, opts).map(|e| match e {
        Event::Start(t) => MdEvent::Start(start_tag_of(&t)),
        Event::End(t) => MdEvent::End(end_tag_of(&t)),
        Event::Text(s) => MdEvent::Text(s.into_string()),
        Event::Code(s) => MdEvent::Code(s.into_string()),
        Event::SoftBreak => MdEvent::SoftBreak,
        Event::HardBreak => MdEvent::HardBreak,
        Event::Rule => MdEvent::Rule,
        _ => MdEvent::Other,
    }).collect()
}

} // verus!

verus! {

proof fn lemma_chunks_fit<A>(s: Seq<A>, w: nat)
    requires
        w > 0,
    ensures
        forall|i: int| 0 <= i < chunks_of(s, w).len() ==> #[trigger] chunks_of(s, w)[i].len() <= w
            || (chunks_of(s, w).len() == 1 && s.len() <= w),
    decreases s.len(),
{
    if s.len() > w {
        lemma_chunks_fit(s.skip(w as int), w);
        let c = chunks_of(s, w);
        let r = chunks_of(s.skip(w as int), w);
        assert(c == seq![s.take(w as int)] + r);
        assert forall|i: int| 0 <= i < c.len() implies #[trigger] c[i].len() <= w by {
            if i > 0 {
                assert(c[i] == r[i - 1]);
                assert(r[i - 1].len() <= w || (r.len() == 1 && s.skip(w as int).len() <= w));
            }
        }
    }
}

proof fn lemma_pack_fits(words: Seq<Seq<(char, MdStyle)>>, width: nat)
    requires
        width > 0,
    ensures
        pack_state(words, width).1.len() <= width,
        forall|i: int|
            0 <= i < pack_state(words, width).0.len() ==> #[trigger] pack_state(words, width).0[i].len()
                <= width,
    decreases words.len(),
{
    if words.len() > 0 {
        lemma_pack_fits(words.drop_last(), width);
        let (rows, row, sp) = pack_state(words.drop_last(), width);
        let word = words.last();
        let needed = word.len() + if row.len() > 0 {
            1int
        } else {
            0
        };
        let closes = row.len() > 0 && row.len() + needed > width;
        let rows1 = if closes {
            rows.push(row)
        } else {
            rows
        };
        let row1 = if closes {
            seq![]
        } else {
            row
        };
        assert forall|i: int| 0 <= i < rows1.len() implies #[trigger] rows1[i].len() <= width by {
            if i < rows.len() {
                assert(rows1[i] == rows[i]);
            }
        }
        if row1.len() == 0 && word.len() > width {
            lemma_chunks_fit(word, width);
            let r = rows1 + chunks_of(word, width);
            assert forall|i: int| 0 <= i < r.len() implies #[trigger] r[i].len() <= width by {
                if i >= rows1.len() {
                    assert(r[i] == chunks_of(word, width)[i - rows1.len()]);
                } else {
                    assert(r[i] == rows1[i]);
                }
            }
        }
    }
}

/// Word wrapping keeps every row within the width (for a positive width).
pub proof fn lemma_wrap_rows_fit(seg: Seq<(char, MdStyle)>, width: nat)
    requires
        width > 0,
    ensures
        forall|i: int| 0 <= i < wrap_rows(seg, width).len() ==> #[trigger] wrap_rows(seg, width)[i].len()
            <= width,
{
    lemma_pack_fits(seg_words(seg), width);
    let (rows, row, sp) = pack_state(seg_words(seg), width);
    if row.len() > 0 || rows.len() == 0 {
        assert forall|i: int| 0 <= i < rows.push(row).len() implies #[trigger] rows.push(row)[i].len()
            <= width by {
            if i < rows.len() {
                assert(rows.push(row)[i] == rows[i]);
            }
        }
    }
}

} // verus!

verus! {

/// Keeps the chars of a row that show ink (everything but spaces).
pub open spec fn ink_pred() -> spec_fn((char, MdStyle)) -> bool {
    |p: (char, MdStyle)| p.0 != ' '
}

/// The visible (non-space) chars of `s`, in order.
pub open spec fn ink(s: Seq<(char, MdStyle)>) -> Seq<(char, MdStyle)> {
    s.filter(ink_pred())
}

/// No char of `s` is a space.
pub open spec fn spaceless(s: Seq<(char, MdStyle)>) -> bool {
    forall|j: int| 0 <= j < s.len() ==> #[trigger] s[j].0 != ' '
}

proof fn lemma_ink_push(s: Seq<(char, MdStyle)>, p: (char, MdStyle))
    ensures
        ink(s.push(p)) == if p.0 != ' ' {
            ink(s).push(p)
        } else {
            ink(s)
        },
{
    s.lemma_filter_push(p, ink_pred());
}

proof fn lemma_ink_add(a: Seq<(char, MdStyle)>, b: Seq<(char, MdStyle)>)
    ensures
        ink(a + b) == ink(a) + ink(b),
{
    Seq::filter_distributes_over_add(a, b, ink_pred());
}

proof fn lemma_ink_spaceless(s: Seq<(char, MdStyle)>)
    requires
        spaceless(s),
    ensures
        ink(s) == s,
    decreases s.len(),
{
    if s.len() == 0 {
        reveal(Seq::filter);
    } else {
        let t = s.drop_last();
        assert(spaceless(t)) by {
            assert forall|j: int| 0 <= j < t.len() implies #[trigger] t[j].0 != ' ' by {
                assert(t[j] == s[j]);
            }
        }
        lemma_ink_spaceless(t);
        assert(s.last().0 != ' ') by {
            assert(s[s.len() - 1].0 != ' ');
        }
        lemma_ink_push(t, s.last());
        assert(t.push(s.last()) == s);
    }
}

proof fn lemma_tok_ink(seg: Seq<(char, MdStyle)>)
    ensures
        tok_state(seg).0.flatten() + tok_state(seg).1 == ink(seg),
        spaceless(tok_state(seg).1),
        forall|i: int|
            0 <= i < tok_state(seg).0.len() ==> spaceless(#[trigger] tok_state(seg).0[i]),
    decreases seg.len(),
{
    if seg.len() == 0 {
        reveal(Seq::filter);
        assert(tok_state(seg).0.flatten() == Seq::<(char, MdStyle)>::empty());
    } else {
        let prev = seg.drop_last();
        let p = seg.last();
        lemma_tok_ink(prev);
        let (w, cur) = tok_state(prev);
        assert(prev.push(p) == seg);
        lemma_ink_push(prev, p);
        if p.0 == ' ' {
            if cur.len() > 0 {
                w.lemma_flatten_push(cur);
                assert(w.push(cur).flatten() + seq![] == w.flatten() + cur);
                assert forall|i: int| 0 <= i < w.push(cur).len() implies spaceless(
                    #[trigger] w.push(cur)[i],
                ) by {
                    if i < w.len() {
                        assert(w.push(cur)[i] == w[i]);
                    }
                }
            }
        } else {
            assert(w.flatten() + cur.push(p) == (w.flatten() + cur).push(p));
            assert(spaceless(cur.push(p))) by {
                assert forall|j: int| 0 <= j < cur.push(p).len() implies #[trigger] cur.push(p)[j].0
                    != ' ' by {
                    if j < cur.len() {
                        assert(cur.push(p)[j] == cur[j]);
                    }
                }
            }
        }
    }
}

proof fn lemma_seg_words_ink(seg: Seq<(char, MdStyle)>)
    ensures
        seg_words(seg).flatten() == ink(seg),
        forall|i: int| 0 <= i < seg_words(seg).len() ==> spaceless(#[trigger] seg_words(seg)[i]),
{
    lemma_tok_ink(seg);
    let (w, cur) = tok_state(seg);
    if cur.len() > 0 {
        w.lemma_flatten_push(cur);
        assert forall|i: int| 0 <= i < w.push(cur).len() implies spaceless(
            #[trigger] w.push(cur)[i],
        ) by {
            if i < w.len() {
                assert(w.push(cur)[i] == w[i]);
            }
        }
    } else {
        assert(w.flatten() + cur == w.flatten());
    }
}

proof fn lemma_chunks_flatten<A>(s: Seq<A>, w: nat)
    ensures
        chunks_of(s, w).flatten() == s,
    decreases s.len(),
{
    if s.len() <= w || w == 0 {
        seq![s].lemma_flatten_singleton();
    } else {
        lemma_chunks_flatten(s.skip(w as int), w);
        vstd::seq_lib::lemma_flatten_concat(seq![s.take(w as int)], chunks_of(s.skip(w as int), w));
        seq![s.take(w as int)].lemma_flatten_singleton();
        assert(s.take(w as int) + s.skip(w as int) == s);
    }
}

#[verifier::spinoff_prover]
#[verifier::rlimit(30)]
proof fn lemma_pack_ink(words: Seq<Seq<(char, MdStyle)>>, width: nat)
    requires
        forall|i: int| 0 <= i < words.len() ==> spaceless(#[trigger] words[i]),
    ensures
        ink(pack_state(words, width).0.flatten() + pack_state(words, width).1) == words.flatten(),
    decreases words.len(),
{
    if words.len() == 0 {
        reveal(Seq::filter);
        assert(pack_state(words, width).0.flatten() + pack_state(words, width).1 == Seq::<
            (char, MdStyle),
        >::empty());
    } else {
        let init = words.drop_last();
        let word = words.last();
        assert forall|i: int| 0 <= i < init.len() implies spaceless(#[trigger] init[i]) by {
            assert(init[i] == words[i]);
        }
        lemma_pack_ink(init, width);
        assert(spaceless(words[words.len() - 1]));
        lemma_ink_spaceless(word);
        assert(init.push(word) == words);
        init.lemma_flatten_push(word);
        let (rows, row, sp) = pack_state(init, width);
        let sp2 = if word.len() > 0 {
            word[0].1
        } else {
            sp
        };
        let needed = word.len() + if row.len() > 0 {
            1int
        } else {
            0
        };
        let closes = row.len() > 0 && row.len() + needed > width;
        let rows1 = if closes {
            rows.push(row)
        } else {
            rows
        };
        let row1 = if closes {
            seq![]
        } else {
            row
        };
        // What is already placed shows the same ink before the word arrives.
        assert(ink(rows1.flatten() + row1) == init.flatten()) by {
            if closes {
                rows.lemma_flatten_push(row);
                assert(rows.push(row).flatten() + seq![] == rows.flatten() + row);
            }
        }
        if row1.len() == 0 && word.len() > width {
            lemma_pack_ink_cut(rows1, word, width);
        } else {
            lemma_pack_ink_join(rows1, row1, sp2, word);
        }
    }
}

/// A word too long for an empty row is cut into pieces: the ink grows by the
/// word.
proof fn lemma_pack_ink_cut(rows1: Seq<Seq<(char, MdStyle)>>, word: Seq<(char, MdStyle)>, width: nat)
    requires
        ink(word) == word,
    ensures
        ink((rows1 + chunks_of(word, width)).flatten() + seq![]) == ink(rows1.flatten() + seq![])
            + word,
{
    vstd::seq_lib::lemma_flatten_concat(rows1, chunks_of(word, width));
    lemma_chunks_flatten(word, width);
    lemma_ink_add(rows1.flatten(), word);
    assert((rows1 + chunks_of(word, width)).flatten() + seq![] == rows1.flatten() + word);
    assert(rows1.flatten() + seq![] == rows1.flatten());
}

/// A word joining the open row (after a space when the row is not empty):
/// the ink grows by the word.
proof fn lemma_pack_ink_join(
    rows1: Seq<Seq<(char, MdStyle)>>,
    row1: Seq<(char, MdStyle)>,
    sp2: MdStyle,
    word: Seq<(char, MdStyle)>,
)
    requires
        ink(word) == word,
    ensures
        ink(rows1.flatten() + ((if row1.len() > 0 { row1.push((' ', sp2)) } else { row1 }) + word))
            == ink(rows1.flatten() + row1) + word,
{
    let open = if row1.len() > 0 {
        row1.push((' ', sp2))
    } else {
        row1
    };
    assert(ink(open) == ink(row1)) by {
        if row1.len() > 0 {
            lemma_ink_push(row1, (' ', sp2));
        }
    }
    lemma_ink_add(rows1.flatten(), row1);
    lemma_ink_add(open, word);
    lemma_ink_add(rows1.flatten(), open + word);
}

/// Wrapping loses and invents no visible char: the non-space chars of the
/// rows, read row after row, are those of the segment, in the same order.
pub proof fn lemma_wrap_rows_keep_ink(seg: Seq<(char, MdStyle)>, width: nat)
    ensures
        ink(wrap_rows(seg, width).flatten()) == ink(seg),
{
    if width == 0 {
        seq![seg].lemma_flatten_singleton();
    } else {
        lemma_seg_words_ink(seg);
        lemma_pack_ink(seg_words(seg), width);
        let (rows, row, sp) = pack_state(seg_words(seg), width);
        if row.len() > 0 || rows.len() == 0 {
            rows.lemma_flatten_push(row);
        } else {
            assert(rows.flatten() + row == rows.flatten());
        }
    }
}

} // verus!

verus! {

/// Width of a line in cells: the chars of its spans.
pub open spec fn line_width(l: Seq<(Seq<char>, MdStyle)>) -> nat {
    line_chars(l).len()
}

/// Every line is at most `w` cells wide.
pub open spec fn lines_fit(ls: Seq<Seq<(Seq<char>, MdStyle)>>, w: nat) -> bool {
    forall|i: int| 0 <= i < ls.len() ==> #[trigger] line_width(ls[i]) <= w
}

proof fn lemma_line_chars_concat(a: Seq<(Seq<char>, MdStyle)>, b: Seq<(Seq<char>, MdStyle)>)
    ensures
        line_chars(a + b) == line_chars(a) + line_chars(b),
    decreases b.len(),
{
    if b.len() == 0 {
        assert(a + b =~= a);
        assert(line_chars(a) + line_chars(b) =~= line_chars(a));
    } else {
        lemma_line_chars_concat(a, b.drop_last());
        assert((a + b).drop_last() =~= a + b.drop_last());
        assert((a + b).last() == b.last());
        assert(line_chars(a + b) =~= line_chars(a) + line_chars(b));
    }
}

proof fn lemma_line_chars_one(p: (Seq<char>, MdStyle))
    ensures
        line_chars(seq![p]) == p.0,
{
    let l = seq![p];
    assert(l.drop_last() =~= Seq::<(Seq<char>, MdStyle)>::empty());
    assert(line_chars(l.drop_last()) == Seq::<char>::empty());
    assert(line_chars(l) == line_chars(l.drop_last()) + l.last().0);
    assert(line_chars(l) =~= p.0);
}

proof fn lemma_line_chars_two(a: (Seq<char>, MdStyle), b: (Seq<char>, MdStyle))
    ensures
        line_chars(seq![a, b]) == a.0 + b.0,
{
    lemma_line_chars_one(a);
    let l = seq![a, b];
    assert(l.drop_last() =~= seq![a]);
    assert(line_chars(l) == line_chars(l.drop_last()) + l.last().0);
}

proof fn lemma_fits_concat(a: Seq<Seq<(Seq<char>, MdStyle)>>, b: Seq<Seq<(Seq<char>, MdStyle)>>, w: nat)
    requires
        lines_fit(a, w),
        lines_fit(b, w),
    ensures
        lines_fit(a + b, w),
{
    assert forall|i: int| 0 <= i < (a + b).len() implies #[trigger] line_width((a + b)[i]) <= w by {
        if i < a.len() {
            assert((a + b)[i] == a[i]);
        } else {
            assert((a + b)[i] == b[i - a.len()]);
        }
    }
}

proof fn lemma_fits_flatten(parts: Seq<Seq<Seq<(Seq<char>, MdStyle)>>>, w: nat)
    requires
        forall|k: int| 0 <= k < parts.len() ==> lines_fit(#[trigger] parts[k], w),
    ensures
        lines_fit(parts.flatten(), w),
    decreases parts.len(),
{
    if parts.len() > 0 {
        let rest = parts.drop_first();
        assert forall|k: int| 0 <= k < rest.len() implies lines_fit(#[trigger] rest[k], w) by {
            assert(rest[k] == parts[k + 1]);
        }
        lemma_fits_flatten(rest, w);
        assert(lines_fit(parts[0], w));
        lemma_fits_concat(parts.first(), rest.flatten(), w);
    }
}

proof fn lemma_rows_lines_fit(seg: Seq<(char, MdStyle)>, bw: nat)
    requires
        bw > 0,
    ensures
        lines_fit(rows_to_lines(wrap_rows(seg, bw)), bw),
{
    let rows = wrap_rows(seg, bw);
    lemma_wrap_rows_fit(seg, bw);
    assert forall|i: int| 0 <= i < rows_to_lines(rows).len() implies #[trigger] line_width(
        rows_to_lines(rows)[i],
    ) <= bw by {
        lemma_group_spans(rows[i]);
        assert(rows_to_lines(rows)[i] == group_spans(rows[i]));
        assert(run_chars(rows[i]).len() == rows[i].len());
    }
}

proof fn lemma_wrapped_fit(cs: Seq<(char, MdStyle)>, bw: nat)
    requires
        bw > 0,
    ensures
        lines_fit(wrapped_lines(cs, bw), bw),
{
    let segs = break_segments(cs);
    let parts = segs.map_values(|seg: Seq<(char, MdStyle)>| rows_to_lines(wrap_rows(seg, bw)));
    assert forall|k: int| 0 <= k < parts.len() implies lines_fit(#[trigger] parts[k], bw) by {
        lemma_rows_lines_fit(segs[k], bw);
    }
    lemma_fits_flatten(parts, bw);
}

proof fn lemma_flush_lines_fit(m: MdModel)
    requires
        m.width >= 1,
    ensures
        lines_fit(flush_lines(m), m.width as nat),
{
    let bw = body_width_of(m);
    let w = wrapped_lines(decorated_of(m), bw);
    lemma_wrapped_fit(decorated_of(m), bw);
    let fl = flush_lines(m);
    assert forall|i: int| 0 <= i < fl.len() implies #[trigger] line_width(fl[i]) <= m.width by {
        let ps = prefix_span(m, i);
        assert(line_width(w[i]) <= bw);
        if ps.0.len() > 0 {
            lemma_line_chars_concat(seq![ps], w[i]);
            lemma_line_chars_one(ps);
            assert(ps.0.len() == prefix_width(m));
        }
    }
}

proof fn lemma_flush_of_fits(m: MdModel)
    requires
        m.width >= 1,
        lines_fit(m.out, m.width as nat),
    ensures
        lines_fit(flush_of(m).out, m.width as nat),
        flush_of(m).width == m.width,
        flush_of(m).palette == m.palette,
{
    if !(m.inline.len() == 0 && m.heading is None && !m.item_active) {
        lemma_flush_lines_fit(m);
        lemma_fits_concat(m.out, flush_lines(m), m.width as nat);
    }
}

proof fn lemma_code_lines_fit(c: Seq<char>, p: Palette, width: usize)
    requires
        width >= 1,
    ensures
        lines_fit(code_lines(c, p, width), width as nat),
{
    let bw = width as nat;
    let parts = text_lines(c).map_values(|raw: Seq<char>| raw_code_lines(raw, p, bw));
    assert forall|k: int| 0 <= k < parts.len() implies lines_fit(#[trigger] parts[k], bw) by {
        let raw = text_lines(c)[k];
        lemma_chunks_fit(raw, bw);
        let rl = raw_code_lines(raw, p, bw);
        assert forall|j: int| 0 <= j < rl.len() implies #[trigger] line_width(rl[j]) <= bw by {
            let chunk = chunks_of(raw, bw)[j];
            let row = code_row(chunk, p, bw);
            assert(rl[j] == row);
            assert(chunk.len() <= bw);
            lemma_line_chars_two(row[0], row[1]);
            assert(row == seq![row[0], row[1]]);
        }
    }
    lemma_fits_flatten(parts, bw);
}

proof fn lemma_step_fits(m: MdModel, e: MdEvent)
    requires
        m.width >= 1,
        lines_fit(m.out, m.width as nat),
    ensures
        md_step(m, e).width == m.width,
        lines_fit(md_step(m, e).out, m.width as nat),
{
    lemma_flush_of_fits(m);
    match m.code_block {
        Some(c) => {
            lemma_code_lines_fit(c, m.palette, m.width);
            lemma_fits_concat(m.out, code_lines(c, m.palette, m.width), m.width as nat);
        },
        None => {},
    }
    if e is Rule {
        let rule = seq![(Seq::new(m.width as nat, |i: int| '─'), fg_style(m.palette.muted))];
        lemma_line_chars_one(rule[0]);
        assert(line_width(rule) == m.width);
        let o = flush_of(m).out;
        assert forall|i: int| 0 <= i < o.push(rule).len() implies #[trigger] line_width(
            o.push(rule)[i],
        ) <= m.width by {
            if i < o.len() {
                assert(o.push(rule)[i] == o[i]);
            }
        }
    }
}

proof fn lemma_run_fits(events: Seq<MdEvent>, init: MdModel)
    requires
        init.width >= 1,
        lines_fit(init.out, init.width as nat),
    ensures
        md_run(events, init).width == init.width,
        lines_fit(md_run(events, init).out, init.width as nat),
    decreases events.len(),
{
    if events.len() > 0 {
        lemma_run_fits(events.drop_last(), init);
        lemma_step_fits(md_run(events.drop_last(), init), events.last());
    }
}

/// No rendered line is wider than the requested width (a zero width counts
/// as one cell): prefixes are subtracted from the wrap width, and dropped
/// when they leave no room; code rows and rules are exactly that wide.
pub proof fn lemma_document_fits(events: Seq<MdEvent>, t: Theme, width: u16)
    ensures
        lines_fit(md_document(events, t, width), if width < 1 { 1nat } else { width as nat }),
{
    let w: usize = if width < 1 {
        1
    } else {
        width as usize
    };
    let init = md_init(palette_of(t), w);
    assert(lines_fit(init.out, w as nat));
    lemma_run_fits(events, init);
    let m = md_run(events, init);
    lemma_flush_of_fits(m);
    let f = flush_of(m);
    match f.code_block {
        Some(c) => {
            lemma_code_lines_fit(c, f.palette, f.width);
            lemma_fits_concat(f.out, code_lines(c, f.palette, f.width), w as nat);
        },
        None => {},
    }
    let out = md_finish(m).out;
    if out.len() == 0 {
        let d = seq![Seq::<(Seq<char>, MdStyle)>::empty()];
        assert(line_width(d[0]) == 0);
        assert(lines_fit(d, w as nat));
    }
}

} // verus!

verus! {

/// Body text takes its marks from the open tags, each mark from its own tag:
/// italic exactly inside emphasis, underlined exactly inside a link, crossed
/// out exactly inside strikethrough, bold inside strong text or a heading,
/// dimmed inside a quote; the color is the accent in a heading, else the
/// foreground, and there is no background.
pub proof fn lemma_text_style_marks(m: MdModel)
    ensures
        text_style_of(m).italic == m.italic,
        text_style_of(m).underlined == m.link,
        text_style_of(m).crossed == m.strike,
        text_style_of(m).bold == (m.bold || m.heading is Some),
        text_style_of(m).dim == (m.quote_depth > 0),
        text_style_of(m).fg == Some(if m.heading is Some { m.palette.accent } else { m.palette.fg }),
        text_style_of(m).bg is None,
{
}

/// The text of a paragraph after `Start(tag)` and then `Text(s)` (outside a
/// code block): the chars of `s` are appended in order.
pub open spec fn text_after(m: MdModel, tag: MdTag, s: String) -> MdModel {
    md_step(md_step(m, MdEvent::Start(tag)), MdEvent::Text(s))
}

/// Text read right after an emphasis tag opens is italic, and underlined
/// only if a link was already open; right after a link opens it is
/// underlined, and italic only if emphasis was already open; after
/// strikethrough it is crossed out, after strong text bold. The chars of the
/// text are appended to the paragraph in order, and closing each tag turns
/// its mark off again.
pub proof fn lemma_inline_tags_mark_text(m: MdModel, s: String)
    requires
        m.code_block is None,
    ensures
        text_after(m, MdTag::Emphasis, s).inline.len() == m.inline.len() + s@.len(),
        forall|i: int|
            0 <= i < s@.len() ==> (#[trigger] text_after(m, MdTag::Emphasis, s).inline[m.inline.len()
                + i]).0 == s@[i] && text_after(m, MdTag::Emphasis, s).inline[m.inline.len() + i].1.italic
                && text_after(m, MdTag::Emphasis, s).inline[m.inline.len() + i].1.underlined == m.link,
        forall|i: int|
            0 <= i < s@.len() ==> (#[trigger] text_after(m, MdTag::Link, s).inline[m.inline.len()
                + i]).0 == s@[i] && text_after(m, MdTag::Link, s).inline[m.inline.len() + i].1.underlined
                && text_after(m, MdTag::Link, s).inline[m.inline.len() + i].1.italic == m.italic,
        forall|i: int|
            0 <= i < s@.len() ==> (#[trigger] text_after(m, MdTag::Strikethrough, s).inline[
                m.inline.len() + i]).1.crossed,
        forall|i: int|
            0 <= i < s@.len() ==> (#[trigger] text_after(m, MdTag::Strong, s).inline[m.inline.len()
                + i]).1.bold,
        forall|i: int| 0 <= i < m.inline.len() ==> #[trigger] text_after(m, MdTag::Emphasis, s).inline[i] == m.inline[i],
        !md_step(m, MdEvent::End(MdTag::Emphasis)).italic,
        !md_step(m, MdEvent::End(MdTag::Link)).link,
        !md_step(m, MdEvent::End(MdTag::Strikethrough)).strike,
        !md_step(m, MdEvent::End(MdTag::Strong)).bold,
{
    let a = md_step(m, MdEvent::Start(MdTag::Emphasis));
    lemma_text_style_marks(a);
    let b = md_step(m, MdEvent::Start(MdTag::Link));
    lemma_text_style_marks(b);
    let c = md_step(m, MdEvent::Start(MdTag::Strikethrough));
    lemma_text_style_marks(c);
    let d = md_step(m, MdEvent::Start(MdTag::Strong));
    lemma_text_style_marks(d);
}

} // verus!
