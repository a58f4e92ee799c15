//! Multiline comment editor state. Pure text-and-cursor logic; rendering,
//! wrapping geometry, and click mapping all derive from `visual_rows` so the
//! reducer and the renderer can never disagree about where the cursor is.
use vstd::prelude::*;

use crate::unicode::{cell_width, cell_width_of};

verus! {

/// Multiline comment editor.
#[derive(Debug, PartialEq, Eq)]
pub struct CommentComposer {
    lines: Vec<Vec<char>>,
    cursor_line: usize,
    cursor_col: usize,
    pub scroll: usize,
    pub confirm_discard: bool,
    /// Text viewport (columns, rows) recorded by the renderer so key and
    /// click handling wrap text exactly like the last drawn frame.
    pub viewport: (u16, u16),
}

/// One display row of the wrapped composer text: a char range of a logical
/// line. Lines wrap at display-width boundaries, never mid-character.
#[derive(Debug, Clone, Copy, PartialEq, Eq, Structural)]
pub struct VisualRow {
    pub line: usize,
    pub start: usize,
    pub end: usize,
}

/// The lines of a composer as character sequences.
pub open spec fn line_views(lines: Seq<Vec<char>>) -> Seq<Seq<char>> {
    lines.map_values(|l: Vec<char>| l@)
}

/// A composer state: its lines and its cursor.
pub struct EditorState {
    pub lines: Seq<Seq<char>>,
    pub line: int,
    pub col: int,
}

/// At least one line, the cursor on a line and within (or at the end of) it.
pub open spec fn editor_wf(s: EditorState) -> bool {
    &&& s.lines.len() >= 1
    &&& 0 <= s.line < s.lines.len()
    &&& 0 <= s.col <= s.lines[s.line].len()
}

/// Typing `c` at the cursor.
pub open spec fn insert_char_spec(s: EditorState, c: char) -> EditorState {
    EditorState {
        lines: s.lines.update(s.line, s.lines[s.line].insert(s.col, c)),
        line: s.line,
        col: s.col + 1,
    }
}

/// Breaking the line at the cursor; the cursor moves to the start of the new line.
pub open spec fn newline_spec(s: EditorState) -> EditorState {
    let l = s.lines[s.line];
    EditorState {
        lines: s.lines.subrange(0, s.line) + seq![l.subrange(0, s.col), l.subrange(s.col, l.len() as int)]
            + s.lines.subrange(s.line + 1, s.lines.len() as int),
        line: s.line + 1,
        col: 0,
    }
}

/// Removing the character before the cursor, or joining with the previous
/// line at a line start; nothing at the very start.
pub open spec fn backspace_spec(s: EditorState) -> EditorState {
    if s.col > 0 {
        EditorState {
            lines: s.lines.update(s.line, s.lines[s.line].remove(s.col - 1)),
            line: s.line,
            col: s.col - 1,
        }
    } else if s.line > 0 {
        let prev = s.lines[s.line - 1];
        EditorState {
            lines: s.lines.subrange(0, s.line - 1) + seq![prev + s.lines[s.line]]
                + s.lines.subrange(s.line + 1, s.lines.len() as int),
            line: s.line - 1,
            col: prev.len() as int,
        }
    } else {
        s
    }
}

/// Removing the character under the cursor, or joining the next line at a
/// line end; nothing at the very end.
pub open spec fn delete_spec(s: EditorState) -> EditorState {
    let l = s.lines[s.line];
    if s.col < l.len() {
        EditorState { lines: s.lines.update(s.line, l.remove(s.col)), ..s }
    } else if s.line + 1 < s.lines.len() {
        EditorState {
            lines: s.lines.subrange(0, s.line) + seq![l + s.lines[s.line + 1]]
                + s.lines.subrange(s.line + 2, s.lines.len() as int),
            ..s
        }
    } else {
        s
    }
}

pub open spec fn move_left_spec(s: EditorState) -> EditorState {
    if s.col > 0 {
        EditorState { col: s.col - 1, ..s }
    } else if s.line > 0 {
        EditorState { line: s.line - 1, col: s.lines[s.line - 1].len() as int, ..s }
    } else {
        s
    }
}

pub open spec fn move_right_spec(s: EditorState) -> EditorState {
    if s.col < s.lines[s.line].len() {
        EditorState { col: s.col + 1, ..s }
    } else if s.line + 1 < s.lines.len() {
        EditorState { line: s.line + 1, col: 0, ..s }
    } else {
        s
    }
}

/// `\r\n` and lone `\r` become `\n`.
pub open spec fn normalize_newlines(t: Seq<char>) -> Seq<char>
    decreases t.len(),
{
    if t.len() == 0 {
        Seq::empty()
    } else if t[0] == '\r' && t.len() >= 2 && t[1] == '\n' {
        seq!['\n'] + normalize_newlines(t.subrange(2, t.len() as int))
    } else if t[0] == '\r' {
        seq!['\n'] + normalize_newlines(t.drop_first())
    } else {
        seq![t[0]] + normalize_newlines(t.drop_first())
    }
}

/// Typing the characters of `t` one after another, `\n` breaking the line.
pub open spec fn type_text(s: EditorState, t: Seq<char>) -> EditorState
    decreases t.len(),
{
    if t.len() == 0 {
        s
    } else {
        let prior = type_text(s, t.drop_last());
        if t.last() == '\n' {
            newline_spec(prior)
        } else {
            insert_char_spec(prior, t.last())
        }
    }
}

/// The lines joined by line breaks.
pub open spec fn body_spec(lines: Seq<Seq<char>>) -> Seq<char> {
    crate::text::join(lines, seq!['\n'])
}

/// Every character of `s` is a newline.
pub open spec fn only_newlines(s: Seq<char>) -> bool {
    forall|k: int| 0 <= k < s.len() ==> s[k] == '\n'
}

proof fn lemma_join_only_newlines(parts: Seq<Seq<char>>)
    ensures
        only_newlines(body_spec(parts)) <==> forall|i: int| 0 <= i < parts.len() ==> only_newlines(#[trigger] parts[i]),
    decreases parts.len(),
{
    if parts.len() > 1 {
        let a = body_spec(parts.drop_last());
        let b = a + seq!['\n'] + parts.last();
        lemma_join_only_newlines(parts.drop_last());
        assert(body_spec(parts) == b);
        if only_newlines(b) {
            assert forall|k: int| 0 <= k < a.len() implies a[k] == '\n' by {
                assert(b[k] == a[k]);
            }
            assert forall|k: int| 0 <= k < parts.last().len() implies parts.last()[k] == '\n' by {
                assert(b[a.len() + 1 + k] == parts.last()[k]);
            }
            assert forall|i: int| 0 <= i < parts.len() implies only_newlines(#[trigger] parts[i]) by {
                if i < parts.len() - 1 {
                    assert(parts[i] == parts.drop_last()[i]);
                }
            }
        }
        if forall|i: int| 0 <= i < parts.len() ==> only_newlines(#[trigger] parts[i]) {
            assert forall|i: int| 0 <= i < parts.drop_last().len() implies only_newlines(#[trigger] parts.drop_last()[i]) by {
                assert(parts.drop_last()[i] == parts[i]);
            }
            assert(only_newlines(parts[parts.len() - 1]));
            assert forall|k: int| 0 <= k < b.len() implies b[k] == '\n' by {
                if k < a.len() {
                    assert(b[k] == a[k]);
                } else if k > a.len() {
                    assert(b[k] == parts.last()[k - a.len() - 1]);
                }
            }
        }
    } else if parts.len() == 1 {
        assert(body_spec(parts) == parts[0]);
    }
}

/// A composer counts as empty exactly when its text is nothing but line
/// breaks: with no line holding a newline of its own, every line is empty
/// exactly when the body, its lines joined by newlines, is only newlines.
pub proof fn law_empty_means_only_newlines(lines: Seq<Seq<char>>)
    requires
        forall|i: int, k: int| 0 <= i < lines.len() && 0 <= k < lines[i].len() ==> #[trigger] lines[i][k] != '\n',
    ensures
        (forall|i: int| 0 <= i < lines.len() ==> #[trigger] lines[i].len() == 0) <==> only_newlines(body_spec(lines)),
{
    lemma_join_only_newlines(lines);
    assert forall|i: int| 0 <= i < lines.len() implies (only_newlines(#[trigger] lines[i]) <==> lines[i].len() == 0) by {
        if lines[i].len() > 0 {
            assert(lines[i][0] != '\n');
        }
    }
}

// ---------------------------------------------------------------- wrapping

/// The display width of `s`, each character taking its cell width.
pub open spec fn display_width(s: Seq<char>) -> nat
    decreases s.len(),
{
    if s.len() == 0 {
        0
    } else {
        display_width(s.drop_last()) + cell_width(s.last())
    }
}

/// Greedy wrapping of `line` from position `i`, the current row having begun
/// at `start` and filled `column` columns: a row is closed before a character
/// that would overflow `width`, unless the row is still empty.
pub open spec fn wrap_from(line: Seq<char>, width: nat, i: nat, start: nat, column: nat) -> Seq<(nat, nat)>
    decreases line.len() - i,
{
    if i >= line.len() {
        seq![(start, line.len())]
    } else {
        let w = cell_width(line[i as int]);
        if column + w > width && column > 0 {
            seq![(start, i)] + wrap_from(line, width, i + 1, i, w)
        } else {
            wrap_from(line, width, i + 1, start, column + w)
        }
    }
}

/// The rows (char ranges) a line wraps into at `width` columns.
pub open spec fn wrap_line(line: Seq<char>, width: nat) -> Seq<(nat, nat)> {
    wrap_from(line, width, 0, 0, 0)
}

/// The display width of `line[a..b]`.
pub open spec fn span_width(line: Seq<char>, a: nat, b: nat) -> nat {
    display_width(line.subrange(a as int, b as int))
}

/// The rows of one line are well cut at `width`: the first begins at
/// `start`, the last ends at the line's end, each begins where the one
/// before ended, each holds at least one character (but for the single row
/// of an empty rest), each fits the width (or is one character too wide to
/// fit any row), and each but the last was closed only because its next
/// character would not fit.
pub open spec fn well_cut(line: Seq<char>, width: nat, start: nat, rows: Seq<(nat, nat)>) -> bool {
    &&& rows.len() >= 1
    &&& rows[0].0 == start
    &&& rows.last().1 == line.len()
    &&& forall|k: int| 0 <= k < rows.len() - 1 ==> #[trigger] rows[k].1 == rows[k + 1].0
    &&& forall|k: int| 0 <= k < rows.len() ==> (#[trigger] rows[k]).0 <= rows[k].1 <= line.len()
    &&& forall|k: int| 0 <= k < rows.len() ==> (#[trigger] rows[k]).0 < rows[k].1 || (rows.len() == 1 && start == line.len())
    &&& forall|k: int| 0 <= k < rows.len() ==> span_width(line, (#[trigger] rows[k]).0, rows[k].1) <= width
        || rows[k].1 == rows[k].0 + 1
    &&& forall|k: int| 0 <= k < rows.len() - 1 ==> span_width(line, (#[trigger] rows[k]).0, rows[k].1)
        + cell_width(line[rows[k].1 as int]) > width
}

proof fn lemma_span_width_step(line: Seq<char>, a: nat, b: nat)
    requires
        a <= b < line.len(),
    ensures
        span_width(line, a, b + 1) == span_width(line, a, b) + cell_width(line[b as int]),
{
    let s = line.subrange(a as int, (b + 1) as int);
    assert(s.drop_last() =~= line.subrange(a as int, b as int));
    assert(s.last() == line[b as int]);
}

proof fn lemma_span_width_empty(line: Seq<char>, a: nat)
    requires
        a <= line.len(),
    ensures
        span_width(line, a, a) == 0,
{
    assert(line.subrange(a as int, a as int).len() == 0);
}

proof fn lemma_wrap_from_well_cut(line: Seq<char>, width: nat, i: nat, start: nat, column: nat)
    requires
        start <= i <= line.len(),
        column == span_width(line, start, i),
        column <= width || i == start + 1,
        start < i || start == line.len() || column == 0,
        width >= 1,
    ensures
        well_cut(line, width, start, wrap_from(line, width, i, start, column)),
    decreases line.len() - i,
{
    let rows = wrap_from(line, width, i, start, column);
    if i >= line.len() {
        assert(rows == seq![(start, line.len())]);
        if start == i {
            lemma_span_width_empty(line, start);
        }
    } else {
        let w = cell_width(line[i as int]);
        lemma_span_width_step(line, start, i);
        if column + w > width && column > 0 {
            lemma_span_width_step(line, i, i);
            lemma_span_width_empty(line, i);
            lemma_wrap_from_well_cut(line, width, i + 1, i, w);
            let rest = wrap_from(line, width, i + 1, i, w);
            assert(rows == seq![(start, i)] + rest);
            assert(start < i);
            assert forall|k: int| 0 <= k < rows.len() - 1 implies #[trigger] rows[k].1 == rows[k + 1].0 by {
                if k > 0 {
                    assert(rows[k] == rest[k - 1]);
                    assert(rows[k + 1] == rest[k]);
                }
            }
            assert forall|k: int| 0 <= k < rows.len() implies (#[trigger] rows[k]).0 <= rows[k].1 <= line.len() by {
                if k > 0 { assert(rows[k] == rest[k - 1]); }
            }
            assert forall|k: int| 0 <= k < rows.len() implies (#[trigger] rows[k]).0 < rows[k].1
                || (rows.len() == 1 && start == line.len()) by {
                if k > 0 { assert(rows[k] == rest[k - 1]); }
            }
            assert forall|k: int| 0 <= k < rows.len() implies span_width(line, (#[trigger] rows[k]).0, rows[k].1) <= width
                || rows[k].1 == rows[k].0 + 1 by {
                if k > 0 { assert(rows[k] == rest[k - 1]); }
            }
            assert forall|k: int| 0 <= k < rows.len() - 1 implies span_width(line, (#[trigger] rows[k]).0, rows[k].1)
                + cell_width(line[rows[k].1 as int]) > width by {
                if k > 0 { assert(rows[k] == rest[k - 1]); }
            }
            assert(rows.last() == rest.last());
        } else {
            if column > 0 {
                assert(column + w <= width);
            } else {
                assert(start == i);
            }
            lemma_wrap_from_well_cut(line, width, i + 1, start, column + w);
        }
    }
}

/// The display rows of a line at `width` are well cut (see `well_cut`),
/// starting at the line's beginning.
pub proof fn law_wrapped_rows_are_well_cut(line: Seq<char>, width: nat)
    requires
        width >= 1,
    ensures
        well_cut(line, width, 0, wrap_line(line, width)),
{
    lemma_span_width_empty(line, 0);
    lemma_wrap_from_well_cut(line, width, 0, 0, 0);
}

/// The text of `rows` of `line`, one after another.
pub open spec fn row_texts(line: Seq<char>, rows: Seq<(nat, nat)>) -> Seq<char>
    decreases rows.len(),
{
    if rows.len() == 0 {
        Seq::empty()
    } else {
        row_texts(line, rows.drop_last()) + line.subrange(rows.last().0 as int, rows.last().1 as int)
    }
}

proof fn lemma_row_texts_contiguous(line: Seq<char>, rows: Seq<(nat, nat)>, a: nat)
    requires
        rows.len() >= 1,
        rows[0].0 == a,
        forall|k: int| 0 <= k < rows.len() - 1 ==> #[trigger] rows[k].1 == rows[k + 1].0,
        forall|k: int| 0 <= k < rows.len() ==> (#[trigger] rows[k]).0 <= rows[k].1 <= line.len(),
    ensures
        a <= rows.last().1,
        row_texts(line, rows) == line.subrange(a as int, rows.last().1 as int),
    decreases rows.len(),
{
    if rows.len() == 1 {
        assert(rows.last() == rows[0]);
        assert(rows.drop_last().len() == 0);
        assert(row_texts(line, rows.drop_last()) == Seq::<char>::empty());
        assert(row_texts(line, rows) =~= line.subrange(a as int, rows.last().1 as int));
    } else {
        let p = rows.drop_last();
        assert forall|k: int| 0 <= k < p.len() - 1 implies #[trigger] p[k].1 == p[k + 1].0 by {
            assert(p[k] == rows[k]);
            assert(p[k + 1] == rows[k + 1]);
        }
        assert forall|k: int| 0 <= k < p.len() implies (#[trigger] p[k]).0 <= p[k].1 <= line.len() by {
            assert(p[k] == rows[k]);
        }
        lemma_row_texts_contiguous(line, p, a);
        assert(p.last() == rows[rows.len() - 2]);
        assert(rows[rows.len() - 2].1 == rows.last().0);
        assert(rows.last() == rows[rows.len() - 1]);
        assert(row_texts(line, rows) =~= line.subrange(a as int, rows.last().1 as int));
    }
}

/// Wrapping neither loses nor repeats text: the texts of a line's rows, one
/// after another, give back the line, so the rows of every line, the lines
/// joined by newlines, give back the body.
pub proof fn law_row_texts_give_back_the_body(lines: Seq<Seq<char>>, width: nat)
    requires
        width >= 1,
    ensures
        forall|l: int| 0 <= l < lines.len() ==> row_texts(#[trigger] lines[l], wrap_line(lines[l], width)) == lines[l],
        body_spec(Seq::new(lines.len(), |l: int| row_texts(lines[l], wrap_line(lines[l], width)))) == body_spec(lines),
{
    assert forall|l: int| 0 <= l < lines.len() implies row_texts(#[trigger] lines[l], wrap_line(lines[l], width)) == lines[l] by {
        law_wrapped_rows_are_well_cut(lines[l], width);
        lemma_row_texts_contiguous(lines[l], wrap_line(lines[l], width), 0);
        assert(lines[l].subrange(0, lines[l].len() as int) =~= lines[l]);
    }
    assert(Seq::new(lines.len(), |l: int| row_texts(lines[l], wrap_line(lines[l], width))) =~= lines);
}

pub open spec fn tag_rows(rows: Seq<(nat, nat)>, line: nat) -> Seq<VisualRow> {
    rows.map_values(|r: (nat, nat)| VisualRow { line: line as usize, start: r.0 as usize, end: r.1 as usize })
}

/// The display rows of all lines at `width` (at least one) columns.
pub open spec fn visual_rows_spec(lines: Seq<Seq<char>>, width: nat) -> Seq<VisualRow>
    decreases lines.len(),
{
    if lines.len() == 0 {
        Seq::empty()
    } else {
        visual_rows_spec(lines.drop_last(), width) + tag_rows(
            wrap_line(lines.last(), width),
            (lines.len() - 1) as nat,
        )
    }
}

/// The width the composer wraps at: the given one, but at least one column.
pub open spec fn wrap_width(width: usize) -> nat {
    if width == 0 {
        1
    } else {
        width as nat
    }
}

proof fn lemma_visual_rows_prefix(lines: Seq<Seq<char>>, width: nat, m: int)
    requires
        0 <= m <= lines.len(),
    ensures
        visual_rows_spec(lines.take(m), width).len() <= visual_rows_spec(lines, width).len(),
        visual_rows_spec(lines, width).subrange(0, visual_rows_spec(lines.take(m), width).len() as int)
            == visual_rows_spec(lines.take(m), width),
    decreases lines.len(),
{
    let all = visual_rows_spec(lines, width);
    if m == lines.len() {
        assert(lines.take(m) =~= lines);
        assert(all.subrange(0, all.len() as int) =~= all);
    } else {
        let p = lines.drop_last();
        assert(lines.take(m) =~= p.take(m));
        lemma_visual_rows_prefix(p, width, m);
        let q = visual_rows_spec(p, width);
        assert(all == q + tag_rows(wrap_line(lines.last(), width), (lines.len() - 1) as nat));
        let k = visual_rows_spec(p.take(m), width).len() as int;
        assert(all.subrange(0, k) =~= q.subrange(0, k));
    }
}

/// The display rows of `lines` are the rows of each line in turn: those of
/// line `l`, tagged with `l`, stand right after the rows of the lines
/// before it.
pub proof fn law_visual_rows_are_line_rows(lines: Seq<Seq<char>>, width: nat, l: int)
    requires
        0 <= l < lines.len(),
    ensures
        visual_rows_spec(lines.take(l), width).len() <= visual_rows_spec(lines.take(l + 1), width).len()
            <= visual_rows_spec(lines, width).len(),
        visual_rows_spec(lines, width).subrange(
            visual_rows_spec(lines.take(l), width).len() as int,
            visual_rows_spec(lines.take(l + 1), width).len() as int,
        ) == tag_rows(wrap_line(lines[l], width), l as nat),
{
    let a = visual_rows_spec(lines.take(l), width);
    let t = lines.take(l + 1);
    assert(t.drop_last() =~= lines.take(l));
    assert(t.last() == lines[l]);
    let b = visual_rows_spec(t, width);
    assert(b == a + tag_rows(wrap_line(lines[l], width), l as nat));
    lemma_visual_rows_prefix(lines, width, l + 1);
    let all = visual_rows_spec(lines, width);
    assert(all.subrange(a.len() as int, b.len() as int) =~= b.subrange(a.len() as int, b.len() as int));
    assert(b.subrange(a.len() as int, b.len() as int) =~= tag_rows(wrap_line(lines[l], width), l as nat));
}

/// The rows a composer shows at width `w` (see `CommentComposer::visual_rows`)
/// are, line after line, the rows its line `l` wraps into: well cut at the
/// wrap width (see `well_cut`), and giving back the line when their texts
/// are put one after another.
pub proof fn law_composer_rows_are_well_cut(c: &CommentComposer, w: usize, l: int)
    requires
        c.wf(),
        0 <= l < c.state().lines.len(),
    ensures
        ({
            let lines = c.state().lines;
            let width = wrap_width(w);
            &&& visual_rows_spec(lines, width).subrange(
                visual_rows_spec(lines.take(l), width).len() as int,
                visual_rows_spec(lines.take(l + 1), width).len() as int,
            ) == tag_rows(wrap_line(lines[l], width), l as nat)
            &&& well_cut(lines[l], width, 0, wrap_line(lines[l], width))
            &&& row_texts(lines[l], wrap_line(lines[l], width)) == lines[l]
        }),
{
    let lines = c.state().lines;
    let width = wrap_width(w);
    law_visual_rows_are_line_rows(lines, width, l);
    law_wrapped_rows_are_well_cut(lines[l], width);
    law_row_texts_give_back_the_body(lines, width);
}


/// Whether row `i` is where the cursor column `col` of `line` shows: within
/// its range, and at a wrap boundary only when no later row of the same line
/// follows (the boundary belongs to the next row).
pub open spec fn holds_cursor(rows: Seq<VisualRow>, i: int, line: int, col: int) -> bool {
    &&& rows[i].line == line
    &&& rows[i].start <= col <= rows[i].end
    &&& (col < rows[i].end || !(i + 1 < rows.len() && rows[i + 1].line == rows[i].line))
}

/// The display position (row, x) of the cursor, searching rows from `i`:
/// the first row that holds it, unless its x overflows the width and the
/// line continues on a later row.
pub open spec fn cursor_visual_from(lines: Seq<Seq<char>>, rows: Seq<VisualRow>, width: nat, line: int, col: int, i: int) -> (nat, nat)
    decreases rows.len() - i,
{
    if i < 0 || i >= rows.len() {
        (if rows.len() > 0 { (rows.len() - 1) as nat } else { 0 }, 0)
    } else if holds_cursor(rows, i, line, col) && {
        let x = display_width(lines[line].subrange(rows[i].start as int, col));
        x < width || i + 1 == rows.len() || rows[i + 1].line != rows[i].line
    } {
        let x = display_width(lines[line].subrange(rows[i].start as int, col));
        (i as nat, if x < width { x } else { (width - 1) as nat })
    } else {
        cursor_visual_from(lines, rows, width, line, col, i + 1)
    }
}

/// The char position in a row nearest to display column `x`: the first
/// character whose cells reach past `x`, or the row end.
pub open spec fn position_from(chars: Seq<char>, end: nat, x: nat, k: nat, column: nat) -> nat
    decreases end - k,
{
    if k >= end {
        end
    } else if column + cell_width(chars[k as int]) > x {
        k
    } else {
        position_from(chars, end, x, k + 1, column + cell_width(chars[k as int]))
    }
}

pub open spec fn position_in_row_spec(lines: Seq<Seq<char>>, row: VisualRow, x: nat) -> (int, int) {
    (row.line as int, position_from(lines[row.line as int], row.end as nat, x, row.start as nat, 0) as int)
}

/// Every row names an existing line and a range inside it.
pub open spec fn rows_valid(lines: Seq<Seq<char>>, rows: Seq<VisualRow>) -> bool {
    forall|i: int| 0 <= i < rows.len() ==> {
        &&& (#[trigger] rows[i]).line < lines.len()
        &&& rows[i].start <= rows[i].end <= lines[rows[i].line as int].len()
    }
}

proof fn lemma_wrap_from_valid(line: Seq<char>, width: nat, i: nat, start: nat, column: nat)
    requires
        start <= i <= line.len(),
    ensures
        wrap_from(line, width, i, start, column).len() >= 1,
        forall|k: int| 0 <= k < wrap_from(line, width, i, start, column).len() ==> {
            let r = #[trigger] wrap_from(line, width, i, start, column)[k];
            r.0 <= r.1 <= line.len()
        },
    decreases line.len() - i,
{
    if i < line.len() {
        let w = cell_width(line[i as int]);
        if column + w > width && column > 0 {
            lemma_wrap_from_valid(line, width, i + 1, i, w);
            let rest = wrap_from(line, width, i + 1, i, w);
            assert forall|k: int| 0 <= k < wrap_from(line, width, i, start, column).len() implies {
                let r = #[trigger] wrap_from(line, width, i, start, column)[k];
                r.0 <= r.1 <= line.len()
            } by {
                if k > 0 {
                    assert(wrap_from(line, width, i, start, column)[k] == rest[k - 1]);
                }
            }
        } else {
            lemma_wrap_from_valid(line, width, i + 1, start, column + w);
        }
    }
}

/// Line count and every line length fit in a `usize`, as those of any composer do.
pub open spec fn lines_fit(lines: Seq<Seq<char>>) -> bool {
    &&& lines.len() <= usize::MAX
    &&& forall|i: int| 0 <= i < lines.len() ==> (#[trigger] lines[i]).len() <= usize::MAX
}

proof fn lemma_visual_rows_valid(lines: Seq<Seq<char>>, width: nat)
    requires
        lines_fit(lines),
    ensures
        rows_valid(lines, visual_rows_spec(lines, width)),
        visual_rows_spec(lines, width).len() >= lines.len(),
    decreases lines.len(),
{
    if lines.len() > 0 {
        let prior = lines.drop_last();
        assert forall|i: int| 0 <= i < prior.len() implies (#[trigger] prior[i]).len() <= usize::MAX by {
            assert(prior[i] == lines[i]);
        }
        lemma_visual_rows_valid(prior, width);
        assert(lines.last() == lines[lines.len() - 1]);
        lemma_wrap_from_valid(lines.last(), width, 0, 0, 0);
        let a = visual_rows_spec(prior, width);
        let b = tag_rows(wrap_line(lines.last(), width), (lines.len() - 1) as nat);
        assert forall|i: int| 0 <= i < (a + b).len() implies {
            &&& (#[trigger] (a + b)[i]).line < lines.len()
            &&& (a + b)[i].start <= (a + b)[i].end <= lines[(a + b)[i].line as int].len()
        } by {
            if i < a.len() {
                assert((a + b)[i] == a[i]);
                assert(lines[a[i].line as int] == prior[a[i].line as int]);
            } else {
                assert((a + b)[i] == b[i - a.len()]);
                let r = wrap_line(lines.last(), width)[i - a.len()];
                assert(r.0 <= r.1 <= lines.last().len());
            }
        }
    }
}

impl CommentComposer {
    /// The lines and cursor of this composer.
    pub closed spec fn state(&self) -> EditorState {
        EditorState { lines: line_views(self.lines@), line: self.cursor_line as int, col: self.cursor_col as int }
    }

    /// The vertical scroll offset, in display rows.
    pub closed spec fn scroll_view(&self) -> usize {
        self.scroll
    }

    /// Whether a discard is awaiting confirmation.
    pub closed spec fn discard_pending(&self) -> bool {
        self.confirm_discard
    }

    /// The viewport recorded by the renderer.
    pub closed spec fn viewport_view(&self) -> (u16, u16) {
        self.viewport
    }

    /// At least one line, and the cursor on a line and within it.
    pub closed spec fn wf(&self) -> bool {
        editor_wf(self.state())
    }

    /// A composer is well formed exactly when its lines and cursor are (see
    /// `editor_wf`), so the laws over `EditorState` apply to `c.state()`.
    pub proof fn lemma_wf(&self)
        ensures
            self.wf() == editor_wf(self.state()),
    {
    }

    proof fn lemma_state(&self)
        ensures
            self.state().lines.len() == self.lines@.len(),
            forall|i: int| 0 <= i < self.lines@.len() ==> #[trigger] self.state().lines[i] == self.lines@[i]@,
            lines_fit(self.state().lines),
    {
        assert forall|i: int| 0 <= i < self.state().lines.len() implies (#[trigger] self.state().lines[i]).len() <= usize::MAX by {
            assert(self.state().lines[i] == self.lines@[i]@);
            assert(self.lines@[i].len() == self.lines@[i]@.len());
        }
        assert(self.lines.len() == self.lines@.len());
    }

    /// An empty composer: one empty line, cursor at the origin.
    pub fn new() -> (c: Self)
        ensures
            c.wf(),
            c.state().lines == seq![Seq::<char>::empty()],
            c.state().line == 0,
            c.state().col == 0,
            c.scroll_view() == 0,
            !c.discard_pending(),
            c.viewport_view() == (0u16, 0u16),
    {
        let mut lines: Vec<Vec<char>> = Vec::new();
        lines.push(Vec::new());
        let c = CommentComposer { lines, cursor_line: 0, cursor_col: 0, scroll: 0, confirm_discard: false, viewport: (0, 0) };
        proof {
            assert(c.state().lines =~= seq![Seq::<char>::empty()]);
        }
        c
    }

    /// The text: the lines joined by line breaks.
    pub fn body(&self) -> (s: String)
        ensures
            s@ == body_spec(self.state().lines),
    {
        let mut s = String::new();
        let mut i: usize = 0;
        while i < self.lines.len()
            invariant
                i <= self.lines@.len(),
                s@ == crate::text::join(line_views(self.lines@).subrange(0, i as int), seq!['\n']),
            decreases self.lines.len() - i,
        {
            let ghost prior = line_views(self.lines@).subrange(0, i as int);
            if i > 0 {
                s.push('\n');
            }
            let l = &self.lines[i];
            crate::text::push_chars(&mut s, l.as_slice(), 0, l.len());
            proof {
                assert(l@.subrange(0, l@.len() as int) == l@);
                assert(line_views(self.lines@).subrange(0, i + 1) =~= prior.push(l@));
                crate::text::lemma_join_push(prior, seq!['\n'], l@);
                assert(s@ =~= crate::text::join(line_views(self.lines@).subrange(0, i + 1), seq!['\n']));
            }
            i = i + 1;
        }
        proof {
            assert(line_views(self.lines@).subrange(0, self.lines@.len() as int) =~= line_views(self.lines@));
        }
        s
    }

    /// Whether every line is empty.
    pub fn is_empty(&self) -> (b: bool)
        ensures
            b == (forall|i: int| 0 <= i < self.state().lines.len() ==> #[trigger] self.state().lines[i].len() == 0),
    {
        let mut i: usize = 0;
        while i < self.lines.len()
            invariant
                i <= self.lines@.len(),
                forall|j: int| 0 <= j < i ==> #[trigger] self.lines@[j]@.len() == 0,
            decreases self.lines.len() - i,
        {
            if self.lines[i].len() > 0 {
                proof {
                    assert(self.state().lines[i as int].len() > 0);
                }
                return false;
            }
            i = i + 1;
        }
        proof {
            assert forall|j: int| 0 <= j < self.state().lines.len() implies #[trigger] self.state().lines[j].len() == 0 by {
                assert(self.state().lines[j] == self.lines@[j]@);
            }
        }
        true
    }

    /// The cursor as (line, column).
    pub fn cursor(&self) -> (c: (usize, usize))
        ensures
            c.0 == self.state().line,
            c.1 == self.state().col,
    {
        (self.cursor_line, self.cursor_col)
    }

    /// The recorded viewport width, at least one column.
    pub fn viewport_width(&self) -> (w: usize)
        ensures
            w == if self.viewport_view().0 == 0 { 1 } else { self.viewport_view().0 as usize },
    {
        let w = self.viewport.0 as usize;
        if w == 0 { 1 } else { w }
    }

    /// The recorded viewport height, at least one row.
    pub fn viewport_height(&self) -> (h: usize)
        ensures
            h == if self.viewport_view().1 == 0 { 1 } else { self.viewport_view().1 as usize },
    {
        let h = self.viewport.1 as usize;
        if h == 0 { 1 } else { h }
    }

    /// Types `ch` at the cursor.
    pub fn insert_char(&mut self, ch: char)
        requires
            old(self).wf(),
        ensures
            final(self).wf(),
            final(self).state() == insert_char_spec(old(self).state(), ch),
            !final(self).discard_pending(),
            final(self).scroll_view() == old(self).scroll_view(),
            final(self).viewport_view() == old(self).viewport_view(),
    {
        proof {
            self.lemma_state();
        }
        self.confirm_discard = false;
        let cl = self.cursor_line;
        let mut line = self.lines.remove(cl);
        line.insert(self.cursor_col, ch);
        assert(self.cursor_col < line.len());
        let col = self.cursor_col + 1;
        self.lines.insert(cl, line);
        self.cursor_col = col;
        proof {
            assert(self.state().lines =~= insert_char_spec(old(self).state(), ch).lines);
        }
    }

    /// Breaks the line at the cursor.
    pub fn newline(&mut self)
        requires
            old(self).wf(),
        ensures
            final(self).wf(),
            final(self).state() == newline_spec(old(self).state()),
            !final(self).discard_pending(),
            final(self).scroll_view() == old(self).scroll_view(),
            final(self).viewport_view() == old(self).viewport_view(),
    {
        proof {
            self.lemma_state();
        }
        self.confirm_discard = false;
        let cl = self.cursor_line;
        let mut line = self.lines.remove(cl);
        let rest = line.split_off(self.cursor_col);
        self.lines.insert(cl, line);
        self.lines.insert(cl + 1, rest);
        self.cursor_line = cl + 1;
        self.cursor_col = 0;
        proof {
            assert(self.state().lines =~= newline_spec(old(self).state()).lines);
        }
    }

    /// Removes the character before the cursor, joining lines at a line start.
    pub fn backspace(&mut self)
        requires
            old(self).wf(),
        ensures
            final(self).wf(),
            final(self).state() == backspace_spec(old(self).state()),
            !final(self).discard_pending(),
            final(self).scroll_view() == old(self).scroll_view(),
            final(self).viewport_view() == old(self).viewport_view(),
    {
        proof {
            self.lemma_state();
        }
        self.confirm_discard = false;
        let cl = self.cursor_line;
        if self.cursor_col > 0 {
            let mut line = self.lines.remove(cl);
            line.remove(self.cursor_col - 1);
            self.lines.insert(cl, line);
            self.cursor_col = self.cursor_col - 1;
            proof {
                assert(self.state().lines =~= backspace_spec(old(self).state()).lines);
            }
        } else if cl > 0 {
            let mut removed = self.lines.remove(cl);
            let mut prev = self.lines.remove(cl - 1);
            let col = prev.len();
            prev.append(&mut removed);
            self.lines.insert(cl - 1, prev);
            self.cursor_line = cl - 1;
            self.cursor_col = col;
            proof {
                assert(self.state().lines =~= backspace_spec(old(self).state()).lines);
            }
        }
    }

    /// Removes the character under the cursor, joining the next line at a line end.
    pub fn delete(&mut self)
        requires
            old(self).wf(),
        ensures
            final(self).wf(),
            final(self).state() == delete_spec(old(self).state()),
            !final(self).discard_pending(),
            final(self).scroll_view() == old(self).scroll_view(),
            final(self).viewport_view() == old(self).viewport_view(),
    {
        proof {
            self.lemma_state();
        }
        self.confirm_discard = false;
        let cl = self.cursor_line;
        let len = self.lines[cl].len();
        if self.cursor_col < len {
            let mut line = self.lines.remove(cl);
            line.remove(self.cursor_col);
            self.lines.insert(cl, line);
            proof {
                assert(self.state().lines =~= delete_spec(old(self).state()).lines);
            }
        } else if cl + 1 < self.lines.len() {
            let mut next = self.lines.remove(cl + 1);
            let mut line = self.lines.remove(cl);
            line.append(&mut next);
            self.lines.insert(cl, line);
            proof {
                assert(self.state().lines =~= delete_spec(old(self).state()).lines);
            }
        }
    }

    pub fn move_left(&mut self)
        requires
            old(self).wf(),
        ensures
            final(self).wf(),
            final(self).state() == move_left_spec(old(self).state()),
            final(self).discard_pending() == old(self).discard_pending(),
            final(self).scroll_view() == old(self).scroll_view(),
            final(self).viewport_view() == old(self).viewport_view(),
    {
        proof {
            self.lemma_state();
        }
        if self.cursor_col > 0 {
            self.cursor_col = self.cursor_col - 1;
        } else if self.cursor_line > 0 {
            self.cursor_line = self.cursor_line - 1;
            self.cursor_col = self.lines[self.cursor_line].len();
        }
    }

    pub fn move_right(&mut self)
        requires
            old(self).wf(),
        ensures
            final(self).wf(),
            final(self).state() == move_right_spec(old(self).state()),
            final(self).discard_pending() == old(self).discard_pending(),
            final(self).scroll_view() == old(self).scroll_view(),
            final(self).viewport_view() == old(self).viewport_view(),
    {
        proof {
            self.lemma_state();
        }
        if self.cursor_col < self.lines[self.cursor_line].len() {
            self.cursor_col = self.cursor_col + 1;
        } else if self.cursor_line + 1 < self.lines.len() {
            self.cursor_line = self.cursor_line + 1;
            self.cursor_col = 0;
        }
    }

    /// Moves to the start of the line.
    pub fn move_home(&mut self)
        requires
            old(self).wf(),
        ensures
            final(self).wf(),
            final(self).state() == (EditorState { col: 0, ..old(self).state() }),
            final(self).discard_pending() == old(self).discard_pending(),
            final(self).scroll_view() == old(self).scroll_view(),
            final(self).viewport_view() == old(self).viewport_view(),
    {
        self.cursor_col = 0;
    }

    /// Moves to the end of the line.
    pub fn move_end(&mut self)
        requires
            old(self).wf(),
        ensures
            final(self).wf(),
            final(self).state() == (EditorState {
                col: old(self).state().lines[old(self).state().line].len() as int,
                ..old(self).state()
            }),
            final(self).discard_pending() == old(self).discard_pending(),
            final(self).scroll_view() == old(self).scroll_view(),
            final(self).viewport_view() == old(self).viewport_view(),
    {
        proof {
            self.lemma_state();
        }
        self.cursor_col = self.lines[self.cursor_line].len();
    }

    /// Wrap every logical line into display rows of at most `width` columns
    /// (at least one).
    pub fn visual_rows(&self, width: usize) -> (rows: Vec<VisualRow>)
        ensures
            rows@ == visual_rows_spec(self.state().lines, wrap_width(width)),
            rows_valid(self.state().lines, rows@),
            rows@.len() >= self.state().lines.len(),
    {
        proof {
            self.lemma_state();
        }
        let w = if width == 0 { 1 } else { width };
        let mut rows: Vec<VisualRow> = Vec::new();
        let mut k: usize = 0;
        proof {
            assert(self.state().lines.subrange(0, 0) =~= Seq::<Seq<char>>::empty());
        }
        while k < self.lines.len()
            invariant
                k <= self.lines@.len(),
                w as nat == wrap_width(width),
                w >= 1,
                self.state().lines.len() == self.lines@.len(),
                forall|i: int| 0 <= i < self.lines@.len() ==> #[trigger] self.state().lines[i] == self.lines@[i]@,
                rows@ == visual_rows_spec(self.state().lines.subrange(0, k as int), w as nat),
            decreases self.lines.len() - k,
        {
            wrap_line_into(&mut rows, k, &self.lines[k], w);
            proof {
                let next = self.state().lines.subrange(0, k + 1);
                assert(next.drop_last() =~= self.state().lines.subrange(0, k as int));
                assert(next.last() == self.lines@[k as int]@);
            }
            k = k + 1;
        }
        proof {
            assert(self.state().lines.subrange(0, k as int) =~= self.state().lines);
            lemma_visual_rows_valid(self.state().lines, wrap_width(width));
        }
        rows
    }

    fn cursor_visual_in(&self, rows: &Vec<VisualRow>, width: usize) -> (p: (usize, usize))
        requires
            rows_valid(self.state().lines, rows@),
            width >= 1,
        ensures
            (p.0 as nat, p.1 as nat) == cursor_visual_from(self.state().lines, rows@, width as nat, self.state().line, self.state().col, 0),
    {
        proof {
            self.lemma_state();
        }
        let mut index: usize = 0;
        while index < rows.len()
            invariant
                index <= rows@.len(),
                rows_valid(self.state().lines, rows@),
                width >= 1,
                self.state().lines.len() == self.lines@.len(),
                forall|i: int| 0 <= i < self.lines@.len() ==> #[trigger] self.state().lines[i] == self.lines@[i]@,
                cursor_visual_from(self.state().lines, rows@, width as nat, self.state().line, self.state().col, 0)
                    == cursor_visual_from(self.state().lines, rows@, width as nat, self.state().line, self.state().col, index as int),
            decreases rows.len() - index,
        {
            let row = rows[index];
            let next_same = index + 1 < rows.len() && rows[index + 1].line == row.line;
            if row.line == self.cursor_line && self.cursor_col >= row.start && self.cursor_col <= row.end
                && (self.cursor_col < row.end || !next_same) {
                proof {
                    assert(holds_cursor(rows@, index as int, self.state().line, self.state().col));
                    assert(self.state().lines[row.line as int] == self.lines@[row.line as int]@);
                }
                let x = capped_width(&self.lines[row.line], row.start, self.cursor_col, width);
                if x < width || index + 1 == rows.len() || rows[index + 1].line != row.line {
                    let shown = if x < width { x } else { width - 1 };
                    return (index, shown);
                }
            }
            index = index + 1;
        }
        if rows.len() > 0 {
            (rows.len() - 1, 0)
        } else {
            (0, 0)
        }
    }

    /// The cursor's display position as (row, x) for the given wrap width.
    pub fn cursor_visual(&self, width: usize) -> (p: (usize, usize))
        ensures
            (p.0 as nat, p.1 as nat) == cursor_visual_spec(self.state(), wrap_width(width)),
    {
        let rows = self.visual_rows(width);
        let w = if width == 0 { 1 } else { width };
        self.cursor_visual_in(&rows, w)
    }

    /// Inserts `text` at the cursor as if typed, `\r\n` and `\r` breaking lines.
    pub fn insert_str(&mut self, text: &str)
        requires
            old(self).wf(),
        ensures
            final(self).wf(),
            final(self).state() == type_text(old(self).state(), normalize_newlines(text@)),
            !final(self).discard_pending(),
            final(self).scroll_view() == old(self).scroll_view(),
            final(self).viewport_view() == old(self).viewport_view(),
    {
        self.confirm_discard = false;
        let t = normalized_chars(text);
        let mut i: usize = 0;
        proof {
            assert(t@.subrange(0, 0) =~= Seq::<char>::empty());
        }
        while i < t.len()
            invariant
                i <= t@.len(),
                self.wf(),
                self.state() == type_text(old(self).state(), t@.subrange(0, i as int)),
                !self.confirm_discard,
                self.scroll == old(self).scroll,
                self.viewport == old(self).viewport,
            decreases t.len() - i,
        {
            if t[i] == '\n' {
                self.newline();
            } else {
                self.insert_char(t[i]);
            }
            proof {
                let next = t@.subrange(0, i + 1);
                assert(next.drop_last() =~= t@.subrange(0, i as int));
                assert(next.last() == t@[i as int]);
            }
            i = i + 1;
        }
        proof {
            assert(t@.subrange(0, i as int) =~= t@);
        }
    }

    /// Move one display row up or down, holding the current display column
    /// so the cursor travels straight through wrapped lines.
    pub fn move_vertical(&mut self, width: usize, delta: isize)
        requires
            old(self).wf(),
        ensures
            final(self).wf(),
            final(self).state() == move_vertical_spec(old(self).state(), wrap_width(width), delta as int),
            final(self).discard_pending() == old(self).discard_pending(),
            final(self).scroll_view() == old(self).scroll_view(),
            final(self).viewport_view() == old(self).viewport_view(),
    {
        proof {
            self.lemma_state();
        }
        let rows = self.visual_rows(width);
        let w = if width == 0 { 1 } else { width };
        let (row, x) = self.cursor_visual_in(&rows, w);
        let moved = offset_saturating(row, delta);
        let target = if moved < rows.len() - 1 { moved } else { rows.len() - 1 };
        let (line, col) = position_in_row(&self.lines, rows[target], x);
        proof {
            lemma_place_wf(self.state(), wrap_width(width), target as int, x as nat);
            assert(self.lines@[rows@[target as int].line as int]@ == self.state().lines[rows@[target as int].line as int]);
        }
        self.cursor_line = line;
        self.cursor_col = col;
    }

    /// Place the cursor at the char nearest to display position (row, x).
    pub fn click(&mut self, width: usize, row: usize, x: usize)
        requires
            old(self).wf(),
        ensures
            final(self).wf(),
            final(self).state() == click_spec(old(self).state(), wrap_width(width), row as int, x as nat),
            final(self).discard_pending() == old(self).discard_pending(),
            final(self).scroll_view() == old(self).scroll_view(),
            final(self).viewport_view() == old(self).viewport_view(),
    {
        proof {
            self.lemma_state();
        }
        let rows = self.visual_rows(width);
        let target = if row < rows.len() - 1 { row } else { rows.len() - 1 };
        let (line, col) = position_in_row(&self.lines, rows[target], x);
        proof {
            lemma_place_wf(self.state(), wrap_width(width), target as int, x as nat);
            assert(self.lines@[rows@[target as int].line as int]@ == self.state().lines[rows@[target as int].line as int]);
        }
        self.cursor_line = line;
        self.cursor_col = col;
    }

    /// The text shown on one wrapped display row. Positions past the end of
    /// the line stand for its end.
    pub fn row_text(&self, row: &VisualRow) -> (s: String)
        requires
            row.line < self.state().lines.len(),
            ({
                let len = self.state().lines[row.line as int].len();
                (if row.start <= len { row.start as int } else { len as int })
                    <= (if row.end <= len { row.end as int } else { len as int })
            }),
        ensures
            ({
                let l = self.state().lines[row.line as int];
                let a = if row.start <= l.len() { row.start as int } else { l.len() as int };
                let b = if row.end <= l.len() { row.end as int } else { l.len() as int };
                s@ == l.subrange(a, b)
            }),
    {
        proof {
            self.lemma_state();
        }
        let chars = &self.lines[row.line];
        let len = chars.len();
        let a = if row.start <= len { row.start } else { len };
        let b = if row.end <= len { row.end } else { len };
        crate::text::string_of(chars.as_slice(), a, b)
    }

    /// Keep the cursor row inside a viewport of `height` rows: scroll may
    /// be at most the cursor row and at least one viewport above it.
    pub fn scroll_cursor_into_view(&mut self, width: usize, height: usize)
        requires
            old(self).wf(),
        ensures
            final(self).wf(),
            final(self).state() == old(self).state(),
            final(self).scroll_view() == scroll_into_view_spec(
                old(self).scroll_view() as int,
                cursor_visual_spec(old(self).state(), wrap_width(width)).0 as int,
                height as int,
            ),
            final(self).discard_pending() == old(self).discard_pending(),
            final(self).viewport_view() == old(self).viewport_view(),
    {
        let (row, _x) = self.cursor_visual(width);
        let h = if height < 1 { 1 } else { height };
        let min_scroll = row.saturating_add(1).saturating_sub(h);
        let hi = if row > min_scroll { row } else { min_scroll };
        self.scroll = if self.scroll < min_scroll {
            min_scroll
        } else if self.scroll > hi {
            hi
        } else {
            self.scroll
        };
    }

    /// Scroll by `delta` rows, never past the last viewport of text.
    pub fn scroll_by(&mut self, width: usize, height: usize, delta: isize)
        requires
            old(self).wf(),
        ensures
            final(self).wf(),
            final(self).state() == old(self).state(),
            final(self).scroll_view() == scroll_by_spec(
                old(self).scroll_view() as int,
                visual_rows_spec(old(self).state().lines, wrap_width(width)).len() as int,
                height as int,
                delta as int,
            ),
            final(self).discard_pending() == old(self).discard_pending(),
            final(self).viewport_view() == old(self).viewport_view(),
    {
        let total = self.visual_rows(width).len();
        let h = if height < 1 { 1 } else { height };
        let max_scroll = total.saturating_sub(h);
        let moved = offset_saturating(self.scroll, delta);
        self.scroll = if moved < max_scroll { moved } else { max_scroll };
    }
}

// ---------------------------------------------------------------- movement

/// `a + d`, held to the range of a `usize`.
pub open spec fn offset_saturating_spec(a: int, d: int) -> int {
    if a + d < 0 {
        0
    } else if a + d > usize::MAX {
        usize::MAX as int
    } else {
        a + d
    }
}

/// `a - b`, but not below zero.
pub open spec fn sub_saturating(a: int, b: int) -> int {
    if a - b < 0 { 0 } else { a - b }
}

/// `v` held between `lo` and `hi`.
pub open spec fn clamp_spec(v: int, lo: int, hi: int) -> int {
    if v < lo { lo } else if v > hi { hi } else { v }
}

/// The cursor's display position (row, x) when wrapping at `width` columns.
pub open spec fn cursor_visual_spec(s: EditorState, width: nat) -> (nat, nat) {
    cursor_visual_from(s.lines, visual_rows_spec(s.lines, width), width, s.line, s.col, 0)
}

/// The cursor placed at display column `x` of display row `target`.
pub open spec fn place_at_row(s: EditorState, width: nat, target: int, x: nat) -> EditorState {
    let rows = visual_rows_spec(s.lines, width);
    let p = position_in_row_spec(s.lines, rows[target], x);
    EditorState { line: p.0, col: p.1, ..s }
}

/// Moving `delta` display rows up or down, keeping the display column; the
/// target row is held within the rows of the text.
pub open spec fn move_vertical_spec(s: EditorState, width: nat, delta: int) -> EditorState {
    let rows = visual_rows_spec(s.lines, width);
    let (row, x) = cursor_visual_spec(s, width);
    let target = if offset_saturating_spec(row as int, delta) < rows.len() - 1 {
        offset_saturating_spec(row as int, delta)
    } else {
        rows.len() - 1
    };
    place_at_row(s, width, target, x)
}

/// Clicking display position (row, x); a row below the text means the last row.
pub open spec fn click_spec(s: EditorState, width: nat, row: int, x: nat) -> EditorState {
    let rows = visual_rows_spec(s.lines, width);
    let target = if row < rows.len() - 1 { row } else { rows.len() - 1 };
    place_at_row(s, width, target, x)
}

/// The scroll offset that keeps the cursor row on a viewport of `height` rows.
pub open spec fn scroll_into_view_spec(scroll: int, row: int, height: int) -> int {
    let h = if height < 1 { 1 } else { height };
    let min_scroll = sub_saturating(if row + 1 > usize::MAX { usize::MAX as int } else { row + 1 }, h);
    clamp_spec(scroll, min_scroll, if row > min_scroll { row } else { min_scroll })
}

/// The scroll offset after scrolling `delta` rows over `total` rows shown
/// `height` at a time.
pub open spec fn scroll_by_spec(scroll: int, total: int, height: int, delta: int) -> int {
    let h = if height < 1 { 1 } else { height };
    let max_scroll = sub_saturating(total, h);
    let moved = offset_saturating_spec(scroll, delta);
    if moved < max_scroll { moved } else { max_scroll }
}

proof fn lemma_position_from_bounds(chars: Seq<char>, end: nat, x: nat, k: nat, column: nat)
    requires
        k <= end,
    ensures
        k <= position_from(chars, end, x, k, column) <= end,
    decreases end - k,
{
    if k < end && column + cell_width(chars[k as int]) <= x {
        lemma_position_from_bounds(chars, end, x, k + 1, column + cell_width(chars[k as int]));
    }
}

proof fn lemma_place_wf(s: EditorState, width: nat, target: int, x: nat)
    requires
        editor_wf(s),
        lines_fit(s.lines),
        0 <= target < visual_rows_spec(s.lines, width).len(),
    ensures
        editor_wf(place_at_row(s, width, target, x)),
        place_at_row(s, width, target, x).lines == s.lines,
{
    lemma_visual_rows_valid(s.lines, width);
    let rows = visual_rows_spec(s.lines, width);
    let r = rows[target];
    lemma_position_from_bounds(s.lines[r.line as int], r.end as nat, x, r.start as nat, 0);
}

/// The characters of `text` with `\r\n` and lone `\r` turned into `\n`.
fn normalized_chars(text: &str) -> (out: Vec<char>)
    ensures
        out@ == normalize_newlines(text@),
{
    let t = crate::text::chars_of(text);
    let mut out: Vec<char> = Vec::new();
    let mut i: usize = 0;
    proof {
        assert(t@.subrange(0, t@.len() as int) =~= t@);
        assert(out@ + normalize_newlines(t@) =~= normalize_newlines(t@));
    }
    while i < t.len()
        invariant
            i <= t@.len(),
            t@ == text@,
            normalize_newlines(t@) == out@ + normalize_newlines(t@.subrange(i as int, t@.len() as int)),
        decreases t.len() - i,
    {
        let ghost rest = t@.subrange(i as int, t@.len() as int);
        let ghost before = out@;
        if t[i] == '\r' {
            out.push('\n');
            if i + 1 < t.len() && t[i + 1] == '\n' {
                proof {
                    assert(rest[1] == '\n');
                    assert(rest.subrange(2, rest.len() as int) =~= t@.subrange(i + 2, t@.len() as int));
                    assert(before + (seq!['\n'] + normalize_newlines(rest.subrange(2, rest.len() as int)))
                        =~= out@ + normalize_newlines(t@.subrange(i + 2, t@.len() as int)));
                }
                i = i + 2;
            } else {
                proof {
                    assert(rest.drop_first() =~= t@.subrange(i + 1, t@.len() as int));
                    assert(before + (seq!['\n'] + normalize_newlines(rest.drop_first()))
                        =~= out@ + normalize_newlines(t@.subrange(i + 1, t@.len() as int)));
                }
                i = i + 1;
            }
        } else {
            let c = t[i];
            out.push(c);
            proof {
                assert(rest.drop_first() =~= t@.subrange(i + 1, t@.len() as int));
                assert(before + (seq![c] + normalize_newlines(rest.drop_first()))
                    =~= out@ + normalize_newlines(t@.subrange(i + 1, t@.len() as int)));
            }
            i = i + 1;
        }
    }
    proof {
        assert(t@.subrange(i as int, t@.len() as int) =~= Seq::<char>::empty());
        assert(out@ + Seq::<char>::empty() =~= out@);
    }
    out
}

/// Appends the display rows of `line` (line number `line_index`) wrapped at
/// `width` columns.
fn wrap_line_into(rows: &mut Vec<VisualRow>, line_index: usize, line: &Vec<char>, width: usize)
    requires
        width >= 1,
    ensures
        final(rows)@ == old(rows)@ + tag_rows(wrap_line(line@, width as nat), line_index as nat),
{
    let mut start: usize = 0;
    let mut column: usize = 0;
    let mut i: usize = 0;
    let ghost mut emitted: Seq<(nat, nat)> = Seq::empty();
    while i < line.len()
        invariant
            i <= line@.len(),
            start <= i,
            column <= width || column <= 3,
            wrap_line(line@, width as nat) == emitted + wrap_from(line@, width as nat, i as nat, start as nat, column as nat),
            rows@ == old(rows)@ + tag_rows(emitted, line_index as nat),
            forall|k: int| 0 <= k < emitted.len() ==> (#[trigger] emitted[k]).1 <= i && emitted[k].0 <= emitted[k].1,
        decreases line.len() - i,
    {
        let w = cell_width_of(line[i]);
        let ghost prior_rows = rows@;
        if column > 0 && (column > width || w > width - column) {
            rows.push(VisualRow { line: line_index, start, end: i });
            proof {
                let e2 = emitted.push((start as nat, i as nat));
                assert(tag_rows(e2, line_index as nat) =~= tag_rows(emitted, line_index as nat).push(
                    VisualRow { line: line_index, start, end: i },
                ));
                assert(emitted + (seq![(start as nat, i as nat)] + wrap_from(line@, width as nat, (i + 1) as nat, i as nat, w as nat))
                    =~= e2 + wrap_from(line@, width as nat, (i + 1) as nat, i as nat, w as nat));
                emitted = e2;
            }
            start = i;
            column = w;
        } else {
            column = column + w;
        }
        i = i + 1;
    }
    rows.push(VisualRow { line: line_index, start, end: i });
    proof {
        let e2 = emitted.push((start as nat, i as nat));
        assert(tag_rows(e2, line_index as nat) =~= tag_rows(emitted, line_index as nat).push(
            VisualRow { line: line_index, start, end: i },
        ));
        assert(emitted + seq![(start as nat, line@.len())] =~= e2);
    }
}

/// The display width of `v[from..to]`, or `cap` where it reaches `cap`.
fn capped_width(v: &Vec<char>, from: usize, to: usize, cap: usize) -> (r: usize)
    requires
        from <= to <= v@.len(),
    ensures
        r == if display_width(v@.subrange(from as int, to as int)) < cap {
            display_width(v@.subrange(from as int, to as int))
        } else {
            cap as nat
        },
{
    let mut acc: usize = 0;
    let mut k = from;
    proof {
        assert(v@.subrange(from as int, from as int) =~= Seq::<char>::empty());
    }
    while k < to
        invariant
            from <= k <= to <= v@.len(),
            acc == if display_width(v@.subrange(from as int, k as int)) < cap {
                display_width(v@.subrange(from as int, k as int))
            } else {
                cap as nat
            },
        decreases to - k,
    {
        let w = cell_width_of(v[k]);
        proof {
            assert(v@.subrange(from as int, k + 1).drop_last() =~= v@.subrange(from as int, k as int));
        }
        if w >= cap - acc {
            acc = cap;
        } else {
            acc = acc + w;
        }
        k = k + 1;
    }
    acc
}

/// `a` moved by `delta`, held to the range of a `usize`.
fn offset_saturating(a: usize, delta: isize) -> (r: usize)
    ensures
        r == offset_saturating_spec(a as int, delta as int),
{
    if delta >= 0 {
        a.saturating_add(delta as usize)
    } else {
        let back: usize = (-(delta + 1)) as usize + 1;
        a.saturating_sub(back)
    }
}

/// The char position of display column `x` in `row` (see `position_from`).
fn position_in_row(lines: &Vec<Vec<char>>, row: VisualRow, x: usize) -> (p: (usize, usize))
    requires
        row.line < lines@.len(),
        row.start <= row.end <= lines@[row.line as int]@.len(),
    ensures
        p.0 == row.line,
        p.1 == position_from(lines@[row.line as int]@, row.end as nat, x as nat, row.start as nat, 0),
{
    let chars = &lines[row.line];
    let mut column: usize = 0;
    let mut k = row.start;
    while k < row.end
        invariant
            row.start <= k <= row.end <= chars@.len(),
            chars@ == lines@[row.line as int]@,
            column <= x,
            position_from(chars@, row.end as nat, x as nat, row.start as nat, 0)
                == position_from(chars@, row.end as nat, x as nat, k as nat, column as nat),
        decreases row.end - k,
    {
        let w = cell_width_of(chars[k]);
        if w > x - column {
            assert(position_from(chars@, row.end as nat, x as nat, k as nat, column as nat) == k);
            return (row.line, k);
        }
        column = column + w;
        k = k + 1;
    }
    (row.line, row.end)
}


// ---------------------------------------------------------------- laws

/// The state of a new composer: one empty line, the cursor at its start.
pub open spec fn empty_state() -> EditorState {
    EditorState { lines: seq![Seq::<char>::empty()], line: 0, col: 0 }
}

/// Typing a character and then deleting backwards restores the text and
/// the cursor.
pub proof fn law_backspace_undoes_insert_char(s: EditorState, c: char)
    requires
        editor_wf(s),
    ensures
        backspace_spec(insert_char_spec(s, c)) == s,
{
    let t = insert_char_spec(s, c);
    assert(t.lines[s.line].remove(s.col) =~= s.lines[s.line]);
    assert(t.lines.update(s.line, s.lines[s.line]) =~= s.lines);
}

/// Breaking a line and then deleting backwards restores the text and the
/// cursor.
pub proof fn law_backspace_undoes_newline(s: EditorState)
    requires
        editor_wf(s),
    ensures
        backspace_spec(newline_spec(s)) == s,
{
    let t = newline_spec(s);
    let l = s.lines[s.line];
    assert(t.lines[s.line] == l.subrange(0, s.col));
    assert(t.lines[s.line + 1] == l.subrange(s.col, l.len() as int));
    assert(l.subrange(0, s.col) + l.subrange(s.col, l.len() as int) =~= l);
    assert(t.lines.subrange(0, s.line) =~= s.lines.subrange(0, s.line));
    assert(t.lines.subrange(s.line + 2, t.lines.len() as int) =~= s.lines.subrange(s.line + 1, s.lines.len() as int));
    assert(s.lines.subrange(0, s.line) + seq![l] + s.lines.subrange(s.line + 1, s.lines.len() as int) =~= s.lines);
}

/// Delete within a line removes exactly the character under the cursor:
/// the line becomes what stood before the cursor followed by what stood
/// after that character; the other lines and the cursor stay.
pub proof fn law_delete_removes_the_char_under_the_cursor(s: EditorState)
    requires
        editor_wf(s),
        s.col < s.lines[s.line].len(),
    ensures
        delete_spec(s).lines.len() == s.lines.len(),
        delete_spec(s).lines[s.line] == s.lines[s.line].subrange(0, s.col)
            + s.lines[s.line].subrange(s.col + 1, s.lines[s.line].len() as int),
        forall|i: int| 0 <= i < s.lines.len() && i != s.line ==> #[trigger] delete_spec(s).lines[i] == s.lines[i],
        delete_spec(s).line == s.line,
        delete_spec(s).col == s.col,
{
    let l = s.lines[s.line];
    assert(l.remove(s.col) =~= l.subrange(0, s.col) + l.subrange(s.col + 1, l.len() as int));
}

/// Delete at the end of a line joins the next line onto it; the lines
/// before stay, the lines after move up by one, the cursor stays. At the
/// end of the last line it changes nothing.
pub proof fn law_delete_at_line_end_joins_the_next_line(s: EditorState)
    requires
        editor_wf(s),
        s.col == s.lines[s.line].len(),
    ensures
        s.line + 1 < s.lines.len() ==> {
            &&& delete_spec(s).lines.len() == s.lines.len() - 1
            &&& delete_spec(s).lines[s.line] == s.lines[s.line] + s.lines[s.line + 1]
            &&& forall|i: int| 0 <= i < s.line ==> #[trigger] delete_spec(s).lines[i] == s.lines[i]
            &&& forall|i: int| s.line < i < s.lines.len() - 1 ==> #[trigger] delete_spec(s).lines[i] == s.lines[i + 1]
            &&& delete_spec(s).line == s.line
            &&& delete_spec(s).col == s.col
        },
        s.line + 1 == s.lines.len() ==> delete_spec(s) == s,
{
}

/// Typing a character, stepping back over it, and deleting forward
/// restores the text and the cursor.
pub proof fn law_delete_undoes_insert_char(s: EditorState, c: char)
    requires
        editor_wf(s),
    ensures
        delete_spec(move_left_spec(insert_char_spec(s, c))) == s,
{
    let t = insert_char_spec(s, c);
    assert(t.lines[s.line].remove(s.col) =~= s.lines[s.line]);
    assert(t.lines.update(s.line, s.lines[s.line]) =~= s.lines);
}

/// Backspace within a line removes exactly the character before the
/// cursor, which steps back by one; the other lines stay.
pub proof fn law_backspace_removes_the_char_before_the_cursor(s: EditorState)
    requires
        editor_wf(s),
        s.col > 0,
    ensures
        backspace_spec(s).lines.len() == s.lines.len(),
        backspace_spec(s).lines[s.line] == s.lines[s.line].subrange(0, s.col - 1)
            + s.lines[s.line].subrange(s.col, s.lines[s.line].len() as int),
        forall|i: int| 0 <= i < s.lines.len() && i != s.line ==> #[trigger] backspace_spec(s).lines[i] == s.lines[i],
        backspace_spec(s).line == s.line,
        backspace_spec(s).col == s.col - 1,
{
    let l = s.lines[s.line];
    assert(l.remove(s.col - 1) =~= l.subrange(0, s.col - 1) + l.subrange(s.col, l.len() as int));
}

/// Typing a character puts it at the cursor, between what stood before and
/// after it, and moves the cursor past it; the other lines stay.
pub proof fn law_insert_char_puts_it_at_the_cursor(s: EditorState, c: char)
    requires
        editor_wf(s),
    ensures
        insert_char_spec(s, c).lines.len() == s.lines.len(),
        insert_char_spec(s, c).lines[s.line] == s.lines[s.line].subrange(0, s.col) + seq![c]
            + s.lines[s.line].subrange(s.col, s.lines[s.line].len() as int),
        forall|i: int| 0 <= i < s.lines.len() && i != s.line ==> #[trigger] insert_char_spec(s, c).lines[i] == s.lines[i],
        insert_char_spec(s, c).line == s.line,
        insert_char_spec(s, c).col == s.col + 1,
{
    let l = s.lines[s.line];
    assert(l.insert(s.col, c) =~= l.subrange(0, s.col) + seq![c] + l.subrange(s.col, l.len() as int));
}

/// The arrow keys move the cursor one character and leave the text: left
/// steps back within a line or to the end of the line before, right steps
/// forward within a line or to the start of the next line.
pub proof fn law_arrows_move_one_char(s: EditorState)
    requires
        editor_wf(s),
    ensures
        move_left_spec(s).lines == s.lines,
        move_right_spec(s).lines == s.lines,
        s.col > 0 ==> move_left_spec(s).line == s.line && move_left_spec(s).col == s.col - 1,
        s.col == 0 && s.line > 0 ==> move_left_spec(s).line == s.line - 1
            && move_left_spec(s).col == s.lines[s.line - 1].len(),
        s.col == 0 && s.line == 0 ==> move_left_spec(s) == s,
        s.col < s.lines[s.line].len() ==> move_right_spec(s).line == s.line && move_right_spec(s).col == s.col + 1,
        s.col == s.lines[s.line].len() && s.line + 1 < s.lines.len() ==> move_right_spec(s).line == s.line + 1
            && move_right_spec(s).col == 0,
        s.col == s.lines[s.line].len() && s.line + 1 == s.lines.len() ==> move_right_spec(s) == s,
{
}

/// Enter splits the line at the cursor: what stood before it stays on the
/// line, what stood after it starts a new line just below, where the cursor
/// goes; the lines before and after stay, one more line in all.
pub proof fn law_newline_splits_the_line(s: EditorState)
    requires
        editor_wf(s),
    ensures
        newline_spec(s).lines.len() == s.lines.len() + 1,
        newline_spec(s).lines[s.line] == s.lines[s.line].subrange(0, s.col),
        newline_spec(s).lines[s.line + 1] == s.lines[s.line].subrange(s.col, s.lines[s.line].len() as int),
        forall|i: int| 0 <= i < s.line ==> #[trigger] newline_spec(s).lines[i] == s.lines[i],
        forall|i: int| s.line < i < s.lines.len() ==> #[trigger] newline_spec(s).lines[i + 1] == s.lines[i],
        newline_spec(s).line == s.line + 1,
        newline_spec(s).col == 0,
{
    let n = newline_spec(s);
    assert forall|i: int| s.line < i < s.lines.len() implies #[trigger] n.lines[i + 1] == s.lines[i] by {
        assert(n.lines[i + 1] == s.lines.subrange(s.line + 1, s.lines.len() as int)[i - s.line - 1]);
    }
}

/// Moving left and then right returns the cursor, except at the very start
/// of the text where moving left does nothing.
pub proof fn law_move_right_undoes_move_left(s: EditorState)
    requires
        editor_wf(s),
        s.line > 0 || s.col > 0,
    ensures
        move_right_spec(move_left_spec(s)) == s,
{
}

/// Typing `t` into a new composer leaves exactly `t` as its text, with the
/// cursor at the end of the last line.
pub proof fn law_typed_text_is_body(t: Seq<char>)
    ensures
        editor_wf(type_text(empty_state(), t)),
        body_spec(type_text(empty_state(), t).lines) == t,
        type_text(empty_state(), t).line == type_text(empty_state(), t).lines.len() - 1,
        type_text(empty_state(), t).col == type_text(empty_state(), t).lines.last().len(),
    decreases t.len(),
{
    if t.len() == 0 {
        assert(body_spec(empty_state().lines) == Seq::<char>::empty());
    } else {
        let prior_t = t.drop_last();
        law_typed_text_is_body(prior_t);
        let r = type_text(empty_state(), prior_t);
        let ls = r.lines;
        let l = ls.last();
        let front = ls.drop_last();
        assert(front.push(l) =~= ls);
        crate::text::lemma_join_push(front, seq!['\n'], l);
        if t.last() == '\n' {
            let n = newline_spec(r);
            assert(l == ls[r.line]);
            assert(l.subrange(0, r.col) =~= l);
            assert(l.subrange(r.col, l.len() as int) =~= Seq::<char>::empty());
            assert(ls.subrange(0, r.line) =~= front);
            assert(ls.subrange(r.line + 1, ls.len() as int) =~= Seq::<Seq<char>>::empty());
            assert(n.lines =~= ls.push(Seq::<char>::empty()));
            crate::text::lemma_join_push(ls, seq!['\n'], Seq::<char>::empty());
            assert(body_spec(n.lines) =~= t);
        } else {
            let n = insert_char_spec(r, t.last());
            assert(l.insert(r.col, t.last()) =~= l.push(t.last()));
            assert(n.lines =~= front.push(l.push(t.last())));
            crate::text::lemma_join_push(front, seq!['\n'], l.push(t.last()));
            assert(t =~= prior_t.push(t.last()));
            if front.len() == 0 {
                assert(body_spec(n.lines) =~= t);
            } else {
                let j = crate::text::join(front, seq!['\n']);
                assert((j + seq!['\n'] + l).push(t.last()) =~= j + seq!['\n'] + l.push(t.last()));
                assert(body_spec(n.lines) =~= t);
            }
        }
    }
}

} // verus!
