//! The visual layout engine.
//!
//! It counts the terminal rows that a text occupies at a given width, so that
//! exactly the rows that were printed can be erased again: escape sequences
//! are stripped, the displayed width of what is left is measured, and every
//! line wraps at the terminal width.

use crate::text::{
    chars_of, lemma_split_concat, lemma_split_single, split, split_on, string_of, views,
};
use vstd::prelude::*;

verus! {

/// The width assumed where the terminal reports none.
pub const DEFAULT_WIDTH: usize = 80;

/// The width to lay text out at: the column count that the terminal reports,
/// or the default where it reports none or zero.
pub fn effective_width(reported: Option<usize>) -> (width: usize)
    ensures
        width >= 1,
        width == match reported {
            Some(w) if w >= 1 => w,
            _ => DEFAULT_WIDTH,
        },
{
    match reported {
        Some(w) => if w >= 1 {
            w
        } else {
            DEFAULT_WIDTH
        },
        None => DEFAULT_WIDTH,
    }
}

/// Where the escape-sequence scanner stands.
#[derive(Clone, Copy, Debug, PartialEq, Eq, Structural)]
pub enum StripState {
    /// In ordinary text.
    Text,
    /// After the escape character.
    Escape,
    /// Inside a control sequence, after the escape character and the bracket.
    Sequence,
}

/// A parameter or intermediate character of a control sequence.
pub open spec fn is_sequence_body(c: char) -> bool {
    0x20 <= c as u32 && c as u32 <= 0x3f
}

/// A character that ends a control sequence.
pub open spec fn is_sequence_final(c: char) -> bool {
    0x40 <= c as u32 && c as u32 <= 0x7e
}

/// One step of the scanner: the next state, and whether the character is
/// kept.
///
/// The escape character is never kept and always starts a new sequence. A
/// bracket after it opens a control sequence, which runs over its parameter
/// characters up to and including its final character. Any other character
/// after the escape character, and a character that breaks off a control
/// sequence, is ordinary text.
pub open spec fn strip_step(state: StripState, c: char) -> (StripState, bool) {
    if c == '\x1b' {
        (StripState::Escape, false)
    } else {
        match state {
            StripState::Text => (StripState::Text, true),
            StripState::Escape => if c == '[' {
                (StripState::Sequence, false)
            } else {
                (StripState::Text, true)
            },
            StripState::Sequence => if is_sequence_body(c) {
                (StripState::Sequence, false)
            } else if is_sequence_final(c) {
                (StripState::Text, false)
            } else {
                (StripState::Text, true)
            },
        }
    }
}

/// The state of the scanner after `s`, and the characters it kept.
pub open spec fn strip_run(s: Seq<char>) -> (StripState, Seq<char>)
    decreases s.len(),
{
    if s.len() == 0 {
        (StripState::Text, Seq::<char>::empty())
    } else {
        let (state, kept) = strip_run(s.drop_last());
        let (next, keep) = strip_step(state, s.last());
        (
            next,
            if keep {
                kept.push(s.last())
            } else {
                kept
            },
        )
    }
}

/// `s` without its ANSI escape sequences.
pub open spec fn stripped(s: Seq<char>) -> Seq<char> {
    strip_run(s).1
}

/// Removes the ANSI escape sequences from `s`.
pub fn strip_ansi(s: &Vec<char>) -> (r: Vec<char>)
    ensures
        r@ == stripped(s@),
{
    let mut r: Vec<char> = Vec::new();
    let mut state = StripState::Text;
    let mut i: usize = 0;
    assert(s@.take(0) =~= Seq::<char>::empty());
    while i < s.len()
        invariant
            i <= s.len(),
            strip_run(s@.take(i as int)) == (state, r@),
        decreases s.len() - i,
    {
        let c = s[i];
        let n: u32 = c as u32;
        assert(s@.take(i + 1).drop_last() =~= s@.take(i as int));
        if c == '\x1b' {
            state = StripState::Escape;
        } else {
            match state {
                StripState::Text => {
                    r.push(c);
                },
                StripState::Escape => {
                    if c == '[' {
                        state = StripState::Sequence;
                    } else {
                        state = StripState::Text;
                        r.push(c);
                    }
                },
                StripState::Sequence => {
                    if 0x20 <= n && n <= 0x3f {
                    } else if 0x40 <= n && n <= 0x7e {
                        state = StripState::Text;
                    } else {
                        state = StripState::Text;
                        r.push(c);
                    }
                },
            }
        }
        i = i + 1;
    }
    assert(s@.take(s.len() as int) =~= s@);
    r
}

/// The number of terminal columns that a text without escape sequences
/// takes, wide characters counted as such.
pub uninterp spec fn display_width(text: Seq<char>) -> nat;

/// Measures the displayed width of `text`.
///
/// Trusted: `unicode_width::UnicodeWidthStr::width` computes the width from
/// the characters of the text alone, by the tables of the Unicode standard;
/// `display_width` is the name of that result.
#[verifier::external_body]
fn measure_width(text: &str) -> (w: usize)
    ensures
        w == display_width(text@),
{
    unicode_width::UnicodeWidthStr::width(text)
}

/// `a / b`, rounded up.
pub open spec fn ceil_div(a: int, b: int) -> int {
    (a + b - 1) / b
}

/// Rounding up adds one to the quotient unless the division is exact.
pub proof fn lemma_ceil_div(a: int, b: int)
    requires
        a >= 0,
        b >= 1,
    ensures
        ceil_div(a, b) == a / b + (if a % b == 0 {
            0int
        } else {
            1int
        }),
        0 <= ceil_div(a, b) <= a,
        a > 0 ==> ceil_div(a, b) >= 1,
        (ceil_div(a, b) - 1) * b < a || a == 0,
        a <= ceil_div(a, b) * b,
{
    let q = a / b;
    let r = a % b;
    assert(a == q * b + r && 0 <= r < b) by (nonlinear_arith)
        requires
            q == a / b,
            r == a % b,
            b >= 1,
    ;
    assert(q >= 0) by (nonlinear_arith)
        requires
            q == a / b,
            a >= 0,
            b >= 1,
    ;
    if r == 0 {
        assert((q * b + b - 1) / b == q) by (nonlinear_arith)
            requires
                b >= 1,
        ;
    } else {
        assert((q * b + r + b - 1) / b == q + 1) by (nonlinear_arith)
            requires
                b >= 1,
                0 < r < b,
        ;
    }
    assert(q <= q * b && (q == 0 ==> q * b == 0)) by (nonlinear_arith)
        requires
            b >= 1,
            q >= 0,
    ;
    assert((q + 1) * b == q * b + b) by (nonlinear_arith);
    assert((q - 1) * b == q * b - b) by (nonlinear_arith);
}

/// The rows that one line takes at the given width: one for an empty line,
/// else as many as its displayed width fills, escape sequences not counted.
pub open spec fn line_rows(line: Seq<char>, width: int) -> int {
    if line.len() == 0 {
        1
    } else {
        ceil_div(display_width(stripped(line)) as int, width)
    }
}

/// The rows that the lines take together.
pub open spec fn rows_of(lines: Seq<Seq<char>>, width: int) -> int
    decreases lines.len(),
{
    if lines.len() == 0 {
        0
    } else {
        rows_of(lines.drop_last(), width) + line_rows(lines.last(), width)
    }
}

/// The rows that `text` takes on a terminal of the given width: the sum over
/// its lines, which are the pieces between its newlines.
pub open spec fn visual_row_count(text: Seq<char>, width: int) -> int {
    rows_of(split_on(text, '\n'), width)
}

/// A row count as a machine integer holds it: counts beyond the largest
/// `usize` are held as that largest value.
pub open spec fn saturated(n: int) -> int {
    if n > usize::MAX as int {
        usize::MAX as int
    } else {
        n
    }
}

/// No line takes a negative number of rows.
pub proof fn lemma_rows_nonnegative(lines: Seq<Seq<char>>, width: int)
    requires
        width >= 1,
    ensures
        rows_of(lines, width) >= 0,
        lines.len() > 0 ==> line_rows(lines.last(), width) >= 0,
    decreases lines.len(),
{
    if lines.len() > 0 {
        lemma_rows_nonnegative(lines.drop_last(), width);
        lemma_ceil_div(display_width(stripped(lines.last())) as int, width);
    }
}

/// No text takes a negative number of rows.
pub proof fn lemma_visual_rows_nonnegative(text: Seq<char>, width: int)
    requires
        width >= 1,
    ensures
        visual_row_count(text, width) >= 0,
{
    lemma_rows_nonnegative(split_on(text, '\n'), width);
}

/// A text of a single, non-empty line takes the rows that its displayed
/// width fills; the empty text takes one row.
pub proof fn lemma_single_line_rows(text: Seq<char>, width: int)
    requires
        width >= 1,
        forall|i: int| 0 <= i < text.len() ==> text[i] != '\n',
    ensures
        text.len() > 0 ==> visual_row_count(text, width) == ceil_div(
            display_width(stripped(text)) as int,
            width,
        ),
        text.len() == 0 ==> visual_row_count(text, width) == 1,
{
    lemma_split_single(text, '\n');
    let lines = seq![text];
    assert(lines.drop_last() =~= Seq::<Seq<char>>::empty());
    assert(rows_of(lines.drop_last(), width) == 0);
    assert(lines.last() == text);
}

/// The rows of two lists of lines are the rows of the one and the rows of
/// the other.
pub proof fn lemma_rows_of_concat(a: Seq<Seq<char>>, b: Seq<Seq<char>>, width: int)
    ensures
        rows_of(a + b, width) == rows_of(a, width) + rows_of(b, width),
    decreases b.len(),
{
    if b.len() == 0 {
        assert(a + b =~= a);
    } else {
        lemma_rows_of_concat(a, b.drop_last(), width);
        assert((a + b).drop_last() =~= a + b.drop_last());
        assert((a + b).last() == b.last());
    }
}

/// Rows add up over lines: a text on the rows below another takes the rows
/// of the one and the rows of the other.
pub proof fn lemma_rows_add_up(above: Seq<char>, below: Seq<char>, width: int)
    ensures
        visual_row_count(above + seq!['\n'] + below, width) == visual_row_count(above, width)
            + visual_row_count(below, width),
{
    lemma_split_concat(above, below, '\n');
    lemma_rows_of_concat(split_on(above, '\n'), split_on(below, '\n'), width);
}

/// The rows that one line takes.
fn count_line_rows(line: &Vec<char>, width: usize) -> (rows: usize)
    requires
        width >= 1,
    ensures
        rows == line_rows(line@, width as int),
{
    if line.len() == 0 {
        1
    } else {
        let plain = strip_ansi(line);
        let shown = string_of(&plain);
        let w: usize = measure_width(shown.as_str());
        proof {
            lemma_ceil_div(w as int, width as int);
        }
        if w % width == 0 {
            w / width
        } else {
            w / width + 1
        }
    }
}

/// Counts the rows that `text` takes on a terminal `width` columns wide.
///
/// The count saturates at the largest `usize`.
pub fn visual_rows(text: &str, width: usize) -> (rows: usize)
    requires
        width >= 1,
    ensures
        rows == saturated(visual_row_count(text@, width as int)),
{
    let chars = chars_of(text);
    let lines = split(&chars, '\n');
    let ghost all = views(lines@);
    let mut rows: usize = 0;
    let mut i: usize = 0;
    assert(all.take(0) =~= Seq::<Seq<char>>::empty());
    while i < lines.len()
        invariant
            i <= lines.len(),
            width >= 1,
            all == views(lines@),
            rows == saturated(rows_of(all.take(i as int), width as int)),
        decreases lines.len() - i,
    {
        let r = count_line_rows(&lines[i], width);
        proof {
            assert(all.take(i + 1).drop_last() =~= all.take(i as int));
            assert(all.take(i + 1).last() == lines@[i as int]@);
            lemma_rows_nonnegative(all.take(i as int), width as int);
            lemma_rows_nonnegative(all.take(i + 1), width as int);
        }
        rows = rows.saturating_add(r);
        i = i + 1;
    }
    assert(all.take(lines.len() as int) =~= all);
    rows
}


/// Adds the rows of `text` to a count of rows, saturating.
pub fn add_rows(total: usize, text: &str, width: usize) -> (sum: usize)
    requires
        width >= 1,
    ensures
        sum == saturated(total + visual_row_count(text@, width as int)),
{
    proof {
        lemma_visual_rows_nonnegative(text@, width as int);
    }
    let rows = visual_rows(text, width);
    total.saturating_add(rows)
}

/// Returns to the first column and clears the row from there.
pub const CLEAR_LINE: &'static str = "\r\x1b[K";

/// Moves the cursor up one row.
pub const CURSOR_UP: &'static str = "\x1b[1A";

/// Moves the cursor down one row.
pub const CURSOR_DOWN: &'static str = "\x1b[1B";

/// Makes the cursor visible.
pub const SHOW_CURSOR: &'static str = "\x1b[?25h";

/// The number of times that erasing `n` rows moves the cursor up.
pub open spec fn cursor_ups(n: nat) -> nat {
    if n == 0 {
        0
    } else {
        (n - 1) as nat
    }
}

/// `unit`, written `times` times.
pub open spec fn repeated(unit: Seq<char>, times: nat) -> Seq<char>
    decreases times,
{
    if times == 0 {
        Seq::<char>::empty()
    } else {
        repeated(unit, (times - 1) as nat) + unit
    }
}

/// What is written to erase `n` rows, the cursor being on the last of them:
/// nothing for no row; else the current row is cleared, and for each of the
/// rows above it the cursor moves up one row and clears that row.
pub open spec fn erase_sequence(n: nat) -> Seq<char> {
    if n == 0 {
        Seq::<char>::empty()
    } else {
        CLEAR_LINE@ + repeated(CURSOR_UP@ + CLEAR_LINE@, cursor_ups(n))
    }
}

/// The escape sequence that erases `n` rows upwards from the cursor's row.
pub fn erase_rows(n: usize) -> (out: String)
    ensures
        out@ == erase_sequence(n as nat),
{
    let mut out = String::new();
    if n == 0 {
        return out;
    }
    out.append(CLEAR_LINE);
    let ghost unit = CURSOR_UP@ + CLEAR_LINE@;
    assert(out@ =~= CLEAR_LINE@ + repeated(unit, 0));
    let mut i: usize = 1;
    while i < n
        invariant
            1 <= i <= n,
            unit == CURSOR_UP@ + CLEAR_LINE@,
            out@ == CLEAR_LINE@ + repeated(unit, (i - 1) as nat),
        decreases n - i,
    {
        out.append(CURSOR_UP);
        out.append(CLEAR_LINE);
        assert(out@ =~= CLEAR_LINE@ + repeated(unit, i as nat));
        i = i + 1;
    }
    out
}

/// The row of the cursor after text of `rows` rows was printed from the
/// start of row `top`, the last line left without a newline.
pub open spec fn bottom_row(top: int, rows: nat) -> int {
    if rows == 0 {
        top
    } else {
        top + rows - 1
    }
}

/// The row of the cursor after `n` rows were erased from row `row` upwards.
pub open spec fn row_after_erase(row: int, n: nat) -> int {
    row - cursor_ups(n)
}

/// The rows that a sequence of writes takes, each write starting on a row of
/// its own.
pub open spec fn written_rows(writes: Seq<Seq<char>>, width: int) -> int
    decreases writes.len(),
{
    if writes.len() == 0 {
        0
    } else {
        written_rows(writes.drop_last(), width) + visual_row_count(writes.last(), width)
    }
}

/// No sequence of writes takes a negative number of rows.
pub proof fn lemma_written_rows_nonnegative(writes: Seq<Seq<char>>, width: int)
    requires
        width >= 1,
    ensures
        written_rows(writes, width) >= 0,
    decreases writes.len(),
{
    if writes.len() > 0 {
        lemma_written_rows_nonnegative(writes.drop_last(), width);
        lemma_rows_nonnegative(split_on(writes.last(), '\n'), width);
    }
}

/// Erasing what was rendered brings the cursor back: after any sequence of
/// writes from row `top` on, erasing as many rows as the writes took leaves
/// the cursor on row `top`, and the erase sequence moves the cursor up once
/// for every row but the last.
pub proof fn lemma_erase_undoes_render(top: int, writes: Seq<Seq<char>>, width: int)
    requires
        width >= 1,
    ensures
        written_rows(writes, width) >= 0,
        row_after_erase(
            bottom_row(top, written_rows(writes, width) as nat),
            written_rows(writes, width) as nat,
        ) == top,
{
    lemma_written_rows_nonnegative(writes, width);
}

/// The row count of a region after the given writes were recorded in it,
/// one after the other.
pub open spec fn recorded(rows: int, writes: Seq<Seq<char>>, width: int) -> int
    decreases writes.len(),
{
    if writes.len() == 0 {
        rows
    } else {
        saturated(
            recorded(rows, writes.drop_last(), width) + visual_row_count(writes.last(), width),
        )
    }
}

/// A region that starts empty counts the rows that its writes take, up to
/// the largest count that it can hold; so what is erased after rendering is
/// what was rendered.
pub proof fn lemma_recorded_rows(writes: Seq<Seq<char>>, width: int)
    requires
        width >= 1,
    ensures
        recorded(0, writes, width) == saturated(written_rows(writes, width)),
    decreases writes.len(),
{
    if writes.len() > 0 {
        lemma_recorded_rows(writes.drop_last(), width);
        lemma_written_rows_nonnegative(writes.drop_last(), width);
        lemma_visual_rows_nonnegative(writes.last(), width);
    }
}

/// The rows that were printed and not yet erased, the cursor being on the
/// last of them.
#[derive(Clone, Copy, Debug, PartialEq, Eq, Structural)]
pub struct DisplayRegion {
    pub rows: usize,
}

impl DisplayRegion {
    /// A region of no rows.
    pub fn new() -> (region: DisplayRegion)
        ensures
            region.rows == 0,
    {
        DisplayRegion { rows: 0 }
    }

    /// Accounts for `text`, printed below what the region holds.
    pub fn record(&mut self, text: &str, width: usize)
        requires
            width >= 1,
        ensures
            final(self).rows == recorded(old(self).rows as int, seq![text@], width as int),
    {
        let rows = visual_rows(text, width);
        proof {
            lemma_rows_nonnegative(split_on(text@, '\n'), width as int);
            let one = seq![text@];
            assert(one.drop_last() =~= Seq::<Seq<char>>::empty());
            assert(recorded(self.rows as int, one.drop_last(), width as int) == self.rows);
            assert(one.last() == text@);
        }
        self.rows = self.rows.saturating_add(rows);
    }

    /// Accounts for `rows` further rows, printed below what the region holds.
    pub fn extend(&mut self, rows: usize)
        ensures
            final(self).rows == saturated(old(self).rows + rows),
    {
        self.rows = self.rows.saturating_add(rows);
    }

    /// Erases the last `n` rows of the region, or all of it where it holds
    /// fewer: returns what is to be written, and forgets the rows.
    pub fn erase_last(&mut self, n: usize) -> (out: String)
        ensures
            n <= old(self).rows ==> out@ == erase_sequence(n as nat),
            n <= old(self).rows ==> final(self).rows == old(self).rows - n,
            n > old(self).rows ==> out@ == erase_sequence(old(self).rows as nat),
            n > old(self).rows ==> final(self).rows == 0,
    {
        let count: usize = if n <= self.rows {
            n
        } else {
            self.rows
        };
        self.rows = self.rows - count;
        erase_rows(count)
    }

    /// Erases the whole region.
    pub fn erase(&mut self) -> (out: String)
        ensures
            out@ == erase_sequence(old(self).rows as nat),
            final(self).rows == 0,
    {
        let count = self.rows;
        self.rows = 0;
        erase_rows(count)
    }
}

} // verus!
