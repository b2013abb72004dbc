//! The inline editor: a single line of text with a cursor, changed by key
//! events and redrawn in place.
//!
//! `apply_key` states what a key does to the text and the cursor, and
//! `key_output` what is written to the terminal for it; `edit_key` is the
//! executable step that does both. The editor shows the text on one row
//! after a prompt sign, and a row of hints below it.

use crate::keys::KeyEvent;
use crate::layout::{
    add_rows, cursor_ups, erase_rows, erase_sequence, saturated, visual_row_count, CLEAR_LINE,
    CURSOR_DOWN, CURSOR_UP, SHOW_CURSOR,
};
use crate::style::{
    pieces, plain, plain_piece, plain_text, push_plain, push_segment, Piece, Segment, Style,
};
use crate::text::{chars_of, decimal, decimal_digits, extend_chars, extend_str, string_of};
use vstd::prelude::*;

verus! {

/// The text under edit and the cursor in it.
#[derive(Debug)]
pub struct EditBuffer {
    chars: Vec<char>,
    pos: usize,
}

/// How an edit session stands after a key.
#[derive(Clone, Copy, Debug, PartialEq, Eq, Structural)]
pub enum EditOutcome {
    /// The session goes on.
    Editing,
    /// Enter: the text is the result.
    Accepted,
    /// The input ended: there is no result.
    Cancelled,
    /// Ctrl-C: the caller is to leave with the interrupt's exit code.
    Interrupted,
}

/// What a key does to the text and the cursor.
///
/// A character is inserted at the cursor, which moves behind it. Backspace
/// removes the character before the cursor, Delete the one at the cursor;
/// the arrows move the cursor by one, Home and End to the ends; each does
/// nothing where there is nothing to remove or nowhere to move. All other
/// keys leave both as they are.
pub open spec fn apply_key(text: Seq<char>, pos: int, key: KeyEvent) -> (Seq<char>, int) {
    match key {
        KeyEvent::Char(c) => (text.insert(pos, c), pos + 1),
        KeyEvent::Backspace => if pos > 0 {
            (text.remove(pos - 1), pos - 1)
        } else {
            (text, pos)
        },
        KeyEvent::Delete => if pos < text.len() {
            (text.remove(pos), pos)
        } else {
            (text, pos)
        },
        KeyEvent::ArrowLeft => if pos > 0 {
            (text, pos - 1)
        } else {
            (text, pos)
        },
        KeyEvent::ArrowRight => if pos < text.len() {
            (text, pos + 1)
        } else {
            (text, pos)
        },
        KeyEvent::Home => (text, 0),
        KeyEvent::End => (text, text.len() as int),
        _ => (text, pos),
    }
}

/// Which keys end the session, and how.
pub open spec fn outcome_of(key: KeyEvent) -> EditOutcome {
    match key {
        KeyEvent::Enter => EditOutcome::Accepted,
        KeyEvent::EndOfInput => EditOutcome::Cancelled,
        KeyEvent::Interrupt => EditOutcome::Interrupted,
        _ => EditOutcome::Editing,
    }
}

/// A control character.
pub open spec fn is_control(c: char) -> bool {
    (c as u32) < 0x20 || c as u32 == 0x7f
}

/// The text holds no control character.
pub open spec fn is_clean(text: Seq<char>) -> bool {
    forall|i: int| 0 <= i < text.len() ==> !is_control(#[trigger] text[i])
}

/// Whatever the keys, the cursor stays within the text: no key moves it
/// before the start or beyond the end, and nothing is removed that is not
/// there.
pub proof fn lemma_cursor_stays_in_range(text: Seq<char>, pos: int, key: KeyEvent)
    requires
        0 <= pos <= text.len(),
    ensures
        0 <= apply_key(text, pos, key).1 <= apply_key(text, pos, key).0.len(),
{
}

/// What a sequence of keys does to the text and the cursor, one key after
/// the other.
pub open spec fn apply_keys(text: Seq<char>, pos: int, keys: Seq<KeyEvent>) -> (Seq<char>, int)
    decreases keys.len(),
{
    if keys.len() == 0 {
        (text, pos)
    } else {
        let (before, at) = apply_keys(text, pos, keys.drop_last());
        apply_key(before, at, keys.last())
    }
}

/// However the keys are interleaved, the cursor stays within the text.
pub proof fn lemma_any_keys_keep_cursor_in_range(text: Seq<char>, pos: int, keys: Seq<KeyEvent>)
    requires
        0 <= pos <= text.len(),
    ensures
        0 <= apply_keys(text, pos, keys).1 <= apply_keys(text, pos, keys).0.len(),
    decreases keys.len(),
{
    if keys.len() > 0 {
        lemma_any_keys_keep_cursor_in_range(text, pos, keys.drop_last());
        let (before, at) = apply_keys(text, pos, keys.drop_last());
        lemma_cursor_stays_in_range(before, at, keys.last());
    }
}

/// Editing keeps the text free of control characters: the keys that the
/// decoder reports insert printable characters only.
pub proof fn lemma_edit_keeps_text_clean(text: Seq<char>, pos: int, key: KeyEvent)
    requires
        0 <= pos <= text.len(),
        is_clean(text),
        key.is_valid(),
    ensures
        is_clean(apply_key(text, pos, key).0),
{
    let after = apply_key(text, pos, key).0;
    assert forall|i: int| 0 <= i < after.len() implies !is_control(#[trigger] after[i]) by {
        match key {
            KeyEvent::Char(c) => {
                if i < pos {
                    assert(after[i] == text[i]);
                } else if i == pos {
                    assert(after[i] == c);
                } else {
                    assert(after[i] == text[i - 1]);
                }
            },
            KeyEvent::Backspace => {
                if pos > 0 {
                    if i < pos - 1 {
                        assert(after[i] == text[i]);
                    } else {
                        assert(after[i] == text[i + 1]);
                    }
                }
            },
            KeyEvent::Delete => {
                if pos < text.len() {
                    if i < pos {
                        assert(after[i] == text[i]);
                    } else {
                        assert(after[i] == text[i + 1]);
                    }
                }
            },
            _ => {},
        }
    }
}

/// What moves the cursor to the column of index `pos` of the text: the
/// columns count from one, and the prompt sign and a space come first.
pub open spec fn column_sequence(pos: int) -> Seq<char> {
    "\x1b["@ + decimal_digits((pos + 3) as nat) + "G"@
}

/// The edited line: the prompt sign and the text.
pub open spec fn edit_line_pieces(text: Seq<char>) -> Seq<Piece> {
    seq![
        Piece { text: "$"@, style: Style::Cyan },
        plain_piece(" "@),
        Piece { text, style: Style::BrightWhiteBold },
    ]
}

/// The row of hints below the edited line.
pub open spec fn edit_hint_pieces() -> Seq<Piece> {
    seq![
        Piece { text: "["@, style: Style::Cyan },
        Piece { text: "Enter"@, style: Style::CyanBold },
        Piece { text: "] to confirm, ["@, style: Style::Cyan },
        Piece { text: "Ctrl+C"@, style: Style::CyanBold },
        Piece { text: "] to quit"@, style: Style::Cyan },
    ]
}

/// The editor as it stands on the screen: the line, and the hints on the
/// row below it.
pub open spec fn editor_body(text: Seq<char>) -> Seq<Piece> {
    edit_line_pieces(text) + seq![plain_piece("\n"@)] + edit_hint_pieces()
}

/// What opens the editor: the line, the hints on the row below it, then the
/// cursor moved back up and to its column.
pub open spec fn editor_display(text: Seq<char>, pos: int) -> Seq<Piece> {
    editor_body(text) + seq![plain_piece(CURSOR_UP@), plain_piece(column_sequence(pos))]
}

/// What redraws the edited line in place: the row is cleared, the line
/// printed again and the cursor put to its column.
pub open spec fn redraw_pieces(text: Seq<char>, pos: int) -> Seq<Piece> {
    seq![plain_piece(CLEAR_LINE@)] + edit_line_pieces(text) + seq![
        plain_piece(column_sequence(pos)),
    ]
}

/// The rows of the editor: those of its text.
pub open spec fn editor_rows(text: Seq<char>, width: int) -> int {
    visual_row_count(plain_text(editor_body(text)), width)
}

/// What moves the cursor down `n` rows.
pub open spec fn moves_down(n: nat) -> Seq<char>
    decreases n,
{
    if n == 0 {
        Seq::<char>::empty()
    } else {
        moves_down((n - 1) as nat) + CURSOR_DOWN@
    }
}

/// What takes the editor off the screen: from the first row of the line the
/// cursor moves down to the last row of the hints, and all rows are erased.
pub open spec fn clear_pieces(text: Seq<char>, width: int) -> Seq<Piece> {
    let total = saturated(editor_rows(text, width)) as nat;
    seq![plain_piece(moves_down(cursor_ups(total))), plain_piece(erase_sequence(total))]
}

/// What is written for a key, given the text and the cursor before it.
pub open spec fn key_output(text: Seq<char>, pos: int, key: KeyEvent, width: int) -> Seq<Piece> {
    match key {
        KeyEvent::Char(c) => redraw_pieces(text.insert(pos, c), pos + 1),
        KeyEvent::Backspace => if pos > 0 {
            redraw_pieces(text.remove(pos - 1), pos - 1)
        } else {
            Seq::<Piece>::empty()
        },
        KeyEvent::Delete => if pos < text.len() {
            redraw_pieces(text.remove(pos), pos)
        } else {
            Seq::<Piece>::empty()
        },
        KeyEvent::ArrowLeft => if pos > 0 {
            seq![plain_piece("\x1b[1D"@)]
        } else {
            Seq::<Piece>::empty()
        },
        KeyEvent::ArrowRight => if pos < text.len() {
            seq![plain_piece("\x1b[1C"@)]
        } else {
            Seq::<Piece>::empty()
        },
        KeyEvent::Home => seq![plain_piece(column_sequence(0))],
        KeyEvent::End => seq![plain_piece(column_sequence(text.len() as int))],
        KeyEvent::Enter => clear_pieces(text, width),
        KeyEvent::EndOfInput => clear_pieces(text, width),
        KeyEvent::Interrupt => clear_pieces(text, width) + seq![plain_piece(SHOW_CURSOR@)],
        KeyEvent::ArrowUp => Seq::<Piece>::empty(),
        KeyEvent::Unrecognized => Seq::<Piece>::empty(),
    }
}

/// What a key did: how the session stands, and what is to be written.
#[derive(Debug)]
pub struct EditStep {
    pub outcome: EditOutcome,
    pub output: Vec<Segment>,
}

impl EditBuffer {
    /// The text.
    pub closed spec fn text(&self) -> Seq<char> {
        self.chars@
    }

    /// The index of the cursor: that of the character it stands before.
    pub closed spec fn cursor(&self) -> int {
        self.pos as int
    }

    /// The cursor is within the text.
    pub open spec fn wf(&self) -> bool {
        0 <= self.cursor() <= self.text().len()
    }

    /// A buffer that holds `initial`, the cursor at its end.
    pub fn new(initial: &str) -> (buffer: EditBuffer)
        ensures
            buffer.wf(),
            buffer.text() == initial@,
            buffer.cursor() == initial@.len(),
    {
        let chars = chars_of(initial);
        let pos = chars.len();
        EditBuffer { chars, pos }
    }

    /// The text as a string.
    pub fn contents(&self) -> (text: String)
        ensures
            text@ == self.text(),
    {
        string_of(&self.chars)
    }

    /// The index of the cursor.
    pub fn position(&self) -> (pos: usize)
        ensures
            pos == self.cursor(),
    {
        self.pos
    }

    /// The number of characters of the text.
    pub fn len(&self) -> (n: usize)
        ensures
            n == self.text().len(),
    {
        self.chars.len()
    }

    /// Changes the text and the cursor as `key` asks.
    pub fn apply(&mut self, key: KeyEvent)
        requires
            old(self).wf(),
        ensures
            final(self).wf(),
            (final(self).text(), final(self).cursor()) == apply_key(
                old(self).text(),
                old(self).cursor(),
                key,
            ),
            is_clean(old(self).text()) && key.is_valid() ==> is_clean(final(self).text()),
    {
        proof {
            if is_clean(self.text()) && key.is_valid() {
                lemma_edit_keeps_text_clean(self.text(), self.cursor(), key);
            }
        }
        match key {
            KeyEvent::Char(c) => {
                self.chars.insert(self.pos, c);
                let length: usize = self.chars.len();
                assert(self.pos < length);
                self.pos = self.pos + 1;
            },
            KeyEvent::Backspace => {
                if self.pos > 0 {
                    self.chars.remove(self.pos - 1);
                    self.pos = self.pos - 1;
                }
            },
            KeyEvent::Delete => {
                if self.pos < self.chars.len() {
                    self.chars.remove(self.pos);
                }
            },
            KeyEvent::ArrowLeft => {
                if self.pos > 0 {
                    self.pos = self.pos - 1;
                }
            },
            KeyEvent::ArrowRight => {
                if self.pos < self.chars.len() {
                    self.pos = self.pos + 1;
                }
            },
            KeyEvent::Home => {
                self.pos = 0;
            },
            KeyEvent::End => {
                self.pos = self.chars.len();
            },
            _ => {},
        }
    }

    /// Appends the edited line to `out`.
    fn push_line(&self, out: &mut Vec<Segment>)
        ensures
            pieces(final(out)@) == pieces(old(out)@) + edit_line_pieces(self.text()),
    {
        let text = string_of(&self.chars);
        push_segment(out, "$", Style::Cyan);
        push_segment(out, " ", Style::Plain);
        push_segment(out, text.as_str(), Style::BrightWhiteBold);
        assert(pieces(out@) =~= pieces(old(out)@) + edit_line_pieces(self.text()));
    }

    /// Appends what moves the cursor to its column.
    fn push_column(&self, out: &mut Vec<Segment>)
        ensures
            pieces(final(out)@) == pieces(old(out)@).push(
                plain_piece(column_sequence(self.cursor())),
            ),
    {
        let column: u128 = (self.pos as u128) + 3;
        let mut text = chars_of("\x1b[");
        let digits = decimal(column);
        extend_chars(&mut text, &digits);
        extend_str(&mut text, "G");
        push_plain(out, string_of(&text));
    }

    /// Appends the editor as it stands on the screen.
    fn push_body(&self, out: &mut Vec<Segment>)
        ensures
            pieces(final(out)@) == pieces(old(out)@) + editor_body(self.text()),
    {
        self.push_line(out);
        push_segment(out, "\n", Style::Plain);
        push_segment(out, "[", Style::Cyan);
        push_segment(out, "Enter", Style::CyanBold);
        push_segment(out, "] to confirm, [", Style::Cyan);
        push_segment(out, "Ctrl+C", Style::CyanBold);
        push_segment(out, "] to quit", Style::Cyan);
        assert(pieces(out@) =~= pieces(old(out)@) + editor_body(self.text()));
    }

    /// What opens the editor on the terminal.
    pub fn open(&self) -> (output: Vec<Segment>)
        ensures
            pieces(output@) == editor_display(self.text(), self.cursor()),
    {
        let mut out: Vec<Segment> = Vec::new();
        self.push_body(&mut out);
        push_segment(&mut out, CURSOR_UP, Style::Plain);
        self.push_column(&mut out);
        assert(pieces(out@) =~= editor_display(self.text(), self.cursor()));
        out
    }

    /// What redraws the edited line.
    fn redraw(&self) -> (output: Vec<Segment>)
        ensures
            pieces(output@) == redraw_pieces(self.text(), self.cursor()),
    {
        let mut out: Vec<Segment> = Vec::new();
        push_segment(&mut out, CLEAR_LINE, Style::Plain);
        self.push_line(&mut out);
        self.push_column(&mut out);
        assert(pieces(out@) =~= redraw_pieces(self.text(), self.cursor()));
        out
    }

    /// The rows that the editor takes on a terminal `width` columns wide.
    pub fn rows(&self, width: usize) -> (rows: usize)
        requires
            width >= 1,
        ensures
            rows == saturated(editor_rows(self.text(), width as int)),
    {
        let mut body: Vec<Segment> = Vec::new();
        self.push_body(&mut body);
        assert(pieces(body@) =~= editor_body(self.text()));
        let text = plain(&body);
        add_rows(0, text.as_str(), width)
    }

    /// What takes the editor off the screen.
    fn clear(&self, width: usize) -> (output: Vec<Segment>)
        requires
            width >= 1,
        ensures
            pieces(output@) == clear_pieces(self.text(), width as int),
    {
        let total = self.rows(width);
        let mut down = String::new();
        let moves: usize = if total == 0 {
            0
        } else {
            total - 1
        };
        let mut i: usize = 0;
        while i < moves
            invariant
                i <= moves,
                down@ == moves_down(i as nat),
            decreases moves - i,
        {
            down.append(CURSOR_DOWN);
            i = i + 1;
        }
        let mut out: Vec<Segment> = Vec::new();
        push_plain(&mut out, down);
        push_plain(&mut out, erase_rows(total));
        assert(pieces(out@) =~= clear_pieces(self.text(), width as int));
        out
    }
}

/// Handles one key of an edit session: changes the buffer, and says how the
/// session stands and what is to be written.
pub fn edit_key(buffer: &mut EditBuffer, key: KeyEvent, width: usize) -> (step: EditStep)
    requires
        old(buffer).wf(),
        width >= 1,
    ensures
        final(buffer).wf(),
        (final(buffer).text(), final(buffer).cursor()) == apply_key(
            old(buffer).text(),
            old(buffer).cursor(),
            key,
        ),
        step.outcome == outcome_of(key),
        pieces(step.output@) == key_output(
            old(buffer).text(),
            old(buffer).cursor(),
            key,
            width as int,
        ),
{
    let before: usize = buffer.pos;
    let length: usize = buffer.chars.len();
    buffer.apply(key);
    match key {
        KeyEvent::Char(_) => EditStep { outcome: EditOutcome::Editing, output: buffer.redraw() },
        KeyEvent::Backspace => {
            let output = if before > 0 {
                buffer.redraw()
            } else {
                Vec::new()
            };
            assert(before == 0 ==> pieces(output@) =~= Seq::<Piece>::empty());
            EditStep { outcome: EditOutcome::Editing, output }
        },
        KeyEvent::Delete => {
            let output = if before < length {
                buffer.redraw()
            } else {
                Vec::new()
            };
            assert(before >= length ==> pieces(output@) =~= Seq::<Piece>::empty());
            EditStep { outcome: EditOutcome::Editing, output }
        },
        KeyEvent::ArrowLeft => {
            let mut output: Vec<Segment> = Vec::new();
            if before > 0 {
                push_segment(&mut output, "\x1b[1D", Style::Plain);
            }
            assert(before > 0 ==> pieces(output@) =~= seq![plain_piece("\x1b[1D"@)]);
            assert(before == 0 ==> pieces(output@) =~= Seq::<Piece>::empty());
            EditStep { outcome: EditOutcome::Editing, output }
        },
        KeyEvent::ArrowRight => {
            let mut output: Vec<Segment> = Vec::new();
            if before < length {
                push_segment(&mut output, "\x1b[1C", Style::Plain);
            }
            assert(before < length ==> pieces(output@) =~= seq![plain_piece("\x1b[1C"@)]);
            assert(before >= length ==> pieces(output@) =~= Seq::<Piece>::empty());
            EditStep { outcome: EditOutcome::Editing, output }
        },
        KeyEvent::Home => {
            let mut output: Vec<Segment> = Vec::new();
            buffer.push_column(&mut output);
            assert(pieces(output@) =~= seq![plain_piece(column_sequence(0))]);
            EditStep { outcome: EditOutcome::Editing, output }
        },
        KeyEvent::End => {
            let mut output: Vec<Segment> = Vec::new();
            buffer.push_column(&mut output);
            assert(pieces(output@) =~= seq![
                plain_piece(column_sequence(old(buffer).text().len() as int)),
            ]);
            EditStep { outcome: EditOutcome::Editing, output }
        },
        KeyEvent::Enter => EditStep {
            outcome: EditOutcome::Accepted,
            output: buffer.clear(width),
        },
        KeyEvent::EndOfInput => EditStep {
            outcome: EditOutcome::Cancelled,
            output: buffer.clear(width),
        },
        KeyEvent::Interrupt => {
            let mut output = buffer.clear(width);
            push_segment(&mut output, SHOW_CURSOR, Style::Plain);
            EditStep { outcome: EditOutcome::Interrupted, output }
        },
        KeyEvent::ArrowUp => {
            let output: Vec<Segment> = Vec::new();
            assert(pieces(output@) =~= Seq::<Piece>::empty());
            EditStep { outcome: EditOutcome::Editing, output }
        },
        KeyEvent::Unrecognized => {
            let output: Vec<Segment> = Vec::new();
            assert(pieces(output@) =~= Seq::<Piece>::empty());
            EditStep { outcome: EditOutcome::Editing, output }
        },
    }
}

} // verus!
