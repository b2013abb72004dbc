//! The key decoder: raw input bytes to key events.
//!
//! One key press is one byte, or an escape sequence of two to four bytes.
//! The decoder is a small state machine that is fed one byte at a time, so
//! that it works the same on a terminal in raw mode and on a plain byte
//! stream; `decode_next` runs it over a buffer. What a byte sequence decodes
//! to is stated directly by `decode`, and the machine is proved to agree.

use vstd::prelude::*;

verus! {

/// One logical key press.
#[derive(Clone, Copy, Debug, PartialEq, Eq, Structural)]
pub enum KeyEvent {
    /// A printable ASCII character.
    Char(char),
    Backspace,
    Delete,
    ArrowLeft,
    ArrowRight,
    ArrowUp,
    Home,
    End,
    Enter,
    /// Ctrl-C, delivered as a byte because the terminal generates no signal.
    Interrupt,
    /// The input stream is exhausted, or could not be read.
    EndOfInput,
    /// A byte or an escape sequence outside the supported set.
    Unrecognized,
}

impl KeyEvent {
    /// A character event carries a printable ASCII character.
    pub open spec fn is_valid(self) -> bool {
        match self {
            KeyEvent::Char(c) => 0x20 <= c as u32 && c as u32 <= 0x7e,
            _ => true,
        }
    }
}

/// How far the decoder is into an escape sequence.
#[derive(Clone, Copy, Debug, PartialEq, Eq, Structural)]
pub enum DecoderState {
    /// Between key presses.
    Ground,
    /// After the escape byte: an opening bracket must follow.
    Escape,
    /// After the escape byte and the bracket: the final byte must follow.
    Bracket,
    /// After a digit that selects the given key: one trailing byte, the
    /// tilde, is still to be discarded.
    Tilde(KeyEvent),
}

/// What the decoder does with one input: it asks for more, in a new state,
/// or it reports a key.
#[derive(Clone, Copy, Debug, PartialEq, Eq, Structural)]
pub enum DecodeStep {
    More(DecoderState),
    Key(KeyEvent),
}

/// The key for a single byte read between key presses; the escape byte is
/// not one of them.
pub open spec fn plain_key(b: u8) -> KeyEvent {
    if b == 0x0a || b == 0x0d {
        KeyEvent::Enter
    } else if b == 0x03 {
        KeyEvent::Interrupt
    } else if b == 0x7f || b == 0x08 {
        KeyEvent::Backspace
    } else if 0x20 <= b && b <= 0x7e {
        KeyEvent::Char(b as char)
    } else {
        KeyEvent::Unrecognized
    }
}

/// The transition function of the decoder. `None` stands for a read that
/// returned no byte: end of input, or a failed read.
pub open spec fn step(state: DecoderState, input: Option<u8>) -> DecodeStep {
    match input {
        None => DecodeStep::Key(KeyEvent::EndOfInput),
        Some(b) => match state {
            DecoderState::Ground => if b == 0x1b {
                DecodeStep::More(DecoderState::Escape)
            } else {
                DecodeStep::Key(plain_key(b))
            },
            DecoderState::Escape => if b == 0x5b {
                DecodeStep::More(DecoderState::Bracket)
            } else {
                DecodeStep::Key(KeyEvent::Unrecognized)
            },
            DecoderState::Bracket => if b == 0x41 {
                DecodeStep::Key(KeyEvent::ArrowUp)
            } else if b == 0x43 {
                DecodeStep::Key(KeyEvent::ArrowRight)
            } else if b == 0x44 {
                DecodeStep::Key(KeyEvent::ArrowLeft)
            } else if b == 0x48 {
                DecodeStep::Key(KeyEvent::Home)
            } else if b == 0x46 {
                DecodeStep::Key(KeyEvent::End)
            } else if b == 0x31 {
                DecodeStep::More(DecoderState::Tilde(KeyEvent::Home))
            } else if b == 0x33 {
                DecodeStep::More(DecoderState::Tilde(KeyEvent::Delete))
            } else if b == 0x34 {
                DecodeStep::More(DecoderState::Tilde(KeyEvent::End))
            } else {
                DecodeStep::Key(KeyEvent::Unrecognized)
            },
            DecoderState::Tilde(key) => DecodeStep::Key(key),
        },
    }
}

/// Feeds the decoder one input.
pub fn decode_step(state: DecoderState, input: Option<u8>) -> (r: DecodeStep)
    ensures
        r == step(state, input),
{
    match input {
        None => DecodeStep::Key(KeyEvent::EndOfInput),
        Some(b) => match state {
            DecoderState::Ground => {
                if b == 0x1b {
                    DecodeStep::More(DecoderState::Escape)
                } else if b == 0x0a || b == 0x0d {
                    DecodeStep::Key(KeyEvent::Enter)
                } else if b == 0x03 {
                    DecodeStep::Key(KeyEvent::Interrupt)
                } else if b == 0x7f || b == 0x08 {
                    DecodeStep::Key(KeyEvent::Backspace)
                } else if 0x20 <= b && b <= 0x7e {
                    DecodeStep::Key(KeyEvent::Char(b as char))
                } else {
                    DecodeStep::Key(KeyEvent::Unrecognized)
                }
            },
            DecoderState::Escape => {
                if b == 0x5b {
                    DecodeStep::More(DecoderState::Bracket)
                } else {
                    DecodeStep::Key(KeyEvent::Unrecognized)
                }
            },
            DecoderState::Bracket => {
                if b == 0x41 {
                    DecodeStep::Key(KeyEvent::ArrowUp)
                } else if b == 0x43 {
                    DecodeStep::Key(KeyEvent::ArrowRight)
                } else if b == 0x44 {
                    DecodeStep::Key(KeyEvent::ArrowLeft)
                } else if b == 0x48 {
                    DecodeStep::Key(KeyEvent::Home)
                } else if b == 0x46 {
                    DecodeStep::Key(KeyEvent::End)
                } else if b == 0x31 {
                    DecodeStep::More(DecoderState::Tilde(KeyEvent::Home))
                } else if b == 0x33 {
                    DecodeStep::More(DecoderState::Tilde(KeyEvent::Delete))
                } else if b == 0x34 {
                    DecodeStep::More(DecoderState::Tilde(KeyEvent::End))
                } else {
                    DecodeStep::Key(KeyEvent::Unrecognized)
                }
            },
            DecoderState::Tilde(key) => DecodeStep::Key(key),
        },
    }
}

/// The key that the bytes after the escape byte and the bracket select, and
/// the number of bytes of the whole sequence.
pub open spec fn decode_bracket(input: Seq<u8>) -> (KeyEvent, int)
    recommends
        input.len() >= 3,
{
    let b = input[2];
    if b == 0x41 {
        (KeyEvent::ArrowUp, 3)
    } else if b == 0x43 {
        (KeyEvent::ArrowRight, 3)
    } else if b == 0x44 {
        (KeyEvent::ArrowLeft, 3)
    } else if b == 0x48 {
        (KeyEvent::Home, 3)
    } else if b == 0x46 {
        (KeyEvent::End, 3)
    } else if b == 0x31 || b == 0x33 || b == 0x34 {
        if input.len() < 4 {
            (KeyEvent::EndOfInput, 3)
        } else if b == 0x31 {
            (KeyEvent::Home, 4)
        } else if b == 0x33 {
            (KeyEvent::Delete, 4)
        } else {
            (KeyEvent::End, 4)
        }
    } else {
        (KeyEvent::Unrecognized, 3)
    }
}

/// The first key press of `input`, and the number of bytes it takes.
///
/// An input that ends inside an escape sequence decodes to `EndOfInput`,
/// with the bytes of the unfinished sequence used up.
pub open spec fn decode(input: Seq<u8>) -> (KeyEvent, int) {
    if input.len() == 0 {
        (KeyEvent::EndOfInput, 0)
    } else if input[0] != 0x1b {
        (plain_key(input[0]), 1)
    } else if input.len() < 2 {
        (KeyEvent::EndOfInput, 1)
    } else if input[1] != 0x5b {
        (KeyEvent::Unrecognized, 2)
    } else if input.len() < 3 {
        (KeyEvent::EndOfInput, 2)
    } else {
        decode_bracket(input)
    }
}

/// The key that the decoder reports when it starts in `state` and is fed the
/// bytes of `input` one by one, then end of input; with the number of bytes
/// it took.
pub open spec fn run(state: DecoderState, input: Seq<u8>) -> (KeyEvent, int)
    decreases input.len(),
{
    if input.len() == 0 {
        (KeyEvent::EndOfInput, 0)
    } else {
        match step(state, Some(input[0])) {
            DecodeStep::Key(key) => (key, 1),
            DecodeStep::More(next) => {
                let (key, used) = run(next, input.skip(1));
                (key, used + 1)
            },
        }
    }
}

/// Fed byte by byte from its ground state, the decoder reports the first key
/// press of the input and takes the bytes of that key press.
pub proof fn lemma_run_decodes(input: Seq<u8>)
    ensures
        run(DecoderState::Ground, input) == decode(input),
{
    reveal_with_fuel(run, 5);
    if input.len() >= 2 {
        assert(input.skip(1)[0] == input[1]);
    }
    if input.len() >= 3 {
        assert(input.skip(1).skip(1)[0] == input[2]);
    }
    if input.len() >= 4 {
        assert(input.skip(1).skip(1).skip(1).len() > 0);
    }
}

/// A key press takes between one and four bytes of the input, none only
/// when the input is empty, and never more than there are; a character
/// event is printable.
pub proof fn lemma_decode_bounds(input: Seq<u8>)
    ensures
        0 <= decode(input).1 <= 4,
        decode(input).1 <= input.len(),
        decode(input).1 == 0 <==> input.len() == 0,
        decode(input).0.is_valid(),
        input.len() == 0 ==> decode(input).0 == KeyEvent::EndOfInput,
{
}

/// Decodes the key press that starts at index `pos` of `bytes`.
///
/// Returns the key and the index just after it.
pub fn decode_next(bytes: &[u8], pos: usize) -> (r: (KeyEvent, usize))
    requires
        pos <= bytes@.len(),
    ensures
        r.0 == decode(bytes@.skip(pos as int)).0,
        r.1 == pos + decode(bytes@.skip(pos as int)).1,
        pos <= r.1 <= bytes@.len(),
        r.0.is_valid(),
{
    let ghost input = bytes@.skip(pos as int);
    proof {
        lemma_run_decodes(input);
        lemma_decode_bounds(input);
    }
    let mut state = DecoderState::Ground;
    let mut i: usize = pos;
    loop
        invariant
            pos <= i <= bytes@.len(),
            input == bytes@.skip(pos as int),
            run(state, bytes@.skip(i as int)).0 == decode(input).0,
            run(state, bytes@.skip(i as int)).1 + (i - pos) == decode(input).1,
        decreases bytes@.len() - i,
    {
        if i >= bytes.len() {
            return (KeyEvent::EndOfInput, i);
        }
        let ghost rest = bytes@.skip(i as int);
        assert(rest[0] == bytes@[i as int]);
        assert(rest.skip(1) =~= bytes@.skip(i + 1));
        match decode_step(state, Some(bytes[i])) {
            DecodeStep::Key(key) => {
                return (key, i + 1);
            },
            DecodeStep::More(next) => {
                state = next;
                i = i + 1;
            },
        }
    }
}

} // verus!
