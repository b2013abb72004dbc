//! The dialogue's input line.

use crate::style::{pieces, plain_piece, push_segment, Piece, Segment, Style};
use crate::text::{chars_of, string_of, trim, trimmed};
use vstd::prelude::*;

verus! {

/// The request in a line of input: the line without surrounding white
/// space, unless nothing is left of it.
pub open spec fn request_in(line: Seq<char>) -> Option<Seq<char>> {
    if trimmed(line).len() == 0 {
        None
    } else {
        Some(trimmed(line))
    }
}

/// Takes the request out of a line that the user entered.
pub fn accept_line(line: &str) -> (request: Option<String>)
    ensures
        request is Some <==> request_in(line@) is Some,
        request matches Some(text) ==> request_in(line@) == Some(text@),
{
    let text = trim(&chars_of(line));
    if text.len() == 0 {
        None
    } else {
        Some(string_of(&text))
    }
}


/// The prompt of the dialogue: the assistant's name, the current directory
/// and a closing sign.
pub open spec fn input_prompt_of(directory: Seq<char>) -> Seq<Piece> {
    seq![
        Piece { text: "nlsh-rs"@, style: Style::CyanBold },
        plain_piece(":"@),
        Piece { text: directory, style: Style::LightGrayBold },
        Piece { text: ">"@, style: Style::Bold },
        plain_piece(" "@),
    ]
}

/// Builds the prompt of the dialogue.
pub fn input_prompt(directory: &str) -> (prompt: Vec<Segment>)
    ensures
        pieces(prompt@) == input_prompt_of(directory@),
{
    let mut prompt: Vec<Segment> = Vec::new();
    push_segment(&mut prompt, "nlsh-rs", Style::CyanBold);
    push_segment(&mut prompt, ":", Style::Plain);
    push_segment(&mut prompt, directory, Style::LightGrayBold);
    push_segment(&mut prompt, ">", Style::Bold);
    push_segment(&mut prompt, " ", Style::Plain);
    assert(pieces(prompt@) =~= input_prompt_of(directory@));
    prompt
}

} // verus!
