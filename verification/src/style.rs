//! Styled output.
//!
//! What the library writes to the terminal is a list of segments, each a
//! piece of text with the style it is shown in. The text and the style of
//! every segment are specified exactly; turning a style into escape
//! sequences is left to the `colored` crate, which decides by the
//! environment whether to colour at all.

use colored::Colorize;
use vstd::prelude::*;

verus! {

/// How a segment is shown.
#[derive(Clone, Copy, Debug, PartialEq, Eq, Structural)]
pub enum Style {
    /// As it is: plain text, or a control sequence.
    Plain,
    Cyan,
    CyanBold,
    Yellow,
    Gray,
    BrightWhite,
    BrightWhiteBold,
    Bold,
    Dimmed,
    Green,
    GreenBold,
    LightGrayBold,
    Red,
    RedBold,
    YellowBold,
}

/// A piece of text and its style.
#[derive(Debug, Clone, PartialEq, Eq)]
pub struct Segment {
    pub text: String,
    pub style: Style,
}

/// The model of a segment.
pub struct Piece {
    pub text: Seq<char>,
    pub style: Style,
}

impl View for Segment {
    type V = Piece;

    open spec fn view(&self) -> Piece {
        Piece { text: self.text@, style: self.style }
    }
}

/// The models of a list of segments.
pub open spec fn pieces(segments: Seq<Segment>) -> Seq<Piece> {
    segments.map_values(|s: Segment| s@)
}

/// A piece of plain text.
pub open spec fn plain_piece(text: Seq<char>) -> Piece {
    Piece { text, style: Style::Plain }
}

/// The text of the pieces, one after the other, without any styling.
pub open spec fn plain_text(list: Seq<Piece>) -> Seq<char>
    decreases list.len(),
{
    if list.len() == 0 {
        Seq::<char>::empty()
    } else {
        plain_text(list.drop_last()) + list.last().text
    }
}

/// Appends a segment with the given text and style.
pub fn push_segment(out: &mut Vec<Segment>, text: &str, style: Style)
    ensures
        pieces(final(out)@) == pieces(old(out)@).push(Piece { text: text@, style }),
{
    let ghost before = pieces(out@);
    let segment = Segment { text: text.to_owned(), style };
    out.push(segment);
    assert(pieces(out@) =~= before.push(Piece { text: text@, style }));
}

/// Appends a plain segment that holds the given string.
pub fn push_plain(out: &mut Vec<Segment>, text: String)
    ensures
        pieces(final(out)@) == pieces(old(out)@).push(plain_piece(text@)),
{
    let ghost before = pieces(out@);
    let ghost shown = text@;
    let segment = Segment { text, style: Style::Plain };
    out.push(segment);
    assert(pieces(out@) =~= before.push(plain_piece(shown)));
}

/// Moves the segments of `tail` to the end of `out`.
pub fn append_segments(out: &mut Vec<Segment>, tail: Vec<Segment>)
    ensures
        pieces(final(out)@) == pieces(old(out)@) + pieces(tail@),
{
    let ghost before = pieces(out@);
    let ghost added = pieces(tail@);
    let mut tail = tail;
    out.append(&mut tail);
    assert(pieces(out@) =~= before + added);
}

/// The text of the first `count` segments without any styling.
pub fn plain_start(segments: &Vec<Segment>, count: usize) -> (text: String)
    requires
        count <= segments@.len(),
    ensures
        text@ == plain_text(pieces(segments@).take(count as int)),
{
    let mut text = String::new();
    let ghost all = pieces(segments@);
    let mut i: usize = 0;
    assert(all.take(0) =~= Seq::<Piece>::empty());
    while i < count
        invariant
            i <= count <= segments.len(),
            all == pieces(segments@),
            text@ == plain_text(all.take(i as int)),
        decreases count - i,
    {
        assert(all.take(i + 1).drop_last() =~= all.take(i as int));
        assert(all.take(i + 1).last() == segments@[i as int]@);
        text.append(segments[i].text.as_str());
        i = i + 1;
    }
    text
}

/// The text of the segments without any styling.
pub fn plain(segments: &Vec<Segment>) -> (text: String)
    ensures
        text@ == plain_text(pieces(segments@)),
{
    let text = plain_start(segments, segments.len());
    assert(pieces(segments@).take(segments@.len() as int) =~= pieces(segments@));
    text
}

/// Whether output is to be coloured.
///
/// Trusted: `colored::control::ShouldColorize::should_colorize` answers by
/// the environment and by an override that the process may have set, so
/// nothing is claimed of the answer.
#[verifier::external_body]
pub(crate) fn colors_enabled() -> bool {
    colored::control::SHOULD_COLORIZE.should_colorize()
}

/// Trusted: `colored` shows the text in cyan, or leaves it as it is where
/// colours are off; nothing is claimed of the result.
#[verifier::external_body]
fn paint_cyan(text: &str) -> String {
    text.cyan().to_string()
}

/// Trusted: `colored` shows the text in bold cyan, or leaves it as it is
/// where colours are off; nothing is claimed of the result.
#[verifier::external_body]
fn paint_cyan_bold(text: &str) -> String {
    text.bold().cyan().to_string()
}

/// Trusted: `colored` shows the text in yellow, or leaves it as it is where
/// colours are off; nothing is claimed of the result.
#[verifier::external_body]
fn paint_yellow(text: &str) -> String {
    text.yellow().to_string()
}

/// Trusted: `colored` shows the text in a medium gray, or leaves it as it is
/// where colours are off; nothing is claimed of the result.
#[verifier::external_body]
fn paint_gray(text: &str) -> String {
    text.truecolor(128, 128, 128).to_string()
}

/// Trusted: `colored` shows the text in bright white, or leaves it as it is
/// where colours are off; nothing is claimed of the result.
#[verifier::external_body]
fn paint_bright_white(text: &str) -> String {
    text.bright_white().to_string()
}

/// Trusted: `colored` shows the text in bold bright white, or leaves it as
/// it is where colours are off; nothing is claimed of the result.
#[verifier::external_body]
fn paint_bright_white_bold(text: &str) -> String {
    text.bright_white().bold().to_string()
}

/// Trusted: `colored` shows the text in bold, or leaves it as it is where
/// colours are off; nothing is claimed of the result.
#[verifier::external_body]
fn paint_bold(text: &str) -> String {
    text.bold().to_string()
}

/// Trusted: `colored` shows the text dimmed, or leaves it as it is where
/// colours are off; nothing is claimed of the result.
#[verifier::external_body]
fn paint_dimmed(text: &str) -> String {
    text.dimmed().to_string()
}

/// Trusted: `colored` shows the text in green, or leaves it as it is where
/// colours are off; nothing is claimed of the result.
#[verifier::external_body]
fn paint_green(text: &str) -> String {
    text.green().to_string()
}

/// Trusted: `colored` shows the text in bold green, or leaves it as it is where
/// colours are off; nothing is claimed of the result.
#[verifier::external_body]
fn paint_green_bold(text: &str) -> String {
    text.green().bold().to_string()
}

/// Trusted: `colored` shows the text in red, or leaves it as it is where
/// colours are off; nothing is claimed of the result.
#[verifier::external_body]
fn paint_red(text: &str) -> String {
    text.red().to_string()
}

/// Trusted: `colored` shows the text in bold red, or leaves it as it is where
/// colours are off; nothing is claimed of the result.
#[verifier::external_body]
fn paint_red_bold(text: &str) -> String {
    text.red().bold().to_string()
}

/// Trusted: `colored` shows the text in bold yellow, or leaves it as it is where
/// colours are off; nothing is claimed of the result.
#[verifier::external_body]
fn paint_yellow_bold(text: &str) -> String {
    text.yellow().bold().to_string()
}

/// Trusted: `colored` shows the text in a bold light gray, or leaves it as
/// it is where colours are off; nothing is claimed of the result.
#[verifier::external_body]
fn paint_light_gray_bold(text: &str) -> String {
    text.custom_color((164, 164, 164)).bold().to_string()
}

/// Every segment of the list is plain.
pub open spec fn all_plain(list: Seq<Piece>) -> bool {
    forall|i: int| 0 <= i < list.len() ==> (#[trigger] list[i]).style == Style::Plain
}

/// The text to write for the segments, each in its style.
///
/// Plain segments are written as they are, so a list of plain segments
/// gives its plain text; what a styled segment becomes is for `colored` to
/// decide.
pub fn styled(segments: &Vec<Segment>) -> (text: String)
    ensures
        all_plain(pieces(segments@)) ==> text@ == plain_text(pieces(segments@)),
{
    let mut text = String::new();
    let ghost all = pieces(segments@);
    let mut i: usize = 0;
    assert(all.take(0) =~= Seq::<Piece>::empty());
    while i < segments.len()
        invariant
            i <= segments.len(),
            all == pieces(segments@),
            all_plain(all.take(i as int)) ==> text@ == plain_text(all.take(i as int)),
        decreases segments.len() - i,
    {
        assert(all.take(i + 1).drop_last() =~= all.take(i as int));
        assert(all.take(i + 1).last() == segments@[i as int]@);
        proof {
            if all_plain(all.take(i + 1)) {
                assert(all.take(i + 1)[i as int].style == Style::Plain);
                assert forall|j: int| 0 <= j < i implies (#[trigger] all.take(
                    i as int,
                )[j]).style == Style::Plain by {
                    assert(all.take(i + 1)[j].style == Style::Plain);
                }
            }
        }
        let segment = &segments[i];
        match segment.style {
            Style::Plain => {
                text.append(segment.text.as_str());
            },
            Style::Cyan => {
                let painted = paint_cyan(segment.text.as_str());
                text.append(painted.as_str());
            },
            Style::CyanBold => {
                let painted = paint_cyan_bold(segment.text.as_str());
                text.append(painted.as_str());
            },
            Style::Yellow => {
                let painted = paint_yellow(segment.text.as_str());
                text.append(painted.as_str());
            },
            Style::Gray => {
                let painted = paint_gray(segment.text.as_str());
                text.append(painted.as_str());
            },
            Style::BrightWhite => {
                let painted = paint_bright_white(segment.text.as_str());
                text.append(painted.as_str());
            },
            Style::BrightWhiteBold => {
                let painted = paint_bright_white_bold(segment.text.as_str());
                text.append(painted.as_str());
            },
            Style::LightGrayBold => {
                let painted = paint_light_gray_bold(segment.text.as_str());
                text.append(painted.as_str());
            },
            Style::Bold => {
                let painted = paint_bold(segment.text.as_str());
                text.append(painted.as_str());
            },
            Style::Dimmed => {
                let painted = paint_dimmed(segment.text.as_str());
                text.append(painted.as_str());
            },
            Style::Green => {
                let painted = paint_green(segment.text.as_str());
                text.append(painted.as_str());
            },
            Style::GreenBold => {
                let painted = paint_green_bold(segment.text.as_str());
                text.append(painted.as_str());
            },
            Style::Red => {
                let painted = paint_red(segment.text.as_str());
                text.append(painted.as_str());
            },
            Style::RedBold => {
                let painted = paint_red_bold(segment.text.as_str());
                text.append(painted.as_str());
            },
            Style::YellowBold => {
                let painted = paint_yellow_bold(segment.text.as_str());
                text.append(painted.as_str());
            },
        }
        i = i + 1;
    }
    assert(all.take(segments.len() as int) =~= all);
    text
}


/// A line of text after a mark: the mark in its style, a space, the text in
/// its style, and a newline.
pub open spec fn marked_line(
    mark: Seq<char>,
    mark_style: Style,
    text: Seq<char>,
    text_style: Style,
) -> Seq<Piece> {
    seq![
        Piece { text: mark, style: mark_style },
        plain_piece(" "@),
        Piece { text, style: text_style },
        plain_piece("\n"@),
    ]
}

/// A line of text in one style, with its newline.
pub open spec fn styled_line(text: Seq<char>, style: Style) -> Seq<Piece> {
    seq![Piece { text, style }, plain_piece("\n"@)]
}

/// Builds a line of text after a mark.
pub fn line_with_mark(mark: &str, mark_style: Style, text: &str, text_style: Style) -> (line: Vec<
    Segment,
>)
    ensures
        pieces(line@) == marked_line(mark@, mark_style, text@, text_style),
{
    let mut line: Vec<Segment> = Vec::new();
    push_segment(&mut line, mark, mark_style);
    push_segment(&mut line, " ", Style::Plain);
    push_segment(&mut line, text, text_style);
    push_segment(&mut line, "\n", Style::Plain);
    assert(pieces(line@) =~= marked_line(mark@, mark_style, text@, text_style));
    line
}

/// Builds a line of text in one style.
pub fn line_in(text: &str, style: Style) -> (line: Vec<Segment>)
    ensures
        pieces(line@) == styled_line(text@, style),
{
    let mut line: Vec<Segment> = Vec::new();
    push_segment(&mut line, text, style);
    push_segment(&mut line, "\n", Style::Plain);
    assert(pieces(line@) =~= styled_line(text@, style));
    line
}

} // verus!
