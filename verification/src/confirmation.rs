//! Showing a proposed command, and asking whether to run it.
//!
//! The functions of this module compute what is written to the terminal, as
//! styled segments, and how many rows it takes, so that the caller can erase
//! exactly what was printed. Reading keys and writing to the terminal are
//! left to the caller; `confirm_with_explain` and `confirm_execution` run the
//! dialogue over input bytes that are already there.

use crate::editor::{
    apply_key, edit_key, editor_display, key_output, outcome_of, EditBuffer, EditOutcome,
};
use crate::keys::{decode, decode_next, lemma_decode_bounds, KeyEvent};
use crate::layout::{
    add_rows, erase_rows, erase_sequence, lemma_visual_rows_nonnegative, saturated,
    visual_row_count, SHOW_CURSOR,
};
use crate::style::{
    append_segments, colors_enabled, pieces, plain, plain_piece, plain_start, plain_text,
    push_plain, push_segment, Piece, Segment, Style,
};
use crate::text::{chars_of, lines, lines_of, replaced, str_replace, string_of, views};
use vstd::prelude::*;

verus! {

/// What was decided at a confirmation prompt.
#[derive(Clone, Copy, Debug, PartialEq, Eq, Structural)]
pub enum ConfirmResult {
    Yes,
    No,
    Explain,
    Edit,
    Cancel,
}

/// Something to write to the terminal, and the rows that it takes there.
#[derive(Debug)]
pub struct Rendered {
    pub segments: Vec<Segment>,
    pub rows: usize,
}

/// Whether the confirmation dialogue is held at all: where the override is
/// set, or standard input is a terminal.
pub fn is_interactive_terminal(forced: bool, stdin_is_terminal: bool) -> (interactive: bool)
    ensures
        interactive == (forced || stdin_is_terminal),
{
    forced || stdin_is_terminal
}

/// One line of a command as it is shown: after a prompt sign, in the given
/// style, and ended by a newline.
pub open spec fn command_line_pieces(line: Seq<char>, style: Style) -> Seq<Piece> {
    seq![
        Piece { text: "$"@, style: Style::Cyan },
        plain_piece(" "@),
        Piece { text: line, style },
        plain_piece("\n"@),
    ]
}

/// The lines of a command of several lines as they are shown.
pub open spec fn command_lines_display(lines: Seq<Seq<char>>) -> Seq<Piece>
    decreases lines.len(),
{
    if lines.len() == 0 {
        Seq::<Piece>::empty()
    } else {
        command_lines_display(lines.drop_last()) + command_line_pieces(
            lines.last(),
            Style::BrightWhite,
        )
    }
}

/// The heading above a command of several lines.
pub open spec fn multiline_heading() -> Seq<Piece> {
    seq![
        Piece { text: ">"@, style: Style::Cyan },
        plain_piece(" "@),
        Piece { text: "multiline command:"@, style: Style::BrightWhiteBold },
        plain_piece("\n"@),
    ]
}

/// A command as it is shown: a command of one line in bold after a prompt
/// sign; any other under a heading, each of its lines after a prompt sign.
pub open spec fn command_display(command: Seq<char>) -> Seq<Piece> {
    let all = lines_of(command);
    if all.len() == 1 {
        command_line_pieces(command, Style::BrightWhiteBold)
    } else {
        multiline_heading() + command_lines_display(all)
    }
}

/// The rows that a shown command takes: those of its text, the newline at
/// its end apart, after which the cursor stands on the row below.
pub open spec fn command_rows(command: Seq<char>, width: int) -> int {
    visual_row_count(plain_text(command_display(command).drop_last()), width)
}

/// Appends one line of a command as it is shown.
fn push_command_line(out: &mut Vec<Segment>, line: &str, style: Style)
    ensures
        pieces(final(out)@) == pieces(old(out)@) + command_line_pieces(line@, style),
{
    push_segment(out, "$", Style::Cyan);
    push_segment(out, " ", Style::Plain);
    push_segment(out, line, style);
    push_segment(out, "\n", Style::Plain);
    assert(pieces(out@) =~= pieces(old(out)@) + command_line_pieces(line@, style));
}

/// Lays out `command` for a terminal `width` columns wide.
pub fn display_command(command: &str, width: usize) -> (shown: Rendered)
    requires
        width >= 1,
    ensures
        pieces(shown.segments@) == command_display(command@),
        shown.rows == saturated(command_rows(command@, width as int)),
{
    let chars = chars_of(command);
    let all = lines(&chars);
    let mut segments: Vec<Segment> = Vec::new();
    if all.len() == 1 {
        push_command_line(&mut segments, command, Style::BrightWhiteBold);
        assert(pieces(segments@) =~= command_display(command@));
    } else {
        push_segment(&mut segments, ">", Style::Cyan);
        push_segment(&mut segments, " ", Style::Plain);
        push_segment(&mut segments, "multiline command:", Style::BrightWhiteBold);
        push_segment(&mut segments, "\n", Style::Plain);
        assert(pieces(segments@) =~= multiline_heading());
        let ghost shown = views(all@);
        assert(shown.take(0) =~= Seq::<Seq<char>>::empty());
        let mut i: usize = 0;
        while i < all.len()
            invariant
                i <= all.len(),
                shown == views(all@),
                pieces(segments@) == multiline_heading() + command_lines_display(
                    shown.take(i as int),
                ),
            decreases all.len() - i,
        {
            proof {
                assert(shown.take(i + 1).drop_last() =~= shown.take(i as int));
                assert(shown.take(i + 1).last() == all@[i as int]@);
            }
            let line = string_of(&all[i]);
            push_command_line(&mut segments, line.as_str(), Style::BrightWhite);
            i = i + 1;
            assert(pieces(segments@) =~= multiline_heading() + command_lines_display(
                shown.take(i as int),
            ));
        }
        assert(shown.take(all.len() as int) =~= shown);
    }
    let count: usize = segments.len();
    assert(count >= 4);
    let text = plain_start(&segments, count - 1);
    assert(pieces(segments@).take(count - 1) =~= pieces(segments@).drop_last());
    let rows = add_rows(0, text.as_str(), width);
    Rendered { segments, rows }
}

/// `text` with its emphasis tags turned into escape sequences, or taken out
/// where output is not coloured. The tags for bold, italic and underlined
/// text are handled, opening and closing, in this order.
pub open spec fn styled_tags(text: Seq<char>, colorize: bool) -> Seq<char> {
    if colorize {
        replaced(
            replaced(
                replaced(
                    replaced(
                        replaced(replaced(text, "<b>"@, "\x1b[1m"@), "</b>"@, "\x1b[22m"@),
                        "<i>"@,
                        "\x1b[3m"@,
                    ),
                    "</i>"@,
                    "\x1b[23m"@,
                ),
                "<u>"@,
                "\x1b[4m"@,
            ),
            "</u>"@,
            "\x1b[24m"@,
        )
    } else {
        replaced(
            replaced(
                replaced(
                    replaced(replaced(replaced(text, "<b>"@, ""@), "</b>"@, ""@), "<i>"@, ""@),
                    "</i>"@,
                    ""@,
                ),
                "<u>"@,
                ""@,
            ),
            "</u>"@,
            ""@,
        )
    }
}

/// Turns the emphasis tags of `text` into escape sequences, or takes them
/// out where `colorize` is off.
pub fn style_html_tags_with(text: &str, colorize: bool) -> (out: String)
    ensures
        out@ == styled_tags(text@, colorize),
{
    if colorize {
        let a = str_replace(text, "<b>", "\x1b[1m");
        let b = str_replace(a.as_str(), "</b>", "\x1b[22m");
        let c = str_replace(b.as_str(), "<i>", "\x1b[3m");
        let d = str_replace(c.as_str(), "</i>", "\x1b[23m");
        let e = str_replace(d.as_str(), "<u>", "\x1b[4m");
        str_replace(e.as_str(), "</u>", "\x1b[24m")
    } else {
        let a = str_replace(text, "<b>", "");
        let b = str_replace(a.as_str(), "</b>", "");
        let c = str_replace(b.as_str(), "<i>", "");
        let d = str_replace(c.as_str(), "</i>", "");
        let e = str_replace(d.as_str(), "<u>", "");
        str_replace(e.as_str(), "</u>", "")
    }
}

/// Turns the emphasis tags of `text` into escape sequences where output is
/// coloured, and takes them out where it is not.
pub fn style_html_tags(text: &str) -> (out: String)
    ensures
        out@ == styled_tags(text@, true) || out@ == styled_tags(text@, false),
{
    let colorize = colors_enabled();
    style_html_tags_with(text, colorize)
}

/// The lines of an explanation as they are shown, each ended by a newline.
pub open spec fn explanation_lines_display(lines: Seq<Seq<char>>) -> Seq<Piece>
    decreases lines.len(),
{
    if lines.len() == 0 {
        Seq::<Piece>::empty()
    } else {
        explanation_lines_display(lines.drop_last()) + seq![
            Piece { text: lines.last(), style: Style::BrightWhite },
            plain_piece("\n"@),
        ]
    }
}

/// An explanation as it is shown: its emphasis tags handled, line by line.
pub open spec fn explanation_display(explanation: Seq<char>, colorize: bool) -> Seq<Piece> {
    explanation_lines_display(lines_of(styled_tags(explanation, colorize)))
}

/// The rows that a shown explanation takes.
pub open spec fn explanation_rows(explanation: Seq<char>, colorize: bool, width: int) -> int {
    visual_row_count(styled_tags(explanation, colorize), width)
}

/// Lays out `explanation` for a terminal `width` columns wide, with its
/// emphasis tags as escape sequences where `colorize` is on.
pub fn display_explanation_with(explanation: &str, width: usize, colorize: bool) -> (shown:
    Rendered)
    requires
        width >= 1,
    ensures
        pieces(shown.segments@) == explanation_display(explanation@, colorize),
        shown.rows == saturated(explanation_rows(explanation@, colorize, width as int)),
{
    let tagged = style_html_tags_with(explanation, colorize);
    let rows = add_rows(0, tagged.as_str(), width);
    let chars = chars_of(tagged.as_str());
    let all = lines(&chars);
    let ghost shown = views(all@);
    let mut segments: Vec<Segment> = Vec::new();
    let mut i: usize = 0;
    assert(shown.take(0) =~= Seq::<Seq<char>>::empty());
    assert(pieces(segments@) =~= Seq::<Piece>::empty());
    while i < all.len()
        invariant
            i <= all.len(),
            shown == views(all@),
            pieces(segments@) == explanation_lines_display(shown.take(i as int)),
        decreases all.len() - i,
    {
        let ghost before = pieces(segments@);
        assert(shown.take(i + 1).drop_last() =~= shown.take(i as int));
        assert(shown.take(i + 1).last() == all@[i as int]@);
        let line = string_of(&all[i]);
        push_segment(&mut segments, line.as_str(), Style::BrightWhite);
        push_segment(&mut segments, "\n", Style::Plain);
        i = i + 1;
        assert(pieces(segments@) =~= before + seq![
            Piece { text: line@, style: Style::BrightWhite },
            plain_piece("\n"@),
        ]);
    }
    assert(shown.take(all.len() as int) =~= shown);
    Rendered { segments, rows }
}

/// Lays out `explanation` for a terminal `width` columns wide, with its
/// emphasis tags as escape sequences where output is coloured.
pub fn display_explanation(explanation: &str, width: usize) -> (shown: Rendered)
    requires
        width >= 1,
    ensures
        exists|colorize: bool|
            pieces(shown.segments@) == explanation_display(explanation@, colorize) && shown.rows
                == saturated(#[trigger] explanation_rows(explanation@, colorize, width as int)),
{
    let colorize = colors_enabled();
    display_explanation_with(explanation, width, colorize)
}

/// The first line of the prompt.
pub open spec fn question_pieces(with_explain: bool) -> Seq<Piece> {
    seq![
        Piece { text: "Run this?"@, style: Style::Yellow },
        plain_piece(" "@),
        Piece {
            text: if with_explain {
                "(Y/e/n)"@
            } else {
                "(Y/n)"@
            },
            style: Style::Gray,
        },
        plain_piece("\n"@),
    ]
}

/// The second line of the prompt: the keys and what they do.
pub open spec fn hint_pieces(with_explain: bool) -> Seq<Piece> {
    if with_explain {
        seq![
            Piece { text: "["@, style: Style::Cyan },
            Piece { text: "Y/Enter"@, style: Style::CyanBold },
            Piece { text: "] to execute, ["@, style: Style::Cyan },
            Piece { text: "E"@, style: Style::CyanBold },
            Piece { text: "] to explain, ["@, style: Style::Cyan },
            Piece { text: "Arrow Up"@, style: Style::CyanBold },
            Piece { text: "] to edit, ["@, style: Style::Cyan },
            Piece { text: "N"@, style: Style::CyanBold },
            Piece { text: "] to cancel"@, style: Style::Cyan },
        ]
    } else {
        seq![
            Piece { text: "["@, style: Style::Cyan },
            Piece { text: "Y/Enter"@, style: Style::CyanBold },
            Piece { text: "] to execute, ["@, style: Style::Cyan },
            Piece { text: "Arrow Up"@, style: Style::CyanBold },
            Piece { text: "] to edit, ["@, style: Style::Cyan },
            Piece { text: "N"@, style: Style::CyanBold },
            Piece { text: "] to cancel"@, style: Style::Cyan },
        ]
    }
}

/// The prompt as it is shown: the question on one line, the keys on the
/// next, which is left without a newline.
pub open spec fn prompt_display(with_explain: bool) -> Seq<Piece> {
    question_pieces(with_explain) + hint_pieces(with_explain)
}

/// The rows that the prompt takes: those of its text.
pub open spec fn prompt_rows(with_explain: bool, width: int) -> int {
    visual_row_count(plain_text(prompt_display(with_explain)), width)
}

/// Lays out the confirmation prompt, with or without the offer to explain,
/// for a terminal `width` columns wide.
pub fn confirmation_prompt(with_explain: bool, width: usize) -> (shown: Rendered)
    requires
        width >= 1,
    ensures
        pieces(shown.segments@) == prompt_display(with_explain),
        shown.rows == saturated(prompt_rows(with_explain, width as int)),
{
    let mut segments: Vec<Segment> = Vec::new();
    push_segment(&mut segments, "Run this?", Style::Yellow);
    push_segment(&mut segments, " ", Style::Plain);
    if with_explain {
        push_segment(&mut segments, "(Y/e/n)", Style::Gray);
    } else {
        push_segment(&mut segments, "(Y/n)", Style::Gray);
    }
    push_segment(&mut segments, "\n", Style::Plain);
    push_segment(&mut segments, "[", Style::Cyan);
    push_segment(&mut segments, "Y/Enter", Style::CyanBold);
    push_segment(&mut segments, "] to execute, [", Style::Cyan);
    if with_explain {
        push_segment(&mut segments, "E", Style::CyanBold);
        push_segment(&mut segments, "] to explain, [", Style::Cyan);
    }
    push_segment(&mut segments, "Arrow Up", Style::CyanBold);
    push_segment(&mut segments, "] to edit, [", Style::Cyan);
    push_segment(&mut segments, "N", Style::CyanBold);
    push_segment(&mut segments, "] to cancel", Style::Cyan);
    assert(pieces(segments@) =~= prompt_display(with_explain));
    let text = plain(&segments);
    let rows = add_rows(0, text.as_str(), width);
    Rendered { segments, rows }
}

/// Nothing that is shown takes a negative number of rows.
pub proof fn lemma_shown_rows_nonnegative(text: Seq<char>, flag: bool, width: int)
    requires
        width >= 1,
    ensures
        command_rows(text, width) >= 0,
        explanation_rows(text, flag, width) >= 0,
        prompt_rows(flag, width) >= 0,
{
    lemma_visual_rows_nonnegative(plain_text(command_display(text).drop_last()), width);
    lemma_visual_rows_nonnegative(styled_tags(text, flag), width);
    lemma_visual_rows_nonnegative(plain_text(prompt_display(flag)), width);
}

/// How a confirmation stands after a key.
#[derive(Clone, Copy, Debug, PartialEq, Eq, Structural)]
pub enum ConfirmOutcome {
    /// The key decides nothing: the next key is awaited.
    Waiting,
    /// The user decided.
    Decided(ConfirmResult),
    /// Ctrl-C: the caller is to leave with the interrupt's exit code.
    Interrupted,
}

/// What a key decides at the prompt.
///
/// Enter and `y` accept; `e` asks for an explanation, where the prompt
/// offers one; the up arrow asks to edit; `n` cancels; the end of the input
/// declines; Ctrl-C interrupts. Letters count in either case. Any other key
/// decides nothing.
pub open spec fn decision(key: KeyEvent, with_explain: bool) -> ConfirmOutcome {
    match key {
        KeyEvent::Enter => ConfirmOutcome::Decided(ConfirmResult::Yes),
        KeyEvent::Char(c) => if c == 'y' || c == 'Y' {
            ConfirmOutcome::Decided(ConfirmResult::Yes)
        } else if (c == 'e' || c == 'E') && with_explain {
            ConfirmOutcome::Decided(ConfirmResult::Explain)
        } else if c == 'n' || c == 'N' {
            ConfirmOutcome::Decided(ConfirmResult::Cancel)
        } else {
            ConfirmOutcome::Waiting
        },
        KeyEvent::ArrowUp => ConfirmOutcome::Decided(ConfirmResult::Edit),
        KeyEvent::Interrupt => ConfirmOutcome::Interrupted,
        KeyEvent::EndOfInput => ConfirmOutcome::Decided(ConfirmResult::No),
        _ => ConfirmOutcome::Waiting,
    }
}

/// The rows to erase once the confirmation stands as given, of the rows of
/// the command, of an explanation and of the prompt.
///
/// On acceptance the command stays on the screen and what is below it goes;
/// before an explanation only the prompt goes; in every other case
/// everything goes.
pub open spec fn rows_to_erase(
    outcome: ConfirmOutcome,
    command: int,
    explanation: int,
    prompt: int,
) -> int {
    match outcome {
        ConfirmOutcome::Waiting => 0,
        ConfirmOutcome::Decided(ConfirmResult::Yes) => explanation + prompt,
        ConfirmOutcome::Decided(ConfirmResult::Explain) => prompt,
        _ => command + explanation + prompt,
    }
}

/// Whether the cursor is made visible again: when the user cancels or
/// interrupts, and when the input ends.
pub open spec fn shows_cursor(outcome: ConfirmOutcome) -> bool {
    match outcome {
        ConfirmOutcome::Decided(ConfirmResult::Cancel) => true,
        ConfirmOutcome::Decided(ConfirmResult::No) => true,
        ConfirmOutcome::Interrupted => true,
        _ => false,
    }
}

/// What is written once the confirmation stands as given.
pub open spec fn confirm_output(
    outcome: ConfirmOutcome,
    command: int,
    explanation: int,
    prompt: int,
) -> Seq<Piece> {
    if outcome is Waiting {
        Seq::<Piece>::empty()
    } else {
        let erase = seq![
            plain_piece(
                erase_sequence(
                    saturated(rows_to_erase(outcome, command, explanation, prompt)) as nat,
                ),
            ),
        ];
        if shows_cursor(outcome) {
            erase + seq![plain_piece(SHOW_CURSOR@)]
        } else {
            erase
        }
    }
}

/// What a key did at the prompt: how the confirmation stands, and what is
/// to be written.
#[derive(Debug)]
pub struct ConfirmStep {
    pub outcome: ConfirmOutcome,
    pub output: Vec<Segment>,
}

/// The decision that a key makes.
pub fn decide(key: KeyEvent, with_explain: bool) -> (outcome: ConfirmOutcome)
    ensures
        outcome == decision(key, with_explain),
{
    match key {
        KeyEvent::Enter => ConfirmOutcome::Decided(ConfirmResult::Yes),
        KeyEvent::Char(c) => {
            if c == 'y' || c == 'Y' {
                ConfirmOutcome::Decided(ConfirmResult::Yes)
            } else if (c == 'e' || c == 'E') && with_explain {
                ConfirmOutcome::Decided(ConfirmResult::Explain)
            } else if c == 'n' || c == 'N' {
                ConfirmOutcome::Decided(ConfirmResult::Cancel)
            } else {
                ConfirmOutcome::Waiting
            }
        },
        KeyEvent::ArrowUp => ConfirmOutcome::Decided(ConfirmResult::Edit),
        KeyEvent::Interrupt => ConfirmOutcome::Interrupted,
        KeyEvent::EndOfInput => ConfirmOutcome::Decided(ConfirmResult::No),
        _ => ConfirmOutcome::Waiting,
    }
}

/// Handles one key at the prompt. The row counts are those of the command,
/// of an explanation shown below it (zero where there is none) and of the
/// prompt.
pub fn confirm_key(
    key: KeyEvent,
    with_explain: bool,
    cmd_rows: usize,
    expl_rows: usize,
    prompt_rows: usize,
) -> (step: ConfirmStep)
    ensures
        step.outcome == decision(key, with_explain),
        pieces(step.output@) == confirm_output(
            step.outcome,
            cmd_rows as int,
            expl_rows as int,
            prompt_rows as int,
        ),
{
    let outcome = decide(key, with_explain);
    let mut output: Vec<Segment> = Vec::new();
    let below: usize = expl_rows.saturating_add(prompt_rows);
    let all: usize = cmd_rows.saturating_add(below);
    match outcome {
        ConfirmOutcome::Waiting => {
            assert(pieces(output@) =~= Seq::<Piece>::empty());
        },
        ConfirmOutcome::Decided(ConfirmResult::Yes) => {
            push_plain(&mut output, erase_rows(below));
        },
        ConfirmOutcome::Decided(ConfirmResult::Explain) => {
            push_plain(&mut output, erase_rows(prompt_rows));
        },
        ConfirmOutcome::Decided(ConfirmResult::Edit) => {
            push_plain(&mut output, erase_rows(all));
        },
        ConfirmOutcome::Decided(ConfirmResult::Cancel) => {
            push_plain(&mut output, erase_rows(all));
            push_segment(&mut output, SHOW_CURSOR, Style::Plain);
        },
        ConfirmOutcome::Decided(ConfirmResult::No) => {
            push_plain(&mut output, erase_rows(all));
            push_segment(&mut output, SHOW_CURSOR, Style::Plain);
        },
        ConfirmOutcome::Interrupted => {
            push_plain(&mut output, erase_rows(all));
            push_segment(&mut output, SHOW_CURSOR, Style::Plain);
        },
    }
    assert(pieces(output@) =~= confirm_output(
        outcome,
        cmd_rows as int,
        expl_rows as int,
        prompt_rows as int,
    ));
    ConfirmStep { outcome, output }
}

/// How the confirmation ends on the given input, and the number of bytes
/// read until then: keys that decide nothing are passed over.
pub open spec fn confirm_run(input: Seq<u8>, with_explain: bool) -> (ConfirmOutcome, int)
    decreases input.len(),
{
    let (key, used) = decode(input);
    let outcome = decision(key, with_explain);
    if outcome is Waiting && 0 < used <= input.len() {
        let (end, more) = confirm_run(input.skip(used), with_explain);
        (end, used + more)
    } else {
        (outcome, used)
    }
}

/// A confirmation always ends: with a decision or with an interrupt, within
/// the input.
pub proof fn lemma_confirm_run_ends(input: Seq<u8>, with_explain: bool)
    ensures
        !(confirm_run(input, with_explain).0 is Waiting),
        0 <= confirm_run(input, with_explain).1 <= input.len(),
    decreases input.len(),
{
    lemma_decode_bounds(input);
    let (key, used) = decode(input);
    if decision(key, with_explain) is Waiting {
        lemma_confirm_run_ends(input.skip(used), with_explain);
    }
}

/// What a confirmation over input bytes came to.
#[derive(Debug)]
pub struct ConfirmRun {
    /// The decision, or the interrupt; never `Waiting`.
    pub outcome: ConfirmOutcome,
    /// The number of bytes read.
    pub consumed: usize,
    /// What is to be written.
    pub output: Vec<Segment>,
}

/// Holds the confirmation over the given input.
fn confirm_over(
    with_explain: bool,
    cmd_rows: usize,
    expl_rows: usize,
    width: usize,
    input: &[u8],
) -> (run: ConfirmRun)
    requires
        width >= 1,
    ensures
        run.outcome == confirm_run(input@, with_explain).0,
        run.consumed == confirm_run(input@, with_explain).1,
        !(run.outcome is Waiting),
        run.consumed <= input@.len(),
        pieces(run.output@) == prompt_display(with_explain) + confirm_output(
            run.outcome,
            cmd_rows as int,
            expl_rows as int,
            saturated(prompt_rows(with_explain, width as int)),
        ),
{
    let prompt = confirmation_prompt(with_explain, width);
    let rows = prompt.rows;
    let mut output = prompt.segments;
    let mut i: usize = 0;
    assert(input@.skip(0) =~= input@);
    proof {
        lemma_confirm_run_ends(input@, with_explain);
    }
    loop
        invariant
            i <= input@.len(),
            rows == saturated(prompt_rows(with_explain, width as int)),
            pieces(output@) == prompt_display(with_explain),
            confirm_run(input@.skip(i as int), with_explain).0 == confirm_run(
                input@,
                with_explain,
            ).0,
            i + confirm_run(input@.skip(i as int), with_explain).1 == confirm_run(
                input@,
                with_explain,
            ).1,
        decreases input@.len() - i,
    {
        let ghost rest = input@.skip(i as int);
        proof {
            lemma_decode_bounds(rest);
        }
        let (key, next) = decode_next(input, i);
        let step = confirm_key(key, with_explain, cmd_rows, expl_rows, rows);
        match step.outcome {
            ConfirmOutcome::Waiting => {
                assert(rest.skip(next - i) =~= input@.skip(next as int));
                i = next;
            },
            _ => {
                append_segments(&mut output, step.output);
                return ConfirmRun { outcome: step.outcome, consumed: next, output };
            },
        }
    }
}

/// Asks whether to run the command shown above, offering an explanation.
///
/// `cmd_line_count` is the number of rows of the shown command. Where the
/// session is not interactive nothing is asked: the answer is yes, no byte
/// is read and nothing is written.
pub fn confirm_with_explain(
    cmd_line_count: usize,
    interactive: bool,
    width: usize,
    input: &[u8],
) -> (run: ConfirmRun)
    requires
        width >= 1,
    ensures
        !(run.outcome is Waiting),
        run.consumed <= input@.len(),
        !interactive ==> run.outcome == ConfirmOutcome::Decided(ConfirmResult::Yes)
            && run.consumed == 0 && run.output@.len() == 0,
        interactive ==> run.outcome == confirm_run(input@, true).0 && run.consumed == confirm_run(
            input@,
            true,
        ).1 && pieces(run.output@) == prompt_display(true) + confirm_output(
            run.outcome,
            cmd_line_count as int,
            0,
            saturated(prompt_rows(true, width as int)),
        ),
{
    if !interactive {
        return ConfirmRun {
            outcome: ConfirmOutcome::Decided(ConfirmResult::Yes),
            consumed: 0,
            output: Vec::new(),
        };
    }
    confirm_over(true, cmd_line_count, 0, width, input)
}

/// Asks whether to run the command shown above, below which an explanation
/// is shown; no further explanation is offered.
///
/// `cmd_line_count` is the number of rows of the shown command, which stay
/// on acceptance; `expl_line_count` that of the explanation, which go. Where
/// the session is not interactive nothing is asked: the answer is yes, no
/// byte is read and nothing is written.
pub fn confirm_execution(
    cmd_line_count: usize,
    expl_line_count: usize,
    interactive: bool,
    width: usize,
    input: &[u8],
) -> (run: ConfirmRun)
    requires
        width >= 1,
    ensures
        !(run.outcome is Waiting),
        run.consumed <= input@.len(),
        !interactive ==> run.outcome == ConfirmOutcome::Decided(ConfirmResult::Yes)
            && run.consumed == 0 && run.output@.len() == 0,
        interactive ==> run.outcome == confirm_run(input@, false).0 && run.consumed
            == confirm_run(input@, false).1 && pieces(run.output@) == prompt_display(false)
            + confirm_output(
            run.outcome,
            cmd_line_count as int,
            expl_line_count as int,
            saturated(prompt_rows(false, width as int)),
        ),
{
    if !interactive {
        return ConfirmRun {
            outcome: ConfirmOutcome::Decided(ConfirmResult::Yes),
            consumed: 0,
            output: Vec::new(),
        };
    }
    confirm_over(false, cmd_line_count, expl_line_count, width, input)
}

/// An edit session over given input, as far as it is known: how it ends,
/// the text then, the bytes read and what was written for the keys.
pub struct EditTrace {
    pub outcome: EditOutcome,
    pub text: Seq<char>,
    pub used: int,
    pub output: Seq<Piece>,
}

/// The edit session that starts with the given text and cursor and reads
/// its keys from `input`: each key is applied until one ends the session.
pub open spec fn edit_run(text: Seq<char>, pos: int, input: Seq<u8>, width: int) -> EditTrace
    decreases input.len(),
{
    let (key, used) = decode(input);
    let outcome = outcome_of(key);
    let written = key_output(text, pos, key, width);
    if outcome is Editing && 0 < used <= input.len() {
        let (next_text, next_pos) = apply_key(text, pos, key);
        let rest = edit_run(next_text, next_pos, input.skip(used), width);
        EditTrace {
            outcome: rest.outcome,
            text: rest.text,
            used: used + rest.used,
            output: written + rest.output,
        }
    } else {
        EditTrace { outcome, text, used, output: written }
    }
}

/// An edit session always ends, within the input.
pub proof fn lemma_edit_run_ends(text: Seq<char>, pos: int, input: Seq<u8>, width: int)
    ensures
        !(edit_run(text, pos, input, width).outcome is Editing),
        0 <= edit_run(text, pos, input, width).used <= input.len(),
    decreases input.len(),
{
    lemma_decode_bounds(input);
    let (key, used) = decode(input);
    if outcome_of(key) is Editing {
        let (next_text, next_pos) = apply_key(text, pos, key);
        lemma_edit_run_ends(next_text, next_pos, input.skip(used), width);
    }
}

/// An edit session in which Enter is the first key returns the text that it
/// started with, unchanged.
pub proof fn lemma_enter_keeps_text(text: Seq<char>, pos: int, input: Seq<u8>, width: int)
    requires
        decode(input).0 == KeyEvent::Enter,
    ensures
        edit_run(text, pos, input, width).outcome == EditOutcome::Accepted,
        edit_run(text, pos, input, width).text == text,
        edit_run(text, pos, input, width).used == 1,
{
}

/// The result of an edit session.
#[derive(Clone, Debug, PartialEq, Eq)]
pub enum EditResult {
    /// Enter: the revised text.
    Accepted(String),
    /// The input ended: no result.
    Cancelled,
    /// Ctrl-C: the caller is to leave with the interrupt's exit code.
    Interrupted,
}

/// What an edit session over input bytes came to.
#[derive(Debug)]
pub struct EditRun {
    pub result: EditResult,
    /// The number of bytes read.
    pub consumed: usize,
    /// What is to be written.
    pub output: Vec<Segment>,
}

/// Whether `result` stands for the given end of a session.
pub open spec fn result_matches(result: EditResult, outcome: EditOutcome, text: Seq<char>) -> bool {
    match result {
        EditResult::Accepted(revised) => outcome == EditOutcome::Accepted && revised@ == text,
        EditResult::Cancelled => outcome == EditOutcome::Cancelled,
        EditResult::Interrupted => outcome == EditOutcome::Interrupted,
    }
}

/// Presents `current` for editing on one line and applies the keys of
/// `input` to it, until Enter, Ctrl-C or the end of the input.
///
/// The caller has erased the confirmation prompt before.
pub fn edit_command(current: &str, input: &[u8], width: usize) -> (run: EditRun)
    requires
        width >= 1,
    ensures
        result_matches(
            run.result,
            edit_run(current@, current@.len() as int, input@, width as int).outcome,
            edit_run(current@, current@.len() as int, input@, width as int).text,
        ),
        run.consumed == edit_run(current@, current@.len() as int, input@, width as int).used,
        run.consumed <= input@.len(),
        pieces(run.output@) == editor_display(current@, current@.len() as int) + edit_run(
            current@,
            current@.len() as int,
            input@,
            width as int,
        ).output,
{
    let mut buffer = EditBuffer::new(current);
    let mut output = buffer.open();
    let mut i: usize = 0;
    let ghost whole = edit_run(current@, current@.len() as int, input@, width as int);
    let ghost mut written = Seq::<Piece>::empty();
    proof {
        assert(input@.skip(0) =~= input@);
        assert(written + whole.output =~= whole.output);
        lemma_edit_run_ends(current@, current@.len() as int, input@, width as int);
    }
    loop
        invariant
            width >= 1,
            i <= input@.len(),
            buffer.wf(),
            whole == edit_run(current@, current@.len() as int, input@, width as int),
            pieces(output@) == editor_display(current@, current@.len() as int) + written,
            edit_run(
                buffer.text(),
                buffer.cursor(),
                input@.skip(i as int),
                width as int,
            ).outcome == whole.outcome,
            edit_run(buffer.text(), buffer.cursor(), input@.skip(i as int), width as int).text
                == whole.text,
            i + edit_run(buffer.text(), buffer.cursor(), input@.skip(i as int), width as int).used
                == whole.used,
            written + edit_run(
                buffer.text(),
                buffer.cursor(),
                input@.skip(i as int),
                width as int,
            ).output == whole.output,
        decreases input@.len() - i,
    {
        let ghost rest = input@.skip(i as int);
        let ghost text = buffer.text();
        let ghost pos = buffer.cursor();
        proof {
            lemma_decode_bounds(rest);
        }
        let (key, next) = decode_next(input, i);
        let step = edit_key(&mut buffer, key, width);
        let ghost shown = pieces(step.output@);
        append_segments(&mut output, step.output);
        proof {
            assert(rest.skip(next - i) =~= input@.skip(next as int));
            let tail = edit_run(
                buffer.text(),
                buffer.cursor(),
                input@.skip(next as int),
                width as int,
            );
            if outcome_of(key) is Editing {
                assert((written + shown) + tail.output =~= written + (shown + tail.output));
            } else {
                assert(written + shown =~= whole.output);
            }
            assert(pieces(output@) =~= editor_display(current@, current@.len() as int) + (written
                + shown));
            written = written + shown;
        }
        i = next;
        match step.outcome {
            EditOutcome::Editing => {},
            EditOutcome::Accepted => {
                return EditRun {
                    result: EditResult::Accepted(buffer.contents()),
                    consumed: i,
                    output,
                };
            },
            EditOutcome::Cancelled => {
                return EditRun { result: EditResult::Cancelled, consumed: i, output };
            },
            EditOutcome::Interrupted => {
                return EditRun { result: EditResult::Interrupted, consumed: i, output };
            },
        }
    }
}

} // verus!
