use nlsh_rs::confirmation::{
    confirm_execution, confirm_key, confirm_with_explain, confirmation_prompt, decide,
    display_command, display_explanation, display_explanation_with, edit_command,
    is_interactive_terminal, style_html_tags, style_html_tags_with, ConfirmOutcome, ConfirmResult,
    EditResult,
};
use nlsh_rs::keys::KeyEvent;
use nlsh_rs::layout::effective_width;
use nlsh_rs::style::{plain, styled, Segment, Style};

fn width() -> usize {
    effective_width(None)
}

#[test]
fn display_command_single_line_returns_one() {
    assert_eq!(display_command("echo hi", width()).rows, 1);
}

#[test]
fn display_command_multiline_returns_n_plus_one() {
    assert_eq!(display_command("echo hi\necho bye", width()).rows, 3);
    assert_eq!(display_command("a\nb\nc", width()).rows, 4);
}

#[test]
fn display_explanation_single_line_returns_one() {
    assert_eq!(display_explanation("pipes stdout to a file", width()).rows, 1);
}

#[test]
fn display_explanation_multiline_returns_line_count() {
    assert_eq!(display_explanation("line one\nline two\nline three", width()).rows, 3);
}

#[test]
fn style_html_tags_converts_bold() {
    colored::control::set_override(true);
    let result = style_html_tags("<b>hello</b>");
    assert_eq!(result, "\x1b[1mhello\x1b[22m");
}

#[test]
fn style_html_tags_converts_italic() {
    colored::control::set_override(true);
    let result = style_html_tags("<i>hello</i>");
    assert_eq!(result, "\x1b[3mhello\x1b[23m");
}

#[test]
fn style_html_tags_converts_underline() {
    colored::control::set_override(true);
    let result = style_html_tags("<u>hello</u>");
    assert_eq!(result, "\x1b[4mhello\x1b[24m");
}

#[test]
fn style_html_tags_strips_when_no_color() {
    colored::control::set_override(false);
    let result = style_html_tags("<b>bold</b> and <i>italic</i>");
    assert_eq!(result, "bold and italic");
    colored::control::set_override(true);
}

#[test]
fn style_html_tags_with_handles_all_tags() {
    assert_eq!(
        style_html_tags_with("<b>a</b><i>b</i><u>c</u><x>", true),
        "\x1b[1ma\x1b[22m\x1b[3mb\x1b[23m\x1b[4mc\x1b[24m<x>"
    );
    assert_eq!(style_html_tags_with("<b>a</b><i>b</i><u>c</u><x>", false), "abc<x>");
    // taking a tag out can bring another together, which then goes too
    assert_eq!(style_html_tags_with("<<b>i>x", false), "x");
}

#[test]
fn styled_text_follows_the_override() {
    let shown = display_command("ls", 80);
    colored::control::set_override(false);
    assert_eq!(styled(&shown.segments), "$ ls\n");
    colored::control::set_override(true);
    let painted = styled(&shown.segments);
    assert!(painted.contains("\x1b["));
    assert!(painted.contains("ls"));
    assert!(painted.ends_with('\n'));
    assert_ne!(painted, "$ ls\n");
}

#[test]
fn every_style_is_painted() {
    let styles = [
        Style::Cyan,
        Style::CyanBold,
        Style::Yellow,
        Style::Gray,
        Style::BrightWhite,
        Style::BrightWhiteBold,
    ];
    colored::control::set_override(true);
    let mut seen = Vec::new();
    for style in styles {
        let painted = styled(&vec![Segment { text: "x".to_string(), style }]);
        assert!(painted.starts_with("\x1b[") && painted.ends_with("x\x1b[0m"), "{:?}", painted);
        assert!(!seen.contains(&painted));
        seen.push(painted);
    }
    assert_eq!(styled(&vec![Segment { text: "x".to_string(), style: Style::Plain }]), "x");
}

#[test]
fn display_command_shows_one_line_after_a_prompt_sign() {
    let shown = display_command("echo hi", 80);
    assert_eq!(plain(&shown.segments), "$ echo hi\n");
    assert_eq!(
        shown.segments,
        vec![
            Segment { text: "$".to_string(), style: Style::Cyan },
            Segment { text: " ".to_string(), style: Style::Plain },
            Segment { text: "echo hi".to_string(), style: Style::BrightWhiteBold },
            Segment { text: "\n".to_string(), style: Style::Plain },
        ]
    );
}

#[test]
fn display_command_shows_several_lines_under_a_heading() {
    let shown = display_command("echo hi\necho bye", 80);
    assert_eq!(plain(&shown.segments), "> multiline command:\n$ echo hi\n$ echo bye\n");
    assert_eq!(shown.segments[6].style, Style::BrightWhite);
    // no line at all is shown under the heading too
    let none = display_command("", 80);
    assert_eq!(plain(&none.segments), "> multiline command:\n");
    assert_eq!(none.rows, 1);
}

#[test]
fn display_command_counts_wrapped_rows() {
    // "$ " and ten characters at a width of five
    assert_eq!(display_command("0123456789", 5).rows, 3);
    // the heading takes four rows of five columns, the lines two and one
    assert_eq!(display_command("abcdef\nab", 5).rows, 4 + 2 + 1);
}

#[test]
fn display_explanation_shows_line_by_line() {
    let shown = display_explanation_with("a <b>b</b>\nc", 80, false);
    assert_eq!(plain(&shown.segments), "a b\nc\n");
    assert_eq!(shown.rows, 2);
    let bold = display_explanation_with("a <b>b</b>\nc", 3, true);
    assert_eq!(plain(&bold.segments), "a \x1b[1mb\x1b[22m\nc\n");
    assert_eq!(bold.rows, 2);
    assert_eq!(bold.segments[0].style, Style::BrightWhite);
}

#[test]
fn the_prompt_takes_two_rows() {
    let with = confirmation_prompt(true, 80);
    assert_eq!(
        plain(&with.segments),
        "Run this? (Y/e/n)\n[Y/Enter] to execute, [E] to explain, [Arrow Up] to edit, [N] to cancel"
    );
    assert_eq!(with.rows, 2);
    let without = confirmation_prompt(false, 80);
    assert_eq!(
        plain(&without.segments),
        "Run this? (Y/n)\n[Y/Enter] to execute, [Arrow Up] to edit, [N] to cancel"
    );
    assert_eq!(without.rows, 2);
    // 17 and 71 characters at a width of 20
    assert_eq!(confirmation_prompt(true, 20).rows, 1 + 4);
    assert_eq!(confirmation_prompt(false, 20).rows, 1 + 3);
}

#[test]
fn keys_decide() {
    let yes = ConfirmOutcome::Decided(ConfirmResult::Yes);
    for with_explain in [true, false] {
        assert_eq!(decide(KeyEvent::Enter, with_explain), yes);
        assert_eq!(decide(KeyEvent::Char('y'), with_explain), yes);
        assert_eq!(decide(KeyEvent::Char('Y'), with_explain), yes);
        assert_eq!(decide(KeyEvent::Char('n'), with_explain), ConfirmOutcome::Decided(ConfirmResult::Cancel));
        assert_eq!(decide(KeyEvent::Char('N'), with_explain), ConfirmOutcome::Decided(ConfirmResult::Cancel));
        assert_eq!(decide(KeyEvent::ArrowUp, with_explain), ConfirmOutcome::Decided(ConfirmResult::Edit));
        assert_eq!(decide(KeyEvent::EndOfInput, with_explain), ConfirmOutcome::Decided(ConfirmResult::No));
        assert_eq!(decide(KeyEvent::Interrupt, with_explain), ConfirmOutcome::Interrupted);
        for key in [KeyEvent::Char('x'), KeyEvent::Backspace, KeyEvent::Delete, KeyEvent::ArrowLeft, KeyEvent::ArrowRight, KeyEvent::Home, KeyEvent::End, KeyEvent::Unrecognized] {
            assert_eq!(decide(key, with_explain), ConfirmOutcome::Waiting);
        }
    }
    assert_eq!(decide(KeyEvent::Char('e'), true), ConfirmOutcome::Decided(ConfirmResult::Explain));
    assert_eq!(decide(KeyEvent::Char('E'), true), ConfirmOutcome::Decided(ConfirmResult::Explain));
    assert_eq!(decide(KeyEvent::Char('e'), false), ConfirmOutcome::Waiting);
    assert_eq!(decide(KeyEvent::Char('E'), false), ConfirmOutcome::Waiting);
}

fn erase(n: usize) -> String {
    nlsh_rs::layout::erase_rows(n)
}

#[test]
fn acceptance_keeps_the_command_on_the_screen() {
    let step = confirm_key(KeyEvent::Enter, true, 3, 0, 2);
    assert_eq!(plain(&step.output), erase(2));
    let step = confirm_key(KeyEvent::Char('y'), false, 3, 4, 2);
    assert_eq!(plain(&step.output), erase(6));
}

#[test]
fn explaining_erases_the_prompt_only() {
    let step = confirm_key(KeyEvent::Char('e'), true, 3, 0, 2);
    assert_eq!(step.outcome, ConfirmOutcome::Decided(ConfirmResult::Explain));
    assert_eq!(plain(&step.output), erase(2));
}

#[test]
fn everything_else_erases_everything() {
    let step = confirm_key(KeyEvent::ArrowUp, true, 3, 0, 2);
    assert_eq!(plain(&step.output), erase(5));
    let step = confirm_key(KeyEvent::ArrowUp, false, 3, 4, 2);
    assert_eq!(plain(&step.output), erase(9));
    for key in [KeyEvent::Char('n'), KeyEvent::Interrupt, KeyEvent::EndOfInput] {
        let step = confirm_key(key, false, 3, 4, 2);
        assert_eq!(plain(&step.output), format!("{}\x1b[?25h", erase(9)));
    }
    let step = confirm_key(KeyEvent::Char('x'), true, 3, 0, 2);
    assert_eq!(step.outcome, ConfirmOutcome::Waiting);
    assert!(step.output.is_empty());
}

#[test]
fn row_sums_saturate() {
    // the sum of the rows is formed whatever the key, and must not overflow
    let step = confirm_key(KeyEvent::Char('x'), true, usize::MAX, 7, usize::MAX);
    assert_eq!(step.outcome, ConfirmOutcome::Waiting);
    assert!(step.output.is_empty());
}

#[test]
fn a_session_that_is_not_interactive_says_yes_without_reading() {
    let run = confirm_with_explain(1, false, 80, b"n");
    assert_eq!(run.outcome, ConfirmOutcome::Decided(ConfirmResult::Yes));
    assert_eq!(run.consumed, 0);
    assert!(run.output.is_empty());
    let run = confirm_execution(1, 1, false, 80, b"\x03");
    assert_eq!(run.outcome, ConfirmOutcome::Decided(ConfirmResult::Yes));
    assert_eq!(run.consumed, 0);
    assert!(run.output.is_empty());
}

#[test]
fn is_interactive_follows_the_terminal_and_the_override() {
    assert!(!is_interactive_terminal(false, false));
    assert!(is_interactive_terminal(true, false));
    assert!(is_interactive_terminal(false, true));
    assert!(is_interactive_terminal(true, true));
}

#[test]
fn confirmation_passes_over_keys_that_decide_nothing() {
    let run = confirm_with_explain(1, true, 80, b"x\x1b[D\x1b[3~qn rest");
    assert_eq!(run.outcome, ConfirmOutcome::Decided(ConfirmResult::Cancel));
    assert_eq!(run.consumed, 10);
    let prompt = plain(&confirmation_prompt(true, 80).segments);
    assert_eq!(plain(&run.output), format!("{}{}\x1b[?25h", prompt, erase(3)));
}

#[test]
fn confirmation_without_explain_ignores_e() {
    let run = confirm_execution(1, 2, true, 80, b"ey");
    assert_eq!(run.outcome, ConfirmOutcome::Decided(ConfirmResult::Yes));
    assert_eq!(run.consumed, 2);
    let prompt = plain(&confirmation_prompt(false, 80).segments);
    assert_eq!(plain(&run.output), format!("{}{}", prompt, erase(4)));
    let run = confirm_with_explain(1, true, 80, b"ey");
    assert_eq!(run.outcome, ConfirmOutcome::Decided(ConfirmResult::Explain));
    assert_eq!(run.consumed, 1);
}

#[test]
fn confirmation_declines_at_the_end_of_input() {
    let run = confirm_with_explain(2, true, 80, b"");
    assert_eq!(run.outcome, ConfirmOutcome::Decided(ConfirmResult::No));
    assert_eq!(run.consumed, 0);
    let run = confirm_with_explain(2, true, 80, b"xx\x1b[");
    assert_eq!(run.outcome, ConfirmOutcome::Decided(ConfirmResult::No));
    assert_eq!(run.consumed, 4);
    let run = confirm_with_explain(2, true, 80, b"\x03y");
    assert_eq!(run.outcome, ConfirmOutcome::Interrupted);
    assert_eq!(run.consumed, 1);
}

#[test]
fn editing_with_enter_alone_returns_the_text_unchanged() {
    for text in ["echo mock", "", "  spaced  ", "日本語 ✅", "a\tb"] {
        for enter in [b"\n", b"\r"] {
            let run = edit_command(text, enter, 80);
            assert_eq!(run.result, EditResult::Accepted(text.to_string()));
            assert_eq!(run.consumed, 1);
        }
    }
}

#[test]
fn edit_command_applies_the_keys() {
    let run = edit_command("echo mock", b" suffix\nrest", 80);
    assert_eq!(run.result, EditResult::Accepted("echo mock suffix".to_string()));
    assert_eq!(run.consumed, 8);
    let run = edit_command("echo mock", b"\x7f\x7f\n", 80);
    assert_eq!(run.result, EditResult::Accepted("echo mo".to_string()));
    let run = edit_command("echo mock", b"\x1b[D\x1b[3~\n", 80);
    assert_eq!(run.result, EditResult::Accepted("echo moc".to_string()));
    let run = edit_command("echo mock", b"\x1b[1~X\x1b[4~Y\x1b[A\x1b[B\n", 80);
    assert_eq!(run.result, EditResult::Accepted("Xecho mockY".to_string()));
}

#[test]
fn edit_command_ends_without_a_result() {
    let run = edit_command("echo mock", b"abc", 80);
    assert_eq!(run.result, EditResult::Cancelled);
    assert_eq!(run.consumed, 3);
    let run = edit_command("echo mock", b"", 80);
    assert_eq!(run.result, EditResult::Cancelled);
    let run = edit_command("echo mock", b"ab\x03c\n", 80);
    assert_eq!(run.result, EditResult::Interrupted);
    assert_eq!(run.consumed, 3);
    assert!(plain(&run.output).ends_with("\x1b[?25h"));
}

#[test]
fn edit_command_writes_the_editor_and_every_redraw() {
    let run = edit_command("ls", b"a\n", 80);
    assert_eq!(
        plain(&run.output),
        "$ ls\n[Enter] to confirm, [Ctrl+C] to quit\x1b[1A\x1b[5G\
         \r\x1b[K$ lsa\x1b[6G\
         \x1b[1B\r\x1b[K\x1b[1A\r\x1b[K"
    );
}
