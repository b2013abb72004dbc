use nlsh_rs::confirmation::{confirmation_prompt, display_command, display_explanation_with};
use nlsh_rs::editor::EditBuffer;
use nlsh_rs::keys::KeyEvent;
use nlsh_rs::layout::erase_rows;
use nlsh_rs::session::{
    run_session, Generation, Mode, Phase, Reaction, Request, Session, SessionEnd, SessionRun,
};
use nlsh_rs::error::NlshError;
use nlsh_rs::style::{plain, Segment, Style};

fn start(command: &str) -> (Session, Reaction) {
    Session::start(command, true, 80)
}

fn prompt(with_explain: bool) -> String {
    plain(&confirmation_prompt(with_explain, 80).segments)
}

#[test]
fn a_session_starts_by_showing_the_command_and_the_prompt() {
    let (session, first) = start("echo hi");
    assert_eq!(session.phase(), Phase::Deciding);
    assert_eq!(session.command(), "echo hi");
    assert_eq!(first.next, Request::Key);
    assert_eq!(plain(&first.output), format!("$ echo hi\n{}", prompt(true)));
}

#[test]
fn a_session_that_is_not_interactive_runs_the_command_at_once() {
    let (session, first) = Session::start("echo hi", false, 80);
    assert_eq!(session.phase(), Phase::Ended);
    assert_eq!(first.next, Request::Finish(SessionEnd::Execute("echo hi".to_string())));
    assert_eq!(plain(&first.output), "$ echo hi\n");
    let run = run_session("echo hi", false, 80, false, b"n", &vec!["x".to_string()]);
    assert_eq!(run.end, SessionEnd::Execute("echo hi".to_string()));
    assert_eq!((run.consumed, run.answered), (0, 0));
}

#[test]
fn acceptance_erases_the_prompt_and_keeps_the_command() {
    let (mut session, _) = start("echo hi");
    let reaction = session.on_key(KeyEvent::Char('y'), 80);
    assert_eq!(reaction.next, Request::Finish(SessionEnd::Execute("echo hi".to_string())));
    assert_eq!(plain(&reaction.output), erase_rows(2));
    assert_eq!(session.phase(), Phase::Ended);
}

#[test]
fn keys_that_decide_nothing_leave_the_session_as_it_is() {
    let (mut session, _) = start("echo hi");
    for key in [KeyEvent::Char('x'), KeyEvent::ArrowLeft, KeyEvent::Backspace, KeyEvent::Unrecognized] {
        let reaction = session.on_key(key, 80);
        assert_eq!(reaction.next, Request::Key);
        assert!(reaction.output.is_empty());
        assert_eq!(session.phase(), Phase::Deciding);
    }
}

#[test]
fn cancelling_erases_everything_and_shows_the_cursor() {
    let (mut session, _) = start("echo hi");
    let reaction = session.on_key(KeyEvent::Char('n'), 80);
    assert_eq!(reaction.next, Request::Finish(SessionEnd::Cancelled));
    assert_eq!(plain(&reaction.output), format!("{}\x1b[?25h", erase_rows(3)));
    let (mut session, _) = start("echo hi");
    let reaction = session.on_key(KeyEvent::Char('N'), 80);
    assert_eq!(reaction.next, Request::Finish(SessionEnd::Cancelled));
    assert_eq!(SessionEnd::Cancelled.exit_code(Mode::Single), Some(130));
    assert_eq!(SessionEnd::Cancelled.exit_code(Mode::Interactive), None);
}

#[test]
fn interrupt_and_end_of_input_end_the_session() {
    let (mut session, _) = start("echo hi");
    let reaction = session.on_key(KeyEvent::Interrupt, 80);
    assert_eq!(reaction.next, Request::Finish(SessionEnd::Interrupted));
    let (mut session, _) = start("echo hi");
    let reaction = session.on_key(KeyEvent::EndOfInput, 80);
    assert_eq!(reaction.next, Request::Finish(SessionEnd::Declined));
    assert_eq!(plain(&reaction.output), format!("{}\x1b[?25h", erase_rows(3)));
}

#[test]
fn editing_opens_the_editor_on_the_command() {
    let (mut session, _) = start("echo hi");
    let reaction = session.on_key(KeyEvent::ArrowUp, 80);
    assert_eq!(reaction.next, Request::Key);
    assert_eq!(session.phase(), Phase::Editing);
    let editor = plain(&EditBuffer::new("echo hi").open());
    assert_eq!(plain(&reaction.output), format!("{}{}", erase_rows(3), editor));
    // `y` is a character now
    let reaction = session.on_key(KeyEvent::Char('y'), 80);
    assert_eq!(reaction.next, Request::Key);
    assert_eq!(plain(&reaction.output), "\r\x1b[K$ echo hiy\x1b[11G");
    // Enter shows the revised command and asks anew
    let reaction = session.on_key(KeyEvent::Enter, 80);
    assert_eq!(reaction.next, Request::Key);
    assert_eq!(session.phase(), Phase::Deciding);
    assert_eq!(session.command(), "echo hiy");
    assert_eq!(
        plain(&reaction.output),
        format!("\x1b[1B{}$ echo hiy\n{}", erase_rows(2), prompt(true))
    );
}

#[test]
fn leaving_the_editor_without_a_result_ends_the_session() {
    let (mut session, _) = start("echo hi");
    session.on_key(KeyEvent::ArrowUp, 80);
    let reaction = session.on_key(KeyEvent::EndOfInput, 80);
    assert_eq!(reaction.next, Request::Finish(SessionEnd::Cancelled));
    let (mut session, _) = start("echo hi");
    session.on_key(KeyEvent::ArrowUp, 80);
    let reaction = session.on_key(KeyEvent::Interrupt, 80);
    assert_eq!(reaction.next, Request::Finish(SessionEnd::Interrupted));
    assert!(plain(&reaction.output).ends_with("\x1b[?25h"));
}

#[test]
fn an_explanation_is_shown_below_the_command() {
    let (mut session, _) = start("echo hi");
    let reaction = session.on_key(KeyEvent::Char('e'), 80);
    assert_eq!(reaction.next, Request::Explanation);
    assert_eq!(session.phase(), Phase::Explaining);
    assert_eq!(plain(&reaction.output), format!("{}explaining...", erase_rows(2)));
    assert_eq!(
        reaction.output.last(),
        Some(&Segment { text: "explaining...".to_string(), style: Style::Gray })
    );
    let answer = Generation::Completed("echo hi\n✅ prints <b>hi</b>\nnothing else".to_string());
    let reaction = session.explained(answer, 80, false);
    assert_eq!(reaction.next, Request::Key);
    assert_eq!(session.phase(), Phase::DecidingExplained);
    assert_eq!(
        plain(&reaction.output),
        format!("\r\x1b[K✅ prints hi\nnothing else\n{}", prompt(false))
    );
    // the explanation goes on acceptance, the command stays
    let reaction = session.on_key(KeyEvent::Enter, 80);
    assert_eq!(reaction.next, Request::Finish(SessionEnd::Execute("echo hi".to_string())));
    assert_eq!(plain(&reaction.output), erase_rows(2 + 2));
}

#[test]
fn no_second_explanation_is_offered() {
    let (mut session, _) = start("echo hi");
    session.on_key(KeyEvent::Char('e'), 80);
    session.explained(Generation::Completed("one line".to_string()), 80, false);
    let reaction = session.on_key(KeyEvent::Char('e'), 80);
    assert_eq!(reaction.next, Request::Key);
    assert!(reaction.output.is_empty());
    // everything goes when the command is edited
    let reaction = session.on_key(KeyEvent::ArrowUp, 80);
    assert!(plain(&reaction.output).starts_with(&format!("{}$ echo hi\n", erase_rows(1 + 1 + 2))));
}

#[test]
fn a_failed_explanation_ends_the_session() {
    let (mut session, _) = start("echo hi");
    session.on_key(KeyEvent::Char('E'), 80);
    let reaction = session.explained(Generation::Failed(NlshError::InvalidApiKey), 80, false);
    assert_eq!(reaction.next, Request::Finish(SessionEnd::Failed(NlshError::InvalidApiKey)));
    assert_eq!(plain(&reaction.output), "\r\x1b[K");
    let (mut session, _) = start("echo hi");
    session.on_key(KeyEvent::Char('e'), 80);
    let reaction = session.explained(Generation::Cancelled, 80, false);
    assert_eq!(reaction.next, Request::Finish(SessionEnd::Aborted));
}

#[test]
fn on_explanation_follows_the_colour_setting() {
    let (mut session, _) = start("echo hi");
    session.on_key(KeyEvent::Char('e'), 80);
    colored::control::set_override(true);
    let reaction = session.on_explanation(Generation::Completed("<b>x</b>".to_string()), 80);
    assert!(plain(&reaction.output).starts_with("\r\x1b[K\x1b[1mx\x1b[22m\n"));
}

fn run(stdin: &[u8], explanations: &[&str]) -> SessionRun {
    let list: Vec<String> = explanations.iter().map(|s| s.to_string()).collect();
    run_session("echo mock", true, 80, false, stdin, &list)
}

#[test]
fn a_run_writes_what_its_steps_write() {
    let out = run(b"x\x1b[A!\ney", &["it echoes"]);
    assert_eq!(out.end, SessionEnd::Execute("echo mock!".to_string()));
    assert_eq!((out.consumed, out.answered), (8, 1));
    let (mut session, first) = start("echo mock");
    let mut expected = plain(&first.output);
    for key in [KeyEvent::Char('x'), KeyEvent::ArrowUp, KeyEvent::Char('!'), KeyEvent::Enter, KeyEvent::Char('e')] {
        expected.push_str(&plain(&session.on_key(key, 80).output));
    }
    expected.push_str(&plain(
        &session.explained(Generation::Completed("it echoes".to_string()), 80, false).output,
    ));
    expected.push_str(&plain(&session.on_key(KeyEvent::Char('y'), 80).output));
    assert_eq!(plain(&out.output), expected);
}

#[test]
fn a_run_stops_at_the_key_that_ends_it() {
    let out = run(b"yn", &[]);
    assert_eq!(out.end, SessionEnd::Execute("echo mock".to_string()));
    assert_eq!(out.consumed, 1);
    let out = run(b"", &[]);
    assert_eq!(out.end, SessionEnd::Declined);
    assert_eq!(out.consumed, 0);
    let out = run(b"\x1b[Aab", &[]);
    assert_eq!(out.end, SessionEnd::Cancelled);
    assert_eq!(out.consumed, 5);
    let out = run(b"\x1b[Aa\x03b", &[]);
    assert_eq!(out.end, SessionEnd::Interrupted);
    assert_eq!(out.consumed, 5);
}

#[test]
fn a_request_beyond_the_given_explanations_counts_as_cancelled() {
    let out = run(b"ey", &[]);
    assert_eq!(out.end, SessionEnd::Aborted);
    assert_eq!((out.consumed, out.answered), (1, 0));
    let out = run(b"e\x1b[A\ney", &["first"]);
    assert_eq!(out.end, SessionEnd::Aborted);
    assert_eq!((out.consumed, out.answered), (6, 1));
}

#[test]
fn rows_follow_the_width_at_the_time() {
    // the command takes two rows of ten columns, the prompt 2 + 8
    let (mut session, first) = Session::start("echo 0123456789", true, 10);
    assert_eq!(display_command("echo 0123456789", 10).rows, 2);
    assert_eq!(confirmation_prompt(true, 10).rows, 10);
    assert!(plain(&first.output).starts_with("$ echo 0123456789\n"));
    let reaction = session.on_key(KeyEvent::Char('e'), 10);
    assert_eq!(plain(&reaction.output), format!("{}explaining...", erase_rows(10)));
    let reaction = session.explained(Generation::Completed("0123456789ab".to_string()), 10, false);
    assert_eq!(display_explanation_with("0123456789ab", 10, false).rows, 2);
    assert!(plain(&reaction.output).starts_with("\r\x1b[K0123456789ab\n"));
    let reaction = session.on_key(KeyEvent::Char('n'), 10);
    assert_eq!(plain(&reaction.output), format!("{}\x1b[?25h", erase_rows(2 + 2 + 8)));
}
