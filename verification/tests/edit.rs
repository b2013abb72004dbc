use nlsh_rs::interactive::accept_line;
use nlsh_rs::session::{propose, run_session, Generation, Mode, SessionEnd, SessionRun};

const CMD: &str = "echo mock";
const EXPL: &str = "✅ explain mock";

// The first response is the generated command, the others are explanations.
fn run(stdin: &[u8], responses: &[&str]) -> SessionRun {
    let command = propose(Generation::Completed(responses[0].to_string())).unwrap();
    let explanations: Vec<String> = responses[1..].iter().map(|s| s.to_string()).collect();
    run_session(&command, true, 80, false, stdin, &explanations)
}

// The exit code of a single request.
fn status_code(out: &SessionRun) -> Option<i32> {
    Some(out.end.exit_code(Mode::Single).unwrap_or(0))
}

// What running the session's command prints: the words after `echo`.
fn stdout(out: &SessionRun) -> String {
    match &out.end {
        SessionEnd::Execute(command) => match command.strip_prefix("echo ") {
            Some(rest) => rest.trim().to_string(),
            None => String::new(),
        },
        _ => String::new(),
    }
}

fn command(out: &SessionRun) -> Option<&str> {
    match &out.end {
        SessionEnd::Execute(command) => Some(command.as_str()),
        _ => None,
    }
}

fn success(out: &SessionRun) -> bool {
    status_code(out) == Some(0)
}

#[test]
fn confirm_y_executes_command() {
    let out = run(b"y", &[CMD]);
    assert!(success(&out));
    assert_eq!(stdout(&out), "mock");
}

#[test]
fn confirm_enter_executes_command() {
    let out = run(b"\n", &[CMD]);
    assert!(success(&out));
    assert_eq!(stdout(&out), "mock");
}

#[test]
fn confirm_n_prints_nothing() {
    let out = run(b"n", &[CMD]);
    assert_eq!(status_code(&out), Some(130));
    assert_eq!(stdout(&out), "");
}

#[test]
fn confirm_n_cancels_without_an_interrupt() {
    let out = run(b"n", &[CMD]);
    assert_eq!(out.end, SessionEnd::Cancelled);
    assert_ne!(out.end, SessionEnd::Interrupted);
    assert_eq!(out.consumed, 1);
    // what follows is for the caller to say: a dialogue goes on
    assert_eq!(out.end.exit_code(Mode::Interactive), None);
    assert_eq!(out.end.exit_code(Mode::Single), Some(130));
    let out = run(b"\x03", &[CMD]);
    assert_eq!(out.end, SessionEnd::Interrupted);
    assert_eq!(out.end.exit_code(Mode::Interactive), Some(130));
}

#[test]
fn edit_no_change() {
    let out = run(b"\x1b[A\ny", &[CMD]);
    assert!(success(&out));
    assert_eq!(stdout(&out), "mock");
}

#[test]
fn edit_append_suffix() {
    let out = run(b"\x1b[A suffix\ny", &[CMD]);
    assert!(success(&out));
    assert_eq!(stdout(&out), "mock suffix");
    assert_eq!(command(&out), Some("echo mock suffix"));
}

#[test]
fn edit_backspace_removes_chars() {
    let out = run(b"\x1b[A\x7f\x7f\ny", &[CMD]);
    assert!(success(&out));
    assert_eq!(stdout(&out), "mo");
    assert_eq!(command(&out), Some("echo mo"));
}

#[test]
fn edit_delete_key_removes_char_at_cursor() {
    let out = run(b"\x1b[A\x1b[D\x1b[3~\ny", &[CMD]);
    assert!(success(&out));
    assert_eq!(stdout(&out), "moc");
}

#[test]
fn edit_left_then_insert_char() {
    let out = run(b"\x1b[A\x1b[D\x1b[D\x1b[D\x1b[DX\x1b[F\ny", &[CMD]);
    assert!(success(&out));
    assert_eq!(stdout(&out), "Xmock");
}

#[test]
fn edit_home_then_insert_prefix() {
    let out = run(b"\x1b[A\x1b[Hprefix \ny", &[CMD]);
    assert!(success(&out));
    assert_eq!(stdout(&out), "");
    assert_eq!(command(&out), Some("prefix echo mock"));
}

#[test]
fn edit_insert_at_start_delete_from_end() {
    let out = run(b"\x1b[A\x1b[HX\x1b[F\x7f\ny", &[CMD]);
    assert!(success(&out));
    assert_eq!(stdout(&out), "");
    assert_eq!(command(&out), Some("Xecho moc"));
}

#[test]
fn edit_right_at_end_is_noop() {
    let out = run(b"\x1b[A\x1b[C\ny", &[CMD]);
    assert!(success(&out));
    assert_eq!(stdout(&out), "mock");
}

#[test]
fn edit_twice_accumulates() {
    let out = run(b"\x1b[A a\n\x1b[A b\ny", &[CMD]);
    assert!(success(&out));
    assert_eq!(stdout(&out), "mock a b");
}

#[test]
fn explain_then_y_executes_command() {
    let out = run(b"ey", &[CMD, EXPL]);
    assert!(success(&out));
    assert_eq!(stdout(&out), "mock");
    assert_eq!(out.answered, 1);
}

#[test]
fn explain_then_n_prints_nothing() {
    let out = run(b"en", &[CMD, EXPL]);
    assert_eq!(status_code(&out), Some(130));
    assert_eq!(stdout(&out), "");
}

#[test]
fn explain_then_enter_executes_command() {
    let out = run(b"e\n", &[CMD, EXPL]);
    assert!(success(&out));
    assert_eq!(stdout(&out), "mock");
}

#[test]
fn explain_then_edit_then_y() {
    let out = run(b"e\x1b[A fix\ny", &[CMD, EXPL]);
    assert!(success(&out));
    assert_eq!(stdout(&out), "mock fix");
}

#[test]
fn explain_then_edit_then_explain_again_then_y() {
    let out = run(b"e\x1b[A fix\ney", &[CMD, EXPL, EXPL]);
    assert!(success(&out));
    assert_eq!(stdout(&out), "mock fix");
    assert_eq!(out.answered, 2);
}

#[test]
fn edit_then_explain_then_y() {
    let out = run(b"\x1b[A fix\ney", &[CMD, EXPL]);
    assert!(success(&out));
    assert_eq!(stdout(&out), "mock fix");
}

#[test]
fn edit_then_explain_then_n() {
    let out = run(b"\x1b[A fix\nen", &[CMD, EXPL]);
    assert_eq!(status_code(&out), Some(130));
    assert_eq!(stdout(&out), "");
}

#[test]
fn edit_explain_edit_again_then_y() {
    let out = run(b"\x1b[A a\ne\x1b[A b\ny", &[CMD, EXPL]);
    assert!(success(&out));
    assert_eq!(stdout(&out), "mock a b");
}

#[test]
fn interactive_mode_edit_then_execute() {
    // the first line of the input is the request, the rest are key presses
    let stdin: &[u8] = b"show files\n\x1b[A after\ny";
    let newline = stdin.iter().position(|b| *b == b'\n').unwrap();
    let request = accept_line(std::str::from_utf8(&stdin[..newline]).unwrap());
    assert_eq!(request.as_deref(), Some("show files"));
    let out = run(&stdin[newline + 1..], &["echo before"]);
    assert_eq!(out.end.exit_code(Mode::Interactive), None);
    assert!(success(&out), "end: {:?}", out.end);
    let output = stdout(&out);
    assert!(
        output.contains("before after"),
        "expected executed output to contain 'before after', got: {output}"
    );
}
