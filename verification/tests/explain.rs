use nlsh_rs::cli::{
    config_failure, dispatch, execute_or_print, explain_request, print_error, shown_prompt,
    CliArgs, PromptAction, PromptKind, Subcommands, Task,
};
use nlsh_rs::confirmation::is_interactive_terminal;
use nlsh_rs::error::{NlshError, TransportError};
use nlsh_rs::interactive::accept_line;
use nlsh_rs::prompt::create_explain_prompt;
use nlsh_rs::session::{
    explain_once, propose, run_session, Generation, Mode, SessionEnd, EXIT_FAILURE,
};
use nlsh_rs::style::plain;

fn args(words: &[&str]) -> CliArgs {
    // the command line as the argument parser hands it on
    let rest: Vec<String> = words.iter().skip(1).map(|s| s.to_string()).collect();
    let subcommand = match words.first() {
        Some(&"prompt") => {
            let kind = match rest.first().map(|s| s.as_str()) {
                Some("explain") => PromptKind::Explain,
                Some("system") => PromptKind::System,
                _ => PromptKind::default(),
            };
            let action = match rest.get(1).map(|s| s.as_str()) {
                Some("edit") => PromptAction::Edit,
                Some("show") => PromptAction::Show,
                _ => PromptAction::default(),
            };
            Some(Subcommands::Prompt { kind, action })
        }
        Some(&"explain") => Some(Subcommands::Explain { command: rest.clone() }),
        Some(&"api") => Some(Subcommands::Api),
        Some(&"uninstall") => Some(Subcommands::Uninstall),
        _ => None,
    };
    let command = if subcommand.is_some() {
        Vec::new()
    } else {
        words.iter().map(|s| s.to_string()).collect()
    };
    CliArgs { command, subcommand }
}

// What a prompt command prints, given the prompt that is saved.
fn prompt_stdout(words: &[&str], saved: Option<&str>) -> String {
    match dispatch(args(words)) {
        Task::Prompt { kind, action: PromptAction::Show } => format!("{}\n", shown_prompt(kind, saved)),
        other => panic!("not a prompt command: {:?}", other),
    }
}

#[test]
fn prompt_explain_show_prints_default() {
    let stdout = prompt_stdout(&["prompt", "explain", "show"], None);
    assert!(
        stdout.contains("{command}"),
        "default explain prompt must contain {{command}}, got: {stdout}"
    );
}

#[test]
fn prompt_explain_show_uses_saved_custom_prompt() {
    let stdout = prompt_stdout(&["prompt", "explain", "show"], Some("describe: {command}"));
    assert_eq!(stdout.trim(), "describe: {command}");
}

#[test]
fn prompt_system_show() {
    let stdout = prompt_stdout(&["prompt", "system", "show"], None);
    assert!(
        stdout.contains("{request}"),
        "system prompt must contain {{request}}, got: {stdout}"
    );
    assert!(
        !stdout.contains("{command}"),
        "system prompt must not contain {{command}}"
    );
}

#[test]
fn prompt_bare_equals_system_show() {
    let explicit = prompt_stdout(&["prompt", "system", "show"], None);
    let bare = prompt_stdout(&["prompt"], None);
    assert_eq!(bare, explicit);
    assert_eq!(dispatch(args(&["prompt"])), dispatch(args(&["prompt", "system", "show"])));
}

#[test]
fn explain_and_system_prompts_differ() {
    let explain_out = prompt_stdout(&["prompt", "explain", "show"], None);
    let system_out = prompt_stdout(&["prompt", "system", "show"], None);
    assert_ne!(explain_out, system_out);
}

#[test]
fn explain_subcommand_without_provider_exits_error() {
    let task = dispatch(args(&["explain", "echo", "hi"]));
    assert!(task.requires_provider());
    // no configuration file is found
    let stderr = plain(&config_failure(true, "No such file or directory"));
    assert!(stderr.contains("no API provider configured"), "stderr: {stderr}");
    assert_ne!(EXIT_FAILURE, 0);
}

#[test]
fn explain_subcommand_no_args_exits_error() {
    let task = dispatch(args(&["explain"]));
    assert_eq!(task, Task::Explain(Vec::new()));
    assert!(task.requires_provider());
    assert_eq!(explain_request(&Vec::new()), None);
    assert_ne!(EXIT_FAILURE, 0);
}

#[test]
fn explain_subcommand_with_mock_shows_explanation_in_stderr() {
    let parts = match dispatch(args(&["explain", "echo", "hello"])) {
        Task::Explain(parts) => parts,
        other => panic!("not an explain command: {:?}", other),
    };
    let command = explain_request(&parts).unwrap();
    assert_eq!(command, "echo hello");
    assert!(create_explain_prompt(&command, None).contains("The command to explain is: echo hello\n"));
    let answer = Generation::Completed("✅ echoes hello to stdout".to_string());
    let shown = explain_once(&command, answer, 80, false).unwrap();
    let stderr = plain(&shown);
    assert!(
        stderr.contains("echoes hello to stdout"),
        "explanation not found in stderr: {stderr}"
    );
    assert_eq!(stderr, "✅ echoes hello to stdout\n");
}

#[test]
fn explain_subcommand_reports_an_empty_explanation() {
    // the answer repeats the command and says nothing else
    let shown = explain_once("echo hello", Generation::Completed(" echo hello \n".to_string()), 80, false);
    assert_eq!(plain(&shown.unwrap()), "error: failed to generate a valid explanation.\n");
    let failed = explain_once("ls", Generation::Failed(NlshError::timeout(30)), 80, false);
    assert_eq!(failed, Err(SessionEnd::Failed(NlshError::Timeout { seconds: 30 })));
    assert_eq!(explain_once("ls", Generation::Cancelled, 80, false), Err(SessionEnd::Aborted));
}

// What a single request prints on standard output, neither input nor output being a terminal.
fn piped_stdout(request: &str, response: &str, stdin: &[u8]) -> String {
    assert!(!request.is_empty());
    let interactive = is_interactive_terminal(false, false);
    let command = propose(Generation::Completed(response.to_string())).unwrap();
    let run = run_session(&command, interactive, 80, false, stdin, &Vec::new());
    assert_eq!(run.consumed, 0);
    match run.end {
        SessionEnd::Execute(command) => {
            assert!(!execute_or_print(false, false));
            format!("{}\n", command)
        }
        other => panic!("not accepted: {:?}", other),
    }
}

#[test]
fn single_run_with_mock_executes_command() {
    let task = dispatch(args(&["list files in current directory"]));
    let request = match task {
        Task::Single(request) => request,
        other => panic!("not a single request: {:?}", other),
    };
    assert_eq!(request, "list files in current directory");
    let stdout = piped_stdout(&request, "echo from_mock", b"");
    assert_eq!(stdout.trim(), "echo from_mock");
}

#[test]
fn interactive_mode_with_piped_input_executes_command() {
    assert_eq!(dispatch(args(&[])), Task::Interactive);
    let stdin: &[u8] = b"list files\n";
    let request = accept_line(std::str::from_utf8(&stdin[..10]).unwrap()).unwrap();
    assert_eq!(request, "list files");
    let stdout = piped_stdout(&request, "echo interactive_ok", &stdin[11..]);
    assert!(
        stdout.contains("interactive_ok"),
        "executed command output not in stdout: {stdout}"
    );
}

#[test]
fn connection_failure_prints_pretty_error() {
    let failure = TransportError {
        timeout: false,
        connect: true,
        request: true,
        status: None,
        text: "error sending request".to_string(),
    };
    let error = NlshError::from_reqwest(&failure, "ollama");
    let stderr = plain(&print_error(&error.message()));
    assert!(stderr.contains("error:") && stderr.contains("failed to connect"));
    assert_eq!(
        stderr,
        "error: failed to connect to ollama: cannot connect. check if the service is running and the URL is correct\n"
    );
}

#[test]
fn an_answer_without_a_command_ends_the_session() {
    assert_eq!(propose(Generation::Completed("  \n".to_string())), Err(SessionEnd::EmptyResponse));
    assert_eq!(propose(Generation::Completed("``````".to_string())), Err(SessionEnd::EmptyResponse));
    assert_eq!(propose(Generation::Completed("```sh\nls\n```".to_string())), Ok("ls".to_string()));
    assert_eq!(propose(Generation::Cancelled), Err(SessionEnd::Aborted));
    let failed = propose(Generation::Failed(NlshError::InvalidApiKey));
    assert_eq!(failed, Err(SessionEnd::Failed(NlshError::InvalidApiKey)));
    for mode in [Mode::Single, Mode::Interactive] {
        assert_eq!(SessionEnd::EmptyResponse.exit_code(mode), Some(1));
        assert_eq!(SessionEnd::Failed(NlshError::InvalidApiKey).exit_code(mode), Some(1));
        assert_eq!(SessionEnd::Aborted.exit_code(mode), None);
        assert_eq!(SessionEnd::Declined.exit_code(mode), None);
        assert_eq!(SessionEnd::Execute("ls".to_string()).exit_code(mode), None);
        assert_eq!(SessionEnd::Interrupted.exit_code(mode), Some(130));
    }
}
