use nlsh_rs::prompt::{
    clean_explanation, clean_response, create_explain_prompt, create_prompts,
    create_system_prompt, validate_explain_prompt, validate_sys_prompt, PromptContext,
    DEFAULT_EXPLAIN_PROMPT, DEFAULT_PROMPT_TEMPLATE,
};

#[test]
fn default_explain_prompt_has_command_placeholder() {
    assert!(DEFAULT_EXPLAIN_PROMPT.contains("{command}"));
}

#[test]
fn validate_explain_prompt_accepts_valid_template() {
    assert!(validate_explain_prompt("explain: {command}"));
}

#[test]
fn validate_explain_prompt_rejects_missing_placeholder() {
    assert!(!validate_explain_prompt("explain this command"));
}

#[test]
fn validate_sys_prompt_accepts_valid_template() {
    assert!(validate_sys_prompt("do this: {request}"));
}

#[test]
fn validate_sys_prompt_rejects_missing_placeholder() {
    assert!(!validate_sys_prompt("do something"));
}

#[test]
fn create_explain_prompt_substitutes_command_in_default() {
    let result = create_explain_prompt("echo hi", None);
    assert!(result.contains("echo hi"));
    assert!(!result.contains("{command}"));
}

#[test]
fn create_explain_prompt_substitutes_command_in_custom_template() {
    let result = create_explain_prompt("ls -la", Some("run: {command}"));
    assert_eq!(result, "run: ls -la");
}

#[test]
fn create_explain_prompt_handles_multiword_command() {
    let result = create_explain_prompt("git log --oneline", Some("{command}"));
    assert_eq!(result, "git log --oneline");
}

#[test]
fn clean_explanation_removes_leading_command() {
    let result = clean_explanation("free -h\nShows memory usage.", "free -h");
    assert_eq!(result, "Shows memory usage.");
}

#[test]
fn clean_explanation_leaves_unrelated_response() {
    let result = clean_explanation("Shows memory usage.", "free -h");
    assert_eq!(result, "Shows memory usage.");
}

#[test]
fn clean_explanation_handles_command_with_space() {
    let result = clean_explanation("free -h Shows memory usage.", "free -h");
    assert_eq!(result, "Shows memory usage.");
}

#[test]
fn clean_explanation_keeps_response_that_only_starts_alike() {
    let result = clean_explanation("free -hx shows memory", "free -h");
    assert_eq!(result, "free -hx shows memory");
}

#[test]
fn clean_explanation_of_the_bare_command_is_empty() {
    assert_eq!(clean_explanation("  free -h  ", " free -h"), "");
}

#[test]
fn clean_response_trims_white_space() {
    assert_eq!(clean_response("  ls -la \n"), "ls -la");
}

#[test]
fn clean_response_removes_code_fence() {
    assert_eq!(clean_response("```bash\nls -la\n```"), "ls -la");
    assert_eq!(clean_response("```\necho hi\n```\n"), "echo hi");
    assert_eq!(clean_response("```shell\necho hi```"), "echo hi");
    assert_eq!(clean_response("```zsh\necho hi\n```"), "echo hi");
}

#[test]
fn clean_response_removes_shell_names_in_order() {
    // `sh` goes last, so the `sh` left by `shellbash` after `shell` and `bash` went stays away too
    assert_eq!(clean_response("```shellbashzshsh ls```"), "ls");
    // a fence only inside the text is kept
    assert_eq!(clean_response("echo ```"), "echo ```");
}

#[test]
fn clean_response_is_the_same_as_the_string_api() {
    let inputs = ["", "   ", "``````sh", "```sh```", "plain", "```shshsh echo```\n```"];
    for input in inputs {
        let mut cleaned = input.trim();
        if cleaned.starts_with("```") {
            cleaned = cleaned.trim_start_matches("```");
            cleaned = cleaned
                .trim_start_matches("shell")
                .trim_start_matches("bash")
                .trim_start_matches("zsh")
                .trim_start_matches("sh");
            cleaned = cleaned.trim_end_matches("```");
        }
        assert_eq!(clean_response(input), cleaned.trim());
    }
}

fn context() -> PromptContext {
    PromptContext {
        os: "linux".to_string(),
        cwd: "/work".to_string(),
        home: "/home/u".to_string(),
        user: "u".to_string(),
        shell: "bash".to_string(),
    }
}

#[test]
fn create_system_prompt_fills_every_placeholder() {
    let result = create_system_prompt(
        "list files",
        Some("{os}|{cwd}|{home}|{user}|{shell}|{request}|{os}"),
        &context(),
    );
    assert_eq!(result, "linux|/work|/home/u|u|bash|list files|linux");
}

#[test]
fn create_system_prompt_uses_the_default_template() {
    let result = create_system_prompt("list files", None, &context());
    assert!(result.ends_with("User request: list files"));
    assert!(result.contains("- Current dir: /work\n"));
    assert!(!result.contains("{request}"));
    assert!(DEFAULT_PROMPT_TEMPLATE.contains("{request}"));
    assert!(!DEFAULT_PROMPT_TEMPLATE.contains("{command}"));
}

#[test]
fn create_system_prompt_replaces_in_replacements_made_earlier() {
    // the request is put in last, so a placeholder that an earlier value brought in is filled too
    let mut ctx = context();
    ctx.user = "{request}".to_string();
    let result = create_system_prompt("X", Some("{user}:{request}"), &ctx);
    assert_eq!(result, "X:X");
}

#[test]
fn create_prompts_writes_what_is_missing() {
    let both = create_prompts(false, false);
    assert_eq!(both.system.as_deref(), Some(DEFAULT_PROMPT_TEMPLATE));
    assert_eq!(both.explain.as_deref(), Some(DEFAULT_EXPLAIN_PROMPT));
    let none = create_prompts(true, true);
    assert!(none.system.is_none() && none.explain.is_none());
    let one = create_prompts(true, false);
    assert!(one.system.is_none());
    assert_eq!(one.explain.as_deref(), Some(DEFAULT_EXPLAIN_PROMPT));
}
