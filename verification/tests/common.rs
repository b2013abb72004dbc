use nlsh_rs::cli::{
    check_edited_prompt, check_for_updates, config_failure, cwd_file_name, effective_template,
    execute_or_print, join_words, print_ok, print_ok_bold, print_warning, prompt_select,
    shell_script, synced_directory, PromptKind,
};
use nlsh_rs::common::{
    expand_home, get_current_directory, get_home_directory, get_kernel_version, get_linux_distro,
    get_linux_info, get_os, get_shell, get_username, handle_interrupt, Platform, ReadFailure,
};
use nlsh_rs::style::{plain, Style};
use nlsh_rs::uninstall::{
    closing_lines, config_report, crate_report, integration_report, is_own_manifest,
    opening_lines, Removal,
};

#[test]
fn empty_command_is_noop() {
    assert!(shell_script("", "/tmp/f").is_none());
    assert!(shell_script("   ", "/tmp/f").is_none());
}

#[test]
fn pipe_command_runs() {
    assert!(shell_script("echo hello | cat", "/tmp/f").is_some());
}

#[test]
fn regular_command_runs_via_shell() {
    assert!(shell_script("echo hello", "/tmp/f").is_some());
}

#[test]
fn multiline_command_runs_via_shell() {
    assert!(shell_script("echo line1\necho line2", "/tmp/f").is_some());
}

#[test]
fn the_script_reports_the_directory_and_keeps_the_status() {
    assert_eq!(
        shell_script("  cd /tmp && ls \n", "/tmp/.nlsh_cwd_42").as_deref(),
        Some("cd /tmp && ls\n__nlsh_rc=$?\npwd > /tmp/.nlsh_cwd_42\nexit $__nlsh_rc")
    );
    assert_eq!(cwd_file_name(42), ".nlsh_cwd_42");
    assert_eq!(cwd_file_name(0), ".nlsh_cwd_0");
    assert_eq!(cwd_file_name(u32::MAX), ".nlsh_cwd_4294967295");
}

#[test]
fn the_reported_directory_is_taken_up() {
    assert_eq!(synced_directory("/tmp\n").as_deref(), Some("/tmp"));
    assert_eq!(synced_directory(" /home/u/my dir \n").as_deref(), Some("/home/u/my dir"));
    assert_eq!(synced_directory("\n"), None);
    assert_eq!(synced_directory(""), None);
}

#[test]
fn the_environment_has_defaults() {
    assert_eq!(get_current_directory(Some("/work")), "/work");
    assert_eq!(get_current_directory(None), "/");
    assert_eq!(get_home_directory(Some("/home/u"), Some("C:\\u")), "/home/u");
    assert_eq!(get_home_directory(None, Some("C:\\u")), "C:\\u");
    assert_eq!(get_home_directory(None, None), "~");
    assert_eq!(get_username(Some("u"), None), "u");
    assert_eq!(get_username(None, Some("v")), "v");
    assert_eq!(get_username(None, None), "user");
}

#[test]
fn the_shell_is_named_by_the_end_of_its_path() {
    assert_eq!(get_shell(Some("/usr/bin/zsh")), "zsh");
    assert_eq!(get_shell(Some("fish")), "fish");
    assert_eq!(get_shell(Some("/bin/")), "");
    assert_eq!(get_shell(Some("")), "");
    assert_eq!(get_shell(None), "sh");
}

#[test]
fn a_tilde_stands_for_the_home_directory() {
    assert_eq!(expand_home("~", "/home/u"), "/home/u");
    assert_eq!(expand_home("~/src/x", "/home/u"), "/home/u/src/x");
    assert_eq!(expand_home("~/", "/home/u"), "/home/u/");
    assert_eq!(expand_home("~user/x", "/home/u"), "~user/x");
    assert_eq!(expand_home("/a/~/b", "/home/u"), "/a/~/b");
    assert_eq!(expand_home("", "/home/u"), "");
}

#[test]
fn the_distribution_is_read_from_the_release_file() {
    let file = "PRETTY_NAME=\"Ubuntu 24.04\"\nNAME=\"Ubuntu\"\nVERSION_ID=\"24.04\"\nID=ubuntu\n";
    assert_eq!(get_linux_distro(Some(file)), "Ubuntu 24.04");
    assert_eq!(get_linux_distro(Some("NAME=Arch Linux\n")), "Arch Linux");
    assert_eq!(get_linux_distro(Some("VERSION_ID=1\n")), "linux");
    assert_eq!(get_linux_distro(Some("")), "linux");
    assert_eq!(get_linux_distro(None), "linux");
    // the last line that sets a field counts, and all quotes around a value go
    assert_eq!(get_linux_distro(Some("NAME=a\nNAME=\"\"b\"\nVERSION_ID=\"\nVERSION_ID=\"2")), "b 2");
    assert_eq!(get_linux_distro(Some("NAME=\"\"\"\r\nVERSION_ID=3\r\n")), " 3");
}

#[test]
fn the_kernel_version_is_trimmed() {
    assert_eq!(get_kernel_version(Some("6.8.0-45\n"), Some("x")), "6.8.0-45");
    assert_eq!(get_kernel_version(None, Some(" 6.1 \n")), "6.1");
    assert_eq!(get_kernel_version(None, None), "unknown");
    assert_eq!(get_kernel_version(Some(""), Some("6.1")), "");
}

#[test]
fn the_operating_system_is_described() {
    assert_eq!(get_linux_info("Ubuntu 24.04", "6.8"), "linux (Ubuntu 24.04; kernel: 6.8)");
    assert_eq!(get_os(Platform::Linux, "Arch", "6.1"), "linux (Arch; kernel: 6.1)");
    assert_eq!(get_os(Platform::MacOs, "Arch", "6.1"), "macOS");
    assert_eq!(get_os(Platform::Windows, "", ""), "Windows");
    assert_eq!(get_os(Platform::Other, "", ""), "Unix");
}

#[test]
fn failed_reads_that_count_as_an_interrupt() {
    assert!(handle_interrupt(ReadFailure::Interrupted));
    assert!(handle_interrupt(ReadFailure::NotConnected));
    assert!(handle_interrupt(ReadFailure::UnexpectedEof));
    assert!(!handle_interrupt(ReadFailure::Other));
}

#[test]
fn report_lines() {
    assert_eq!(plain(&print_ok("done")), "✓ done\n");
    assert_eq!(print_ok("done")[0].style, Style::Green);
    assert_eq!(print_ok_bold("done")[2].style, Style::Bold);
    assert_eq!(plain(&print_warning("careful")), "warning: careful\n");
    assert_eq!(print_warning("careful")[0].style, Style::Yellow);
    assert_eq!(
        plain(&config_failure(true, "x")),
        "error: no API provider configured.\nrun 'nlsh-rs api' to set up your preferred provider.\n"
    );
    assert_eq!(plain(&config_failure(false, "bad toml")), "error: configuration error: bad toml\n");
}

#[test]
fn a_saved_prompt_is_used_where_it_holds_its_placeholder() {
    let good = Some("do {request}".to_string());
    assert_eq!(effective_template(PromptKind::System, good.clone()), good);
    assert_eq!(effective_template(PromptKind::Explain, good), None);
    assert_eq!(effective_template(PromptKind::System, None), None);
    let explain = Some("say {command}".to_string());
    assert_eq!(effective_template(PromptKind::Explain, explain.clone()), explain);
}

#[test]
fn an_edited_prompt_without_its_placeholder_is_complained_of() {
    assert_eq!(check_edited_prompt(PromptKind::System, Some("do {request}")), None);
    assert_eq!(check_edited_prompt(PromptKind::System, None), None);
    assert_eq!(
        plain(&check_edited_prompt(PromptKind::System, Some("do it")).unwrap()),
        "warning: system prompt must contain the {request} placeholder.\n"
    );
    assert_eq!(
        plain(&check_edited_prompt(PromptKind::Explain, Some("{request}")).unwrap()),
        "error: explain-prompt must contain the {command} placeholder.\n"
    );
}

#[test]
fn words_are_joined_by_spaces() {
    let list: Vec<String> = ["show", "disk", "usage"].iter().map(|s| s.to_string()).collect();
    assert_eq!(join_words(&list), "show disk usage");
    assert_eq!(join_words(&vec!["one".to_string()]), "one");
    assert_eq!(join_words(&Vec::new()), "");
    assert_eq!(join_words(&vec![String::new(), String::new()]), " ");
}

#[test]
fn the_selection_is_found_among_the_items() {
    let items: Vec<String> = ["a", "b", "a"].iter().map(|s| s.to_string()).collect();
    assert_eq!(prompt_select(&items, "a", 2), 0);
    assert_eq!(prompt_select(&items, "b", 2), 1);
    assert_eq!(prompt_select(&items, "c", 2), 2);
    assert_eq!(prompt_select(&Vec::new(), "c", 7), 7);
}

#[test]
fn the_command_is_run_where_output_is_a_terminal() {
    assert!(execute_or_print(true, false));
    assert!(execute_or_print(false, true));
    assert!(!execute_or_print(false, false));
}

#[test]
fn another_release_is_an_update() {
    assert!(check_for_updates("1.2.0", "1.1.0"));
    assert!(!check_for_updates("1.1.0", "1.1.0"));
}

#[test]
fn uninstall_reports() {
    assert_eq!(plain(&opening_lines()), "uninstalling nlsh-rs...\n\n");
    assert_eq!(plain(&integration_report(&Removal::Removed)), "✓ removed shell integration\n");
    assert_eq!(plain(&integration_report(&Removal::Nothing)), "  no shell integration found\n");
    assert_eq!(
        plain(&integration_report(&Removal::Failed("denied".to_string()))),
        "warning: failed to remove shell integration: denied\n"
    );
    assert_eq!(plain(&crate_report(true, "not installed")), "✓ uninstalled cargo crate\n");
    assert_eq!(
        plain(&crate_report(false, "error: package 'nlsh-rs' is not installed")),
        "  cargo crate not installed\n"
    );
    assert_eq!(plain(&crate_report(false, " boom \n")), "warning: failed to uninstall: boom\n");
    assert_eq!(plain(&config_report(true)), "✓ removed configuration\n");
    assert_eq!(plain(&config_report(false)), "  no configuration found\n");
    assert!(is_own_manifest("[package]\nname = \"nlsh-rs\"\n"));
    assert!(!is_own_manifest("[package]\nname = \"other\"\n"));
    assert!(plain(&closing_lines()).starts_with("\nnlsh-rs uninstalled successfully!\nplease restart"));
    assert_eq!(closing_lines()[1].style, Style::GreenBold);
}
