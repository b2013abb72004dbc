//! The command line: what the arguments ask for, the lines that report
//! how it went, and what is handed to the shell.

use crate::prompt::{
    validate_explain_prompt, validate_sys_prompt, DEFAULT_EXPLAIN_PROMPT, DEFAULT_PROMPT_TEMPLATE,
};
use crate::style::{line_with_mark, marked_line, pieces, Piece, Segment, Style};
use crate::text::{
    chars_of, contains, decimal, decimal_digits, extend_chars, extend_str, join, joined, str_eq,
    string_of, trim, trimmed, views,
};
use vstd::prelude::*;

verus! {

/// The prompt that a prompt command is about.
#[derive(Debug, Clone, Copy, PartialEq, Eq, Structural)]
pub enum PromptKind {
    System,
    Explain,
}

/// What a prompt command does with the prompt.
#[derive(Debug, Clone, Copy, PartialEq, Eq, Structural)]
pub enum PromptAction {
    Show,
    Edit,
}

impl Default for PromptKind {
    /// A prompt command is about the system prompt unless it says otherwise.
    fn default() -> (kind: PromptKind)
        ensures
            kind == PromptKind::System,
    {
        PromptKind::System
    }
}

impl Default for PromptAction {
    /// A prompt command shows the prompt unless it says otherwise.
    fn default() -> (action: PromptAction)
        ensures
            action == PromptAction::Show,
    {
        PromptAction::Show
    }
}

/// A subcommand of the command line.
#[derive(Debug, Clone, PartialEq, Eq)]
pub enum Subcommands {
    Api,
    Uninstall,
    Prompt { kind: PromptKind, action: PromptAction },
    Explain { command: Vec<String> },
}

/// The arguments of the command line.
#[derive(Debug, Clone, PartialEq, Eq)]
pub struct CliArgs {
    pub command: Vec<String>,
    pub subcommand: Option<Subcommands>,
}

/// What the assistant is asked to do.
#[derive(Debug, Clone, PartialEq, Eq)]
pub enum Task {
    /// Set a provider up.
    Api,
    /// Remove the assistant.
    Uninstall,
    /// Show or edit a prompt.
    Prompt { kind: PromptKind, action: PromptAction },
    /// Explain the command made of the given words.
    Explain(Vec<String>),
    /// Hold a dialogue.
    Interactive,
    /// Answer the one request.
    Single(String),
}

/// The views of a list of strings.
pub open spec fn words(list: Seq<String>) -> Seq<Seq<char>> {
    list.map_values(|s: String| s@)
}

/// The model of a task.
pub enum TaskView {
    Api,
    Uninstall,
    Prompt { kind: PromptKind, action: PromptAction },
    Explain(Seq<Seq<char>>),
    Interactive,
    Single(Seq<char>),
}

impl View for Task {
    type V = TaskView;

    open spec fn view(&self) -> TaskView {
        match self {
            Task::Api => TaskView::Api,
            Task::Uninstall => TaskView::Uninstall,
            Task::Prompt { kind, action } => TaskView::Prompt { kind: *kind, action: *action },
            Task::Explain(command) => TaskView::Explain(words(command@)),
            Task::Interactive => TaskView::Interactive,
            Task::Single(request) => TaskView::Single(request@),
        }
    }
}

/// The task that the arguments ask for: that of the subcommand where there
/// is one; else a dialogue where no words are given, and the request made
/// of the words where there are some.
pub open spec fn task_of(command: Seq<Seq<char>>, subcommand: Option<Subcommands>) -> TaskView {
    match subcommand {
        Some(Subcommands::Api) => TaskView::Api,
        Some(Subcommands::Uninstall) => TaskView::Uninstall,
        Some(Subcommands::Prompt { kind, action }) => TaskView::Prompt { kind, action },
        Some(Subcommands::Explain { command: explained }) => TaskView::Explain(words(explained@)),
        None => if command.len() == 0 {
            TaskView::Interactive
        } else {
            TaskView::Single(joined(command, " "@))
        },
    }
}

/// Whether a task needs a provider: all but setting one up, removing the
/// assistant and handling a prompt.
pub open spec fn needs_provider(task: TaskView) -> bool {
    match task {
        TaskView::Api => false,
        TaskView::Uninstall => false,
        TaskView::Prompt { .. } => false,
        _ => true,
    }
}

/// Joins words by single spaces.
pub fn join_words(list: &Vec<String>) -> (text: String)
    ensures
        text@ == joined(words(list@), " "@),
{
    let mut parts: Vec<Vec<char>> = Vec::new();
    let mut i: usize = 0;
    let ghost all = words(list@);
    assert(views(parts@) =~= all.take(0));
    while i < list.len()
        invariant
            i <= list.len(),
            all == words(list@),
            views(parts@) == all.take(i as int),
        decreases list.len() - i,
    {
        let ghost before = views(parts@);
        parts.push(chars_of(list[i].as_str()));
        i = i + 1;
        assert(views(parts@) =~= before.push(list@[i - 1]@));
        assert(all.take(i as int) =~= before.push(list@[i - 1]@));
    }
    assert(all.take(list.len() as int) =~= all);
    string_of(&join(&parts, &chars_of(" ")))
}

/// Works out what the arguments ask for.
pub fn dispatch(args: CliArgs) -> (task: Task)
    ensures
        task@ == task_of(words(args.command@), args.subcommand),
{
    match args.subcommand {
        Some(Subcommands::Api) => Task::Api,
        Some(Subcommands::Uninstall) => Task::Uninstall,
        Some(Subcommands::Prompt { kind, action }) => Task::Prompt { kind, action },
        Some(Subcommands::Explain { command }) => Task::Explain(command),
        None => {
            if args.command.len() == 0 {
                Task::Interactive
            } else {
                Task::Single(join_words(&args.command))
            }
        },
    }
}

impl Task {
    /// Whether the task needs a provider.
    pub fn requires_provider(&self) -> (needed: bool)
        ensures
            needed == needs_provider(self@),
    {
        match self {
            Task::Api => false,
            Task::Uninstall => false,
            Task::Prompt { .. } => false,
            _ => true,
        }
    }
}

/// The command to explain: the words joined by spaces, where there are
/// any.
pub fn explain_request(cmd_parts: &Vec<String>) -> (command: Option<String>)
    ensures
        command is Some <==> cmd_parts@.len() > 0,
        command matches Some(text) ==> text@ == joined(words(cmd_parts@), " "@),
{
    if cmd_parts.len() == 0 {
        None
    } else {
        Some(join_words(cmd_parts))
    }
}

/// The line that reports a success.
pub fn print_ok(message: &str) -> (line: Vec<Segment>)
    ensures
        pieces(line@) == marked_line("\u{2713}"@, Style::Green, message@, Style::Plain),
{
    line_with_mark("\u{2713}", Style::Green, message, Style::Plain)
}

/// The line that reports a success, in bold.
pub fn print_ok_bold(message: &str) -> (line: Vec<Segment>)
    ensures
        pieces(line@) == marked_line("\u{2713}"@, Style::Green, message@, Style::Bold),
{
    line_with_mark("\u{2713}", Style::Green, message, Style::Bold)
}

/// The line that reports an error.
pub fn print_error(message: &str) -> (line: Vec<Segment>)
    ensures
        pieces(line@) == marked_line("error:"@, Style::RedBold, message@, Style::Plain),
{
    line_with_mark("error:", Style::RedBold, message, Style::Plain)
}

/// The line that gives a warning.
pub fn print_warning(message: &str) -> (line: Vec<Segment>)
    ensures
        pieces(line@) == marked_line("warning:"@, Style::Yellow, message@, Style::Plain),
{
    line_with_mark("warning:", Style::Yellow, message, Style::Plain)
}

/// The prompt that is in use: the saved one, or the default of its kind.
pub open spec fn prompt_in_use(kind: PromptKind, saved: Option<Seq<char>>) -> Seq<char> {
    match saved {
        Some(text) => text,
        None => match kind {
            PromptKind::System => DEFAULT_PROMPT_TEMPLATE@,
            PromptKind::Explain => DEFAULT_EXPLAIN_PROMPT@,
        },
    }
}

/// The prompt that a prompt command shows.
pub fn shown_prompt(kind: PromptKind, saved: Option<&str>) -> (text: String)
    ensures
        text@ == prompt_in_use(
            kind,
            match saved {
                Some(text) => Some(text@),
                None => None,
            },
        ),
{
    match saved {
        Some(text) => text.to_owned(),
        None => match kind {
            PromptKind::System => DEFAULT_PROMPT_TEMPLATE.to_owned(),
            PromptKind::Explain => DEFAULT_EXPLAIN_PROMPT.to_owned(),
        },
    }
}

/// The placeholder that a prompt of the given kind must hold.
pub open spec fn placeholder_of(kind: PromptKind) -> Seq<char> {
    match kind {
        PromptKind::System => "{request}"@,
        PromptKind::Explain => "{command}"@,
    }
}

/// The template to use for a prompt of the given kind: the saved one where
/// there is one and it holds its placeholder; else none, which stands for
/// the default.
pub fn effective_template(kind: PromptKind, saved: Option<String>) -> (template: Option<String>)
    ensures
        template is Some <==> (saved matches Some(text) && contains(text@, placeholder_of(kind))),
        template matches Some(text) ==> saved == Some(text),
{
    match saved {
        Some(text) => {
            let valid = match kind {
                PromptKind::System => validate_sys_prompt(text.as_str()),
                PromptKind::Explain => validate_explain_prompt(text.as_str()),
            };
            if valid {
                Some(text)
            } else {
                None
            }
        },
        None => None,
    }
}

/// The line that is shown after a prompt was edited and lost its
/// placeholder: a warning for the system prompt, an error for the explain
/// prompt.
pub open spec fn edit_complaint(kind: PromptKind) -> Seq<Piece> {
    match kind {
        PromptKind::System => marked_line(
            "warning:"@,
            Style::Yellow,
            "system prompt must contain the {request} placeholder."@,
            Style::Plain,
        ),
        PromptKind::Explain => marked_line(
            "error:"@,
            Style::RedBold,
            "explain-prompt must contain the {command} placeholder."@,
            Style::Plain,
        ),
    }
}

/// What is to be said of a prompt after it was edited: nothing where no
/// prompt is saved or the saved one holds its placeholder.
pub fn check_edited_prompt(kind: PromptKind, saved: Option<&str>) -> (complaint: Option<
    Vec<Segment>,
>)
    ensures
        complaint is Some <==> (saved matches Some(text) && !contains(
            text@,
            placeholder_of(kind),
        )),
        complaint matches Some(line) ==> pieces(line@) == edit_complaint(kind),
{
    match saved {
        Some(text) => match kind {
            PromptKind::System => {
                if validate_sys_prompt(text) {
                    None
                } else {
                    Some(print_warning("system prompt must contain the {request} placeholder."))
                }
            },
            PromptKind::Explain => {
                if validate_explain_prompt(text) {
                    None
                } else {
                    Some(print_error("explain-prompt must contain the {command} placeholder."))
                }
            },
        },
        None => None,
    }
}

/// Whether an accepted command is run by the assistant: where standard
/// output is a terminal, or the override is set. Otherwise the command is
/// printed, for the shell function to run it.
pub fn execute_or_print(stdout_is_terminal: bool, forced: bool) -> (execute: bool)
    ensures
        execute == (stdout_is_terminal || forced),
{
    stdout_is_terminal || forced
}

/// The name of the file through which the shell reports its directory.
pub fn cwd_file_name(process_id: u32) -> (name: String)
    ensures
        name@ == ".nlsh_cwd_"@ + decimal_digits(process_id as nat),
{
    let mut name = chars_of(".nlsh_cwd_");
    let wide: u128 = process_id as u128;
    extend_chars(&mut name, &decimal(wide));
    string_of(&name)
}

/// The script that runs `command`: the command, then the shell's directory
/// written to the given file, then the command's exit status returned.
pub open spec fn script_for(command: Seq<char>, cwd_path: Seq<char>) -> Seq<char> {
    command + "\n__nlsh_rc=$?\npwd > "@ + cwd_path + "\nexit $__nlsh_rc"@
}

/// The script to hand to the shell for `command`, if the command is not
/// blank: a blank command is not run.
pub fn shell_script(command: &str, cwd_path: &str) -> (script: Option<String>)
    ensures
        script is Some <==> trimmed(command@).len() > 0,
        script matches Some(text) ==> text@ == script_for(trimmed(command@), cwd_path@),
{
    let mut text = trim(&chars_of(command));
    if text.len() == 0 {
        return None;
    }
    extend_str(&mut text, "\n__nlsh_rc=$?\npwd > ");
    extend_str(&mut text, cwd_path);
    extend_str(&mut text, "\nexit $__nlsh_rc");
    assert(text@ =~= script_for(trimmed(command@), cwd_path@));
    Some(string_of(&text))
}

/// The directory to move to after a command ran: what the shell reported,
/// without white space around it, unless nothing is left of it.
pub fn synced_directory(reported: &str) -> (directory: Option<String>)
    ensures
        directory is Some <==> trimmed(reported@).len() > 0,
        directory matches Some(text) ==> text@ == trimmed(reported@),
{
    let text = trim(&chars_of(reported));
    if text.len() == 0 {
        None
    } else {
        Some(string_of(&text))
    }
}

/// The index of the item that was selected: that of the first item that is
/// the selection, or the default where no item is.
pub fn prompt_select(items: &Vec<String>, selection: &str, default: usize) -> (index: usize)
    ensures
        (exists|i: int| 0 <= i < items@.len() && items@[i]@ == selection@) ==> index < items@.len()
            && items@[index as int]@ == selection@ && forall|j: int|
            0 <= j < index ==> items@[j]@ != selection@,
        (forall|i: int| 0 <= i < items@.len() ==> items@[i]@ != selection@) ==> index == default,
{
    let mut i: usize = 0;
    while i < items.len()
        invariant
            i <= items.len(),
            forall|j: int| 0 <= j < i ==> items@[j]@ != selection@,
        decreases items.len() - i,
    {
        if str_eq(items[i].as_str(), selection) {
            return i;
        }
        i = i + 1;
    }
    default
}

/// What is said where no configuration is found.
pub open spec fn missing_configuration() -> Seq<Piece> {
    marked_line("error:"@, Style::RedBold, "no API provider configured."@, Style::Plain) + seq![
        Piece { text: "run 'nlsh-rs api' to set up your preferred provider."@, style: Style::Cyan },
        Piece { text: "\n"@, style: Style::Plain },
    ]
}

/// What is said where the configuration cannot be loaded: that no provider
/// is configured where there is no configuration file, else the failure as
/// a configuration error.
pub fn config_failure(not_found: bool, failure: &str) -> (lines: Vec<Segment>)
    ensures
        not_found ==> pieces(lines@) == missing_configuration(),
        !not_found ==> pieces(lines@) == marked_line(
            "error:"@,
            Style::RedBold,
            "configuration error: "@ + failure@,
            Style::Plain,
        ),
{
    if not_found {
        let mut lines = print_error("no API provider configured.");
        let ghost first = pieces(lines@);
        crate::style::push_segment(
            &mut lines,
            "run 'nlsh-rs api' to set up your preferred provider.",
            Style::Cyan,
        );
        crate::style::push_segment(&mut lines, "\n", Style::Plain);
        assert(pieces(lines@) =~= missing_configuration());
        lines
    } else {
        let mut text = chars_of("configuration error: ");
        extend_str(&mut text, failure);
        print_error(string_of(&text).as_str())
    }
}

/// Whether a release of the assistant other than the running one is the
/// latest, of which the user is told.
pub fn check_for_updates(latest: &str, current: &str) -> (newer: bool)
    ensures
        newer == (latest@ != current@),
{
    !str_eq(latest, current)
}

} // verus!
