//! Prompt templates, and cleaning what the model answers.

use crate::text::{
    chars_of, contains, has_prefix, replaced, slice_of, starts_with, str_contains, str_replace,
    string_of, strip_leading, strip_trailing, trim, trim_start, trimmed, trimmed_start,
    without_leading, without_trailing,
};
use vstd::prelude::*;

verus! {

/// The template of the request for a command.
pub const DEFAULT_PROMPT_TEMPLATE: &'static str =
    "You are a shell command translator. Convert the user's request into a shell command for {os}.

Environment context:
- Current dir: {cwd}
- Home dir: {home}
- User: {user}
- Shell: {shell}

Rules:
- Output ONLY the command, nothing else
- No explanations, no markdown, no backticks
- If unclear, make a reasonable assumption
- Prefer simple, common commands
- Use appropriate shell syntax and commands for this environment
- Consider the current directory context when generating paths
- Use ~ for home directory when appropriate

User request: {request}";

/// The template of the request for an explanation.
pub const DEFAULT_EXPLAIN_PROMPT: &'static str =
    "You are a concise command-line assistant. Your task is to explain the given shell command in a single simple sentence, focusing on the main purpose and key flags.

The command to explain is: {command}

Formatting rules:
- Always start the response with a single safety emoji: ✅ (safe), ⚠️  (risky), or ❌ (dangerous).
- No other emojis are allowed.
- For ✅ commands: Output ONLY the emoji and the explanation.
- For ⚠️ or ❌ commands: Output the emoji, the explanation, and a short warning about the danger.
- Do NOT include the command in your response.
- Do NOT include any markdown, backticks, or code formatting.
- You may emphasise important words with ONLY the following html tags: `<b></b>`, `<i></i>`, `<u></u>`. No other formatting allowed.

Examples:
Input command: ls -la
Output: ✅ Lists all files and directories in the current folder, including hidden ones, in a detailed format.

Input command: rm -rf /
Output: ❌ Forcefully and recursively <b>deletes all files</b> and directories starting from the root. <b>Warning:</b> This will completely destroy your operating system.";

/// What a request for a command says of the user's environment.
pub struct PromptContext {
    pub os: String,
    pub cwd: String,
    pub home: String,
    pub user: String,
    pub shell: String,
}

/// The template to use: the given one, or the default.
pub open spec fn chosen(template: Option<&str>, default: &str) -> Seq<char> {
    match template {
        Some(t) => t@,
        None => default@,
    }
}

/// The system prompt made from `template`: the placeholders of the
/// environment replaced first, in the order operating system, directory,
/// home, user and shell, then the placeholder of the request.
pub open spec fn system_prompt(
    template: Seq<char>,
    context: PromptContext,
    request: Seq<char>,
) -> Seq<char> {
    replaced(
        replaced(
            replaced(
                replaced(
                    replaced(replaced(template, "{os}"@, context.os@), "{cwd}"@, context.cwd@),
                    "{home}"@,
                    context.home@,
                ),
                "{user}"@,
                context.user@,
            ),
            "{shell}"@,
            context.shell@,
        ),
        "{request}"@,
        request,
    )
}

/// Builds the request for a command from the user's words, a template (the
/// default where none is given) and the environment.
pub fn create_system_prompt(
    user_request: &str,
    template: Option<&str>,
    context: &PromptContext,
) -> (prompt: String)
    ensures
        prompt@ == system_prompt(
            chosen(template, DEFAULT_PROMPT_TEMPLATE),
            *context,
            user_request@,
        ),
{
    let tmpl: &str = match template {
        Some(t) => t,
        None => DEFAULT_PROMPT_TEMPLATE,
    };
    let a = str_replace(tmpl, "{os}", context.os.as_str());
    let b = str_replace(a.as_str(), "{cwd}", context.cwd.as_str());
    let c = str_replace(b.as_str(), "{home}", context.home.as_str());
    let d = str_replace(c.as_str(), "{user}", context.user.as_str());
    let e = str_replace(d.as_str(), "{shell}", context.shell.as_str());
    str_replace(e.as_str(), "{request}", user_request)
}

/// Builds the request for an explanation of `command` from a template (the
/// default where none is given): every placeholder of the command is
/// replaced by the command.
pub fn create_explain_prompt(command: &str, template: Option<&str>) -> (prompt: String)
    ensures
        prompt@ == replaced(chosen(template, DEFAULT_EXPLAIN_PROMPT), "{command}"@, command@),
{
    let tmpl: &str = match template {
        Some(t) => t,
        None => DEFAULT_EXPLAIN_PROMPT,
    };
    str_replace(tmpl, "{command}", command)
}

/// A template for the system prompt must hold the placeholder of the
/// request.
pub fn validate_sys_prompt(template: &str) -> (valid: bool)
    ensures
        valid == contains(template@, "{request}"@),
{
    str_contains(template, "{request}")
}

/// A template for the explain prompt must hold the placeholder of the
/// command.
pub fn validate_explain_prompt(template: &str) -> (valid: bool)
    ensures
        valid == contains(template@, "{command}"@),
{
    str_contains(template, "{command}")
}

/// `s` without a code fence around it: without the backtick fences that it
/// starts with, the names of shells that follow them (`shell`, `bash`, `zsh`
/// and `sh`, removed in this order), and the fences that it ends with.
pub open spec fn unfenced(s: Seq<char>) -> Seq<char> {
    without_trailing(
        without_leading(
            without_leading(
                without_leading(without_leading(without_leading(s, "```"@), "shell"@), "bash"@),
                "zsh"@,
            ),
            "sh"@,
        ),
        "```"@,
    )
}

/// The command in a response: the response without surrounding white space
/// and, where it then starts with a code fence, without that fence.
pub open spec fn cleaned_response(response: Seq<char>) -> Seq<char> {
    let t = trimmed(response);
    if starts_with(t, "```"@) {
        trimmed(unfenced(t))
    } else {
        trimmed(t)
    }
}

/// Extracts the command from the model's response.
pub fn clean_response(response: &str) -> (command: String)
    ensures
        command@ == cleaned_response(response@),
{
    let chars = chars_of(response);
    let t = trim(&chars);
    let fence = chars_of("```");
    if has_prefix(&t, &fence) {
        let a = strip_leading(&t, &fence);
        let b = strip_leading(&a, &chars_of("shell"));
        let c = strip_leading(&b, &chars_of("bash"));
        let d = strip_leading(&c, &chars_of("zsh"));
        let e = strip_leading(&d, &chars_of("sh"));
        let f = strip_trailing(&e, &fence);
        let g = trim(&f);
        string_of(&g)
    } else {
        let g = trim(&t);
        string_of(&g)
    }
}

/// The explanation in a response: the response without surrounding white
/// space and, where it starts with the command followed by a space, a
/// newline or nothing, without the command and the white space after it.
pub open spec fn cleaned_explanation(response: Seq<char>, command: Seq<char>) -> Seq<char> {
    let t = trimmed(response);
    let c = trimmed(command);
    if starts_with(t, c) {
        let after = t.skip(c.len() as int);
        if after.len() == 0 || after[0] == '\n' || after[0] == ' ' {
            trimmed_start(after)
        } else {
            t
        }
    } else {
        t
    }
}

/// Extracts the explanation from the model's response to a request to
/// explain `command`.
pub fn clean_explanation(response: &str, command: &str) -> (explanation: String)
    ensures
        explanation@ == cleaned_explanation(response@, command@),
{
    let t = trim(&chars_of(response));
    let c = trim(&chars_of(command));
    if has_prefix(&t, &c) {
        let after = slice_of(&t, c.len(), t.len());
        assert(t@.subrange(c.len() as int, t.len() as int) =~= t@.skip(c.len() as int));
        if after.len() == 0 || after[0] == '\n' || after[0] == ' ' {
            let r = trim_start(&after);
            string_of(&r)
        } else {
            string_of(&t)
        }
    } else {
        string_of(&t)
    }
}

/// The prompt files that are to be written.
pub struct PromptFiles {
    /// The content for the file of the system prompt, if it is to be written.
    pub system: Option<String>,
    /// The content for the file of the explain prompt, if it is to be written.
    pub explain: Option<String>,
}

/// Decides which prompt files to create: each one that does not exist yet,
/// with its default template.
pub fn create_prompts(system_exists: bool, explain_exists: bool) -> (files: PromptFiles)
    ensures
        files.system is Some <==> !system_exists,
        files.explain is Some <==> !explain_exists,
        files.system matches Some(s) ==> s@ == DEFAULT_PROMPT_TEMPLATE@,
        files.explain matches Some(s) ==> s@ == DEFAULT_EXPLAIN_PROMPT@,
{
    let system = if system_exists {
        None
    } else {
        Some(DEFAULT_PROMPT_TEMPLATE.to_owned())
    };
    let explain = if explain_exists {
        None
    } else {
        Some(DEFAULT_EXPLAIN_PROMPT.to_owned())
    };
    PromptFiles { system, explain }
}

} // verus!
