//! Bringing files of earlier versions up to date.

use crate::config::{Config, ConfigView, MultiProviderConfig};
use crate::prompt::DEFAULT_EXPLAIN_PROMPT;
use crate::text::{contains, str_contains, str_eq};
use vstd::prelude::*;

verus! {

/// The explain prompt that the first version wrote.
pub const OLD_EXPLAIN_PROMPT_V1: &'static str =
    "You are a concise command-line assistant. Your task is to explain the given shell command in a single simple sentence, focusing on the main purpose and key flags.

The command to explain is: {command}

Formatting rules:
- Always start the response with a single safety emoji: ✅ (safe), ⚠️  (risky), or ❌ (dangerous).
- No other emojis are allowed.
- For ✅ commands: Output ONLY the emoji and the explanation.
- For ⚠️ or ❌ commands: Output the emoji, the explanation, and a short warning about the danger.
- Do NOT include the command in your response.
- Do NOT include any markdown, backticks, or code formatting.
- You may emphasise important words with ONLY the following html tags: `<b></b>`, `<i></i>`, `<u></u>`. No other formatting allowed.

Examples:
Input command: ls -la
Output: ✅ Lists all files and directories in the current folder, including hidden ones, in a detailed format.

Input command: rm -rf /
Output: ❌ Forcefully and recursively <b>deletes all files</b> and directories starting from the root. <b>Warning:</b> This will completely destroy your operating system.";

/// A configuration file of the first version is known by its provider
/// section with a type in it.
pub fn can_migrate_config(content: &str) -> (old: bool)
    ensures
        old == (contains(content@, "[provider]"@) && contains(content@, "type = "@)),
{
    str_contains(content, "[provider]") && str_contains(content, "type = ")
}

/// The configuration for what a file of the first version held: the type of
/// its provider section becomes the active provider.
pub fn migrate_config(provider_type: String, providers: MultiProviderConfig) -> (config: Config)
    ensures
        config@ == (ConfigView { active_provider: provider_type@, providers: providers@ }),
{
    Config { active_provider: provider_type, providers }
}

/// An explain prompt is out of date where it is the one that the first
/// version wrote.
pub fn can_migrate_explain_prompt(content: &str) -> (old: bool)
    ensures
        old == (OLD_EXPLAIN_PROMPT_V1@.len() > 0 && content@ == OLD_EXPLAIN_PROMPT_V1@),
{
    !OLD_EXPLAIN_PROMPT_V1.is_empty() && str_eq(content, OLD_EXPLAIN_PROMPT_V1)
}

/// The new content for the file of the explain prompt, where the file
/// exists and is out of date: the current default.
pub fn migrate_explain_prompt(saved: Option<&str>) -> (renewed: Option<String>)
    ensures
        renewed is Some <==> (saved matches Some(content) && OLD_EXPLAIN_PROMPT_V1@.len() > 0
            && content@ == OLD_EXPLAIN_PROMPT_V1@),
        renewed matches Some(text) ==> text@ == DEFAULT_EXPLAIN_PROMPT@,
{
    match saved {
        Some(content) => {
            if can_migrate_explain_prompt(content) {
                Some(DEFAULT_EXPLAIN_PROMPT.to_owned())
            } else {
                None
            }
        },
        None => None,
    }
}

} // verus!
