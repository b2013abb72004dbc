//! Shell integration: the completion scripts and the shell functions that
//! the assistant installs, and the edits of the user's shell files that put
//! them in and take them out again.

use crate::text::{
    chars_of, contains, count_char, count_of, extend_str, includes, is_blank, join, joined,
    lemma_count_bounded, lemma_lines_total_len, lemma_total_len_take, lines, lines_of, same_chars,
    str_contains, string_of, total_len, trim, trimmed, views,
};
use vstd::prelude::*;

verus! {

/// The completion script for bash.
pub const BASH_AUTOCOMPLETE: &'static str = r#"_nlsh_rs_completions() {
    local cur prev
    COMPREPLY=()
    cur="${COMP_WORDS[COMP_CWORD]}"
    prev="${COMP_WORDS[COMP_CWORD-1]}"

    if [ $COMP_CWORD -eq 1 ]; then
        COMPREPLY=( $(compgen -W "api prompt explain uninstall --help --version" -- "$cur") )
    elif [ $COMP_CWORD -eq 2 ]; then
        case "$prev" in
            prompt)
                COMPREPLY=( $(compgen -W "system explain" -- "$cur") )
                ;;
        esac
    elif [ $COMP_CWORD -eq 3 ]; then
        case "${COMP_WORDS[1]}" in
            prompt)
                COMPREPLY=( $(compgen -W "show edit" -- "$cur") )
                ;;
        esac
    fi
    return 0
}
complete -F _nlsh_rs_completions nlsh-rs"#;

/// The completion script for zsh.
pub const ZSH_AUTOCOMPLETE: &'static str = r#"#compdef nlsh-rs

_nlsh_rs() {
    local -a commands
    commands=(
        'api:configure API provider (Gemini, Ollama, LM Studio, OpenAI)'
        'explain:explain a shell command'
        'prompt:view or edit system/explain prompts'
        'uninstall:uninstall nlsh-rs'
    )

    _arguments -C \
        '1: :->cmds' \
        '--help[show help information]' \
        '--version[show version information]' \
        '*::arg:->args'

    case "$state" in
        cmds)
            _describe -t commands 'nlsh-rs commands' commands
            ;;
        args)
            case "${words[1]}" in
                prompt)
                    local -a kinds actions
                    kinds=('system:system prompt' 'explain:explain prompt')
                    actions=('show:show prompt' 'edit:edit prompt')
                    _arguments \
                        '1: :->kind' \
                        '2: :->action'
                    case "$state" in
                        kind) _describe -t kinds 'prompt kind' kinds ;;
                        action) _describe -t actions 'prompt action' actions ;;
                    esac
                    ;;
            esac
            ;;
    esac
}

_nlsh_rs"#;

/// The completion script for fish.
pub const FISH_AUTOCOMPLETE: &'static str = r#"# nlsh-rs autocomplete
complete -c nlsh-rs -f
complete -c nlsh-rs -n "__fish_use_subcommand" -a api -d 'configure API provider (Gemini, Ollama, LM Studio, OpenAI)'
complete -c nlsh-rs -n "__fish_use_subcommand" -a explain -d 'explain a shell command'
complete -c nlsh-rs -n "__fish_use_subcommand" -a prompt -d 'view or edit system/explain prompts'
complete -c nlsh-rs -n "__fish_use_subcommand" -a uninstall -d 'uninstall nlsh-rs'
complete -c nlsh-rs -l help -d 'show help information'
complete -c nlsh-rs -l version -d 'show version information'
complete -c nlsh-rs -n "__fish_seen_subcommand_from prompt" -a system -d 'system prompt'
complete -c nlsh-rs -n "__fish_seen_subcommand_from prompt" -a explain -d 'explain prompt'
complete -c nlsh-rs -n "__fish_seen_subcommand_from prompt; and __fish_seen_subcommand_from system explain" -a "show edit" -d 'prompt action'"#;

/// The shell function for bash and zsh: it runs the assistant and evaluates
/// the command that the assistant prints.
pub const BASH_FUNCTION: &'static str = r#"nlsh-rs() {
    if [ $# -eq 0 ]; then
        command nlsh-rs
        return $?
    fi

    local cmd=$(command nlsh-rs "$@")
    local exit_code=$?
    if [ $exit_code -eq 0 ] && [ -n "$cmd" ]; then
        if [[ "$cmd" =~ ^(Usage:|error:|Commands:|nlsh-rs\ [0-9]|$'\e'|$'\033'|✓|.*:$) ]]; then
            echo "$cmd"
            return 0
        fi
        eval "$cmd"
    else
        return $exit_code
    fi
}"#;

/// The shell function for fish.
pub const FISH_FUNCTION: &'static str = r#"function nlsh-rs
    if test (count $argv) -eq 0
        command nlsh-rs
        return $status
    end

    set cmd (command nlsh-rs $argv)
    set exit_code $status
    if test $exit_code -eq 0 -a -n "$cmd"
        if string match -qr '^(Usage:|error:|Commands:|nlsh-rs [0-9]|\x1b|\e|✓|.*:$)' -- "$cmd"
            echo "$cmd"
            return 0
        end
        eval $cmd
    else
        return $exit_code
    end
end"#;

/// The completion script for bash.
pub fn generate_bash_autocomplete() -> (script: &'static str)
    ensures
        script@ == BASH_AUTOCOMPLETE@,
{
    BASH_AUTOCOMPLETE
}

/// The completion script for zsh.
pub fn generate_zsh_autocomplete() -> (script: &'static str)
    ensures
        script@ == ZSH_AUTOCOMPLETE@,
{
    ZSH_AUTOCOMPLETE
}

/// The completion script for fish.
pub fn generate_fish_autocomplete() -> (script: &'static str)
    ensures
        script@ == FISH_AUTOCOMPLETE@,
{
    FISH_AUTOCOMPLETE
}

/// The shell function for bash and zsh: it runs the assistant and evaluates
/// the command that the assistant prints.
pub fn generate_bash_function() -> (script: &'static str)
    ensures
        script@ == BASH_FUNCTION@,
{
    BASH_FUNCTION
}

/// The shell function for fish.
pub fn generate_fish_function() -> (script: &'static str)
    ensures
        script@ == FISH_FUNCTION@,
{
    FISH_FUNCTION
}


/// How far the scan for a marked function block has come.
pub struct BlockScan {
    /// Inside the marked block: lines are dropped.
    pub skip: bool,
    /// Inside the function of the block: braces are counted.
    pub in_function: bool,
    /// The braces opened and not yet closed.
    pub depth: int,
    /// The marker was seen.
    pub found: bool,
    /// The lines that are kept.
    pub kept: Seq<Seq<char>>,
}

/// The scan before the first line.
pub open spec fn scan_start() -> BlockScan {
    BlockScan {
        skip: false,
        in_function: false,
        depth: 0,
        found: false,
        kept: Seq::<Seq<char>>::empty(),
    }
}

/// The scan after one more line.
///
/// A line that is the marker, but for white space around it, starts a block
/// and is dropped. In a block, the first line that holds the function's
/// signature starts the function, and its opening braces are counted; from
/// then on the braces of every line are counted, and the line on which they
/// balance ends the block. Every line of a block is dropped, every other
/// line is kept.
pub open spec fn scan_line(
    state: BlockScan,
    line: Seq<char>,
    marker: Seq<char>,
    signature: Seq<char>,
) -> BlockScan {
    if trimmed(line) == marker {
        BlockScan {
            skip: true,
            in_function: state.in_function,
            depth: state.depth,
            found: true,
            kept: state.kept,
        }
    } else if state.skip {
        if !state.in_function && contains(line, signature) {
            BlockScan {
                skip: true,
                in_function: true,
                depth: state.depth + count_of(line, '{'),
                found: state.found,
                kept: state.kept,
            }
        } else if state.in_function {
            let depth = state.depth + count_of(line, '{') - count_of(line, '}');
            BlockScan {
                skip: depth != 0,
                in_function: depth != 0,
                depth,
                found: state.found,
                kept: state.kept,
            }
        } else {
            state
        }
    } else {
        BlockScan {
            skip: false,
            in_function: state.in_function,
            depth: state.depth,
            found: state.found,
            kept: state.kept.push(line),
        }
    }
}

/// The scan after the given lines.
pub open spec fn scan_lines(
    lines: Seq<Seq<char>>,
    marker: Seq<char>,
    signature: Seq<char>,
) -> BlockScan
    decreases lines.len(),
{
    if lines.len() == 0 {
        scan_start()
    } else {
        scan_line(scan_lines(lines.drop_last(), marker, signature), lines.last(), marker, signature)
    }
}

/// The lines without the blank lines at their end.
pub open spec fn without_blank_end(lines: Seq<Seq<char>>) -> Seq<Seq<char>>
    decreases lines.len(),
{
    if lines.len() > 0 && trimmed(lines.last()).len() == 0 {
        without_blank_end(lines.drop_last())
    } else {
        lines
    }
}

/// The content of a shell file without the marked function blocks, and
/// whether there was one. Where there was, the blank lines at the end go
/// too; the result always ends with a newline.
pub open spec fn block_removed(
    content: Seq<char>,
    marker: Seq<char>,
    signature: Seq<char>,
) -> (Seq<char>, bool) {
    let scan = scan_lines(lines_of(content), marker, signature);
    let kept = if scan.found {
        without_blank_end(scan.kept)
    } else {
        scan.kept
    };
    (joined(kept, "\n"@) + "\n"@, scan.found)
}

/// The braces counted in a scan are no more than the characters scanned.
pub proof fn lemma_scan_depth_bounded(
    lines: Seq<Seq<char>>,
    marker: Seq<char>,
    signature: Seq<char>,
)
    ensures
        -(total_len(lines) as int) <= scan_lines(lines, marker, signature).depth <= total_len(
            lines,
        ),
    decreases lines.len(),
{
    if lines.len() > 0 {
        lemma_scan_depth_bounded(lines.drop_last(), marker, signature);
        lemma_count_bounded(lines.last(), '{');
        lemma_count_bounded(lines.last(), '}');
    }
}

/// Drops the blank lines at the end of `kept`.
fn drop_blank_end(kept: &mut Vec<Vec<char>>)
    ensures
        views(final(kept)@) == without_blank_end(views(old(kept)@)),
{
    let ghost all = views(kept@);
    let mut n: usize = kept.len();
    assert(all.take(n as int) =~= all);
    while n > 0 && is_blank(&kept[n - 1])
        invariant
            n <= kept.len(),
            all == views(kept@),
            without_blank_end(all.take(n as int)) == without_blank_end(all),
        decreases n,
    {
        assert(all.take(n as int).drop_last() =~= all.take(n - 1));
        assert(all.take(n as int).last() == kept@[n - 1]@);
        n = n - 1;
    }
    proof {
        if n > 0 {
            assert(all.take(n as int).last() == kept@[n - 1]@);
        }
    }
    kept.truncate(n);
    assert(views(kept@) =~= all.take(n as int));
}

/// Removes the function blocks under `marker` from the content of a shell
/// file; `function_sig` is the text by which the first line of the function
/// is known. Returns the new content and whether a block was found.
pub fn remove_marked_function_block(content: &str, marker: &str, function_sig: &str) -> (result: (
    String,
    bool,
))
    ensures
        (result.0@, result.1) == block_removed(content@, marker@, function_sig@),
{
    let chars = chars_of(content);
    let length: usize = chars.len();
    let all = lines(&chars);
    let mark = chars_of(marker);
    let signature = chars_of(function_sig);
    let ghost shown = views(all@);
    let mut kept: Vec<Vec<char>> = Vec::new();
    let mut skip = false;
    let mut in_function = false;
    let mut found = false;
    let mut depth: i128 = 0;
    let mut i: usize = 0;
    proof {
        lemma_lines_total_len(content@);
        assert(shown.take(0) =~= Seq::<Seq<char>>::empty());
        assert(views(kept@) =~= Seq::<Seq<char>>::empty());
    }
    while i < all.len()
        invariant
            i <= all.len(),
            shown == views(all@),
            shown == lines_of(content@),
            total_len(shown) <= content@.len() <= usize::MAX,
            mark@ == marker@,
            signature@ == function_sig@,
            scan_lines(shown.take(i as int), marker@, function_sig@) == (BlockScan {
                skip,
                in_function,
                depth: depth as int,
                found,
                kept: views(kept@),
            }),
        decreases all.len() - i,
    {
        let line = &all[i];
        let ghost before = views(kept@);
        proof {
            assert(shown.take(i + 1).drop_last() =~= shown.take(i as int));
            assert(shown.take(i + 1).last() == line@);
            lemma_scan_depth_bounded(shown.take(i as int), marker@, function_sig@);
            lemma_scan_depth_bounded(shown.take(i + 1), marker@, function_sig@);
            lemma_total_len_take(shown, i as int);
            lemma_total_len_take(shown, i + 1);
            lemma_count_bounded(line@, '{');
            lemma_count_bounded(line@, '}');
        }
        let bare = trim(line);
        if same_chars(&bare, &mark) {
            skip = true;
            found = true;
        } else if skip {
            if !in_function && includes(line, &signature) {
                in_function = true;
                depth = depth + (count_char(line, '{') as i128);
            } else if in_function {
                depth = depth + (count_char(line, '{') as i128) - (count_char(line, '}') as i128);
                if depth == 0 {
                    skip = false;
                    in_function = false;
                }
            }
        } else {
            let copy = crate::text::slice_of(line, 0, line.len());
            assert(line@.subrange(0, line@.len() as int) =~= line@);
            kept.push(copy);
            assert(views(kept@) =~= before.push(line@));
        }
        i = i + 1;
    }
    assert(shown.take(all.len() as int) =~= shown);
    if found {
        drop_blank_end(&mut kept);
    }
    let mut text = join(&kept, &chars_of("\n"));
    extend_str(&mut text, "\n");
    (string_of(&text), found)
}


/// The path of bash's startup file, below the home directory.
pub const BASHRC_PATH: &'static str = ".bashrc";

/// The path of zsh's startup file, below the home directory.
pub const ZSHRC_PATH: &'static str = ".zshrc";

/// The path of fish's configuration directory, below the home directory.
pub const FISH_CONFIG_DIR: &'static str = ".config/fish";

/// The path of the function file for fish, below the home directory.
pub const FISH_FUNCTION_PATH: &'static str = ".config/fish/functions/nlsh-rs.fish";

/// The path of the completion file for bash, below the home directory.
pub const BASH_COMPLETION_PATH: &'static str = ".local/share/bash-completion/completions/nlsh-rs";

/// The path of the completion file for zsh, below the home directory.
pub const ZSH_COMPLETION_PATH: &'static str = ".local/share/zsh/site-functions/_nlsh-rs";

/// The path of the completion file for fish, below the home directory.
pub const FISH_COMPLETION_PATH: &'static str = ".config/fish/completions/nlsh-rs.fish";

/// The comment above the shell function in a startup file.
pub const INTEGRATION_MARKER: &'static str = "# nlsh-rs shell integration";

/// The text by which the shell function is known in bash's startup file.
pub const BASH_SIGNATURE: &'static str = "nlsh-rs()";

/// The comment above the completion setup in zsh's startup file.
pub const ZSH_MARKER: &'static str = "# nlsh-rs autocomplete";

/// The directory of zsh's completion files, as startup files name it.
pub const ZSH_SITE_FUNCTIONS: &'static str = ".local/share/zsh/site-functions";

/// The shell files that the integration reads and writes, as they are on
/// disk: the content of each file that exists.
#[derive(Debug, Clone, PartialEq, Eq)]
pub struct ShellFiles {
    pub bashrc: Option<String>,
    pub zshrc: Option<String>,
    /// Whether fish's configuration directory exists.
    pub fish_config_dir: bool,
    pub fish_function: Option<String>,
    pub bash_completion: Option<String>,
    pub zsh_completion: Option<String>,
    pub fish_completion: Option<String>,
}

/// The model of the shell files.
pub struct FilesView {
    pub bashrc: Option<Seq<char>>,
    pub zshrc: Option<Seq<char>>,
    pub fish_config_dir: bool,
    pub fish_function: Option<Seq<char>>,
    pub bash_completion: Option<Seq<char>>,
    pub zsh_completion: Option<Seq<char>>,
    pub fish_completion: Option<Seq<char>>,
}

/// The model of a file's content.
pub open spec fn content_of(file: Option<String>) -> Option<Seq<char>> {
    match file {
        Some(text) => Some(text@),
        None => None,
    }
}

impl View for ShellFiles {
    type V = FilesView;

    open spec fn view(&self) -> FilesView {
        FilesView {
            bashrc: content_of(self.bashrc),
            zshrc: content_of(self.zshrc),
            fish_config_dir: self.fish_config_dir,
            fish_function: content_of(self.fish_function),
            bash_completion: content_of(self.bash_completion),
            zsh_completion: content_of(self.zsh_completion),
            fish_completion: content_of(self.fish_completion),
        }
    }
}

impl FilesView {
    /// The files with another state of `bashrc`.
    pub open spec fn with_bashrc(self, value: Option<Seq<char>>) -> FilesView {
        FilesView {
            bashrc: value,
            zshrc: self.zshrc,
            fish_config_dir: self.fish_config_dir,
            fish_function: self.fish_function,
            bash_completion: self.bash_completion,
            zsh_completion: self.zsh_completion,
            fish_completion: self.fish_completion,
        }
    }

    /// The files with another state of `zshrc`.
    pub open spec fn with_zshrc(self, value: Option<Seq<char>>) -> FilesView {
        FilesView {
            bashrc: self.bashrc,
            zshrc: value,
            fish_config_dir: self.fish_config_dir,
            fish_function: self.fish_function,
            bash_completion: self.bash_completion,
            zsh_completion: self.zsh_completion,
            fish_completion: self.fish_completion,
        }
    }

    /// The files with another state of `fish_function`.
    pub open spec fn with_fish_function(self, value: Option<Seq<char>>) -> FilesView {
        FilesView {
            bashrc: self.bashrc,
            zshrc: self.zshrc,
            fish_config_dir: self.fish_config_dir,
            fish_function: value,
            bash_completion: self.bash_completion,
            zsh_completion: self.zsh_completion,
            fish_completion: self.fish_completion,
        }
    }

    /// The files with another state of `bash_completion`.
    pub open spec fn with_bash_completion(self, value: Option<Seq<char>>) -> FilesView {
        FilesView {
            bashrc: self.bashrc,
            zshrc: self.zshrc,
            fish_config_dir: self.fish_config_dir,
            fish_function: self.fish_function,
            bash_completion: value,
            zsh_completion: self.zsh_completion,
            fish_completion: self.fish_completion,
        }
    }

    /// The files with another state of `zsh_completion`.
    pub open spec fn with_zsh_completion(self, value: Option<Seq<char>>) -> FilesView {
        FilesView {
            bashrc: self.bashrc,
            zshrc: self.zshrc,
            fish_config_dir: self.fish_config_dir,
            fish_function: self.fish_function,
            bash_completion: self.bash_completion,
            zsh_completion: value,
            fish_completion: self.fish_completion,
        }
    }

    /// The files with another state of `fish_completion`.
    pub open spec fn with_fish_completion(self, value: Option<Seq<char>>) -> FilesView {
        FilesView {
            bashrc: self.bashrc,
            zshrc: self.zshrc,
            fish_config_dir: self.fish_config_dir,
            fish_function: self.fish_function,
            bash_completion: self.bash_completion,
            zsh_completion: self.zsh_completion,
            fish_completion: value,
        }
    }
}

/// What is appended to bash's startup file.
pub open spec fn bash_block() -> Seq<char> {
    "\n# nlsh-rs shell integration\n"@ + BASH_FUNCTION@ + "\n"@
}

/// The function file for fish.
pub open spec fn fish_function_file() -> Seq<char> {
    "# nlsh-rs shell integration\n"@ + FISH_FUNCTION@ + "\n"@
}

/// The completion file for bash.
pub open spec fn bash_completion_file() -> Seq<char> {
    "# nlsh-rs bash autocomplete\n"@ + BASH_AUTOCOMPLETE@ + "\n"@
}

/// The completion file for zsh.
pub open spec fn zsh_completion_file() -> Seq<char> {
    "# nlsh-rs zsh autocomplete\n"@ + ZSH_AUTOCOMPLETE@ + "\n"@
}

/// The completion file for fish.
pub open spec fn fish_completion_file() -> Seq<char> {
    FISH_AUTOCOMPLETE@ + "\n"@
}

/// What is appended to zsh's startup file.
pub open spec fn zsh_fpath_block() -> Seq<char> {
    "\n# nlsh-rs autocomplete\nfpath=(~/.local/share/zsh/site-functions $fpath)\nautoload -Uz compinit && compinit\n"@
}

/// Bash's startup file gets the shell function, unless there is no such
/// file or it names the function already.
pub open spec fn after_setup_bash(files: FilesView) -> (FilesView, bool) {
    match files.bashrc {
        Some(content) => if contains(content, BASH_SIGNATURE@) {
            (files, false)
        } else {
            (files.with_bashrc(Some(content + bash_block())), true)
        },
        None => (files, false),
    }
}

/// The shell function goes from bash's startup file, where the file names
/// it under its marker.
pub open spec fn after_remove_bash(files: FilesView) -> (FilesView, bool) {
    match files.bashrc {
        Some(content) => if contains(content, BASH_SIGNATURE@) {
            let (cleaned, found) = block_removed(content, INTEGRATION_MARKER@, BASH_SIGNATURE@);
            if found {
                (files.with_bashrc(Some(cleaned)), true)
            } else {
                (files, false)
            }
        } else {
            (files, false)
        },
        None => (files, false),
    }
}

/// Fish gets its function file, unless it has one or fish is not
/// configured.
pub open spec fn after_setup_fish(files: FilesView) -> (FilesView, bool) {
    if files.fish_function is Some || !files.fish_config_dir {
        (files, false)
    } else {
        (files.with_fish_function(Some(fish_function_file())), true)
    }
}

/// The function file for fish goes.
pub open spec fn after_remove_fish(files: FilesView) -> (FilesView, bool) {
    if files.fish_function is Some {
        (files.with_fish_function(None), true)
    } else {
        (files, false)
    }
}

/// A shell function in bash's startup file that is not the current one is
/// replaced.
pub open spec fn after_fix_bash(files: FilesView) -> FilesView {
    match files.bashrc {
        Some(content) => if contains(content, BASH_SIGNATURE@) && !contains(
            content,
            BASH_FUNCTION@,
        ) {
            after_setup_bash(after_remove_bash(files).0).0
        } else {
            files
        },
        None => files,
    }
}

/// A function file for fish that does not hold the current function is
/// replaced.
pub open spec fn after_fix_fish(files: FilesView) -> FilesView {
    match files.fish_function {
        Some(content) => if !contains(content, FISH_FUNCTION@) {
            after_setup_fish(after_remove_fish(files).0).0
        } else {
            files
        },
        None => files,
    }
}

/// A completion file that exists and does not hold the current script is
/// written anew.
pub open spec fn fixed_completion(
    file: Option<Seq<char>>,
    script: Seq<char>,
    fresh: Seq<char>,
) -> Option<Seq<char>> {
    match file {
        Some(content) => if contains(content, script) {
            file
        } else {
            Some(fresh)
        },
        None => None,
    }
}

/// The completion files that do not hold the current scripts are written
/// anew.
pub open spec fn after_fix_autocomplete(files: FilesView) -> FilesView {
    files.with_bash_completion(
        fixed_completion(files.bash_completion, BASH_AUTOCOMPLETE@, bash_completion_file()),
    ).with_zsh_completion(
        fixed_completion(files.zsh_completion, ZSH_AUTOCOMPLETE@, zsh_completion_file()),
    ).with_fish_completion(
        fixed_completion(files.fish_completion, FISH_AUTOCOMPLETE@, fish_completion_file()),
    )
}

/// What is installed and out of date is brought up to date: the shell
/// function for bash, the one for fish, then the completion files.
pub open spec fn after_fix_integrations(files: FilesView) -> FilesView {
    after_fix_autocomplete(after_fix_fish(after_fix_bash(files)))
}

/// Bash gets its completion file, unless it has one.
pub open spec fn after_setup_bash_completion(files: FilesView) -> (FilesView, bool) {
    if files.bash_completion is Some {
        (files, false)
    } else {
        (files.with_bash_completion(Some(bash_completion_file())), true)
    }
}

/// Zsh gets its completion file, unless it has one or has no startup file;
/// the startup file gets the completion setup, unless it names the
/// directory of the completion files already.
pub open spec fn after_setup_zsh_completion(files: FilesView) -> (FilesView, bool) {
    match files.zshrc {
        Some(startup) => if files.zsh_completion is Some {
            (files, false)
        } else {
            let written = files.with_zsh_completion(Some(zsh_completion_file()));
            if contains(startup, ZSH_SITE_FUNCTIONS@) {
                (written, true)
            } else {
                (written.with_zshrc(Some(startup + zsh_fpath_block())), true)
            }
        },
        None => (files, false),
    }
}

/// Fish gets its completion file, unless it has one or fish is not
/// configured.
pub open spec fn after_setup_fish_completion(files: FilesView) -> (FilesView, bool) {
    if !files.fish_config_dir || files.fish_completion is Some {
        (files, false)
    } else {
        (files.with_fish_completion(Some(fish_completion_file())), true)
    }
}

/// The completion files are set up for bash, zsh and fish, in this order.
pub open spec fn after_setup_autocomplete(files: FilesView) -> (FilesView, bool) {
    let (first, bash) = after_setup_bash_completion(files);
    let (second, zsh) = after_setup_zsh_completion(first);
    let (third, fish) = after_setup_fish_completion(second);
    (third, bash || zsh || fish)
}

/// The whole setup: what is out of date is brought up to date, then the
/// shell functions and the completion files are installed where they are
/// missing. The flag says whether anything was installed.
pub open spec fn after_auto_setup(files: FilesView) -> (FilesView, bool) {
    let fixed = after_fix_integrations(files);
    let (first, bash) = after_setup_bash(fixed);
    let (second, fish) = after_setup_fish(first);
    let (third, completion) = after_setup_autocomplete(second);
    (third, bash || fish || completion)
}

/// How far the scan for the completion setup in zsh's startup file has
/// come.
pub struct SetupScan {
    /// Just below the marker: lines of the setup are dropped.
    pub skip: bool,
    /// The marker was seen.
    pub removed: bool,
    /// The lines that are kept.
    pub kept: Seq<Seq<char>>,
}

/// A line of the completion setup.
pub open spec fn is_setup_line(line: Seq<char>) -> bool {
    contains(line, ZSH_SITE_FUNCTIONS@) || contains(line, "autoload -Uz compinit"@)
}

/// The scan after one more line: the marker is dropped, and so are the
/// lines of the setup that follow it without a gap.
pub open spec fn setup_scan_line(state: SetupScan, line: Seq<char>) -> SetupScan {
    if trimmed(line) == ZSH_MARKER@ {
        SetupScan { skip: true, removed: true, kept: state.kept }
    } else if state.skip && is_setup_line(line) {
        state
    } else {
        SetupScan { skip: false, removed: state.removed, kept: state.kept.push(line) }
    }
}

/// The scan after the given lines.
pub open spec fn setup_scan(lines: Seq<Seq<char>>) -> SetupScan
    decreases lines.len(),
{
    if lines.len() == 0 {
        SetupScan { skip: false, removed: false, kept: Seq::<Seq<char>>::empty() }
    } else {
        setup_scan_line(setup_scan(lines.drop_last()), lines.last())
    }
}

/// The completion setup goes from zsh's startup file, where the file holds
/// its marker on a line of its own.
pub open spec fn after_remove_zsh_setup(files: FilesView) -> (FilesView, bool) {
    match files.zshrc {
        Some(content) => if contains(content, ZSH_MARKER@) {
            let scan = setup_scan(lines_of(content));
            if scan.removed {
                (
                    files.with_zshrc(
                        Some(joined(without_blank_end(scan.kept), "\n"@) + "\n"@),
                    ),
                    true,
                )
            } else {
                (files, false)
            }
        } else {
            (files, false)
        },
        None => (files, false),
    }
}

/// The completion files go, and the completion setup in zsh's startup
/// file.
pub open spec fn after_remove_autocomplete(files: FilesView) -> (FilesView, bool) {
    let bash = files.bash_completion is Some;
    let zsh = files.zsh_completion is Some;
    let fish = files.fish_completion is Some;
    let (cleaned, setup) = after_remove_zsh_setup(
        files.with_bash_completion(None).with_zsh_completion(None),
    );
    (cleaned.with_fish_completion(None), bash || zsh || setup || fish)
}

/// Everything that the setup installed goes. The flag says whether anything
/// was there.
pub open spec fn after_remove_all(files: FilesView) -> (FilesView, bool) {
    let (first, bash) = after_remove_bash(files);
    let (second, fish) = after_remove_fish(first);
    let (third, completion) = after_remove_autocomplete(second);
    (third, bash || fish || completion)
}

/// The string that holds `head`, then `script`, then a newline.
fn file_with(head: &str, script: &str) -> (text: String)
    ensures
        text@ == head@ + script@ + "\n"@,
{
    let mut out = chars_of(head);
    extend_str(&mut out, script);
    extend_str(&mut out, "\n");
    string_of(&out)
}

/// Installs the shell function in bash's startup file.
pub fn setup_bash_integration(files: &mut ShellFiles) -> (added: bool)
    ensures
        (final(files)@, added) == after_setup_bash(old(files)@),
{
    match &files.bashrc {
        Some(content) => {
            if str_contains(content.as_str(), BASH_SIGNATURE) {
                false
            } else {
                let mut text = chars_of(content.as_str());
                extend_str(&mut text, "\n# nlsh-rs shell integration\n");
                extend_str(&mut text, BASH_FUNCTION);
                extend_str(&mut text, "\n");
                assert(text@ =~= content@ + bash_block());
                files.bashrc = Some(string_of(&text));
                true
            }
        },
        None => false,
    }
}

/// Takes the shell function out of bash's startup file.
pub fn remove_bash_integration(files: &mut ShellFiles) -> (removed: bool)
    ensures
        (final(files)@, removed) == after_remove_bash(old(files)@),
{
    match &files.bashrc {
        Some(content) => {
            if str_contains(content.as_str(), BASH_SIGNATURE) {
                let (cleaned, found) = remove_marked_function_block(
                    content.as_str(),
                    INTEGRATION_MARKER,
                    BASH_SIGNATURE,
                );
                if found {
                    files.bashrc = Some(cleaned);
                }
                found
            } else {
                false
            }
        },
        None => false,
    }
}

/// Installs the function file for fish.
pub fn setup_fish_integration(files: &mut ShellFiles) -> (added: bool)
    ensures
        (final(files)@, added) == after_setup_fish(old(files)@),
{
    if files.fish_function.is_some() || !files.fish_config_dir {
        false
    } else {
        let text = file_with("# nlsh-rs shell integration\n", FISH_FUNCTION);
        files.fish_function = Some(text);
        true
    }
}

/// Removes the function file for fish.
pub fn remove_fish_integration(files: &mut ShellFiles) -> (removed: bool)
    ensures
        (final(files)@, removed) == after_remove_fish(old(files)@),
{
    if files.fish_function.is_some() {
        files.fish_function = None;
        true
    } else {
        false
    }
}

/// Replaces a shell function in bash's startup file that is out of date.
fn verify_and_fix_bash_integration(files: &mut ShellFiles)
    ensures
        final(files)@ == after_fix_bash(old(files)@),
{
    let stale = match &files.bashrc {
        Some(content) => str_contains(content.as_str(), BASH_SIGNATURE) && !str_contains(
            content.as_str(),
            BASH_FUNCTION,
        ),
        None => false,
    };
    if stale {
        remove_bash_integration(files);
        setup_bash_integration(files);
    }
}

/// Replaces a function file for fish that is out of date.
fn verify_and_fix_fish_integration(files: &mut ShellFiles)
    ensures
        final(files)@ == after_fix_fish(old(files)@),
{
    let stale = match &files.fish_function {
        Some(content) => !str_contains(content.as_str(), FISH_FUNCTION),
        None => false,
    };
    if stale {
        remove_fish_integration(files);
        setup_fish_integration(files);
    }
}

/// A completion file brought up to date.
fn fix_completion(file: Option<String>, script: &str, head: &str) -> (fixed: Option<String>)
    ensures
        content_of(fixed) == fixed_completion(
            content_of(file),
            script@,
            head@ + script@ + "\n"@,
        ),
{
    match file {
        Some(content) => {
            if str_contains(content.as_str(), script) {
                Some(content)
            } else {
                Some(file_with(head, script))
            }
        },
        None => None,
    }
}

/// Writes the completion file for bash anew where it is out of date.
fn verify_and_fix_bash_autocomplete(files: &mut ShellFiles)
    ensures
        final(files)@ == old(files)@.with_bash_completion(
            fixed_completion(
                old(files)@.bash_completion,
                BASH_AUTOCOMPLETE@,
                bash_completion_file(),
            ),
        ),
{
    let file = files.bash_completion.take();
    files.bash_completion = fix_completion(
        file,
        BASH_AUTOCOMPLETE,
        "# nlsh-rs bash autocomplete\n",
    );
}

/// Writes the completion file for zsh anew where it is out of date.
fn verify_and_fix_zsh_autocomplete(files: &mut ShellFiles)
    ensures
        final(files)@ == old(files)@.with_zsh_completion(
            fixed_completion(
                old(files)@.zsh_completion,
                ZSH_AUTOCOMPLETE@,
                zsh_completion_file(),
            ),
        ),
{
    let file = files.zsh_completion.take();
    files.zsh_completion = fix_completion(file, ZSH_AUTOCOMPLETE, "# nlsh-rs zsh autocomplete\n");
}

/// Writes the completion file for fish anew where it is out of date.
fn verify_and_fix_fish_autocomplete(files: &mut ShellFiles)
    ensures
        final(files)@ == old(files)@.with_fish_completion(
            fixed_completion(
                old(files)@.fish_completion,
                FISH_AUTOCOMPLETE@,
                fish_completion_file(),
            ),
        ),
{
    let file = files.fish_completion.take();
    files.fish_completion = fix_completion(file, FISH_AUTOCOMPLETE, "");
    assert(""@ + FISH_AUTOCOMPLETE@ + "\n"@ =~= fish_completion_file()) by {
        reveal_strlit("");
    }
}

/// Brings the completion files up to date.
pub fn verify_and_fix_autocomplete(files: &mut ShellFiles)
    ensures
        final(files)@ == after_fix_autocomplete(old(files)@),
{
    verify_and_fix_bash_autocomplete(files);
    verify_and_fix_zsh_autocomplete(files);
    verify_and_fix_fish_autocomplete(files);
}

/// Brings up to date what is installed.
pub fn verify_and_fix_integrations(files: &mut ShellFiles)
    ensures
        final(files)@ == after_fix_integrations(old(files)@),
{
    verify_and_fix_bash_integration(files);
    verify_and_fix_fish_integration(files);
    verify_and_fix_autocomplete(files);
}

/// Installs the completion file for bash.
fn setup_bash_autocomplete(files: &mut ShellFiles) -> (added: bool)
    ensures
        (final(files)@, added) == after_setup_bash_completion(old(files)@),
{
    if files.bash_completion.is_some() {
        false
    } else {
        files.bash_completion = Some(file_with("# nlsh-rs bash autocomplete\n", BASH_AUTOCOMPLETE));
        true
    }
}

/// Installs the completion file for zsh, and the setup that makes zsh find
/// it.
fn setup_zsh_autocomplete(files: &mut ShellFiles) -> (added: bool)
    ensures
        (final(files)@, added) == after_setup_zsh_completion(old(files)@),
{
    if files.zsh_completion.is_some() {
        return false;
    }
    match &files.zshrc {
        Some(startup) => {
            if !str_contains(startup.as_str(), ZSH_SITE_FUNCTIONS) {
                let mut text = chars_of(startup.as_str());
                extend_str(
                    &mut text,
                    "\n# nlsh-rs autocomplete\nfpath=(~/.local/share/zsh/site-functions $fpath)\nautoload -Uz compinit && compinit\n",
                );
                files.zshrc = Some(string_of(&text));
            }
            files.zsh_completion = Some(
                file_with("# nlsh-rs zsh autocomplete\n", ZSH_AUTOCOMPLETE),
            );
            true
        },
        None => false,
    }
}

/// Installs the completion file for fish.
fn setup_fish_autocomplete(files: &mut ShellFiles) -> (added: bool)
    ensures
        (final(files)@, added) == after_setup_fish_completion(old(files)@),
{
    if !files.fish_config_dir || files.fish_completion.is_some() {
        false
    } else {
        let text = file_with("", FISH_AUTOCOMPLETE);
        assert(text@ =~= fish_completion_file()) by {
            reveal_strlit("");
        }
        files.fish_completion = Some(text);
        true
    }
}

/// Installs the completion files that are missing.
pub fn setup_autocomplete(files: &mut ShellFiles) -> (added: bool)
    ensures
        (final(files)@, added) == after_setup_autocomplete(old(files)@),
{
    let bash = setup_bash_autocomplete(files);
    let zsh = setup_zsh_autocomplete(files);
    let fish = setup_fish_autocomplete(files);
    bash || zsh || fish
}

/// Sets the shell integration up on the given files: brings up to date what
/// is installed, and installs what is missing. Returns whether anything was
/// installed, after which the user's shell is to be started anew.
pub fn auto_setup_shell_function(files: &mut ShellFiles) -> (added: bool)
    ensures
        (final(files)@, added) == after_auto_setup(old(files)@),
{
    verify_and_fix_integrations(files);
    let bash = setup_bash_integration(files);
    let fish = setup_fish_integration(files);
    let completion = setup_autocomplete(files);
    bash || fish || completion
}

/// Takes the completion setup out of zsh's startup file.
fn remove_zsh_fpath_from_zshrc(files: &mut ShellFiles) -> (removed: bool)
    ensures
        (final(files)@, removed) == after_remove_zsh_setup(old(files)@),
{
    let content = match &files.zshrc {
        Some(content) => content,
        None => {
            return false;
        },
    };
    if !str_contains(content.as_str(), ZSH_MARKER) {
        return false;
    }
    let all = lines(&chars_of(content.as_str()));
    let marker = chars_of(ZSH_MARKER);
    let site = chars_of(ZSH_SITE_FUNCTIONS);
    let autoload = chars_of("autoload -Uz compinit");
    let ghost shown = views(all@);
    let mut kept: Vec<Vec<char>> = Vec::new();
    let mut skip = false;
    let mut removed = false;
    let mut i: usize = 0;
    proof {
        assert(shown.take(0) =~= Seq::<Seq<char>>::empty());
        assert(views(kept@) =~= Seq::<Seq<char>>::empty());
    }
    while i < all.len()
        invariant
            i <= all.len(),
            shown == views(all@),
            marker@ == ZSH_MARKER@,
            site@ == ZSH_SITE_FUNCTIONS@,
            autoload@ == "autoload -Uz compinit"@,
            setup_scan(shown.take(i as int)) == (SetupScan { skip, removed, kept: views(kept@) }),
        decreases all.len() - i,
    {
        let line = &all[i];
        let ghost before = views(kept@);
        assert(shown.take(i + 1).drop_last() =~= shown.take(i as int));
        assert(shown.take(i + 1).last() == line@);
        let bare = trim(line);
        if same_chars(&bare, &marker) {
            skip = true;
            removed = true;
        } else if skip && (includes(line, &site) || includes(line, &autoload)) {
        } else {
            skip = false;
            let copy = crate::text::slice_of(line, 0, line.len());
            assert(line@.subrange(0, line@.len() as int) =~= line@);
            kept.push(copy);
            assert(views(kept@) =~= before.push(line@));
        }
        i = i + 1;
    }
    assert(shown.take(all.len() as int) =~= shown);
    if removed {
        drop_blank_end(&mut kept);
        let mut text = join(&kept, &chars_of("\n"));
        extend_str(&mut text, "\n");
        files.zshrc = Some(string_of(&text));
    }
    removed
}

/// Removes the completion files and the completion setup.
pub fn remove_autocomplete(files: &mut ShellFiles) -> (removed: bool)
    ensures
        (final(files)@, removed) == after_remove_autocomplete(old(files)@),
{
    let bash = files.bash_completion.is_some();
    files.bash_completion = None;
    let zsh = files.zsh_completion.is_some();
    files.zsh_completion = None;
    let setup = remove_zsh_fpath_from_zshrc(files);
    let fish = files.fish_completion.is_some();
    files.fish_completion = None;
    bash || zsh || setup || fish
}

/// Removes the completion file for zsh and the completion setup.
pub fn remove_zsh_autocomplete(files: &mut ShellFiles) -> (removed: bool)
    ensures
        (final(files)@, removed) == ({
            let (cleaned, setup) = after_remove_zsh_setup(
                old(files)@.with_zsh_completion(None),
            );
            (cleaned, old(files)@.zsh_completion is Some || setup)
        }),
{
    let file = files.zsh_completion.is_some();
    files.zsh_completion = None;
    let setup = remove_zsh_fpath_from_zshrc(files);
    file || setup
}

/// Takes out of the given files everything that the setup put in. Returns
/// whether anything was there.
pub fn remove_shell_integration(files: &mut ShellFiles) -> (removed: bool)
    ensures
        (final(files)@, removed) == after_remove_all(old(files)@),
{
    let bash = remove_bash_integration(files);
    let fish = remove_fish_integration(files);
    let completion = remove_autocomplete(files);
    bash || fish || completion
}

} // verus!
