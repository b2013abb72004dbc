//! What the assistant tells the model of the user's environment. The
//! values of the environment are read by the caller.

use crate::text::{
    chars_of, extend_chars, extend_str, has_prefix, lines, lines_of, slice_of, split, split_on,
    starts_with, str_eq, string_of, strip_leading, strip_trailing, trim, trimmed, views,
    without_leading, without_trailing,
};
use vstd::prelude::*;

verus! {

/// The kind of operating system.
#[derive(Clone, Copy, Debug, PartialEq, Eq, Structural)]
pub enum Platform {
    Linux,
    MacOs,
    Windows,
    Other,
}

/// The model of an optional string.
pub open spec fn opt(value: Option<&str>) -> Option<Seq<char>> {
    match value {
        Some(text) => Some(text@),
        None => None,
    }
}

/// The first of two values that is there, or a default.
pub open spec fn first_of(
    first: Option<Seq<char>>,
    second: Option<Seq<char>>,
    default: Seq<char>,
) -> Seq<char> {
    match first {
        Some(text) => text,
        None => match second {
            Some(text) => text,
            None => default,
        },
    }
}

/// Picks the first of two values that is there, or the default.
fn pick(first: Option<&str>, second: Option<&str>, default: &str) -> (chosen: String)
    ensures
        chosen@ == first_of(opt(first), opt(second), default@),
{
    match first {
        Some(text) => text.to_owned(),
        None => match second {
            Some(text) => text.to_owned(),
            None => default.to_owned(),
        },
    }
}

/// The current directory: what the system reports, or the root directory.
pub fn get_current_directory(reported: Option<&str>) -> (directory: String)
    ensures
        directory@ == first_of(opt(reported), None, "/"@),
{
    pick(reported, None, "/")
}

/// The home directory: the value of `HOME`, else that of `USERPROFILE`,
/// else the tilde.
pub fn get_home_directory(home: Option<&str>, user_profile: Option<&str>) -> (directory: String)
    ensures
        directory@ == first_of(opt(home), opt(user_profile), "~"@),
{
    pick(home, user_profile, "~")
}

/// The user's name: the value of `USER`, else that of `USERNAME`, else
/// `user`.
pub fn get_username(user: Option<&str>, username: Option<&str>) -> (name: String)
    ensures
        name@ == first_of(opt(user), opt(username), "user"@),
{
    pick(user, username, "user")
}

/// The name of the shell: what follows the last slash in the value of
/// `SHELL`, or `sh` where there is no such value.
pub open spec fn shell_name(shell: Option<Seq<char>>) -> Seq<char> {
    match shell {
        Some(path) => split_on(path, '/').last(),
        None => "sh"@,
    }
}

/// The name of the user's shell.
pub fn get_shell(shell: Option<&str>) -> (name: String)
    ensures
        name@ == shell_name(opt(shell)),
{
    match shell {
        Some(path) => {
            let parts = split(&chars_of(path), '/');
            let last = &parts[parts.len() - 1];
            assert(views(parts@).last() == last@);
            string_of(last)
        },
        None => "sh".to_owned(),
    }
}

/// `path` with a leading tilde replaced by the home directory: the tilde
/// alone is the home directory, and a tilde before a slash stands for it.
pub open spec fn home_expanded(path: Seq<char>, home: Seq<char>) -> Seq<char> {
    if path == "~"@ {
        home
    } else if starts_with(path, "~/"@) {
        home + "/"@ + path.skip("~/"@.len() as int)
    } else {
        path
    }
}

/// Expands a tilde at the start of `path` to the home directory.
pub fn expand_home(path: &str, home: &str) -> (expanded: String)
    ensures
        expanded@ == home_expanded(path@, home@),
{
    let chars = chars_of(path);
    let prefix = chars_of("~/");
    if str_eq(path, "~") {
        home.to_owned()
    } else if has_prefix(&chars, &prefix) {
        let rest = slice_of(&chars, prefix.len(), chars.len());
        assert(chars@.subrange(prefix@.len() as int, chars@.len() as int) =~= chars@.skip(
            prefix@.len() as int,
        ));
        let mut out = chars_of(home);
        extend_str(&mut out, "/");
        extend_chars(&mut out, &rest);
        string_of(&out)
    } else {
        path.to_owned()
    }
}

/// A value without the double quotes around it.
pub open spec fn unquoted(value: Seq<char>) -> Seq<char> {
    without_trailing(without_leading(value, "\""@), "\""@)
}

/// The name and the version that the lines of a release file give: of each,
/// the value of the last line that sets it.
pub open spec fn release_fields(lines: Seq<Seq<char>>) -> (Option<Seq<char>>, Option<Seq<char>>)
    decreases lines.len(),
{
    if lines.len() == 0 {
        (None, None)
    } else {
        let (name, version) = release_fields(lines.drop_last());
        let line = lines.last();
        if starts_with(line, "NAME="@) {
            (Some(unquoted(line.skip("NAME="@.len() as int))), version)
        } else if starts_with(line, "VERSION_ID="@) {
            (name, Some(unquoted(line.skip("VERSION_ID="@.len() as int))))
        } else {
            (name, version)
        }
    }
}

/// The distribution that a release file names: its name and its version,
/// or its name alone; `linux` where there is no file or no name in it.
pub open spec fn distro_of(os_release: Option<Seq<char>>) -> Seq<char> {
    match os_release {
        Some(content) => match release_fields(lines_of(content)) {
            (Some(name), Some(version)) => name + " "@ + version,
            (Some(name), None) => name,
            _ => "linux"@,
        },
        None => "linux"@,
    }
}

/// The value of a line of a release file that starts with `key`.
fn field_value(line: &Vec<char>, key: &Vec<char>) -> (value: Vec<char>)
    requires
        starts_with(line@, key@),
    ensures
        value@ == unquoted(line@.skip(key@.len() as int)),
{
    let quote = chars_of("\"");
    let rest = slice_of(line, key.len(), line.len());
    assert(line@.subrange(key@.len() as int, line@.len() as int) =~= line@.skip(key@.len() as int));
    let open = strip_leading(&rest, &quote);
    strip_trailing(&open, &quote)
}

/// The name of the Linux distribution, from the content of the system's
/// release file where there is one.
pub fn get_linux_distro(os_release: Option<&str>) -> (distro: String)
    ensures
        distro@ == distro_of(opt(os_release)),
{
    let content = match os_release {
        Some(content) => content,
        None => {
            return "linux".to_owned();
        },
    };
    let all = lines(&chars_of(content));
    let name_key = chars_of("NAME=");
    let version_key = chars_of("VERSION_ID=");
    let ghost shown = views(all@);
    let mut name: Option<Vec<char>> = None;
    let mut version: Option<Vec<char>> = None;
    let mut i: usize = 0;
    assert(shown.take(0) =~= Seq::<Seq<char>>::empty());
    while i < all.len()
        invariant
            i <= all.len(),
            shown == views(all@),
            name_key@ == "NAME="@,
            version_key@ == "VERSION_ID="@,
            release_fields(shown.take(i as int)) == (
                match name {
                    Some(text) => Some(text@),
                    None => None::<Seq<char>>,
                },
                match version {
                    Some(text) => Some(text@),
                    None => None::<Seq<char>>,
                },
            ),
        decreases all.len() - i,
    {
        let line = &all[i];
        assert(shown.take(i + 1).drop_last() =~= shown.take(i as int));
        assert(shown.take(i + 1).last() == line@);
        if has_prefix(line, &name_key) {
            name = Some(field_value(line, &name_key));
        } else if has_prefix(line, &version_key) {
            version = Some(field_value(line, &version_key));
        }
        i = i + 1;
    }
    assert(shown.take(all.len() as int) =~= shown);
    match name {
        Some(name) => match version {
            Some(version) => {
                let mut out = name;
                extend_str(&mut out, " ");
                extend_chars(&mut out, &version);
                string_of(&out)
            },
            None => string_of(&name),
        },
        None => "linux".to_owned(),
    }
}

/// The version of the kernel: what `uname` printed, else what the kernel's
/// release file holds, without white space around it; `unknown` where
/// neither is there.
pub open spec fn kernel_of(uname: Option<Seq<char>>, release: Option<Seq<char>>) -> Seq<char> {
    match uname {
        Some(text) => trimmed(text),
        None => match release {
            Some(text) => trimmed(text),
            None => "unknown"@,
        },
    }
}

/// The version of the kernel.
pub fn get_kernel_version(uname: Option<&str>, release: Option<&str>) -> (version: String)
    ensures
        version@ == kernel_of(opt(uname), opt(release)),
{
    match uname {
        Some(text) => string_of(&trim(&chars_of(text))),
        None => match release {
            Some(text) => string_of(&trim(&chars_of(text))),
            None => "unknown".to_owned(),
        },
    }
}

/// How a Linux system is described: by its distribution and its kernel.
pub open spec fn linux_info(distro: Seq<char>, kernel: Seq<char>) -> Seq<char> {
    "linux ("@ + distro + "; kernel: "@ + kernel + ")"@
}

/// Describes a Linux system.
pub fn get_linux_info(distro: &str, kernel: &str) -> (info: String)
    ensures
        info@ == linux_info(distro@, kernel@),
{
    let mut out = chars_of("linux (");
    extend_str(&mut out, distro);
    extend_str(&mut out, "; kernel: ");
    extend_str(&mut out, kernel);
    extend_str(&mut out, ")");
    assert(out@ =~= linux_info(distro@, kernel@));
    string_of(&out)
}

/// The name of the operating system, as the model is told: a Linux system
/// by its distribution and kernel, the others by their names.
pub fn get_os(platform: Platform, distro: &str, kernel: &str) -> (name: String)
    ensures
        name@ == match platform {
            Platform::Linux => linux_info(distro@, kernel@),
            Platform::MacOs => "macOS"@,
            Platform::Windows => "Windows"@,
            Platform::Other => "Unix"@,
        },
{
    match platform {
        Platform::Linux => get_linux_info(distro, kernel),
        Platform::MacOs => "macOS".to_owned(),
        Platform::Windows => "Windows".to_owned(),
        Platform::Other => "Unix".to_owned(),
    }
}

/// A failed read from the terminal, by its kind.
#[derive(Clone, Copy, Debug, PartialEq, Eq, Structural)]
pub enum ReadFailure {
    Interrupted,
    NotConnected,
    UnexpectedEof,
    Other,
}

/// Whether a failed read from the terminal counts as an interrupt by the
/// user, after which the process leaves with the interrupt's exit code.
pub fn handle_interrupt(failure: ReadFailure) -> (interrupted: bool)
    ensures
        interrupted == !(failure is Other),
{
    match failure {
        ReadFailure::Interrupted => true,
        ReadFailure::NotConnected => true,
        ReadFailure::UnexpectedEof => true,
        ReadFailure::Other => false,
    }
}

} // verus!
