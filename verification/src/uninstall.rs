//! Removing the assistant: what is said at each step.

use crate::style::{line_in, line_with_mark, marked_line, pieces, styled_line, Piece, Segment, Style};
use crate::text::{chars_of, contains, extend_chars, extend_str, str_contains, string_of, trim, trimmed};
use vstd::prelude::*;

verus! {

/// How removing the shell integration went.
#[derive(Debug, Clone, PartialEq, Eq)]
pub enum Removal {
    /// Something was removed.
    Removed,
    /// There was nothing to remove.
    Nothing,
    /// It failed, with the given message.
    Failed(String),
}

/// What is said after the shell integration was removed.
pub open spec fn integration_report_of(removal: Removal) -> Seq<Piece> {
    match removal {
        Removal::Removed => styled_line("\u{2713} removed shell integration"@, Style::Green),
        Removal::Nothing => styled_line("  no shell integration found"@, Style::Dimmed),
        Removal::Failed(message) => marked_line(
            "warning:"@,
            Style::Yellow,
            "failed to remove shell integration: "@ + message@,
            Style::Plain,
        ),
    }
}

/// Says how removing the shell integration went.
pub fn integration_report(removal: &Removal) -> (lines: Vec<Segment>)
    ensures
        pieces(lines@) == integration_report_of(*removal),
{
    match removal {
        Removal::Removed => line_in("\u{2713} removed shell integration", Style::Green),
        Removal::Nothing => line_in("  no shell integration found", Style::Dimmed),
        Removal::Failed(message) => {
            let mut text = chars_of("failed to remove shell integration: ");
            extend_str(&mut text, message.as_str());
            line_with_mark("warning:", Style::Yellow, string_of(&text).as_str(), Style::Plain)
        },
    }
}

/// Whether what the package manager wrote says that the package is not
/// installed.
pub open spec fn says_not_installed(stderr: Seq<char>) -> bool {
    contains(stderr, "package 'nlsh-rs' is not installed"@) || contains(stderr, "not installed"@)
}

/// What is said after the package manager was asked to remove the package.
pub open spec fn crate_report_of(success: bool, stderr: Seq<char>) -> Seq<Piece> {
    if success {
        styled_line("\u{2713} uninstalled cargo crate"@, Style::Green)
    } else if says_not_installed(stderr) {
        styled_line("  cargo crate not installed"@, Style::Dimmed)
    } else {
        marked_line(
            "warning:"@,
            Style::Yellow,
            "failed to uninstall: "@ + trimmed(stderr),
            Style::Plain,
        )
    }
}

/// Says how removing the package went, by the package manager's success
/// and by what it wrote.
pub fn crate_report(success: bool, stderr: &str) -> (lines: Vec<Segment>)
    ensures
        pieces(lines@) == crate_report_of(success, stderr@),
{
    if success {
        line_in("\u{2713} uninstalled cargo crate", Style::Green)
    } else if str_contains(stderr, "package 'nlsh-rs' is not installed") || str_contains(
        stderr,
        "not installed",
    ) {
        line_in("  cargo crate not installed", Style::Dimmed)
    } else {
        let mut text = chars_of("failed to uninstall: ");
        extend_chars(&mut text, &trim(&chars_of(stderr)));
        line_with_mark("warning:", Style::Yellow, string_of(&text).as_str(), Style::Plain)
    }
}

/// Says whether there was a configuration to remove.
pub fn config_report(existed: bool) -> (lines: Vec<Segment>)
    ensures
        pieces(lines@) == if existed {
            styled_line("\u{2713} removed configuration"@, Style::Green)
        } else {
            styled_line("  no configuration found"@, Style::Dimmed)
        },
{
    if existed {
        line_in("\u{2713} removed configuration", Style::Green)
    } else {
        line_in("  no configuration found", Style::Dimmed)
    }
}

/// Whether a package manifest is that of the assistant, so that the
/// directory it lies in is the assistant's repository.
pub fn is_own_manifest(manifest: &str) -> (own: bool)
    ensures
        own == contains(manifest@, "name = \"nlsh-rs\""@),
{
    str_contains(manifest, "name = \"nlsh-rs\"")
}

/// What is said at the start.
pub fn opening_lines() -> (lines: Vec<Segment>)
    ensures
        pieces(lines@) == styled_line("uninstalling nlsh-rs..."@, Style::YellowBold) + seq![
            Piece { text: "\n"@, style: Style::Plain },
        ],
{
    let mut lines = line_in("uninstalling nlsh-rs...", Style::YellowBold);
    crate::style::push_segment(&mut lines, "\n", Style::Plain);
    assert(pieces(lines@) =~= styled_line("uninstalling nlsh-rs..."@, Style::YellowBold) + seq![
        Piece { text: "\n"@, style: Style::Plain },
    ]);
    lines
}

/// What is said at the end.
pub fn closing_lines() -> (lines: Vec<Segment>)
    ensures
        pieces(lines@) == seq![Piece { text: "\n"@, style: Style::Plain }] + styled_line(
            "nlsh-rs uninstalled successfully!"@,
            Style::GreenBold,
        ) + styled_line(
            "please restart your shell or run 'source ~/.bashrc' (or 'source ~/.config/fish/config.fish' for fish)."@,
            Style::Yellow,
        ),
{
    let mut lines: Vec<Segment> = Vec::new();
    crate::style::push_segment(&mut lines, "\n", Style::Plain);
    crate::style::push_segment(&mut lines, "nlsh-rs uninstalled successfully!", Style::GreenBold);
    crate::style::push_segment(&mut lines, "\n", Style::Plain);
    crate::style::push_segment(
        &mut lines,
        "please restart your shell or run 'source ~/.bashrc' (or 'source ~/.config/fish/config.fish' for fish).",
        Style::Yellow,
    );
    crate::style::push_segment(&mut lines, "\n", Style::Plain);
    assert(pieces(lines@) =~= seq![Piece { text: "\n"@, style: Style::Plain }] + styled_line(
        "nlsh-rs uninstalled successfully!"@,
        Style::GreenBold,
    ) + styled_line(
        "please restart your shell or run 'source ~/.bashrc' (or 'source ~/.config/fish/config.fish' for fish)."@,
        Style::Yellow,
    ));
    lines
}

} // verus!
