//! The command line: which mode the arguments ask for, and the texts that
//! the modes print.

use vstd::prelude::*;
use vstd::string::*;
use crate::text::{concat, same_text};

verus! {

/// What the program was started to do.
#[derive(Debug, Clone, Copy, PartialEq, Eq, Structural)]
pub enum CliMode {
    /// Run the updater and wait for it.
    Update,
    /// Check for an update once and print what was found.
    Check,
    /// Print the version.
    Version,
    /// Print the usage.
    Help,
    /// Run the tray.
    Tray,
}

/// True if one of `args` is the option `long` or its short form `short`.
pub open spec fn has_option(args: Seq<String>, long: Seq<char>, short: Seq<char>) -> bool {
    exists|i: int| 0 <= i < args.len() && (#[trigger] args[i]@ == long || args[i]@ == short)
}

/// The mode that `args` ask for. Of several options the first of update,
/// check, version and help wins, wherever they stand; without any of them
/// the tray runs.
pub open spec fn mode_of(args: Seq<String>) -> CliMode {
    if has_option(args, "--update"@, "-u"@) {
        CliMode::Update
    } else if has_option(args, "--check"@, "-c"@) {
        CliMode::Check
    } else if has_option(args, "--version"@, "-v"@) {
        CliMode::Version
    } else if has_option(args, "--help"@, "-h"@) {
        CliMode::Help
    } else {
        CliMode::Tray
    }
}

/// True if one of `args` is `long` or `short`.
fn any_is(args: &Vec<String>, long: &str, short: &str) -> (found: bool)
    ensures
        found == has_option(args@, long@, short@),
{
    let mut i: usize = 0;
    while i < args.len()
        invariant
            0 <= i <= args.len(),
            forall|j: int| 0 <= j < i ==> !(#[trigger] args@[j]@ == long@ || args@[j]@ == short@),
        decreases args.len() - i,
    {
        let arg = args[i].as_str();
        if same_text(arg, long) || same_text(arg, short) {
            return true;
        }
        i = i + 1;
    }
    false
}

/// Reads the mode off the arguments of the program.
pub fn cli_mode(args: &Vec<String>) -> (mode: CliMode)
    ensures
        mode == mode_of(args@),
{
    if any_is(args, "--update", "-u") {
        CliMode::Update
    } else if any_is(args, "--check", "-c") {
        CliMode::Check
    } else if any_is(args, "--version", "-v") {
        CliMode::Version
    } else if any_is(args, "--help", "-h") {
        CliMode::Help
    } else {
        CliMode::Tray
    }
}

/// The line that names the program and its version.
pub open spec fn version_line_spec(version: Seq<char>) -> Seq<char> {
    "network-monitor "@ + version
}

/// The usage below the version line.
pub open spec fn usage() -> Seq<char> {
    "\n\nSystem tray app displaying country flag based on network location.\n\nUSAGE:\n    network-monitor [OPTIONS]\n\nOPTIONS:\n    -h, --help      Show this help message\n    -v, --version   Show version\n    -c, --check     Check for updates\n    -u, --update    Update to latest version"@
}

/// The line that names the program and its version.
pub fn version_line(version: &str) -> (line: String)
    ensures
        line@ == version_line_spec(version@),
{
    concat("network-monitor ", version)
}

/// The text that help prints: the version line, then the usage.
pub fn help_text(version: &str) -> (text: String)
    ensures
        text@ == version_line_spec(version@) + usage(),
{
    let mut text = version_line(version);
    text.append(
        "\n\nSystem tray app displaying country flag based on network location.\n\nUSAGE:\n    network-monitor [OPTIONS]\n\nOPTIONS:\n    -h, --help      Show this help message\n    -v, --version   Show version\n    -c, --check     Check for updates\n    -u, --update    Update to latest version",
    );
    text
}

/// What the check mode reports after the check.
pub open spec fn check_report_spec(found: Option<Seq<char>>) -> Seq<char> {
    match found {
        Some(version) => "Update available: "@ + version
            + "\n\nRun 'network-monitor --update' to update."@,
        None => "You're up to date!"@,
    }
}

/// The text that the check mode prints after the check: the version that
/// was found and how to install it, or that there is none.
pub fn check_report(found: Option<&str>) -> (text: String)
    ensures
        text@ == check_report_spec(
            match found {
                Some(version) => Some(version@),
                None => None,
            },
        ),
{
    match found {
        Some(version) => {
            let mut text = concat("Update available: ", version);
            text.append("\n\nRun 'network-monitor --update' to update.");
            text
        },
        None => String::from_str("You're up to date!"),
    }
}

} // verus!
