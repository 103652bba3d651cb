//! Start on login: the desktop entry that asks for it, and the decisions
//! around writing and finding it.

use vstd::prelude::*;
use vstd::string::*;
use crate::text::concat;

verus! {

/// Name of the directory, below the user's configuration directory, that
/// holds the entries of programs to start on login.
pub const AUTOSTART_DIR: &'static str = "autostart";

/// Name of this program's entry in that directory.
pub const DESKTOP_FILENAME: &'static str = "network-monitor.desktop";

/// `std::io::Error`, an error of the file system. Nothing is said of what
/// it holds; the library only carries it.
#[verifier::external_type_specification]
#[verifier::external_body]
pub struct ExIoError(std::io::Error);

/// Why autostart could not be set up or removed.
#[derive(Debug)]
pub enum AutostartError {
    /// The file system refused.
    Io(std::io::Error),
    /// The user's configuration directory is not known.
    NoHomeDir,
    /// The path of the running program is not known.
    NoExePath,
}

/// The desktop entry up to the path of the program.
pub open spec fn desktop_entry_head() -> Seq<char> {
    "[Desktop Entry]\nType=Application\nName=Network Monitor\nComment=Display network location country flag in system tray\nExec="@
}

/// The desktop entry after the path of the program.
pub open spec fn desktop_entry_tail() -> Seq<char> {
    "\nIcon=network-workgroup\nTerminal=false\nCategories=Network;System;Monitor;\nX-GNOME-Autostart-enabled=true\nStartupNotify=false\n"@
}

/// The desktop entry that starts the program at `exec_path`.
pub open spec fn desktop_content(exec_path: Seq<char>) -> Seq<char> {
    desktop_entry_head() + exec_path + desktop_entry_tail()
}

/// The text of the desktop entry that starts the program at `exec_path`.
pub fn create_desktop_content(exec_path: &str) -> (content: String)
    ensures
        content@ == desktop_content(exec_path@),
{
    let mut content = concat(
        "[Desktop Entry]\nType=Application\nName=Network Monitor\nComment=Display network location country flag in system tray\nExec=",
        exec_path,
    );
    content.append(
        "\nIcon=network-workgroup\nTerminal=false\nCategories=Network;System;Monitor;\nX-GNOME-Autostart-enabled=true\nStartupNotify=false\n",
    );
    content
}

/// What setting up autostart writes into the entry: the desktop entry for
/// the running program. Fails with `NoHomeDir` if the configuration
/// directory is not known, and else with `NoExePath` if the path of the
/// running program is not.
pub fn setup_content(config_dir_known: bool, exe_path: Option<&str>) -> (content: Result<
    String,
    AutostartError,
>)
    ensures
        !config_dir_known ==> content matches Err(AutostartError::NoHomeDir),
        config_dir_known && exe_path is None ==> content matches Err(AutostartError::NoExePath),
        config_dir_known && exe_path is Some ==> (content matches Ok(text) && text@
            == desktop_content(exe_path->0@)),
{
    if !config_dir_known {
        return Err(AutostartError::NoHomeDir);
    }
    match exe_path {
        Some(path) => Ok(create_desktop_content(path)),
        None => Err(AutostartError::NoExePath),
    }
}

/// True if autostart is enabled. `entry_exists` says whether the entry is
/// there, or why its place is not known; an unknown place counts as not
/// enabled.
pub fn is_autostart_enabled(entry_exists: Result<bool, AutostartError>) -> (enabled: bool)
    ensures
        enabled == (entry_exists matches Ok(exists) && exists),
{
    match entry_exists {
        Ok(exists) => exists,
        Err(_) => false,
    }
}

/// Decides what removing autostart has to do. `entry_exists` says whether
/// the entry is there, or why its place is not known. The entry is to be
/// removed if it is there; if it is not, nothing is to be done and nothing
/// fails; an unknown place is the failure of the removal.
pub fn removal_due(entry_exists: Result<bool, AutostartError>) -> (due: Result<
    bool,
    AutostartError,
>)
    ensures
        due == entry_exists,
{
    match entry_exists {
        Ok(exists) => Ok(exists),
        Err(error) => Err(error),
    }
}

} // verus!
