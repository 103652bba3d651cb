//! The decisions of the main loop: what to do on a command of the tray or
//! an event of the network, and what the outcome of each action changes.
//! The loop itself, which waits, fetches and writes, runs outside.

use vstd::prelude::*;
use vstd::string::*;
use crate::geo::{GeoError, GeoInfo};
use crate::network::NetworkEvent;
use crate::text::concat;
use crate::tray::{NetworkTray, TrayCommand};

verus! {

/// Seconds between two periodic lookups of the location. The first one
/// comes a full interval after the start.
pub const REFRESH_INTERVAL_SECS: u64 = 60;

/// Seconds to let the network settle before the lookup that follows a
/// `Connected` event.
pub const SETTLE_DELAY_SECS: u64 = 2;

/// Number of commands, and of network events, that may wait for the loop.
pub const QUEUE_CAPACITY: usize = 16;

/// What the loop waits for.
#[derive(Debug, Clone, Copy, PartialEq, Eq, Structural)]
pub enum Event {
    /// A click in the menu of the tray.
    Command(TrayCommand),
    /// A change of the network.
    Network(NetworkEvent),
}

/// What the loop does next.
#[derive(Debug, Clone, Copy, PartialEq, Eq, Structural)]
pub enum Action {
    /// Nothing; the event is only noted.
    Idle,
    /// Wait for `delay_secs` seconds, look the location up and hand the
    /// outcome to [`apply_location`].
    Refresh { delay_secs: u64 },
    /// Set autostart up and hand the success to [`toggled_autostart`].
    EnableAutostart,
    /// Remove autostart and hand the success to [`toggled_autostart`].
    DisableAutostart,
    /// Check for an update at once, between [`begin_update_check`] and
    /// [`finish_update_check`].
    CheckUpdate,
    /// Forget the pending update, start the updater and leave the loop.
    RunUpdate,
    /// Leave the loop.
    Quit,
}

/// The action that an event calls for, given whether autostart is enabled.
pub open spec fn action_for(event: Event, autostart: bool) -> Action {
    match event {
        Event::Command(TrayCommand::Refresh) => Action::Refresh { delay_secs: 0 },
        Event::Command(TrayCommand::ToggleAutostart) => if autostart {
            Action::DisableAutostart
        } else {
            Action::EnableAutostart
        },
        Event::Command(TrayCommand::CheckUpdate) => Action::CheckUpdate,
        Event::Command(TrayCommand::RunUpdate) => Action::RunUpdate,
        Event::Command(TrayCommand::Quit) => Action::Quit,
        Event::Network(NetworkEvent::Connected) => Action::Refresh {
            delay_secs: SETTLE_DELAY_SECS,
        },
        Event::Network(NetworkEvent::Disconnected) => Action::Idle,
    }
}

impl Action {
    /// True for the two actions after which the loop ends.
    pub open spec fn is_final(self) -> bool {
        self == Action::RunUpdate || self == Action::Quit
    }

    /// True if the loop ends after this action.
    pub fn ends_loop(&self) -> (ends: bool)
        ensures
            ends == self.is_final(),
    {
        match self {
            Action::RunUpdate => true,
            Action::Quit => true,
            _ => false,
        }
    }
}

/// Decides what the loop does on `event`. `autostart` says whether
/// autostart is enabled as far as the loop knows.
pub fn next_action(event: Event, autostart: bool) -> (action: Action)
    ensures
        action == action_for(event, autostart),
{
    match event {
        Event::Command(command) => match command {
            TrayCommand::Refresh => Action::Refresh { delay_secs: 0 },
            TrayCommand::ToggleAutostart => if autostart {
                Action::DisableAutostart
            } else {
                Action::EnableAutostart
            },
            TrayCommand::CheckUpdate => Action::CheckUpdate,
            TrayCommand::RunUpdate => Action::RunUpdate,
            TrayCommand::Quit => Action::Quit,
        },
        Event::Network(change) => match change {
            NetworkEvent::Connected => Action::Refresh { delay_secs: SETTLE_DELAY_SECS },
            NetworkEvent::Disconnected => Action::Idle,
        },
    }
}

/// The loop ends on the commands `Quit` and `RunUpdate` and on nothing
/// else.
pub proof fn lemma_loop_ends_on_quit_or_update(event: Event, autostart: bool)
    ensures
        action_for(event, autostart).is_final() <==> (event == Event::Command(TrayCommand::Quit)
            || event == Event::Command(TrayCommand::RunUpdate)),
{
}

/// The location is looked up on `Refresh` and on `Connected` and on
/// nothing else; losing the network calls for no action at all.
pub proof fn lemma_refresh_on_command_or_connect(event: Event, autostart: bool)
    ensures
        action_for(event, autostart) is Refresh <==> (event == Event::Command(
            TrayCommand::Refresh,
        ) || event == Event::Network(NetworkEvent::Connected)),
        action_for(Event::Network(NetworkEvent::Disconnected), autostart) == Action::Idle,
{
}

/// The location to start with: the one that the first lookup found, or
/// none if it failed.
pub fn initial_location(outcome: Result<GeoInfo, GeoError>) -> (location: Option<GeoInfo>)
    ensures
        location == match outcome {
            Ok(info) => Some(info),
            Err(_) => None,
        },
{
    match outcome {
        Ok(info) => Some(info),
        Err(_) => None,
    }
}

/// Takes the outcome of a lookup into the last known location. A location
/// that was found replaces it as a whole and asks for a redraw of the
/// tray; a failure leaves it as it was.
pub fn apply_location(known: &mut Option<GeoInfo>, outcome: Result<GeoInfo, GeoError>) -> (redraw:
    bool)
    ensures
        outcome matches Ok(info) ==> *final(known) == Some(info) && redraw,
        outcome is Err ==> *final(known) == *old(known) && !redraw,
{
    match outcome {
        Ok(info) => {
            *known = Some(info);
            true
        },
        Err(_) => false,
    }
}

/// Whether autostart is enabled after an attempt to toggle it: the
/// opposite of before if the attempt succeeded, the same if it failed.
pub fn toggled_autostart(enabled: bool, succeeded: bool) -> (now_enabled: bool)
    ensures
        now_enabled == (enabled != succeeded),
{
    if succeeded {
        !enabled
    } else {
        enabled
    }
}

/// A message to show on the desktop.
#[derive(Debug, Clone)]
pub struct Notification {
    pub summary: String,
    pub body: String,
    pub icon: String,
    /// Milliseconds after which the message goes away.
    pub timeout_ms: u32,
}

impl Notification {
    /// True if this is the program's message with the given body and
    /// timeout.
    pub open spec fn says(&self, body: Seq<char>, timeout_ms: u32) -> bool {
        &&& self.summary@ == "Network Monitor"@
        &&& self.body@ == body
        &&& self.icon@ == "network-monitor"@
        &&& self.timeout_ms == timeout_ms
    }
}

/// The program's message with the given body and timeout.
fn notification(body: String, timeout_ms: u32) -> (message: Notification)
    ensures
        message.says(body@, timeout_ms),
{
    Notification {
        summary: String::from_str("Network Monitor"),
        body,
        icon: String::from_str("network-monitor"),
        timeout_ms,
    }
}

/// What the end of an update check asks for.
#[derive(Debug, Clone)]
pub struct UpdateReport {
    /// The version to keep as pending, if one was found.
    pub save: Option<String>,
    /// The message that tells the user what was found.
    pub notification: Notification,
}

/// The body of the message about a found update.
pub open spec fn update_found_body(version: Seq<char>) -> Seq<char> {
    "Update "@ + version + " available! Click tray menu to install."@
}

/// Marks the start of an update check in the tray and gives the message to
/// show meanwhile.
pub fn begin_update_check(tray: &mut NetworkTray) -> (message: Notification)
    ensures
        final(tray).checking_update,
        final(tray).geo_info == old(tray).geo_info,
        final(tray).autostart_enabled == old(tray).autostart_enabled,
        final(tray).update_available == old(tray).update_available,
        message.says("Checking for updates..."@, 2000),
{
    tray.checking_update = true;
    notification(String::from_str("Checking for updates..."), 2000)
}

/// Marks the end of an update check in the tray. A version that was found
/// becomes the pending update of the tray and is to be kept; the message
/// names it. Without one the pending update stays as it was and the
/// message says that the program is up to date.
pub fn finish_update_check(tray: &mut NetworkTray, found: Option<String>) -> (report:
    UpdateReport)
    ensures
        !final(tray).checking_update,
        final(tray).geo_info == old(tray).geo_info,
        final(tray).autostart_enabled == old(tray).autostart_enabled,
        report.save == found,
        match found {
            Some(version) => {
                &&& final(tray).update_available == Some(version)
                &&& report.notification.says(update_found_body(version@), 5000)
            },
            None => {
                &&& final(tray).update_available == old(tray).update_available
                &&& report.notification.says("You're running the latest version!"@, 3000)
            },
        },
{
    tray.checking_update = false;
    match found {
        Some(version) => {
            let mut body = concat("Update ", version.as_str());
            body.append(" available! Click tray menu to install.");
            let save = Some(version.clone());
            tray.update_available = Some(version);
            UpdateReport { save, notification: notification(body, 5000) }
        },
        None => UpdateReport {
            save: None,
            notification: notification(
                String::from_str("You're running the latest version!"),
                3000,
            ),
        },
    }
}

/// Takes the pending update that was kept from an earlier run into the
/// tray, and says whether the rate-limited check is to run at the start:
/// only if nothing was kept.
pub fn startup_update(tray: &mut NetworkTray, persisted: Option<String>) -> (check: bool)
    ensures
        check == persisted is None,
        final(tray).update_available == match persisted {
            Some(version) => Some(version),
            None => old(tray).update_available,
        },
        final(tray).geo_info == old(tray).geo_info,
        final(tray).autostart_enabled == old(tray).autostart_enabled,
        final(tray).checking_update == old(tray).checking_update,
{
    match persisted {
        Some(version) => {
            tray.update_available = Some(version);
            false
        },
        None => true,
    }
}

/// Takes what the check at the start found into the tray, and gives the
/// version to keep as pending, if one was found.
pub fn startup_check_finished(tray: &mut NetworkTray, found: Option<String>) -> (save: Option<
    String,
>)
    ensures
        save == found,
        final(tray).update_available == match found {
            Some(version) => Some(version),
            None => old(tray).update_available,
        },
        final(tray).geo_info == old(tray).geo_info,
        final(tray).autostart_enabled == old(tray).autostart_enabled,
        final(tray).checking_update == old(tray).checking_update,
{
    match found {
        Some(version) => {
            let save = Some(version.clone());
            tray.update_available = Some(version);
            save
        },
        None => None,
    }
}

} // verus!
