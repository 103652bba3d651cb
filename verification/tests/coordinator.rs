use network_monitor::coordinator::{
    apply_location, begin_update_check, finish_update_check, initial_location, next_action,
    startup_check_finished, startup_update, toggled_autostart, Action, Event, QUEUE_CAPACITY,
    REFRESH_INTERVAL_SECS, SETTLE_DELAY_SECS,
};
use network_monitor::geo::{GeoError, GeoInfo};
use network_monitor::network::NetworkEvent;
use network_monitor::tray::{NetworkTray, TrayCommand};

fn place(city: &str) -> GeoInfo {
    GeoInfo {
        query: "198.51.100.4".to_string(),
        country: "France".to_string(),
        country_code: "FR".to_string(),
        city: city.to_string(),
        isp: "Example Telecom".to_string(),
    }
}

fn city_of(known: &Option<GeoInfo>) -> Option<String> {
    known.as_ref().map(|info| info.city.clone())
}

#[test]
fn timing_constants() {
    assert_eq!(REFRESH_INTERVAL_SECS, 60);
    assert_eq!(SETTLE_DELAY_SECS, 2);
    assert_eq!(QUEUE_CAPACITY, 16);
}

#[test]
fn refresh_command_looks_up_at_once() {
    for autostart in [false, true] {
        assert_eq!(
            next_action(Event::Command(TrayCommand::Refresh), autostart),
            Action::Refresh { delay_secs: 0 }
        );
    }
}

#[test]
fn connected_event_looks_up_after_the_settle_delay() {
    assert_eq!(
        next_action(Event::Network(NetworkEvent::Connected), false),
        Action::Refresh { delay_secs: 2 }
    );
}

#[test]
fn disconnected_event_does_nothing() {
    assert_eq!(next_action(Event::Network(NetworkEvent::Disconnected), false), Action::Idle);
    assert_eq!(next_action(Event::Network(NetworkEvent::Disconnected), true), Action::Idle);
}

#[test]
fn toggle_goes_the_other_way() {
    assert_eq!(
        next_action(Event::Command(TrayCommand::ToggleAutostart), true),
        Action::DisableAutostart
    );
    assert_eq!(
        next_action(Event::Command(TrayCommand::ToggleAutostart), false),
        Action::EnableAutostart
    );
}

#[test]
fn other_commands_map_to_their_actions() {
    assert_eq!(next_action(Event::Command(TrayCommand::CheckUpdate), false), Action::CheckUpdate);
    assert_eq!(next_action(Event::Command(TrayCommand::RunUpdate), false), Action::RunUpdate);
    assert_eq!(next_action(Event::Command(TrayCommand::Quit), true), Action::Quit);
}

#[test]
fn only_quit_and_run_update_end_the_loop() {
    assert!(Action::Quit.ends_loop());
    assert!(Action::RunUpdate.ends_loop());
    assert!(!Action::Idle.ends_loop());
    assert!(!Action::Refresh { delay_secs: 0 }.ends_loop());
    assert!(!Action::Refresh { delay_secs: 2 }.ends_loop());
    assert!(!Action::EnableAutostart.ends_loop());
    assert!(!Action::DisableAutostart.ends_loop());
    assert!(!Action::CheckUpdate.ends_loop());
}

#[test]
fn first_lookup_fills_the_location_or_leaves_it_empty() {
    assert_eq!(city_of(&initial_location(Ok(place("Lyon")))), Some("Lyon".to_string()));
    assert!(initial_location(Err(GeoError::InvalidResponse)).is_none());
    assert!(initial_location(Err(GeoError::RequestFailed("down".to_string()))).is_none());
}

#[test]
fn found_location_replaces_the_known_one() {
    let mut known = None;
    assert!(apply_location(&mut known, Ok(place("Lyon"))));
    assert_eq!(city_of(&known), Some("Lyon".to_string()));
    assert!(apply_location(&mut known, Ok(place("Paris"))));
    assert_eq!(city_of(&known), Some("Paris".to_string()));
}

#[test]
fn failed_lookup_leaves_the_known_location_unchanged() {
    let mut known = Some(place("Lyon"));
    assert!(!apply_location(&mut known, Err(GeoError::InvalidResponse)));
    let kept = known.clone().unwrap();
    assert_eq!(kept.city, "Lyon");
    assert_eq!(kept.query, "198.51.100.4");
    assert_eq!(kept.country, "France");
    assert_eq!(kept.country_code, "FR");
    assert_eq!(kept.isp, "Example Telecom");
    assert!(!apply_location(&mut known, Err(GeoError::ApiError("quota".to_string()))));
    assert!(!apply_location(&mut known, Err(GeoError::RequestFailed("down".to_string()))));
    assert_eq!(city_of(&known), Some("Lyon".to_string()));
    let mut empty: Option<GeoInfo> = None;
    assert!(!apply_location(&mut empty, Err(GeoError::InvalidResponse)));
    assert!(empty.is_none());
}

#[test]
fn autostart_flag_changes_only_on_success() {
    assert!(toggled_autostart(false, true));
    assert!(!toggled_autostart(true, true));
    assert!(!toggled_autostart(false, false));
    assert!(toggled_autostart(true, false));
}

#[test]
fn update_check_begins_with_a_notice() {
    let mut tray = NetworkTray::new(Some(place("Lyon")), true);
    tray.update_available = Some("v0.1.1".to_string());
    let message = begin_update_check(&mut tray);
    assert!(tray.checking_update);
    assert!(tray.autostart_enabled);
    assert_eq!(tray.update_available, Some("v0.1.1".to_string()));
    assert_eq!(city_of(&tray.geo_info), Some("Lyon".to_string()));
    assert_eq!(message.summary, "Network Monitor");
    assert_eq!(message.body, "Checking for updates...");
    assert_eq!(message.icon, "network-monitor");
    assert_eq!(message.timeout_ms, 2000);
}

#[test]
fn update_check_that_finds_a_version_offers_it() {
    let mut tray = NetworkTray::new(None, false);
    begin_update_check(&mut tray);
    let report = finish_update_check(&mut tray, Some("v0.3.0".to_string()));
    assert!(!tray.checking_update);
    assert_eq!(tray.update_available, Some("v0.3.0".to_string()));
    assert_eq!(report.save, Some("v0.3.0".to_string()));
    assert_eq!(report.notification.summary, "Network Monitor");
    assert_eq!(
        report.notification.body,
        "Update v0.3.0 available! Click tray menu to install."
    );
    assert_eq!(report.notification.icon, "network-monitor");
    assert_eq!(report.notification.timeout_ms, 5000);
}

#[test]
fn update_check_that_finds_nothing_says_so() {
    let mut tray = NetworkTray::new(None, false);
    tray.update_available = Some("v0.2.0".to_string());
    begin_update_check(&mut tray);
    let report = finish_update_check(&mut tray, None);
    assert!(!tray.checking_update);
    assert_eq!(tray.update_available, Some("v0.2.0".to_string()));
    assert_eq!(report.save, None);
    assert_eq!(report.notification.body, "You're running the latest version!");
    assert_eq!(report.notification.timeout_ms, 3000);
}

#[test]
fn kept_update_is_shown_and_no_check_runs_at_the_start() {
    let mut tray = NetworkTray::new(None, false);
    assert!(!startup_update(&mut tray, Some("v0.3.0".to_string())));
    assert_eq!(tray.update_available, Some("v0.3.0".to_string()));
    assert!(!tray.checking_update);
}

#[test]
fn without_kept_update_the_check_runs_at_the_start() {
    let mut tray = NetworkTray::new(None, false);
    assert!(startup_update(&mut tray, None));
    assert_eq!(tray.update_available, None);
    assert_eq!(startup_check_finished(&mut tray, None), None);
    assert_eq!(tray.update_available, None);
    assert_eq!(
        startup_check_finished(&mut tray, Some("v0.4.0".to_string())),
        Some("v0.4.0".to_string())
    );
    assert_eq!(tray.update_available, Some("v0.4.0".to_string()));
}
