use network_monitor::autostart::{
    create_desktop_content, is_autostart_enabled, removal_due, setup_content, AutostartError,
    AUTOSTART_DIR, DESKTOP_FILENAME,
};

#[test]
fn test_desktop_content_format() {
    let content = create_desktop_content("/usr/bin/network-monitor");
    assert!(content.contains("[Desktop Entry]"));
    assert!(content.contains("Type=Application"));
    assert!(content.contains("Exec=/usr/bin/network-monitor"));
}

#[test]
fn desktop_content_is_the_whole_entry() {
    let content = create_desktop_content("/opt/nm/bin/nm");
    assert_eq!(
        content,
        "[Desktop Entry]\n\
         Type=Application\n\
         Name=Network Monitor\n\
         Comment=Display network location country flag in system tray\n\
         Exec=/opt/nm/bin/nm\n\
         Icon=network-workgroup\n\
         Terminal=false\n\
         Categories=Network;System;Monitor;\n\
         X-GNOME-Autostart-enabled=true\n\
         StartupNotify=false\n"
    );
}

#[test]
fn entry_names_are_fixed() {
    assert_eq!(AUTOSTART_DIR, "autostart");
    assert_eq!(DESKTOP_FILENAME, "network-monitor.desktop");
}

#[test]
fn setup_needs_config_dir_and_exe_path() {
    assert!(matches!(setup_content(false, Some("/bin/nm")), Err(AutostartError::NoHomeDir)));
    assert!(matches!(setup_content(false, None), Err(AutostartError::NoHomeDir)));
    assert!(matches!(setup_content(true, None), Err(AutostartError::NoExePath)));
    let content = setup_content(true, Some("/bin/nm")).unwrap();
    assert_eq!(content, create_desktop_content("/bin/nm"));
}

#[test]
fn autostart_is_enabled_if_the_entry_exists() {
    assert!(is_autostart_enabled(Ok(true)));
    assert!(!is_autostart_enabled(Ok(false)));
    assert!(!is_autostart_enabled(Err(AutostartError::NoHomeDir)));
    let refused = std::io::Error::new(std::io::ErrorKind::PermissionDenied, "refused");
    assert!(!is_autostart_enabled(Err(AutostartError::Io(refused))));
}

#[test]
fn removal_has_nothing_to_do_without_an_entry() {
    assert!(matches!(removal_due(Ok(false)), Ok(false)));
}

#[test]
fn removal_is_due_if_the_entry_exists() {
    assert!(matches!(removal_due(Ok(true)), Ok(true)));
}

#[test]
fn removal_fails_if_the_place_of_the_entry_is_unknown() {
    assert!(matches!(removal_due(Err(AutostartError::NoHomeDir)), Err(AutostartError::NoHomeDir)));
    let refused = std::io::Error::new(std::io::ErrorKind::PermissionDenied, "refused");
    match removal_due(Err(AutostartError::Io(refused))) {
        Err(AutostartError::Io(e)) => {
            assert_eq!(e.kind(), std::io::ErrorKind::PermissionDenied)
        }
        other => panic!("unexpected: {:?}", other),
    }
}

#[test]
fn removing_twice_finds_nothing_the_second_time() {
    // after the entry was removed, the query finds none
    assert!(matches!(removal_due(Ok(true)), Ok(true)));
    assert!(matches!(removal_due(Ok(false)), Ok(false)));
    assert!(!is_autostart_enabled(Ok(false)));
}
