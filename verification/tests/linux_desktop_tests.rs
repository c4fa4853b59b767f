use echopup::linux_desktop::{
    find_echopup_shortcut_conflict, find_matching_echopup_shortcut, gsettings_available,
    is_gnome_wayland_session, looks_like_echopup_trigger_command, maybe_install_gnome_wayland_shortcut,
    next_custom_binding_path, parse_gsettings_string_array, ShortcutEntry, ShortcutInstallResult,
    ShortcutInstallStep,
};

fn sample_entries() -> Vec<ShortcutEntry> {
    vec![
        ShortcutEntry {
            path: "/org/example/custom0/".to_string(),
            name: Some("Other Shortcut".to_string()),
            command: Some("/usr/bin/true".to_string()),
            binding: Some("F5".to_string()),
        },
        ShortcutEntry {
            path: "/org/example/custom1/".to_string(),
            name: Some("EchoPup Toggle Recording".to_string()),
            command: Some("/tmp/echopup --config ~/.echopup/config.toml trigger toggle".to_string()),
            binding: Some("F6".to_string()),
        },
    ]
}

#[test]
fn test_parse_gsettings_string_array() {
    assert_eq!(
        parse_gsettings_string_array(
            "['/org/gnome/settings-daemon/plugins/media-keys/custom-keybindings/custom0/']"
        ),
        vec!["/org/gnome/settings-daemon/plugins/media-keys/custom-keybindings/custom0/"]
    );
    assert!(parse_gsettings_string_array("@as []").is_empty());
}

#[test]
fn test_next_custom_binding_path() {
    let next = next_custom_binding_path(&[
        "/org/gnome/settings-daemon/plugins/media-keys/custom-keybindings/custom0/".to_string(),
        "/org/gnome/settings-daemon/plugins/media-keys/custom-keybindings/custom2/".to_string(),
    ]);
    assert_eq!(
        next,
        "/org/gnome/settings-daemon/plugins/media-keys/custom-keybindings/custom3/"
    );
}

#[test]
fn test_looks_like_echopup_trigger_command() {
    assert!(looks_like_echopup_trigger_command(Some(
        "/tmp/echopup --config ~/.echopup/config.toml trigger toggle"
    )));
    assert!(!looks_like_echopup_trigger_command(Some("/usr/bin/true")));
    assert!(!looks_like_echopup_trigger_command(None));
}

#[test]
fn test_find_matching_echopup_shortcut() {
    let entries = sample_entries();
    let matched = find_matching_echopup_shortcut(&entries, "F6");
    assert!(matched.is_some());
    assert_eq!(
        matched.unwrap().name.as_deref(),
        Some("EchoPup Toggle Recording")
    );
    assert!(find_matching_echopup_shortcut(&entries, "F7").is_none());
}

#[test]
fn gnome_wayland_needs_both_wayland_and_gnome() {
    assert!(is_gnome_wayland_session(Some("wayland"), "ubuntu:GNOME"));
    assert!(!is_gnome_wayland_session(Some("x11"), "GNOME"));
    assert!(!is_gnome_wayland_session(Some("wayland"), "sway"));
    assert!(!is_gnome_wayland_session(None, "GNOME"));
}

#[test]
fn gsettings_must_say_true() {
    assert!(gsettings_available(true, "true\n"));
    assert!(!gsettings_available(true, "false"));
    assert!(!gsettings_available(false, "true"));
}

#[test]
fn install_decisions() {
    let entries = sample_entries();
    let cmd = "/tmp/echopup --config ~/.echopup/config.toml trigger toggle";
    assert!(matches!(
        maybe_install_gnome_wayland_shortcut(false, true, &entries, cmd, "F6"),
        ShortcutInstallStep::Report(ShortcutInstallResult::UnsupportedEnvironment)
    ));
    assert!(matches!(
        maybe_install_gnome_wayland_shortcut(true, false, &entries, cmd, "F6"),
        ShortcutInstallStep::Report(ShortcutInstallResult::GsettingsUnavailable)
    ));
    match maybe_install_gnome_wayland_shortcut(true, true, &entries, cmd, "F6") {
        ShortcutInstallStep::Report(ShortcutInstallResult::AlreadyInstalled { binding }) => {
            assert_eq!(binding.as_deref(), Some("F6"))
        }
        _ => panic!("expected AlreadyInstalled"),
    }
    let others = vec![entries[0].clone()];
    match maybe_install_gnome_wayland_shortcut(true, true, &others, "/opt/other trigger toggle", "F5") {
        ShortcutInstallStep::Report(ShortcutInstallResult::BindingConflict { binding, shortcut_name }) => {
            assert_eq!(binding, "F5");
            assert_eq!(shortcut_name.as_deref(), Some("Other Shortcut"));
        }
        _ => panic!("expected BindingConflict"),
    }
    let fresh = vec![ShortcutEntry {
        path: "/org/gnome/settings-daemon/plugins/media-keys/custom-keybindings/custom1/".to_string(),
        name: Some("Other".to_string()),
        command: Some("/usr/bin/true".to_string()),
        binding: Some("F5".to_string()),
    }];
    match maybe_install_gnome_wayland_shortcut(true, true, &fresh, "/opt/echopup trigger toggle", "F6") {
        ShortcutInstallStep::Write { paths, new_path } => {
            assert_eq!(
                new_path,
                "/org/gnome/settings-daemon/plugins/media-keys/custom-keybindings/custom2/"
            );
            assert_eq!(paths.len(), 2);
            assert_eq!(paths[1], new_path);
        }
        _ => panic!("expected Write"),
    }
}

#[test]
fn conflict_only_when_gsettings_usable() {
    let entries = sample_entries();
    assert!(find_echopup_shortcut_conflict(false, &entries, "F6").is_none());
    let c = find_echopup_shortcut_conflict(true, &entries, "F6").unwrap();
    assert_eq!(c.binding, "F6");
    assert_eq!(c.name.as_deref(), Some("EchoPup Toggle Recording"));
}

#[test]
fn conflict_reports_the_first_echopup_shortcut() {
    let mut entries = sample_entries();
    entries.push(ShortcutEntry {
        path: "/org/example/custom2/".to_string(),
        name: Some("Second".to_string()),
        command: Some("echopup trigger toggle".to_string()),
        binding: Some("F6".to_string()),
    });
    let c = find_echopup_shortcut_conflict(true, &entries, "F6").unwrap();
    assert_eq!(c.name.as_deref(), Some("EchoPup Toggle Recording"));
    assert_eq!(c.binding, "F6");
    assert!(find_echopup_shortcut_conflict(false, &entries, "F6").is_none());
}
