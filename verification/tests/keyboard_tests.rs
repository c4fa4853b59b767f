use echopup::keyboard::{
    delete_backward_command, desktop_name_prefers_eitype, preferred_linux_command_backend_label,
    preferred_linux_command_backend_note, preferred_linux_command_backends, session_type_is_wayland,
    type_text_command, LinuxCommandBackend, LinuxTypingBackend,
};

#[test]
fn test_preferred_linux_command_backends_for_wayland_wlroots() {
    assert_eq!(
        preferred_linux_command_backends(true, false),
        vec![
            LinuxTypingBackend::Wtype,
            LinuxTypingBackend::Eitype,
            LinuxTypingBackend::Xdotool
        ]
    );
}

#[test]
fn test_preferred_linux_command_backends_for_wayland_gnome_prefers_eitype() {
    assert_eq!(
        preferred_linux_command_backends(true, true),
        vec![
            LinuxTypingBackend::Eitype,
            LinuxTypingBackend::Wtype,
            LinuxTypingBackend::Xdotool
        ]
    );
}

#[test]
fn test_preferred_linux_command_backends_for_x11() {
    assert_eq!(
        preferred_linux_command_backends(false, false),
        vec![LinuxTypingBackend::Xdotool]
    );
}

#[test]
fn test_desktop_name_prefers_eitype_for_gnome_and_kde() {
    assert!(desktop_name_prefers_eitype(Some("ubuntu:GNOME")));
    assert!(desktop_name_prefers_eitype(Some("KDE")));
    assert!(desktop_name_prefers_eitype(Some("plasma")));
    assert!(!desktop_name_prefers_eitype(Some("sway")));
    assert!(!desktop_name_prefers_eitype(None));
}

#[test]
fn wayland_session_type_is_case_insensitive() {
    assert!(session_type_is_wayland(Some("Wayland")));
    assert!(!session_type_is_wayland(Some("x11")));
    assert!(!session_type_is_wayland(None));
}

#[test]
fn preferred_backend_label_is_the_first_available() {
    assert_eq!(preferred_linux_command_backend_label(vec![]), None);
    assert_eq!(
        preferred_linux_command_backend_label(vec![LinuxTypingBackend::Wtype, LinuxTypingBackend::Xdotool]),
        Some(LinuxTypingBackend::Wtype.label())
    );
    assert_eq!(preferred_linux_command_backend_note(vec![], true, true), None);
    assert_eq!(
        preferred_linux_command_backend_note(vec![LinuxTypingBackend::Xdotool], true, false),
        LinuxTypingBackend::Xdotool.preferred_note(true, false)
    );
}

#[test]
fn command_backend_tries_active_first() {
    let backend = LinuxCommandBackend::from_available_backends(vec![
        LinuxTypingBackend::Eitype,
        LinuxTypingBackend::Wtype,
    ])
    .unwrap();
    assert_eq!(backend.active, LinuxTypingBackend::Eitype);
    assert_eq!(
        backend.backends_in_order(),
        vec![LinuxTypingBackend::Eitype, LinuxTypingBackend::Wtype]
    );
    assert!(LinuxCommandBackend::from_available_backends(vec![]).is_none());
}

#[test]
fn typing_commands_have_arguments() {
    let t = type_text_command(LinuxTypingBackend::Xdotool, "hi");
    assert!(!t.args.is_empty());
    let d = delete_backward_command(LinuxTypingBackend::Xdotool, 2);
    assert!(!d.args.is_empty());
}
