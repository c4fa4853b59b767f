use echopup::hotkey::{
    activate_low_level_target, handle_low_level_event, is_right_ctrl_alias,
    parse_macos_fn_state_output, parse_hotkey, should_use_low_level_function_key_listener_for_session,
    validate_hotkey_config, validate_hotkey_config_for_session, HotkeyEvent, LowLevelEvent,
    LowLevelKey, LowLevelListenerRuntime, LowLevelTarget,
};

#[test]
fn test_right_ctrl_aliases() {
    assert!(is_right_ctrl_alias("ctrl"));
    assert!(is_right_ctrl_alias("control"));
    assert!(is_right_ctrl_alias("right_ctrl"));
    assert!(is_right_ctrl_alias("right-ctrl"));
    assert!(is_right_ctrl_alias("RightCtrl"));
    assert!(is_right_ctrl_alias("control_right"));
    assert!(is_right_ctrl_alias("rctrl"));
    assert!(!is_right_ctrl_alias("ctrl+space"));
    assert!(!is_right_ctrl_alias("f12"));
}

#[test]
fn test_validate_hotkey_rejects_single_char() {
    let err = validate_hotkey_config_for_session("z", false)
        .unwrap_err()
        .message();
    assert!(err.contains("会吞掉常用输入键"));
}

#[test]
fn test_validate_hotkey_accepts_modifier_combo() {
    validate_hotkey_config_for_session("ctrl+space", false).unwrap();
    validate_hotkey_config_for_session("ctrl+shift+a", false).unwrap();
}

#[test]
fn test_validate_hotkey_rejects_shift_only_combo() {
    let err = validate_hotkey_config_for_session("shift+z", false)
        .unwrap_err()
        .message();
    assert!(err.contains("不支持仅使用 Shift"));
}

#[test]
fn test_parse_macos_fn_state_output() {
    assert_eq!(parse_macos_fn_state_output("1\n"), Some(true));
    assert_eq!(parse_macos_fn_state_output("0"), Some(false));
    assert_eq!(parse_macos_fn_state_output("abc"), None);
}

#[test]
fn test_validate_hotkey_accepts_function_key() {
    validate_hotkey_config_for_session("f12", false).unwrap();
}

#[test]
fn test_validate_hotkey_limits_key_count() {
    let err = validate_hotkey_config_for_session("ctrl+alt+shift+f12", false)
        .unwrap_err()
        .message();
    assert!(err.contains("最多支持"));
}

#[test]
fn test_plain_f1_uses_low_level_listener_on_x11() {
    let hotkey = parse_hotkey("f1").unwrap();
    assert!(should_use_low_level_function_key_listener_for_session(&hotkey, false));
}

#[test]
fn test_plain_f1_does_not_use_x11_listener_on_wayland() {
    let hotkey = parse_hotkey("f1").unwrap();
    assert!(!should_use_low_level_function_key_listener_for_session(&hotkey, true));
}

#[test]
fn test_ctrl_f1_does_not_use_low_level_listener() {
    let hotkey = parse_hotkey("ctrl+f1").unwrap();
    assert!(!should_use_low_level_function_key_listener_for_session(&hotkey, false));
}

#[test]
fn test_low_level_runtime_switches_targets_without_restart() {
    let mut press_count = 0;
    let mut release_count = 0;
    let mut runtime = LowLevelListenerRuntime {
        target: LowLevelTarget::RightCtrl,
        pressed: false,
        pressed_count: 0,
    };
    let count = |ev: Option<HotkeyEvent>, p: &mut i32, r: &mut i32| match ev {
        Some(HotkeyEvent::Pressed) => *p += 1,
        Some(HotkeyEvent::Released) => *r += 1,
        None => {}
    };

    let ev = handle_low_level_event(&mut runtime, LowLevelEvent::KeyPress(LowLevelKey::ControlLeft));
    count(ev, &mut press_count, &mut release_count);
    assert_eq!(press_count, 1);
    assert!(runtime.pressed);

    let ev = handle_low_level_event(&mut runtime, LowLevelEvent::KeyRelease(LowLevelKey::ControlLeft));
    count(ev, &mut press_count, &mut release_count);
    assert_eq!(release_count, 1);
    assert!(!runtime.pressed);

    activate_low_level_target(&mut runtime, LowLevelTarget::FunctionKey(1));

    let ev = handle_low_level_event(&mut runtime, LowLevelEvent::KeyPress(LowLevelKey::ControlLeft));
    count(ev, &mut press_count, &mut release_count);
    assert_eq!(press_count, 1);
    assert!(!runtime.pressed);

    let ev = handle_low_level_event(&mut runtime, LowLevelEvent::KeyPress(LowLevelKey::Function(1)));
    count(ev, &mut press_count, &mut release_count);
    assert_eq!(press_count, 2);
    assert!(runtime.pressed);

    let ev = handle_low_level_event(&mut runtime, LowLevelEvent::KeyRelease(LowLevelKey::Function(1)));
    count(ev, &mut press_count, &mut release_count);
    assert_eq!(release_count, 2);
    assert!(!runtime.pressed);
}

#[test]
fn test_validate_hotkey_rejects_linux_wayland_session() {
    let err = validate_hotkey_config_for_session("f2", true)
        .unwrap_err()
        .message();
    assert!(err.contains("Wayland"));
}

#[test]
fn validate_hotkey_config_reads_the_session_type() {
    assert!(validate_hotkey_config("f2", Some("WAYLAND")).is_err());
    assert!(validate_hotkey_config("f2", Some("x11")).is_ok());
    assert!(validate_hotkey_config("f2", None).is_ok());
    assert!(validate_hotkey_config("", None).is_err());
}

#[test]
fn right_ctrl_target_counts_both_control_keys() {
    let mut runtime = LowLevelListenerRuntime::default();
    activate_low_level_target(&mut runtime, LowLevelTarget::RightCtrl);
    assert_eq!(
        handle_low_level_event(&mut runtime, LowLevelEvent::KeyPress(LowLevelKey::ControlLeft)),
        Some(HotkeyEvent::Pressed)
    );
    assert_eq!(
        handle_low_level_event(&mut runtime, LowLevelEvent::KeyPress(LowLevelKey::ControlRight)),
        None
    );
    assert_eq!(
        handle_low_level_event(&mut runtime, LowLevelEvent::KeyRelease(LowLevelKey::ControlLeft)),
        None
    );
    assert_eq!(
        handle_low_level_event(&mut runtime, LowLevelEvent::KeyRelease(LowLevelKey::ControlRight)),
        Some(HotkeyEvent::Released)
    );
}
