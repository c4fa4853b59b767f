use echopup::config::HotkeyTriggerMode;
use echopup::menu_core::MenuAction;
use echopup::status_indicator::{
    edit_llm_label, empty_snapshot, expand_tilde_path_with_home, form_provider_id,
    linux_foreground_icon, linux_status_line, linux_status_text, linux_tooltip_text,
    linux_tray_state_pulses, map_linux_menu_id_to_action, map_tag_to_action,
    parse_legacy_indicator_command, provider_key_to_label, provider_label_to_key, shorten_text,
    ForegroundIcon, IndicatorState, LegacyIndicatorCommand, TrayIndicator, TAG_EDIT_LLM_FORM,
    TAG_MODE_HOLD, TAG_QUIT_UI, TAG_TOGGLE_CORRECTION, TAG_TOGGLE_LLM,
};

#[test]
fn test_phase_e_non_edit_tag_action_mapping() {
    let snapshot = empty_snapshot();
    assert!(matches!(
        map_tag_to_action(TAG_TOGGLE_LLM, &snapshot),
        Some(MenuAction::ToggleLlmEnabled)
    ));
    assert!(matches!(
        map_tag_to_action(TAG_TOGGLE_CORRECTION, &snapshot),
        Some(MenuAction::ToggleTextCorrectionEnabled)
    ));
    assert!(matches!(
        map_tag_to_action(TAG_QUIT_UI, &snapshot),
        Some(MenuAction::QuitUi)
    ));
}

#[test]
fn test_phase_e_parse_indicator_command_compat() {
    let cmd = parse_legacy_indicator_command("recording").expect("legacy state wire");
    assert_eq!(cmd, LegacyIndicatorCommand::SetState(IndicatorState::Recording));
}

#[test]
fn test_linux_active_states_keep_microphone_foreground() {
    assert_eq!(linux_foreground_icon(IndicatorState::Idle), ForegroundIcon::Logo);
    assert_eq!(linux_foreground_icon(IndicatorState::Recording), ForegroundIcon::Microphone);
    assert_eq!(linux_foreground_icon(IndicatorState::Transcribing), ForegroundIcon::Microphone);
    assert_eq!(linux_foreground_icon(IndicatorState::Completed), ForegroundIcon::Microphone);
    assert_eq!(linux_foreground_icon(IndicatorState::Failed), ForegroundIcon::Microphone);
}

#[test]
fn pulsing_states() {
    assert!(linux_tray_state_pulses(IndicatorState::Completed));
    assert!(linux_tray_state_pulses(IndicatorState::Recording));
    assert!(!linux_tray_state_pulses(IndicatorState::Idle));
    assert!(!linux_tray_state_pulses(IndicatorState::Failed));
}

#[test]
fn wire_names_round_trip() {
    for s in [
        IndicatorState::Idle,
        IndicatorState::RecordingStart,
        IndicatorState::Recording,
        IndicatorState::Transcribing,
        IndicatorState::Completed,
        IndicatorState::Failed,
    ] {
        assert_eq!(IndicatorState::from_wire(s.as_wire()), Some(s));
    }
    assert_eq!(IndicatorState::from_wire(" idle \n"), Some(IndicatorState::Idle));
    assert_eq!(IndicatorState::from_wire("busy"), None);
    assert_eq!(parse_legacy_indicator_command(" EXIT "), Some(LegacyIndicatorCommand::Exit));
    assert_eq!(parse_legacy_indicator_command("nonsense"), None);
}

#[test]
fn finished_states_go_back_to_idle() {
    let mut tray = TrayIndicator::new();
    tray.set_state(IndicatorState::Completed, 1000);
    assert!(!tray.tick(2499));
    assert_eq!(tray.state(), IndicatorState::Completed);
    assert!(tray.tick(2500));
    assert_eq!(tray.state(), IndicatorState::Idle);
    tray.set_state(IndicatorState::Recording, 3000);
    assert!(!tray.tick(1_000_000));
    assert_eq!(tray.state(), IndicatorState::Recording);
    assert_eq!(IndicatorState::Failed.auto_reset_ms(), Some(2000));
}

#[test]
fn tray_texts() {
    let mut snapshot = empty_snapshot();
    assert_eq!(linux_status_text(&snapshot, IndicatorState::Recording), "录音中");
    assert_eq!(linux_status_text(&snapshot, IndicatorState::Idle), "就绪");
    snapshot.status = "   ".to_string();
    assert_eq!(linux_status_text(&snapshot, IndicatorState::Completed), "完成");
    assert_eq!(linux_tooltip_text(&snapshot, IndicatorState::Failed), "EchoPup - 失败");
    snapshot.status = "第一行\n第二行".to_string();
    assert_eq!(linux_status_line(&snapshot, IndicatorState::Idle), "状态: 第一行 第二行");
    snapshot.status = "x".repeat(60);
    assert_eq!(
        linux_status_line(&snapshot, IndicatorState::Idle),
        format!("状态: {}...", "x".repeat(56))
    );
    assert_eq!(edit_llm_label(&snapshot), "编辑 LLM 配置 (openai/gpt-4o-mini)");
}

#[test]
fn menu_ids_map_to_actions() {
    assert!(matches!(map_linux_menu_id_to_action("toggle_llm"), Some(MenuAction::ToggleLlmEnabled)));
    assert!(matches!(
        map_linux_menu_id_to_action("mode_hold"),
        Some(MenuAction::SetHotkeyTriggerMode { mode: HotkeyTriggerMode::HoldToRecord })
    ));
    assert!(matches!(map_linux_menu_id_to_action("open_model_folder"), Some(MenuAction::OpenModelFolder)));
    assert!(map_linux_menu_id_to_action("edit_llm_form_linux").is_none());
    assert!(map_linux_menu_id_to_action("unknown").is_none());
    let snapshot = empty_snapshot();
    assert!(map_tag_to_action(TAG_EDIT_LLM_FORM, &snapshot).is_none());
    assert!(matches!(
        map_tag_to_action(TAG_MODE_HOLD, &snapshot),
        Some(MenuAction::SetHotkeyTriggerMode { mode: HotkeyTriggerMode::HoldToRecord })
    ));
}

#[test]
fn provider_labels_round_trip() {
    for key in ["openai", "anthropic", "ollama"] {
        assert_eq!(provider_label_to_key(&provider_key_to_label(key)), key);
    }
    assert_eq!(provider_key_to_label("mystery"), "OpenAI 兼容接口");
    assert_eq!(provider_label_to_key("whatever"), "openai");
    assert_eq!(form_provider_id("ollama"), "ollama");
    assert_eq!(form_provider_id("custom"), "openai");
}

#[test]
fn shorten_keeps_the_end() {
    assert_eq!(shorten_text("abc", 5), "abc");
    assert_eq!(shorten_text("abcdefgh", 6), "...fgh");
    assert_eq!(shorten_text("abcdefgh", 2), "...");
}

#[test]
fn tilde_paths() {
    assert_eq!(expand_tilde_path_with_home("~/a/b", Some("/home/u")), "/home/u/a/b");
    assert_eq!(expand_tilde_path_with_home("~", Some("/home/u")), "/home/u");
    assert_eq!(expand_tilde_path_with_home("/etc/x", Some("/home/u")), "/etc/x");
    assert_eq!(expand_tilde_path_with_home("~/a", None), "~/a");
}
