use echopup::config::{Config, HotkeyTriggerMode};
use echopup::menu_core::{menu_item, EditableField, MenuAction, MenuCore, PendingIo, MENU_ITEM_COUNT};

fn menu_at(path: &str) -> MenuCore {
    MenuCore::new(path, Config::default())
}

#[test]
fn test_menu_toggle_switches() {
    let mut menu = menu_at("/tmp/echopup-menu-core-toggle.toml");
    let before = menu.snapshot();

    let r1 = menu.execute(MenuAction::ToggleLlmEnabled);
    assert!(r1.ok);
    assert_ne!(r1.snapshot.llm_enabled, before.llm_enabled);

    let r2 = menu.execute(MenuAction::ToggleTextCorrectionEnabled);
    assert!(r2.ok);
    assert_ne!(
        r2.snapshot.text_correction_enabled,
        r1.snapshot.text_correction_enabled
    );
}

#[test]
fn test_set_field_rejects_empty() {
    let mut menu = menu_at("/tmp/echopup-menu-core-empty.toml");
    let r = menu.execute(MenuAction::SetField {
        field: EditableField::LlmProvider,
        value: "  ".to_string(),
    });
    assert!(!r.ok);
    assert!(r.message.contains("输入不能为空"));
}

#[test]
fn test_quit_ui_action() {
    let mut menu = menu_at("/tmp/echopup-menu-core-quit.toml");
    let r = menu.execute(MenuAction::QuitUi);
    assert!(r.ok);
    assert!(r.quit_ui);
    assert!(menu.should_quit_ui());
}

#[test]
fn test_phase_e_menu_contract_order() {
    assert_eq!(MENU_ITEM_COUNT, 4);
    assert_eq!(menu_item(0), "启用 LLM 润色");
    assert_eq!(menu_item(3), "退出");
}

#[test]
fn settings_changes_ask_to_be_saved() {
    let mut menu = menu_at("/tmp/echopup-menu-core-save.toml");
    let r = menu.execute(MenuAction::SetField {
        field: EditableField::LlmProvider,
        value: " ollama ".to_string(),
    });
    assert!(r.ok);
    assert_eq!(menu.current_value(EditableField::LlmProvider), "ollama");
    assert_eq!(menu.pending_io(), PendingIo::Persist);
    let r = menu.execute(MenuAction::SetHotkeyTriggerMode { mode: HotkeyTriggerMode::HoldToRecord });
    assert!(r.ok);
    assert_eq!(r.snapshot.hotkey_trigger_mode, HotkeyTriggerMode::HoldToRecord);
    let r = menu.execute(MenuAction::ReloadConfig);
    assert!(r.ok);
    assert_eq!(menu.pending_io(), PendingIo::Reload);
}

#[test]
fn llm_form_requires_provider_model_and_base() {
    let mut menu = menu_at("/tmp/echopup-menu-core-llm.toml");
    let r = menu.execute(MenuAction::SetLlmConfig {
        provider: "openai".to_string(),
        model: " ".to_string(),
        api_base: "https://api.openai.com/v1".to_string(),
        api_key: String::new(),
    });
    assert!(!r.ok);
    let r = menu.execute(MenuAction::SetLlmConfig {
        provider: "openai".to_string(),
        model: "gpt-4.1-mini".to_string(),
        api_base: "https://api.openai.com/v1".to_string(),
        api_key: "test-key".to_string(),
    });
    assert!(r.ok);
    assert_eq!(r.snapshot.llm_model, "gpt-4.1-mini");
    assert_eq!(r.snapshot.llm_api_key, "test-key");
}

#[test]
fn toggling_twice_restores_and_refusals_change_nothing() {
    let mut menu = menu_at("/tmp/echopup-menu-law.toml");
    let before = menu.snapshot();
    menu.execute(MenuAction::ToggleTextCorrectionEnabled);
    menu.complete_persist(Ok(()));
    menu.execute(MenuAction::ToggleTextCorrectionEnabled);
    assert_eq!(menu.pending_io(), PendingIo::Persist);
    menu.complete_persist(Ok(()));
    let after = menu.snapshot();
    assert_eq!(after.text_correction_enabled, before.text_correction_enabled);
    assert_eq!(after.llm_enabled, before.llm_enabled);

    let r = menu.execute(MenuAction::SetField { field: EditableField::LlmModel, value: "  ".to_string() });
    assert!(!r.ok);
    assert_eq!(menu.pending_io(), PendingIo::Nothing);
    assert_eq!(menu.snapshot().llm_model, before.llm_model);
}
