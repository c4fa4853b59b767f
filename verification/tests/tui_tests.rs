use echopup::config::Config;
use echopup::menu_core::{EditableField, MenuCore, MENU_ITEM_COUNT};
use echopup::tui::{InputKey, LlmFormDraft, MenuKey, TuiState};

fn make_app() -> TuiState {
    TuiState::new(MenuCore::new("/tmp/echopup-ui-test.toml", Config::default()))
}

#[test]
fn test_menu_navigation_wrap_and_quit() {
    let mut app = make_app();
    app.handle_menu_mode_key(MenuKey::Up);
    assert_eq!(app.selected, MENU_ITEM_COUNT - 1);
    app.handle_menu_mode_key(MenuKey::Down);
    assert_eq!(app.selected, 0);
    app.handle_menu_mode_key(MenuKey::Quit);
    assert!(app.should_quit);
}

#[test]
fn test_apply_input_to_llm_model() {
    let mut app = make_app();
    app.llm_form = Some(LlmFormDraft {
        provider: "openai".to_string(),
        model: "gpt-4o-mini".to_string(),
        api_base: "https://api.openai.com/v1".to_string(),
        api_key: "OPENAI_API_KEY".to_string(),
        step: 1,
    });
    app.input_target = Some(EditableField::LlmModel);
    app.input_buffer = "  gpt-test-model  ".to_string();

    app.apply_input().unwrap();
    assert_eq!(app.input_target, Some(EditableField::LlmApiBase));
    assert_eq!(app.input_buffer, "https://api.openai.com/v1");
}

#[test]
fn test_apply_input_rejects_empty_value() {
    let mut app = make_app();
    app.llm_form = Some(LlmFormDraft {
        provider: "openai".to_string(),
        model: "gpt-4o-mini".to_string(),
        api_base: "https://api.openai.com/v1".to_string(),
        api_key: "OPENAI_API_KEY".to_string(),
        step: 0,
    });
    app.input_target = Some(EditableField::LlmProvider);
    app.input_buffer = "   ".to_string();

    app.apply_input().unwrap();

    assert_eq!(app.menu.current_value(EditableField::LlmProvider), "openai");
    assert!(app.input_target.is_some());
}

#[test]
fn test_execute_menu_toggle_switches() {
    let mut app = make_app();
    let before = app.menu.snapshot();

    app.selected = 0;
    app.execute_menu_action();
    let s1 = app.menu.snapshot();
    assert_ne!(s1.llm_enabled, before.llm_enabled);

    app.selected = 1;
    app.execute_menu_action();
    let s2 = app.menu.snapshot();
    assert_ne!(s2.text_correction_enabled, s1.text_correction_enabled);
}

#[test]
fn llm_form_walks_four_steps_then_applies() {
    let mut app = make_app();
    app.selected = 2;
    app.handle_menu_mode_key(MenuKey::Enter);
    assert_eq!(app.input_target, Some(EditableField::LlmProvider));
    assert_eq!(app.input_buffer, "openai");
    assert_eq!(app.menu.snapshot().status, "LLM 配置表单（1/4）：编辑 llm.provider");

    app.input_buffer = "ollama".to_string();
    app.apply_input().unwrap();
    assert_eq!(app.input_target, Some(EditableField::LlmModel));
    assert_eq!(app.menu.snapshot().status, "LLM 配置表单（2/4）：编辑 llm.model");
    app.input_buffer = "llama3".to_string();
    app.apply_input().unwrap();
    app.input_buffer = "http://localhost:11434/v1".to_string();
    app.apply_input().unwrap();
    assert_eq!(app.input_target, Some(EditableField::LlmApiKey));
    app.input_buffer = "   ".to_string();
    app.apply_input().unwrap();
    assert!(app.llm_form.is_none());
    assert!(app.input_target.is_none());
    let s = app.menu.snapshot();
    assert_eq!(s.llm_provider, "ollama");
    assert_eq!(s.llm_model, "llama3");
    assert_eq!(s.llm_api_base, "http://localhost:11434/v1");
    assert_eq!(s.llm_api_key, "");
}

#[test]
fn typing_and_cancelling() {
    let mut app = make_app();
    app.input_target = Some(EditableField::LlmModel);
    app.handle_input_mode_key(InputKey::Char('a')).unwrap();
    app.handle_input_mode_key(InputKey::Char('b')).unwrap();
    app.handle_input_mode_key(InputKey::Backspace).unwrap();
    assert_eq!(app.input_buffer, "a");
    app.handle_input_mode_key(InputKey::Esc).unwrap();
    assert!(app.input_target.is_none());
    assert_eq!(app.input_buffer, "");
    assert_eq!(app.menu.snapshot().status, "已取消编辑");
    assert!(app.apply_input().is_err());
}

#[test]
fn last_entry_quits() {
    let mut app = make_app();
    app.selected = 3;
    app.execute_menu_action();
    assert!(app.should_quit);
    assert!(app.menu.should_quit_ui());
}
