use echopup::config::{
    asr_threads_for, expand_config_path_in, expand_config_path_with_home, AsrBackend, Config, HotkeyTriggerMode, SherpaParaformerConfig,
};
use std::path::Path;

#[test]
fn test_default_config() {
    let config = Config::default();
    assert_eq!(config.hotkey.trigger_mode, HotkeyTriggerMode::PressToToggle);
    assert_eq!(config.audio.sample_rate, 16000);
    assert_eq!(config.asr.backend, AsrBackend::SherpaParaformer);
    assert!(config.feedback.status_bar_enabled);
    assert!(config.feedback.sound_enabled);
    assert!(config.feedback.notify_tip_on_start);
    assert!(Path::new(&config.asr.sherpa_paraformer.encoder_path).ends_with(
        ".echopup/models/asr/sherpa-onnx-streaming-paraformer-bilingual-zh-en/encoder.onnx"
    ));
    assert!(Path::new(&config.asr.sherpa_paraformer.decoder_path).ends_with(
        ".echopup/models/asr/sherpa-onnx-streaming-paraformer-bilingual-zh-en/decoder.onnx"
    ));
    assert!(Path::new(&config.asr.sherpa_paraformer.tokens_path).ends_with(
        ".echopup/models/asr/sherpa-onnx-streaming-paraformer-bilingual-zh-en/tokens.txt"
    ));
}

#[test]
fn test_default_asr_num_threads() {
    assert_eq!(asr_threads_for(None), 4);
    assert_eq!(asr_threads_for(Some(0)), 1);
    assert_eq!(asr_threads_for(Some(6)), 6);
    assert_eq!(asr_threads_for(Some(64)), 8);
    let cfg = SherpaParaformerConfig::default_with_parallelism(Some(3));
    assert_eq!(cfg.num_threads, 3);
    assert_eq!(cfg.provider.as_deref(), Some("cpu"));
}

#[test]
fn default_llm_is_not_configured() {
    let config = Config::default();
    assert!(!config.llm.enabled);
    assert!(!config.is_llm_configured());
    assert_eq!(config.llm.provider, "openai");
    assert_eq!(config.llm.model, "gpt-4o-mini");
}

#[test]
fn mode_labels() {
    assert_eq!(HotkeyTriggerMode::HoldToRecord.label(), "长按模式");
    assert_eq!(HotkeyTriggerMode::PressToToggle.label(), "按压切换模式");
}

#[test]
fn config_paths() {
    let p = Config::default_path();
    assert!(p.ends_with("/echopup/config.toml") || p == "./echopup/config.toml");
    assert_ne!(p, "echopup/config.toml");
    assert_eq!(
        expand_config_path_with_home("~/.echopup/config.toml", "/home/u"),
        "/home/u/.echopup/config.toml"
    );
    assert_eq!(expand_config_path_with_home("/etc/x.toml", "/home/u"), "/etc/x.toml");
}

#[test]
fn expand_config_path_in_uses_found_home_or_nothing() {
    assert_eq!(
        expand_config_path_in("~/.echopup/config.toml", Some("/home/u")),
        "/home/u/.echopup/config.toml"
    );
    assert_eq!(expand_config_path_in("~/.echopup/config.toml", None), "/.echopup/config.toml");
    assert_eq!(expand_config_path_in("/etc/x.toml", None), "/etc/x.toml");
}

#[test]
fn dir_or_dot_falls_back_to_dot() {
    assert_eq!(echopup::paths::dir_or_dot(None), ".");
    assert_eq!(echopup::paths::dir_or_dot(Some("/h".to_string())), "/h");
    assert_eq!(echopup::paths::dir_or_dot(Some(String::new())), "");
}
