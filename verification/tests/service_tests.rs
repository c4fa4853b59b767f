use echopup::asr::{
    final_session_config, partial_text, recognizer_threads, should_decode_final, should_decode_partial,
    AsrBackendKind, SherpaParaformerEngine, SherpaSenseVoiceConfig, SherpaSenseVoiceEngine,
};
use echopup::commit::{CommitAction, DraftTracker, KeyOp};
use echopup::config::{Config, PunctuationConfig, SherpaParaformerConfig};
use echopup::menu_core::MenuAction;
use echopup::punctuation::PunctuationRestorer;
use echopup::runtime::{
    classify_process, lines_vec, model_dir, model_dir_in, parse_pid, recent_lines, run_process_identity,
    start_check, trigger_socket_path_in, ProcessIdentity, StartCheck,
};
use echopup::service::{doctor_summary, engine_config_for, input_backend_verdict, runtime_effect, RuntimeEffect};
use std::path::Path;

#[test]
fn test_disabled_returns_none() {
    let config = PunctuationConfig { enabled: false, model_path: String::new() };
    let restorer = PunctuationRestorer::new(&config, Path::new(&config.model_path).exists()).unwrap();
    assert!(restorer.is_none());
}

#[test]
fn test_missing_model_returns_none() {
    let config = PunctuationConfig {
        enabled: true,
        model_path: "/nonexistent/model.onnx".to_string(),
    };
    let restorer = PunctuationRestorer::new(&config, Path::new(&config.model_path).exists()).unwrap();
    assert!(restorer.is_none());
}

#[test]
fn punctuation_keeps_blank_and_falls_back() {
    let config = PunctuationConfig { enabled: true, model_path: "/m.onnx".to_string() };
    let r = PunctuationRestorer::new(&config, true).unwrap().unwrap();
    assert_eq!(r.model_path(), "/m.onnx");
    assert!(!r.needs_punctuation("  "));
    assert_eq!(r.add_punctuation("  ", Some("x".to_string())), "  ");
    assert_eq!(r.add_punctuation("你好", Some("你好。".to_string())), "你好。");
    assert_eq!(r.add_punctuation("你好", None), "你好");
}

#[test]
fn test_model_dir_is_under_echopup() {
    let model_dir = model_dir().unwrap();
    assert!(Path::new(&model_dir).ends_with(".echopup/models"));
}

#[test]
fn runtime_paths() {
    assert_eq!(model_dir_in("/home/u"), "/home/u/.echopup/models");
    assert_eq!(trigger_socket_path_in("/home/u/"), "/home/u/.echopup/trigger.sock");
}

#[test]
fn process_identity_rules() {
    assert_eq!(classify_process(None, " run"), ProcessIdentity::Unknown);
    assert_eq!(classify_process(Some("  \n"), " run"), ProcessIdentity::Unknown);
    assert_eq!(classify_process(Some("/usr/bin/vim"), " run"), ProcessIdentity::Mismatch);
    assert_eq!(run_process_identity(Some("/opt/echopup --config x run\n")), ProcessIdentity::Match);
    assert_eq!(run_process_identity(Some("/opt/echopup status")), ProcessIdentity::Unknown);
    assert_eq!(parse_pid(" 1234\n"), Some(1234));
    assert_eq!(parse_pid("4294967296"), None);
    assert_eq!(parse_pid("x"), None);
}

#[test]
fn start_waiting() {
    assert_eq!(start_check(Some(7), 7, ProcessIdentity::Mismatch, None), StartCheck::Started);
    assert_eq!(start_check(Some(8), 7, ProcessIdentity::Unknown, None), StartCheck::Started);
    assert_eq!(start_check(Some(8), 7, ProcessIdentity::Mismatch, Some("echopup run")), StartCheck::KeepWaiting);
    assert_eq!(start_check(None, 7, ProcessIdentity::Unknown, Some("bash")), StartCheck::NotEchopup);
    assert_eq!(start_check(None, 7, ProcessIdentity::Unknown, None), StartCheck::Exited);
}

#[test]
fn recent_log_lines() {
    assert_eq!(lines_vec("a\r\nb\n\nc"), vec!["a", "b", "", "c"]);
    assert_eq!(lines_vec("a\n"), vec!["a"]);
    assert!(lines_vec("").is_empty());
    assert_eq!(recent_lines("1\n2\n3\n4\n", 2), "3\n4");
    assert_eq!(recent_lines("1\n2", 10), "1\n2");
    assert_eq!(recent_lines("1\n2", 0), "");
}

#[test]
fn engines_report_their_settings() {
    let cfg = SherpaParaformerConfig {
        encoder_path: "/m/encoder.onnx".to_string(),
        decoder_path: "/m/decoder.onnx".to_string(),
        tokens_path: "/m/tokens.txt".to_string(),
        provider: None,
        num_threads: 0,
    };
    let err = SherpaParaformerEngine::new(cfg.clone(), true, false, true).err().unwrap();
    assert_eq!(err, "未找到 Paraformer decoder 模型文件: /m/decoder.onnx");
    let engine = SherpaParaformerEngine::new(cfg, true, true, true).unwrap();
    let info = engine.runtime_info();
    assert_eq!(info.backend, AsrBackendKind::SherpaParaformer);
    assert_eq!(info.model, "encoder.onnx");
    assert_eq!(info.detail.as_deref(), Some("provider=cpu"));
    assert_eq!(engine.recognizer_settings().3, 1);
    assert_eq!(AsrBackendKind::SherpaParaformer.label(), "sherpa_paraformer");

    let sv = SherpaSenseVoiceConfig {
        model_path: "/m/model.onnx".to_string(),
        tokens_path: "/m/tokens.txt".to_string(),
        language: None,
        use_itn: true,
        provider: None,
        num_threads: 2,
        sample_rate: 16000,
    };
    assert_eq!(sv.validate(false, true).err().unwrap(), "未找到 SenseVoice 模型文件: /m/model.onnx");
    let e = SherpaSenseVoiceEngine::new(sv, true, true).unwrap();
    assert_eq!(e.model_display_name(), "model.onnx");
}

#[test]
fn streaming_session_rules() {
    assert!(should_decode_partial(false, true, 10, 10));
    assert!(!should_decode_partial(true, true, 10, 10));
    assert!(!should_decode_partial(false, false, 10, 10));
    assert!(!should_decode_partial(false, true, 9, 10));
    assert_eq!(partial_text("  你好 "), Some("你好".to_string()));
    assert_eq!(partial_text(" \n"), None);
    assert!(!should_decode_final(false, 0));
    assert!(should_decode_final(false, 3));
    let c = final_session_config(0);
    assert_eq!((c.min_partial_samples, c.max_partial_window_samples), (1, 1));
    assert_eq!(recognizer_threads(-3), 1);
}

#[test]
fn draft_tracker_schedules_keyboard_operations() {
    let mut t = DraftTracker::new();
    let s = t.schedule(&CommitAction::UpdateDraft { new_text: "你好".to_string(), delete_chars: 0 });
    assert_eq!(s.steps.len(), 1);
    assert!(matches!(&s.steps[0].op, KeyOp::TypeText(x) if x == "你好"));
    assert_eq!(s.final_draft, 2);
    t.record(s.final_draft);
    let s = t.schedule(&CommitAction::CommitFinal { text: "好".to_string() });
    assert_eq!(s.steps.len(), 2);
    assert!(matches!(s.steps[0].op, KeyOp::DeleteBackward(2)));
    assert_eq!(s.steps[0].draft_after, 0);
    assert_eq!(s.final_draft, 0);
    let s = t.schedule(&CommitAction::CommitFinalFromDraft { new_text: String::new(), delete_chars: 1 });
    assert_eq!(s.steps.len(), 1);
    assert_eq!(s.final_draft, 0);
    let s = t.schedule(&CommitAction::ClearDraft { delete_chars: 0 });
    assert!(s.steps.is_empty());
}

#[test]
fn preview_engine_uses_at_most_two_threads() {
    let mut cfg = Config::default().asr.sherpa_paraformer;
    cfg.num_threads = 6;
    assert_eq!(engine_config_for(&cfg, true).num_threads, 2);
    assert_eq!(engine_config_for(&cfg, false).num_threads, 6);
    cfg.num_threads = 0;
    assert_eq!(engine_config_for(&cfg, true).num_threads, 1);
}

#[test]
fn menu_actions_and_the_running_service() {
    assert_eq!(runtime_effect(&MenuAction::ReloadConfig), RuntimeEffect::ReloadAll);
    assert_eq!(runtime_effect(&MenuAction::ToggleLlmEnabled), RuntimeEffect::RebuildLlm);
    assert_eq!(runtime_effect(&MenuAction::QuitUi), RuntimeEffect::Nothing);
    assert_eq!(runtime_effect(&MenuAction::ToggleTextCorrectionEnabled), RuntimeEffect::Nothing);
}

#[test]
fn doctor_texts() {
    assert_eq!(doctor_summary(0, 0), "✅ 所有检查通过！");
    assert_eq!(doctor_summary(0, 2), "⚠️  核心环境可用，但有 2 个注意项");
    assert_eq!(doctor_summary(1, 0), "⚠️  发现 1 个问题");
    assert_eq!(doctor_summary(3, 4), "⚠️  发现 3 个问题，4 个注意项");
    assert_eq!(input_backend_verdict(Some("eitype"), Some("n")), (false, "✅ Wayland 文本输入将优先使用 eitype（n）".to_string()));
    assert_eq!(input_backend_verdict(Some("wtype"), Some("n")).0, true);
    assert_eq!(input_backend_verdict(Some("wtype"), None), (false, "✅ Wayland 文本输入将优先使用 wtype".to_string()));
    assert!(input_backend_verdict(None, None).0);
}
