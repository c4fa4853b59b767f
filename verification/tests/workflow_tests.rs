use echopup::linux_desktop::{ShortcutConflict, ShortcutInstallResult};
use echopup::model_download::{is_model_file, local_model_names, plan_model_download, plan_paraformer_download};
use echopup::service::{
    background_start_error, internal_hotkey_conflict_warning, shortcut_setup_messages, trigger_command_plan,
};
use echopup::voice::{commit_notice, failure_notice, transcript_outcome, ProcessFailure};

#[test]
fn start_failure_mentions_log() {
    assert_eq!(
        background_start_error("超时", "/tmp/b.log", ""),
        "后台服务启动失败: 超时\n日志文件: /tmp/b.log"
    );
    assert_eq!(
        background_start_error("超时", "/tmp/b.log", "a\nb"),
        "后台服务启动失败: 超时\n日志文件: /tmp/b.log\n最近日志:\na\nb"
    );
    assert_eq!(
        background_start_error("e", "l", "  \n "),
        "后台服务启动失败: e\n日志文件: l"
    );
}

#[test]
fn hotkey_conflict_warning_only_for_builtin_hotkey() {
    let c = ShortcutConflict { name: Some("EchoPup".to_string()), command: None, binding: "F6".to_string() };
    assert_eq!(internal_hotkey_conflict_warning(true, Some(&c)), None);
    assert_eq!(internal_hotkey_conflict_warning(false, None), None);
    assert_eq!(
        internal_hotkey_conflict_warning(false, Some(&c)).unwrap(),
        "检测到 GNOME 自定义快捷键 F6 -> EchoPup，当前 X11 会话已使用应用内热键；请删除或改键该桌面快捷键以避免重复触发"
    );
    let unnamed = ShortcutConflict { name: None, command: None, binding: "F6".to_string() };
    assert!(internal_hotkey_conflict_warning(false, Some(&unnamed)).unwrap().contains("echopup trigger toggle"));
}

#[test]
fn trigger_command_needs_running_service() {
    assert_eq!(trigger_command_plan(false, false), Ok(false));
    assert_eq!(trigger_command_plan(true, true), Ok(true));
    assert_eq!(
        trigger_command_plan(true, false),
        Err("后台服务未运行，请先执行 `echopup start`".to_string())
    );
}

#[test]
fn shortcut_messages() {
    let m = shortcut_setup_messages(&ShortcutInstallResult::Installed, "echopup trigger toggle", "F6");
    assert_eq!(m.len(), 3);
    assert_eq!(m[0], "检测到 GNOME Wayland，已自动创建系统快捷键: F6 -> EchoPup 切换录音");
    assert_eq!(m[1], "对应命令: echopup trigger toggle");
    assert!(shortcut_setup_messages(&ShortcutInstallResult::UnsupportedEnvironment, "c", "F6").is_empty());
    assert!(shortcut_setup_messages(&ShortcutInstallResult::AlreadyInstalled { binding: None }, "c", "F6").is_empty());
    let m = shortcut_setup_messages(
        &ShortcutInstallResult::BindingConflict { binding: "F6".to_string(), shortcut_name: Some("X".to_string()) },
        "cmd",
        "F6",
    );
    assert_eq!(m, vec!["检测到 GNOME Wayland，但 F6 已被现有快捷键 `X`占用，未自动覆盖。", "请手动将以下命令绑定到其他按键: cmd"]);
    let m = shortcut_setup_messages(&ShortcutInstallResult::GsettingsUnavailable, "cmd", "F6");
    assert_eq!(m[1], "请手动将以下命令绑定到系统快捷键 F6: cmd");
}

#[test]
fn recording_outcomes() {
    assert_eq!(transcript_outcome(0, Some("你好")), Err(ProcessFailure::NoAudio));
    assert_eq!(transcript_outcome(10, None), Err(ProcessFailure::RecognitionFailed));
    assert_eq!(transcript_outcome(10, Some("   ")), Err(ProcessFailure::NoSpeech));
    assert_eq!(transcript_outcome(10, Some("[BLANK_AUDIO]")), Err(ProcessFailure::NoSpeech));
    assert_eq!(transcript_outcome(10, Some("你好")), Ok("你好".to_string()));
    assert_eq!(failure_notice(ProcessFailure::NoAudio), "未检测到语音输入");
    assert_eq!(failure_notice(ProcessFailure::RecognitionFailed), "语音识别失败，请查看日志");
    assert_eq!(commit_notice(true, "你好世界"), "识别完成，已输入 4 字");
    assert_eq!(commit_notice(false, "你好"), "识别完成，但输入失败");
}

#[test]
fn local_models_are_bin_files_sorted() {
    assert!(is_model_file("ggml-medium.bin"));
    assert!(is_model_file("X.BIN"));
    assert!(!is_model_file(".bin"));
    assert!(!is_model_file("notes.txt"));
    assert!(!is_model_file("bin"));
    let names = vec![
        "ggml-medium.bin".to_string(),
        "readme.md".to_string(),
        "ggml-large-v3.bin".to_string(),
        "partial.bin.part".to_string(),
    ];
    assert_eq!(local_model_names(&names), vec!["ggml-large-v3.bin", "ggml-medium.bin"]);
}

#[test]
fn download_plans() {
    assert_eq!(plan_model_download("tiny", "/m").err(), Some("不支持的模型大小: tiny".to_string()));
    let p = plan_model_download("medium", "/m").unwrap();
    assert_eq!(p.state.model_file_name, "ggml-medium.bin");
    assert_eq!(p.state.downloaded, 0);
    assert!(p.state.in_progress);
    assert_eq!(p.url, "https://huggingface.co/ggerganov/whisper.cpp/resolve/main/ggml-medium.bin");
    assert_eq!(p.initial_logs[0], "[start] 准备下载模型 medium");
    assert_eq!(
        p.initial_logs[1],
        "[equiv] curl -fL -C - -o \"/m/ggml-medium.bin.part\" \"https://huggingface.co/ggerganov/whisper.cpp/resolve/main/ggml-medium.bin\""
    );
    let q = plan_paraformer_download("/m/p");
    assert_eq!(q.state.model_size, "paraformer");
    assert_eq!(q.initial_logs[1], "[dir] 模型目录: /m/p");
    assert_eq!(q.initial_logs.len(), 3);
}
