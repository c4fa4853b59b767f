//! Decisions of the command-line service: which engine settings a runtime
//! gets, what a menu action changes in the running service, and how the
//! diagnosis is summed up.

use vstd::prelude::*;
use crate::config::SherpaParaformerConfig;
use crate::menu_core::{EditableField, MenuAction};
use crate::text::{copy_str, decimal, str_eq, u64_to_decimal};
use crate::config::HotkeyTriggerMode;
use crate::linux_desktop::{opt_view, ShortcutConflict, ShortcutInstallResult};
use crate::keyboard::args_view;

verus! {

/// Recognition threads for an engine: at least one, and at most two for
/// the live preview.
pub open spec fn engine_threads(configured: i32, preview: bool) -> i32 {
    let t = if configured < 1 { 1 } else { configured };
    if preview && t > 2 {
        2
    } else {
        t
    }
}

fn copy_opt(o: &Option<String>) -> (r: Option<String>)
    ensures
        r matches Some(s) ==> (*o matches Some(t) && s@ == t@),
        r is None ==> o is None,
{
    match o {
        Some(s) => Some(copy_str(s.as_str())),
        None => None,
    }
}

/// The Paraformer settings of the main engine (`preview == false`) or of
/// the live-preview engine: the same files and provider, with the thread
/// count of `engine_threads`.
pub fn engine_config_for(cfg: &SherpaParaformerConfig, preview: bool) -> (r: SherpaParaformerConfig)
    ensures
        r.encoder_path@ == cfg.encoder_path@,
        r.decoder_path@ == cfg.decoder_path@,
        r.tokens_path@ == cfg.tokens_path@,
        r.provider matches Some(p) ==> (cfg.provider matches Some(q) && p@ == q@),
        r.provider is None ==> cfg.provider is None,
        r.num_threads == engine_threads(cfg.num_threads, preview),
{
    let mut threads: i32 = if cfg.num_threads < 1 { 1 } else { cfg.num_threads };
    if preview && threads > 2 {
        threads = 2;
    }
    SherpaParaformerConfig {
        encoder_path: copy_str(cfg.encoder_path.as_str()),
        decoder_path: copy_str(cfg.decoder_path.as_str()),
        tokens_path: copy_str(cfg.tokens_path.as_str()),
        provider: copy_opt(&cfg.provider),
        num_threads: threads,
    }
}

/// What a successful menu action changes in the running service.
#[derive(Debug, Clone, Copy, PartialEq, Eq, Structural)]
pub enum RuntimeEffect {
    /// Nothing beyond the saved configuration.
    Nothing,
    /// The hotkey listens in a new mode.
    SetTriggerMode(HotkeyTriggerMode),
    /// Open the configuration folder.
    OpenConfigFolder,
    /// Open the model folder.
    OpenModelFolder,
    /// Build the LLM client again from the saved configuration.
    RebuildLlm,
    /// Load the configuration again and rebuild the hotkey, the recognition
    /// engines and the LLM client.
    ReloadAll,
}

/// The effect of each action on the running service.
pub open spec fn runtime_effect_spec(action: MenuAction) -> RuntimeEffect {
    match action {
        MenuAction::SetHotkeyTriggerMode { mode } => RuntimeEffect::SetTriggerMode(mode),
        MenuAction::OpenConfigFolder => RuntimeEffect::OpenConfigFolder,
        MenuAction::OpenModelFolder => RuntimeEffect::OpenModelFolder,
        MenuAction::SetField { .. } => RuntimeEffect::RebuildLlm,
        MenuAction::SetLlmConfig { .. } => RuntimeEffect::RebuildLlm,
        MenuAction::ToggleLlmEnabled => RuntimeEffect::RebuildLlm,
        MenuAction::ReloadConfig => RuntimeEffect::ReloadAll,
        _ => RuntimeEffect::Nothing,
    }
}

/// What the running service must do after `action` succeeded.
pub fn runtime_effect(action: &MenuAction) -> (r: RuntimeEffect)
    ensures
        r == runtime_effect_spec(*action),
{
    match action {
        MenuAction::SetHotkeyTriggerMode { mode } => RuntimeEffect::SetTriggerMode(*mode),
        MenuAction::OpenConfigFolder => RuntimeEffect::OpenConfigFolder,
        MenuAction::OpenModelFolder => RuntimeEffect::OpenModelFolder,
        MenuAction::SetField { .. } => RuntimeEffect::RebuildLlm,
        MenuAction::SetLlmConfig { .. } => RuntimeEffect::RebuildLlm,
        MenuAction::ToggleLlmEnabled => RuntimeEffect::RebuildLlm,
        MenuAction::ReloadConfig => RuntimeEffect::ReloadAll,
        _ => RuntimeEffect::Nothing,
    }
}

/// The last line of the diagnosis.
pub open spec fn doctor_summary_spec(issues: nat, warnings: nat) -> Seq<char> {
    if issues == 0 && warnings == 0 {
        "✅ 所有检查通过！"@
    } else if issues == 0 {
        "⚠️  核心环境可用，但有 "@ + decimal(warnings) + " 个注意项"@
    } else if warnings == 0 {
        "⚠️  发现 "@ + decimal(issues) + " 个问题"@
    } else {
        "⚠️  发现 "@ + decimal(issues) + " 个问题，"@ + decimal(warnings) + " 个注意项"@
    }
}

/// Sums up the diagnosis from the numbers of problems and of points to
/// note.
pub fn doctor_summary(issues: u64, warnings: u64) -> (r: String)
    ensures
        r@ == doctor_summary_spec(issues as nat, warnings as nat),
{
    if issues == 0 && warnings == 0 {
        String::from_str("✅ 所有检查通过！")
    } else if issues == 0 {
        let mut r = String::from_str("⚠️  核心环境可用，但有 ");
        let w = u64_to_decimal(warnings);
        r.append(w.as_str());
        r.append(" 个注意项");
        r
    } else if warnings == 0 {
        let mut r = String::from_str("⚠️  发现 ");
        let i = u64_to_decimal(issues);
        r.append(i.as_str());
        r.append(" 个问题");
        r
    } else {
        let mut r = String::from_str("⚠️  发现 ");
        let i = u64_to_decimal(issues);
        r.append(i.as_str());
        r.append(" 个问题，");
        let w = u64_to_decimal(warnings);
        r.append(w.as_str());
        r.append(" 个注意项");
        r
    }
}

/// The diagnosis of text input under Wayland, from the back end that would
/// be used and the advice about it: whether it is a point to note, and the
/// line to print.
pub open spec fn input_verdict_spec(label: Option<Seq<char>>, note: Option<Seq<char>>) -> (bool, Seq<char>) {
    match label {
        None => (true, "⚠️  未检测到 eitype/wtype/xdotool；Wayland 下文本输入可能失败"@),
        Some(b) => match note {
            Some(n) => if b == "eitype"@ {
                (false, "✅ Wayland 文本输入将优先使用 eitype（"@ + n + "）"@)
            } else {
                (true, "⚠️  Wayland 文本输入将优先使用 "@ + b + "（"@ + n + "）"@)
            },
            None => (false, "✅ Wayland 文本输入将优先使用 "@ + b),
        },
    }
}

/// Judges the text input back end for the diagnosis.
pub fn input_backend_verdict(label: Option<&str>, note: Option<&str>) -> (r: (bool, String))
    ensures
        (r.0, r.1@) == input_verdict_spec(
            match label {
                Some(l) => Some(l@),
                None => None,
            },
            match note {
                Some(n) => Some(n@),
                None => None,
            },
        ),
{
    match label {
        None => (true, String::from_str("⚠️  未检测到 eitype/wtype/xdotool；Wayland 下文本输入可能失败")),
        Some(b) => match note {
            Some(n) => if str_eq(b, "eitype") {
                let mut r = String::from_str("✅ Wayland 文本输入将优先使用 eitype（");
                r.append(n);
                r.append("）");
                (false, r)
            } else {
                let mut r = String::from_str("⚠️  Wayland 文本输入将优先使用 ");
                r.append(b);
                r.append("（");
                r.append(n);
                r.append("）");
                (true, r)
            },
            None => {
                let mut r = String::from_str("✅ Wayland 文本输入将优先使用 ");
                r.append(b);
                (false, r)
            },
        },
    }
}

/// The error when the background service did not start: the reason, the
/// log file, and the last lines of the log when there are any.
pub open spec fn start_error_spec(err: Seq<char>, log_path: Seq<char>, recent_log: Seq<char>) -> Seq<char> {
    if crate::text::trim(recent_log).len() == 0 {
        "后台服务启动失败: "@ + err + "\n日志文件: "@ + log_path
    } else {
        "后台服务启动失败: "@ + err + "\n日志文件: "@ + log_path + "\n最近日志:\n"@ + recent_log
    }
}

/// Explains a failed background start.
pub fn background_start_error(err: &str, log_path: &str, recent_log: &str) -> (r: String)
    ensures
        r@ == start_error_spec(err@, log_path@, recent_log@),
{
    let mut r = String::from_str("后台服务启动失败: ");
    r.append(err);
    r.append("\n日志文件: ");
    r.append(log_path);
    let t = crate::text::trim_str(recent_log);
    if crate::text::to_chars(t.as_str()).len() > 0 {
        r.append("\n最近日志:\n");
        r.append(recent_log);
    }
    r
}

/// The warning when a GNOME shortcut would fire the trigger while the
/// built-in hotkey is in use.
pub open spec fn conflict_warning_spec(binding: Seq<char>, name: Option<Seq<char>>) -> Seq<char> {
    "检测到 GNOME 自定义快捷键 "@ + binding + " -> "@ + match name {
        Some(n) => n,
        None => "echopup trigger toggle"@,
    } + "，当前 X11 会话已使用应用内热键；请删除或改键该桌面快捷键以避免重复触发"@
}

/// Warns about EchoPup's own desktop shortcut when the built-in hotkey is
/// used (no warning with the external trigger, or without a shortcut).
pub fn internal_hotkey_conflict_warning(external_trigger: bool, conflict: Option<&ShortcutConflict>) -> (r: Option<String>)
    ensures
        external_trigger ==> r is None,
        !external_trigger && conflict is None ==> r is None,
        !external_trigger ==> (conflict matches Some(c) ==> (r matches Some(w) && w@
            == conflict_warning_spec(c.binding@, opt_view(c.name)))),
{
    if external_trigger {
        return None;
    }
    match conflict {
        None => None,
        Some(c) => {
            let mut r = String::from_str("检测到 GNOME 自定义快捷键 ");
            r.append(c.binding.as_str());
            r.append(" -> ");
            match &c.name {
                Some(n) => r.append(n.as_str()),
                None => r.append("echopup trigger toggle"),
            }
            r.append("，当前 X11 会话已使用应用内热键；请删除或改键该桌面快捷键以避免重复触发");
            Some(r)
        },
    }
}

/// What `echopup trigger` does: nothing without the external trigger, an
/// error when the service is not running, else it sends the action.
pub fn trigger_command_plan(external_trigger: bool, service_running: bool) -> (r: Result<bool, String>)
    ensures
        !external_trigger ==> r == Ok::<bool, String>(false),
        external_trigger && !service_running ==> (r matches Err(e) && e@
            == "后台服务未运行，请先执行 `echopup start`"@),
        external_trigger && service_running ==> r == Ok::<bool, String>(true),
{
    if !external_trigger {
        return Ok(false);
    }
    if !service_running {
        return Err(String::from_str("后台服务未运行，请先执行 `echopup start`"));
    }
    Ok(true)
}

/// The lines printed after trying to set up the GNOME shortcut for the
/// Wayland trigger, given the outcome, the command bound and the key.
pub open spec fn shortcut_messages_spec(result: ShortcutInstallResult, command_line: Seq<char>, key: Seq<char>) -> Seq<Seq<char>> {
    match result {
        ShortcutInstallResult::Installed => seq![
            "检测到 GNOME Wayland，已自动创建系统快捷键: "@ + key + " -> EchoPup 切换录音"@,
            "对应命令: "@ + command_line,
            "说明: 该快捷键通过 `echopup trigger toggle` 触发后台服务。"@,
        ],
        ShortcutInstallResult::AlreadyInstalled { .. } => Seq::empty(),
        ShortcutInstallResult::UnsupportedEnvironment => Seq::empty(),
        ShortcutInstallResult::BindingConflict { binding, shortcut_name } => seq![
            "检测到 GNOME Wayland，但 "@ + binding@ + " 已被现有快捷键"@ + match shortcut_name {
                Some(n) => " `"@ + n@ + "`"@,
                None => Seq::empty(),
            } + "占用，未自动覆盖。"@,
            "请手动将以下命令绑定到其他按键: "@ + command_line,
        ],
        ShortcutInstallResult::GsettingsUnavailable => seq![
            "检测到 Linux Wayland，但当前无法通过 gsettings 自动写入 GNOME 自定义快捷键。"@,
            "请手动将以下命令绑定到系统快捷键 "@ + key + ": "@ + command_line,
        ],
    }
}

/// The lines to print about the GNOME shortcut.
pub fn shortcut_setup_messages(result: &ShortcutInstallResult, command_line: &str, key: &str) -> (r: Vec<String>)
    ensures
        args_view(r@) == shortcut_messages_spec(*result, command_line@, key@),
{
    let mut r: Vec<String> = Vec::new();
    match result {
        ShortcutInstallResult::Installed => {
            let mut a = String::from_str("检测到 GNOME Wayland，已自动创建系统快捷键: ");
            a.append(key);
            a.append(" -> EchoPup 切换录音");
            let mut b = String::from_str("对应命令: ");
            b.append(command_line);
            let c = String::from_str("说明: 该快捷键通过 `echopup trigger toggle` 触发后台服务。");
            let ghost (va, vb, vc) = (a@, b@, c@);
            r.push(a);
            r.push(b);
            r.push(c);
            assert(args_view(r@) =~= seq![va, vb, vc]);
        },
        ShortcutInstallResult::AlreadyInstalled { .. } => {
            assert(args_view(r@) =~= Seq::<Seq<char>>::empty());
        },
        ShortcutInstallResult::UnsupportedEnvironment => {
            assert(args_view(r@) =~= Seq::<Seq<char>>::empty());
        },
        ShortcutInstallResult::BindingConflict { binding, shortcut_name } => {
            let mut a = String::from_str("检测到 GNOME Wayland，但 ");
            a.append(binding.as_str());
            a.append(" 已被现有快捷键");
            match shortcut_name {
                Some(n) => {
                    a.append(" `");
                    a.append(n.as_str());
                    a.append("`");
                },
                None => {},
            }
            a.append("占用，未自动覆盖。");
            assert(a@ =~= "检测到 GNOME Wayland，但 "@ + binding@ + " 已被现有快捷键"@ + match shortcut_name {
                Some(n) => " `"@ + n@ + "`"@,
                None => Seq::empty(),
            } + "占用，未自动覆盖。"@);
            let mut b = String::from_str("请手动将以下命令绑定到其他按键: ");
            b.append(command_line);
            let ghost (va, vb) = (a@, b@);
            r.push(a);
            r.push(b);
            assert(args_view(r@) =~= seq![va, vb]);
        },
        ShortcutInstallResult::GsettingsUnavailable => {
            let a = String::from_str("检测到 Linux Wayland，但当前无法通过 gsettings 自动写入 GNOME 自定义快捷键。");
            let mut b = String::from_str("请手动将以下命令绑定到系统快捷键 ");
            b.append(key);
            b.append(": ");
            b.append(command_line);
            let ghost (va, vb) = (a@, b@);
            r.push(a);
            r.push(b);
            assert(args_view(r@) =~= seq![va, vb]);
        },
    }
    r
}

} // verus!
