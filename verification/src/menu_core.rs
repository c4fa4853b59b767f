//! The menu's business logic, shared by the terminal UI and the status
//! bar: actions on the configuration, status messages, and what must be
//! saved or reloaded.

use vstd::prelude::*;
use crate::config::{
    AsrConfig, AudioConfig, CommitConfig, Config, FeedbackConfig, HotkeyConfig, HotkeyTriggerMode,
    LLMConfig, PunctuationConfig, TextCorrectionConfig, trigger_mode_label,
};
use crate::text::{copy_str, trim, trim_str};

verus! {

/// Number of entries of the menu.
pub const MENU_ITEM_COUNT: usize = 4;

/// The label of menu entry `i`.
pub open spec fn menu_item_spec(i: int) -> Seq<char> {
    if i == 0 {
        "启用 LLM 润色"@
    } else if i == 1 {
        "启用文本纠错"@
    } else if i == 2 {
        "编辑 LLM 配置"@
    } else {
        "退出"@
    }
}

/// The label of menu entry `i`.
pub fn menu_item(i: usize) -> (r: &'static str)
    requires
        i < MENU_ITEM_COUNT,
    ensures
        r@ == menu_item_spec(i as int),
{
    if i == 0 {
        "启用 LLM 润色"
    } else if i == 1 {
        "启用文本纠错"
    } else if i == 2 {
        "编辑 LLM 配置"
    } else {
        "退出"
    }
}

/// A field of the LLM settings that can be edited.
#[derive(Debug, Clone, Copy, PartialEq, Eq, Structural)]
pub enum EditableField {
    LlmProvider,
    LlmModel,
    LlmApiBase,
    LlmApiKey,
}

/// A menu action.
#[derive(Debug, Clone)]
pub enum MenuAction {
    ToggleLlmEnabled,
    ToggleTextCorrectionEnabled,
    OpenConfigFolder,
    OpenModelFolder,
    SetField { field: EditableField, value: String },
    SetLlmConfig { provider: String, model: String, api_base: String, api_key: String },
    SetHotkeyTriggerMode { mode: HotkeyTriggerMode },
    ReloadConfig,
    QuitUi,
}

/// What the menu shows.
#[derive(Debug, Clone)]
pub struct MenuSnapshot {
    pub config_path: String,
    pub status: String,
    pub dirty: bool,
    pub should_quit_ui: bool,
    pub hotkey_trigger_mode: HotkeyTriggerMode,
    pub llm_enabled: bool,
    pub text_correction_enabled: bool,
    pub llm_provider: String,
    pub llm_model: String,
    pub llm_api_base: String,
    pub llm_api_key: String,
}

/// The outcome of an action.
#[derive(Debug, Clone)]
pub struct MenuActionResult {
    pub ok: bool,
    pub message: String,
    pub quit_ui: bool,
    pub snapshot: MenuSnapshot,
}

/// Input and output that an action leaves to the caller.
#[derive(Debug, Clone, Copy, PartialEq, Eq, Structural)]
pub enum PendingIo {
    /// Nothing to do.
    Nothing,
    /// The configuration must be saved to the configuration path.
    Persist,
    /// The configuration must be loaded again from the configuration path.
    Reload,
}

/// The menu state.
pub struct MenuCore {
    config: Config,
    config_path: String,
    status: String,
    dirty: bool,
    should_quit_ui: bool,
    pending: PendingIo,
}

/// The LLM settings as plain values: enabled, provider, model, API base, API key.
pub open spec fn llm_view(l: LLMConfig) -> (bool, Seq<char>, Seq<char>, Seq<char>, Seq<char>) {
    (l.enabled, l.provider@, l.model@, l.api_base@, l.api_key@)
}

/// `n` equals `o` outside the LLM settings, the text-correction switch and
/// the hotkey mode.
pub open spec fn same_other_settings(o: Config, n: Config) -> bool {
    &&& n.audio == o.audio
    &&& n.asr == o.asr
    &&& n.text_correction.homophone_map == o.text_correction.homophone_map
    &&& n.feedback == o.feedback
    &&& n.commit == o.commit
    &&& n.punctuation == o.punctuation
}

/// The settings the menu changes, as plain values.
pub open spec fn menu_settings(c: Config) -> (
    (bool, Seq<char>, Seq<char>, Seq<char>, Seq<char>),
    bool,
    HotkeyTriggerMode,
) {
    (llm_view(c.llm), c.text_correction.enabled, c.hotkey.trigger_mode)
}

/// `"true"` or `"false"`.
pub open spec fn bool_text(b: bool) -> Seq<char> {
    if b {
        "true"@
    } else {
        "false"@
    }
}

/// The settings after `a`, or the error message when `a` is refused.
pub open spec fn settings_after(c: Config, a: MenuAction) -> Result<
    ((bool, Seq<char>, Seq<char>, Seq<char>, Seq<char>), bool, HotkeyTriggerMode),
    Seq<char>,
> {
    let (l, tc, mode) = menu_settings(c);
    match a {
        MenuAction::ToggleLlmEnabled => Ok(((!l.0, l.1, l.2, l.3, l.4), tc, mode)),
        MenuAction::ToggleTextCorrectionEnabled => Ok((l, !tc, mode)),
        MenuAction::SetField { field, value } => {
            let t = trim(value@);
            if t.len() == 0 {
                Err("输入不能为空"@)
            } else {
                Ok(
                    (
                        match field {
                            EditableField::LlmProvider => (l.0, t, l.2, l.3, l.4),
                            EditableField::LlmModel => (l.0, l.1, t, l.3, l.4),
                            EditableField::LlmApiBase => (l.0, l.1, l.2, t, l.4),
                            EditableField::LlmApiKey => (l.0, l.1, l.2, l.3, t),
                        },
                        tc,
                        mode,
                    ),
                )
            }
        },
        MenuAction::SetLlmConfig { provider, model, api_base, api_key } => {
            let (p, m, b, k) = (trim(provider@), trim(model@), trim(api_base@), trim(api_key@));
            if p.len() == 0 || m.len() == 0 || b.len() == 0 {
                Err("LLM 配置中 provider/model/api_base 不能为空"@)
            } else {
                Ok(((l.0, p, m, b, k), tc, mode))
            }
        },
        MenuAction::SetHotkeyTriggerMode { mode: m } => Ok((l, tc, m)),
        _ => Ok((l, tc, mode)),
    }
}

/// The status message after `a` succeeds on configuration `c` (before it).
pub open spec fn success_status(c: Config, a: MenuAction) -> Seq<char> {
    match a {
        MenuAction::ToggleLlmEnabled => "LLM 开关 => "@ + bool_text(!c.llm.enabled) + "（已自动保存）"@,
        MenuAction::ToggleTextCorrectionEnabled => "文本纠错开关 => "@ + bool_text(
            !c.text_correction.enabled,
        ) + "（已自动保存）"@,
        MenuAction::OpenConfigFolder => "正在打开配置文件夹..."@,
        MenuAction::OpenModelFolder => "正在打开模型文件夹..."@,
        MenuAction::SetField { .. } => "编辑已应用（已自动保存）"@,
        MenuAction::SetLlmConfig { .. } => "LLM 配置已更新（已自动保存）"@,
        MenuAction::SetHotkeyTriggerMode { mode } => "热键触发模式已切换为 "@ + trigger_mode_label(mode)
            + "（已自动保存）"@,
        MenuAction::ReloadConfig => "配置文件已重载"@,
        MenuAction::QuitUi => "收到退出指令"@,
    }
}

/// The input or output that a successful action asks for.
pub open spec fn pending_for(a: MenuAction) -> PendingIo {
    match a {
        MenuAction::ToggleLlmEnabled => PendingIo::Persist,
        MenuAction::ToggleTextCorrectionEnabled => PendingIo::Persist,
        MenuAction::SetField { .. } => PendingIo::Persist,
        MenuAction::SetLlmConfig { .. } => PendingIo::Persist,
        MenuAction::SetHotkeyTriggerMode { .. } => PendingIo::Persist,
        MenuAction::ReloadConfig => PendingIo::Reload,
        _ => PendingIo::Nothing,
    }
}

/// The snapshot shows the state.
pub open spec fn snapshot_shows(s: MenuSnapshot, c: Config, path: Seq<char>, status: Seq<char>, dirty: bool, quit: bool) -> bool {
    &&& s.config_path@ == path
    &&& s.status@ == status
    &&& s.dirty == dirty
    &&& s.should_quit_ui == quit
    &&& s.hotkey_trigger_mode == c.hotkey.trigger_mode
    &&& s.llm_enabled == c.llm.enabled
    &&& s.text_correction_enabled == c.text_correction.enabled
    &&& s.llm_provider@ == c.llm.provider@
    &&& s.llm_model@ == c.llm.model@
    &&& s.llm_api_base@ == c.llm.api_base@
    &&& s.llm_api_key@ == c.llm.api_key@
}

/// The menu `n` is the menu `o` after executing `action`: the settings
/// change as `settings_after` says (nothing else changes), and the status,
/// the pending input or output and the quit request follow.
pub open spec fn menu_executed(o: MenuCore, n: MenuCore, action: MenuAction) -> bool {
    &&& n.path_view() == o.path_view()
    &&& n.dirty_view() == o.dirty_view()
    &&& match settings_after(o.config_view(), action) {
        Ok(s) => {
            &&& n.status_view() == success_status(o.config_view(), action)
            &&& menu_settings(n.config_view()) == s
            &&& same_other_settings(o.config_view(), n.config_view())
            &&& n.pending_view() == pending_for(action)
            &&& n.quit_view() == (o.quit_view() || action is QuitUi)
        },
        Err(e) => {
            &&& n.status_view() == failure_status(e)
            &&& n.config_view() == o.config_view()
            &&& n.pending_view() == PendingIo::Nothing
            &&& n.quit_view() == o.quit_view()
        },
    }
}

/// The menu `n` is the menu `o` with the status `status`.
pub open spec fn menu_status_set(o: MenuCore, n: MenuCore, status: Seq<char>) -> bool {
    &&& n.status_view() == status
    &&& n.config_view() == o.config_view()
    &&& n.path_view() == o.path_view()
    &&& n.dirty_view() == o.dirty_view()
    &&& n.quit_view() == o.quit_view()
    &&& n.pending_view() == o.pending_view()
}

/// `"操作失败: "` followed by the error.
pub open spec fn failure_status(err: Seq<char>) -> Seq<char> {
    "操作失败: "@ + err
}

fn bool_str(b: bool) -> (r: &'static str)
    ensures
        r@ == bool_text(b),
{
    if b {
        "true"
    } else {
        "false"
    }
}

fn concat3(a: &str, b: &str, c: &str) -> (r: String)
    ensures
        r@ == a@ + b@ + c@,
{
    let mut r = String::from_str(a);
    r.append(b);
    r.append(c);
    r
}

fn copy_llm(l: &LLMConfig) -> (r: LLMConfig)
    ensures
        llm_view(r) == llm_view(*l),
{
    LLMConfig {
        enabled: l.enabled,
        provider: copy_str(l.provider.as_str()),
        model: copy_str(l.model.as_str()),
        api_base: copy_str(l.api_base.as_str()),
        api_key: copy_str(l.api_key.as_str()),
    }
}

impl MenuCore {
    /// The configuration.
    pub closed spec fn config_view(&self) -> Config {
        self.config
    }

    /// The configuration path.
    pub closed spec fn path_view(&self) -> Seq<char> {
        self.config_path@
    }

    /// The status line.
    pub closed spec fn status_view(&self) -> Seq<char> {
        self.status@
    }

    /// Whether unsaved changes exist.
    pub closed spec fn dirty_view(&self) -> bool {
        self.dirty
    }

    /// Whether the UI was asked to quit.
    pub closed spec fn quit_view(&self) -> bool {
        self.should_quit_ui
    }

    /// The input or output left to the caller.
    pub closed spec fn pending_view(&self) -> PendingIo {
        self.pending
    }

    /// A menu over `config`, loaded from `config_path` by the caller.
    pub fn new(config_path: &str, config: Config) -> (r: Self)
        ensures
            r.config_view() == config,
            r.path_view() == config_path@,
            r.status_view() == "就绪。方向键选择，Enter执行，q退出。"@,
            !r.dirty_view(),
            !r.quit_view(),
            r.pending_view() == PendingIo::Nothing,
    {
        MenuCore {
            config,
            config_path: String::from_str(config_path),
            status: String::from_str("就绪。方向键选择，Enter执行，q退出。"),
            dirty: false,
            should_quit_ui: false,
            pending: PendingIo::Nothing,
        }
    }

    /// The configuration.
    pub fn config(&self) -> (r: &Config)
        ensures
            *r == self.config_view(),
    {
        &self.config
    }

    /// The configuration path.
    pub fn config_path(&self) -> (r: &str)
        ensures
            r@ == self.path_view(),
    {
        self.config_path.as_str()
    }

    /// What the menu shows.
    pub fn snapshot(&self) -> (r: MenuSnapshot)
        ensures
            snapshot_shows(
                r,
                self.config_view(),
                self.path_view(),
                self.status_view(),
                self.dirty_view(),
                self.quit_view(),
            ),
    {
        MenuSnapshot {
            config_path: copy_str(self.config_path.as_str()),
            status: copy_str(self.status.as_str()),
            dirty: self.dirty,
            should_quit_ui: self.should_quit_ui,
            hotkey_trigger_mode: self.config.hotkey.trigger_mode,
            llm_enabled: self.config.llm.enabled,
            text_correction_enabled: self.config.text_correction.enabled,
            llm_provider: copy_str(self.config.llm.provider.as_str()),
            llm_model: copy_str(self.config.llm.model.as_str()),
            llm_api_base: copy_str(self.config.llm.api_base.as_str()),
            llm_api_key: copy_str(self.config.llm.api_key.as_str()),
        }
    }

    /// The current value of an editable field.
    pub fn current_value(&self, field: EditableField) -> (r: String)
        ensures
            r@ == match field {
                EditableField::LlmProvider => self.config_view().llm.provider@,
                EditableField::LlmModel => self.config_view().llm.model@,
                EditableField::LlmApiBase => self.config_view().llm.api_base@,
                EditableField::LlmApiKey => self.config_view().llm.api_key@,
            },
            r@ == field_value(self.config_view(), field),
    {
        match field {
            EditableField::LlmProvider => copy_str(self.config.llm.provider.as_str()),
            EditableField::LlmModel => copy_str(self.config.llm.model.as_str()),
            EditableField::LlmApiBase => copy_str(self.config.llm.api_base.as_str()),
            EditableField::LlmApiKey => copy_str(self.config.llm.api_key.as_str()),
        }
    }

    /// Whether the UI was asked to quit.
    pub fn should_quit_ui(&self) -> (r: bool)
        ensures
            r == self.quit_view(),
    {
        self.should_quit_ui
    }

    /// Sets the status line.
    pub fn set_status(&mut self, status: &str)
        ensures
            menu_status_set(*old(self), *final(self), status@),
            final(self).status_view() == status@,
            final(self).config_view() == old(self).config_view(),
            final(self).path_view() == old(self).path_view(),
            final(self).dirty_view() == old(self).dirty_view(),
            final(self).quit_view() == old(self).quit_view(),
            final(self).pending_view() == old(self).pending_view(),
    {
        self.status = String::from_str(status);
    }

    /// The input or output the last action left to the caller.
    pub fn pending_io(&self) -> (r: PendingIo)
        ensures
            r == self.pending_view(),
    {
        self.pending
    }

    /// Applies an action in memory. When it succeeds, the status is its
    /// success message and [`Self::pending_io`] tells whether the caller
    /// must now save the configuration ([`Self::complete_persist`]) or
    /// reload it ([`Self::complete_reload`]); when it is refused, the
    /// status is the failure message and nothing is left to do.
    pub fn execute(&mut self, action: MenuAction) -> (r: MenuActionResult)
        ensures
            menu_executed(*old(self), *final(self), action),
            r.ok == (settings_after(old(self).config_view(), action) is Ok),
            ({
                let o = old(self).config_view();
                let n = final(self).config_view();
                match settings_after(o, action) {
                    Ok(s) => {
                        &&& r.ok
                        &&& r.quit_ui == (action is QuitUi)
                        &&& r.message@ == success_status(o, action)
                        &&& final(self).status_view() == success_status(o, action)
                        &&& menu_settings(n) == s
                        &&& same_other_settings(o, n)
                        &&& final(self).pending_view() == pending_for(action)
                        &&& final(self).quit_view() == (old(self).quit_view() || action is QuitUi)
                    },
                    Err(e) => {
                        &&& !r.ok
                        &&& !r.quit_ui
                        &&& r.message@ == e
                        &&& final(self).status_view() == failure_status(e)
                        &&& n == o
                        &&& final(self).pending_view() == PendingIo::Nothing
                        &&& final(self).quit_view() == old(self).quit_view()
                    },
                }
            }),
            final(self).path_view() == old(self).path_view(),
            final(self).dirty_view() == old(self).dirty_view(),
            snapshot_shows(
                r.snapshot,
                final(self).config_view(),
                final(self).path_view(),
                final(self).status_view(),
                final(self).dirty_view(),
                final(self).quit_view(),
            ),
    {
        let is_quit = match &action {
            MenuAction::QuitUi => true,
            _ => false,
        };
        match self.execute_inner(action) {
            Ok(message) => MenuActionResult {
                ok: true,
                quit_ui: is_quit,
                message,
                snapshot: self.snapshot(),
            },
            Err(err) => {
                let mut status = String::from_str("操作失败: ");
                status.append(err.as_str());
                self.status = status;
                MenuActionResult { ok: false, quit_ui: false, message: err, snapshot: self.snapshot() }
            },
        }
    }

    /// The in-memory part of an action: the new settings and status, or
    /// the error message.
    fn execute_inner(&mut self, action: MenuAction) -> (r: Result<String, String>)
        ensures
            ({
                let o = old(self).config_view();
                let n = final(self).config_view();
                match settings_after(o, action) {
                    Ok(s) => {
                        &&& r matches Ok(m) && m@ == success_status(o, action)
                        &&& final(self).status_view() == success_status(o, action)
                        &&& menu_settings(n) == s
                        &&& same_other_settings(o, n)
                        &&& final(self).pending_view() == pending_for(action)
                        &&& final(self).quit_view() == (old(self).quit_view() || action is QuitUi)
                    },
                    Err(e) => {
                        &&& r matches Err(m) && m@ == e
                        &&& n == o
                        &&& final(self).status_view() == old(self).status_view()
                        &&& final(self).pending_view() == PendingIo::Nothing
                        &&& final(self).quit_view() == old(self).quit_view()
                    },
                }
            }),
            final(self).path_view() == old(self).path_view(),
            final(self).dirty_view() == old(self).dirty_view(),
    {
        self.pending = PendingIo::Nothing;
        let status = match action {
            MenuAction::ToggleLlmEnabled => {
                self.config.llm.enabled = !self.config.llm.enabled;
                self.pending = PendingIo::Persist;
                concat3("LLM 开关 => ", bool_str(self.config.llm.enabled), "（已自动保存）")
            },
            MenuAction::ToggleTextCorrectionEnabled => {
                self.config.text_correction.enabled = !self.config.text_correction.enabled;
                self.pending = PendingIo::Persist;
                concat3(
                    "文本纠错开关 => ",
                    bool_str(self.config.text_correction.enabled),
                    "（已自动保存）",
                )
            },
            MenuAction::OpenConfigFolder => String::from_str("正在打开配置文件夹..."),
            MenuAction::OpenModelFolder => String::from_str("正在打开模型文件夹..."),
            MenuAction::SetField { field, value } => {
                let trimmed = trim_str(value.as_str());
                if trimmed.unicode_len() == 0 {
                    return Err(String::from_str("输入不能为空"));
                }
                match field {
                    EditableField::LlmProvider => self.config.llm.provider = trimmed,
                    EditableField::LlmModel => self.config.llm.model = trimmed,
                    EditableField::LlmApiBase => self.config.llm.api_base = trimmed,
                    EditableField::LlmApiKey => self.config.llm.api_key = trimmed,
                }
                self.pending = PendingIo::Persist;
                String::from_str("编辑已应用（已自动保存）")
            },
            MenuAction::SetLlmConfig { provider, model, api_base, api_key } => {
                let provider = trim_str(provider.as_str());
                let model = trim_str(model.as_str());
                let api_base = trim_str(api_base.as_str());
                let api_key = trim_str(api_key.as_str());
                if provider.unicode_len() == 0 || model.unicode_len() == 0
                    || api_base.unicode_len() == 0 {
                    return Err(String::from_str("LLM 配置中 provider/model/api_base 不能为空"));
                }
                self.config.llm.provider = provider;
                self.config.llm.model = model;
                self.config.llm.api_base = api_base;
                self.config.llm.api_key = api_key;
                self.pending = PendingIo::Persist;
                String::from_str("LLM 配置已更新（已自动保存）")
            },
            MenuAction::SetHotkeyTriggerMode { mode } => {
                self.config.hotkey.trigger_mode = mode;
                self.pending = PendingIo::Persist;
                concat3("热键触发模式已切换为 ", mode.label(), "（已自动保存）")
            },
            MenuAction::ReloadConfig => {
                self.pending = PendingIo::Reload;
                String::from_str("配置文件已重载")
            },
            MenuAction::QuitUi => {
                self.should_quit_ui = true;
                String::from_str("收到退出指令")
            },
        };
        self.status = copy_str(status.as_str());
        Ok(status)
    }

    /// Reports the outcome of saving the configuration asked for by
    /// [`PendingIo::Persist`]. On success nothing is left unsaved and `None`
    /// is returned; on failure the status becomes the failure message and
    /// the failed result is returned.
    pub fn complete_persist(&mut self, outcome: Result<(), String>) -> (r: Option<MenuActionResult>)
        ensures
            final(self).config_view() == old(self).config_view(),
            final(self).path_view() == old(self).path_view(),
            final(self).quit_view() == old(self).quit_view(),
            final(self).pending_view() == PendingIo::Nothing,
            match outcome {
                Ok(()) => r is None && !final(self).dirty_view() && final(self).status_view()
                    == old(self).status_view(),
                Err(e) => {
                    &&& final(self).dirty_view() == old(self).dirty_view()
                    &&& final(self).status_view() == failure_status(e@)
                    &&& r matches Some(res) && !res.ok && !res.quit_ui && res.message@ == e@
                        && snapshot_shows(
                        res.snapshot,
                        final(self).config_view(),
                        final(self).path_view(),
                        final(self).status_view(),
                        final(self).dirty_view(),
                        final(self).quit_view(),
                    )
                },
            },
    {
        self.pending = PendingIo::Nothing;
        match outcome {
            Ok(()) => {
                self.dirty = false;
                None
            },
            Err(err) => {
                let mut status = String::from_str("操作失败: ");
                status.append(err.as_str());
                self.status = status;
                Some(
                    MenuActionResult {
                        ok: false,
                        quit_ui: false,
                        message: err,
                        snapshot: self.snapshot(),
                    },
                )
            },
        }
    }

    /// Reports the outcome of reloading the configuration asked for by
    /// [`PendingIo::Reload`], and returns the action's result.
    pub fn complete_reload(&mut self, outcome: Result<Config, String>) -> (r: MenuActionResult)
        ensures
            final(self).path_view() == old(self).path_view(),
            final(self).quit_view() == old(self).quit_view(),
            final(self).dirty_view() == old(self).dirty_view(),
            final(self).pending_view() == PendingIo::Nothing,
            match outcome {
                Ok(c) => {
                    &&& final(self).config_view() == c
                    &&& final(self).status_view() == "配置文件已重载"@
                    &&& r.ok && !r.quit_ui && r.message@ == "配置文件已重载"@
                },
                Err(e) => {
                    &&& final(self).config_view() == old(self).config_view()
                    &&& final(self).status_view() == failure_status(e@)
                    &&& !r.ok && !r.quit_ui && r.message@ == e@
                },
            },
            snapshot_shows(
                r.snapshot,
                final(self).config_view(),
                final(self).path_view(),
                final(self).status_view(),
                final(self).dirty_view(),
                final(self).quit_view(),
            ),
    {
        self.pending = PendingIo::Nothing;
        match outcome {
            Ok(config) => {
                self.config = config;
                self.status = String::from_str("配置文件已重载");
                MenuActionResult {
                    ok: true,
                    quit_ui: false,
                    message: String::from_str("配置文件已重载"),
                    snapshot: self.snapshot(),
                }
            },
            Err(err) => {
                let mut status = String::from_str("操作失败: ");
                status.append(err.as_str());
                self.status = status;
                MenuActionResult { ok: false, quit_ui: false, message: err, snapshot: self.snapshot() }
            },
        }
    }
}


/// Menu changes are saved automatically: an action that changes any
/// setting leaves the configuration to be written to its file, and an
/// action that is refused changes nothing and leaves nothing to do.
pub proof fn law_menu_changes_are_saved(o: MenuCore, n: MenuCore, action: MenuAction)
    requires
        menu_executed(o, n, action),
    ensures
        menu_settings(n.config_view()) != menu_settings(o.config_view()) ==> n.pending_view()
            == PendingIo::Persist,
        settings_after(o.config_view(), action) is Err ==> n.config_view() == o.config_view()
            && n.pending_view() == PendingIo::Nothing,
{
}

/// The text of an editable field in a configuration.
pub open spec fn field_value(c: Config, f: EditableField) -> Seq<char> {
    match f {
        EditableField::LlmProvider => c.llm.provider@,
        EditableField::LlmModel => c.llm.model@,
        EditableField::LlmApiBase => c.llm.api_base@,
        EditableField::LlmApiKey => c.llm.api_key@,
    }
}

/// Each field edit writes exactly its own setting: after `SetField` with a
/// value that is not blank, the field reads back as the trimmed value, every
/// other editable field keeps its text, and the switches and the trigger
/// mode are untouched. A blank value is refused and changes nothing.
pub proof fn law_set_field_writes_only_that_field(
    o: MenuCore,
    n: MenuCore,
    field: EditableField,
    value: String,
    other: EditableField,
)
    requires
        menu_executed(o, n, MenuAction::SetField { field, value }),
    ensures
        trim(value@).len() > 0 ==> {
            &&& field_value(n.config_view(), field) == trim(value@)
            &&& other != field ==> field_value(n.config_view(), other) == field_value(
                o.config_view(),
                other,
            )
            &&& n.config_view().llm.enabled == o.config_view().llm.enabled
            &&& n.config_view().text_correction.enabled == o.config_view().text_correction.enabled
            &&& n.config_view().hotkey.trigger_mode == o.config_view().hotkey.trigger_mode
            &&& n.pending_view() == PendingIo::Persist
        },
        trim(value@).len() == 0 ==> n.config_view() == o.config_view(),
{
}

/// Toggling the LLM or the text correction twice gives back the settings
/// the menu started with.
pub proof fn law_toggle_twice_restores(m0: MenuCore, m1: MenuCore, m2: MenuCore, action: MenuAction)
    requires
        action is ToggleLlmEnabled || action is ToggleTextCorrectionEnabled,
        menu_executed(m0, m1, action),
        menu_executed(m1, m2, action),
    ensures
        menu_settings(m2.config_view()) == menu_settings(m0.config_view()),
        same_other_settings(m0.config_view(), m2.config_view()),
{
}

} // verus!
