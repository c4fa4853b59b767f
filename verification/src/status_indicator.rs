//! The status indicator's model: its states and their wire names, what the
//! tray shows for each, when a finished state falls back to idle, and which
//! menu entry asks for which action.
//!
//! The tray icon, the menu widgets and the pipe to the indicator process are
//! run by the program around this library.

use vstd::prelude::*;
use crate::config::HotkeyTriggerMode;
use crate::menu_core::{MenuAction, MenuSnapshot};
use crate::paths::{home_dir, join_path, path_join};
use crate::text::{
    copy_str, eq_ignore_case, from_chars_range, replace_char, replace_char_str, str_eq,
    str_eq_ignore_case, to_chars, trim, trim_str,
};

verus! {

/// What the indicator shows.
#[derive(Debug, Clone, Copy, PartialEq, Eq, Structural)]
pub enum IndicatorState {
    Idle,
    RecordingStart,
    Recording,
    Transcribing,
    Completed,
    Failed,
}

/// The wire name of a state.
pub open spec fn state_wire(s: IndicatorState) -> Seq<char> {
    match s {
        IndicatorState::Idle => "idle"@,
        IndicatorState::RecordingStart => "recording_start"@,
        IndicatorState::Recording => "recording"@,
        IndicatorState::Transcribing => "transcribing"@,
        IndicatorState::Completed => "completed"@,
        IndicatorState::Failed => "failed"@,
    }
}

/// The state whose wire name is the trimmed text.
pub open spec fn state_from_wire(input: Seq<char>) -> Option<IndicatorState> {
    let t = trim(input);
    if t == "idle"@ {
        Some(IndicatorState::Idle)
    } else if t == "recording_start"@ {
        Some(IndicatorState::RecordingStart)
    } else if t == "recording"@ {
        Some(IndicatorState::Recording)
    } else if t == "transcribing"@ {
        Some(IndicatorState::Transcribing)
    } else if t == "completed"@ {
        Some(IndicatorState::Completed)
    } else if t == "failed"@ {
        Some(IndicatorState::Failed)
    } else {
        None
    }
}

/// The tray menu's title of a state.
pub open spec fn state_title(s: IndicatorState) -> Seq<char> {
    match s {
        IndicatorState::Idle => "空闲"@,
        IndicatorState::RecordingStart => "准备录音"@,
        IndicatorState::Recording => "录音中"@,
        IndicatorState::Transcribing => "识别中"@,
        IndicatorState::Completed => "完成"@,
        IndicatorState::Failed => "失败"@,
    }
}

/// How long a finished state stays before the indicator goes back to idle.
pub open spec fn auto_reset_spec(s: IndicatorState) -> Option<u64> {
    match s {
        IndicatorState::Completed => Some(1500),
        IndicatorState::Failed => Some(2000),
        _ => None,
    }
}

/// Whether the tray icon pulses in a state.
pub open spec fn pulses_spec(s: IndicatorState) -> bool {
    match s {
        IndicatorState::RecordingStart | IndicatorState::Recording | IndicatorState::Transcribing
        | IndicatorState::Completed => true,
        _ => false,
    }
}

impl IndicatorState {
    /// The wire name (`idle`, `recording_start`, `recording`,
    /// `transcribing`, `completed`, `failed`).
    pub fn as_wire(self) -> (r: &'static str)
        ensures
            r@ == state_wire(self),
    {
        match self {
            IndicatorState::Idle => "idle",
            IndicatorState::RecordingStart => "recording_start",
            IndicatorState::Recording => "recording",
            IndicatorState::Transcribing => "transcribing",
            IndicatorState::Completed => "completed",
            IndicatorState::Failed => "failed",
        }
    }

    /// Reads a wire name; surrounding whitespace is ignored.
    pub fn from_wire(input: &str) -> (r: Option<Self>)
        ensures
            r == state_from_wire(input@),
    {
        let t = trim_str(input);
        let t = t.as_str();
        if str_eq(t, "idle") {
            Some(IndicatorState::Idle)
        } else if str_eq(t, "recording_start") {
            Some(IndicatorState::RecordingStart)
        } else if str_eq(t, "recording") {
            Some(IndicatorState::Recording)
        } else if str_eq(t, "transcribing") {
            Some(IndicatorState::Transcribing)
        } else if str_eq(t, "completed") {
            Some(IndicatorState::Completed)
        } else if str_eq(t, "failed") {
            Some(IndicatorState::Failed)
        } else {
            None
        }
    }

    /// The title shown in the tray menu.
    pub fn menu_title(self) -> (r: &'static str)
        ensures
            r@ == state_title(self),
    {
        match self {
            IndicatorState::Idle => "空闲",
            IndicatorState::RecordingStart => "准备录音",
            IndicatorState::Recording => "录音中",
            IndicatorState::Transcribing => "识别中",
            IndicatorState::Completed => "完成",
            IndicatorState::Failed => "失败",
        }
    }

    /// Milliseconds after which a finished state goes back to idle:
    /// 1500 for `Completed`, 2000 for `Failed`, none otherwise.
    pub fn auto_reset_ms(self) -> (r: Option<u64>)
        ensures
            r == auto_reset_spec(self),
    {
        match self {
            IndicatorState::Completed => Some(1500),
            IndicatorState::Failed => Some(2000),
            _ => None,
        }
    }
}

/// Every state's wire name reads back as that state.
pub proof fn law_state_wire_roundtrip(s: IndicatorState)
    ensures
        state_from_wire(state_wire(s)) == Some(s),
{
    reveal_strlit("idle");
    reveal_strlit("recording_start");
    reveal_strlit("recording");
    reveal_strlit("transcribing");
    reveal_strlit("completed");
    reveal_strlit("failed");
    let w = state_wire(s);
    assert(trim(w) == w) by {
        assert(w.len() > 0);
        assert(!crate::text::is_ws(w[0]));
        assert(!crate::text::is_ws(w.last()));
        crate::text::lemma_trim_of_solid(w);
    }
}

/// The picture drawn over the tray background.
#[derive(Debug, Clone, Copy, PartialEq, Eq, Structural)]
pub enum ForegroundIcon {
    Logo,
    Microphone,
}

/// The logo when idle, the microphone in every other state.
pub fn linux_foreground_icon(state: IndicatorState) -> (r: ForegroundIcon)
    ensures
        r == if state == IndicatorState::Idle {
            ForegroundIcon::Logo
        } else {
            ForegroundIcon::Microphone
        },
{
    match state {
        IndicatorState::Idle => ForegroundIcon::Logo,
        _ => ForegroundIcon::Microphone,
    }
}

/// Whether the tray icon pulses: while recording, transcribing, and on
/// completion.
pub fn linux_tray_state_pulses(state: IndicatorState) -> (r: bool)
    ensures
        r == pulses_spec(state),
{
    match state {
        IndicatorState::RecordingStart | IndicatorState::Recording | IndicatorState::Transcribing
        | IndicatorState::Completed => true,
        _ => false,
    }
}

/// A command on the indicator's input that is not a JSON message.
#[derive(Debug, Clone, Copy, PartialEq, Eq, Structural)]
pub enum LegacyIndicatorCommand {
    Exit,
    SetState(IndicatorState),
}

/// A plain line: `exit` in any case, or a state's wire name.
pub open spec fn legacy_command_spec(line: Seq<char>) -> Option<LegacyIndicatorCommand> {
    if eq_ignore_case(trim(line), "exit"@) {
        Some(LegacyIndicatorCommand::Exit)
    } else {
        match state_from_wire(trim(line)) {
            Some(s) => Some(LegacyIndicatorCommand::SetState(s)),
            None => None,
        }
    }
}

/// Reads a plain command line (one that is not a JSON message).
pub fn parse_legacy_indicator_command(line: &str) -> (r: Option<LegacyIndicatorCommand>)
    ensures
        r == legacy_command_spec(line@),
{
    let t = trim_str(line);
    if str_eq_ignore_case(t.as_str(), "exit") {
        return Some(LegacyIndicatorCommand::Exit);
    }
    proof {
        crate::text::lemma_trim_idempotent(line@);
    }
    match IndicatorState::from_wire(t.as_str()) {
        Some(s) => Some(LegacyIndicatorCommand::SetState(s)),
        None => None,
    }
}

// ---------------------------------------------------------------------------
// The tray's state over time
// ---------------------------------------------------------------------------

/// The tray indicator: its state and when it falls back to idle.
pub struct TrayIndicator {
    state: IndicatorState,
    reset_deadline: Option<u64>,
}

/// The tray state as plain values.
pub ghost struct TrayModel {
    pub state: IndicatorState,
    pub reset_deadline: Option<u64>,
}

impl View for TrayIndicator {
    type V = TrayModel;

    closed spec fn view(&self) -> TrayModel {
        TrayModel { state: self.state, reset_deadline: self.reset_deadline }
    }
}

/// The tray after it is told `state` at `now_ms`.
pub open spec fn tray_after_set(state: IndicatorState, now_ms: u64) -> TrayModel {
    TrayModel {
        state,
        reset_deadline: match auto_reset_spec(state) {
            Some(d) => Some((now_ms + d) as u64),
            None => None,
        },
    }
}

/// The tray after a tick at `now_ms`: a passed deadline brings it back to
/// idle.
pub open spec fn tray_after_tick(m: TrayModel, now_ms: u64) -> TrayModel {
    match m.reset_deadline {
        Some(d) => if now_ms >= d {
            TrayModel { state: IndicatorState::Idle, reset_deadline: None }
        } else {
            m
        },
        None => m,
    }
}

impl TrayIndicator {
    /// An idle tray.
    pub fn new() -> (r: Self)
        ensures
            r@ == (TrayModel { state: IndicatorState::Idle, reset_deadline: None }),
    {
        TrayIndicator { state: IndicatorState::Idle, reset_deadline: None }
    }

    /// The state shown.
    pub fn state(&self) -> (r: IndicatorState)
        ensures
            r == self@.state,
    {
        self.state
    }

    /// Shows `state` from `now_ms` on.
    pub fn set_state(&mut self, state: IndicatorState, now_ms: u64)
        requires
            now_ms + 2000 <= u64::MAX,
        ensures
            final(self)@ == tray_after_set(state, now_ms),
    {
        self.state = state;
        self.reset_deadline = match state.auto_reset_ms() {
            Some(d) => Some(now_ms + d),
            None => None,
        };
    }

    /// Advances the clock to `now_ms`; returns whether the tray went back
    /// to idle.
    pub fn tick(&mut self, now_ms: u64) -> (changed: bool)
        ensures
            final(self)@ == tray_after_tick(old(self)@, now_ms),
            changed == (old(self)@.reset_deadline matches Some(d) && now_ms >= d),
    {
        match self.reset_deadline {
            Some(d) => {
                if now_ms >= d {
                    self.state = IndicatorState::Idle;
                    self.reset_deadline = None;
                    true
                } else {
                    false
                }
            },
            None => false,
        }
    }
}

/// A finished state goes back to idle once its time is up, and not
/// before; any other state stays until told otherwise.
pub proof fn law_finished_states_fall_back_to_idle(state: IndicatorState, set_at: u64, now_ms: u64)
    requires
        set_at + 2000 <= u64::MAX,
    ensures
        ({
            let m = tray_after_tick(tray_after_set(state, set_at), now_ms);
            &&& state == IndicatorState::Completed ==> (m.state == IndicatorState::Idle <==> now_ms
                >= set_at + 1500)
            &&& state == IndicatorState::Failed ==> (m.state == IndicatorState::Idle <==> now_ms
                >= set_at + 2000)
            &&& (state != IndicatorState::Completed && state != IndicatorState::Failed) ==> m.state
                == state
        }),
{
}

// ---------------------------------------------------------------------------
// Texts
// ---------------------------------------------------------------------------

/// What the tray says: the state's title while busy; after that the
/// menu's status message, or the title when there is none.
pub open spec fn status_text_spec(status: Seq<char>, state: IndicatorState) -> Seq<char> {
    match state {
        IndicatorState::RecordingStart | IndicatorState::Recording
        | IndicatorState::Transcribing => state_title(state),
        _ => if trim(status).len() == 0 {
            state_title(state)
        } else {
            trim(status)
        },
    }
}

/// The status text for a snapshot and a state.
pub fn linux_status_text(snapshot: &MenuSnapshot, state: IndicatorState) -> (r: String)
    ensures
        r@ == status_text_spec(snapshot.status@, state),
{
    match state {
        IndicatorState::RecordingStart | IndicatorState::Recording
        | IndicatorState::Transcribing => String::from_str(state.menu_title()),
        _ => {
            let t = trim_str(snapshot.status.as_str());
            if to_chars(t.as_str()).len() == 0 {
                String::from_str(state.menu_title())
            } else {
                t
            }
        },
    }
}

/// The tooltip: `EchoPup - ` and the status text.
pub fn linux_tooltip_text(snapshot: &MenuSnapshot, state: IndicatorState) -> (r: String)
    ensures
        r@ == "EchoPup - "@ + status_text_spec(snapshot.status@, state),
{
    let mut r = String::from_str("EchoPup - ");
    let t = linux_status_text(snapshot, state);
    r.append(t.as_str());
    r
}

/// Longest status shown in the menu before it is cut.
pub const STATUS_LINE_MAX_CHARS: usize = 56;

/// The menu's status line: `状态: ` and the status text, cut to 56
/// characters followed by `...` when longer, with line breaks as spaces.
pub open spec fn status_line_spec(status: Seq<char>, state: IndicatorState) -> Seq<char> {
    let t = status_text_spec(status, state);
    let shown = if t.len() > STATUS_LINE_MAX_CHARS {
        t.take(STATUS_LINE_MAX_CHARS as int) + "..."@
    } else {
        t
    };
    "状态: "@ + replace_char(shown, '\n', ' ')
}

/// The status line of the tray menu.
pub fn linux_status_line(snapshot: &MenuSnapshot, state: IndicatorState) -> (r: String)
    ensures
        r@ == status_line_spec(snapshot.status@, state),
{
    let t = linux_status_text(snapshot, state);
    let c = to_chars(t.as_str());
    let shown = if c.len() > STATUS_LINE_MAX_CHARS {
        let mut s = from_chars_range(&c, 0, STATUS_LINE_MAX_CHARS);
        s.append("...");
        s
    } else {
        t
    };
    let mut r = String::from_str("状态: ");
    let body = replace_char_str(shown.as_str(), '\n', ' ');
    r.append(body.as_str());
    r
}

/// The label of the LLM entry: `编辑 LLM 配置 (<provider>/<model>)`.
pub fn edit_llm_label(snapshot: &MenuSnapshot) -> (r: String)
    ensures
        r@ == "编辑 LLM 配置 ("@ + snapshot.llm_provider@ + "/"@ + snapshot.llm_model@ + ")"@,
{
    let mut r = String::from_str("编辑 LLM 配置 (");
    r.append(snapshot.llm_provider.as_str());
    r.append("/");
    r.append(snapshot.llm_model.as_str());
    r.append(")");
    r
}

/// The snapshot shown before the service sends one.
pub fn empty_snapshot() -> (r: MenuSnapshot)
    ensures
        r.config_path@ == Seq::<char>::empty(),
        r.status@ == "就绪"@,
        !r.dirty,
        !r.should_quit_ui,
        r.hotkey_trigger_mode == HotkeyTriggerMode::PressToToggle,
        !r.llm_enabled,
        r.text_correction_enabled,
        r.llm_provider@ == "openai"@,
        r.llm_model@ == "gpt-4o-mini"@,
        r.llm_api_base@ == "https://api.openai.com/v1"@,
        r.llm_api_key@ == Seq::<char>::empty(),
{
    MenuSnapshot {
        config_path: String::new(),
        status: String::from_str("就绪"),
        dirty: false,
        should_quit_ui: false,
        hotkey_trigger_mode: HotkeyTriggerMode::PressToToggle,
        llm_enabled: false,
        text_correction_enabled: true,
        llm_provider: String::from_str("openai"),
        llm_model: String::from_str("gpt-4o-mini"),
        llm_api_base: String::from_str("https://api.openai.com/v1"),
        llm_api_key: String::new(),
    }
}

// ---------------------------------------------------------------------------
// Menu entries
// ---------------------------------------------------------------------------

pub const MENU_ID_TOGGLE_LLM: &'static str = "toggle_llm";
pub const MENU_ID_TOGGLE_CORRECTION: &'static str = "toggle_correction";
pub const MENU_ID_MODE_HOLD: &'static str = "mode_hold";
pub const MENU_ID_MODE_TOGGLE: &'static str = "mode_toggle";
pub const MENU_ID_RELOAD_CONFIG: &'static str = "reload_config";
pub const MENU_ID_EDIT_LLM_FORM_LINUX: &'static str = "edit_llm_form_linux";
pub const MENU_ID_OPEN_CONFIG_FOLDER: &'static str = "open_config_folder";
pub const MENU_ID_OPEN_MODEL_FOLDER: &'static str = "open_model_folder";
pub const MENU_ID_QUIT_UI: &'static str = "quit_ui";

/// The action a tray menu entry asks for; the LLM form entry opens a dialog
/// instead, and unknown entries ask for nothing.
pub open spec fn menu_id_action(id: Seq<char>) -> Option<MenuAction> {
    if id == "toggle_llm"@ {
        Some(MenuAction::ToggleLlmEnabled)
    } else if id == "toggle_correction"@ {
        Some(MenuAction::ToggleTextCorrectionEnabled)
    } else if id == "open_config_folder"@ {
        Some(MenuAction::OpenConfigFolder)
    } else if id == "open_model_folder"@ {
        Some(MenuAction::OpenModelFolder)
    } else if id == "mode_hold"@ {
        Some(MenuAction::SetHotkeyTriggerMode { mode: HotkeyTriggerMode::HoldToRecord })
    } else if id == "mode_toggle"@ {
        Some(MenuAction::SetHotkeyTriggerMode { mode: HotkeyTriggerMode::PressToToggle })
    } else if id == "reload_config"@ {
        Some(MenuAction::ReloadConfig)
    } else if id == "quit_ui"@ {
        Some(MenuAction::QuitUi)
    } else {
        None
    }
}

/// The action of a tray menu entry, by its id.
pub fn map_linux_menu_id_to_action(id: &str) -> (r: Option<MenuAction>)
    ensures
        r == menu_id_action(id@),
{
    if str_eq(id, "toggle_llm") {
        Some(MenuAction::ToggleLlmEnabled)
    } else if str_eq(id, "toggle_correction") {
        Some(MenuAction::ToggleTextCorrectionEnabled)
    } else if str_eq(id, "open_config_folder") {
        Some(MenuAction::OpenConfigFolder)
    } else if str_eq(id, "open_model_folder") {
        Some(MenuAction::OpenModelFolder)
    } else if str_eq(id, "mode_hold") {
        Some(MenuAction::SetHotkeyTriggerMode { mode: HotkeyTriggerMode::HoldToRecord })
    } else if str_eq(id, "mode_toggle") {
        Some(MenuAction::SetHotkeyTriggerMode { mode: HotkeyTriggerMode::PressToToggle })
    } else if str_eq(id, "reload_config") {
        Some(MenuAction::ReloadConfig)
    } else if str_eq(id, "quit_ui") {
        Some(MenuAction::QuitUi)
    } else {
        None
    }
}

pub const TAG_TOGGLE_LLM: i64 = 1001;
pub const TAG_TOGGLE_CORRECTION: i64 = 1002;
pub const TAG_EDIT_LLM_FORM: i64 = 1005;
pub const TAG_QUIT_UI: i64 = 1008;
pub const TAG_OPEN_CONFIG_FOLDER: i64 = 1009;
pub const TAG_RELOAD_CONFIG: i64 = 1010;
pub const TAG_VIEW_MODEL_FILES: i64 = 1011;
pub const TAG_SHOW_ABOUT: i64 = 1012;
pub const TAG_MODE_HOLD: i64 = 1013;
pub const TAG_MODE_PRESS_TOGGLE: i64 = 1014;
pub const TAG_LLM_FORM_CONFIRM: i64 = 2101;
pub const TAG_LLM_FORM_CANCEL: i64 = 2102;
pub const TAG_LLM_PROVIDER_CHANGED: i64 = 2103;

/// The action of a numbered menu item; entries that open windows or
/// folders are handled by the menu itself and ask for none.
pub open spec fn tag_action(tag: i64) -> Option<MenuAction> {
    if tag == TAG_TOGGLE_LLM {
        Some(MenuAction::ToggleLlmEnabled)
    } else if tag == TAG_TOGGLE_CORRECTION {
        Some(MenuAction::ToggleTextCorrectionEnabled)
    } else if tag == TAG_MODE_HOLD {
        Some(MenuAction::SetHotkeyTriggerMode { mode: HotkeyTriggerMode::HoldToRecord })
    } else if tag == TAG_MODE_PRESS_TOGGLE {
        Some(MenuAction::SetHotkeyTriggerMode { mode: HotkeyTriggerMode::PressToToggle })
    } else if tag == TAG_RELOAD_CONFIG {
        Some(MenuAction::ReloadConfig)
    } else if tag == TAG_QUIT_UI {
        Some(MenuAction::QuitUi)
    } else {
        None
    }
}

/// Maps a menu item tag to its action.
pub fn map_tag_to_action(tag: i64, _snapshot: &MenuSnapshot) -> (r: Option<MenuAction>)
    ensures
        r == tag_action(tag),
{
    if tag == TAG_TOGGLE_LLM {
        Some(MenuAction::ToggleLlmEnabled)
    } else if tag == TAG_TOGGLE_CORRECTION {
        Some(MenuAction::ToggleTextCorrectionEnabled)
    } else if tag == TAG_MODE_HOLD {
        Some(MenuAction::SetHotkeyTriggerMode { mode: HotkeyTriggerMode::HoldToRecord })
    } else if tag == TAG_MODE_PRESS_TOGGLE {
        Some(MenuAction::SetHotkeyTriggerMode { mode: HotkeyTriggerMode::PressToToggle })
    } else if tag == TAG_RELOAD_CONFIG {
        Some(MenuAction::ReloadConfig)
    } else if tag == TAG_QUIT_UI {
        Some(MenuAction::QuitUi)
    } else {
        None
    }
}

// ---------------------------------------------------------------------------
// LLM providers in the form
// ---------------------------------------------------------------------------

/// The label of a provider key; unknown keys show as OpenAI-compatible.
pub open spec fn provider_label(key: Seq<char>) -> Seq<char> {
    if key == "anthropic"@ {
        "Anthropic 兼容接口"@
    } else if key == "ollama"@ {
        "Ollama 本地"@
    } else {
        "OpenAI 兼容接口"@
    }
}

/// The provider key of a label; unknown labels mean `openai`.
pub open spec fn provider_key(label: Seq<char>) -> Seq<char> {
    if label == "Anthropic 兼容接口"@ {
        "anthropic"@
    } else if label == "Ollama 本地"@ {
        "ollama"@
    } else {
        "openai"@
    }
}

/// The form's label for a provider key.
pub fn provider_key_to_label(key: &str) -> (r: String)
    ensures
        r@ == provider_label(key@),
{
    if str_eq(key, "anthropic") {
        String::from_str("Anthropic 兼容接口")
    } else if str_eq(key, "ollama") {
        String::from_str("Ollama 本地")
    } else {
        String::from_str("OpenAI 兼容接口")
    }
}

/// The provider key for a label of the form.
pub fn provider_label_to_key(label: &str) -> (r: String)
    ensures
        r@ == provider_key(label@),
{
    if str_eq(label, "Anthropic 兼容接口") {
        String::from_str("anthropic")
    } else if str_eq(label, "Ollama 本地") {
        String::from_str("ollama")
    } else {
        String::from_str("openai")
    }
}

/// The provider keys differ from each other, and so do their labels.
proof fn lemma_provider_texts_distinct()
    ensures
        "openai"@ != "ollama"@,
        "openai"@ != "anthropic"@,
        "ollama"@ != "anthropic"@,
        "OpenAI 兼容接口"@ != "Ollama 本地"@,
        "OpenAI 兼容接口"@ != "Anthropic 兼容接口"@,
        "Ollama 本地"@ != "Anthropic 兼容接口"@,
{
    reveal_strlit("openai");
    reveal_strlit("anthropic");
    reveal_strlit("ollama");
    reveal_strlit("Anthropic 兼容接口");
    reveal_strlit("Ollama 本地");
    reveal_strlit("OpenAI 兼容接口");
    assert("openai"@[1] != "ollama"@[1]);
    assert("openai"@[0] != "anthropic"@[0]);
    assert("ollama"@[0] != "anthropic"@[0]);
    assert("OpenAI 兼容接口"@[1] != "Ollama 本地"@[1]);
    assert("OpenAI 兼容接口"@[0] != "Anthropic 兼容接口"@[0]);
    assert("Ollama 本地"@[0] != "Anthropic 兼容接口"@[0]);
}

/// The known providers survive a trip through their labels, and every
/// label read back gives a known provider.
pub proof fn law_provider_label_roundtrip(key: Seq<char>)
    ensures
        (key == "openai"@ || key == "anthropic"@ || key == "ollama"@) ==> provider_key(
            provider_label(key),
        ) == key,
        provider_label(provider_key(provider_label(key))) == provider_label(key),
{
    lemma_provider_texts_distinct();
}

/// The provider the form selects for a snapshot: `anthropic` and `ollama`
/// as they are, anything else as `openai`.
pub fn form_provider_id(provider: &str) -> (r: &'static str)
    ensures
        r@ == provider_key(provider_label(provider@)),
{
    proof {
        lemma_provider_texts_distinct();
    }
    if str_eq(provider, "anthropic") {
        "anthropic"
    } else if str_eq(provider, "ollama") {
        "ollama"
    } else {
        "openai"
    }
}

/// Ollama runs locally and needs no API key, so the key field is hidden.
pub fn api_key_field_visible(provider_id: &str) -> (r: bool)
    ensures
        r == (provider_id@ != "ollama"@),
{
    !str_eq(provider_id, "ollama")
}

/// `value` when it has at most `max` characters; otherwise `...` and its
/// last `max - 3` characters.
pub open spec fn shorten_spec(value: Seq<char>, max: nat) -> Seq<char> {
    if value.len() <= max {
        value
    } else {
        let keep = if max >= 3 { (max - 3) as nat } else { 0 };
        "..."@ + value.skip(value.len() - keep)
    }
}

/// Shortens a long value for display, keeping its end.
pub fn shorten_text(value: &str, max: usize) -> (r: String)
    ensures
        r@ == shorten_spec(value@, max as nat),
{
    let c = to_chars(value);
    if c.len() <= max {
        return copy_str(value);
    }
    let keep: usize = if max >= 3 { max - 3 } else { 0 };
    let mut r = String::from_str("...");
    let tail = from_chars_range(&c, c.len() - keep, c.len());
    r.append(tail.as_str());
    assert(c@.subrange(c@.len() - keep, c@.len() as int) =~= value@.skip(value@.len() - keep));
    r
}

// ---------------------------------------------------------------------------
// Paths
// ---------------------------------------------------------------------------

/// `~/rest` and `~` name places in the home directory `home`; other paths
/// are kept; without a home directory nothing changes.
pub open spec fn expand_tilde_spec(path: Seq<char>, home: Option<Seq<char>>) -> Seq<char> {
    match home {
        Some(h) => if path.len() >= 2 && path[0] == '~' && path[1] == '/' {
            path_join(h, path.skip(2))
        } else if path == "~"@ {
            h
        } else {
            path
        },
        None => path,
    }
}

/// A path with a leading `~` expanded against a given home directory.
pub fn expand_tilde_path_with_home(path: &str, home: Option<&str>) -> (r: String)
    ensures
        r@ == expand_tilde_spec(path@, match home {
            Some(h) => Some(h@),
            None => None,
        }),
{
    match home {
        Some(h) => {
            let c = to_chars(path);
            if c.len() >= 2 && c[0] == '~' && c[1] == '/' {
                let rest = from_chars_range(&c, 2, c.len());
                assert(c@.subrange(2, c@.len() as int) =~= path@.skip(2));
                join_path(h, rest.as_str())
            } else if str_eq(path, "~") {
                copy_str(h)
            } else {
                copy_str(path)
            }
        },
        None => copy_str(path),
    }
}

/// A path with a leading `~` expanded against the user's home directory.
pub fn expand_tilde_path(path: &str) -> (r: String)
    ensures
        exists|home: Option<Seq<char>>| r@ == expand_tilde_spec(path@, home),
{
    let home = home_dir();
    match home {
        Some(h) => expand_tilde_path_with_home(path, Some(h.as_str())),
        None => expand_tilde_path_with_home(path, None),
    }
}

} // verus!
