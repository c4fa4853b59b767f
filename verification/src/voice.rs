//! The voice-input loop's decisions: when a hotkey press, release, toggle or
//! timer starts or stops a recording, how the live preview is paced, which
//! transcripts are kept, and the command line a desktop shortcut runs.
//!
//! The program around this library owns the recorder, the timers and the
//! threads; it reports each event here and carries out the command it gets
//! back.

use vstd::prelude::*;
use crate::config::HotkeyTriggerMode;
use crate::text::{
    char_is_ws, contains, copy_str, is_ws, replace_all, str_eq, str_replace, to_chars, trim,
    trim_str,
};

verus! {

/// How long the hotkey must be held before recording starts (ms).
pub const HOLD_TO_RECORD_MS: u64 = 1000;

/// After recording starts, presses within this window do not stop it (ms).
pub const STOP_PRESS_DEBOUNCE_MS: u64 = 500;

/// External toggles closer together than this count as one (ms).
pub const EXTERNAL_TOGGLE_BURST_GAP_MS: u64 = 250;

/// Interval of the preview loop's ticks (ms).
pub const PREVIEW_TICK_MS: u64 = 150;

/// The preview asks the recogniser for text on every this many ticks.
pub const PREVIEW_ASR_POLL_EVERY: u32 = 3;

/// What the program must do after an event.
#[derive(Debug, Clone, Copy, PartialEq, Eq, Structural)]
pub enum TriggerCommand {
    Nothing,
    StartRecording,
    StopRecording,
    /// Call `on_hold_elapsed(sequence)` after `HOLD_TO_RECORD_MS`.
    ArmHoldTimer { sequence: u64 },
    /// Call `on_burst_elapsed(sequence)` after `EXTERNAL_TOGGLE_BURST_GAP_MS`.
    ArmBurstTimer { sequence: u64 },
}

/// The controller's state.
pub ghost struct TriggerState {
    pub mode: HotkeyTriggerMode,
    /// The hotkey is down.
    pub pressed: bool,
    /// Counts presses and releases; a timer armed for another value is stale.
    pub sequence: u64,
    /// The current press started the recording by being held.
    pub started_by_hold: bool,
    /// Counts external toggles; only the last of a burst fires.
    pub burst_sequence: u64,
    /// A recording is running.
    pub recording: bool,
    /// Until this time (ms) a press does not stop the recording.
    pub stop_debounce_until: Option<u64>,
}

/// Turns hotkey and trigger events into recording commands.
pub struct TriggerController {
    mode: HotkeyTriggerMode,
    pressed: bool,
    sequence: u64,
    started_by_hold: bool,
    burst_sequence: u64,
    recording: bool,
    stop_debounce_until: Option<u64>,
}

impl View for TriggerController {
    type V = TriggerState;

    closed spec fn view(&self) -> TriggerState {
        TriggerState {
            mode: self.mode,
            pressed: self.pressed,
            sequence: self.sequence,
            started_by_hold: self.started_by_hold,
            burst_sequence: self.burst_sequence,
            recording: self.recording,
            stop_debounce_until: self.stop_debounce_until,
        }
    }
}

/// `n + 1`, wrapping at `u64::MAX`.
pub open spec fn next_seq(n: u64) -> u64 {
    if n == u64::MAX {
        0
    } else {
        (n + 1) as u64
    }
}

fn wrapping_next(n: u64) -> (r: u64)
    ensures
        r == next_seq(n),
{
    if n == u64::MAX {
        0
    } else {
        n + 1
    }
}

/// A press while recording in toggle mode stops the recording unless it
/// comes within the debounce window.
pub open spec fn press_stops(s: TriggerState, now_ms: u64) -> bool {
    s.mode == HotkeyTriggerMode::PressToToggle && !(s.stop_debounce_until matches Some(d)
        && now_ms < d)
}

/// The state and command after a press at `now_ms`.
pub open spec fn press_step(s: TriggerState, now_ms: u64) -> (TriggerState, TriggerCommand) {
    if s.pressed {
        (s, TriggerCommand::Nothing)
    } else {
        let t = TriggerState {
            pressed: true,
            sequence: next_seq(s.sequence),
            started_by_hold: false,
            ..s
        };
        let cmd = if s.recording {
            if press_stops(s, now_ms) {
                TriggerCommand::StopRecording
            } else {
                TriggerCommand::Nothing
            }
        } else {
            TriggerCommand::ArmHoldTimer { sequence: next_seq(s.sequence) }
        };
        (t, cmd)
    }
}

/// The state and command when the hold timer armed for `sequence` runs out.
pub open spec fn hold_step(s: TriggerState, sequence: u64) -> (TriggerState, TriggerCommand) {
    if !(s.pressed && s.sequence == sequence) {
        (s, TriggerCommand::Nothing)
    } else {
        let t = TriggerState { started_by_hold: true, ..s };
        (t, if s.recording { TriggerCommand::Nothing } else { TriggerCommand::StartRecording })
    }
}

/// The state and command after a release.
pub open spec fn release_step(s: TriggerState) -> (TriggerState, TriggerCommand) {
    if !s.pressed {
        (s, TriggerCommand::Nothing)
    } else {
        let t = TriggerState {
            pressed: false,
            sequence: next_seq(s.sequence),
            started_by_hold: false,
            ..s
        };
        let cmd = if s.mode == HotkeyTriggerMode::HoldToRecord && s.started_by_hold
            && s.recording {
            TriggerCommand::StopRecording
        } else {
            TriggerCommand::Nothing
        };
        (t, cmd)
    }
}

/// The state after the recorder started at `now_ms`.
pub open spec fn started_step(s: TriggerState, now_ms: u64) -> TriggerState {
    TriggerState {
        recording: true,
        stop_debounce_until: Some((now_ms + STOP_PRESS_DEBOUNCE_MS) as u64),
        ..s
    }
}

/// The state and command after an external toggle.
pub open spec fn external_toggle_step(s: TriggerState) -> (TriggerState, TriggerCommand) {
    (
        TriggerState { burst_sequence: next_seq(s.burst_sequence), ..s },
        TriggerCommand::ArmBurstTimer { sequence: next_seq(s.burst_sequence) },
    )
}

/// The command when the burst timer armed for `sequence` runs out.
pub open spec fn burst_elapsed_command(s: TriggerState, sequence: u64) -> TriggerCommand {
    if s.burst_sequence == sequence {
        if s.recording {
            TriggerCommand::StopRecording
        } else {
            TriggerCommand::StartRecording
        }
    } else {
        TriggerCommand::Nothing
    }
}

impl TriggerController {
    /// A controller in the given mode, with the key up and no recording.
    pub fn new(mode: HotkeyTriggerMode) -> (r: Self)
        ensures
            r@ == (TriggerState {
                mode,
                pressed: false,
                sequence: 0,
                started_by_hold: false,
                burst_sequence: 0,
                recording: false,
                stop_debounce_until: None,
            }),
    {
        TriggerController {
            mode,
            pressed: false,
            sequence: 0,
            started_by_hold: false,
            burst_sequence: 0,
            recording: false,
            stop_debounce_until: None,
        }
    }

    /// The trigger mode in force.
    pub fn mode(&self) -> (r: HotkeyTriggerMode)
        ensures
            r == self@.mode,
    {
        self.mode
    }

    /// Whether a recording is running.
    pub fn is_recording(&self) -> (r: bool)
        ensures
            r == self@.recording,
    {
        self.recording
    }

    /// Changes the trigger mode (from the menu); nothing else changes.
    pub fn set_mode(&mut self, mode: HotkeyTriggerMode)
        ensures
            final(self)@ == (TriggerState { mode, ..old(self)@ }),
    {
        self.mode = mode;
    }

    /// The hotkey went down at `now_ms`. A repeat while it is down is
    /// ignored. While recording, a toggle-mode press outside the debounce
    /// window stops the recording; otherwise a hold timer is armed.
    pub fn on_press(&mut self, now_ms: u64) -> (r: TriggerCommand)
        ensures
            (final(self)@, r) == press_step(old(self)@, now_ms),
    {
        if self.pressed {
            return TriggerCommand::Nothing;
        }
        self.pressed = true;
        self.sequence = wrapping_next(self.sequence);
        self.started_by_hold = false;
        if self.recording {
            if self.mode != HotkeyTriggerMode::PressToToggle {
                return TriggerCommand::Nothing;
            }
            if let Some(deadline) = self.stop_debounce_until {
                if now_ms < deadline {
                    return TriggerCommand::Nothing;
                }
            }
            return TriggerCommand::StopRecording;
        }
        TriggerCommand::ArmHoldTimer { sequence: self.sequence }
    }

    /// The hold timer armed for `sequence` ran out. If the same press is
    /// still down it counts as a hold, and recording starts unless it is
    /// already running.
    pub fn on_hold_elapsed(&mut self, sequence: u64) -> (r: TriggerCommand)
        ensures
            (final(self)@, r) == hold_step(old(self)@, sequence),
    {
        if !(self.pressed && self.sequence == sequence) {
            return TriggerCommand::Nothing;
        }
        self.started_by_hold = true;
        if self.recording {
            TriggerCommand::Nothing
        } else {
            TriggerCommand::StartRecording
        }
    }

    /// The hotkey went up. In hold mode, releasing the press that started
    /// the recording stops it.
    pub fn on_release(&mut self) -> (r: TriggerCommand)
        ensures
            (final(self)@, r) == release_step(old(self)@),
    {
        if !self.pressed {
            return TriggerCommand::Nothing;
        }
        self.pressed = false;
        self.sequence = wrapping_next(self.sequence);
        let started = self.started_by_hold;
        self.started_by_hold = false;
        if self.mode == HotkeyTriggerMode::HoldToRecord && started && self.recording {
            TriggerCommand::StopRecording
        } else {
            TriggerCommand::Nothing
        }
    }

    /// A toggle: stop a running recording, or start one.
    pub fn on_toggle(&self) -> (r: TriggerCommand)
        ensures
            r == if self@.recording {
                TriggerCommand::StopRecording
            } else {
                TriggerCommand::StartRecording
            },
    {
        if self.recording {
            TriggerCommand::StopRecording
        } else {
            TriggerCommand::StartRecording
        }
    }

    /// A toggle from an external trigger: it fires only if no other one
    /// follows within the burst gap, so a timer is armed for it.
    pub fn on_external_toggle(&mut self) -> (r: TriggerCommand)
        ensures
            (final(self)@, r) == external_toggle_step(old(self)@),
    {
        self.burst_sequence = wrapping_next(self.burst_sequence);
        TriggerCommand::ArmBurstTimer { sequence: self.burst_sequence }
    }

    /// The burst timer armed for `sequence` ran out: the toggle fires if no
    /// later toggle came.
    pub fn on_burst_elapsed(&self, sequence: u64) -> (r: TriggerCommand)
        ensures
            r == burst_elapsed_command(self@, sequence),
    {
        if self.burst_sequence == sequence {
            self.on_toggle()
        } else {
            TriggerCommand::Nothing
        }
    }

    /// The recorder started at `now_ms`: presses are ignored for the
    /// debounce window.
    pub fn recording_started(&mut self, now_ms: u64)
        requires
            now_ms + STOP_PRESS_DEBOUNCE_MS <= u64::MAX,
        ensures
            final(self)@ == started_step(old(self)@, now_ms),
    {
        self.recording = true;
        self.stop_debounce_until = Some(now_ms + STOP_PRESS_DEBOUNCE_MS);
    }

    /// The recording stopped.
    pub fn recording_stopped(&mut self)
        ensures
            final(self)@ == (TriggerState { recording: false, stop_debounce_until: None, ..old(self)@ }),
    {
        self.recording = false;
        self.stop_debounce_until = None;
    }
}

/// Once the key is released, the hold timer armed by that press starts
/// nothing, whatever happens to the recording.
pub proof fn law_released_hold_timer_is_stale(s: TriggerState, now_ms: u64)
    requires
        !s.pressed,
        !s.recording,
    ensures
        ({
            let (pressed, armed) = press_step(s, now_ms);
            let (released, _) = release_step(pressed);
            &&& armed == (TriggerCommand::ArmHoldTimer { sequence: next_seq(s.sequence) })
            &&& hold_step(released, next_seq(s.sequence)).1 == TriggerCommand::Nothing
        }),
{
}

/// In hold mode, holding the key starts recording and releasing it stops
/// the recording: press, hold timer, start, release give exactly
/// `ArmHoldTimer`, `StartRecording`, `StopRecording`.
pub proof fn law_hold_to_record_cycle(s: TriggerState, pressed_at: u64, started_at: u64)
    requires
        s.mode == HotkeyTriggerMode::HoldToRecord,
        !s.pressed,
        !s.recording,
        started_at + STOP_PRESS_DEBOUNCE_MS <= u64::MAX,
    ensures
        ({
            let (a, c1) = press_step(s, pressed_at);
            let (b, c2) = hold_step(a, next_seq(s.sequence));
            let c = started_step(b, started_at);
            let (d, c3) = release_step(c);
            &&& c1 == (TriggerCommand::ArmHoldTimer { sequence: next_seq(s.sequence) })
            &&& c2 == TriggerCommand::StartRecording
            &&& c3 == TriggerCommand::StopRecording
            &&& !d.pressed
        }),
{
}

/// In toggle mode a press inside the debounce window after recording
/// started does not stop it; a press after the window does.
pub proof fn law_toggle_press_debounce(s: TriggerState, started_at: u64, now_ms: u64)
    requires
        s.mode == HotkeyTriggerMode::PressToToggle,
        !s.pressed,
        started_at + STOP_PRESS_DEBOUNCE_MS <= u64::MAX,
    ensures
        ({
            let t = started_step(s, started_at);
            &&& now_ms < started_at + STOP_PRESS_DEBOUNCE_MS ==> press_step(t, now_ms).1
                == TriggerCommand::Nothing
            &&& now_ms >= started_at + STOP_PRESS_DEBOUNCE_MS ==> press_step(t, now_ms).1
                == TriggerCommand::StopRecording
        }),
{
}

/// Of two external toggles in quick succession only the second fires: the
/// timer armed by the first finds a later toggle and does nothing.
pub proof fn law_external_toggle_burst(s: TriggerState)
    ensures
        ({
            let (a, first) = external_toggle_step(s);
            let (b, second) = external_toggle_step(a);
            &&& first matches TriggerCommand::ArmBurstTimer { sequence: x }
                && burst_elapsed_command(b, x) == TriggerCommand::Nothing
            &&& second matches TriggerCommand::ArmBurstTimer { sequence: y }
                && burst_elapsed_command(b, y) != TriggerCommand::Nothing
        }),
{
}

/// When the burst timer of the latest external toggle runs out, the toggle
/// acts as a key toggle would: it stops a running recording and starts one
/// otherwise. The toggle itself does not touch the recording, and a timer
/// for any other sequence number does nothing.
pub proof fn law_external_toggle_acts_as_toggle(s: TriggerState, other: u64)
    ensures
        ({
            let (a, armed) = external_toggle_step(s);
            &&& a.recording == s.recording
            &&& armed matches TriggerCommand::ArmBurstTimer { sequence: x } && {
                &&& s.recording ==> burst_elapsed_command(a, x) == TriggerCommand::StopRecording
                &&& !s.recording ==> burst_elapsed_command(a, x) == TriggerCommand::StartRecording
                &&& other != x ==> burst_elapsed_command(a, other) == TriggerCommand::Nothing
            }
        }),
{
}

// ---------------------------------------------------------------------------
// Live preview pacing
// ---------------------------------------------------------------------------

/// Whether tick number `tick` asks the recogniser for text.
pub fn should_poll_asr(tick: u32) -> (r: bool)
    ensures
        r == (tick % PREVIEW_ASR_POLL_EVERY == 0),
{
    tick % PREVIEW_ASR_POLL_EVERY == 0
}

/// The fewest samples (0.8 s) before the preview asks for text, at
/// `sample_rate` samples per second.
pub fn preview_min_samples(sample_rate: u32) -> (r: usize)
    ensures
        r == (sample_rate as int) * 800 / 1000,
{
    let rate = sample_rate as u64;
    let r = rate * 800 / 1000;
    assert(r <= u32::MAX);
    r as usize
}

/// The longest window (3 s) the preview recognises at once.
pub fn preview_max_samples(sample_rate: u32) -> (r: usize)
    ensures
        r == if (sample_rate as int) * 3 > usize::MAX {
            usize::MAX as int
        } else {
            (sample_rate as int) * 3
        },
{
    let rate = sample_rate as usize;
    if rate > usize::MAX / 3 {
        usize::MAX
    } else {
        rate * 3
    }
}

// ---------------------------------------------------------------------------
// Transcripts
// ---------------------------------------------------------------------------

/// A transcript is kept unless it is blank or the recogniser's
/// `[BLANK_AUDIO]` marker.
pub open spec fn usable_transcript(text: Seq<char>) -> bool {
    let t = trim(text);
    t.len() > 0 && t != "[BLANK_AUDIO]"@
}

/// Whether a final transcript carries speech.
pub fn is_usable_transcript(text: &str) -> (r: bool)
    ensures
        r == usable_transcript(text@),
{
    let t = trim_str(text);
    let c = to_chars(t.as_str());
    c.len() > 0 && !str_eq(t.as_str(), "[BLANK_AUDIO]")
}

// ---------------------------------------------------------------------------
// Shell command lines
// ---------------------------------------------------------------------------

/// Characters that make an argument need quoting.
pub open spec fn needs_quoting(c: char) -> bool {
    c == ' ' || c == '\t' || c == '\n' || c == '\'' || c == '"' || c == '\\'
}

/// `input` as one POSIX shell word: `''` when empty, unchanged when it has
/// no blank, quote or backslash, otherwise in single quotes with each `'`
/// written `'"'"'`.
pub open spec fn shell_escape_spec(input: Seq<char>) -> Seq<char> {
    if input.len() == 0 {
        "''"@
    } else if !(exists|i: int| 0 <= i < input.len() && needs_quoting(#[trigger] input[i])) {
        input
    } else {
        "'"@ + replace_all(input, "'"@, "'\"'\"'"@) + "'"@
    }
}

/// Quotes an argument for a shell command line.
pub fn shell_escape_arg(input: &str) -> (r: String)
    ensures
        r@ == shell_escape_spec(input@),
{
    let c = to_chars(input);
    if c.len() == 0 {
        return String::from_str("''");
    }
    let mut found = false;
    let mut i: usize = 0;
    while i < c.len()
        invariant
            i <= c@.len(),
            c@ == input@,
            found <==> exists|k: int| 0 <= k < i && needs_quoting(#[trigger] c@[k]),
        decreases c@.len() - i,
    {
        let ch = c[i];
        if ch == ' ' || ch == '\t' || ch == '\n' || ch == '\'' || ch == '"' || ch == '\\' {
            found = true;
        }
        i = i + 1;
    }
    if !found {
        return copy_str(input);
    }
    let mut r = String::from_str("'");
    proof {
        reveal_strlit("'");
    }
    let body = str_replace(input, "'", "'\"'\"'");
    r.append(body.as_str());
    r.append("'");
    r
}

/// The command a desktop shortcut runs to toggle recording in the
/// background service.
pub open spec fn wayland_trigger_command_spec(exe: Seq<char>, config_path: Seq<char>) -> Seq<char> {
    shell_escape_spec(exe) + " --config "@ + shell_escape_spec(config_path) + " trigger toggle"@
}

/// `<exe> --config <config> trigger toggle`, each part quoted.
pub fn wayland_trigger_command(exe: &str, config_path: &str) -> (r: String)
    ensures
        r@ == wayland_trigger_command_spec(exe@, config_path@),
{
    let mut r = shell_escape_arg(exe);
    r.append(" --config ");
    let c = shell_escape_arg(config_path);
    r.append(c.as_str());
    r.append(" trigger toggle");
    r
}

/// The hotkey the voice service listens to.
pub fn default_trigger_key() -> (r: &'static str)
    ensures
        r@ == "f6"@,
{
    "f6"
}

/// Where the status indicator appears.
pub fn status_indicator_surface_name() -> (r: &'static str)
    ensures
        r@ == "Linux 托盘"@,
{
    "Linux 托盘"
}

/// How recording is triggered: by an external shortcut command on Wayland,
/// by the built-in hotkey otherwise.
pub open spec fn trigger_backend_description_spec(external: bool) -> Seq<char> {
    if external {
        "外部触发 (CLI/IPC，建议桌面快捷键 F6 -> `echopup trigger toggle`)"@
    } else {
        "应用内热键 (f6)"@
    }
}

/// The description of the trigger backend in use.
pub fn trigger_backend_description(external: bool) -> (r: String)
    ensures
        r@ == trigger_backend_description_spec(external),
{
    if external {
        String::from_str("外部触发 (CLI/IPC，建议桌面快捷键 F6 -> `echopup trigger toggle`)")
    } else {
        String::from_str("应用内热键 (f6)")
    }
}

// ---------------------------------------------------------------------------
// After a recording
// ---------------------------------------------------------------------------

/// Why a recording produced no text.
#[derive(Debug, Clone, Copy, PartialEq, Eq, Structural)]
pub enum ProcessFailure {
    /// Nothing was recorded.
    NoAudio,
    /// The transcript was blank or the blank-audio marker.
    NoSpeech,
    /// No recogniser was ready, or it failed.
    RecognitionFailed,
}

/// The notification for a failure.
pub open spec fn failure_notice_spec(f: ProcessFailure) -> Seq<char> {
    match f {
        ProcessFailure::NoAudio => "未检测到语音输入"@,
        ProcessFailure::NoSpeech => "未识别到有效语音"@,
        ProcessFailure::RecognitionFailed => "语音识别失败，请查看日志"@,
    }
}

/// The notification shown for a failure.
pub fn failure_notice(f: ProcessFailure) -> (r: &'static str)
    ensures
        r@ == failure_notice_spec(f),
{
    match f {
        ProcessFailure::NoAudio => "未检测到语音输入",
        ProcessFailure::NoSpeech => "未识别到有效语音",
        ProcessFailure::RecognitionFailed => "语音识别失败，请查看日志",
    }
}

/// The text to carry on with after recognising `audio_len` samples, given
/// the transcript (`None` when recognition was not possible or failed).
pub fn transcript_outcome(audio_len: usize, transcript: Option<&str>) -> (r: Result<String, ProcessFailure>)
    ensures
        audio_len == 0 ==> r == Err::<String, ProcessFailure>(ProcessFailure::NoAudio),
        audio_len > 0 && transcript is None ==> r == Err::<String, ProcessFailure>(
            ProcessFailure::RecognitionFailed,
        ),
        audio_len > 0 ==> (transcript matches Some(t) ==> if usable_transcript(t@) {
            r matches Ok(x) && x@ == t@
        } else {
            r == Err::<String, ProcessFailure>(ProcessFailure::NoSpeech)
        }),
{
    if audio_len == 0 {
        return Err(ProcessFailure::NoAudio);
    }
    match transcript {
        None => Err(ProcessFailure::RecognitionFailed),
        Some(t) => if is_usable_transcript(t) {
            Ok(copy_str(t))
        } else {
            Err(ProcessFailure::NoSpeech)
        },
    }
}

/// The notification after the final text was committed (or not).
pub open spec fn commit_notice_spec(typed: bool, text: Seq<char>) -> Seq<char> {
    if typed {
        "识别完成，已输入 "@ + crate::text::decimal(text.len()) + " 字"@
    } else {
        "识别完成，但输入失败"@
    }
}

/// The notification after committing `final_text`.
pub fn commit_notice(typed: bool, final_text: &str) -> (r: String)
    ensures
        r@ == commit_notice_spec(typed, final_text@),
{
    if typed {
        let mut r = String::from_str("识别完成，已输入 ");
        let n = to_chars(final_text).len();
        let d = crate::text::u64_to_decimal(n as u64);
        r.append(d.as_str());
        r.append(" 字");
        r
    } else {
        String::from_str("识别完成，但输入失败")
    }
}

} // verus!
