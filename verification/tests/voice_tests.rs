use echopup::config::HotkeyTriggerMode;
use echopup::voice::{
    is_usable_transcript, preview_max_samples, preview_min_samples, shell_escape_arg, should_poll_asr,
    trigger_backend_description, wayland_trigger_command, TriggerCommand, TriggerController,
};

#[test]
fn hold_mode_records_while_held() {
    let mut c = TriggerController::new(HotkeyTriggerMode::HoldToRecord);
    let armed = c.on_press(0);
    let seq = match armed {
        TriggerCommand::ArmHoldTimer { sequence } => sequence,
        _ => panic!("expected a hold timer"),
    };
    assert_eq!(c.on_press(10), TriggerCommand::Nothing);
    assert_eq!(c.on_hold_elapsed(seq), TriggerCommand::StartRecording);
    c.recording_started(1000);
    assert_eq!(c.on_release(), TriggerCommand::StopRecording);
    c.recording_stopped();
    assert!(!c.is_recording());
}

#[test]
fn short_press_starts_nothing() {
    let mut c = TriggerController::new(HotkeyTriggerMode::HoldToRecord);
    let seq = match c.on_press(0) {
        TriggerCommand::ArmHoldTimer { sequence } => sequence,
        _ => panic!("expected a hold timer"),
    };
    assert_eq!(c.on_release(), TriggerCommand::Nothing);
    assert_eq!(c.on_hold_elapsed(seq), TriggerCommand::Nothing);
}

#[test]
fn toggle_mode_stops_on_next_press_after_debounce() {
    let mut c = TriggerController::new(HotkeyTriggerMode::PressToToggle);
    let seq = match c.on_press(0) {
        TriggerCommand::ArmHoldTimer { sequence } => sequence,
        _ => panic!("expected a hold timer"),
    };
    assert_eq!(c.on_hold_elapsed(seq), TriggerCommand::StartRecording);
    c.recording_started(1000);
    assert_eq!(c.on_release(), TriggerCommand::Nothing);
    assert_eq!(c.on_press(1200), TriggerCommand::Nothing);
    c.on_release();
    assert_eq!(c.on_press(1500), TriggerCommand::StopRecording);
}

#[test]
fn external_toggle_bursts_collapse() {
    let mut c = TriggerController::new(HotkeyTriggerMode::PressToToggle);
    let first = c.on_external_toggle();
    let second = c.on_external_toggle();
    let (a, b) = match (first, second) {
        (TriggerCommand::ArmBurstTimer { sequence: a }, TriggerCommand::ArmBurstTimer { sequence: b }) => (a, b),
        _ => panic!("expected burst timers"),
    };
    assert_eq!(c.on_burst_elapsed(a), TriggerCommand::Nothing);
    assert_eq!(c.on_burst_elapsed(b), TriggerCommand::StartRecording);
    assert_eq!(c.on_toggle(), TriggerCommand::StartRecording);
}

#[test]
fn preview_pacing() {
    assert!(should_poll_asr(3));
    assert!(!should_poll_asr(4));
    assert_eq!(preview_min_samples(16000), 12800);
    assert_eq!(preview_max_samples(16000), 48000);
}

#[test]
fn transcripts() {
    assert!(is_usable_transcript(" 你好 "));
    assert!(!is_usable_transcript("   "));
    assert!(!is_usable_transcript(" [BLANK_AUDIO]\n"));
}

#[test]
fn shell_quoting() {
    assert_eq!(shell_escape_arg(""), "''");
    assert_eq!(shell_escape_arg("/usr/bin/echopup"), "/usr/bin/echopup");
    assert_eq!(shell_escape_arg("/tmp/my dir/echopup"), "'/tmp/my dir/echopup'");
    assert_eq!(shell_escape_arg("it's"), "'it'\"'\"'s'");
    assert_eq!(
        wayland_trigger_command("/opt/echopup", "~/.echopup/config.toml"),
        "/opt/echopup --config ~/.echopup/config.toml trigger toggle"
    );
    assert_eq!(trigger_backend_description(false), "应用内热键 (f6)");
}
