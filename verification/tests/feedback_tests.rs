use echopup::feedback::{
    command_candidates, editor_command, feedback_sound_command, notify_capability, notify_command,
    sound_capability, split_whitespace_words,
};
use echopup::keyboard::{keyboard_choice, keyboard_unavailable_message, KeyboardChoice};

#[test]
fn notification_capability() {
    assert_eq!(notify_capability(true, true), (true, "linux notify-send".to_string()));
    assert!(!notify_capability(false, true).0);
    assert!(notify_capability(false, true).1.contains("notify-send"));
    assert!(!notify_capability(true, false).0);
    assert!(notify_capability(true, false).1.contains("DISPLAY"));
}

#[test]
fn sound_capability_prefers_paplay() {
    assert_eq!(sound_capability(true, true, true), (true, "linux paplay".to_string()));
    assert_eq!(sound_capability(true, false, true), (true, "linux aplay".to_string()));
    assert!(!sound_capability(false, true, true).0);
    assert!(!sound_capability(true, false, false).0);
    let c = feedback_sound_command(true, true).unwrap();
    assert_eq!(c.program, "paplay");
    assert_eq!(c.args, vec!["/usr/share/sounds/freedesktop/stereo/message.oga".to_string()]);
    let c = feedback_sound_command(false, true).unwrap();
    assert_eq!(c.program, "aplay");
    assert!(feedback_sound_command(false, false).is_none());
}

#[test]
fn notify_send_arguments() {
    let c = notify_command("EchoPup", "识别完成");
    assert_eq!(c.program, "notify-send");
    assert_eq!(c.args, vec!["-a", "EchoPup", "-u", "low", "EchoPup", "识别完成"]);
}

#[test]
fn command_lookup_candidates() {
    let dirs = vec!["/usr/bin".to_string(), "/bin".to_string()];
    assert_eq!(command_candidates("wtype", &dirs), vec!["/usr/bin/wtype", "/bin/wtype"]);
    assert_eq!(command_candidates("./wtype", &dirs), vec!["./wtype"]);
    assert!(command_candidates("", &dirs).is_empty());
}

#[test]
fn editor_words() {
    assert_eq!(split_whitespace_words("  code  --wait \t x "), vec!["code", "--wait", "x"]);
    assert_eq!(
        editor_command(Some("code --wait")),
        Some(("code".to_string(), vec!["--wait".to_string()]))
    );
    assert_eq!(editor_command(None), Some(("vi".to_string(), vec![])));
    assert_eq!(editor_command(Some("   ")), None);
}

#[test]
fn keyboard_backend_choice() {
    assert_eq!(keyboard_choice(true, true, true), KeyboardChoice::LinuxCommand);
    assert_eq!(keyboard_choice(true, false, true), KeyboardChoice::Enigo);
    assert_eq!(keyboard_choice(false, true, true), KeyboardChoice::Enigo);
    assert_eq!(keyboard_choice(false, true, false), KeyboardChoice::LinuxCommand);
    assert_eq!(keyboard_choice(false, false, false), KeyboardChoice::Unavailable);
    assert_eq!(keyboard_unavailable_message("无后端"), "键盘输入不可用: 无后端");
}
