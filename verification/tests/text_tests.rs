use echopup::config::TextCorrectionConfig;
use echopup::postprocess::TextPostProcessor;
use echopup::text::{parse_u64, split_str, str_replace, trim_str, u64_to_decimal};
use echopup::trigger::{wire_message, ExternalTriggerAction};

#[test]
fn test_homophone_replace() {
    let map = vec![
        ("公做".to_string(), "工作".to_string()),
        ("行好".to_string(), "型号".to_string()),
    ];
    let cfg = TextCorrectionConfig { enabled: true, homophone_map: map };
    let processor = TextPostProcessor::new(&cfg);
    let output = processor.process("这个公做的行好不错");
    assert_eq!(output, "这个工作的型号不错");
}

#[test]
fn test_longer_rule_first() {
    let map = vec![
        ("北京大学".to_string(), "北大".to_string()),
        ("北京".to_string(), "京城".to_string()),
    ];
    let cfg = TextCorrectionConfig { enabled: true, homophone_map: map };
    let processor = TextPostProcessor::new(&cfg);
    let output = processor.process("我在北京大学读书");
    assert_eq!(output, "我在北大读书");
}

#[test]
fn longer_rule_first_whatever_the_order() {
    let map = vec![
        ("北京".to_string(), "京城".to_string()),
        ("北京大学".to_string(), "北大".to_string()),
    ];
    let cfg = TextCorrectionConfig { enabled: true, homophone_map: map };
    let processor = TextPostProcessor::new(&cfg);
    assert_eq!(processor.process("我在北京大学读书"), "我在北大读书");
}

#[test]
fn disabled_processor_keeps_text() {
    let map = vec![("公做".to_string(), "工作".to_string())];
    let cfg = TextCorrectionConfig { enabled: false, homophone_map: map };
    let processor = TextPostProcessor::new(&cfg);
    assert_eq!(processor.process("公做"), "公做");
}

#[test]
fn test_trigger_action_roundtrip() {
    for action in [
        ExternalTriggerAction::Press,
        ExternalTriggerAction::Release,
        ExternalTriggerAction::Toggle,
    ] {
        assert_eq!(ExternalTriggerAction::parse_wire(action.as_wire()), Some(action));
        assert_eq!(ExternalTriggerAction::parse_wire(&wire_message(action)), Some(action));
    }
    assert_eq!(ExternalTriggerAction::parse_wire("unknown"), None);
}

#[test]
fn string_helpers() {
    assert_eq!(trim_str("  a b \n"), "a b");
    assert_eq!(str_replace("a-b-c", "-", "+"), "a+b+c");
    assert_eq!(split_str("a/b//c", '/'), vec!["a", "b", "", "c"]);
    assert_eq!(u64_to_decimal(0), "0");
    assert_eq!(u64_to_decimal(18446744073709551615), "18446744073709551615");
    assert_eq!(parse_u64("+42"), Some(42));
    assert_eq!(parse_u64("18446744073709551616"), None);
    assert_eq!(parse_u64(""), None);
    assert_eq!(parse_u64("4x"), None);
}
