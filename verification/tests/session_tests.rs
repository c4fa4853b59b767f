use echopup::commit::CommitAction;
use echopup::session::{
    FinalResultManager, PartialResultManager, RecognitionSession, STALE_COMMA_THRESHOLD,
    STALE_LOCK_THRESHOLD,
};

#[test]
fn prepare_commit_ignores_blank_text() {
    let mut manager = FinalResultManager::default();
    assert!(manager.prepare_commit("   ").is_none());
}

#[test]
fn prepare_commit_deduplicates_latest_final() {
    let mut manager = FinalResultManager::default();
    assert!(manager.prepare_commit("你好").is_some());
    assert!(manager.prepare_commit("你好").is_none());
}

#[test]
fn update_ignores_blank_text() {
    let mut manager = PartialResultManager::default();
    assert!(manager.update("   ").is_none());
}

#[test]
fn update_deduplicates_same_text() {
    let mut manager = PartialResultManager::default();
    assert!(manager.update("你好").is_some());
    assert!(manager.update("你好").is_none());
}

#[test]
fn update_formats_status() {
    let mut manager = PartialResultManager::default();
    let update = manager.update("第一行\n第二行").unwrap();
    assert_eq!(update.text, "第一行 第二行");
    assert!(update.status_text.starts_with("识别中: "));
}

#[test]
fn draft_commit_first_call_has_zero_delete() {
    let mut manager = PartialResultManager::default();
    let action = manager.prepare_draft_commit("你好").unwrap();
    match action {
        CommitAction::UpdateDraft { new_text, delete_chars } => {
            assert_eq!(new_text, "你好");
            assert_eq!(delete_chars, 0);
        }
        _ => panic!("expected UpdateDraft"),
    }
}

#[test]
fn draft_commit_appends_when_prefix_matches() {
    let mut manager = PartialResultManager::default();
    manager.prepare_draft_commit("你好");
    let action = manager.prepare_draft_commit("你好世界").unwrap();
    match action {
        CommitAction::UpdateDraft { new_text, delete_chars } => {
            assert_eq!(new_text, "世界");
            assert_eq!(delete_chars, 0);
        }
        _ => panic!("expected UpdateDraft"),
    }
}

#[test]
fn draft_commit_replaces_divergent_tail() {
    let mut manager = PartialResultManager::default();
    manager.prepare_draft_commit("你好世界吗");
    let action = manager.prepare_draft_commit("你好世界啊").unwrap();
    match action {
        CommitAction::UpdateDraft { new_text, delete_chars } => {
            assert_eq!(new_text, "啊");
            assert_eq!(delete_chars, 1);
        }
        _ => panic!("expected UpdateDraft"),
    }
}

#[test]
fn draft_commit_stability_lock_prevents_full_delete() {
    let mut manager = PartialResultManager::default();
    manager.prepare_draft_commit("你好世界");
    for _ in 0..STALE_LOCK_THRESHOLD {
        manager.tick_stability(false);
    }
    let action = manager.prepare_draft_commit("经典天地").unwrap();
    match action {
        CommitAction::UpdateDraft { new_text, delete_chars } => {
            assert_eq!(delete_chars, 4);
            assert_eq!(new_text, "经典天地");
        }
        _ => panic!("expected UpdateDraft"),
    }
}

#[test]
fn stability_injects_comma_after_threshold() {
    let mut manager = PartialResultManager::default();
    manager.prepare_draft_commit("你好世界");
    for _ in 0..STALE_COMMA_THRESHOLD {
        let action = manager.tick_stability(false);
        if action.is_some() {
            match action.unwrap() {
                CommitAction::UpdateDraft { new_text, delete_chars } => {
                    assert_eq!(new_text, "，");
                    assert_eq!(delete_chars, 0);
                }
                _ => panic!("expected UpdateDraft with comma"),
            }
            return;
        }
    }
    panic!("expected comma to be injected");
}

#[test]
fn draft_commit_identical_text_returns_none() {
    let mut manager = PartialResultManager::default();
    manager.prepare_draft_commit("你好");
    assert!(manager.prepare_draft_commit("你好").is_none());
}

#[test]
fn draft_clear_returns_none_when_no_draft() {
    let mut manager = PartialResultManager::default();
    assert!(manager.prepare_draft_clear().is_none());
}

#[test]
fn draft_clear_returns_correct_count() {
    let mut manager = PartialResultManager::default();
    manager.prepare_draft_commit("abc");
    let action = manager.prepare_draft_clear().unwrap();
    match action {
        CommitAction::ClearDraft { delete_chars } => {
            assert_eq!(delete_chars, 3);
        }
        _ => panic!("expected ClearDraft"),
    }
    assert!(manager.prepare_draft_clear().is_none());
}

#[test]
fn final_from_draft_smooth_transition() {
    let mut manager = PartialResultManager::default();
    manager.prepare_draft_commit("你好世界吗");
    let action = manager.prepare_final_from_draft("你好世界啊！").unwrap();
    match action {
        CommitAction::CommitFinalFromDraft { new_text, delete_chars } => {
            assert_eq!(delete_chars, 1);
            assert_eq!(new_text, "啊！");
        }
        _ => panic!("expected CommitFinalFromDraft"),
    }
    assert!(manager.prepare_draft_clear().is_none());
}

#[test]
fn final_from_draft_returns_none_when_no_draft() {
    let mut manager = PartialResultManager::default();
    assert!(manager.prepare_final_from_draft("any text").is_none());
}

#[test]
fn session_final_commit_without_draft_types_text() {
    let mut session = RecognitionSession::new();
    match session.prepare_final_commit("你好") {
        Some(CommitAction::CommitFinal { text }) => assert_eq!(text, "你好"),
        _ => panic!("expected CommitFinal"),
    }
    assert!(session.prepare_final_commit("你好").is_none());
}

#[test]
fn session_final_commit_replaces_draft_tail() {
    let mut session = RecognitionSession::new();
    session.prepare_draft_commit("今天天汽");
    match session.prepare_final_commit("今天天气") {
        Some(CommitAction::CommitFinalFromDraft { new_text, delete_chars }) => {
            assert_eq!(new_text, "气");
            assert_eq!(delete_chars, 1);
        }
        _ => panic!("expected CommitFinalFromDraft"),
    }
}

#[test]
fn one_pause_comma_on_the_third_unchanged_poll() {
    let mut manager = PartialResultManager::default();
    manager.prepare_draft_commit("你好");
    assert!(manager.tick_stability(false).is_none());
    assert!(manager.tick_stability(false).is_none());
    assert!(manager.tick_stability(false).is_some());
    // one comma per pause
    assert!(manager.tick_stability(false).is_none());
    assert!(manager.tick_stability(false).is_none());
    // the draft now ends in the comma, so a new pause adds none
    assert!(manager.tick_stability(true).is_none());
    for _ in 0..5 {
        assert!(manager.tick_stability(false).is_none());
    }
    // removing the draft deletes the comma as well
    match manager.prepare_draft_clear() {
        Some(CommitAction::ClearDraft { delete_chars }) => assert_eq!(delete_chars, 3),
        _ => panic!("expected ClearDraft"),
    }
}

#[test]
fn changed_text_restarts_the_pause_count() {
    let mut manager = PartialResultManager::default();
    manager.prepare_draft_commit("你好");
    assert!(manager.tick_stability(false).is_none());
    assert!(manager.tick_stability(false).is_none());
    assert!(manager.tick_stability(true).is_none());
    manager.prepare_draft_commit("你好世界");
    assert!(manager.tick_stability(false).is_none());
    assert!(manager.tick_stability(false).is_none());
    assert!(manager.tick_stability(false).is_some());
}

#[test]
fn session_reports_unchanged_polls() {
    let mut session = RecognitionSession::new();
    assert_eq!(session.stale_polls(), 0);
    session.tick_stability(false);
    session.tick_stability(false);
    assert_eq!(session.stale_polls(), 2);
    session.tick_stability(true);
    assert_eq!(session.stale_polls(), 0);
}
