use echopup::llm::{
    api_for_provider, bearer_header, first_choice_or, ollama_prompt, request_url, LlmApi,
    LlmRewritePolicy, RewriteDecision, PAUSE_AFTER_FAILURES, PROBE_INTERVAL_MS, SYSTEM_PROMPT,
};

#[test]
fn providers_and_endpoints() {
    assert_eq!(api_for_provider("ollama"), LlmApi::Ollama);
    assert_eq!(api_for_provider("anthropic"), LlmApi::Anthropic);
    assert_eq!(api_for_provider("openai"), LlmApi::OpenAi);
    assert_eq!(api_for_provider("deepseek"), LlmApi::OpenAi);
    assert_eq!(
        request_url(LlmApi::OpenAi, "https://api.openai.com/v1"),
        "https://api.openai.com/v1/chat/completions"
    );
    assert_eq!(
        request_url(LlmApi::Ollama, "http://localhost:11434"),
        "http://localhost:11434/api/generate"
    );
    assert_eq!(
        request_url(LlmApi::Anthropic, "https://api.anthropic.com/v1"),
        "https://api.anthropic.com/v1/messages"
    );
    assert_eq!(bearer_header("sk-1"), "Bearer sk-1");
}

#[test]
fn prompt_and_reply_texts() {
    let p = ollama_prompt("你好");
    assert!(p.starts_with(SYSTEM_PROMPT));
    assert!(p.ends_with("\n\n你好"));
    assert_eq!(p.len(), SYSTEM_PROMPT.len() + 2 + "你好".len());
    assert_eq!(first_choice_or(&vec!["甲".to_string(), "乙".to_string()], "原文"), "甲");
    assert_eq!(first_choice_or(&vec![], "原文"), "原文");
}

#[test]
fn rewriter_enabled_by_key_or_ollama() {
    assert!(!LlmRewritePolicy::new("openai", "").is_enabled());
    assert!(LlmRewritePolicy::new("openai", "sk").is_enabled());
    assert!(LlmRewritePolicy::new("ollama", "").is_enabled());
    let mut off = LlmRewritePolicy::new("openai", "");
    assert_eq!(off.decide("文本", 0), RewriteDecision::KeepOriginal);
}

#[test]
fn empty_text_is_never_sent() {
    let mut p = LlmRewritePolicy::new("ollama", "");
    assert_eq!(p.decide("", 0), RewriteDecision::KeepOriginal);
    assert_eq!(p.decide("x", 0), RewriteDecision::Request);
}

#[test]
fn pause_after_three_failures_and_probe() {
    let mut p = LlmRewritePolicy::new("openai", "sk");
    for _ in 0..PAUSE_AFTER_FAILURES {
        assert_eq!(p.decide("文本", 1_000), RewriteDecision::Request);
        p.record_failure();
    }
    assert_eq!(p.consecutive_failures(), 3);
    // The first request after the pause is a probe.
    assert_eq!(p.decide("文本", 2_000), RewriteDecision::Request);
    p.record_failure();
    // Within the probe interval nothing is sent.
    assert_eq!(p.decide("文本", 2_000 + PROBE_INTERVAL_MS - 1), RewriteDecision::KeepOriginal);
    // After it, one more probe.
    assert_eq!(p.decide("文本", 2_000 + PROBE_INTERVAL_MS), RewriteDecision::Request);
    p.record_success();
    assert_eq!(p.consecutive_failures(), 0);
    assert_eq!(p.decide("文本", 2_000 + PROBE_INTERVAL_MS), RewriteDecision::Request);
}

#[test]
fn failed_rewrite_keeps_original() {
    let p = LlmRewritePolicy::new("openai", "sk");
    assert_eq!(p.result_text("原文", None), "原文");
    assert_eq!(p.result_text("原文", Some("改写".to_string())), "改写");
}
