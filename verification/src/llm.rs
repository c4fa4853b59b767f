//! LLM rewriting of transcripts: which service is asked and how, when
//! asking is paused after failures, and which text is kept.
//!
//! The HTTP requests and their JSON bodies are made by the program around
//! this library.

use vstd::prelude::*;
use crate::text::{copy_str, str_eq, to_chars};

verus! {

/// Seconds a request may take.
pub const REQUEST_TIMEOUT_SECS: u64 = 4;

/// Consecutive failures after which the LLM is paused.
pub const PAUSE_AFTER_FAILURES: u32 = 3;

/// While paused, one probe request is let through this often (ms).
pub const PROBE_INTERVAL_MS: u64 = 60000;

/// The instructions sent with every transcript.
pub const SYSTEM_PROMPT: &'static str = "你是语音转写文本的校对助手。请仅修正以下语音识别文本中的错误，不要改变原意、不要添加内容、不要解释。\n\n规则：\n1. 修正同音字和近音字错误\n2. 补充必要的标点符号\n3. 只输出修正后的文本";

/// The API a provider speaks.
#[derive(Debug, Clone, Copy, PartialEq, Eq, Structural)]
pub enum LlmApi {
    /// OpenAI-compatible chat completions (the default).
    OpenAi,
    /// Ollama's generate endpoint.
    Ollama,
    /// Anthropic's messages endpoint.
    Anthropic,
}

/// `ollama` and `anthropic` have their own APIs; every other provider is
/// spoken to as OpenAI-compatible.
pub open spec fn api_for(provider: Seq<char>) -> LlmApi {
    if provider == "ollama"@ {
        LlmApi::Ollama
    } else if provider == "anthropic"@ {
        LlmApi::Anthropic
    } else {
        LlmApi::OpenAi
    }
}

/// The API of a provider.
pub fn api_for_provider(provider: &str) -> (r: LlmApi)
    ensures
        r == api_for(provider@),
{
    if str_eq(provider, "ollama") {
        LlmApi::Ollama
    } else if str_eq(provider, "anthropic") {
        LlmApi::Anthropic
    } else {
        LlmApi::OpenAi
    }
}

/// The path appended to the API base.
pub open spec fn endpoint_path(api: LlmApi) -> Seq<char> {
    match api {
        LlmApi::OpenAi => "/chat/completions"@,
        LlmApi::Ollama => "/api/generate"@,
        LlmApi::Anthropic => "/messages"@,
    }
}

/// The URL a request goes to: the API base followed by the endpoint.
pub fn request_url(api: LlmApi, api_base: &str) -> (r: String)
    ensures
        r@ == api_base@ + endpoint_path(api),
{
    let mut r = copy_str(api_base);
    match api {
        LlmApi::OpenAi => r.append("/chat/completions"),
        LlmApi::Ollama => r.append("/api/generate"),
        LlmApi::Anthropic => r.append("/messages"),
    }
    r
}

/// The `Authorization` value of an OpenAI-compatible request.
pub fn bearer_header(api_key: &str) -> (r: String)
    ensures
        r@ == "Bearer "@ + api_key@,
{
    let mut r = String::from_str("Bearer ");
    r.append(api_key);
    r
}

/// The prompt of an Ollama request: the instructions, a blank line, the
/// text.
pub fn ollama_prompt(text: &str) -> (r: String)
    ensures
        r@ == SYSTEM_PROMPT@ + "\n\n"@ + text@,
{
    let mut r = String::from_str(SYSTEM_PROMPT);
    r.append("\n\n");
    r.append(text);
    r
}

/// The text kept from a reply listing candidate texts: the first one, or
/// the original text when there is none.
pub fn first_choice_or(choices: &Vec<String>, text: &str) -> (r: String)
    ensures
        choices@.len() > 0 ==> r@ == choices@[0]@,
        choices@.len() == 0 ==> r@ == text@,
{
    if choices.len() > 0 {
        copy_str(choices[0].as_str())
    } else {
        copy_str(text)
    }
}

/// The rewriter is on for Ollama (a local service) or when an API key is
/// set.
pub open spec fn rewriter_enabled(provider: Seq<char>, api_key: Seq<char>) -> bool {
    provider == "ollama"@ || api_key.len() > 0
}

/// What to do with a transcript.
#[derive(Debug, Clone, Copy, PartialEq, Eq, Structural)]
pub enum RewriteDecision {
    /// Keep the transcript as it is.
    KeepOriginal,
    /// Ask the service.
    Request,
}

/// The pause state of the rewriter.
pub ghost struct RewriteState {
    pub enabled: bool,
    pub consecutive_failures: u32,
    pub last_probe_ms: Option<u64>,
}

/// When to ask the LLM, and when to stop asking.
pub struct LlmRewritePolicy {
    enabled: bool,
    consecutive_failures: u32,
    last_probe_ms: Option<u64>,
}

impl View for LlmRewritePolicy {
    type V = RewriteState;

    closed spec fn view(&self) -> RewriteState {
        RewriteState {
            enabled: self.enabled,
            consecutive_failures: self.consecutive_failures,
            last_probe_ms: self.last_probe_ms,
        }
    }
}

/// Time since `t`, zero when the clock is behind it.
pub open spec fn elapsed_since(now_ms: u64, t: u64) -> int {
    if now_ms >= t {
        now_ms - t
    } else {
        0
    }
}

/// The decision and state for a transcript at `now_ms`: nothing is asked
/// when the rewriter is off or the text is empty; after
/// `PAUSE_AFTER_FAILURES` failures in a row, one probe is let through per
/// `PROBE_INTERVAL_MS`, and its time recorded.
pub open spec fn decide_spec(s: RewriteState, text_empty: bool, now_ms: u64) -> (RewriteState, RewriteDecision) {
    if !s.enabled || text_empty {
        (s, RewriteDecision::KeepOriginal)
    } else if s.consecutive_failures >= PAUSE_AFTER_FAILURES {
        let probe = match s.last_probe_ms {
            Some(t) => elapsed_since(now_ms, t) >= PROBE_INTERVAL_MS,
            None => true,
        };
        if probe {
            (RewriteState { last_probe_ms: Some(now_ms), ..s }, RewriteDecision::Request)
        } else {
            (s, RewriteDecision::KeepOriginal)
        }
    } else {
        (s, RewriteDecision::Request)
    }
}

impl LlmRewritePolicy {
    /// A rewriter for `provider` with `api_key`, with no failure yet.
    pub fn new(provider: &str, api_key: &str) -> (r: Self)
        ensures
            r@ == (RewriteState {
                enabled: rewriter_enabled(provider@, api_key@),
                consecutive_failures: 0,
                last_probe_ms: None,
            }),
    {
        let enabled = str_eq(provider, "ollama") || to_chars(api_key).len() > 0;
        LlmRewritePolicy { enabled, consecutive_failures: 0, last_probe_ms: None }
    }

    /// Whether the rewriter is on.
    pub fn is_enabled(&self) -> (r: bool)
        ensures
            r == self@.enabled,
    {
        self.enabled
    }

    /// Failures since the last success.
    pub fn consecutive_failures(&self) -> (r: u32)
        ensures
            r == self@.consecutive_failures,
    {
        self.consecutive_failures
    }

    /// Decides whether to ask the service about `text` at `now_ms`.
    pub fn decide(&mut self, text: &str, now_ms: u64) -> (r: RewriteDecision)
        ensures
            (final(self)@, r) == decide_spec(old(self)@, text@.len() == 0, now_ms),
    {
        if !self.enabled || to_chars(text).len() == 0 {
            return RewriteDecision::KeepOriginal;
        }
        if self.consecutive_failures >= PAUSE_AFTER_FAILURES {
            let probe = match self.last_probe_ms {
                Some(t) => {
                    let elapsed: u64 = if now_ms >= t { now_ms - t } else { 0 };
                    elapsed >= PROBE_INTERVAL_MS
                },
                None => true,
            };
            if !probe {
                return RewriteDecision::KeepOriginal;
            }
            self.last_probe_ms = Some(now_ms);
        }
        RewriteDecision::Request
    }

    /// Records a successful request: the failure count and the probe time
    /// are reset.
    pub fn record_success(&mut self)
        ensures
            final(self)@ == (RewriteState {
                consecutive_failures: 0,
                last_probe_ms: None,
                ..old(self)@
            }),
    {
        self.consecutive_failures = 0;
        self.last_probe_ms = None;
    }

    /// Records a failed request.
    pub fn record_failure(&mut self)
        requires
            old(self)@.consecutive_failures < u32::MAX,
        ensures
            final(self)@ == (RewriteState {
                consecutive_failures: (old(self)@.consecutive_failures + 1) as u32,
                ..old(self)@
            }),
    {
        self.consecutive_failures = self.consecutive_failures + 1;
    }

    /// The text kept after a request: the rewrite, or the original text
    /// when the request failed.
    pub fn result_text(&self, text: &str, rewritten: Option<String>) -> (r: String)
        ensures
            r@ == match rewritten {
                Some(t) => t@,
                None => text@,
            },
    {
        match rewritten {
            Some(t) => t,
            None => copy_str(text),
        }
    }
}

/// After `PAUSE_AFTER_FAILURES` failures in a row the service is not asked
/// again until the probe interval has passed since the last probe; a
/// success then lifts the pause.
pub proof fn law_pause_after_failures(s: RewriteState, probe_at: u64, now_ms: u64)
    requires
        s.enabled,
        s.consecutive_failures >= PAUSE_AFTER_FAILURES,
        s.last_probe_ms == Some(probe_at),
        now_ms >= probe_at,
    ensures
        now_ms - probe_at < PROBE_INTERVAL_MS ==> decide_spec(s, false, now_ms).1
            == RewriteDecision::KeepOriginal,
        now_ms - probe_at >= PROBE_INTERVAL_MS ==> decide_spec(s, false, now_ms).1
            == RewriteDecision::Request,
        decide_spec(
            RewriteState { consecutive_failures: 0, last_probe_ms: None, ..s },
            false,
            now_ms,
        ).1 == RewriteDecision::Request,
{
}

} // verus!
