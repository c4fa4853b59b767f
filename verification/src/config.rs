//! Configuration model and its defaults.

use vstd::prelude::*;
use crate::paths::{home_dir, home_dir_or_dot, join_path, path_join};
use crate::text::{replace_all, str_eq, str_replace};

verus! {

/// How the hotkey starts and stops a recording.
#[derive(Debug, Clone, Copy, PartialEq, Eq, Structural)]
pub enum HotkeyTriggerMode {
    /// Recording runs while the key is held.
    HoldToRecord,
    /// A press starts recording, the next press stops it.
    PressToToggle,
}

impl Default for HotkeyTriggerMode {
    fn default() -> (r: Self)
        ensures
            r == HotkeyTriggerMode::PressToToggle,
    {
        HotkeyTriggerMode::PressToToggle
    }
}

/// The label of a trigger mode.
pub open spec fn trigger_mode_label(m: HotkeyTriggerMode) -> Seq<char> {
    match m {
        HotkeyTriggerMode::HoldToRecord => "长按模式"@,
        HotkeyTriggerMode::PressToToggle => "按压切换模式"@,
    }
}

impl HotkeyTriggerMode {
    /// The label shown to the user.
    pub fn label(self) -> (r: &'static str)
        ensures
            r@ == trigger_mode_label(self),
    {
        match self {
            HotkeyTriggerMode::HoldToRecord => "长按模式",
            HotkeyTriggerMode::PressToToggle => "按压切换模式",
        }
    }
}

/// Hotkey settings.
#[derive(Debug, Clone)]
pub struct HotkeyConfig {
    pub trigger_mode: HotkeyTriggerMode,
}

impl Default for HotkeyConfig {
    fn default() -> (r: Self)
        ensures
            r.trigger_mode == HotkeyTriggerMode::PressToToggle,
    {
        HotkeyConfig { trigger_mode: HotkeyTriggerMode::default() }
    }
}

/// Audio capture settings.
#[derive(Debug, Clone)]
pub struct AudioConfig {
    pub sample_rate: u32,
    pub channels: u16,
}

impl Default for AudioConfig {
    fn default() -> (r: Self)
        ensures
            r.sample_rate == 16000,
            r.channels == 1,
    {
        AudioConfig { sample_rate: 16000, channels: 1 }
    }
}

/// Local speech recognition back end.
#[derive(Debug, Clone, Copy, PartialEq, Eq, Structural)]
pub enum AsrBackend {
    SherpaParaformer,
}

impl Default for AsrBackend {
    fn default() -> (r: Self)
        ensures
            r == AsrBackend::SherpaParaformer,
    {
        AsrBackend::SherpaParaformer
    }
}

/// Speech recognition settings.
#[derive(Debug, Clone)]
pub struct AsrConfig {
    pub backend: AsrBackend,
    pub sherpa_paraformer: SherpaParaformerConfig,
}

/// sherpa-onnx Paraformer model settings.
#[derive(Debug, Clone)]
pub struct SherpaParaformerConfig {
    pub encoder_path: String,
    pub decoder_path: String,
    pub tokens_path: String,
    pub provider: Option<String>,
    pub num_threads: i32,
}

/// Directory of the Paraformer model under `base`.
pub open spec fn paraformer_model_dir_under(base: Seq<char>) -> Seq<char> {
    path_join(
        path_join(path_join(path_join(base, ".echopup"@), "models"@), "asr"@),
        "sherpa-onnx-streaming-paraformer-bilingual-zh-en"@,
    )
}

/// Path of the Paraformer model file `file` under `base`.
pub open spec fn paraformer_model_path_under(base: Seq<char>, file: Seq<char>) -> Seq<char> {
    path_join(paraformer_model_dir_under(base), file)
}

/// Path of the punctuation model under `base`.
pub open spec fn punctuation_model_path_under(base: Seq<char>) -> Seq<char> {
    path_join(
        path_join(path_join(path_join(base, ".echopup"@), "models"@), "punctuation"@),
        "model.onnx"@,
    )
}

/// The Paraformer model directory below `base`.
pub fn paraformer_model_dir_in(base: &str) -> (r: String)
    ensures
        r@ == paraformer_model_dir_under(base@),
{
    let a = join_path(base, ".echopup");
    let b = join_path(a.as_str(), "models");
    let c = join_path(b.as_str(), "asr");
    join_path(c.as_str(), "sherpa-onnx-streaming-paraformer-bilingual-zh-en")
}

/// The default path of a Paraformer model file, below the home directory
/// (or `.` when there is none).
pub fn default_paraformer_model_path(file_name: &str) -> (r: String)
    ensures
        exists|base: Seq<char>| r@ == paraformer_model_path_under(base, file_name@),
{
    let home = home_dir_or_dot();
    let dir = paraformer_model_dir_in(home.as_str());
    let r = join_path(dir.as_str(), file_name);
    assert(r@ == paraformer_model_path_under(home@, file_name@));
    r
}

/// The default path of the punctuation model.
pub fn default_punctuation_model_path() -> (r: String)
    ensures
        exists|base: Seq<char>| r@ == punctuation_model_path_under(base),
{
    let home = home_dir_or_dot();
    let a = join_path(home.as_str(), ".echopup");
    let b = join_path(a.as_str(), "models");
    let c = join_path(b.as_str(), "punctuation");
    let r = join_path(c.as_str(), "model.onnx");
    assert(r@ == punctuation_model_path_under(home@));
    r
}

/// `v.clamp(lo, hi)`.
pub open spec fn clamp(v: int, lo: int, hi: int) -> int {
    if v < lo {
        lo
    } else if v > hi {
        hi
    } else {
        v
    }
}

/// The thread count derived from the machine's parallelism: converted to
/// `i32` the way `as` converts, then clamped to `1..=8`; 4 when unknown.
pub open spec fn asr_threads_for_spec(parallelism: Option<usize>) -> int {
    match parallelism {
        Some(n) => clamp((n as i32) as int, 1, 8),
        None => 4,
    }
}

/// The recognition thread count for a machine with `parallelism`
/// processing units.
pub fn asr_threads_for(parallelism: Option<usize>) -> (r: i32)
    ensures
        1 <= r <= 8,
        r == asr_threads_for_spec(parallelism),
{
    let t: i32 = match parallelism {
        Some(n) => #[verifier::truncate] (n as i32),
        None => 4,
    };
    if t < 1 {
        1
    } else if t > 8 {
        8
    } else {
        t
    }
}

impl SherpaParaformerConfig {
    /// The default Paraformer settings for a machine with `parallelism`
    /// processing units (`None` when unknown).
    pub fn default_with_parallelism(parallelism: Option<usize>) -> (r: Self)
        ensures
            exists|base: Seq<char>|
                {
                    &&& r.encoder_path@ == paraformer_model_path_under(base, "encoder.onnx"@)
                    &&& r.decoder_path@ == paraformer_model_path_under(base, "decoder.onnx"@)
                    &&& r.tokens_path@ == paraformer_model_path_under(base, "tokens.txt"@)
                },
            r.provider matches Some(p) && p@ == "cpu"@,
            r.num_threads == asr_threads_for_spec(parallelism),
    {
        let home = home_dir_or_dot();
        let dir = paraformer_model_dir_in(home.as_str());
        let encoder_path = join_path(dir.as_str(), "encoder.onnx");
        let decoder_path = join_path(dir.as_str(), "decoder.onnx");
        let tokens_path = join_path(dir.as_str(), "tokens.txt");
        assert(encoder_path@ == paraformer_model_path_under(home@, "encoder.onnx"@));
        assert(decoder_path@ == paraformer_model_path_under(home@, "decoder.onnx"@));
        assert(tokens_path@ == paraformer_model_path_under(home@, "tokens.txt"@));
        SherpaParaformerConfig {
            encoder_path,
            decoder_path,
            tokens_path,
            provider: Some(String::from_str("cpu")),
            num_threads: asr_threads_for(parallelism),
        }
    }
}

impl Default for SherpaParaformerConfig {
    /// The default settings, with the thread count used when the machine's
    /// parallelism is unknown.
    fn default() -> (r: Self)
        ensures
            exists|base: Seq<char>|
                {
                    &&& r.encoder_path@ == paraformer_model_path_under(base, "encoder.onnx"@)
                    &&& r.decoder_path@ == paraformer_model_path_under(base, "decoder.onnx"@)
                    &&& r.tokens_path@ == paraformer_model_path_under(base, "tokens.txt"@)
                },
            r.provider matches Some(p) && p@ == "cpu"@,
            r.num_threads == 4,
    {
        SherpaParaformerConfig::default_with_parallelism(None)
    }
}

impl Default for AsrConfig {
    fn default() -> (r: Self)
        ensures
            r.backend == AsrBackend::SherpaParaformer,
            exists|base: Seq<char>|
                {
                    &&& r.sherpa_paraformer.encoder_path@ == paraformer_model_path_under(
                        base,
                        "encoder.onnx"@,
                    )
                    &&& r.sherpa_paraformer.decoder_path@ == paraformer_model_path_under(
                        base,
                        "decoder.onnx"@,
                    )
                    &&& r.sherpa_paraformer.tokens_path@ == paraformer_model_path_under(
                        base,
                        "tokens.txt"@,
                    )
                },
            r.sherpa_paraformer.provider matches Some(p) && p@ == "cpu"@,
            1 <= r.sherpa_paraformer.num_threads <= 8,
    {
        AsrConfig {
            backend: AsrBackend::SherpaParaformer,
            sherpa_paraformer: SherpaParaformerConfig::default(),
        }
    }
}

/// Homophone correction settings: wrong word -> right word.
#[derive(Debug, Clone)]
pub struct TextCorrectionConfig {
    pub enabled: bool,
    pub homophone_map: Vec<(String, String)>,
}

/// No wrong word appears twice: the table maps each wrong word to one right
/// word.
pub open spec fn homophone_keys_distinct(m: Seq<(String, String)>) -> bool {
    forall|i: int, j: int| 0 <= i < j < m.len() ==> (#[trigger] m[i]).0@ != (#[trigger] m[j]).0@
}

impl TextCorrectionConfig {
    /// A well-formed table: its wrong words are distinct.
    pub open spec fn wf(&self) -> bool {
        homophone_keys_distinct(self.homophone_map@)
    }
}

impl Default for TextCorrectionConfig {
    fn default() -> (r: Self)
        ensures
            r.enabled,
            r.homophone_map@.len() == 0,
            r.wf(),
    {
        TextCorrectionConfig { enabled: true, homophone_map: Vec::new() }
    }
}

/// Feedback settings.
#[derive(Debug, Clone)]
pub struct FeedbackConfig {
    pub status_bar_enabled: bool,
    pub sound_enabled: bool,
    pub notify_tip_on_start: bool,
}

impl Default for FeedbackConfig {
    fn default() -> (r: Self)
        ensures
            r.status_bar_enabled && r.sound_enabled && r.notify_tip_on_start,
    {
        FeedbackConfig { status_bar_enabled: true, sound_enabled: true, notify_tip_on_start: true }
    }
}

/// LLM rewrite settings.
#[derive(Debug, Clone)]
pub struct LLMConfig {
    pub enabled: bool,
    pub provider: String,
    pub model: String,
    pub api_base: String,
    pub api_key: String,
}

impl Default for LLMConfig {
    fn default() -> (r: Self)
        ensures
            !r.enabled,
            r.provider@ == "openai"@,
            r.model@ == "gpt-4o-mini"@,
            r.api_base@ == "https://api.openai.com/v1"@,
            r.api_key@.len() == 0,
    {
        LLMConfig {
            enabled: false,
            provider: String::from_str("openai"),
            model: String::from_str("gpt-4o-mini"),
            api_base: String::from_str("https://api.openai.com/v1"),
            api_key: String::new(),
        }
    }
}

/// Text commit settings (kept for configuration compatibility).
#[derive(Debug, Clone)]
pub struct CommitConfig {}

impl Default for CommitConfig {
    fn default() -> (r: Self) {
        CommitConfig {  }
    }
}

/// Offline punctuation settings.
#[derive(Debug, Clone)]
pub struct PunctuationConfig {
    pub enabled: bool,
    pub model_path: String,
}

impl Default for PunctuationConfig {
    fn default() -> (r: Self)
        ensures
            r.enabled,
            exists|base: Seq<char>| r.model_path@ == punctuation_model_path_under(base),
    {
        PunctuationConfig { enabled: true, model_path: default_punctuation_model_path() }
    }
}

/// The whole configuration.
#[derive(Debug, Clone)]
pub struct Config {
    pub hotkey: HotkeyConfig,
    pub audio: AudioConfig,
    pub asr: AsrConfig,
    pub llm: LLMConfig,
    pub text_correction: TextCorrectionConfig,
    pub feedback: FeedbackConfig,
    pub commit: CommitConfig,
    pub punctuation: PunctuationConfig,
}

impl Default for Config {
    fn default() -> (r: Self)
        ensures
            r.hotkey.trigger_mode == HotkeyTriggerMode::PressToToggle,
            r.audio.sample_rate == 16000,
            r.audio.channels == 1,
            r.asr.backend == AsrBackend::SherpaParaformer,
            exists|base: Seq<char>|
                {
                    &&& r.asr.sherpa_paraformer.encoder_path@ == paraformer_model_path_under(
                        base,
                        "encoder.onnx"@,
                    )
                    &&& r.asr.sherpa_paraformer.decoder_path@ == paraformer_model_path_under(
                        base,
                        "decoder.onnx"@,
                    )
                    &&& r.asr.sherpa_paraformer.tokens_path@ == paraformer_model_path_under(
                        base,
                        "tokens.txt"@,
                    )
                },
            r.asr.sherpa_paraformer.provider matches Some(p) && p@ == "cpu"@,
            1 <= r.asr.sherpa_paraformer.num_threads <= 8,
            !r.llm.enabled,
            r.llm.provider@ == "openai"@,
            r.llm.model@ == "gpt-4o-mini"@,
            r.llm.api_base@ == "https://api.openai.com/v1"@,
            r.llm.api_key@.len() == 0,
            r.text_correction.enabled,
            r.text_correction.homophone_map@.len() == 0,
            r.text_correction.wf(),
            r.feedback.status_bar_enabled && r.feedback.sound_enabled
                && r.feedback.notify_tip_on_start,
            r.punctuation.enabled,
            exists|base: Seq<char>| r.punctuation.model_path@ == punctuation_model_path_under(base),
    {
        Config {
            hotkey: HotkeyConfig::default(),
            audio: AudioConfig::default(),
            asr: AsrConfig::default(),
            llm: LLMConfig::default(),
            text_correction: TextCorrectionConfig::default(),
            feedback: FeedbackConfig::default(),
            commit: CommitConfig::default(),
            punctuation: PunctuationConfig::default(),
        }
    }
}

/// Whether the LLM settings are complete enough to be used.
pub open spec fn llm_configured(llm: LLMConfig) -> bool {
    llm.enabled && (llm.provider@ == "ollama"@ || llm.api_key@.len() > 0)
}

/// `echopup/config.toml` below a configuration directory.
pub open spec fn config_path_under(dir: Seq<char>) -> Seq<char> {
    path_join(path_join(dir, "echopup"@), "config.toml"@)
}

impl Config {
    /// The configuration file in the user's configuration directory (or
    /// in `.` when there is none).
    pub fn default_path() -> (r: String)
        ensures
            exists|dir: Seq<char>| r@ == config_path_under(dir),
    {
        let dir = crate::paths::config_dir_or_dot();
        let a = join_path(dir.as_str(), "echopup");
        let r = join_path(a.as_str(), "config.toml");
        assert(r@ == config_path_under(dir@));
        r
    }

    /// Whether the LLM is enabled and configured: Ollama needs no API key,
    /// other providers do.
    pub fn is_llm_configured(&self) -> (r: bool)
        ensures
            r == llm_configured(self.llm),
    {
        if !self.llm.enabled {
            return false;
        }
        if str_eq(self.llm.provider.as_str(), "ollama") {
            return true;
        }
        self.llm.api_key.unicode_len() != 0
    }
}

/// A configuration path with every `~` replaced by `home`.
pub fn expand_config_path_with_home(path: &str, home: &str) -> (r: String)
    ensures
        r@ == replace_all(path@, "~"@, home@),
{
    proof {
        reveal_strlit("~");
    }
    str_replace(path, "~", home)
}

/// A home directory that was looked up, or the empty text when none was
/// found.
pub open spec fn home_or_empty(home: Option<Seq<char>>) -> Seq<char> {
    match home {
        Some(h) => h,
        None => Seq::empty(),
    }
}

/// A configuration path with every `~` replaced by the home directory that
/// was found, or by nothing when none was.
pub fn expand_config_path_in(path: &str, home: Option<&str>) -> (r: String)
    ensures
        r@ == replace_all(
            path@,
            "~"@,
            home_or_empty(
                match home {
                    Some(h) => Some(h@),
                    None => None,
                },
            ),
        ),
{
    match home {
        Some(h) => expand_config_path_with_home(path, h),
        None => {
            let empty = String::new();
            expand_config_path_with_home(path, empty.as_str())
        },
    }
}

/// A configuration path with every `~` replaced by the home directory
/// (by nothing when there is none).
pub fn expand_config_path(path: &str) -> (r: String)
    ensures
        exists|home: Option<Seq<char>>| r@ == replace_all(path@, "~"@, home_or_empty(home)),
{
    match home_dir() {
        Some(h) => expand_config_path_in(path, Some(h.as_str())),
        None => expand_config_path_in(path, None),
    }
}

} // verus!
