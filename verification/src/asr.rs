//! Speech recognition engines as configured: which files they need, what
//! they report about themselves, and when a streaming session decodes.
//!
//! Decoding itself is done by the sherpa-onnx recogniser in the program
//! around this library.

use vstd::prelude::*;
use crate::config::SherpaParaformerConfig;
use crate::paths::{path_file_name, std_path_file_name};
use crate::text::{copy_str, to_chars, trim, trim_str};

verus! {

/// The recognition backend.
#[derive(Debug, Clone, Copy, PartialEq, Eq, Structural)]
pub enum AsrBackendKind {
    SherpaParaformer,
}

impl AsrBackendKind {
    /// The backend's name in logs.
    pub fn label(self) -> (r: &'static str)
        ensures
            r@ == "sherpa_paraformer"@,
    {
        match self {
            AsrBackendKind::SherpaParaformer => "sherpa_paraformer",
        }
    }
}

/// What an engine reports about itself.
#[derive(Debug, Clone)]
pub struct AsrRuntimeInfo {
    pub backend: AsrBackendKind,
    pub model: String,
    pub threads: Option<i32>,
    pub detail: Option<String>,
}

/// Settings of a streaming session.
#[derive(Debug, Clone, Copy)]
pub struct AsrSessionConfig {
    /// Fewest buffered samples before a partial result is decoded.
    pub min_partial_samples: usize,
    /// Most recent samples a partial result is decoded from.
    pub max_partial_window_samples: usize,
}

/// How Whisper decodes.
#[derive(Debug, Clone, Copy, PartialEq, Eq, Structural)]
pub enum DecodingStrategy {
    /// Greedy decoding keeping the best of `best_of` candidates.
    Greedy { best_of: i32 },
    /// Beam search with `beam_size` beams: usually more accurate, slower.
    BeamSearch { beam_size: i32 },
}

/// The sample rate Paraformer expects.
pub const PARAFORMER_SAMPLE_RATE: i32 = 16000;

/// The first model file that is missing, as an error message.
pub open spec fn paraformer_missing_spec(
    cfg: SherpaParaformerConfig,
    encoder_exists: bool,
    decoder_exists: bool,
    tokens_exists: bool,
) -> Option<Seq<char>> {
    if !encoder_exists {
        Some("未找到 Paraformer encoder 模型文件: "@ + cfg.encoder_path@)
    } else if !decoder_exists {
        Some("未找到 Paraformer decoder 模型文件: "@ + cfg.decoder_path@)
    } else if !tokens_exists {
        Some("未找到 Paraformer tokens 文件: "@ + cfg.tokens_path@)
    } else {
        None
    }
}

/// Checks that the encoder, decoder and tokens files exist (in that
/// order), given whether each of them does.
pub fn validate_paraformer_files(
    cfg: &SherpaParaformerConfig,
    encoder_exists: bool,
    decoder_exists: bool,
    tokens_exists: bool,
) -> (r: Result<(), String>)
    ensures
        r is Ok <==> paraformer_missing_spec(*cfg, encoder_exists, decoder_exists, tokens_exists) is None,
        r matches Err(e) ==> paraformer_missing_spec(*cfg, encoder_exists, decoder_exists, tokens_exists)
            == Some(e@),
{
    if !encoder_exists {
        let mut e = String::from_str("未找到 Paraformer encoder 模型文件: ");
        e.append(cfg.encoder_path.as_str());
        return Err(e);
    }
    if !decoder_exists {
        let mut e = String::from_str("未找到 Paraformer decoder 模型文件: ");
        e.append(cfg.decoder_path.as_str());
        return Err(e);
    }
    if !tokens_exists {
        let mut e = String::from_str("未找到 Paraformer tokens 文件: ");
        e.append(cfg.tokens_path.as_str());
        return Err(e);
    }
    Ok(())
}

/// The recogniser runs on at least one thread.
pub fn recognizer_threads(num_threads: i32) -> (r: i32)
    ensures
        r == if num_threads < 1 { 1 } else { num_threads },
{
    if num_threads < 1 {
        1
    } else {
        num_threads
    }
}

/// The streaming Paraformer engine, by its configuration.
pub struct SherpaParaformerEngine {
    cfg: SherpaParaformerConfig,
}

/// The name of the Paraformer model: the encoder's file name, or
/// `paraformer` when it has none.
pub open spec fn paraformer_model_name(cfg: SherpaParaformerConfig) -> Seq<char> {
    match std_path_file_name(cfg.encoder_path@) {
        Some(n) => n,
        None => "paraformer"@,
    }
}

/// The engine's detail line: `provider=` and the provider (`cpu` when
/// unset).
pub open spec fn paraformer_detail(cfg: SherpaParaformerConfig) -> Seq<char> {
    "provider="@ + match cfg.provider {
        Some(p) => p@,
        None => "cpu"@,
    }
}

impl SherpaParaformerEngine {
    /// The configuration in use.
    pub closed spec fn config(&self) -> SherpaParaformerConfig {
        self.cfg
    }

    /// An engine for `cfg`, once its model files are known to exist; the
    /// error names the first missing file.
    pub fn new(
        cfg: SherpaParaformerConfig,
        encoder_exists: bool,
        decoder_exists: bool,
        tokens_exists: bool,
    ) -> (r: Result<Self, String>)
        ensures
            r is Ok <==> paraformer_missing_spec(cfg, encoder_exists, decoder_exists, tokens_exists) is None,
            r matches Ok(e) ==> e.config() == cfg,
            r matches Err(e) ==> paraformer_missing_spec(cfg, encoder_exists, decoder_exists, tokens_exists)
                == Some(e@),
    {
        match validate_paraformer_files(&cfg, encoder_exists, decoder_exists, tokens_exists) {
            Ok(()) => Ok(SherpaParaformerEngine { cfg }),
            Err(e) => Err(e),
        }
    }

    /// The backend kind.
    pub fn backend_kind(&self) -> (r: AsrBackendKind)
        ensures
            r == AsrBackendKind::SherpaParaformer,
    {
        AsrBackendKind::SherpaParaformer
    }

    /// The encoder's file name, or `paraformer`.
    pub fn model_display_name(&self) -> (r: String)
        ensures
            r@ == paraformer_model_name(self.config()),
    {
        match path_file_name(self.cfg.encoder_path.as_str()) {
            Some(n) => n,
            None => String::from_str("paraformer"),
        }
    }

    /// What the engine reports: its backend, model name, thread count and
    /// provider.
    pub fn runtime_info(&self) -> (r: AsrRuntimeInfo)
        ensures
            r.backend == AsrBackendKind::SherpaParaformer,
            r.model@ == paraformer_model_name(self.config()),
            r.threads == Some(self.config().num_threads),
            r.detail matches Some(d) && d@ == paraformer_detail(self.config()),
    {
        let mut detail = String::from_str("provider=");
        match &self.cfg.provider {
            Some(p) => detail.append(p.as_str()),
            None => detail.append("cpu"),
        }
        AsrRuntimeInfo {
            backend: AsrBackendKind::SherpaParaformer,
            model: self.model_display_name(),
            threads: Some(self.cfg.num_threads),
            detail: Some(detail),
        }
    }

    /// The settings of the recogniser: its files, thread count (at least
    /// one) and provider.
    pub fn recognizer_settings(&self) -> (r: (String, String, String, i32, Option<String>))
        ensures
            r.0@ == self.config().encoder_path@,
            r.1@ == self.config().decoder_path@,
            r.2@ == self.config().tokens_path@,
            r.3 == if self.config().num_threads < 1 { 1 } else { self.config().num_threads },
            r.4 matches Some(p) ==> self.config().provider matches Some(q) && p@ == q@,
            r.4 is None ==> self.config().provider is None,
    {
        let provider = match &self.cfg.provider {
            Some(p) => Some(copy_str(p.as_str())),
            None => None,
        };
        (
            copy_str(self.cfg.encoder_path.as_str()),
            copy_str(self.cfg.decoder_path.as_str()),
            copy_str(self.cfg.tokens_path.as_str()),
            recognizer_threads(self.cfg.num_threads),
            provider,
        )
    }
}

// ---------------------------------------------------------------------------
// Streaming sessions
// ---------------------------------------------------------------------------

/// A partial result is decoded only when not aborted, new audio came since
/// the last one, and the window holds enough samples.
pub fn should_decode_partial(
    aborted: bool,
    has_pending_audio: bool,
    window_len: usize,
    min_partial_samples: usize,
) -> (r: bool)
    ensures
        r == (!aborted && has_pending_audio && window_len >= min_partial_samples),
{
    !aborted && has_pending_audio && window_len >= min_partial_samples
}

/// The partial text to report from a decoded preview: trimmed, and none
/// when blank.
pub fn partial_text(decoded: &str) -> (r: Option<String>)
    ensures
        trim(decoded@).len() == 0 ==> r is None,
        trim(decoded@).len() > 0 ==> (r matches Some(t) && t@ == trim(decoded@)),
{
    let t = trim_str(decoded);
    if to_chars(t.as_str()).len() == 0 {
        None
    } else {
        Some(t)
    }
}

/// The final result is decoded unless the session was aborted or heard
/// nothing.
pub fn should_decode_final(aborted: bool, buffered_samples: usize) -> (r: bool)
    ensures
        r == (!aborted && buffered_samples > 0),
{
    !aborted && buffered_samples > 0
}

/// A one-shot session for a whole recording of `len` samples: partial
/// results need all of it, and the window holds all of it (at least one).
pub fn final_session_config(len: usize) -> (r: AsrSessionConfig)
    ensures
        r.min_partial_samples == if len == 0 { 1 } else { len },
        r.max_partial_window_samples == if len == 0 { 1 } else { len },
{
    let n: usize = if len == 0 { 1 } else { len };
    AsrSessionConfig { min_partial_samples: n, max_partial_window_samples: n }
}

// ---------------------------------------------------------------------------
// SenseVoice
// ---------------------------------------------------------------------------

/// Settings of the offline SenseVoice engine.
#[derive(Debug, Clone)]
pub struct SherpaSenseVoiceConfig {
    pub model_path: String,
    pub tokens_path: String,
    pub language: Option<String>,
    pub use_itn: bool,
    pub provider: Option<String>,
    pub num_threads: i32,
    pub sample_rate: i32,
}

/// The first SenseVoice file that is missing, as an error message.
pub open spec fn sense_voice_missing_spec(
    cfg: SherpaSenseVoiceConfig,
    model_exists: bool,
    tokens_exists: bool,
) -> Option<Seq<char>> {
    if !model_exists {
        Some("未找到 SenseVoice 模型文件: "@ + cfg.model_path@)
    } else if !tokens_exists {
        Some("未找到 SenseVoice tokens 文件: "@ + cfg.tokens_path@)
    } else {
        None
    }
}

impl SherpaSenseVoiceConfig {
    /// Checks that the model and tokens files exist, given whether each of
    /// them does.
    pub fn validate(&self, model_exists: bool, tokens_exists: bool) -> (r: Result<(), String>)
        ensures
            r is Ok <==> sense_voice_missing_spec(*self, model_exists, tokens_exists) is None,
            r matches Err(e) ==> sense_voice_missing_spec(*self, model_exists, tokens_exists)
                == Some(e@),
    {
        if !model_exists {
            let mut e = String::from_str("未找到 SenseVoice 模型文件: ");
            e.append(self.model_path.as_str());
            return Err(e);
        }
        if !tokens_exists {
            let mut e = String::from_str("未找到 SenseVoice tokens 文件: ");
            e.append(self.tokens_path.as_str());
            return Err(e);
        }
        Ok(())
    }
}

/// The offline SenseVoice engine, by its configuration.
pub struct SherpaSenseVoiceEngine {
    cfg: SherpaSenseVoiceConfig,
}

/// The name of the SenseVoice model: its file name, or the whole path.
pub open spec fn sense_voice_model_name(cfg: SherpaSenseVoiceConfig) -> Seq<char> {
    match std_path_file_name(cfg.model_path@) {
        Some(n) => n,
        None => cfg.model_path@,
    }
}

impl SherpaSenseVoiceEngine {
    /// The configuration in use.
    pub closed spec fn config(&self) -> SherpaSenseVoiceConfig {
        self.cfg
    }

    /// An engine for `cfg`, once its files are known to exist.
    pub fn new(cfg: SherpaSenseVoiceConfig, model_exists: bool, tokens_exists: bool) -> (r: Result<
        Self,
        String,
    >)
        ensures
            r is Ok <==> sense_voice_missing_spec(cfg, model_exists, tokens_exists) is None,
            r matches Ok(e) ==> e.config() == cfg,
            r matches Err(e) ==> sense_voice_missing_spec(cfg, model_exists, tokens_exists) == Some(
                e@,
            ),
    {
        match cfg.validate(model_exists, tokens_exists) {
            Ok(()) => Ok(SherpaSenseVoiceEngine { cfg }),
            Err(e) => Err(e),
        }
    }

    /// The model's file name, or its whole path when it has none.
    pub fn model_display_name(&self) -> (r: String)
        ensures
            r@ == sense_voice_model_name(self.config()),
    {
        match path_file_name(self.cfg.model_path.as_str()) {
            Some(n) => n,
            None => copy_str(self.cfg.model_path.as_str()),
        }
    }
}

} // verus!
