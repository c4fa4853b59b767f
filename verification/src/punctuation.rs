//! Offline punctuation restoration: whether it is set up, and which text
//! comes out.
//!
//! The punctuation model itself (sherpa-onnx's `OfflinePunctuation`) is
//! loaded and run by the program around this library.

use vstd::prelude::*;
use crate::config::PunctuationConfig;
use crate::text::{copy_str, to_chars, trim, trim_str};

verus! {

/// A punctuation restorer whose model is to be loaded from `model_path`.
pub struct PunctuationRestorer {
    model_path: String,
}

impl PunctuationRestorer {
    /// The model file.
    pub closed spec fn model(&self) -> Seq<char> {
        self.model_path@
    }

    /// A restorer for `config`, given whether its model file exists: none
    /// when it is disabled, none when the model file is missing, else one
    /// for that model.
    pub fn new(config: &PunctuationConfig, model_exists: bool) -> (r: Result<Option<Self>, String>)
        ensures
            r is Ok,
            !(config.enabled && model_exists) ==> r matches Ok(None),
            (config.enabled && model_exists) ==> (r matches Ok(Some(p)) && p.model()
                == config.model_path@),
    {
        if !config.enabled {
            return Ok(None);
        }
        if !model_exists {
            return Ok(None);
        }
        Ok(Some(PunctuationRestorer { model_path: copy_str(config.model_path.as_str()) }))
    }

    /// The model file to load.
    pub fn model_path(&self) -> (r: &str)
        ensures
            r@ == self.model(),
    {
        self.model_path.as_str()
    }

    /// Whether `text` is sent to the model: blank text is returned as it
    /// is.
    pub fn needs_punctuation(&self, text: &str) -> (r: bool)
        ensures
            r == (trim(text@).len() > 0),
    {
        let t = trim_str(text);
        to_chars(t.as_str()).len() > 0
    }

    /// The text with punctuation: what the model returned, or the original
    /// text when it was not asked (blank text) or returned nothing.
    pub fn add_punctuation(&self, text: &str, model_output: Option<String>) -> (r: String)
        ensures
            trim(text@).len() == 0 ==> r@ == text@,
            trim(text@).len() > 0 ==> r@ == match model_output {
                Some(o) => o@,
                None => text@,
            },
    {
        if !self.needs_punctuation(text) {
            return copy_str(text);
        }
        match model_output {
            Some(o) => o,
            None => copy_str(text),
        }
    }
}

} // verus!
