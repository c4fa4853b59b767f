//! EchoPup core logic: recognition session bookkeeping, text correction,
//! menu state, hotkey rules and desktop integration decisions.

pub mod commit;
pub mod session;
pub mod text;
pub mod config;
pub mod paths;
pub mod postprocess;
pub mod trigger;
pub mod hotkey;
pub mod keyboard;
pub mod linux_desktop;
pub mod menu_core;
pub mod model_download;
pub mod voice;
pub mod status_indicator;
pub mod runtime;
pub mod audio;
pub mod asr;
pub mod service;
pub mod tui;
pub mod punctuation;
pub mod llm;
pub mod feedback;
