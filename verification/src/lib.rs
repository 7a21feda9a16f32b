//! Verified core of a local speech-to-text desktop app: the error type and
//! its messages, the model catalog, PCM validation and decoding, hotkey and
//! model-switching state, download progress, and the clipboard paste plan.

pub mod text;
pub mod error;
pub mod model;
pub mod audio;
pub mod settings;
pub mod hotkey;
pub mod state;
pub mod download;
pub mod paste;
