//! Verified core of LingYu, a push-to-talk speech-to-text tool.

pub mod config;
pub mod paths;
pub mod text;
pub mod transcript;
pub mod local_stt;
pub mod api;
pub mod settings;
pub mod hotkey;
pub mod session;
pub mod audio;
pub mod archive;
pub mod cli;
