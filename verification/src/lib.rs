//! Verified core of a local voice-dictation desktop app.
pub mod audio;
pub mod commands;
pub mod context;
pub mod db;
pub mod hotkey;
pub mod inject;
pub mod ipc;
pub mod pipeline;
pub mod settings;
pub mod settings_store;
pub mod text;
pub mod text_map;
