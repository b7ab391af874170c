//! Verified core of an OpenHarmony ability runtime and its capability plugins.
pub mod app;
pub mod child_process;
pub mod clipboard;
pub mod error;
pub mod file_uri;
pub mod hotkey;
pub mod input;
pub mod plugins;
pub mod text;
pub mod timer;
pub mod window_control;
pub mod worker_pool;
