//! Core logic of a wallpaper browser: folder scanning, a bounded
//! least-recently-used thumbnail cache, the cancellable load pipeline,
//! and the state machine that drives external wallpaper backends.

pub mod backend;
pub mod cache;
pub mod config;
pub mod monitors;
pub mod orchestrator;
pub mod pipeline;
pub mod scanner;
pub mod strutil;
