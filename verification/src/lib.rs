//! Verified core of a terminal music player: library scanning rules, themes,
//! playback decisions and keyboard handling.

pub mod cli;
pub mod color;
pub mod config;
pub mod dispatch;
pub mod downloads;
pub mod error;
pub mod events;
pub mod fetcher;
pub mod laws;
pub mod library;
pub mod paths;
pub mod player;
pub mod pool;
pub mod scanner;
pub mod state;
pub mod status;
pub mod text;
pub mod theme;
pub mod view;
