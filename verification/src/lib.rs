//! Chat-session orchestration and scheduling engine of a terminal file
//! manager's messaging front-end, with the small text and formatting
//! utilities the file manager shares with it.

pub mod agent;
pub mod chunk;
pub mod claude;
pub mod clock;
pub mod commands;
pub mod config;
pub mod dedup_screen;
pub mod cron;
pub mod dialogs;
pub mod digest;
pub mod file_ops;
pub mod format;
pub mod json;
pub mod markup;
pub mod notices;
pub mod paths;
pub mod persist;
pub mod prompt;
pub mod render;
pub mod results;
pub mod router;
pub mod schedule;
pub mod session;
pub mod settings;
pub mod shell;
pub mod state;
pub mod stream;
pub mod text;
pub mod theme;
pub mod tools;
