//! Verified decision core of an NVIDIA driver post-install debloater.

pub mod text;
pub mod glob;
pub mod util;
pub mod types;
pub mod components;
pub mod app;
pub mod winpath;
pub mod tokens;
pub mod matching;
pub mod targets;
pub mod options;
pub mod tasksched;
pub mod fsutil;
pub mod winfmt;
pub mod logging;
pub mod sysinfo;
pub mod deletion;
pub mod report;
pub mod actions;
pub mod json;
pub mod launch;
pub mod menu;
pub mod discovery;
pub mod laws;
pub mod handoff;
pub mod status_file;
pub mod inspection;
pub mod ownership;
pub mod switches;
