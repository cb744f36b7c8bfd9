//! Verified core of a desktop file-search launcher: the rules that decide
//! which files are indexed and how, how search candidates are scored,
//! ordered and cached, and the state machines behind the search window.

pub mod text;
pub mod config;
pub mod indexer;
pub mod numeric;
pub mod hotkey;
pub mod icons;
pub mod search;
pub mod tray;
pub mod ui;
