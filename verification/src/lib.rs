//! Verified core of a snippet capture and retrieval tool: how snippets are
//! laid out on disk and listed, how they are searched, and how hotkeys and
//! user actions drive the single active window.

pub mod app;
pub mod hotkeys;
pub mod storage;
pub mod text;
pub mod ui;
