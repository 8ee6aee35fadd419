//! Device-bound entitlement engine with the text utilities that sit beside it.

pub mod clipboard;
pub mod code;
pub mod crypto;
pub mod encoding;
pub mod formatters;
pub mod generators;
pub mod github;
pub mod history;
pub mod hotkey;
pub mod json;
pub mod license;
pub mod links;
pub mod lorem;
pub mod native_clipboard;
pub mod premium;
pub mod storage;
pub mod strings;
pub mod text;
pub mod time;
pub mod timetools;
pub mod unicode;
pub mod updater;
pub mod window;
