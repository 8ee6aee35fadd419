//! The records of the clipboard history.

use vstd::prelude::*;

verus! {

/// One entry of the history.
#[derive(Debug, Clone)]
pub struct HistoryEntry {
    pub id: i64,
    pub content: String,
    pub created_at: String,
    pub character_count: i32,
    pub word_count: i32,
    pub line_count: i32,
    pub language: Option<String>,
    pub tags: Option<String>,
}

/// Totals over the whole history.
#[derive(Debug, Clone, Copy, PartialEq, Eq, Structural)]
pub struct HistoryStats {
    pub total_entries: i32,
    pub total_characters: i64,
    pub total_words: i64,
}

} // verus!
