//! A small note-taking library: it decides which markdown file a note
//! belongs to, renders notes against a template, finds note files by
//! glob patterns in a deterministic order, scans note files for regular
//! expression matches and lays the matches out as a fixed-width table.
use vstd::prelude::*;

pub mod cli;
pub mod command;
pub mod configuration;
pub mod error;
pub mod file_rolling;
pub mod markdown;
pub mod note;
pub mod note_file;
pub mod note_template;
pub mod search_result;
pub mod text;

verus! {

/// The rendered text of a note, ready to be appended to a note file.
pub struct FormatedNote {
    pub content: String,
}

/// Arguments of a search over the note files.
#[derive(Debug, PartialEq)]
pub struct SearchArguments {
    /// The pattern looked for in the note files.
    pub regex: String,
    /// When set, only `#tag` occurrences are looked for.
    pub tags_only: bool,
    /// An optional glob pattern restricting which note files are searched.
    pub file_regex: Option<String>,
}

impl Default for SearchArguments {
    /// An empty search: no pattern, no file filter, not restricted to tags.
    fn default() -> (r: Self)
        ensures
            r.regex@.len() == 0,
            !r.tags_only,
            r.file_regex is None,
    {
        SearchArguments { regex: String::new(), tags_only: false, file_regex: None }
    }
}

} // verus!
