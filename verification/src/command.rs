//! The commands the tool executes, and what carrying one out asks of
//! the surroundings. The decision — which file, which text, which
//! search — is made here; the file I/O and the editor live in the
//! binary around the library, which performs the returned effect.
use vstd::prelude::*;

use crate::SearchArguments;
use crate::configuration::Configuration;
use crate::error::NoteError;
use crate::error::NoteErrorKind;
use crate::note::Note;
use crate::note::rendered_text;
use crate::note_file::NoteDate;
use crate::note_file::NoteFile;
use crate::note_file::custom_file_name;
use crate::note_file::glob_pattern_ok;
use crate::note_file::opt_view;
use crate::note_file::target_path;
use crate::text;

verus! {

/// represents the command to be executed
#[derive(Debug, PartialEq)]
pub enum Command {
    Default,
    Note { open_after_write: bool, note: String, tags: Vec<String> },
    Create { filename: String },
    Open { filename: Option<String> },
    Search { tag: bool, pattern: String, file_pattern: Option<String>, output_to_file: bool },
    Config,
}

/// What carrying a command out asks of the surroundings.
#[derive(Debug)]
pub enum Effect {
    /// Append `content` to the file at `path`, creating it first when
    /// missing; hand the path on when `open_after_write` asks for it.
    Append { path: String, content: String, open_after_write: bool },
    /// Open the file at `path` in the default application.
    OpenFile { path: String },
    /// Run the search these arguments describe over the note files.
    RunSearch { arguments: SearchArguments, output_to_file: bool },
    /// Nothing can be done: the error to report.
    Fail { error: NoteError },
}

impl Command {
    /// Decides what carrying this command out asks of the surroundings:
    /// the note rendered and its target file resolved, the custom file
    /// named, the file to open looked up, the search arguments built,
    /// or the configuration file named.
    pub fn invoke(&self, configuration: &Configuration) -> (r: Effect)
        ensures
            (self matches Command::Note { open_after_write, note, tags } ==> (r matches
                Effect::Append { path, content, open_after_write: o } && o == open_after_write && (
            exists|d: NoteDate, repo: Option<Seq<char>>|
                d.wf() && path@ == target_path(*configuration, repo, d)) && (exists|
                date: Seq<char>,
            |
                content@ == rendered_text(
                    note@,
                    tags.deep_view(),
                    configuration.note_template.template@,
                    date,
                )))),
            (self matches Command::Create { filename } ==> (r matches Effect::Append {
                path,
                content,
                open_after_write: o,
            } && o == true && (filename@.len() > 0 ==> path@ == text::path_join(
                configuration.note_directory@,
                custom_file_name(filename@),
            )) && (filename@.len() == 0 ==> exists|d: NoteDate, repo: Option<Seq<char>>|
                d.wf() && path@ == target_path(*configuration, repo, d)) && (exists|
                date: Seq<char>,
            |
                content@ == rendered_text(
                    Seq::empty(),
                    Seq::empty(),
                    configuration.note_template.template@,
                    date,
                )))),
            (self matches Command::Open { filename: Some(pattern) } && pattern@.len() == 0 ==> (r
                matches Effect::Fail { error } && error.kind == NoteErrorKind::Other)),
            (self matches Command::Open { filename: Some(pattern) } && pattern@.len() > 0
                && !glob_pattern_ok(
                text::path_join(configuration.note_directory@, pattern@),
            ) ==> (r matches Effect::Fail { error } && error.kind == NoteErrorKind::Other)),
            (self matches Command::Open { filename: Some(pattern) } && pattern@.len() > 0
                && glob_pattern_ok(text::path_join(configuration.note_directory@, pattern@)) ==> (r
                is OpenFile || (r matches Effect::Fail { error } && error.kind
                == NoteErrorKind::NotFound))),
            (self matches Command::Open { filename: None } ==> (r matches Effect::OpenFile { path }
                && exists|d: NoteDate, repo: Option<Seq<char>>|
                d.wf() && path@ == target_path(*configuration, repo, d))),
            (self matches Command::Search { tag, pattern, file_pattern, output_to_file } ==> (r
                matches Effect::RunSearch { arguments, output_to_file: o } && o == output_to_file
                && arguments.regex@ == pattern@ && arguments.tags_only == tag && opt_view(
                arguments.file_regex,
            ) == opt_view(*file_pattern))),
            (*self is Config ==> ((r matches Effect::OpenFile { path } && text::ends_with(
                path@,
                "noted.config"@,
            )) || (r matches Effect::Fail { error } && error.kind == NoteErrorKind::NotFound))),
            (*self is Default ==> (r matches Effect::Fail { error } && error.kind
                == NoteErrorKind::InvalidInput)),
    {
        match self {
            Command::Default => {
                let msg: Vec<char> = text::str_chars("no command given");
                Effect::Fail {
                    error: NoteError {
                        kind: NoteErrorKind::InvalidInput,
                        message: text::chars_string(&msg),
                    },
                }
            },
            Command::Note { open_after_write, note, tags } => {
                let n = Note { content: text::clone_string(note), tags: text::clone_strings(tags) };
                let ghost n_ghost = n;
                let formatted = n.format(&configuration.note_template);
                let path = NoteFile::target(configuration);
                proof {
                    let date = choose|date: Seq<char>|
                        formatted.content@ == crate::note::rendered(
                            n_ghost,
                            configuration.note_template,
                            date,
                        );
                    assert(formatted.content@ == rendered_text(
                        note@,
                        tags.deep_view(),
                        configuration.note_template.template@,
                        date,
                    ));
                }
                Effect::Append {
                    path,
                    content: formatted.content,
                    open_after_write: *open_after_write,
                }
            },
            Command::Create { filename } => {
                let empty_note = Note::default();
                let ghost n_ghost = empty_note;
                let formatted = empty_note.format(&configuration.note_template);
                let path = NoteFile::custom_target(filename.as_str(), configuration);
                proof {
                    let date = choose|date: Seq<char>|
                        formatted.content@ == crate::note::rendered(
                            n_ghost,
                            configuration.note_template,
                            date,
                        );
                    assert(n_ghost.content@ =~= Seq::<char>::empty());
                    assert(n_ghost.tags.deep_view() =~= Seq::<Seq<char>>::empty());
                    assert(formatted.content@ == rendered_text(
                        Seq::empty(),
                        Seq::empty(),
                        configuration.note_template.template@,
                        date,
                    ));
                }
                Effect::Append { path, content: formatted.content, open_after_write: true }
            },
            Command::Open { filename } => match filename {
                Some(pattern) => match NoteFile::first_target_by_pattern(
                    pattern.as_str(),
                    configuration.note_directory.as_str(),
                ) {
                    Ok(file) => Effect::OpenFile { path: file },
                    Err(err) => Effect::Fail { error: err },
                },
                None => Effect::OpenFile { path: NoteFile::target(configuration) },
            },
            Command::Search { tag, pattern, file_pattern, output_to_file } => {
                let file_regex: Option<String> = match file_pattern {
                    Some(f) => Some(text::clone_string(f)),
                    None => None,
                };
                Effect::RunSearch {
                    arguments: SearchArguments {
                        regex: text::clone_string(pattern),
                        tags_only: *tag,
                        file_regex,
                    },
                    output_to_file: *output_to_file,
                }
            },
            Command::Config => match Configuration::file_path() {
                Some(path) => Effect::OpenFile { path },
                None => {
                    let msg: Vec<char> = text::str_chars("no configuration directory");
                    Effect::Fail {
                        error: NoteError {
                            kind: NoteErrorKind::NotFound,
                            message: text::chars_string(&msg),
                        },
                    }
                },
            },
        }
    }
}

} // verus!
