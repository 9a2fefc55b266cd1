//! The errors the library reports: a kind, mirroring the I/O error kinds
//! the original tool surfaces, and a human-readable message.
use vstd::prelude::*;

verus! {

/// The kind of a library error.
#[derive(Clone, Copy, Debug, PartialEq, Eq, Structural)]
pub enum NoteErrorKind {
    /// An input was rejected before any file was touched.
    InvalidInput,
    /// A valid pattern matched no file.
    NotFound,
    /// A malformed pattern, or any other failure.
    Other,
}

/// An error of the library.
#[derive(Debug)]
pub struct NoteError {
    pub kind: NoteErrorKind,
    pub message: String,
}

impl NoteError {
    /// The kind of this error.
    pub fn kind(&self) -> (k: NoteErrorKind)
        ensures
            k == self.kind,
    {
        self.kind
    }

    /// The message of this error.
    pub fn message(&self) -> (m: &String)
        ensures
            m@ == self.message@,
    {
        &self.message
    }
}

} // verus!
