//! File rolling: how often a new note file is started.
use vstd::prelude::*;

use crate::error::NoteError;
use crate::error::NoteErrorKind;
use crate::text;

verus! {

/// File rolling to determinate the note file rolling cycle.
#[derive(Debug, Clone, Copy, PartialEq, Eq, Structural)]
pub enum FileRolling {
    /// new file every day
    Daily,
    /// new file every week
    Week,
    /// new file every month
    Month,
    /// new file every year
    Year,
    /// never create a new file
    Never,
}

/// The rolling cycle named by an already lower-cased word, if any.
pub open spec fn rolling_of_lower(s: Seq<char>) -> Option<FileRolling> {
    if s == "daily"@ {
        Some(FileRolling::Daily)
    } else if s == "week"@ {
        Some(FileRolling::Week)
    } else if s == "month"@ {
        Some(FileRolling::Month)
    } else if s == "year"@ {
        Some(FileRolling::Year)
    } else if s == "never"@ {
        Some(FileRolling::Never)
    } else {
        None
    }
}

/// The display name of a rolling cycle.
pub open spec fn rolling_name(r: FileRolling) -> Seq<char> {
    match r {
        FileRolling::Daily => "Daily"@,
        FileRolling::Week => "Week"@,
        FileRolling::Month => "Month"@,
        FileRolling::Year => "Year"@,
        FileRolling::Never => "Never"@,
    }
}

/// The case folding done by `str::to_lowercase`, a function of the
/// characters alone.
pub uninterp spec fn lower_of(s: Seq<char>) -> Seq<char>;

/// Relies on `str::to_lowercase`: the Unicode lower case of the string,
/// depending on its characters alone.
#[verifier::external_body]
fn to_lower(s: &str) -> (r: String)
    ensures
        r@ == lower_of(s@),
{
    s.to_lowercase()
}

impl FileRolling {
    /// The rolling cycle named by an already lower-cased word.
    pub fn parse_lower(s: &str) -> (r: Option<FileRolling>)
        ensures
            r == rolling_of_lower(s@),
    {
        let cs: Vec<char> = text::str_chars(s);
        if text::chars_eq(&cs, &text::str_chars("daily")) {
            Some(FileRolling::Daily)
        } else if text::chars_eq(&cs, &text::str_chars("week")) {
            Some(FileRolling::Week)
        } else if text::chars_eq(&cs, &text::str_chars("month")) {
            Some(FileRolling::Month)
        } else if text::chars_eq(&cs, &text::str_chars("year")) {
            Some(FileRolling::Year)
        } else if text::chars_eq(&cs, &text::str_chars("never")) {
            Some(FileRolling::Never)
        } else {
            None
        }
    }

    /// Parses a rolling cycle from its name, in any letter case.
    /// An unknown name is an invalid-input error that names the input.
    pub fn from_str(input: &str) -> (r: Result<FileRolling, NoteError>)
        ensures
            match r {
                Ok(v) => rolling_of_lower(lower_of(input@)) == Some(v),
                Err(e) => {
                    &&& rolling_of_lower(lower_of(input@)) is None
                    &&& e.kind == NoteErrorKind::InvalidInput
                    &&& e.message@ == "unable to parse file rolling from '"@ + input@ + "'"@
                },
            },
    {
        let low: String = to_lower(input);
        match FileRolling::parse_lower(low.as_str()) {
            Some(v) => Ok(v),
            None => {
                let mut msg: Vec<char> = text::str_chars("unable to parse file rolling from '");
                let inp: Vec<char> = text::str_chars(input);
                text::push_chars(&mut msg, &inp);
                let quote: Vec<char> = text::str_chars("'");
                text::push_chars(&mut msg, &quote);
                Err(
                    NoteError {
                        kind: NoteErrorKind::InvalidInput,
                        message: text::chars_string(&msg),
                    },
                )
            },
        }
    }

    /// The display name of this rolling cycle.
    pub fn name(&self) -> (r: String)
        ensures
            r@ == rolling_name(*self),
    {
        match self {
            FileRolling::Daily => {
                let v: Vec<char> = text::str_chars("Daily");
                text::chars_string(&v)
            },
            FileRolling::Week => {
                let v: Vec<char> = text::str_chars("Week");
                text::chars_string(&v)
            },
            FileRolling::Month => {
                let v: Vec<char> = text::str_chars("Month");
                text::chars_string(&v)
            },
            FileRolling::Year => {
                let v: Vec<char> = text::str_chars("Year");
                text::chars_string(&v)
            },
            FileRolling::Never => {
                let v: Vec<char> = text::str_chars("Never");
                text::chars_string(&v)
            },
        }
    }
}

} // verus!
