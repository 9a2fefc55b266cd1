//! The note markdown template: the text a note is rendered into, and the
//! date format used inside it.
use vstd::prelude::*;

use crate::configuration::Configuration;
use crate::text;

verus! {

/// The text of the default note template.
pub open spec fn default_template_text() -> Seq<char> {
    "%date_format%\n\n%note%\n\n%tags%"@
}

/// The default date format, a `strftime`-style string.
pub open spec fn default_date_format() -> Seq<char> {
    "%F %T"@
}

/// The Note markdown template is represented here.
#[derive(Debug, Clone)]
pub struct NoteTemplate {
    /// The note template text, with the placeholders `%date_format%`,
    /// `%note%` and `%tags%`.
    pub template: String,
    /// The date format, a `strftime`-style string.
    pub date_format: String,
}

impl NoteTemplate {
    /// The default path of the template file: inside the configuration
    /// folder, if the platform names one.
    pub fn initial_file_path() -> (r: Option<String>)
        ensures
            r is Some ==> text::ends_with(r->0@, "noted.template"@),
    {
        match Configuration::folder() {
            Some(f) => {
                let base: Vec<char> = text::str_chars(f.as_str());
                let name: Vec<char> = text::str_chars("noted.template");
                let joined: Vec<char> = text::path_join_chars(&base, &name);
                let r = text::chars_string(&joined);
                proof {
                    let d = choose|d: Seq<char>| f@ == text::path_join(d, "noted"@);
                    reveal_strlit("noted");
                    reveal_strlit("noted.template");
                    assert(f@.len() > 0 && f@.last() == 'd');
                    assert(r@ == (f@ + seq!['/']) + "noted.template"@);
                    text::lemma_ends_with_concat(f@ + seq!['/'], "noted.template"@);
                }
                Some(r)
            },
            None => None,
        }
    }
}

impl Default for NoteTemplate {
    /// The default template: date, note and tags, one blank line apart.
    fn default() -> (r: Self)
        ensures
            r.template@ == default_template_text(),
            r.date_format@ == default_date_format(),
    {
        let template_chars: Vec<char> = text::str_chars("%date_format%\n\n%note%\n\n%tags%");
        let date_chars: Vec<char> = text::str_chars("%F %T");
        NoteTemplate {
            template: text::chars_string(&template_chars),
            date_format: text::chars_string(&date_chars),
        }
    }
}

} // verus!
