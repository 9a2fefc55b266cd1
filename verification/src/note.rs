//! A note and its rendering against the configured template.
use vstd::prelude::*;

use core::fmt::Write;

use crate::FormatedNote;
use crate::note_template::NoteTemplate;
use crate::text;

verus! {

/// A note is represented here.
#[derive(Debug, Clone, PartialEq)]
pub struct Note {
    /// Content of the note
    pub content: String,
    /// Tags of the note. Can be empty.
    pub tags: Vec<String>,
}

/// The tag text of a note: `#` before each tag and `;` between tags;
/// nothing when there are no tags.
pub open spec fn tags_text(tags: Seq<Seq<char>>) -> Seq<char> {
    if tags.len() == 0 {
        Seq::empty()
    } else {
        seq!['#'] + text::join_with(tags, ";#"@)
    }
}

/// A note's content and tags rendered against a template text with the
/// given date text: the date, note and tag placeholders replaced in
/// this order, the result trimmed, and a blank line, the `---`
/// separator line and a final line break appended.
pub open spec fn rendered_text(
    content: Seq<char>,
    tags: Seq<Seq<char>>,
    template_text: Seq<char>,
    date: Seq<char>,
) -> Seq<char> {
    let t1 = text::replace_all(template_text, "%date_format%"@, date);
    let t2 = text::replace_all(t1, "%note%"@, content);
    let t3 = if text::has_sub(t2, "%tags%"@) {
        text::replace_all(t2, "%tags%"@, tags_text(tags))
    } else {
        t2
    };
    text::trim(t3) + "\n\n---\n"@
}

/// A note rendered against a template with the given date text.
pub open spec fn rendered(note: Note, template: NoteTemplate, date: Seq<char>) -> Seq<char> {
    rendered_text(note.content@, note.tags.deep_view(), template.template@, date)
}

/// Relies on `chrono::Local::now` and its `format`: the current time
/// rendered by the `strftime`-style format, an outcome of the clock;
/// `None` when the format string is invalid.
#[verifier::external_body]
fn format_now(date_format: &str) -> (r: Option<String>) {
    let mut s = String::new();
    match write!(s, "{}", chrono::Local::now().format(date_format)) {
        Ok(()) => Some(s),
        Err(_) => None,
    }
}

impl Default for Note {
    /// The empty note: no content, no tags.
    fn default() -> (r: Self)
        ensures
            r.content@.len() == 0,
            r.tags@.len() == 0,
    {
        Note { content: String::new(), tags: Vec::new() }
    }
}

impl Note {
    /// A note with the given content and no tags.
    pub fn from_content(content: &str) -> (r: Note)
        ensures
            r.content@ == content@,
            r.tags@.len() == 0,
    {
        let cs: Vec<char> = text::str_chars(content);
        Note { content: text::chars_string(&cs), tags: Vec::new() }
    }

    /// A note from a list of words: the first is the content, the rest
    /// are the tags; no words give the empty note.
    pub fn from_args(args: Vec<String>) -> (r: Note)
        ensures
            args@.len() == 0 ==> r.content@.len() == 0 && r.tags@.len() == 0,
            args@.len() > 0 ==> r.content@ == args@[0]@ && r.tags.deep_view() == args.deep_view()
                .skip(1),
    {
        let mut rest = args;
        if rest.len() == 0 {
            proof {
                assert(rest.deep_view().len() == rest@.len());
            }
            Note::default()
        } else {
            let ghost pre = rest.deep_view();
            let content: String = rest.remove(0);
            proof {
                assert(rest.deep_view() =~= pre.skip(1)) by {
                    assert forall|i: int| 0 <= i < rest.deep_view().len() implies rest.deep_view()[i]
                        == pre.skip(1)[i] by {}
                }
            }
            Note { content, tags: rest }
        }
    }

    /// Renders the note against the template, with the given text in
    /// place of the `%date_format%` placeholder.
    pub fn format_with_date(self, format: &NoteTemplate, date_text: &str) -> (r: FormatedNote)
        ensures
            r.content@ == rendered(self, *format, date_text@),
    {
        proof {
            reveal_strlit("%date_format%");
            reveal_strlit("%note%");
            reveal_strlit("%tags%");
        }
        let template_chars: Vec<char> = text::str_chars(format.template.as_str());
        let date_chars: Vec<char> = text::str_chars(date_text);
        let pat_date: Vec<char> = text::str_chars("%date_format%");
        let t1: Vec<char> = text::replace_all_chars(&template_chars, &pat_date, &date_chars);
        let content_chars: Vec<char> = text::str_chars(self.content.as_str());
        let pat_note: Vec<char> = text::str_chars("%note%");
        let t2: Vec<char> = text::replace_all_chars(&t1, &pat_note, &content_chars);
        let pat_tags: Vec<char> = text::str_chars("%tags%");
        let t3: Vec<char> = if text::has_sub_chars(&t2, &pat_tags) {
            let tag_chars: Vec<char> = if self.tags.len() == 0 {
                proof {
                    assert(self.tags.deep_view().len() == self.tags@.len());
                }
                Vec::new()
            } else {
                let sep: Vec<char> = text::str_chars(";#");
                let joined: Vec<char> = text::join_with_str(&self.tags, &sep);
                let mut v: Vec<char> = Vec::new();
                v.push('#');
                text::push_chars(&mut v, &joined);
                proof {
                    assert(self.tags.deep_view().len() == self.tags@.len());
                    assert(v@ =~= seq!['#'] + joined@);
                }
                v
            };
            text::replace_all_chars(&t2, &pat_tags, &tag_chars)
        } else {
            t2
        };
        let trimmed: Vec<char> = text::trim_chars(&t3);
        let mut out: Vec<char> = trimmed;
        let sep: Vec<char> = text::str_chars("\n\n---\n");
        text::push_chars(&mut out, &sep);
        FormatedNote { content: text::chars_string(&out) }
    }

    /// formats the note based on the provided format and returns a
    /// formated note to be written into a file. The date text comes from
    /// the clock; an invalid date format leaves the date empty.
    pub fn format(self, format: &NoteTemplate) -> (r: FormatedNote)
        ensures
            exists|date: Seq<char>| r.content@ == rendered(self, *format, date),
    {
        let date: String = match format_now(format.date_format.as_str()) {
            Some(d) => d,
            None => String::new(),
        };
        let ghost date_view = date@;
        let ghost note_pre = self;
        let r = self.format_with_date(format, date.as_str());
        proof {
            assert(r.content@ == rendered(note_pre, *format, date_view));
        }
        r
    }
}

} // verus!
