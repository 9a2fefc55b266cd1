//! The tool's configuration: where notes live, how files roll, and which
//! template renders a note. Reading and writing the configuration file is
//! plain I/O and stays outside the library; the library holds the value
//! and the paths derived from the platform's standard directories.
use vstd::prelude::*;

use crate::file_rolling::FileRolling;
use crate::note_template::NoteTemplate;
use crate::text;

verus! {

/// A configuration is represented here.
#[derive(Debug, Clone)]
pub struct Configuration {
    /// Default notes directory. Affected by use_repository_specific.
    pub note_directory: String,
    /// Use also git specific notes.
    pub use_repository_specific: bool,
    /// File Rolling
    pub file_rolling: FileRolling,
    /// Path to the note template
    pub template_file: String,
    /// The note template
    pub note_template: NoteTemplate,
}

/// Relies on `dirs::config_dir`: the platform's configuration directory,
/// if the platform names one; an outcome of the process environment.
#[verifier::external_body]
fn config_dir() -> (r: Option<String>) {
    dirs::config_dir().and_then(|p| p.into_os_string().into_string().ok())
}

/// Relies on `dirs::document_dir`: the user's documents directory, if the
/// platform names one; an outcome of the process environment.
#[verifier::external_body]
fn document_dir() -> (r: Option<String>) {
    dirs::document_dir().and_then(|p| p.into_os_string().into_string().ok())
}

/// Relies on `dirs::home_dir`: the user's home directory, if the platform
/// names one; an outcome of the process environment.
#[verifier::external_body]
fn home_dir() -> (r: Option<String>) {
    dirs::home_dir().and_then(|p| p.into_os_string().into_string().ok())
}

impl Configuration {
    /// The note directory the defaults choose: the documents directory
    /// when the platform names one, else the home directory, else the
    /// current directory, addressed as `.`.
    pub fn initial_directory_from(document: Option<String>, home: Option<String>) -> (r: String)
        ensures
            document matches Some(d) ==> r@ == d@,
            document is None ==> (home matches Some(h) ==> r@ == h@),
            document is None && home is None ==> r@ == "."@,
    {
        match document {
            Some(d) => d,
            None => match home {
                Some(h) => h,
                None => {
                    let dot: Vec<char> = text::str_chars(".");
                    text::chars_string(&dot)
                },
            },
        }
    }

    /// returns the default note directory which is one of the following:
    /// 1. documents folder
    /// 2. user home folder
    /// 3. the current folder, addressed as `.`
    pub fn intial_note_directory() -> (r: String) {
        Configuration::initial_directory_from(document_dir(), home_dir())
    }

    /// configuration folder path: the platform's configuration directory
    /// with the tool's own folder joined under it.
    pub fn folder() -> (r: Option<String>)
        ensures
            r is Some ==> exists|d: Seq<char>| r->0@ == text::path_join(d, "noted"@),
    {
        match config_dir() {
            Some(d) => {
                let base: Vec<char> = text::str_chars(d.as_str());
                let name: Vec<char> = text::str_chars("noted");
                let joined: Vec<char> = text::path_join_chars(&base, &name);
                let r = text::chars_string(&joined);
                proof {
                    assert(r@ == text::path_join(d@, "noted"@));
                }
                Some(r)
            },
            None => None,
        }
    }

    /// configuration file path: the configuration file inside `folder`,
    /// if the platform names a configuration directory.
    pub fn file_path() -> (r: Option<String>)
        ensures
            r is Some ==> exists|d: Seq<char>|
                r->0@ == text::path_join(text::path_join(d, "noted"@), "noted.config"@),
            r is Some ==> text::ends_with(r->0@, "noted.config"@),
    {
        match Configuration::folder() {
            Some(f) => {
                let base: Vec<char> = text::str_chars(f.as_str());
                let name: Vec<char> = text::str_chars("noted.config");
                let joined: Vec<char> = text::path_join_chars(&base, &name);
                let r = text::chars_string(&joined);
                proof {
                    let d = choose|d: Seq<char>| f@ == text::path_join(d, "noted"@);
                    assert(r@ == text::path_join(text::path_join(d, "noted"@), "noted.config"@));
                    reveal_strlit("noted");
                    reveal_strlit("noted.config");
                    assert(f@.len() > 0 && f@.last() == 'd');
                    assert(r@ == (f@ + seq!['/']) + "noted.config"@);
                    text::lemma_ends_with_concat(f@ + seq!['/'], "noted.config"@);
                }
                Some(r)
            },
            None => None,
        }
    }
}

/// A truth value as its configuration file text.
pub open spec fn bool_text(b: bool) -> Seq<char> {
    if b {
        "true"@
    } else {
        "false"@
    }
}

/// The configuration rendered as the key=value lines of its file, one
/// line per field, each ended by a line break.
pub open spec fn config_text(c: Configuration) -> Seq<char> {
    "NOTE_DIRECTORY="@ + c.note_directory@ + "\n"@ + "USE_REPOSITORY_SPECIFIC="@ + bool_text(
        c.use_repository_specific,
    ) + "\n"@ + "FILE_ROLLING="@ + crate::file_rolling::rolling_name(c.file_rolling) + "\n"@
        + "DATE_FORMAT="@ + c.note_template.date_format@ + "\n"@ + "NOTE_TEMPLATE_FILE="@
        + c.template_file@ + "\n"@
}

/// The five configured values, as one line of the configuration file
/// changes them: the text before the first `=` names the field, the
/// text between the first and a second `=` is the value, quotes
/// removed; a line without `=`, an unknown key, an unreadable truth
/// value or an unknown rolling name change nothing.
pub open spec fn config_fields_applied(
    acc: (Seq<char>, bool, FileRolling, Seq<char>, Seq<char>),
    line: Seq<char>,
) -> (Seq<char>, bool, FileRolling, Seq<char>, Seq<char>) {
    if text::find_char(line, '=') == line.len() {
        acc
    } else {
        let p = text::find_char(line, '=');
        let key = line.take(p);
        let rest = line.skip(p + 1);
        let raw = rest.take(text::find_char(rest, '='));
        let value = text::replace_all(raw, "\""@, Seq::empty());
        if text::starts_with(key, "NOTE_DIRECTORY"@) {
            (value, acc.1, acc.2, acc.3, acc.4)
        } else if text::starts_with(key, "USE_REPOSITORY_SPECIFIC"@) {
            if value == "true"@ {
                (acc.0, true, acc.2, acc.3, acc.4)
            } else if value == "false"@ {
                (acc.0, false, acc.2, acc.3, acc.4)
            } else {
                acc
            }
        } else if text::starts_with(key, "FILE_ROLLING"@) {
            match crate::file_rolling::rolling_of_lower(crate::file_rolling::lower_of(value)) {
                Some(r) => (acc.0, acc.1, r, acc.3, acc.4),
                None => acc,
            }
        } else if text::starts_with(key, "DATE_FORMAT"@) {
            (acc.0, acc.1, acc.2, value, acc.4)
        } else if text::starts_with(key, "NOTE_TEMPLATE_FILE"@) {
            (acc.0, acc.1, acc.2, acc.3, value)
        } else {
            acc
        }
    }
}

/// The five configured values after all lines, later lines overwriting
/// earlier ones, starting from `acc`.
pub open spec fn config_fields_from(
    acc: (Seq<char>, bool, FileRolling, Seq<char>, Seq<char>),
    lines: Seq<Seq<char>>,
) -> (Seq<char>, bool, FileRolling, Seq<char>, Seq<char>)
    decreases lines.len(),
{
    if lines.len() == 0 {
        acc
    } else {
        config_fields_from(config_fields_applied(acc, lines[0]), lines.skip(1))
    }
}

/// What the fields are before any line is read: everything empty,
/// not repository specific, daily rolling.
pub open spec fn initial_config_fields() -> (Seq<char>, bool, FileRolling, Seq<char>, Seq<char>) {
    (Seq::empty(), false, FileRolling::Daily, Seq::empty(), Seq::empty())
}

impl Configuration {
    /// The configuration rendered as the key=value lines of its file.
    pub fn to_text(&self) -> (r: String)
        ensures
            r@ == config_text(*self),
    {
        let mut v: Vec<char> = text::str_chars("NOTE_DIRECTORY=");
        let nd: Vec<char> = text::str_chars(self.note_directory.as_str());
        text::push_chars(&mut v, &nd);
        let nl: Vec<char> = text::str_chars("\n");
        text::push_chars(&mut v, &nl);
        let k2: Vec<char> = text::str_chars("USE_REPOSITORY_SPECIFIC=");
        text::push_chars(&mut v, &k2);
        let b: Vec<char> = if self.use_repository_specific {
            text::str_chars("true")
        } else {
            text::str_chars("false")
        };
        text::push_chars(&mut v, &b);
        text::push_chars(&mut v, &nl);
        let k3: Vec<char> = text::str_chars("FILE_ROLLING=");
        text::push_chars(&mut v, &k3);
        let rolling: String = self.file_rolling.name();
        let rc: Vec<char> = text::str_chars(rolling.as_str());
        text::push_chars(&mut v, &rc);
        text::push_chars(&mut v, &nl);
        let k4: Vec<char> = text::str_chars("DATE_FORMAT=");
        text::push_chars(&mut v, &k4);
        let df: Vec<char> = text::str_chars(self.note_template.date_format.as_str());
        text::push_chars(&mut v, &df);
        text::push_chars(&mut v, &nl);
        let k5: Vec<char> = text::str_chars("NOTE_TEMPLATE_FILE=");
        text::push_chars(&mut v, &k5);
        let tf: Vec<char> = text::str_chars(self.template_file.as_str());
        text::push_chars(&mut v, &tf);
        text::push_chars(&mut v, &nl);
        proof {
            assert(v@ =~= config_text(*self));
        }
        text::chars_string(&v)
    }

    /// A configuration parsed from the key=value lines of its file;
    /// later lines overwrite earlier ones, lines that set nothing are
    /// passed over, and the template text keeps its default.
    pub fn from_lines(lines: &Vec<String>) -> (r: Configuration)
        ensures
            ({
                let f = config_fields_from(initial_config_fields(), lines.deep_view());
                &&& r.note_directory@ == f.0
                &&& r.use_repository_specific == f.1
                &&& r.file_rolling == f.2
                &&& r.note_template.date_format@ == f.3
                &&& r.template_file@ == f.4
                &&& r.note_template.template@ == crate::note_template::default_template_text()
            }),
    {
        let ghost dv = lines.deep_view();
        let mut nd: Vec<char> = Vec::new();
        let mut urs: bool = false;
        let mut fr: FileRolling = FileRolling::Daily;
        let mut df: Vec<char> = Vec::new();
        let mut tf: Vec<char> = Vec::new();
        let n: usize = lines.len();
        let mut k: usize = 0;
        proof {
            assert(dv.skip(0) =~= dv);
            assert((nd@, urs, fr, df@, tf@) == initial_config_fields());
        }
        while k < n
            invariant
                k <= n,
                n == lines@.len(),
                dv == lines.deep_view(),
                dv.len() == lines@.len(),
                config_fields_from(initial_config_fields(), dv) == config_fields_from(
                    (nd@, urs, fr, df@, tf@),
                    dv.skip(k as int),
                ),
            decreases n - k,
        {
            proof {
                assert(dv.skip(k as int)[0] == dv[k as int]);
                assert(dv.skip(k as int).skip(1) =~= dv.skip(k as int + 1));
            }
            let ghost acc_pre = (nd@, urs, fr, df@, tf@);
            let cs: Vec<char> = text::str_chars(lines[k].as_str());
            let p: usize = text::find_char_chars(&cs, '=');
            if p < cs.len() {
                let key: Vec<char> = text::head_chars(&cs, p);
                let rest: Vec<char> = text::tail_chars(&cs, p + 1);
                let q: usize = text::find_char_chars(&rest, '=');
                let raw: Vec<char> = text::head_chars(&rest, q);
                let quote: Vec<char> = text::str_chars("\"");
                proof {
                    reveal_strlit("\"");
                }
                let empty: Vec<char> = Vec::new();
                let value: Vec<char> = text::replace_all_chars(&raw, &quote, &empty);
                if text::starts_with_chars(&key, &text::str_chars("NOTE_DIRECTORY")) {
                    nd = value;
                } else if text::starts_with_chars(
                    &key,
                    &text::str_chars("USE_REPOSITORY_SPECIFIC"),
                ) {
                    if text::chars_eq(&value, &text::str_chars("true")) {
                        urs = true;
                    } else if text::chars_eq(&value, &text::str_chars("false")) {
                        urs = false;
                    }
                } else if text::starts_with_chars(&key, &text::str_chars("FILE_ROLLING")) {
                    match FileRolling::from_str(text::chars_string(&value).as_str()) {
                        Ok(v) => {
                            fr = v;
                        },
                        Err(_) => {},
                    }
                } else if text::starts_with_chars(&key, &text::str_chars("DATE_FORMAT")) {
                    df = value;
                } else if text::starts_with_chars(&key, &text::str_chars("NOTE_TEMPLATE_FILE")) {
                    tf = value;
                }
            }
            proof {
                assert((nd@, urs, fr, df@, tf@) == config_fields_applied(
                    acc_pre,
                    dv[k as int],
                ));
            }
            k += 1;
        }
        proof {
            assert(config_fields_from((nd@, urs, fr, df@, tf@), dv.skip(n as int))
                == (nd@, urs, fr, df@, tf@));
        }
        let template = NoteTemplate {
            template: NoteTemplate::default().template,
            date_format: text::chars_string(&df),
        };
        Configuration {
            note_directory: text::chars_string(&nd),
            use_repository_specific: urs,
            file_rolling: fr,
            template_file: text::chars_string(&tf),
            note_template: template,
        }
    }
}

impl Default for Configuration {
    /// The default configuration: notes in the default note directory,
    /// not repository specific, daily rolling, and the default template
    /// stored at its default path.
    fn default() -> (r: Configuration)
        ensures
            !r.use_repository_specific,
            r.file_rolling == FileRolling::Daily,
            r.note_template.template@ == crate::note_template::default_template_text(),
            r.note_template.date_format@ == crate::note_template::default_date_format(),
    {
        let template_file: String = match NoteTemplate::initial_file_path() {
            Some(p) => p,
            None => String::new(),
        };
        Configuration {
            note_directory: Configuration::intial_note_directory(),
            use_repository_specific: false,
            file_rolling: FileRolling::Daily,
            template_file,
            note_template: NoteTemplate::default(),
        }
    }
}

} // verus!
