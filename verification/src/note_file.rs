//! Note files: the rolling-policy file name stem, the resolution of the
//! file a note is appended to, and the glob-based lookup of existing
//! note files in a deterministic order.
use vstd::prelude::*;

use chrono::Datelike;

use crate::configuration::Configuration;
use crate::error::NoteError;
use crate::error::NoteErrorKind;
use crate::file_rolling::FileRolling;
use crate::text;

verus! {

/// A calendar date, as plain numbers taken from the clock.
#[derive(Debug, Clone, Copy, PartialEq, Eq, Structural)]
pub struct NoteDate {
    pub year: i32,
    /// month of the year, 1 to 12
    pub month: u8,
    /// day of the month, 1 to 31
    pub day: u8,
    /// day of the year, 1 to 366
    pub ordinal: u16,
    /// days since Monday, 0 to 6
    pub weekday: u8,
}

impl NoteDate {
    /// Each field within its calendar range.
    pub open spec fn wf(self) -> bool {
        &&& 1 <= self.month <= 12
        &&& 1 <= self.day <= 31
        &&& 1 <= self.ordinal <= 366
        &&& self.weekday <= 6
    }
}

/// The week of the year, counted as `strftime`'s `%W` counts it: week 01
/// starts at the first Monday of the year, earlier days lie in week 00.
pub open spec fn week_number(d: NoteDate) -> int {
    (d.ordinal + 6 - d.weekday) / 7
}

/// The year as at least four digits, zero filled, with a leading minus
/// for years before year zero.
pub open spec fn year_text(y: int) -> Seq<char> {
    if y >= 0 {
        text::zero_fill(text::dec_rep(y as nat), 4)
    } else {
        seq!['-'] + text::zero_fill(text::dec_rep((-y) as nat), 4)
    }
}

/// A number as at least two digits, zero filled.
pub open spec fn two_text(n: int) -> Seq<char> {
    text::zero_fill(text::dec_rep(n as nat), 2)
}

/// The file name the rolling cycle gives to the note file of date `d`.
pub open spec fn stem_of(r: FileRolling, d: NoteDate) -> Seq<char> {
    match r {
        FileRolling::Daily => year_text(d.year as int) + seq!['-'] + two_text(d.month as int)
            + seq!['-'] + two_text(d.day as int) + ".md"@,
        FileRolling::Week => year_text(d.year as int) + seq!['-'] + two_text(week_number(d))
            + ".md"@,
        FileRolling::Month => year_text(d.year as int) + seq!['-'] + two_text(d.month as int)
            + ".md"@,
        FileRolling::Year => year_text(d.year as int) + ".md"@,
        FileRolling::Never => "notes.md"@,
    }
}

/// Relies on `chrono::Local::now` and `chrono::Datelike`: the current
/// local date; the month is 1 to 12, the day of the month 1 to 31, the
/// day of the year 1 to 366, the weekday 0 to 6 counted from Monday.
#[verifier::external_body]
fn current_date() -> (d: NoteDate)
    ensures
        d.wf(),
{
    let now = chrono::Local::now();
    NoteDate {
        year: now.year(),
        month: now.month() as u8,
        day: now.day() as u8,
        ordinal: now.ordinal() as u16,
        weekday: now.weekday().num_days_from_monday() as u8,
    }
}

/// Whether `glob::glob_with` accepts the pattern, a property of the
/// pattern text alone.
pub uninterp spec fn glob_pattern_ok(p: Seq<char>) -> bool;

/// Relies on `glob::glob_with`, matching case-insensitively: `Err`
/// exactly when the pattern does not parse; on `Ok`, the paths of the
/// files matching the pattern, an outcome of what is on disk. Entries
/// the walk cannot read, and paths that are not UTF-8, are left out.
#[verifier::external_body]
fn glob_paths(pattern: &str) -> (r: Result<Vec<String>, String>)
    ensures
        r is Ok <==> glob_pattern_ok(pattern@),
{
    let options = glob::MatchOptions { case_sensitive: false, ..glob::MatchOptions::new() };
    match glob::glob_with(pattern, options) {
        Ok(paths) => Ok(
            paths.filter_map(Result::ok).filter_map(
                |p: std::path::PathBuf| p.into_os_string().into_string().ok(),
            ).collect(),
        ),
        Err(e) => Err(e.to_string()),
    }
}

/// Relies on `git2::Repository::discover` and `path_clean::clean`: the
/// normalized directory one level above the discovered repository's
/// metadata store, found upward from `start`; `None` when no repository
/// encloses `start`, an outcome of what is on disk.
#[verifier::external_body]
fn repository_root(start: &str) -> (r: Option<String>) {
    match git2::Repository::discover(start) {
        Ok(repo) => {
            let root = path_clean::clean(repo.path().join(".."));
            root.into_os_string().into_string().ok()
        },
        Err(_) => None,
    }
}

/// The view of an optional string.
pub open spec fn opt_view(o: Option<String>) -> Option<Seq<char>> {
    match o {
        Some(s) => Some(s@),
        None => None,
    }
}

/// The target file of a note, given what repository discovery yielded
/// and the date: the repository's own note file when one is asked for
/// and found, else the rolling-policy file under the note directory.
pub open spec fn target_path(cfg: Configuration, repo: Option<Seq<char>>, d: NoteDate) -> Seq<
    char,
> {
    if cfg.use_repository_specific && repo is Some {
        text::path_join(repo->0, "notes.md"@)
    } else {
        text::path_join(cfg.note_directory@, stem_of(cfg.file_rolling, d))
    }
}

/// The file name a non-empty custom target uses: the name as given when
/// it already ends in `.md`, else the name with `.md` appended.
pub open spec fn custom_file_name(filename: Seq<char>) -> Seq<char> {
    if text::ends_with(filename, ".md"@) {
        filename
    } else {
        filename + ".md"@
    }
}

/// represents a note file
#[derive(Debug, PartialEq)]
pub struct NoteFile {
    pub file: String,
}

fn two_chars(n: u64) -> (r: Vec<char>)
    ensures
        r@ == two_text(n as int),
{
    let d: Vec<char> = text::u64_digits(n);
    text::zero_fill_chars(&d, 2)
}

fn year_chars(y: i32) -> (r: Vec<char>)
    ensures
        r@ == year_text(y as int),
{
    if y >= 0 {
        let d: Vec<char> = text::u64_digits(y as u64);
        text::zero_fill_chars(&d, 4)
    } else {
        let mag: i64 = -(y as i64);
        let d: Vec<char> = text::u64_digits(mag as u64);
        let filled: Vec<char> = text::zero_fill_chars(&d, 4);
        let mut r: Vec<char> = Vec::new();
        r.push('-');
        text::push_chars(&mut r, &filled);
        proof {
            assert(seq!['-'] + filled@ =~= seq!['-'].push(filled@[0]).add(filled@.skip(1)));
            assert(r@ =~= seq!['-'] + filled@);
        }
        r
    }
}

impl NoteFile {
    /// The note file name the rolling cycle gives to date `date`.
    pub fn stem(rolling: &FileRolling, date: &NoteDate) -> (r: NoteFile)
        requires
            date.wf(),
        ensures
            r.file@ == stem_of(*rolling, *date),
    {
        let md: Vec<char> = text::str_chars(".md");
        let mut v: Vec<char>;
        match rolling {
            FileRolling::Daily => {
                v = year_chars(date.year);
                v.push('-');
                let m: Vec<char> = two_chars(date.month as u64);
                text::push_chars(&mut v, &m);
                v.push('-');
                let d: Vec<char> = two_chars(date.day as u64);
                text::push_chars(&mut v, &d);
                text::push_chars(&mut v, &md);
                proof {
                    assert(v@ =~= year_text(date.year as int) + seq!['-'] + two_text(
                        date.month as int,
                    ) + seq!['-'] + two_text(date.day as int) + ".md"@);
                }
            },
            FileRolling::Week => {
                v = year_chars(date.year);
                v.push('-');
                let wn: u64 = ((date.ordinal as u64) + 6 - (date.weekday as u64)) / 7;
                let w: Vec<char> = two_chars(wn);
                text::push_chars(&mut v, &w);
                text::push_chars(&mut v, &md);
                proof {
                    assert(wn as int == week_number(*date));
                    assert(v@ =~= year_text(date.year as int) + seq!['-'] + two_text(
                        week_number(*date),
                    ) + ".md"@);
                }
            },
            FileRolling::Month => {
                v = year_chars(date.year);
                v.push('-');
                let m: Vec<char> = two_chars(date.month as u64);
                text::push_chars(&mut v, &m);
                text::push_chars(&mut v, &md);
                proof {
                    assert(v@ =~= year_text(date.year as int) + seq!['-'] + two_text(
                        date.month as int,
                    ) + ".md"@);
                }
            },
            FileRolling::Year => {
                v = year_chars(date.year);
                text::push_chars(&mut v, &md);
            },
            FileRolling::Never => {
                v = text::str_chars("notes.md");
            },
        }
        NoteFile { file: text::chars_string(&v) }
    }

    /// The note file name the rolling cycle gives to the current date.
    pub fn from_rolling(rolling: &FileRolling) -> (r: NoteFile)
        ensures
            exists|d: NoteDate| d.wf() && r.file@ == stem_of(*rolling, d),
    {
        let today: NoteDate = current_date();
        let r = NoteFile::stem(rolling, &today);
        proof {
            assert(today.wf() && r.file@ == stem_of(*rolling, today));
        }
        r
    }

    /// search for note files in provided base_dir for pattern by glob:
    /// an empty pattern and a malformed pattern are errors, as is a
    /// pattern that matches nothing; matches come sorted ascending by
    /// their full path.
    pub fn target_by_pattern(pattern: &str, base_dir: &str) -> (r: Result<Vec<String>, NoteError>)
        ensures
            pattern@.len() == 0 ==> r is Err && r->Err_0.kind == NoteErrorKind::Other
                && r->Err_0.message@ == "Pattern is empty"@,
            pattern@.len() > 0 && !glob_pattern_ok(text::path_join(base_dir@, pattern@)) ==> r
                is Err && r->Err_0.kind == NoteErrorKind::Other,
            pattern@.len() > 0 && glob_pattern_ok(text::path_join(base_dir@, pattern@)) ==> match r {
                Ok(files) => files@.len() > 0 && text::sorted_lex(files.deep_view()),
                Err(e) => e.kind == NoteErrorKind::NotFound && e.message@ == "Result is empty."@,
            },
    {
        if pattern.unicode_len() == 0 {
            let msg: Vec<char> = text::str_chars("Pattern is empty");
            return Err(
                NoteError { kind: NoteErrorKind::Other, message: text::chars_string(&msg) },
            );
        }
        let base: Vec<char> = text::str_chars(base_dir);
        let pat: Vec<char> = text::str_chars(pattern);
        let joined: Vec<char> = text::path_join_chars(&base, &pat);
        let joined_str: String = text::chars_string(&joined);
        match glob_paths(joined_str.as_str()) {
            Ok(files) => {
                let sorted: Vec<String> = text::sort_strings(files);
                if sorted.len() == 0 {
                    let msg: Vec<char> = text::str_chars("Result is empty.");
                    Err(NoteError { kind: NoteErrorKind::NotFound, message: text::chars_string(&msg) })
                } else {
                    proof {
                        assert(sorted@.len() == sorted.deep_view().len());
                    }
                    Ok(sorted)
                }
            },
            Err(glob_message) => Err(NoteError { kind: NoteErrorKind::Other, message: glob_message }),
        }
    }

    /// The first note file matching the pattern, in the sorted order of
    /// `target_by_pattern`; the same error semantics.
    pub fn first_target_by_pattern(pattern: &str, base_dir: &str) -> (r: Result<String, NoteError>)
        ensures
            pattern@.len() == 0 ==> r is Err && r->Err_0.kind == NoteErrorKind::Other,
            pattern@.len() > 0 && !glob_pattern_ok(text::path_join(base_dir@, pattern@)) ==> r
                is Err && r->Err_0.kind == NoteErrorKind::Other,
            pattern@.len() > 0 && glob_pattern_ok(text::path_join(base_dir@, pattern@)) && r is Err
                ==> r->Err_0.kind == NoteErrorKind::NotFound,
    {
        match NoteFile::target_by_pattern(pattern, base_dir) {
            Ok(mut files) => {
                let first: String = files.remove(0);
                Ok(first)
            },
            Err(err) => Err(err),
        }
    }

    /// The target file of a note, given what repository discovery
    /// yielded and the date. Law: with no repository found the target is
    /// the rolling-policy file under the note directory, whatever the
    /// repository-specific setting says — never an error.
    pub fn resolve_target(
        configuration: &Configuration,
        repository: &Option<String>,
        date: &NoteDate,
    ) -> (r: String)
        requires
            date.wf(),
        ensures
            r@ == target_path(*configuration, opt_view(*repository), *date),
    {
        if configuration.use_repository_specific {
            match repository {
                Some(root) => {
                    let base: Vec<char> = text::str_chars(root.as_str());
                    let name: Vec<char> = text::str_chars("notes.md");
                    let joined: Vec<char> = text::path_join_chars(&base, &name);
                    return text::chars_string(&joined);
                },
                None => {},
            }
        }
        let stem: NoteFile = NoteFile::stem(&configuration.file_rolling, date);
        let base: Vec<char> = text::str_chars(configuration.note_directory.as_str());
        let name: Vec<char> = text::str_chars(stem.file.as_str());
        let joined: Vec<char> = text::path_join_chars(&base, &name);
        text::chars_string(&joined)
    }

    /// get current target note file based on configuration
    pub fn target(configuration: &Configuration) -> (r: String)
        ensures
            exists|d: NoteDate, repo: Option<Seq<char>>|
                d.wf() && r@ == target_path(*configuration, repo, d),
            !configuration.use_repository_specific ==> exists|d: NoteDate|
                d.wf() && r@ == text::path_join(
                    configuration.note_directory@,
                    stem_of(configuration.file_rolling, d),
                ),
    {
        let repository: Option<String> = if configuration.use_repository_specific {
            repository_root(".")
        } else {
            None
        };
        let today: NoteDate = current_date();
        let r = NoteFile::resolve_target(configuration, &repository, &today);
        proof {
            assert(today.wf() && r@ == target_path(
                *configuration,
                opt_view(repository),
                today,
            ));
        }
        r
    }

    /// create a custom target file: an empty name falls back to the
    /// current target, any other name is joined under the note
    /// directory, with `.md` appended unless already there.
    pub fn custom_target(filename: &str, configuration: &Configuration) -> (r: String)
        ensures
            filename@.len() == 0 ==> exists|d: NoteDate, repo: Option<Seq<char>>|
                d.wf() && r@ == target_path(*configuration, repo, d),
            filename@.len() > 0 ==> r@ == text::path_join(
                configuration.note_directory@,
                custom_file_name(filename@),
            ),
    {
        if filename.unicode_len() == 0 {
            NoteFile::target(configuration)
        } else {
            let name_chars: Vec<char> = text::str_chars(filename);
            let md: Vec<char> = text::str_chars(".md");
            let file_name: Vec<char> = if text::ends_with_chars(&name_chars, &md) {
                name_chars
            } else {
                let mut v: Vec<char> = name_chars;
                text::push_chars(&mut v, &md);
                v
            };
            let base: Vec<char> = text::str_chars(configuration.note_directory.as_str());
            let joined: Vec<char> = text::path_join_chars(&base, &file_name);
            text::chars_string(&joined)
        }
    }
}

/// Law: the rolling stem is a function of the policy and the date alone:
/// equal inputs give equal stems.
pub proof fn lemma_stem_deterministic(r1: FileRolling, d1: NoteDate, r2: FileRolling, d2: NoteDate)
    requires
        r1 == r2,
        d1 == d2,
    ensures
        stem_of(r1, d1) == stem_of(r2, d2),
{
}

/// Law: a non-empty custom target name always carries the `.md`
/// extension, and a name that already ends in `.md` is used unchanged.
pub proof fn lemma_custom_target_extension(filename: Seq<char>)
    requires
        filename.len() > 0,
    ensures
        text::ends_with(custom_file_name(filename), ".md"@),
        text::ends_with(filename, ".md"@) ==> custom_file_name(filename) == filename,
{
    if !text::ends_with(filename, ".md"@) {
        text::lemma_ends_with_concat(filename, ".md"@);
    }
}

/// Law: when repository discovery finds nothing, the target is the
/// rolling-policy file under the note directory, whatever the
/// repository-specific setting says — never an error.
pub proof fn lemma_repository_fallback(cfg: Configuration, d: NoteDate)
    ensures
        target_path(cfg, None, d) == text::path_join(
            cfg.note_directory@,
            stem_of(cfg.file_rolling, d),
        ),
{
}

} // verus!
