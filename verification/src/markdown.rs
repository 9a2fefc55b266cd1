//! The search over note files: building the effective pattern, scanning
//! file contents line by line for regular-expression matches, and
//! choosing which files are searched. Reading the files themselves is
//! plain I/O and stays outside the library: contents are handed in as
//! values.
use vstd::prelude::*;

use crate::SearchArguments;
use crate::configuration::Configuration;
use crate::error::NoteError;
use crate::error::NoteErrorKind;
use crate::note_file::NoteFile;
use crate::note_file::glob_pattern_ok;
use crate::search_result::records_view;
use crate::text;

verus! {

/// Whether `grep`'s regular-expression compiler accepts the pattern, a
/// property of the pattern text alone.
pub uninterp spec fn regex_valid(p: Seq<char>) -> bool;

/// The first match of the pattern in the line, a function of the two
/// texts alone; `None` when the line holds no match.
pub uninterp spec fn first_match_of(p: Seq<char>, line: Seq<char>) -> Option<Seq<char>>;

/// Relies on `grep::regex::RegexMatcher::new`: whether the pattern
/// compiles, a property of the pattern text alone.
#[verifier::external_body]
fn regex_ok(pattern: &str) -> (r: bool)
    ensures
        r == regex_valid(pattern@),
{
    grep::regex::RegexMatcher::new(pattern).is_ok()
}

/// Relies on `grep::regex::RegexMatcher::new` and
/// `grep::matcher::Matcher::find`: the substring of `line` that the
/// pattern matches first, a function of pattern and line alone.
#[verifier::external_body]
fn find_first(pattern: &str, line: &str) -> (r: Option<String>)
    requires
        regex_valid(pattern@),
    ensures
        r is Some <==> first_match_of(pattern@, line@) is Some,
        r is Some ==> r->0@ == first_match_of(pattern@, line@)->0,
{
    let matcher = grep::regex::RegexMatcher::new(pattern).unwrap();
    match grep::matcher::Matcher::find(&matcher, line.as_bytes()) {
        Ok(Some(m)) => Some(
            String::from_utf8_lossy(&line.as_bytes()[m.start()..m.end()]).into_owned(),
        ),
        _ => None,
    }
}

/// The context window each side of a match may add: half of what the
/// excerpt column leaves free, nothing for a pattern already as wide.
pub open spec fn window_of(len: nat) -> nat {
    if len >= 45 {
        0
    } else {
        (((45 - len) / 2) as nat)
    }
}

/// The pattern handed to the regular-expression engine: `#` before the
/// user pattern in tag mode; otherwise the user pattern between two
/// optional context windows, so that the match carries its surroundings.
pub open spec fn effective_pattern(args: SearchArguments) -> Seq<char> {
    if args.tags_only {
        seq!['#'] + args.regex@
    } else {
        let w = text::dec_rep(window_of(args.regex@.len()));
        ".?{0,"@ + w + "}"@ + args.regex@ + ".?{0,"@ + w + "}"@
    }
}

/// The glob pattern that picks the searched files: the file filter when
/// one is given, else every file in the note directory.
pub open spec fn filter_pattern(args: SearchArguments) -> Seq<char> {
    match args.file_regex {
        Some(f) => f@,
        None => "*"@,
    }
}

/// The matches of one file: one record per line the pattern matches,
/// holding the file's path, the 1-based line number and the matched
/// excerpt, in line order.
pub open spec fn line_hits(
    eff: Seq<char>,
    path: Seq<char>,
    lines: Seq<Seq<char>>,
    first_num: int,
) -> Seq<(Seq<char>, int, Seq<char>)>
    decreases lines.len(),
{
    if lines.len() == 0 {
        Seq::empty()
    } else {
        let rest = line_hits(eff, path, lines.skip(1), first_num + 1);
        match first_match_of(eff, lines[0]) {
            Some(m) => seq![(path, first_num, m)] + rest,
            None => rest,
        }
    }
}

/// The view of the searched files: path and content of each.
pub open spec fn files_view(fs: Seq<(String, String)>) -> Seq<(Seq<char>, Seq<char>)> {
    fs.map_values(|p: (String, String)| (p.0@, p.1@))
}

/// The matches of all files, in file order, lines in order within each.
pub open spec fn file_hits(eff: Seq<char>, files: Seq<(Seq<char>, Seq<char>)>) -> Seq<
    (Seq<char>, int, Seq<char>),
>
    decreases files.len(),
{
    if files.len() == 0 {
        Seq::empty()
    } else {
        line_hits(eff, files[0].0, text::split_lines(files[0].1), 1) + file_hits(
            eff,
            files.skip(1),
        )
    }
}

/// Represents the markdown file
pub struct Markdown {
    pub notefile: NoteFile,
}

fn scan_lines(eff: &str, path: &String, lines: &Vec<String>, out: &mut Vec<(String, u64, String)>)
    requires
        regex_valid(eff@),
    ensures
        records_view(final(out)@) == records_view(old(out)@) + line_hits(
            eff@,
            path@,
            lines.deep_view(),
            1,
        ),
{
    let n: usize = lines.len();
    let mut i: usize = 0;
    proof {
        assert(lines.deep_view().skip(0) =~= lines.deep_view());
        assert(records_view(old(out)@) + line_hits(eff@, path@, lines.deep_view(), 1)
            =~= records_view(out@) + line_hits(eff@, path@, lines.deep_view().skip(0), 1));
    }
    while i < n
        invariant
            i <= n,
            n == lines@.len(),
            lines.deep_view().len() == lines@.len(),
            regex_valid(eff@),
            records_view(old(out)@) + line_hits(eff@, path@, lines.deep_view(), 1) == records_view(
                out@,
            ) + line_hits(eff@, path@, lines.deep_view().skip(i as int), i + 1),
        decreases n - i,
    {
        proof {
            let ldv = lines.deep_view();
            assert(ldv.skip(i as int)[0] == ldv[i as int]);
            assert(ldv.skip(i as int).skip(1) =~= ldv.skip(i as int + 1));
        }
        match find_first(eff, lines[i].as_str()) {
            Some(excerpt) => {
                let record: (String, u64, String) = (
                    text::clone_string(path),
                    (i + 1) as u64,
                    excerpt,
                );
                let ghost out_pre = out@;
                let ghost rec = record;
                out.push(record);
                proof {
                    assert(records_view(out@) =~= records_view(out_pre).push(
                        (rec.0@, rec.1 as int, rec.2@),
                    ));
                    assert(seq![(path@, i + 1, first_match_of(eff@, lines.deep_view()[i as int])->0)]
                        + line_hits(eff@, path@, lines.deep_view().skip(i as int + 1), i + 2)
                        =~= line_hits(eff@, path@, lines.deep_view().skip(i as int), i + 1));
                }
            },
            None => {},
        }
        i += 1;
    }
    proof {
        assert(line_hits(eff@, path@, lines.deep_view().skip(n as int), n + 1)
            =~= Seq::<(Seq<char>, int, Seq<char>)>::empty());
        assert(records_view(out@) + Seq::<(Seq<char>, int, Seq<char>)>::empty()
            =~= records_view(out@));
        assert(records_view(old(out)@) + line_hits(eff@, path@, lines.deep_view(), 1)
            =~= records_view(out@));
    }
}

impl Markdown {
    /// The pattern handed to the regular-expression engine for these
    /// search arguments.
    pub fn search_pattern(arguments: &SearchArguments) -> (r: String)
        ensures
            r@ == effective_pattern(*arguments),
    {
        if arguments.tags_only {
            let mut v: Vec<char> = Vec::new();
            v.push('#');
            let p: Vec<char> = text::str_chars(arguments.regex.as_str());
            text::push_chars(&mut v, &p);
            proof {
                assert(v@ =~= seq!['#'] + arguments.regex@);
            }
            text::chars_string(&v)
        } else {
            let len: usize = arguments.regex.unicode_len();
            let w: usize = if len >= 45 {
                0
            } else {
                (45 - len) / 2
            };
            let digits: Vec<char> = text::u64_digits(w as u64);
            let open_part: Vec<char> = text::str_chars(".?{0,");
            let close_part: Vec<char> = text::str_chars("}");
            let p: Vec<char> = text::str_chars(arguments.regex.as_str());
            let mut v: Vec<char> = Vec::new();
            text::push_chars(&mut v, &open_part);
            text::push_chars(&mut v, &digits);
            text::push_chars(&mut v, &close_part);
            text::push_chars(&mut v, &p);
            text::push_chars(&mut v, &open_part);
            text::push_chars(&mut v, &digits);
            text::push_chars(&mut v, &close_part);
            proof {
                assert(w as nat == window_of(arguments.regex@.len()));
                assert(v@ =~= ".?{0,"@ + text::dec_rep(window_of(arguments.regex@.len())) + "}"@
                    + arguments.regex@ + ".?{0,"@ + text::dec_rep(
                    window_of(arguments.regex@.len()),
                ) + "}"@);
            }
            text::chars_string(&v)
        }
    }

    /// The files a search reads: those matching the file filter, or
    /// every file in the note directory when no filter is given; the
    /// same error semantics as `NoteFile::target_by_pattern`, after the
    /// empty search string is rejected first, before any file is
    /// touched.
    pub fn search_files(arguments: &SearchArguments, configuration: &Configuration) -> (r: Result<
        Vec<String>,
        NoteError,
    >)
        ensures
            arguments.regex@.len() == 0 ==> r is Err && r->Err_0.kind
                == NoteErrorKind::InvalidInput && r->Err_0.message@ == "Search string is empty"@,
            arguments.regex@.len() > 0 ==> {
                let fp = filter_pattern(*arguments);
                let joined = text::path_join(configuration.note_directory@, fp);
                &&& (fp.len() == 0 ==> r is Err && r->Err_0.kind == NoteErrorKind::Other)
                &&& (fp.len() > 0 && !glob_pattern_ok(joined) ==> r is Err && r->Err_0.kind
                    == NoteErrorKind::Other)
                &&& (fp.len() > 0 && glob_pattern_ok(joined) ==> match r {
                    Ok(files) => files@.len() > 0 && text::sorted_lex(files.deep_view()),
                    Err(e) => e.kind == NoteErrorKind::NotFound,
                })
            },
    {
        if arguments.regex.unicode_len() == 0 {
            let msg: Vec<char> = text::str_chars("Search string is empty");
            return Err(
                NoteError { kind: NoteErrorKind::InvalidInput, message: text::chars_string(&msg) },
            );
        }
        match &arguments.file_regex {
            Some(f) => NoteFile::target_by_pattern(
                f.as_str(),
                configuration.note_directory.as_str(),
            ),
            None => NoteFile::target_by_pattern("*", configuration.note_directory.as_str()),
        }
    }

    /// Scans the given files for the search pattern: each line a file
    /// holds is matched once, and every match yields one record of file
    /// path, 1-based line number and matched excerpt, files in the order
    /// given and lines in order within each file. An empty list of
    /// records is a success, unlike the locator's empty match.
    pub fn search_content(arguments: &SearchArguments, files: &Vec<(String, String)>) -> (r: Result<
        Vec<(String, u64, String)>,
        NoteError,
    >)
        ensures
            arguments.regex@.len() == 0 ==> r is Err && r->Err_0.kind
                == NoteErrorKind::InvalidInput && r->Err_0.message@ == "Search string is empty"@,
            arguments.regex@.len() > 0 && !regex_valid(effective_pattern(*arguments)) ==> r is Err
                && r->Err_0.kind == NoteErrorKind::Other,
            arguments.regex@.len() > 0 && regex_valid(effective_pattern(*arguments)) ==> r is Ok
                && records_view(r->Ok_0@) == file_hits(
                effective_pattern(*arguments),
                files_view(files@),
            ),
    {
        if arguments.regex.unicode_len() == 0 {
            let msg: Vec<char> = text::str_chars("Search string is empty");
            return Err(
                NoteError { kind: NoteErrorKind::InvalidInput, message: text::chars_string(&msg) },
            );
        }
        let eff: String = Markdown::search_pattern(arguments);
        if !regex_ok(eff.as_str()) {
            let mut msg: Vec<char> = text::str_chars("invalid search pattern '");
            let effc: Vec<char> = text::str_chars(eff.as_str());
            text::push_chars(&mut msg, &effc);
            let quote: Vec<char> = text::str_chars("'");
            text::push_chars(&mut msg, &quote);
            return Err(
                NoteError { kind: NoteErrorKind::Other, message: text::chars_string(&msg) },
            );
        }
        let ghost fv = files_view(files@);
        let mut out: Vec<(String, u64, String)> = Vec::new();
        let n: usize = files.len();
        let mut k: usize = 0;
        proof {
            assert(fv.skip(0) =~= fv);
            assert(records_view(out@) =~= Seq::<(Seq<char>, int, Seq<char>)>::empty());
        }
        while k < n
            invariant
                k <= n,
                n == files@.len(),
                fv == files_view(files@),
                fv.len() == files@.len(),
                regex_valid(eff@),
                eff@ == effective_pattern(*arguments),
                file_hits(eff@, fv) == records_view(out@) + file_hits(eff@, fv.skip(k as int)),
            decreases n - k,
        {
            proof {
                assert(fv.skip(k as int)[0] == fv[k as int]);
                assert(fv.skip(k as int).skip(1) =~= fv.skip(k as int + 1));
            }
            let lines: Vec<String> = text::split_lines_str(files[k].1.as_str());
            let ghost out_pre = out@;
            scan_lines(eff.as_str(), &files[k].0, &lines, &mut out);
            proof {
                assert(records_view(out@) =~= records_view(out_pre) + line_hits(
                    eff@,
                    fv[k as int].0,
                    text::split_lines(fv[k as int].1),
                    1,
                ));
                assert(records_view(out@) + file_hits(eff@, fv.skip(k as int + 1))
                    =~= records_view(out_pre) + file_hits(eff@, fv.skip(k as int)));
            }
            k += 1;
        }
        proof {
            assert(file_hits(eff@, fv.skip(n as int)) =~= Seq::<(Seq<char>, int, Seq<char>)>::empty());
            assert(records_view(out@) + file_hits(eff@, fv.skip(n as int)) =~= records_view(out@));
        }
        Ok(out)
    }
}

} // verus!
