//! The fixed-width table the search results are laid out as.
use vstd::prelude::*;

use crate::text;

verus! {

/// The mathematical view of a list of match records: file path, 1-based
/// line number and excerpt.
pub open spec fn records_view(rs: Seq<(String, u64, String)>) -> Seq<(Seq<char>, int, Seq<char>)> {
    rs.map_values(|t: (String, u64, String)| (t.0@, t.1 as int, t.2@))
}

/// The file cell: a path of 30 or more characters is replaced by `...`
/// and its last 27 characters, making exactly 30; a shorter one is kept.
pub open spec fn cell_file(path: Seq<char>) -> Seq<char> {
    if path.len() >= 30 {
        "..."@ + path.skip(path.len() - 27)
    } else {
        path
    }
}

/// The content cell: an excerpt of 45 or more characters is cut to its
/// first 42 characters with `...` appended, making exactly 45; a
/// shorter one is kept.
pub open spec fn cell_content(c: Seq<char>) -> Seq<char> {
    if c.len() >= 45 {
        c.take(42) + "..."@
    } else {
        c
    }
}

/// One table row: the three cells padded to widths 30, 4 and 45,
/// separated by ` | `, trailing blanks trimmed.
pub open spec fn row_text(f: Seq<char>, l: Seq<char>, c: Seq<char>) -> Seq<char> {
    text::trim_end(
        text::pad_right(f, 30) + " | "@ + text::pad_right(l, 4) + " | "@ + text::pad_right(c, 45),
    )
}

/// The row of one match record, its cells cut as `cell_file` and
/// `cell_content` cut them and its line number in decimal.
pub open spec fn record_row(t: (Seq<char>, int, Seq<char>)) -> Seq<char> {
    row_text(cell_file(t.0), text::dec_rep(t.1 as nat), cell_content(t.2))
}

/// The whole table: the header row, then one row per record, in order.
pub open spec fn table_text(records: Seq<(Seq<char>, int, Seq<char>)>) -> Seq<Seq<char>> {
    seq![row_text("File"@, "Line"@, "Content"@)] + records.map_values(|t| record_row(t))
}

/// Law: a path of 30 or more characters is rendered as `...` followed
/// by its last 27 characters, a cell of exactly 30 characters; an
/// excerpt of 45 or more characters as its first 42 followed by `...`,
/// exactly 45 characters. Shorter values are kept as they are.
pub proof fn lemma_cell_truncation(path: Seq<char>, excerpt: Seq<char>)
    ensures
        path.len() >= 30 ==> cell_file(path).len() == 30 && text::starts_with(
            cell_file(path),
            "..."@,
        ) && text::ends_with(cell_file(path), path.skip(path.len() - 27)),
        path.len() < 30 ==> cell_file(path) == path,
        excerpt.len() >= 45 ==> cell_content(excerpt).len() == 45 && text::starts_with(
            cell_content(excerpt),
            excerpt.take(42),
        ) && text::ends_with(cell_content(excerpt), "..."@),
        excerpt.len() < 45 ==> cell_content(excerpt) == excerpt,
{
    reveal_strlit("...");
    if path.len() >= 30 {
        assert(("..."@ + path.skip(path.len() - 27)).subrange(0, 3) =~= "..."@);
        text::lemma_ends_with_concat("..."@, path.skip(path.len() - 27));
    }
    if excerpt.len() >= 45 {
        assert((excerpt.take(42) + "..."@).subrange(0, 42) =~= excerpt.take(42));
        text::lemma_ends_with_concat(excerpt.take(42), "..."@);
    }
}

/// Represents search results
#[derive(Debug)]
pub struct SearchResult {}

impl SearchResult {
    /// formatting of the search results table
    pub fn fmt(first: &str, second: &str, third: &str) -> (r: String)
        ensures
            r@ == row_text(first@, second@, third@),
    {
        let f: Vec<char> = text::str_chars(first);
        let s: Vec<char> = text::str_chars(second);
        let t: Vec<char> = text::str_chars(third);
        let sep: Vec<char> = text::str_chars(" | ");
        let mut row: Vec<char> = text::pad_right_chars(&f, 30);
        text::push_chars(&mut row, &sep);
        let ps: Vec<char> = text::pad_right_chars(&s, 4);
        text::push_chars(&mut row, &ps);
        text::push_chars(&mut row, &sep);
        let pt: Vec<char> = text::pad_right_chars(&t, 45);
        text::push_chars(&mut row, &pt);
        let trimmed: Vec<char> = text::trim_end_chars(&row);
        proof {
            assert(row@ =~= text::pad_right(first@, 30) + " | "@ + text::pad_right(second@, 4)
                + " | "@ + text::pad_right(third@, 45));
        }
        text::chars_string(&trimmed)
    }

    /// Formats the match records as the result table: the header first,
    /// then one row per record, in the order given.
    pub fn to_table(matches: Vec<(String, u64, String)>) -> (r: Vec<String>)
        ensures
            r.deep_view() == table_text(records_view(matches@)),
    {
        let mut table: Vec<String> = Vec::new();
        table.push(SearchResult::fmt("File", "Line", "Content"));
        proof {
            assert(table.deep_view() =~= seq![row_text("File"@, "Line"@, "Content"@)]);
            assert(records_view(matches@.take(0)).map_values(|t| record_row(t))
                =~= Seq::<Seq<char>>::empty());
            assert(table.deep_view() =~= table_text(records_view(matches@.take(0))));
        }
        let n: usize = matches.len();
        let mut i: usize = 0;
        while i < n
            invariant
                i <= n,
                n == matches@.len(),
                table.deep_view() == table_text(records_view(matches@.take(i as int))),
            decreases n - i,
        {
            let file_chars: Vec<char> = text::str_chars(matches[i].0.as_str());
            let filepath: Vec<char> = if file_chars.len() >= 30 {
                let tail: Vec<char> = text::tail_chars(&file_chars, file_chars.len() - 27);
                let mut v: Vec<char> = text::str_chars("...");
                text::push_chars(&mut v, &tail);
                v
            } else {
                file_chars
            };
            let content_chars: Vec<char> = text::str_chars(matches[i].2.as_str());
            let content: Vec<char> = if content_chars.len() >= 45 {
                let mut v: Vec<char> = text::head_chars(&content_chars, 42);
                let dots: Vec<char> = text::str_chars("...");
                text::push_chars(&mut v, &dots);
                v
            } else {
                content_chars
            };
            let number: Vec<char> = text::u64_digits(matches[i].1);
            let row: String = SearchResult::fmt(
                text::chars_string(&filepath).as_str(),
                text::chars_string(&number).as_str(),
                text::chars_string(&content).as_str(),
            );
            let ghost table_pre = table.deep_view();
            table.push(row);
            proof {
                let rv = records_view(matches@.take(i as int));
                let rv1 = records_view(matches@.take(i as int + 1));
                assert(filepath@ == cell_file(matches@[i as int].0@));
                assert(content@ == cell_content(matches@[i as int].2@));
                assert(row@ == record_row((matches@[i as int].0@, matches@[i as int].1 as int, matches@[i as int].2@)));
                assert(rv1 =~= rv.push(
                    (matches@[i as int].0@, matches@[i as int].1 as int, matches@[i as int].2@),
                ));
                assert(rv1.map_values(|t| record_row(t)) =~= rv.map_values(|t| record_row(t)).push(
                    record_row((matches@[i as int].0@, matches@[i as int].1 as int, matches@[i as int].2@)),
                ));
                assert(table.deep_view() =~= table_pre.push(row@));
                assert(table.deep_view() =~= table_text(rv1));
            }
            i += 1;
        }
        proof {
            assert(matches@.take(n as int) =~= matches@);
        }
        table
    }
}

} // verus!
