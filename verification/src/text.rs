//! Utilities on character sequences: the lexicographic order used to
//! sort file paths, and conversions between `String` and `Vec<char>`.
use vstd::prelude::*;

verus! {

/// Lexicographic order on character sequences, by Unicode scalar value:
/// `a` comes no later than `b`.
pub open spec fn lex_le(a: Seq<char>, b: Seq<char>) -> bool
    decreases a.len(),
{
    if a.len() == 0 {
        true
    } else if b.len() == 0 {
        false
    } else if (a[0] as u32) == (b[0] as u32) {
        lex_le(a.skip(1), b.skip(1))
    } else {
        (a[0] as u32) < (b[0] as u32)
    }
}

/// The lexicographic order relates every pair of sequences one way or the other.
pub proof fn lemma_lex_le_total(a: Seq<char>, b: Seq<char>)
    ensures
        lex_le(a, b) || lex_le(b, a),
    decreases a.len(),
{
    if a.len() == 0 {
    } else if b.len() == 0 {
    } else if (a[0] as u32) == (b[0] as u32) {
        lemma_lex_le_total(a.skip(1), b.skip(1));
    }
}

/// The lexicographic order is transitive.
pub proof fn lemma_lex_le_trans(a: Seq<char>, b: Seq<char>, c: Seq<char>)
    requires
        lex_le(a, b),
        lex_le(b, c),
    ensures
        lex_le(a, c),
    decreases a.len(),
{
    if a.len() == 0 {
    } else if (a[0] as u32) == (b[0] as u32) && (b[0] as u32) == (c[0] as u32) {
        lemma_lex_le_trans(a.skip(1), b.skip(1), c.skip(1));
    }
}

/// Compares two strings in the lexicographic order of their characters.
pub fn str_lex_le(a: &str, b: &str) -> (r: bool)
    ensures
        r == lex_le(a@, b@),
{
    let alen: usize = a.unicode_len();
    let blen: usize = b.unicode_len();
    let mut i: usize = 0;
    proof {
        assert(a@.skip(0) =~= a@);
        assert(b@.skip(0) =~= b@);
    }
    loop
        invariant
            i <= alen,
            i <= blen,
            alen == a@.len(),
            blen == b@.len(),
            lex_le(a@, b@) == lex_le(a@.skip(i as int), b@.skip(i as int)),
        decreases alen - i,
    {
        if i >= alen {
            return true;
        }
        if i >= blen {
            return false;
        }
        let ca: u32 = a.get_char(i) as u32;
        let cb: u32 = b.get_char(i) as u32;
        if ca == cb {
            proof {
                assert(a@.skip(i as int).skip(1) =~= a@.skip(i as int + 1));
                assert(b@.skip(i as int).skip(1) =~= b@.skip(i as int + 1));
            }
            i += 1;
        } else {
            return ca < cb;
        }
    }
}

/// Sorted ascending in the lexicographic order.
pub open spec fn sorted_lex(s: Seq<Seq<char>>) -> bool {
    forall|i: int, j: int| 0 <= i < j < s.len() ==> lex_le(s[i], s[j])
}

/// Inserts `x` into the sorted vector `out`, keeping it sorted.
fn insert_sorted(out: &mut Vec<String>, x: String)
    requires
        sorted_lex(old(out).deep_view()),
    ensures
        sorted_lex(final(out).deep_view()),
        final(out).deep_view().to_multiset() == old(out).deep_view().to_multiset().insert(x@),
        final(out).deep_view().len() == old(out).deep_view().len() + 1,
{
    let n: usize = out.len();
    let mut p: usize = 0;
    loop
        invariant
            p <= n,
            n == out@.len(),
            *out == *old(out),
            forall|k: int| 0 <= k < p ==> lex_le(out.deep_view()[k], x@),
        ensures
            p <= n,
            *out == *old(out),
            forall|k: int| 0 <= k < p ==> lex_le(out.deep_view()[k], x@),
            p == n || !lex_le(out.deep_view()[p as int], x@),
        decreases n - p,
    {
        if p >= n {
            break ;
        }
        if !str_lex_le(out[p].as_str(), x.as_str()) {
            break ;
        }
        p += 1;
    }
    let ghost pre = out.deep_view();
    out.insert(p, x);
    proof {
        broadcast use vstd::seq_lib::group_to_multiset_ensures;

        assert(out.deep_view() =~= pre.insert(p as int, x@)) by {
            assert forall|i: int| 0 <= i < out.deep_view().len() implies out.deep_view()[i]
                == pre.insert(p as int, x@)[i] by {
                assert(out@[i] == old(out)@.insert(p as int, x)[i]);
            }
        }
        assert(pre.insert(p as int, x@).to_multiset() == pre.to_multiset().insert(x@));
        assert forall|i: int, j: int|
            0 <= i < j < out.deep_view().len() implies lex_le(
            out.deep_view()[i],
            out.deep_view()[j],
        ) by {
            let dv = out.deep_view();
            if j < p {
                assert(dv[i] == pre[i] && dv[j] == pre[j]);
            } else if i > p {
                assert(dv[i] == pre[i - 1] && dv[j] == pre[j - 1]);
            } else if i < p && j == p {
                assert(dv[i] == pre[i] && dv[j] == x@);
            } else if i == p {
                assert(dv[i] == x@ && dv[j] == pre[j - 1]);
                lemma_lex_le_total(pre[p as int], x@);
                if p < j - 1 {
                    assert(lex_le(pre[p as int], pre[j - 1]));
                    lemma_lex_le_trans(x@, pre[p as int], pre[j - 1]);
                }
            } else {
                assert(i < p && j > p);
                assert(dv[i] == pre[i] && dv[j] == pre[j - 1]);
                if i < p && p <= j - 1 && p < pre.len() {
                    if p == j - 1 {
                        assert(lex_le(dv[i], dv[j]));
                    } else {
                        assert(lex_le(pre[i], pre[p as int]));
                        assert(lex_le(pre[p as int], pre[j - 1]));
                        lemma_lex_le_trans(pre[i], pre[p as int], pre[j - 1]);
                    }
                }
            }
        }
    }
}

/// Sorts the strings ascending in the lexicographic order of their
/// characters; the result holds exactly the given strings.
pub fn sort_strings(v: Vec<String>) -> (r: Vec<String>)
    ensures
        sorted_lex(r.deep_view()),
        r.deep_view().to_multiset() == v.deep_view().to_multiset(),
        r.deep_view().len() == v.deep_view().len(),
{
    let mut rest = v;
    let mut out: Vec<String> = Vec::new();
    proof {
        broadcast use vstd::seq_lib::group_to_multiset_ensures;

        assert(out.deep_view().to_multiset().add(rest.deep_view().to_multiset())
            =~= v.deep_view().to_multiset());
    }
    while rest.len() > 0
        invariant
            sorted_lex(out.deep_view()),
            out.deep_view().to_multiset().add(rest.deep_view().to_multiset())
                == v.deep_view().to_multiset(),
            out.deep_view().len() + rest.deep_view().len() == v.deep_view().len(),
        decreases rest@.len(),
    {
        let ghost rest_pre = rest.deep_view();
        let ghost out_pre = out.deep_view();
        let s = rest.remove(0);
        proof {
            broadcast use vstd::seq_lib::group_to_multiset_ensures;

            assert(rest.deep_view() =~= rest_pre.remove(0)) by {
                assert forall|i: int| 0 <= i < rest.deep_view().len() implies rest.deep_view()[i]
                    == rest_pre.remove(0)[i] by {}
            }
            assert(rest_pre.remove(0).to_multiset() == rest_pre.to_multiset().remove(rest_pre[0]));
            assert(rest_pre[0] == s@);
        }
        insert_sorted(&mut out, s);
        proof {
            broadcast use vstd::multiset::group_multiset_axioms;

            assert(out.deep_view().to_multiset().add(rest.deep_view().to_multiset())
                =~= v.deep_view().to_multiset()) by {
                assert(out.deep_view().to_multiset() == out_pre.to_multiset().insert(s@));
                assert(rest.deep_view().to_multiset() == rest_pre.to_multiset().remove(s@));
                assert(rest_pre.to_multiset().count(s@) >= 1) by {
                    broadcast use vstd::seq_lib::group_to_multiset_ensures;

                    assert(rest_pre.contains(s@));
                }
            }
        }
    }
    proof {
        broadcast use vstd::seq_lib::group_to_multiset_ensures;
        broadcast use vstd::multiset::group_multiset_axioms;

        assert(rest.deep_view() =~= Seq::<Seq<char>>::empty());
        assert(out.deep_view().to_multiset().add(rest.deep_view().to_multiset())
            =~= out.deep_view().to_multiset());
    }
    out
}

/// The characters of a string, as a vector.
pub fn str_chars(s: &str) -> (r: Vec<char>)
    ensures
        r@ == s@,
{
    let n: usize = s.unicode_len();
    let mut v: Vec<char> = Vec::new();
    let mut i: usize = 0;
    while i < n
        invariant
            i <= n,
            n == s@.len(),
            v@ == s@.subrange(0, i as int),
        decreases n - i,
    {
        v.push(s.get_char(i));
        proof {
            assert(v@ =~= s@.subrange(0, i as int + 1));
        }
        i += 1;
    }
    proof {
        assert(v@ =~= s@);
    }
    v
}

/// Copies a string, character by character.
pub fn clone_string(s: &String) -> (r: String)
    ensures
        r@ == s@,
{
    let cs: Vec<char> = str_chars(s.as_str());
    chars_string(&cs)
}

/// Copies a vector of strings, character by character.
pub fn clone_strings(v: &Vec<String>) -> (r: Vec<String>)
    ensures
        r.deep_view() == v.deep_view(),
{
    let n: usize = v.len();
    let mut r: Vec<String> = Vec::new();
    let mut i: usize = 0;
    while i < n
        invariant
            i <= n,
            n == v@.len(),
            v.deep_view().len() == v@.len(),
            r.deep_view() == v.deep_view().take(i as int),
        decreases n - i,
    {
        let ghost pre = r.deep_view();
        r.push(clone_string(&v[i]));
        proof {
            assert(r.deep_view() =~= pre.push(v@[i as int]@));
            assert(r.deep_view() =~= v.deep_view().take(i as int + 1));
        }
        i += 1;
    }
    proof {
        assert(v.deep_view().take(n as int) =~= v.deep_view());
    }
    r
}

/// The first `upto` characters of `v` (all of them if fewer).
pub fn head_chars(v: &Vec<char>, upto: usize) -> (r: Vec<char>)
    requires
        upto <= v@.len(),
    ensures
        r@ == v@.take(upto as int),
{
    let mut r: Vec<char> = Vec::new();
    let mut i: usize = 0;
    while i < upto
        invariant
            i <= upto <= v@.len(),
            r@ == v@.subrange(0, i as int),
        decreases upto - i,
    {
        r.push(v[i]);
        proof {
            assert(v@.subrange(0, i as int + 1) =~= v@.subrange(0, i as int).push(v@[i as int]));
        }
        i += 1;
    }
    r
}

/// The characters of `v` from position `from` on.
pub fn tail_chars(v: &Vec<char>, from: usize) -> (r: Vec<char>)
    requires
        from <= v@.len(),
    ensures
        r@ == v@.skip(from as int),
{
    let n: usize = v.len();
    let mut r: Vec<char> = Vec::new();
    let mut i: usize = from;
    while i < n
        invariant
            from <= i <= n,
            n == v@.len(),
            r@ == v@.subrange(from as int, i as int),
        decreases n - i,
    {
        r.push(v[i]);
        proof {
            assert(v@.subrange(from as int, i as int + 1) =~= v@.subrange(
                from as int,
                i as int,
            ).push(v@[i as int]));
        }
        i += 1;
    }
    r
}

/// Relies on `String`'s `FromIterator<char>`: collecting characters
/// yields the string made of exactly those characters, in order.
#[verifier::external_body]
pub fn chars_string(v: &Vec<char>) -> (r: String)
    ensures
        r@ == v@,
{
    v.iter().collect()
}

/// Appends all characters of `src` to `dst`.
pub fn push_chars(dst: &mut Vec<char>, src: &Vec<char>)
    ensures
        final(dst)@ == old(dst)@ + src@,
{
    let n: usize = src.len();
    let mut i: usize = 0;
    while i < n
        invariant
            i <= n,
            n == src@.len(),
            dst@ == old(dst)@ + src@.subrange(0, i as int),
        decreases n - i,
    {
        dst.push(src[i]);
        proof {
            assert(old(dst)@ + src@.subrange(0, i as int + 1) =~= (old(dst)@ + src@.subrange(
                0,
                i as int,
            )).push(src@[i as int]));
        }
        i += 1;
    }
    proof {
        assert(old(dst)@ + src@.subrange(0, n as int) =~= old(dst)@ + src@);
    }
}

// ---------------------------------------------------------------------------
// Padding
// ---------------------------------------------------------------------------
/// `n` spaces.
pub open spec fn spaces(n: nat) -> Seq<char> {
    Seq::new(n, |i: int| ' ')
}

/// `n` zero digits.
pub open spec fn zeros(n: nat) -> Seq<char> {
    Seq::new(n, |i: int| '0')
}

/// `s` padded with spaces on the right up to width `w`; a longer `s` is kept.
pub open spec fn pad_right(s: Seq<char>, w: nat) -> Seq<char> {
    if s.len() >= w {
        s
    } else {
        s + spaces((w - s.len()) as nat)
    }
}

/// `s` padded with zero digits on the left up to width `w`; a longer `s` is kept.
pub open spec fn zero_fill(s: Seq<char>, w: nat) -> Seq<char> {
    if s.len() >= w {
        s
    } else {
        zeros((w - s.len()) as nat) + s
    }
}

/// Pads `v` with spaces on the right up to width `w`.
pub fn pad_right_chars(v: &Vec<char>, w: usize) -> (r: Vec<char>)
    ensures
        r@ == pad_right(v@, w as nat),
{
    let mut r: Vec<char> = Vec::new();
    push_chars(&mut r, v);
    proof {
        assert(r@ =~= v@);
    }
    let mut i: usize = v.len();
    while i < w
        invariant
            v@.len() <= i <= w || (v@.len() >= w && i == v@.len()),
            r@ == v@ + spaces((i - v@.len()) as nat),
        decreases w - i,
    {
        r.push(' ');
        proof {
            assert(v@ + spaces((i + 1 - v@.len()) as nat) =~= (v@ + spaces(
                (i - v@.len()) as nat,
            )).push(' '));
        }
        i += 1;
    }
    proof {
        assert(v@ + spaces(0) =~= v@);
    }
    r
}

/// Pads `v` with zero digits on the left up to width `w`.
pub fn zero_fill_chars(v: &Vec<char>, w: usize) -> (r: Vec<char>)
    ensures
        r@ == zero_fill(v@, w as nat),
{
    let mut r: Vec<char> = Vec::new();
    let mut i: usize = v.len();
    while i < w
        invariant
            v@.len() <= i <= w || (v@.len() >= w && i == v@.len()),
            r@ == zeros((i - v@.len()) as nat),
        decreases w - i,
    {
        r.push('0');
        proof {
            assert(zeros((i + 1 - v@.len()) as nat) =~= zeros((i - v@.len()) as nat).push('0'));
        }
        i += 1;
    }
    push_chars(&mut r, v);
    proof {
        assert(zeros(0) + v@ =~= v@);
    }
    r
}

// ---------------------------------------------------------------------------
// Trimming
// ---------------------------------------------------------------------------
/// The characters treated as blank when trimming: ASCII whitespace.
pub open spec fn is_blank(c: char) -> bool {
    c == ' ' || c == '\t' || c == '\n' || c == '\r' || c == '\u{b}' || c == '\u{c}'
}

/// Whether `c` is treated as blank when trimming.
pub fn is_blank_char(c: char) -> (r: bool)
    ensures
        r == is_blank(c),
{
    c == ' ' || c == '\t' || c == '\n' || c == '\r' || c == '\u{b}' || c == '\u{c}'
}

/// `s` without trailing blank characters.
pub open spec fn trim_end(s: Seq<char>) -> Seq<char>
    decreases s.len(),
{
    if s.len() > 0 && is_blank(s.last()) {
        trim_end(s.drop_last())
    } else {
        s
    }
}

/// `s` without leading blank characters.
pub open spec fn trim_start(s: Seq<char>) -> Seq<char>
    decreases s.len(),
{
    if s.len() > 0 && is_blank(s[0]) {
        trim_start(s.skip(1))
    } else {
        s
    }
}

/// `s` without leading and trailing blank characters.
pub open spec fn trim(s: Seq<char>) -> Seq<char> {
    trim_start(trim_end(s))
}

proof fn lemma_trim_end_at(s: Seq<char>, j: int)
    requires
        0 <= j <= s.len(),
        forall|k: int| j <= k < s.len() ==> is_blank(s[k]),
        j == 0 || !is_blank(s[j - 1]),
    ensures
        trim_end(s) == s.subrange(0, j),
    decreases s.len(),
{
    if j == s.len() {
        if s.len() == 0 {
            assert(trim_end(s) =~= s.subrange(0, j));
        } else {
            assert(!is_blank(s.last()));
            assert(trim_end(s) =~= s.subrange(0, j));
        }
    } else {
        assert(is_blank(s.last()));
        lemma_trim_end_at(s.drop_last(), j);
        assert(s.drop_last().subrange(0, j) =~= s.subrange(0, j));
    }
}

proof fn lemma_trim_start_at(s: Seq<char>, i: int)
    requires
        0 <= i <= s.len(),
        forall|k: int| 0 <= k < i ==> is_blank(s[k]),
        i == s.len() || !is_blank(s[i]),
    ensures
        trim_start(s) == s.subrange(i, s.len() as int),
    decreases s.len(),
{
    if i == 0 {
        assert(trim_start(s) =~= s.subrange(0, s.len() as int));
    } else {
        assert(is_blank(s[0]));
        lemma_trim_start_at(s.skip(1), i - 1);
        assert(s.skip(1).subrange(i - 1, s.len() - 1) =~= s.subrange(i, s.len() as int));
    }
}

/// Removes trailing blank characters.
pub fn trim_end_chars(s: &Vec<char>) -> (r: Vec<char>)
    ensures
        r@ == trim_end(s@),
{
    let mut j: usize = s.len();
    while j > 0 && is_blank_char(s[j - 1])
        invariant
            j <= s@.len(),
            forall|k: int| j <= k < s@.len() ==> is_blank(s@[k]),
        decreases j,
    {
        j -= 1;
    }
    let mut r: Vec<char> = Vec::new();
    let mut i: usize = 0;
    while i < j
        invariant
            i <= j <= s@.len(),
            r@ == s@.subrange(0, i as int),
        decreases j - i,
    {
        r.push(s[i]);
        proof {
            assert(s@.subrange(0, i as int + 1) =~= s@.subrange(0, i as int).push(s@[i as int]));
        }
        i += 1;
    }
    proof {
        lemma_trim_end_at(s@, j as int);
    }
    r
}

/// Removes leading and trailing blank characters.
pub fn trim_chars(s: &Vec<char>) -> (r: Vec<char>)
    ensures
        r@ == trim(s@),
{
    let mut j: usize = s.len();
    while j > 0 && is_blank_char(s[j - 1])
        invariant
            j <= s@.len(),
            forall|k: int| j <= k < s@.len() ==> is_blank(s@[k]),
        decreases j,
    {
        j -= 1;
    }
    let mut i: usize = 0;
    while i < j && is_blank_char(s[i])
        invariant
            i <= j <= s@.len(),
            forall|k: int| 0 <= k < i ==> is_blank(s@[k]),
        decreases j - i,
    {
        i += 1;
    }
    let mut r: Vec<char> = Vec::new();
    let mut p: usize = i;
    while p < j
        invariant
            i <= p <= j <= s@.len(),
            r@ == s@.subrange(i as int, p as int),
        decreases j - p,
    {
        r.push(s[p]);
        proof {
            assert(s@.subrange(i as int, p as int + 1) =~= s@.subrange(i as int, p as int).push(
                s@[p as int],
            ));
        }
        p += 1;
    }
    proof {
        lemma_trim_end_at(s@, j as int);
        let t = s@.subrange(0, j as int);
        lemma_trim_start_at(t, i as int);
        assert(t.subrange(i as int, t.len() as int) =~= s@.subrange(i as int, j as int));
    }
    r
}

// ---------------------------------------------------------------------------
// Decimal representation
// ---------------------------------------------------------------------------
/// The decimal digit character for `d` (0 to 9).
pub open spec fn digit_char(d: int) -> char {
    ((d + 48) as u8) as char
}

/// The decimal representation of `n`, most significant digit first.
pub open spec fn dec_rep(n: nat) -> Seq<char>
    decreases n,
{
    if n < 10 {
        seq![digit_char(n as int)]
    } else {
        dec_rep(n / 10).push(digit_char((n % 10) as int))
    }
}

/// The decimal digits of `n`.
pub fn u64_digits(n: u64) -> (r: Vec<char>)
    ensures
        r@ == dec_rep(n as nat),
    decreases n,
{
    if n < 10 {
        let d: u8 = (n as u8) + 48;
        let mut v: Vec<char> = Vec::new();
        v.push(d as char);
        proof {
            assert(v@ =~= seq![digit_char(n as int)]);
        }
        v
    } else {
        let mut v: Vec<char> = u64_digits(n / 10);
        let d: u8 = ((n % 10) as u8) + 48;
        v.push(d as char);
        v
    }
}

// ---------------------------------------------------------------------------
// Substrings
// ---------------------------------------------------------------------------
/// `pat` occurs in `s` at position `i`.
pub open spec fn occurs_at(s: Seq<char>, pat: Seq<char>, i: int) -> bool {
    0 <= i && i + pat.len() <= s.len() && s.subrange(i, i + pat.len() as int) == pat
}

/// `pat` occurs somewhere in `s`.
pub open spec fn has_sub(s: Seq<char>, pat: Seq<char>) -> bool {
    exists|i: int| occurs_at(s, pat, i)
}

/// `s` ends with `suffix`.
pub open spec fn ends_with(s: Seq<char>, suffix: Seq<char>) -> bool {
    occurs_at(s, suffix, s.len() - suffix.len())
}

/// `s` starts with `prefix`.
pub open spec fn starts_with(s: Seq<char>, prefix: Seq<char>) -> bool {
    occurs_at(s, prefix, 0)
}

/// Whether `pat` stands in `s` at position `i`.
pub fn occurs_at_chars(s: &Vec<char>, pat: &Vec<char>, i: usize) -> (r: bool)
    requires
        i + pat@.len() <= s@.len(),
    ensures
        r == occurs_at(s@, pat@, i as int),
{
    let m: usize = pat.len();
    let n: usize = s.len();
    let mut j: usize = 0;
    while j < m
        invariant
            j <= m,
            m == pat@.len(),
            n == s@.len(),
            i + m <= n,
            forall|k: int| 0 <= k < j ==> s@[i + k] == pat@[k],
        decreases m - j,
    {
        if s[i + j] != pat[j] {
            proof {
                assert(s@.subrange(i as int, i + m) != pat@) by {
                    assert(s@.subrange(i as int, i + m)[j as int] == s@[i + j]);
                }
            }
            return false;
        }
        j += 1;
    }
    proof {
        assert(s@.subrange(i as int, i + m) =~= pat@);
    }
    true
}

/// The first position at which `pat` occurs in `s`, if any.
pub fn find_sub_chars(s: &Vec<char>, pat: &Vec<char>) -> (r: Option<usize>)
    ensures
        match r {
            Some(i) => occurs_at(s@, pat@, i as int) && forall|j: int|
                0 <= j < i ==> !occurs_at(s@, pat@, j),
            None => !has_sub(s@, pat@),
        },
{
    if pat.len() > s.len() {
        return None;
    }
    let end: usize = s.len() - pat.len();
    let mut i: usize = 0;
    loop
        invariant
            i <= end,
            end == s@.len() - pat@.len(),
            forall|j: int| 0 <= j < i ==> !occurs_at(s@, pat@, j),
        decreases end - i,
    {
        if occurs_at_chars(s, pat, i) {
            return Some(i);
        }
        if i == end {
            proof {
                assert(forall|j: int| i < j ==> !occurs_at(s@, pat@, j));
            }
            return None;
        }
        i += 1;
    }
}

/// Whether `pat` occurs somewhere in `s`.
pub fn has_sub_chars(s: &Vec<char>, pat: &Vec<char>) -> (r: bool)
    ensures
        r == has_sub(s@, pat@),
{
    match find_sub_chars(s, pat) {
        Some(_) => true,
        None => false,
    }
}

/// Whether two character vectors hold the same characters.
pub fn chars_eq(a: &Vec<char>, b: &Vec<char>) -> (r: bool)
    ensures
        r == (a@ == b@),
{
    if a.len() != b.len() {
        return false;
    }
    let r = occurs_at_chars(a, b, 0);
    proof {
        assert(a@.subrange(0, b@.len() as int) =~= a@);
    }
    r
}

/// A concatenation ends with its second part.
pub proof fn lemma_ends_with_concat(a: Seq<char>, s: Seq<char>)
    ensures
        ends_with(a + s, s),
{
    assert((a + s).subrange(a.len() as int, a.len() + s.len() as int) =~= s);
}

/// Whether `s` ends with `suffix`.
pub fn ends_with_chars(s: &Vec<char>, suffix: &Vec<char>) -> (r: bool)
    ensures
        r == ends_with(s@, suffix@),
{
    if suffix.len() > s.len() {
        return false;
    }
    occurs_at_chars(s, suffix, s.len() - suffix.len())
}

/// Whether `s` starts with `prefix`.
pub fn starts_with_chars(s: &Vec<char>, prefix: &Vec<char>) -> (r: bool)
    ensures
        r == starts_with(s@, prefix@),
{
    if prefix.len() > s.len() {
        return false;
    }
    occurs_at_chars(s, prefix, 0)
}

/// The position of the first `c` in `s`; the length of `s` when there
/// is none.
pub open spec fn find_char(s: Seq<char>, c: char) -> int
    decreases s.len(),
{
    if s.len() == 0 {
        0
    } else if s[0] == c {
        0
    } else {
        1 + find_char(s.skip(1), c)
    }
}

proof fn lemma_find_char_at(s: Seq<char>, c: char, k: int)
    requires
        0 <= k <= s.len(),
        forall|j: int| 0 <= j < k ==> s[j] != c,
        k == s.len() || s[k] == c,
    ensures
        find_char(s, c) == k,
    decreases s.len(),
{
    if s.len() == 0 {
    } else if s[0] == c {
        assert(k == 0);
    } else {
        lemma_find_char_at(s.skip(1), c, k - 1);
    }
}

/// The position of the first `c` in `v`, or the length of `v`.
pub fn find_char_chars(v: &Vec<char>, c: char) -> (r: usize)
    ensures
        r as int == find_char(v@, c),
        r <= v@.len(),
        r < v@.len() ==> v@[r as int] == c,
        forall|j: int| 0 <= j < r ==> v@[j] != c,
{
    let n: usize = v.len();
    let mut i: usize = 0;
    while i < n
        invariant
            i <= n,
            n == v@.len(),
            forall|j: int| 0 <= j < i ==> v@[j] != c,
        decreases n - i,
    {
        if v[i] == c {
            proof {
                lemma_find_char_at(v@, c, i as int);
            }
            return i;
        }
        i += 1;
    }
    proof {
        lemma_find_char_at(v@, c, n as int);
    }
    n
}

// ---------------------------------------------------------------------------
// Replacement
// ---------------------------------------------------------------------------
/// `s` with every occurrence of `pat` replaced by `rep`, leftmost first,
/// without overlap, as `str::replace` does.
pub open spec fn replace_all(s: Seq<char>, pat: Seq<char>, rep: Seq<char>) -> Seq<char>
    decreases s.len(),
{
    if pat.len() == 0 || s.len() < pat.len() {
        s
    } else if s.subrange(0, pat.len() as int) == pat {
        rep + replace_all(s.skip(pat.len() as int), pat, rep)
    } else {
        seq![s[0]] + replace_all(s.skip(1), pat, rep)
    }
}

/// Replaces every occurrence of `pat` in `s` by `rep`, leftmost first.
pub fn replace_all_chars(s: &Vec<char>, pat: &Vec<char>, rep: &Vec<char>) -> (r: Vec<char>)
    requires
        pat@.len() >= 1,
    ensures
        r@ == replace_all(s@, pat@, rep@),
{
    let n: usize = s.len();
    let m: usize = pat.len();
    let mut out: Vec<char> = Vec::new();
    let mut i: usize = 0;
    proof {
        assert(s@.skip(0) =~= s@);
        assert(out@ + replace_all(s@, pat@, rep@) =~= replace_all(s@, pat@, rep@));
    }
    while i < n
        invariant
            i <= n,
            n == s@.len(),
            m == pat@.len(),
            m >= 1,
            replace_all(s@, pat@, rep@) == out@ + replace_all(s@.skip(i as int), pat@, rep@),
        decreases n - i,
    {
        if m <= n - i && occurs_at_chars(s, pat, i) {
            proof {
                assert(s@.skip(i as int).subrange(0, m as int) =~= s@.subrange(i as int, i + m));
                assert(s@.skip(i as int).skip(m as int) =~= s@.skip(i + m));
                assert(out@ + (rep@ + replace_all(s@.skip(i + m), pat@, rep@)) =~= (out@ + rep@)
                    + replace_all(s@.skip(i + m), pat@, rep@));
            }
            push_chars(&mut out, rep);
            i += m;
        } else {
            proof {
                let suf = s@.skip(i as int);
                if i + m <= n {
                    assert(suf.subrange(0, m as int) =~= s@.subrange(i as int, i + m));
                    assert(suf.subrange(0, m as int) != pat@);
                }
                assert(suf.skip(1) =~= s@.skip(i as int + 1));
                assert(out@ + (seq![suf[0]] + replace_all(s@.skip(i as int + 1), pat@, rep@))
                    =~= out@.push(s@[i as int]) + replace_all(s@.skip(i as int + 1), pat@, rep@));
            }
            out.push(s[i]);
            i += 1;
        }
    }
    proof {
        assert(out@ + replace_all(s@.skip(n as int), pat@, rep@) =~= out@);
    }
    out
}

// ---------------------------------------------------------------------------
// Line splitting
// ---------------------------------------------------------------------------
/// The lines of `s`: maximal runs separated by `'\n'`, the separator kept in
/// no line, and no empty line after a trailing `'\n'`.
pub open spec fn split_lines(s: Seq<char>) -> Seq<Seq<char>>
    decreases s.len(),
{
    if s.len() == 0 {
        Seq::empty()
    } else if s[0] == '\n' {
        seq![Seq::<char>::empty()] + split_lines(s.skip(1))
    } else {
        let rest = split_lines(s.skip(1));
        if rest.len() == 0 {
            seq![seq![s[0]]]
        } else {
            seq![seq![s[0]] + rest[0]] + rest.skip(1)
        }
    }
}

proof fn lemma_split_lines_prepend(cur: Seq<char>, rest: Seq<char>)
    requires
        forall|k: int| 0 <= k < cur.len() ==> cur[k] != '\n',
    ensures
        split_lines(cur + rest) == if split_lines(rest).len() == 0 {
            if cur.len() == 0 {
                Seq::<Seq<char>>::empty()
            } else {
                seq![cur]
            }
        } else {
            seq![cur + split_lines(rest)[0]] + split_lines(rest).skip(1)
        },
    decreases cur.len(),
{
    if cur.len() == 0 {
        assert(cur + rest =~= rest);
        if split_lines(rest).len() != 0 {
            assert(cur + split_lines(rest)[0] =~= split_lines(rest)[0]);
            assert(seq![split_lines(rest)[0]] + split_lines(rest).skip(1) =~= split_lines(rest));
        }
    } else {
        let s = cur + rest;
        assert(s[0] == cur[0]);
        assert(s[0] != '\n');
        assert(s.skip(1) =~= cur.skip(1) + rest);
        lemma_split_lines_prepend(cur.skip(1), rest);
        let r2 = split_lines(cur.skip(1) + rest);
        if split_lines(rest).len() == 0 {
            if cur.len() == 1 {
                assert(r2 =~= split_lines(rest)) by {
                    assert(cur.skip(1) + rest =~= rest);
                }
                assert(split_lines(s) =~= seq![cur]) by {
                    assert(seq![s[0]] =~= cur);
                }
            } else {
                assert(r2 == seq![cur.skip(1)]);
                assert(split_lines(s) =~= seq![cur]) by {
                    assert(seq![s[0]] + cur.skip(1) =~= cur);
                    assert(r2.skip(1) =~= Seq::<Seq<char>>::empty());
                }
            }
        } else {
            assert(r2 == seq![cur.skip(1) + split_lines(rest)[0]] + split_lines(rest).skip(1));
            assert(r2.len() >= 1);
            assert(split_lines(s) =~= seq![cur + split_lines(rest)[0]] + split_lines(rest).skip(1))
                by {
                assert(seq![s[0]] + r2[0] =~= cur + split_lines(rest)[0]);
                assert(r2.skip(1) =~= split_lines(rest).skip(1));
            }
        }
    }
}

/// Splits `content` into its lines.
pub fn split_lines_str(content: &str) -> (r: Vec<String>)
    ensures
        r.deep_view() == split_lines(content@),
{
    let cs: Vec<char> = str_chars(content);
    let n: usize = cs.len();
    let mut out: Vec<String> = Vec::new();
    let mut cur: Vec<char> = Vec::new();
    let mut i: usize = 0;
    proof {
        assert(cur@ + cs@.skip(0) =~= cs@);
    }
    while i < n
        invariant
            i <= n,
            n == cs@.len(),
            cs@ == content@,
            forall|k: int| 0 <= k < cur@.len() ==> cur@[k] != '\n',
            split_lines(content@) == out.deep_view() + split_lines(cur@ + cs@.skip(i as int)),
        decreases n - i,
    {
        let c: char = cs[i];
        if c == '\n' {
            proof {
                let rest = cs@.skip(i as int);
                assert(rest[0] == '\n');
                assert(rest.skip(1) =~= cs@.skip(i as int + 1));
                lemma_split_lines_prepend(cur@, rest);
                assert(split_lines(rest) == seq![Seq::<char>::empty()] + split_lines(
                    cs@.skip(i as int + 1),
                ));
                assert(cur@ + split_lines(rest)[0] =~= cur@);
                assert(split_lines(rest).skip(1) =~= split_lines(cs@.skip(i as int + 1)));
            }
            let line: String = chars_string(&cur);
            let ghost out0 = out.deep_view();
            out.push(line);
            proof {
                assert(out.deep_view() =~= out0.push(cur@));
            }
            cur = Vec::new();
            proof {
                assert(cur@ + cs@.skip(i as int + 1) =~= cs@.skip(i as int + 1));
            }
        } else {
            proof {
                assert(cur@.push(cs@[i as int]) + cs@.skip(i as int + 1) =~= cur@ + cs@.skip(
                    i as int,
                ));
            }
            cur.push(c);
        }
        i += 1;
    }
    proof {
        assert(cs@.skip(n as int) =~= Seq::<char>::empty());
        assert(cur@ + cs@.skip(n as int) =~= cur@);
        lemma_split_lines_prepend(cur@, Seq::<char>::empty());
    }
    if cur.len() > 0 {
        let line: String = chars_string(&cur);
        let ghost out0 = out.deep_view();
        out.push(line);
        proof {
            assert(out.deep_view() =~= out0.push(cur@));
            assert(out.deep_view() =~= split_lines(content@));
        }
    } else {
        proof {
            assert(out.deep_view() =~= split_lines(content@));
        }
    }
    out
}

// ---------------------------------------------------------------------------
// Joining
// ---------------------------------------------------------------------------
/// The parts joined with `sep` between neighbours.
pub open spec fn join_with(parts: Seq<Seq<char>>, sep: Seq<char>) -> Seq<char>
    decreases parts.len(),
{
    if parts.len() == 0 {
        Seq::empty()
    } else if parts.len() == 1 {
        parts[0]
    } else {
        parts[0] + sep + join_with(parts.skip(1), sep)
    }
}

proof fn lemma_join_with_push(parts: Seq<Seq<char>>, sep: Seq<char>, x: Seq<char>)
    ensures
        join_with(parts.push(x), sep) == if parts.len() == 0 {
            x
        } else {
            join_with(parts, sep) + sep + x
        },
    decreases parts.len(),
{
    if parts.len() == 0 {
        assert(parts.push(x)[0] =~= x);
    } else {
        lemma_join_with_push(parts.skip(1), sep, x);
        assert(parts.push(x).skip(1) =~= parts.skip(1).push(x));
        if parts.len() == 1 {
            assert(join_with(parts.push(x), sep) =~= parts[0] + sep + x);
            assert(join_with(parts, sep) =~= parts[0]);
        } else {
            assert(join_with(parts.push(x), sep) =~= parts[0] + sep + (join_with(
                parts.skip(1),
                sep,
            ) + sep + x));
            assert(parts[0] + sep + (join_with(parts.skip(1), sep) + sep + x) =~= (parts[0] + sep
                + join_with(parts.skip(1), sep)) + sep + x);
        }
    }
}

/// Joins the strings with `sep` between neighbours.
pub fn join_with_str(parts: &Vec<String>, sep: &Vec<char>) -> (r: Vec<char>)
    ensures
        r@ == join_with(parts.deep_view(), sep@),
{
    let n: usize = parts.len();
    let mut out: Vec<char> = Vec::new();
    let mut i: usize = 0;
    while i < n
        invariant
            i <= n,
            n == parts.deep_view().len(),
            parts.deep_view().len() == parts@.len(),
            out@ == join_with(parts.deep_view().take(i as int), sep@),
        decreases n - i,
    {
        proof {
            assert(parts.deep_view().take(i as int).push(parts@[i as int]@) =~= parts.deep_view()
                .take(i as int + 1));
            lemma_join_with_push(parts.deep_view().take(i as int), sep@, parts@[i as int]@);
        }
        if i > 0 {
            push_chars(&mut out, sep);
        }
        let part: Vec<char> = str_chars(parts[i].as_str());
        push_chars(&mut out, &part);
        proof {
            if i == 0 {
                assert(out@ =~= parts@[i as int]@);
            }
        }
        i += 1;
    }
    proof {
        assert(parts.deep_view().take(n as int) =~= parts.deep_view());
    }
    out
}

// ---------------------------------------------------------------------------
// Path joining
// ---------------------------------------------------------------------------
/// A file name joined under a base directory, as paths are joined on Unix:
/// an empty base leaves the name alone, an absolute name replaces the base,
/// and exactly one separator stands between base and name otherwise.
pub open spec fn path_join(base: Seq<char>, name: Seq<char>) -> Seq<char> {
    if base.len() == 0 {
        name
    } else if name.len() > 0 && name[0] == '/' {
        name
    } else if base.last() == '/' {
        base + name
    } else {
        base + seq!['/'] + name
    }
}

/// Joins a file name under a base directory.
pub fn path_join_chars(base: &Vec<char>, name: &Vec<char>) -> (r: Vec<char>)
    ensures
        r@ == path_join(base@, name@),
{
    if base.len() == 0 {
        let mut r: Vec<char> = Vec::new();
        push_chars(&mut r, name);
        proof {
            assert(r@ =~= name@);
        }
        return r;
    }
    if name.len() > 0 && name[0] == '/' {
        let mut r: Vec<char> = Vec::new();
        push_chars(&mut r, name);
        proof {
            assert(r@ =~= name@);
        }
        return r;
    }
    let mut r: Vec<char> = Vec::new();
    push_chars(&mut r, base);
    proof {
        assert(r@ =~= base@);
    }
    if base[base.len() - 1] != '/' {
        r.push('/');
        proof {
            assert(r@ =~= base@ + seq!['/']);
        }
    }
    push_chars(&mut r, name);
    r
}

} // verus!
