//! Character-level utilities for the line grammar: trimming, splitting a
//! document into lines, splitting a line into tokens, case folding, and
//! conversions between `&str`, `Vec<char>` and `String`.
//!
//! All logic works on `Vec<char>` so that contracts can speak about
//! `Seq<char>` directly; `&str` appears only at the public boundary.

use vstd::prelude::*;

verus! {

/// Whitespace recognized by the chart grammar (the ASCII whitespace set).
pub open spec fn is_space_char(c: char) -> bool {
    c == ' ' || c == '\t' || c == '\r' || c == '\n' || c == '\u{000b}' || c == '\u{000c}'
}

pub fn is_space(c: char) -> (r: bool)
    ensures
        r == is_space_char(c),
{
    c == ' ' || c == '\t' || c == '\r' || c == '\n' || c == '\u{000b}' || c == '\u{000c}'
}

pub open spec fn spec_trim_start(s: Seq<char>) -> Seq<char>
    decreases s.len(),
{
    if s.len() > 0 && is_space_char(s[0]) {
        spec_trim_start(s.drop_first())
    } else {
        s
    }
}

pub open spec fn spec_trim_end(s: Seq<char>) -> Seq<char>
    decreases s.len(),
{
    if s.len() > 0 && is_space_char(s.last()) {
        spec_trim_end(s.drop_last())
    } else {
        s
    }
}

/// The line grammar is insensitive to leading and trailing whitespace.
pub open spec fn spec_trim(s: Seq<char>) -> Seq<char> {
    spec_trim_end(spec_trim_start(s))
}

/// Copy of `v[from..to]`.
pub fn subvec(v: &Vec<char>, from: usize, to: usize) -> (r: Vec<char>)
    requires
        from <= to <= v.len(),
    ensures
        r@ == v@.subrange(from as int, to as int),
{
    let mut r: Vec<char> = Vec::new();
    let mut i: usize = from;
    while i < to
        invariant
            from <= i <= to <= v.len(),
            r@ == v@.subrange(from as int, i as int),
        decreases to - i,
    {
        r.push(v[i]);
        proof {
            assert(r@ =~= v@.subrange(from as int, (i + 1) as int));
        }
        i += 1;
    }
    r
}

pub fn trim(v: &Vec<char>) -> (r: Vec<char>)
    ensures
        r@ == spec_trim(v@),
{
    proof {
        assert(v@.skip(0) =~= v@);
    }
    let mut start: usize = 0;
    while start < v.len() && is_space(v[start])
        invariant
            start <= v.len(),
            spec_trim_start(v@) == spec_trim_start(v@.skip(start as int)),
        decreases v.len() - start,
    {
        proof {
            assert(v@.skip(start as int)[0] == v@[start as int]);
            assert(v@.skip(start as int).drop_first() =~= v@.skip(start as int + 1));
        }
        start += 1;
    }
    proof {
        assert(spec_trim_start(v@) == v@.skip(start as int));
    }
    let mut end: usize = v.len();
    while end > start && is_space(v[end - 1])
        invariant
            start <= end <= v.len(),
            spec_trim_start(v@) == v@.skip(start as int),
            spec_trim_end(v@.skip(start as int)) == spec_trim_end(
                v@.subrange(start as int, end as int),
            ),
        decreases end,
    {
        proof {
            let sub = v@.subrange(start as int, end as int);
            assert(sub.last() == v@[end - 1]);
            assert(sub.drop_last() =~= v@.subrange(start as int, end as int - 1));
        }
        end -= 1;
    }
    proof {
        let sub = v@.subrange(start as int, end as int);
        if sub.len() > 0 {
            assert(sub.last() == v@[end - 1]);
        }
        assert(spec_trim_end(sub) == sub);
    }
    subvec(v, start, end)
}

/// Index of the first occurrence of `c` in `s`, or `s.len()` if absent.
pub open spec fn spec_find(s: Seq<char>, c: char) -> int
    decreases s.len(),
{
    if s.len() == 0 {
        0
    } else if s[0] == c {
        0
    } else {
        1 + spec_find(s.drop_first(), c)
    }
}

pub proof fn lemma_find(s: Seq<char>, c: char)
    ensures
        0 <= spec_find(s, c) <= s.len(),
        spec_find(s, c) < s.len() ==> s[spec_find(s, c)] == c,
        forall|i: int| 0 <= i < spec_find(s, c) ==> s[i] != c,
    decreases s.len(),
{
    if s.len() > 0 && s[0] != c {
        lemma_find(s.drop_first(), c);
        assert forall|i: int| 0 <= i < spec_find(s, c) implies s[i] != c by {
            if i > 0 {
                assert(s.drop_first()[i - 1] == s[i]);
            }
        }
    }
}

/// Find the first occurrence of `c` at or after `from`.
pub fn find_char_from(v: &Vec<char>, from: usize, c: char) -> (j: usize)
    requires
        from <= v.len(),
    ensures
        from <= j <= v.len(),
        j - from == spec_find(v@.skip(from as int), c),
{
    let mut j: usize = from;
    while j < v.len() && v[j] != c
        invariant
            from <= j <= v.len(),
            spec_find(v@.skip(from as int), c) == j - from + spec_find(v@.skip(j as int), c),
        decreases v.len() - j,
    {
        proof {
            assert(v@.skip(j as int)[0] == v@[j as int]);
            assert(v@.skip(j as int).drop_first() =~= v@.skip(j as int + 1));
        }
        j += 1;
    }
    proof {
        if j < v.len() {
            assert(v@.skip(j as int)[0] == v@[j as int]);
        }
        assert(spec_find(v@.skip(j as int), c) == 0);
    }
    j
}

/// The lines of a document: split on `'\n'`, with no trailing empty line
/// when the document ends in a newline.  Carriage returns are left in place;
/// every consumer trims its line before looking at it.
pub open spec fn spec_lines(s: Seq<char>) -> Seq<Seq<char>>
    decreases s.len(),
    via spec_lines_decreases
{
    if s.len() == 0 {
        Seq::empty()
    } else {
        let i = spec_find(s, '\n');
        if i == s.len() {
            seq![s]
        } else {
            seq![s.take(i)] + spec_lines(s.skip(i + 1))
        }
    }
}

#[via_fn]
proof fn spec_lines_decreases(s: Seq<char>) {
    lemma_find(s, '\n');
}

pub fn split_lines(v: &Vec<char>) -> (r: Vec<Vec<char>>)
    ensures
        r.deep_view() == spec_lines(v@),
{
    let mut r: Vec<Vec<char>> = Vec::new();
    let mut p: usize = 0;
    proof {
        assert(v@.skip(0) =~= v@);
        assert(r.deep_view() =~~= Seq::<Seq<char>>::empty());
    }
    while p < v.len()
        invariant
            p <= v.len(),
            spec_lines(v@) == r.deep_view() + spec_lines(v@.skip(p as int)),
        decreases v.len() - p,
    {
        let j = find_char_from(v, p, '\n');
        let ghost rest = v@.skip(p as int);
        proof {
            lemma_find(rest, '\n');
        }
        let line = subvec(v, p, j);
        proof {
            assert(line@ =~= rest.take(j - p));
        }
        let ghost old_r = r.deep_view();
        r.push(line);
        proof {
            assert(r.deep_view() =~~= old_r + seq![line@]);
        }
        if j == v.len() {
            proof {
                assert(line@ =~= rest);
                assert(spec_find(rest, '\n') == rest.len());
                assert(spec_lines(rest) =~~= seq![rest]);
                assert(v@.skip(v@.len() as int) =~= Seq::<char>::empty());
                assert(spec_lines(v@) =~~= r.deep_view() + spec_lines(
                    v@.skip(v@.len() as int),
                ));
            }
            p = v.len();
        } else {
            proof {
                assert(spec_find(rest, '\n') < rest.len());
                assert(rest.take(j - p) == line@);
                assert(rest.skip(j - p + 1) =~= v@.skip(j as int + 1));
                assert(spec_lines(rest) =~~= seq![line@] + spec_lines(v@.skip(j as int + 1)));
                assert(spec_lines(v@) =~~= r.deep_view() + spec_lines(v@.skip(j as int + 1)));
            }
            p = j + 1;
        }
    }
    proof {
        assert(spec_lines(v@) =~~= r.deep_view());
    }
    r
}

/// Index of the first whitespace character in `s`, or `s.len()` if absent.
pub open spec fn spec_find_space(s: Seq<char>) -> int
    decreases s.len(),
{
    if s.len() == 0 {
        0
    } else if is_space_char(s[0]) {
        0
    } else {
        1 + spec_find_space(s.drop_first())
    }
}

pub proof fn lemma_find_space(s: Seq<char>)
    ensures
        0 <= spec_find_space(s) <= s.len(),
        spec_find_space(s) < s.len() ==> is_space_char(s[spec_find_space(s)]),
        forall|i: int| 0 <= i < spec_find_space(s) ==> !is_space_char(s[i]),
    decreases s.len(),
{
    if s.len() > 0 && !is_space_char(s[0]) {
        lemma_find_space(s.drop_first());
        assert forall|i: int| 0 <= i < spec_find_space(s) implies !is_space_char(s[i]) by {
            if i > 0 {
                assert(s.drop_first()[i - 1] == s[i]);
            }
        }
    }
}

pub fn find_space_from(v: &Vec<char>, from: usize) -> (j: usize)
    requires
        from <= v.len(),
    ensures
        from <= j <= v.len(),
        j - from == spec_find_space(v@.skip(from as int)),
{
    let mut j: usize = from;
    while j < v.len() && !is_space(v[j])
        invariant
            from <= j <= v.len(),
            spec_find_space(v@.skip(from as int)) == j - from + spec_find_space(
                v@.skip(j as int),
            ),
        decreases v.len() - j,
    {
        proof {
            assert(v@.skip(j as int)[0] == v@[j as int]);
            assert(v@.skip(j as int).drop_first() =~= v@.skip(j as int + 1));
        }
        j += 1;
    }
    proof {
        if j < v.len() {
            assert(v@.skip(j as int)[0] == v@[j as int]);
        }
        assert(spec_find_space(v@.skip(j as int)) == 0);
    }
    j
}

/// The whitespace-separated tokens of `s`, in order, with no empty tokens.
pub open spec fn spec_split_ws(s: Seq<char>) -> Seq<Seq<char>>
    decreases s.len(),
    via spec_split_ws_decreases
{
    if s.len() == 0 {
        Seq::empty()
    } else if is_space_char(s[0]) {
        spec_split_ws(s.drop_first())
    } else {
        let i = spec_find_space(s);
        seq![s.take(i)] + spec_split_ws(s.skip(i))
    }
}

#[via_fn]
proof fn spec_split_ws_decreases(s: Seq<char>) {
    lemma_find_space(s);
}

pub fn split_ws(v: &Vec<char>) -> (r: Vec<Vec<char>>)
    ensures
        r.deep_view() == spec_split_ws(v@),
{
    let mut r: Vec<Vec<char>> = Vec::new();
    let mut p: usize = 0;
    proof {
        assert(v@.skip(0) =~= v@);
        assert(r.deep_view() =~~= Seq::<Seq<char>>::empty());
    }
    while p < v.len()
        invariant
            p <= v.len(),
            spec_split_ws(v@) == r.deep_view() + spec_split_ws(v@.skip(p as int)),
        decreases v.len() - p,
    {
        let ghost rest = v@.skip(p as int);
        if is_space(v[p]) {
            proof {
                assert(rest[0] == v@[p as int]);
                assert(rest.drop_first() =~= v@.skip(p as int + 1));
            }
            p += 1;
        } else {
            let j = find_space_from(v, p);
            proof {
                assert(rest[0] == v@[p as int]);
                lemma_find_space(rest);
            }
            let tok = subvec(v, p, j);
            proof {
                assert(tok@ =~= rest.take(j - p));
                assert(rest.skip(j - p) =~= v@.skip(j as int));
            }
            let ghost old_r = r.deep_view();
            r.push(tok);
            proof {
                assert(r.deep_view() =~~= old_r + seq![tok@]);
                assert(spec_split_ws(rest) =~~= seq![tok@] + spec_split_ws(v@.skip(j as int)));
                assert(spec_split_ws(v@) =~~= r.deep_view() + spec_split_ws(v@.skip(j as int)));
            }
            p = j;
        }
    }
    proof {
        assert(spec_split_ws(v@) =~~= r.deep_view());
    }
    r
}

/// Split on single space characters into at most `n` parts; the last part
/// keeps the rest of the string, embedded spaces included.
pub open spec fn spec_splitn_space(s: Seq<char>, n: nat) -> Seq<Seq<char>>
    decreases n,
{
    if n == 0 {
        Seq::empty()
    } else {
        let i = spec_find(s, ' ');
        if n == 1 || i == s.len() {
            seq![s]
        } else {
            seq![s.take(i)] + spec_splitn_space(s.skip(i + 1), (n - 1) as nat)
        }
    }
}

pub fn splitn_space(v: &Vec<char>, n: usize) -> (r: Vec<Vec<char>>)
    requires
        n >= 1,
    ensures
        r.deep_view() == spec_splitn_space(v@, n as nat),
{
    let mut r: Vec<Vec<char>> = Vec::new();
    let mut p: usize = 0;
    let mut left: usize = n;
    proof {
        assert(v@.skip(0) =~= v@);
        assert(r.deep_view() =~~= Seq::<Seq<char>>::empty());
    }
    loop
        invariant
            p <= v.len(),
            1 <= left <= n,
            spec_splitn_space(v@, n as nat) == r.deep_view() + spec_splitn_space(
                v@.skip(p as int),
                left as nat,
            ),
        decreases left,
    {
        let ghost rest = v@.skip(p as int);
        let j = find_char_from(v, p, ' ');
        proof {
            lemma_find(rest, ' ');
        }
        if left == 1 || j == v.len() {
            let tok = subvec(v, p, v.len());
            proof {
                assert(tok@ =~= rest);
                assert(spec_splitn_space(rest, left as nat) =~~= seq![rest]);
            }
            let ghost old_r = r.deep_view();
            r.push(tok);
            proof {
                assert(r.deep_view() =~~= old_r + seq![tok@]);
                assert(spec_splitn_space(v@, n as nat) =~~= r.deep_view());
            }
            return r;
        } else {
            let tok = subvec(v, p, j);
            proof {
                assert(tok@ =~= rest.take(j - p));
                assert(rest.skip(j - p + 1) =~= v@.skip(j as int + 1));
            }
            let ghost old_r = r.deep_view();
            r.push(tok);
            proof {
                assert(r.deep_view() =~~= old_r + seq![tok@]);
                assert(spec_splitn_space(rest, left as nat) =~~= seq![tok@]
                    + spec_splitn_space(v@.skip(j as int + 1), (left - 1) as nat));
                assert(spec_splitn_space(v@, n as nat) =~~= r.deep_view() + spec_splitn_space(
                    v@.skip(j as int + 1),
                    (left - 1) as nat,
                ));
            }
            p = j + 1;
            left -= 1;
        }
    }
}

/// ASCII upper-casing of one character, as used for header tag matching.
pub open spec fn spec_upper_char(c: char) -> char {
    if 'a' <= c && c <= 'z' {
        (((c as u8) - 32) as char)
    } else {
        c
    }
}

pub open spec fn spec_upper(s: Seq<char>) -> Seq<char> {
    s.map_values(|c: char| spec_upper_char(c))
}

pub fn upper_char(c: char) -> (r: char)
    ensures
        r == spec_upper_char(c),
{
    if 'a' <= c && c <= 'z' {
        ((c as u8) - 32) as char
    } else {
        c
    }
}

pub fn upper(v: &Vec<char>) -> (r: Vec<char>)
    ensures
        r@ == spec_upper(v@),
{
    let mut r: Vec<char> = Vec::new();
    let mut i: usize = 0;
    while i < v.len()
        invariant
            i <= v.len(),
            r@ == spec_upper(v@.take(i as int)),
        decreases v.len() - i,
    {
        r.push(upper_char(v[i]));
        proof {
            assert(r@ =~= spec_upper(v@.take(i as int + 1)));
        }
        i += 1;
    }
    proof {
        assert(v@.take(v@.len() as int) =~= v@);
    }
    r
}

/// ASCII lower-casing, used for file-extension and cover-name matching.
pub open spec fn spec_lower_char(c: char) -> char {
    if 'A' <= c && c <= 'Z' {
        (((c as u8) + 32) as char)
    } else {
        c
    }
}

pub open spec fn spec_lower(s: Seq<char>) -> Seq<char> {
    s.map_values(|c: char| spec_lower_char(c))
}

pub fn lower_char(c: char) -> (r: char)
    ensures
        r == spec_lower_char(c),
{
    if 'A' <= c && c <= 'Z' {
        ((c as u8) + 32) as char
    } else {
        c
    }
}

pub fn lower(v: &Vec<char>) -> (r: Vec<char>)
    ensures
        r@ == spec_lower(v@),
{
    let mut r: Vec<char> = Vec::new();
    let mut i: usize = 0;
    while i < v.len()
        invariant
            i <= v.len(),
            r@ == spec_lower(v@.take(i as int)),
        decreases v.len() - i,
    {
        r.push(lower_char(v[i]));
        proof {
            assert(r@ =~= spec_lower(v@.take(i as int + 1)));
        }
        i += 1;
    }
    proof {
        assert(v@.take(v@.len() as int) =~= v@);
    }
    r
}

/// Compare a character vector with a string slice.
pub fn eq_str(v: &Vec<char>, s: &str) -> (r: bool)
    ensures
        r == (v@ == s@),
{
    let n = s.unicode_len();
    if v.len() != n {
        proof {
            assert(v@.len() != s@.len());
        }
        return false;
    }
    let mut i: usize = 0;
    while i < n
        invariant
            i <= n,
            v@.len() == n,
            s@.len() == n,
            forall|k: int| 0 <= k < i ==> v@[k] == s@[k],
        decreases n - i,
    {
        if v[i] != s.get_char(i) {
            return false;
        }
        i += 1;
    }
    proof {
        assert(v@ =~= s@);
    }
    true
}

/// The characters of a string slice as a vector.
pub fn to_chars(s: &str) -> (r: Vec<char>)
    ensures
        r@ == s@,
{
    let n = s.unicode_len();
    let mut r: Vec<char> = Vec::new();
    let mut i: usize = 0;
    while i < n
        invariant
            i <= n,
            s@.len() == n,
            r@ == s@.take(i as int),
        decreases n - i,
    {
        r.push(s.get_char(i));
        proof {
            assert(r@ =~= s@.take(i as int + 1));
        }
        i += 1;
    }
    proof {
        assert(s@.take(n as int) =~= s@);
    }
    r
}

/// Relies on `String: FromIterator<char>`: collecting characters yields the
/// string with exactly those characters.
#[verifier::external_body]
pub fn chars_to_string(v: &Vec<char>) -> (r: String)
    ensures
        r@ == v@,
{
    v.iter().collect()
}

/// Relies on `String::from_utf8`: it succeeds exactly on valid UTF-8 input
/// and yields its decoding.
#[verifier::external_body]
pub fn utf8_to_string(bytes: &Vec<u8>) -> (r: Option<String>)
    ensures
        r is Some <==> vstd::utf8::valid_utf8(bytes@),
        r matches Some(s) ==> s@ == vstd::utf8::decode_utf8(bytes@),
{
    String::from_utf8(bytes.clone()).ok()
}

pub fn concat_chars(a: &Vec<char>, b: &Vec<char>) -> (r: Vec<char>)
    ensures
        r@ == a@ + b@,
{
    let mut r: Vec<char> = Vec::new();
    let mut i: usize = 0;
    while i < a.len()
        invariant
            i <= a.len(),
            r@ == a@.take(i as int),
        decreases a.len() - i,
    {
        r.push(a[i]);
        proof {
            assert(r@ =~= a@.take(i as int + 1));
        }
        i += 1;
    }
    let mut j: usize = 0;
    while j < b.len()
        invariant
            j <= b.len(),
            r@ == a@.take(a@.len() as int) + b@.take(j as int),
        decreases b.len() - j,
    {
        r.push(b[j]);
        proof {
            assert(r@ =~= a@.take(a@.len() as int) + b@.take(j as int + 1));
        }
        j += 1;
    }
    proof {
        assert(a@.take(a@.len() as int) =~= a@);
        assert(b@.take(b@.len() as int) =~= b@);
        assert(r@ =~= a@ + b@);
    }
    r
}

/// A message made of a fixed prefix and the offending text, as the error
/// payloads carry it.
pub fn message(prefix: &str, detail: &Vec<char>) -> (r: String)
    ensures
        r@ == prefix@ + detail@,
{
    let p = to_chars(prefix);
    let joined = concat_chars(&p, detail);
    chars_to_string(&joined)
}

/// Does `s` contain `pat` as a contiguous subsequence?
pub open spec fn spec_contains(s: Seq<char>, pat: Seq<char>) -> bool {
    exists|i: int|
        0 <= i && i + pat.len() <= s.len() && #[trigger] s.subrange(i, i + pat.len() as int)
            == pat
}

/// Does `s` end with `pat`?
pub open spec fn spec_ends_with(s: Seq<char>, pat: Seq<char>) -> bool {
    s.len() >= pat.len() && s.subrange(s.len() - pat.len(), s.len() as int) == pat
}

fn matches_at(v: &Vec<char>, at: usize, pat: &Vec<char>) -> (r: bool)
    requires
        at + pat.len() <= v.len(),
    ensures
        r == (v@.subrange(at as int, at + pat@.len()) == pat@),
{
    let mut k: usize = 0;
    while k < pat.len()
        invariant
            k <= pat.len(),
            at + pat.len() <= v.len(),
            forall|m: int| 0 <= m < k ==> v@[at + m] == pat@[m],
        decreases pat.len() - k,
    {
        if v[at + k] != pat[k] {
            proof {
                assert(v@.subrange(at as int, at + pat@.len())[k as int] == v@[at + k]);
            }
            return false;
        }
        k += 1;
    }
    proof {
        assert(v@.subrange(at as int, at + pat@.len()) =~= pat@);
    }
    true
}

pub fn contains_chars(v: &Vec<char>, pat: &Vec<char>) -> (r: bool)
    ensures
        r == spec_contains(v@, pat@),
{
    if pat.len() > v.len() {
        proof {
            assert(!spec_contains(v@, pat@));
        }
        return false;
    }
    if pat.len() == 0 {
        proof {
            assert(v@.subrange(0, 0 + pat@.len() as int) =~= pat@);
            assert(spec_contains(v@, pat@));
        }
        return true;
    }
    let mut i: usize = 0;
    while i <= v.len() - pat.len()
        invariant
            1 <= pat.len() <= v.len(),
            i <= v.len() - pat.len() + 1,
            forall|j: int|
                0 <= j < i ==> #[trigger] v@.subrange(j, j + pat@.len() as int) != pat@,
        decreases v.len() - i,
    {
        if matches_at(v, i, pat) {
            return true;
        }
        i += 1;
    }
    false
}

pub fn ends_with_chars(v: &Vec<char>, pat: &Vec<char>) -> (r: bool)
    ensures
        r == spec_ends_with(v@, pat@),
{
    if pat.len() > v.len() {
        return false;
    }
    matches_at(v, v.len() - pat.len(), pat)
}

} // verus!
