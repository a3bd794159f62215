//! Character-level text utilities with their specifications.
//!
//! Strings are modelled by their views, sequences of `char`.  The spec
//! functions here state what the corresponding `str` operations of the
//! standard library compute (`trim`, `lines`, `contains`, `find`,
//! `starts_with`, byte length), and the executable functions are proved
//! against them.
use vstd::prelude::*;
use vstd::slice::{slice_subrange, slice_to_vec};

verus! {

broadcast use vstd::string::group_string_axioms;

// ---------------------------------------------------------------------------
// Conversions
// ---------------------------------------------------------------------------

/// Copies the characters of `s` into a vector.
pub fn chars_of(s: &str) -> (v: Vec<char>)
    ensures
        v@ == s@,
{
    let mut v: Vec<char> = Vec::new();
    for c in it: s.chars()
        invariant
            v@ == it.seq().take(it.index()),
            it.seq() == s@,
    {
        v.push(c);
    }
    v
}

/// Appends one character to a string (`String::push`).
#[verifier::external_body]
fn push_char(s: &mut String, c: char)
    ensures
        final(s)@ == old(s)@.push(c),
{
    s.push(c);
}

/// Appends the characters of `v` to `s`.
pub fn push_chars(s: &mut String, v: &[char])
    ensures
        final(s)@ == old(s)@ + v@,
{
    let ghost start = s@;
    for i in 0..v.len()
        invariant
            s@ == start + v@.take(i as int),
    {
        push_char(s, v[i]);
        assert(v@.take(i + 1) =~= v@.take(i as int).push(v@[i as int]));
    }
    assert(v@.take(v@.len() as int) =~= v@);
}

/// Copies a character slice into a vector.
pub fn slice_copy(v: &[char]) -> (r: Vec<char>)
    ensures
        r@ == v@,
{
    slice_to_vec(v)
}

/// Builds a string from the characters in `v`.
pub fn string_from_chars(v: &[char]) -> (s: String)
    ensures
        s@ == v@,
{
    let mut s = String::new();
    push_chars(&mut s, v);
    assert(Seq::<char>::empty() + v@ =~= v@);
    s
}

/// Copies a string.
pub fn copy_str(s: &str) -> (r: String)
    ensures
        r@ == s@,
{
    s.to_owned()
}

// ---------------------------------------------------------------------------
// Equality, prefixes, occurrences
// ---------------------------------------------------------------------------

/// Whether two character sequences are equal.
pub fn chars_equal(a: &[char], b: &[char]) -> (r: bool)
    ensures
        r == (a@ == b@),
{
    if a.len() != b.len() {
        return false;
    }
    for i in 0..a.len()
        invariant
            a@.len() == b@.len(),
            forall|j: int| 0 <= j < i ==> a@[j] == b@[j],
    {
        if a[i] != b[i] {
            return false;
        }
    }
    assert(a@ =~= b@);
    true
}

/// Whether two strings are equal.
pub fn str_equal(a: &str, b: &str) -> (r: bool)
    ensures
        r == (a@ == b@),
{
    let va = chars_of(a);
    let vb = chars_of(b);
    chars_equal(va.as_slice(), vb.as_slice())
}

/// `p` is a prefix of `s` (`str::starts_with`).
pub open spec fn has_prefix(s: Seq<char>, p: Seq<char>) -> bool {
    p.len() <= s.len() && s.take(p.len() as int) == p
}

/// `p` is a suffix of `s` (`str::ends_with`).
pub open spec fn has_suffix(s: Seq<char>, p: Seq<char>) -> bool {
    p.len() <= s.len() && s.skip(s.len() - p.len()) == p
}

/// `n` occurs in `h` starting at index `i`.
pub open spec fn occurs_at(h: Seq<char>, n: Seq<char>, i: int) -> bool {
    0 <= i && i + n.len() <= h.len() && h.subrange(i, i + n.len()) == n
}

/// `n` occurs somewhere in `h` (`str::contains`).
pub open spec fn contains_seq(h: Seq<char>, n: Seq<char>) -> bool {
    exists|i: int| occurs_at(h, n, i)
}

/// The first index at or after `i` where `n` occurs in `h` (`str::find`,
/// counted in characters).
pub open spec fn find_from(h: Seq<char>, n: Seq<char>, i: int) -> Option<int>
    decreases h.len() - i,
{
    if i < 0 || i + n.len() > h.len() {
        None
    } else if occurs_at(h, n, i) {
        Some(i)
    } else if i + n.len() == h.len() {
        None
    } else {
        find_from(h, n, i + 1)
    }
}

/// What `find_from` returns is the first occurrence.
pub proof fn lemma_find_from(h: Seq<char>, n: Seq<char>, i: int)
    requires
        0 <= i,
    ensures
        match find_from(h, n, i) {
            Some(k) => i <= k && occurs_at(h, n, k) && forall|j: int| i <= j < k ==> !occurs_at(h, n, j),
            None => forall|j: int| i <= j ==> !occurs_at(h, n, j),
        },
    decreases h.len() - i,
{
    if i + n.len() > h.len() {
    } else if occurs_at(h, n, i) {
    } else if i + n.len() == h.len() {
    } else {
        lemma_find_from(h, n, i + 1);
    }
}

/// Whether `n` occurs in `h` at index `i`.
pub fn matches_at(h: &[char], n: &[char], i: usize) -> (r: bool)
    ensures
        r == occurs_at(h@, n@, i as int),
{
    let hl = h.len();
    if i > hl || n.len() > hl - i {
        return false;
    }
    for k in 0..n.len()
        invariant
            hl == h@.len(),
            i + n@.len() <= hl,
            forall|j: int| 0 <= j < k ==> h@[i + j] == n@[j],
    {
        if h[i + k] != n[k] {
            assert(h@.subrange(i as int, i + n@.len())[k as int] != n@[k as int]);
            return false;
        }
    }
    assert(h@.subrange(i as int, i + n@.len()) =~= n@);
    true
}

/// The first character index at which `n` occurs in `h`.
pub fn find_chars(h: &[char], n: &[char]) -> (r: Option<usize>)
    ensures
        match r {
            Some(k) => find_from(h@, n@, 0) == Some(k as int),
            None => find_from(h@, n@, 0) is None,
        },
{
    if n.len() > h.len() {
        return None;
    }
    let last = h.len() - n.len();
    let mut i: usize = 0;
    loop
        invariant
            last + n@.len() == h@.len(),
            i <= last,
            find_from(h@, n@, 0) == find_from(h@, n@, i as int),
        decreases last - i,
    {
        if matches_at(h, n, i) {
            return Some(i);
        }
        if i == last {
            return None;
        }
        i = i + 1;
    }
}

/// Whether `n` occurs in `h`.
pub fn contains_chars(h: &[char], n: &[char]) -> (r: bool)
    ensures
        r == contains_seq(h@, n@),
{
    let f = find_chars(h, n);
    proof {
        lemma_find_from(h@, n@, 0);
    }
    f.is_some()
}

/// Whether `n` occurs in `h` (`str::contains`).
pub fn str_contains(h: &str, n: &str) -> (r: bool)
    ensures
        r == contains_seq(h@, n@),
{
    let vh = chars_of(h);
    let vn = chars_of(n);
    contains_chars(vh.as_slice(), vn.as_slice())
}

/// Whether `p` is a prefix of `s`.
pub fn starts_with_chars(s: &[char], p: &[char]) -> (r: bool)
    ensures
        r == has_prefix(s@, p@),
{
    let r = matches_at(s, p, 0);
    assert(s@.subrange(0, p@.len() as int) == s@.take(p@.len() as int));
    r
}

/// Whether `p` is a suffix of `s`.
pub fn ends_with_chars(s: &[char], p: &[char]) -> (r: bool)
    ensures
        r == has_suffix(s@, p@),
{
    if p.len() > s.len() {
        return false;
    }
    let r = matches_at(s, p, s.len() - p.len());
    assert(s@.subrange(s@.len() - p@.len(), s@.len() as int) == s@.skip(s@.len() - p@.len()));
    r
}

/// Whether `c` is the last character of `s`.
pub open spec fn ends_with_char(s: Seq<char>, c: char) -> bool {
    s.len() > 0 && s.last() == c
}

// ---------------------------------------------------------------------------
// White space and trimming
// ---------------------------------------------------------------------------

/// `char::is_whitespace`: the characters with the Unicode property
/// `White_Space`.
pub open spec fn is_space(c: char) -> bool {
    ||| ('\u{9}' <= c && c <= '\u{D}')
    ||| c == ' '
    ||| c == '\u{85}'
    ||| c == '\u{A0}'
    ||| c == '\u{1680}'
    ||| ('\u{2000}' <= c && c <= '\u{200A}')
    ||| c == '\u{2028}'
    ||| c == '\u{2029}'
    ||| c == '\u{202F}'
    ||| c == '\u{205F}'
    ||| c == '\u{3000}'
}

/// Whether `c` is white space.
pub fn is_space_char(c: char) -> (r: bool)
    ensures
        r == is_space(c),
{
    ('\u{9}' <= c && c <= '\u{D}') || c == ' ' || c == '\u{85}' || c == '\u{A0}' || c
        == '\u{1680}' || ('\u{2000}' <= c && c <= '\u{200A}') || c == '\u{2028}' || c
        == '\u{2029}' || c == '\u{202F}' || c == '\u{205F}' || c == '\u{3000}'
}

/// `s` without its leading white space.
pub open spec fn trim_start(s: Seq<char>) -> Seq<char>
    decreases s.len(),
{
    if s.len() > 0 && is_space(s[0]) {
        trim_start(s.drop_first())
    } else {
        s
    }
}

/// `s` without its trailing white space.
pub open spec fn trim_end(s: Seq<char>) -> Seq<char>
    decreases s.len(),
{
    if s.len() > 0 && is_space(s.last()) {
        trim_end(s.drop_last())
    } else {
        s
    }
}

/// `str::trim`: `s` without leading and trailing white space.
pub open spec fn trim(s: Seq<char>) -> Seq<char> {
    trim_end(trim_start(s))
}

/// `s` trimmed of white space at both ends.
pub fn trim_chars(s: &[char]) -> (r: Vec<char>)
    ensures
        r@ == trim(s@),
{
    let mut i: usize = 0;
    assert(s@.skip(0) =~= s@);
    while i < s.len() && is_space_char(s[i])
        invariant
            i <= s@.len(),
            trim_start(s@) == trim_start(s@.skip(i as int)),
        decreases s@.len() - i,
    {
        assert(s@.skip(i as int).drop_first() =~= s@.skip(i + 1));
        i = i + 1;
    }
    let mut j: usize = s.len();
    assert(s@.skip(i as int) =~= s@.subrange(i as int, j as int));
    while j > i && is_space_char(s[j - 1])
        invariant
            i <= j <= s@.len(),
            trim_start(s@) == s@.subrange(i as int, s@.len() as int),
            trim(s@) == trim_end(s@.subrange(i as int, j as int)),
        decreases j,
    {
        assert(s@.subrange(i as int, j as int).drop_last() =~= s@.subrange(i as int, j - 1));
        j = j - 1;
    }
    slice_to_vec(slice_subrange(s, i, j))
}

/// A string trimmed of white space at both ends (`str::trim`).
pub fn trim_str(s: &str) -> (r: Vec<char>)
    ensures
        r@ == trim(s@),
{
    let v = chars_of(s);
    trim_chars(v.as_slice())
}

/// Whether `s` is empty after trimming white space.
pub fn is_blank(s: &[char]) -> (r: bool)
    ensures
        r == (trim(s@).len() == 0),
{
    let t = trim_chars(s);
    t.len() == 0
}

// ---------------------------------------------------------------------------
// Lines
// ---------------------------------------------------------------------------

/// A line without the `'\r'` that preceded its `'\n'` terminator.
pub open spec fn strip_cr(l: Seq<char>) -> Seq<char> {
    if l.len() > 0 && l.last() == '\r' {
        l.drop_last()
    } else {
        l
    }
}

/// The lines of `s`, where `cur` is the part of the current line already read.
pub open spec fn lines_from(s: Seq<char>, cur: Seq<char>) -> Seq<Seq<char>>
    decreases s.len(),
{
    if s.len() == 0 {
        if cur.len() == 0 {
            Seq::empty()
        } else {
            seq![cur]
        }
    } else if s[0] == '\n' {
        seq![strip_cr(cur)] + lines_from(s.drop_first(), Seq::empty())
    } else {
        lines_from(s.drop_first(), cur.push(s[0]))
    }
}

/// `str::lines`: the pieces of `s` between `'\n'` terminators, each without
/// a `'\r'` just before its terminator; a final empty piece is not a line.
pub open spec fn lines(s: Seq<char>) -> Seq<Seq<char>> {
    lines_from(s, Seq::empty())
}

/// The views of a sequence of character vectors.
pub open spec fn views(v: Seq<Vec<char>>) -> Seq<Seq<char>> {
    v.map_values(|x: Vec<char>| x@)
}

/// Pushing a vector extends the views by its view.
pub proof fn lemma_views_push(v: Seq<Vec<char>>, x: Vec<char>)
    ensures
        views(v.push(x)) =~= views(v).push(x@),
{
}

/// The views of a sequence of strings.
pub open spec fn strs(v: Seq<String>) -> Seq<Seq<char>> {
    v.map_values(|x: String| x@)
}

/// The view of an optional string.
pub open spec fn opt_view(o: Option<String>) -> Option<Seq<char>> {
    match o {
        Some(s) => Some(s@),
        None => None,
    }
}

/// Copies an optional string.
pub fn copy_opt(o: &Option<String>) -> (r: Option<String>)
    ensures
        opt_view(r) == opt_view(*o),
{
    match o {
        Some(s) => Some(s.clone()),
        None => None,
    }
}

/// Pushing a string extends the views by its view.
pub proof fn lemma_strs_push(v: Seq<String>, x: String)
    ensures
        strs(v.push(x)) =~= strs(v).push(x@),
{
}

/// Converts a character vector to a string, keeping its view.
pub fn to_string(v: &Vec<char>) -> (s: String)
    ensures
        s@ == v@,
{
    string_from_chars(v.as_slice())
}

/// The lines of `s`.
pub fn split_lines(s: &[char]) -> (r: Vec<Vec<char>>)
    ensures
        views(r@) == lines(s@),
{
    let mut out: Vec<Vec<char>> = Vec::new();
    let mut cur: Vec<char> = Vec::new();
    assert(s@.skip(0) =~= s@);
    assert(views(out@) + lines_from(s@, cur@) =~= lines(s@));
    for i in 0..s.len()
        invariant
            views(out@) + lines_from(s@.skip(i as int), cur@) == lines(s@),
    {
        let ghost rest = s@.skip(i as int);
        assert(rest.drop_first() =~= s@.skip(i + 1));
        if s[i] == '\n' {
            let ghost before = views(out@);
            let line = if cur.len() > 0 && cur[cur.len() - 1] == '\r' {
                slice_to_vec(slice_subrange(cur.as_slice(), 0, cur.len() - 1))
            } else {
                cur
            };
            proof {
                assert(line@ == strip_cr(cur@)) by {
                    if cur@.len() > 0 && cur@.last() == '\r' {
                        assert(cur@.subrange(0, cur@.len() - 1) =~= cur@.drop_last());
                    }
                }
                lemma_views_push(out@, line);
            }
            out.push(line);
            assert(views(out@) + lines_from(s@.skip(i + 1), Seq::empty()) =~= before + (
            seq![strip_cr(cur@)] + lines_from(s@.skip(i + 1), Seq::empty())));
            cur = Vec::new();
        } else {
            cur.push(s[i]);
        }
    }
    assert(s@.skip(s@.len() as int) =~= Seq::<char>::empty());
    if cur.len() > 0 {
        let ghost before = views(out@);
        proof {
            lemma_views_push(out@, cur);
        }
        out.push(cur);
        assert(views(out@) =~= before + seq![cur@]);
    } else {
        assert(views(out@) + Seq::<Seq<char>>::empty() =~= views(out@));
    }
    out
}

/// The lines of a string.
pub fn str_lines(s: &str) -> (r: Vec<Vec<char>>)
    ensures
        views(r@) == lines(s@),
{
    let v = chars_of(s);
    split_lines(v.as_slice())
}

/// `items` joined with `sep` between consecutive items (`[T]::join`).
pub open spec fn join(items: Seq<Seq<char>>, sep: Seq<char>) -> Seq<char>
    decreases items.len(),
{
    if items.len() == 0 {
        Seq::empty()
    } else if items.len() == 1 {
        items[0]
    } else {
        join(items.drop_last(), sep) + sep + items.last()
    }
}

/// Joins `items[..n]` (or all of them) with `sep`.
pub fn join_chars(items: &[Vec<char>], n: usize, sep: &str) -> (r: String)
    ensures
        r@ == join(views(items@).take(
            if n < items@.len() { n as int } else { items@.len() as int },
        ), sep@),
{
    let stop = if n < items.len() {
        n
    } else {
        items.len()
    };
    let ghost all = views(items@);
    let mut r = String::new();
    for i in 0..stop
        invariant
            stop <= items@.len(),
            all == views(items@),
            r@ == join(all.take(i as int), sep@),
    {
        assert(all.take(i + 1).drop_last() =~= all.take(i as int));
        assert(all[i as int] == items@[i as int]@);
        if i > 0 {
            r.append(sep);
        } else {
            assert(r@ =~= Seq::<char>::empty());
        }
        push_chars(&mut r, items[i].as_slice());
        proof {
            if i == 0 {
                assert(r@ =~= all.take(1)[0]);
            }
        }
    }
    r
}

/// Joins strings with `sep` between consecutive ones.
pub fn join_strings(items: &Vec<String>, sep: &str) -> (r: String)
    ensures
        r@ == join(strs(items@), sep@),
{
    let ghost all = strs(items@);
    let mut r = String::new();
    for i in 0..items.len()
        invariant
            all == strs(items@),
            r@ == join(all.take(i as int), sep@),
    {
        assert(all.take(i + 1).drop_last() =~= all.take(i as int));
        if i > 0 {
            r.append(sep);
        } else {
            assert(r@ =~= Seq::<char>::empty());
        }
        r.append(items[i].as_str());
        proof {
            if i == 0 {
                assert(r@ =~= all.take(1)[0]);
            }
        }
    }
    assert(all.take(items@.len() as int) =~= all);
    r
}

// ---------------------------------------------------------------------------
// Lexicographic order
// ---------------------------------------------------------------------------

/// `a` is at most `b` in the lexicographic order of code points, which is
/// the order of `String` (the byte order of UTF-8).
pub open spec fn lex_le(a: Seq<char>, b: Seq<char>) -> bool
    decreases a.len(),
{
    if a.len() == 0 {
        true
    } else if b.len() == 0 {
        false
    } else if a[0] != b[0] {
        a[0] < b[0]
    } else {
        lex_le(a.drop_first(), b.drop_first())
    }
}

/// The lexicographic order is total.
pub proof fn lemma_lex_total(a: Seq<char>, b: Seq<char>)
    ensures
        lex_le(a, b) || lex_le(b, a),
    decreases a.len(),
{
    if a.len() > 0 && b.len() > 0 && a[0] == b[0] {
        lemma_lex_total(a.drop_first(), b.drop_first());
    }
}

/// The lexicographic order is transitive.
pub proof fn lemma_lex_trans(a: Seq<char>, b: Seq<char>, c: Seq<char>)
    requires
        lex_le(a, b),
        lex_le(b, c),
    ensures
        lex_le(a, c),
    decreases a.len(),
{
    if a.len() > 0 && b.len() > 0 && c.len() > 0 && a[0] == b[0] && b[0] == c[0] {
        lemma_lex_trans(a.drop_first(), b.drop_first(), c.drop_first());
    }
}

/// The lexicographic order is reflexive.
pub proof fn lemma_lex_refl(a: Seq<char>)
    ensures
        lex_le(a, a),
    decreases a.len(),
{
    if a.len() > 0 {
        lemma_lex_refl(a.drop_first());
    }
}

/// The lexicographic order is antisymmetric.
pub proof fn lemma_lex_antisym(a: Seq<char>, b: Seq<char>)
    requires
        lex_le(a, b),
        lex_le(b, a),
    ensures
        a == b,
    decreases a.len(),
{
    if a.len() > 0 && b.len() > 0 {
        lemma_lex_antisym(a.drop_first(), b.drop_first());
        assert(a =~= seq![a[0]] + a.drop_first());
        assert(b =~= seq![b[0]] + b.drop_first());
    } else {
        assert(a =~= b);
    }
}

/// Whether `a` is at most `b` lexicographically.
pub fn lex_le_chars(a: &[char], b: &[char]) -> (r: bool)
    ensures
        r == lex_le(a@, b@),
{
    let mut i: usize = 0;
    assert(a@.skip(0) =~= a@ && b@.skip(0) =~= b@);
    while i < a.len()
        invariant
            i <= a@.len(),
            i <= b@.len(),
            a@.take(i as int) == b@.take(i as int),
            lex_le(a@, b@) == lex_le(a@.skip(i as int), b@.skip(i as int)),
        decreases a@.len() - i,
    {
        assert(a@.skip(i as int).drop_first() =~= a@.skip(i + 1));
        if i >= b.len() {
            return false;
        }
        assert(b@.skip(i as int).drop_first() =~= b@.skip(i + 1));
        if a[i] != b[i] {
            return a[i] < b[i];
        }
        assert(a@.take(i + 1) =~= a@.take(i as int).push(a@[i as int]));
        assert(b@.take(i + 1) =~= b@.take(i as int).push(b@[i as int]));
        i = i + 1;
    }
    true
}

// ---------------------------------------------------------------------------
// Numbers and byte lengths
// ---------------------------------------------------------------------------

/// The decimal digit for `d < 10`.
pub open spec fn digit_char(d: nat) -> char {
    if d == 0 { '0' }
    else if d == 1 { '1' }
    else if d == 2 { '2' }
    else if d == 3 { '3' }
    else if d == 4 { '4' }
    else if d == 5 { '5' }
    else if d == 6 { '6' }
    else if d == 7 { '7' }
    else if d == 8 { '8' }
    else { '9' }
}

/// The decimal representation of `n`, as `Display` for integers writes it.
pub open spec fn decimal(n: nat) -> Seq<char>
    decreases n,
{
    if n < 10 {
        seq![digit_char(n)]
    } else {
        decimal(n / 10).push(digit_char(n % 10))
    }
}

fn digit(d: usize) -> (c: char)
    requires
        d < 10,
    ensures
        c == digit_char(d as nat),
{
    match d {
        0 => '0',
        1 => '1',
        2 => '2',
        3 => '3',
        4 => '4',
        5 => '5',
        6 => '6',
        7 => '7',
        8 => '8',
        _ => '9',
    }
}

/// Appends the decimal representation of `n` to `s`.
pub fn push_decimal(s: &mut String, n: usize)
    ensures
        final(s)@ == old(s)@ + decimal(n as nat),
    decreases n,
{
    if n < 10 {
        push_char(s, digit(n));
        assert(old(s)@.push(digit_char(n as nat)) =~= old(s)@ + seq![digit_char(n as nat)]);
    } else {
        push_decimal(s, n / 10);
        push_char(s, digit(n % 10));
        assert(old(s)@ + decimal((n / 10) as nat).push(digit_char((n % 10) as nat)) =~= (old(s)@
            + decimal((n / 10) as nat)).push(digit_char((n % 10) as nat)));
    }
}

/// `char::len_utf8`: the number of bytes of `c` in UTF-8.
pub open spec fn char_utf8_len(c: char) -> nat {
    if (c as u32) < 0x80 {
        1
    } else if (c as u32) < 0x800 {
        2
    } else if (c as u32) < 0x10000 {
        3
    } else {
        4
    }
}

/// The number of bytes of `s` in UTF-8 (`str::len`).
pub open spec fn utf8_len(s: Seq<char>) -> nat
    decreases s.len(),
{
    if s.len() == 0 {
        0
    } else {
        utf8_len(s.drop_last()) + char_utf8_len(s.last())
    }
}

/// The number of bytes of `c` in UTF-8.
pub fn char_len_utf8(c: char) -> (n: usize)
    ensures
        n == char_utf8_len(c),
{
    let u = c as u32;
    if u < 0x80 {
        1
    } else if u < 0x800 {
        2
    } else if u < 0x10000 {
        3
    } else {
        4
    }
}

/// The byte length of prefixes grows with their length.
pub proof fn lemma_utf8_len_prefix(s: Seq<char>, a: int, b: int)
    requires
        0 <= a <= b <= s.len(),
    ensures
        utf8_len(s.take(a)) + (b - a) <= utf8_len(s.take(b)),
    decreases b - a,
{
    if a < b {
        lemma_utf8_len_prefix(s, a, b - 1);
        assert(s.take(b).drop_last() =~= s.take(b - 1));
    }
}

/// Some prefix of `s` is exactly `n` bytes long: byte `n` is a character
/// boundary (`str::is_char_boundary`).
pub open spec fn byte_boundary(s: Seq<char>, n: nat) -> bool {
    exists|k: int| 0 <= k <= s.len() && utf8_len(#[trigger] s.take(k)) == n
}

/// The prefix of `s` that is `n` bytes long (`&s[..n]`), when byte `n` is
/// a character boundary.
pub open spec fn byte_prefix(s: Seq<char>, n: nat) -> Seq<char> {
    s.take(choose|k: int| 0 <= k <= s.len() && utf8_len(#[trigger] s.take(k)) == n)
}

/// The number of characters in the prefix of `s` that is `n` bytes long.
pub fn byte_boundary_index(s: &[char], n: usize) -> (r: Option<usize>)
    ensures
        match r {
            Some(k) => k <= s@.len() && utf8_len(s@.take(k as int)) == n && byte_prefix(s@, n as nat)
                == s@.take(k as int),
            None => !byte_boundary(s@, n as nat),
        },
{
    let mut bytes: u128 = 0;
    let mut i: usize = 0;
    assert(s@.take(0) =~= Seq::<char>::empty());
    while i < s.len() && bytes < n as u128
        invariant
            i <= s@.len(),
            bytes == utf8_len(s@.take(i as int)),
            bytes < n + 4,
            bytes <= n as u128 + 4,
            forall|k: int| 0 <= k < i ==> utf8_len(#[trigger] s@.take(k)) < n,
        decreases s@.len() - i,
    {
        proof {
            lemma_utf8_len_prefix(s@, 0, i as int);
        }
        let w = char_len_utf8(s[i]);
        assert(s@.take(i + 1).drop_last() =~= s@.take(i as int));
        bytes = bytes + w as u128;
        i = i + 1;
    }
    if bytes == n as u128 {
        proof {
            let c = choose|j: int| 0 <= j <= s@.len() && utf8_len(#[trigger] s@.take(j)) == n;
            assert(0 <= c <= s@.len() && utf8_len(s@.take(c)) == n);
            if c < i {
                lemma_utf8_len_prefix(s@, c, i as int);
            } else if i < c {
                lemma_utf8_len_prefix(s@, i as int, c);
            }
        }
        Some(i)
    } else {
        assert forall|k: int| 0 <= k <= s@.len() implies utf8_len(#[trigger] s@.take(k)) != n by {
            if k > i {
                lemma_utf8_len_prefix(s@, i as int, k);
            }
            if k == i && i == s@.len() {
            }
        }
        None
    }
}

/// Whether `s` is longer than `n` bytes.
pub fn longer_than_bytes(s: &[char], n: usize) -> (r: bool)
    ensures
        r == (utf8_len(s@) > n),
{
    let mut bytes: u128 = 0;
    let mut i: usize = 0;
    assert(s@.take(0) =~= Seq::<char>::empty());
    while i < s.len() && bytes <= n as u128
        invariant
            i <= s@.len(),
            bytes == utf8_len(s@.take(i as int)),
            bytes <= n + 4,
        decreases s@.len() - i,
    {
        let w = char_len_utf8(s[i]);
        assert(s@.take(i + 1).drop_last() =~= s@.take(i as int));
        bytes = bytes + w as u128;
        i = i + 1;
    }
    proof {
        lemma_utf8_len_prefix(s@, i as int, s@.len() as int);
        assert(s@.take(s@.len() as int) =~= s@);
    }
    bytes > n as u128
}

/// The characters of `s` for which `keep` holds, in order.
pub open spec fn filter_chars(s: Seq<char>, keep: spec_fn(char) -> bool) -> Seq<char>
    decreases s.len(),
{
    if s.len() == 0 {
        Seq::empty()
    } else if keep(s.last()) {
        filter_chars(s.drop_last(), keep).push(s.last())
    } else {
        filter_chars(s.drop_last(), keep)
    }
}

/// `s` with every leading occurrence of `p` removed (`str::trim_start_matches`).
pub open spec fn strip_prefixes(s: Seq<char>, p: Seq<char>) -> Seq<char>
    decreases s.len(),
{
    if p.len() > 0 && has_prefix(s, p) {
        strip_prefixes(s.skip(p.len() as int), p)
    } else {
        s
    }
}

/// Removes every leading occurrence of `p` from `s`.
pub fn strip_prefixes_chars(s: &[char], p: &[char]) -> (r: Vec<char>)
    ensures
        r@ == strip_prefixes(s@, p@),
{
    let mut i: usize = 0;
    assert(s@.skip(0) =~= s@);
    if p.len() == 0 {
        return slice_to_vec(s);
    }
    while i <= s.len() && matches_at(s, p, i)
        invariant
            p@.len() > 0,
            i <= s@.len(),
            strip_prefixes(s@, p@) == strip_prefixes(s@.skip(i as int), p@),
        decreases s@.len() - i,
    {
        assert(s@.skip(i as int).take(p@.len() as int) =~= s@.subrange(i as int, i + p@.len()));
        assert(s@.skip(i as int).skip(p@.len() as int) =~= s@.skip(i + p@.len()));
        i = i + p.len();
    }
    if i <= s.len() {
        assert(s@.skip(i as int).take(p@.len() as int) =~= s@.subrange(i as int, i + p@.len())
            || p@.len() > s@.skip(i as int).len());
    }
    let r = slice_to_vec(slice_subrange(s, i, s.len()));
    assert(r@ =~= s@.skip(i as int));
    r
}

// ---------------------------------------------------------------------------
// Calls into std whose results are named
// ---------------------------------------------------------------------------

/// What `str::to_lowercase` returns for a string (lowercase according to
/// the Unicode property `Lowercase`).
pub uninterp spec fn lowercase(s: Seq<char>) -> Seq<char>;

/// `str::to_lowercase`.
#[verifier::external_body]
pub(crate) fn to_lowercase(s: &str) -> (r: String)
    ensures
        r@ == lowercase(s@),
{
    s.to_lowercase()
}

/// What `char::is_alphanumeric` returns (`is_alphabetic() || is_numeric()`).
pub uninterp spec fn alphanumeric(c: char) -> bool;

/// `char::is_alphanumeric`.
#[verifier::external_body]
pub(crate) fn is_alphanumeric(c: char) -> (r: bool)
    ensures
        r == alphanumeric(c),
{
    c.is_alphanumeric()
}

} // verus!

verus! {

/// The byte length of a concatenation is the sum of the byte lengths.
pub proof fn lemma_utf8_len_concat(a: Seq<char>, b: Seq<char>)
    ensures
        utf8_len(a + b) == utf8_len(a) + utf8_len(b),
    decreases b.len(),
{
    if b.len() == 0 {
        assert(a + b =~= a);
    } else {
        lemma_utf8_len_concat(a, b.drop_last());
        assert((a + b).drop_last() =~= a + b.drop_last());
        assert((a + b).last() == b.last());
    }
}

/// An ASCII text has one byte per character.
pub proof fn lemma_utf8_len_ascii(s: Seq<char>)
    requires
        forall|i: int| 0 <= i < s.len() ==> (#[trigger] s[i] as u32) < 0x80,
    ensures
        utf8_len(s) == s.len(),
    decreases s.len(),
{
    if s.len() > 0 {
        let init = s.drop_last();
        assert forall|i: int| 0 <= i < init.len() implies (#[trigger] init[i] as u32) < 0x80 by {
            assert(init[i] == s[i]);
        }
        lemma_utf8_len_ascii(init);
        assert((s[s.len() - 1] as u32) < 0x80);
    }
}

/// A prefix that is `n` bytes long is `n` bytes long.
pub proof fn lemma_byte_prefix(s: Seq<char>, n: nat)
    requires
        byte_boundary(s, n),
    ensures
        utf8_len(byte_prefix(s, n)) == n,
{
    let k = choose|k: int| 0 <= k <= s.len() && utf8_len(#[trigger] s.take(k)) == n;
    assert(0 <= k <= s.len() && utf8_len(s.take(k)) == n);
}

/// A text that lacks the first character of `m` does not contain `m`.
pub proof fn lemma_lacks_first(s: Seq<char>, m: Seq<char>)
    requires
        m.len() > 0,
        !s.contains(m[0]),
    ensures
        !contains_seq(s, m),
{
    if contains_seq(s, m) {
        let i = choose|i: int| occurs_at(s, m, i);
        assert(s.subrange(i, i + m.len())[0] == s[i]);
        assert(s.contains(s[i]));
    }
}

/// No occurrence of `m` in `a + b` starts in `a` when `a` lacks the first
/// character of `m`.
pub proof fn lemma_contains_after(a: Seq<char>, b: Seq<char>, m: Seq<char>)
    requires
        m.len() > 0,
        !a.contains(m[0]),
    ensures
        contains_seq(a + b, m) ==> contains_seq(b, m),
{
    if contains_seq(a + b, m) {
        let i = choose|i: int| occurs_at(a + b, m, i);
        if i < a.len() {
            assert((a + b).subrange(i, i + m.len())[0] == a[i]);
            assert(a.contains(a[i]));
        } else {
            assert((a + b).subrange(i, i + m.len()) =~= b.subrange(
                i - a.len(),
                i - a.len() + m.len(),
            ));
            assert(occurs_at(b, m, i - a.len()));
        }
    }
}

/// An occurrence of `m` in `a + b` lies in `a` or in `b` when it cannot
/// straddle them: when `a` ends, or `b` starts, with a character that `m`
/// lacks.
pub proof fn lemma_contains_split(a: Seq<char>, b: Seq<char>, m: Seq<char>)
    requires
        m.len() > 0,
        (a.len() > 0 && !m.contains(a.last())) || (b.len() > 0 && !m.contains(b[0])),
    ensures
        contains_seq(a + b, m) ==> contains_seq(a, m) || contains_seq(b, m),
{
    if contains_seq(a + b, m) {
        let i = choose|i: int| occurs_at(a + b, m, i);
        let ab = a + b;
        if i + m.len() <= a.len() {
            assert(ab.subrange(i, i + m.len()) =~= a.subrange(i, i + m.len()));
            assert(occurs_at(a, m, i));
        } else if i >= a.len() {
            assert(ab.subrange(i, i + m.len()) =~= b.subrange(i - a.len(), i - a.len() + m.len()));
            assert(occurs_at(b, m, i - a.len()));
        } else {
            let k = a.len() - 1 - i;
            assert(ab.subrange(i, i + m.len())[k] == ab[a.len() - 1]);
            assert(ab.subrange(i, i + m.len())[k + 1] == ab[a.len() as int]);
            assert(m[k] == a.last());
            assert(m[k + 1] == b[0]);
            assert(m.contains(a.last()));
            assert(m.contains(b[0]));
        }
    }
}

/// A text that starts with a character other than white space is its own
/// start-trimmed form, whatever follows.
pub proof fn lemma_trim_start_solid(a: Seq<char>, b: Seq<char>)
    requires
        a.len() > 0,
        !is_space(a[0]),
    ensures
        trim_start(a + b) == a + b,
{
    assert((a + b)[0] == a[0]);
}

/// Trimming the end of `a + b` trims only `b` when `b` has a character
/// other than white space.
pub proof fn lemma_trim_end_append(a: Seq<char>, b: Seq<char>)
    requires
        trim_end(b).len() > 0,
    ensures
        trim_end(a + b) == a + trim_end(b),
    decreases b.len(),
{
    assert(b.len() > 0);
    assert((a + b).last() == b.last());
    if is_space(b.last()) {
        assert((a + b).drop_last() =~= a + b.drop_last());
        lemma_trim_end_append(a, b.drop_last());
    }
}

/// The start-trimmed text keeps the last character when anything is left.
pub proof fn lemma_trim_start_last(m: Seq<char>)
    requires
        trim_start(m).len() > 0,
    ensures
        trim_start(m).last() == m.last(),
        trim_start(m).len() <= m.len(),
    decreases m.len(),
{
    if m.len() > 0 && is_space(m[0]) {
        lemma_trim_start_last(m.drop_first());
    }
}

/// Dropping the last character commutes with trimming the start, when
/// something other than white space is left.
pub proof fn lemma_trim_start_drop_last(m: Seq<char>)
    requires
        trim_start(m).len() > 0,
    ensures
        trim_start(m.drop_last()) == trim_start(m).drop_last(),
    decreases m.len(),
{
    if m.len() > 0 && is_space(m[0]) {
        let d = m.drop_first();
        lemma_trim_start_last(d);
        if d.len() == 1 {
            assert(m.drop_last() =~= seq![m[0]]);
            assert(seq![m[0]].drop_first() =~= Seq::<char>::empty());
            assert(trim_start(seq![m[0]]) == trim_start(Seq::<char>::empty()));
            assert(trim_start(m).drop_last() =~= Seq::<char>::empty());
        } else {
            lemma_trim_start_drop_last(d);
            assert(m.drop_last().drop_first() =~= d.drop_last());
            assert(m.drop_last()[0] == m[0]);
        }
    } else {
        if m.len() > 1 {
            assert(m.drop_last()[0] == m[0]);
        }
    }
}

/// Trimming the end first does not change how the text trims.
pub proof fn lemma_trim_end_first(m: Seq<char>)
    requires
        trim_start(m).len() > 0,
    ensures
        trim_end(trim_start(trim_end(m))) == trim(m),
    decreases m.len(),
{
    lemma_trim_start_last(m);
    if is_space(m.last()) {
        lemma_trim_start_drop_last(m);
        let t = trim_start(m);
        assert(t.len() >= 2) by {
            assert(!is_space(t[0])) by {
                lemma_trim_start_solid_first(m);
            }
        }
        assert(trim_start(m.drop_last()).len() > 0);
        lemma_trim_end_first(m.drop_last());
    }
}

/// The first character left by trimming the start is not white space.
pub proof fn lemma_trim_start_solid_first(m: Seq<char>)
    requires
        trim_start(m).len() > 0,
    ensures
        !is_space(trim_start(m)[0]),
    decreases m.len(),
{
    if m.len() > 0 && is_space(m[0]) {
        lemma_trim_start_solid_first(m.drop_first());
    }
}

/// Something is left of a trimmed text only if something is left of its
/// start-trimmed form.
pub proof fn lemma_trim_nonempty(m: Seq<char>)
    requires
        trim(m).len() > 0,
    ensures
        trim_start(m).len() > 0,
        trim_end(m).len() > 0,
{
    if trim_start(m).len() == 0 {
        assert(trim_end(trim_start(m)) == trim_start(m));
    }
    lemma_trim_end_first(m);
    if trim_end(m).len() == 0 {
        assert(trim_start(trim_end(m)) == trim_end(m));
        assert(trim_end(trim_start(trim_end(m))) == trim_start(trim_end(m)));
    }
}

/// A carriage return before a line break does not change a trimmed line.
pub proof fn lemma_trim_strip_cr(n: Seq<char>)
    requires
        trim(n).len() > 0,
    ensures
        trim(strip_cr(n)) == trim(n),
{
    lemma_trim_nonempty(n);
    if n.len() > 0 && n.last() == '\r' {
        lemma_trim_start_last(n);
        lemma_trim_start_drop_last(n);
    }
}

/// A piece without line breaks joins the line being read.
pub proof fn lemma_lines_no_break(a: Seq<char>, b: Seq<char>, cur: Seq<char>)
    requires
        !a.contains('\n'),
    ensures
        lines_from(a + b, cur) == lines_from(b, cur + a),
    decreases a.len(),
{
    if a.len() == 0 {
        assert(a + b =~= b);
        assert(cur + a =~= cur);
    } else {
        assert((a + b)[0] == a[0]);
        assert(a[0] != '\n') by {
            if a[0] == '\n' {
                assert(a.contains(a[0]));
            }
        }
        assert((a + b).drop_first() =~= a.drop_first() + b);
        assert forall|i: int| 0 <= i < a.drop_first().len() implies a.drop_first()[i] != '\n' by {
            assert(a.drop_first()[i] == a[i + 1]);
            if a[i + 1] == '\n' {
                assert(a.contains(a[i + 1]));
            }
        }
        lemma_lines_no_break(a.drop_first(), b, cur.push(a[0]));
        assert(cur.push(a[0]) + a.drop_first() =~= cur + a);
    }
}

/// The lines of a text that ends with a line break, followed by more text,
/// are its own lines followed by those of the rest.
pub proof fn lemma_lines_append(a: Seq<char>, b: Seq<char>, cur: Seq<char>)
    requires
        a.len() > 0,
        a.last() == '\n',
    ensures
        lines_from(a + b, cur) == lines_from(a, cur) + lines(b),
    decreases a.len(),
{
    assert((a + b)[0] == a[0]);
    assert((a + b).drop_first() =~= a.drop_first() + b);
    if a[0] == '\n' {
        if a.len() == 1 {
            assert(a.drop_first() + b =~= b);
            assert(lines_from(a.drop_first(), Seq::empty()) == Seq::<Seq<char>>::empty());
            assert(seq![strip_cr(cur)] + Seq::<Seq<char>>::empty() =~= seq![strip_cr(cur)]);
        } else {
            lemma_lines_append(a.drop_first(), b, Seq::empty());
            assert(seq![strip_cr(cur)] + (lines_from(a.drop_first(), Seq::empty()) + lines(b))
                =~= seq![strip_cr(cur)] + lines_from(a.drop_first(), Seq::empty()) + lines(b));
        }
    } else {
        assert(a.len() > 1);
        lemma_lines_append(a.drop_first(), b, cur.push(a[0]));
    }
}

/// Trimming the end keeps a prefix.
pub proof fn lemma_trim_end_prefix(s: Seq<char>)
    ensures
        trim_end(s).len() <= s.len(),
        trim_end(s) == s.take(trim_end(s).len() as int),
    decreases s.len(),
{
    if s.len() > 0 && is_space(s.last()) {
        lemma_trim_end_prefix(s.drop_last());
        assert(s.drop_last().take(trim_end(s).len() as int) =~= s.take(trim_end(s).len() as int));
    } else {
        assert(s.take(s.len() as int) =~= s);
    }
}

} // verus!
