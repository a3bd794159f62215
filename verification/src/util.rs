//! File-name rules and text helpers of the inbox and log handling.
use chrono::Datelike;
use vstd::prelude::*;
use vstd::slice::slice_subrange;

use crate::text::{
    chars_equal, chars_of, copy_str, decimal, join, join_chars, lemma_lex_antisym, lemma_lex_refl,
    lemma_lex_total, lemma_lex_trans, lex_le, lex_le_chars, lines, opt_view, push_decimal,
    split_lines, string_from_chars, strs,
};

verus! {

/// The first `n` lines of a text, joined with newlines.
pub open spec fn first_lines_spec(content: Seq<char>, n: nat) -> Seq<char> {
    let ls = lines(content);
    join(ls.take(if n < ls.len() { n as int } else { ls.len() as int }), "\n"@)
}

/// The first `n` lines of a text (what `read_first_n_lines` keeps of a
/// file).
pub fn first_n_lines(content: &str, n: usize) -> (r: String)
    ensures
        r@ == first_lines_spec(content@, n as nat),
{
    let ls = split_lines(chars_of(content).as_slice());
    join_chars(ls.as_slice(), n, "\n")
}

/// The index of the last occurrence of `c` in `s`.
pub open spec fn last_index_of(s: Seq<char>, c: char) -> Option<int>
    decreases s.len(),
{
    if s.len() == 0 {
        None
    } else if s.last() == c {
        Some(s.len() - 1)
    } else {
        last_index_of(s.drop_last(), c)
    }
}

/// The last occurrence is within the text.
pub proof fn lemma_last_index_of(s: Seq<char>, c: char)
    ensures
        match last_index_of(s, c) {
            Some(i) => 0 <= i < s.len() && s[i] == c,
            None => true,
        },
    decreases s.len(),
{
    if s.len() > 0 && s.last() != c {
        lemma_last_index_of(s.drop_last(), c);
    }
}

/// `Path::file_stem` and `Path::extension` of a file name: split at the
/// last `.`, unless that is the first character or the name is `..`.
pub open spec fn split_extension(name: Seq<char>) -> (Seq<char>, Option<Seq<char>>) {
    if name == ".."@ {
        (name, None)
    } else {
        match last_index_of(name, '.') {
            None => (name, None),
            Some(i) => if i == 0 {
                (name, None)
            } else {
                (name.take(i), Some(name.skip(i + 1)))
            },
        }
    }
}

fn last_dot(s: &[char]) -> (r: Option<usize>)
    ensures
        match r {
            Some(i) => last_index_of(s@, '.') == Some(i as int),
            None => last_index_of(s@, '.') is None,
        },
{
    let mut j: usize = s.len();
    assert(s@.take(j as int) =~= s@);
    while j > 0
        invariant
            j <= s@.len(),
            last_index_of(s@, '.') == last_index_of(s@.take(j as int), '.'),
        decreases j,
    {
        if s[j - 1] == '.' {
            return Some(j - 1);
        }
        assert(s@.take(j as int).drop_last() =~= s@.take(j - 1));
        j = j - 1;
    }
    None
}

/// The stem and the extension of a file name.
pub fn file_stem_and_extension(name: &str) -> (r: (String, Option<String>))
    ensures
        r.0@ == split_extension(name@).0,
        opt_view(r.1) == split_extension(name@).1,
{
    let v = chars_of(name);
    let dots = chars_of("..");
    if chars_equal(v.as_slice(), dots.as_slice()) {
        return (copy_str(name), None);
    }
    match last_dot(v.as_slice()) {
        None => (copy_str(name), None),
        Some(i) => {
            if i == 0 {
                (copy_str(name), None)
            } else {
                proof {
                    lemma_last_index_of(v@, '.');
                }
                let stem = string_from_chars(slice_subrange(v.as_slice(), 0, i));
                let ext = string_from_chars(slice_subrange(v.as_slice(), i + 1, v.len()));
                assert(v@.subrange(0, i as int) =~= v@.take(i as int));
                assert(v@.subrange(i + 1, v@.len() as int) =~= v@.skip(i + 1));
                (stem, Some(ext))
            }
        },
    }
}

/// The file is a Markdown item: its extension is `md`.
pub open spec fn is_markdown(name: Seq<char>) -> bool {
    split_extension(name).1 == Some("md"@)
}

/// Whether a file name has the extension `md`.
pub fn is_markdown_name(name: &str) -> (r: bool)
    ensures
        r == is_markdown(name@),
{
    let (_, ext) = file_stem_and_extension(name);
    match ext {
        Some(e) => crate::text::str_equal(e.as_str(), "md"),
        None => false,
    }
}

/// `n` is the first Markdown file, in the order of names.
pub open spec fn first_markdown(names: Seq<Seq<char>>, n: Seq<char>) -> bool {
    &&& names.contains(n)
    &&& is_markdown(n)
    &&& forall|m: Seq<char>| names.contains(m) && is_markdown(m) ==> lex_le(n, m)
}

/// The inbox item to process next, among the names of the regular files in
/// the inbox: the first Markdown file in the order of names.
pub open spec fn next_inbox_item(names: Seq<Seq<char>>) -> Option<Seq<char>> {
    if exists|m: Seq<char>| names.contains(m) && is_markdown(m) {
        Some(choose|n: Seq<char>| first_markdown(names, n))
    } else {
        None
    }
}

/// Picks the next inbox item from the names of the regular files in the
/// inbox.
pub fn first_inbox_item(file_names: &Vec<String>) -> (r: Option<String>)
    ensures
        opt_view(r) == next_inbox_item(strs(file_names@)),
{
    let ghost names = strs(file_names@);
    let mut best: Option<usize> = None;
    for i in 0..file_names.len()
        invariant
            names == strs(file_names@),
            match best {
                Some(b) => {
                    &&& b < i
                    &&& is_markdown(names[b as int])
                    &&& forall|k: int|
                        0 <= k < i && is_markdown(names[k]) ==> lex_le(names[b as int], names[k])
                },
                None => forall|k: int| 0 <= k < i ==> !is_markdown(names[k]),
            },
    {
        assert(names[i as int] == file_names@[i as int]@);
        if is_markdown_name(file_names[i].as_str()) {
            match best {
                Some(b) => {
                    let vb = chars_of(file_names[b].as_str());
                    let vi = chars_of(file_names[i].as_str());
                    if !lex_le_chars(vb.as_slice(), vi.as_slice()) {
                        proof {
                            lemma_lex_total(names[b as int], names[i as int]);
                            assert forall|k: int|
                                0 <= k < i + 1 && is_markdown(names[k]) implies lex_le(
                                    names[i as int],
                                    names[k],
                                ) by {
                                if k < i {
                                    lemma_lex_trans(names[i as int], names[b as int], names[k]);
                                } else {
                                    lemma_lex_refl(names[k]);
                                }
                            }
                        }
                        best = Some(i);
                    }
                },
                None => {
                    proof {
                        lemma_lex_refl(names[i as int]);
                    }
                    best = Some(i);
                },
            }
        }
    }
    match best {
        Some(b) => {
            let ghost n = names[b as int];
            proof {
                assert(first_markdown(names, n)) by {
                    assert(names.contains(n));
                    assert forall|m: Seq<char>|
                        names.contains(m) && is_markdown(m) implies lex_le(n, m) by {
                        let k = choose|k: int| 0 <= k < names.len() && names[k] == m;
                    }
                }
                let c = choose|x: Seq<char>| first_markdown(names, x);
                assert(first_markdown(names, c));
                lemma_lex_antisym(c, n);
            }
            Some(file_names[b].clone())
        },
        None => {
            assert(!exists|m: Seq<char>| names.contains(m) && is_markdown(m));
            None
        },
    }
}

/// A calendar date as year, month and day.
pub type Ymd = (i32, u32, u32);

/// The date that chrono's `NaiveDate::parse_from_str(s, "%Y-%m-%d")`
/// reads from `s`, as year, month and day.
pub uninterp spec fn parsed_date(s: Seq<char>) -> Option<Ymd>;

/// Parses a log file's stem as a `%Y-%m-%d` date.
#[verifier::external_body]
fn parse_log_date(stem: &str) -> (r: Option<Ymd>)
    ensures
        r == parsed_date(stem@),
{
    match chrono::NaiveDate::parse_from_str(stem, "%Y-%m-%d") {
        Ok(d) => Some((d.year(), d.month(), d.day())),
        Err(_) => None,
    }
}

/// `a` is an earlier date than `b`.
pub open spec fn date_before(a: Ymd, b: Ymd) -> bool {
    a.0 < b.0 || (a.0 == b.0 && (a.1 < b.1 || (a.1 == b.1 && a.2 < b.2)))
}

/// A log file is removed when it is a Markdown file whose stem is a date
/// before the cut-off date.
pub open spec fn rotates(name: Seq<char>, cutoff: Ymd) -> bool {
    is_markdown(name) && match parsed_date(split_extension(name).0) {
        Some(d) => date_before(d, cutoff),
        None => false,
    }
}

/// Whether the log file called `file_name` is older than the cut-off date
/// and is to be removed.
pub fn should_rotate_log(file_name: &str, cutoff: Ymd) -> (r: bool)
    ensures
        r == rotates(file_name@, cutoff),
{
    if !is_markdown_name(file_name) {
        return false;
    }
    let (stem, _) = file_stem_and_extension(file_name);
    match parse_log_date(stem.as_str()) {
        Some(d) => d.0 < cutoff.0 || (d.0 == cutoff.0 && (d.1 < cutoff.1 || (d.1 == cutoff.1
            && d.2 < cutoff.2))),
        None => false,
    }
}

/// The date `days` days before `date`, as chrono's checked arithmetic
/// computes `date - TimeDelta::days(days)`: `None` when `date` is not a
/// calendar date, and exactly where that unchecked expression panics (a day
/// count or a resulting date out of chrono's range).
pub uninterp spec fn date_minus_days(date: Ymd, days: i64) -> Option<Ymd>;

/// `NaiveDate::checked_sub_signed(TimeDelta::try_days(days))` on a calendar
/// date.
#[verifier::external_body]
fn sub_days(date: Ymd, days: i64) -> (r: Option<Ymd>)
    ensures
        r == date_minus_days(date, days),
{
    let d = chrono::NaiveDate::from_ymd_opt(date.0, date.1, date.2)?;
    let delta = chrono::TimeDelta::try_days(days)?;
    let c = d.checked_sub_signed(delta)?;
    Some((c.year(), c.month(), c.day()))
}

/// The cut-off date of log rotation: `retention_days` days before `today`,
/// the count taken as a signed 64-bit day count; `None` where that date is
/// out of range.
pub fn rotation_cutoff(today: Ymd, retention_days: u64) -> (r: Option<Ymd>)
    ensures
        r == date_minus_days(today, retention_days as i64),
{
    sub_days(today, retention_days as i64)
}

/// The log files among `names` that rotate at the cut-off date, in order.
pub open spec fn rotated_logs(names: Seq<Seq<char>>, cutoff: Ymd) -> Seq<Seq<char>>
    decreases names.len(),
{
    if names.len() == 0 {
        Seq::empty()
    } else if rotates(names.last(), cutoff) {
        rotated_logs(names.drop_last(), cutoff).push(names.last())
    } else {
        rotated_logs(names.drop_last(), cutoff)
    }
}

/// The log files to remove, in the order given.
pub fn logs_to_rotate(file_names: &Vec<String>, cutoff: Ymd) -> (r: Vec<String>)
    ensures
        strs(r@) == rotated_logs(strs(file_names@), cutoff),
{
    let mut out: Vec<String> = Vec::new();
    for i in 0..file_names.len()
        invariant
            strs(out@) == rotated_logs(strs(file_names@.take(i as int)), cutoff),
    {
        let ghost pre = strs(file_names@.take(i as int));
        let ghost next = strs(file_names@.take(i + 1));
        assert(next.drop_last() =~= pre);
        assert(next.last() == file_names@[i as int]@);
        if should_rotate_log(file_names[i].as_str(), cutoff) {
            let name = file_names[i].clone();
            proof {
                crate::text::lemma_strs_push(out@, name);
            }
            out.push(name);
        }
    }
    assert(file_names@.take(file_names@.len() as int) =~= file_names@);
    out
}

/// The log file of a day.
pub fn log_file_name(today: &str) -> (r: String)
    ensures
        r@ == today@ + ".md"@,
{
    let mut n = copy_str(today);
    n.append(".md");
    n
}

/// One line of the daily log: time, source item, report, destination and
/// status.
pub fn log_line(timestamp: &str, source: &str, report_name: &str, dest: &str, status: &str) -> (r:
    String)
    ensures
        r@ == "["@ + timestamp@ + "] "@ + source@ + " -> "@ + report_name@ + " -> "@ + dest@
            + " ["@ + status@ + "]\n"@,
{
    let mut l = copy_str("[");
    l.append(timestamp);
    l.append("] ");
    l.append(source);
    l.append(" -> ");
    l.append(report_name);
    l.append(" -> ");
    l.append(dest);
    l.append(" [");
    l.append(status);
    l.append("]\n");
    l
}

/// The temporary file an atomic write goes through, named after the
/// process.
pub fn temp_file_name(pid: u32) -> (r: String)
    ensures
        r@ == ".tmp-"@ + decimal(pid as nat),
{
    let mut n = copy_str(".tmp-");
    push_decimal(&mut n, pid as usize);
    n
}

} // verus!
