//! Arguments for, and answers from, the language-model command.
use vstd::prelude::*;

use crate::text::{
    chars_of, ends_with_char, is_blank, join, join_chars, lines, opt_view, split_lines, strs,
    to_string, trim, trim_chars, views,
};
use crate::text::{lemma_lines_append, lemma_lines_no_break, lines_from, strip_cr};

verus! {

/// The arguments of one call of the language-model command: the agent, the
/// time-out in seconds, the model when one is selected, and the message.
pub open spec fn agent_args_spec(
    agent: Seq<char>,
    timeout: Seq<char>,
    model: Option<Seq<char>>,
    message: Seq<char>,
) -> Seq<Seq<char>> {
    seq!["agent"@, "--agent"@, agent, "--timeout"@, timeout] + match model {
        Some(m) => seq!["--model"@, m],
        None => Seq::empty(),
    } + seq!["--message"@, message]
}

/// Builds the arguments of a call of the language-model command.
pub fn agent_args(agent: &str, timeout: &str, model: Option<String>, message: String) -> (r: Vec<
    String,
>)
    ensures
        strs(r@) == agent_args_spec(agent@, timeout@, opt_view(model), message@),
{
    let mut r: Vec<String> = Vec::new();
    r.push("agent".to_owned());
    r.push("--agent".to_owned());
    r.push(agent.to_owned());
    r.push("--timeout".to_owned());
    r.push(timeout.to_owned());
    match model {
        Some(m) => {
            r.push("--model".to_owned());
            r.push(m);
        },
        None => {},
    }
    r.push("--message".to_owned());
    r.push(message);
    assert(strs(r@) =~= agent_args_spec(agent@, timeout@, opt_view(model), message@));
    r
}

/// The arguments of a classification or enrichment call: the `main` agent,
/// two minutes, no model choice.
pub open spec fn main_agent_args(message: Seq<char>) -> Seq<Seq<char>> {
    agent_args_spec("main"@, "120"@, None, message)
}

/// Builds the arguments of a classification or enrichment call.
pub fn main_args(message: String) -> (r: Vec<String>)
    ensures
        strs(r@) == main_agent_args(message@),
{
    agent_args("main", "120", None, message)
}

/// The answer of the command: its standard output when it succeeded and the
/// output is not blank.
pub open spec fn accepted_output(success: bool, stdout: Seq<char>) -> Option<Seq<char>> {
    if success && trim(stdout).len() > 0 {
        Some(stdout)
    } else {
        None
    }
}

/// Accepts the output of the language-model command, given whether it
/// exited successfully and its standard output.
pub fn accept_output(success: bool, stdout: String) -> (r: Option<String>)
    ensures
        opt_view(r) == accepted_output(success, stdout@),
{
    if !success {
        return None;
    }
    let v = chars_of(stdout.as_str());
    if is_blank(v.as_slice()) {
        return None;
    }
    Some(stdout)
}

/// Whether `serde_json` parses the text as a JSON value.
pub uninterp spec fn json_parses(text: Seq<char>) -> bool;

/// `serde_json::from_str::<serde_json::Value>` succeeds on the text.
#[verifier::external_body]
fn is_json(text: &str) -> (r: bool)
    ensures
        r == json_parses(text@),
{
    serde_json::from_str::<serde_json::Value>(text).is_ok()
}

/// Scans lines for a JSON object: from the first line whose trimmed text
/// starts with `{`, lines are collected, and after each collected line
/// whose trimmed text ends with `}` the collection so far, joined with
/// newlines, is returned if it parses.
pub open spec fn scan_json(ls: Seq<Seq<char>>, started: bool, acc: Seq<Seq<char>>) -> Option<
    Seq<char>,
>
    decreases ls.len(),
{
    if ls.len() == 0 {
        None
    } else {
        let t = trim(ls[0]);
        if started || (t.len() > 0 && t[0] == '{') {
            let acc2 = acc.push(ls[0]);
            if ends_with_char(t, '}') && json_parses(join(acc2, "\n"@)) {
                Some(join(acc2, "\n"@))
            } else {
                scan_json(ls.drop_first(), true, acc2)
            }
        } else {
            scan_json(ls.drop_first(), false, acc)
        }
    }
}

/// The JSON text in a model's answer: the whole answer, trimmed, if it
/// parses; else the first block of lines found by [`scan_json`].
pub open spec fn extract_json_spec(raw: Seq<char>) -> Option<Seq<char>> {
    if json_parses(trim(raw)) {
        Some(trim(raw))
    } else {
        scan_json(lines(raw), false, Seq::empty())
    }
}

/// Finds the JSON text in a model's answer, which may wrap it in prose or
/// Markdown fences.
pub fn extract_json(raw: &str) -> (r: Option<String>)
    ensures
        opt_view(r) == extract_json_spec(raw@),
{
    let trimmed = to_string(&trim_chars(chars_of(raw).as_slice()));
    if is_json(trimmed.as_str()) {
        return Some(trimmed);
    }
    let ls = split_lines(chars_of(raw).as_slice());
    let ghost all = views(ls@);
    let mut started = false;
    let mut acc: Vec<Vec<char>> = Vec::new();
    assert(all.skip(0) =~= all);
    assert(views(acc@) =~= Seq::<Seq<char>>::empty());
    for i in 0..ls.len()
        invariant
            all == views(ls@),
            all == lines(raw@),
            !json_parses(trim(raw@)),
            scan_json(all, false, Seq::empty()) == scan_json(all.skip(i as int), started, views(acc@)),
    {
        assert(all.skip(i as int).drop_first() =~= all.skip(i + 1));
        assert(all.skip(i as int)[0] == ls@[i as int]@);
        let t = trim_chars(ls[i].as_slice());
        if started || (t.len() > 0 && t[0] == '{') {
            started = true;
            let line = crate::text::slice_copy(ls[i].as_slice());
            proof {
                crate::text::lemma_views_push(acc@, line);
            }
            acc.push(line);
            if t.len() > 0 && t[t.len() - 1] == '}' {
                let candidate = join_chars(acc.as_slice(), acc.len(), "\n");
                assert(views(acc@).take(acc@.len() as int) =~= views(acc@));
                if is_json(candidate.as_str()) {
                    return Some(candidate);
                }
            }
        }
    }
    None
}

} // verus!

verus! {

/// Whatever the line scan finds parses as JSON.
pub proof fn lemma_scan_json_parses(ls: Seq<Seq<char>>, started: bool, acc: Seq<Seq<char>>)
    ensures
        scan_json(ls, started, acc) matches Some(t) ==> json_parses(t),
    decreases ls.len(),
{
    if ls.len() > 0 {
        let t = trim(ls[0]);
        if started || (t.len() > 0 && t[0] == '{') {
            lemma_scan_json_parses(ls.drop_first(), true, acc.push(ls[0]));
        } else {
            lemma_scan_json_parses(ls.drop_first(), false, acc);
        }
    }
}

/// The JSON text taken from a model's answer always parses as JSON.
pub proof fn law_extracted_json_parses(raw: Seq<char>)
    ensures
        extract_json_spec(raw) matches Some(t) ==> json_parses(t),
{
    lemma_scan_json_parses(lines(raw), false, Seq::empty());
}

/// An answer that is JSON apart from surrounding white space is taken
/// whole.
pub proof fn law_plain_json_taken_whole(raw: Seq<char>)
    requires
        json_parses(trim(raw)),
    ensures
        extract_json_spec(raw) == Some(trim(raw)),
{
}

/// A trimmed line that opens a JSON object: it starts with `{`.
pub open spec fn opens_object(line: Seq<char>) -> bool {
    trim(line).len() > 0 && trim(line)[0] == '{'
}

/// Lines that open no object are passed over by the scan.
pub proof fn lemma_scan_skips(a: Seq<Seq<char>>, b: Seq<Seq<char>>)
    requires
        forall|i: int| 0 <= i < a.len() ==> !opens_object(#[trigger] a[i]),
    ensures
        scan_json(a + b, false, Seq::empty()) == scan_json(b, false, Seq::empty()),
    decreases a.len(),
{
    if a.len() > 0 {
        assert((a + b)[0] == a[0]);
        assert(!opens_object(a[0]));
        assert((a + b).drop_first() =~= a.drop_first() + b);
        assert forall|i: int| 0 <= i < a.drop_first().len() implies !opens_object(
            #[trigger] a.drop_first()[i],
        ) by {
            assert(a.drop_first()[i] == a[i + 1]);
        }
        lemma_scan_json_parses(b, false, Seq::empty());
        lemma_scan_skips(a.drop_first(), b);
    } else {
        assert(a + b =~= b);
    }
}

/// When the whole answer is not JSON, the first line that opens an object,
/// ends with `}` and is JSON by itself is what is taken, whatever lines
/// come before it (none of which opens an object) or after it.
pub proof fn law_first_object_line_taken(pre: Seq<char>, line: Seq<char>, post: Seq<char>)
    requires
        pre.len() == 0 || pre.last() == '\n',
        !line.contains('\n'),
        line.len() > 0 && line.last() != '\r',
        post.len() == 0 || post[0] == '\n',
        opens_object(line),
        ends_with_char(trim(line), '}'),
        json_parses(line),
        forall|i: int| 0 <= i < lines(pre).len() ==> !opens_object(#[trigger] lines(pre)[i]),
        !json_parses(trim(pre + line + post)),
    ensures
        extract_json_spec(pre + line + post) == Some(line),
{
    let raw = pre + line + post;
    lemma_lines_no_break(line, post, Seq::empty());
    assert(Seq::<char>::empty() + line =~= line);
    let after = if post.len() == 0 {
        Seq::<Seq<char>>::empty()
    } else {
        lines(post.drop_first())
    };
    assert(strip_cr(line) == line);
    assert(lines(line + post) =~= seq![line] + after);
    if pre.len() == 0 {
        assert(raw =~= line + post);
        assert(lines(pre) == Seq::<Seq<char>>::empty());
        assert(lines(raw) =~= lines(pre) + (seq![line] + after));
    } else {
        assert(raw =~= pre + (line + post));
        lemma_lines_append(pre, line + post, Seq::empty());
    }
    lemma_scan_skips(lines(pre), seq![line] + after);
    let acc = Seq::<Seq<char>>::empty().push(line);
    assert(acc =~= seq![line]);
    assert(join(acc, "\n"@) == line);
    assert((seq![line] + after)[0] == line);
}

} // verus!
