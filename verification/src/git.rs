//! Decisions around git and the GitHub command line.
use vstd::prelude::*;
use vstd::slice::slice_subrange;

use crate::text::{
    chars_of, copy_str, has_prefix, lines, opt_view, split_lines, starts_with_chars, str_equal,
    string_from_chars, strs, to_string, trim, trim_str, views,
};

verus! {

/// The name under which a repository is looked up: the project's name,
/// when the project is `existing` or `new`.
pub open spec fn repo_lookup_spec(project_name: Option<Seq<char>>, project_kind: Seq<char>) -> Option<
    Seq<char>,
> {
    match project_name {
        Some(n) => if project_kind == "existing"@ || project_kind == "new"@ {
            Some(n)
        } else {
            None
        },
        None => None,
    }
}

/// The name to look a repository up by, if any.
pub fn repo_lookup_name(project_name: Option<&str>, project_kind: &str) -> (r: Option<String>)
    ensures
        opt_view(r) == repo_lookup_spec(crate::report::opt_str_view(project_name), project_kind@),
{
    match project_name {
        Some(n) => if str_equal(project_kind, "existing") || str_equal(project_kind, "new") {
            Some(copy_str(n))
        } else {
            None
        },
        None => None,
    }
}

/// The default branch: the branch `origin/HEAD` points to, without the
/// `origin/` prefix, when git says; else `main` when it exists, else
/// `master`.
pub open spec fn default_branch_spec(symbolic_ref: Option<Seq<char>>, has_main: bool) -> Seq<char> {
    match symbolic_ref {
        Some(out) => {
            let b = trim(out);
            if has_prefix(b, "origin/"@) {
                b.skip("origin/"@.len() as int)
            } else {
                b
            }
        },
        None => if has_main {
            "main"@
        } else {
            "master"@
        },
    }
}

/// The default branch from the output of `git symbolic-ref
/// refs/remotes/origin/HEAD --short` (when it succeeded) and whether a
/// `main` branch exists.
pub fn default_branch(symbolic_ref: Option<String>, has_main: bool) -> (r: String)
    ensures
        r@ == default_branch_spec(opt_view(symbolic_ref), has_main),
{
    match symbolic_ref {
        Some(out) => {
            let b = trim_str(out.as_str());
            let origin = chars_of("origin/");
            if starts_with_chars(b.as_slice(), origin.as_slice()) {
                let r = string_from_chars(slice_subrange(b.as_slice(), origin.len(), b.len()));
                assert(b@.subrange(origin@.len() as int, b@.len() as int) =~= b@.skip(
                    origin@.len() as int,
                ));
                r
            } else {
                to_string(&b)
            }
        },
        None => if has_main {
            copy_str("main")
        } else {
            copy_str("master")
        },
    }
}

/// The lines that are not empty.
pub open spec fn nonempty_lines(ls: Seq<Seq<char>>) -> Seq<Seq<char>>
    decreases ls.len(),
{
    if ls.len() == 0 {
        Seq::empty()
    } else if ls.last().len() == 0 {
        nonempty_lines(ls.drop_last())
    } else {
        nonempty_lines(ls.drop_last()).push(ls.last())
    }
}

/// The untracked files listed by `git ls-files --others
/// --exclude-standard`: its non-empty output lines.
pub fn untracked_files(stdout: &str) -> (r: Vec<String>)
    ensures
        strs(r@) == nonempty_lines(lines(stdout@)),
{
    let ls = split_lines(chars_of(stdout).as_slice());
    let ghost all = views(ls@);
    let mut out: Vec<String> = Vec::new();
    assert(all.take(0) =~= Seq::<Seq<char>>::empty());
    assert(strs(out@) =~= Seq::<Seq<char>>::empty());
    for i in 0..ls.len()
        invariant
            all == views(ls@),
            strs(out@) == nonempty_lines(all.take(i as int)),
    {
        assert(all.take(i + 1).drop_last() =~= all.take(i as int));
        assert(all[i as int] == ls@[i as int]@);
        if ls[i].len() > 0 {
            let s = to_string(&ls[i]);
            proof {
                crate::text::lemma_strs_push(out@, s);
            }
            out.push(s);
        }
    }
    assert(all.take(ls@.len() as int) =~= all);
    out
}

/// What became of `gh pr create`: the pull request's URL (its trimmed
/// output), and whether the URL looks like one (starts with `http`), in
/// which case the request gets the `agent-generated` label.
pub fn pull_request_url(stdout: &str) -> (r: (String, bool))
    ensures
        r.0@ == trim(stdout@),
        r.1 == has_prefix(trim(stdout@), "http"@),
{
    let u = trim_str(stdout);
    let http = chars_of("http");
    let recognized = starts_with_chars(u.as_slice(), http.as_slice());
    (to_string(&u), recognized)
}

} // verus!
