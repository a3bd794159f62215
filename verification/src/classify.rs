//! Project routing and action-type classification of an inbox item.
//!
//! Both classifications try deterministic rules first and ask the language
//! model only when no rule applies.  Each is a function from the item's text
//! and the observations gathered so far to the next question for the caller
//! (check a directory, list the projects, check for the model command, ask
//! the model) or to the final answer.
use vstd::prelude::*;
use vstd::slice::{slice_subrange, slice_to_vec};

use crate::llm::{main_agent_args, main_args};
use crate::text::{
    alphanumeric, chars_of, contains_chars, contains_seq, copy_str, ends_with_char, find_chars,
    find_from, has_prefix, is_alphanumeric, join, join_strings, lemma_lex_antisym, lemma_lex_refl,
    lemma_lex_total, lemma_lex_trans, lex_le, lex_le_chars, lines, lowercase, opt_view,
    starts_with_chars, str_lines, strs, to_lowercase, to_string, trim, trim_chars, views,
};
use crate::text::{
    lemma_lines_no_break, lemma_trim_end_prefix, occurs_at, lemma_trim_end_append, lemma_trim_end_first, lemma_trim_nonempty,
    lemma_trim_start_solid, lemma_trim_strip_cr, strip_cr, trim_end,
};
use crate::types::{ProjectInfo, ProjectInfoView};

verus! {

/// Prefix of an explicit project line.
pub const PROJECT_LINE: &'static str = "Project:";

/// Lower-case prefix of an explicit project line.
pub const PROJECT_LINE_LOWER: &'static str = "project:";

/// Marker of a project tag.
pub const PROJECT_TAG: &'static str = "#project/";

/// Opening of the project-classification prompt, up to the project list.
pub const PROJECT_PROMPT_HEAD: &'static str =
    "You are a strict JSON API. Classify the following task into a project.\n\nReturn ONLY a JSON object:\n{\"project\": {\"kind\": \"existing\"|\"new\"|\"none\", \"name\": \"string or null\"}, \"confidence\": 0.0, \"rationale\": \"string\"}\n\nExisting projects: ";

/// Rules of the project-classification prompt, up to the task text.
pub const PROJECT_PROMPT_RULES: &'static str =
    "\n\nRules:\n- kind=existing if the task clearly belongs to one of the existing projects.\n- kind=new if the task requires a new project that doesn't exist yet. Provide a kebab-case name.\n- kind=none if it's personal admin, a question, or doesn't warrant a project.\n- Output MUST be valid JSON. Nothing else.\n\nTask:\n";

/// The action-type classification prompt, up to the task text.
pub const ACTION_PROMPT_HEAD: &'static str =
    "You are a strict JSON API. Classify the action type for the following task.\n\nReturn ONLY a JSON object:\n{\"action_type\": \"repo-change\"|\"research\"|\"ops\"|\"question\"|\"note\", \"confidence\": 0.0, \"rationale\": \"...\", \"suggested_repo\": \"string or null\"}\n\nRules:\n- repo-change: task requires code changes, PRs, or modifications to a repository\n- research: task requires investigation, comparison, or summarization\n- ops: task requires infrastructure, tooling, or system administration\n- question: task is asking a question that needs an answer\n- note: everything else (personal admin, reminders, etc.)\n- Output MUST be valid JSON. Nothing else.\n\nTask:\n";

// ---------------------------------------------------------------------------
// Project routing: the deterministic rules
// ---------------------------------------------------------------------------

/// The view of an optional character vector.
pub open spec fn opt_chars(o: Option<Vec<char>>) -> Option<Seq<char>> {
    match o {
        Some(v) => Some(v@),
        None => None,
    }
}

/// Rule 1 on one line: `Project: <name>` (or `project:`), trimmed, with a
/// name that is not blank.
pub open spec fn explicit_name(line: Seq<char>) -> Option<Seq<char>> {
    let t = trim(line);
    let rest = if has_prefix(t, PROJECT_LINE@) {
        Some(t.skip(PROJECT_LINE@.len() as int))
    } else if has_prefix(t, PROJECT_LINE_LOWER@) {
        Some(t.skip(PROJECT_LINE_LOWER@.len() as int))
    } else {
        None
    };
    match rest {
        Some(r) => if trim(r).len() > 0 {
            Some(trim(r))
        } else {
            None
        },
        None => None,
    }
}

/// The name given by the first line that has an explicit project name.
pub open spec fn first_explicit(ls: Seq<Seq<char>>) -> Option<Seq<char>>
    decreases ls.len(),
{
    if ls.len() == 0 {
        None
    } else if explicit_name(ls[0]) is Some {
        explicit_name(ls[0])
    } else {
        first_explicit(ls.drop_first())
    }
}

/// A character that may occur in a tagged project name.
pub open spec fn name_char(c: char) -> bool {
    alphanumeric(c) || c == '-' || c == '_'
}

/// The length of the longest prefix of `s` made of name characters.
pub open spec fn name_prefix_len(s: Seq<char>) -> nat
    decreases s.len(),
{
    if s.len() > 0 && name_char(s[0]) {
        1 + name_prefix_len(s.drop_first())
    } else {
        0
    }
}

/// The name prefix is no longer than the text.
pub proof fn lemma_name_prefix_len(s: Seq<char>)
    ensures
        name_prefix_len(s) <= s.len(),
    decreases s.len(),
{
    if s.len() > 0 && name_char(s[0]) {
        lemma_name_prefix_len(s.drop_first());
    }
}

/// Rule 2 on one line: the name characters right after the first
/// `#project/` of the line, if there are any.
pub open spec fn tag_name(line: Seq<char>) -> Option<Seq<char>> {
    match find_from(line, PROJECT_TAG@, 0) {
        Some(p) => {
            let rest = line.skip(p + PROJECT_TAG@.len());
            let n = rest.take(name_prefix_len(rest) as int);
            if n.len() > 0 {
                Some(n)
            } else {
                None
            }
        },
        None => None,
    }
}

/// The name given by the first line that has a project tag with a name.
pub open spec fn first_tag(ls: Seq<Seq<char>>) -> Option<Seq<char>>
    decreases ls.len(),
{
    if ls.len() == 0 {
        None
    } else if tag_name(ls[0]) is Some {
        tag_name(ls[0])
    } else {
        first_tag(ls.drop_first())
    }
}

/// The project named in the text, with the rule that found it: an explicit
/// line anywhere in the text wins over a tag.
pub open spec fn project_hint_spec(task: Seq<char>) -> Option<(Seq<char>, Seq<char>)> {
    match first_explicit(lines(task)) {
        Some(n) => Some((n, "explicit-line"@)),
        None => match first_tag(lines(task)) {
            Some(n) => Some((n, "tag"@)),
            None => None,
        },
    }
}

/// Rule 3: the project folder `name` is mentioned in the text, ignoring case.
pub open spec fn folder_matches(task: Seq<char>, name: Seq<char>) -> bool {
    contains_seq(lowercase(task), lowercase(name))
}

/// `n` is the first folder, in the order of names, that the text mentions.
pub open spec fn least_match(task: Seq<char>, dirs: Seq<Seq<char>>, n: Seq<char>) -> bool {
    &&& dirs.contains(n)
    &&& folder_matches(task, n)
    &&& forall|m: Seq<char>| dirs.contains(m) && folder_matches(task, m) ==> lex_le(n, m)
}

/// The first project folder, in the order of names, that the text mentions.
pub open spec fn folder_match(task: Seq<char>, dirs: Seq<Seq<char>>) -> Option<Seq<char>> {
    if exists|m: Seq<char>| dirs.contains(m) && folder_matches(task, m) {
        Some(choose|n: Seq<char>| least_match(task, dirs, n))
    } else {
        None
    }
}

/// A project named in the text and the rule (`explicit-line` or `tag`)
/// that found it.
pub struct ProjectHint {
    pub name: String,
    pub method: String,
}

fn explicit_name_in(line: &[char]) -> (r: Option<Vec<char>>)
    ensures
        opt_chars(r) == explicit_name(line@),
{
    let t = trim_chars(line);
    let upper = chars_of(PROJECT_LINE);
    let lower = chars_of(PROJECT_LINE_LOWER);
    let rest = if starts_with_chars(t.as_slice(), upper.as_slice()) {
        slice_subrange(t.as_slice(), upper.len(), t.len())
    } else if starts_with_chars(t.as_slice(), lower.as_slice()) {
        slice_subrange(t.as_slice(), lower.len(), t.len())
    } else {
        return None;
    };
    assert(rest@ == t@.skip(if has_prefix(t@, PROJECT_LINE@) {
        PROJECT_LINE@.len() as int
    } else {
        PROJECT_LINE_LOWER@.len() as int
    }));
    let name = trim_chars(rest);
    if name.len() > 0 {
        Some(name)
    } else {
        None
    }
}

fn tag_name_in(line: &[char]) -> (r: Option<Vec<char>>)
    ensures
        opt_chars(r) == tag_name(line@),
{
    let tag = chars_of(PROJECT_TAG);
    match find_chars(line, tag.as_slice()) {
        Some(p) => {
            proof {
                crate::text::lemma_find_from(line@, tag@, 0);
                assert(crate::text::occurs_at(line@, tag@, p as int));
            }
            let ll = line.len();
            assert(p + tag@.len() <= ll);
            let rest = slice_subrange(line, p + tag.len(), ll);
            assert(rest@ == line@.skip(p + PROJECT_TAG@.len()));
            let mut j: usize = 0;
            assert(rest@.skip(0) =~= rest@);
            while j < rest.len() && (is_alphanumeric(rest[j]) || rest[j] == '-' || rest[j] == '_')
                invariant
                    j <= rest@.len(),
                    name_prefix_len(rest@) == j + name_prefix_len(rest@.skip(j as int)),
                decreases rest@.len() - j,
            {
                assert(rest@.skip(j as int).drop_first() =~= rest@.skip(j + 1));
                j = j + 1;
            }
            let name = slice_to_vec(slice_subrange(rest, 0, j));
            assert(name@ =~= rest@.take(j as int));
            if name.len() > 0 {
                Some(name)
            } else {
                None
            }
        },
        None => None,
    }
}

/// The project named in the text: the first line of the form
/// `Project: <name>`, or else the first line with a `#project/<name>` tag.
pub fn project_hint(task_content: &str) -> (r: Option<ProjectHint>)
    ensures
        match r {
            Some(h) => project_hint_spec(task_content@) == Some((h.name@, h.method@)),
            None => project_hint_spec(task_content@) is None,
        },
{
    let ls = str_lines(task_content);
    let ghost all = views(ls@);
    assert(all.skip(0) =~= all);
    for i in 0..ls.len()
        invariant
            all == views(ls@),
            all == lines(task_content@),
            first_explicit(all) == first_explicit(all.skip(i as int)),
    {
        assert(all.skip(i as int).drop_first() =~= all.skip(i + 1));
        assert(all.skip(i as int)[0] == ls@[i as int]@);
        if let Some(name) = explicit_name_in(ls[i].as_slice()) {
            return Some(ProjectHint { name: to_string(&name), method: copy_str("explicit-line") });
        }
    }
    assert(all.skip(ls@.len() as int) =~= Seq::<Seq<char>>::empty());
    assert(all.skip(0) =~= all);
    for i in 0..ls.len()
        invariant
            all == views(ls@),
            all == lines(task_content@),
            first_explicit(all) is None,
            first_tag(all) == first_tag(all.skip(i as int)),
    {
        assert(all.skip(i as int).drop_first() =~= all.skip(i + 1));
        assert(all.skip(i as int)[0] == ls@[i as int]@);
        if let Some(name) = tag_name_in(ls[i].as_slice()) {
            return Some(ProjectHint { name: to_string(&name), method: copy_str("tag") });
        }
    }
    assert(all.skip(ls@.len() as int) =~= Seq::<Seq<char>>::empty());
    None
}

/// The first project folder, in the order of names, whose name occurs in
/// the text, ignoring case.
pub fn match_project_folder(task_content: &str, dirs: &Vec<String>) -> (r: Option<String>)
    ensures
        opt_view(r) == folder_match(task_content@, strs(dirs@)),
{
    let ghost names = strs(dirs@);
    let task_lower = chars_of(to_lowercase(task_content).as_str());
    let mut best: Option<usize> = None;
    for i in 0..dirs.len()
        invariant
            names == strs(dirs@),
            task_lower@ == lowercase(task_content@),
            match best {
                Some(b) => {
                    &&& b < i
                    &&& folder_matches(task_content@, names[b as int])
                    &&& forall|k: int|
                        0 <= k < i && folder_matches(task_content@, names[k]) ==> lex_le(
                            names[b as int],
                            names[k],
                        )
                },
                None => forall|k: int| 0 <= k < i ==> !folder_matches(task_content@, names[k]),
            },
    {
        let name_lower = chars_of(to_lowercase(dirs[i].as_str()).as_str());
        assert(names[i as int] == dirs@[i as int]@);
        if contains_chars(task_lower.as_slice(), name_lower.as_slice()) {
            match best {
                Some(b) => {
                    let vb = chars_of(dirs[b].as_str());
                    let vi = chars_of(dirs[i].as_str());
                    if !lex_le_chars(vb.as_slice(), vi.as_slice()) {
                        proof {
                            lemma_lex_total(names[b as int], names[i as int]);
                            assert forall|k: int|
                                0 <= k < i + 1 && folder_matches(
                                    task_content@,
                                    names[k],
                                ) implies lex_le(names[i as int], names[k]) by {
                                if k < i {
                                    lemma_lex_trans(names[i as int], names[b as int], names[k]);
                                } else {
                                    lemma_lex_refl(names[k]);
                                }
                            }
                        }
                        best = Some(i);
                    } else {
                        assert(forall|k: int|
                            0 <= k < i + 1 && folder_matches(task_content@, names[k]) ==> lex_le(
                                names[b as int],
                                names[k],
                            ));
                    }
                },
                None => {
                    proof {
                        lemma_lex_refl(names[i as int]);
                    }
                    best = Some(i);
                },
            }
        }
    }
    match best {
        Some(b) => {
            let ghost n = names[b as int];
            proof {
                assert(least_match(task_content@, names, n)) by {
                    assert(names.contains(n));
                    assert forall|m: Seq<char>|
                        names.contains(m) && folder_matches(task_content@, m) implies lex_le(
                            n,
                            m,
                        ) by {
                        let k = choose|k: int| 0 <= k < names.len() && names[k] == m;
                    }
                }
                let c = choose|x: Seq<char>| least_match(task_content@, names, x);
                assert(least_match(task_content@, names, c));
                lemma_lex_antisym(c, n);
            }
            Some(dirs[b].clone())
        },
        None => {
            assert(!exists|m: Seq<char>| names.contains(m) && folder_matches(task_content@, m));
            None
        },
    }
}

// ---------------------------------------------------------------------------
// Project routing: the decision
// ---------------------------------------------------------------------------

/// The prompt that asks the model to classify the task into a project,
/// given the entries of the projects directory.
pub open spec fn project_prompt_spec(entries: Seq<Seq<char>>, task: Seq<char>) -> Seq<char> {
    PROJECT_PROMPT_HEAD@ + join(entries, ", "@) + PROJECT_PROMPT_RULES@ + task
}

/// Builds the project-classification prompt.
pub fn project_prompt(entries: &Vec<String>, task_content: &str) -> (r: String)
    ensures
        r@ == project_prompt_spec(strs(entries@), task_content@),
{
    let mut p = copy_str(PROJECT_PROMPT_HEAD);
    let listed = join_strings(entries, ", ");
    p.append(listed.as_str());
    p.append(PROJECT_PROMPT_RULES);
    p.append(task_content);
    p
}

/// How an item was routed to a project: the kind (`existing`, `new` or
/// `none`), the project name, and the rule that decided (`explicit-line`,
/// `tag`, `folder-match`, `ai` or `default`).
#[derive(Debug)]
pub struct ProjectRouting {
    pub kind: String,
    pub name: Option<String>,
    pub method: String,
}

/// The mathematical value of a [`ProjectRouting`].
pub struct RoutingView {
    pub kind: Seq<char>,
    pub name: Option<Seq<char>>,
    pub method: Seq<char>,
}

impl View for ProjectRouting {
    type V = RoutingView;

    open spec fn view(&self) -> RoutingView {
        RoutingView { kind: self.kind@, name: opt_view(self.name), method: self.method@ }
    }
}

/// The subdirectories of the projects directory (`dirs`), and all of its
/// entries (`entries`); both empty when the directory cannot be read.
pub struct ProjectListing {
    pub dirs: Vec<String>,
    pub entries: Vec<String>,
}

/// What the caller has found out so far for a project classification.
pub struct ProjectObservations {
    /// Whether `<projects>/<name>` is a directory, for the name in the text.
    pub named_dir_exists: Option<bool>,
    /// The listing of the projects directory.
    pub listing: Option<ProjectListing>,
    /// Whether the language-model command can be found.
    pub llm_available: Option<bool>,
    /// The model's answer: `Some(None)` when the call failed or its answer
    /// was not a valid classification.
    pub llm_answer: Option<Option<ProjectInfo>>,
}

/// The mathematical value of a [`ProjectObservations`].
pub struct ProjectObsView {
    pub named_dir_exists: Option<bool>,
    pub listing: Option<(Seq<Seq<char>>, Seq<Seq<char>>)>,
    pub llm_available: Option<bool>,
    pub llm_answer: Option<Option<ProjectInfoView>>,
}

impl View for ProjectObservations {
    type V = ProjectObsView;

    open spec fn view(&self) -> ProjectObsView {
        ProjectObsView {
            named_dir_exists: self.named_dir_exists,
            listing: match self.listing {
                Some(l) => Some((strs(l.dirs@), strs(l.entries@))),
                None => None,
            },
            llm_available: self.llm_available,
            llm_answer: match self.llm_answer {
                Some(Some(i)) => Some(Some(i@)),
                Some(None) => Some(None),
                None => None,
            },
        }
    }
}

/// The next thing a project classification needs, or its result.
pub enum ProjectStep {
    /// Check whether `<projects>/<name>` is a directory.
    CheckDir(String),
    /// List the projects directory.
    ListProjects,
    /// Check whether the language-model command exists.
    CheckLlm,
    /// Run the language-model command with these arguments.
    AskLlm(Vec<String>),
    /// The classification is decided.
    Done(ProjectRouting),
}

/// The mathematical value of a [`ProjectStep`].
pub enum ProjectPlan {
    CheckDir(Seq<char>),
    ListProjects,
    CheckLlm,
    AskLlm(Seq<Seq<char>>),
    Done(RoutingView),
}

impl View for ProjectStep {
    type V = ProjectPlan;

    open spec fn view(&self) -> ProjectPlan {
        match self {
            ProjectStep::CheckDir(n) => ProjectPlan::CheckDir(n@),
            ProjectStep::ListProjects => ProjectPlan::ListProjects,
            ProjectStep::CheckLlm => ProjectPlan::CheckLlm,
            ProjectStep::AskLlm(a) => ProjectPlan::AskLlm(strs(a@)),
            ProjectStep::Done(r) => ProjectPlan::Done(r@),
        }
    }
}

/// The routing when no rule and no model decides.
pub open spec fn default_routing() -> RoutingView {
    RoutingView { kind: "none"@, name: None, method: "default"@ }
}

/// Project routing: an explicit `Project:` line, then a `#project/` tag
/// (kind `existing` when the named directory exists, else `new`), then the
/// first project folder mentioned in the text, then the model's answer,
/// else kind `none`.
pub open spec fn project_plan(task: Seq<char>, obs: ProjectObsView) -> ProjectPlan {
    match project_hint_spec(task) {
        Some((name, method)) => match obs.named_dir_exists {
            None => ProjectPlan::CheckDir(name),
            Some(is_dir) => ProjectPlan::Done(
                RoutingView {
                    kind: if is_dir {
                        "existing"@
                    } else {
                        "new"@
                    },
                    name: Some(name),
                    method,
                },
            ),
        },
        None => match obs.listing {
            None => ProjectPlan::ListProjects,
            Some((dirs, entries)) => match folder_match(task, dirs) {
                Some(n) => ProjectPlan::Done(
                    RoutingView { kind: "existing"@, name: Some(n), method: "folder-match"@ },
                ),
                None => match obs.llm_available {
                    None => ProjectPlan::CheckLlm,
                    Some(false) => ProjectPlan::Done(default_routing()),
                    Some(true) => match obs.llm_answer {
                        None => ProjectPlan::AskLlm(
                            main_agent_args(project_prompt_spec(entries, task)),
                        ),
                        Some(None) => ProjectPlan::Done(default_routing()),
                        Some(Some(info)) => ProjectPlan::Done(
                            RoutingView { kind: info.kind, name: info.name, method: "ai"@ },
                        ),
                    },
                },
            },
        },
    }
}

fn default_project_routing() -> (r: ProjectRouting)
    ensures
        r@ == default_routing(),
{
    ProjectRouting { kind: copy_str("none"), name: None, method: copy_str("default") }
}

/// Classifies the item into a project, or says what to find out next.
pub fn classify_project(task_content: &str, obs: &ProjectObservations) -> (r: ProjectStep)
    ensures
        r@ == project_plan(task_content@, obs@),
{
    match project_hint(task_content) {
        Some(hint) => match obs.named_dir_exists {
            None => ProjectStep::CheckDir(hint.name),
            Some(is_dir) => {
                let kind = if is_dir {
                    copy_str("existing")
                } else {
                    copy_str("new")
                };
                ProjectStep::Done(ProjectRouting { kind, name: Some(hint.name), method: hint.method })
            },
        },
        None => match &obs.listing {
            None => ProjectStep::ListProjects,
            Some(listing) => match match_project_folder(task_content, &listing.dirs) {
                Some(n) => ProjectStep::Done(
                    ProjectRouting {
                        kind: copy_str("existing"),
                        name: Some(n),
                        method: copy_str("folder-match"),
                    },
                ),
                None => match obs.llm_available {
                    None => ProjectStep::CheckLlm,
                    Some(false) => ProjectStep::Done(default_project_routing()),
                    Some(true) => match &obs.llm_answer {
                        None => {
                            let prompt = project_prompt(&listing.entries, task_content);
                            ProjectStep::AskLlm(main_args(prompt))
                        },
                        Some(None) => ProjectStep::Done(default_project_routing()),
                        Some(Some(info)) => ProjectStep::Done(
                            ProjectRouting {
                                kind: info.kind.clone(),
                                name: crate::text::copy_opt(&info.name),
                                method: copy_str("ai"),
                            },
                        ),
                    },
                },
            },
        },
    }
}

// ---------------------------------------------------------------------------
// Action type
// ---------------------------------------------------------------------------

/// `str::contains`, the test the keyword rules use.
pub fn contains_word(haystack: &str, needle: &str) -> (r: bool)
    ensures
        r == contains_seq(haystack@, needle@),
{
    crate::text::str_contains(haystack, needle)
}

/// Keywords of repository changes.
pub open spec fn repo_keywords() -> Seq<Seq<char>> {
    seq!["fix"@, "implement"@, "add flag"@, "refactor"@, "pr"@]
}

/// Keywords of research.
pub open spec fn research_keywords() -> Seq<Seq<char>> {
    seq!["compare"@, "research"@, "find out"@, "summarize"@]
}

/// Keywords of operations work.
pub open spec fn ops_keywords() -> Seq<Seq<char>> {
    seq!["install"@, "brew"@, "launchctl"@, "tailscale"@]
}

/// Some keyword occurs in the text.
pub open spec fn mentions_any(text: Seq<char>, keywords: Seq<Seq<char>>) -> bool {
    exists|i: int| 0 <= i < keywords.len() && contains_seq(text, #[trigger] keywords[i])
}

/// Some line of the text ends with a question mark once trimmed.
pub open spec fn asks_question(task: Seq<char>) -> bool {
    exists|i: int| 0 <= i < lines(task).len() && ends_with_char(trim(#[trigger] lines(task)[i]), '?')
}

/// The action type the keyword rules give, checked in order on the
/// lower-cased text: repository change, research, operations; then a
/// question when a line ends with `?`.
pub open spec fn keyword_action_type(task: Seq<char>) -> Option<Seq<char>> {
    let lower = lowercase(task);
    if mentions_any(lower, repo_keywords()) {
        Some("repo-change"@)
    } else if mentions_any(lower, research_keywords()) {
        Some("research"@)
    } else if mentions_any(lower, ops_keywords()) {
        Some("ops"@)
    } else if asks_question(task) {
        Some("question"@)
    } else {
        None
    }
}

/// The action types there are.
pub open spec fn valid_action_type(t: Seq<char>) -> bool {
    t == "repo-change"@ || t == "research"@ || t == "ops"@ || t == "question"@ || t == "note"@
}

/// The prompt that asks the model for the action type.
pub open spec fn action_prompt_spec(task: Seq<char>) -> Seq<char> {
    ACTION_PROMPT_HEAD@ + task
}

/// What the caller has found out so far for an action-type classification.
pub struct ActionObservations {
    /// Whether the language-model command can be found.
    pub llm_available: Option<bool>,
    /// The `action_type` of the model's answer: `Some(None)` when the call
    /// failed or its answer was not a valid classification.
    pub llm_answer: Option<Option<String>>,
}

/// The mathematical value of an [`ActionObservations`].
pub struct ActionObsView {
    pub llm_available: Option<bool>,
    pub llm_answer: Option<Option<Seq<char>>>,
}

impl View for ActionObservations {
    type V = ActionObsView;

    open spec fn view(&self) -> ActionObsView {
        ActionObsView {
            llm_available: self.llm_available,
            llm_answer: match self.llm_answer {
                Some(Some(a)) => Some(Some(a@)),
                Some(None) => Some(None),
                None => None,
            },
        }
    }
}

/// An action type and the rule that decided it (`keyword`, `ai` or
/// `default`).
#[derive(Debug)]
pub struct ActionTyping {
    pub action_type: String,
    pub method: String,
}

/// The next thing an action-type classification needs, or its result.
pub enum ActionStep {
    /// Check whether the language-model command exists.
    CheckLlm,
    /// Run the language-model command with these arguments.
    AskLlm(Vec<String>),
    /// The classification is decided.
    Done(ActionTyping),
}

/// The mathematical value of an [`ActionStep`].
pub enum ActionPlan {
    CheckLlm,
    AskLlm(Seq<Seq<char>>),
    Done(Seq<char>, Seq<char>),
}

impl View for ActionStep {
    type V = ActionPlan;

    open spec fn view(&self) -> ActionPlan {
        match self {
            ActionStep::CheckLlm => ActionPlan::CheckLlm,
            ActionStep::AskLlm(a) => ActionPlan::AskLlm(strs(a@)),
            ActionStep::Done(t) => ActionPlan::Done(t.action_type@, t.method@),
        }
    }
}

/// Action type: the keyword rules, then the model's answer when it names
/// one of the action types, else `note`.
pub open spec fn action_plan(task: Seq<char>, obs: ActionObsView) -> ActionPlan {
    match keyword_action_type(task) {
        Some(t) => ActionPlan::Done(t, "keyword"@),
        None => match obs.llm_available {
            None => ActionPlan::CheckLlm,
            Some(false) => ActionPlan::Done("note"@, "default"@),
            Some(true) => match obs.llm_answer {
                None => ActionPlan::AskLlm(main_agent_args(action_prompt_spec(task))),
                Some(Some(t)) => if valid_action_type(t) {
                    ActionPlan::Done(t, "ai"@)
                } else {
                    ActionPlan::Done("note"@, "default"@)
                },
                Some(None) => ActionPlan::Done("note"@, "default"@),
            },
        },
    }
}

fn mentions_any_of(text: &[char], keywords: &Vec<String>) -> (r: bool)
    ensures
        r == mentions_any(text@, strs(keywords@)),
{
    let ghost ks = strs(keywords@);
    for i in 0..keywords.len()
        invariant
            ks == strs(keywords@),
            forall|j: int| 0 <= j < i ==> !contains_seq(text@, #[trigger] ks[j]),
    {
        let k = chars_of(keywords[i].as_str());
        assert(ks[i as int] == keywords@[i as int]@);
        if contains_chars(text, k.as_slice()) {
            return true;
        }
    }
    false
}

fn keyword_list(words: &[&str]) -> (r: Vec<String>)
    ensures
        r@.len() == words@.len(),
        forall|i: int| 0 <= i < words@.len() ==> #[trigger] r@[i]@ == words@[i]@,
{
    let mut r: Vec<String> = Vec::new();
    for i in 0..words.len()
        invariant
            r@.len() == i,
            forall|j: int| 0 <= j < i ==> #[trigger] r@[j]@ == words@[j]@,
    {
        r.push(copy_str(words[i]));
    }
    r
}

fn asks_question_in(task_content: &str) -> (r: bool)
    ensures
        r == asks_question(task_content@),
{
    let ls = str_lines(task_content);
    let ghost all = views(ls@);
    for i in 0..ls.len()
        invariant
            all == views(ls@),
            all == lines(task_content@),
            forall|j: int| 0 <= j < i ==> !ends_with_char(trim(#[trigger] all[j]), '?'),
    {
        let t = trim_chars(ls[i].as_slice());
        assert(all[i as int] == ls@[i as int]@);
        if t.len() > 0 && t[t.len() - 1] == '?' {
            return true;
        }
    }
    false
}

/// The action type that the keyword rules give, if any.
pub fn keyword_action(task_content: &str) -> (r: Option<String>)
    ensures
        opt_view(r) == keyword_action_type(task_content@),
{
    let lower = chars_of(to_lowercase(task_content).as_str());
    let repo = keyword_list(&["fix", "implement", "add flag", "refactor", "pr"]);
    assert(strs(repo@) =~= repo_keywords());
    if mentions_any_of(lower.as_slice(), &repo) {
        return Some(copy_str("repo-change"));
    }
    let research = keyword_list(&["compare", "research", "find out", "summarize"]);
    assert(strs(research@) =~= research_keywords());
    if mentions_any_of(lower.as_slice(), &research) {
        return Some(copy_str("research"));
    }
    let ops = keyword_list(&["install", "brew", "launchctl", "tailscale"]);
    assert(strs(ops@) =~= ops_keywords());
    if mentions_any_of(lower.as_slice(), &ops) {
        return Some(copy_str("ops"));
    }
    if asks_question_in(task_content) {
        return Some(copy_str("question"));
    }
    None
}

/// Whether `t` is one of the action types.
pub fn is_valid_action_type(t: &str) -> (r: bool)
    ensures
        r == valid_action_type(t@),
{
    crate::text::str_equal(t, "repo-change") || crate::text::str_equal(t, "research")
        || crate::text::str_equal(t, "ops") || crate::text::str_equal(t, "question")
        || crate::text::str_equal(t, "note")
}

fn typing(action_type: &str, method: &str) -> (r: ActionTyping)
    ensures
        r.action_type@ == action_type@,
        r.method@ == method@,
{
    ActionTyping { action_type: copy_str(action_type), method: copy_str(method) }
}

/// Classifies the item's action type, or says what to find out next.
pub fn classify_action_type(task_content: &str, obs: &ActionObservations) -> (r: ActionStep)
    ensures
        r@ == action_plan(task_content@, obs@),
{
    match keyword_action(task_content) {
        Some(t) => ActionStep::Done(ActionTyping { action_type: t, method: copy_str("keyword") }),
        None => match obs.llm_available {
            None => ActionStep::CheckLlm,
            Some(false) => ActionStep::Done(typing("note", "default")),
            Some(true) => match &obs.llm_answer {
                None => {
                    let mut prompt = copy_str(ACTION_PROMPT_HEAD);
                    prompt.append(task_content);
                    ActionStep::AskLlm(main_args(prompt))
                },
                Some(Some(t)) => if is_valid_action_type(t.as_str()) {
                    ActionStep::Done(typing(t.as_str(), "ai"))
                } else {
                    ActionStep::Done(typing("note", "default"))
                },
                Some(None) => ActionStep::Done(typing("note", "default")),
            },
        },
    }
}

} // verus!

verus! {

// ---------------------------------------------------------------------------
// Laws
// ---------------------------------------------------------------------------

/// When the text names a project or mentions a project folder, the model is
/// never consulted for the project: the deterministic rules decide.
pub proof fn law_project_rules_before_model(task: Seq<char>, obs: ProjectObsView)
    requires
        project_hint_spec(task) is Some || (obs.listing matches Some((dirs, _)) && folder_match(
            task,
            dirs,
        ) is Some),
    ensures
        !(project_plan(task, obs) is CheckLlm),
        !(project_plan(task, obs) is AskLlm),
        project_plan(task, obs) matches ProjectPlan::Done(r) ==> r.method != "ai"@,
{
    reveal_strlit("ai");
    reveal_strlit("explicit-line");
    reveal_strlit("tag");
    reveal_strlit("folder-match");
    assert("ai"@.len() == 2);
    assert("ai"@ != "tag"@);
    assert("ai"@ != "explicit-line"@);
    assert("ai"@ != "folder-match"@);
    match project_hint_spec(task) {
        Some((name, method)) => {
            assert(method == "explicit-line"@ || method == "tag"@);
        },
        None => {},
    }
}

/// A project routing decided without the model has kind `existing`, `new`
/// or `none`.
pub proof fn law_project_kind(task: Seq<char>, obs: ProjectObsView)
    ensures
        project_plan(task, obs) matches ProjectPlan::Done(r) ==> (r.method != "ai"@ ==> (r.kind
            == "existing"@ || r.kind == "new"@ || r.kind == "none"@)),
{
}

/// Each step of a project classification asks for something the caller
/// has not observed yet, so a caller that records each answer reaches a
/// decision after at most four steps.
pub proof fn law_project_steps_progress(task: Seq<char>, obs: ProjectObsView)
    ensures
        project_plan(task, obs) is CheckDir ==> obs.named_dir_exists is None,
        project_plan(task, obs) is ListProjects ==> obs.listing is None,
        project_plan(task, obs) is CheckLlm ==> obs.llm_available is None,
        project_plan(task, obs) is AskLlm ==> obs.llm_answer is None,
{
}

/// When a keyword rule applies, the action type is decided by it whatever
/// the model would say.
pub proof fn law_action_rules_before_model(task: Seq<char>, obs: ActionObsView)
    requires
        keyword_action_type(task) is Some,
    ensures
        action_plan(task, obs) == ActionPlan::Done(keyword_action_type(task).unwrap(), "keyword"@),
{
}

/// Every decided action type is one of `repo-change`, `research`, `ops`,
/// `question` and `note`, whatever the model answers.
pub proof fn law_action_type_valid(task: Seq<char>, obs: ActionObsView)
    ensures
        action_plan(task, obs) matches ActionPlan::Done(t, _) ==> valid_action_type(t),
{
}

/// Each step of an action-type classification asks for something the
/// caller has not observed yet.
pub proof fn law_action_steps_progress(task: Seq<char>, obs: ActionObsView)
    ensures
        action_plan(task, obs) is CheckLlm ==> obs.llm_available is None,
        action_plan(task, obs) is AskLlm ==> obs.llm_answer is None,
{
}

/// The lower-cased text mentions a repository-change keyword.
pub open spec fn says_repo_change(task: Seq<char>) -> bool {
    let l = lowercase(task);
    contains_seq(l, "fix"@) || contains_seq(l, "implement"@) || contains_seq(l, "add flag"@)
        || contains_seq(l, "refactor"@) || contains_seq(l, "pr"@)
}

/// The lower-cased text mentions a research keyword.
pub open spec fn says_research(task: Seq<char>) -> bool {
    let l = lowercase(task);
    contains_seq(l, "compare"@) || contains_seq(l, "research"@) || contains_seq(l, "find out"@)
        || contains_seq(l, "summarize"@)
}

/// The lower-cased text mentions an operations keyword.
pub open spec fn says_ops(task: Seq<char>) -> bool {
    let l = lowercase(task);
    contains_seq(l, "install"@) || contains_seq(l, "brew"@) || contains_seq(l, "launchctl"@)
        || contains_seq(l, "tailscale"@)
}

/// The keyword rules, word by word: any of fix, implement, add flag,
/// refactor and pr (in the lower-cased text) makes a repository change;
/// else any of compare, research, find out and summarize makes research;
/// else any of install, brew, launchctl and tailscale makes operations;
/// else a line ending with `?` once trimmed makes a question; else no rule
/// applies.
pub proof fn law_keyword_words(task: Seq<char>)
    ensures
        says_repo_change(task) ==> keyword_action_type(task) == Some("repo-change"@),
        !says_repo_change(task) && says_research(task) ==> keyword_action_type(task) == Some(
            "research"@,
        ),
        !says_repo_change(task) && !says_research(task) && says_ops(task) ==> keyword_action_type(
            task,
        ) == Some("ops"@),
        !says_repo_change(task) && !says_research(task) && !says_ops(task) && (exists|i: int|
            0 <= i < lines(task).len() && ends_with_char(trim(#[trigger] lines(task)[i]), '?'))
            ==> keyword_action_type(task) == Some("question"@),
        !says_repo_change(task) && !says_research(task) && !says_ops(task) && !(exists|i: int|
            0 <= i < lines(task).len() && ends_with_char(trim(#[trigger] lines(task)[i]), '?'))
            ==> keyword_action_type(task) is None,
{
    let l = lowercase(task);
    let rk = repo_keywords();
    let sk = research_keywords();
    let ok = ops_keywords();
    assert(rk[0] == "fix"@ && rk[1] == "implement"@ && rk[2] == "add flag"@ && rk[3] == "refactor"@
        && rk[4] == "pr"@ && rk.len() == 5);
    assert(sk[0] == "compare"@ && sk[1] == "research"@ && sk[2] == "find out"@ && sk[3]
        == "summarize"@ && sk.len() == 4);
    assert(ok[0] == "install"@ && ok[1] == "brew"@ && ok[2] == "launchctl"@ && ok[3]
        == "tailscale"@ && ok.len() == 4);
    assert(mentions_any(l, rk) <==> says_repo_change(task)) by {
        if says_repo_change(task) {
            if contains_seq(l, "fix"@) {
                assert(contains_seq(l, rk[0]));
            } else if contains_seq(l, "implement"@) {
                assert(contains_seq(l, rk[1]));
            } else if contains_seq(l, "add flag"@) {
                assert(contains_seq(l, rk[2]));
            } else if contains_seq(l, "refactor"@) {
                assert(contains_seq(l, rk[3]));
            } else {
                assert(contains_seq(l, rk[4]));
            }
        }
        if mentions_any(l, rk) {
            let i = choose|i: int| 0 <= i < rk.len() && contains_seq(l, #[trigger] rk[i]);
            assert(i == 0 || i == 1 || i == 2 || i == 3 || i == 4);
        }
    }
    assert(mentions_any(l, sk) <==> says_research(task)) by {
        if says_research(task) {
            if contains_seq(l, "compare"@) {
                assert(contains_seq(l, sk[0]));
            } else if contains_seq(l, "research"@) {
                assert(contains_seq(l, sk[1]));
            } else if contains_seq(l, "find out"@) {
                assert(contains_seq(l, sk[2]));
            } else {
                assert(contains_seq(l, sk[3]));
            }
        }
        if mentions_any(l, sk) {
            let i = choose|i: int| 0 <= i < sk.len() && contains_seq(l, #[trigger] sk[i]);
            assert(i == 0 || i == 1 || i == 2 || i == 3);
        }
    }
    assert(mentions_any(l, ok) <==> says_ops(task)) by {
        if says_ops(task) {
            if contains_seq(l, "install"@) {
                assert(contains_seq(l, ok[0]));
            } else if contains_seq(l, "brew"@) {
                assert(contains_seq(l, ok[1]));
            } else if contains_seq(l, "launchctl"@) {
                assert(contains_seq(l, ok[2]));
            } else {
                assert(contains_seq(l, ok[3]));
            }
        }
        if mentions_any(l, ok) {
            let i = choose|i: int| 0 <= i < ok.len() && contains_seq(l, #[trigger] ok[i]);
            assert(i == 0 || i == 1 || i == 2 || i == 3);
        }
    }
}

/// An item whose first line is `Project:` (or `project:`) and a name is
/// routed to that name, trimmed and kept whole (spaces and dots included),
/// whatever follows on later lines.
#[verifier::rlimit(40)]
pub proof fn law_explicit_line_name(label: Seq<char>, name: Seq<char>, rest: Seq<char>)
    requires
        label == "Project:"@ || label == "project:"@,
        !name.contains('\n'),
        trim(name).len() > 0,
        rest.len() == 0 || rest[0] == '\n',
    ensures
        project_hint_spec(label + name + rest) == Some((trim(name), "explicit-line"@)),
{
    reveal_strlit("Project:");
    reveal_strlit("project:");
    let line = label + name;
    assert(!line.contains('\n')) by {
        if line.contains('\n') {
            let i = choose|i: int| 0 <= i < line.len() && line[i] == '\n';
            if i < label.len() {
                assert(label[i] == '\n');
            } else {
                assert(name[i - label.len()] == '\n');
                assert(name.contains(name[i - label.len()]));
            }
        }
    }
    lemma_lines_no_break(line, rest, Seq::empty());
    assert(Seq::<char>::empty() + line =~= line);
    lemma_trim_nonempty(name);
    let m = if rest.len() == 0 {
        name
    } else {
        strip_cr(name)
    };
    let first = label + m;
    if rest.len() == 0 {
        assert(lines(label + name + rest) == seq![line]);
    } else {
        assert(strip_cr(line) =~= label + strip_cr(name));
        assert(lines(label + name + rest)[0] == strip_cr(line));
    }
    assert(lines(label + name + rest)[0] == first);
    assert(lines(label + name + rest).len() > 0);
    lemma_trim_strip_cr(name);
    assert(trim(m) == trim(name));
    lemma_trim_nonempty(m);
    lemma_trim_start_solid(label, m);
    lemma_trim_end_append(label, m);
    let t = trim(first);
    assert(t == label + trim_end(m));
    assert(t.take(8) =~= label);
    let r = t.skip(8);
    assert(r =~= trim_end(m));
    lemma_trim_end_first(m);
    if label == "project:"@ {
        assert(t[0] != "Project:"@[0]);
        assert(!has_prefix(t, PROJECT_LINE@));
    }
    assert(explicit_name(first) == Some(trim(name)));
}

/// The name characters at the start of `name + rest` are exactly `name`
/// when `name` is all letters, digits, `-` and `_`, and `rest` does not go
/// on with one.
pub proof fn lemma_name_prefix_exact(name: Seq<char>, rest: Seq<char>)
    requires
        forall|i: int| 0 <= i < name.len() ==> #[trigger] name_char(name[i]),
        rest.len() == 0 || !name_char(rest[0]),
    ensures
        name_prefix_len(name + rest) == name.len(),
    decreases name.len(),
{
    if name.len() == 0 {
        assert(name + rest =~= rest);
    } else {
        assert((name + rest)[0] == name[0]);
        assert(name_char(name[0]));
        assert((name + rest).drop_first() =~= name.drop_first() + rest);
        assert forall|i: int| 0 <= i < name.drop_first().len() implies #[trigger] name_char(
            name.drop_first()[i],
        ) by {
            assert(name.drop_first()[i] == name[i + 1]);
        }
        lemma_name_prefix_exact(name.drop_first(), rest);
    }
}

/// A one-line item that starts with the tag `#project/<name>` is routed to
/// that name, where the name is the longest run of letters, digits, `-` and
/// `_` after the tag.
#[verifier::rlimit(40)]
pub proof fn law_tag_name(name: Seq<char>, rest: Seq<char>)
    requires
        name.len() > 0,
        forall|i: int|
            0 <= i < name.len() ==> alphanumeric(#[trigger] name[i]) || name[i] == '-' || name[i]
                == '_',
        rest.len() == 0 || !(alphanumeric(rest[0]) || rest[0] == '-' || rest[0] == '_'),
        !name.contains('\n'),
        !rest.contains('\n'),
    ensures
        project_hint_spec("#project/"@ + name + rest) == Some((name, "tag"@)),
{
    reveal_strlit("#project/");
    reveal_strlit("Project:");
    reveal_strlit("project:");
    let tag = "#project/"@;
    let line = tag + name + rest;
    assert forall|i: int| 0 <= i < name.len() implies #[trigger] name_char(name[i]) by {
        assert(alphanumeric(name[i]) || name[i] == '-' || name[i] == '_');
    }
    assert(!line.contains('\n')) by {
        if line.contains('\n') {
            let i = choose|i: int| 0 <= i < line.len() && line[i] == '\n';
            if i < 9 {
                assert(tag[i] == '\n');
            } else if i < 9 + name.len() {
                assert(name[i - 9] == '\n');
                assert(name.contains(name[i - 9]));
            } else {
                assert(rest[i - 9 - name.len()] == '\n');
                assert(rest.contains(rest[i - 9 - name.len()]));
            }
        }
    }
    lemma_lines_no_break(line, Seq::empty(), Seq::empty());
    assert(line + Seq::<char>::empty() =~= line);
    assert(Seq::<char>::empty() + line =~= line);
    assert(lines(line) == seq![line]);
    // No explicit project line: the trimmed line starts with `#`.
    assert(line[0] == '#');
    lemma_trim_start_solid(seq!['#'], line.drop_first());
    assert(seq!['#'] + line.drop_first() =~= line);
    assert(trim(line) == trim_end(line));
    lemma_trim_end_prefix(line);
    if trim(line).len() > 0 {
        assert(trim(line)[0] == line[0]);
    }
    assert(PROJECT_LINE@ == "Project:"@);
    assert(PROJECT_LINE_LOWER@ == "project:"@);
    if has_prefix(trim(line), PROJECT_LINE@) {
        assert(trim(line).take(8)[0] == trim(line)[0]);
        assert("Project:"@[0] == 'P');
    }
    if has_prefix(trim(line), PROJECT_LINE_LOWER@) {
        assert(trim(line).take(8)[0] == trim(line)[0]);
        assert("project:"@[0] == 'p');
    }
    assert(explicit_name(line) is None);
    assert(first_explicit(seq![line]) is None) by {
        assert(seq![line][0] == line);
        assert(seq![line].drop_first() =~= Seq::<Seq<char>>::empty());
        assert(first_explicit(Seq::<Seq<char>>::empty()) is None);
    }
    // The tag is found at the start and the name runs to the end of it.
    assert(line.subrange(0, 9) =~= tag);
    assert(occurs_at(line, tag, 0));
    assert(find_from(line, tag, 0) == Some(0int));
    assert(line.skip(9) =~= name + rest);
    assert(rest.len() == 0 || !name_char(rest[0]));
    lemma_name_prefix_exact(name, rest);
    assert((name + rest).take(name.len() as int) =~= name);
    assert(tag_name(line) == Some(name));
    assert(seq![line][0] == line);
    assert(first_tag(seq![line]) == Some(name));
}

} // verus!
