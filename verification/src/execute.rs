//! Execution handlers by action type: research and question reports,
//! repository changes through a feature branch and a pull request, and
//! operations tasks with a safety screen.
//!
//! Each handler is a function from its inputs and the observations gathered
//! so far to the next outside step (check for the model command, run it,
//! run a git command, open a pull request) or to the handler's outcome.
use vstd::prelude::*;
use vstd::slice::slice_subrange;

use crate::git::{repo_lookup_name, repo_lookup_spec};
use crate::llm::{agent_args, agent_args_spec};
use crate::policy::{PolicyConfig, select_model, select_model_spec};
use crate::report::opt_str_view;
use crate::run::{first_nonblank, first_nonblank_line};
use crate::text::{
    alphanumeric, byte_boundary, byte_boundary_index, byte_prefix, chars_of, contains_chars,
    contains_seq, copy_opt, copy_str, filter_chars, is_alphanumeric, lines, longer_than_bytes,
    lowercase, opt_view, str_equal, string_from_chars, strip_prefixes, strip_prefixes_chars, strs,
    to_lowercase, trim, trim_chars, utf8_len,
};

verus! {

/// The research prompt, up to the task text.
pub const RESEARCH_PROMPT: &'static str =
    "You are a research assistant. Given the task below, produce a structured research report.\n\nFormat your response as markdown with these exact sections:\n## Summary\n(2-3 sentence overview)\n\n## Findings\n(bulleted list of key findings)\n\n## Sources\n(bulleted list \u{2014} use placeholder URLs for now)\n\n## Next Steps\n(bulleted list of recommended follow-up actions)\n\nTask:\n";

/// The question prompt, up to the question text.
pub const QUESTION_PROMPT: &'static str =
    "You are an expert assistant. Given the question below, produce a structured answer.\n\nFormat your response as markdown with these exact sections:\n## Answer\n(clear, direct answer to the question)\n\n## Details\n(supporting explanation with bullet points)\n\n## Sources\n(bulleted list \u{2014} use placeholder URLs for now)\n\n## Follow-up Questions\n(bulleted list of related questions worth exploring)\n\nQuestion:\n";

/// The operations prompt, up to the task text.
pub const OPS_PROMPT: &'static str =
    "Execute the following ops task. Only use safe commands (brew install/upgrade, launchctl load/unload, mkdir, cp, ln, chmod). NEVER use rm -rf, never delete data, never modify SSH keys or credentials.\n\nTask:\n";

// ---------------------------------------------------------------------------
// Outcomes
// ---------------------------------------------------------------------------

/// The JSON record of a handler's execution.
#[derive(Debug)]
pub struct HandlerRecord {
    pub handler: String,
    pub status: String,
    pub reason: Option<String>,
    pub output_file: Option<String>,
    pub branch: Option<String>,
    /// `Some(None)` stands for a `pr_url` field that is null.
    pub pr_url: Option<Option<String>>,
}

/// The mathematical value of a [`HandlerRecord`].
pub struct RecordView {
    pub handler: Seq<char>,
    pub status: Seq<char>,
    pub reason: Option<Seq<char>>,
    pub output_file: Option<Seq<char>>,
    pub branch: Option<Seq<char>>,
    pub pr_url: Option<Option<Seq<char>>>,
}

impl View for HandlerRecord {
    type V = RecordView;

    open spec fn view(&self) -> RecordView {
        RecordView {
            handler: self.handler@,
            status: self.status@,
            reason: opt_view(self.reason),
            output_file: opt_view(self.output_file),
            branch: opt_view(self.branch),
            pr_url: match self.pr_url {
                Some(p) => Some(opt_view(p)),
                None => None,
            },
        }
    }
}

/// What a handler did: its status, its record, the file it produced in
/// the outbox, the pull request it opened, the file to write (name and
/// content) and the git commands to run afterwards (their results do not
/// matter).
#[derive(Debug)]
pub struct HandlerOutcome {
    pub status: String,
    pub record: HandlerRecord,
    pub output_file: Option<String>,
    pub pr_url: Option<String>,
    pub write: Option<(String, String)>,
    pub git_after: Vec<Vec<String>>,
}

/// The views of a list of commands.
pub open spec fn commands(v: Seq<Vec<String>>) -> Seq<Seq<Seq<char>>> {
    v.map_values(|c: Vec<String>| strs(c@))
}

/// The mathematical value of a [`HandlerOutcome`].
pub struct OutcomeView {
    pub status: Seq<char>,
    pub record: RecordView,
    pub output_file: Option<Seq<char>>,
    pub pr_url: Option<Seq<char>>,
    pub write: Option<(Seq<char>, Seq<char>)>,
    pub git_after: Seq<Seq<Seq<char>>>,
}

impl View for HandlerOutcome {
    type V = OutcomeView;

    open spec fn view(&self) -> OutcomeView {
        OutcomeView {
            status: self.status@,
            record: self.record@,
            output_file: opt_view(self.output_file),
            pr_url: opt_view(self.pr_url),
            write: match self.write {
                Some((f, c)) => Some((f@, c@)),
                None => None,
            },
            git_after: commands(self.git_after@),
        }
    }
}

/// A handler that did nothing, for a reason, with the given status.
pub open spec fn plain_outcome(handler: Seq<char>, status: Seq<char>, reason: Seq<char>, git_after: Seq<
    Seq<Seq<char>>,
>) -> OutcomeView {
    OutcomeView {
        status,
        record: RecordView {
            handler,
            status,
            reason: Some(reason),
            output_file: None,
            branch: None,
            pr_url: None,
        },
        output_file: None,
        pr_url: None,
        write: None,
        git_after,
    }
}

fn plain(handler: &str, status: &str, reason: String, git_after: Vec<Vec<String>>) -> (r:
    HandlerOutcome)
    ensures
        r@ == plain_outcome(handler@, status@, reason@, commands(git_after@)),
{
    HandlerOutcome {
        status: copy_str(status),
        record: HandlerRecord {
            handler: copy_str(handler),
            status: copy_str(status),
            reason: Some(reason),
            output_file: None,
            branch: None,
            pr_url: None,
        },
        output_file: None,
        pr_url: None,
        write: None,
        git_after,
    }
}

/// A handler that produced a file.
pub open spec fn file_outcome(handler: Seq<char>, status: Seq<char>, file: Seq<char>, content: Seq<
    char,
>) -> OutcomeView {
    OutcomeView {
        status,
        record: RecordView {
            handler,
            status,
            reason: None,
            output_file: Some(file),
            branch: None,
            pr_url: None,
        },
        output_file: Some(file),
        pr_url: None,
        write: Some((file, content)),
        git_after: Seq::empty(),
    }
}

fn with_file(handler: &str, status: &str, file: String, content: String) -> (r: HandlerOutcome)
    ensures
        r@ == file_outcome(handler@, status@, file@, content@),
{
    let out = HandlerOutcome {
        status: copy_str(status),
        record: HandlerRecord {
            handler: copy_str(handler),
            status: copy_str(status),
            reason: None,
            output_file: Some(file.clone()),
            branch: None,
            pr_url: None,
        },
        output_file: Some(file.clone()),
        pr_url: None,
        write: Some((file, content)),
        git_after: Vec::new(),
    };
    assert(commands(out.git_after@) =~= Seq::<Seq<Seq<char>>>::empty());
    out
}

/// The outbox file of a handler: `<timestamp>-<stem><suffix>`.
pub open spec fn exec_file_spec(timestamp: Seq<char>, stem: Seq<char>, suffix: Seq<char>) -> Seq<char> {
    timestamp + "-"@ + stem + suffix
}

fn exec_file(timestamp: &str, stem: &str, suffix: &str) -> (r: String)
    ensures
        r@ == exec_file_spec(timestamp@, stem@, suffix@),
{
    let mut f = copy_str(timestamp);
    f.append("-");
    f.append(stem);
    f.append(suffix);
    f
}

// ---------------------------------------------------------------------------
// Observations and steps
// ---------------------------------------------------------------------------

/// What the caller has found out so far for a handler.
pub struct ExecObservations {
    /// Whether the language-model command can be found.
    pub llm_available: Option<bool>,
    /// The model's output: `Some(None)` when the call failed or printed
    /// nothing.
    pub llm_output: Option<Option<String>>,
    /// The repository directory found for the project, if any.
    pub repo_dir: Option<Option<String>>,
    /// The repository's default branch.
    pub default_branch: Option<String>,
    /// `git fetch origin` was run.
    pub fetched: bool,
    /// Whether `git checkout <default>` succeeded.
    pub checked_out_default: Option<bool>,
    /// `git pull --ff-only` was run.
    pub pulled: bool,
    /// Whether `git checkout -b <branch>` succeeded.
    pub created_branch: Option<bool>,
    /// Whether `git diff --quiet` succeeded (no unstaged changes).
    pub worktree_clean: Option<bool>,
    /// Whether `git diff --cached --quiet` succeeded (no staged changes).
    pub index_clean: Option<bool>,
    /// Whether there are untracked files.
    pub has_untracked: Option<bool>,
    /// `git add -A` was run.
    pub staged: bool,
    /// Whether `git commit` succeeded.
    pub committed: Option<bool>,
    /// Whether `git push` succeeded.
    pub pushed: Option<bool>,
    /// The URL of the pull request opened, `Some(None)` when none was.
    pub pr_url: Option<Option<String>>,
}

/// The mathematical value of an [`ExecObservations`].
pub struct ExecObsView {
    pub llm_available: Option<bool>,
    pub llm_output: Option<Option<Seq<char>>>,
    pub repo_dir: Option<Option<Seq<char>>>,
    pub default_branch: Option<Seq<char>>,
    pub fetched: bool,
    pub checked_out_default: Option<bool>,
    pub pulled: bool,
    pub created_branch: Option<bool>,
    pub worktree_clean: Option<bool>,
    pub index_clean: Option<bool>,
    pub has_untracked: Option<bool>,
    pub staged: bool,
    pub committed: Option<bool>,
    pub pushed: Option<bool>,
    pub pr_url: Option<Option<Seq<char>>>,
}

/// The view of a twice-optional string.
pub open spec fn opt_opt_view(o: Option<Option<String>>) -> Option<Option<Seq<char>>> {
    match o {
        Some(i) => Some(opt_view(i)),
        None => None,
    }
}

impl View for ExecObservations {
    type V = ExecObsView;

    open spec fn view(&self) -> ExecObsView {
        ExecObsView {
            llm_available: self.llm_available,
            llm_output: opt_opt_view(self.llm_output),
            repo_dir: opt_opt_view(self.repo_dir),
            default_branch: opt_view(self.default_branch),
            fetched: self.fetched,
            checked_out_default: self.checked_out_default,
            pulled: self.pulled,
            created_branch: self.created_branch,
            worktree_clean: self.worktree_clean,
            index_clean: self.index_clean,
            has_untracked: self.has_untracked,
            staged: self.staged,
            committed: self.committed,
            pushed: self.pushed,
            pr_url: opt_opt_view(self.pr_url),
        }
    }
}

/// What a git command of a repository change is for; its result goes to
/// the observation of the same name.
#[derive(Debug, Clone, Copy, PartialEq, Eq, Structural)]
pub enum GitOp {
    /// `git fetch origin`; its result does not matter.
    Fetch,
    /// Switch to the default branch.
    CheckoutDefault,
    /// `git pull --ff-only`; its result does not matter.
    Pull,
    /// Create and switch to the feature branch.
    CreateBranch,
    /// Check for unstaged changes.
    DiffWorktree,
    /// Check for staged changes.
    DiffIndex,
    /// `git add -A`; its result does not matter.
    Stage,
    /// Commit the changes.
    Commit,
    /// Push the feature branch.
    Push,
}

/// The next outside step of a handler, or its outcome.
pub enum ExecStep {
    /// Look for the repository of the named project.
    FindRepo(String),
    /// Check whether the language-model command exists.
    CheckLlm,
    /// Find the repository's default branch.
    DefaultBranch,
    /// Run git in the repository with these arguments, for this purpose.
    Git(GitOp, Vec<String>),
    /// Run the language-model command with these arguments.
    AskLlm(Vec<String>),
    /// Run the language-model command in the repository.
    AskLlmInRepo(Vec<String>),
    /// List the repository's untracked files.
    ListUntracked,
    /// Open a pull request with a title and a body against a base branch.
    CreatePr(String, String, String),
    /// The handler is done.
    Done(HandlerOutcome),
}

/// The mathematical value of an [`ExecStep`].
pub enum ExecPlan {
    FindRepo(Seq<char>),
    CheckLlm,
    DefaultBranch,
    Git(GitOp, Seq<Seq<char>>),
    AskLlm(Seq<Seq<char>>),
    AskLlmInRepo(Seq<Seq<char>>),
    ListUntracked,
    CreatePr(Seq<char>, Seq<char>, Seq<char>),
    Done(OutcomeView),
}

impl View for ExecStep {
    type V = ExecPlan;

    open spec fn view(&self) -> ExecPlan {
        match self {
            ExecStep::FindRepo(n) => ExecPlan::FindRepo(n@),
            ExecStep::CheckLlm => ExecPlan::CheckLlm,
            ExecStep::DefaultBranch => ExecPlan::DefaultBranch,
            ExecStep::Git(op, a) => ExecPlan::Git(*op, strs(a@)),
            ExecStep::AskLlm(a) => ExecPlan::AskLlm(strs(a@)),
            ExecStep::AskLlmInRepo(a) => ExecPlan::AskLlmInRepo(strs(a@)),
            ExecStep::ListUntracked => ExecPlan::ListUntracked,
            ExecStep::CreatePr(t, b, base) => ExecPlan::CreatePr(t@, b@, base@),
            ExecStep::Done(o) => ExecPlan::Done(o@),
        }
    }
}

// ---------------------------------------------------------------------------
// Research and question reports
// ---------------------------------------------------------------------------

/// The prompt of a research (`kind == "research"`) or question report.
pub open spec fn report_prompt(kind: Seq<char>, task: Seq<char>) -> Seq<char> {
    if kind == "research"@ {
        RESEARCH_PROMPT@ + task
    } else {
        QUESTION_PROMPT@ + task
    }
}

/// A research or question report: the model's non-empty output goes to
/// `<timestamp>-<stem>.research.md`.
pub open spec fn report_plan(
    kind: Seq<char>,
    task: Seq<char>,
    timestamp: Seq<char>,
    stem: Seq<char>,
    policy: Option<PolicyConfig>,
    obs: ExecObsView,
) -> ExecPlan {
    match obs.llm_available {
        None => ExecPlan::CheckLlm,
        Some(false) => ExecPlan::Done(
            plain_outcome(kind, "skipped"@, "OpenClaw not available"@, Seq::empty()),
        ),
        Some(true) => match obs.llm_output {
            None => ExecPlan::AskLlm(
                agent_args_spec(
                    "main"@,
                    "120"@,
                    select_model_spec(policy, kind, task),
                    report_prompt(kind, task),
                ),
            ),
            Some(Some(out)) => if out.len() > 0 {
                ExecPlan::Done(
                    file_outcome(
                        kind,
                        "completed"@,
                        exec_file_spec(timestamp, stem, ".research.md"@),
                        out,
                    ),
                )
            } else {
                ExecPlan::Done(
                    plain_outcome(
                        kind,
                        "failed"@,
                        "OpenClaw returned empty response"@,
                        Seq::empty(),
                    ),
                )
            },
            Some(None) => ExecPlan::Done(
                plain_outcome(kind, "failed"@, "OpenClaw returned empty response"@, Seq::empty()),
            ),
        },
    }
}

fn report_step(
    kind: &str,
    task_content: &str,
    timestamp: &str,
    stem: &str,
    policy: &Option<PolicyConfig>,
    obs: &ExecObservations,
) -> (r: ExecStep)
    requires
        kind@ == "research"@ || kind@ == "question"@,
    ensures
        r@ == report_plan(kind@, task_content@, timestamp@, stem@, *policy, obs@),
{
    let ghost e: Seq<Seq<Seq<char>>> = Seq::empty();
    let none: Vec<Vec<String>> = Vec::new();
    assert(commands(none@) =~= e);
    match obs.llm_available {
        None => ExecStep::CheckLlm,
        Some(false) => ExecStep::Done(
            plain(kind, "skipped", copy_str("OpenClaw not available"), none),
        ),
        Some(true) => match &obs.llm_output {
            None => {
                let mut prompt = if str_equal(kind, "research") {
                    copy_str(RESEARCH_PROMPT)
                } else {
                    copy_str(QUESTION_PROMPT)
                };
                prompt.append(task_content);
                let model = select_model(policy, kind, task_content);
                ExecStep::AskLlm(agent_args("main", "120", model, prompt))
            },
            Some(Some(out)) => if out.as_str().is_empty() {
                ExecStep::Done(
                    plain(kind, "failed", copy_str("OpenClaw returned empty response"), none),
                )
            } else {
                let f = exec_file(timestamp, stem, ".research.md");
                ExecStep::Done(with_file(kind, "completed", f, out.clone()))
            },
            Some(None) => ExecStep::Done(
                plain(kind, "failed", copy_str("OpenClaw returned empty response"), none),
            ),
        },
    }
}

// ---------------------------------------------------------------------------
// Operations
// ---------------------------------------------------------------------------

/// Patterns that make an operations task unsafe.
pub open spec fn dangerous_patterns() -> Seq<Seq<char>> {
    seq![
        "rm -rf"@,
        "rm -r /"@,
        "ssh-keygen"@,
        "ssh_key"@,
        "credential"@,
        "passwd"@,
        ".ssh/authorized_keys"@,
        "sudoers"@,
    ]
}

/// The first pattern, in order, that occurs in the text.
pub open spec fn first_contained(text: Seq<char>, pats: Seq<Seq<char>>) -> Option<Seq<char>>
    decreases pats.len(),
{
    if pats.len() == 0 {
        None
    } else if contains_seq(text, pats[0]) {
        Some(pats[0])
    } else {
        first_contained(text, pats.drop_first())
    }
}

/// The first dangerous pattern in the lower-cased task, if any.
pub open spec fn unsafe_match(task: Seq<char>) -> Option<Seq<char>> {
    first_contained(lowercase(task), dangerous_patterns())
}

/// The first dangerous pattern that the task mentions, ignoring case.
pub fn dangerous_pattern(task_content: &str) -> (r: Option<String>)
    ensures
        opt_view(r) == unsafe_match(task_content@),
{
    let lower = chars_of(to_lowercase(task_content).as_str());
    let mut pats: Vec<String> = Vec::new();
    pats.push(copy_str("rm -rf"));
    pats.push(copy_str("rm -r /"));
    pats.push(copy_str("ssh-keygen"));
    pats.push(copy_str("ssh_key"));
    pats.push(copy_str("credential"));
    pats.push(copy_str("passwd"));
    pats.push(copy_str(".ssh/authorized_keys"));
    pats.push(copy_str("sudoers"));
    let ghost all = strs(pats@);
    assert(all =~= dangerous_patterns());
    assert(all.skip(0) =~= all);
    for i in 0..pats.len()
        invariant
            all == strs(pats@),
            all == dangerous_patterns(),
            lower@ == lowercase(task_content@),
            first_contained(lower@, all) == first_contained(lower@, all.skip(i as int)),
    {
        assert(all.skip(i as int).drop_first() =~= all.skip(i + 1));
        assert(all.skip(i as int)[0] == pats@[i as int]@);
        let p = chars_of(pats[i].as_str());
        if contains_chars(lower.as_slice(), p.as_slice()) {
            return Some(pats[i].clone());
        }
    }
    assert(all.skip(pats@.len() as int) =~= Seq::<Seq<char>>::empty());
    None
}

/// The log of an operations task.
pub open spec fn ops_log_spec(task: Seq<char>, output: Option<Seq<char>>) -> Seq<char> {
    "# Ops Execution Log\n\n## Task\n\n"@ + task + "\n\n## Output\n\n```\n"@ + match output {
        Some(o) => o,
        None => "(no output)"@,
    } + "\n```\n\n## Status\n\n"@ + match output {
        Some(_) => "completed"@,
        None => "failed"@,
    } + "\n"@
}

/// An operations task: skipped without the model or when it mentions a
/// dangerous pattern; else the model runs it and the log goes to
/// `<timestamp>-<stem>.ops-log.md`.
pub open spec fn ops_plan(
    task: Seq<char>,
    timestamp: Seq<char>,
    stem: Seq<char>,
    policy: Option<PolicyConfig>,
    obs: ExecObsView,
) -> ExecPlan {
    match obs.llm_available {
        None => ExecPlan::CheckLlm,
        Some(false) => ExecPlan::Done(
            plain_outcome("ops"@, "skipped"@, "OpenClaw not available"@, Seq::empty()),
        ),
        Some(true) => match unsafe_match(task) {
            Some(p) => ExecPlan::Done(
                plain_outcome(
                    "ops"@,
                    "skipped"@,
                    "Skipped: potentially unsafe (matched: "@ + p + ")"@,
                    Seq::empty(),
                ),
            ),
            None => match obs.llm_output {
                None => ExecPlan::AskLlm(
                    agent_args_spec(
                        "default"@,
                        "120"@,
                        select_model_spec(policy, "execution"@, task),
                        OPS_PROMPT@ + task,
                    ),
                ),
                Some(output) => ExecPlan::Done(
                    file_outcome(
                        "ops"@,
                        if output is Some {
                            "completed"@
                        } else {
                            "failed"@
                        },
                        exec_file_spec(timestamp, stem, ".ops-log.md"@),
                        ops_log_spec(task, output),
                    ),
                ),
            },
        },
    }
}

fn ops_step(
    task_content: &str,
    timestamp: &str,
    stem: &str,
    policy: &Option<PolicyConfig>,
    obs: &ExecObservations,
) -> (r: ExecStep)
    ensures
        r@ == ops_plan(task_content@, timestamp@, stem@, *policy, obs@),
{
    let ghost e: Seq<Seq<Seq<char>>> = Seq::empty();
    let none: Vec<Vec<String>> = Vec::new();
    assert(commands(none@) =~= e);
    match obs.llm_available {
        None => ExecStep::CheckLlm,
        Some(false) => ExecStep::Done(
            plain("ops", "skipped", copy_str("OpenClaw not available"), none),
        ),
        Some(true) => match dangerous_pattern(task_content) {
            Some(p) => {
                let mut reason = copy_str("Skipped: potentially unsafe (matched: ");
                reason.append(p.as_str());
                reason.append(")");
                ExecStep::Done(plain("ops", "skipped", reason, none))
            },
            None => match &obs.llm_output {
                None => {
                    let mut prompt = copy_str(OPS_PROMPT);
                    prompt.append(task_content);
                    let model = select_model(policy, "execution", task_content);
                    ExecStep::AskLlm(agent_args("default", "120", model, prompt))
                },
                Some(output) => {
                    let mut log = copy_str("# Ops Execution Log\n\n## Task\n\n");
                    log.append(task_content);
                    log.append("\n\n## Output\n\n```\n");
                    match output {
                        Some(o) => log.append(o.as_str()),
                        None => log.append("(no output)"),
                    }
                    log.append("\n```\n\n## Status\n\n");
                    let status = if output.is_some() {
                        "completed"
                    } else {
                        "failed"
                    };
                    log.append(status);
                    log.append("\n");
                    let f = exec_file(timestamp, stem, ".ops-log.md");
                    ExecStep::Done(with_file("ops", status, f, log))
                },
            },
        },
    }
}

// ---------------------------------------------------------------------------
// Repository change
// ---------------------------------------------------------------------------

/// A character kept in a branch slug.
pub open spec fn slug_char(c: char) -> bool {
    alphanumeric(c) || c == '-'
}

/// A character dropped from the timestamp in a branch name.
pub open spec fn ts_char(c: char) -> bool {
    c != '-' && c != '_'
}

/// The timestamp's digits part: without `-` and `_`.
pub open spec fn ts_digits(timestamp: Seq<char>) -> Seq<char> {
    filter_chars(timestamp, |c: char| ts_char(c))
}

/// The short timestamp of a branch name: bytes 4 to 8 of the digits part
/// (month and day), or the whole digits part when it is shorter than 8
/// bytes.
pub open spec fn short_ts(timestamp: Seq<char>) -> Seq<char> {
    let d = ts_digits(timestamp);
    if utf8_len(d) >= 8 {
        byte_prefix(d, 8).skip(byte_prefix(d, 4).len() as int)
    } else {
        d
    }
}

/// Bytes 4 and 8 of the digits part are character boundaries (slicing
/// panics otherwise).
pub open spec fn ts_cut_possible(timestamp: Seq<char>) -> bool {
    let d = ts_digits(timestamp);
    utf8_len(d) < 8 || (byte_boundary(d, 4) && byte_boundary(d, 8))
}

/// The feature branch: `agent/<slug>-<short timestamp>`, the slug being
/// the stem's letters, digits and dashes, lower-cased.
pub open spec fn branch_spec(stem: Seq<char>, timestamp: Seq<char>) -> Seq<char> {
    "agent/"@ + lowercase(filter_chars(stem, |c: char| slug_char(c))) + "-"@ + short_ts(timestamp)
}

fn filter_slug(s: &[char]) -> (r: Vec<char>)
    ensures
        r@ == filter_chars(s@, |c: char| slug_char(c)),
{
    let mut r: Vec<char> = Vec::new();
    assert(s@.take(0) =~= Seq::<char>::empty());
    for i in 0..s.len()
        invariant
            r@ == filter_chars(s@.take(i as int), |c: char| slug_char(c)),
    {
        assert(s@.take(i + 1).drop_last() =~= s@.take(i as int));
        if is_alphanumeric(s[i]) || s[i] == '-' {
            r.push(s[i]);
        }
    }
    assert(s@.take(s@.len() as int) =~= s@);
    r
}

fn filter_ts(s: &[char]) -> (r: Vec<char>)
    ensures
        r@ == filter_chars(s@, |c: char| ts_char(c)),
{
    let mut r: Vec<char> = Vec::new();
    assert(s@.take(0) =~= Seq::<char>::empty());
    for i in 0..s.len()
        invariant
            r@ == filter_chars(s@.take(i as int), |c: char| ts_char(c)),
    {
        assert(s@.take(i + 1).drop_last() =~= s@.take(i as int));
        if s[i] != '-' && s[i] != '_' {
            r.push(s[i]);
        }
    }
    assert(s@.take(s@.len() as int) =~= s@);
    r
}

/// Whether the timestamp's digits can be cut for a branch name.
pub fn timestamp_cut_possible(timestamp: &str) -> (r: bool)
    ensures
        r == ts_cut_possible(timestamp@),
{
    let d = filter_ts(chars_of(timestamp).as_slice());
    if !longer_than_bytes(d.as_slice(), 7) {
        return true;
    }
    byte_boundary_index(d.as_slice(), 4).is_some() && byte_boundary_index(d.as_slice(), 8).is_some()
}

/// The feature branch for an item.
pub fn branch_name(stem: &str, timestamp: &str) -> (r: String)
    requires
        ts_cut_possible(timestamp@),
    ensures
        r@ == branch_spec(stem@, timestamp@),
{
    let slug = filter_slug(chars_of(stem).as_slice());
    let slug_lower = to_lowercase(string_from_chars(slug.as_slice()).as_str());
    let d = filter_ts(chars_of(timestamp).as_slice());
    let mut b = copy_str("agent/");
    b.append(slug_lower.as_str());
    b.append("-");
    if longer_than_bytes(d.as_slice(), 7) {
        let k4 = byte_boundary_index(d.as_slice(), 4);
        let k8 = byte_boundary_index(d.as_slice(), 8);
        match (k4, k8) {
            (Some(a), Some(z)) => {
                proof {
                    crate::text::lemma_utf8_len_prefix(d@, 0, 0);
                    if z < a {
                        crate::text::lemma_utf8_len_prefix(d@, z as int, a as int);
                    }
                }
                let part = slice_subrange(d.as_slice(), a, z);
                crate::text::push_chars(&mut b, part);
                assert(d@.subrange(a as int, z as int) =~= d@.take(z as int).skip(a as int));
            },
            _ => {},
        }
    } else {
        crate::text::push_chars(&mut b, d.as_slice());
    }
    b
}

/// The line a commit and a pull request are named after: the first line
/// that is not blank, or `agent task`.
pub open spec fn headline(task: Seq<char>) -> Seq<char> {
    match first_nonblank(lines(task)) {
        Some(l) => l,
        None => "agent task"@,
    }
}

/// The headline without `Project:` prefixes, trimmed.
pub open spec fn headline_text(task: Seq<char>) -> Seq<char> {
    trim(strip_prefixes(trim(headline(task)), "Project:"@))
}

/// The commit message of a repository change.
pub open spec fn commit_message_spec(task: Seq<char>, stem: Seq<char>) -> Seq<char> {
    "feat: "@ + lowercase(headline_text(task))
        + "\n\nAutonomously executed by openclaw-daily-digest.\nSource: "@ + stem
}

/// The pull request title: the headline text, cut to 70 bytes.
pub open spec fn pr_title_spec(task: Seq<char>) -> Seq<char> {
    let t = headline_text(task);
    if utf8_len(t) > 70 {
        byte_prefix(t, 70)
    } else {
        t
    }
}

/// The title can be cut to 70 bytes (slicing panics otherwise).
pub open spec fn title_cut_possible(task: Seq<char>) -> bool {
    let t = headline_text(task);
    utf8_len(t) <= 70 || byte_boundary(t, 70)
}

fn headline_text_of(task_content: &str) -> (r: Vec<char>)
    ensures
        r@ == headline_text(task_content@),
{
    let first = match first_nonblank_line(task_content) {
        Some(l) => l,
        None => copy_str("agent task"),
    };
    let t = trim_chars(chars_of(first.as_str()).as_slice());
    let p = chars_of("Project:");
    let s = strip_prefixes_chars(t.as_slice(), p.as_slice());
    trim_chars(s.as_slice())
}

/// Whether the task's pull request title can be cut to its limit.
pub fn title_cut_ok(task_content: &str) -> (r: bool)
    ensures
        r == title_cut_possible(task_content@),
{
    let t = headline_text_of(task_content);
    !longer_than_bytes(t.as_slice(), 70) || byte_boundary_index(t.as_slice(), 70).is_some()
}

/// The commit message of a repository change.
pub fn commit_message(task_content: &str, stem: &str) -> (r: String)
    ensures
        r@ == commit_message_spec(task_content@, stem@),
{
    let t = headline_text_of(task_content);
    let lower = to_lowercase(string_from_chars(t.as_slice()).as_str());
    let mut m = copy_str("feat: ");
    m.append(lower.as_str());
    m.append("\n\nAutonomously executed by openclaw-daily-digest.\nSource: ");
    m.append(stem);
    m
}

/// The pull request title.
pub fn pr_title(task_content: &str) -> (r: String)
    requires
        title_cut_possible(task_content@),
    ensures
        r@ == pr_title_spec(task_content@),
{
    let t = headline_text_of(task_content);
    if longer_than_bytes(t.as_slice(), 70) {
        match byte_boundary_index(t.as_slice(), 70) {
            Some(k) => {
                let r = string_from_chars(slice_subrange(t.as_slice(), 0, k));
                assert(t@.subrange(0, k as int) =~= t@.take(k as int));
                r
            },
            None => String::new(),
        }
    } else {
        string_from_chars(t.as_slice())
    }
}

/// The pull request body: the task and the planned actions.
pub open spec fn pr_body_spec(task: Seq<char>, enrichment: Seq<char>) -> Seq<char> {
    "## Task\n\n"@ + task + "\n\n## Planned Actions\n\n"@ + enrichment
        + "\n\n---\n\n_Auto-generated by openclaw-daily-digest agent._"@
}

fn pr_body(task_content: &str, enrichment_rendered: &str) -> (r: String)
    ensures
        r@ == pr_body_spec(task_content@, enrichment_rendered@),
{
    let mut b = copy_str("## Task\n\n");
    b.append(task_content);
    b.append("\n\n## Planned Actions\n\n");
    b.append(enrichment_rendered);
    b.append("\n\n---\n\n_Auto-generated by openclaw-daily-digest agent._");
    b
}

/// The message that asks the model to make the change in the repository.
pub open spec fn repo_message(repo_dir: Seq<char>, task: Seq<char>, enrichment: Seq<char>) -> Seq<
    char,
> {
    "You are working in the repository at "@ + repo_dir
        + ". Execute the following task.\n\nTask:\n"@ + task + "\n\nPlanned actions:\n"@
        + enrichment
}

/// The execution log of a repository change.
pub open spec fn repo_log_spec(
    repo_dir: Seq<char>,
    branch: Seq<char>,
    pr_url: Option<Seq<char>>,
    output: Seq<char>,
) -> Seq<char> {
    "# Repo-Change Execution\n\n- **Repo:** "@ + repo_dir + "\n- **Branch:** "@ + branch
        + "\n- **PR:** "@ + match pr_url {
        Some(u) => u,
        None => "(none)"@,
    } + "\n- **Status:** "@ + match pr_url {
        Some(_) => "completed"@,
        None => "pushed"@,
    } + "\n\n## OpenClaw Output\n\n```\n"@ + output + "\n```\n"@
}

/// The completed (or pushed, without a pull request) repository change.
pub open spec fn repo_done(
    repo_dir: Seq<char>,
    branch: Seq<char>,
    default_branch: Seq<char>,
    pr_url: Option<Seq<char>>,
    output: Seq<char>,
    file: Seq<char>,
) -> OutcomeView {
    let status = match pr_url {
        Some(_) => "completed"@,
        None => "pushed"@,
    };
    OutcomeView {
        status,
        record: RecordView {
            handler: "repo-change"@,
            status,
            reason: None,
            output_file: Some(file),
            branch: Some(branch),
            pr_url: Some(pr_url),
        },
        output_file: Some(file),
        pr_url,
        write: Some((file, repo_log_spec(repo_dir, branch, pr_url, output))),
        git_after: seq![seq!["checkout"@, default_branch]],
    }
}

/// Commands that leave the feature branch and delete it.
pub open spec fn cleanup_spec(default_branch: Seq<char>, branch: Seq<char>) -> Seq<Seq<Seq<char>>> {
    seq![seq!["checkout"@, default_branch], seq!["branch"@, "-D"@, branch]]
}

/// The repository change after the model made changes: stage, commit, push,
/// open a pull request.
pub open spec fn repo_publish_plan(
    task: Seq<char>,
    stem: Seq<char>,
    timestamp: Seq<char>,
    enrichment: Seq<char>,
    dir: Seq<char>,
    default_branch: Seq<char>,
    output: Seq<char>,
    obs: ExecObsView,
) -> ExecPlan {
    let branch = branch_spec(stem, timestamp);
    if !obs.staged {
        ExecPlan::Git(GitOp::Stage, seq!["add"@, "-A"@])
    } else {
        match obs.committed {
            None => ExecPlan::Git(GitOp::Commit, seq!["commit"@, "-m"@, commit_message_spec(task, stem)]),
            Some(false) => ExecPlan::Done(
                plain_outcome(
                    "repo-change"@,
                    "failed"@,
                    "Git commit failed"@,
                    cleanup_spec(default_branch, branch),
                ),
            ),
            Some(true) => match obs.pushed {
                None => ExecPlan::Git(GitOp::Push, seq!["push"@, "-u"@, "origin"@, branch]),
                Some(false) => ExecPlan::Done(
                    OutcomeView {
                        status: "failed"@,
                        record: RecordView {
                            handler: "repo-change"@,
                            status: "failed"@,
                            reason: Some("Git push failed"@),
                            output_file: None,
                            branch: Some(branch),
                            pr_url: None,
                        },
                        output_file: None,
                        pr_url: None,
                        write: None,
                        git_after: Seq::empty(),
                    },
                ),
                Some(true) => match obs.pr_url {
                    None => ExecPlan::CreatePr(
                        pr_title_spec(task),
                        pr_body_spec(task, enrichment),
                        default_branch,
                    ),
                    Some(pr) => ExecPlan::Done(
                        repo_done(
                            dir,
                            branch,
                            default_branch,
                            pr,
                            output,
                            exec_file_spec(timestamp, stem, ".repo-change.md"@),
                        ),
                    ),
                },
            },
        }
    }
}

/// A repository change: find the project's repository, check for the
/// model, create a feature branch from the updated default branch, let the
/// model change the code, and when it changed something commit, push and
/// open a pull request; the branch is removed again when the model fails,
/// changes nothing, or the commit fails.
pub open spec fn repo_change_plan(
    task: Seq<char>,
    timestamp: Seq<char>,
    stem: Seq<char>,
    policy: Option<PolicyConfig>,
    project_name: Option<Seq<char>>,
    project_kind: Seq<char>,
    enrichment: Seq<char>,
    obs: ExecObsView,
) -> ExecPlan {
    let no_repo = ExecPlan::Done(
        plain_outcome("repo-change"@, "skipped"@, "Cannot determine target repo"@, Seq::empty()),
    );
    match repo_lookup_spec(project_name, project_kind) {
        None => no_repo,
        Some(name) => match obs.repo_dir {
            None => ExecPlan::FindRepo(name),
            Some(None) => no_repo,
            Some(Some(dir)) => match obs.llm_available {
                None => ExecPlan::CheckLlm,
                Some(false) => ExecPlan::Done(
                    plain_outcome(
                        "repo-change"@,
                        "skipped"@,
                        "OpenClaw not available"@,
                        Seq::empty(),
                    ),
                ),
                Some(true) => match obs.default_branch {
                    None => ExecPlan::DefaultBranch,
                    Some(def) => {
                        let branch = branch_spec(stem, timestamp);
                        if !obs.fetched {
                            ExecPlan::Git(GitOp::Fetch, seq!["fetch"@, "origin"@])
                        } else {
                            match obs.checked_out_default {
                                None => ExecPlan::Git(GitOp::CheckoutDefault, seq!["checkout"@, def]),
                                Some(false) => ExecPlan::Done(
                                    plain_outcome(
                                        "repo-change"@,
                                        "failed"@,
                                        "Cannot checkout default branch"@,
                                        Seq::empty(),
                                    ),
                                ),
                                Some(true) => if !obs.pulled {
                                    ExecPlan::Git(GitOp::Pull, seq!["pull"@, "--ff-only"@])
                                } else {
                                    match obs.created_branch {
                                        None => ExecPlan::Git(GitOp::CreateBranch, seq!["checkout"@, "-b"@, branch]),
                                        Some(false) => ExecPlan::Done(
                                            plain_outcome(
                                                "repo-change"@,
                                                "failed"@,
                                                "Cannot create feature branch"@,
                                                Seq::empty(),
                                            ),
                                        ),
                                        Some(true) => match obs.llm_output {
                                            None => ExecPlan::AskLlmInRepo(
                                                agent_args_spec(
                                                    "default"@,
                                                    "300"@,
                                                    select_model_spec(policy, "execution"@, task),
                                                    repo_message(dir, task, enrichment),
                                                ),
                                            ),
                                            Some(None) => ExecPlan::Done(
                                                plain_outcome(
                                                    "repo-change"@,
                                                    "failed"@,
                                                    "OpenClaw execution failed"@,
                                                    cleanup_spec(def, branch),
                                                ),
                                            ),
                                            Some(Some(out)) => {
                                                let publish = repo_publish_plan(
                                                    task,
                                                    stem,
                                                    timestamp,
                                                    enrichment,
                                                    dir,
                                                    def,
                                                    out,
                                                    obs,
                                                );
                                                let no_op = ExecPlan::Done(
                                                    plain_outcome(
                                                        "repo-change"@,
                                                        "no-op"@,
                                                        "No changes produced"@,
                                                        cleanup_spec(def, branch),
                                                    ),
                                                );
                                                match obs.worktree_clean {
                                                    None => ExecPlan::Git(
                                                        GitOp::DiffWorktree,
                                                        seq!["diff"@, "--quiet"@],
                                                    ),
                                                    Some(false) => publish,
                                                    Some(true) => match obs.index_clean {
                                                        None => ExecPlan::Git(
                                                            GitOp::DiffIndex,
                                                            seq![
                                                                "diff"@,
                                                                "--cached"@,
                                                                "--quiet"@,
                                                            ],
                                                        ),
                                                        Some(false) => publish,
                                                        Some(true) => match obs.has_untracked {
                                                            None => ExecPlan::ListUntracked,
                                                            Some(true) => publish,
                                                            Some(false) => no_op,
                                                        },
                                                    },
                                                }
                                            },
                                        },
                                    }
                                },
                            }
                        }
                    },
                },
            },
        },
    }
}

/// A repository change has found its repository and the model, and goes on
/// to form its feature branch's name.
pub open spec fn reaches_branch(
    project_name: Option<Seq<char>>,
    project_kind: Seq<char>,
    obs: ExecObsView,
) -> bool {
    &&& repo_lookup_spec(project_name, project_kind) is Some
    &&& obs.repo_dir matches Some(Some(_))
    &&& obs.llm_available == Some(true)
}

/// The checks after the model's work found a change.
pub open spec fn has_changes(obs: ExecObsView) -> bool {
    ||| obs.worktree_clean == Some(false)
    ||| (obs.worktree_clean == Some(true) && obs.index_clean == Some(false))
    ||| (obs.worktree_clean == Some(true) && obs.index_clean == Some(true) && obs.has_untracked
        == Some(true))
}

/// A repository change has pushed its branch and goes on to open a pull
/// request, whose title it forms.
pub open spec fn reaches_title(
    project_name: Option<Seq<char>>,
    project_kind: Seq<char>,
    obs: ExecObsView,
) -> bool {
    &&& reaches_branch(project_name, project_kind, obs)
    &&& obs.default_branch is Some
    &&& obs.fetched
    &&& obs.checked_out_default == Some(true)
    &&& obs.pulled
    &&& obs.created_branch == Some(true)
    &&& obs.llm_output matches Some(Some(_))
    &&& has_changes(obs)
    &&& obs.staged
    &&& obs.committed == Some(true)
    &&& obs.pushed == Some(true)
    &&& obs.pr_url is None
}

/// The inputs on which the repository change can form its branch name and
/// its pull request title when it gets to them.
pub open spec fn repo_change_inputs_ok(
    task: Seq<char>,
    timestamp: Seq<char>,
    project_name: Option<Seq<char>>,
    project_kind: Seq<char>,
    obs: ExecObsView,
) -> bool {
    &&& reaches_branch(project_name, project_kind, obs) ==> ts_cut_possible(timestamp)
    &&& reaches_title(project_name, project_kind, obs) ==> title_cut_possible(task)
}

fn cmd2(a: &str, b: &str) -> (r: Vec<String>)
    ensures
        strs(r@) == seq![a@, b@],
{
    let mut r: Vec<String> = Vec::new();
    r.push(copy_str(a));
    r.push(copy_str(b));
    assert(strs(r@) =~= seq![a@, b@]);
    r
}

fn cmd3(a: &str, b: &str, c: &str) -> (r: Vec<String>)
    ensures
        strs(r@) == seq![a@, b@, c@],
{
    let mut r: Vec<String> = Vec::new();
    r.push(copy_str(a));
    r.push(copy_str(b));
    r.push(copy_str(c));
    assert(strs(r@) =~= seq![a@, b@, c@]);
    r
}

fn cmd4(a: &str, b: &str, c: &str, d: &str) -> (r: Vec<String>)
    ensures
        strs(r@) == seq![a@, b@, c@, d@],
{
    let mut r: Vec<String> = Vec::new();
    r.push(copy_str(a));
    r.push(copy_str(b));
    r.push(copy_str(c));
    r.push(copy_str(d));
    assert(strs(r@) =~= seq![a@, b@, c@, d@]);
    r
}

fn cleanup(default_branch: &str, branch: &str) -> (r: Vec<Vec<String>>)
    ensures
        commands(r@) == cleanup_spec(default_branch@, branch@),
{
    let mut r: Vec<Vec<String>> = Vec::new();
    r.push(cmd2("checkout", default_branch));
    r.push(cmd3("branch", "-D", branch));
    assert(commands(r@) =~= cleanup_spec(default_branch@, branch@));
    r
}

fn repo_log(repo_dir: &str, branch: &str, pr_url: &Option<String>, output: &str) -> (r: String)
    ensures
        r@ == repo_log_spec(repo_dir@, branch@, opt_view(*pr_url), output@),
{
    let mut l = copy_str("# Repo-Change Execution\n\n- **Repo:** ");
    l.append(repo_dir);
    l.append("\n- **Branch:** ");
    l.append(branch);
    l.append("\n- **PR:** ");
    match pr_url {
        Some(u) => l.append(u.as_str()),
        None => l.append("(none)"),
    }
    l.append("\n- **Status:** ");
    match pr_url {
        Some(_) => l.append("completed"),
        None => l.append("pushed"),
    }
    l.append("\n\n## OpenClaw Output\n\n```\n");
    l.append(output);
    l.append("\n```\n");
    l
}

#[verifier::rlimit(40)]
fn repo_publish_step(
    task_content: &str,
    stem: &str,
    timestamp: &str,
    enrichment_rendered: &str,
    dir: &str,
    default_branch: &str,
    branch: &str,
    output: &str,
    obs: &ExecObservations,
) -> (r: ExecStep)
    requires
        branch@ == branch_spec(stem@, timestamp@),
        (obs.staged && obs.committed == Some(true) && obs.pushed == Some(true) && obs.pr_url is None)
            ==> title_cut_possible(task_content@),
    ensures
        r@ == repo_publish_plan(
            task_content@,
            stem@,
            timestamp@,
            enrichment_rendered@,
            dir@,
            default_branch@,
            output@,
            obs@,
        ),
{
    if !obs.staged {
        return ExecStep::Git(GitOp::Stage, cmd2("add", "-A"));
    }
    match obs.committed {
        None => {
            let msg = commit_message(task_content, stem);
            ExecStep::Git(GitOp::Commit, cmd3("commit", "-m", msg.as_str()))
        },
        Some(false) => ExecStep::Done(
            plain("repo-change", "failed", copy_str("Git commit failed"), cleanup(default_branch, branch)),
        ),
        Some(true) => match obs.pushed {
            None => ExecStep::Git(GitOp::Push, cmd4("push", "-u", "origin", branch)),
            Some(false) => {
                let out = HandlerOutcome {
                    status: copy_str("failed"),
                    record: HandlerRecord {
                        handler: copy_str("repo-change"),
                        status: copy_str("failed"),
                        reason: Some(copy_str("Git push failed")),
                        output_file: None,
                        branch: Some(copy_str(branch)),
                        pr_url: None,
                    },
                    output_file: None,
                    pr_url: None,
                    write: None,
                    git_after: Vec::new(),
                };
                assert(commands(out.git_after@) =~= Seq::<Seq<Seq<char>>>::empty());
                ExecStep::Done(out)
            },
            Some(true) => match &obs.pr_url {
                None => ExecStep::CreatePr(
                    pr_title(task_content),
                    pr_body(task_content, enrichment_rendered),
                    copy_str(default_branch),
                ),
                Some(pr) => {
                    let file = exec_file(timestamp, stem, ".repo-change.md");
                    let log = repo_log(dir, branch, pr, output);
                    let status = if pr.is_some() {
                        "completed"
                    } else {
                        "pushed"
                    };
                    let mut after: Vec<Vec<String>> = Vec::new();
                    after.push(cmd2("checkout", default_branch));
                    assert(commands(after@) =~= seq![seq!["checkout"@, default_branch@]]);
                    let out = HandlerOutcome {
                        status: copy_str(status),
                        record: HandlerRecord {
                            handler: copy_str("repo-change"),
                            status: copy_str(status),
                            reason: None,
                            output_file: Some(file.clone()),
                            branch: Some(copy_str(branch)),
                            pr_url: Some(copy_opt(pr)),
                        },
                        output_file: Some(file.clone()),
                        pr_url: copy_opt(pr),
                        write: Some((file, log)),
                        git_after: after,
                    };
                    ExecStep::Done(out)
                },
            },
        },
    }
}

#[verifier::rlimit(60)]
fn repo_change_step(
    task_content: &str,
    timestamp: &str,
    stem: &str,
    policy: &Option<PolicyConfig>,
    project_name: Option<&str>,
    project_kind: &str,
    enrichment_rendered: &str,
    obs: &ExecObservations,
) -> (r: ExecStep)
    requires
        repo_change_inputs_ok(
            task_content@,
            timestamp@,
            opt_str_view(project_name),
            project_kind@,
            obs@,
        ),
    ensures
        r@ == repo_change_plan(
            task_content@,
            timestamp@,
            stem@,
            *policy,
            opt_str_view(project_name),
            project_kind@,
            enrichment_rendered@,
            obs@,
        ),
{
    let ghost e: Seq<Seq<Seq<char>>> = Seq::empty();
    let name = match repo_lookup_name(project_name, project_kind) {
        Some(n) => n,
        None => {
            let none: Vec<Vec<String>> = Vec::new();
            assert(commands(none@) =~= e);
            return ExecStep::Done(
                plain("repo-change", "skipped", copy_str("Cannot determine target repo"), none),
            );
        },
    };
    let dir = match &obs.repo_dir {
        None => return ExecStep::FindRepo(name),
        Some(None) => {
            let none: Vec<Vec<String>> = Vec::new();
            assert(commands(none@) =~= e);
            return ExecStep::Done(
                plain("repo-change", "skipped", copy_str("Cannot determine target repo"), none),
            );
        },
        Some(Some(d)) => d,
    };
    match obs.llm_available {
        None => return ExecStep::CheckLlm,
        Some(false) => {
            let none: Vec<Vec<String>> = Vec::new();
            assert(commands(none@) =~= e);
            return ExecStep::Done(
                plain("repo-change", "skipped", copy_str("OpenClaw not available"), none),
            );
        },
        Some(true) => {},
    }
    let def = match &obs.default_branch {
        None => return ExecStep::DefaultBranch,
        Some(d) => d,
    };
    let branch = branch_name(stem, timestamp);
    if !obs.fetched {
        return ExecStep::Git(GitOp::Fetch, cmd2("fetch", "origin"));
    }
    match obs.checked_out_default {
        None => return ExecStep::Git(GitOp::CheckoutDefault, cmd2("checkout", def.as_str())),
        Some(false) => {
            let none: Vec<Vec<String>> = Vec::new();
            assert(commands(none@) =~= e);
            return ExecStep::Done(
                plain("repo-change", "failed", copy_str("Cannot checkout default branch"), none),
            );
        },
        Some(true) => {},
    }
    if !obs.pulled {
        return ExecStep::Git(GitOp::Pull, cmd2("pull", "--ff-only"));
    }
    match obs.created_branch {
        None => return ExecStep::Git(GitOp::CreateBranch, cmd3("checkout", "-b", branch.as_str())),
        Some(false) => {
            let none: Vec<Vec<String>> = Vec::new();
            assert(commands(none@) =~= e);
            return ExecStep::Done(
                plain("repo-change", "failed", copy_str("Cannot create feature branch"), none),
            );
        },
        Some(true) => {},
    }
    let out = match &obs.llm_output {
        None => {
            let mut msg = copy_str("You are working in the repository at ");
            msg.append(dir.as_str());
            msg.append(". Execute the following task.\n\nTask:\n");
            msg.append(task_content);
            msg.append("\n\nPlanned actions:\n");
            msg.append(enrichment_rendered);
            let model = select_model(policy, "execution", task_content);
            return ExecStep::AskLlmInRepo(agent_args("default", "300", model, msg));
        },
        Some(None) => {
            return ExecStep::Done(
                plain(
                    "repo-change",
                    "failed",
                    copy_str("OpenClaw execution failed"),
                    cleanup(def.as_str(), branch.as_str()),
                ),
            );
        },
        Some(Some(o)) => o,
    };
    let changed = match obs.worktree_clean {
        None => return ExecStep::Git(GitOp::DiffWorktree, cmd2("diff", "--quiet")),
        Some(false) => true,
        Some(true) => match obs.index_clean {
            None => return ExecStep::Git(GitOp::DiffIndex, cmd3("diff", "--cached", "--quiet")),
            Some(false) => true,
            Some(true) => match obs.has_untracked {
                None => return ExecStep::ListUntracked,
                Some(u) => u,
            },
        },
    };
    if !changed {
        return ExecStep::Done(
            plain(
                "repo-change",
                "no-op",
                copy_str("No changes produced"),
                cleanup(def.as_str(), branch.as_str()),
            ),
        );
    }
    repo_publish_step(
        task_content,
        stem,
        timestamp,
        enrichment_rendered,
        dir.as_str(),
        def.as_str(),
        branch.as_str(),
        out.as_str(),
        obs,
    )
}

// ---------------------------------------------------------------------------
// Dispatch
// ---------------------------------------------------------------------------

/// The handler of an action type: research and question reports,
/// repository changes, operations; a note needs no execution.
pub open spec fn execute_plan(
    action_type: Seq<char>,
    task: Seq<char>,
    timestamp: Seq<char>,
    stem: Seq<char>,
    policy: Option<PolicyConfig>,
    project_name: Option<Seq<char>>,
    project_kind: Seq<char>,
    enrichment: Seq<char>,
    obs: ExecObsView,
) -> ExecPlan {
    if action_type == "research"@ || action_type == "question"@ {
        report_plan(action_type, task, timestamp, stem, policy, obs)
    } else if action_type == "repo-change"@ {
        repo_change_plan(task, timestamp, stem, policy, project_name, project_kind, enrichment, obs)
    } else if action_type == "ops"@ {
        ops_plan(task, timestamp, stem, policy, obs)
    } else {
        ExecPlan::Done(
            plain_outcome("note"@, "none"@, "No execution required for notes"@, Seq::empty()),
        )
    }
}

/// The inputs on which the handler does not panic when it forms a branch
/// name or a pull request title.
pub open spec fn execute_inputs_ok(
    action_type: Seq<char>,
    task: Seq<char>,
    timestamp: Seq<char>,
    project_name: Option<Seq<char>>,
    project_kind: Seq<char>,
    obs: ExecObsView,
) -> bool {
    action_type == "repo-change"@ ==> repo_change_inputs_ok(
        task,
        timestamp,
        project_name,
        project_kind,
        obs,
    )
}

/// Whether the handler can go on with these inputs (it panics otherwise).
pub fn execute_inputs_valid(
    action_type: &str,
    task_content: &str,
    timestamp: &str,
    project_name: Option<&str>,
    project_kind: &str,
    obs: &ExecObservations,
) -> (r: bool)
    ensures
        r == execute_inputs_ok(
            action_type@,
            task_content@,
            timestamp@,
            opt_str_view(project_name),
            project_kind@,
            obs@,
        ),
{
    if !str_equal(action_type, "repo-change") {
        return true;
    }
    let branch_reached = repo_lookup_name(project_name, project_kind).is_some() && match (
        &obs.repo_dir,
        obs.llm_available,
    ) {
        (Some(Some(_)), Some(true)) => true,
        _ => false,
    };
    if !branch_reached {
        return true;
    }
    if !timestamp_cut_possible(timestamp) {
        return false;
    }
    let changed = match (obs.worktree_clean, obs.index_clean, obs.has_untracked) {
        (Some(false), _, _) => true,
        (Some(true), Some(false), _) => true,
        (Some(true), Some(true), Some(true)) => true,
        _ => false,
    };
    let title_reached = obs.default_branch.is_some() && obs.fetched && obs.checked_out_default
        == Some(true) && obs.pulled && obs.created_branch == Some(true) && match &obs.llm_output {
        Some(Some(_)) => true,
        _ => false,
    } && changed && obs.staged && obs.committed == Some(true) && obs.pushed == Some(true)
        && obs.pr_url.is_none();
    !title_reached || title_cut_ok(task_content)
}

/// Runs the handler of the item's action type one step.
pub fn execute_handler(
    action_type: &str,
    task_content: &str,
    timestamp: &str,
    stem: &str,
    policy: &Option<PolicyConfig>,
    project_name: Option<&str>,
    project_kind: &str,
    enrichment_rendered: &str,
    obs: &ExecObservations,
) -> (r: ExecStep)
    requires
        execute_inputs_ok(
            action_type@,
            task_content@,
            timestamp@,
            opt_str_view(project_name),
            project_kind@,
            obs@,
        ),
    ensures
        r@ == execute_plan(
            action_type@,
            task_content@,
            timestamp@,
            stem@,
            *policy,
            opt_str_view(project_name),
            project_kind@,
            enrichment_rendered@,
            obs@,
        ),
{
    if str_equal(action_type, "research") || str_equal(action_type, "question") {
        report_step(action_type, task_content, timestamp, stem, policy, obs)
    } else if str_equal(action_type, "repo-change") {
        repo_change_step(
            task_content,
            timestamp,
            stem,
            policy,
            project_name,
            project_kind,
            enrichment_rendered,
            obs,
        )
    } else if str_equal(action_type, "ops") {
        ops_step(task_content, timestamp, stem, policy, obs)
    } else {
        let none: Vec<Vec<String>> = Vec::new();
        assert(commands(none@) =~= Seq::<Seq<Seq<char>>>::empty());
        ExecStep::Done(plain("note", "none", copy_str("No execution required for notes"), none))
    }
}

} // verus!

verus! {

/// An operations task that mentions a dangerous pattern is never handed to
/// the model: it is skipped.
pub proof fn law_ops_screen(
    task: Seq<char>,
    timestamp: Seq<char>,
    stem: Seq<char>,
    policy: Option<PolicyConfig>,
    obs: ExecObsView,
)
    requires
        unsafe_match(task) is Some,
    ensures
        !(ops_plan(task, timestamp, stem, policy, obs) is AskLlm),
        ops_plan(task, timestamp, stem, policy, obs) matches ExecPlan::Done(o) ==> o.status
            == "skipped"@ && o.write is None,
{
}

/// The observations of a repository change that found its repository,
/// the model and the default branch, and created its feature branch.
pub open spec fn branch_created(
    project_name: Option<Seq<char>>,
    project_kind: Seq<char>,
    obs: ExecObsView,
) -> bool {
    &&& repo_lookup_spec(project_name, project_kind) is Some
    &&& obs.repo_dir matches Some(Some(_))
    &&& obs.llm_available == Some(true)
    &&& obs.default_branch is Some
    &&& obs.fetched
    &&& obs.checked_out_default == Some(true)
    &&& obs.pulled
    &&& obs.created_branch == Some(true)
}

/// A repository change that created its feature branch switches back to
/// the default branch and deletes the feature branch when the model fails,
/// when nothing changed, and when the commit fails.
pub proof fn law_repo_change_cleans_up(
    task: Seq<char>,
    timestamp: Seq<char>,
    stem: Seq<char>,
    policy: Option<PolicyConfig>,
    project_name: Option<Seq<char>>,
    project_kind: Seq<char>,
    enrichment: Seq<char>,
    obs: ExecObsView,
)
    requires
        branch_created(project_name, project_kind, obs),
    ensures
        obs.llm_output == Some(None::<Seq<char>>) ==> repo_change_plan(
            task,
            timestamp,
            stem,
            policy,
            project_name,
            project_kind,
            enrichment,
            obs,
        ) == ExecPlan::Done(
            plain_outcome(
                "repo-change"@,
                "failed"@,
                "OpenClaw execution failed"@,
                cleanup_spec(obs.default_branch.unwrap(), branch_spec(stem, timestamp)),
            ),
        ),
        (obs.llm_output matches Some(Some(_)) && obs.worktree_clean == Some(true)
            && obs.index_clean == Some(true) && obs.has_untracked == Some(false))
            ==> repo_change_plan(
            task,
            timestamp,
            stem,
            policy,
            project_name,
            project_kind,
            enrichment,
            obs,
        ) == ExecPlan::Done(
            plain_outcome(
                "repo-change"@,
                "no-op"@,
                "No changes produced"@,
                cleanup_spec(obs.default_branch.unwrap(), branch_spec(stem, timestamp)),
            ),
        ),
        (obs.llm_output matches Some(Some(_)) && obs.worktree_clean == Some(false) && obs.staged
            && obs.committed == Some(false)) ==> repo_change_plan(
            task,
            timestamp,
            stem,
            policy,
            project_name,
            project_kind,
            enrichment,
            obs,
        ) == ExecPlan::Done(
            plain_outcome(
                "repo-change"@,
                "failed"@,
                "Git commit failed"@,
                cleanup_spec(obs.default_branch.unwrap(), branch_spec(stem, timestamp)),
            ),
        ),
{
}

/// The step asks for something the observations do not hold yet.
pub open spec fn step_unobserved(plan: ExecPlan, obs: ExecObsView) -> bool {
    match plan {
        ExecPlan::FindRepo(_) => obs.repo_dir is None,
        ExecPlan::CheckLlm => obs.llm_available is None,
        ExecPlan::DefaultBranch => obs.default_branch is None,
        ExecPlan::Git(op, _) => match op {
            GitOp::Fetch => !obs.fetched,
            GitOp::CheckoutDefault => obs.checked_out_default is None,
            GitOp::Pull => !obs.pulled,
            GitOp::CreateBranch => obs.created_branch is None,
            GitOp::DiffWorktree => obs.worktree_clean is None,
            GitOp::DiffIndex => obs.index_clean is None,
            GitOp::Stage => !obs.staged,
            GitOp::Commit => obs.committed is None,
            GitOp::Push => obs.pushed is None,
        },
        ExecPlan::AskLlm(_) => obs.llm_output is None,
        ExecPlan::AskLlmInRepo(_) => obs.llm_output is None,
        ExecPlan::ListUntracked => obs.has_untracked is None,
        ExecPlan::CreatePr(_, _, _) => obs.pr_url is None,
        ExecPlan::Done(_) => true,
    }
}

/// Each step of a handler asks for something the caller has not observed
/// yet, so a caller that records each answer reaches the outcome.
pub proof fn law_execute_steps_progress(
    action_type: Seq<char>,
    task: Seq<char>,
    timestamp: Seq<char>,
    stem: Seq<char>,
    policy: Option<PolicyConfig>,
    project_name: Option<Seq<char>>,
    project_kind: Seq<char>,
    enrichment: Seq<char>,
    obs: ExecObsView,
)
    ensures
        step_unobserved(
            execute_plan(
                action_type,
                task,
                timestamp,
                stem,
                policy,
                project_name,
                project_kind,
                enrichment,
                obs,
            ),
            obs,
        ),
{
}

/// A repository change without a repository to work in is skipped: no git,
/// pull request or model command is run and no file is written.
pub proof fn law_repo_change_no_repo(
    task: Seq<char>,
    timestamp: Seq<char>,
    stem: Seq<char>,
    policy: Option<PolicyConfig>,
    project_name: Option<Seq<char>>,
    project_kind: Seq<char>,
    enrichment: Seq<char>,
    obs: ExecObsView,
)
    requires
        repo_lookup_spec(project_name, project_kind) is None || obs.repo_dir == Some(
            None::<Seq<char>>,
        ),
    ensures
        repo_change_plan(task, timestamp, stem, policy, project_name, project_kind, enrichment, obs)
            == ExecPlan::Done(
            plain_outcome(
                "repo-change"@,
                "skipped"@,
                "Cannot determine target repo"@,
                Seq::empty(),
            ),
        ),
{
}

/// Every outcome of a repository change has one of the statuses
/// `skipped`, `failed`, `no-op`, `pushed` and `completed`, and its record
/// carries the same status; it names a pull request exactly when it is
/// `completed`, and it writes the execution log, and names it as its
/// output file, exactly when the branch was pushed.
#[verifier::rlimit(40)]
pub proof fn law_repo_change_outcome(
    task: Seq<char>,
    timestamp: Seq<char>,
    stem: Seq<char>,
    policy: Option<PolicyConfig>,
    project_name: Option<Seq<char>>,
    project_kind: Seq<char>,
    enrichment: Seq<char>,
    obs: ExecObsView,
)
    ensures
        repo_change_plan(task, timestamp, stem, policy, project_name, project_kind, enrichment, obs)
            matches ExecPlan::Done(o) ==> {
            let pushed = o.status == "pushed"@ || o.status == "completed"@;
            &&& o.status == "skipped"@ || o.status == "failed"@ || o.status == "no-op"@ || pushed
            &&& o.record.status == o.status
            &&& (o.pr_url is Some <==> o.status == "completed"@)
            &&& o.output_file == if pushed {
                Some(exec_file_spec(timestamp, stem, ".repo-change.md"@))
            } else {
                None
            }
            &&& (o.write is Some <==> pushed)
        },
{
    reveal_strlit("pushed");
    reveal_strlit("completed");
    reveal_strlit("skipped");
    reveal_strlit("failed");
    reveal_strlit("no-op");
    assert("skipped"@[0] != "pushed"@[0] && "skipped"@[0] != "completed"@[0]);
    assert("failed"@[0] != "pushed"@[0] && "failed"@[0] != "completed"@[0]);
    assert("no-op"@[0] != "pushed"@[0] && "no-op"@[0] != "completed"@[0]);
    assert("pushed"@ != "completed"@);
}

} // verus!
