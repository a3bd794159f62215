//! The decisions of a run over the inbox and of the processing of one item.
use vstd::prelude::*;

use crate::discord::{count_results, counts};
use crate::text::{
    chars_of, copy_opt, copy_str, decimal, ends_with_chars, has_suffix, is_blank,
    lemma_lex_refl, lemma_lex_total, lemma_lex_trans, lex_le, lines, opt_view, push_decimal,
    str_lines, string_from_chars, strs, to_string, trim, trim_str, views,
};
use crate::api::{map_task_type, task_type_spec};
use crate::report::opt_str_view;
use crate::types::ItemResult;
use crate::util::{first_inbox_item, first_markdown, is_markdown, next_inbox_item};

verus! {

/// The most items one run processes: `max_items`, where 0 means no limit.
pub open spec fn item_limit_spec(max_items: usize) -> usize {
    if max_items == 0 {
        usize::MAX
    } else {
        max_items
    }
}

/// The number of items a run may process.
pub fn item_limit(max_items: usize) -> (r: usize)
    ensures
        r == item_limit_spec(max_items),
{
    if max_items == 0 {
        usize::MAX
    } else {
        max_items
    }
}

/// Whether the run looks for another item after `processed` items.
pub fn wants_more(processed: usize, limit: usize) -> (r: bool)
    ensures
        r == (processed < limit),
{
    processed < limit
}

/// The exit code of a run: 1 when some item failed (an input that could
/// not be read or a report that could not be written), else 0.
pub open spec fn exit_code_spec(rs: Seq<ItemResult>) -> i32 {
    if counts(rs).2 > 0 {
        1
    } else {
        0
    }
}

/// The exit code of a run with these results.
pub fn run_exit_code(results: &Vec<ItemResult>) -> (r: i32)
    ensures
        r == exit_code_spec(results@),
{
    let (_, _, failed) = count_results(results);
    if failed > 0 {
        1
    } else {
        0
    }
}

/// The summary line printed at the end of a run.
pub fn summary_line(results: &Vec<ItemResult>) -> (r: String)
    ensures
        r@ == "Processed "@ + decimal(results@.len()) + " items ("@ + decimal(counts(results@).0)
            + " enriched, "@ + decimal(counts(results@).1) + " unenriched, "@ + decimal(
            counts(results@).2,
        ) + " failed)."@,
{
    let (e, u, f) = count_results(results);
    let mut s = copy_str("Processed ");
    push_decimal(&mut s, results.len());
    s.append(" items (");
    push_decimal(&mut s, e);
    s.append(" enriched, ");
    push_decimal(&mut s, u);
    s.append(" unenriched, ");
    push_decimal(&mut s, f);
    s.append(" failed).");
    s
}

/// Whether the summary goes to Discord: unless disabled, when there is
/// something to report.
pub fn posts_summary(no_discord: bool, results: &Vec<ItemResult>) -> (r: bool)
    ensures
        r == (!no_discord && results@.len() > 0),
{
    !no_discord && results.len() > 0
}

/// The stem of an inbox file: its name without a final `.md`.
pub open spec fn source_stem_spec(name: Seq<char>) -> Seq<char> {
    if has_suffix(name, ".md"@) {
        name.take(name.len() - 3)
    } else {
        name
    }
}

/// The stem of an inbox file name.
pub fn source_stem(name: &str) -> (r: String)
    ensures
        r@ == source_stem_spec(name@),
{
    let v = chars_of(name);
    let md = chars_of(".md");
    proof {
        vstd::string::axiom_str_literal_len(".md");
    }
    if ends_with_chars(v.as_slice(), md.as_slice()) {
        proof {
            reveal_strlit(".md");
        }
        let r = string_from_chars(vstd::slice::slice_subrange(v.as_slice(), 0, v.len() - 3));
        assert(v@.subrange(0, v@.len() - 3) =~= v@.take(v@.len() - 3));
        r
    } else {
        copy_str(name)
    }
}

/// The report file of an item processed at `timestamp`.
pub fn report_file_name(timestamp: &str, stem: &str) -> (r: String)
    ensures
        r@ == timestamp@ + "-"@ + stem@ + "-digest.md"@,
{
    let mut n = copy_str(timestamp);
    n.append("-");
    n.append(stem);
    n.append("-digest.md");
    n
}

/// The first line of the text that is not blank.
pub open spec fn first_nonblank(ls: Seq<Seq<char>>) -> Option<Seq<char>>
    decreases ls.len(),
{
    if ls.len() == 0 {
        None
    } else if trim(ls[0]).len() > 0 {
        Some(ls[0])
    } else {
        first_nonblank(ls.drop_first())
    }
}

/// The task title: the first line that is not blank, or else the stem,
/// trimmed.
pub open spec fn task_title_spec(task: Seq<char>, stem: Seq<char>) -> Seq<char> {
    match first_nonblank(lines(task)) {
        Some(l) => trim(l),
        None => trim(stem),
    }
}

/// The first line of a text that is not blank.
pub fn first_nonblank_line(task_content: &str) -> (r: Option<String>)
    ensures
        opt_view(r) == first_nonblank(lines(task_content@)),
{
    let ls = str_lines(task_content);
    let ghost all = views(ls@);
    assert(all.skip(0) =~= all);
    for i in 0..ls.len()
        invariant
            all == views(ls@),
            all == lines(task_content@),
            first_nonblank(all) == first_nonblank(all.skip(i as int)),
    {
        assert(all.skip(i as int).drop_first() =~= all.skip(i + 1));
        assert(all.skip(i as int)[0] == ls@[i as int]@);
        if !is_blank(ls[i].as_slice()) {
            return Some(to_string(&ls[i]));
        }
    }
    assert(all.skip(ls@.len() as int) =~= Seq::<Seq<char>>::empty());
    None
}

/// The title of the task pushed to the API.
pub fn task_title(task_content: &str, stem: &str) -> (r: String)
    ensures
        r@ == task_title_spec(task_content@, stem@),
{
    match first_nonblank_line(task_content) {
        Some(l) => to_string(&trim_str(l.as_str())),
        None => to_string(&trim_str(stem)),
    }
}

/// What the caller has found out so far while pushing an item to the API.
pub struct ApiObservations {
    /// The id of the project the API created or found, `Some(None)` when
    /// that failed.
    pub project_id: Option<Option<String>>,
    /// Whether pushing the task succeeded.
    pub pushed: Option<bool>,
}

/// The mathematical value of an [`ApiObservations`].
pub struct ApiObsView {
    pub project_id: Option<Option<Seq<char>>>,
    pub pushed: Option<bool>,
}

impl View for ApiObservations {
    type V = ApiObsView;

    open spec fn view(&self) -> ApiObsView {
        ApiObsView {
            project_id: match self.project_id {
                Some(i) => Some(opt_view(i)),
                None => None,
            },
            pushed: self.pushed,
        }
    }
}

/// The next API request for an item, or whether its task was pushed.
pub enum ApiStep {
    /// Make sure the named project exists and learn its id.
    EnsureProject(String),
    /// Push a task: title, description, task type and project id.
    PushTask(String, String, String, Option<String>),
    /// Done: whether the task was pushed.
    Done(bool),
}

/// The mathematical value of an [`ApiStep`].
pub enum ApiPlan {
    EnsureProject(Seq<char>),
    PushTask(Seq<char>, Seq<char>, Seq<char>, Option<Seq<char>>),
    Done(bool),
}

impl View for ApiStep {
    type V = ApiPlan;

    open spec fn view(&self) -> ApiPlan {
        match self {
            ApiStep::EnsureProject(n) => ApiPlan::EnsureProject(n@),
            ApiStep::PushTask(t, d, k, p) => ApiPlan::PushTask(t@, d@, k@, opt_view(*p)),
            ApiStep::Done(b) => ApiPlan::Done(*b),
        }
    }
}

/// Pushing an item to the API: nothing without an API; else the item's
/// project, if it has one, is made sure of first, and then the task is
/// pushed with the item's title, its text, the task type of its action type
/// and the project's id when the project could be made sure of.
pub open spec fn api_plan(
    configured: bool,
    task: Seq<char>,
    stem: Seq<char>,
    project_name: Option<Seq<char>>,
    action_type: Seq<char>,
    obs: ApiObsView,
) -> ApiPlan {
    if !configured {
        ApiPlan::Done(false)
    } else if project_name is Some && obs.project_id is None {
        ApiPlan::EnsureProject(project_name.unwrap())
    } else {
        match obs.pushed {
            None => ApiPlan::PushTask(
                task_title_spec(task, stem),
                task,
                task_type_spec(action_type),
                if project_name is Some {
                    obs.project_id.unwrap()
                } else {
                    None
                },
            ),
            Some(b) => ApiPlan::Done(b),
        }
    }
}

/// Takes the item's API push one step.
pub fn api_step(
    configured: bool,
    task_content: &str,
    stem: &str,
    project_name: Option<&str>,
    action_type: &str,
    obs: &ApiObservations,
) -> (r: ApiStep)
    ensures
        r@ == api_plan(
            configured,
            task_content@,
            stem@,
            opt_str_view(project_name),
            action_type@,
            obs@,
        ),
{
    if !configured {
        return ApiStep::Done(false);
    }
    let project_id = match project_name {
        Some(n) => match &obs.project_id {
            None => return ApiStep::EnsureProject(copy_str(n)),
            Some(id) => copy_opt(id),
        },
        None => None,
    };
    match obs.pushed {
        None => ApiStep::PushTask(
            task_title(task_content, stem),
            copy_str(task_content),
            copy_str(map_task_type(action_type)),
            project_id,
        ),
        Some(b) => ApiStep::Done(b),
    }
}

/// Each API step asks for something the caller has not observed yet, and a
/// project is made sure of only when the item names one.
pub proof fn law_api_steps(
    configured: bool,
    task: Seq<char>,
    stem: Seq<char>,
    project_name: Option<Seq<char>>,
    action_type: Seq<char>,
    obs: ApiObsView,
)
    ensures
        api_plan(configured, task, stem, project_name, action_type, obs) is EnsureProject
            ==> project_name is Some && obs.project_id is None,
        api_plan(configured, task, stem, project_name, action_type, obs) is PushTask
            ==> obs.pushed is None,
        !configured ==> api_plan(configured, task, stem, project_name, action_type, obs)
            == ApiPlan::Done(false),
{
}

/// How a run starts.
#[derive(Debug, PartialEq, Eq, Structural)]
pub enum RunStart {
    /// The inbox holds no item: the run ends at once with exit code 0; it
    /// creates no folder, rotates no log, moves no file and calls no model,
    /// API or Discord.
    Empty,
    /// The run creates its folders, rotates old logs and processes items.
    Prepare,
}

/// How a run over an inbox whose regular files are `names` starts: it does
/// nothing at all when no Markdown file is there.
pub open spec fn run_start_spec(names: Seq<Seq<char>>) -> RunStart {
    if next_inbox_item(names) is None {
        RunStart::Empty
    } else {
        RunStart::Prepare
    }
}

/// The first step of a run, given the names of the regular files in the
/// inbox.
pub fn run_start(file_names: &Vec<String>) -> (r: RunStart)
    ensures
        r == run_start_spec(strs(file_names@)),
{
    match first_inbox_item(file_names) {
        None => RunStart::Empty,
        Some(_) => RunStart::Prepare,
    }
}

/// Where an inbox file goes after processing.
#[derive(Debug, PartialEq, Eq, Structural)]
pub enum Destination {
    /// It stays in the inbox.
    Stay,
    /// It moves to `Processed/`.
    Processed,
    /// It moves to `Failed/`.
    Failed,
}

/// The result of processing one item and where its file goes.
#[derive(Debug)]
pub struct ItemOutcome {
    pub result: ItemResult,
    pub destination: Destination,
}

/// An item whose file cannot be read: failed, of unknown type, moved to
/// `Failed/`, or left in the inbox in a dry run.
pub open spec fn read_failure_spec(name: Seq<char>, dry_run: bool, o: ItemOutcome) -> bool {
    &&& o.result.source_file@ == name
    &&& o.result.project_name is None
    &&& o.result.action_type@ == "unknown"@
    &&& o.result.exec_status@ == "failed"@
    &&& !o.result.enriched
    &&& o.result.failed
    &&& o.result.pr_url is None
    &&& o.destination == if dry_run {
        Destination::Stay
    } else {
        Destination::Failed
    }
}

/// The outcome for an item whose file cannot be read.
pub fn read_failure(original_name: String, dry_run: bool) -> (r: ItemOutcome)
    ensures
        read_failure_spec(original_name@, dry_run, r),
{
    ItemOutcome {
        result: ItemResult {
            source_file: original_name,
            project_name: None,
            action_type: copy_str("unknown"),
            exec_status: copy_str("failed"),
            enriched: false,
            failed: true,
            pr_url: None,
        },
        destination: if dry_run {
            Destination::Stay
        } else {
            Destination::Failed
        },
    }
}

/// An item that was read and classified: when its report could not be
/// written it failed (its enrichment does not count) and moves to
/// `Failed/`; else it is `pushed` or `filed` and moves to `Processed/`.
/// In a dry run it stays in the inbox either way.
pub open spec fn finish_spec(
    name: Seq<char>,
    project_name: Option<Seq<char>>,
    action_type: Seq<char>,
    enriched: bool,
    api_pushed: bool,
    report_written: bool,
    dry_run: bool,
    o: ItemOutcome,
) -> bool {
    &&& o.result.source_file@ == name
    &&& opt_view(o.result.project_name) == project_name
    &&& o.result.action_type@ == action_type
    &&& o.result.pr_url is None
    &&& o.result.failed == !report_written
    &&& o.result.enriched == (report_written && enriched)
    &&& o.result.exec_status@ == if !report_written {
        "failed"@
    } else if api_pushed {
        "pushed"@
    } else {
        "filed"@
    }
    &&& o.destination == if dry_run {
        Destination::Stay
    } else if report_written {
        Destination::Processed
    } else {
        Destination::Failed
    }
}

/// The outcome for an item that was read and classified.
pub fn finish_item(
    original_name: String,
    project_name: Option<String>,
    action_type: String,
    enriched: bool,
    api_pushed: bool,
    report_written: bool,
    dry_run: bool,
) -> (r: ItemOutcome)
    ensures
        finish_spec(
            original_name@,
            opt_view(project_name),
            action_type@,
            enriched,
            api_pushed,
            report_written,
            dry_run,
            r,
        ),
{
    let exec_status = if !report_written {
        copy_str("failed")
    } else if api_pushed {
        copy_str("pushed")
    } else {
        copy_str("filed")
    };
    let destination = if dry_run {
        Destination::Stay
    } else if report_written {
        Destination::Processed
    } else {
        Destination::Failed
    };
    ItemOutcome {
        result: ItemResult {
            source_file: original_name,
            project_name,
            action_type,
            exec_status,
            enriched: report_written && enriched,
            failed: !report_written,
            pr_url: None,
        },
        destination,
    }
}

} // verus!

verus! {

/// No item counts as both enriched and failed.
pub open spec fn consistent(r: ItemResult) -> bool {
    !(r.enriched && r.failed)
}

/// Every processed item is consistent: an item whose file could not be read
/// or whose report could not be written is failed and not enriched.
pub proof fn law_outcomes_consistent(
    name: Seq<char>,
    project_name: Option<Seq<char>>,
    action_type: Seq<char>,
    enriched: bool,
    api_pushed: bool,
    report_written: bool,
    dry_run: bool,
    o: ItemOutcome,
)
    requires
        read_failure_spec(name, dry_run, o) || finish_spec(
            name,
            project_name,
            action_type,
            enriched,
            api_pushed,
            report_written,
            dry_run,
            o,
        ),
    ensures
        consistent(o.result),
{
}

/// A model failure is never an item failure: an item whose report was
/// written is not failed, enriched or not, and leaves the inbox for
/// `Processed/` unless it is a dry run.
pub proof fn law_model_failure_not_item_failure(
    name: Seq<char>,
    project_name: Option<Seq<char>>,
    action_type: Seq<char>,
    enriched: bool,
    api_pushed: bool,
    dry_run: bool,
    o: ItemOutcome,
)
    requires
        finish_spec(name, project_name, action_type, enriched, api_pushed, true, dry_run, o),
    ensures
        !o.result.failed,
        o.destination == if dry_run {
            Destination::Stay
        } else {
            Destination::Processed
        },
{
}

/// The enriched, unenriched and failed items of a run of consistent items
/// add up to all items.
pub proof fn law_counts_partition(rs: Seq<ItemResult>)
    requires
        forall|i: int| 0 <= i < rs.len() ==> consistent(#[trigger] rs[i]),
    ensures
        counts(rs).0 + counts(rs).1 + counts(rs).2 == rs.len(),
    decreases rs.len(),
{
    if rs.len() > 0 {
        let init = rs.drop_last();
        assert forall|i: int| 0 <= i < init.len() implies consistent(#[trigger] init[i]) by {
            assert(init[i] == rs[i]);
        }
        law_counts_partition(init);
        assert(consistent(rs[rs.len() - 1]));
    }
}

/// A run ends with code 1 exactly when some processed item failed; a run
/// without items, or whose items all had their reports written, ends with 0.
pub proof fn law_exit_code(rs: Seq<ItemResult>)
    ensures
        exit_code_spec(rs) == 1 <==> exists|i: int| 0 <= i < rs.len() && #[trigger] rs[i].failed,
        exit_code_spec(rs) == 0 || exit_code_spec(rs) == 1,
    decreases rs.len(),
{
    if rs.len() > 0 {
        let init = rs.drop_last();
        law_exit_code(init);
        if exists|i: int| 0 <= i < init.len() && #[trigger] init[i].failed {
            let i = choose|i: int| 0 <= i < init.len() && #[trigger] init[i].failed;
            assert(rs[i] == init[i]);
        }
        if exists|i: int| 0 <= i < rs.len() && #[trigger] rs[i].failed {
            let i = choose|i: int| 0 <= i < rs.len() && #[trigger] rs[i].failed;
            if i < rs.len() - 1 {
                assert(init[i] == rs[i]);
            }
        }
    }
}

/// A run processes at most `max_items` items, all of them when it is 0.
pub proof fn law_item_limit(max_items: usize, processed: usize)
    ensures
        max_items > 0 ==> (processed < item_limit_spec(max_items) <==> processed < max_items),
        max_items == 0 ==> (processed < item_limit_spec(max_items) <==> processed < usize::MAX),
{
}

/// Whether a name is other than `n`.
pub open spec fn other_than(n: Seq<char>) -> spec_fn(Seq<char>) -> bool {
    |m: Seq<char>| m != n
}

/// The names of `names` other than `n`.
pub open spec fn without(names: Seq<Seq<char>>, n: Seq<char>) -> Seq<Seq<char>> {
    names.filter(other_than(n))
}

/// A name is left after removing `n` exactly when it was there and is not `n`.
pub proof fn lemma_without_contains(names: Seq<Seq<char>>, n: Seq<char>, m: Seq<char>)
    ensures
        without(names, n).contains(m) <==> names.contains(m) && m != n,
{
    let pred = other_than(n);
    if without(names, n).contains(m) {
        names.lemma_filter_contains_rev(pred, m);
        let i = choose|i: int| 0 <= i < names.filter(pred).len() && names.filter(pred)[i] == m;
        names.lemma_filter_pred(pred, i);
    }
    if names.contains(m) && m != n {
        let i = choose|i: int| 0 <= i < names.len() && names[i] == m;
        names.lemma_filter_contains(pred, i);
    }
}

/// Some Markdown name of a list is first in the order of names.
pub proof fn lemma_first_markdown_exists(names: Seq<Seq<char>>)
    requires
        exists|m: Seq<char>| names.contains(m) && is_markdown(m),
    ensures
        exists|n: Seq<char>| first_markdown(names, n),
    decreases names.len(),
{
    let init = names.drop_last();
    let last = names.last();
    if exists|m: Seq<char>| init.contains(m) && is_markdown(m) {
        lemma_first_markdown_exists(init);
        let n0 = choose|n: Seq<char>| first_markdown(init, n);
        assert(names.contains(n0)) by {
            let i = choose|i: int| 0 <= i < init.len() && init[i] == n0;
            assert(names[i] == init[i]);
        }
        lemma_lex_total(n0, last);
        if is_markdown(last) && lex_le(last, n0) {
            assert(names[names.len() - 1] == last);
            assert forall|m: Seq<char>| names.contains(m) && is_markdown(m) implies lex_le(last, m) by {
                let i = choose|i: int| 0 <= i < names.len() && names[i] == m;
                if i < names.len() - 1 {
                    assert(init[i] == m);
                    lemma_lex_trans(last, n0, m);
                } else {
                    lemma_lex_refl(last);
                }
            }
            assert(first_markdown(names, last));
        } else {
            assert forall|m: Seq<char>| names.contains(m) && is_markdown(m) implies lex_le(n0, m) by {
                let i = choose|i: int| 0 <= i < names.len() && names[i] == m;
                if i < names.len() - 1 {
                    assert(init[i] == m);
                }
            }
            assert(first_markdown(names, n0));
        }
    } else {
        let m = choose|m: Seq<char>| names.contains(m) && is_markdown(m);
        let i = choose|i: int| 0 <= i < names.len() && names[i] == m;
        if i < names.len() - 1 {
            assert(init[i] == m);
            assert(init.contains(m));
        }
        assert(names[names.len() - 1] == last);
        assert forall|x: Seq<char>| names.contains(x) && is_markdown(x) implies lex_le(last, x) by {
            let j = choose|j: int| 0 <= j < names.len() && names[j] == x;
            if j < names.len() - 1 {
                assert(init[j] == x);
                assert(init.contains(x));
            }
            lemma_lex_refl(last);
        }
        assert(first_markdown(names, last));
    }
}

/// The items a run takes, in order, from an inbox whose files are `names`,
/// when each processed item leaves the inbox (as every item does outside a
/// dry run): the next inbox item, then the same over the other files, until
/// `limit` items are taken or no Markdown file is left.
pub open spec fn run_items(names: Seq<Seq<char>>, limit: nat) -> Seq<Seq<char>>
    decreases limit,
{
    if limit == 0 {
        Seq::empty()
    } else {
        match next_inbox_item(names) {
            None => Seq::empty(),
            Some(n) => seq![n] + run_items(without(names, n), (limit - 1) as nat),
        }
    }
}

/// A run outside a dry run processes the Markdown files of the inbox in the
/// order of their names, each once: the items it takes are Markdown files
/// of the inbox in increasing order, every Markdown file it leaves comes
/// after all of them, and it leaves one only when it reached its limit.
pub proof fn law_run_takes_first_items(names: Seq<Seq<char>>, limit: nat)
    ensures
        forall|i: int|
            0 <= i < run_items(names, limit).len() ==> names.contains(
                #[trigger] run_items(names, limit)[i],
            ) && is_markdown(run_items(names, limit)[i]),
        forall|i: int, j: int|
            0 <= i < j < run_items(names, limit).len() ==> lex_le(
                #[trigger] run_items(names, limit)[i],
                #[trigger] run_items(names, limit)[j],
            ) && run_items(names, limit)[i] != run_items(names, limit)[j],
        forall|m: Seq<char>, i: int|
            names.contains(m) && is_markdown(m) && !run_items(names, limit).contains(m) && 0 <= i
                < run_items(names, limit).len() ==> #[trigger] lex_le(run_items(names, limit)[i], m)
                && run_items(names, limit)[i] != m,
        run_items(names, limit).len() <= limit,
        run_items(names, limit).len() < limit ==> forall|m: Seq<char>|
            names.contains(m) && is_markdown(m) ==> #[trigger] run_items(names, limit).contains(m),
    decreases limit,
{
    let k = run_items(names, limit);
    if limit > 0 && next_inbox_item(names) is Some {
        lemma_first_markdown_exists(names);
        let n = next_inbox_item(names).unwrap();
        assert(first_markdown(names, n));
        let rest = without(names, n);
        let r = run_items(rest, (limit - 1) as nat);
        law_run_takes_first_items(rest, (limit - 1) as nat);
        assert(k == seq![n] + r);
        assert forall|i: int| 0 <= i < r.len() implies names.contains(#[trigger] r[i]) && r[i] != n
            && lex_le(n, r[i]) by {
            lemma_without_contains(names, n, r[i]);
        }
        assert forall|i: int| 0 <= i < k.len() implies names.contains(#[trigger] k[i]) && is_markdown(
            k[i],
        ) by {
            if i > 0 {
                assert(k[i] == r[i - 1]);
            }
        }
        assert forall|i: int, j: int| 0 <= i < j < k.len() implies lex_le(
            #[trigger] k[i],
            #[trigger] k[j],
        ) && k[i] != k[j] by {
            assert(k[j] == r[j - 1]);
            if i > 0 {
                assert(k[i] == r[i - 1]);
            }
        }
        assert forall|m: Seq<char>, i: int|
            names.contains(m) && is_markdown(m) && !k.contains(m) && 0 <= i < k.len() implies #[trigger] lex_le(
            k[i],
            m,
        ) && k[i] != m by {
            assert(k[0] == n);
            assert(m != n);
            lemma_without_contains(names, n, m);
            assert(!r.contains(m)) by {
                if r.contains(m) {
                    let j = choose|j: int| 0 <= j < r.len() && r[j] == m;
                    assert(k[j + 1] == m);
                }
            }
            if i > 0 {
                assert(k[i] == r[i - 1]);
            }
        }
        if k.len() < limit {
            assert forall|m: Seq<char>| names.contains(m) && is_markdown(m) implies #[trigger] k.contains(
                m,
            ) by {
                if m == n {
                    assert(k[0] == m);
                } else {
                    lemma_without_contains(names, n, m);
                    assert(r.contains(m));
                    let j = choose|j: int| 0 <= j < r.len() && r[j] == m;
                    assert(k[j + 1] == m);
                }
            }
        }
    }
}

/// A run over an inbox without Markdown files does nothing: it stops
/// before any preparation, takes no item and exits with 0.
pub proof fn law_empty_run(names: Seq<Seq<char>>, limit: nat)
    requires
        forall|m: Seq<char>| names.contains(m) ==> !is_markdown(m),
    ensures
        run_start_spec(names) == RunStart::Empty,
        run_items(names, limit).len() == 0,
        exit_code_spec(Seq::empty()) == 0,
{
    if limit > 0 {
        assert(next_inbox_item(names) is None);
    }
}

} // verus!
