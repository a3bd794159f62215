//! Enrichment of an inbox item by the language model, with a fixed
//! fallback when the model is unavailable or its answer is unusable.
use vstd::prelude::*;

use crate::llm::{main_agent_args, main_args};
use crate::text::{copy_str, has_prefix, has_suffix, strs};
use crate::types::{Enrichment, EnrichmentView};

verus! {

/// The enrichment prompt, up to the task text.
pub const ENRICH_PROMPT_HEAD: &'static str =
    "You are a strict JSON API. Given the task below, return ONLY a single JSON object. No markdown fences, no prose, no explanation \u{2014} just the raw JSON object.\n\nSchema:\n{\"planned_actions\": [\"string\", ...], \"clarifying_questions\": [\"string\", ...], \"next_step\": \"string\"}\n\nRules:\n- planned_actions: array of concrete action strings (at least one).\n- clarifying_questions: array of question strings. Use [] if the task is clear.\n- next_step: single string describing the immediate next action.\n- Output MUST be valid JSON. Nothing else.\n\nTask:\n";

/// The text that stands in for an enrichment when there is none.
pub const ENRICH_FALLBACK: &'static str =
    "## Planned Actions\n- (LLM enrichment unavailable \u{2014} manual review required)\n\n## Clarifying Questions\n- None\n\n## Suggested Next Step\n- Review inbox item manually and determine actions";

/// One Markdown bullet per item.
pub open spec fn bullets(items: Seq<Seq<char>>) -> Seq<char>
    decreases items.len(),
{
    if items.len() == 0 {
        Seq::empty()
    } else {
        bullets(items.drop_last()) + "- "@ + items.last() + "\n"@
    }
}

/// The Markdown rendering of an enrichment: the planned actions, the
/// clarifying questions (`None` when there are none) and the next step.
pub open spec fn render_spec(e: EnrichmentView) -> Seq<char> {
    "## Planned Actions\n"@ + bullets(e.planned_actions) + "\n## Clarifying Questions\n"@ + (
    if e.clarifying_questions.len() == 0 {
        "- None\n"@
    } else {
        bullets(e.clarifying_questions)
    }) + "\n## Suggested Next Step\n- "@ + e.next_step + "\n"@
}

fn push_bullets(out: &mut String, items: &Vec<String>)
    ensures
        final(out)@ == old(out)@ + bullets(strs(items@)),
{
    let ghost start = out@;
    let ghost all = strs(items@);
    for i in 0..items.len()
        invariant
            all == strs(items@),
            out@ == start + bullets(all.take(i as int)),
    {
        assert(all.take(i + 1).drop_last() =~= all.take(i as int));
        out.append("- ");
        out.append(items[i].as_str());
        out.append("\n");
        assert(out@ =~= start + bullets(all.take(i + 1)));
    }
    assert(all.take(items@.len() as int) =~= all);
}

/// Renders an enrichment as Markdown.
pub fn render_enrichment(e: &Enrichment) -> (r: String)
    ensures
        r@ == render_spec(e@),
{
    let mut r = copy_str("## Planned Actions\n");
    push_bullets(&mut r, &e.planned_actions);
    r.append("\n## Clarifying Questions\n");
    if e.clarifying_questions.len() == 0 {
        r.append("- None\n");
    } else {
        push_bullets(&mut r, &e.clarifying_questions);
    }
    r.append("\n## Suggested Next Step\n- ");
    r.append(e.next_step.as_str());
    r.append("\n");
    r
}

/// The enrichment prompt for a task.
pub open spec fn enrich_prompt_spec(task: Seq<char>) -> Seq<char> {
    ENRICH_PROMPT_HEAD@ + task
}

/// What the caller has found out so far for an enrichment.
pub struct EnrichObservations {
    /// Whether the language-model command can be found.
    pub llm_available: Option<bool>,
    /// The model's answer: `Some(None)` when the call failed or its answer
    /// was not a valid enrichment.
    pub llm_answer: Option<Option<Enrichment>>,
}

/// The mathematical value of an [`EnrichObservations`].
pub struct EnrichObsView {
    pub llm_available: Option<bool>,
    pub llm_answer: Option<Option<EnrichmentView>>,
}

impl View for EnrichObservations {
    type V = EnrichObsView;

    open spec fn view(&self) -> EnrichObsView {
        EnrichObsView {
            llm_available: self.llm_available,
            llm_answer: match self.llm_answer {
                Some(Some(e)) => Some(Some(e@)),
                Some(None) => Some(None),
                None => None,
            },
        }
    }
}

/// The next thing an enrichment needs, or its result: whether the item
/// was enriched, and the rendered Markdown.
pub enum EnrichStep {
    /// Check whether the language-model command exists.
    CheckLlm,
    /// Run the language-model command with these arguments.
    AskLlm(Vec<String>),
    /// The enrichment is decided.
    Done(bool, String),
}

/// The mathematical value of an [`EnrichStep`].
pub enum EnrichPlan {
    CheckLlm,
    AskLlm(Seq<Seq<char>>),
    Done(bool, Seq<char>),
}

impl View for EnrichStep {
    type V = EnrichPlan;

    open spec fn view(&self) -> EnrichPlan {
        match self {
            EnrichStep::CheckLlm => EnrichPlan::CheckLlm,
            EnrichStep::AskLlm(a) => EnrichPlan::AskLlm(strs(a@)),
            EnrichStep::Done(b, s) => EnrichPlan::Done(*b, s@),
        }
    }
}

/// Enrichment: the model's answer rendered as Markdown when the model is
/// available and answers with a valid enrichment, else the fallback text.
pub open spec fn enrich_plan(task: Seq<char>, obs: EnrichObsView) -> EnrichPlan {
    match obs.llm_available {
        None => EnrichPlan::CheckLlm,
        Some(false) => EnrichPlan::Done(false, ENRICH_FALLBACK@),
        Some(true) => match obs.llm_answer {
            None => EnrichPlan::AskLlm(main_agent_args(enrich_prompt_spec(task))),
            Some(None) => EnrichPlan::Done(false, ENRICH_FALLBACK@),
            Some(Some(e)) => EnrichPlan::Done(true, render_spec(e)),
        },
    }
}

/// Enriches the item, or says what to find out next.
pub fn enrich(task_content: &str, obs: &EnrichObservations) -> (r: EnrichStep)
    ensures
        r@ == enrich_plan(task_content@, obs@),
{
    match obs.llm_available {
        None => EnrichStep::CheckLlm,
        Some(false) => EnrichStep::Done(false, copy_str(ENRICH_FALLBACK)),
        Some(true) => match &obs.llm_answer {
            None => {
                let mut prompt = copy_str(ENRICH_PROMPT_HEAD);
                prompt.append(task_content);
                EnrichStep::AskLlm(main_args(prompt))
            },
            Some(None) => EnrichStep::Done(false, copy_str(ENRICH_FALLBACK)),
            Some(Some(e)) => EnrichStep::Done(true, render_enrichment(e)),
        },
    }
}

} // verus!

verus! {

/// A model that is missing, fails, or answers with something that is not
/// an enrichment leaves the item unenriched with the fallback text.
pub proof fn law_enrich_degrades(task: Seq<char>, obs: EnrichObsView)
    requires
        obs.llm_available == Some(false) || (obs.llm_available == Some(true) && obs.llm_answer
            == Some(None::<EnrichmentView>)),
    ensures
        enrich_plan(task, obs) == EnrichPlan::Done(false, ENRICH_FALLBACK@),
{
}

/// An item is enriched exactly when the model is available and answers
/// with an enrichment, and then the text is that enrichment rendered.
pub proof fn law_enriched_iff_answer(task: Seq<char>, obs: EnrichObsView)
    ensures
        enrich_plan(task, obs) matches EnrichPlan::Done(true, text) ==> (obs.llm_available == Some(
            true,
        ) && (obs.llm_answer matches Some(Some(e)) && text == render_spec(e))),
{
}

/// Each step of an enrichment asks for something the caller has not
/// observed yet.
pub proof fn law_enrich_steps_progress(task: Seq<char>, obs: EnrichObsView)
    ensures
        enrich_plan(task, obs) is CheckLlm ==> obs.llm_available is None,
        enrich_plan(task, obs) is AskLlm ==> obs.llm_answer is None,
{
}

/// The text after the questions: the next step's section.
pub open spec fn next_step_tail(next_step: Seq<char>) -> Seq<char> {
    "\n## Suggested Next Step\n- "@ + next_step + "\n"@
}

/// Without planned actions the rendering opens with the two headings, and
/// without questions the questions section reads `- None`, followed by the
/// next step's section, which ends the rendering.
pub proof fn law_render_empty_sections(
    planned_actions: Seq<Seq<char>>,
    clarifying_questions: Seq<Seq<char>>,
    next_step: Seq<char>,
)
    ensures
        has_prefix(
            render_spec(
                EnrichmentView { planned_actions: Seq::empty(), clarifying_questions, next_step },
            ),
            "## Planned Actions\n\n## Clarifying Questions\n"@,
        ),
        has_suffix(
            render_spec(
                EnrichmentView { planned_actions, clarifying_questions: Seq::empty(), next_step },
            ),
            "\n## Clarifying Questions\n- None\n"@ + next_step_tail(next_step),
        ),
        has_suffix(
            render_spec(EnrichmentView { planned_actions, clarifying_questions, next_step }),
            next_step_tail(next_step),
        ),
{
    reveal_strlit("## Planned Actions\n");
    reveal_strlit("\n## Clarifying Questions\n");
    reveal_strlit("## Planned Actions\n\n## Clarifying Questions\n");
    reveal_strlit("\n## Clarifying Questions\n- None\n");
    reveal_strlit("- None\n");
    let r0 = render_spec(
        EnrichmentView { planned_actions: Seq::empty(), clarifying_questions, next_step },
    );
    assert(r0.take(44) =~= "## Planned Actions\n\n## Clarifying Questions\n"@);
    let r1 = render_spec(
        EnrichmentView { planned_actions, clarifying_questions: Seq::empty(), next_step },
    );
    let s1 = "\n## Clarifying Questions\n- None\n"@ + next_step_tail(next_step);
    assert(r1.skip(r1.len() - s1.len()) =~= s1);
    let r2 = render_spec(EnrichmentView { planned_actions, clarifying_questions, next_step });
    let t = next_step_tail(next_step);
    assert(r2.skip(r2.len() - t.len()) =~= t);
}

/// Adding a planned action adds its bullet line `- <action>` at the end of
/// the planned actions, just before the questions section, and changes
/// nothing else.
pub proof fn law_render_action_added(
    planned_actions: Seq<Seq<char>>,
    action: Seq<char>,
    clarifying_questions: Seq<Seq<char>>,
    next_step: Seq<char>,
)
    ensures
        ({
            let before = render_spec(
                EnrichmentView { planned_actions, clarifying_questions, next_step },
            );
            let after = render_spec(
                EnrichmentView {
                    planned_actions: planned_actions.push(action),
                    clarifying_questions,
                    next_step,
                },
            );
            let rest = render_spec(
                EnrichmentView { planned_actions: Seq::empty(), clarifying_questions, next_step },
            ).skip(19);
            &&& has_suffix(before, rest)
            &&& after == before.take(before.len() - rest.len()) + ("- "@ + action + "\n"@) + rest
        }),
{
    reveal_strlit("## Planned Actions\n");
    let before = render_spec(EnrichmentView { planned_actions, clarifying_questions, next_step });
    let pushed = planned_actions.push(action);
    let after = render_spec(
        EnrichmentView { planned_actions: pushed, clarifying_questions, next_step },
    );
    let rest = render_spec(
        EnrichmentView { planned_actions: Seq::empty(), clarifying_questions, next_step },
    ).skip(19);
    assert(pushed.drop_last() =~= planned_actions);
    let q = if clarifying_questions.len() == 0 {
        "- None\n"@
    } else {
        bullets(clarifying_questions)
    };
    let tail = "\n## Clarifying Questions\n"@ + q + next_step_tail(next_step);
    assert(rest =~= tail);
    assert(before =~= "## Planned Actions\n"@ + bullets(planned_actions) + tail);
    assert(after =~= "## Planned Actions\n"@ + bullets(planned_actions) + ("- "@ + action + "\n"@)
        + tail);
    assert(before.skip(before.len() - rest.len()) =~= rest);
    assert(before.take(before.len() - rest.len()) =~= "## Planned Actions\n"@ + bullets(
        planned_actions,
    ));
}

/// The first clarifying question replaces the `- None` line by its bullet
/// line `- <question>`.
pub proof fn law_render_first_question(
    planned_actions: Seq<Seq<char>>,
    question: Seq<char>,
    next_step: Seq<char>,
)
    ensures
        ({
            let none = render_spec(
                EnrichmentView { planned_actions, clarifying_questions: Seq::empty(), next_step },
            );
            let one = render_spec(
                EnrichmentView { planned_actions, clarifying_questions: seq![question], next_step },
            );
            let tail = next_step_tail(next_step);
            one == none.take(none.len() - tail.len() - 7) + ("- "@ + question + "\n"@) + tail
        }),
{
    reveal_strlit("- None\n");
    let tail = next_step_tail(next_step);
    let head = "## Planned Actions\n"@ + bullets(planned_actions) + "\n## Clarifying Questions\n"@;
    let none = render_spec(
        EnrichmentView { planned_actions, clarifying_questions: Seq::empty(), next_step },
    );
    let one = render_spec(
        EnrichmentView { planned_actions, clarifying_questions: seq![question], next_step },
    );
    assert(seq![question].drop_last() =~= Seq::<Seq<char>>::empty());
    assert(bullets(Seq::<Seq<char>>::empty()) == Seq::<char>::empty());
    assert(seq![question].last() == question);
    assert(bullets(seq![question]) =~= "- "@ + question + "\n"@);
    assert(none =~= head + "- None\n"@ + tail);
    assert(none.take(none.len() - tail.len() - 7) =~= head);
    assert(one =~= head + ("- "@ + question + "\n"@) + tail);
}

/// Adding a clarifying question to a non-empty list adds its bullet line
/// `- <question>` at the end of the questions, just before the next step's
/// section, and changes nothing else.
pub proof fn law_render_question_added(
    planned_actions: Seq<Seq<char>>,
    clarifying_questions: Seq<Seq<char>>,
    question: Seq<char>,
    next_step: Seq<char>,
)
    requires
        clarifying_questions.len() > 0,
    ensures
        ({
            let before = render_spec(
                EnrichmentView { planned_actions, clarifying_questions, next_step },
            );
            let after = render_spec(
                EnrichmentView {
                    planned_actions,
                    clarifying_questions: clarifying_questions.push(question),
                    next_step,
                },
            );
            let tail = next_step_tail(next_step);
            after == before.take(before.len() - tail.len()) + ("- "@ + question + "\n"@) + tail
        }),
{
    let tail = next_step_tail(next_step);
    let pushed = clarifying_questions.push(question);
    assert(pushed.drop_last() =~= clarifying_questions);
    let head = "## Planned Actions\n"@ + bullets(planned_actions) + "\n## Clarifying Questions\n"@;
    let before = render_spec(EnrichmentView { planned_actions, clarifying_questions, next_step });
    let after = render_spec(
        EnrichmentView { planned_actions, clarifying_questions: pushed, next_step },
    );
    assert(before =~= head + bullets(clarifying_questions) + tail);
    assert(before.take(before.len() - tail.len()) =~= head + bullets(clarifying_questions));
    assert(after =~= head + bullets(clarifying_questions) + ("- "@ + question + "\n"@) + tail);
}

} // verus!
