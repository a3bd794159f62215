//! Model selection policy: which model serves a processing step.
use vstd::prelude::*;

use crate::text::{chars_equal, chars_of, contains_seq, copy_str, str_contains};

verus! {

/// A model tier: the model's name and its token budget.
#[derive(Debug)]
pub struct ModelConfig {
    pub name: String,
    pub max_tokens: u32,
}

/// The tag that asks for the deep model tier, and that tier.
#[derive(Debug)]
pub struct PolicyOverrides {
    pub deep_tag: String,
    pub deep_tag_model: String,
}

/// The policy: model tiers by name, the tier of each processing step, and
/// the deep-tag override.  Tier and step names occur at most once each, as
/// in the maps they are read from.
#[derive(Debug)]
pub struct PolicyConfig {
    models: Vec<(String, ModelConfig)>,
    routing: Vec<(String, String)>,
    overrides: PolicyOverrides,
}

/// The deep tag when the policy names none.
pub fn default_deep_tag() -> (r: String)
    ensures
        r@ == "#deep"@,
{
    copy_str("#deep")
}

/// The deep-tag tier when the policy names none.
pub fn default_expensive() -> (r: String)
    ensures
        r@ == "expensive"@,
{
    copy_str("expensive")
}

/// The keys of an association list are distinct.
pub open spec fn distinct_keys<V>(entries: Seq<(String, V)>) -> bool {
    forall|i: int, j: int|
        0 <= i < j < entries.len() ==> #[trigger] entries[i].0@ != #[trigger] entries[j].0@
}

/// Whether the keys of an association list are distinct.
fn has_distinct_keys<V>(entries: &Vec<(String, V)>) -> (r: bool)
    ensures
        r == distinct_keys(entries@),
{
    let n = entries.len();
    for i in 0..n
        invariant
            n == entries@.len(),
            forall|a: int, b: int|
                0 <= a < b < n && a < i ==> #[trigger] entries@[a].0@ != #[trigger] entries@[b].0@,
    {
        let ki = chars_of(entries[i].0.as_str());
        for j in i + 1..n
            invariant
                n == entries@.len(),
                ki@ == entries@[i as int].0@,
                i < n,
                forall|a: int, b: int|
                    0 <= a < b < n && a < i ==> #[trigger] entries@[a].0@ != #[trigger] entries@[b].0@,
                forall|b: int| i < b < j ==> entries@[i as int].0@ != #[trigger] entries@[b].0@,
        {
            let kj = chars_of(entries[j].0.as_str());
            if chars_equal(ki.as_slice(), kj.as_slice()) {
                return false;
            }
        }
    }
    true
}

impl PolicyConfig {
    /// Tier names and step names are distinct, as in the maps they come from.
    #[verifier::type_invariant]
    pub closed spec fn wf(self) -> bool {
        distinct_keys(self.models@) && distinct_keys(self.routing@)
    }

    /// The model tiers, by name.
    pub closed spec fn models_view(self) -> Seq<(String, ModelConfig)> {
        self.models@
    }

    /// The tier of each processing step.
    pub closed spec fn routing_view(self) -> Seq<(String, String)> {
        self.routing@
    }

    /// The deep-tag override.
    pub closed spec fn overrides_view(self) -> PolicyOverrides {
        self.overrides
    }

    /// A policy of these tiers, routes and override; `None` when a tier name
    /// or a step name occurs twice.
    pub fn new(
        models: Vec<(String, ModelConfig)>,
        routing: Vec<(String, String)>,
        overrides: PolicyOverrides,
    ) -> (r: Option<PolicyConfig>)
        ensures
            match r {
                Some(p) => {
                    &&& distinct_keys(models@) && distinct_keys(routing@)
                    &&& p.models_view() == models@
                    &&& p.routing_view() == routing@
                    &&& p.overrides_view() == overrides
                },
                None => !(distinct_keys(models@) && distinct_keys(routing@)),
            },
    {
        if has_distinct_keys(&models) && has_distinct_keys(&routing) {
            Some(PolicyConfig { models, routing, overrides })
        } else {
            None
        }
    }
}

/// The model name of the tier called `tier`.
pub open spec fn model_of(models: Seq<(String, ModelConfig)>, tier: Seq<char>) -> Option<Seq<char>>
    decreases models.len(),
{
    if models.len() == 0 {
        None
    } else if models[0].0@ == tier {
        Some(models[0].1.name@)
    } else {
        model_of(models.drop_first(), tier)
    }
}

/// The tier of the step called `step`.
pub open spec fn tier_of(routing: Seq<(String, String)>, step: Seq<char>) -> Option<Seq<char>>
    decreases routing.len(),
{
    if routing.len() == 0 {
        None
    } else if routing[0].0@ == step {
        Some(routing[0].1@)
    } else {
        tier_of(routing.drop_first(), step)
    }
}

/// The tier for a step: the deep-tag tier when the task mentions the deep
/// tag, else the step's tier, `mid` for an unrouted step.
pub open spec fn effective_tier(p: PolicyConfig, step: Seq<char>, task: Seq<char>) -> Seq<char> {
    if contains_seq(task, p.overrides_view().deep_tag@) {
        p.overrides_view().deep_tag_model@
    } else {
        match tier_of(p.routing_view(), step) {
            Some(t) => t,
            None => "mid"@,
        }
    }
}

/// The model for a step: none without a policy, else the model of the
/// effective tier, if that tier exists.
pub open spec fn select_model_spec(policy: Option<PolicyConfig>, step: Seq<char>, task: Seq<
    char,
>) -> Option<Seq<char>> {
    match policy {
        None => None,
        Some(p) => model_of(p.models_view(), effective_tier(p, step, task)),
    }
}

fn lookup_tier(routing: &Vec<(String, String)>, step: &str) -> (r: Option<String>)
    ensures
        crate::text::opt_view(r) == tier_of(routing@, step@),
{
    let s = chars_of(step);
    assert(routing@.skip(0) =~= routing@);
    for i in 0..routing.len()
        invariant
            s@ == step@,
            tier_of(routing@, step@) == tier_of(routing@.skip(i as int), step@),
    {
        assert(routing@.skip(i as int).drop_first() =~= routing@.skip(i + 1));
        let k = chars_of(routing[i].0.as_str());
        if chars_equal(k.as_slice(), s.as_slice()) {
            return Some(routing[i].1.clone());
        }
    }
    None
}

fn lookup_model(models: &Vec<(String, ModelConfig)>, tier: &str) -> (r: Option<String>)
    ensures
        crate::text::opt_view(r) == model_of(models@, tier@),
{
    let t = chars_of(tier);
    assert(models@.skip(0) =~= models@);
    for i in 0..models.len()
        invariant
            t@ == tier@,
            model_of(models@, tier@) == model_of(models@.skip(i as int), tier@),
    {
        assert(models@.skip(i as int).drop_first() =~= models@.skip(i + 1));
        let k = chars_of(models[i].0.as_str());
        if chars_equal(k.as_slice(), t.as_slice()) {
            return Some(models[i].1.name.clone());
        }
    }
    None
}

/// Selects the model for a processing step of a task.
pub fn select_model(policy: &Option<PolicyConfig>, step: &str, task_content: &str) -> (r: Option<
    String,
>)
    ensures
        crate::text::opt_view(r) == select_model_spec(*policy, step@, task_content@),
{
    match policy {
        None => None,
        Some(p) => {
            let tier = if str_contains(task_content, p.overrides.deep_tag.as_str()) {
                p.overrides.deep_tag_model.clone()
            } else {
                match lookup_tier(&p.routing, step) {
                    Some(t) => t,
                    None => copy_str("mid"),
                }
            };
            lookup_model(&p.models, tier.as_str())
        },
    }
}

} // verus!

verus! {

/// With the deep tag in the task, every step gets the same model: that of
/// the deep-tag tier.
pub proof fn law_deep_tag_overrides(p: PolicyConfig, step1: Seq<char>, step2: Seq<char>, task: Seq<char>)
    requires
        contains_seq(task, p.overrides_view().deep_tag@),
    ensures
        select_model_spec(Some(p), step1, task) == select_model_spec(Some(p), step2, task),
        select_model_spec(Some(p), step1, task) == model_of(p.models_view(), p.overrides_view().deep_tag_model@),
{
}

/// Without a policy no model is selected.
pub proof fn law_no_policy_no_model(step: Seq<char>, task: Seq<char>)
    ensures
        select_model_spec(None, step, task) is None,
{
}

/// With distinct step names, a step's tier is the one paired with it.
pub proof fn lemma_routing_lookup(routing: Seq<(String, String)>, i: int)
    requires
        distinct_keys(routing),
        0 <= i < routing.len(),
    ensures
        tier_of(routing, routing[i].0@) == Some(routing[i].1@),
    decreases i,
{
    if i > 0 {
        let rest = routing.drop_first();
        assert forall|a: int, b: int| 0 <= a < b < rest.len() implies #[trigger] rest[a].0@
            != #[trigger] rest[b].0@ by {
            assert(rest[a] == routing[a + 1] && rest[b] == routing[b + 1]);
        }
        lemma_routing_lookup(rest, i - 1);
        assert(rest[i - 1] == routing[i]);
        assert(routing[0].0@ != routing[i].0@);
    }
}

/// With distinct tier names, a tier's model is the one paired with it.
pub proof fn lemma_model_lookup(models: Seq<(String, ModelConfig)>, i: int)
    requires
        distinct_keys(models),
        0 <= i < models.len(),
    ensures
        model_of(models, models[i].0@) == Some(models[i].1.name@),
    decreases i,
{
    if i > 0 {
        let rest = models.drop_first();
        assert forall|a: int, b: int| 0 <= a < b < rest.len() implies #[trigger] rest[a].0@
            != #[trigger] rest[b].0@ by {
            assert(rest[a] == models[a + 1] && rest[b] == models[b + 1]);
        }
        lemma_model_lookup(rest, i - 1);
        assert(rest[i - 1] == models[i]);
        assert(models[0].0@ != models[i].0@);
    }
}

/// In a well-formed policy, a step without the deep tag in its task gets
/// the model of the tier it is routed to, looked up as in a map.
pub proof fn law_routed_step_model(p: PolicyConfig, i: int, j: int, task: Seq<char>)
    requires
        p.wf(),
        0 <= i < p.routing_view().len(),
        0 <= j < p.models_view().len(),
        p.routing_view()[i].1@ == p.models_view()[j].0@,
        !contains_seq(task, p.overrides_view().deep_tag@),
    ensures
        select_model_spec(Some(p), p.routing_view()[i].0@, task) == Some(p.models_view()[j].1.name@),
{
    lemma_routing_lookup(p.routing_view(), i);
    lemma_model_lookup(p.models_view(), j);
}

/// In a well-formed policy, a step that no route names gets the model of
/// the `mid` tier, looked up as in a map.
pub proof fn law_unrouted_step_model(p: PolicyConfig, step: Seq<char>, j: int, task: Seq<char>)
    requires
        p.wf(),
        forall|i: int| 0 <= i < p.routing_view().len() ==> #[trigger] p.routing_view()[i].0@ != step,
        0 <= j < p.models_view().len(),
        p.models_view()[j].0@ == "mid"@,
        !contains_seq(task, p.overrides_view().deep_tag@),
    ensures
        select_model_spec(Some(p), step, task) == Some(p.models_view()[j].1.name@),
{
    lemma_tier_absent(p.routing_view(), step);
    lemma_model_lookup(p.models_view(), j);
}

/// A step that no route names has no tier.
pub proof fn lemma_tier_absent(routing: Seq<(String, String)>, step: Seq<char>)
    requires
        forall|i: int| 0 <= i < routing.len() ==> #[trigger] routing[i].0@ != step,
    ensures
        tier_of(routing, step) is None,
    decreases routing.len(),
{
    if routing.len() > 0 {
        let rest = routing.drop_first();
        assert forall|i: int| 0 <= i < rest.len() implies #[trigger] rest[i].0@ != step by {
            assert(rest[i] == routing[i + 1]);
        }
        assert(routing[0].0@ != step);
        lemma_tier_absent(rest, step);
    }
}

} // verus!
