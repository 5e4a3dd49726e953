//! Replaying a step: the same inputs, with parts that have not changed, give the same output.

use vstd::prelude::*;

use crate::context_builder::{ContextBuilder, NoopBuilder};
use crate::kernel;
use crate::kernel::{Event, FormeError, FormeErrorView, PromptKeyView, State, ToolId};
use crate::policy::{AllowAllPolicy, AllowListPolicy, DenyListPolicy, Policy};
use crate::prompt_registry::{InMemoryRegistry, Registry};
use crate::rig_adapter::{LlmAdapter, MockLlm};
use crate::runtime::{Prepared, PreparedView, Runner, StepOutput};
use crate::tool_set;

verus! {

/// The registry does not change: it has one answer for each key.
pub open spec fn settled_registry<R: Registry>(registry: R) -> bool {
    forall|key: PromptKeyView, left: Result<String, FormeError>, right: Result<String, FormeError>|
        #[trigger] registry.answers(key, left) && #[trigger] registry.answers(key, right)
            ==> kernel::reply_view(left) == kernel::reply_view(right)
}

/// The builder does not change: it has one answer for each event and history.
pub open spec fn settled_builder<E: Event, B: ContextBuilder<E>>(builder: B) -> bool {
    forall|
        event: &E,
        history: Seq<E>,
        left: Result<String, FormeError>,
        right: Result<String, FormeError>,
    |
        #[trigger] builder.composes(event, history, left) && #[trigger] builder.composes(
            event,
            history,
            right,
        ) ==> kernel::reply_view(left) == kernel::reply_view(right)
}

/// The policy does not change: it lists the same tools for a state each time.
pub open spec fn settled_policy<S: State, P: Policy<S>>(policy: P) -> bool {
    forall|state: &S, left: Seq<ToolId>, right: Seq<ToolId>| #[trigger]
        policy.may_list(state, left) && #[trigger] policy.may_list(state, right)
            ==> tool_set::names(left) == tool_set::names(right)
}

/// The language model has one answer for each prompt and context.
pub open spec fn settled_llm<E: Event, L: LlmAdapter<E>>(llm: L) -> bool {
    forall|
        prompt: String,
        context: String,
        left: Result<String, FormeError>,
        same_prompt: String,
        same_context: String,
        right: Result<String, FormeError>,
    |
        #[trigger] llm.replies(prompt, context, left) && #[trigger] llm.replies(
            same_prompt,
            same_context,
            right,
        ) && prompt@ == same_prompt@ && context@ == same_context@ ==> kernel::reply_view(left)
            == kernel::reply_view(right)
}

/// What a preparation came to.
pub open spec fn prepared_view(reply: Result<Prepared, FormeError>) -> Result<
    PreparedView,
    FormeErrorView,
> {
    match reply {
        Ok(prepared) => Ok(prepared@),
        Err(e) => Err(e@),
    }
}

/// What a step came to: what went into the call, and the answer.
pub open spec fn step_view<S>(reply: Result<StepOutput<S>, FormeError>) -> Result<
    (PreparedView, Seq<char>),
    FormeErrorView,
> {
    match reply {
        Ok(out) => Ok((out.prepared(), out.llm_response@)),
        Err(e) => Err(e@),
    }
}

/// Preparing a step twice, with parts that have not changed, gives the same output twice.
pub proof fn prepare_replays<S, E, R, B, P, L>(
    runner: &Runner<S, E, R, B, P, L>,
    state: &S,
    event: &E,
    history: Seq<E>,
    first: Result<Prepared, FormeError>,
    second: Result<Prepared, FormeError>,
) where S: State, E: Event, R: Registry, B: ContextBuilder<E>, P: Policy<S>
    requires
        kernel::stable::<S>(),
        kernel::stable::<E>(),
        settled_registry(runner.the_registry()),
        settled_builder::<E, B>(runner.the_builder()),
        settled_policy::<S, P>(runner.the_policy()),
        runner.prepares(state, event, history, first),
        runner.prepares(state, event, history, second),
    ensures
        prepared_view(first) == prepared_view(second),
{
}

/// A step whose parts have not changed, with a language model that answers the same each time,
/// comes to the same each time, and stays in its state.
pub proof fn step_replays<S, E, R, B, P, L>(
    runner: &Runner<S, E, R, B, P, L>,
    state: &S,
    event: &E,
    history: Seq<E>,
    first: Result<StepOutput<S>, FormeError>,
    second: Result<StepOutput<S>, FormeError>,
) where S: State, E: Event, R: Registry, B: ContextBuilder<E>, P: Policy<S>, L: LlmAdapter<E>
    requires
        kernel::stable::<S>(),
        kernel::stable::<E>(),
        settled_registry(runner.the_registry()),
        settled_builder::<E, B>(runner.the_builder()),
        settled_policy::<S, P>(runner.the_policy()),
        settled_llm::<E, L>(runner.the_llm()),
        runner.steps(state, event, history, first),
        runner.steps(state, event, history, second),
    ensures
        step_view(first) == step_view(second),
        first matches Ok(out) ==> cloned(*state, out.next_state),
        second matches Ok(out) ==> cloned(*state, out.next_state),
{
}

/// Whatever the language model answers, what goes into the call, and the tools of the step, are
/// what preparing the step comes to, and the step stays in its state.
pub proof fn step_uses_what_was_prepared<S, E, R, B, P, L>(
    runner: &Runner<S, E, R, B, P, L>,
    state: &S,
    event: &E,
    history: Seq<E>,
    prepared: Result<Prepared, FormeError>,
    stepped: Result<StepOutput<S>, FormeError>,
) where S: State, E: Event, R: Registry, B: ContextBuilder<E>, P: Policy<S>, L: LlmAdapter<E>
    requires
        kernel::stable::<S>(),
        kernel::stable::<E>(),
        settled_registry(runner.the_registry()),
        settled_builder::<E, B>(runner.the_builder()),
        settled_policy::<S, P>(runner.the_policy()),
        runner.prepares(state, event, history, prepared),
        runner.steps(state, event, history, stepped),
    ensures
        match (prepared_view(prepared), stepped) {
            (Ok(p), Ok(out)) => out.prepared() == p && cloned(*state, out.next_state),
            (Ok(_), Err(e)) => e@ is LlmFailed,
            (Err(why), reply) => step_view(reply) == Err::<(PreparedView, Seq<char>), _>(why),
        },
{
}

/// A registry in memory has one answer for each key.
pub proof fn in_memory_registry_is_settled(registry: InMemoryRegistry)
    ensures
        settled_registry(registry),
{
}

/// The builder that adds no context always answers the same.
pub proof fn noop_builder_is_settled<E: Event>(builder: NoopBuilder)
    ensures
        settled_builder::<E, NoopBuilder>(builder),
{
}

/// The policies of the library list the same tools in every state, each time.
pub proof fn policies_are_settled<S: State>(
    all: AllowAllPolicy,
    deny: DenyListPolicy,
    allow: AllowListPolicy,
)
    ensures
        settled_policy::<S, AllowAllPolicy>(all),
        settled_policy::<S, DenyListPolicy>(deny),
        settled_policy::<S, AllowListPolicy>(allow),
{
}

/// A mock that answers one text, or fails for one reason, always answers the same.
pub proof fn fixed_mock_is_settled<E: Event>(
    llm: MockLlm,
    answer: Result<Seq<char>, FormeErrorView>,
)
    requires
        forall|prompt: String, context: String, reply: Result<String, FormeError>| #[trigger]
            llm.may(prompt, context, reply) ==> kernel::reply_view(reply) == answer,
    ensures
        settled_llm::<E, MockLlm>(llm),
{
}

} // verus!
