//! Steps of a runner, and the parts that it is put together from.

use std::sync::Arc;

use vstd::prelude::*;

use crate::context_builder::{ContextBuilder, NoopBuilder};
use crate::kernel::{Event, FormeError, PromptKey, PromptKeyView, State, ToolId};
use crate::persistence::Checkpointer;
use crate::policy::Policy;
use crate::prompt_registry::Registry;
use crate::rig_adapter::{LlmAdapter, MockLlm};
use crate::runtime::{NextAction, Prepared, Runner, StepOutput};

verus! {

/// A prepared step has the key of its state and event, the prompt that the registry answers for
/// that key, the context that the builder answers for the event and the whole history, and the
/// tools that the policy lists for the state.
pub proof fn prepared_step_has_the_answers<S, E, R, B, P, L>(
    runner: &Runner<S, E, R, B, P, L>,
    state: &S,
    event: &E,
    history: &[E],
    prepared: Prepared,
) where S: State, E: Event, R: Registry, B: ContextBuilder<E>, P: Policy<S>
    requires
        call_ensures(
            Runner::<S, E, R, B, P, L>::prepare,
            (runner, state, event, history),
            Ok(prepared),
        ),
    ensures
        exists|s: String|
            #[trigger] vstd::string::to_string_from_display_ensures(state, s) && s@
                == prepared.key.state@,
        exists|s: String|
            #[trigger] vstd::string::to_string_from_display_ensures(event, s) && s@
                == prepared.key.event@,
        runner.the_registry().answers(
            PromptKeyView { state: prepared.key.state@, event: prepared.key.event@ },
            Ok(prepared.prompt),
        ),
        runner.the_builder().composes(event, history@, Ok(prepared.context)),
        runner.the_policy().may_list(state, prepared.tool_plan.allowed@),
{
}

/// No event of the history is kept from the builder, and none is added: where the context is as
/// long as the history that the builder was given, it is as long as the history of the step.
pub proof fn builder_is_given_every_event<S, E, R, B, P, L>(
    runner: &Runner<S, E, R, B, P, L>,
    state: &S,
    event: &E,
    history: &[E],
    prepared: Prepared,
) where S: State, E: Event, R: Registry, B: ContextBuilder<E>, P: Policy<S>
    requires
        forall|e: &E, given: Seq<E>, context: String| #[trigger]
            runner.the_builder().composes(e, given, Ok(context)) ==> context@.len() == given.len(),
        call_ensures(
            Runner::<S, E, R, B, P, L>::prepare,
            (runner, state, event, history),
            Ok(prepared),
        ),
    ensures
        prepared.context@.len() == history@.len(),
{
}

/// With a builder that makes its text of the event and the history, each of them whole, the
/// context of a prepared step is the text made of the event and the history of the step.
pub proof fn context_is_made_of_event_and_history<S, E, R, B, P, L>(
    runner: &Runner<S, E, R, B, P, L>,
    state: &S,
    event: &E,
    history: &[E],
    prepared: Prepared,
    made: spec_fn(&E, Seq<E>) -> Seq<char>,
) where S: State, E: Event, R: Registry, B: ContextBuilder<E>, P: Policy<S>
    requires
        forall|e: &E, given: Seq<E>, context: String| #[trigger]
            runner.the_builder().composes(e, given, Ok(context)) ==> context@ == made(e, given),
        call_ensures(
            Runner::<S, E, R, B, P, L>::prepare,
            (runner, state, event, history),
            Ok(prepared),
        ),
    ensures
        prepared.context@ == made(event, history@),
{
}

/// With a registry that makes its prompts of the key, the prompt of a prepared step is the one
/// made of the key that the step reports, and the tools are those listed for its state.
pub proof fn prompt_and_tools_are_those_of_the_step<S, E, R, B, P, L>(
    runner: &Runner<S, E, R, B, P, L>,
    state: &S,
    event: &E,
    history: &[E],
    prepared: Prepared,
    made: spec_fn(Seq<char>, Seq<char>) -> Seq<char>,
    listed: spec_fn(&S) -> Seq<ToolId>,
) where S: State, E: Event, R: Registry, B: ContextBuilder<E>, P: Policy<S>
    requires
        forall|key: PromptKeyView, prompt: String| #[trigger]
            runner.the_registry().answers(key, Ok(prompt)) ==> prompt@ == made(
                key.state,
                key.event,
            ),
        forall|s: &S, tools: Seq<ToolId>| #[trigger]
            runner.the_policy().may_list(s, tools) ==> tools == listed(s),
        call_ensures(
            Runner::<S, E, R, B, P, L>::prepare,
            (runner, state, event, history),
            Ok(prepared),
        ),
    ensures
        prepared.prompt@ == made(prepared.key.state@, prepared.key.event@),
        prepared.tool_plan.allowed@ == listed(state),
{
}

/// Preparing a step fails only as the registry or the builder does, with the same error: where
/// neither of them fails, a step is always prepared.
pub proof fn preparing_fails_only_with_its_parts<S, E, R, B, P, L>(
    runner: &Runner<S, E, R, B, P, L>,
    state: &S,
    event: &E,
    history: &[E],
    reply: Result<Prepared, FormeError>,
) where S: State, E: Event, R: Registry, B: ContextBuilder<E>, P: Policy<S>
    requires
        call_ensures(Runner::<S, E, R, B, P, L>::prepare, (runner, state, event, history), reply),
    ensures
        (forall|key: PromptKeyView, e: FormeError|
            !#[trigger] runner.the_registry().answers(key, Err(e))) && (forall|e: FormeError|
            !#[trigger] runner.the_builder().composes(event, history@, Err(e))) ==> reply is Ok,
        (forall|key: PromptKeyView, prompt: String|
            !#[trigger] runner.the_registry().answers(key, Ok(prompt))) ==> reply is Err,
        (forall|context: String|
            !#[trigger] runner.the_builder().composes(event, history@, Ok(context)))
            ==> reply is Err,
        reply matches Err(e) ==> runner.the_builder().composes(event, history@, Err(e)) || exists|
            key: PromptKeyView,
        | #[trigger] runner.the_registry().answers(key, Err(e)),
{
}

/// The answer that a step reports is one that the model may give to just the prompt and the
/// context that the step reports, whole, and the parts of the step are those of its preparation.
pub proof fn answer_belongs_to_prompt_and_context<S, E, R, B, P, L>(
    runner: &Runner<S, E, R, B, P, L>,
    state: &S,
    event: &E,
    history: &[E],
    out: StepOutput<S>,
) where S: State, E: Event, R: Registry, B: ContextBuilder<E>, P: Policy<S>, L: LlmAdapter<E>
    requires
        call_ensures(
            Runner::<S, E, R, B, P, L>::step,
            (runner, state, event, history),
            Ok(out),
        ),
    ensures
        exists|prompt: String, context: String, answer: String|
            {
                &&& prompt@ == out.prompt@
                &&& context@ == out.context@
                &&& answer@ == out.llm_response@
                &&& #[trigger] runner.the_llm().replies(prompt, context, Ok(answer))
            },
        runner.the_llm().replies(out.prompt, out.context, Ok(out.llm_response)),
        exists|s: String|
            #[trigger] vstd::string::to_string_from_display_ensures(state, s) && s@
                == out.prompt_key.state@,
        exists|s: String|
            #[trigger] vstd::string::to_string_from_display_ensures(event, s) && s@
                == out.prompt_key.event@,
        runner.the_registry().answers(
            PromptKeyView { state: out.prompt_key.state@, event: out.prompt_key.event@ },
            Ok(out.prompt),
        ),
        runner.the_builder().composes(event, history@, Ok(out.context)),
        runner.the_policy().may_list(state, out.tool_plan.allowed@),
        cloned(*state, out.next_state),
{
}

/// A model that gives its context back makes every step answer with its context, whatever that
/// holds and however long it is; and one that gives its prompt back, with its prompt.
pub proof fn echoing_model_gives_back_what_it_is_given<S, E, R, B, P, L>(
    runner: &Runner<S, E, R, B, P, L>,
    state: &S,
    event: &E,
    history: &[E],
    out: StepOutput<S>,
) where S: State, E: Event, R: Registry, B: ContextBuilder<E>, P: Policy<S>, L: LlmAdapter<E>
    requires
        call_ensures(
            Runner::<S, E, R, B, P, L>::step,
            (runner, state, event, history),
            Ok(out),
        ),
    ensures
        (forall|prompt: String, context: String, answer: String| #[trigger]
            runner.the_llm().replies(prompt, context, Ok(answer)) ==> answer@ == context@)
            ==> out.llm_response@ == out.context@,
        (forall|prompt: String, context: String, answer: String| #[trigger]
            runner.the_llm().replies(prompt, context, Ok(answer)) ==> answer@ == prompt@)
            ==> out.llm_response@ == out.prompt@,
{
}

/// A model that makes its answer of the prompt and the context makes every step answer with what
/// it makes of the prompt and the context of the step.
pub proof fn answer_is_made_of_prompt_and_context<S, E, R, B, P, L>(
    runner: &Runner<S, E, R, B, P, L>,
    state: &S,
    event: &E,
    history: &[E],
    out: StepOutput<S>,
    made: spec_fn(Seq<char>, Seq<char>) -> Seq<char>,
) where S: State, E: Event, R: Registry, B: ContextBuilder<E>, P: Policy<S>, L: LlmAdapter<E>
    requires
        forall|prompt: String, context: String, answer: String| #[trigger]
            runner.the_llm().replies(prompt, context, Ok(answer)) ==> answer@ == made(
                prompt@,
                context@,
            ),
        call_ensures(
            Runner::<S, E, R, B, P, L>::step,
            (runner, state, event, history),
            Ok(out),
        ),
    ensures
        out.llm_response@ == made(out.prompt@, out.context@),
{
}

/// A step reports the context that its builder makes of the event and the whole history.
pub proof fn step_context_is_made_of_event_and_history<S, E, R, B, P, L>(
    runner: &Runner<S, E, R, B, P, L>,
    state: &S,
    event: &E,
    history: &[E],
    out: StepOutput<S>,
    made: spec_fn(&E, Seq<E>) -> Seq<char>,
) where S: State, E: Event, R: Registry, B: ContextBuilder<E>, P: Policy<S>, L: LlmAdapter<E>
    requires
        forall|e: &E, given: Seq<E>, context: String| #[trigger]
            runner.the_builder().composes(e, given, Ok(context)) ==> context@ == made(e, given),
        call_ensures(
            Runner::<S, E, R, B, P, L>::step,
            (runner, state, event, history),
            Ok(out),
        ),
    ensures
        out.context@ == made(event, history@),
{
}

/// A step fails only as one of its parts does: with the error of the registry or of the builder as
/// it is, or, where the model fails, with a failure of the model. Where no part fails, the step
/// ends with an answer; where the model never answers, it does not.
pub proof fn step_fails_only_with_its_parts<S, E, R, B, P, L>(
    runner: &Runner<S, E, R, B, P, L>,
    state: &S,
    event: &E,
    history: &[E],
    reply: Result<StepOutput<S>, FormeError>,
) where S: State, E: Event, R: Registry, B: ContextBuilder<E>, P: Policy<S>, L: LlmAdapter<E>
    requires
        call_ensures(Runner::<S, E, R, B, P, L>::step, (runner, state, event, history), reply),
    ensures
        (forall|key: PromptKeyView, e: FormeError|
            !#[trigger] runner.the_registry().answers(key, Err(e))) && (forall|e: FormeError|
            !#[trigger] runner.the_builder().composes(event, history@, Err(e))) && (forall|
            prompt: String,
            context: String,
            e: FormeError,
        |
            !#[trigger] runner.the_llm().replies(prompt, context, Err(e))) ==> reply is Ok,
        (forall|key: PromptKeyView, prompt: String|
            !#[trigger] runner.the_registry().answers(key, Ok(prompt))) ==> reply is Err,
        (forall|context: String|
            !#[trigger] runner.the_builder().composes(event, history@, Ok(context)))
            ==> reply is Err,
        (forall|prompt: String, context: String, answer: String|
            !#[trigger] runner.the_llm().replies(prompt, context, Ok(answer))) ==> reply is Err,
        reply matches Err(e) ==> {
            ||| runner.the_builder().composes(event, history@, Err(e))
            ||| exists|key: PromptKeyView| #[trigger] runner.the_registry().answers(key, Err(e))
            ||| e is LlmFailed
        },
{
}

/// A model that always fails for one reason makes every prepared step fail for that reason.
pub proof fn failing_model_fails_the_step<S, E, R, B, P, L>(
    runner: &Runner<S, E, R, B, P, L>,
    state: &S,
    event: &E,
    history: &[E],
    reply: Result<StepOutput<S>, FormeError>,
    why: Seq<char>,
) where S: State, E: Event, R: Registry, B: ContextBuilder<E>, P: Policy<S>, L: LlmAdapter<E>
    requires
        forall|key: PromptKeyView, e: FormeError|
            !#[trigger] runner.the_registry().answers(key, Err(e)),
        forall|e: FormeError| !#[trigger] runner.the_builder().composes(event, history@, Err(e)),
        forall|prompt: String, context: String, answer: Result<String, FormeError>| #[trigger]
            runner.the_llm().replies(prompt, context, answer) ==> answer is Err
                && answer->Err_0 is LlmFailed && answer->Err_0->LlmFailed_0@ == why,
        call_ensures(Runner::<S, E, R, B, P, L>::step, (runner, state, event, history), reply),
    ensures
        reply is Err,
        reply->Err_0 is LlmFailed,
        reply->Err_0->LlmFailed_0@ == why,
{
}

/// A prepared step that ends with an answer keeps what was prepared, part by part, and the answer
/// as it is; one that ends with a failure tells it as a failure of the model, with its reason, or
/// with the message of any other error.
pub proof fn finished_step_keeps_what_was_prepared<S: State>(
    prepared: Prepared,
    state: &S,
    answer: Result<String, FormeError>,
    reply: Result<StepOutput<S>, FormeError>,
    said: String,
)
    requires
        call_ensures(Prepared::finish::<S>, (prepared, state, answer), reply),
        answer matches Err(e) ==> call_ensures(FormeError::to_string, (&e,), said),
    ensures
        match answer {
            Ok(text) => {
                &&& reply is Ok
                &&& reply->Ok_0.prompt_key.state@ == prepared.key.state@
                &&& reply->Ok_0.prompt_key.event@ == prepared.key.event@
                &&& reply->Ok_0.prompt@ == prepared.prompt@
                &&& reply->Ok_0.context@ == prepared.context@
                &&& reply->Ok_0.tool_plan.allowed@ == prepared.tool_plan.allowed@
                &&& reply->Ok_0.llm_response@ == text@
                &&& cloned(*state, reply->Ok_0.next_state)
            },
            Err(FormeError::LlmFailed(reason)) => {
                &&& reply is Err
                &&& reply->Err_0 is LlmFailed
                &&& reply->Err_0->LlmFailed_0@ == reason@
            },
            Err(_) => {
                &&& reply is Err
                &&& reply->Err_0 is LlmFailed
                &&& reply->Err_0->LlmFailed_0@ == said@
            },
        },
{
}

/// The key that comes after an action is that of the state that the action moves to, where it
/// moves, and that of the current state where it stays or ends.
pub proof fn edge_follows_the_state<S, E, R, B, P, L>(
    runner: &Runner<S, E, R, B, P, L>,
    action: &NextAction<S>,
    current: &S,
    event: &E,
    key: PromptKey,
) where S: State, E: Event, R: Registry, B: ContextBuilder<E>, P: Policy<S>
    requires
        call_ensures(
            Runner::<S, E, R, B, P, L>::handle_edge,
            (runner, action, current, event),
            key,
        ),
    ensures
        match action {
            NextAction::Branch(next) => exists|s: String|
                #[trigger] vstd::string::to_string_from_display_ensures(next, s) && s@
                    == key.state@,
            NextAction::Transition(next) => exists|s: String|
                #[trigger] vstd::string::to_string_from_display_ensures(next, s) && s@
                    == key.state@,
            NextAction::Next | NextAction::Continue | NextAction::Halt => exists|s: String|
                #[trigger] vstd::string::to_string_from_display_ensures(current, s) && s@
                    == key.state@,
        },
        exists|s: String|
            #[trigger] vstd::string::to_string_from_display_ensures(event, s) && s@ == key.event@,
{
}

/// Only halting ends a program, and a copy of an action is the same action on a clone of its
/// state.
pub proof fn actions_keep_their_kind<S: State>(
    action: &NextAction<S>,
    halts: bool,
    copy: NextAction<S>,
)
    requires
        call_ensures(NextAction::<S>::is_halt, (action,), halts),
        call_ensures(<NextAction<S> as Clone>::clone, (action,), copy),
    ensures
        halts <==> action is Halt,
        match action {
            NextAction::Next => copy is Next,
            NextAction::Continue => copy is Continue,
            NextAction::Halt => copy is Halt,
            NextAction::Branch(next) => copy is Branch && cloned(*next, copy->Branch_0),
            NextAction::Transition(next) => copy is Transition && cloned(
                *next,
                copy->Transition_0,
            ),
        },
{
}

/// A runner works with the parts that it was made of, and hands each of them out.
pub proof fn runner_has_its_parts<S, E, R, B, P, L>(
    registry: Arc<R>,
    builder: Arc<B>,
    policy: Arc<P>,
    llm: L,
    runner: Runner<S, E, R, B, P, L>,
    the_registry: &R,
    the_builder: &B,
    the_policy: &P,
    the_llm: &L,
) where S: State, E: Event, R: Registry, B: ContextBuilder<E>, P: Policy<S>
    requires
        call_ensures(
            Runner::<S, E, R, B, P, L>::new,
            (registry, builder, policy, llm),
            runner,
        ),
        call_ensures(Runner::<S, E, R, B, P, L>::registry, (&runner,), the_registry),
        call_ensures(Runner::<S, E, R, B, P, L>::builder, (&runner,), the_builder),
        call_ensures(Runner::<S, E, R, B, P, L>::policy, (&runner,), the_policy),
        call_ensures(Runner::<S, E, R, B, P, L>::llm, (&runner,), the_llm),
    ensures
        *the_registry == *registry,
        *the_builder == *builder,
        *the_policy == *policy,
        *the_llm == llm,
        runner.the_registry() == *registry,
        runner.the_builder() == *builder,
        runner.the_policy() == *policy,
        runner.the_llm() == llm,
{
}

/// Prepared steps are equal just where their keys, prompts, contexts and lists of tools are, and a
/// copy has all of them.
pub proof fn prepared_steps_are_equal_by_their_parts(
    left: &Prepared,
    right: &Prepared,
    same: bool,
    copy: Prepared,
)
    requires
        call_ensures(<Prepared as PartialEq>::eq, (left, right), same),
        call_ensures(<Prepared as Clone>::clone, (left,), copy),
    ensures
        same ==> {
            &&& left.key.state@ == right.key.state@
            &&& left.key.event@ == right.key.event@
            &&& left.prompt@ == right.prompt@
            &&& left.context@ == right.context@
            &&& left.tool_plan@ == right.tool_plan@
        },
        left.key.state@ == right.key.state@ && left.key.event@ == right.key.event@ && left.prompt@
            == right.prompt@ && left.context@ == right.context@ && left.tool_plan.allowed@
            == right.tool_plan.allowed@ ==> same,
        copy.key.state@ == left.key.state@,
        copy.key.event@ == left.key.event@,
        copy.prompt@ == left.prompt@,
        copy.context@ == left.context@,
        copy.tool_plan@ == left.tool_plan@,
{
}

/// A copy of what came of a step has all of its texts.
pub proof fn copied_output_has_its_texts<S: State>(out: &StepOutput<S>, copy: StepOutput<S>)
    requires
        call_ensures(<StepOutput<S> as Clone>::clone, (out,), copy),
    ensures
        cloned(out.next_state, copy.next_state),
        copy.prompt_key.state@ == out.prompt_key.state@,
        copy.prompt_key.event@ == out.prompt_key.event@,
        copy.prompt@ == out.prompt@,
        copy.context@ == out.context@,
        copy.llm_response@ == out.llm_response@,
        copy.tool_plan@ == out.tool_plan@,
{
}

/// The builder that adds no context answers every event and history with the empty text.
pub proof fn noop_builder_adds_nothing<E: Event>(
    builder: &NoopBuilder,
    event: &E,
    history: &[E],
    reply: Result<String, FormeError>,
)
    requires
        call_ensures(
            <NoopBuilder as ContextBuilder<E>>::build,
            (builder, event, history),
            reply,
        ),
    ensures
        reply is Ok,
        reply->Ok_0@.len() == 0,
{
}

/// A mock that was made with a text answers every prompt and context with it, whole; one that was
/// made with nothing, with the empty text.
pub proof fn mock_answers_what_it_was_made_with<E: Event>(
    response: &str,
    fixed: MockLlm,
    silent: MockLlm,
    prompt: String,
    context: String,
    reply: Result<String, FormeError>,
    silence: Result<String, FormeError>,
)
    requires
        call_ensures(MockLlm::with_response::<&str>, (response,), fixed),
        call_ensures(MockLlm::new, (), silent) || call_ensures(
            <MockLlm as Default>::default,
            (),
            silent,
        ),
        call_ensures(<MockLlm as LlmAdapter<E>>::call, (&fixed, prompt, context), reply),
        call_ensures(<MockLlm as LlmAdapter<E>>::call, (&silent, prompt, context), silence),
    ensures
        reply is Ok,
        reply->Ok_0@ == response@,
        silence is Ok,
        silence->Ok_0@.len() == 0,
{
}

/// A mock that was made with a reason fails on every prompt and context, for that reason.
pub proof fn mock_fails_for_what_it_was_made_with<E: Event>(
    reason: &str,
    llm: MockLlm,
    prompt: String,
    context: String,
    reply: Result<String, FormeError>,
)
    requires
        call_ensures(MockLlm::with_error::<&str>, (reason,), llm),
        call_ensures(<MockLlm as LlmAdapter<E>>::call, (&llm, prompt, context), reply),
    ensures
        reply is Err,
        reply->Err_0 is LlmFailed,
        reply->Err_0->LlmFailed_0@ == reason@,
{
}

/// A mock that was made with a function answers what the function makes of the very prompt and
/// context that it is asked with, and so does a copy of the mock.
pub proof fn mock_asks_its_function<E: Event, F>(
    func: F,
    llm: MockLlm,
    copy: MockLlm,
    prompt: String,
    context: String,
    reply: Result<String, FormeError>,
    copied: Result<String, FormeError>,
) where F: Fn(String, String) -> Result<String, FormeError> + Send + Sync + 'static
    requires
        call_ensures(MockLlm::with_fn::<F>, (func,), llm),
        call_ensures(<MockLlm as Clone>::clone, (&llm,), copy),
        call_ensures(<MockLlm as LlmAdapter<E>>::call, (&llm, prompt, context), reply),
        call_ensures(<MockLlm as LlmAdapter<E>>::call, (&copy, prompt, context), copied),
    ensures
        call_ensures(func, (prompt, context), reply),
        call_ensures(func, (prompt, context), copied),
{
}

/// A state that was saved in memory is what is loaded, a clone of it, and it takes the place of
/// what was there before; where nothing was saved, nothing is loaded. Neither fails.
pub proof fn saved_state_is_loaded<S: State>(
    place: &mut Option<S>,
    state: &S,
    saved: Result<(), FormeError>,
    loaded: Result<Option<S>, FormeError>,
    nothing: Result<Option<S>, FormeError>,
)
    requires
        call_ensures(<Option<S> as Checkpointer<S>>::save, (place, state), saved),
        call_ensures(<Option<S> as Checkpointer<S>>::load, (&*final(place),), loaded),
        call_ensures(<Option<S> as Checkpointer<S>>::load, (&None::<S>,), nothing),
    ensures
        saved is Ok,
        loaded is Ok,
        loaded->Ok_0 is Some,
        *final(place) is Some,
        cloned(*state, (*final(place))->0),
        cloned((*final(place))->0, loaded->Ok_0->0),
        nothing is Ok,
        nothing->Ok_0 is None,
{
}

} // verus!
