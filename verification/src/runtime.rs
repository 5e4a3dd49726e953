//! The runner: registry, context builder, policy and language model put together for one step.

use std::fmt;
use std::marker::PhantomData;
use std::sync::Arc;

use vstd::prelude::*;

use crate::context_builder::ContextBuilder;
use crate::kernel;
use crate::kernel::{Event, FormeError, FormeErrorView, PromptKey, PromptKeyView, State, ToolId};
use crate::policy::Policy;
use crate::prompt_registry::Registry;
use crate::rig_adapter::LlmAdapter;
use crate::show::{debug_struct, field, finish};
use crate::tool_set;
use crate::tool_set::{copy_tools, lists_tool, same_tools};

verus! {

/// The tools of a step, as the policy listed them when the step was prepared.
///
/// An empty list is what the policy makes of it: no tool, or all that are not denied.
#[derive(Debug, Eq)]
pub struct ToolPlan {
    pub allowed: Vec<ToolId>,
}

impl View for ToolPlan {
    type V = Seq<Seq<char>>;

    /// The names of the tools.
    open spec fn view(&self) -> Seq<Seq<char>> {
        tool_set::names(self.allowed@)
    }
}

impl ToolPlan {
    /// The plan with the given tools.
    pub fn new(allowed: Vec<ToolId>) -> (plan: Self)
        ensures
            plan.allowed == allowed,
    {
        ToolPlan { allowed }
    }

    /// Whether the plan lists no tool.
    pub fn is_empty(&self) -> (b: bool)
        ensures
            b == (self@.len() == 0),
    {
        self.allowed.len() == 0
    }

    /// The number of tools that the plan lists.
    pub fn len(&self) -> (n: usize)
        ensures
            n == self@.len(),
    {
        self.allowed.len()
    }

    /// Whether the plan lists the tool.
    pub fn contains(&self, tool: &ToolId) -> (found: bool)
        ensures
            found == self@.contains(tool@),
    {
        lists_tool(self.allowed.as_slice(), tool)
    }

    /// The tools, one after another.
    pub fn iter(&self) -> (tools: std::slice::Iter<'_, ToolId>)
        ensures
            vstd::std_specs::iter::IteratorSpec::remaining(&tools).unref() == self.allowed@,
    {
        self.allowed.iter()
    }
}

impl PartialEq for ToolPlan {
    fn eq(&self, other: &Self) -> (same: bool) {
        same_tools(self.allowed.as_slice(), other.allowed.as_slice())
    }
}

impl vstd::std_specs::cmp::PartialEqSpecImpl for ToolPlan {
    open spec fn obeys_eq_spec() -> bool {
        true
    }

    open spec fn eq_spec(&self, other: &Self) -> bool {
        self@ == other@
    }
}

impl Clone for ToolPlan {
    fn clone(&self) -> (copy: Self)
        ensures
            copy.allowed@ == self.allowed@,
            copy@ == self@,
    {
        ToolPlan { allowed: copy_tools(self.allowed.as_slice()) }
    }
}

impl IntoIterator for ToolPlan {
    type Item = ToolId;
    type IntoIter = std::vec::IntoIter<ToolId>;

    /// The tools, one after another.
    fn into_iter(self) -> (tools: std::vec::IntoIter<ToolId>)
        ensures
            vstd::std_specs::iter::IteratorSpec::remaining(&tools) == self.allowed@,
    {
        self.allowed.into_iter()
    }
}

impl<'a> IntoIterator for &'a ToolPlan {
    type Item = &'a ToolId;
    type IntoIter = std::slice::Iter<'a, ToolId>;

    /// The tools, one after another.
    fn into_iter(self) -> (tools: std::slice::Iter<'a, ToolId>)
        ensures
            vstd::std_specs::iter::IteratorSpec::remaining(&tools).unref() == self.allowed@,
    {
        self.allowed.iter()
    }
}

/// What a [`Prepared`] holds.
pub struct PreparedView {
    pub key: PromptKeyView,
    pub prompt: Seq<char>,
    pub context: Seq<char>,
    pub tools: Seq<Seq<char>>,
}

/// What goes into a call of the language model, and the tools of the step.
#[derive(Debug, Eq)]
pub struct Prepared {
    pub key: PromptKey,
    pub prompt: String,
    pub context: String,
    pub tool_plan: ToolPlan,
}

impl View for Prepared {
    type V = PreparedView;

    open spec fn view(&self) -> PreparedView {
        PreparedView {
            key: self.key@,
            prompt: self.prompt@,
            context: self.context@,
            tools: self.tool_plan@,
        }
    }
}

impl PartialEq for Prepared {
    fn eq(&self, other: &Self) -> (same: bool) {
        self.key == other.key && self.prompt == other.prompt && self.context == other.context
            && self.tool_plan == other.tool_plan
    }
}

impl vstd::std_specs::cmp::PartialEqSpecImpl for Prepared {
    open spec fn obeys_eq_spec() -> bool {
        true
    }

    open spec fn eq_spec(&self, other: &Self) -> bool {
        self@ == other@
    }
}

impl Clone for Prepared {
    fn clone(&self) -> (copy: Self)
        ensures
            copy@ == self@,
    {
        Prepared {
            key: self.key.clone(),
            prompt: self.prompt.clone(),
            context: self.context.clone(),
            tool_plan: self.tool_plan.clone(),
        }
    }
}

/// What comes of a step.
#[derive(Debug, PartialEq, Eq)]
pub struct StepOutput<S> {
    /// The state after the step. A step does not move on by itself, so it is a clone of the
    /// state before.
    pub next_state: S,
    pub prompt_key: PromptKey,
    pub prompt: String,
    pub context: String,
    pub llm_response: String,
    pub tool_plan: ToolPlan,
}

impl<S> StepOutput<S> {
    /// What went into the call of the language model, and the tools of the step.
    pub open spec fn prepared(&self) -> PreparedView {
        PreparedView {
            key: self.prompt_key@,
            prompt: self.prompt@,
            context: self.context@,
            tools: self.tool_plan@,
        }
    }
}

impl<S: Clone> Clone for StepOutput<S> {
    fn clone(&self) -> (copy: Self)
        ensures
            cloned(self.next_state, copy.next_state),
            copy.prepared() == self.prepared(),
            copy.llm_response@ == self.llm_response@,
    {
        StepOutput {
            next_state: self.next_state.clone(),
            prompt_key: self.prompt_key.clone(),
            prompt: self.prompt.clone(),
            context: self.context.clone(),
            llm_response: self.llm_response.clone(),
            tool_plan: self.tool_plan.clone(),
        }
    }
}

/// What a failed call of the language model is told as: always a failure of the model.
pub open spec fn llm_failure(e: FormeErrorView) -> FormeErrorView {
    match e {
        FormeErrorView::LlmFailed(reason) => FormeErrorView::LlmFailed(reason),
        other => FormeErrorView::LlmFailed(other.message()),
    }
}

impl Prepared {
    /// What a step comes to once the language model has answered.
    pub open spec fn finished<S: State>(
        self,
        state: S,
        answer: Result<String, FormeError>,
        reply: Result<StepOutput<S>, FormeError>,
    ) -> bool {
        match answer {
            Ok(text) => reply matches Ok(out) && {
                &&& cloned(state, out.next_state)
                &&& out.prepared() == self@
                &&& out.llm_response@ == text@
            },
            Err(e) => reply matches Err(failure) && failure@ == llm_failure(e@),
        }
    }

    /// Ends a step in `state` with the answer of the language model.
    pub fn finish<S: State>(self, state: &S, answer: Result<String, FormeError>) -> (reply: Result<
        StepOutput<S>,
        FormeError,
    >)
        ensures
            self.finished(*state, answer, reply),
            reply is Ok <==> answer is Ok,
            reply matches Ok(out) ==> {
                &&& cloned(*state, out.next_state)
                &&& out.prompt_key == self.key
                &&& out.prompt == self.prompt
                &&& out.context == self.context
                &&& out.tool_plan == self.tool_plan
                &&& out.llm_response == answer->Ok_0
            },
            reply matches Err(failure) ==> failure is LlmFailed && (match answer->Err_0 {
                FormeError::LlmFailed(reason) => failure->LlmFailed_0@ == reason@,
                other => failure->LlmFailed_0@ == other@.message(),
            }),
    {
        match answer {
            Ok(text) => {
                Ok(
                    StepOutput {
                        next_state: state.clone(),
                        prompt_key: self.key,
                        prompt: self.prompt,
                        context: self.context,
                        llm_response: text,
                        tool_plan: self.tool_plan,
                    },
                )
            },
            Err(e) => match e {
                FormeError::LlmFailed(reason) => Err(FormeError::LlmFailed(reason)),
                other => Err(FormeError::LlmFailed(other.to_string())),
            },
        }
    }
}

/// How a program goes on after a step.
#[derive(Debug, PartialEq, Eq)]
pub enum NextAction<S> {
    /// Stays in the state.
    Next,
    /// Stays in the state.
    Continue,
    /// Moves to another state.
    Branch(S),
    /// Moves to another state.
    Transition(S),
    /// Ends.
    Halt,
}

impl<S> NextAction<S> {
    /// Whether the program ends.
    pub fn is_halt(&self) -> (b: bool)
        ensures
            b == (self is Halt),
    {
        matches!(self, NextAction::Halt)
    }

    /// The state that the program is in next, where it was in `current`.
    pub open spec fn state_after(self, current: S) -> S {
        match self {
            NextAction::Branch(next) => next,
            NextAction::Transition(next) => next,
            _ => current,
        }
    }
}

impl<S: Clone> Clone for NextAction<S> {
    fn clone(&self) -> (copy: Self)
        ensures
            match *self {
                NextAction::Branch(next) => copy matches NextAction::Branch(same) && cloned(
                    next,
                    same,
                ),
                NextAction::Transition(next) => copy matches NextAction::Transition(same) && cloned(
                    next,
                    same,
                ),
                other => copy == other,
            },
    {
        match self {
            NextAction::Next => NextAction::Next,
            NextAction::Continue => NextAction::Continue,
            NextAction::Branch(next) => NextAction::Branch(next.clone()),
            NextAction::Transition(next) => NextAction::Transition(next.clone()),
            NextAction::Halt => NextAction::Halt,
        }
    }
}

/// Puts the four parts together. Registry, builder and policy can be shared between runners.
pub struct Runner<S, E, R, B, P, L> where
    S: State,
    E: Event,
    R: Registry,
    B: ContextBuilder<E>,
    P: Policy<S>,
 {
    registry: Arc<R>,
    builder: Arc<B>,
    policy: Arc<P>,
    llm: L,
    states: PhantomData<S>,
    events: PhantomData<E>,
}

/// Shows a runner by its four parts.
impl<S, E, R, B, P, L> fmt::Debug for Runner<S, E, R, B, P, L> where
    S: State,
    E: Event,
    R: Registry + fmt::Debug,
    B: ContextBuilder<E> + fmt::Debug,
    P: Policy<S> + fmt::Debug,
    L: fmt::Debug,
 {
    fn fmt(&self, f: &mut fmt::Formatter<'_>) -> (reply: fmt::Result) {
        let mut shown = debug_struct(f, "Runner");
        field(&mut shown, "registry", &self.registry);
        field(&mut shown, "builder", &self.builder);
        field(&mut shown, "policy", &self.policy);
        field(&mut shown, "llm", &self.llm);
        finish(&mut shown)
    }
}

impl<S, E, R, B, P, L> Runner<S, E, R, B, P, L> where
    S: State,
    E: Event,
    R: Registry,
    B: ContextBuilder<E>,
    P: Policy<S>,
 {
    /// The registry.
    pub closed spec fn the_registry(&self) -> R {
        *self.registry
    }

    /// The context builder.
    pub closed spec fn the_builder(&self) -> B {
        *self.builder
    }

    /// The policy.
    pub closed spec fn the_policy(&self) -> P {
        *self.policy
    }

    /// The language model.
    pub closed spec fn the_llm(&self) -> L {
        self.llm
    }

    /// The runner of the given parts.
    pub fn new(registry: Arc<R>, builder: Arc<B>, policy: Arc<P>, llm: L) -> (runner: Self)
        ensures
            runner.the_registry() == *registry,
            runner.the_builder() == *builder,
            runner.the_policy() == *policy,
            runner.the_llm() == llm,
    {
        Runner { registry, builder, policy, llm, states: PhantomData, events: PhantomData }
    }

    /// The registry.
    pub fn registry(&self) -> (registry: &R)
        ensures
            *registry == self.the_registry(),
    {
        &self.registry
    }

    /// The context builder.
    pub fn builder(&self) -> (builder: &B)
        ensures
            *builder == self.the_builder(),
    {
        &self.builder
    }

    /// The policy.
    pub fn policy(&self) -> (policy: &P)
        ensures
            *policy == self.the_policy(),
    {
        &self.policy
    }

    /// The language model.
    pub fn llm(&self) -> (llm: &L)
        ensures
            *llm == self.the_llm(),
    {
        &self.llm
    }

    /// What a step may be prepared to: the prompt that the registry answers for the key of state
    /// and event, the context that the builder answers, and the tools that the policy lists; or
    /// the error of the registry, or, where that has a prompt, of the builder.
    pub open spec fn prepares(
        &self,
        state: &S,
        event: &E,
        history: Seq<E>,
        reply: Result<Prepared, FormeError>,
    ) -> bool {
        match reply {
            Ok(prepared) => {
                &&& kernel::keyed(state, event, prepared.key@)
                &&& self.the_registry().answers(prepared.key@, Ok(prepared.prompt))
                &&& self.the_builder().composes(event, history, Ok(prepared.context))
                &&& self.the_policy().may_list(state, prepared.tool_plan.allowed@)
            },
            Err(e) => exists|key: PromptKeyView| #[trigger]
                kernel::keyed(state, event, key) && self.refuses(key, event, history, e),
        }
    }

    /// How preparing the step of a key may fail: with the error of the registry, or, where that
    /// has a prompt, with the error of the builder.
    pub open spec fn refuses(
        &self,
        key: PromptKeyView,
        event: &E,
        history: Seq<E>,
        e: FormeError,
    ) -> bool {
        ||| self.the_registry().answers(key, Err(e))
        ||| exists|prompt: String| #[trigger]
            self.the_registry().answers(key, Ok(prompt)) && self.the_builder().composes(
                event,
                history,
                Err(e),
            )
    }

    /// Prepares a step without calling the language model.
    ///
    /// `history` holds the events before `event`, as many of them as the caller chose to keep.
    pub fn prepare(&self, state: &S, event: &E, history: &[E]) -> (reply: Result<
        Prepared,
        FormeError,
    >)
        ensures
            self.prepares(state, event, history@, reply),
            reply matches Ok(prepared) ==> {
                &&& kernel::shows(state, prepared.key.state@)
                &&& kernel::shows(event, prepared.key.event@)
                &&& self.the_registry().answers(prepared.key@, Ok(prepared.prompt))
                &&& self.the_builder().composes(event, history@, Ok(prepared.context))
                &&& self.the_policy().may_list(state, prepared.tool_plan.allowed@)
            },
            reply matches Err(e) ==> exists|key: PromptKey|
                {
                    &&& #[trigger] kernel::shows(state, key.state@)
                    &&& kernel::shows(event, key.event@)
                    &&& {
                        ||| self.the_registry().answers(key@, Err(e))
                        ||| exists|prompt: String| #[trigger]
                            self.the_registry().answers(key@, Ok(prompt))
                                && self.the_builder().composes(event, history@, Err(e))
                    }
                },
    {
        let key = PromptKey::key_for(state, event);
        let prompt = match self.registry.get(&key) {
            Ok(prompt) => prompt,
            Err(e) => {
                return Err(e);
            },
        };
        assert(self.the_registry().answers(key@, Ok(prompt)));
        let context = match self.builder.build(event, history) {
            Ok(context) => context,
            Err(e) => {
                return Err(e);
            },
        };
        let allowed = copy_tools(self.policy.allowed(state));
        Ok(Prepared { key, prompt, context, tool_plan: ToolPlan::new(allowed) })
    }

    /// The key of the prompt that comes next: that of the state that the program is in after
    /// `action`, and the event. A program that ends keeps its state, so that the key can be
    /// logged.
    pub fn handle_edge(&self, action: &NextAction<S>, current_state: &S, event: &E) -> (key:
        PromptKey)
        ensures
            kernel::keyed(&action.state_after(*current_state), event, key@),
    {
        match action {
            NextAction::Next => PromptKey::key_for(current_state, event),
            NextAction::Continue => PromptKey::key_for(current_state, event),
            NextAction::Halt => PromptKey::key_for(current_state, event),
            NextAction::Branch(next) => PromptKey::key_for(next, event),
            NextAction::Transition(next) => PromptKey::key_for(next, event),
        }
    }
}

impl<S, E, R, B, P, L> Runner<S, E, R, B, P, L> where
    S: State,
    E: Event,
    R: Registry,
    B: ContextBuilder<E>,
    P: Policy<S>,
    L: LlmAdapter<E>,
 {
    /// What a step may come to: the error of its preparation, or what the answer of the language
    /// model to the prepared prompt and context makes of it.
    pub open spec fn steps(
        &self,
        state: &S,
        event: &E,
        history: Seq<E>,
        reply: Result<StepOutput<S>, FormeError>,
    ) -> bool {
        ||| reply matches Err(e) && self.prepares(state, event, history, Err(e))
        ||| exists|prepared: Prepared, answer: Result<String, FormeError>|
            {
                &&& #[trigger] self.prepares(state, event, history, Ok(prepared))
                &&& #[trigger] self.the_llm().replies(prepared.prompt, prepared.context, answer)
                &&& prepared.finished(*state, answer, reply)
            }
    }

    /// Prepares a step and asks the language model.
    pub fn step(&self, state: &S, event: &E, history: &[E]) -> (reply: Result<
        StepOutput<S>,
        FormeError,
    >)
        ensures
            self.steps(state, event, history@, reply),
            reply matches Ok(out) ==> {
                &&& cloned(*state, out.next_state)
                &&& kernel::shows(state, out.prompt_key.state@)
                &&& kernel::shows(event, out.prompt_key.event@)
                &&& self.the_registry().answers(out.prompt_key@, Ok(out.prompt))
                &&& self.the_builder().composes(event, history@, Ok(out.context))
                &&& self.the_policy().may_list(state, out.tool_plan.allowed@)
                &&& self.the_llm().replies(out.prompt, out.context, Ok(out.llm_response))
            },
            reply matches Err(e) ==> exists|key: PromptKey|
                {
                    &&& #[trigger] kernel::shows(state, key.state@)
                    &&& kernel::shows(event, key.event@)
                    &&& {
                        ||| self.the_registry().answers(key@, Err(e))
                        ||| exists|prompt: String| #[trigger]
                            self.the_registry().answers(key@, Ok(prompt))
                                && self.the_builder().composes(event, history@, Err(e))
                        ||| exists|prompt: String, context: String, failure: FormeError|
                            {
                                &&& self.the_registry().answers(key@, Ok(prompt))
                                &&& self.the_builder().composes(event, history@, Ok(context))
                                &&& #[trigger] self.the_llm().replies(
                                    prompt,
                                    context,
                                    Err(failure),
                                )
                                &&& e is LlmFailed
                                &&& e->LlmFailed_0@ == (match failure {
                                    FormeError::LlmFailed(reason) => reason@,
                                    other => other@.message(),
                                })
                            }
                    }
                },
    {
        let prepared = match self.prepare(state, event, history) {
            Ok(prepared) => prepared,
            Err(e) => {
                return Err(e);
            },
        };
        let answer = self.llm.call(prepared.prompt.clone(), prepared.context.clone());
        let ghost at_call = prepared;
        let reply = prepared.finish(state, answer);
        assert(self.prepares(state, event, history@, Ok(at_call)));
        assert(self.the_llm().replies(at_call.prompt, at_call.context, answer));
        reply
    }
}

} // verus!
