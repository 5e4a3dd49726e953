//! Steps of the runner as tasks of a `graph_flow` workflow.
//!
//! A [`FormeTask`] prepares a step, a [`FormeLlmTask`] takes it to the answer of the language
//! model. Either leaves what came of it in the context of the workflow and says where the
//! workflow goes on.

use std::fmt;
use std::sync::Arc;

use vstd::prelude::*;

use graph_flow::NextAction as EngineAction;

use crate::context_builder::ContextBuilder;
pub use crate::graph_builder::{FormeGraphBuilder, GraphBuildError};
pub use crate::graph_builder::FormeGraphBuilder as GraphBuilderTyped;
use crate::kernel;
use crate::kernel::{label, Event, FormeError, FormeErrorView, PromptKeyView, State};
use crate::policy::Policy;
use crate::prompt_registry::Registry;
use crate::rig_adapter::LlmAdapter;
use crate::runtime::{NextAction, Prepared, PreparedView, Runner, StepOutput};
use crate::show::{debug_struct, field, finish_non_exhaustive};
use crate::text::IntoText;
use crate::workflow;
use crate::workflow::{next_action, task_result, to_json};
use crate::workflow::{Entry, GraphStep, GraphStepView, Outcome, TaskContext};

verus! {

/// Whether the workflow may take `step` after `action`: it goes on along its edges, at once where
/// `eager` says so, goes to the task that is named after a state, or ends.
pub open spec fn leads_to<S: State>(
    action: NextAction<S>,
    eager: bool,
    step: GraphStepView,
) -> bool {
    match action {
        NextAction::Next => step == onward(eager),
        NextAction::Continue => step == onward(eager),
        NextAction::Branch(state) => step matches GraphStepView::GoTo(id) && kernel::shows(
            &state,
            id,
        ),
        NextAction::Transition(state) => step matches GraphStepView::GoTo(id) && kernel::shows(
            &state,
            id,
        ),
        NextAction::Halt => step == GraphStepView::End,
    }
}

/// The step along the edges.
pub open spec fn onward(eager: bool) -> GraphStepView {
    if eager {
        GraphStepView::ContinueAndExecute
    } else {
        GraphStepView::Continue
    }
}

/// The step of the workflow for `action`.
pub fn graph_step_for<S: State>(action: &NextAction<S>, eager: bool) -> (step: GraphStep)
    ensures
        leads_to(*action, eager, step@),
{
    match action {
        NextAction::Next | NextAction::Continue => if eager {
            GraphStep::ContinueAndExecute
        } else {
            GraphStep::Continue
        },
        NextAction::Branch(state) => GraphStep::GoTo(label(state)),
        NextAction::Transition(state) => GraphStep::GoTo(label(state)),
        NextAction::Halt => GraphStep::End,
    }
}

/// The action of the workflow engine for `act`; `eager` runs the next task at once where `act`
/// stays in the state.
pub fn forme_next_to_gf<S: State>(act: NextAction<S>, eager: bool) -> (action: EngineAction)
    ensures
        leads_to(act, eager, workflow::step_in(action)),
{
    next_action(graph_step_for(&act, eager))
}

/// `eager` makes a difference only where the program stays in its state, and without it the
/// next task never runs at once.
pub proof fn eager_matters_only_where_the_state_stays<S: State>(
    action: NextAction<S>,
    step: GraphStepView,
)
    ensures
        !(action is Next || action is Continue) ==> leads_to(action, true, step) == leads_to(
            action,
            false,
            step,
        ),
        leads_to(action, false, step) ==> !(step is ContinueAndExecute),
{
}

/// Where the workflow goes to a task by its id, the id is the state part of the key of the
/// prompt that comes next; where it does not, that key is of the state that the program is in.
pub proof fn workflow_follows_the_state<S: State, E: Event>(
    action: NextAction<S>,
    current: S,
    event: &E,
    eager: bool,
    step: GraphStepView,
    key: PromptKeyView,
)
    requires
        kernel::stable::<S>(),
        leads_to(action, eager, step),
        kernel::keyed(&action.state_after(current), event, key),
    ensures
        match step {
            GraphStepView::GoTo(id) => id == key.state,
            _ => kernel::keyed(&current, event, key),
        },
{
}

impl<S: State> From<NextAction<S>> for EngineAction {
    /// The action of the workflow engine for `act`, which never runs the next task at once.
    fn from(act: NextAction<S>) -> (action: Self)
        ensures
            leads_to(act, false, workflow::step_in(action)),
    {
        forme_next_to_gf(act, false)
    }
}

impl<S: State> vstd::std_specs::convert::FromSpecImpl<NextAction<S>> for EngineAction {
    open spec fn obeys_from_spec() -> bool {
        false
    }

    open spec fn from_spec(act: NextAction<S>) -> Self {
        arbitrary()
    }
}

/// What a [`ContextWrite`] holds.
pub struct ContextWriteView {
    pub entry: Entry,
    pub required: Option<Seq<char>>,
}

/// A text that a task wants to leave in the context of the workflow.
#[derive(Debug)]
pub struct ContextWrite {
    pub key: String,
    pub value: String,
    /// What the text is called where the task fails if it cannot be written; `None` where it
    /// goes on without.
    pub required: Option<String>,
}

impl View for ContextWrite {
    type V = ContextWriteView;

    open spec fn view(&self) -> ContextWriteView {
        ContextWriteView {
            entry: Entry { key: self.key@, value: self.value@ },
            required: match self.required {
                Some(what) => Some(what@),
                None => None,
            },
        }
    }
}

impl ContextWrite {
    /// A text without which the task fails.
    fn required(key: &str, value: String, what: &str) -> (write: Self)
        ensures
            write@ == required_entry(key@, value@, what@),
    {
        ContextWrite { key: key.to_string(), value, required: Some(what.to_string()) }
    }

    /// A text without which the task goes on.
    fn optional(key: &str, value: String) -> (write: Self)
        ensures
            write@ == optional_entry(key@, value@),
    {
        ContextWrite { key: key.to_string(), value, required: None }
    }

    /// What the reply of the context means for the task: it goes on, or it fails for the reason
    /// given, where the text was not written and is required.
    pub fn judge(&self, reply: Result<(), String>) -> (verdict: Result<(), String>)
        ensures
            match (reply, self@.required) {
                (Err(why), Some(what)) => verdict matches Err(text) && text@ == write_failure(
                    what,
                    why@,
                ),
                _ => verdict is Ok,
            },
    {
        match reply {
            Ok(()) => Ok(()),
            Err(why) => match &self.required {
                Some(what) => {
                    let mut text = "context set ".to_string();
                    text.append(what.as_str());
                    text.append(" failed: ");
                    text.append(why.as_str());
                    Err(text)
                },
                None => Ok(()),
            },
        }
    }
}

/// A text without which the task fails; `what` names it.
pub open spec fn required_entry(
    key: Seq<char>,
    value: Seq<char>,
    what: Seq<char>,
) -> ContextWriteView {
    ContextWriteView { entry: Entry { key, value }, required: Some(what) }
}

/// A text without which the task goes on.
pub open spec fn optional_entry(key: Seq<char>, value: Seq<char>) -> ContextWriteView {
    ContextWriteView { entry: Entry { key, value }, required: None }
}

/// The reason for which a task fails that cannot write a text.
pub open spec fn write_failure(what: Seq<char>, why: Seq<char>) -> Seq<char> {
    "context set "@ + what + " failed: "@ + why
}

/// What a [`TaskPlan`] holds.
pub struct TaskPlanView {
    pub writes: Seq<ContextWriteView>,
    pub response: Seq<char>,
    pub step: GraphStepView,
}

impl TaskPlanView {
    /// The entries that the plan writes.
    pub open spec fn entries(self) -> Seq<Entry> {
        self.writes.map_values(|write: ContextWriteView| write.entry)
    }

    /// What the result of the plan tells the engine.
    pub open spec fn outcome(self) -> Outcome {
        Outcome { response: Some(self.response), step: self.step }
    }
}

/// What is left to do for a task: texts to write, in this order, and the result to give.
#[derive(Debug)]
pub struct TaskPlan {
    pub writes: Vec<ContextWrite>,
    pub response: String,
    pub step: GraphStep,
}

impl View for TaskPlan {
    type V = TaskPlanView;

    open spec fn view(&self) -> TaskPlanView {
        TaskPlanView {
            writes: self.writes@.map_values(|write: ContextWrite| write@),
            response: self.response@,
            step: self.step@,
        }
    }
}

impl TaskPlan {
    /// Writes the texts into the context, each of them once and nothing else, and makes the
    /// result.
    pub fn perform(self, context: &mut TaskContext) -> (reply: Result<
        graph_flow::TaskResult,
        String,
    >)
        ensures
            reply matches Ok(result) && workflow::outcome_in(result) == self@.outcome(),
            final(context).on() == old(context).on(),
            final(context).log() == old(context).log() + self@.entries(),
    {
        let ghost before = context.log();
        let ghost entries = self@.entries();
        assert(before + entries.take(0) =~= before);
        let mut i: usize = 0;
        while i < self.writes.len()
            invariant
                i <= self.writes@.len(),
                entries == self@.entries(),
                context.on() == old(context).on(),
                context.log() == before + entries.take(i as int),
            decreases self.writes@.len() - i,
        {
            let write = &self.writes[i];
            match write.judge(context.put(write.key.as_str(), write.value.as_str())) {
                Ok(()) => {},
                Err(text) => {
                    return Err(text);
                },
            }
            assert(entries[i as int] == write@.entry);
            assert(before + entries.take(i + 1) =~= (before + entries.take(i as int)).push(
                entries[i as int],
            ));
            i += 1;
        }
        assert(entries.take(entries.len() as int) =~= entries);
        Ok(task_result(self.response, next_action(self.step)))
    }
}

/// The names of the tools of a plan, one after another.
fn tool_names(prepared: &Prepared) -> (names: Vec<String>)
    ensures
        names@.map_values(|name: String| name@) == prepared@.tools,
{
    let tools = &prepared.tool_plan.allowed;
    let mut names: Vec<String> = Vec::new();
    let mut i: usize = 0;
    while i < tools.len()
        invariant
            i <= tools@.len(),
            tools@ == prepared.tool_plan.allowed@,
            names@.len() == i,
            forall|j: int| 0 <= j < i ==> (#[trigger] names@[j])@ == tools@[j]@,
        decreases tools@.len() - i,
    {
        names.push(tools[i].to_string());
        i += 1;
    }
    assert(names@.map_values(|name: String| name@) =~= prepared@.tools);
    names
}

/// The text with which a task fails: what failed, the id of the task in brackets, and the
/// message of the error.
pub open spec fn task_failure(what: Seq<char>, id: Seq<char>, e: FormeErrorView) -> Seq<char> {
    what + " ("@ + id + "): "@ + e.message()
}

/// Writes the text with which a task fails.
fn failure_text(what: &str, id: &str, e: &FormeError) -> (text: String)
    ensures
        text@ == task_failure(what@, id@, e@),
{
    let mut text = what.to_string();
    text.append(" (");
    text.append(id);
    text.append("): ");
    text.append(e.to_string().as_str());
    text
}

/// What a task that prepared a step leaves in the context, and its result; `tools` is the text
/// for the tools of the step.
pub open spec fn prepared_plan(
    prepared: PreparedView,
    tools: Seq<char>,
    state: Seq<char>,
    event: Seq<char>,
    step: GraphStepView,
) -> TaskPlanView {
    TaskPlanView {
        writes: seq![
            required_entry("forme.prompt"@, prepared.prompt, "prompt"@),
            required_entry("forme.context"@, prepared.context, "context"@),
            required_entry("forme.prompt_key"@, prepared.key.canonical(), "prompt_key"@),
            optional_entry("forme.tools"@, tools),
            optional_entry("forme.state"@, state),
            optional_entry("forme.event"@, event),
        ],
        response: "prepared: "@ + prepared.key.canonical(),
        step,
    }
}

/// What a task that took a step leaves in the context, and its result.
pub open spec fn stepped_plan(
    prepared: PreparedView,
    response: Seq<char>,
    state: Seq<char>,
    step: GraphStepView,
) -> TaskPlanView {
    TaskPlanView {
        writes: seq![
            optional_entry("forme.prompt"@, prepared.prompt),
            optional_entry("forme.context"@, prepared.context),
            optional_entry("forme.response"@, response),
            optional_entry("forme.state"@, state),
        ],
        response,
        step,
    }
}

/// A task writes each of its texts under a key of its own, so none of them hides another.
pub proof fn entries_have_their_own_keys(
    prepared: PreparedView,
    tools: Seq<char>,
    response: Seq<char>,
    state: Seq<char>,
    event: Seq<char>,
    step: GraphStepView,
    i: int,
    j: int,
)
    requires
        i != j,
    ensures
        ({
            let entries = prepared_plan(prepared, tools, state, event, step).entries();
            0 <= i < entries.len() && 0 <= j < entries.len() ==> entries[i].key != entries[j].key
        }),
        ({
            let entries = stepped_plan(prepared, response, state, step).entries();
            0 <= i < entries.len() && 0 <= j < entries.len() ==> entries[i].key != entries[j].key
        }),
{
    reveal_strlit("forme.prompt");
    reveal_strlit("forme.context");
    reveal_strlit("forme.prompt_key");
    reveal_strlit("forme.tools");
    reveal_strlit("forme.state");
    reveal_strlit("forme.event");
    reveal_strlit("forme.response");
    let own = seq![
        "forme.prompt"@,
        "forme.context"@,
        "forme.prompt_key"@,
        "forme.tools"@,
        "forme.state"@,
        "forme.event"@,
        "forme.response"@,
    ];
    assert("forme.tools"@[6] == 't');
    assert("forme.state"@[6] == 's');
    assert("forme.event"@[6] == 'e');
    assert forall|m: int, n: int| 0 <= m < n < own.len() implies own[m] != own[n] by {
        assert(own[m].len() != own[n].len() || own[m][6] != own[n][6]);
    }
    let of_prepared = prepared_plan(prepared, tools, state, event, step).entries();
    if 0 <= i < of_prepared.len() && 0 <= j < of_prepared.len() {
        assert(of_prepared[i].key == own[i] && of_prepared[j].key == own[j]);
    }
    let of_step = stepped_plan(prepared, response, state, step).entries();
    let at = seq![0int, 1, 6, 4];
    if 0 <= i < of_step.len() && 0 <= j < of_step.len() {
        assert(of_step[i].key == own[at[i]] && of_step[j].key == own[at[j]]);
    }
}

/// After a task that prepared a step, its prompt, context, key, tools, state and event are what
/// its writing left under their keys, and every other key is as it was.
pub proof fn prepared_task_leaves_its_texts(
    log: Seq<Entry>,
    prepared: PreparedView,
    tools: Seq<char>,
    state: Seq<char>,
    event: Seq<char>,
    step: GraphStepView,
    other: Seq<char>,
)
    ensures
        ({
            let entries = prepared_plan(prepared, tools, state, event, step).entries();
            let after = log + entries;
            &&& workflow::left_under(after, "forme.prompt"@) == Some(prepared.prompt)
            &&& workflow::left_under(after, "forme.context"@) == Some(prepared.context)
            &&& workflow::left_under(after, "forme.prompt_key"@) == Some(prepared.key.canonical())
            &&& workflow::left_under(after, "forme.tools"@) == Some(tools)
            &&& workflow::left_under(after, "forme.state"@) == Some(state)
            &&& workflow::left_under(after, "forme.event"@) == Some(event)
            &&& (forall|i: int| 0 <= i < entries.len() ==> (#[trigger] entries[i]).key != other)
                ==> workflow::left_under(after, other) == workflow::left_under(log, other)
        }),
{
    let entries = prepared_plan(prepared, tools, state, event, step).entries();
    assert forall|i: int, j: int| 0 <= i < j < entries.len() implies (#[trigger] entries[i]).key
        != (#[trigger] entries[j]).key by {
        entries_have_their_own_keys(prepared, tools, tools, state, event, step, i, j);
    }
    workflow::entries_are_left(log, entries, "forme.prompt"@);
    workflow::entries_are_left(log, entries, "forme.context"@);
    workflow::entries_are_left(log, entries, "forme.prompt_key"@);
    workflow::entries_are_left(log, entries, "forme.tools"@);
    workflow::entries_are_left(log, entries, "forme.state"@);
    workflow::entries_are_left(log, entries, "forme.event"@);
    workflow::entries_are_left(log, entries, other);
    assert(entries[0].key == "forme.prompt"@);
    assert(entries[1].key == "forme.context"@);
    assert(entries[2].key == "forme.prompt_key"@);
    assert(entries[3].key == "forme.tools"@);
    assert(entries[4].key == "forme.state"@);
    assert(entries[5].key == "forme.event"@);
}

/// After a task that took a step, its prompt, context, answer and state are what its writing
/// left under their keys, and every other key is as it was.
pub proof fn stepped_task_leaves_its_texts(
    log: Seq<Entry>,
    prepared: PreparedView,
    response: Seq<char>,
    state: Seq<char>,
    step: GraphStepView,
    other: Seq<char>,
)
    ensures
        ({
            let entries = stepped_plan(prepared, response, state, step).entries();
            let after = log + entries;
            &&& workflow::left_under(after, "forme.prompt"@) == Some(prepared.prompt)
            &&& workflow::left_under(after, "forme.context"@) == Some(prepared.context)
            &&& workflow::left_under(after, "forme.response"@) == Some(response)
            &&& workflow::left_under(after, "forme.state"@) == Some(state)
            &&& (forall|i: int| 0 <= i < entries.len() ==> (#[trigger] entries[i]).key != other)
                ==> workflow::left_under(after, other) == workflow::left_under(log, other)
        }),
{
    let entries = stepped_plan(prepared, response, state, step).entries();
    assert forall|i: int, j: int| 0 <= i < j < entries.len() implies (#[trigger] entries[i]).key
        != (#[trigger] entries[j]).key by {
        entries_have_their_own_keys(prepared, response, response, state, state, step, i, j);
    }
    workflow::entries_are_left(log, entries, "forme.prompt"@);
    workflow::entries_are_left(log, entries, "forme.context"@);
    workflow::entries_are_left(log, entries, "forme.response"@);
    workflow::entries_are_left(log, entries, "forme.state"@);
    workflow::entries_are_left(log, entries, other);
    assert(entries[0].key == "forme.prompt"@);
    assert(entries[1].key == "forme.context"@);
    assert(entries[2].key == "forme.response"@);
    assert(entries[3].key == "forme.state"@);
}

/// A task that prepares a step without asking the language model.
///
/// The prompt, the context, the key, the tools, the state and the event go into the context of
/// the workflow, where a later task finds them.
pub struct FormeTask<S, E, R, B, P, L> where
    S: State,
    E: Event,
    R: Registry,
    B: ContextBuilder<E>,
    P: Policy<S>,
 {
    runner: Arc<Runner<S, E, R, B, P, L>>,
    id: String,
    state: S,
    event: E,
    history: Vec<E>,
    next: NextAction<S>,
}

/// Shows a task by its id, its state, its event and how the program goes on.
impl<S, E, R, B, P, L> fmt::Debug for FormeTask<S, E, R, B, P, L> where
    S: State,
    E: Event,
    R: Registry,
    B: ContextBuilder<E>,
    P: Policy<S>,
 {
    fn fmt(&self, f: &mut fmt::Formatter<'_>) -> (reply: fmt::Result) {
        let mut shown = debug_struct(f, "FormeTask");
        field(&mut shown, "id", &self.id);
        field(&mut shown, "state", &self.state);
        field(&mut shown, "event", &self.event);
        field(&mut shown, "next", &self.next);
        finish_non_exhaustive(&mut shown)
    }
}

impl<S, E, R, B, P, L> FormeTask<S, E, R, B, P, L> where
    S: State,
    E: Event,
    R: Registry,
    B: ContextBuilder<E>,
    P: Policy<S>,
 {
    /// The runner of the task.
    pub closed spec fn the_runner(&self) -> Runner<S, E, R, B, P, L> {
        *self.runner
    }

    /// The id of the task.
    pub closed spec fn the_id(&self) -> Seq<char> {
        self.id@
    }

    /// The state in which the step is prepared.
    pub closed spec fn the_state(&self) -> S {
        self.state
    }

    /// The event for which the step is prepared.
    pub closed spec fn the_event(&self) -> E {
        self.event
    }

    /// The events before it.
    pub closed spec fn the_history(&self) -> Seq<E> {
        self.history@
    }

    /// How the program goes on after the task.
    pub closed spec fn the_next(&self) -> NextAction<S> {
        self.next
    }

    /// A task whose id is what `Display` writes for its state, without history, that goes on to
    /// the next task.
    pub fn new(runner: Arc<Runner<S, E, R, B, P, L>>, state: S, event: E) -> (task: Self)
        ensures
            task.the_runner() == *runner,
            kernel::shows(&state, task.the_id()),
            task.the_state() == state,
            task.the_event() == event,
            task.the_history() == Seq::<E>::empty(),
            task.the_next() == NextAction::<S>::Next,
    {
        let id = label(&state);
        FormeTask { runner, id, state, event, history: Vec::new(), next: NextAction::Next }
    }

    /// The same task under another id, which has to be the only one of its kind in the graph.
    pub fn with_id<T: IntoText>(self, id: T) -> (task: Self)
        ensures
            task.the_id() == id.text(),
            task.the_runner() == self.the_runner(),
            task.the_state() == self.the_state(),
            task.the_event() == self.the_event(),
            task.the_history() == self.the_history(),
            task.the_next() == self.the_next(),
    {
        FormeTask {
            runner: self.runner,
            id: id.into_text(),
            state: self.state,
            event: self.event,
            history: self.history,
            next: self.next,
        }
    }

    /// The same task with other events before its event.
    pub fn with_history(self, history: Vec<E>) -> (task: Self)
        ensures
            task.the_history() == history@,
            task.the_runner() == self.the_runner(),
            task.the_id() == self.the_id(),
            task.the_state() == self.the_state(),
            task.the_event() == self.the_event(),
            task.the_next() == self.the_next(),
    {
        FormeTask {
            runner: self.runner,
            id: self.id,
            state: self.state,
            event: self.event,
            history,
            next: self.next,
        }
    }

    /// The same task, after which the program goes on in another way.
    pub fn with_next(self, next: NextAction<S>) -> (task: Self)
        ensures
            task.the_next() == next,
            task.the_runner() == self.the_runner(),
            task.the_id() == self.the_id(),
            task.the_state() == self.the_state(),
            task.the_event() == self.the_event(),
            task.the_history() == self.the_history(),
    {
        FormeTask {
            runner: self.runner,
            id: self.id,
            state: self.state,
            event: self.event,
            history: self.history,
            next,
        }
    }

    /// The id of the task.
    pub fn id(&self) -> (id: &str)
        ensures
            id@ == self.the_id(),
    {
        self.id.as_str()
    }

    /// The state in which the step is prepared.
    pub fn state(&self) -> (state: &S)
        ensures
            *state == self.the_state(),
    {
        &self.state
    }

    /// The event for which the step is prepared.
    pub fn event(&self) -> (event: &E)
        ensures
            *event == self.the_event(),
    {
        &self.event
    }

    /// The runner of the task.
    pub fn runner(&self) -> (runner: &Arc<Runner<S, E, R, B, P, L>>)
        ensures
            **runner == self.the_runner(),
    {
        &self.runner
    }

    /// Whether `plan` may be the plan of the task where its step is prepared to `prepared`, with
    /// `tools` as the text for the tools.
    pub open spec fn plans_with(
        &self,
        prepared: PreparedView,
        tools: Seq<char>,
        plan: TaskPlanView,
    ) -> bool {
        &&& leads_to(self.the_next(), false, plan.step)
        &&& exists|state: Seq<char>, event: Seq<char>| #[trigger]
            kernel::shows(&self.the_state(), state) && #[trigger] kernel::shows(
                &self.the_event(),
                event,
            ) && plan == prepared_plan(prepared, tools, state, event, plan.step)
    }

    /// Whether `plan` may be the plan of the task where its step is prepared to `prepared`; the
    /// tools are written as a JSON list of their names.
    pub open spec fn plans(&self, prepared: PreparedView, plan: TaskPlanView) -> bool {
        self.plans_with(prepared, workflow::json_list(prepared.tools), plan)
    }

    /// The text with which the task fails where its step cannot be prepared.
    pub open spec fn prepare_failure(&self, e: FormeErrorView) -> Seq<char> {
        task_failure("forme prepare failed"@, self.the_id(), e)
    }

    /// What is left to do once the step was prepared, or the text with which the task fails.
    pub fn plan_for(&self, prepared: Result<Prepared, FormeError>) -> (reply: Result<
        TaskPlan,
        String,
    >)
        ensures
            match prepared {
                Ok(prepared) => reply matches Ok(plan) && self.plans(prepared@, plan@),
                Err(e) => reply matches Err(text) && text@ == self.prepare_failure(e@),
            },
            reply matches Ok(plan) ==> leads_to(self.the_next(), false, plan@.step),
    {
        let prepared = match prepared {
            Ok(prepared) => prepared,
            Err(e) => {
                return Err(failure_text("forme prepare failed", self.id.as_str(), &e));
            },
        };
        let tools = match to_json(&tool_names(&prepared)) {
            Ok(json) => json,
            Err(_) => "[]".to_string(),
        };
        Ok(self.plan_with(prepared, tools))
    }

    /// What is left to do once the step was prepared, with `tools` as the text for the tools.
    pub fn plan_with(&self, prepared: Prepared, tools: String) -> (plan: TaskPlan)
        ensures
            self.plans_with(prepared@, tools@, plan@),
            leads_to(self.the_next(), false, plan@.step),
    {
        let ghost at_start = (prepared@, tools@);
        let key = prepared.key.canonical();
        let response = "prepared: ".to_string().concat(key.as_str());
        let state = label(&self.state);
        let event = label(&self.event);
        let ghost shown = (state@, event@);
        let writes = vec![
            ContextWrite::required("forme.prompt", prepared.prompt, "prompt"),
            ContextWrite::required("forme.context", prepared.context, "context"),
            ContextWrite::required("forme.prompt_key", key, "prompt_key"),
            ContextWrite::optional("forme.tools", tools),
            ContextWrite::optional("forme.state", state),
            ContextWrite::optional("forme.event", event),
        ];
        let plan = TaskPlan { writes, response, step: graph_step_for(&self.next, false) };
        assert(plan@.writes =~= prepared_plan(
            at_start.0,
            at_start.1,
            shown.0,
            shown.1,
            plan@.step,
        ).writes);
        assert(kernel::shows(&self.the_state(), shown.0));
        assert(kernel::shows(&self.the_event(), shown.1));
        plan
    }

    /// What the task may come to, where `written` is what it wrote into the context: the entries
    /// and the result of its plan where the step is prepared, and where it is not, nothing and a
    /// failure.
    pub open spec fn runs(
        &self,
        written: Seq<Entry>,
        reply: Result<graph_flow::TaskResult, String>,
    ) -> bool {
        exists|prepared: Result<Prepared, FormeError>|
            {
                &&& #[trigger] self.the_runner().prepares(
                    &self.the_state(),
                    &self.the_event(),
                    self.the_history(),
                    prepared,
                )
                &&& match prepared {
                    Ok(prepared) => reply matches Ok(result) && exists|plan: TaskPlanView|
                        #[trigger] self.plans(prepared@, plan) && written == plan.entries()
                            && workflow::outcome_in(result) == plan.outcome(),
                    Err(e) => reply matches Err(text) && text@ == self.prepare_failure(e@)
                        && written == Seq::<Entry>::empty(),
                }
            }
    }

    /// Prepares the step, writes what came of it into the context and gives the result.
    pub fn run(&self, context: &mut TaskContext) -> (reply: Result<graph_flow::TaskResult, String>)
        ensures
            final(context).on() == old(context).on(),
            exists|written: Seq<Entry>| #[trigger]
                self.runs(written, reply) && final(context).log() == old(context).log() + written,
            reply is Err ==> final(context).log() == old(context).log(),
            reply matches Ok(result) ==> leads_to(
                self.the_next(),
                false,
                workflow::outcome_in(result).step,
            ),
    {
        let prepared = self.runner.prepare(&self.state, &self.event, self.history.as_slice());
        assert(self.the_runner().prepares(
            &self.the_state(),
            &self.the_event(),
            self.the_history(),
            prepared,
        ));
        match self.plan_for(prepared) {
            Ok(plan) => {
                let ghost view = plan@;
                let reply = plan.perform(context);
                assert(self.runs(view.entries(), reply));
                reply
            },
            Err(text) => {
                let reply = Err(text);
                assert(context.log() + Seq::<Entry>::empty() =~= context.log());
                assert(self.runs(Seq::<Entry>::empty(), reply));
                reply
            },
        }
    }
}

/// A task that takes a step to the answer of the language model.
///
/// The prompt, the context, the answer and the state go into the context of the workflow.
pub struct FormeLlmTask<S, E, R, B, P, L> where
    S: State,
    E: Event,
    R: Registry,
    B: ContextBuilder<E>,
    P: Policy<S>,
 {
    runner: Arc<Runner<S, E, R, B, P, L>>,
    id: String,
    state: S,
    event: E,
    history: Vec<E>,
    next: NextAction<S>,
}

/// Shows a task by its id, its state and how the program goes on.
impl<S, E, R, B, P, L> fmt::Debug for FormeLlmTask<S, E, R, B, P, L> where
    S: State,
    E: Event,
    R: Registry,
    B: ContextBuilder<E>,
    P: Policy<S>,
 {
    fn fmt(&self, f: &mut fmt::Formatter<'_>) -> (reply: fmt::Result) {
        let mut shown = debug_struct(f, "FormeLlmTask");
        field(&mut shown, "id", &self.id);
        field(&mut shown, "state", &self.state);
        field(&mut shown, "next", &self.next);
        finish_non_exhaustive(&mut shown)
    }
}

impl<S, E, R, B, P, L> FormeLlmTask<S, E, R, B, P, L> where
    S: State,
    E: Event,
    R: Registry,
    B: ContextBuilder<E>,
    P: Policy<S>,
 {
    /// The runner of the task.
    pub closed spec fn the_runner(&self) -> Runner<S, E, R, B, P, L> {
        *self.runner
    }

    /// The id of the task.
    pub closed spec fn the_id(&self) -> Seq<char> {
        self.id@
    }

    /// The state in which the step is taken.
    pub closed spec fn the_state(&self) -> S {
        self.state
    }

    /// The event for which the step is taken.
    pub closed spec fn the_event(&self) -> E {
        self.event
    }

    /// The events before it.
    pub closed spec fn the_history(&self) -> Seq<E> {
        self.history@
    }

    /// How the program goes on after the task.
    pub closed spec fn the_next(&self) -> NextAction<S> {
        self.next
    }

    /// A task whose id is what `Display` writes for its state, without history, that goes on to
    /// the next task.
    pub fn new(runner: Arc<Runner<S, E, R, B, P, L>>, state: S, event: E) -> (task: Self)
        ensures
            task.the_runner() == *runner,
            kernel::shows(&state, task.the_id()),
            task.the_state() == state,
            task.the_event() == event,
            task.the_history() == Seq::<E>::empty(),
            task.the_next() == NextAction::<S>::Next,
    {
        let id = label(&state);
        FormeLlmTask { runner, id, state, event, history: Vec::new(), next: NextAction::Next }
    }

    /// The same task under another id, which has to be the only one of its kind in the graph.
    pub fn with_id<T: IntoText>(self, id: T) -> (task: Self)
        ensures
            task.the_id() == id.text(),
            task.the_runner() == self.the_runner(),
            task.the_state() == self.the_state(),
            task.the_event() == self.the_event(),
            task.the_history() == self.the_history(),
            task.the_next() == self.the_next(),
    {
        FormeLlmTask {
            runner: self.runner,
            id: id.into_text(),
            state: self.state,
            event: self.event,
            history: self.history,
            next: self.next,
        }
    }

    /// The same task with other events before its event.
    pub fn with_history(self, history: Vec<E>) -> (task: Self)
        ensures
            task.the_history() == history@,
            task.the_runner() == self.the_runner(),
            task.the_id() == self.the_id(),
            task.the_state() == self.the_state(),
            task.the_event() == self.the_event(),
            task.the_next() == self.the_next(),
    {
        FormeLlmTask {
            runner: self.runner,
            id: self.id,
            state: self.state,
            event: self.event,
            history,
            next: self.next,
        }
    }

    /// The same task, after which the program goes on in another way.
    pub fn with_next(self, next: NextAction<S>) -> (task: Self)
        ensures
            task.the_next() == next,
            task.the_runner() == self.the_runner(),
            task.the_id() == self.the_id(),
            task.the_state() == self.the_state(),
            task.the_event() == self.the_event(),
            task.the_history() == self.the_history(),
    {
        FormeLlmTask {
            runner: self.runner,
            id: self.id,
            state: self.state,
            event: self.event,
            history: self.history,
            next,
        }
    }

    /// The id of the task.
    pub fn id(&self) -> (id: &str)
        ensures
            id@ == self.the_id(),
    {
        self.id.as_str()
    }

    /// The runner of the task.
    pub fn runner(&self) -> (runner: &Arc<Runner<S, E, R, B, P, L>>)
        ensures
            **runner == self.the_runner(),
    {
        &self.runner
    }

    /// Prepares the step of the task, for a caller that asks the language model itself.
    pub fn prepare(&self) -> (reply: Result<Prepared, FormeError>)
        ensures
            self.the_runner().prepares(
                &self.the_state(),
                &self.the_event(),
                self.the_history(),
                reply,
            ),
    {
        self.runner.prepare(&self.state, &self.event, self.history.as_slice())
    }

    /// Ends the step that was prepared to `prepared` with the answer of the language model.
    pub fn finish(&self, prepared: Prepared, answer: Result<String, FormeError>) -> (reply: Result<
        StepOutput<S>,
        FormeError,
    >)
        ensures
            prepared.finished(self.the_state(), answer, reply),
    {
        prepared.finish(&self.state, answer)
    }

    /// Whether `plan` may be the plan of the task where its step comes to `out`.
    pub open spec fn plans(&self, out: StepOutput<S>, plan: TaskPlanView) -> bool {
        &&& leads_to(self.the_next(), false, plan.step)
        &&& exists|state: Seq<char>| #[trigger]
            kernel::shows(&out.next_state, state) && plan == stepped_plan(
                out.prepared(),
                out.llm_response@,
                state,
                plan.step,
            )
    }

    /// The text with which the task fails where its step does.
    pub open spec fn step_failure(&self, e: FormeErrorView) -> Seq<char> {
        task_failure("forme step failed"@, self.the_id(), e)
    }

    /// What is left to do once the step was taken, or the text with which the task fails.
    pub fn plan_for(&self, stepped: Result<StepOutput<S>, FormeError>) -> (reply: Result<
        TaskPlan,
        String,
    >)
        ensures
            match stepped {
                Ok(out) => reply matches Ok(plan) && self.plans(out, plan@),
                Err(e) => reply matches Err(text) && text@ == self.step_failure(e@),
            },
            reply matches Ok(plan) ==> leads_to(self.the_next(), false, plan@.step),
    {
        let out = match stepped {
            Ok(out) => out,
            Err(e) => {
                return Err(failure_text("forme step failed", self.id.as_str(), &e));
            },
        };
        let ghost at_end = out;
        let state = label(&out.next_state);
        let ghost shown = state@;
        let writes = vec![
            ContextWrite::optional("forme.prompt", out.prompt),
            ContextWrite::optional("forme.context", out.context),
            ContextWrite::optional("forme.response", out.llm_response.clone()),
            ContextWrite::optional("forme.state", state),
        ];
        let plan = TaskPlan {
            writes,
            response: out.llm_response,
            step: graph_step_for(&self.next, false),
        };
        assert(plan@.writes =~= stepped_plan(
            at_end.prepared(),
            at_end.llm_response@,
            shown,
            plan@.step,
        ).writes);
        Ok(plan)
    }
}

impl<S, E, R, B, P, L> FormeLlmTask<S, E, R, B, P, L> where
    S: State,
    E: Event,
    R: Registry,
    B: ContextBuilder<E>,
    P: Policy<S>,
    L: LlmAdapter<E>,
 {
    /// What the task may come to, where `written` is what it wrote into the context: the entries
    /// and the result of its plan where the step is taken, and where the step fails, nothing and
    /// a failure.
    pub open spec fn runs(
        &self,
        written: Seq<Entry>,
        reply: Result<graph_flow::TaskResult, String>,
    ) -> bool {
        exists|stepped: Result<StepOutput<S>, FormeError>|
            {
                &&& #[trigger] self.the_runner().steps(
                    &self.the_state(),
                    &self.the_event(),
                    self.the_history(),
                    stepped,
                )
                &&& match stepped {
                    Ok(out) => reply matches Ok(result) && exists|plan: TaskPlanView| #[trigger]
                        self.plans(out, plan) && written == plan.entries() && workflow::outcome_in(
                            result,
                        ) == plan.outcome(),
                    Err(e) => reply matches Err(text) && text@ == self.step_failure(e@)
                        && written == Seq::<Entry>::empty(),
                }
            }
    }

    /// Takes the step, writes what came of it into the context and gives the result.
    pub fn run(&self, context: &mut TaskContext) -> (reply: Result<graph_flow::TaskResult, String>)
        ensures
            final(context).on() == old(context).on(),
            exists|written: Seq<Entry>| #[trigger]
                self.runs(written, reply) && final(context).log() == old(context).log() + written,
            reply is Err ==> final(context).log() == old(context).log(),
            reply matches Ok(result) ==> leads_to(
                self.the_next(),
                false,
                workflow::outcome_in(result).step,
            ),
    {
        let stepped = self.runner.step(&self.state, &self.event, self.history.as_slice());
        assert(self.the_runner().steps(
            &self.the_state(),
            &self.the_event(),
            self.the_history(),
            stepped,
        ));
        match self.plan_for(stepped) {
            Ok(plan) => {
                let ghost view = plan@;
                let reply = plan.perform(context);
                assert(self.runs(view.entries(), reply));
                reply
            },
            Err(text) => {
                let reply = Err(text);
                assert(context.log() + Seq::<Entry>::empty() =~= context.log());
                assert(self.runs(Seq::<Entry>::empty(), reply));
                reply
            },
        }
    }
}

} // verus!
