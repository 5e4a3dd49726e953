//! Tasks of a workflow: where they lead, what they write, and what they answer.

use std::sync::Arc;

use vstd::prelude::*;

use graph_flow::NextAction as EngineAction;

use crate::context_builder::ContextBuilder;
use crate::graph_flow_adapter::{
    forme_next_to_gf, graph_step_for, ContextWrite, FormeLlmTask, FormeTask, TaskPlan, TaskPlanView,
};
use crate::kernel;
use crate::kernel::{Event, FormeError, PromptKeyView, State, ToolId};
use crate::policy::Policy;
use crate::prompt_registry::Registry;
use crate::rig_adapter::LlmAdapter;
use crate::runtime::{NextAction, Prepared, Runner, StepOutput};
use crate::tool_set;
use crate::workflow;
use crate::workflow::{Entry, GraphStep, GraphStepView, TaskContext};

verus! {

/// An action that stays in the state goes on along the edges, at once just where that is asked
/// for; one that moves to a state goes to the task named as `Display` writes the state; one that
/// halts ends the workflow.
pub proof fn conversion_goes_where_the_action_does<S: State>(
    act: NextAction<S>,
    eager: bool,
    action: EngineAction,
    step: GraphStep,
)
    requires
        call_ensures(forme_next_to_gf::<S>, (act, eager), action),
        call_ensures(graph_step_for::<S>, (&act, eager), step),
    ensures
        match act {
            NextAction::Next | NextAction::Continue => if eager {
                workflow::step_in(action) is ContinueAndExecute && step is ContinueAndExecute
            } else {
                workflow::step_in(action) is Continue && step is Continue
            },
            NextAction::Branch(state) => {
                &&& workflow::step_in(action) is GoTo
                &&& exists|s: String|
                    #[trigger] vstd::string::to_string_from_display_ensures(&state, s) && s@
                        == workflow::step_in(action)->GoTo_0
                &&& step is GoTo
                &&& exists|s: String|
                    #[trigger] vstd::string::to_string_from_display_ensures(&state, s) && s@
                        == step->GoTo_0@
            },
            NextAction::Transition(state) => {
                &&& workflow::step_in(action) is GoTo
                &&& exists|s: String|
                    #[trigger] vstd::string::to_string_from_display_ensures(&state, s) && s@
                        == workflow::step_in(action)->GoTo_0
                &&& step is GoTo
                &&& exists|s: String|
                    #[trigger] vstd::string::to_string_from_display_ensures(&state, s) && s@
                        == step->GoTo_0@
            },
            NextAction::Halt => workflow::step_in(action) is End && step is End,
        },
{
}

/// Converting an action without saying how never runs the next task at once, and is otherwise the
/// same conversion.
pub proof fn plain_conversion_waits<S: State>(act: NextAction<S>, action: EngineAction)
    requires
        call_ensures(<EngineAction as From<NextAction<S>>>::from, (act,), action),
    ensures
        match act {
            NextAction::Next | NextAction::Continue => workflow::step_in(action) is Continue,
            NextAction::Branch(state) => {
                &&& workflow::step_in(action) is GoTo
                &&& exists|s: String|
                    #[trigger] vstd::string::to_string_from_display_ensures(&state, s) && s@
                        == workflow::step_in(action)->GoTo_0
            },
            NextAction::Transition(state) => {
                &&& workflow::step_in(action) is GoTo
                &&& exists|s: String|
                    #[trigger] vstd::string::to_string_from_display_ensures(&state, s) && s@
                        == workflow::step_in(action)->GoTo_0
            },
            NextAction::Halt => workflow::step_in(action) is End,
        },
{
}

/// A reply of the context fails the task just where it is a failure and the text is required, and
/// then with the name of the text and the reason.
pub proof fn only_required_texts_fail_a_task(
    write: &ContextWrite,
    reply: Result<(), String>,
    verdict: Result<(), String>,
)
    requires
        call_ensures(ContextWrite::judge, (write, reply), verdict),
    ensures
        verdict is Err <==> reply is Err && write.required is Some,
        verdict is Err ==> verdict->Err_0@ == "context set "@ + write.required->0@ + " failed: "@
            + reply->Err_0@,
{
}

/// Performing a plan writes its texts, each under its key, in their order, and nothing else, and
/// gives its response and its step to the engine.
pub proof fn plan_is_performed_whole(
    plan: TaskPlan,
    context: &mut TaskContext,
    reply: Result<graph_flow::TaskResult, String>,
)
    requires
        call_ensures(TaskPlan::perform, (plan, context), reply),
    ensures
        reply is Ok,
        final(context).on() == old(context).on(),
        final(context).log().len() == old(context).log().len() + plan.writes@.len(),
        forall|i: int|
            0 <= i < old(context).log().len() ==> #[trigger] final(context).log()[i] == old(
                context,
            ).log()[i],
        forall|i: int|
            0 <= i < plan.writes@.len() ==> {
                let entry = final(context).log()[old(context).log().len() + i];
                entry.key == (#[trigger] plan.writes@[i]).key@ && entry.value
                    == plan.writes@[i].value@
            },
        workflow::outcome_in(reply->Ok_0).response == Some(plan.response@),
        match plan.step {
            GraphStep::Continue => workflow::outcome_in(reply->Ok_0).step is Continue,
            GraphStep::ContinueAndExecute => workflow::outcome_in(
                reply->Ok_0,
            ).step is ContinueAndExecute,
            GraphStep::GoTo(id) => workflow::outcome_in(reply->Ok_0).step == GraphStepView::GoTo(
                id@,
            ),
            GraphStep::End => workflow::outcome_in(reply->Ok_0).step is End,
        },
{
    let entries = plan@.entries();
    assert forall|i: int| 0 <= i < plan.writes@.len() implies {
        let entry = final(context).log()[old(context).log().len() + i];
        entry.key == (#[trigger] plan.writes@[i]).key@ && entry.value == plan.writes@[i].value@
    } by {
        assert(final(context).log()[old(context).log().len() + i] == entries[i]);
        assert(entries[i] == plan@.writes[i].entry);
        assert(plan@.writes[i] == plan.writes@[i]@);
    }
}

/// What is found under a key is the last text that was written under it, and nothing before any
/// was; writing under a key changes no other key.
pub proof fn last_text_is_found(log: Seq<Entry>, entry: Entry, key: Seq<char>)
    ensures
        workflow::left_under(log.push(entry), key) == (if entry.key == key {
            Some(entry.value)
        } else {
            workflow::left_under(log, key)
        }),
        workflow::left_under(Seq::empty(), key) is None,
{
    assert(log.push(entry).drop_last() =~= log);
}

/// The plan of a task whose step was prepared writes the prompt, the context, the canonical key,
/// the names of the tools as JSON, the state and the event under their names, answers with the
/// key, and leads where the task does.
pub proof fn prepared_task_is_planned<S, E, R, B, P, L>(
    task: &FormeTask<S, E, R, B, P, L>,
    prepared: Prepared,
    reply: Result<TaskPlan, String>,
) where S: State, E: Event, R: Registry, B: ContextBuilder<E>, P: Policy<S>
    requires
        call_ensures(FormeTask::<S, E, R, B, P, L>::plan_for, (task, Ok(prepared)), reply),
    ensures
        reply is Ok,
        ({
            let plan = reply->Ok_0;
            &&& plan.writes@.len() == 6
            &&& plan.writes@[0].key@ == "forme.prompt"@
            &&& plan.writes@[0].value@ == prepared.prompt@
            &&& plan.writes@[1].key@ == "forme.context"@
            &&& plan.writes@[1].value@ == prepared.context@
            &&& plan.writes@[2].key@ == "forme.prompt_key"@
            &&& plan.writes@[2].value@ == prepared.key.state@ + "::"@ + prepared.key.event@
            &&& plan.writes@[3].key@ == "forme.tools"@
            &&& plan.writes@[3].value@ == workflow::json_list(
                prepared.tool_plan.allowed@.map_values(|tool: ToolId| tool.0@),
            )
            &&& plan.writes@[4].key@ == "forme.state"@
            &&& exists|s: String|
                #[trigger] vstd::string::to_string_from_display_ensures(&task.the_state(), s) && s@
                    == plan.writes@[4].value@
            &&& plan.writes@[5].key@ == "forme.event"@
            &&& exists|s: String|
                #[trigger] vstd::string::to_string_from_display_ensures(&task.the_event(), s) && s@
                    == plan.writes@[5].value@
            &&& forall|i: int|
                0 <= i < 6 ==> ((#[trigger] plan.writes@[i]).required is Some <==> i < 3)
            &&& plan.writes@[0].required->0@ == "prompt"@
            &&& plan.writes@[1].required->0@ == "context"@
            &&& plan.writes@[2].required->0@ == "prompt_key"@
            &&& plan.response@ == "prepared: "@ + (prepared.key.state@ + "::"@
                + prepared.key.event@)
        }),
        match task.the_next() {
            NextAction::Next | NextAction::Continue => reply->Ok_0.step is Continue,
            NextAction::Branch(state) => {
                &&& reply->Ok_0.step is GoTo
                &&& exists|s: String|
                    #[trigger] vstd::string::to_string_from_display_ensures(&state, s) && s@
                        == reply->Ok_0.step->GoTo_0@
            },
            NextAction::Transition(state) => {
                &&& reply->Ok_0.step is GoTo
                &&& exists|s: String|
                    #[trigger] vstd::string::to_string_from_display_ensures(&state, s) && s@
                        == reply->Ok_0.step->GoTo_0@
            },
            NextAction::Halt => reply->Ok_0.step is End,
        },
{
    let plan = reply->Ok_0;
    let view = plan@;
    assert(prepared.tool_plan@ =~= prepared.tool_plan.allowed@.map_values(|tool: ToolId| tool.0@));
    assert(view.writes.len() == 6);
    assert forall|i: int| 0 <= i < 6 implies #[trigger] view.writes[i] == plan.writes@[i]@ by {}
    assert(view.writes[0] == plan.writes@[0]@);
    assert(view.writes[1] == plan.writes@[1]@);
    assert(view.writes[2] == plan.writes@[2]@);
    assert(view.writes[3] == plan.writes@[3]@);
    assert(view.writes[4] == plan.writes@[4]@);
    assert(view.writes[5] == plan.writes@[5]@);
}

/// A task whose step cannot be prepared fails with its id and the message of the error, and so
/// does one whose step fails, each in its own words.
pub proof fn failed_task_tells_its_id<S, E, R, B, P, L>(
    task: &FormeTask<S, E, R, B, P, L>,
    llm_task: &FormeLlmTask<S, E, R, B, P, L>,
    e: FormeError,
    message: String,
    id: &str,
    llm_id: &str,
    reply: Result<TaskPlan, String>,
    llm_reply: Result<TaskPlan, String>,
) where S: State, E: Event, R: Registry, B: ContextBuilder<E>, P: Policy<S>, L: LlmAdapter<E>
    requires
        call_ensures(FormeError::to_string, (&e,), message),
        call_ensures(FormeTask::<S, E, R, B, P, L>::id, (task,), id),
        call_ensures(FormeLlmTask::<S, E, R, B, P, L>::id, (llm_task,), llm_id),
        call_ensures(FormeTask::<S, E, R, B, P, L>::plan_for, (task, Err(e)), reply),
        call_ensures(FormeLlmTask::<S, E, R, B, P, L>::plan_for, (llm_task, Err(e)), llm_reply),
    ensures
        reply is Err,
        reply->Err_0@ == "forme prepare failed"@ + " ("@ + id@ + "): "@ + message@,
        llm_reply is Err,
        llm_reply->Err_0@ == "forme step failed"@ + " ("@ + llm_id@ + "): "@ + message@,
{
}

/// The plan of a task whose step was taken writes the prompt, the context, the answer and the
/// state after the step under their names, none of which it needs, answers with the answer of the
/// model, and leads where the task does.
pub proof fn stepped_task_is_planned<S, E, R, B, P, L>(
    task: &FormeLlmTask<S, E, R, B, P, L>,
    out: StepOutput<S>,
    reply: Result<TaskPlan, String>,
) where S: State, E: Event, R: Registry, B: ContextBuilder<E>, P: Policy<S>
    requires
        call_ensures(FormeLlmTask::<S, E, R, B, P, L>::plan_for, (task, Ok(out)), reply),
    ensures
        reply is Ok,
        ({
            let plan = reply->Ok_0;
            &&& plan.writes@.len() == 4
            &&& plan.writes@[0].key@ == "forme.prompt"@
            &&& plan.writes@[0].value@ == out.prompt@
            &&& plan.writes@[1].key@ == "forme.context"@
            &&& plan.writes@[1].value@ == out.context@
            &&& plan.writes@[2].key@ == "forme.response"@
            &&& plan.writes@[2].value@ == out.llm_response@
            &&& plan.writes@[3].key@ == "forme.state"@
            &&& exists|s: String|
                #[trigger] vstd::string::to_string_from_display_ensures(&out.next_state, s) && s@
                    == plan.writes@[3].value@
            &&& forall|i: int| 0 <= i < 4 ==> (#[trigger] plan.writes@[i]).required is None
            &&& plan.response@ == out.llm_response@
        }),
        match task.the_next() {
            NextAction::Next | NextAction::Continue => reply->Ok_0.step is Continue,
            NextAction::Branch(state) => {
                &&& reply->Ok_0.step is GoTo
                &&& exists|s: String|
                    #[trigger] vstd::string::to_string_from_display_ensures(&state, s) && s@
                        == reply->Ok_0.step->GoTo_0@
            },
            NextAction::Transition(state) => {
                &&& reply->Ok_0.step is GoTo
                &&& exists|s: String|
                    #[trigger] vstd::string::to_string_from_display_ensures(&state, s) && s@
                        == reply->Ok_0.step->GoTo_0@
            },
            NextAction::Halt => reply->Ok_0.step is End,
        },
{
    let plan = reply->Ok_0;
    let view = plan@;
    assert(view.writes.len() == 4);
    assert(view.writes[0] == plan.writes@[0]@);
    assert(view.writes[1] == plan.writes@[1]@);
    assert(view.writes[2] == plan.writes@[2]@);
    assert(view.writes[3] == plan.writes@[3]@);
}

/// Where a task ends with a result, the engine goes where the next action of the task says,
/// whichever of the two kinds of task it is.
pub proof fn tasks_lead_where_their_action_does<S, E, R, B, P, L>(
    task: &FormeTask<S, E, R, B, P, L>,
    context: &mut TaskContext,
    result: graph_flow::TaskResult,
    llm_task: &FormeLlmTask<S, E, R, B, P, L>,
    llm_context: &mut TaskContext,
    llm_result: graph_flow::TaskResult,
) where S: State, E: Event, R: Registry, B: ContextBuilder<E>, P: Policy<S>, L: LlmAdapter<E>
    requires
        call_ensures(FormeTask::<S, E, R, B, P, L>::run, (task, context), Ok(result)),
        call_ensures(
            FormeLlmTask::<S, E, R, B, P, L>::run,
            (llm_task, llm_context),
            Ok(llm_result),
        ),
    ensures
        match task.the_next() {
            NextAction::Next | NextAction::Continue => workflow::outcome_in(
                result,
            ).step is Continue,
            NextAction::Branch(state) => {
                &&& workflow::outcome_in(result).step is GoTo
                &&& exists|s: String|
                    #[trigger] vstd::string::to_string_from_display_ensures(&state, s) && s@
                        == workflow::outcome_in(result).step->GoTo_0
            },
            NextAction::Transition(state) => {
                &&& workflow::outcome_in(result).step is GoTo
                &&& exists|s: String|
                    #[trigger] vstd::string::to_string_from_display_ensures(&state, s) && s@
                        == workflow::outcome_in(result).step->GoTo_0
            },
            NextAction::Halt => workflow::outcome_in(result).step is End,
        },
        match llm_task.the_next() {
            NextAction::Next | NextAction::Continue => workflow::outcome_in(
                llm_result,
            ).step is Continue,
            NextAction::Branch(state) => {
                &&& workflow::outcome_in(llm_result).step is GoTo
                &&& exists|s: String|
                    #[trigger] vstd::string::to_string_from_display_ensures(&state, s) && s@
                        == workflow::outcome_in(llm_result).step->GoTo_0
            },
            NextAction::Transition(state) => {
                &&& workflow::outcome_in(llm_result).step is GoTo
                &&& exists|s: String|
                    #[trigger] vstd::string::to_string_from_display_ensures(&state, s) && s@
                        == workflow::outcome_in(llm_result).step->GoTo_0
            },
            NextAction::Halt => workflow::outcome_in(llm_result).step is End,
        },
{
}

/// A task that prepares its step asks the registry, the builder and the policy for its own state,
/// event and whole history, appends what they answer to the context under six names, and gives the
/// engine the key of the prompt.
pub proof fn prepared_task_writes_the_answers<S, E, R, B, P, L>(
    task: &FormeTask<S, E, R, B, P, L>,
    context: &mut TaskContext,
    result: graph_flow::TaskResult,
) where S: State, E: Event, R: Registry, B: ContextBuilder<E>, P: Policy<S>
    requires
        call_ensures(FormeTask::<S, E, R, B, P, L>::run, (task, context), Ok(result)),
    ensures
        final(context).on() == old(context).on(),
        exists|
            prompt: String,
            text: String,
            tools: Seq<ToolId>,
            key: PromptKeyView,
            s: String,
            e: String,
        |
            {
                &&& #[trigger] task.the_runner().the_registry().answers(key, Ok(prompt))
                &&& #[trigger] task.the_runner().the_builder().composes(
                    &task.the_event(),
                    task.the_history(),
                    Ok(text),
                )
                &&& #[trigger] task.the_runner().the_policy().may_list(&task.the_state(), tools)
                &&& #[trigger] vstd::string::to_string_from_display_ensures(&task.the_state(), s)
                &&& #[trigger] vstd::string::to_string_from_display_ensures(&task.the_event(), e)
                &&& kernel::shows(&task.the_state(), key.state)
                &&& kernel::shows(&task.the_event(), key.event)
                &&& final(context).log() == old(context).log() + seq![
                    Entry { key: "forme.prompt"@, value: prompt@ },
                    Entry { key: "forme.context"@, value: text@ },
                    Entry { key: "forme.prompt_key"@, value: key.state + "::"@ + key.event },
                    Entry {
                        key: "forme.tools"@,
                        value: workflow::json_list(tools.map_values(|tool: ToolId| tool.0@)),
                    },
                    Entry { key: "forme.state"@, value: s@ },
                    Entry { key: "forme.event"@, value: e@ },
                ]
                &&& workflow::outcome_in(result).response == Some(
                    "prepared: "@ + (key.state + "::"@ + key.event),
                )
            },
{
    let written = choose|written: Seq<Entry>| #[trigger]
        task.runs(written, Ok(result)) && final(context).log() == old(context).log() + written;
    let prepared = choose|prepared: Prepared|
        {
            &&& #[trigger] task.the_runner().prepares(
                &task.the_state(),
                &task.the_event(),
                task.the_history(),
                Ok(prepared),
            )
            &&& exists|plan: TaskPlanView|
                #[trigger] task.plans(prepared@, plan) && written == plan.entries()
                    && workflow::outcome_in(result) == plan.outcome()
        };
    let plan = choose|plan: TaskPlanView|
        #[trigger] task.plans(prepared@, plan) && written == plan.entries()
            && workflow::outcome_in(result) == plan.outcome();
    let state = plan.writes[4].entry.value;
    let event = plan.writes[5].entry.value;
    assert(kernel::shows(&task.the_state(), state));
    assert(kernel::shows(&task.the_event(), event));
    let s = choose|s: String| #[trigger]
        vstd::string::to_string_from_display_ensures(&task.the_state(), s) && s@ == state;
    let e = choose|s: String| #[trigger]
        vstd::string::to_string_from_display_ensures(&task.the_event(), s) && s@ == event;
    let tools = prepared.tool_plan.allowed@;
    assert(prepared.tool_plan@ =~= tools.map_values(|tool: ToolId| tool.0@));
    let key = prepared.key@;
    assert(written =~= seq![
        Entry { key: "forme.prompt"@, value: prepared.prompt@ },
        Entry { key: "forme.context"@, value: prepared.context@ },
        Entry { key: "forme.prompt_key"@, value: key.state + "::"@ + key.event },
        Entry {
            key: "forme.tools"@,
            value: workflow::json_list(tools.map_values(|tool: ToolId| tool.0@)),
        },
        Entry { key: "forme.state"@, value: s@ },
        Entry { key: "forme.event"@, value: e@ },
    ]);
    assert(task.the_runner().the_registry().answers(key, Ok(prepared.prompt)));
    assert(task.the_runner().the_builder().composes(
        &task.the_event(),
        task.the_history(),
        Ok(prepared.context),
    ));
    assert(task.the_runner().the_policy().may_list(&task.the_state(), tools));
}

/// A task that takes its step asks the model with the prompt and the context that its own state,
/// event and whole history come to, appends them, the answer and the state to the context under
/// four names, and gives the engine the answer as it is.
pub proof fn stepped_task_writes_the_answer<S, E, R, B, P, L>(
    task: &FormeLlmTask<S, E, R, B, P, L>,
    context: &mut TaskContext,
    result: graph_flow::TaskResult,
) where S: State, E: Event, R: Registry, B: ContextBuilder<E>, P: Policy<S>, L: LlmAdapter<E>
    requires
        call_ensures(FormeLlmTask::<S, E, R, B, P, L>::run, (task, context), Ok(result)),
    ensures
        final(context).on() == old(context).on(),
        exists|
            prompt: String,
            text: String,
            answer: String,
            key: PromptKeyView,
            after: S,
            s: String,
        |
            {
                &&& #[trigger] task.the_runner().the_registry().answers(key, Ok(prompt))
                &&& kernel::shows(&task.the_state(), key.state)
                &&& kernel::shows(&task.the_event(), key.event)
                &&& #[trigger] task.the_runner().the_builder().composes(
                    &task.the_event(),
                    task.the_history(),
                    Ok(text),
                )
                &&& #[trigger] task.the_runner().the_llm().replies(prompt, text, Ok(answer))
                &&& cloned(task.the_state(), after)
                &&& #[trigger] vstd::string::to_string_from_display_ensures(&after, s)
                &&& final(context).log() == old(context).log() + seq![
                    Entry { key: "forme.prompt"@, value: prompt@ },
                    Entry { key: "forme.context"@, value: text@ },
                    Entry { key: "forme.response"@, value: answer@ },
                    Entry { key: "forme.state"@, value: s@ },
                ]
                &&& workflow::outcome_in(result).response == Some(answer@)
            },
{
    let written = choose|written: Seq<Entry>| #[trigger]
        task.runs(written, Ok(result)) && final(context).log() == old(context).log() + written;
    let out = choose|out: StepOutput<S>|
        {
            &&& #[trigger] task.the_runner().steps(
                &task.the_state(),
                &task.the_event(),
                task.the_history(),
                Ok(out),
            )
            &&& exists|plan: TaskPlanView| #[trigger]
                task.plans(out, plan) && written == plan.entries() && workflow::outcome_in(result)
                    == plan.outcome()
        };
    let plan = choose|plan: TaskPlanView| #[trigger]
        task.plans(out, plan) && written == plan.entries() && workflow::outcome_in(result)
            == plan.outcome();
    let state = plan.writes[3].entry.value;
    assert(kernel::shows(&out.next_state, state));
    let s = choose|s: String| #[trigger]
        vstd::string::to_string_from_display_ensures(&out.next_state, s) && s@ == state;
    let (prepared, reply) = choose|prepared: Prepared, reply: Result<String, FormeError>|
        {
            &&& #[trigger] task.the_runner().prepares(
                &task.the_state(),
                &task.the_event(),
                task.the_history(),
                Ok(prepared),
            )
            &&& #[trigger] task.the_runner().the_llm().replies(
                prepared.prompt,
                prepared.context,
                reply,
            )
            &&& prepared.finished(task.the_state(), reply, Ok(out))
        };
    let answer = reply->Ok_0;
    assert(reply == Ok::<String, FormeError>(answer));
    assert(written =~= seq![
        Entry { key: "forme.prompt"@, value: prepared.prompt@ },
        Entry { key: "forme.context"@, value: prepared.context@ },
        Entry { key: "forme.response"@, value: answer@ },
        Entry { key: "forme.state"@, value: s@ },
    ]);
    assert(task.the_runner().the_registry().answers(prepared.key@, Ok(prepared.prompt)));
    assert(task.the_runner().the_builder().composes(
        &task.the_event(),
        task.the_history(),
        Ok(prepared.context),
    ));
    assert(task.the_runner().the_llm().replies(prepared.prompt, prepared.context, Ok(answer)));
}

/// A task fails only as its step does, writes nothing then, and tells its id and the message of
/// the error: that of the registry or of the builder, or, for a task that asks the model, that of
/// a failure of the model.
pub proof fn failed_task_writes_nothing<S, E, R, B, P, L>(
    task: &FormeTask<S, E, R, B, P, L>,
    context: &mut TaskContext,
    text: String,
    llm_task: &FormeLlmTask<S, E, R, B, P, L>,
    llm_context: &mut TaskContext,
    llm_text: String,
) where S: State, E: Event, R: Registry, B: ContextBuilder<E>, P: Policy<S>, L: LlmAdapter<E>
    requires
        call_ensures(FormeTask::<S, E, R, B, P, L>::run, (task, context), Err(text)),
        call_ensures(FormeLlmTask::<S, E, R, B, P, L>::run, (llm_task, llm_context), Err(llm_text)),
    ensures
        final(context).log() == old(context).log(),
        final(llm_context).log() == old(llm_context).log(),
        exists|e: FormeError|
            {
                &&& text@ == "forme prepare failed"@ + " ("@ + task.the_id() + "): "@ + (
                #[trigger] e@).message()
                &&& {
                    ||| task.the_runner().the_builder().composes(
                        &task.the_event(),
                        task.the_history(),
                        Err(e),
                    )
                    ||| exists|key: PromptKeyView| #[trigger]
                        task.the_runner().the_registry().answers(key, Err(e)) && kernel::shows(
                            &task.the_state(),
                            key.state,
                        ) && kernel::shows(&task.the_event(), key.event)
                }
            },
        exists|e: FormeError|
            {
                &&& llm_text@ == "forme step failed"@ + " ("@ + llm_task.the_id() + "): "@ + (
                #[trigger] e@).message()
                &&& {
                    ||| llm_task.the_runner().the_builder().composes(
                        &llm_task.the_event(),
                        llm_task.the_history(),
                        Err(e),
                    )
                    ||| exists|key: PromptKeyView| #[trigger]
                        llm_task.the_runner().the_registry().answers(key, Err(e)) && kernel::shows(
                            &llm_task.the_state(),
                            key.state,
                        ) && kernel::shows(&llm_task.the_event(), key.event)
                    ||| e is LlmFailed && exists|prompt: String, given: String, why: FormeError|
                        #[trigger] llm_task.the_runner().the_llm().replies(
                            prompt,
                            given,
                            Err(why),
                        ) && llm_task.the_runner().the_builder().composes(
                            &llm_task.the_event(),
                            llm_task.the_history(),
                            Ok(given),
                        )
                }
            },
{
    let written = choose|written: Seq<Entry>| #[trigger]
        task.runs(written, Err(text)) && final(context).log() == old(context).log() + written;
    let e = choose|e: FormeError|
        {
            &&& #[trigger] task.the_runner().prepares(
                &task.the_state(),
                &task.the_event(),
                task.the_history(),
                Err(e),
            )
            &&& text@ == task.prepare_failure(e@)
        };
    let key = choose|key: PromptKeyView| #[trigger]
        kernel::keyed(&task.the_state(), &task.the_event(), key) && task.the_runner().refuses(
            key,
            &task.the_event(),
            task.the_history(),
            e,
        );
    assert(text@ == "forme prepare failed"@ + " ("@ + task.the_id() + "): "@ + e@.message());
    let llm_written = choose|written: Seq<Entry>| #[trigger]
        llm_task.runs(written, Err(llm_text)) && final(llm_context).log() == old(
            llm_context,
        ).log() + written;
    let f = choose|e: FormeError|
        {
            &&& #[trigger] llm_task.the_runner().steps(
                &llm_task.the_state(),
                &llm_task.the_event(),
                llm_task.the_history(),
                Err(e),
            )
            &&& llm_text@ == llm_task.step_failure(e@)
        };
    assert(llm_text@ == "forme step failed"@ + " ("@ + llm_task.the_id() + "): "@ + f@.message());
}

/// A task that takes its step prepares it as its runner does, and ends it in its own state.
pub proof fn task_prepares_and_finishes_its_step<S, E, R, B, P, L>(
    task: &FormeLlmTask<S, E, R, B, P, L>,
    prepared: Prepared,
    answer: Result<String, FormeError>,
    reply: Result<StepOutput<S>, FormeError>,
) where S: State, E: Event, R: Registry, B: ContextBuilder<E>, P: Policy<S>
    requires
        call_ensures(FormeLlmTask::<S, E, R, B, P, L>::prepare, (task,), Ok(prepared)),
        call_ensures(FormeLlmTask::<S, E, R, B, P, L>::finish, (task, prepared, answer), reply),
    ensures
        task.the_runner().the_registry().answers(
            PromptKeyView { state: prepared.key.state@, event: prepared.key.event@ },
            Ok(prepared.prompt),
        ),
        kernel::shows(&task.the_state(), prepared.key.state@),
        kernel::shows(&task.the_event(), prepared.key.event@),
        task.the_runner().the_builder().composes(
            &task.the_event(),
            task.the_history(),
            Ok(prepared.context),
        ),
        task.the_runner().the_policy().may_list(&task.the_state(), prepared.tool_plan.allowed@),
        reply is Ok <==> answer is Ok,
        reply matches Ok(out) ==> {
            &&& cloned(task.the_state(), out.next_state)
            &&& out.prompt_key.state@ == prepared.key.state@
            &&& out.prompt_key.event@ == prepared.key.event@
            &&& out.prompt@ == prepared.prompt@
            &&& out.context@ == prepared.context@
            &&& out.tool_plan@ == prepared.tool_plan@
            &&& out.llm_response@ == answer->Ok_0@
        },
        reply matches Err(e) ==> e is LlmFailed,
        answer matches Err(FormeError::LlmFailed(reason)) ==> reply->Err_0->LlmFailed_0@ == reason@,
{
}

/// A task is made for its state and event, named as `Display` writes its state, with no history,
/// and goes on to the next task; each of its settings changes that one thing and keeps the others.
pub proof fn task_keeps_its_settings<S, E, R, B, P, L>(
    runner: Arc<Runner<S, E, R, B, P, L>>,
    state: S,
    event: E,
    made: FormeTask<S, E, R, B, P, L>,
    name: &str,
    named: FormeTask<S, E, R, B, P, L>,
    history: Vec<E>,
    recalling: FormeTask<S, E, R, B, P, L>,
    next: NextAction<S>,
    led: FormeTask<S, E, R, B, P, L>,
    first_id: &str,
    id: &str,
    the_state: &S,
    the_event: &E,
    the_runner: &Arc<Runner<S, E, R, B, P, L>>,
) where S: State, E: Event, R: Registry, B: ContextBuilder<E>, P: Policy<S>
    requires
        call_ensures(FormeTask::<S, E, R, B, P, L>::new, (runner, state, event), made),
        call_ensures(FormeTask::<S, E, R, B, P, L>::with_id::<&str>, (made, name), named),
        call_ensures(FormeTask::<S, E, R, B, P, L>::with_history, (named, history), recalling),
        call_ensures(FormeTask::<S, E, R, B, P, L>::with_next, (recalling, next), led),
        call_ensures(FormeTask::<S, E, R, B, P, L>::id, (&made,), first_id),
        call_ensures(FormeTask::<S, E, R, B, P, L>::id, (&led,), id),
        call_ensures(FormeTask::<S, E, R, B, P, L>::state, (&led,), the_state),
        call_ensures(FormeTask::<S, E, R, B, P, L>::event, (&led,), the_event),
        call_ensures(FormeTask::<S, E, R, B, P, L>::runner, (&led,), the_runner),
    ensures
        exists|s: String|
            #[trigger] vstd::string::to_string_from_display_ensures(&state, s) && s@ == first_id@,
        made.the_history().len() == 0,
        made.the_next() is Next,
        id@ == name@,
        *the_state == state,
        *the_event == event,
        **the_runner == *runner,
        led.the_state() == state,
        led.the_event() == event,
        led.the_runner() == *runner,
        led.the_history() == history@,
        led.the_next() == next,
{
}

/// A task that asks the language model is made and set up in the same way: named as `Display`
/// writes its state, with no history, going on to the next task, each setting on its own.
pub proof fn llm_task_keeps_its_settings<S, E, R, B, P, L>(
    runner: Arc<Runner<S, E, R, B, P, L>>,
    state: S,
    event: E,
    made: FormeLlmTask<S, E, R, B, P, L>,
    name: &str,
    named: FormeLlmTask<S, E, R, B, P, L>,
    history: Vec<E>,
    recalling: FormeLlmTask<S, E, R, B, P, L>,
    next: NextAction<S>,
    led: FormeLlmTask<S, E, R, B, P, L>,
    first_id: &str,
    id: &str,
    the_runner: &Arc<Runner<S, E, R, B, P, L>>,
) where S: State, E: Event, R: Registry, B: ContextBuilder<E>, P: Policy<S>
    requires
        call_ensures(FormeLlmTask::<S, E, R, B, P, L>::new, (runner, state, event), made),
        call_ensures(FormeLlmTask::<S, E, R, B, P, L>::with_id::<&str>, (made, name), named),
        call_ensures(FormeLlmTask::<S, E, R, B, P, L>::with_history, (named, history), recalling),
        call_ensures(FormeLlmTask::<S, E, R, B, P, L>::with_next, (recalling, next), led),
        call_ensures(FormeLlmTask::<S, E, R, B, P, L>::id, (&made,), first_id),
        call_ensures(FormeLlmTask::<S, E, R, B, P, L>::id, (&led,), id),
        call_ensures(FormeLlmTask::<S, E, R, B, P, L>::runner, (&led,), the_runner),
    ensures
        exists|s: String|
            #[trigger] vstd::string::to_string_from_display_ensures(&state, s) && s@ == first_id@,
        made.the_history().len() == 0,
        made.the_next() is Next,
        id@ == name@,
        **the_runner == *runner,
        led.the_state() == state,
        led.the_event() == event,
        led.the_runner() == *runner,
        led.the_history() == history@,
        led.the_next() == next,
{
}

/// A plan that is given the text for the tools writes that text, and otherwise what was prepared.
pub proof fn given_tools_are_written<S, E, R, B, P, L>(
    task: &FormeTask<S, E, R, B, P, L>,
    prepared: Prepared,
    tools: String,
    plan: TaskPlan,
) where S: State, E: Event, R: Registry, B: ContextBuilder<E>, P: Policy<S>
    requires
        call_ensures(FormeTask::<S, E, R, B, P, L>::plan_with, (task, prepared, tools), plan),
    ensures
        plan.writes@.len() == 6,
        plan.writes@[0].value@ == prepared.prompt@,
        plan.writes@[1].value@ == prepared.context@,
        plan.writes@[3].key@ == "forme.tools"@,
        plan.writes@[3].value@ == tools@,
{
    assert(plan@.writes.len() == 6);
    assert(plan@.writes[0] == plan.writes@[0]@);
    assert(plan@.writes[1] == plan.writes@[1]@);
    assert(plan@.writes[3] == plan.writes@[3]@);
}

/// Through a new context of a task nothing was written yet, and it is on the engine's context.
pub proof fn new_context_has_no_entries(context: graph_flow::Context, made: TaskContext)
    requires
        call_ensures(TaskContext::new, (context,), made),
    ensures
        made.on() == context,
        made.log().len() == 0,
{
}

} // verus!
