//! The pieces of the workflow engine `graph_flow` that a task hands over: what to do next, the
//! result of the task, and entries in the context that the tasks of a workflow share.

use graph_flow::NextAction as EngineAction;

use vstd::prelude::*;

verus! {

/// What to do after a task, in the words of the workflow engine.
#[derive(Debug)]
pub enum GraphStep {
    /// Goes on along the edges, and waits before the next task runs.
    Continue,
    /// Goes on along the edges and runs the next task at once.
    ContinueAndExecute,
    /// Goes to the task with this id.
    GoTo(String),
    /// Ends the workflow.
    End,
}

/// What a [`GraphStep`] holds.
pub enum GraphStepView {
    Continue,
    ContinueAndExecute,
    GoTo(Seq<char>),
    End,
}

impl View for GraphStep {
    type V = GraphStepView;

    open spec fn view(&self) -> GraphStepView {
        match self {
            GraphStep::Continue => GraphStepView::Continue,
            GraphStep::ContinueAndExecute => GraphStepView::ContinueAndExecute,
            GraphStep::GoTo(id) => GraphStepView::GoTo(id@),
            GraphStep::End => GraphStepView::End,
        }
    }
}

/// `graph_flow::NextAction`, which tells the engine what to do after a task.
#[verifier::external_type_specification]
#[verifier::external_body]
pub struct ExEngineAction(EngineAction);

/// The step that an action of the engine stands for, which is what the enum holds.
pub uninterp spec fn step_in(action: EngineAction) -> GraphStepView;

/// Makes a `graph_flow::NextAction` with the constructor of the same name and the same id.
#[verifier::external_body]
pub(crate) fn next_action(step: GraphStep) -> (action: EngineAction)
    ensures
        step_in(action) == step@,
{
    match step {
        GraphStep::Continue => EngineAction::Continue,
        GraphStep::ContinueAndExecute => EngineAction::ContinueAndExecute,
        GraphStep::GoTo(id) => EngineAction::GoTo(id),
        GraphStep::End => EngineAction::End,
    }
}

/// What a `graph_flow::TaskResult` tells the engine.
pub struct Outcome {
    /// The text for the user.
    pub response: Option<Seq<char>>,
    /// What to do next.
    pub step: GraphStepView,
}

/// `graph_flow::TaskResult`, the result of a task.
#[verifier::external_type_specification]
#[verifier::external_body]
pub struct ExTaskResult(graph_flow::TaskResult);

/// What the result of a task tells the engine, which are its response and its next action.
pub uninterp spec fn outcome_in(result: graph_flow::TaskResult) -> Outcome;

/// Calls `graph_flow::TaskResult::new`, which keeps the response and the action that it is given.
#[verifier::external_body]
pub(crate) fn task_result(response: String, action: EngineAction) -> (result:
    graph_flow::TaskResult)
    ensures
        outcome_in(result) == (Outcome { response: Some(response@), step: step_in(action) }),
{
    graph_flow::TaskResult::new(Some(response), action)
}

/// `graph_flow::Context`, a handle on the entries that the tasks of a workflow share.
#[verifier::external_type_specification]
#[verifier::external_body]
pub struct ExContext(graph_flow::Context);

/// What an entry of the context holds.
pub struct Entry {
    pub key: Seq<char>,
    pub value: Seq<char>,
}

/// The context of a workflow, as one task writes into it.
///
/// Other tasks may write into the same context at the same time. What is kept track of here is
/// what was written through this value.
pub struct TaskContext {
    context: graph_flow::Context,
    log: Ghost<Seq<Entry>>,
}

impl TaskContext {
    /// The context of the engine.
    pub closed spec fn on(&self) -> graph_flow::Context {
        self.context
    }

    /// What was written through this value, one entry after another.
    pub closed spec fn log(&self) -> Seq<Entry> {
        self.log@
    }

    /// A context of the engine, into which nothing was written yet through this value.
    pub fn new(context: graph_flow::Context) -> (task_context: Self)
        ensures
            task_context.on() == context,
            task_context.log() == Seq::<Entry>::empty(),
    {
        TaskContext { context, log: Ghost(Seq::empty()) }
    }

    /// Calls `graph_flow::Context::set` with a text, which puts the text under the key, in place
    /// of what was there, and touches no other key.
    ///
    /// The call fails only where the value cannot be turned into JSON, and a text always can.
    #[verifier::external_body]
    pub(crate) fn put(&mut self, key: &str, value: &str) -> (reply: Result<(), String>)
        ensures
            reply is Ok,
            final(self).on() == old(self).on(),
            final(self).log() == old(self).log().push(Entry { key: key@, value: value@ }),
    {
        match self.context.set(key, value) {
            Ok(()) => Ok(()),
            Err(e) => Err(e.to_string()),
        }
    }
}

/// What a log of entries leaves under a key: the text that was written last, if any was.
pub open spec fn left_under(log: Seq<Entry>, key: Seq<char>) -> Option<Seq<char>>
    decreases log.len(),
{
    if log.len() == 0 {
        None
    } else if log.last().key == key {
        Some(log.last().value)
    } else {
        left_under(log.drop_last(), key)
    }
}

/// Entries with keys of their own are each found under their key, and what was left under any
/// other key before is still there.
pub proof fn entries_are_left(log: Seq<Entry>, entries: Seq<Entry>, key: Seq<char>)
    requires
        forall|i: int, j: int|
            0 <= i < j < entries.len() ==> (#[trigger] entries[i]).key != (#[trigger] entries[j]).key,
    ensures
        forall|i: int|
            0 <= i < entries.len() && (#[trigger] entries[i]).key == key ==> left_under(
                log + entries,
                key,
            ) == Some(entries[i].value),
        (forall|i: int| 0 <= i < entries.len() ==> (#[trigger] entries[i]).key != key)
            ==> left_under(log + entries, key) == left_under(log, key),
    decreases entries.len(),
{
    if entries.len() == 0 {
        assert(log + entries =~= log);
    } else {
        let before = entries.drop_last();
        entries_are_left(log, before, key);
        assert((log + entries).drop_last() =~= log + before);
        assert((log + entries).last() == entries.last());
        assert forall|i: int| 0 <= i < entries.len() && (#[trigger] entries[i]).key
            == key implies left_under(log + entries, key) == Some(entries[i].value) by {
            if i < before.len() {
                assert(before[i].key == key);
                assert(entries[i].key != entries[entries.len() - 1].key);
            }
        }
        if forall|i: int| 0 <= i < entries.len() ==> (#[trigger] entries[i]).key != key {
            assert(entries[entries.len() - 1].key != key);
            assert forall|i: int| 0 <= i < before.len() implies (#[trigger] before[i]).key
                != key by {
                assert(before[i] == entries[i]);
            }
        }
    }
}

/// `serde_json::Error`, the error of turning a value into JSON.
#[verifier::external_type_specification]
#[verifier::external_body]
pub struct ExJsonError(serde_json::Error);

/// The JSON text of a list of texts, as `serde_json::to_string` writes it.
pub uninterp spec fn json_list(texts: Seq<Seq<char>>) -> Seq<char>;

/// Calls `serde_json::to_string` on a list of texts. It writes into memory, and there is a JSON
/// text for every list of texts, so it does not fail.
#[verifier::external_body]
pub(crate) fn to_json(texts: &Vec<String>) -> (reply: Result<String, serde_json::Error>)
    ensures
        reply is Ok,
        reply->Ok_0@ == json_list(texts@.map_values(|t: String| t@)),
{
    serde_json::to_string(texts)
}

} // verus!
