//! A workflow graph that is put together for the states of one program.

use std::fmt;
use std::marker::PhantomData;
use std::time::Duration;

use vstd::prelude::*;

use crate::kernel::State;
use crate::show::{debug_struct, field, finish_non_exhaustive};
use crate::text::IntoText;

verus! {

/// What a condition may answer when it is asked of a context.
pub open spec fn asked<F: Fn(&graph_flow::Context) -> bool>(condition: F) -> spec_fn(
    graph_flow::Context,
    bool,
) -> bool {
    |context: graph_flow::Context, taken: bool| call_ensures(condition, (&context,), taken)
}

/// An edge: the task that it leads to, and what its condition may answer, where it has one.
pub type Edge = (Seq<char>, Option<spec_fn(graph_flow::Context, bool) -> bool>);

/// A graph in the making: its id, the ids of its tasks, its edges and its limits.
///
/// A graph is made of tasks that have been added, so its first task and its start, where it has
/// one, and the ends of its edges are ids of tasks; until it is built they need not be.
pub struct GraphPlan {
    pub id: Seq<char>,
    pub tasks: Set<Seq<char>>,
    /// The task that was added first.
    pub first: Option<Seq<char>>,
    /// The task that was set to start with.
    pub start: Option<Seq<char>>,
    /// The edges out of each task, in the order in which they were added; an edge is the task
    /// that it leads to, and what its condition may answer, where it is taken only under one.
    pub edges: Map<Seq<char>, Seq<Edge>>,
    /// The time that a task may take, in nanoseconds.
    pub timeout: nat,
    /// The number of tasks that may run at once one after another, where there is a limit.
    pub max_steps: Option<usize>,
}

/// What a graph that was built holds.
pub struct GraphShape {
    pub id: Seq<char>,
    pub tasks: Set<Seq<char>>,
    pub start: Option<Seq<char>>,
    pub edges: Map<Seq<char>, Seq<Edge>>,
    pub timeout: nat,
    pub max_steps: Option<usize>,
}

impl GraphPlan {
    /// The empty plan of a graph, whose tasks may take five minutes each.
    pub open spec fn new(id: Seq<char>) -> Self {
        GraphPlan {
            id,
            tasks: Set::empty(),
            first: None,
            start: None,
            edges: Map::empty(),
            timeout: 300_000_000_000,
            max_steps: None,
        }
    }

    /// The edges out of a task.
    pub open spec fn edges_from(self, from: Seq<char>) -> Seq<Edge> {
        if self.edges.dom().contains(from) {
            self.edges[from]
        } else {
            Seq::empty()
        }
    }

    /// The plan with one more edge.
    pub open spec fn with_edge(
        self,
        from: Seq<char>,
        to: Seq<char>,
        condition: Option<spec_fn(graph_flow::Context, bool) -> bool>,
    ) -> Self {
        GraphPlan {
            edges: self.edges.insert(from, self.edges_from(from).push((to, condition))),
            ..self
        }
    }

    /// The `i`-th edge out of `from` leads from a task of the graph to a task of the graph.
    pub open spec fn edge_known(self, from: Seq<char>, i: int) -> bool {
        self.tasks.contains(from) && self.tasks.contains(self.edges_from(from)[i].0)
    }

    /// Every edge leads from a task of the graph to a task of the graph.
    pub open spec fn edges_known(self) -> bool {
        forall|from: Seq<char>, i: int|
            0 <= i < self.edges_from(from).len() ==> #[trigger] self.edge_known(from, i)
    }

    /// The task that was set to start with, where one was, is a task of the graph.
    pub open spec fn start_known(self) -> bool {
        self.start matches Some(id) ==> self.tasks.contains(id)
    }

    /// The graph that the plan is built to. It starts with the task that was set, or else with
    /// the one that was added first.
    pub open spec fn shape(self) -> GraphShape {
        GraphShape {
            id: self.id,
            tasks: self.tasks,
            start: if self.start is Some {
                self.start
            } else {
                self.first
            },
            edges: self.edges,
            timeout: self.timeout,
            max_steps: self.max_steps,
        }
    }
}

/// `graph_flow::GraphBuilder`, a graph in the making.
#[verifier::external_type_specification]
#[verifier::external_body]
pub struct ExGraphBuilder(graph_flow::GraphBuilder);

/// `graph_flow::Graph`, a graph that was built.
#[verifier::external_type_specification]
#[verifier::external_body]
pub struct ExGraph(graph_flow::Graph);

/// What a builder of the engine holds.
pub uninterp spec fn plan_in(builder: graph_flow::GraphBuilder) -> GraphPlan;

/// What a graph of the engine holds.
pub uninterp spec fn shape_in(graph: graph_flow::Graph) -> GraphShape;

/// The length of a span of time in nanoseconds, which is what a `std::time::Duration` holds and
/// `Duration::as_nanos` gives.
pub uninterp spec fn nanos_in(duration: std::time::Duration) -> nat;

/// Calls `graph_flow::GraphBuilder::new`, which starts with nothing but the id and a time of five
/// minutes for each task.
#[verifier::external_body]
fn builder_new(id: String) -> (builder: graph_flow::GraphBuilder)
    ensures
        plan_in(builder) == GraphPlan::new(id@),
{
    graph_flow::GraphBuilder::new(id)
}

/// Calls `graph_flow::GraphBuilder::add_edge`, which puts the edge behind those that already
/// lead out of the task.
#[verifier::external_body]
fn builder_add_edge(builder: graph_flow::GraphBuilder, from: String, to: String) -> (after:
    graph_flow::GraphBuilder)
    ensures
        plan_in(after) == plan_in(builder).with_edge(from@, to@, None),
{
    builder.add_edge(from, to)
}

/// Calls `graph_flow::GraphBuilder::add_conditional_edge`, which adds two edges: one that is
/// taken under the condition, which is kept as it is, and behind it one without a condition that
/// is taken otherwise. The engine asks the condition later, of any context.
#[verifier::external_body]
fn builder_add_conditional_edge<F>(
    builder: graph_flow::GraphBuilder,
    from: String,
    condition: F,
    yes: String,
    no: String,
) -> (after: graph_flow::GraphBuilder) where
    F: Fn(&graph_flow::Context) -> bool + Send + Sync + 'static,

    requires
        forall|context: &graph_flow::Context| call_requires(condition, (context,)),
    ensures
        plan_in(after) == plan_in(builder).with_edge(
            from@,
            yes@,
            Some(asked(condition)),
        ).with_edge(from@, no@, None),
{
    builder.add_conditional_edge(from, condition, yes, no)
}

/// Calls `graph_flow::GraphBuilder::set_start_task`, which keeps the id and looks at nothing.
#[verifier::external_body]
fn builder_set_start_task(builder: graph_flow::GraphBuilder, id: String) -> (after:
    graph_flow::GraphBuilder)
    ensures
        plan_in(after) == (GraphPlan { start: Some(id@), ..plan_in(builder) }),
{
    builder.set_start_task(id)
}

/// Calls `graph_flow::GraphBuilder::with_task_timeout`, which keeps the time.
#[verifier::external_body]
fn builder_with_task_timeout(builder: graph_flow::GraphBuilder, timeout: Duration) -> (after:
    graph_flow::GraphBuilder)
    ensures
        plan_in(after) == (GraphPlan { timeout: nanos_in(timeout), ..plan_in(builder) }),
{
    builder.with_task_timeout(timeout)
}

/// Calls `graph_flow::GraphBuilder::with_max_execution_steps`, which keeps the number.
#[verifier::external_body]
fn builder_with_max_execution_steps(builder: graph_flow::GraphBuilder, max: usize) -> (after:
    graph_flow::GraphBuilder)
    ensures
        plan_in(after) == (GraphPlan { max_steps: Some(max), ..plan_in(builder) }),
{
    builder.with_max_execution_steps(max)
}

/// Why a graph cannot be built, in the words of the engine.
#[derive(Debug)]
pub enum GraphBuildError {
    /// An edge starts or ends at a task that was not added.
    InvalidEdge(String),
    /// The task to start with was not added.
    TaskNotFound(String),
    /// Any other error.
    Other(String),
}

/// What the engine says of a start that is no task of the graph.
pub open spec fn unknown_start(start: Seq<char>, id: Seq<char>) -> Seq<char> {
    "Start task '"@ + start + "' was not added to graph '"@ + id + "'"@
}

/// What the engine says of an edge with an end that is no task of the graph.
pub open spec fn unknown_end(
    from: Seq<char>,
    to: Seq<char>,
    end: Seq<char>,
    id: Seq<char>,
) -> Seq<char> {
    "Edge '"@ + from + "' -> '"@ + to + "' references task '"@ + end
        + "' which was not added to graph '"@ + id + "'"@
}

/// Whether the text is what the engine says of one of the edges of the plan, and of an end of it
/// that is no task of the graph. Which one it names is open.
pub open spec fn names_unknown_end(plan: GraphPlan, text: Seq<char>) -> bool {
    exists|from: Seq<char>, i: int, end: Seq<char>|
        {
            &&& 0 <= i < plan.edges_from(from).len()
            &&& end == from || end == plan.edges_from(from)[i].0
            &&& !plan.tasks.contains(end)
            &&& text == #[trigger] unknown_end(from, plan.edges_from(from)[i].0, end, plan.id)
        }
}

/// Calls `graph_flow::GraphBuilder::build`, which looks at the ends of the edges first, then at
/// the start, and else keeps what the builder holds. Which edge the text of an invalid edge names
/// is left open: the engine goes through them in no fixed order.
#[verifier::external_body]
fn builder_build(builder: graph_flow::GraphBuilder) -> (reply: Result<
    graph_flow::Graph,
    GraphBuildError,
>)
    ensures
        reply is Ok == (plan_in(builder).edges_known() && plan_in(builder).start_known()),
        reply is Ok ==> shape_in(reply->Ok_0) == plan_in(builder).shape(),
        reply is Err && !plan_in(builder).edges_known() ==> reply->Err_0 is InvalidEdge
            && names_unknown_end(plan_in(builder), reply->Err_0->InvalidEdge_0@),
        reply is Err && plan_in(builder).edges_known() ==> reply->Err_0 is TaskNotFound
            && reply->Err_0->TaskNotFound_0@ == unknown_start(
            plan_in(builder).start->Some_0,
            plan_in(builder).id,
        ),
{
    match builder.build() {
        Ok(graph) => Ok(graph),
        Err(graph_flow::GraphError::InvalidEdge(text)) => Err(GraphBuildError::InvalidEdge(text)),
        Err(graph_flow::GraphError::TaskNotFound(text)) => Err(GraphBuildError::TaskNotFound(text)),
        Err(other) => Err(GraphBuildError::Other(other.to_string())),
    }
}

/// A builder of the engine for the graph of one program. The type of the states keeps the
/// graphs of two programs apart.
pub struct FormeGraphBuilder<S: State> {
    inner: graph_flow::GraphBuilder,
    states: PhantomData<S>,
}

/// Shows a builder as `FormeGraphBuilder { id: "graph", .. }`, whatever it holds.
impl<S: State> fmt::Debug for FormeGraphBuilder<S> {
    fn fmt(&self, f: &mut fmt::Formatter<'_>) -> (reply: fmt::Result) {
        let mut shown = debug_struct(f, "FormeGraphBuilder");
        field(&mut shown, "id", &"graph");
        finish_non_exhaustive(&mut shown)
    }
}

impl<S: State> View for FormeGraphBuilder<S> {
    type V = GraphPlan;

    closed spec fn view(&self) -> GraphPlan {
        plan_in(self.inner)
    }
}

impl<S: State> FormeGraphBuilder<S> {
    /// The builder of a graph with this id, which has no tasks and no edges.
    pub fn new<T: IntoText>(id: T) -> (builder: Self)
        ensures
            builder@ == GraphPlan::new(id.text()),
    {
        FormeGraphBuilder { inner: builder_new(id.into_text()), states: PhantomData }
    }

    /// The builder that goes on from one of the engine.
    pub fn from_inner(inner: graph_flow::GraphBuilder) -> (builder: Self)
        ensures
            builder@ == plan_in(inner),
    {
        FormeGraphBuilder { inner, states: PhantomData }
    }

    /// The builder of the engine, to which tasks can be added.
    pub fn into_inner(self) -> (inner: graph_flow::GraphBuilder)
        ensures
            plan_in(inner) == self@,
    {
        self.inner
    }

    /// Adds an edge.
    pub fn add_edge<T: IntoText, U: IntoText>(self, from: T, to: U) -> (after: Self)
        ensures
            after@ == self@.with_edge(from.text(), to.text(), None),
    {
        FormeGraphBuilder {
            inner: builder_add_edge(self.inner, from.into_text(), to.into_text()),
            states: PhantomData,
        }
    }

    /// Adds an edge to `yes` that is taken where `condition` holds of the context, and one to
    /// `no` that is taken otherwise.
    pub fn add_conditional_edge<F, T: IntoText, U: IntoText, V: IntoText>(
        self,
        from: T,
        condition: F,
        yes: U,
        no: V,
    ) -> (after: Self) where F: Fn(&graph_flow::Context) -> bool + Send + Sync + 'static
        requires
            forall|context: &graph_flow::Context| call_requires(condition, (context,)),
        ensures
            after@ == self@.with_edge(
                from.text(),
                yes.text(),
                Some(asked(condition)),
            ).with_edge(from.text(), no.text(), None),
    {
        FormeGraphBuilder {
            inner: builder_add_conditional_edge(
                self.inner,
                from.into_text(),
                condition,
                yes.into_text(),
                no.into_text(),
            ),
            states: PhantomData,
        }
    }

    /// Sets the task to start with.
    pub fn set_start_task<T: IntoText>(self, task_id: T) -> (after: Self)
        ensures
            after@ == (GraphPlan { start: Some(task_id.text()), ..self@ }),
    {
        FormeGraphBuilder {
            inner: builder_set_start_task(self.inner, task_id.into_text()),
            states: PhantomData,
        }
    }

    /// Sets the time that a task may take.
    pub fn with_task_timeout(self, timeout: Duration) -> (after: Self)
        ensures
            after@ == (GraphPlan { timeout: nanos_in(timeout), ..self@ }),
    {
        FormeGraphBuilder {
            inner: builder_with_task_timeout(self.inner, timeout),
            states: PhantomData,
        }
    }

    /// Sets how many tasks may run at once one after another.
    pub fn with_max_execution_steps(self, max: usize) -> (after: Self)
        ensures
            after@ == (GraphPlan { max_steps: Some(max), ..self@ }),
    {
        FormeGraphBuilder {
            inner: builder_with_max_execution_steps(self.inner, max),
            states: PhantomData,
        }
    }

    /// Builds the graph. That fails where an edge starts or ends at a task that was not added,
    /// and, where none does, where the task to start with was not added.
    pub fn build(self) -> (reply: Result<graph_flow::Graph, GraphBuildError>)
        ensures
            match reply {
                Ok(graph) => {
                    &&& self@.edges_known()
                    &&& self@.start_known()
                    &&& shape_in(graph) == self@.shape()
                },
                Err(GraphBuildError::InvalidEdge(text)) => {
                    &&& !self@.edges_known()
                    &&& names_unknown_end(self@, text@)
                },
                Err(GraphBuildError::TaskNotFound(text)) => {
                    &&& self@.edges_known()
                    &&& !self@.start_known()
                    &&& text@ == unknown_start(self@.start->Some_0, self@.id)
                },
                Err(GraphBuildError::Other(_)) => false,
            },
    {
        builder_build(self.inner)
    }
}

/// A graph that can be built can still be built with one more edge between two of its tasks,
/// and starts with the same task.
pub proof fn edge_between_tasks_can_be_built(
    plan: GraphPlan,
    from: Seq<char>,
    to: Seq<char>,
    condition: Option<spec_fn(graph_flow::Context, bool) -> bool>,
)
    requires
        plan.edges_known(),
        plan.start_known(),
        plan.tasks.contains(from),
        plan.tasks.contains(to),
    ensures
        plan.with_edge(from, to, condition).edges_known(),
        plan.with_edge(from, to, condition).start_known(),
        plan.with_edge(from, to, condition).shape().start == plan.shape().start,
{
    let after = plan.with_edge(from, to, condition);
    assert forall|f: Seq<char>, i: int| 0 <= i < after.edges_from(f).len() implies
        #[trigger] after.edge_known(f, i) by {
        if i < plan.edges_from(f).len() {
            assert(plan.edge_known(f, i));
        }
    }
}

} // verus!
