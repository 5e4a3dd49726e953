//! Graphs in the making, and what they are built to.

use std::time::Duration;

use vstd::prelude::*;

use crate::graph_builder;
use crate::graph_builder::{FormeGraphBuilder, GraphBuildError};
use crate::kernel::State;

verus! {

/// A new graph has its id and nothing else: no task, no edge, no start, no limit on its steps, and
/// five minutes for each task.
pub proof fn new_graph_is_empty<S: State>(id: &str, builder: FormeGraphBuilder<S>)
    requires
        call_ensures(FormeGraphBuilder::<S>::new::<&str>, (id,), builder),
    ensures
        builder@.id == id@,
        forall|task: Seq<char>| !#[trigger] builder@.tasks.contains(task),
        forall|from: Seq<char>| !#[trigger] builder@.edges.dom().contains(from),
        builder@.first is None,
        builder@.start is None,
        builder@.max_steps is None,
        builder@.timeout == 5 * 60 * 1_000_000_000,
{
}

/// An edge is put behind those that lead out of its task already; the edges of the other tasks,
/// and all else, stay as they were.
pub proof fn edge_is_put_last<S: State>(
    builder: FormeGraphBuilder<S>,
    from: &str,
    to: &str,
    after: FormeGraphBuilder<S>,
)
    requires
        call_ensures(FormeGraphBuilder::<S>::add_edge::<&str, &str>, (builder, from, to), after),
    ensures
        after@.edges.dom() == builder@.edges.dom().insert(from@),
        ({
            let before = if builder@.edges.dom().contains(from@) {
                builder@.edges[from@]
            } else {
                Seq::empty()
            };
            &&& after@.edges[from@].len() == before.len() + 1
            &&& forall|i: int|
                0 <= i < before.len() ==> #[trigger] after@.edges[from@][i] == before[i]
            &&& after@.edges[from@].last().0 == to@
            &&& after@.edges[from@].last().1 is None
        }),
        forall|other: Seq<char>|
            other != from@ && builder@.edges.dom().contains(other)
                ==> #[trigger] after@.edges[other] == builder@.edges[other],
        after@.id == builder@.id,
        after@.tasks == builder@.tasks,
        after@.first == builder@.first,
        after@.start == builder@.start,
        after@.timeout == builder@.timeout,
        after@.max_steps == builder@.max_steps,
{
}

/// A conditional edge is two edges behind those that lead out of its task already: one to the
/// first task, under the very condition, and then one to the second without any.
pub proof fn conditional_edge_is_two_edges<S: State, F>(
    builder: FormeGraphBuilder<S>,
    from: &str,
    condition: F,
    yes: &str,
    no: &str,
    after: FormeGraphBuilder<S>,
    context: graph_flow::Context,
    taken: bool,
) where F: Fn(&graph_flow::Context) -> bool + Send + Sync + 'static
    requires
        call_ensures(
            FormeGraphBuilder::<S>::add_conditional_edge::<F, &str, &str, &str>,
            (builder, from, condition, yes, no),
            after,
        ),
    ensures
        after@.edges.dom() == builder@.edges.dom().insert(from@),
        ({
            let before = if builder@.edges.dom().contains(from@) {
                builder@.edges[from@]
            } else {
                Seq::empty()
            };
            let edges = after@.edges[from@];
            let n = before.len() as int;
            &&& edges.len() == n + 2
            &&& forall|i: int| 0 <= i < n ==> #[trigger] edges[i] == before[i]
            &&& edges[n].0 == yes@
            &&& edges[n].1 is Some
            &&& (edges[n].1->0)(context, taken) == call_ensures(condition, (&context,), taken)
            &&& edges[n + 1].0 == no@
            &&& edges[n + 1].1 is None
        }),
        forall|other: Seq<char>|
            other != from@ && builder@.edges.dom().contains(other)
                ==> #[trigger] after@.edges[other] == builder@.edges[other],
        after@.id == builder@.id,
        after@.tasks == builder@.tasks,
        after@.first == builder@.first,
        after@.start == builder@.start,
        after@.timeout == builder@.timeout,
        after@.max_steps == builder@.max_steps,
{
    assert(after@.edges.dom() =~= builder@.edges.dom().insert(from@));
}

/// Each setting of a graph changes that one thing and keeps all else.
pub proof fn graph_keeps_its_settings<S: State>(
    builder: FormeGraphBuilder<S>,
    start: &str,
    started: FormeGraphBuilder<S>,
    timeout: Duration,
    timed: FormeGraphBuilder<S>,
    max: usize,
    limited: FormeGraphBuilder<S>,
)
    requires
        call_ensures(FormeGraphBuilder::<S>::set_start_task::<&str>, (builder, start), started),
        call_ensures(FormeGraphBuilder::<S>::with_task_timeout, (started, timeout), timed),
        call_ensures(FormeGraphBuilder::<S>::with_max_execution_steps, (timed, max), limited),
    ensures
        limited@.start == Some(start@),
        limited@.timeout == graph_builder::nanos_in(timeout),
        limited@.max_steps == Some(max),
        limited@.id == builder@.id,
        limited@.tasks == builder@.tasks,
        limited@.first == builder@.first,
        limited@.edges == builder@.edges,
        started@.timeout == builder@.timeout,
        started@.max_steps == builder@.max_steps,
        timed@.max_steps == builder@.max_steps,
{
}

/// A builder of the engine that is taken over and given back holds what it held.
pub proof fn engine_builder_is_carried_through<S: State>(
    inner: graph_flow::GraphBuilder,
    builder: FormeGraphBuilder<S>,
    back: graph_flow::GraphBuilder,
)
    requires
        call_ensures(FormeGraphBuilder::<S>::from_inner, (inner,), builder),
        call_ensures(FormeGraphBuilder::<S>::into_inner, (builder,), back),
    ensures
        graph_builder::plan_in(back) == graph_builder::plan_in(inner),
        builder@ == graph_builder::plan_in(inner),
{
}

/// A graph is built just where both ends of every edge, and the start where one was set, are tasks
/// of it; and then it holds what was put in, and starts with the task that was set, or else with
/// the one that was added first.
pub proof fn graph_is_built_where_all_is_known<S: State>(
    builder: FormeGraphBuilder<S>,
    reply: Result<graph_flow::Graph, GraphBuildError>,
)
    requires
        call_ensures(FormeGraphBuilder::<S>::build, (builder,), reply),
    ensures
        reply is Ok <==> {
            &&& forall|from: Seq<char>|
                builder@.edges.dom().contains(from) && builder@.edges[from].len() > 0
                    ==> #[trigger] builder@.tasks.contains(from)
            &&& forall|from: Seq<char>, i: int|
                builder@.edges.dom().contains(from) && 0 <= i < builder@.edges[from].len()
                    ==> builder@.tasks.contains((#[trigger] builder@.edges[from][i]).0)
            &&& builder@.start is Some ==> builder@.tasks.contains(builder@.start->0)
        },
        reply matches Ok(graph) ==> {
            let shape = graph_builder::shape_in(graph);
            &&& shape.id == builder@.id
            &&& shape.tasks == builder@.tasks
            &&& shape.edges == builder@.edges
            &&& shape.timeout == builder@.timeout
            &&& shape.max_steps == builder@.max_steps
            &&& builder@.start is Some ==> shape.start == builder@.start
            &&& builder@.start is None ==> shape.start == builder@.first
        },
{
    let plan = builder@;
    if reply is Ok {
        assert forall|from: Seq<char>|
            plan.edges.dom().contains(from) && plan.edges[from].len() > 0 implies
            #[trigger] plan.tasks.contains(from) by {
            assert(plan.edge_known(from, 0));
        }
        assert forall|from: Seq<char>, i: int|
            plan.edges.dom().contains(from) && 0 <= i < plan.edges[from].len() implies
            plan.tasks.contains((#[trigger] plan.edges[from][i]).0) by {
            assert(plan.edge_known(from, i));
        }
    }
    if {
        &&& forall|from: Seq<char>|
            plan.edges.dom().contains(from) && plan.edges[from].len() > 0
                ==> #[trigger] plan.tasks.contains(from)
        &&& forall|from: Seq<char>, i: int|
            plan.edges.dom().contains(from) && 0 <= i < plan.edges[from].len()
                ==> plan.tasks.contains((#[trigger] plan.edges[from][i]).0)
        &&& plan.start is Some ==> plan.tasks.contains(plan.start->0)
    } {
        assert forall|from: Seq<char>, i: int| 0 <= i < plan.edges_from(from).len() implies
            #[trigger] plan.edge_known(from, i) by {
            assert(plan.edges_from(from) == plan.edges[from]);
            assert(plan.tasks.contains(plan.edges[from][i].0));
        }
        assert(plan.edges_known());
        assert(plan.start_known());
    }
}

/// A graph that cannot be built is refused for an edge, where one has an end that is no task, and
/// the words name the edge and that end; or else for its start, which the words name. Both name the
/// graph.
pub proof fn graph_is_refused_by_name<S: State>(builder: FormeGraphBuilder<S>, e: GraphBuildError)
    requires
        call_ensures(FormeGraphBuilder::<S>::build, (builder,), Err(e)),
    ensures
        match e {
            GraphBuildError::InvalidEdge(text) => exists|from: Seq<char>, i: int, end: Seq<char>|
                {
                    &&& builder@.edges.dom().contains(from)
                    &&& 0 <= i < builder@.edges[from].len()
                    &&& end == from || end == builder@.edges[from][i].0
                    &&& !#[trigger] builder@.tasks.contains(end)
                    &&& text@ == "Edge '"@ + from + "' -> '"@ + (
                    #[trigger] builder@.edges[from][i]).0 + "' references task '"@ + end
                        + "' which was not added to graph '"@ + builder@.id + "'"@
                },
            GraphBuildError::TaskNotFound(text) => {
                &&& builder@.start is Some
                &&& !builder@.tasks.contains(builder@.start->0)
                &&& text@ == "Start task '"@ + builder@.start->0 + "' was not added to graph '"@
                    + builder@.id + "'"@
                &&& forall|from: Seq<char>|
                    builder@.edges.dom().contains(from) && builder@.edges[from].len() > 0
                        ==> #[trigger] builder@.tasks.contains(from)
                &&& forall|from: Seq<char>, i: int|
                    builder@.edges.dom().contains(from) && 0 <= i < builder@.edges[from].len()
                        ==> builder@.tasks.contains((#[trigger] builder@.edges[from][i]).0)
            },
            GraphBuildError::Other(_) => false,
        },
{
    let plan = builder@;
    if e is InvalidEdge {
        let text = e->InvalidEdge_0@;
        let (from, i, end) = choose|from: Seq<char>, i: int, end: Seq<char>|
            {
                &&& 0 <= i < plan.edges_from(from).len()
                &&& end == from || end == plan.edges_from(from)[i].0
                &&& !plan.tasks.contains(end)
                &&& text == #[trigger] graph_builder::unknown_end(
                    from,
                    plan.edges_from(from)[i].0,
                    end,
                    plan.id,
                )
            };
        assert(!plan.tasks.contains(end));
        assert(plan.edges_from(from) == plan.edges[from]);
        assert(text == "Edge '"@ + from + "' -> '"@ + plan.edges[from][i].0
            + "' references task '"@ + end + "' which was not added to graph '"@ + plan.id + "'"@);
    }
    if e is TaskNotFound {
        assert forall|from: Seq<char>|
            plan.edges.dom().contains(from) && plan.edges[from].len() > 0 implies
            #[trigger] plan.tasks.contains(from) by {
            assert(plan.edge_known(from, 0));
        }
        assert forall|from: Seq<char>, i: int|
            plan.edges.dom().contains(from) && 0 <= i < plan.edges[from].len() implies
            plan.tasks.contains((#[trigger] plan.edges[from][i]).0) by {
            assert(plan.edge_known(from, i));
        }
    }
}

} // verus!
