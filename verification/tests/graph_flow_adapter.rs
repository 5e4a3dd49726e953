//! Steps as tasks of a workflow, and the graph of the tasks.

use std::fmt;
use std::future::Future;
use std::pin::Pin;
use std::sync::Arc;
use std::time::Duration;

use forme::context_builder::{ContextBuilder, NoopBuilder};
use forme::graph_flow_adapter::{
    forme_next_to_gf, ContextWrite, FormeGraphBuilder, FormeLlmTask, FormeTask, GraphBuildError,
};
use forme::policy::{AllowAllPolicy, AllowListPolicy};
use forme::prompt_map::PromptMap;
use forme::prompt_registry::InMemoryRegistry;
use forme::rig_adapter::MockLlm;
use forme::runtime::{NextAction, Runner};
use forme::workflow::TaskContext;
use forme::{Event, FormeError, PromptKey, State, ToolId};

#[derive(Clone, Debug, PartialEq, Eq, Hash)]
struct S(String);

impl fmt::Display for S {
    fn fmt(&self, f: &mut fmt::Formatter<'_>) -> fmt::Result {
        f.write_str(&self.0)
    }
}

#[derive(Clone, Debug)]
struct E(String);

impl fmt::Display for E {
    fn fmt(&self, f: &mut fmt::Formatter<'_>) -> fmt::Result {
        f.write_str(&self.0)
    }
}

/// A task that does nothing.
struct Dummy(&'static str);

impl graph_flow::Task for Dummy {
    fn id(&self) -> &str {
        self.0
    }

    fn run<'a, 'b>(
        &'a self,
        _context: graph_flow::Context,
    ) -> Pin<Box<dyn Future<Output = graph_flow::Result<graph_flow::TaskResult>> + Send + 'b>>
    where
        'a: 'b,
        Self: 'b,
    {
        Box::pin(std::future::ready(Ok(graph_flow::TaskResult::new(
            Some("hi".into()),
            graph_flow::NextAction::Continue,
        ))))
    }
}

fn with_task(builder: FormeGraphBuilder<S>, id: &'static str) -> FormeGraphBuilder<S> {
    FormeGraphBuilder::from_inner(builder.into_inner().add_task(Arc::new(Dummy(id))))
}

type TestRunner<B, P> = Runner<S, E, InMemoryRegistry, B, P, MockLlm>;

fn runner_with<B: ContextBuilder<E>>(
    builder: B,
    llm: MockLlm,
) -> Arc<TestRunner<B, AllowListPolicy>> {
    let mut map = PromptMap::new();
    map.insert(PromptKey::new("Idle", "Hello"), "hello prompt".to_string());
    Arc::new(Runner::new(
        Arc::new(InMemoryRegistry::new(map)),
        Arc::new(builder),
        Arc::new(AllowListPolicy::new(vec![
            ToolId::from("read"),
            ToolId::from("say \"hi\""),
        ])),
        llm,
    ))
}

/// What the context holds under the keys that tasks write.
fn entries(context: &graph_flow::Context) -> Vec<(&'static str, String)> {
    [
        "forme.prompt",
        "forme.context",
        "forme.prompt_key",
        "forme.tools",
        "forme.state",
        "forme.event",
        "forme.response",
    ]
    .into_iter()
    .filter_map(|key| context.get::<String>(key).map(|value| (key, value)))
    .collect()
}

fn texts(expected: &[(&'static str, &str)]) -> Vec<(&'static str, String)> {
    expected
        .iter()
        .map(|(key, value)| (*key, value.to_string()))
        .collect()
}

#[test]
fn nextaction_into_gf() {
    let cases: Vec<(NextAction<S>, graph_flow::NextAction)> = vec![
        (NextAction::Next, graph_flow::NextAction::Continue),
        (NextAction::Continue, graph_flow::NextAction::Continue),
        (
            NextAction::Branch(S("Target".into())),
            graph_flow::NextAction::GoTo("Target".into()),
        ),
        (
            NextAction::Transition(S("Other".into())),
            graph_flow::NextAction::GoTo("Other".into()),
        ),
        (NextAction::Halt, graph_flow::NextAction::End),
    ];

    for (forme_a, expected_gf) in cases {
        let gf: graph_flow::NextAction = forme_a.into();
        assert_eq!(gf, expected_gf);
    }
}

#[test]
fn eager_runs_the_next_task_at_once() {
    let cases: Vec<(NextAction<S>, graph_flow::NextAction)> = vec![
        (NextAction::Next, graph_flow::NextAction::ContinueAndExecute),
        (
            NextAction::Continue,
            graph_flow::NextAction::ContinueAndExecute,
        ),
        (
            NextAction::Branch(S("Target".into())),
            graph_flow::NextAction::GoTo("Target".into()),
        ),
        (
            NextAction::Transition(S("Other".into())),
            graph_flow::NextAction::GoTo("Other".into()),
        ),
        (NextAction::Halt, graph_flow::NextAction::End),
    ];
    for (action, expected) in cases {
        assert_eq!(forme_next_to_gf(action.clone(), true), expected);
        let lazy: graph_flow::NextAction = action.clone().into();
        assert_eq!(forme_next_to_gf(action, false), lazy);
    }
}

#[test]
fn the_workflow_goes_where_the_next_prompt_is() {
    let runner = runner_with(NoopBuilder, MockLlm::new());
    let current = S("Idle".into());
    let event = E("Hello".into());
    let action = NextAction::Transition(S("Done".into()));
    let key = runner.handle_edge(&action, &current, &event);
    assert_eq!(
        forme_next_to_gf(action, false),
        graph_flow::NextAction::GoTo(key.state)
    );
}

#[test]
fn builder_add_and_build() {
    let builder = FormeGraphBuilder::<S>::new("test");
    let graph = with_task(builder, "idle")
        .add_edge("idle", "idle")
        .build()
        .unwrap();
    assert_eq!(graph.id, "test");
}

#[test]
fn a_graph_starts_with_its_first_task_or_the_one_that_is_set() {
    let two = || with_task(with_task(FormeGraphBuilder::<S>::new("g"), "one"), "two");
    let graph = two().build().unwrap();
    assert_eq!(graph.start_task_id(), Some("one"));
    let graph = two()
        .set_start_task("two")
        .with_task_timeout(Duration::from_secs(1))
        .with_max_execution_steps(3)
        .build()
        .unwrap();
    assert_eq!(graph.start_task_id(), Some("two"));
    assert!(graph.get_task("one").is_some());
    assert!(graph.get_task("three").is_none());
    let graph = FormeGraphBuilder::<S>::new("empty".to_string()).build().unwrap();
    assert_eq!(graph.start_task_id(), None);
}

#[test]
fn edges_are_taken_in_order() {
    let graph = with_task(with_task(with_task(FormeGraphBuilder::<S>::new("g"), "a"), "b"), "c")
        .add_conditional_edge("a", |ctx| ctx.get::<String>("go").is_some(), "b", "c")
        .add_edge("a", "a")
        .build()
        .unwrap();
    let context = graph_flow::Context::new();
    assert_eq!(graph.find_next_task("a", &context), Some("c".to_string()));
    context.set("go", "yes").unwrap();
    assert_eq!(graph.find_next_task("a", &context), Some("b".to_string()));
    assert_eq!(graph.find_next_task("b", &context), None);
}

#[test]
fn an_unknown_end_of_an_edge_is_refused() {
    let reply = with_task(FormeGraphBuilder::<S>::new("g"), "a")
        .add_edge("a", "b")
        .set_start_task("nowhere")
        .build();
    match reply {
        Err(GraphBuildError::InvalidEdge(text)) => {
            assert_eq!(
                text,
                "Edge 'a' -> 'b' references task 'b' which was not added to graph 'g'"
            )
        }
        Err(other) => panic!("unexpected {other:?}"),
        Ok(_) => panic!("an edge to nowhere"),
    }
    let reply = with_task(FormeGraphBuilder::<S>::new("g"), "a")
        .add_conditional_edge("b", |_| true, "a", "a")
        .build();
    assert!(matches!(reply, Err(GraphBuildError::InvalidEdge(_))));
}

#[test]
fn an_unknown_start_is_refused() {
    let reply = with_task(FormeGraphBuilder::<S>::new("g"), "a")
        .add_edge("a", "a")
        .set_start_task("nowhere")
        .build();
    match reply {
        Err(GraphBuildError::TaskNotFound(text)) => assert_eq!(
            text,
            "Start task 'nowhere' was not added to graph 'g'"
        ),
        Err(other) => panic!("unexpected {other:?}"),
        Ok(_) => panic!("a start that is no task"),
    }
}

#[test]
fn forme_task_prepare_runs() {
    let mut map = PromptMap::new();
    map.insert(PromptKey::new("Idle", "Hello"), "hello prompt".into());
    let registry = Arc::new(InMemoryRegistry::new(map));
    let builder = Arc::new(NoopBuilder);
    let policy = Arc::new(AllowAllPolicy);
    let llm = MockLlm::with_response("canned");
    let runner = Arc::new(Runner::new(registry, builder, policy, llm));

    let task = Arc::new(FormeTask::new(
        Arc::clone(&runner),
        S("Idle".into()),
        E("Hello".into()),
    ));

    let ctx = graph_flow::Context::new();
    let out = task.run(&mut TaskContext::new(ctx.clone())).unwrap();
    assert_eq!(out.next_action, graph_flow::NextAction::Continue);
    assert!(out.response.unwrap().contains("Idle::Hello"));

    let prompt: Option<String> = ctx.get("forme.prompt");
    assert_eq!(prompt.as_deref(), Some("hello prompt"));
}

#[test]
fn a_prepared_step_is_left_in_the_context() {
    let runner = runner_with(NoopBuilder, MockLlm::new());
    let task = FormeTask::new(runner, S("Idle".into()), E("Hello".into()))
        .with_id("first")
        .with_history(vec![E("before".into())])
        .with_next(NextAction::Transition(S("Done".into())));
    assert_eq!(task.id(), "first");
    assert_eq!(task.state(), &S("Idle".into()));
    assert_eq!(task.event().0, "Hello");

    let ctx = graph_flow::Context::new();
    ctx.set("other", "untouched").unwrap();
    let result = task.run(&mut TaskContext::new(ctx.clone())).unwrap();
    let expected = [
        ("forme.prompt", "hello prompt"),
        ("forme.context", ""),
        ("forme.prompt_key", "Idle::Hello"),
        ("forme.tools", "[\"read\",\"say \\\"hi\\\"\"]"),
        ("forme.state", "Idle"),
        ("forme.event", "Hello"),
    ];
    assert_eq!(entries(&ctx), texts(&expected));
    assert_eq!(ctx.get::<String>("other").as_deref(), Some("untouched"));
    assert_eq!(
        result.response.as_deref(),
        Some("prepared: Idle::Hello")
    );
    assert_eq!(
        result.next_action,
        graph_flow::NextAction::GoTo("Done".to_string())
    );
    assert_eq!(result.status_message, None);
}

#[test]
fn a_task_without_a_prompt_fails_by_its_id() {
    let runner = runner_with(NoopBuilder, MockLlm::new());
    let ctx = graph_flow::Context::new();
    let task = FormeTask::new(Arc::clone(&runner), S("Lost".into()), E("Hello".into()));
    assert_eq!(task.id(), "Lost");
    assert_eq!(
        task.run(&mut TaskContext::new(ctx.clone())).unwrap_err(),
        "forme prepare failed (Lost): prompt not found for Lost::Hello"
    );
    let task =
        FormeLlmTask::new(runner, S("Lost".into()), E("Hello".into())).with_id("lost".to_string());
    assert_eq!(
        task.run(&mut TaskContext::new(ctx.clone())).unwrap_err(),
        "forme step failed (lost): prompt not found for Lost::Hello"
    );
    assert!(entries(&ctx).is_empty());
}

/// Counts the events.
struct Counting;

impl ContextBuilder<E> for Counting {
    fn build(&self, _event: &E, history: &[E]) -> Result<String, FormeError> {
        Ok(format!("{} before", history.len()))
    }
}

#[test]
fn a_step_is_left_in_the_context() {
    let llm = MockLlm::with_fn(|prompt, context| Ok(format!("{prompt}|{context}")));
    let runner = runner_with(Counting, llm);
    let task = FormeLlmTask::new(runner, S("Idle".into()), E("Hello".into()))
        .with_history(vec![E("a".into()), E("b".into())])
        .with_next(NextAction::Halt);
    assert_eq!(task.id(), "Idle");

    let ctx = graph_flow::Context::new();
    ctx.set("other", "untouched").unwrap();
    let result = task.run(&mut TaskContext::new(ctx.clone())).unwrap();
    let expected = [
        ("forme.prompt", "hello prompt"),
        ("forme.context", "2 before"),
        ("forme.state", "Idle"),
        ("forme.response", "hello prompt|2 before"),
    ];
    assert_eq!(entries(&ctx), texts(&expected));
    assert_eq!(ctx.get::<String>("other").as_deref(), Some("untouched"));
    assert_eq!(
        result.response.as_deref(),
        Some("hello prompt|2 before")
    );
    assert_eq!(result.next_action, graph_flow::NextAction::End);
}

#[test]
fn a_step_can_be_taken_in_two_parts() {
    let runner = runner_with(NoopBuilder, MockLlm::new());
    let task = FormeLlmTask::new(runner, S("Idle".into()), E("Hello".into()));
    let prepared = task.prepare().unwrap();
    assert_eq!(prepared.prompt, "hello prompt");
    let stepped = task.finish(prepared.clone(), Ok("answer".to_string()));
    let plan = task.plan_for(stepped).unwrap();
    assert_eq!(plan.response, "answer");
    let ctx = graph_flow::Context::new();
    let result = plan.perform(&mut TaskContext::new(ctx.clone())).unwrap();
    assert_eq!(result.response.as_deref(), Some("answer"));
    assert_eq!(ctx.get::<String>("forme.response").as_deref(), Some("answer"));

    let failed = task.finish(prepared, Err(FormeError::LlmFailed("down".to_string())));
    assert_eq!(
        task.plan_for(failed).unwrap_err(),
        "forme step failed (Idle): llm call failed: down"
    );
}

#[test]
fn a_required_text_that_cannot_be_written_fails_the_task() {
    let runner = runner_with(NoopBuilder, MockLlm::new());
    let task = FormeTask::new(runner, S("Idle".into()), E("Hello".into()));
    let prepared = task.runner().prepare(task.state(), task.event(), &[]);
    let plan = task.plan_for(prepared).unwrap();
    let verdicts: Vec<Result<(), String>> = plan
        .writes
        .iter()
        .map(|write| write.judge(Err("full".to_string())))
        .collect();
    assert_eq!(
        verdicts,
        [
            Err("context set prompt failed: full".to_string()),
            Err("context set context failed: full".to_string()),
            Err("context set prompt_key failed: full".to_string()),
            Ok(()),
            Ok(()),
            Ok(()),
        ]
    );
    let write = ContextWrite {
        key: "k".to_string(),
        value: "v".to_string(),
        required: None,
    };
    assert_eq!(write.judge(Err("full".to_string())), Ok(()));
    assert!(plan.writes.iter().all(|write| write.judge(Ok(())).is_ok()));
}

#[test]
fn one_more_edge_between_tasks_leaves_the_start() {
    let two = || {
        with_task(with_task(FormeGraphBuilder::<S>::new("g"), "one"), "two")
            .add_edge("one", "two")
            .set_start_task("two")
    };
    let before = two().build().unwrap();
    let after = two().add_edge("two", "one").build().unwrap();
    assert_eq!(before.start_task_id(), after.start_task_id());
    let context = graph_flow::Context::new();
    assert_eq!(before.find_next_task("two", &context), None);
    assert_eq!(
        after.find_next_task("two", &context),
        Some("one".to_string())
    );
}

#[test]
fn the_tools_are_written_as_given() {
    let runner = runner_with(NoopBuilder, MockLlm::new());
    let task = FormeTask::new(runner, S("Idle".into()), E("Hello".into()));
    let prepared = task
        .runner()
        .prepare(task.state(), task.event(), &[])
        .unwrap();
    let plan = task.plan_with(prepared, "any text".to_string());
    assert_eq!(plan.writes.len(), 6);
    assert_eq!(plan.writes[3].key, "forme.tools");
    assert_eq!(plan.writes[3].value, "any text");
    assert_eq!(plan.response, "prepared: Idle::Hello");
}

#[test]
fn a_later_task_replaces_what_an_earlier_one_left() {
    let llm = MockLlm::with_response("answer");
    let runner = runner_with(NoopBuilder, llm);
    let mut context = TaskContext::new(graph_flow::Context::new());
    let first = FormeTask::new(Arc::clone(&runner), S("Idle".into()), E("Hello".into()));
    first.run(&mut context).unwrap();
    let second = FormeLlmTask::new(runner, S("Idle".into()), E("Hello".into()));
    let result = second.run(&mut context).unwrap();
    assert_eq!(result.response.as_deref(), Some("answer"));

    let ctx = graph_flow::Context::new();
    ctx.set("forme.prompt", "old").unwrap();
    let mut context = TaskContext::new(ctx.clone());
    first.run(&mut context).unwrap();
    second.run(&mut context).unwrap();
    assert_eq!(
        entries(&ctx),
        texts(&[
            ("forme.prompt", "hello prompt"),
            ("forme.context", ""),
            ("forme.prompt_key", "Idle::Hello"),
            ("forme.tools", "[\"read\",\"say \\\"hi\\\"\"]"),
            ("forme.state", "Idle"),
            ("forme.event", "Hello"),
            ("forme.response", "answer"),
        ])
    );
}

#[test]
fn tasks_and_builders_are_shown() {
    let runner = runner_with(NoopBuilder, MockLlm::new());
    let task = FormeTask::new(Arc::clone(&runner), S("Idle".into()), E("Hello".into()))
        .with_id("first")
        .with_next(NextAction::Halt);
    assert_eq!(
        format!("{task:?}"),
        "FormeTask { id: \"first\", state: S(\"Idle\"), event: E(\"Hello\"), next: Halt, .. }"
    );
    let task = FormeLlmTask::new(runner, S("Idle".into()), E("Hello".into()));
    assert_eq!(
        format!("{task:?}"),
        "FormeLlmTask { id: \"Idle\", state: S(\"Idle\"), next: Next, .. }"
    );
    assert_eq!(
        format!("{:?}", FormeGraphBuilder::<S>::new("g")),
        "FormeGraphBuilder { id: \"graph\", .. }"
    );
}
