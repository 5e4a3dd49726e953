//! The runner: preparing a step, taking it, and going on.

use std::fmt;
use std::path::PathBuf;
use std::sync::{Arc, Mutex};

use forme::context_builder::{ContextBuilder, NoopBuilder};
use forme::policy::{AllowAllPolicy, AllowListPolicy, DenyListPolicy, Policy};
use forme::prompt_map::PromptMap;
use forme::prompt_registry::{
    FsRegistry, InMemoryRegistry, Lookup, ReadReply, Registry, StatReply,
};
use forme::rig_adapter::{LlmAdapter, MockLlm};
use forme::runtime::{NextAction, Runner, ToolPlan};
use forme::{Event, FormeError, PromptKey, State, ToolId};

#[derive(Clone, Debug, PartialEq, Eq, Hash)]
struct TestState(String);

impl fmt::Display for TestState {
    fn fmt(&self, f: &mut fmt::Formatter<'_>) -> fmt::Result {
        f.write_str(&self.0)
    }
}

impl TestState {
    fn new(s: &str) -> Self {
        Self(s.into())
    }
}

#[derive(Clone, Debug)]
struct TestEvent(String);

impl fmt::Display for TestEvent {
    fn fmt(&self, f: &mut fmt::Formatter<'_>) -> fmt::Result {
        f.write_str(&self.0)
    }
}

impl TestEvent {
    fn new(s: &str) -> Self {
        Self(s.into())
    }
}

fn assert_send_sync<T: Send + Sync>() {}

fn make_registry() -> InMemoryRegistry {
    let mut map = PromptMap::new();
    map.insert(
        PromptKey::new("Idle", "UserMsg"),
        "you are idle, respond to user".into(),
    );
    map.insert(PromptKey::new("Idle", "Save"), "idle save prompt".into());
    InMemoryRegistry::new(map)
}

fn make_runner_with_response(
    resp: &str,
) -> Runner<TestState, TestEvent, InMemoryRegistry, NoopBuilder, AllowAllPolicy, MockLlm> {
    let registry = Arc::new(make_registry());
    let builder = Arc::new(NoopBuilder);
    let policy = Arc::new(AllowAllPolicy);
    let llm = MockLlm::with_response(resp);
    Runner::<TestState, TestEvent, _, _, _, _>::new(registry, builder, policy, llm)
}

#[test]
fn step_happy_canned_returns_mock() {
    let runner = make_runner_with_response("canned answer");
    let state = TestState::new("Idle");
    let event = TestEvent::new("UserMsg");
    let out = runner.step(&state, &event, &[]).expect("step ok");

    assert_eq!(out.prompt, "you are idle, respond to user");
    assert_eq!(out.context, "");
    assert_eq!(out.llm_response, "canned answer");
    assert_eq!(out.next_state, state);
    assert_eq!(out.prompt_key, PromptKey::new("Idle", "UserMsg"));
}

/// One file, behind the decisions of the library.
struct OneFile {
    path: &'static str,
    content: &'static str,
    cached: Mutex<FsRegistry>,
}

impl Registry for OneFile {
    fn get(&self, key: &PromptKey) -> Result<String, FormeError> {
        let mut cached = self.cached.lock().unwrap();
        let there = cached.path_for_key(key) == PathBuf::from(self.path);
        let stat = if there {
            StatReply::Found(Some(1))
        } else {
            StatReply::NotFound
        };
        match cached.after_stat(key, stat) {
            Lookup::Done(reply) => reply,
            Lookup::Read(mtime) => {
                cached.after_read(key, mtime, ReadReply::Content(self.content.to_string()))
            }
        }
    }
}

#[test]
fn step_fs_registry_happy() {
    let registry = Arc::new(OneFile {
        path: "/prompts/Idle/UserMsg.md",
        content: "fs prompt here",
        cached: Mutex::new(FsRegistry::new(PathBuf::from("/prompts"))),
    });
    let builder = Arc::new(NoopBuilder);
    let policy = Arc::new(AllowAllPolicy);
    let llm = MockLlm::with_response("from fs");

    let runner = Runner::<TestState, TestEvent, _, _, _, _>::new(registry, builder, policy, llm);
    let state = TestState::new("Idle");
    let event = TestEvent::new("UserMsg");

    let prepared = runner.prepare(&state, &event, &[]).expect("prepare");
    assert_eq!(prepared.prompt, "fs prompt here");

    let out = runner.step(&state, &event, &[]).unwrap();
    assert_eq!(out.prompt, "fs prompt here");
    assert_eq!(out.llm_response, "from fs");

    let missing = runner.prepare(&TestState::new("Lost"), &event, &[]);
    assert!(missing.unwrap_err().is_not_found());
}

#[test]
fn tool_plan_respects_policy() {
    let registry = Arc::new(make_registry());
    let builder = Arc::new(NoopBuilder);
    let allowed_tools = vec![ToolId::from("read"), ToolId::from("write")];
    let policy = Arc::new(AllowListPolicy::new(allowed_tools.clone()));
    let llm = MockLlm::with_response("ok");

    let runner: Runner<TestState, TestEvent, _, _, _, _> =
        Runner::<TestState, TestEvent, _, _, _, _>::new(registry, builder, policy, llm);
    let state = TestState::new("Idle");
    let event = TestEvent::new("UserMsg");
    let out = runner.step(&state, &event, &[]).unwrap();
    assert_eq!(out.tool_plan.len(), 2);
    assert!(out.tool_plan.contains(&ToolId::from("read")));
    assert!(!out.tool_plan.contains(&ToolId::from("exec")));
}

#[test]
fn deny_list_step_still_succeeds() {
    let registry = Arc::new(make_registry());
    let builder = Arc::new(NoopBuilder);
    let deny = DenyListPolicy::from_iter(vec![ToolId::from("bad_tool")]);
    let policy = Arc::new(deny);
    let llm = MockLlm::with_response("ok");

    let runner: Runner<TestState, TestEvent, _, _, _, _> =
        Runner::<TestState, TestEvent, _, _, _, _>::new(registry, builder, policy, llm);
    let state = TestState::new("Idle");
    let event = TestEvent::new("UserMsg");

    let out = runner.step(&state, &event, &[]).unwrap();
    assert_eq!(out.tool_plan.allowed.len(), 0);

    let policy_ref: &DenyListPolicy = runner.policy();
    assert!(policy_ref.check(&state, &ToolId::from("bad_tool")).is_err());
    assert!(policy_ref.check(&state, &ToolId::from("good_tool")).is_ok());
}

#[test]
fn replay_determinism() {
    let runner = make_runner_with_response("same");
    let state = TestState::new("Idle");
    let event = TestEvent::new("UserMsg");
    let history = vec![TestEvent::new("h1"), TestEvent::new("h2")];

    let p1 = runner.prepare(&state, &event, &history).unwrap();
    let p2 = runner.prepare(&state, &event, &history).unwrap();
    assert_eq!(p1, p2);
    assert_eq!(p1.prompt, p2.prompt);
    assert_eq!(p1.context, p2.context);
    assert_eq!(p1.tool_plan, p2.tool_plan);
    assert_eq!(p1.key, p2.key);

    let o1 = runner.step(&state, &event, &history).unwrap();
    let o2 = runner.step(&state, &event, &history).unwrap();
    assert_eq!(o1.prompt, o2.prompt);
    assert_eq!(o1.context, o2.context);
    assert_eq!(o1.llm_response, o2.llm_response);
}

#[test]
fn handle_edge_next_and_branch() {
    let runner = make_runner_with_response("x");
    let cur = TestState::new("Idle");
    let event = TestEvent::new("UserMsg");

    let next_key = runner.handle_edge(&NextAction::Next, &cur, &event);
    assert_eq!(next_key, PromptKey::new("Idle", "UserMsg"));

    let cont_key = runner.handle_edge(&NextAction::Continue, &cur, &event);
    assert_eq!(cont_key, PromptKey::new("Idle", "UserMsg"));

    let new_state = TestState::new("Active");
    let branch_key = runner.handle_edge(&NextAction::Branch(new_state.clone()), &cur, &event);
    assert_eq!(branch_key, PromptKey::new("Active", "UserMsg"));

    let trans_key = runner.handle_edge(&NextAction::Transition(new_state), &cur, &event);
    assert_eq!(trans_key, PromptKey::new("Active", "UserMsg"));

    let halt_key = runner.handle_edge(&NextAction::Halt, &cur, &event);
    assert_eq!(halt_key, PromptKey::new("Idle", "UserMsg"));
    assert!(NextAction::<TestState>::Halt.is_halt());
    assert!(!NextAction::Next::<TestState>.is_halt());
}

#[test]
fn error_registry_not_found() {
    let runner = make_runner_with_response("nope");
    let state = TestState::new("MissingState");
    let event = TestEvent::new("MissingEvent");
    let err = runner.prepare(&state, &event, &[]).unwrap_err();
    assert!(err.is_not_found());
    assert!(matches!(err, FormeError::RegistryNotFound(_)));

    let step_err = runner.step(&state, &event, &[]).unwrap_err();
    assert!(step_err.is_not_found());
}

#[test]
fn llm_failed_maps() {
    let registry = Arc::new(make_registry());
    let builder = Arc::new(NoopBuilder);
    let policy = Arc::new(AllowAllPolicy);
    let llm = MockLlm::with_error("api 500");
    let runner: Runner<TestState, TestEvent, _, _, _, _> =
        Runner::<TestState, TestEvent, _, _, _, _>::new(registry, builder, policy, llm);
    let state = TestState::new("Idle");
    let event = TestEvent::new("UserMsg");
    let err = runner.step(&state, &event, &[]).unwrap_err();
    match err {
        FormeError::LlmFailed(msg) => assert!(msg.contains("api 500")),
        _ => panic!("expected LlmFailed got {:?}", err),
    }

    let llm2 = MockLlm::with_fn(|_, _| Err(FormeError::ContextBuildFailed("inner".into())));
    let runner2: Runner<TestState, TestEvent, _, _, _, _> =
        Runner::<TestState, TestEvent, _, _, _, _>::new(
            Arc::new(make_registry()),
            Arc::new(NoopBuilder),
            Arc::new(AllowAllPolicy),
            llm2,
        );
    let err2 = runner2.step(&state, &event, &[]).unwrap_err();
    assert!(matches!(err2, FormeError::LlmFailed(_)));
    assert!(err2.to_string().contains("inner"));
}

fn assert_runner_bounds<S, E, R, B, P, L>()
where
    S: State + Send + Sync,
    E: Event + Send + Sync,
    R: Registry + Send + Sync,
    B: ContextBuilder<E> + Send + Sync,
    P: Policy<S> + Send + Sync,
    L: LlmAdapter<E> + Send + Sync,
    Runner<S, E, R, B, P, L>: Send + Sync,
{
}

#[test]
fn runner_is_send_sync() {
    assert_send_sync::<
        Runner<TestState, TestEvent, InMemoryRegistry, NoopBuilder, AllowAllPolicy, MockLlm>,
    >();
    assert_runner_bounds::<
        TestState,
        TestEvent,
        InMemoryRegistry,
        NoopBuilder,
        AllowAllPolicy,
        MockLlm,
    >();
}

#[derive(Clone, Debug)]
struct FailBuilder;

impl<E: Event> ContextBuilder<E> for FailBuilder {
    fn build(&self, _event: &E, _history: &[E]) -> Result<String, FormeError> {
        Err(FormeError::ContextBuildFailed("boom".into()))
    }
}

#[test]
fn context_build_failure_propagates() {
    let runner: Runner<TestState, TestEvent, _, FailBuilder, _, _> =
        Runner::<TestState, TestEvent, _, _, _, _>::new(
            Arc::new(make_registry()),
            Arc::new(FailBuilder),
            Arc::new(AllowAllPolicy),
            MockLlm::with_response("x"),
        );
    let err = runner
        .prepare(&TestState::new("Idle"), &TestEvent::new("UserMsg"), &[])
        .unwrap_err();
    assert!(err.to_string().contains("boom"));
}

#[test]
fn a_missing_prompt_comes_before_a_failing_builder() {
    let runner: Runner<TestState, TestEvent, _, FailBuilder, _, _> = Runner::new(
        Arc::new(make_registry()),
        Arc::new(FailBuilder),
        Arc::new(AllowAllPolicy),
        MockLlm::with_response("x"),
    );
    let state = TestState::new("Nowhere");
    let event = TestEvent::new("UserMsg");
    assert!(runner.prepare(&state, &event, &[]).unwrap_err().is_not_found());
    let err = runner
        .step(&TestState::new("Idle"), &event, &[])
        .unwrap_err();
    assert!(matches!(err, FormeError::ContextBuildFailed(_)));
}

#[test]
fn tool_plan_helpers() {
    let plan = ToolPlan::new(vec![ToolId::from("a"), ToolId::from("b")]);
    assert_eq!(plan.len(), 2);
    assert!(!plan.is_empty());
    assert!(plan.contains(&ToolId::from("a")));
    assert!(!plan.contains(&ToolId::from("c")));
    let collected: Vec<_> = plan.clone().into_iter().collect();
    assert_eq!(collected.len(), 2);
    let refs: Vec<_> = (&plan).into_iter().cloned().collect();
    assert_eq!(refs, collected);

    let names: Vec<String> = plan.iter().map(|t| t.to_string()).collect();
    assert_eq!(names, ["a", "b"]);
    assert!(ToolPlan::new(Vec::new()).is_empty());
    assert_ne!(plan, ToolPlan::new(vec![ToolId::from("b"), ToolId::from("a")]));
}

/// Joins the labels of the events before the current one, and the current one.
struct Joined;

impl ContextBuilder<TestEvent> for Joined {
    fn build(&self, event: &TestEvent, history: &[TestEvent]) -> Result<String, FormeError> {
        let mut parts: Vec<String> = history.iter().map(|e| e.0.clone()).collect();
        parts.push(event.0.clone());
        Ok(parts.join(","))
    }
}

#[test]
fn the_model_sees_the_prepared_prompt_and_context() {
    let llm = MockLlm::with_fn(|prompt, context| Ok(format!("[{prompt}][{context}]")));
    let runner: Runner<TestState, TestEvent, _, _, _, _> = Runner::new(
        Arc::new(make_registry()),
        Arc::new(Joined),
        Arc::new(AllowListPolicy::new(vec![ToolId::from("read")])),
        llm,
    );
    let state = TestState::new("Idle");
    let event = TestEvent::new("Save");
    let history = [TestEvent::new("one"), TestEvent::new("two")];
    let prepared = runner.prepare(&state, &event, &history).unwrap();
    assert_eq!(prepared.key.canonical(), "Idle::Save");
    assert_eq!(prepared.prompt, "idle save prompt");
    assert_eq!(prepared.context, "one,two,Save");
    assert_eq!(prepared.tool_plan, ToolPlan::new(vec![ToolId::from("read")]));

    let out = runner.step(&state, &event, &history).unwrap();
    assert_eq!(out.llm_response, "[idle save prompt][one,two,Save]");
    assert_eq!(out.prompt_key, prepared.key);
    assert_eq!(out.prompt, prepared.prompt);
    assert_eq!(out.context, prepared.context);
    assert_eq!(out.tool_plan, prepared.tool_plan);
    assert_eq!(out.clone(), out);
}

#[test]
fn finishing_a_step_by_hand() {
    let runner = make_runner_with_response("unused");
    let state = TestState::new("Idle");
    let event = TestEvent::new("UserMsg");
    let prepared = runner.prepare(&state, &event, &[]).unwrap();
    let out = prepared
        .clone()
        .finish(&state, Ok("answer".to_string()))
        .unwrap();
    assert_eq!(out.llm_response, "answer");
    assert_eq!(out.next_state, state);
    assert_eq!(out.prompt, prepared.prompt);
    let err = prepared
        .clone()
        .finish(&state, Err(FormeError::LlmFailed("gone".to_string())))
        .unwrap_err();
    assert_eq!(err.to_string(), "llm call failed: gone");
    let err = prepared
        .finish(&state, Err(FormeError::InvalidInput("odd".to_string())))
        .unwrap_err();
    assert_eq!(err.to_string(), "llm call failed: invalid input: odd");
}

#[test]
fn the_parts_of_a_runner() {
    let runner = make_runner_with_response("hi");
    let key = PromptKey::new("Idle", "Save");
    assert_eq!(runner.registry().get(&key).unwrap(), "idle save prompt");
    assert_eq!(*runner.builder(), NoopBuilder);
    assert_eq!(*runner.policy(), AllowAllPolicy);
    let answer =
        <MockLlm as LlmAdapter<TestEvent>>::call(runner.llm(), "p".into(), "c".into()).unwrap();
    assert_eq!(answer, "hi");
}

#[test]
fn actions_can_be_cloned_and_compared() {
    let branch = NextAction::Branch(TestState::new("A"));
    assert_eq!(branch.clone(), branch);
    assert_ne!(branch, NextAction::Transition(TestState::new("A")));
    for action in [NextAction::Next, NextAction::Continue, branch] {
        assert!(!action.is_halt());
        assert_eq!(action.clone(), action);
    }
}

#[derive(Debug)]
struct NoPrompts;

impl Registry for NoPrompts {
    fn get(&self, key: &PromptKey) -> Result<String, FormeError> {
        Err(FormeError::RegistryNotFound(key.clone()))
    }
}

#[test]
fn a_runner_is_shown_by_its_parts() {
    let runner: Runner<TestState, TestEvent, _, _, _, _> = Runner::new(
        Arc::new(NoPrompts),
        Arc::new(NoopBuilder),
        Arc::new(AllowListPolicy::new(vec![ToolId::from("read")])),
        MockLlm::new(),
    );
    assert_eq!(
        format!("{runner:?}"),
        "Runner { registry: NoPrompts, builder: NoopBuilder, policy: AllowListPolicy { \
         set: {ToolId(\"read\")}, list: [ToolId(\"read\")] }, llm: MockLlm { .. } }"
    );
}
