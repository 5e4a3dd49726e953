//! Policies: all tools, all but some, only some, and one that only lists its tools.

use std::fmt;

use forme::policy::{AllowAllPolicy, AllowListPolicy, DenyListPolicy, Policy};
use forme::tool_set::ToolSet;
use forme::{FormeError, State, ToolId};

#[derive(Clone, Debug, PartialEq, Eq, Hash)]
struct TestState(String);

impl fmt::Display for TestState {
    fn fmt(&self, f: &mut fmt::Formatter<'_>) -> fmt::Result {
        f.write_str(&self.0)
    }
}

fn state_idle() -> TestState {
    TestState("Idle".into())
}

fn tool(s: &str) -> ToolId {
    ToolId::from(s)
}

#[test]
fn allow_all_allows_any() {
    let policy = AllowAllPolicy;
    let st = state_idle();
    let any = tool("write_code");
    assert!(policy.check(&st, &any).is_ok());
    assert!(policy.is_allowed(&st, &any));
    // Nothing is listed, which stands for all.
    let none: &[ToolId] = &[];
    assert_eq!(policy.allowed(&st), none);
}

#[test]
fn deny_list_denies_listed() {
    let mut set = ToolSet::new();
    set.insert(tool("bad_tool"));
    let policy = DenyListPolicy::new(set);
    let st = state_idle();
    let bad = tool("bad_tool");
    let good = tool("good_tool");

    let err = policy.check(&st, &bad).unwrap_err();
    assert!(err.is_denied());
    assert!(!policy.is_allowed(&st, &bad));

    assert!(policy.check(&st, &good).is_ok());
    assert!(policy.is_allowed(&st, &good));
}

#[test]
fn deny_list_message_contains_tool_name() {
    let policy = DenyListPolicy::from_iter(vec![tool("search_web")]);
    let st = state_idle();
    let t = tool("search_web");
    let err = policy.check(&st, &t).unwrap_err();
    let msg = err.to_string();
    assert!(
        msg.contains("search_web"),
        "msg '{msg}' should contain tool name"
    );
    assert!(msg.contains("policy denied"));
    match err {
        FormeError::PolicyDenied(inner) => {
            assert_eq!(inner, t);
        }
        _ => panic!("expected PolicyDenied"),
    }
}

#[test]
fn allow_list_allows_only_listed() {
    let policy = AllowListPolicy::new(vec![tool("read"), tool("write")]);
    let st = state_idle();

    assert!(policy.check(&st, &tool("read")).is_ok());
    assert!(policy.is_allowed(&st, &tool("read")));
    assert!(policy.check(&st, &tool("write")).is_ok());

    assert!(policy.check(&st, &tool("exec")).is_err());
    assert!(!policy.is_allowed(&st, &tool("exec")));
    assert!(!policy.is_allowed(&st, &tool("other")));
}

#[test]
fn empty_deny_list_allows_all() {
    let policy = DenyListPolicy::empty();
    let st = state_idle();
    assert!(policy.check(&st, &tool("anything")).is_ok());
    assert!(policy.check(&st, &tool("x")).is_ok());
    assert!(policy.is_allowed(&st, &tool("y")));
    assert_eq!(policy.allowed(&st).len(), 0);
}

#[test]
fn policy_denied_only_tool_not_state() {
    let policy = DenyListPolicy::from_iter(vec![tool("secret")]);
    let st = state_idle();
    let err = policy.check(&st, &tool("secret")).unwrap_err();
    let msg = err.to_string();
    assert!(msg.contains("secret"));
    match err {
        FormeError::PolicyDenied(tid) => assert_eq!(tid.to_string(), "secret"),
        _ => panic!("wrong variant"),
    }
}

#[test]
fn allow_list_allowed_returns_correct_slice() {
    let policy = AllowListPolicy::new(vec![tool("a"), tool("b"), tool("c")]);
    let st = state_idle();
    let allowed = policy.allowed(&st);
    assert_eq!(allowed.len(), 3);
    assert_eq!(allowed[0], tool("a"));
    assert_eq!(allowed[1], tool("b"));
    assert_eq!(allowed[2], tool("c"));
    assert!(allowed.contains(&tool("a")));
    assert!(!allowed.contains(&tool("z")));
}

#[test]
fn empty_allow_list_denies_all() {
    let policy = AllowListPolicy::empty();
    let st = state_idle();
    assert!(policy.allowed(&st).is_empty());
    assert!(policy.check(&st, &tool("any")).is_err());
    assert!(!policy.is_allowed(&st, &tool("any")));
    let err = policy.check(&st, &tool("any")).unwrap_err();
    assert!(err.is_denied());
}

#[test]
fn from_set_conversions() {
    let mut hs = ToolSet::new();
    hs.insert(tool("x"));
    hs.insert(tool("y"));
    let deny: DenyListPolicy = hs.clone().into();
    let st = state_idle();
    assert!(!deny.is_allowed(&st, &tool("x")));
    assert!(deny.is_allowed(&st, &tool("z")));

    let allow = AllowListPolicy::from_set(hs);
    assert_eq!(allow.len(), 2);
    assert!(allow.is_allowed(&st, &tool("x")));
    assert!(allow.is_allowed(&st, &tool("y")));
    assert!(!allow.is_allowed(&st, &tool("z")));
}

#[test]
fn allow_all_consistency() {
    let p = AllowAllPolicy;
    let st = TestState("Teaching".into());
    for name in ["a", "b", "c", "write_code", "tool_123"] {
        let t = tool(name);
        assert_eq!(p.check(&st, &t).is_ok(), p.is_allowed(&st, &t));
    }
}

fn assert_send_sync<T: Send + Sync>() {}

fn assert_policy<S: State, P: Policy<S>>() {}

#[test]
fn policy_is_send_sync() {
    assert_send_sync::<AllowAllPolicy>();
    assert_send_sync::<DenyListPolicy>();
    assert_send_sync::<AllowListPolicy>();

    assert_policy::<TestState, AllowAllPolicy>();
    assert_policy::<TestState, DenyListPolicy>();
    assert_policy::<TestState, AllowListPolicy>();
}

/// Lists other tools in `Idle` than elsewhere, and leaves the rest to the trait.
struct PerState {
    idle: Vec<ToolId>,
    other: Vec<ToolId>,
}

impl Policy<TestState> for PerState {
    fn allowed(&self, state: &TestState) -> &[ToolId] {
        if state.0 == "Idle" {
            &self.idle
        } else {
            &self.other
        }
    }
}

#[test]
fn a_policy_that_only_lists_is_checked_by_its_list() {
    let policy = PerState {
        idle: vec![tool("read")],
        other: vec![tool("read"), tool("refund")],
    };
    let idle = state_idle();
    let resolving = TestState("Resolving".into());
    assert!(policy.check(&idle, &tool("read")).is_ok());
    let err = policy.check(&idle, &tool("refund")).unwrap_err();
    assert_eq!(err.to_string(), "policy denied tool refund");
    assert!(!policy.is_allowed(&idle, &tool("refund")));
    assert!(policy.is_allowed(&resolving, &tool("refund")));
}

#[test]
fn deny_and_allow_over_the_same_tools_are_opposites() {
    let tools = vec![tool("read"), tool("write"), tool("read")];
    let deny = DenyListPolicy::from_iter(tools.clone());
    let allow = AllowListPolicy::new(tools);
    let st = state_idle();
    for name in ["read", "write", "exec", ""] {
        let t = tool(name);
        assert_eq!(deny.is_allowed(&st, &t), !allow.is_allowed(&st, &t));
        assert_eq!(deny.check(&st, &t).is_ok(), deny.is_allowed(&st, &t));
        assert_eq!(allow.check(&st, &t).is_ok(), allow.is_allowed(&st, &t));
    }
}

#[test]
fn an_allow_list_keeps_the_first_of_equal_tools() {
    let policy = AllowListPolicy::new(vec![tool("b"), tool("a"), tool("b"), tool("c"), tool("a")]);
    let names: Vec<String> = policy
        .allowed(&state_idle())
        .iter()
        .map(|t| t.to_string())
        .collect();
    assert_eq!(names, ["b", "a", "c"]);
    assert_eq!(policy.len(), 3);
    assert!(!policy.is_empty());
    assert!(policy.as_set().contains(&tool("c")));
    assert_eq!(policy.clone(), policy);
    assert_ne!(policy, AllowListPolicy::new(vec![tool("a"), tool("b"), tool("c")]));
}

#[test]
fn policies_from_nothing() {
    let st = state_idle();
    assert!(AllowListPolicy::default().is_empty());
    assert_eq!(AllowListPolicy::default().len(), 0);
    assert!(DenyListPolicy::default().is_allowed(&st, &tool("x")));
    assert!(AllowAllPolicy::default().is_allowed(&st, &tool("x")));
    let from_list: AllowListPolicy = vec![tool("x")].into();
    assert!(from_list.is_allowed(&st, &tool("x")));
    let mut set = ToolSet::new();
    set.insert(tool("y"));
    let from_set: AllowListPolicy = set.into();
    assert!(from_set.is_allowed(&st, &tool("y")));
    assert!(!from_set.is_allowed(&st, &tool("x")));
}

#[test]
fn an_allow_list_lists_exactly_what_may_run() {
    let policy = AllowListPolicy::new(vec![tool("read"), tool("write")]);
    for state in ["Idle", "Resolving"] {
        let st = TestState(state.into());
        for name in ["read", "write", "exec"] {
            let t = tool(name);
            assert_eq!(policy.allowed(&st).contains(&t), policy.is_allowed(&st, &t));
        }
    }
}

#[test]
fn a_plain_list_is_a_policy() {
    let list = vec![tool("read"), tool("write")];
    let st = state_idle();
    assert_eq!(list.allowed(&st).len(), 2);
    assert!(list.check(&st, &tool("read")).is_ok());
    assert_eq!(
        list.check(&st, &tool("exec")).unwrap_err().to_string(),
        "policy denied tool exec"
    );
    assert!(list.is_allowed(&st, &tool("write")));
    let nothing: Vec<ToolId> = Vec::new();
    assert!(nothing.check(&st, &tool("read")).unwrap_err().is_denied());
    assert!(!nothing.is_allowed(&st, &tool("read")));
}

#[test]
fn lists_are_shown_as_sets() {
    assert_eq!(
        format!("{:?}", DenyListPolicy::from_iter(vec![tool("a"), tool("a")])),
        "DenyListPolicy({ToolId(\"a\")})"
    );
    assert_eq!(format!("{:?}", ToolSet::new()), "{}");
    assert_eq!(
        format!("{:?}", AllowListPolicy::new(vec![tool("a"), tool("b")])),
        "AllowListPolicy { set: {ToolId(\"a\"), ToolId(\"b\")}, list: [ToolId(\"a\"), ToolId(\"b\")] }"
    );
}
