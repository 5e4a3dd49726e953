//! Keys, tools and errors.

use std::collections::hash_map::DefaultHasher;
use std::collections::HashSet;
use std::fmt;
use std::hash::{Hash, Hasher};

use forme::{Event, FormeError, PromptKey, State, ToolId};

#[derive(Clone, Debug, PartialEq, Eq, Hash)]
struct S(String);

impl fmt::Display for S {
    fn fmt(&self, f: &mut fmt::Formatter<'_>) -> fmt::Result {
        f.write_str(&self.0)
    }
}

#[derive(Clone, Debug)]
struct E(String);

impl fmt::Display for E {
    fn fmt(&self, f: &mut fmt::Formatter<'_>) -> fmt::Result {
        f.write_str(&self.0)
    }
}

#[derive(Clone, Debug, PartialEq, Eq, Hash)]
enum MyState {
    Idle,
    Active,
}

impl fmt::Display for MyState {
    fn fmt(&self, f: &mut fmt::Formatter<'_>) -> fmt::Result {
        match self {
            Self::Idle => f.write_str("Idle"),
            Self::Active => f.write_str("Active"),
        }
    }
}

#[derive(Clone, Debug)]
enum MyEvent {
    UserMsg,
    Save,
}

impl fmt::Display for MyEvent {
    fn fmt(&self, f: &mut fmt::Formatter<'_>) -> fmt::Result {
        match self {
            Self::UserMsg => f.write_str("UserMsg"),
            Self::Save => f.write_str("Save"),
        }
    }
}

#[test]
fn prompt_key_equality() {
    let a = PromptKey::new("Idle", "UserMsg");
    let b = PromptKey::new("Idle", "UserMsg");
    assert_eq!(a, b);
    let d: PromptKey = ("Idle".to_string(), "UserMsg".to_string()).into();
    assert_eq!(a, d);
    let e: PromptKey = ("Idle", "UserMsg").into();
    assert_eq!(a, e);
}

#[test]
fn prompt_key_inequality_state() {
    let a = PromptKey::new("Idle", "UserMsg");
    let b = PromptKey::new("Active", "UserMsg");
    assert_ne!(a, b);
    let c = PromptKey::new("Idle", "Other");
    assert_ne!(a, c);
}

#[test]
fn prompt_key_display_canonical() {
    let k = PromptKey::new("Idle", "UserMsg");
    assert_eq!(k.canonical(), "Idle::UserMsg");
    assert_eq!(k.to_string(), "Idle::UserMsg");
    assert_eq!(k.to_string(), k.canonical());
    // The same each time.
    assert_eq!(format!("{}", k), "Idle::UserMsg");
    // The debug text is another one.
    let dbg = format!("{:?}", k);
    assert!(dbg.contains("PromptKey") || dbg.contains("Idle"));
    assert_ne!(dbg, k.to_string());
}

#[test]
fn prompt_key_hash_eq() {
    let a = PromptKey::new("Idle", "A");
    let b = PromptKey::new("Idle", "A");
    assert_eq!(a, b);

    let mut hasher_a = DefaultHasher::new();
    a.hash(&mut hasher_a);
    let hash_a = hasher_a.finish();

    let mut hasher_b = DefaultHasher::new();
    b.hash(&mut hasher_b);
    let hash_b = hasher_b.finish();

    assert_eq!(hash_a, hash_b);
}

#[test]
fn prompt_key_hashset_lookup() {
    let mut set = HashSet::new();
    let k1 = PromptKey::new("Idle", "A");
    let k2 = PromptKey::new("Idle", "A");
    set.insert(k1.clone());
    assert!(set.contains(&k2));
    assert_eq!(set.len(), 1);
    set.insert(PromptKey::new("Idle", "B"));
    assert_eq!(set.len(), 2);
}

#[test]
fn key_for_generic() {
    let state = MyState::Idle;
    let event = MyEvent::UserMsg;
    let k = PromptKey::key_for(&state, &event);
    assert_eq!(k.state, "Idle");
    assert_eq!(k.event, "UserMsg");
    assert_eq!(k.canonical(), "Idle::UserMsg");

    let s = S("Done".into());
    let e = E("Save".into());
    let k2 = PromptKey::key_for(&s, &e);
    assert_eq!(k2, PromptKey::new("Done", "Save"));

    // Every state and event has a key of its own.
    let k3 = PromptKey::key_for(&MyState::Active, &MyEvent::Save);
    assert_eq!(k3.canonical(), "Active::Save");
}

#[test]
fn error_display_registry_not_found() {
    let key = PromptKey::new("Idle", "MissingEvent");
    let err = FormeError::RegistryNotFound(key.clone());
    let msg = err.to_string();
    assert!(msg.contains("prompt not found"), "msg was: {msg}");
    assert!(
        msg.contains(&key.to_string()),
        "msg {msg} should contain key {key}"
    );
    assert!(err.is_not_found());
    assert!(!err.is_denied());
}

#[test]
fn error_display_all_variants() {
    let variants: Vec<(FormeError, &str)> = vec![
        (
            FormeError::RegistryNotFound(PromptKey::new("S", "E")),
            "S::E",
        ),
        (
            FormeError::ContextBuildFailed("ctx boom".into()),
            "ctx boom",
        ),
        (
            FormeError::PolicyDenied(ToolId::from("write_code")),
            "write_code",
        ),
        (
            FormeError::PersistenceFailed("disk full".into()),
            "disk full",
        ),
        (FormeError::LlmFailed("timeout".into()), "timeout"),
        (FormeError::InvalidInput("bad json".into()), "bad json"),
    ];

    for (err, payload) in variants {
        let msg = err.to_string();
        assert!(
            msg.contains(payload),
            "variant {err:?} message '{msg}' should contain '{payload}'"
        );
    }

    let denied = FormeError::PolicyDenied(ToolId::from("search"));
    assert!(denied.is_denied());
    assert!(!denied.is_not_found());
}

#[test]
fn error_messages_in_full() {
    let cases: Vec<(FormeError, &str)> = vec![
        (
            FormeError::RegistryNotFound(PromptKey::new("Idle", "UserMsg")),
            "prompt not found for Idle::UserMsg",
        ),
        (
            FormeError::ContextBuildFailed("why".into()),
            "context build failed: why",
        ),
        (
            FormeError::PolicyDenied(ToolId::from("search")),
            "policy denied tool search",
        ),
        (
            FormeError::PersistenceFailed("why".into()),
            "persistence failed: why",
        ),
        (FormeError::LlmFailed("why".into()), "llm call failed: why"),
        (FormeError::InvalidInput("why".into()), "invalid input: why"),
    ];
    for (err, text) in cases {
        assert_eq!(err.to_string(), text);
        assert_eq!(
            err.is_not_found(),
            text.starts_with("prompt not found")
        );
        assert_eq!(err.is_denied(), text.starts_with("policy denied"));
    }
}

fn assert_state<T: State>() {}

fn assert_event<T: Event>() {}

fn assert_event_i32<T: Event>() {}

#[test]
fn trait_bounds_compile_check() {
    assert_state::<S>();
    assert_state::<MyState>();
    assert_event::<E>();
    assert_event::<MyEvent>();

    assert_state::<String>();
    assert_event_i32::<i32>();
}

#[test]
fn texts_and_numbers_as_states_and_events() {
    let key = PromptKey::key_for(&"Idle".to_string(), &42);
    assert_eq!(key.canonical(), "Idle::42");
    let key = PromptKey::key_for(&-7, &"ev".to_string());
    assert_eq!(key.canonical(), "-7::ev");
}

#[test]
fn tool_id_basic() {
    let a = ToolId::from("write_code");
    let b = ToolId("write_code".to_string());
    assert_eq!(a, b);
    assert_eq!(a.to_string(), "write_code");
    let name: &str = a.as_ref();
    assert_eq!(name, "write_code");

    let c = ToolId::from(String::from("search"));
    assert_eq!(c.to_string(), "search");
    assert_ne!(a, c);
}

#[test]
fn tool_id_hashset_and_serde() {
    let mut set = HashSet::new();
    set.insert(ToolId::from("tool_a"));
    assert!(set.contains(&ToolId::from("tool_a")));
    assert!(!set.contains(&ToolId::from("tool_b")));

    // A tool is stored as its name.
    let original = ToolId::from("my_tool");
    let json = serde_json::to_string(&original.0).unwrap();
    let decoded = ToolId(serde_json::from_str(&json).unwrap());
    assert_eq!(original, decoded);
}

#[test]
fn empty_keys_allowed() {
    let k = PromptKey::new("", "");
    assert_eq!(k.canonical(), "::");
    assert_eq!(k.to_string(), "::");
    let mut set = HashSet::new();
    set.insert(k.clone());
    assert!(set.contains(&k));
}

#[test]
fn from_tuple_impls() {
    let k1: PromptKey = (String::from("A"), String::from("B")).into();
    assert_eq!(k1.state, "A");
    assert_eq!(k1.event, "B");

    let k2: PromptKey = ("X", "Y").into();
    assert_eq!(k2.state, "X");
    assert_eq!(k2.event, "Y");
}

#[test]
fn keys_with_the_same_canonical_text_can_differ() {
    let a = PromptKey::new("a::b", "c");
    let b = PromptKey::new("a", "b::c");
    assert_eq!(a.canonical(), b.canonical());
    assert_ne!(a, b);
}

#[test]
fn keys_take_owned_and_borrowed_text() {
    let state = "Idle".to_string();
    let event = "Save".to_string();
    let borrowed = PromptKey::new(&state, &event);
    let owned = PromptKey::new(state, event);
    assert_eq!(borrowed, owned);
    assert_eq!(owned.clone(), owned);
}

fn describe(e: &dyn std::error::Error) -> String {
    e.to_string()
}

#[test]
fn keys_tools_and_errors_are_shown() {
    assert_eq!(format!("{}", ToolId::from("search")), "search");
    let e = FormeError::PolicyDenied(ToolId::from("search"));
    assert_eq!(format!("{e}"), "policy denied tool search");
    assert_eq!(format!("{e}"), e.to_string());
    assert_eq!(describe(&e), "policy denied tool search");
}

#[test]
fn the_version_is_that_of_the_package() {
    assert_eq!(forme::VERSION, "0.1.0");
}
