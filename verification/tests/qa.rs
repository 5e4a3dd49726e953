//! The checks of the library on itself.

use std::sync::Arc;

use forme::context_builder::NoopBuilder;
use forme::policy::{AllowAllPolicy, AllowListPolicy};
use forme::prompt_registry::{InMemoryRegistry, Registry};
use forme::qa;
use forme::qa::{Complaint, LogEntry, LogMove, LogReply, LogSearch, LogStep, QaRunner};
use forme::qa::{SnapshotMove, SnapshotReply, SnapshotSearch};
use forme::rig_adapter::MockLlm;
use forme::runtime::Runner;
use forme::{FormeError, PromptKey, ToolId};

fn entry(state: &str, event: &str) -> LogEntry {
    LogEntry {
        state: state.to_string(),
        event: event.to_string(),
        history: Vec::new(),
    }
}

fn runner_over(prompts: Vec<(PromptKey, String)>, llm: MockLlm) -> QaRunner {
    Runner::new(
        Arc::new(InMemoryRegistry::from_iter(prompts)),
        Arc::new(NoopBuilder),
        Arc::new(AllowAllPolicy),
        llm,
    )
}

#[test]
fn the_fallback_log_passes_every_check() {
    let log = qa::fallback_log();
    assert_eq!(log.len(), 2);
    assert_eq!((log[0].state.as_str(), log[0].event.as_str()), ("Idle", "UserMsg"));
    assert!(log[0].history.is_empty());
    assert_eq!((log[1].state.as_str(), log[1].event.as_str()), ("Done", "UserMsg"));
    assert_eq!(log[1].history, ["UserMsg"]);

    let runner = qa::make_runner();
    assert!(qa::prompt_found(&runner, &log).is_empty());
    assert!(qa::policy_deny());
    assert!(qa::replay_determinism(&runner, &log).is_empty());
    assert!(qa::inline_check());
}

#[test]
fn the_prompts_of_the_checks() {
    let registry = qa::make_registry();
    let cases = [
        (
            "Idle",
            "UserMsg",
            "You are in Idle state, greeting user. You are helpful.",
        ),
        (
            "Greeting",
            "UserMsg",
            "You are in Greeting state, respond warmly.",
        ),
        (
            "Done",
            "UserMsg",
            "You are in Done state. Summarize and say goodbye.",
        ),
        (
            "Idle",
            "UserMsg_save",
            "You are a helpful assistant in Idle state. Greet the user warmly.",
        ),
    ];
    for (state, event, prompt) in cases {
        assert_eq!(registry.get(&PromptKey::new(state, event)).unwrap(), prompt);
    }
    assert!(registry.get(&PromptKey::new("Done", "Save")).is_err());
}

#[test]
fn entries_without_a_prompt_are_told() {
    let runner = runner_over(
        vec![
            (PromptKey::new("Idle", "UserMsg"), "hello".to_string()),
            (PromptKey::new("Mute", "UserMsg"), String::new()),
        ],
        MockLlm::new(),
    );
    let log = [
        entry("Idle", "UserMsg"),
        entry("Lost", "UserMsg"),
        entry("Mute", "UserMsg"),
    ];
    let complaints = qa::prompt_found(&runner, &log);
    assert_eq!(complaints.len(), 2);
    match &complaints[0] {
        Complaint::RegistryMiss(key, e) => {
            assert_eq!(key.canonical(), "Lost::UserMsg");
            assert_eq!(e.to_string(), "prompt not found for Lost::UserMsg");
        }
        other => panic!("unexpected {other:?}"),
    }
    match &complaints[1] {
        Complaint::EmptyPrompt(key) => assert_eq!(key.canonical(), "Mute::UserMsg"),
        other => panic!("unexpected {other:?}"),
    }
}

#[test]
fn a_model_that_changes_its_mind_is_told() {
    let calls = std::sync::atomic::AtomicUsize::new(0);
    let llm = MockLlm::with_fn(move |_, _| {
        let n = calls.fetch_add(1, std::sync::atomic::Ordering::SeqCst);
        Ok(format!("answer {n}"))
    });
    let runner = runner_over(
        vec![(PromptKey::new("Idle", "UserMsg"), "hello".to_string())],
        llm,
    );
    let log = [entry("Idle", "UserMsg"), entry("Lost", "UserMsg")];
    let complaints = qa::replay_determinism(&runner, &log);
    assert_eq!(complaints.len(), 1);
    match &complaints[0] {
        Complaint::StepDiffers(key) => assert_eq!(key.canonical(), "Idle::UserMsg"),
        other => panic!("unexpected {other:?}"),
    }
}

#[test]
fn two_preparations_are_compared() {
    let key = || PromptKey::new("Idle", "UserMsg");
    let one = runner_over(vec![(key(), "one".to_string())], MockLlm::new());
    let two = runner_over(vec![(key(), "two".to_string())], MockLlm::new());
    let idle = "Idle".to_string();
    let event = "UserMsg".to_string();
    let prepared = |runner: &QaRunner| runner.prepare(&idle, &event, &[]);

    assert!(qa::compare_prepared(key(), prepared(&one), prepared(&one)).is_none());
    match qa::compare_prepared(key(), prepared(&one), prepared(&two)) {
        Some(Complaint::PreparedDiffers(k, a, b)) => {
            assert_eq!(k, key());
            assert_eq!(a.prompt, "one");
            assert_eq!(b.prompt, "two");
        }
        other => panic!("unexpected {other:?}"),
    }
    let failed = |why: &str| Err(FormeError::InvalidInput(why.to_string()));
    assert!(qa::compare_prepared(key(), failed("x"), failed("x")).is_none());
    assert!(matches!(
        qa::compare_prepared(key(), failed("x"), failed("y")),
        Some(Complaint::ErrorsDiffer(_, _))
    ));
    assert!(matches!(
        qa::compare_prepared(key(), prepared(&one), failed("y")),
        Some(Complaint::OneFailed(_))
    ));
    assert!(matches!(
        qa::compare_prepared(key(), failed("y"), prepared(&one)),
        Some(Complaint::OneFailed(_))
    ));
}

#[test]
fn two_steps_are_compared() {
    let key = || PromptKey::new("Idle", "UserMsg");
    let step = |answer: &str| {
        let runner = runner_over(
            vec![(key(), "hello".to_string())],
            MockLlm::with_response(answer),
        );
        runner.step(&"Idle".to_string(), &"UserMsg".to_string(), &[])
    };
    assert!(qa::compare_steps(key(), &step("a"), &step("a")).is_none());
    assert!(matches!(
        qa::compare_steps(key(), &step("a"), &step("b")),
        Some(Complaint::StepDiffers(_))
    ));
    let failed = Err(FormeError::LlmFailed("down".to_string()));
    assert!(qa::compare_steps(key(), &step("a"), &failed).is_none());
}

#[test]
fn logs_are_considered_in_turn() {
    let path = "tests/fixtures/event-log.json";
    match qa::consider_log(path, LogReply::Parsed(vec![entry("A", "B")])) {
        LogStep::Use(log) => assert_eq!(log[0].state, "A"),
        other => panic!("unexpected {other:?}"),
    }
    let cases = vec![
        (LogReply::Missing, None),
        (
            LogReply::Unreadable("denied".to_string()),
            Some("WARN: read tests/fixtures/event-log.json: denied"),
        ),
        (
            LogReply::Unparsable("no list".to_string()),
            Some("WARN: failed to parse tests/fixtures/event-log.json: no list, using fallback"),
        ),
        (
            LogReply::Parsed(Vec::new()),
            Some("WARN: event log at tests/fixtures/event-log.json empty, using fallback"),
        ),
    ];
    for (reply, expected) in cases {
        match qa::consider_log(path, reply) {
            LogStep::Skip(warning) => assert_eq!(warning.as_deref(), expected),
            other => panic!("unexpected {other:?}"),
        }
    }
}

#[test]
fn snapshots_are_judged() {
    let report = qa::snapshot("The IDLE state");
    assert_eq!(report.len, 14);
    assert!(report.has_idle);
    assert!(report.plausible);
    assert!(report.sim_ok);
    assert!(report.accepted());

    // Too short, though it speaks of the state.
    assert!(!qa::snapshot("Idle state").accepted());
    // Nothing of the example in it, and not long.
    let report = qa::snapshot("nothing that counts");
    assert!(!report.has_idle);
    assert!(!report.plausible);
    assert!(!report.accepted());
    for word in ["prompt", "Hello", "hello", "caulk"] {
        assert!(qa::snapshot(&format!("{word} and so on")).accepted());
    }
    // Long enough to be taken as it is; the length counts bytes.
    assert!(qa::snapshot(&"\u{e4}".repeat(26)).accepted());
    assert!(!qa::snapshot(&"\u{e4}".repeat(25)).accepted());
    assert_eq!(qa::snapshot("\u{e4}").len, 2);
    let empty = qa::snapshot("");
    assert!(!empty.sim_ok);
    assert!(!empty.accepted());
}

#[test]
fn a_snapshot_and_its_lower_case_are_told_apart() {
    assert!(qa::judge_snapshot("THE IDLE STATE", "the idle state", true).has_idle);
    assert!(!qa::judge_snapshot("THE IDLE STATE", "THE IDLE STATE", true).has_idle);
    let report = qa::judge_snapshot("the Idle state", "", true);
    assert!(report.has_idle);
    assert!(report.accepted());
    // Without the step of the example nothing is accepted.
    assert!(!qa::judge_snapshot("the Idle state", "", false).accepted());
}

#[test]
fn the_denied_tool_has_to_be_missing_from_the_list() {
    let policy = AllowListPolicy::new(vec![ToolId::from("read")]);
    let state = "Greeting".to_string();
    let read = ToolId::from("read");
    let refund = ToolId::from("refund");
    assert!(qa::policy_denies(&policy, &state, &refund, &read));
    assert!(!qa::policy_denies(&policy, &state, &read, &read));
    assert!(!qa::policy_denies(&policy, &state, &refund, &refund));
}

#[test]
fn results_are_counted() {
    let tally = qa::tally(&[true, false, true, true]);
    assert_eq!((tally.passed, tally.failed), (3, 1));
    assert!(!tally.all_passed());
    let tally = qa::tally(&[true, true, true, true]);
    assert_eq!((tally.passed, tally.failed), (4, 0));
    assert!(tally.all_passed());
    assert!(qa::tally(&[]).all_passed());
}

/// Runs the search over what is found at the paths; gives the paths, the warnings and the log.
fn search(replies: Vec<LogReply>) -> (Vec<&'static str>, Vec<String>, Vec<LogEntry>) {
    let mut paths = Vec::new();
    let mut warnings = Vec::new();
    let mut search = LogSearch::start();
    for reply in replies {
        paths.push(search.path());
        match search.answer(reply) {
            LogMove::TryNext(next, warning) => {
                warnings.extend(warning);
                search = next;
            }
            LogMove::Use(log) => return (paths, warnings, log),
            LogMove::Fallback(log, warning) => {
                warnings.extend(warning);
                return (paths, warnings, log);
            }
        }
    }
    panic!("the search did not end")
}

#[test]
fn the_first_log_with_entries_is_used() {
    let log = || vec![entry("A", "B"), entry("C", "D")];
    let (paths, warnings, found) = search(vec![LogReply::Parsed(log())]);
    assert_eq!(paths, ["tests/fixtures/event-log.json"]);
    assert!(warnings.is_empty());
    assert_eq!(found.len(), 2);
    assert_eq!(found[1].state, "C");

    let (paths, warnings, found) = search(vec![
        LogReply::Parsed(Vec::new()),
        LogReply::Parsed(log()),
        LogReply::Missing,
    ]);
    assert_eq!(
        paths,
        [
            "tests/fixtures/event-log.json",
            "./tests/fixtures/event-log.json"
        ]
    );
    assert_eq!(
        warnings,
        ["WARN: event log at tests/fixtures/event-log.json empty, using fallback"]
    );
    assert_eq!(found[0].state, "A");

    let (paths, warnings, found) = search(vec![
        LogReply::Missing,
        LogReply::Unreadable("denied".to_string()),
        LogReply::Parsed(log()),
    ]);
    assert_eq!(paths.len(), 3);
    assert_eq!(
        warnings,
        ["WARN: read ./tests/fixtures/event-log.json: denied"]
    );
    assert_eq!(found[0].event, "B");
}

#[test]
fn the_fallback_follows_the_last_path() {
    let (paths, warnings, found) = search(vec![
        LogReply::Missing,
        LogReply::Missing,
        LogReply::Unparsable("no list".to_string()),
    ]);
    assert_eq!(paths[2], "caulk/tests/fixtures/event-log.json");
    assert_eq!(
        warnings,
        ["WARN: failed to parse caulk/tests/fixtures/event-log.json: no list, using fallback"]
    );
    assert_eq!(found.len(), 2);
    assert_eq!(found[0].state, "Idle");
    assert_eq!(found[1].history, ["UserMsg"]);
}

/// Runs the search over what is found at the paths; gives the paths, the warnings and the content.
fn search_snapshot(
    replies: Vec<SnapshotReply>,
) -> (Vec<&'static str>, Vec<String>, Option<String>) {
    let mut paths = Vec::new();
    let mut warnings = Vec::new();
    let mut search = SnapshotSearch::start();
    for reply in replies {
        paths.push(search.path());
        match search.answer(reply) {
            SnapshotMove::TryNext(next, warning) => {
                warnings.extend(warning);
                search = next;
            }
            SnapshotMove::Use(content) => return (paths, warnings, Some(content)),
            SnapshotMove::CheckInline(warning) => {
                warnings.extend(warning);
                return (paths, warnings, None);
            }
        }
    }
    panic!("the search did not end")
}

#[test]
fn the_first_snapshot_is_used() {
    let (paths, warnings, content) =
        search_snapshot(vec![SnapshotReply::Content("first".to_string())]);
    assert_eq!(paths, ["tests/snapshots/hello-world.txt"]);
    assert!(warnings.is_empty());
    assert_eq!(content.as_deref(), Some("first"));

    // An empty file is a snapshot too; it is judged and not skipped.
    let (paths, warnings, content) = search_snapshot(vec![
        SnapshotReply::Unreadable("denied".to_string()),
        SnapshotReply::Content(String::new()),
        SnapshotReply::Content("late".to_string()),
    ]);
    assert_eq!(paths[1], "./tests/snapshots/hello-world.txt");
    assert_eq!(
        warnings,
        ["WARN: read tests/snapshots/hello-world.txt: denied"]
    );
    assert_eq!(content.as_deref(), Some(""));
}

#[test]
fn without_a_snapshot_the_key_is_checked() {
    let (paths, warnings, content) = search_snapshot(vec![
        SnapshotReply::Missing,
        SnapshotReply::Missing,
        SnapshotReply::Unreadable("denied".to_string()),
    ]);
    assert_eq!(paths[2], "caulk/tests/snapshots/hello-world.txt");
    assert_eq!(
        warnings,
        ["WARN: read caulk/tests/snapshots/hello-world.txt: denied"]
    );
    assert_eq!(content, None);
}
