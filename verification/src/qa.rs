//! Checks of the library on itself: a log of events is run through a runner, and every entry has
//! to find its prompt and to come to the same twice.

use std::sync::Arc;

use vstd::prelude::*;

use crate::context_builder::NoopBuilder;
use crate::kernel;
use crate::kernel::{FormeError, FormeErrorView, PromptKey, PromptKeyView, ToolId};
use crate::policy::{AllowAllPolicy, AllowListPolicy, Policy};
use crate::prompt_map::PromptMap;
use crate::prompt_registry::{InMemoryRegistry, Registry};
use crate::replay;
use crate::rig_adapter::MockLlm;
use crate::runtime::{Prepared, Runner, StepOutput};
use crate::text;
use crate::text::contains_text;
use crate::tool_set;

verus! {

/// The runner that the checks use: prompts in memory, no context, every tool, a mock.
pub type QaRunner = Runner<
    String,
    String,
    InMemoryRegistry,
    NoopBuilder,
    AllowAllPolicy,
    MockLlm,
>;

/// An entry of the log: an event in a state, and the events before it.
#[derive(Debug)]
pub struct LogEntry {
    pub state: String,
    pub event: String,
    pub history: Vec<String>,
}

impl LogEntry {
    /// The key of the prompt of the entry.
    pub open spec fn key(&self) -> PromptKeyView {
        PromptKeyView { state: self.state@, event: self.event@ }
    }
}

/// What came of looking for a log at some path.
#[derive(Debug)]
pub enum LogReply {
    /// There is no file.
    Missing,
    /// The file cannot be read, for the reason given.
    Unreadable(String),
    /// The content is no log, for the reason given.
    Unparsable(String),
    /// The log.
    Parsed(Vec<LogEntry>),
}

/// How to go on after looking for a log at some path.
#[derive(Debug)]
pub enum LogStep {
    /// Uses this log.
    Use(Vec<LogEntry>),
    /// Looks elsewhere, and gives the warning, where there is one.
    Skip(Option<String>),
}

/// The warning for what was found at a path, where it is no log that can be used.
pub open spec fn log_warning(path: Seq<char>, reply: LogReply) -> Option<Seq<char>> {
    match reply {
        LogReply::Missing => None,
        LogReply::Unreadable(why) => Some("WARN: read "@ + path + ": "@ + why@),
        LogReply::Unparsable(why) => Some(
            "WARN: failed to parse "@ + path + ": "@ + why@ + ", using fallback"@,
        ),
        LogReply::Parsed(_) => Some("WARN: event log at "@ + path + " empty, using fallback"@),
    }
}

/// Decides whether what was found at a path is used: it is where it is a log with entries.
pub fn consider_log(path: &str, reply: LogReply) -> (step: LogStep)
    ensures
        match step {
            LogStep::Use(log) => reply == LogReply::Parsed(log) && usable(reply),
            LogStep::Skip(warning) => {
                &&& !usable(reply)
                &&& warns(path@, reply, warning)
            },
        },
{
    match reply {
        LogReply::Missing => LogStep::Skip(None),
        LogReply::Unreadable(why) => {
            let mut text = "WARN: read ".to_string();
            text.append(path);
            text.append(": ");
            text.append(why.as_str());
            LogStep::Skip(Some(text))
        },
        LogReply::Unparsable(why) => {
            let mut text = "WARN: failed to parse ".to_string();
            text.append(path);
            text.append(": ");
            text.append(why.as_str());
            text.append(", using fallback");
            LogStep::Skip(Some(text))
        },
        LogReply::Parsed(log) => {
            if log.len() > 0 {
                LogStep::Use(log)
            } else {
                let mut text = "WARN: event log at ".to_string();
                text.append(path);
                text.append(" empty, using fallback");
                LogStep::Skip(Some(text))
            }
        },
    }
}

/// Whether a log is the one that is used where none is found: a message in `Idle`, and one in
/// `Done` after it.
pub open spec fn is_fallback(log: Seq<LogEntry>) -> bool {
    &&& log.len() == 2
    &&& log[0].key() == (PromptKeyView { state: "Idle"@, event: "UserMsg"@ })
    &&& log[0].history@.len() == 0
    &&& log[1].key() == (PromptKeyView { state: "Done"@, event: "UserMsg"@ })
    &&& log[1].history@.len() == 1
    &&& log[1].history@[0]@ == "UserMsg"@
}

/// The log that is used where none is found.
pub fn fallback_log() -> (log: Vec<LogEntry>)
    ensures
        is_fallback(log@),
{
    let first = LogEntry {
        state: "Idle".to_string(),
        event: "UserMsg".to_string(),
        history: Vec::new(),
    };
    let second = LogEntry {
        state: "Done".to_string(),
        event: "UserMsg".to_string(),
        history: vec!["UserMsg".to_string()],
    };
    vec![first, second]
}

/// The paths at which a log is looked for, in this order.
pub open spec fn log_paths() -> Seq<Seq<char>> {
    seq![
        "tests/fixtures/event-log.json"@,
        "./tests/fixtures/event-log.json"@,
        "caulk/tests/fixtures/event-log.json"@,
    ]
}

/// Whether what was found at a path is a log with entries.
pub open spec fn usable(reply: LogReply) -> bool {
    reply matches LogReply::Parsed(log) && log@.len() > 0
}

/// The log that is chosen among what was found at the paths, one after another: the first that
/// has entries, if there is one.
pub open spec fn chosen(replies: Seq<LogReply>) -> Option<Vec<LogEntry>>
    decreases replies.len(),
{
    if replies.len() == 0 {
        None
    } else {
        match chosen(replies.drop_last()) {
            Some(log) => Some(log),
            None => match replies.last() {
                LogReply::Parsed(log) => if log@.len() > 0 {
                    Some(log)
                } else {
                    None
                },
                _ => None,
            },
        }
    }
}

/// Of what was found, the first log with entries is chosen, whatever comes after it; and none is
/// chosen only where there is no such log.
pub proof fn first_usable_log_is_chosen(replies: Seq<LogReply>, i: int)
    requires
        0 <= i < replies.len(),
        forall|j: int| 0 <= j < i ==> !usable(#[trigger] replies[j]),
    ensures
        usable(replies[i]) ==> replies[i] == LogReply::Parsed(chosen(replies)->Some_0) && chosen(
            replies,
        ) is Some,
        !usable(replies[i]) && i == replies.len() - 1 ==> chosen(replies) is None,
    decreases replies.len(),
{
    let before = replies.drop_last();
    if i < before.len() {
        assert forall|j: int| 0 <= j < i implies !usable(#[trigger] before[j]) by {
            assert(before[j] == replies[j]);
        }
        first_usable_log_is_chosen(before, i);
    } else if before.len() > 0 {
        assert forall|j: int| 0 <= j < before.len() - 1 implies !usable(
            #[trigger] before[j],
        ) by {
            assert(before[j] == replies[j]);
        }
        assert(before[before.len() - 1] == replies[before.len() - 1]);
        first_usable_log_is_chosen(before, before.len() - 1);
    }
}

/// The search for a log, before it has come to an end: nothing that was found so far is used,
/// and there are paths left to look at.
pub struct LogSearch {
    tried: usize,
    seen: Ghost<Seq<LogReply>>,
}

/// How the search for a log goes on. A warning is to be given, where there is one.
pub enum LogMove {
    /// It goes on at the next path.
    TryNext(LogSearch, Option<String>),
    /// It ends with this log.
    Use(Vec<LogEntry>),
    /// It ends without a log, and this one is used instead.
    Fallback(Vec<LogEntry>, Option<String>),
}

/// Whether the warning is the one for what was found at a path.
pub open spec fn warns(path: Seq<char>, reply: LogReply, warning: Option<String>) -> bool {
    match warning {
        Some(text) => log_warning(path, reply) == Some(text@),
        None => log_warning(path, reply) is None,
    }
}

impl LogSearch {
    /// What was found so far, one path after another.
    pub closed spec fn seen(&self) -> Seq<LogReply> {
        self.seen@
    }

    #[verifier::type_invariant]
    spec fn unfinished(self) -> bool {
        &&& self.tried == self.seen@.len()
        &&& self.tried < 3
        &&& chosen(self.seen@) is None
    }

    /// The search before anything was looked at.
    pub fn start() -> (search: Self)
        ensures
            search.seen() == Seq::<LogReply>::empty(),
    {
        LogSearch { tried: 0, seen: Ghost(Seq::empty()) }
    }

    /// The path to look at.
    pub fn path(&self) -> (path: &'static str)
        ensures
            self.seen().len() < log_paths().len(),
            path@ == log_paths()[self.seen().len() as int],
    {
        proof {
            use_type_invariant(self);
        }
        if self.tried == 0 {
            "tests/fixtures/event-log.json"
        } else if self.tried == 1 {
            "./tests/fixtures/event-log.json"
        } else {
            "caulk/tests/fixtures/event-log.json"
        }
    }

    /// Goes on with what was found at the path: a log with entries is used, and where there is
    /// none the next path is tried, until after the last one the fallback is used.
    pub fn answer(self, reply: LogReply) -> (next: LogMove)
        ensures
            ({
                let path = log_paths()[self.seen().len() as int];
                let all = self.seen().push(reply);
                match next {
                    LogMove::TryNext(search, warning) => {
                        &&& chosen(all) is None
                        &&& all.len() < log_paths().len()
                        &&& search.seen() == all
                        &&& warns(path, reply, warning)
                    },
                    LogMove::Use(log) => chosen(all) == Some(log),
                    LogMove::Fallback(log, warning) => {
                        &&& chosen(all) is None
                        &&& all.len() == log_paths().len()
                        &&& is_fallback(log@)
                        &&& warns(path, reply, warning)
                    },
                }
            }),
            match reply {
                LogReply::Parsed(log) if log@.len() > 0 => next == LogMove::Use(log),
                _ => if self.seen().len() < 2 {
                    next is TryNext
                } else {
                    next is Fallback
                },
            },
    {
        proof {
            use_type_invariant(&self);
            assert(self.seen@.push(reply).drop_last() =~= self.seen@);
        }
        let ghost all = self.seen@.push(reply);
        match consider_log(self.path(), reply) {
            LogStep::Use(log) => LogMove::Use(log),
            LogStep::Skip(warning) => {
                if self.tried < 2 {
                    LogMove::TryNext(LogSearch { tried: self.tried + 1, seen: Ghost(all) }, warning)
                } else {
                    LogMove::Fallback(fallback_log(), warning)
                }
            },
        }
    }
}

/// The prompts of the checks.
pub open spec fn qa_prompts() -> Map<PromptKeyView, Seq<char>> {
    Map::<PromptKeyView, Seq<char>>::empty().insert(
        PromptKeyView { state: "Idle"@, event: "UserMsg"@ },
        "You are in Idle state, greeting user. You are helpful."@,
    ).insert(
        PromptKeyView { state: "Greeting"@, event: "UserMsg"@ },
        "You are in Greeting state, respond warmly."@,
    ).insert(
        PromptKeyView { state: "Done"@, event: "UserMsg"@ },
        "You are in Done state. Summarize and say goodbye."@,
    ).insert(
        PromptKeyView { state: "Idle"@, event: "UserMsg_save"@ },
        "You are a helpful assistant in Idle state. Greet the user warmly."@,
    )
}

/// The registry of the checks.
pub fn make_registry() -> (registry: InMemoryRegistry)
    ensures
        registry@ == qa_prompts(),
{
    let mut map: PromptMap<String> = PromptMap::new();
    map.insert(
        PromptKey::new("Idle", "UserMsg"),
        "You are in Idle state, greeting user. You are helpful.".to_string(),
    );
    map.insert(
        PromptKey::new("Greeting", "UserMsg"),
        "You are in Greeting state, respond warmly.".to_string(),
    );
    map.insert(
        PromptKey::new("Done", "UserMsg"),
        "You are in Done state. Summarize and say goodbye.".to_string(),
    );
    map.insert(
        PromptKey::new("Idle", "UserMsg_save"),
        "You are a helpful assistant in Idle state. Greet the user warmly.".to_string(),
    );
    let registry = InMemoryRegistry::new(map);
    assert(registry@ =~= qa_prompts());
    registry
}

/// The runner of the checks, with a mock that always answers the same greeting.
pub fn make_runner() -> (runner: QaRunner)
    ensures
        runner.the_registry()@ == qa_prompts(),
        forall|prompt: String, context: String, reply: Result<String, FormeError>| #[trigger]
            runner.the_llm().may(prompt, context, reply) ==> (reply matches Ok(s) && s@
                == "Hello from caulk! This is canned reply."@),
        replay::settled_llm::<String, MockLlm>(runner.the_llm()),
{
    let llm = MockLlm::with_response("Hello from caulk! This is canned reply.");
    proof {
        replay::fixed_mock_is_settled::<String>(
            llm,
            Ok("Hello from caulk! This is canned reply."@),
        );
    }
    Runner::new(
        Arc::new(make_registry()),
        Arc::new(NoopBuilder),
        Arc::new(AllowAllPolicy),
        llm,
    )
}

/// What a check has to say against an entry of the log.
#[derive(Debug)]
pub enum Complaint {
    /// The registry has no prompt for the key.
    RegistryMiss(PromptKey, FormeError),
    /// The prompt of the key is empty.
    EmptyPrompt(PromptKey),
    /// The step of the key cannot be prepared.
    PrepareFailed(PromptKey, FormeError),
    /// The step of the key was prepared to two different outputs.
    PreparedDiffers(PromptKey, Prepared, Prepared),
    /// Preparing a step failed with two different messages.
    ErrorsDiffer(FormeError, FormeError),
    /// Preparing a step failed once and succeeded once.
    OneFailed(FormeError),
    /// The step of the key came to two different answers or prompts.
    StepDiffers(PromptKey),
}

/// Every string is shown as it is. That is what `Display` does for strings; what follows from it
/// is stated under this condition.
pub open spec fn strings_show_themselves() -> bool {
    forall|s: &String, shown: Seq<char>| #[trigger] kernel::shows(s, shown) ==> shown == s@
}

/// The complaints among what was found.
pub open spec fn complaints_in(found: Seq<Option<Complaint>>) -> Seq<Complaint>
    decreases found.len(),
{
    if found.len() == 0 {
        Seq::empty()
    } else {
        match found.last() {
            Some(complaint) => complaints_in(found.drop_last()).push(complaint),
            None => complaints_in(found.drop_last()),
        }
    }
}

/// What there is to say of a preparation: that it failed, or that its prompt is empty.
pub open spec fn preparation_complaint(
    key: PromptKeyView,
    reply: Result<Prepared, FormeError>,
    found: Option<Complaint>,
) -> bool {
    match reply {
        Ok(prepared) => if prepared.prompt@.len() == 0 {
            found matches Some(Complaint::EmptyPrompt(k)) && k@ == key
        } else {
            found is None
        },
        Err(e) => found matches Some(Complaint::PrepareFailed(k, why)) && k@ == key && why == e,
    }
}

/// Judges what preparing the step of `key` came to.
pub fn judge_preparation(key: PromptKey, reply: Result<Prepared, FormeError>) -> (found: Option<
    Complaint,
>)
    ensures
        preparation_complaint(key@, reply, found),
{
    match reply {
        Ok(prepared) => if prepared.prompt.as_str().unicode_len() == 0 {
            Some(Complaint::EmptyPrompt(key))
        } else {
            None
        },
        Err(e) => Some(Complaint::PrepareFailed(key, e)),
    }
}

/// What looking for the prompt of an entry may come to: the registry has none, or the step is
/// prepared and judged.
pub open spec fn looks_for_prompt(
    runner: &QaRunner,
    entry: LogEntry,
    found: Option<Complaint>,
) -> bool {
    let key = entry.key();
    if !runner.the_registry()@.contains_key(key) {
        found matches Some(Complaint::RegistryMiss(k, e)) && k@ == key && e@
            == FormeErrorView::RegistryNotFound(key)
    } else {
        exists|reply: Result<Prepared, FormeError>| #[trigger]
            runner.prepares(&entry.state, &entry.event, entry.history@, reply)
                && preparation_complaint(key, reply, found)
    }
}

/// What looking for the prompt of an entry comes to where strings show themselves: there is
/// something to say where the key has no prompt, or an empty one.
pub open spec fn prompt_complaint(
    prompts: Map<PromptKeyView, Seq<char>>,
    key: PromptKeyView,
    found: Option<Complaint>,
) -> bool {
    if !prompts.contains_key(key) {
        found matches Some(Complaint::RegistryMiss(k, _)) && k@ == key
    } else if prompts[key].len() == 0 {
        found matches Some(Complaint::EmptyPrompt(k)) && k@ == key
    } else {
        found is None
    }
}

/// Looks for the prompt of an entry, in the registry and through the runner.
pub fn find_prompt(runner: &QaRunner, entry: &LogEntry) -> (found: Option<Complaint>)
    ensures
        looks_for_prompt(runner, *entry, found),
        strings_show_themselves() ==> prompt_complaint(
            runner.the_registry()@,
            entry.key(),
            found,
        ),
{
    let key = PromptKey::new(&entry.state, &entry.event);
    match runner.registry().get(&key) {
        Ok(_) => {},
        Err(e) => {
            return Some(Complaint::RegistryMiss(key, e));
        },
    }
    let reply = runner.prepare(&entry.state, &entry.event, entry.history.as_slice());
    assert(runner.prepares(&entry.state, &entry.event, entry.history@, reply));
    judge_preparation(key, reply)
}

/// Checks that every entry of the log has a prompt that is not empty.
pub fn prompt_found(runner: &QaRunner, log: &[LogEntry]) -> (complaints: Vec<Complaint>)
    ensures
        exists|found: Seq<Option<Complaint>>| #[trigger]
            complaints_in(found) == complaints@ && found.len() == log@.len() && forall|i: int|
                0 <= i < log@.len() ==> {
                    &&& looks_for_prompt(runner, #[trigger] log@[i], found[i])
                    &&& strings_show_themselves() ==> prompt_complaint(
                        runner.the_registry()@,
                        log@[i].key(),
                        found[i],
                    )
                },
{
    let mut complaints: Vec<Complaint> = Vec::new();
    let ghost mut all: Seq<Option<Complaint>> = Seq::empty();
    let mut i: usize = 0;
    while i < log.len()
        invariant
            i <= log@.len(),
            all.len() == i,
            complaints_in(all) == complaints@,
            forall|j: int|
                0 <= j < i ==> {
                    &&& looks_for_prompt(runner, #[trigger] log@[j], all[j])
                    &&& strings_show_themselves() ==> prompt_complaint(
                        runner.the_registry()@,
                        log@[j].key(),
                        all[j],
                    )
                },
        decreases log@.len() - i,
    {
        let found = find_prompt(runner, &log[i]);
        proof {
            assert(all.push(found).drop_last() =~= all);
            all = all.push(found);
        }
        match found {
            Some(complaint) => {
                complaints.push(complaint);
            },
            None => {},
        }
        i += 1;
    }
    complaints
}

/// Checks what an allow list says of one tool that is not on it and one that is, and that a
/// policy for all tools lets the first run.
pub fn policy_denies(
    policy: &AllowListPolicy,
    state: &String,
    denied: &ToolId,
    allowed: &ToolId,
) -> (ok: bool)
    ensures
        ok == (!policy.permits(denied@) && policy.permits(allowed@)),
{
    let refused = match policy.check(state, denied) {
        Err(FormeError::PolicyDenied(_)) => true,
        _ => false,
    };
    let accepted = policy.check(state, allowed).is_ok();
    let all = AllowAllPolicy.check(state, denied).is_ok();
    refused && accepted && all
}

/// Checks that an allow list for reading and writing denies a refund in `Greeting`.
pub fn policy_deny() -> (ok: bool)
    ensures
        ok,
{
    let tools = vec![ToolId::from("read"), ToolId::from("write")];
    let ghost listed = tool_set::names(tools@);
    let policy = AllowListPolicy::new(tools);
    proof {
        reveal_strlit("read");
        reveal_strlit("write");
        reveal_strlit("refund");
        assert(listed =~= seq!["read"@, "write"@]);
        assert(listed[0] == "read"@);
        assert("read"@.len() == 4 && "write"@.len() == 5 && "refund"@.len() == 6);
        assert(!listed.contains("refund"@));
    }
    policy_denies(&policy, &"Greeting".to_string(), &ToolId::from("refund"), &ToolId::from("read"))
}

/// What there is to say against two outputs of preparing the same step.
pub open spec fn prepared_complaint(
    key: PromptKeyView,
    first: Result<Prepared, FormeError>,
    second: Result<Prepared, FormeError>,
    found: Option<Complaint>,
) -> bool {
    match (first, second) {
        (Ok(a), Ok(b)) => if a@ == b@ {
            found is None
        } else {
            found matches Some(Complaint::PreparedDiffers(k, x, y)) && k@ == key && x == a && y
                == b
        },
        (Err(a), Err(b)) => if a@.message() == b@.message() {
            found is None
        } else {
            found == Some(Complaint::ErrorsDiffer(a, b))
        },
        (Ok(_), Err(e)) => found == Some(Complaint::OneFailed(e)),
        (Err(e), Ok(_)) => found == Some(Complaint::OneFailed(e)),
    }
}

/// Compares two outputs of preparing the step of `key`.
pub fn compare_prepared(
    key: PromptKey,
    first: Result<Prepared, FormeError>,
    second: Result<Prepared, FormeError>,
) -> (found: Option<Complaint>)
    ensures
        prepared_complaint(key@, first, second, found),
{
    match (first, second) {
        (Ok(a), Ok(b)) => if a == b {
            None
        } else {
            Some(Complaint::PreparedDiffers(key, a, b))
        },
        (Err(a), Err(b)) => if a.to_string() == b.to_string() {
            None
        } else {
            Some(Complaint::ErrorsDiffer(a, b))
        },
        (Ok(_), Err(e)) => Some(Complaint::OneFailed(e)),
        (Err(e), Ok(_)) => Some(Complaint::OneFailed(e)),
    }
}

/// What there is to say against two outputs of taking the same step: where both succeeded, that
/// they have different answers or prompts.
pub open spec fn step_complaint(
    key: PromptKeyView,
    first: Result<StepOutput<String>, FormeError>,
    second: Result<StepOutput<String>, FormeError>,
    found: Option<Complaint>,
) -> bool {
    match (first, second) {
        (Ok(a), Ok(b)) => if a.llm_response@ == b.llm_response@ && a.prompt@ == b.prompt@ {
            found is None
        } else {
            found matches Some(Complaint::StepDiffers(k)) && k@ == key
        },
        _ => found is None,
    }
}

/// Compares two outputs of taking the step of `key`.
pub fn compare_steps(
    key: PromptKey,
    first: &Result<StepOutput<String>, FormeError>,
    second: &Result<StepOutput<String>, FormeError>,
) -> (found: Option<Complaint>)
    ensures
        step_complaint(key@, *first, *second, found),
{
    match (first, second) {
        (Ok(a), Ok(b)) => if a.llm_response == b.llm_response && a.prompt == b.prompt {
            None
        } else {
            Some(Complaint::StepDiffers(key))
        },
        _ => None,
    }
}

/// What preparing the step of an entry twice may come to.
pub open spec fn prepares_twice(
    runner: &QaRunner,
    entry: LogEntry,
    found: Option<Complaint>,
) -> bool {
    exists|first: Result<Prepared, FormeError>, second: Result<Prepared, FormeError>|
        {
            &&& #[trigger] runner.prepares(&entry.state, &entry.event, entry.history@, first)
            &&& #[trigger] runner.prepares(&entry.state, &entry.event, entry.history@, second)
            &&& prepared_complaint(entry.key(), first, second, found)
        }
}

/// What taking the step of an entry twice may come to.
pub open spec fn steps_twice(runner: &QaRunner, entry: LogEntry, found: Option<Complaint>) -> bool {
    exists|
        first: Result<StepOutput<String>, FormeError>,
        second: Result<StepOutput<String>, FormeError>,
    |
        {
            &&& #[trigger] runner.steps(&entry.state, &entry.event, entry.history@, first)
            &&& #[trigger] runner.steps(&entry.state, &entry.event, entry.history@, second)
            &&& step_complaint(entry.key(), first, second, found)
        }
}

/// Prepares the step of an entry twice, and compares.
pub fn prepare_twice(runner: &QaRunner, entry: &LogEntry) -> (found: Option<Complaint>)
    ensures
        prepares_twice(runner, *entry, found),
        kernel::stable::<String>() ==> found is None,
{
    let state = &entry.state;
    let event = &entry.event;
    let history = entry.history.as_slice();
    let first = runner.prepare(state, event, history);
    let second = runner.prepare(state, event, history);
    assert(runner.prepares(&entry.state, &entry.event, entry.history@, first));
    assert(runner.prepares(&entry.state, &entry.event, entry.history@, second));
    proof {
        if kernel::stable::<String>() {
            replay::in_memory_registry_is_settled(runner.the_registry());
            replay::noop_builder_is_settled::<String>(runner.the_builder());
            replay::policies_are_settled::<String>(runner.the_policy(), arbitrary(), arbitrary());
            replay::prepare_replays(runner, state, event, history@, first, second);
        }
    }
    compare_prepared(PromptKey::new(state, event), first, second)
}

/// Takes the step of an entry twice, and compares.
pub fn step_twice(runner: &QaRunner, entry: &LogEntry) -> (found: Option<Complaint>)
    ensures
        steps_twice(runner, *entry, found),
        kernel::stable::<String>() && replay::settled_llm::<String, MockLlm>(runner.the_llm())
            ==> found is None,
{
    let state = &entry.state;
    let event = &entry.event;
    let history = entry.history.as_slice();
    let first = runner.step(state, event, history);
    let second = runner.step(state, event, history);
    assert(runner.steps(&entry.state, &entry.event, entry.history@, first));
    assert(runner.steps(&entry.state, &entry.event, entry.history@, second));
    proof {
        if kernel::stable::<String>() && replay::settled_llm::<String, MockLlm>(runner.the_llm()) {
            replay::in_memory_registry_is_settled(runner.the_registry());
            replay::noop_builder_is_settled::<String>(runner.the_builder());
            replay::policies_are_settled::<String>(runner.the_policy(), arbitrary(), arbitrary());
            replay::step_replays(runner, state, event, history@, first, second);
        }
    }
    compare_steps(PromptKey::new(state, event), &first, &second)
}

/// Prepares and takes the step of every entry of the log twice, and compares.
///
/// Where strings are always shown in the same way, preparing a step comes to the same, and so
/// does taking it where the mock always answers the same.
pub fn replay_determinism(runner: &QaRunner, log: &[LogEntry]) -> (complaints: Vec<Complaint>)
    ensures
        exists|found: Seq<Option<Complaint>>| #[trigger]
            complaints_in(found) == complaints@ && found.len() == 2 * log@.len() && forall|i: int|
                0 <= i < log@.len() ==> {
                    &&& prepares_twice(runner, #[trigger] log@[i], found[2 * i])
                    &&& steps_twice(runner, log@[i], found[2 * i + 1])
                },
        kernel::stable::<String>() && replay::settled_llm::<String, MockLlm>(runner.the_llm())
            ==> complaints@.len() == 0,
{
    let mut complaints: Vec<Complaint> = Vec::new();
    let ghost mut all: Seq<Option<Complaint>> = Seq::empty();
    let mut i: usize = 0;
    while i < log.len()
        invariant
            i <= log@.len(),
            all.len() == 2 * i,
            complaints_in(all) == complaints@,
            forall|j: int|
                0 <= j < i ==> {
                    &&& prepares_twice(runner, #[trigger] log@[j], all[2 * j])
                    &&& steps_twice(runner, log@[j], all[2 * j + 1])
                },
            kernel::stable::<String>() && replay::settled_llm::<String, MockLlm>(runner.the_llm())
                ==> complaints@.len() == 0,
        decreases log@.len() - i,
    {
        let prepared = prepare_twice(runner, &log[i]);
        let stepped = step_twice(runner, &log[i]);
        proof {
            reveal_with_fuel(complaints_in, 3);
            assert(all.push(prepared).drop_last() =~= all);
            assert(all.push(prepared).push(stepped).drop_last() =~= all.push(prepared));
            all = all.push(prepared).push(stepped);
        }
        match prepared {
            Some(complaint) => {
                complaints.push(complaint);
            },
            None => {},
        }
        match stepped {
            Some(complaint) => {
                complaints.push(complaint);
            },
            None => {},
        }
        i += 1;
    }
    complaints
}

/// The text in lower case, as `str::to_lowercase` gives it.
pub uninterp spec fn lower_case(s: Seq<char>) -> Seq<char>;

/// Calls `str::to_lowercase`, which follows the tables of Unicode and no locale.
#[verifier::external_body]
fn to_lower_case(s: &str) -> (lowered: String)
    ensures
        lowered@ == lower_case(s@),
{
    s.to_lowercase()
}

/// What is to be said of a snapshot.
#[derive(Debug, Clone, Copy, PartialEq, Eq)]
pub struct SnapshotReport {
    /// The length of the snapshot in bytes.
    pub len: usize,
    /// Whether it speaks of the state `Idle`.
    pub has_idle: bool,
    /// Whether it looks like the output of the example.
    pub plausible: bool,
    /// Whether the snapshot is not empty, and the step of the example can be prepared.
    pub sim_ok: bool,
}

impl SnapshotReport {
    /// Whether the snapshot is accepted.
    pub open spec fn accepts(self) -> bool {
        self.plausible && self.sim_ok
    }

    /// Whether the snapshot is accepted.
    pub fn accepted(&self) -> (ok: bool)
        ensures
            ok == self.accepts(),
    {
        self.plausible && self.sim_ok
    }
}

/// Whether one of the words of the example stands in the text.
pub open spec fn speaks_of_example(content: Seq<char>) -> bool {
    ||| text::occurs_in("prompt"@, content)
    ||| text::occurs_in("Hello"@, content)
    ||| text::occurs_in("hello"@, content)
    ||| text::occurs_in("caulk"@, content)
}

/// The report on a snapshot of `len` bytes, where `lowered` is it in lower case, and `example`
/// says whether the step of the example can be prepared. The snapshot is plausible where it has
/// more than ten bytes and speaks of `Idle` or of the example, or has more than fifty.
pub open spec fn snapshot_report(
    content: Seq<char>,
    lowered: Seq<char>,
    len: usize,
    example: bool,
) -> SnapshotReport {
    let has_idle = text::occurs_in("idle"@, lowered) || text::occurs_in("Idle"@, content);
    SnapshotReport {
        len,
        has_idle,
        plausible: len > 10 && (has_idle || speaks_of_example(content) || len > 50),
        sim_ok: example && len > 0,
    }
}

/// The one prompt that the example needs.
pub open spec fn example_prompts() -> Map<PromptKeyView, Seq<char>> {
    Map::<PromptKeyView, Seq<char>>::empty().insert(
        PromptKeyView { state: "Idle"@, event: "UserMsg"@ },
        "You are a helpful assistant in Idle state. Greet the user warmly."@,
    )
}

/// Whether preparing the step of the example, a message in `Idle` with nothing before it, may
/// succeed, or fail, as `ok` says.
pub open spec fn example_may_prepare(ok: bool) -> bool {
    exists|runner: QaRunner, state: String, event: String, reply: Result<Prepared, FormeError>|
        {
            &&& runner.the_registry()@ == example_prompts()
            &&& state@ == "Idle"@
            &&& event@ == "UserMsg"@
            &&& #[trigger] runner.prepares(&state, &event, Seq::<String>::empty(), reply)
            &&& ok == (reply is Ok)
        }
}

/// Prepares the step of the example, with the one prompt that it needs. That succeeds where
/// strings show themselves.
fn example_prepares() -> (ok: bool)
    ensures
        example_may_prepare(ok),
        strings_show_themselves() ==> ok,
{
    let mut map: PromptMap<String> = PromptMap::new();
    map.insert(
        PromptKey::new("Idle", "UserMsg"),
        "You are a helpful assistant in Idle state. Greet the user warmly.".to_string(),
    );
    let runner: QaRunner = Runner::new(
        Arc::new(InMemoryRegistry::new(map)),
        Arc::new(NoopBuilder),
        Arc::new(AllowAllPolicy),
        MockLlm::with_response("Hello from caulk! This is canned reply."),
    );
    assert(runner.the_registry()@ =~= example_prompts());
    let state = "Idle".to_string();
    let event = "UserMsg".to_string();
    let history: Vec<String> = Vec::new();
    let reply = runner.prepare(&state, &event, history.as_slice());
    assert(history@ =~= Seq::<String>::empty());
    assert(runner.prepares(&state, &event, Seq::<String>::empty(), reply));
    reply.is_ok()
}

/// Judges a snapshot, given it in lower case too, and whether the step of the example can be
/// prepared.
pub fn judge_snapshot(content: &str, lowered: &str, example: bool) -> (report: SnapshotReport)
    ensures
        report == snapshot_report(
            content@,
            lowered@,
            vstd::utf8::encode_utf8(content@).len() as usize,
            example,
        ),
{
    let len: usize = content.len();
    let has_idle = contains_text(lowered, "idle") || contains_text(content, "Idle");
    let speaks = contains_text(content, "prompt") || contains_text(content, "Hello")
        || contains_text(content, "hello") || contains_text(content, "caulk");
    SnapshotReport {
        len,
        has_idle,
        plausible: len > 10 && (has_idle || speaks || len > 50),
        sim_ok: example && len > 0,
    }
}

/// Judges a snapshot. The step of the example can be prepared where strings show themselves.
pub fn snapshot(content: &str) -> (report: SnapshotReport)
    ensures
        exists|example: bool|
            {
                &&& example_may_prepare(example)
                &&& strings_show_themselves() ==> example
                &&& report == #[trigger] snapshot_report(
                    content@,
                    lower_case(content@),
                    vstd::utf8::encode_utf8(content@).len() as usize,
                    example,
                )
            },
{
    judge_snapshot(content, to_lower_case(content).as_str(), example_prepares())
}

/// Whether a key that may stand for the state `Idle` and the event `UserMsg` has the canonical
/// text `Idle::UserMsg`, or has not, as `ok` says.
pub open spec fn example_key_may_be_canonical(ok: bool) -> bool {
    exists|state: String, event: String, key: PromptKeyView|
        {
            &&& state@ == "Idle"@
            &&& event@ == "UserMsg"@
            &&& #[trigger] kernel::keyed(&state, &event, key)
            &&& ok == (key.canonical() == "Idle::UserMsg"@)
        }
}

/// The paths at which a snapshot is looked for, in this order.
pub open spec fn snapshot_paths() -> Seq<Seq<char>> {
    seq![
        "tests/snapshots/hello-world.txt"@,
        "./tests/snapshots/hello-world.txt"@,
        "caulk/tests/snapshots/hello-world.txt"@,
    ]
}

/// What came of looking for a snapshot at some path.
#[derive(Debug)]
pub enum SnapshotReply {
    /// There is no file.
    Missing,
    /// The file cannot be read, for the reason given.
    Unreadable(String),
    /// The content of the file.
    Content(String),
}

/// The snapshot that is chosen among what was found at the paths, one after another: the first
/// content that could be read, if there is one.
pub open spec fn chosen_snapshot(replies: Seq<SnapshotReply>) -> Option<String>
    decreases replies.len(),
{
    if replies.len() == 0 {
        None
    } else {
        match chosen_snapshot(replies.drop_last()) {
            Some(content) => Some(content),
            None => match replies.last() {
                SnapshotReply::Content(content) => Some(content),
                _ => None,
            },
        }
    }
}

/// Of what was found, the first content is chosen, whatever comes after it; and none is chosen
/// only where there is no content.
pub proof fn first_snapshot_is_chosen(replies: Seq<SnapshotReply>, i: int)
    requires
        0 <= i < replies.len(),
        forall|j: int| 0 <= j < i ==> !((#[trigger] replies[j]) is Content),
    ensures
        replies[i] matches SnapshotReply::Content(content) ==> chosen_snapshot(replies) == Some(
            content,
        ),
        !(replies[i] is Content) && i == replies.len() - 1 ==> chosen_snapshot(replies) is None,
    decreases replies.len(),
{
    let before = replies.drop_last();
    if i < before.len() {
        assert forall|j: int| 0 <= j < i implies !((#[trigger] before[j]) is Content) by {
            assert(before[j] == replies[j]);
        }
        first_snapshot_is_chosen(before, i);
    } else if before.len() > 0 {
        assert forall|j: int| 0 <= j < before.len() - 1 implies !((
        #[trigger] before[j]) is Content) by {
            assert(before[j] == replies[j]);
        }
        assert(before[before.len() - 1] == replies[before.len() - 1]);
        first_snapshot_is_chosen(before, before.len() - 1);
    }
}

/// Whether the warning is the one for what was found at a path: there is one where a file cannot
/// be read.
pub open spec fn snapshot_warns(
    path: Seq<char>,
    reply: SnapshotReply,
    warning: Option<String>,
) -> bool {
    match reply {
        SnapshotReply::Unreadable(why) => warning matches Some(text) && text@ == "WARN: read "@
            + path + ": "@ + why@,
        _ => warning is None,
    }
}

/// The search for a snapshot, before it has come to an end: nothing could be read so far, and
/// there are paths left to look at.
pub struct SnapshotSearch {
    tried: usize,
    seen: Ghost<Seq<SnapshotReply>>,
}

/// How the search for a snapshot goes on. A warning is to be given, where there is one.
pub enum SnapshotMove {
    /// It goes on at the next path.
    TryNext(SnapshotSearch, Option<String>),
    /// It ends with this content, which is to be judged.
    Use(String),
    /// It ends without a snapshot, and the key of the example is checked instead.
    CheckInline(Option<String>),
}

impl SnapshotSearch {
    /// What was found so far, one path after another.
    pub closed spec fn seen(&self) -> Seq<SnapshotReply> {
        self.seen@
    }

    #[verifier::type_invariant]
    spec fn unfinished(self) -> bool {
        &&& self.tried == self.seen@.len()
        &&& self.tried < 3
        &&& chosen_snapshot(self.seen@) is None
    }

    /// The search before anything was looked at.
    pub fn start() -> (search: Self)
        ensures
            search.seen() == Seq::<SnapshotReply>::empty(),
    {
        SnapshotSearch { tried: 0, seen: Ghost(Seq::empty()) }
    }

    /// The path to look at.
    pub fn path(&self) -> (path: &'static str)
        ensures
            self.seen().len() < snapshot_paths().len(),
            path@ == snapshot_paths()[self.seen().len() as int],
    {
        proof {
            use_type_invariant(self);
        }
        if self.tried == 0 {
            "tests/snapshots/hello-world.txt"
        } else if self.tried == 1 {
            "./tests/snapshots/hello-world.txt"
        } else {
            "caulk/tests/snapshots/hello-world.txt"
        }
    }

    /// Goes on with what was found at the path: a content is used, and where there is none the
    /// next path is tried, until after the last one the key of the example is checked instead.
    pub fn answer(self, reply: SnapshotReply) -> (next: SnapshotMove)
        ensures
            ({
                let path = snapshot_paths()[self.seen().len() as int];
                let all = self.seen().push(reply);
                match next {
                    SnapshotMove::TryNext(search, warning) => {
                        &&& chosen_snapshot(all) is None
                        &&& all.len() < snapshot_paths().len()
                        &&& search.seen() == all
                        &&& snapshot_warns(path, reply, warning)
                    },
                    SnapshotMove::Use(content) => chosen_snapshot(all) == Some(content),
                    SnapshotMove::CheckInline(warning) => {
                        &&& chosen_snapshot(all) is None
                        &&& all.len() == snapshot_paths().len()
                        &&& snapshot_warns(path, reply, warning)
                    },
                }
            }),
            match reply {
                SnapshotReply::Content(content) => next == SnapshotMove::Use(content),
                _ => if self.seen().len() < 2 {
                    next is TryNext
                } else {
                    next is CheckInline
                },
            },
    {
        proof {
            use_type_invariant(&self);
            assert(self.seen@.push(reply).drop_last() =~= self.seen@);
        }
        let ghost all = self.seen@.push(reply);
        let warning = match reply {
            SnapshotReply::Content(content) => {
                return SnapshotMove::Use(content);
            },
            SnapshotReply::Missing => None,
            SnapshotReply::Unreadable(why) => {
                let mut text = "WARN: read ".to_string();
                text.append(self.path());
                text.append(": ");
                text.append(why.as_str());
                Some(text)
            },
        };
        if self.tried < 2 {
            SnapshotMove::TryNext(
                SnapshotSearch { tried: self.tried + 1, seen: Ghost(all) },
                warning,
            )
        } else {
            SnapshotMove::CheckInline(warning)
        }
    }
}

/// Checks the key of the example, which is all that is left to check without a snapshot. It is
/// as expected where strings show themselves.
pub fn inline_check() -> (ok: bool)
    ensures
        example_key_may_be_canonical(ok),
        strings_show_themselves() ==> ok,
{
    let state = "Idle".to_string();
    let event = "UserMsg".to_string();
    let key = PromptKey::key_for(&state, &event);
    proof {
        reveal_strlit("Idle");
        reveal_strlit("::");
        reveal_strlit("UserMsg");
        reveal_strlit("Idle::UserMsg");
        let expected = PromptKeyView { state: "Idle"@, event: "UserMsg"@ };
        assert(expected.canonical() =~= "Idle::UserMsg"@);
        assert(kernel::keyed(&state, &event, key@));
    }
    key.canonical() == "Idle::UserMsg".to_string()
}

/// How many checks passed and how many failed.
#[derive(Debug, Clone, Copy, PartialEq, Eq)]
pub struct Tally {
    pub passed: usize,
    pub failed: usize,
}

/// The number of checks with the given result.
pub open spec fn count(results: Seq<bool>, result: bool) -> nat {
    results.filter(|r: bool| r == result).len()
}

/// Counts the results of the checks.
pub fn tally(results: &[bool]) -> (t: Tally)
    ensures
        t.passed == count(results@, true),
        t.failed == count(results@, false),
        t.passed + t.failed == results@.len(),
{
    let mut t = Tally { passed: 0, failed: 0 };
    let mut i: usize = 0;
    while i < results.len()
        invariant
            i <= results@.len(),
            t.passed == count(results@.take(i as int), true),
            t.failed == count(results@.take(i as int), false),
            t.passed + t.failed == i,
        decreases results@.len() - i,
    {
        assert(results@.take(i + 1) =~= results@.take(i as int).push(results@[i as int]));
        assert(results@.take(i + 1).drop_last() =~= results@.take(i as int));
        reveal(Seq::filter);
        if results[i] {
            t.passed += 1;
        } else {
            t.failed += 1;
        }
        i += 1;
    }
    assert(results@.take(results@.len() as int) =~= results@);
    t
}

impl Tally {
    /// Whether the checks passed as a whole: none of them failed.
    pub fn all_passed(&self) -> (ok: bool)
        ensures
            ok == (self.failed == 0),
    {
        self.failed == 0
    }
}

} // verus!
