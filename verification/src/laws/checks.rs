//! The checks of the library on itself.

use vstd::prelude::*;

use crate::kernel;
use crate::kernel::{FormeError, PromptKey, ToolId};
use crate::laws::tools;
use crate::policy::AllowListPolicy;
use crate::prompt_registry::{InMemoryRegistry, Registry};
use crate::qa;
use crate::qa::{
    compare_prepared, compare_steps, consider_log, fallback_log, find_prompt, inline_check,
    judge_preparation, judge_snapshot, make_registry, make_runner, policy_denies, policy_deny,
    prepare_twice, prompt_found, replay_determinism, snapshot, step_twice, tally, Complaint,
    LogEntry, LogMove, LogReply, LogSearch, LogStep, QaRunner, SnapshotMove, SnapshotReply,
    SnapshotReport, SnapshotSearch, Tally,
};
use crate::runtime::{Prepared, StepOutput};
use crate::text::contains_text;

verus! {

/// A log that was found is used just where it has entries, all of them; anything else is passed
/// over, with words that tell the path and the reason, and in silence where there is no file.
pub proof fn log_with_entries_is_used(path: &str, reply: LogReply, step: LogStep)
    requires
        call_ensures(consider_log, (path, reply), step),
    ensures
        match reply {
            LogReply::Parsed(log) => if log@.len() > 0 {
                step == LogStep::Use(log)
            } else {
                step is Skip && step->Skip_0 is Some && step->Skip_0->0@
                    == "WARN: event log at "@ + path@ + " empty, using fallback"@
            },
            LogReply::Missing => step is Skip && step->Skip_0 is None,
            LogReply::Unreadable(why) => step is Skip && step->Skip_0 is Some && step->Skip_0->0@
                == "WARN: read "@ + path@ + ": "@ + why@,
            LogReply::Unparsable(why) => step is Skip && step->Skip_0 is Some && step->Skip_0->0@
                == "WARN: failed to parse "@ + path@ + ": "@ + why@ + ", using fallback"@,
        },
{
}

/// The log that stands in for a missing one has a message in `Idle`, and one in `Done` after it.
pub proof fn fallback_has_two_messages(log: Vec<LogEntry>)
    requires
        call_ensures(fallback_log, (), log),
    ensures
        log@.len() == 2,
        log@[0].state@ == "Idle"@,
        log@[0].event@ == "UserMsg"@,
        log@[0].history@.len() == 0,
        log@[1].state@ == "Done"@,
        log@[1].event@ == "UserMsg"@,
        log@[1].history@.len() == 1,
        log@[1].history@[0]@ == "UserMsg"@,
{
}

/// The search for a log looks at its three paths one after another.
pub proof fn log_is_looked_for_in_order(
    first: LogSearch,
    first_path: &'static str,
    reply: LogReply,
    second: LogSearch,
    second_path: &'static str,
    next_reply: LogReply,
    third: LogSearch,
    third_path: &'static str,
    last_reply: LogReply,
    last: LogMove,
    warning: Option<String>,
    next_warning: Option<String>,
)
    requires
        call_ensures(LogSearch::start, (), first),
        call_ensures(LogSearch::path, (&first,), first_path),
        call_ensures(LogSearch::answer, (first, reply), LogMove::TryNext(second, warning)),
        call_ensures(LogSearch::path, (&second,), second_path),
        call_ensures(
            LogSearch::answer,
            (second, next_reply),
            LogMove::TryNext(third, next_warning),
        ),
        call_ensures(LogSearch::path, (&third,), third_path),
        call_ensures(LogSearch::answer, (third, last_reply), last),
    ensures
        first_path@ == "tests/fixtures/event-log.json"@,
        second_path@ == "./tests/fixtures/event-log.json"@,
        third_path@ == "caulk/tests/fixtures/event-log.json"@,
        !(last is TryNext),
{
}

/// Whichever path it is at, the search ends with the first log that has entries, all of them; and
/// without one it goes on, and after the last path falls back, with the words for what it found.
pub proof fn search_ends_with_the_first_log(
    search: LogSearch,
    path: &'static str,
    reply: LogReply,
    next: LogMove,
)
    requires
        call_ensures(LogSearch::path, (&search,), path),
        call_ensures(LogSearch::answer, (search, reply), next),
    ensures
        reply is Parsed && reply->Parsed_0@.len() > 0 ==> next == LogMove::Use(reply->Parsed_0),
        !(reply is Parsed && reply->Parsed_0@.len() > 0) ==> !(next is Use),
        next matches LogMove::TryNext(after, _) ==> after.seen() == search.seen().push(reply),
        next matches LogMove::Fallback(log, _) ==> {
            &&& log@.len() == 2
            &&& log@[0].state@ == "Idle"@
            &&& log@[0].event@ == "UserMsg"@
            &&& log@[0].history@.len() == 0
            &&& log@[1].state@ == "Done"@
            &&& log@[1].event@ == "UserMsg"@
            &&& log@[1].history@.len() == 1
            &&& log@[1].history@[0]@ == "UserMsg"@
        },
        ({
            let warning = match next {
                LogMove::TryNext(_, warning) => warning,
                LogMove::Fallback(_, warning) => warning,
                LogMove::Use(_) => None,
            };
            match reply {
                LogReply::Missing => warning is None,
                LogReply::Unreadable(why) => warning is Some && warning->0@ == "WARN: read "@
                    + path@ + ": "@ + why@,
                LogReply::Unparsable(why) => warning is Some && warning->0@
                    == "WARN: failed to parse "@ + path@ + ": "@ + why@ + ", using fallback"@,
                LogReply::Parsed(log) => log@.len() == 0 ==> warning is Some && warning->0@
                    == "WARN: event log at "@ + path@ + " empty, using fallback"@,
            }
        }),
{
}

/// The search for a snapshot looks at its three paths one after another.
pub proof fn snapshot_is_looked_for_in_order(
    first: SnapshotSearch,
    first_path: &'static str,
    reply: SnapshotReply,
    second: SnapshotSearch,
    second_path: &'static str,
    next_reply: SnapshotReply,
    third: SnapshotSearch,
    third_path: &'static str,
    last_reply: SnapshotReply,
    last: SnapshotMove,
    warning: Option<String>,
    next_warning: Option<String>,
)
    requires
        call_ensures(SnapshotSearch::start, (), first),
        call_ensures(SnapshotSearch::path, (&first,), first_path),
        call_ensures(
            SnapshotSearch::answer,
            (first, reply),
            SnapshotMove::TryNext(second, warning),
        ),
        call_ensures(SnapshotSearch::path, (&second,), second_path),
        call_ensures(
            SnapshotSearch::answer,
            (second, next_reply),
            SnapshotMove::TryNext(third, next_warning),
        ),
        call_ensures(SnapshotSearch::path, (&third,), third_path),
        call_ensures(SnapshotSearch::answer, (third, last_reply), last),
    ensures
        first_path@ == "tests/snapshots/hello-world.txt"@,
        second_path@ == "./tests/snapshots/hello-world.txt"@,
        third_path@ == "caulk/tests/snapshots/hello-world.txt"@,
        !(last is TryNext),
{
}

/// Whichever path it is at, the search ends with the first content that could be read, whatever
/// that holds; and without one it goes on, and warns just of a file that cannot be read.
pub proof fn search_ends_with_the_first_snapshot(
    search: SnapshotSearch,
    path: &'static str,
    reply: SnapshotReply,
    next: SnapshotMove,
)
    requires
        call_ensures(SnapshotSearch::path, (&search,), path),
        call_ensures(SnapshotSearch::answer, (search, reply), next),
    ensures
        reply matches SnapshotReply::Content(content) ==> next == SnapshotMove::Use(content),
        !(reply is Content) ==> !(next is Use),
        next matches SnapshotMove::TryNext(after, _) ==> after.seen() == search.seen().push(reply),
        ({
            let warning = match next {
                SnapshotMove::TryNext(_, warning) => warning,
                SnapshotMove::CheckInline(warning) => warning,
                SnapshotMove::Use(_) => None,
            };
            match reply {
                SnapshotReply::Unreadable(why) => warning is Some && warning->0@ == "WARN: read "@
                    + path@ + ": "@ + why@,
                _ => warning is None,
            }
        }),
{
}

/// The registry of the checks has a prompt for a message in `Idle`, `Greeting` and `Done` and for a
/// saved one in `Idle`, and for nothing else.
pub proof fn registry_of_the_checks(
    registry: InMemoryRegistry,
    key: &PromptKey,
    reply: Result<String, FormeError>,
)
    requires
        call_ensures(make_registry, (), registry),
        call_ensures(<InMemoryRegistry as Registry>::get, (&registry, key), reply),
    ensures
        key.state@ == "Idle"@ && key.event@ == "UserMsg"@ ==> reply is Ok && reply->Ok_0@
            == "You are in Idle state, greeting user. You are helpful."@,
        key.state@ == "Greeting"@ && key.event@ == "UserMsg"@ ==> reply is Ok && reply->Ok_0@
            == "You are in Greeting state, respond warmly."@,
        key.state@ == "Done"@ && key.event@ == "UserMsg"@ ==> reply is Ok && reply->Ok_0@
            == "You are in Done state. Summarize and say goodbye."@,
        key.state@ == "Idle"@ && key.event@ == "UserMsg_save"@ ==> reply is Ok && reply->Ok_0@
            == "You are a helpful assistant in Idle state. Greet the user warmly."@,
        reply is Ok <==> {
            ||| key.event@ == "UserMsg"@ && (key.state@ == "Idle"@ || key.state@ == "Greeting"@
                || key.state@ == "Done"@)
            ||| key.event@ == "UserMsg_save"@ && key.state@ == "Idle"@
        },
{
    reveal_strlit("Idle");
    reveal_strlit("Greeting");
    reveal_strlit("Done");
    reveal_strlit("UserMsg");
    reveal_strlit("UserMsg_save");
    assert("Idle"@[0] == 'I' && "Done"@[0] == 'D');
    assert("Greeting"@.len() == 8 && "Idle"@.len() == 4 && "Done"@.len() == 4);
    assert("UserMsg"@.len() == 7 && "UserMsg_save"@.len() == 12);
}

/// Every step that the runner of the checks takes to its end is answered with the one greeting,
/// lists no tool and has no context.
pub proof fn runner_of_the_checks_greets(
    runner: QaRunner,
    state: &String,
    event: &String,
    history: &[String],
    reply: Result<StepOutput<String>, FormeError>,
)
    requires
        call_ensures(make_runner, (), runner),
        call_ensures(QaRunner::step, (&runner, state, event, history), reply),
    ensures
        reply matches Ok(out) ==> {
            &&& out.llm_response@ == "Hello from caulk! This is canned reply."@
            &&& out.context@.len() == 0
            &&& out.tool_plan.allowed@.len() == 0
        },
        reply matches Err(e) ==> e is RegistryNotFound,
{
}

/// A preparation is complained of just where it failed, with the error, or its prompt is empty, and
/// the complaint names the key.
pub proof fn empty_prompts_are_complained_of(
    key: PromptKey,
    reply: Result<Prepared, FormeError>,
    found: Option<Complaint>,
)
    requires
        call_ensures(judge_preparation, (key, reply), found),
    ensures
        match reply {
            Ok(prepared) => {
                &&& found is Some <==> prepared.prompt@.len() == 0
                &&& found is Some ==> found->0 is EmptyPrompt && found->0->EmptyPrompt_0.state@
                    == key.state@ && found->0->EmptyPrompt_0.event@ == key.event@
            },
            Err(e) => {
                &&& found matches Some(Complaint::PrepareFailed(k, why))
                &&& k.state@ == key.state@
                &&& k.event@ == key.event@
                &&& why == e
            },
        },
{
}

/// Where strings show themselves, an entry is complained of just where the registry has no prompt
/// for its state and event, or an empty one, and the complaint names them.
pub proof fn entry_without_a_prompt_is_complained_of(
    runner: &QaRunner,
    entry: &LogEntry,
    found: Option<Complaint>,
    registry: &InMemoryRegistry,
    key: &PromptKey,
    reply: Result<String, FormeError>,
)
    requires
        qa::strings_show_themselves(),
        call_ensures(find_prompt, (runner, entry), found),
        call_ensures(QaRunner::registry, (runner,), registry),
        key.state@ == entry.state@,
        key.event@ == entry.event@,
        call_ensures(<InMemoryRegistry as Registry>::get, (registry, key), reply),
    ensures
        found is None <==> reply is Ok && reply->Ok_0@.len() > 0,
        reply is Err ==> {
            &&& found matches Some(Complaint::RegistryMiss(k, _))
            &&& k.state@ == entry.state@
            &&& k.event@ == entry.event@
        },
        reply is Ok && reply->Ok_0@.len() == 0 ==> {
            &&& found matches Some(Complaint::EmptyPrompt(k))
            &&& k.state@ == entry.state@
            &&& k.event@ == entry.event@
        },
{
    assert(key@ == entry.key());
}

/// All that was found is kept, in the order in which it was found, and nothing else.
pub proof fn complaints_are_kept_in_order(found: Seq<Option<Complaint>>)
    ensures
        qa::complaints_in(found) == found.filter(|c: Option<Complaint>| c is Some).map_values(
            |c: Option<Complaint>| c->0,
        ),
    decreases found.len(),
{
    reveal(Seq::filter);
    let kept = found.filter(|c: Option<Complaint>| c is Some);
    if found.len() > 0 {
        complaints_are_kept_in_order(found.drop_last());
    }
    assert(qa::complaints_in(found) =~= kept.map_values(|c: Option<Complaint>| c->0));
}

/// There are no complaints just where there was nothing to complain of at any place.
proof fn no_complaints_where_none_is_found(found: Seq<Option<Complaint>>)
    ensures
        qa::complaints_in(found).len() <= found.len(),
        qa::complaints_in(found).len() == 0 <==> forall|i: int|
            0 <= i < found.len() ==> (#[trigger] found[i]) is None,
    decreases found.len(),
{
    if found.len() > 0 {
        let init = found.drop_last();
        no_complaints_where_none_is_found(init);
        if qa::complaints_in(found).len() == 0 {
            assert forall|i: int| 0 <= i < found.len() implies (#[trigger] found[i]) is None by {
                if i < init.len() {
                    assert(init[i] == found[i]);
                }
            }
        }
        if forall|i: int| 0 <= i < found.len() ==> (#[trigger] found[i]) is None {
            assert(found[found.len() - 1] is None);
            assert forall|i: int| 0 <= i < init.len() implies (#[trigger] init[i]) is None by {
                assert(init[i] == found[i]);
            }
        }
    }
}

/// Where strings show themselves, the prompts of a log are all found just where the registry has a
/// prompt that is not empty for every entry, however many there are.
pub proof fn all_prompts_are_found(runner: &QaRunner, log: &[LogEntry], complaints: Vec<Complaint>)
    requires
        qa::strings_show_themselves(),
        call_ensures(prompt_found, (runner, log), complaints),
    ensures
        complaints@.len() <= log@.len(),
        complaints@.len() == 0 <==> forall|i: int|
            0 <= i < log@.len() ==> {
                &&& runner.the_registry()@.contains_key((#[trigger] log@[i]).key())
                &&& runner.the_registry()@[log@[i].key()].len() > 0
            },
{
    let found = choose|found: Seq<Option<Complaint>>| #[trigger]
        qa::complaints_in(found) == complaints@ && found.len() == log@.len() && forall|i: int|
            0 <= i < log@.len() ==> {
                &&& qa::looks_for_prompt(runner, #[trigger] log@[i], found[i])
                &&& qa::strings_show_themselves() ==> qa::prompt_complaint(
                    runner.the_registry()@,
                    log@[i].key(),
                    found[i],
                )
            };
    no_complaints_where_none_is_found(found);
    let prompts = runner.the_registry()@;
    if complaints@.len() == 0 {
        assert forall|i: int| 0 <= i < log@.len() implies {
            &&& prompts.contains_key((#[trigger] log@[i]).key())
            &&& prompts[log@[i].key()].len() > 0
        } by {
            assert(found[i] is None);
        }
    }
    if forall|i: int|
        0 <= i < log@.len() ==> {
            &&& prompts.contains_key((#[trigger] log@[i]).key())
            &&& prompts[log@[i].key()].len() > 0
        } {
        assert forall|i: int| 0 <= i < found.len() implies (#[trigger] found[i]) is None by {
            assert(prompts.contains_key(log@[i].key()));
        }
    }
}

/// The check of a policy passes just where the list does not name the one tool and names the other.
pub proof fn policy_check_goes_by_the_list(
    list: Vec<ToolId>,
    policy: AllowListPolicy,
    state: &String,
    denied: &ToolId,
    allowed: &ToolId,
    ok: bool,
    fixed: bool,
)
    requires
        call_ensures(AllowListPolicy::new, (list,), policy),
        call_ensures(policy_denies, (&policy, state, denied, allowed), ok),
        call_ensures(policy_deny, (), fixed),
    ensures
        ok <==> {
            &&& forall|i: int| 0 <= i < list@.len() ==> (#[trigger] list@[i]).0@ != denied.0@
            &&& exists|i: int| 0 <= i < list@.len() && (#[trigger] list@[i]).0@ == allowed.0@
        },
        fixed,
{
    tools::named_somewhere(list@, denied.0@);
    tools::named_somewhere(list@, allowed.0@);
}

/// Two preparations pass the comparison just where both succeeded with the same key, prompt,
/// context and tools, or both failed with the same message; and a complaint carries what differs.
pub proof fn prepared_outputs_are_compared_whole(
    key: PromptKey,
    first: Result<Prepared, FormeError>,
    second: Result<Prepared, FormeError>,
    found: Option<Complaint>,
)
    requires
        call_ensures(compare_prepared, (key, first, second), found),
    ensures
        match (first, second) {
            (Ok(a), Ok(b)) => {
                &&& found is None <==> a.key.state@ == b.key.state@ && a.key.event@ == b.key.event@
                    && a.prompt@ == b.prompt@ && a.context@ == b.context@ && a.tool_plan@
                    == b.tool_plan@
                &&& found is Some ==> {
                    &&& found matches Some(Complaint::PreparedDiffers(k, x, y))
                    &&& k.state@ == key.state@
                    &&& k.event@ == key.event@
                    &&& x == a
                    &&& y == b
                }
            },
            (Err(a), Err(b)) => {
                &&& found is None <==> a@.message() == b@.message()
                &&& found is Some ==> found == Some(Complaint::ErrorsDiffer(a, b))
            },
            (Ok(_), Err(e)) => found == Some(Complaint::OneFailed(e)),
            (Err(e), Ok(_)) => found == Some(Complaint::OneFailed(e)),
        },
{
}

/// Two steps are complained of just where both succeeded and their answers or prompts differ.
pub proof fn steps_are_compared_by_answer_and_prompt(
    key: PromptKey,
    first: &Result<StepOutput<String>, FormeError>,
    second: &Result<StepOutput<String>, FormeError>,
    found: Option<Complaint>,
)
    requires
        call_ensures(compare_steps, (key, first, second), found),
    ensures
        found is Some <==> first is Ok && second is Ok && (first->Ok_0.llm_response@
            != second->Ok_0.llm_response@ || first->Ok_0.prompt@ != second->Ok_0.prompt@),
        found is Some ==> {
            &&& found->0 is StepDiffers
            &&& found->0->StepDiffers_0.state@ == key.state@
            &&& found->0->StepDiffers_0.event@ == key.event@
        },
{
}

/// Where strings are always shown in the same way, the runner of the checks replays every log
/// without a complaint, and every entry of it.
pub proof fn runner_of_the_checks_replays(
    runner: QaRunner,
    log: &[LogEntry],
    complaints: Vec<Complaint>,
    entry: &LogEntry,
    prepared: Option<Complaint>,
    stepped: Option<Complaint>,
)
    requires
        kernel::stable::<String>(),
        call_ensures(make_runner, (), runner),
        call_ensures(replay_determinism, (&runner, log), complaints),
        call_ensures(prepare_twice, (&runner, entry), prepared),
        call_ensures(step_twice, (&runner, entry), stepped),
    ensures
        complaints@.len() == 0,
        prepared is None,
        stepped is None,
{
}

/// A snapshot is plausible where it has more than ten bytes and one of the words is found in it, or
/// it has more than fifty; the step of the example counts for it where it is not empty; and it is
/// accepted where both hold.
pub proof fn snapshot_is_judged_by_words_and_length(
    content: &str,
    lowered: &str,
    example: bool,
    report: SnapshotReport,
    lower_idle: bool,
    idle: bool,
    prompt: bool,
    greeting: bool,
    lower_greeting: bool,
    name: bool,
    ok: bool,
)
    requires
        call_ensures(judge_snapshot, (content, lowered, example), report),
        call_ensures(contains_text, (lowered, "idle"), lower_idle),
        call_ensures(contains_text, (content, "Idle"), idle),
        call_ensures(contains_text, (content, "prompt"), prompt),
        call_ensures(contains_text, (content, "Hello"), greeting),
        call_ensures(contains_text, (content, "hello"), lower_greeting),
        call_ensures(contains_text, (content, "caulk"), name),
        call_ensures(SnapshotReport::accepted, (&report,), ok),
    ensures
        report.len == vstd::utf8::encode_utf8(content@).len() as usize,
        report.has_idle <==> lower_idle || idle,
        report.plausible <==> report.len > 10 && (lower_idle || idle || prompt || greeting
            || lower_greeting || name || report.len > 50),
        report.sim_ok <==> example && report.len > 0,
        ok <==> report.plausible && report.sim_ok,
{
}

/// A snapshot is judged with its own text in lower case, and where strings show themselves its
/// step of the example counts, so that two reports on it are the same.
pub proof fn snapshot_is_judged_as_it_is(
    content: &str,
    report: SnapshotReport,
    again: SnapshotReport,
    judged: SnapshotReport,
    lowered: &str,
)
    requires
        call_ensures(snapshot, (content,), report),
        call_ensures(snapshot, (content,), again),
        lowered@ == qa::lower_case(content@),
        call_ensures(judge_snapshot, (content, lowered, true), judged),
    ensures
        report.len == judged.len,
        report.has_idle == judged.has_idle,
        report.plausible == judged.plausible,
        qa::strings_show_themselves() ==> report == judged,
        qa::strings_show_themselves() ==> report == again,
{
}

/// Where strings show themselves, the key of the example is as expected.
pub proof fn example_key_is_as_expected(ok: bool)
    requires
        qa::strings_show_themselves(),
        call_ensures(inline_check, (), ok),
    ensures
        ok,
{
}

/// No result is counted as failed just where all of them passed.
proof fn none_failed_where_all_passed(results: Seq<bool>)
    ensures
        qa::count(results, false) == 0 <==> forall|i: int|
            0 <= i < results.len() ==> #[trigger] results[i],
    decreases results.len(),
{
    reveal(Seq::filter);
    if results.len() > 0 {
        let init = results.drop_last();
        none_failed_where_all_passed(init);
        if qa::count(results, false) == 0 {
            assert forall|i: int| 0 <= i < results.len() implies #[trigger] results[i] by {
                if i < init.len() {
                    assert(init[i] == results[i]);
                }
            }
        }
        if forall|i: int| 0 <= i < results.len() ==> #[trigger] results[i] {
            assert(results[results.len() - 1]);
            assert forall|i: int| 0 <= i < init.len() implies #[trigger] init[i] by {
                assert(init[i] == results[i]);
            }
        }
    }
}

/// Every result is counted once: with one result more, one of the two numbers is one more, and the
/// checks passed as a whole just where each of them did.
pub proof fn every_result_is_counted(
    results: &[bool],
    t: Tally,
    more: &[bool],
    last: bool,
    more_tally: Tally,
    ok: bool,
    none: &[bool],
    none_tally: Tally,
)
    requires
        call_ensures(tally, (results,), t),
        more@ == results@.push(last),
        call_ensures(tally, (more,), more_tally),
        call_ensures(Tally::all_passed, (&t,), ok),
        none@.len() == 0,
        call_ensures(tally, (none,), none_tally),
    ensures
        more_tally.passed == t.passed + (if last {
            1int
        } else {
            0int
        }),
        more_tally.failed == t.failed + (if last {
            0int
        } else {
            1int
        }),
        t.passed + t.failed == results@.len(),
        none_tally.passed == 0,
        none_tally.failed == 0,
        ok <==> forall|i: int| 0 <= i < results@.len() ==> #[trigger] results@[i],
{
    reveal(Seq::filter);
    assert(more@.drop_last() =~= results@);
    none_failed_where_all_passed(results@);
}

/// Strings show themselves just where `Display` never writes anything for a string but the string.
pub proof fn strings_show_themselves_by_display()
    ensures
        qa::strings_show_themselves() <==> forall|s: &String, shown: String|
            #[trigger] vstd::string::to_string_from_display_ensures(s, shown) ==> shown@ == s@,
        qa::strings_show_themselves() ==> kernel::stable::<String>(),
{
    if qa::strings_show_themselves() {
        assert forall|s: &String, shown: String|
            #[trigger] vstd::string::to_string_from_display_ensures(s, shown) implies shown@
            == s@ by {
            assert(kernel::shows(s, shown@));
        }
    }
}

} // verus!
