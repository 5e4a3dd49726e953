//! Keys of prompts, names of tools, errors and texts.

use vstd::prelude::*;

use crate::kernel;
use crate::kernel::{Event, FormeError, PromptKey, State, ToolId};
use crate::text;
use crate::text::{contains_text, IntoText};

verus! {

/// Texts are handed over character by character, of whichever kind they are.
pub proof fn texts_are_kept(
    owned: String,
    from_owned: String,
    slice: &str,
    from_slice: String,
    lent: &String,
    from_lent: String,
)
    requires
        call_ensures(<String as IntoText>::into_text, (owned,), from_owned),
        call_ensures(<&str as IntoText>::into_text, (slice,), from_slice),
        call_ensures(<&String as IntoText>::into_text, (lent,), from_lent),
    ensures
        from_owned@ == owned@,
        from_slice@ == slice@,
        from_lent@ == lent@,
{
}

/// The text that a value stands for is the value itself.
pub proof fn text_is_the_value(owned: String, slice: &str, lent: &String)
    ensures
        owned.text() == owned@,
        slice.text() == slice@,
        lent.text() == lent@,
{
}

/// A text is found in another just where its characters stand there, one after another.
pub proof fn search_finds_what_stands_there(hay: &str, needle: &str, found: bool)
    requires
        call_ensures(contains_text, (hay, needle), found),
    ensures
        found <==> exists|at: int|
            0 <= at && at + needle@.len() <= hay@.len() && #[trigger] hay@.subrange(
                at,
                at + needle@.len(),
            ) == needle@,
{
    if found {
        let at = choose|at: int| text::stands_at(needle@, hay@, at);
        assert(hay@.subrange(at, at + needle@.len()) == needle@);
    }
    assert forall|at: int|
        0 <= at && at + needle@.len() <= hay@.len() && #[trigger] hay@.subrange(
            at,
            at + needle@.len(),
        ) == needle@ implies found by {
        assert(text::stands_at(needle@, hay@, at));
    }
}

/// Every text is found in itself and around whatever it stands in, and the empty one everywhere.
pub proof fn search_finds_parts(
    hay: &str,
    needle: &str,
    before: Seq<char>,
    after: Seq<char>,
    found: bool,
)
    requires
        call_ensures(contains_text, (hay, needle), found),
    ensures
        hay@ == before + needle@ + after ==> found,
        hay@ == needle@ ==> found,
        needle@.len() == 0 ==> found,
        needle@.len() > hay@.len() ==> !found,
{
    search_finds_what_stands_there(hay, needle, found);
    let at = before.len() as int;
    if hay@ == before + needle@ + after {
        assert(hay@.subrange(at, at + needle@.len()) =~= needle@);
    }
    if hay@ == needle@ || needle@.len() == 0 {
        assert(hay@.subrange(0int, 0int + needle@.len()) =~= needle@);
    }
}

/// A key is made of the two parts as they are given, in that order.
pub proof fn key_has_the_parts(
    state: &str,
    event: &str,
    made: PromptKey,
    owned: (String, String),
    taken: PromptKey,
    copied: PromptKey,
)
    requires
        call_ensures(PromptKey::new::<&str, &str>, (state, event), made),
        call_ensures(<PromptKey as From<(String, String)>>::from, (owned,), taken),
        call_ensures(<PromptKey as From<(&str, &str)>>::from, ((state, event),), copied),
    ensures
        made.state@ == state@,
        made.event@ == event@,
        taken.state@ == owned.0@,
        taken.event@ == owned.1@,
        copied.state@ == state@,
        copied.event@ == event@,
{
}

/// The key of a state and an event has as its parts what `Display` writes for the state and for
/// the event.
pub proof fn key_for_shows_state_and_event<S: State, E: Event>(state: &S, event: &E, key: PromptKey)
    requires
        call_ensures(PromptKey::key_for::<S, E>, (state, event), key),
    ensures
        exists|s: String|
            #[trigger] vstd::string::to_string_from_display_ensures(state, s) && s@ == key.state@,
        exists|s: String|
            #[trigger] vstd::string::to_string_from_display_ensures(event, s) && s@ == key.event@,
{
}

/// The canonical text of a key is its state, two colons and its event, and the key as text is
/// the same.
pub proof fn canonical_text_joins_the_parts(key: &PromptKey, canonical: String, shown: String)
    requires
        call_ensures(PromptKey::canonical, (key,), canonical),
        call_ensures(PromptKey::to_string, (key,), shown),
    ensures
        canonical@ == key.state@ + seq![':', ':'] + key.event@,
        shown@ == key.state@ + seq![':', ':'] + key.event@,
{
    reveal_strlit("::");
    assert("::"@ =~= seq![':', ':']);
}

/// Keys without a colon in their states are told apart by their canonical texts.
pub proof fn canonical_texts_tell_keys_apart(
    left: &PromptKey,
    right: &PromptKey,
    left_text: String,
    right_text: String,
)
    requires
        !left.state@.contains(':'),
        !right.state@.contains(':'),
        call_ensures(PromptKey::canonical, (left,), left_text),
        call_ensures(PromptKey::canonical, (right,), right_text),
        left_text@ == right_text@,
    ensures
        left.state@ == right.state@,
        left.event@ == right.event@,
{
    reveal_strlit("::");
    let whole = left_text@;
    let m = left.state@.len() as int;
    let n = right.state@.len() as int;
    assert(whole[m] == ':' && whole[n] == ':');
    if m < n {
        assert(right.state@[m] == whole[m]);
    }
    if n < m {
        assert(left.state@[n] == whole[n]);
    }
    assert(left.state@ =~= whole.take(m));
    assert(right.state@ =~= whole.take(m));
    assert(left.event@ =~= whole.skip(m + 2));
    assert(right.event@ =~= whole.skip(m + 2));
}

/// Two keys are equal just where both parts are, and a copy is equal to what it was copied from.
pub proof fn keys_are_equal_by_both_parts(
    left: &PromptKey,
    right: &PromptKey,
    same: bool,
    copy: PromptKey,
)
    requires
        call_ensures(<PromptKey as PartialEq>::eq, (left, right), same),
        call_ensures(<PromptKey as Clone>::clone, (left,), copy),
    ensures
        same <==> left.state@ == right.state@ && left.event@ == right.event@,
        copy.state@ == left.state@,
        copy.event@ == left.event@,
{
}

/// A tool is its name, whole: made from it, shown by it, copied with it and compared by it.
pub proof fn tool_is_its_name(
    owned: String,
    from_owned: ToolId,
    slice: &str,
    from_slice: ToolId,
    tool: &ToolId,
    shown: String,
    copy: ToolId,
    other: &ToolId,
    same: bool,
)
    requires
        call_ensures(<ToolId as From<String>>::from, (owned,), from_owned),
        call_ensures(<ToolId as From<&str>>::from, (slice,), from_slice),
        call_ensures(ToolId::to_string, (tool,), shown),
        call_ensures(<ToolId as Clone>::clone, (tool,), copy),
        call_ensures(<ToolId as PartialEq>::eq, (tool, other), same),
    ensures
        from_owned.0@ == owned@,
        from_slice.0@ == slice@,
        shown@ == tool.0@,
        copy.0@ == tool.0@,
        same <==> tool.0@ == other.0@,
{
}

/// The message of an error starts with the words of its kind, and the rest of it is the reason,
/// the name of the tool or the canonical text of the key, with nothing left out.
pub proof fn message_is_words_and_subject(e: &FormeError, message: String)
    requires
        call_ensures(FormeError::to_string, (e,), message),
    ensures
        match e {
            FormeError::RegistryNotFound(key) => message@ == "prompt not found for "@ + (
            key.state@ + "::"@ + key.event@),
            FormeError::ContextBuildFailed(reason) => message@ == "context build failed: "@
                + reason@,
            FormeError::PolicyDenied(tool) => message@ == "policy denied tool "@ + tool.0@,
            FormeError::PersistenceFailed(reason) => message@ == "persistence failed: "@ + reason@,
            FormeError::LlmFailed(reason) => message@ == "llm call failed: "@ + reason@,
            FormeError::InvalidInput(reason) => message@ == "invalid input: "@ + reason@,
        },
{
}

/// An error is one of a missing prompt, or one of a refused tool, just where it is of that kind.
pub proof fn errors_tell_their_kind(e: &FormeError, missing: bool, denied: bool)
    requires
        call_ensures(FormeError::is_not_found, (e,), missing),
        call_ensures(FormeError::is_denied, (e,), denied),
    ensures
        missing <==> e is RegistryNotFound,
        denied <==> e is PolicyDenied,
        !(missing && denied),
{
}

/// Showing a type is stable just where `Display` never writes two texts for one value.
pub proof fn stable_types_have_one_text<T: std::fmt::Display>()
    ensures
        kernel::stable::<T>() <==> forall|value: &T, left: String, right: String|
            #[trigger] vstd::string::to_string_from_display_ensures(value, left)
                && #[trigger] vstd::string::to_string_from_display_ensures(value, right)
                ==> left@ == right@,
{
    if kernel::stable::<T>() {
        assert forall|value: &T, left: String, right: String|
            #[trigger] vstd::string::to_string_from_display_ensures(value, left)
                && #[trigger] vstd::string::to_string_from_display_ensures(value, right) implies
            left@ == right@ by {
            assert(kernel::shows(value, left@));
            assert(kernel::shows(value, right@));
        }
    }
}

} // verus!
