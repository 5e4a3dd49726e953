//! The kernel: states and events, the key of a prompt, the name of a tool, and the errors.

use std::fmt;
use std::hash::Hash;

use vstd::prelude::*;

use crate::show::write_text;
use crate::text;
use crate::text::IntoText;

verus! {

/// An event of the machine that a program defines.
///
/// Every type with these traits is one. What `Display` writes is the event's part of a
/// [`PromptKey`], so it has to be stable.
pub trait Event: Clone + fmt::Debug + fmt::Display + Send + Sync + 'static {

}

impl<T> Event for T where T: Clone + fmt::Debug + fmt::Display + Send + Sync + 'static {

}

/// A state of the machine that a program defines.
///
/// Every type with these traits is one. What `Display` writes, such as `"Idle"`, is the state's
/// part of a [`PromptKey`], so it has to be stable.
pub trait State: Clone + fmt::Debug + fmt::Display + Eq + Hash + Send + Sync + 'static {

}

impl<T> State for T where
    T: Clone + fmt::Debug + fmt::Display + Eq + Hash + Send + Sync + 'static,
 {

}

/// Whether `Display` may write `label` for the value.
pub open spec fn shows<T: fmt::Display>(value: &T, label: Seq<char>) -> bool {
    exists|s: String| #[trigger]
        vstd::string::to_string_from_display_ensures(value, s) && s@ == label
}

/// `Display` is stable for the type: it writes one text for each value.
pub open spec fn stable<T: fmt::Display>() -> bool {
    forall|value: &T, left: Seq<char>, right: Seq<char>| #[trigger]
        shows(value, left) && #[trigger] shows(value, right) ==> left == right
}

/// What `Display` writes for a value.
pub(crate) fn label<T: fmt::Display>(value: &T) -> (s: String)
    ensures
        shows(value, s@),
{
    value.to_string()
}

/// What a [`PromptKey`] holds.
pub struct PromptKeyView {
    pub state: Seq<char>,
    pub event: Seq<char>,
}

impl PromptKeyView {
    /// The canonical text of the key: `state::event`.
    pub open spec fn canonical(self) -> Seq<char> {
        self.state + "::"@ + self.event
    }
}

/// Whether the key may stand for a state and an event: its parts are what `Display` writes for
/// them.
pub open spec fn keyed<S: State, E: Event>(state: &S, event: &E, key: PromptKeyView) -> bool {
    shows(state, key.state) && shows(event, key.event)
}

/// The key of a prompt: a state and an event, both as text.
///
/// Either part may be empty, though stable names that are not empty are to be preferred.
#[derive(Debug, Eq, Hash)]
pub struct PromptKey {
    pub state: String,
    pub event: String,
}

impl View for PromptKey {
    type V = PromptKeyView;

    open spec fn view(&self) -> PromptKeyView {
        PromptKeyView { state: self.state@, event: self.event@ }
    }
}

impl PartialEq for PromptKey {
    fn eq(&self, other: &Self) -> (same: bool) {
        self.state == other.state && self.event == other.event
    }
}

impl vstd::std_specs::cmp::PartialEqSpecImpl for PromptKey {
    open spec fn obeys_eq_spec() -> bool {
        true
    }

    open spec fn eq_spec(&self, other: &Self) -> bool {
        self.state@ == other.state@ && self.event@ == other.event@
    }
}

impl Clone for PromptKey {
    fn clone(&self) -> (copy: Self)
        ensures
            copy == *self,
    {
        PromptKey { state: self.state.clone(), event: self.event.clone() }
    }
}

impl PromptKey {
    /// A key with the given parts, taken as they are.
    pub fn new<T: IntoText, U: IntoText>(state: T, event: U) -> (key: Self)
        ensures
            key@ == (PromptKeyView { state: state.text(), event: event.text() }),
    {
        PromptKey { state: state.into_text(), event: event.into_text() }
    }

    /// The key of a state and an event, made of what `Display` writes for them.
    pub fn key_for<S: State, E: Event>(state: &S, event: &E) -> (key: Self)
        ensures
            keyed(state, event, key@),
    {
        PromptKey { state: label(state), event: label(event) }
    }

    /// The canonical text `state::event`, for logs and metrics.
    pub fn canonical(&self) -> (s: String)
        ensures
            s@ == self@.canonical(),
    {
        let mut s = self.state.clone();
        s.append("::");
        s.append(self.event.as_str());
        s
    }

    /// The key as text, which is its canonical text.
    pub fn to_string(&self) -> (s: String)
        ensures
            s@ == self@.canonical(),
    {
        self.canonical()
    }
}

/// Shows a key by its canonical text.
impl fmt::Display for PromptKey {
    fn fmt(&self, f: &mut fmt::Formatter<'_>) -> (reply: fmt::Result) {
        write_text(f, self.canonical().as_str())
    }
}

impl From<(String, String)> for PromptKey {
    fn from(parts: (String, String)) -> (key: Self) {
        PromptKey { state: parts.0, event: parts.1 }
    }
}

impl vstd::std_specs::convert::FromSpecImpl<(String, String)> for PromptKey {
    open spec fn obeys_from_spec() -> bool {
        true
    }

    open spec fn from_spec(parts: (String, String)) -> Self {
        PromptKey { state: parts.0, event: parts.1 }
    }
}

impl<'a> From<(&'a str, &'a str)> for PromptKey {
    fn from(parts: (&'a str, &'a str)) -> (key: Self)
        ensures
            key@ == (PromptKeyView { state: parts.0@, event: parts.1@ }),
    {
        PromptKey { state: parts.0.to_string(), event: parts.1.to_string() }
    }
}

impl<'a> vstd::std_specs::convert::FromSpecImpl<(&'a str, &'a str)> for PromptKey {
    open spec fn obeys_from_spec() -> bool {
        false
    }

    open spec fn from_spec(parts: (&'a str, &'a str)) -> Self {
        arbitrary()
    }
}

/// The name of a tool, such as `"write_code"`.
#[derive(Debug, Eq, Hash)]
pub struct ToolId(pub String);

impl View for ToolId {
    type V = Seq<char>;

    open spec fn view(&self) -> Seq<char> {
        self.0@
    }
}

impl PartialEq for ToolId {
    fn eq(&self, other: &Self) -> (same: bool) {
        self.0 == other.0
    }
}

impl vstd::std_specs::cmp::PartialEqSpecImpl for ToolId {
    open spec fn obeys_eq_spec() -> bool {
        true
    }

    open spec fn eq_spec(&self, other: &Self) -> bool {
        self.0@ == other.0@
    }
}

impl Clone for ToolId {
    fn clone(&self) -> (copy: Self)
        ensures
            copy == *self,
    {
        ToolId(self.0.clone())
    }
}

impl ToolId {
    /// The name as an owned string.
    pub fn to_string(&self) -> (s: String)
        ensures
            s@ == self@,
    {
        self.0.clone()
    }

}

/// Shows a tool by its name.
impl fmt::Display for ToolId {
    fn fmt(&self, f: &mut fmt::Formatter<'_>) -> (reply: fmt::Result) {
        write_text(f, self.0.as_str())
    }
}

impl AsRef<str> for ToolId {
    /// The name.
    fn as_ref(&self) -> (s: &str)
        ensures
            s@ == self@,
            s@ == self.0@,
    {
        self.0.as_str()
    }
}

impl From<String> for ToolId {
    fn from(name: String) -> (tool: Self) {
        ToolId(name)
    }
}

impl vstd::std_specs::convert::FromSpecImpl<String> for ToolId {
    open spec fn obeys_from_spec() -> bool {
        true
    }

    open spec fn from_spec(name: String) -> Self {
        ToolId(name)
    }
}

impl<'a> From<&'a str> for ToolId {
    fn from(name: &'a str) -> (tool: Self)
        ensures
            tool@ == name@,
    {
        ToolId(name.to_string())
    }
}

impl<'a> vstd::std_specs::convert::FromSpecImpl<&'a str> for ToolId {
    open spec fn obeys_from_spec() -> bool {
        false
    }

    open spec fn from_spec(name: &'a str) -> Self {
        arbitrary()
    }
}

/// What a [`FormeError`] holds.
pub enum FormeErrorView {
    RegistryNotFound(PromptKeyView),
    ContextBuildFailed(Seq<char>),
    PolicyDenied(Seq<char>),
    PersistenceFailed(Seq<char>),
    LlmFailed(Seq<char>),
    InvalidInput(Seq<char>),
}

impl FormeErrorView {
    /// The words with which the message of the error starts.
    pub open spec fn prefix(self) -> Seq<char> {
        match self {
            FormeErrorView::RegistryNotFound(_) => "prompt not found for "@,
            FormeErrorView::ContextBuildFailed(_) => "context build failed: "@,
            FormeErrorView::PolicyDenied(_) => "policy denied tool "@,
            FormeErrorView::PersistenceFailed(_) => "persistence failed: "@,
            FormeErrorView::LlmFailed(_) => "llm call failed: "@,
            FormeErrorView::InvalidInput(_) => "invalid input: "@,
        }
    }

    /// What the error tells beyond its kind: the key, the tool or the reason.
    pub open spec fn payload(self) -> Seq<char> {
        match self {
            FormeErrorView::RegistryNotFound(key) => key.canonical(),
            FormeErrorView::ContextBuildFailed(reason) => reason,
            FormeErrorView::PolicyDenied(tool) => tool,
            FormeErrorView::PersistenceFailed(reason) => reason,
            FormeErrorView::LlmFailed(reason) => reason,
            FormeErrorView::InvalidInput(reason) => reason,
        }
    }

    /// The message of the error.
    pub open spec fn message(self) -> Seq<char> {
        self.prefix() + self.payload()
    }
}

/// The error of every part of the library: data only.
#[derive(Debug)]
pub enum FormeError {
    /// No prompt is known for the key.
    RegistryNotFound(PromptKey),
    /// The context could not be built.
    ContextBuildFailed(String),
    /// The policy does not let the tool run.
    PolicyDenied(ToolId),
    /// Something could not be stored or read back.
    PersistenceFailed(String),
    /// The call of the language model failed.
    LlmFailed(String),
    /// The input is not usable.
    InvalidInput(String),
}

impl View for FormeError {
    type V = FormeErrorView;

    open spec fn view(&self) -> FormeErrorView {
        match self {
            FormeError::RegistryNotFound(key) => FormeErrorView::RegistryNotFound(key@),
            FormeError::ContextBuildFailed(reason) => FormeErrorView::ContextBuildFailed(reason@),
            FormeError::PolicyDenied(tool) => FormeErrorView::PolicyDenied(tool@),
            FormeError::PersistenceFailed(reason) => FormeErrorView::PersistenceFailed(reason@),
            FormeError::LlmFailed(reason) => FormeErrorView::LlmFailed(reason@),
            FormeError::InvalidInput(reason) => FormeErrorView::InvalidInput(reason@),
        }
    }
}

impl FormeError {
    /// Whether a prompt was missing.
    pub fn is_not_found(&self) -> (b: bool)
        ensures
            b == (self@ is RegistryNotFound),
    {
        matches!(self, FormeError::RegistryNotFound(_))
    }

    /// Whether the policy refused a tool.
    pub fn is_denied(&self) -> (b: bool)
        ensures
            b == (self@ is PolicyDenied),
    {
        matches!(self, FormeError::PolicyDenied(_))
    }

    /// The message of the error: what failed, then the key, the tool or the reason.
    pub fn to_string(&self) -> (s: String)
        ensures
            s@ == self@.message(),
    {
        match self {
            FormeError::RegistryNotFound(key) => {
                "prompt not found for ".to_string().concat(key.canonical().as_str())
            },
            FormeError::ContextBuildFailed(reason) => {
                "context build failed: ".to_string().concat(reason.as_str())
            },
            FormeError::PolicyDenied(tool) => {
                "policy denied tool ".to_string().concat(tool.0.as_str())
            },
            FormeError::PersistenceFailed(reason) => {
                "persistence failed: ".to_string().concat(reason.as_str())
            },
            FormeError::LlmFailed(reason) => {
                "llm call failed: ".to_string().concat(reason.as_str())
            },
            FormeError::InvalidInput(reason) => {
                "invalid input: ".to_string().concat(reason.as_str())
            },
        }
    }
}

/// Shows an error by its message.
impl fmt::Display for FormeError {
    fn fmt(&self, f: &mut fmt::Formatter<'_>) -> (reply: fmt::Result) {
        write_text(f, self.to_string().as_str())
    }
}

impl std::error::Error for FormeError {

}

/// What a reply holds, a text or an error.
pub open spec fn reply_view(reply: Result<String, FormeError>) -> Result<
    Seq<char>,
    FormeErrorView,
> {
    match reply {
        Ok(s) => Ok(s@),
        Err(e) => Err(e@),
    }
}

/// Every error names in its message what it is about: the key, the tool or the reason.
pub proof fn message_names_payload(e: FormeErrorView)
    ensures
        text::occurs_in(e.payload(), e.message()),
{
    text::middle_occurs(e.prefix(), e.payload(), Seq::empty());
    assert(e.prefix() + e.payload() + Seq::empty() =~= e.message());
}

} // verus!
