//! Which tools may run in which state.
//!
//! [`AllowAllPolicy`] and [`DenyListPolicy`] list no tool in `allowed`, which stands for "all":
//! the tools that they let run cannot be listed. What may run is what `check` says.

use std::fmt;

use vstd::prelude::*;

use crate::kernel::{FormeError, FormeErrorView, State, ToolId};
use crate::show::{debug_struct, field, finish};
use crate::tool_set;
use crate::tool_set::{lists_tool, same_tools, ToolSet};

verus! {

/// The answer of a policy for a tool: it may run, or it is denied by name.
pub open spec fn verdict(reply: Result<(), FormeError>, tool: Seq<char>, permitted: bool) -> bool {
    match reply {
        Ok(_) => permitted,
        Err(e) => !permitted && e@ == FormeErrorView::PolicyDenied(tool),
    }
}

/// Decides which tools may run in a state.
pub trait Policy<S: State>: Send + Sync {
    /// Whether `tools` may be the answer of `allowed` for `state`; a policy that does not say
    /// may list anything.
    open spec fn may_list(&self, state: &S, tools: Seq<ToolId>) -> bool {
        true
    }

    /// The tools that are allowed in `state`, or an empty list where all are that are not
    /// denied. What may run is better asked with `check`.
    fn allowed(&self, state: &S) -> (tools: &[ToolId])
        ensures
            self.may_list(state, tools@),
    ;

    /// Whether `tool` may run in `state`.
    ///
    /// Where a policy does not say otherwise, a tool may run when `allowed` lists it, and is
    /// denied by [`FormeError::PolicyDenied`] when it does not.
    fn check(&self, state: &S, tool: &ToolId) -> (reply: Result<(), FormeError>)
        default_ensures
            exists|tools: Seq<ToolId>| #[trigger]
                self.may_list(state, tools) && verdict(reply, tool@, tool_set::names(tools).contains(tool@)),
    {
        let tools = self.allowed(state);
        if lists_tool(tools, tool) {
            Ok(())
        } else {
            Err(FormeError::PolicyDenied(tool.clone()))
        }
    }

    /// Whether `check` lets `tool` run in `state`.
    fn is_allowed(&self, state: &S, tool: &ToolId) -> (b: bool)
        default_ensures
            exists|reply: Result<(), FormeError>| #[trigger]
                call_ensures(Self::check, (self, state, tool), reply) && b == (reply is Ok),
    {
        self.check(state, tool).is_ok()
    }
}

/// A plain list of tools lets run what it lists, in every state. It leaves `check` and
/// `is_allowed` to the trait.
impl<S: State> Policy<S> for Vec<ToolId> {
    open spec fn may_list(&self, state: &S, tools: Seq<ToolId>) -> bool {
        tools == self@
    }

    fn allowed(&self, state: &S) -> (tools: &[ToolId]) {
        self.as_slice()
    }
}

/// Where a policy leaves `check` to the trait, a tool may run exactly when `allowed` lists it,
/// and is refused by its name otherwise; so with nothing listed every tool is refused. Where it
/// leaves `is_allowed` to the trait too, that says whether `check` lets the tool run.
pub proof fn listing_decides_by_default<S: State>(
    policy: &Vec<ToolId>,
    state: &S,
    tool: &ToolId,
    reply: Result<(), FormeError>,
    b: bool,
)
    ensures
        call_ensures(<Vec<ToolId> as Policy<S>>::check, (policy, state, tool), reply) ==> verdict(
            reply,
            tool@,
            tool_set::names(policy@).contains(tool@),
        ),
        call_ensures(<Vec<ToolId> as Policy<S>>::check, (policy, state, tool), reply)
            && policy@.len() == 0 ==> (reply matches Err(e) && e@ == FormeErrorView::PolicyDenied(
            tool@,
        )),
        call_ensures(<Vec<ToolId> as Policy<S>>::is_allowed, (policy, state, tool), b) ==> exists|
            answer: Result<(), FormeError>,
        | #[trigger]
            call_ensures(<Vec<ToolId> as Policy<S>>::check, (policy, state, tool), answer) && b
                == (answer is Ok),
        call_ensures(<Vec<ToolId> as Policy<S>>::is_allowed, (policy, state, tool), b) ==> b
            == tool_set::names(policy@).contains(tool@),
{
}

/// Lets every tool run in every state.
#[derive(Debug, Clone, Copy, PartialEq, Eq, Default)]
pub struct AllowAllPolicy;

impl AllowAllPolicy {
    /// Whether the tool may run.
    pub open spec fn permits(&self, tool: Seq<char>) -> bool {
        true
    }
}

impl<S: State> Policy<S> for AllowAllPolicy {
    open spec fn may_list(&self, state: &S, tools: Seq<ToolId>) -> bool {
        tools == Seq::<ToolId>::empty()
    }

    fn allowed(&self, state: &S) -> (tools: &[ToolId]) {
        let none: &[ToolId] = &[];
        assert(none@ =~= Seq::<ToolId>::empty());
        none
    }

    fn check(&self, state: &S, tool: &ToolId) -> (reply: Result<(), FormeError>)
        ensures
            verdict(reply, tool@, self.permits(tool@)),
            reply is Ok,
    {
        Ok(())
    }

    fn is_allowed(&self, state: &S, tool: &ToolId) -> (b: bool)
        ensures
            b == self.permits(tool@),
            b,
    {
        true
    }
}

/// Denies the tools of a set and lets all others run.
#[derive(Debug, PartialEq, Eq)]
pub struct DenyListPolicy(pub ToolSet);

impl View for DenyListPolicy {
    type V = Set<Seq<char>>;

    /// The denied tools.
    open spec fn view(&self) -> Set<Seq<char>> {
        self.0@
    }
}

impl DenyListPolicy {
    /// Whether the tool may run.
    pub open spec fn permits(&self, tool: Seq<char>) -> bool {
        !self@.contains(tool)
    }

    /// The policy that denies the tools of a set.
    pub fn new(denied: ToolSet) -> (policy: Self)
        ensures
            policy.0 == denied,
            policy@ == denied@,
    {
        DenyListPolicy(denied)
    }

    /// The policy that denies nothing.
    pub fn empty() -> (policy: Self)
        ensures
            policy@ == Set::<Seq<char>>::empty(),
    {
        DenyListPolicy(ToolSet::new())
    }

    /// The policy that denies the tools of a list.
    pub fn from_iter(denied: Vec<ToolId>) -> (policy: Self)
        ensures
            policy@ == tool_set::names(denied@).to_set(),
    {
        DenyListPolicy(ToolSet::from_vec(denied))
    }
}

impl Clone for DenyListPolicy {
    fn clone(&self) -> (copy: Self)
        ensures
            copy@ == self@,
    {
        DenyListPolicy(self.0.clone())
    }
}

impl Default for DenyListPolicy {
    fn default() -> (policy: Self)
        ensures
            policy@ == Set::<Seq<char>>::empty(),
    {
        DenyListPolicy::empty()
    }
}

impl From<ToolSet> for DenyListPolicy {
    fn from(denied: ToolSet) -> (policy: Self) {
        DenyListPolicy(denied)
    }
}

impl vstd::std_specs::convert::FromSpecImpl<ToolSet> for DenyListPolicy {
    open spec fn obeys_from_spec() -> bool {
        true
    }

    open spec fn from_spec(denied: ToolSet) -> Self {
        DenyListPolicy(denied)
    }
}

impl<S: State> Policy<S> for DenyListPolicy {
    open spec fn may_list(&self, state: &S, tools: Seq<ToolId>) -> bool {
        tools == Seq::<ToolId>::empty()
    }

    fn allowed(&self, state: &S) -> (tools: &[ToolId]) {
        let none: &[ToolId] = &[];
        assert(none@ =~= Seq::<ToolId>::empty());
        none
    }

    fn check(&self, state: &S, tool: &ToolId) -> (reply: Result<(), FormeError>)
        ensures
            verdict(reply, tool@, self.permits(tool@)),
            reply is Err <==> self.0@.contains(tool.0@),
            reply matches Err(e) ==> e is PolicyDenied && e->PolicyDenied_0.0@ == tool.0@,
    {
        if self.0.contains(tool) {
            Err(FormeError::PolicyDenied(tool.clone()))
        } else {
            Ok(())
        }
    }

    fn is_allowed(&self, state: &S, tool: &ToolId) -> (b: bool)
        ensures
            b == self.permits(tool@),
            b <==> !self.0@.contains(tool.0@),
    {
        !self.0.contains(tool)
    }
}

/// Lets only the tools of a list run.
#[derive(Eq)]
pub struct AllowListPolicy {
    set: ToolSet,
}

/// Shows a policy by its tools, as a set and as the list that `allowed` gives.
impl fmt::Debug for AllowListPolicy {
    fn fmt(&self, f: &mut fmt::Formatter<'_>) -> (reply: fmt::Result) {
        let mut shown = debug_struct(f, "AllowListPolicy");
        field(&mut shown, "set", &self.set);
        field(&mut shown, "list", &self.set.as_slice());
        finish(&mut shown)
    }
}

impl View for AllowListPolicy {
    type V = Set<Seq<char>>;

    /// The tools that may run.
    open spec fn view(&self) -> Set<Seq<char>> {
        self.listed().to_set()
    }
}

impl AllowListPolicy {
    /// Whether the tool may run.
    pub open spec fn permits(&self, tool: Seq<char>) -> bool {
        self@.contains(tool)
    }

    /// The names of the tools that may run, in the order in which `allowed` lists them.
    pub closed spec fn listed(&self) -> Seq<Seq<char>> {
        self.set.listed()
    }

    /// The policy for the tools of a list, in the order in which the list first names them.
    pub fn new(tools: Vec<ToolId>) -> (policy: Self)
        ensures
            policy.listed() == tool_set::first_seen(tool_set::names(tools@)),
            policy@ == tool_set::names(tools@).to_set(),
    {
        AllowListPolicy { set: ToolSet::from_vec(tools) }
    }

    /// The policy for the tools of a set, each of which `allowed` lists once.
    pub fn from_set(set: ToolSet) -> (policy: Self)
        ensures
            policy@ == set@,
            policy.listed() == set.listed(),
    {
        AllowListPolicy { set }
    }

    /// The policy that lets nothing run.
    pub fn empty() -> (policy: Self)
        ensures
            policy@ == Set::<Seq<char>>::empty(),
            policy.listed() == Seq::<Seq<char>>::empty(),
    {
        AllowListPolicy { set: ToolSet::new() }
    }

    /// The tools that may run, as a set.
    pub fn as_set(&self) -> (set: &ToolSet)
        ensures
            set@ == self@,
            set.listed() == self.listed(),
    {
        &self.set
    }

    /// The number of tools that may run.
    pub fn len(&self) -> (n: usize)
        ensures
            n == self@.len(),
            n == self.listed().len(),
    {
        self.set.len()
    }

    /// Whether no tool may run.
    pub fn is_empty(&self) -> (b: bool)
        ensures
            b == (self@ == Set::<Seq<char>>::empty()),
            b == (self.listed().len() == 0),
    {
        self.set.is_empty()
    }
}

/// Two policies are equal when they list the same tools in the same order.
impl PartialEq for AllowListPolicy {
    fn eq(&self, other: &Self) -> (same: bool) {
        same_tools(self.set.as_slice(), other.set.as_slice())
    }
}

impl vstd::std_specs::cmp::PartialEqSpecImpl for AllowListPolicy {
    open spec fn obeys_eq_spec() -> bool {
        true
    }

    open spec fn eq_spec(&self, other: &Self) -> bool {
        self.listed() == other.listed()
    }
}

impl Clone for AllowListPolicy {
    fn clone(&self) -> (copy: Self)
        ensures
            copy.listed() == self.listed(),
            copy@ == self@,
    {
        AllowListPolicy { set: self.set.clone() }
    }
}

impl Default for AllowListPolicy {
    fn default() -> (policy: Self)
        ensures
            policy@ == Set::<Seq<char>>::empty(),
            policy.listed() == Seq::<Seq<char>>::empty(),
    {
        AllowListPolicy::empty()
    }
}

impl From<ToolSet> for AllowListPolicy {
    fn from(set: ToolSet) -> (policy: Self)
        ensures
            policy@ == set@,
            policy.listed() == set.listed(),
    {
        AllowListPolicy::from_set(set)
    }
}

impl vstd::std_specs::convert::FromSpecImpl<ToolSet> for AllowListPolicy {
    open spec fn obeys_from_spec() -> bool {
        false
    }

    open spec fn from_spec(set: ToolSet) -> Self {
        arbitrary()
    }
}

impl From<Vec<ToolId>> for AllowListPolicy {
    fn from(tools: Vec<ToolId>) -> (policy: Self)
        ensures
            policy.listed() == tool_set::first_seen(tool_set::names(tools@)),
            policy@ == tool_set::names(tools@).to_set(),
    {
        AllowListPolicy::new(tools)
    }
}

impl vstd::std_specs::convert::FromSpecImpl<Vec<ToolId>> for AllowListPolicy {
    open spec fn obeys_from_spec() -> bool {
        false
    }

    open spec fn from_spec(tools: Vec<ToolId>) -> Self {
        arbitrary()
    }
}

impl<S: State> Policy<S> for AllowListPolicy {
    open spec fn may_list(&self, state: &S, tools: Seq<ToolId>) -> bool {
        tool_set::names(tools) == self.listed()
    }

    fn allowed(&self, state: &S) -> (tools: &[ToolId])
        ensures
            tool_set::names(tools@).no_duplicates(),
    {
        self.set.as_slice()
    }

    fn check(&self, state: &S, tool: &ToolId) -> (reply: Result<(), FormeError>)
        ensures
            verdict(reply, tool@, self.permits(tool@)),
            reply is Ok <==> self.listed().contains(tool.0@),
            reply matches Err(e) ==> e is PolicyDenied && e->PolicyDenied_0.0@ == tool.0@,
    {
        if self.set.contains(tool) {
            Ok(())
        } else {
            Err(FormeError::PolicyDenied(tool.clone()))
        }
    }

    fn is_allowed(&self, state: &S, tool: &ToolId) -> (b: bool)
        ensures
            b == self.permits(tool@),
            b <==> self.listed().contains(tool.0@),
    {
        self.set.contains(tool)
    }
}

/// A policy that denies a set of tools lets run what one that allows the same set does not.
pub proof fn deny_and_allow_are_opposites(
    deny: &DenyListPolicy,
    allow: &AllowListPolicy,
    tool: Seq<char>,
)
    requires
        deny@ == allow@,
    ensures
        deny.permits(tool) == !allow.permits(tool),
{
}

/// With no tool listed, denying lets every tool run and allowing lets none run.
pub proof fn empty_lists(deny: &DenyListPolicy, allow: &AllowListPolicy, tool: Seq<char>)
    ensures
        deny@ == Set::<Seq<char>>::empty() ==> deny.permits(tool),
        allow@ == Set::<Seq<char>>::empty() ==> !allow.permits(tool),
{
}

/// What an allow list lists in a state is exactly what it lets run there.
pub proof fn allow_list_lists_what_may_run<S: State>(
    policy: &AllowListPolicy,
    state: &S,
    tools: Seq<ToolId>,
    tool: Seq<char>,
)
    requires
        policy.may_list(state, tools),
    ensures
        tool_set::names(tools).contains(tool) == policy.permits(tool),
{
}

/// For every policy of this module, `check` and `is_allowed` agree in every state, and a tool
/// that may not run is refused by its name.
pub proof fn check_and_is_allowed_agree<S: State>(
    all: &AllowAllPolicy,
    deny: &DenyListPolicy,
    allow: &AllowListPolicy,
    state: &S,
    tool: &ToolId,
    reply: Result<(), FormeError>,
    b: bool,
)
    ensures
        ({
            &&& call_ensures(<AllowAllPolicy as Policy<S>>::check, (all, state, tool), reply)
            &&& call_ensures(<AllowAllPolicy as Policy<S>>::is_allowed, (all, state, tool), b)
        }) ==> verdict(reply, tool@, b),
        ({
            &&& call_ensures(<DenyListPolicy as Policy<S>>::check, (deny, state, tool), reply)
            &&& call_ensures(<DenyListPolicy as Policy<S>>::is_allowed, (deny, state, tool), b)
        }) ==> verdict(reply, tool@, b),
        ({
            &&& call_ensures(<AllowListPolicy as Policy<S>>::check, (allow, state, tool), reply)
            &&& call_ensures(<AllowListPolicy as Policy<S>>::is_allowed, (allow, state, tool), b)
        }) ==> verdict(reply, tool@, b),
{
}

} // verus!
