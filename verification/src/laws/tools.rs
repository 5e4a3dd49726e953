//! Sets of tools, and the policies that decide which tools may run.

use vstd::prelude::*;

use crate::kernel::{FormeError, State, ToolId};
use crate::policy::{AllowAllPolicy, AllowListPolicy, DenyListPolicy, Policy};
use crate::runtime::ToolPlan;
use crate::tool_set;
use crate::tool_set::{copy_tools, lists_tool, same_tools, ToolSet};

verus! {

/// A name is among those of a list just where one of its tools has it.
pub(crate) proof fn named_somewhere(list: Seq<ToolId>, name: Seq<char>)
    ensures
        tool_set::names(list).contains(name) <==> exists|i: int|
            0 <= i < list.len() && (#[trigger] list[i]).0@ == name,
{
    let names = tool_set::names(list);
    if names.contains(name) {
        let i = choose|i: int| 0 <= i < names.len() && names[i] == name;
        assert(list[i].0@ == name);
    }
    assert forall|i: int| 0 <= i < list.len() && (#[trigger] list[i]).0@ == name implies
        names.contains(name) by {
        assert(names[i] == name);
    }
}

/// Whatever the state and however the tool is called, a policy for all tools lets it run.
pub proof fn every_tool_may_run<S: State>(
    policy: &AllowAllPolicy,
    state: &S,
    tool: &ToolId,
    reply: Result<(), FormeError>,
    b: bool,
    tools: &[ToolId],
)
    requires
        call_ensures(<AllowAllPolicy as Policy<S>>::check, (policy, state, tool), reply),
        call_ensures(<AllowAllPolicy as Policy<S>>::is_allowed, (policy, state, tool), b),
        call_ensures(<AllowAllPolicy as Policy<S>>::allowed, (policy, state), tools),
    ensures
        reply is Ok,
        b,
        tools@.len() == 0,
{
}

/// There is no name that a policy for all tools, or one that denies nothing, would hold back.
pub proof fn no_name_is_held_back(all: &AllowAllPolicy, none_denied: &DenyListPolicy)
    requires
        none_denied@ == Set::<Seq<char>>::empty(),
    ensures
        forall|tool: Seq<char>| #[trigger] all.permits(tool),
        forall|tool: Seq<char>| #[trigger] none_denied.permits(tool),
{
}

/// Denying nothing comes to the same as letting every tool run, in every state.
pub proof fn denying_nothing_lets_all_run<S: State>(
    all: &AllowAllPolicy,
    none_denied: DenyListPolicy,
    by_default: DenyListPolicy,
    state: &S,
    tool: &ToolId,
    left: Result<(), FormeError>,
    right: Result<(), FormeError>,
    third: Result<(), FormeError>,
)
    requires
        call_ensures(DenyListPolicy::empty, (), none_denied),
        call_ensures(<DenyListPolicy as Default>::default, (), by_default),
        call_ensures(<AllowAllPolicy as Policy<S>>::check, (all, state, tool), left),
        call_ensures(<DenyListPolicy as Policy<S>>::check, (&none_denied, state, tool), right),
        call_ensures(<DenyListPolicy as Policy<S>>::check, (&by_default, state, tool), third),
    ensures
        left is Ok,
        right is Ok,
        third is Ok,
{
}

/// A policy that denies the tools of a list refuses, in every state, a tool whose name the list
/// holds, by that name, and lets every other tool run. It lists nothing.
pub proof fn deny_list_refuses_what_it_names<S: State>(
    list: Vec<ToolId>,
    policy: DenyListPolicy,
    state: &S,
    tool: &ToolId,
    reply: Result<(), FormeError>,
    b: bool,
    tools: &[ToolId],
)
    requires
        call_ensures(DenyListPolicy::from_iter, (list,), policy),
        call_ensures(<DenyListPolicy as Policy<S>>::check, (&policy, state, tool), reply),
        call_ensures(<DenyListPolicy as Policy<S>>::is_allowed, (&policy, state, tool), b),
        call_ensures(<DenyListPolicy as Policy<S>>::allowed, (&policy, state), tools),
    ensures
        reply is Err <==> exists|i: int|
            0 <= i < list@.len() && (#[trigger] list@[i]).0@ == tool.0@,
        reply matches Err(e) ==> e is PolicyDenied && e->PolicyDenied_0.0@ == tool.0@,
        b <==> reply is Ok,
        tools@.len() == 0,
{
    named_somewhere(list@, tool.0@);
}

/// A policy that denies a set of tools refuses, in every state, what the set holds, by its name,
/// and lets every other tool run.
pub proof fn deny_set_refuses_what_it_holds<S: State>(
    denied: ToolSet,
    made: DenyListPolicy,
    converted: DenyListPolicy,
    state: &S,
    tool: &ToolId,
    held: bool,
    by_made: Result<(), FormeError>,
    by_converted: Result<(), FormeError>,
)
    requires
        call_ensures(DenyListPolicy::new, (denied,), made),
        call_ensures(<DenyListPolicy as From<ToolSet>>::from, (denied,), converted),
        call_ensures(ToolSet::contains, (&denied, tool), held),
        call_ensures(<DenyListPolicy as Policy<S>>::check, (&made, state, tool), by_made),
        call_ensures(<DenyListPolicy as Policy<S>>::check, (&converted, state, tool), by_converted),
    ensures
        by_made is Err <==> held,
        by_converted is Err <==> held,
        by_made matches Err(e) ==> e is PolicyDenied && e->PolicyDenied_0.0@ == tool.0@,
        by_converted matches Err(e) ==> e is PolicyDenied && e->PolicyDenied_0.0@ == tool.0@,
{
}

/// A policy for the tools of a list lets run, in every state, a tool whose name the list holds,
/// and refuses every other one by its name.
pub proof fn allow_list_lets_run_what_it_names<S: State>(
    list: Vec<ToolId>,
    policy: AllowListPolicy,
    state: &S,
    tool: &ToolId,
    reply: Result<(), FormeError>,
    b: bool,
)
    requires
        call_ensures(AllowListPolicy::new, (list,), policy) || call_ensures(
            <AllowListPolicy as From<Vec<ToolId>>>::from,
            (list,),
            policy,
        ),
        call_ensures(<AllowListPolicy as Policy<S>>::check, (&policy, state, tool), reply),
        call_ensures(<AllowListPolicy as Policy<S>>::is_allowed, (&policy, state, tool), b),
    ensures
        reply is Ok <==> exists|i: int|
            0 <= i < list@.len() && (#[trigger] list@[i]).0@ == tool.0@,
        reply matches Err(e) ==> e is PolicyDenied && e->PolicyDenied_0.0@ == tool.0@,
        b <==> reply is Ok,
{
    named_somewhere(list@, tool.0@);
}

/// A policy for the tools of a set lets run just what the set holds, and gives the set back.
pub proof fn allow_set_lets_run_what_it_holds<S: State>(
    set: ToolSet,
    policy: AllowListPolicy,
    back: &ToolSet,
    state: &S,
    tool: &ToolId,
    held: bool,
    held_back: bool,
    reply: Result<(), FormeError>,
)
    requires
        call_ensures(AllowListPolicy::from_set, (set,), policy) || call_ensures(
            <AllowListPolicy as From<ToolSet>>::from,
            (set,),
            policy,
        ),
        call_ensures(AllowListPolicy::as_set, (&policy,), back),
        call_ensures(ToolSet::contains, (&set, tool), held),
        call_ensures(ToolSet::contains, (back, tool), held_back),
        call_ensures(<AllowListPolicy as Policy<S>>::check, (&policy, state, tool), reply),
    ensures
        reply is Ok <==> held,
        held_back == held,
{
}

/// The empty policy for listed tools refuses every tool.
pub proof fn allowing_nothing_refuses_all<S: State>(
    policy: AllowListPolicy,
    state: &S,
    tool: &ToolId,
    reply: Result<(), FormeError>,
    tools: &[ToolId],
)
    requires
        call_ensures(AllowListPolicy::empty, (), policy) || call_ensures(
            <AllowListPolicy as Default>::default,
            (),
            policy,
        ),
        call_ensures(<AllowListPolicy as Policy<S>>::check, (&policy, state, tool), reply),
        call_ensures(<AllowListPolicy as Policy<S>>::allowed, (&policy, state), tools),
    ensures
        reply is Err,
        tools@.len() == 0,
{
    assert(tool_set::names(tools@).len() == tools@.len());
}

/// What `allowed` lists in a state is what may run there: for an allow list a tool passes
/// `check` just where its name is listed.
pub proof fn listed_is_what_passes<S: State>(
    policy: &AllowListPolicy,
    state: &S,
    tools: &[ToolId],
    tool: &ToolId,
    reply: Result<(), FormeError>,
)
    requires
        call_ensures(<AllowListPolicy as Policy<S>>::allowed, (policy, state), tools),
        call_ensures(<AllowListPolicy as Policy<S>>::check, (policy, state, tool), reply),
    ensures
        reply is Ok <==> exists|i: int|
            0 <= i < tools@.len() && (#[trigger] tools@[i]).0@ == tool.0@,
        forall|i: int, j: int|
            0 <= i < j < tools@.len() ==> (#[trigger] tools@[i]).0@ != (#[trigger] tools@[j]).0@,
{
    let names = tool_set::names(tools@);
    named_somewhere(tools@, tool.0@);
    assert forall|i: int, j: int| 0 <= i < j < tools@.len() implies (#[trigger] tools@[i]).0@ != (
    #[trigger] tools@[j]).0@ by {
        assert(names[i] != names[j]);
    }
}

/// An allow list lists each tool of the list that it was made of once, in the order in which
/// they stand there for the first time.
pub proof fn allowed_keeps_the_order<S: State>(
    list: Vec<ToolId>,
    policy: AllowListPolicy,
    state: &S,
    tools: &[ToolId],
    i: int,
    j: int,
    p: int,
    q: int,
)
    requires
        call_ensures(AllowListPolicy::new, (list,), policy),
        call_ensures(<AllowListPolicy as Policy<S>>::allowed, (&policy, state), tools),
        0 <= i < j < tools@.len(),
        0 <= p < list@.len(),
        0 <= q < list@.len(),
        list@[p].0@ == tools@[i].0@,
        list@[q].0@ == tools@[j].0@,
        forall|k: int| 0 <= k < p ==> (#[trigger] list@[k]).0@ != tools@[i].0@,
        forall|k: int| 0 <= k < q ==> (#[trigger] list@[k]).0@ != tools@[j].0@,
    ensures
        p < q,
{
    let names = tool_set::names(list@);
    let kept = tool_set::names(tools@);
    assert(kept[i] == tools@[i].0@ && kept[j] == tools@[j].0@);
    assert forall|k: int| 0 <= k < p implies names[k] != kept[i] by {
        assert(list@[k].0@ != tools@[i].0@);
    }
    assert forall|k: int| 0 <= k < q implies names[k] != kept[j] by {
        assert(list@[k].0@ != tools@[j].0@);
    }
    tool_set::first_seen_keeps_order(names, i, j, p, q);
}

/// A policy that denies a list and one that allows the same list answer every tool oppositely.
pub proof fn same_list_denied_and_allowed<S: State>(
    list: Vec<ToolId>,
    deny: DenyListPolicy,
    allow: AllowListPolicy,
    state: &S,
    tool: &ToolId,
    denied: Result<(), FormeError>,
    allowed: Result<(), FormeError>,
)
    requires
        call_ensures(DenyListPolicy::from_iter, (list,), deny),
        call_ensures(AllowListPolicy::new, (list,), allow),
        call_ensures(<DenyListPolicy as Policy<S>>::check, (&deny, state, tool), denied),
        call_ensures(<AllowListPolicy as Policy<S>>::check, (&allow, state, tool), allowed),
    ensures
        denied is Ok <==> allowed is Err,
{
}

/// A plain list of tools that leaves its decision to the trait lets run just what it names, and
/// refuses the rest by name.
pub proof fn plain_list_lets_run_what_it_names<S: State>(
    policy: &Vec<ToolId>,
    state: &S,
    tool: &ToolId,
    tools: &[ToolId],
    reply: Result<(), FormeError>,
    b: bool,
)
    requires
        call_ensures(<Vec<ToolId> as Policy<S>>::allowed, (policy, state), tools),
        call_ensures(<Vec<ToolId> as Policy<S>>::check, (policy, state, tool), reply),
        call_ensures(<Vec<ToolId> as Policy<S>>::is_allowed, (policy, state, tool), b),
    ensures
        tools@ == policy@,
        reply is Ok <==> exists|i: int|
            0 <= i < policy@.len() && (#[trigger] policy@[i]).0@ == tool.0@,
        reply matches Err(e) ==> e is PolicyDenied && e->PolicyDenied_0.0@ == tool.0@,
        b <==> reply is Ok,
{
    named_somewhere(policy@, tool.0@);
}

/// Copies of policies decide as what they were copied from.
pub proof fn copied_policies_decide_alike<S: State>(
    deny: &DenyListPolicy,
    deny_copy: DenyListPolicy,
    allow: &AllowListPolicy,
    allow_copy: AllowListPolicy,
    state: &S,
    tool: &ToolId,
    denied: Result<(), FormeError>,
    denied_copy: Result<(), FormeError>,
    allowed: Result<(), FormeError>,
    allowed_copy: Result<(), FormeError>,
)
    requires
        call_ensures(<DenyListPolicy as Clone>::clone, (deny,), deny_copy),
        call_ensures(<AllowListPolicy as Clone>::clone, (allow,), allow_copy),
        call_ensures(<DenyListPolicy as Policy<S>>::check, (deny, state, tool), denied),
        call_ensures(<DenyListPolicy as Policy<S>>::check, (&deny_copy, state, tool), denied_copy),
        call_ensures(<AllowListPolicy as Policy<S>>::check, (allow, state, tool), allowed),
        call_ensures(
            <AllowListPolicy as Policy<S>>::check,
            (&allow_copy, state, tool),
            allowed_copy,
        ),
    ensures
        denied is Ok <==> denied_copy is Ok,
        allowed is Ok <==> allowed_copy is Ok,
{
}

/// A set holds a tool just where its name was among those put in, whatever else it holds.
pub proof fn set_holds_what_was_put_in(
    set: &mut ToolSet,
    tool: ToolId,
    added: bool,
    asked: &ToolId,
    before: bool,
    after: bool,
    len_before: usize,
    len_after: usize,
)
    requires
        call_ensures(ToolSet::insert, (set, tool), added),
        call_ensures(ToolSet::contains, (&*old(set), asked), before),
        call_ensures(ToolSet::contains, (&*final(set), asked), after),
        call_ensures(ToolSet::len, (&*old(set),), len_before),
        call_ensures(ToolSet::len, (&*final(set),), len_after),
    ensures
        after <==> before || asked.0@ == tool.0@,
        asked.0@ == tool.0@ ==> added == !before,
        len_after == len_before + (if added {
            1int
        } else {
            0int
        }),
{
}

/// A set made of a list holds just the tools that the list names, each once.
pub proof fn set_of_a_list_holds_its_tools(
    list: Vec<ToolId>,
    set: ToolSet,
    tool: &ToolId,
    found: bool,
    tools: &[ToolId],
    n: usize,
    empty: bool,
)
    requires
        call_ensures(ToolSet::from_vec, (list,), set),
        call_ensures(ToolSet::contains, (&set, tool), found),
        call_ensures(ToolSet::as_slice, (&set,), tools),
        call_ensures(ToolSet::len, (&set,), n),
        call_ensures(ToolSet::is_empty, (&set,), empty),
    ensures
        found <==> exists|i: int| 0 <= i < list@.len() && (#[trigger] list@[i]).0@ == tool.0@,
        found <==> exists|i: int| 0 <= i < tools@.len() && (#[trigger] tools@[i]).0@ == tool.0@,
        n == tools@.len(),
        empty <==> list@.len() == 0,
        forall|i: int, j: int|
            0 <= i < j < tools@.len() ==> (#[trigger] tools@[i]).0@ != (#[trigger] tools@[j]).0@,
{
    let names = tool_set::names(list@);
    let kept = tool_set::names(tools@);
    named_somewhere(list@, tool.0@);
    named_somewhere(tools@, tool.0@);
    if list@.len() == 0 {
        assert(names =~= Seq::<Seq<char>>::empty());
        assert(names.to_set() =~= Set::<Seq<char>>::empty());
    } else {
        assert(names.contains(names[0]));
        assert(names.to_set().contains(names[0]));
    }
    assert forall|i: int, j: int| 0 <= i < j < tools@.len() implies (#[trigger] tools@[i]).0@ != (
    #[trigger] tools@[j]).0@ by {
        assert(kept[i] != kept[j]);
    }
}

/// Two sets are equal just where each holds what the other does, in whatever order it came in.
pub proof fn sets_are_equal_by_their_tools(
    left: &ToolSet,
    right: &ToolSet,
    same: bool,
    part: bool,
    back: bool,
)
    requires
        call_ensures(<ToolSet as PartialEq>::eq, (left, right), same),
        call_ensures(ToolSet::is_subset, (left, right), part),
        call_ensures(ToolSet::is_subset, (right, left), back),
    ensures
        same <==> part && back,
        same <==> forall|name: Seq<char>|
            #[trigger] left.listed().contains(name) <==> right.listed().contains(name),
{
    assert(same ==> left@ =~= right@);
    if part && back {
        assert(left@ =~= right@);
    }
    assert forall|name: Seq<char>| same implies #[trigger] left.listed().contains(name)
        == right.listed().contains(name) by {
        assert(left@.contains(name) == right@.contains(name));
    }
    if forall|name: Seq<char>|
        #[trigger] left.listed().contains(name) <==> right.listed().contains(name) {
        assert(left@ =~= right@) by {
            assert forall|name: Seq<char>| left@.contains(name) == right@.contains(name) by {
                assert(left.listed().contains(name) == right.listed().contains(name));
            }
        }
    }
}

/// A plan of tools is the list that it was made of: its length, whether it lists a tool, and
/// whether two lists name the same.
pub proof fn plan_is_its_list(
    list: Vec<ToolId>,
    plan: ToolPlan,
    tool: &ToolId,
    found: bool,
    n: usize,
    empty: bool,
    other: &ToolPlan,
    same: bool,
)
    requires
        call_ensures(ToolPlan::new, (list,), plan),
        call_ensures(ToolPlan::contains, (&plan, tool), found),
        call_ensures(ToolPlan::len, (&plan,), n),
        call_ensures(ToolPlan::is_empty, (&plan,), empty),
        call_ensures(<ToolPlan as PartialEq>::eq, (&plan, other), same),
    ensures
        plan.allowed == list,
        found <==> exists|i: int| 0 <= i < list@.len() && (#[trigger] list@[i]).0@ == tool.0@,
        n == list@.len(),
        empty <==> list@.len() == 0,
        same <==> list@.len() == other.allowed@.len() && forall|i: int|
            0 <= i < list@.len() ==> (#[trigger] list@[i]).0@ == other.allowed@[i].0@,
{
    let names = tool_set::names(list@);
    let others = tool_set::names(other.allowed@);
    named_somewhere(list@, tool.0@);
    if same {
        assert(names == others);
        assert(names.len() == list@.len() && others.len() == other.allowed@.len());
        assert forall|i: int| 0 <= i < list@.len() implies (#[trigger] list@[i]).0@
            == other.allowed@[i].0@ by {
            assert(names[i] == others[i]);
        }
    }
    if list@.len() == other.allowed@.len() && forall|i: int|
        0 <= i < list@.len() ==> (#[trigger] list@[i]).0@ == other.allowed@[i].0@ {
        assert forall|i: int| 0 <= i < names.len() implies names[i] == others[i] by {
            assert(list@[i].0@ == other.allowed@[i].0@);
        }
        assert(names =~= others);
    }
}

/// Lists of tools are searched, compared and copied by the names in them.
pub proof fn lists_go_by_names(
    left: &[ToolId],
    right: &[ToolId],
    tool: &ToolId,
    found: bool,
    same: bool,
    copy: Vec<ToolId>,
)
    requires
        call_ensures(lists_tool, (left, tool), found),
        call_ensures(same_tools, (left, right), same),
        call_ensures(copy_tools, (left,), copy),
    ensures
        found <==> exists|i: int| 0 <= i < left@.len() && (#[trigger] left@[i]).0@ == tool.0@,
        same ==> left@.len() == right@.len() && forall|i: int|
            0 <= i < left@.len() ==> (#[trigger] left@[i]).0@ == right@[i].0@,
        left@ == right@ ==> same,
        copy@ == left@,
{
    let names = tool_set::names(left@);
    let others = tool_set::names(right@);
    named_somewhere(left@, tool.0@);
    if same {
        assert(names.len() == left@.len() && others.len() == right@.len());
        assert forall|i: int| 0 <= i < left@.len() implies (#[trigger] left@[i]).0@
            == right@[i].0@ by {
            assert(names[i] == others[i]);
        }
    }
}

/// An allow list counts, and is compared by, the tools that `allowed` lists, in their order; and a
/// copy lists the same.
pub proof fn allow_lists_go_by_what_they_list<S: State>(
    left: &AllowListPolicy,
    right: &AllowListPolicy,
    state: &S,
    tools: &[ToolId],
    others: &[ToolId],
    n: usize,
    empty: bool,
    same: bool,
    copy: AllowListPolicy,
    copied: &[ToolId],
    alike: bool,
    alike_copied: bool,
)
    requires
        call_ensures(<AllowListPolicy as Policy<S>>::allowed, (left, state), tools),
        call_ensures(<AllowListPolicy as Policy<S>>::allowed, (right, state), others),
        call_ensures(AllowListPolicy::len, (left,), n),
        call_ensures(AllowListPolicy::is_empty, (left,), empty),
        call_ensures(<AllowListPolicy as PartialEq>::eq, (left, right), same),
        call_ensures(<AllowListPolicy as Clone>::clone, (left,), copy),
        call_ensures(<AllowListPolicy as Policy<S>>::allowed, (&copy, state), copied),
        call_ensures(same_tools, (tools, others), alike),
        call_ensures(same_tools, (tools, copied), alike_copied),
    ensures
        n == tools@.len(),
        empty <==> tools@.len() == 0,
        same <==> alike,
        alike_copied,
{
    assert(tool_set::names(tools@).len() == tools@.len());
}

/// A new set of tools holds none, and a copy of a set holds what the set does.
pub proof fn new_and_copied_sets(
    fresh: ToolSet,
    set: &ToolSet,
    copy: ToolSet,
    tool: &ToolId,
    in_fresh: bool,
    held: bool,
    in_copy: bool,
)
    requires
        call_ensures(ToolSet::new, (), fresh) || call_ensures(
            <ToolSet as Default>::default,
            (),
            fresh,
        ),
        call_ensures(<ToolSet as Clone>::clone, (set,), copy),
        call_ensures(ToolSet::contains, (&fresh, tool), in_fresh),
        call_ensures(ToolSet::contains, (set, tool), held),
        call_ensures(ToolSet::contains, (&copy, tool), in_copy),
    ensures
        !in_fresh,
        in_copy == held,
{
}

} // verus!
