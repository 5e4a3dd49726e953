//! Sets of tools that remember the order in which the tools were first put in.

use std::fmt;

use vstd::prelude::*;

use crate::kernel::ToolId;
use crate::show::{debug_set, element, finish_set};

verus! {

/// The names of the tools of a list, in its order.
pub open spec fn names(tools: Seq<ToolId>) -> Seq<Seq<char>> {
    tools.map_values(|tool: ToolId| tool@)
}

/// The list without the names that stand earlier in it already.
pub open spec fn first_seen(list: Seq<Seq<char>>) -> Seq<Seq<char>>
    decreases list.len(),
{
    if list.len() == 0 {
        Seq::empty()
    } else {
        let before = first_seen(list.drop_last());
        if before.contains(list.last()) {
            before
        } else {
            before.push(list.last())
        }
    }
}

/// Whether one of `tools` has the name of `tool`.
pub fn lists_tool(tools: &[ToolId], tool: &ToolId) -> (found: bool)
    ensures
        found == names(tools@).contains(tool@),
{
    let mut i: usize = 0;
    while i < tools.len()
        invariant
            i <= tools@.len(),
            forall|j: int| 0 <= j < i ==> names(tools@)[j] != tool@,
        decreases tools@.len() - i,
    {
        if tools[i].0 == tool.0 {
            assert(names(tools@)[i as int] == tool@);
            return true;
        }
        assert(names(tools@)[i as int] != tool@);
        i = i + 1;
    }
    false
}

/// Whether two lists name the same tools in the same order.
pub fn same_tools(left: &[ToolId], right: &[ToolId]) -> (same: bool)
    ensures
        same == (names(left@) == names(right@)),
{
    if left.len() != right.len() {
        assert(names(left@).len() != names(right@).len());
        return false;
    }
    let mut i: usize = 0;
    while i < left.len()
        invariant
            i <= left@.len(),
            left@.len() == right@.len(),
            forall|j: int| 0 <= j < i ==> names(left@)[j] == names(right@)[j],
        decreases left@.len() - i,
    {
        if left[i].0 != right[i].0 {
            assert(names(left@)[i as int] != names(right@)[i as int]);
            return false;
        }
        assert(names(left@)[i as int] == names(right@)[i as int]);
        i = i + 1;
    }
    assert(names(left@) =~= names(right@));
    true
}

/// A copy of a list of tools.
pub fn copy_tools(tools: &[ToolId]) -> (copy: Vec<ToolId>)
    ensures
        copy@ == tools@,
{
    let mut copy: Vec<ToolId> = Vec::new();
    let mut i: usize = 0;
    while i < tools.len()
        invariant
            i <= tools@.len(),
            copy@ == tools@.take(i as int),
        decreases tools@.len() - i,
    {
        copy.push(tools[i].clone());
        i = i + 1;
        assert(tools@.take(i as int) =~= tools@.take(i - 1).push(tools@[i - 1]));
    }
    assert(tools@.take(i as int) =~= tools@);
    copy
}

/// A set of tools, in the order in which they came in.
#[derive(Eq)]
pub struct ToolSet {
    items: Vec<ToolId>,
}

/// Shows a set by its tools.
impl fmt::Debug for ToolSet {
    fn fmt(&self, f: &mut fmt::Formatter<'_>) -> (reply: fmt::Result) {
        let mut shown = debug_set(f);
        let mut i: usize = 0;
        while i < self.items.len()
            invariant
                i <= self.items@.len(),
            decreases self.items@.len() - i,
        {
            element(&mut shown, &self.items[i]);
            i = i + 1;
        }
        finish_set(&mut shown)
    }
}

impl View for ToolSet {
    type V = Set<Seq<char>>;

    open spec fn view(&self) -> Set<Seq<char>> {
        self.listed().to_set()
    }
}

impl ToolSet {
    /// No tool is held twice.
    #[verifier::type_invariant]
    spec fn distinct(self) -> bool {
        names(self.items@).no_duplicates()
    }

    /// The names of the tools, in the order in which they came in.
    pub closed spec fn listed(&self) -> Seq<Seq<char>> {
        names(self.items@)
    }

    /// The set without tools.
    pub fn new() -> (set: Self)
        ensures
            set.listed() == Seq::<Seq<char>>::empty(),
            set@ == Set::<Seq<char>>::empty(),
    {
        let set = ToolSet { items: Vec::new() };
        assert(set.listed() =~= Seq::<Seq<char>>::empty());
        assert(set@ =~= Set::<Seq<char>>::empty());
        set
    }

    /// Puts a tool in, behind those already there. Returns whether it was new.
    pub fn insert(&mut self, tool: ToolId) -> (added: bool)
        ensures
            added == !old(self)@.contains(tool@),
            final(self)@ == old(self)@.insert(tool@),
            final(self).listed() == (if added {
                old(self).listed().push(tool@)
            } else {
                old(self).listed()
            }),
    {
        proof {
            use_type_invariant(&*self);
        }
        if self.contains(&tool) {
            assert(old(self)@.insert(tool@) =~= old(self)@);
            return false;
        }
        let ghost before = self.items@;
        let ghost name = tool@;
        let mut items: Vec<ToolId> = Vec::new();
        std::mem::swap(&mut items, &mut self.items);
        items.push(tool);
        proof {
            assert(names(items@) =~= names(before).push(name));
            assert(!names(before).contains(name));
            names(before).lemma_push_to_set_commute(name);
        }
        self.items = items;
        true
    }

    /// Whether the tool is in the set.
    pub fn contains(&self, tool: &ToolId) -> (found: bool)
        ensures
            found == self@.contains(tool@),
    {
        lists_tool(self.items.as_slice(), tool)
    }

    /// The tools, in the order in which they came in.
    pub fn as_slice(&self) -> (tools: &[ToolId])
        ensures
            names(tools@) == self.listed(),
            names(tools@).no_duplicates(),
    {
        proof {
            use_type_invariant(self);
        }
        self.items.as_slice()
    }

    /// The number of tools.
    pub fn len(&self) -> (n: usize)
        ensures
            n == self.listed().len(),
            n == self@.len(),
    {
        proof {
            use_type_invariant(self);
            self.listed().unique_seq_to_set();
        }
        self.items.len()
    }

    /// Whether the set holds no tool.
    pub fn is_empty(&self) -> (b: bool)
        ensures
            b == (self@ == Set::<Seq<char>>::empty()),
            b == (self.listed().len() == 0),
    {
        proof {
            if self.listed().len() != 0 {
                assert(self.listed().contains(self.listed()[0]));
                assert(self@.contains(self.listed()[0]));
            } else {
                assert(self@ =~= Set::<Seq<char>>::empty());
            }
        }
        self.items.len() == 0
    }

    /// Whether every tool of this set is in the other one too.
    pub fn is_subset(&self, other: &ToolSet) -> (b: bool)
        ensures
            b == self@.subset_of(other@),
    {
        let mut i: usize = 0;
        while i < self.items.len()
            invariant
                i <= self.items@.len(),
                forall|j: int| 0 <= j < i ==> other@.contains(#[trigger] self.listed()[j]),
            decreases self.items@.len() - i,
        {
            assert(self.listed()[i as int] == self.items@[i as int]@);
            if !other.contains(&self.items[i]) {
                assert(self.listed().contains(self.listed()[i as int]));
                assert(self@.contains(self.listed()[i as int]));
                return false;
            }
            i = i + 1;
        }
        assert forall|name: Seq<char>| self@.contains(name) implies other@.contains(name) by {
            assert(self.listed().contains(name));
            let j = choose|j: int| 0 <= j < self.listed().len() && self.listed()[j] == name;
            assert(other@.contains(self.listed()[j]));
        }
        true
    }

    /// The set of the tools of a list, in the order in which the list first names them.
    pub fn from_vec(tools: Vec<ToolId>) -> (set: Self)
        ensures
            set.listed() == first_seen(names(tools@)),
            set@ == names(tools@).to_set(),
    {
        let mut set = ToolSet::new();
        let mut i: usize = 0;
        assert(names(tools@).take(0) =~= Seq::empty());
        while i < tools.len()
            invariant
                i <= tools@.len(),
                set.listed() == first_seen(names(tools@).take(i as int)),
            decreases tools@.len() - i,
        {
            let ghost so_far = names(tools@).take(i as int);
            let ghost more = names(tools@).take(i + 1);
            assert(more.drop_last() =~= so_far);
            assert(more.last() == tools@[i as int]@);
            set.insert(tools[i].clone());
            i = i + 1;
        }
        assert(names(tools@).take(i as int) =~= names(tools@));
        proof {
            first_seen_keeps_all(names(tools@));
        }
        set
    }
}

/// Two sets are equal when they hold the same tools, in whatever order.
impl PartialEq for ToolSet {
    fn eq(&self, other: &Self) -> (same: bool) {
        let same = self.is_subset(other) && other.is_subset(self);
        assert(same ==> self@ =~= other@);
        same
    }
}

impl vstd::std_specs::cmp::PartialEqSpecImpl for ToolSet {
    open spec fn obeys_eq_spec() -> bool {
        true
    }

    open spec fn eq_spec(&self, other: &Self) -> bool {
        self@ == other@
    }
}

impl Clone for ToolSet {
    fn clone(&self) -> (copy: Self)
        ensures
            copy.listed() == self.listed(),
            copy@ == self@,
    {
        proof {
            use_type_invariant(self);
        }
        ToolSet { items: copy_tools(self.items.as_slice()) }
    }
}

impl Default for ToolSet {
    fn default() -> (set: Self)
        ensures
            set.listed() == Seq::<Seq<char>>::empty(),
            set@ == Set::<Seq<char>>::empty(),
    {
        ToolSet::new()
    }
}

/// Leaving out what stands earlier already leaves no name out, and no name stays twice.
pub proof fn first_seen_keeps_all(list: Seq<Seq<char>>)
    ensures
        first_seen(list).to_set() == list.to_set(),
        first_seen(list).no_duplicates(),
    decreases list.len(),
{
    if list.len() == 0 {
        assert(first_seen(list) =~= list);
    } else {
        let init = list.drop_last();
        first_seen_keeps_all(init);
        assert(list =~= init.push(list.last()));
        init.lemma_push_to_set_commute(list.last());
        let before = first_seen(init);
        before.lemma_push_to_set_commute(list.last());
        if before.contains(list.last()) {
            assert(before.to_set().contains(list.last()));
            assert(before.to_set().insert(list.last()) =~= before.to_set());
        }
    }
}

/// `at` is the first position at which the list names `name`.
pub open spec fn first_at(list: Seq<Seq<char>>, name: Seq<char>, at: int) -> bool {
    &&& 0 <= at < list.len()
    &&& list[at] == name
    &&& forall|k: int| 0 <= k < at ==> list[k] != name
}

/// Of two names that stay, the one that the list names first stays first.
pub proof fn first_seen_keeps_order(list: Seq<Seq<char>>, i: int, j: int, p: int, q: int)
    requires
        0 <= i < j < first_seen(list).len(),
        first_at(list, first_seen(list)[i], p),
        first_at(list, first_seen(list)[j], q),
    ensures
        p < q,
    decreases list.len(),
{
    let init = list.drop_last();
    let before = first_seen(init);
    first_seen_keeps_all(init);
    assert(before.to_set().contains(before[i]));
    assert(init.to_set().contains(before[i]));
    let k = choose|k: int| 0 <= k < init.len() && init[k] == before[i];
    assert(list[k] == before[i]);
    if j < before.len() {
        assert(before.to_set().contains(before[j]));
        assert(init.to_set().contains(before[j]));
        let m = choose|m: int| 0 <= m < init.len() && init[m] == before[j];
        assert(list[m] == before[j]);
        first_seen_keeps_order(init, i, j, p, q);
    } else if q < init.len() {
        assert(init[q] == list.last());
        assert(init.to_set().contains(list.last()));
        assert(before.to_set().contains(list.last()));
    }
}

} // verus!
