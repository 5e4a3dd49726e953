//! Text: values that can be turned into an owned string, and searching one text in another.

use vstd::prelude::*;

verus! {

/// A value that can be handed over as text.
pub trait IntoText: Sized {
    /// The characters of the text.
    spec fn text(&self) -> Seq<char>;

    /// The text as an owned string.
    fn into_text(self) -> (s: String)
        ensures
            s@ == self.text(),
    ;
}

impl IntoText for String {
    open spec fn text(&self) -> Seq<char> {
        self@
    }

    fn into_text(self) -> (s: String) {
        self
    }
}

impl<'a> IntoText for &'a str {
    open spec fn text(&self) -> Seq<char> {
        (*self)@
    }

    fn into_text(self) -> (s: String) {
        self.to_string()
    }
}

impl<'a> IntoText for &'a String {
    open spec fn text(&self) -> Seq<char> {
        (*self)@
    }

    fn into_text(self) -> (s: String) {
        self.clone()
    }
}

/// `needle` stands in `hay`, starting at position `at`.
pub open spec fn stands_at(needle: Seq<char>, hay: Seq<char>, at: int) -> bool {
    &&& 0 <= at
    &&& at + needle.len() <= hay.len()
    &&& hay.subrange(at, at + needle.len()) == needle
}

/// `needle` stands somewhere in `hay`.
pub open spec fn occurs_in(needle: Seq<char>, hay: Seq<char>) -> bool {
    exists|at: int| stands_at(needle, hay, at)
}

/// The characters of a text, one after another.
fn chars_of(s: &str) -> (chars: Vec<char>)
    ensures
        chars@ == s@,
{
    let mut chars: Vec<char> = Vec::new();
    for c in all: s.chars()
        invariant
            all.seq() == s@,
            chars@ == s@.take(all.index() as int),
    {
        chars.push(c);
        assert(chars@ =~= s@.take(all.index() + 1));
    }
    assert(s@.take(s@.len() as int) =~= s@);
    chars
}

/// Whether `needle` stands somewhere in `hay`.
pub fn contains_text(hay: &str, needle: &str) -> (found: bool)
    ensures
        found == occurs_in(needle@, hay@),
{
    let whole = chars_of(hay);
    let part = chars_of(needle);
    if part.len() > whole.len() {
        return false;
    }
    let last: usize = whole.len() - part.len();
    let mut at: usize = 0;
    loop
        invariant
            at <= last,
            last + part.len() == whole.len(),
            whole@ == hay@,
            part@ == needle@,
            forall|i: int| 0 <= i < at ==> !stands_at(needle@, hay@, i),
        decreases last - at,
    {
        let mut same: usize = 0;
        while same < part.len() && whole[at + same] == part[same]
            invariant
                at + part.len() <= whole.len(),
                same <= part@.len(),
                forall|i: int| 0 <= i < same ==> whole@[at + i] == part@[i],
            decreases part@.len() - same,
        {
            same += 1;
        }
        if same == part.len() {
            assert(hay@.subrange(at as int, at + needle@.len()) =~= needle@);
            assert(stands_at(needle@, hay@, at as int));
            return true;
        }
        assert(hay@.subrange(at as int, at + needle@.len())[same as int] != needle@[same as int]);
        if at == last {
            return false;
        }
        at += 1;
    }
}

/// What is put between two other texts occurs in the whole.
pub proof fn middle_occurs(before: Seq<char>, middle: Seq<char>, after: Seq<char>)
    ensures
        occurs_in(middle, before + middle + after),
{
    let whole = before + middle + after;
    let at = before.len() as int;
    assert(whole.subrange(at, at + middle.len()) =~= middle);
    assert(stands_at(middle, whole, at));
}

} // verus!
