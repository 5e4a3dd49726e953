//! Maps of prompts, and the registries that answer with them.

use std::path::PathBuf;

use vstd::prelude::*;

use crate::kernel::{FormeError, PromptKey};
use crate::paths;
use crate::prompt_map;
use crate::prompt_map::PromptMap;
use crate::prompt_registry::{
    io_failure, FsRegistry, InMemoryRegistry, Lookup, ReadReply, Registry, StatReply,
};

verus! {

/// A map gives back for a key what was put in under it last, keeps what it has under the others,
/// and hands out what it replaces.
pub proof fn map_gives_back_what_was_put_in<V>(
    map: &mut PromptMap<V>,
    key: PromptKey,
    value: V,
    replaced: Option<V>,
    asked: &PromptKey,
    before: Option<&V>,
    after: Option<&V>,
)
    requires
        call_ensures(PromptMap::<V>::insert, (map, key, value), replaced),
        call_ensures(PromptMap::<V>::get, (&*old(map), asked), before),
        call_ensures(PromptMap::<V>::get, (&*final(map), asked), after),
    ensures
        asked.state@ == key.state@ && asked.event@ == key.event@ ==> {
            &&& after == Some(&value)
            &&& replaced is Some <==> before is Some
            &&& before matches Some(v) ==> replaced == Some(*v)
        },
        !(asked.state@ == key.state@ && asked.event@ == key.event@) ==> after == before,
{
    assert(asked@ == key@ <==> asked.state@ == key.state@ && asked.event@ == key.event@);
}

/// A map no longer has what was taken out of it, keeps the rest, and hands out what it had.
pub proof fn map_lets_go_what_was_taken_out<V>(
    map: &mut PromptMap<V>,
    key: &PromptKey,
    taken: Option<V>,
    asked: &PromptKey,
    before: Option<&V>,
    after: Option<&V>,
)
    requires
        call_ensures(PromptMap::<V>::remove, (map, key), taken),
        call_ensures(PromptMap::<V>::get, (&*old(map), asked), before),
        call_ensures(PromptMap::<V>::get, (&*final(map), asked), after),
    ensures
        asked.state@ == key.state@ && asked.event@ == key.event@ ==> {
            &&& after is None
            &&& taken is Some <==> before is Some
            &&& before matches Some(v) ==> taken == Some(*v)
        },
        !(asked.state@ == key.state@ && asked.event@ == key.event@) ==> after == before,
{
    assert(asked@ == key@ <==> asked.state@ == key.state@ && asked.event@ == key.event@);
}

/// A map has one key more after a key was put in that it did not have, and one less after a key
/// was taken out that it had.
pub proof fn map_counts_its_keys<V>(
    grown: &mut PromptMap<V>,
    key: PromptKey,
    value: V,
    replaced: Option<V>,
    grown_before: usize,
    grown_after: usize,
    shrunk: &mut PromptMap<V>,
    gone: &PromptKey,
    taken: Option<V>,
    shrunk_before: usize,
    shrunk_after: usize,
)
    requires
        call_ensures(PromptMap::<V>::insert, (grown, key, value), replaced),
        call_ensures(PromptMap::<V>::len, (&*old(grown),), grown_before),
        call_ensures(PromptMap::<V>::len, (&*final(grown),), grown_after),
        call_ensures(PromptMap::<V>::remove, (shrunk, gone), taken),
        call_ensures(PromptMap::<V>::len, (&*old(shrunk),), shrunk_before),
        call_ensures(PromptMap::<V>::len, (&*final(shrunk),), shrunk_after),
    ensures
        grown_after == grown_before + (if replaced is None {
            1int
        } else {
            0int
        }),
        shrunk_after == shrunk_before - (if taken is None {
            0int
        } else {
            1int
        }),
{
    if old(grown)@.contains_key(key@) {
        assert(final(grown)@.dom() =~= old(grown)@.dom());
    } else {
        assert(final(grown)@.dom() =~= old(grown)@.dom().insert(key@));
    }
    if old(shrunk)@.contains_key(gone@) {
        assert(final(shrunk)@.dom() =~= old(shrunk)@.dom().remove(gone@));
    } else {
        assert(final(shrunk)@.dom() =~= old(shrunk)@.dom());
    }
}

/// What the pairs come to under a key: the last one with the key decides.
proof fn last_pair_decides<V>(pairs: Seq<(PromptKey, V)>, key: &PromptKey)
    ensures
        forall|i: int|
            {
                &&& 0 <= i < pairs.len()
                &&& (#[trigger] pairs[i]).0@ == key@
                &&& forall|j: int| i < j < pairs.len() ==> (#[trigger] pairs[j]).0@ != key@
            } ==> {
                &&& prompt_map::collected(pairs).contains_key(key@)
                &&& prompt_map::collected(pairs)[key@] == pairs[i].1
            },
        (forall|i: int| 0 <= i < pairs.len() ==> (#[trigger] pairs[i]).0@ != key@)
            ==> !prompt_map::collected(pairs).contains_key(key@),
    decreases pairs.len(),
{
    if pairs.len() > 0 {
        let init = pairs.drop_last();
        last_pair_decides(init, key);
        let last = pairs.len() - 1;
        if pairs[last].0@ != key@ {
            assert forall|i: int|
                {
                    &&& 0 <= i < pairs.len()
                    &&& (#[trigger] pairs[i]).0@ == key@
                    &&& forall|j: int| i < j < pairs.len() ==> (#[trigger] pairs[j]).0@ != key@
                } implies {
                &&& prompt_map::collected(pairs).contains_key(key@)
                &&& prompt_map::collected(pairs)[key@] == pairs[i].1
            } by {
                assert(init[i] == pairs[i]);
                assert forall|j: int| i < j < init.len() implies (#[trigger] init[j]).0@
                    != key@ by {
                    assert(init[j] == pairs[j]);
                }
            }
            if forall|i: int| 0 <= i < pairs.len() ==> (#[trigger] pairs[i]).0@ != key@ {
                assert forall|i: int| 0 <= i < init.len() implies (#[trigger] init[i]).0@
                    != key@ by {
                    assert(init[i] == pairs[i]);
                }
            }
        } else {
            assert forall|i: int|
                {
                    &&& 0 <= i < pairs.len()
                    &&& (#[trigger] pairs[i]).0@ == key@
                    &&& forall|j: int| i < j < pairs.len() ==> (#[trigger] pairs[j]).0@ != key@
                } implies {
                &&& prompt_map::collected(pairs).contains_key(key@)
                &&& prompt_map::collected(pairs)[key@] == pairs[i].1
            } by {
                assert(!(i < last));
            }
        }
    }
}

/// A map made of pairs has for a key the value of the last pair with it, and nothing where no
/// pair has it.
pub proof fn map_of_pairs_keeps_the_last<V>(
    pairs: Vec<(PromptKey, V)>,
    map: PromptMap<V>,
    key: &PromptKey,
    value: Option<&V>,
    i: int,
)
    requires
        call_ensures(PromptMap::<V>::from_pairs, (pairs,), map),
        call_ensures(PromptMap::<V>::get, (&map, key), value),
        -1 <= i < pairs@.len(),
        forall|j: int|
            i < j < pairs@.len() ==> (#[trigger] pairs@[j]).0.state@ != key.state@
                || pairs@[j].0.event@ != key.event@,
        i >= 0 ==> pairs@[i].0.state@ == key.state@ && pairs@[i].0.event@ == key.event@,
    ensures
        i >= 0 ==> value == Some(&pairs@[i].1),
        i < 0 ==> value is None,
{
    last_pair_decides(pairs@, key);
    assert forall|j: int| i < j < pairs@.len() implies (#[trigger] pairs@[j]).0@ != key@ by {
        assert(pairs@[j].0.state@ != key.state@ || pairs@[j].0.event@ != key.event@);
    }
    if i >= 0 {
        assert(pairs@[i].0@ == key@);
    }
}

/// A new map has nothing, under whichever key, and says so.
pub proof fn new_map_has_nothing<V>(
    map: PromptMap<V>,
    key: &PromptKey,
    value: Option<&V>,
    n: usize,
    empty: bool,
)
    requires
        call_ensures(PromptMap::<V>::new, (), map),
        call_ensures(PromptMap::<V>::get, (&map, key), value),
        call_ensures(PromptMap::<V>::len, (&map,), n),
        call_ensures(PromptMap::<V>::is_empty, (&map,), empty),
    ensures
        value is None,
        n == 0,
        empty,
{
    assert(map@.dom() =~= Set::empty());
}

/// A registry made of a map answers with the text that the map has under the key, whole and
/// unchanged, and where it has none with an error that names the key.
pub proof fn registry_answers_from_its_map(
    map: PromptMap<String>,
    registry: InMemoryRegistry,
    key: &PromptKey,
    value: Option<&String>,
    reply: Result<String, FormeError>,
)
    requires
        call_ensures(InMemoryRegistry::new, (map,), registry) || call_ensures(
            InMemoryRegistry::from_map,
            (map,),
            registry,
        ) || call_ensures(<InMemoryRegistry as From<PromptMap<String>>>::from, (map,), registry),
        call_ensures(PromptMap::<String>::get, (&map, key), value),
        call_ensures(<InMemoryRegistry as Registry>::get, (&registry, key), reply),
    ensures
        match value {
            Some(text) => reply is Ok && reply->Ok_0@ == text@,
            None => {
                &&& reply is Err
                &&& reply->Err_0 is RegistryNotFound
                &&& reply->Err_0->RegistryNotFound_0.state@ == key.state@
                &&& reply->Err_0->RegistryNotFound_0.event@ == key.event@
            },
        },
{
}

/// A registry made of a list answers with the text of the last entry that has the key, and where
/// no entry has it with an error that names the key.
pub proof fn registry_answers_from_its_list(
    entries: Vec<(PromptKey, String)>,
    registry: InMemoryRegistry,
    key: &PromptKey,
    reply: Result<String, FormeError>,
    i: int,
)
    requires
        call_ensures(InMemoryRegistry::from_iter, (entries,), registry),
        call_ensures(<InMemoryRegistry as Registry>::get, (&registry, key), reply),
        -1 <= i < entries@.len(),
        forall|j: int|
            i < j < entries@.len() ==> (#[trigger] entries@[j]).0.state@ != key.state@
                || entries@[j].0.event@ != key.event@,
        i >= 0 ==> entries@[i].0.state@ == key.state@ && entries@[i].0.event@ == key.event@,
    ensures
        i >= 0 ==> reply is Ok && reply->Ok_0@ == entries@[i].1@,
        i < 0 ==> {
            &&& reply is Err
            &&& reply->Err_0 is RegistryNotFound
            &&& reply->Err_0->RegistryNotFound_0.state@ == key.state@
            &&& reply->Err_0->RegistryNotFound_0.event@ == key.event@
        },
{
    last_pair_decides(entries@, key);
    assert forall|j: int| i < j < entries@.len() implies (#[trigger] entries@[j]).0@ != key@ by {
        assert(entries@[j].0.state@ != key.state@ || entries@[j].0.event@ != key.event@);
    }
    if i >= 0 {
        assert(entries@[i].0@ == key@);
    }
}

/// The file of a key lies below the root, in the directory of the state, and is named like the
/// event with `.md` at its end; and the root is the one that the registry was made with.
pub proof fn file_of_a_key(
    root: PathBuf,
    registry: FsRegistry,
    key: &PromptKey,
    path: PathBuf,
    back: &PathBuf,
)
    requires
        call_ensures(FsRegistry::new, (root,), registry),
        call_ensures(FsRegistry::path_for_key, (&registry, key), path),
        call_ensures(FsRegistry::root, (&registry,), back),
    ensures
        path == paths::joined(
            paths::joined(root, key.state@),
            key.event@ + seq!['.', 'm', 'd'],
        ),
        *back == root,
{
    reveal_strlit(".md");
    assert(".md"@ =~= seq!['.', 'm', 'd']);
}

/// A file that was read is answered with what was read while it is found with the time that it
/// had then, and is read again once it is found with any other time. Reading it changes nothing
/// for the other files.
pub proof fn read_file_is_kept_for_its_time(
    registry: &mut FsRegistry,
    key: &PromptKey,
    s: i128,
    content: String,
    reply: Result<String, FormeError>,
    same_key: &PromptKey,
    t: i128,
    next: Lookup,
    other_key: &PromptKey,
    modified: Option<i128>,
    before: Lookup,
    after: Lookup,
)
    requires
        call_ensures(
            FsRegistry::after_read,
            (registry, key, s, ReadReply::Content(content)),
            reply,
        ),
        same_key.state@ == key.state@ && same_key.event@ == key.event@,
        call_ensures(
            FsRegistry::after_stat,
            (&*final(registry), same_key, StatReply::Found(Some(t))),
            next,
        ),
        other_key.state@ != key.state@ || other_key.event@ != key.event@,
        call_ensures(
            FsRegistry::after_stat,
            (&*old(registry), other_key, StatReply::Found(modified)),
            before,
        ),
        call_ensures(
            FsRegistry::after_stat,
            (&*final(registry), other_key, StatReply::Found(modified)),
            after,
        ),
    ensures
        reply is Ok,
        reply->Ok_0@ == content@,
        s == t ==> next is Done && next->Done_0 is Ok && next->Done_0->Ok_0@ == content@,
        s != t ==> next == Lookup::Read(t),
        before is Done <==> after is Done,
        before is Done ==> before->Done_0 is Ok && after->Done_0 is Ok
            && before->Done_0->Ok_0@ == after->Done_0->Ok_0@,
        before is Read ==> before == after,
{
    assert(same_key@ == key@);
    assert(other_key@ != key@);
}

/// A file that is found without a time counts as one that was changed at the start of 1970.
pub proof fn file_without_a_time(
    registry: &FsRegistry,
    key: &PromptKey,
    untimed: Lookup,
    timed: Lookup,
)
    requires
        call_ensures(FsRegistry::after_stat, (registry, key, StatReply::Found(None)), untimed),
        call_ensures(FsRegistry::after_stat, (registry, key, StatReply::Found(Some(0))), timed),
    ensures
        untimed is Read <==> timed is Read,
        untimed is Read ==> untimed == Lookup::Read(0) && timed == Lookup::Read(0),
        untimed is Done ==> untimed->Done_0 is Ok && timed->Done_0 is Ok
            && untimed->Done_0->Ok_0@ == timed->Done_0->Ok_0@,
{
}

/// Before any file was read, and once all was forgotten, every file that is found is to be read,
/// with the time that it was found with.
pub proof fn files_are_read_when_nothing_is_kept(
    root: PathBuf,
    fresh: FsRegistry,
    cleared: &mut FsRegistry,
    key: &PromptKey,
    t: i128,
    next_fresh: Lookup,
    next_cleared: Lookup,
)
    requires
        call_ensures(FsRegistry::new, (root,), fresh),
        call_ensures(FsRegistry::clear_cache, (cleared,), ()),
        call_ensures(
            FsRegistry::after_stat,
            (&fresh, key, StatReply::Found(Some(t))),
            next_fresh,
        ),
        call_ensures(
            FsRegistry::after_stat,
            (&*final(cleared), key, StatReply::Found(Some(t))),
            next_cleared,
        ),
    ensures
        next_fresh == Lookup::Read(t),
        next_cleared == Lookup::Read(t),
{
}

/// A file that is not there is answered with an error that names the key, whether that shows
/// when it is asked for or when it is read, and whatever is kept.
pub proof fn missing_file_is_told_by_its_key(
    registry: &FsRegistry,
    reading: &mut FsRegistry,
    key: &PromptKey,
    mtime: i128,
    next: Lookup,
    reply: Result<String, FormeError>,
)
    requires
        call_ensures(FsRegistry::after_stat, (registry, key, StatReply::NotFound), next),
        call_ensures(
            FsRegistry::after_read,
            (reading, key, mtime, ReadReply::NotFound),
            reply,
        ),
    ensures
        next is Done,
        next->Done_0 is Err,
        next->Done_0->Err_0 is RegistryNotFound,
        next->Done_0->Err_0->RegistryNotFound_0.state@ == key.state@,
        next->Done_0->Err_0->RegistryNotFound_0.event@ == key.event@,
        reply is Err,
        reply->Err_0 is RegistryNotFound,
        reply->Err_0->RegistryNotFound_0.state@ == key.state@,
        reply->Err_0->RegistryNotFound_0.event@ == key.event@,
{
}

/// A failure of the file system is told with what was tried, the path of the file and the reason.
pub proof fn file_failure_is_told_by_its_path(
    registry: &FsRegistry,
    reading: &mut FsRegistry,
    key: &PromptKey,
    mtime: i128,
    why: String,
    next: Lookup,
    reply: Result<String, FormeError>,
    path: PathBuf,
    reading_path: PathBuf,
)
    requires
        call_ensures(FsRegistry::path_for_key, (registry, key), path),
        call_ensures(FsRegistry::path_for_key, (&*old(reading), key), reading_path),
        call_ensures(FsRegistry::after_stat, (registry, key, StatReply::Failed(why)), next),
        call_ensures(
            FsRegistry::after_read,
            (reading, key, mtime, ReadReply::Failed(why)),
            reply,
        ),
    ensures
        next is Done,
        next->Done_0 is Err,
        next->Done_0->Err_0 is PersistenceFailed,
        next->Done_0->Err_0->PersistenceFailed_0@ == "failed to stat "@ + paths::path_text(path)
            + ": "@ + why@,
        reply is Err,
        reply->Err_0 is PersistenceFailed,
        reply->Err_0->PersistenceFailed_0@ == "failed to read "@ + paths::path_text(reading_path)
            + ": "@ + why@,
{
}

/// A read that gave no content leaves what is kept as it was: a file is answered, or read, as
/// before.
pub proof fn failed_read_keeps_what_is_kept(
    registry: &mut FsRegistry,
    key: &PromptKey,
    mtime: i128,
    read: ReadReply,
    reply: Result<String, FormeError>,
    asked: &PromptKey,
    modified: Option<i128>,
    before: Lookup,
    after: Lookup,
)
    requires
        !(read is Content),
        call_ensures(FsRegistry::after_read, (registry, key, mtime, read), reply),
        call_ensures(
            FsRegistry::after_stat,
            (&*old(registry), asked, StatReply::Found(modified)),
            before,
        ),
        call_ensures(
            FsRegistry::after_stat,
            (&*final(registry), asked, StatReply::Found(modified)),
            after,
        ),
    ensures
        reply is Err,
        before is Done <==> after is Done,
        before is Done ==> before->Done_0 is Ok && after->Done_0 is Ok
            && before->Done_0->Ok_0@ == after->Done_0->Ok_0@,
        before is Read ==> before == after,
{
}

/// What is said of a failed file joins the four parts in their order.
pub proof fn failure_text_joins_its_parts(verb: &str, path: &str, why: &str, said: String)
    requires
        call_ensures(io_failure, (verb, path, why), said),
    ensures
        said@ == verb@ + path@ + seq![':', ' '] + why@,
{
    reveal_strlit(": ");
    assert(": "@ =~= seq![':', ' ']);
}

} // verus!
