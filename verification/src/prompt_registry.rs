//! Where prompts come from: a map in memory, or files that are read once and kept until they
//! change.

use std::path::PathBuf;

use vstd::prelude::*;

use crate::kernel;
use crate::kernel::{FormeError, FormeErrorView, PromptKey, PromptKeyView};
use crate::paths;
use crate::paths::{display, join};
use crate::prompt_map;
use crate::prompt_map::PromptMap;

verus! {

/// A source of prompts.
pub trait Registry: Send + Sync {
    /// Whether the registry may answer `reply` for a key; a registry that does not say may
    /// answer anything.
    open spec fn answers(&self, key: PromptKeyView, reply: Result<String, FormeError>) -> bool {
        true
    }

    /// The prompt of a key, or [`FormeError::RegistryNotFound`] with the key where there is none.
    fn get(&self, key: &PromptKey) -> (reply: Result<String, FormeError>)
        ensures
            self.answers(key@, reply),
    ;
}

/// The prompts of a map, as text.
pub open spec fn prompts(map: Map<PromptKeyView, String>) -> Map<PromptKeyView, Seq<char>> {
    map.map_values(|prompt: String| prompt@)
}

/// A registry that holds its prompts in memory.
#[derive(Debug)]
pub struct InMemoryRegistry(pub PromptMap<String>);

impl View for InMemoryRegistry {
    type V = Map<PromptKeyView, Seq<char>>;

    open spec fn view(&self) -> Map<PromptKeyView, Seq<char>> {
        prompts(self.0@)
    }
}

impl InMemoryRegistry {
    /// The registry of the prompts of a map.
    pub fn new(map: PromptMap<String>) -> (registry: Self)
        ensures
            registry.0 == map,
            registry@ == prompts(map@),
    {
        InMemoryRegistry(map)
    }

    /// The same as [`InMemoryRegistry::new`].
    pub fn from_map(map: PromptMap<String>) -> (registry: Self)
        ensures
            registry.0 == map,
            registry@ == prompts(map@),
    {
        InMemoryRegistry::new(map)
    }

    /// The registry of a list of keys and prompts; of two entries with one key, the later one
    /// counts.
    pub fn from_iter(entries: Vec<(PromptKey, String)>) -> (registry: Self)
        ensures
            registry@ == prompts(prompt_map::collected(entries@)),
    {
        InMemoryRegistry(PromptMap::from_pairs(entries))
    }
}

impl From<PromptMap<String>> for InMemoryRegistry {
    fn from(map: PromptMap<String>) -> (registry: Self) {
        InMemoryRegistry(map)
    }
}

impl vstd::std_specs::convert::FromSpecImpl<PromptMap<String>> for InMemoryRegistry {
    open spec fn obeys_from_spec() -> bool {
        true
    }

    open spec fn from_spec(map: PromptMap<String>) -> Self {
        InMemoryRegistry(map)
    }
}

impl Registry for InMemoryRegistry {
    open spec fn answers(&self, key: PromptKeyView, reply: Result<String, FormeError>) -> bool {
        match reply {
            Ok(prompt) => self@.contains_key(key) && prompt@ == self@[key],
            Err(e) => !self@.contains_key(key) && e@ == FormeErrorView::RegistryNotFound(key),
        }
    }

    fn get(&self, key: &PromptKey) -> (reply: Result<String, FormeError>) {
        match self.0.get(key) {
            Some(prompt) => Ok(prompt.clone()),
            None => Err(FormeError::RegistryNotFound(key.clone())),
        }
    }
}

/// What came of asking the file system about a file.
#[derive(Debug)]
pub enum StatReply {
    /// The file is there. Its time of change counts nanoseconds from the start of 1970, and is
    /// missing where the platform does not keep it.
    Found(Option<i128>),
    /// There is no such file.
    NotFound,
    /// The file system failed, for the reason given.
    Failed(String),
}

/// What came of reading a file.
#[derive(Debug)]
pub enum ReadReply {
    /// The whole content.
    Content(String),
    /// There is no such file.
    NotFound,
    /// The file system failed, for the reason given.
    Failed(String),
}

/// What is to be done once the file system has been asked about a file.
#[derive(Debug)]
pub enum Lookup {
    /// The prompt, or the error, is known.
    Done(Result<String, FormeError>),
    /// The file is to be read, and its content kept with this time of change.
    Read(i128),
}

/// What a [`Lookup`] holds.
pub enum LookupView {
    Done(Result<Seq<char>, FormeErrorView>),
    Read(int),
}

impl View for Lookup {
    type V = LookupView;

    open spec fn view(&self) -> LookupView {
        match self {
            Lookup::Done(reply) => LookupView::Done(kernel::reply_view(*reply)),
            Lookup::Read(mtime) => LookupView::Read(*mtime as int),
        }
    }
}

/// A prompt that was read from a file, with the time of change that the file then had.
#[derive(Debug)]
pub struct CachedPrompt {
    pub content: String,
    pub mtime: i128,
}

/// The prompts that were read, each with the time of change of its file.
pub type Cache = Map<PromptKeyView, (Seq<char>, int)>;

/// The file of a key: below the root, in a directory named like the state, the file named like
/// the event, with `.md` at its end.
pub open spec fn path_of(root: PathBuf, key: PromptKeyView) -> PathBuf {
    paths::joined(paths::joined(root, key.state), key.event + ".md"@)
}

/// The time of change that counts; where it is not known, the start of 1970 stands for it.
pub open spec fn mtime_of(modified: Option<i128>) -> int {
    match modified {
        Some(t) => t as int,
        None => 0,
    }
}

/// What is to be done for a key, given what the file system says of its file: a file that is not
/// there has no prompt, one that has not changed since it was read is not read again.
pub open spec fn looked_up(
    root: PathBuf,
    cache: Cache,
    key: PromptKeyView,
    stat: StatReply,
) -> LookupView {
    match stat {
        StatReply::NotFound => LookupView::Done(Err(FormeErrorView::RegistryNotFound(key))),
        StatReply::Failed(why) => LookupView::Done(
            Err(
                FormeErrorView::PersistenceFailed(
                    "failed to stat "@ + paths::path_text(path_of(root, key)) + ": "@ + why@,
                ),
            ),
        ),
        StatReply::Found(modified) => {
            let mtime = mtime_of(modified);
            if cache.contains_key(key) && cache[key].1 == mtime {
                LookupView::Done(Ok(cache[key].0))
            } else {
                LookupView::Read(mtime)
            }
        },
    }
}

/// The answer for a key whose file was read: its content as it is.
pub open spec fn read_answer(root: PathBuf, key: PromptKeyView, read: ReadReply) -> Result<
    Seq<char>,
    FormeErrorView,
> {
    match read {
        ReadReply::Content(content) => Ok(content@),
        ReadReply::NotFound => Err(FormeErrorView::RegistryNotFound(key)),
        ReadReply::Failed(why) => Err(
            FormeErrorView::PersistenceFailed(
                "failed to read "@ + paths::path_text(path_of(root, key)) + ": "@ + why@,
            ),
        ),
    }
}

/// The cache once the file of a key was read: it holds what was read, if it was.
pub open spec fn read_cache(cache: Cache, key: PromptKeyView, mtime: int, read: ReadReply) -> Cache {
    match read {
        ReadReply::Content(content) => cache.insert(key, (content@, mtime)),
        _ => cache,
    }
}

/// What is said of a file that the file system failed on: `<verb> <path>: <why>`.
pub fn io_failure(verb: &str, path: &str, why: &str) -> (s: String)
    ensures
        s@ == verb@ + path@ + ": "@ + why@,
{
    let mut s = verb.to_string();
    s.append(path);
    s.append(": ");
    s.append(why);
    s
}

/// A registry of the files `<root>/<state>/<event>.md`.
///
/// It decides; asking about a file and reading it is up to the caller. A lookup asks the file
/// system about the file of [`FsRegistry::path_for_key`], hands the answer to
/// [`FsRegistry::after_stat`], and where that says so reads the file and hands the outcome to
/// [`FsRegistry::after_read`].
#[derive(Debug)]
pub struct FsRegistry {
    root: PathBuf,
    cache: PromptMap<CachedPrompt>,
}

impl FsRegistry {
    /// The directory below which the files lie.
    pub closed spec fn root_path(&self) -> PathBuf {
        self.root
    }

    /// What was read and is kept.
    pub closed spec fn cached(&self) -> Cache {
        self.cache@.map_values(|kept: CachedPrompt| (kept.content@, kept.mtime as int))
    }

    /// The registry of the files below `root`, of which none was read yet.
    pub fn new(root: PathBuf) -> (registry: Self)
        ensures
            registry.root_path() == root,
            registry.cached() == Cache::empty(),
    {
        let registry = FsRegistry { root, cache: PromptMap::new() };
        assert(registry.cached() =~= Cache::empty());
        registry
    }

    /// The path of the file of a key.
    pub fn path_for_key(&self, key: &PromptKey) -> (path: PathBuf)
        ensures
            path == path_of(self.root_path(), key@),
            path == paths::joined(
                paths::joined(self.root_path(), key.state@),
                key.event@ + ".md"@,
            ),
    {
        let dir = join(&self.root, key.state.as_str());
        let mut file = key.event.clone();
        file.append(".md");
        join(&dir, file.as_str())
    }

    /// The directory below which the files lie.
    pub fn root(&self) -> (root: &PathBuf)
        ensures
            *root == self.root_path(),
    {
        &self.root
    }

    /// Forgets all that was read.
    pub fn clear_cache(&mut self)
        ensures
            final(self).cached() == Cache::empty(),
            final(self).root_path() == old(self).root_path(),
    {
        self.cache = PromptMap::new();
        assert(self.cached() =~= Cache::empty());
    }

    /// What is to be done for a key, once the file system was asked about its file.
    pub fn after_stat(&self, key: &PromptKey, stat: StatReply) -> (next: Lookup)
        ensures
            next@ == looked_up(self.root_path(), self.cached(), key@, stat),
            match stat {
                StatReply::NotFound => next matches Lookup::Done(Err(e)) && e
                    matches FormeError::RegistryNotFound(missing) && missing@ == key@,
                StatReply::Failed(why) => next matches Lookup::Done(Err(e)) && e
                    matches FormeError::PersistenceFailed(text) && text@ == "failed to stat "@
                    + paths::path_text(
                    paths::joined(
                        paths::joined(self.root_path(), key.state@),
                        key.event@ + ".md"@,
                    ),
                ) + ": "@ + why@,
                StatReply::Found(Some(t)) => if self.cached().contains_key(key@)
                    && self.cached()[key@].1 == t {
                    next matches Lookup::Done(Ok(text)) && text@ == self.cached()[key@].0
                } else {
                    next == Lookup::Read(t)
                },
                StatReply::Found(None) => if self.cached().contains_key(key@)
                    && self.cached()[key@].1 == 0 {
                    next matches Lookup::Done(Ok(text)) && text@ == self.cached()[key@].0
                } else {
                    next == Lookup::Read(0)
                },
            },
    {
        match stat {
            StatReply::NotFound => Lookup::Done(Err(FormeError::RegistryNotFound(key.clone()))),
            StatReply::Failed(why) => {
                let path = display(&self.path_for_key(key));
                let text = io_failure("failed to stat ", path.as_str(), why.as_str());
                Lookup::Done(Err(FormeError::PersistenceFailed(text)))
            },
            StatReply::Found(modified) => {
                let mtime: i128 = match modified {
                    Some(t) => t,
                    None => 0,
                };
                match self.cache.get(key) {
                    Some(kept) => {
                        if kept.mtime == mtime {
                            Lookup::Done(Ok(kept.content.clone()))
                        } else {
                            Lookup::Read(mtime)
                        }
                    },
                    None => Lookup::Read(mtime),
                }
            },
        }
    }

    /// The answer for a key, once its file was read. What was read is kept with `mtime`.
    pub fn after_read(&mut self, key: &PromptKey, mtime: i128, read: ReadReply) -> (reply: Result<
        String,
        FormeError,
    >)
        ensures
            kernel::reply_view(reply) == read_answer(old(self).root_path(), key@, read),
            final(self).cached() == read_cache(old(self).cached(), key@, mtime as int, read),
            final(self).root_path() == old(self).root_path(),
            match read {
                ReadReply::Content(content) => {
                    &&& reply matches Ok(text)
                    &&& text@ == content@
                    &&& final(self).cached() == old(self).cached().insert(
                        key@,
                        (content@, mtime as int),
                    )
                },
                ReadReply::NotFound => {
                    &&& reply matches Err(e)
                    &&& e matches FormeError::RegistryNotFound(missing)
                    &&& missing@ == key@
                    &&& final(self).cached() == old(self).cached()
                },
                ReadReply::Failed(why) => {
                    &&& reply matches Err(e)
                    &&& e matches FormeError::PersistenceFailed(text)
                    &&& text@ == "failed to read "@ + paths::path_text(
                        paths::joined(
                            paths::joined(old(self).root_path(), key.state@),
                            key.event@ + ".md"@,
                        ),
                    ) + ": "@ + why@
                    &&& final(self).cached() == old(self).cached()
                },
            },
    {
        match read {
            ReadReply::NotFound => Err(FormeError::RegistryNotFound(key.clone())),
            ReadReply::Failed(why) => {
                let path = display(&self.path_for_key(key));
                let text = io_failure("failed to read ", path.as_str(), why.as_str());
                Err(FormeError::PersistenceFailed(text))
            },
            ReadReply::Content(content) => {
                let kept = CachedPrompt { content: content.clone(), mtime };
                self.cache.insert(key.clone(), kept);
                assert(self.cached() =~= old(self).cached().insert(
                    key@,
                    (content@, mtime as int),
                ));
                Ok(content)
            },
        }
    }
}

/// What was read is answered again, without reading, while the file keeps its time of change.
pub proof fn unchanged_file_is_not_read_again(
    root: PathBuf,
    cache: Cache,
    key: PromptKeyView,
    content: String,
    modified: Option<i128>,
)
    ensures
        looked_up(
            root,
            read_cache(cache, key, mtime_of(modified), ReadReply::Content(content)),
            key,
            StatReply::Found(modified),
        ) == LookupView::Done(Ok(content@)),
{
}

/// A file whose time of change is another one than when it was read is read again.
pub proof fn changed_file_is_read_again(
    root: PathBuf,
    cache: Cache,
    key: PromptKeyView,
    content: String,
    mtime: int,
    modified: Option<i128>,
)
    requires
        mtime_of(modified) != mtime,
    ensures
        looked_up(
            root,
            read_cache(cache, key, mtime, ReadReply::Content(content)),
            key,
            StatReply::Found(modified),
        ) == LookupView::Read(mtime_of(modified)),
{
}

/// The time that a file was changed at counts as it is, however early or late it lies, and where
/// it is not known the start of 1970 stands for it.
pub proof fn every_time_counts_as_it_is(t: i128)
    ensures
        mtime_of(Some(t)) == t,
        mtime_of(None) == 0,
{
}

/// Of a file that was read when it had been changed at `s`, the content is answered again while it
/// is found with that time, and the file is read again once it is found with any other, earlier or
/// later, near or far.
pub proof fn times_decide_on_reading(
    root: PathBuf,
    cache: Cache,
    key: PromptKeyView,
    content: String,
    s: i128,
    t: i128,
)
    ensures
        ({
            let kept = read_cache(cache, key, s as int, ReadReply::Content(content));
            let again = looked_up(root, kept, key, StatReply::Found(Some(s)));
            let changed = looked_up(root, kept, key, StatReply::Found(Some(t)));
            &&& again == LookupView::Done(Ok(content@))
            &&& s != t ==> changed == LookupView::Read(t as int)
        }),
{
}

/// With nothing kept, every file that is there is read.
pub proof fn empty_cache_reads(root: PathBuf, key: PromptKeyView, modified: Option<i128>)
    ensures
        looked_up(root, Cache::empty(), key, StatReply::Found(modified)) == LookupView::Read(
            mtime_of(modified),
        ),
{
}

/// Reading the file of one key leaves what is known of the others as it was.
pub proof fn reading_one_key_keeps_the_others(
    root: PathBuf,
    cache: Cache,
    key: PromptKeyView,
    other: PromptKeyView,
    mtime: int,
    read: ReadReply,
    stat: StatReply,
)
    requires
        key != other,
    ensures
        looked_up(root, read_cache(cache, key, mtime, read), other, stat) == looked_up(
            root,
            cache,
            other,
            stat,
        ),
{
}

/// A lookup: the key, what the file system says of its file, and what reading it gives.
pub struct Visit {
    pub key: PromptKeyView,
    pub stat: StatReply,
    pub read: ReadReply,
}

/// The answer of a whole lookup: what is known already, or else what the file is read to.
pub open spec fn visit_answer(root: PathBuf, cache: Cache, visit: Visit) -> Result<
    Seq<char>,
    FormeErrorView,
> {
    match looked_up(root, cache, visit.key, visit.stat) {
        LookupView::Done(reply) => reply,
        LookupView::Read(_) => read_answer(root, visit.key, visit.read),
    }
}

/// What is kept after a whole lookup.
pub open spec fn visit_cache(root: PathBuf, cache: Cache, visit: Visit) -> Cache {
    match looked_up(root, cache, visit.key, visit.stat) {
        LookupView::Done(_) => cache,
        LookupView::Read(mtime) => read_cache(cache, visit.key, mtime, visit.read),
    }
}

/// What is kept after lookups, one after another.
pub open spec fn visits_cache(root: PathBuf, cache: Cache, visits: Seq<Visit>) -> Cache
    decreases visits.len(),
{
    if visits.len() == 0 {
        cache
    } else {
        visit_cache(root, visits_cache(root, cache, visits.drop_last()), visits.last())
    }
}

/// A file of which nothing is kept, or which was kept with another time of change, older or
/// newer, is read, and its text is the answer as it is.
pub proof fn lookup_gives_the_present_text(
    root: PathBuf,
    cache: Cache,
    key: PromptKeyView,
    modified: Option<i128>,
    content: String,
)
    requires
        !(cache.contains_key(key) && cache[key].1 == mtime_of(modified)),
    ensures
        ({
            let visit = Visit {
                key,
                stat: StatReply::Found(modified),
                read: ReadReply::Content(content),
            };
            &&& visit_answer(root, cache, visit) == Ok::<Seq<char>, FormeErrorView>(content@)
            &&& visit_cache(root, cache, visit) == cache.insert(key, (content@, mtime_of(modified)))
        }),
{
}

/// What a lookup read is the answer of a later one for the same key with the same time of change,
/// whatever the file would now be read to, and whatever was looked up for other keys meanwhile.
pub proof fn lookup_gives_the_text_that_is_kept(
    root: PathBuf,
    cache: Cache,
    key: PromptKeyView,
    modified: Option<i128>,
    content: String,
    meanwhile: Seq<Visit>,
    read: ReadReply,
)
    requires
        !(cache.contains_key(key) && cache[key].1 == mtime_of(modified)),
        forall|i: int| 0 <= i < meanwhile.len() ==> (#[trigger] meanwhile[i]).key != key,
    ensures
        ({
            let stat = StatReply::Found(modified);
            let first = Visit { key, stat, read: ReadReply::Content(content) };
            let kept = visits_cache(root, visit_cache(root, cache, first), meanwhile);
            &&& looked_up(root, kept, key, stat) == LookupView::Done(Ok(content@))
            &&& visit_answer(root, kept, Visit { key, stat, read }) == Ok::<
                Seq<char>,
                FormeErrorView,
            >(content@)
        }),
    decreases meanwhile.len(),
{
    if meanwhile.len() > 0 {
        let before = meanwhile.drop_last();
        assert forall|i: int| 0 <= i < before.len() implies (#[trigger] before[i]).key != key by {
            assert(before[i] == meanwhile[i]);
        }
        lookup_gives_the_text_that_is_kept(root, cache, key, modified, content, before, read);
        assert(meanwhile[meanwhile.len() - 1].key != key);
    }
}

} // verus!
