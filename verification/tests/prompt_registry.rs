//! Registries: prompts in memory, and the decisions over prompts in files.

use std::collections::BTreeMap;
use std::path::PathBuf;

use forme::prompt_map::PromptMap;
use forme::prompt_registry::{
    FsRegistry, InMemoryRegistry, Lookup, ReadReply, Registry, StatReply,
};
use forme::{FormeError, PromptKey};

/// Files with their times of change.
struct Disk {
    files: BTreeMap<PathBuf, (String, i128)>,
    reads: usize,
}

impl Disk {
    fn new() -> Self {
        Disk {
            files: BTreeMap::new(),
            reads: 0,
        }
    }

    fn write(&mut self, path: &str, content: &str, mtime: i128) {
        self.files
            .insert(PathBuf::from(path), (content.to_string(), mtime));
    }

    /// Looks a prompt up as a caller of the registry does.
    fn get(&mut self, registry: &mut FsRegistry, key: &PromptKey) -> Result<String, FormeError> {
        let path = registry.path_for_key(key);
        let stat = match self.files.get(&path) {
            Some((_, mtime)) => StatReply::Found(Some(*mtime)),
            None => StatReply::NotFound,
        };
        match registry.after_stat(key, stat) {
            Lookup::Done(reply) => reply,
            Lookup::Read(mtime) => {
                self.reads += 1;
                let read = match self.files.get(&path) {
                    Some((content, _)) => ReadReply::Content(content.clone()),
                    None => ReadReply::NotFound,
                };
                registry.after_read(key, mtime, read)
            }
        }
    }
}

#[test]
fn fs_registry_happy_reads_file() {
    let mut disk = Disk::new();
    let expected: &str = "You are in Idle, responding to UserMsg.";
    disk.write("/prompts/Idle/UserMsg.md", expected, 1);

    let mut registry: FsRegistry = FsRegistry::new(PathBuf::from("/prompts"));
    let key: PromptKey = PromptKey::new("Idle", "UserMsg");
    let got: String = disk.get(&mut registry, &key).expect("should read");
    assert_eq!(got, expected);
}

#[test]
fn in_memory_happy_returns() {
    let mut map: PromptMap<String> = PromptMap::new();
    let key: PromptKey = PromptKey::new("Active", "Save");
    map.insert(key.clone(), "active-save-prompt".into());
    let registry: InMemoryRegistry = InMemoryRegistry::new(map);

    let got: String = registry.get(&key).expect("in-memory should hit");
    assert_eq!(got, "active-save-prompt");

    let boxed: Box<dyn Registry> = Box::new(InMemoryRegistry::from_map(PromptMap::from_pairs(
        vec![(PromptKey::new("Idle", "UserMsg"), "hello".into())],
    )));
    let k2: PromptKey = PromptKey::new("Idle", "UserMsg");
    assert_eq!(boxed.get(&k2).unwrap(), "hello");
}

#[test]
fn missing_returns_not_found_with_key_substring() {
    let mut disk = Disk::new();
    let mut registry: FsRegistry = FsRegistry::new(PathBuf::from("/prompts"));
    let key: PromptKey = PromptKey::new("Idle", "MissingEvent");
    let err: FormeError = disk.get(&mut registry, &key).unwrap_err();
    assert!(err.is_not_found(), "should be not_found");
    let msg: String = err.to_string();
    assert!(
        msg.contains("Idle::MissingEvent") || msg.contains("Idle"),
        "msg '{}' should contain canonical key",
        msg
    );
    assert!(
        msg.contains("MissingEvent"),
        "msg '{}' should contain event part",
        msg
    );
    assert!(msg.contains("prompt not found"), "msg was: {}", msg);

    let empty: InMemoryRegistry = InMemoryRegistry::new(PromptMap::new());
    let err2: FormeError = empty.get(&key).unwrap_err();
    assert!(err2.is_not_found());
    assert!(err2.to_string().contains("Idle::MissingEvent"));
}

#[test]
fn mtime_cache_invalidation_after_touch() {
    let mut disk = Disk::new();
    disk.write("/prompts/Idle/UserMsg.md", "v1", 1_000);

    let mut registry: FsRegistry = FsRegistry::new(PathBuf::from("/prompts"));
    let key: PromptKey = PromptKey::new("Idle", "UserMsg");

    let first: String = disk.get(&mut registry, &key).expect("first read");
    assert_eq!(first, "v1");

    let cached: String = disk.get(&mut registry, &key).expect("cached read");
    assert_eq!(cached, "v1");
    assert_eq!(disk.reads, 1);

    disk.write("/prompts/Idle/UserMsg.md", "v2", 2_100);

    let second: String = disk.get(&mut registry, &key).expect("after touch");
    assert_eq!(
        second, "v2",
        "cache should have invalidated via mtime, got '{}' expected 'v2'",
        second
    );
    assert_eq!(disk.reads, 2);
}

#[test]
fn key_canonical_maps_to_path() {
    let root: PathBuf = PathBuf::from("/tmp/root_example");
    let registry: FsRegistry = FsRegistry::new(root.clone());
    let key: PromptKey = PromptKey::new("Idle", "UserMsg");
    assert_eq!(key.canonical(), "Idle::UserMsg");
    assert_eq!(key.to_string(), "Idle::UserMsg");

    let path: PathBuf = registry.path_for_key(&key);
    let expected_suffix: PathBuf = PathBuf::from("Idle").join("UserMsg.md");
    assert!(
        path.ends_with(expected_suffix),
        "path {:?} should end with Idle/UserMsg.md",
        path
    );
    assert!(path.starts_with(&root));

    let path2: PathBuf = root.join("Idle").join("UserMsg.md");
    assert_eq!(path, path2);

    let manual: PathBuf = root
        .join(key.state.clone())
        .join(format!("{}.md", key.event));
    assert_eq!(path, manual);
}

#[test]
fn whitespace_raw_returned_as_is() {
    let mut disk = Disk::new();
    let content: &str = "  hello world  \n\n\t\n";
    disk.write("/prompts/Idle/UserMsg.md", content, 1);

    let mut registry: FsRegistry = FsRegistry::new(PathBuf::from("/prompts"));
    let key: PromptKey = PromptKey::new("Idle", "UserMsg");
    let got: String = disk.get(&mut registry, &key).unwrap();
    assert_eq!(
        got, content,
        "FsRegistry should return raw content without trimming"
    );
    assert!(got.starts_with("  "), "leading spaces preserved");
    assert!(got.ends_with("\n"), "trailing newline preserved");

    let mut map: PromptMap<String> = PromptMap::new();
    map.insert(key.clone(), content.to_string());
    let mem: InMemoryRegistry = InMemoryRegistry::from(map);
    let got2: String = mem.get(&key).unwrap();
    assert_eq!(got2, content);
}

#[test]
fn manual_clear_cache_invalidates() {
    let mut disk = Disk::new();
    disk.write("/prompts/StateA/Ev.md", "first", 5);

    let mut registry: FsRegistry = FsRegistry::new(PathBuf::from("/prompts"));
    let key: PromptKey = PromptKey::new("StateA", "Ev");
    let v1: String = disk.get(&mut registry, &key).unwrap();
    assert_eq!(v1, "first");

    // Another content under the same time of change is not noticed until the cache is cleared.
    disk.write("/prompts/StateA/Ev.md", "second", 5);
    assert_eq!(disk.get(&mut registry, &key).unwrap(), "first");
    registry.clear_cache();

    let v2: String = disk.get(&mut registry, &key).unwrap();
    assert_eq!(v2, "second", "after clear_cache, should re-read file");
    assert_eq!(registry.root(), &PathBuf::from("/prompts"));
}

#[test]
fn returns_cloned_string() {
    let mut map: PromptMap<String> = PromptMap::new();
    let key: PromptKey = PromptKey::new("S", "E");
    map.insert(key.clone(), "original".into());
    let reg: InMemoryRegistry = InMemoryRegistry::new(map);
    let mut got: String = reg.get(&key).unwrap();
    got.push_str(" mutated");
    let got2: String = reg.get(&key).unwrap();
    assert_eq!(got2, "original");
}

#[test]
fn failures_of_the_file_system_name_the_file() {
    let mut registry = FsRegistry::new(PathBuf::from("/prompts"));
    let key = PromptKey::new("Idle", "UserMsg");
    match registry.after_stat(&key, StatReply::Failed("denied".to_string())) {
        Lookup::Done(Err(e)) => assert_eq!(
            e.to_string(),
            "persistence failed: failed to stat /prompts/Idle/UserMsg.md: denied"
        ),
        other => panic!("unexpected {other:?}"),
    }
    let err = registry
        .after_read(&key, 1, ReadReply::Failed("denied".to_string()))
        .unwrap_err();
    assert_eq!(
        err.to_string(),
        "persistence failed: failed to read /prompts/Idle/UserMsg.md: denied"
    );
    let err = registry.after_read(&key, 1, ReadReply::NotFound).unwrap_err();
    assert!(err.is_not_found());
    // A read that failed leaves nothing behind.
    assert!(matches!(
        registry.after_stat(&key, StatReply::Found(Some(1))),
        Lookup::Read(1)
    ));
}

#[test]
fn a_file_without_time_of_change_counts_as_old() {
    let mut registry = FsRegistry::new(PathBuf::from("prompts/"));
    let key = PromptKey::new("Idle", "UserMsg");
    assert_eq!(
        registry.path_for_key(&key),
        PathBuf::from("prompts/Idle/UserMsg.md")
    );
    assert!(matches!(
        registry.after_stat(&key, StatReply::Found(None)),
        Lookup::Read(0)
    ));
    registry
        .after_read(&key, 0, ReadReply::Content("text".to_string()))
        .unwrap();
    match registry.after_stat(&key, StatReply::Found(None)) {
        Lookup::Done(Ok(prompt)) => assert_eq!(prompt, "text"),
        other => panic!("unexpected {other:?}"),
    }
    match registry.after_stat(&key, StatReply::Found(Some(0))) {
        Lookup::Done(Ok(prompt)) => assert_eq!(prompt, "text"),
        other => panic!("unexpected {other:?}"),
    }
}

#[test]
fn reading_one_prompt_keeps_the_others() {
    let mut disk = Disk::new();
    disk.write("/prompts/Idle/A.md", "a", 1);
    disk.write("/prompts/Idle/B.md", "b", 2);
    let mut registry = FsRegistry::new(PathBuf::from("/prompts"));
    let a = PromptKey::new("Idle", "A");
    let b = PromptKey::new("Idle", "B");
    assert_eq!(disk.get(&mut registry, &a).unwrap(), "a");
    assert_eq!(disk.get(&mut registry, &b).unwrap(), "b");
    assert_eq!(disk.get(&mut registry, &a).unwrap(), "a");
    assert_eq!(disk.get(&mut registry, &b).unwrap(), "b");
    assert_eq!(disk.reads, 2);
    // A file that is gone has no prompt, though it was read before.
    disk.files.remove(&PathBuf::from("/prompts/Idle/A.md"));
    assert!(disk.get(&mut registry, &a).unwrap_err().is_not_found());
}

#[test]
fn paths_join_like_those_of_the_system() {
    for root in ["/tmp/x", "/tmp/x/", "", "rel", "/"] {
        for state in ["Idle", "", "/abs", "a/b"] {
            for event in ["Ev", "", "/abs", "x/y"] {
                let registry = FsRegistry::new(PathBuf::from(root));
                let key = PromptKey::new(state, event);
                let expected = PathBuf::from(root)
                    .join(state)
                    .join(format!("{event}.md"));
                assert_eq!(registry.path_for_key(&key), expected);
            }
        }
    }
}

#[test]
fn of_two_prompts_with_one_key_the_later_counts() {
    let key = PromptKey::new("Idle", "UserMsg");
    let registry = InMemoryRegistry::from_iter(vec![
        (key.clone(), "first".to_string()),
        (PromptKey::new("Done", "UserMsg"), "done".to_string()),
        (key.clone(), "second".to_string()),
    ]);
    assert_eq!(registry.get(&key).unwrap(), "second");
    assert_eq!(
        registry.get(&PromptKey::new("Done", "UserMsg")).unwrap(),
        "done"
    );

    let mut map = PromptMap::new();
    assert_eq!(map.insert(key.clone(), 1), None);
    assert_eq!(map.insert(key.clone(), 2), Some(1));
    assert_eq!(map.get(&key), Some(&2));
    assert_eq!(map.get(&PromptKey::new("", "")), None);
    assert_eq!(map.len(), 1);
    assert!(!map.is_empty());
    assert_eq!(map.remove(&PromptKey::new("", "")), None);
    assert_eq!(map.remove(&key), Some(2));
    assert_eq!(map.remove(&key), None);
    assert!(map.is_empty());
    assert_eq!(map.len(), 0);
    assert_eq!(registry.0.len(), 2);
}

#[test]
fn plain_keys_have_their_own_files() {
    let registry = FsRegistry::new(PathBuf::from("/prompts"));
    let names = ["a", "b", "ab", "a.md", ".md"];
    let mut paths: Vec<PathBuf> = Vec::new();
    for state in names {
        for event in names {
            paths.push(registry.path_for_key(&PromptKey::new(state, event)));
        }
    }
    let count = paths.len();
    paths.sort();
    paths.dedup();
    assert_eq!(paths.len(), count);
}

#[test]
fn failures_are_put_into_words() {
    assert_eq!(
        forme::prompt_registry::io_failure("failed to stat ", "/a/b.md", "denied"),
        "failed to stat /a/b.md: denied"
    );
}
