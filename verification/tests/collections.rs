//! Sets of tools and texts.

use forme::text;
use forme::tool_set::ToolSet;
use forme::ToolId;

fn tool(s: &str) -> ToolId {
    ToolId::from(s)
}

#[test]
fn a_set_holds_each_tool_once() {
    let mut set = ToolSet::new();
    assert!(set.is_empty());
    assert!(set.insert(tool("a")));
    assert!(set.insert(tool("b")));
    assert!(!set.insert(tool("a")));
    assert_eq!(set.len(), 2);
    assert!(set.contains(&tool("a")));
    assert!(!set.contains(&tool("c")));
    let names: Vec<String> = set.as_slice().iter().map(|t| t.to_string()).collect();
    assert_eq!(names, ["a", "b"]);
}

#[test]
fn sets_with_the_same_tools_are_equal() {
    let ab = ToolSet::from_vec(vec![tool("a"), tool("b"), tool("a")]);
    let ba = ToolSet::from_vec(vec![tool("b"), tool("a")]);
    let abc = ToolSet::from_vec(vec![tool("a"), tool("b"), tool("c")]);
    assert_eq!(ab, ba);
    assert_ne!(ab, abc);
    assert!(ab.is_subset(&abc));
    assert!(!abc.is_subset(&ab));
    assert_eq!(ab.clone(), ab);
    assert!(ToolSet::default().is_subset(&ab));
}

#[test]
fn texts_are_searched() {
    let cases = [
        ("", ""),
        ("abc", ""),
        ("", "a"),
        ("abc", "abc"),
        ("abc", "abcd"),
        ("aab", "ab"),
        ("ababac", "abac"),
        ("abc", "d"),
        ("gr\u{fc}n", "\u{fc}n"),
        ("gr\u{fc}n", "u"),
    ];
    for (hay, needle) in cases {
        assert_eq!(text::contains_text(hay, needle), hay.contains(needle));
    }
}
