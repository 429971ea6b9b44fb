use cserunner::errors::WorkspaceError;
use cserunner::registry::WorkspaceList;

fn registry_of(entries: &[(&str, &str)]) -> WorkspaceList {
    let mut list = WorkspaceList::new();
    for (id, root) in entries {
        list.insert(id.to_string(), root.to_string());
    }
    list
}

#[test]
fn new_registry_is_empty() {
    let list = WorkspaceList::new();
    assert!(list.is_empty());
    assert_eq!(list.len(), 0);
    assert!(list.entries().is_empty());
    assert!(!list.contains_key("workspace_a"));
    assert_eq!(list.get("workspace_a"), None);
}

#[test]
fn insert_registers_a_workspace() {
    let mut list = WorkspaceList::new();
    assert_eq!(list.insert("workspace_a".to_string(), "/home/u/a".to_string()), None);
    assert!(!list.is_empty());
    assert_eq!(list.len(), 1);
    assert!(list.contains_key("workspace_a"));
    assert_eq!(list.get("workspace_a"), Some("/home/u/a"));
    assert!(list.contains_root("/home/u/a"));
    assert!(!list.contains_root("/home/u"));
    assert!(!list.contains_root("workspace_a"));
}

#[test]
fn insert_under_a_registered_identifier_replaces_the_root() {
    let mut list = registry_of(&[("workspace_a", "/a"), ("workspace_b", "/b")]);
    let replaced = list.insert("workspace_a".to_string(), "/c".to_string());
    assert_eq!(replaced, Some("/a".to_string()));
    assert_eq!(list.len(), 2);
    assert_eq!(list.get("workspace_a"), Some("/c"));
    assert_eq!(list.get("workspace_b"), Some("/b"));
    assert!(!list.contains_root("/a"));
}

#[test]
fn resolve_takes_the_longest_root() {
    let list = registry_of(&[("workspace_a", "/a"), ("workspace_b", "/a/b")]);
    let found = list.resolve("/a/b/c").unwrap();
    assert_eq!(found.id, "workspace_b");
    assert_eq!(found.root, "/a/b");
}

#[test]
fn resolve_takes_the_longest_root_whatever_the_order() {
    let list = registry_of(&[("workspace_b", "/a/b"), ("workspace_a", "/a")]);
    let found = list.resolve("/a/b/c").unwrap();
    assert_eq!(found.id, "workspace_b");
    assert_eq!(found.root, "/a/b");
    let above = list.resolve("/a/x").unwrap();
    assert_eq!(above.id, "workspace_a");
    assert_eq!(above.root, "/a");
}

#[test]
fn resolve_finds_the_root_itself() {
    let list = registry_of(&[("workspace_a", "/a"), ("workspace_b", "/a/b")]);
    assert_eq!(list.resolve("/a/b").unwrap().id, "workspace_b");
    assert_eq!(list.resolve("/a").unwrap().id, "workspace_a");
}

#[test]
fn resolve_fails_without_a_registered_ancestor() {
    let list = registry_of(&[("workspace_a", "/a"), ("workspace_b", "/a/b")]);
    assert!(matches!(list.resolve("/c/d"), Err(WorkspaceError::WorkspaceNotFound)));
    assert!(matches!(list.resolve("/"), Err(WorkspaceError::WorkspaceNotFound)));
    assert!(matches!(
        WorkspaceList::new().resolve("/a"),
        Err(WorkspaceError::WorkspaceNotFound)
    ));
}

#[test]
fn resolve_matches_whole_components_only() {
    let list = registry_of(&[("workspace_b", "/a/b")]);
    assert!(matches!(list.resolve("/a/bc"), Err(WorkspaceError::WorkspaceNotFound)));
    assert!(matches!(list.resolve("/a/bc/d"), Err(WorkspaceError::WorkspaceNotFound)));
    assert_eq!(list.resolve("/a/b/").unwrap().id, "workspace_b");
}

#[test]
fn resolve_accepts_a_root_that_ends_with_a_separator() {
    let list = registry_of(&[("workspace_r", "/"), ("workspace_b", "/a/b/")]);
    assert_eq!(list.resolve("/x/y").unwrap().id, "workspace_r");
    assert_eq!(list.resolve("/a/b/c").unwrap().id, "workspace_b");
    assert_eq!(list.resolve("/a/b").unwrap().id, "workspace_r");
}

#[test]
fn entries_make_the_registry_again() {
    let list = registry_of(&[("workspace_a", "/a"), ("workspace_b", "/a/b"), ("workspace_c", "/c")]);
    let mut entries = list.entries();
    entries.sort();
    assert_eq!(
        entries,
        vec![
            ("workspace_a".to_string(), "/a".to_string()),
            ("workspace_b".to_string(), "/a/b".to_string()),
            ("workspace_c".to_string(), "/c".to_string()),
        ]
    );
    let again = WorkspaceList::from_entries(list.entries());
    assert_eq!(again.len(), 3);
    assert_eq!(again.get("workspace_a"), Some("/a"));
    assert_eq!(again.get("workspace_b"), Some("/a/b"));
    assert_eq!(again.get("workspace_c"), Some("/c"));
}

#[test]
fn from_entries_keeps_the_later_of_two_entries_with_one_identifier() {
    let list = WorkspaceList::from_entries(vec![
        ("workspace_a".to_string(), "/first".to_string()),
        ("workspace_b".to_string(), "/b".to_string()),
        ("workspace_a".to_string(), "/second".to_string()),
    ]);
    assert_eq!(list.len(), 2);
    assert_eq!(list.get("workspace_a"), Some("/second"));
    assert_eq!(list.get("workspace_b"), Some("/b"));
}

#[test]
fn registrations_made_in_turn_are_all_kept() {
    let mut list = registry_of(&[("workspace_old", "/old")]);
    let n = 25;
    for i in 0..n {
        let replaced = list.insert(format!("workspace_{:016}", i), format!("/home/u/p{}", i));
        assert_eq!(replaced, None);
    }
    assert_eq!(list.len(), n + 1);
    assert_eq!(list.get("workspace_old"), Some("/old"));
    for i in 0..n {
        let root = format!("/home/u/p{}", i);
        assert_eq!(list.get(&format!("workspace_{:016}", i)), Some(root.as_str()));
    }
}
