use cserunner::config::default_config;
use cserunner::errors::WorkspaceError;
use cserunner::registry::WorkspaceList;
use cserunner::store::{accept_config, load, locate, save, Document};

fn two_workspaces() -> WorkspaceList {
    let mut list = WorkspaceList::new();
    list.insert("workspace_a".to_string(), "/a".to_string());
    list.insert("workspace_b".to_string(), "/a/b".to_string());
    list
}

#[test]
fn load_hands_on_the_registry_that_was_read() {
    let loaded = load(Document::Parsed(two_workspaces())).unwrap();
    assert_eq!(loaded.len(), 2);
    assert_eq!(loaded.get("workspace_a"), Some("/a"));
    assert_eq!(loaded.get("workspace_b"), Some("/a/b"));
}

#[test]
fn load_without_a_document_is_config_corrupt() {
    match load(Document::Unreadable("No such file or directory".to_string())) {
        Err(WorkspaceError::ConfigCorrupt(e)) => assert_eq!(e.error(), "No such file or directory"),
        other => panic!("{:?}", other),
    }
    match load(Document::Malformed("missing field `workspace_mapping`".to_string())) {
        Err(WorkspaceError::ConfigCorrupt(e)) => {
            assert_eq!(e.error(), "missing field `workspace_mapping`")
        }
        other => panic!("{:?}", other),
    }
}

#[test]
fn save_writes_beside_the_registry_and_renames() {
    let plan = save(&two_workspaces(), "/home/u/.cserunner");
    assert_eq!(plan.write_to, "/home/u/.cserunner/workspace_list.json.tmp");
    assert_eq!(plan.rename_to, "/home/u/.cserunner/workspace_list.json");
    let mut entries = plan.entries;
    entries.sort();
    assert_eq!(
        entries,
        vec![
            ("workspace_a".to_string(), "/a".to_string()),
            ("workspace_b".to_string(), "/a/b".to_string()),
        ]
    );
}

#[test]
fn what_is_saved_loads_back() {
    let list = two_workspaces();
    let plan = save(&list, "/r");
    let loaded = load(Document::Parsed(WorkspaceList::from_entries(plan.entries))).unwrap();
    let mut before = list.entries();
    let mut after = loaded.entries();
    before.sort();
    after.sort();
    assert_eq!(before, after);
}

#[test]
fn an_empty_registry_loads_back() {
    let plan = save(&WorkspaceList::new(), "/r");
    assert!(plan.entries.is_empty());
    let loaded = load(Document::Parsed(WorkspaceList::from_entries(plan.entries))).unwrap();
    assert!(loaded.is_empty());
}

#[test]
fn locate_finds_the_workspace_and_its_configuration() {
    let found = locate(Document::Parsed(two_workspaces()), "/home/u/.cserunner", "/a/b/c").unwrap();
    assert_eq!(found.workspace.id, "workspace_b");
    assert_eq!(found.workspace.root, "/a/b");
    assert_eq!(found.config_path, "/home/u/.cserunner/workspace_b/config.json");
}

#[test]
fn locate_fails_outside_every_workspace() {
    assert!(matches!(
        locate(Document::Parsed(two_workspaces()), "/r", "/elsewhere"),
        Err(WorkspaceError::WorkspaceNotFound)
    ));
}

#[test]
fn locate_fails_without_a_registry() {
    assert!(matches!(
        locate(Document::Unreadable("gone".to_string()), "/r", "/a"),
        Err(WorkspaceError::ConfigCorrupt(_))
    ));
    assert!(matches!(
        locate(Document::Malformed("expected value".to_string()), "/r", "/a"),
        Err(WorkspaceError::ConfigCorrupt(_))
    ));
}

#[test]
fn accept_config_hands_on_the_configuration_that_was_read() {
    let config = accept_config(Document::Parsed(default_config())).unwrap();
    assert_eq!(config.server.host, "localhost");
    assert_eq!(config.root, Some("/".to_string()));
}

#[test]
fn accept_config_without_a_document_is_config_corrupt() {
    match accept_config(Document::Malformed("invalid type".to_string())) {
        Err(WorkspaceError::ConfigCorrupt(e)) => assert_eq!(e.error(), "invalid type"),
        other => panic!("{:?}", other),
    }
    assert!(matches!(
        accept_config(Document::Unreadable("gone".to_string())),
        Err(WorkspaceError::ConfigCorrupt(_))
    ));
}
