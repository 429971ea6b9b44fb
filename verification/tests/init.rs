use cserunner::errors::WorkspaceError;
use cserunner::init::{
    ask_root_prompt, check_root_is_directory, check_root_is_new, check_workspace_is_valid,
    confirm_prompt, invalid_answer_prompt, new_workspace_name, read_confirmation, workspace_name,
    Confirmation, ID_SUFFIX_LEN,
};
use cserunner::registry::WorkspaceList;

#[test]
fn a_workspace_name_has_the_prefix() {
    assert_eq!(workspace_name("0123456789abcdef"), "workspace_0123456789abcdef");
    assert_eq!(workspace_name(""), "workspace_");
}

#[test]
fn a_new_workspace_name_has_sixteen_random_letters_or_digits() {
    assert_eq!(ID_SUFFIX_LEN, 16);
    for _ in 0..50 {
        let name = new_workspace_name();
        assert_eq!(name.len(), 26);
        assert!(name.starts_with("workspace_"));
        let suffix = &name["workspace_".len()..];
        assert_eq!(suffix.chars().count(), 16);
        assert!(suffix.chars().all(|c| c.is_ascii_alphanumeric()));
    }
}

#[test]
fn new_workspace_names_differ() {
    let names: Vec<String> = (0..20).map(|_| new_workspace_name()).collect();
    for i in 0..names.len() {
        for j in 0..i {
            assert_ne!(names[i], names[j]);
        }
    }
}

fn one_workspace() -> WorkspaceList {
    let mut list = WorkspaceList::new();
    list.insert("workspace_a".to_string(), "/home/u/a".to_string());
    list
}

#[test]
fn a_registered_root_is_refused() {
    let list = one_workspace();
    match check_workspace_is_valid(&list, "/home/u/a", true) {
        Err(WorkspaceError::WorkspaceAlreadyExists(e)) => assert_eq!(e.root(), "/home/u/a"),
        other => panic!("{:?}", other),
    }
    match check_root_is_new(&list, "/home/u/a") {
        Err(WorkspaceError::WorkspaceAlreadyExists(e)) => assert_eq!(e.root(), "/home/u/a"),
        other => panic!("{:?}", other),
    }
}

#[test]
fn a_registered_root_is_refused_before_the_directory_is_looked_at() {
    let list = one_workspace();
    assert!(matches!(
        check_workspace_is_valid(&list, "/home/u/a", false),
        Err(WorkspaceError::WorkspaceAlreadyExists(_))
    ));
}

#[test]
fn a_root_that_is_no_directory_is_refused() {
    let list = one_workspace();
    match check_workspace_is_valid(&list, "/home/u/b", false) {
        Err(WorkspaceError::InvalidRoot(e)) => {
            assert_eq!(e.message(), "Error: diectory: \"/home/u/b\" is not a valid path.")
        }
        other => panic!("{:?}", other),
    }
    assert!(matches!(
        check_root_is_directory("/home/u/b", false),
        Err(WorkspaceError::InvalidRoot(_))
    ));
}

#[test]
fn a_new_root_that_is_a_directory_is_accepted() {
    let list = one_workspace();
    assert!(check_workspace_is_valid(&list, "/home/u/b", true).is_ok());
    assert!(check_workspace_is_valid(&list, "/home/u", true).is_ok());
    assert!(check_workspace_is_valid(&list, "workspace_a", true).is_ok());
    assert!(check_root_is_new(&list, "/home/u/b").is_ok());
    assert!(check_root_is_directory("/home/u/b", true).is_ok());
    assert!(check_workspace_is_valid(&WorkspaceList::new(), "/home/u/a", true).is_ok());
}

#[test]
fn yes_is_y_or_nothing() {
    for line in ["y", "Y", "", "\n", "y\n", " Y \r\n", "   "] {
        assert_eq!(read_confirmation(line), Confirmation::Yes);
    }
}

#[test]
fn no_is_n() {
    for line in ["n", "N", "n\n", "  N\t\n"] {
        assert_eq!(read_confirmation(line), Confirmation::No);
    }
}

#[test]
fn anything_else_is_unclear() {
    for line in ["yes", "no", "yn", "y n", "x\n", "0", "ok", "\u{e9}"] {
        assert_eq!(read_confirmation(line), Confirmation::Unclear);
    }
}

#[test]
fn the_prompt_names_the_root() {
    assert_eq!(
        confirm_prompt("/home/u/p"),
        "The root directory is set to '/home/u/p'. Is this correct? [Y/N]"
    );
    assert_eq!(invalid_answer_prompt(), "Invalid input. Please enter 'y' or 'n'.");
    assert_eq!(ask_root_prompt(), "Please enter the root directory of the workspace.");
}
