use cserunner::errors::{
    ConfigError, FileDoesNotExist, UnexpectedConfigFile, WorkspaceAlreadyExists, WorkspaceError,
};

#[test]
fn file_does_not_exist_names_the_file() {
    let e = FileDoesNotExist::new("conf.json".to_string());
    assert_eq!(e.file(), "conf.json");
    assert_eq!(e.message(), "Error: file 'conf.json' does not exist.");
}

#[test]
fn unexpected_config_file_says_what_is_wrong() {
    let e = UnexpectedConfigFile::new("missing field `server`".to_string());
    assert_eq!(e.error(), "missing field `server`");
    assert_eq!(e.message(), "Error: unexpected config file format. missing field `server`");
}

#[test]
fn workspace_already_exists_names_the_root() {
    let e = WorkspaceAlreadyExists::new("/home/u/p".to_string());
    assert_eq!(e.root(), "/home/u/p");
    assert_eq!(
        e.message(),
        "Error: the directory at /home/u/p already exists. You are not allow to init agagin"
    );
}

#[test]
fn invalid_directory_names_the_directory() {
    let e = ConfigError::InvalidDirectory("/nowhere".to_string());
    assert_eq!(e.message(), "Error: diectory: \"/nowhere\" is not a valid path.");
}

#[test]
fn every_failure_has_its_message() {
    assert_eq!(
        WorkspaceError::FileDoesNotExist(FileDoesNotExist::new("f".to_string())).message(),
        "Error: file 'f' does not exist."
    );
    assert_eq!(
        WorkspaceError::ConfigCorrupt(UnexpectedConfigFile::new("bad".to_string())).message(),
        "Error: unexpected config file format. bad"
    );
    assert_eq!(
        WorkspaceError::WorkspaceAlreadyExists(WorkspaceAlreadyExists::new("/r".to_string()))
            .message(),
        "Error: the directory at /r already exists. You are not allow to init agagin"
    );
    assert_eq!(
        WorkspaceError::InvalidRoot(ConfigError::InvalidDirectory("/r".to_string())).message(),
        "Error: diectory: \"/r\" is not a valid path."
    );
    assert_eq!(
        WorkspaceError::LockTimeout.message(),
        "Error: the workspace list is locked by another process."
    );
    assert_eq!(
        WorkspaceError::WorkspaceNotFound.message(),
        "Error: the current directory is not a workspace directory. Please run cserunner init first"
    );
    assert_eq!(WorkspaceError::Storage("disk full".to_string()).message(), "Error: disk full");
}

#[test]
fn a_cloned_failure_has_the_same_message() {
    let e = WorkspaceError::WorkspaceAlreadyExists(WorkspaceAlreadyExists::new("/r".to_string()));
    assert_eq!(e.clone().message(), e.message());
}
