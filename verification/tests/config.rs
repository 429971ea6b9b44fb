use cserunner::config::{default_config, CommandLine, SyncType};

#[test]
fn default_config_holds_the_defaults() {
    let config = default_config();
    assert_eq!(config.root, Some("/".to_string()));
    assert_eq!(config.server.host, "localhost");
    assert_eq!(config.server.port, 22);
    assert_eq!(config.server.username, "root");
    assert_eq!(config.auth.identity_file, "~/.ssh/id_rsa");
    assert_eq!(config.auth.password, "password");
    assert_eq!(config.sync.sync_type, SyncType::Eager);
    assert_eq!(config.sync.frequency, 5);
    assert_eq!(config.sync.early_stop, 20);
    assert_eq!(config.sync.lifetime, 600);
    assert!(config.sync.ignore_binary);
    assert_eq!(config.sync.ignore, vec!["*.tmp".to_string(), "target".to_string()]);
    assert_eq!(config.sync.extra_ignore_file, vec![".gitignore".to_string()]);
    assert_eq!(config.sync.n_threads, -1);
    assert!(config.sync.rm_alart);
    assert_eq!(config.sync.timeout, 30);
    assert_eq!(config.sync.max_sync_space_size, 1024);
    assert_eq!(config.sync.max_sync_space_unit, "MB");
    assert!(config.sync.compress_while_sync);
}

#[test]
fn with_root_changes_the_root_only() {
    let config = default_config().with_root("/home/u/project".to_string());
    assert_eq!(config.root, Some("/home/u/project".to_string()));
    assert_eq!(config.server.host, "localhost");
    assert_eq!(config.sync.ignore, vec!["*.tmp".to_string(), "target".to_string()]);
    assert_eq!(config.sync.max_sync_space_size, 1024);
}

#[test]
fn clone_keeps_every_field() {
    let config = default_config().with_root("/w".to_string());
    let copy = config.clone();
    assert_eq!(copy.root, config.root);
    assert_eq!(copy.server.host, config.server.host);
    assert_eq!(copy.server.port, config.server.port);
    assert_eq!(copy.server.username, config.server.username);
    assert_eq!(copy.auth.identity_file, config.auth.identity_file);
    assert_eq!(copy.auth.password, config.auth.password);
    assert_eq!(copy.sync.sync_type, config.sync.sync_type);
    assert_eq!(copy.sync.ignore, config.sync.ignore);
    assert_eq!(copy.sync.extra_ignore_file, config.sync.extra_ignore_file);
    assert_eq!(copy.sync.n_threads, config.sync.n_threads);
    assert_eq!(copy.sync.max_sync_space_unit, config.sync.max_sync_space_unit);
}

#[test]
fn init_is_the_command_that_makes_a_workspace() {
    let init = CommandLine { command: "init".to_string(), args: None, config: None };
    assert!(init.is_init());
    let run = CommandLine {
        command: "run".to_string(),
        args: Some(vec!["make".to_string()]),
        config: Some("c.json".to_string()),
    };
    assert!(!run.is_init());
    let upper = CommandLine { command: "Init".to_string(), args: None, config: None };
    assert!(!upper.is_init());
}
