//! The configuration of a workspace, the defaults a new workspace starts
//! from, and the command line.

use vstd::prelude::*;

verus! {

/// The text of each string of `strings`.
pub open spec fn texts_of(strings: Seq<String>) -> Seq<Seq<char>> {
    strings.map_values(|s: String| s@)
}

/// A copy of `strings`.
pub fn clone_strings(strings: &Vec<String>) -> (copy: Vec<String>)
    ensures
        texts_of(copy@) == texts_of(strings@),
{
    let mut copy: Vec<String> = Vec::new();
    let mut i: usize = 0;
    while i < strings.len()
        invariant
            i <= strings.len(),
            copy@.len() == i,
            forall|j: int| 0 <= j < i ==> (#[trigger] copy@[j])@ == strings@[j]@,
        decreases strings.len() - i,
    {
        copy.push(strings[i].clone());
        i += 1;
    }
    assert(texts_of(copy@) =~= texts_of(strings@));
    copy
}

/// How to reach the server that a workspace is synchronised with.
#[derive(Debug)]
pub struct ServerConfig {
    /// The server's host name or address.
    pub host: String,
    /// The server's port.
    pub port: u8,
    /// The user to log in as.
    pub username: String,
}

pub struct ServerConfigView {
    pub host: Seq<char>,
    pub port: u8,
    pub username: Seq<char>,
}

impl View for ServerConfig {
    type V = ServerConfigView;

    open spec fn view(&self) -> ServerConfigView {
        ServerConfigView { host: self.host@, port: self.port, username: self.username@ }
    }
}

impl Clone for ServerConfig {
    fn clone(&self) -> (copy: Self)
        ensures
            copy@ == self@,
    {
        ServerConfig {
            host: self.host.clone(),
            port: self.port,
            username: self.username.clone(),
        }
    }
}

/// How to authenticate with the server.
#[derive(Debug)]
pub struct AuthConfig {
    /// The path of the identity file.
    pub identity_file: String,
    /// The password.
    pub password: String,
}

pub struct AuthConfigView {
    pub identity_file: Seq<char>,
    pub password: Seq<char>,
}

impl View for AuthConfig {
    type V = AuthConfigView;

    open spec fn view(&self) -> AuthConfigView {
        AuthConfigView { identity_file: self.identity_file@, password: self.password@ }
    }
}

impl Clone for AuthConfig {
    fn clone(&self) -> (copy: Self)
        ensures
            copy@ == self@,
    {
        AuthConfig { identity_file: self.identity_file.clone(), password: self.password.clone() }
    }
}

/// When a workspace is synchronised.
#[derive(Debug, Clone, Copy, PartialEq, Eq, Structural)]
pub enum SyncType {
    /// Again and again, for as long as the configured lifetime.
    Eager,
    /// Once for each run.
    Lazy,
}

/// What is synchronised, and how.
#[derive(Debug)]
pub struct SyncConfig {
    /// When to synchronise.
    pub sync_type: SyncType,
    /// How often to look for changes.
    pub frequency: u8,
    /// After how many rounds without a change to stop.
    pub early_stop: u16,
    /// For how long to go on at most.
    pub lifetime: u16,
    /// Whether binary files are left out.
    pub ignore_binary: bool,
    /// Patterns of files that are left out.
    pub ignore: Vec<String>,
    /// Files that hold more such patterns.
    pub extra_ignore_file: Vec<String>,
    /// The number of threads; -1 lets the tool choose.
    pub n_threads: i8,
    /// Whether to warn before files are removed.
    pub rm_alart: bool,
    /// How long one synchronisation may take.
    pub timeout: u16,
    /// The most space the synchronised files may take, in the unit below.
    pub max_sync_space_size: u32,
    /// The unit of `max_sync_space_size`.
    pub max_sync_space_unit: String,
    /// Whether data is compressed on the way.
    pub compress_while_sync: bool,
}

pub struct SyncConfigView {
    pub sync_type: SyncType,
    pub frequency: u8,
    pub early_stop: u16,
    pub lifetime: u16,
    pub ignore_binary: bool,
    pub ignore: Seq<Seq<char>>,
    pub extra_ignore_file: Seq<Seq<char>>,
    pub n_threads: i8,
    pub rm_alart: bool,
    pub timeout: u16,
    pub max_sync_space_size: u32,
    pub max_sync_space_unit: Seq<char>,
    pub compress_while_sync: bool,
}

impl View for SyncConfig {
    type V = SyncConfigView;

    open spec fn view(&self) -> SyncConfigView {
        SyncConfigView {
            sync_type: self.sync_type,
            frequency: self.frequency,
            early_stop: self.early_stop,
            lifetime: self.lifetime,
            ignore_binary: self.ignore_binary,
            ignore: texts_of(self.ignore@),
            extra_ignore_file: texts_of(self.extra_ignore_file@),
            n_threads: self.n_threads,
            rm_alart: self.rm_alart,
            timeout: self.timeout,
            max_sync_space_size: self.max_sync_space_size,
            max_sync_space_unit: self.max_sync_space_unit@,
            compress_while_sync: self.compress_while_sync,
        }
    }
}

impl Clone for SyncConfig {
    fn clone(&self) -> (copy: Self)
        ensures
            copy@ == self@,
    {
        SyncConfig {
            sync_type: self.sync_type,
            frequency: self.frequency,
            early_stop: self.early_stop,
            lifetime: self.lifetime,
            ignore_binary: self.ignore_binary,
            ignore: clone_strings(&self.ignore),
            extra_ignore_file: clone_strings(&self.extra_ignore_file),
            n_threads: self.n_threads,
            rm_alart: self.rm_alart,
            timeout: self.timeout,
            max_sync_space_size: self.max_sync_space_size,
            max_sync_space_unit: self.max_sync_space_unit.clone(),
            compress_while_sync: self.compress_while_sync,
        }
    }
}

/// The configuration of a workspace.
#[derive(Debug)]
pub struct Config {
    /// The root directory of the workspace, if it is set.
    pub root: Option<String>,
    /// The server to synchronise with.
    pub server: ServerConfig,
    /// How to authenticate with it.
    pub auth: AuthConfig,
    /// What is synchronised, and how.
    pub sync: SyncConfig,
}

pub struct ConfigView {
    pub root: Option<Seq<char>>,
    pub server: ServerConfigView,
    pub auth: AuthConfigView,
    pub sync: SyncConfigView,
}

impl View for Config {
    type V = ConfigView;

    open spec fn view(&self) -> ConfigView {
        ConfigView {
            root: match self.root {
                Some(root) => Some(root@),
                None => None,
            },
            server: self.server@,
            auth: self.auth@,
            sync: self.sync@,
        }
    }
}

impl Clone for Config {
    fn clone(&self) -> (copy: Self)
        ensures
            copy@ == self@,
    {
        Config {
            root: match &self.root {
                Some(root) => Some(root.clone()),
                None => None,
            },
            server: self.server.clone(),
            auth: self.auth.clone(),
            sync: self.sync.clone(),
        }
    }
}

impl ConfigView {
    /// This configuration with the root `root`.
    pub open spec fn with_root(self, root: Seq<char>) -> ConfigView {
        ConfigView { root: Some(root), ..self }
    }
}

impl Config {
    /// This configuration with the root `root`.
    pub fn with_root(self, root: String) -> (config: Config)
        ensures
            config@ == self@.with_root(root@),
    {
        Config { root: Some(root), server: self.server, auth: self.auth, sync: self.sync }
    }
}

/// The configuration that a workspace starts from when the user gives none.
pub open spec fn default_config_view() -> ConfigView {
    ConfigView {
        root: Some("/"@),
        server: ServerConfigView { host: "localhost"@, port: 22, username: "root"@ },
        auth: AuthConfigView { identity_file: "~/.ssh/id_rsa"@, password: "password"@ },
        sync: SyncConfigView {
            sync_type: SyncType::Eager,
            frequency: 5,
            early_stop: 20,
            lifetime: 600,
            ignore_binary: true,
            ignore: seq!["*.tmp"@, "target"@],
            extra_ignore_file: seq![".gitignore"@],
            n_threads: -1i8,
            rm_alart: true,
            timeout: 30,
            max_sync_space_size: 1024,
            max_sync_space_unit: "MB"@,
            compress_while_sync: true,
        },
    }
}

/// The configuration that a workspace starts from when the user gives none.
/// Its root is `/` until the caller sets the one that is meant.
pub fn default_config() -> (config: Config)
    ensures
        config@ == default_config_view(),
{
    let mut ignore: Vec<String> = Vec::new();
    ignore.push(String::from_str("*.tmp"));
    ignore.push(String::from_str("target"));
    let mut extra_ignore_file: Vec<String> = Vec::new();
    extra_ignore_file.push(String::from_str(".gitignore"));
    assert(texts_of(ignore@) =~= seq!["*.tmp"@, "target"@]);
    assert(texts_of(extra_ignore_file@) =~= seq![".gitignore"@]);
    Config {
        root: Some(String::from_str("/")),
        server: ServerConfig {
            host: String::from_str("localhost"),
            port: 22,
            username: String::from_str("root"),
        },
        auth: AuthConfig {
            identity_file: String::from_str("~/.ssh/id_rsa"),
            password: String::from_str("password"),
        },
        sync: SyncConfig {
            sync_type: SyncType::Eager,
            frequency: 5,
            early_stop: 20,
            lifetime: 600,
            ignore_binary: true,
            ignore,
            extra_ignore_file,
            n_threads: -1,
            rm_alart: true,
            timeout: 30,
            max_sync_space_size: 1024,
            max_sync_space_unit: String::from_str("MB"),
            compress_while_sync: true,
        },
    }
}

/// The command line: a command, its arguments, and the configuration file
/// that the user names.
#[derive(Debug)]
pub struct CommandLine {
    /// The command to run.
    pub command: String,
    /// The arguments of the command.
    pub args: Option<Vec<String>>,
    /// The path of a configuration file.
    pub config: Option<String>,
}

impl CommandLine {
    /// Whether the command is `init`, which makes a new workspace.
    pub fn is_init(&self) -> (init: bool)
        ensures
            init == (self.command@ == "init"@),
    {
        let init = String::from_str("init");
        self.command == init
    }
}

} // verus!
