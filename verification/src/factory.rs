//! The steps that make a new workspace, one at a time. A `WorkspaceFactory`
//! says which step to take next (`action`) and is told how it ended
//! (`advance`); reading files, asking the user and changing the storage
//! directory are the caller's part.
//!
//! The order is: settle the configuration and the root, check the root, have
//! the user confirm it, make the workspace's directory, write the
//! configuration and its second copy, and register the workspace while
//! holding the lock on the registry. After a failure the lock is released if
//! it is held and the directory is removed if it has been made.

use crate::config::{default_config, default_config_view, Config, ConfigView};
use crate::errors::{
    ConfigError, FileDoesNotExist, UnexpectedConfigFile, WorkspaceAlreadyExists, WorkspaceError,
    WorkspaceErrorView,
};
use crate::init::{
    confirmation_of, is_workspace_id, new_workspace_name, read_confirmation, Confirmation,
};
use crate::lock::{LockAttempt, LockDecision, LockGuard, LockState, POLL_INTERVAL_MS};
use crate::paths::{
    config_baseline_path, config_baseline_path_spec, config_path, config_path_spec, workspace_dir,
    workspace_dir_spec, workspace_list_lock_path_in, workspace_list_lock_path_spec,
    workspace_list_path_in, workspace_list_path_spec, workspace_list_temp_path_spec,
};
use crate::registry::{entries_of, has_root, map_of, Workspace, WorkspaceList};
use crate::store::{save, Document, DocumentView, SavePlan};
use crate::text::{text_of, trim, trimmed};
use vstd::prelude::*;

verus! {

/// How far the making of a workspace has come: what was asked for last, and
/// is awaited.
#[derive(Debug, Clone, Copy, PartialEq, Eq, Structural)]
pub enum Phase {
    /// The configuration file that the user named.
    LoadingConfig,
    /// The registry, to see whether the root is registered already.
    CheckingRegistry,
    /// Whether the root is an existing directory.
    CheckingDirectory,
    /// The user's answer to whether the root is right.
    Confirming,
    /// The root that the user wants instead.
    ChoosingRoot,
    /// The workspace's directory, to be made.
    CreatingDirectory,
    /// The configuration document, to be written.
    WritingConfig,
    /// The second copy of the configuration, to be written.
    WritingBaseline,
    /// An attempt to make the lock sentinel.
    Locking,
    /// The end of a sleep before the next attempt.
    Waiting,
    /// The registry, read while the lock is held.
    ReadingRegistry,
    /// The registry with the new workspace, to be saved.
    SavingRegistry,
    /// The lock sentinel, to be removed.
    Unlocking,
    /// The workspace's directory, to be removed after a failure.
    RollingBack,
    /// Nothing: the result is known.
    Finished,
}

/// How the step that was asked for ended.
#[derive(Debug)]
pub enum Event {
    /// The user's configuration file was read, or could not be.
    ConfigFile(Document<Config>),
    /// The registry document was read, or could not be.
    Registry(Document<WorkspaceList>),
    /// Whether the path asked about is an existing directory.
    Directory(bool),
    /// The line that the user typed.
    Answer(String),
    /// How the attempt to make the lock sentinel ended.
    Lock(LockAttempt),
    /// The step was taken.
    Done,
    /// The step could not be taken; the text says why.
    Failed(String),
}

pub enum EventView {
    ConfigFile(DocumentView<ConfigView>),
    Registry(DocumentView<Map<Seq<char>, Seq<char>>>),
    Directory(bool),
    Answer(Seq<char>),
    Lock(LockAttempt),
    Done,
    Failed(Seq<char>),
}

impl View for Event {
    type V = EventView;

    open spec fn view(&self) -> EventView {
        match self {
            Event::ConfigFile(document) => EventView::ConfigFile(document@),
            Event::Registry(document) => EventView::Registry(document@),
            Event::Directory(is_directory) => EventView::Directory(*is_directory),
            Event::Answer(line) => EventView::Answer(line@),
            Event::Lock(attempt) => EventView::Lock(*attempt),
            Event::Done => EventView::Done,
            Event::Failed(why) => EventView::Failed(why@),
        }
    }
}

/// The step to take next. Each is answered by one `Event`.
#[derive(Debug)]
pub enum Action {
    /// Read and parse the configuration file at `path`; answer with
    /// `Event::ConfigFile`.
    ReadConfig { path: String },
    /// Read and parse the registry document at `path`; answer with
    /// `Event::Registry`.
    ReadRegistry { path: String },
    /// Find out whether `path` is an existing directory; answer with
    /// `Event::Directory`.
    ProbeDirectory { path: String },
    /// Ask the user whether `root` is the right root; answer with
    /// `Event::Answer`. With `again`, the last answer was neither yes nor
    /// no, and the user is told so in place of the question.
    Confirm { root: String, again: bool },
    /// Ask the user for another root; answer with `Event::Answer`.
    AskRoot,
    /// Make the directory `path`.
    CreateDirectory { path: String },
    /// Write `config` to the file `path`.
    WriteConfig { path: String, config: Config },
    /// Make the lock sentinel `path` unless it is there, in one step; answer
    /// with `Event::Lock`.
    TryLock { path: String },
    /// Sleep for `millis` milliseconds.
    Sleep { millis: u64 },
    /// Save the registry as `plan` says.
    WriteRegistry { plan: SavePlan },
    /// Remove the lock sentinel `path`.
    Unlock { path: String },
    /// Remove the directory `path` and what is in it.
    RemoveDirectory { path: String },
    /// Stop: the workspace has been made, or it has not and why.
    Finish(Result<Workspace, WorkspaceError>),
}

pub enum ActionView {
    ReadConfig { path: Seq<char> },
    ReadRegistry { path: Seq<char> },
    ProbeDirectory { path: Seq<char> },
    Confirm { root: Seq<char>, again: bool },
    AskRoot,
    CreateDirectory { path: Seq<char> },
    WriteConfig { path: Seq<char>, config: ConfigView },
    TryLock { path: Seq<char> },
    Sleep { millis: u64 },
    WriteRegistry { registry: Map<Seq<char>, Seq<char>>, write_to: Seq<char>, rename_to: Seq<char> },
    Unlock { path: Seq<char> },
    RemoveDirectory { path: Seq<char> },
    /// The identifier and the root of the workspace made, or the failure.
    Finish(Result<(Seq<char>, Seq<char>), WorkspaceErrorView>),
}

impl View for Action {
    type V = ActionView;

    open spec fn view(&self) -> ActionView {
        match self {
            Action::ReadConfig { path } => ActionView::ReadConfig { path: path@ },
            Action::ReadRegistry { path } => ActionView::ReadRegistry { path: path@ },
            Action::ProbeDirectory { path } => ActionView::ProbeDirectory { path: path@ },
            Action::Confirm { root, again } => ActionView::Confirm { root: root@, again: *again },
            Action::AskRoot => ActionView::AskRoot,
            Action::CreateDirectory { path } => ActionView::CreateDirectory { path: path@ },
            Action::WriteConfig { path, config } => ActionView::WriteConfig {
                path: path@,
                config: config@,
            },
            Action::TryLock { path } => ActionView::TryLock { path: path@ },
            Action::Sleep { millis } => ActionView::Sleep { millis: *millis },
            Action::WriteRegistry { plan } => ActionView::WriteRegistry {
                registry: map_of(entries_of(plan.entries@)),
                write_to: plan.write_to@,
                rename_to: plan.rename_to@,
            },
            Action::Unlock { path } => ActionView::Unlock { path: path@ },
            Action::RemoveDirectory { path } => ActionView::RemoveDirectory { path: path@ },
            Action::Finish(Ok(workspace)) => ActionView::Finish(Ok((workspace.id@, workspace.root@))),
            Action::Finish(Err(e)) => ActionView::Finish(Err(e@)),
        }
    }
}

/// What is reported when an event answers another step than the one that
/// was asked for.
pub open spec fn unexpected_event() -> Seq<char> {
    "the step that was asked for was not the one that was answered"@
}

/// The making of a workspace, as far as it has come.
pub struct Creation {
    /// What is awaited.
    pub phase: Phase,
    /// The storage directory.
    pub root_dir: Seq<char>,
    /// The directory that the user works in.
    pub cwd: Seq<char>,
    /// The identifier of the workspace.
    pub id: Seq<char>,
    /// The configuration file that the user named, if any.
    pub config_file: Option<Seq<char>>,
    /// The configuration of the workspace.
    pub config: ConfigView,
    /// The root of the workspace.
    pub root: Seq<char>,
    /// Whether the user typed the root in place of one that was proposed.
    pub chosen: bool,
    /// Whether the user has answered the question with neither yes nor no.
    pub unclear: bool,
    /// The registry to save, once it has been read under the lock.
    pub registry: Map<Seq<char>, Seq<char>>,
    /// The lock on the registry.
    pub lock: LockState,
    /// Why the workspace is not made, once that is so.
    pub failure: Option<WorkspaceErrorView>,
}

impl Phase {
    /// In this phase the lock sentinel is there and belongs to this process.
    pub open spec fn holds_lock(self) -> bool {
        self == Phase::ReadingRegistry || self == Phase::SavingRegistry || self == Phase::Unlocking
    }

    /// In this phase nothing has been asked for yet that changes the storage
    /// directory.
    pub open spec fn untouched(self) -> bool {
        ||| self == Phase::LoadingConfig
        ||| self == Phase::CheckingRegistry
        ||| self == Phase::CheckingDirectory
        ||| self == Phase::Confirming
        ||| self == Phase::ChoosingRoot
    }

    /// In this phase the workspace's directory has been made and the
    /// workspace is not registered.
    pub open spec fn directory_at_stake(self) -> bool {
        ||| self == Phase::WritingConfig
        ||| self == Phase::WritingBaseline
        ||| self == Phase::Locking
        ||| self == Phase::Waiting
        ||| self == Phase::ReadingRegistry
        ||| self == Phase::SavingRegistry
    }
}

impl ActionView {
    /// The step changes something in the storage directory.
    pub open spec fn changes_storage(self) -> bool {
        ||| self is CreateDirectory
        ||| self is WriteConfig
        ||| self is TryLock
        ||| self is WriteRegistry
        ||| self is Unlock
        ||| self is RemoveDirectory
    }
}

impl Creation {
    /// The beginning: with a configuration file, that file is read first;
    /// without one, the configuration is the default one with the working
    /// directory as its root, and the root is checked next.
    pub open spec fn begin(
        config_file: Option<Seq<char>>,
        cwd: Seq<char>,
        root_dir: Seq<char>,
        id: Seq<char>,
    ) -> Creation {
        Creation {
            phase: if config_file is Some {
                Phase::LoadingConfig
            } else {
                Phase::CheckingRegistry
            },
            root_dir,
            cwd,
            id,
            config_file,
            config: default_config_view().with_root(cwd),
            root: cwd,
            chosen: false,
            unclear: false,
            registry: Map::empty(),
            lock: LockState::fresh(),
            failure: None,
        }
    }

    /// What holds of every state that is reached from a beginning: the lock
    /// is held in the phases that hold it and in no other; a failure is
    /// known only while the lock is released after it, while the directory
    /// is removed after it, and at the end; the directory is removed only
    /// after a failure; and a configuration file is read only if the user
    /// named one.
    pub open spec fn consistent(self) -> bool {
        &&& self.lock.held == self.phase.holds_lock()
        &&& self.failure is Some ==> self.phase == Phase::Unlocking || self.phase
            == Phase::RollingBack || self.phase == Phase::Finished
        &&& self.phase == Phase::RollingBack ==> self.failure is Some
        &&& self.phase == Phase::LoadingConfig ==> self.config_file is Some
    }

    /// The configuration is the default one but for the root, which is the
    /// root of the workspace.
    pub open spec fn has_default_config(self) -> bool {
        self.config == default_config_view().with_root(self.root)
    }

    /// What becomes of the making of the workspace when it fails with
    /// `error`: where nothing was changed yet, or the directory could not
    /// be made, it ends; where the lock is held, the lock is released
    /// first; where the directory is there, it is removed. A failure to
    /// remove the directory does not replace the failure that led to it.
    pub open spec fn fail(self, error: WorkspaceErrorView) -> Creation {
        match self.phase {
            Phase::WritingConfig | Phase::WritingBaseline | Phase::Locking | Phase::Waiting => Creation {
                phase: Phase::RollingBack,
                failure: Some(error),
                ..self
            },
            Phase::ReadingRegistry | Phase::SavingRegistry => Creation {
                phase: Phase::Unlocking,
                failure: Some(error),
                ..self
            },
            Phase::Unlocking => match self.failure {
                Some(_) => Creation { phase: Phase::RollingBack, lock: LockState::fresh(), ..self },
                None => Creation {
                    phase: Phase::Finished,
                    lock: LockState::fresh(),
                    failure: Some(error),
                    ..self
                },
            },
            Phase::RollingBack => Creation { phase: Phase::Finished, ..self },
            Phase::Finished => self,
            _ => Creation { phase: Phase::Finished, failure: Some(error), ..self },
        }
    }

    /// The state after `event`.
    pub open spec fn next(self, event: EventView) -> Creation {
        match (self.phase, event) {
            (Phase::LoadingConfig, EventView::ConfigFile(DocumentView::Parsed(config))) => {
                let root = match config.root {
                    Some(root) => root,
                    None => self.cwd,
                };
                Creation {
                    phase: Phase::CheckingRegistry,
                    root,
                    config: config.with_root(root),
                    ..self
                }
            },
            (Phase::LoadingConfig, EventView::ConfigFile(DocumentView::Unreadable(why))) => self.fail(
                WorkspaceErrorView::FileDoesNotExist(why),
            ),
            (Phase::LoadingConfig, EventView::ConfigFile(DocumentView::Malformed(why))) => self.fail(
                WorkspaceErrorView::ConfigCorrupt(why),
            ),
            (Phase::CheckingRegistry, EventView::Registry(DocumentView::Parsed(registry))) => {
                if has_root(registry, self.root) {
                    self.fail(WorkspaceErrorView::WorkspaceAlreadyExists(self.root))
                } else {
                    Creation { phase: Phase::CheckingDirectory, ..self }
                }
            },
            (Phase::CheckingRegistry, EventView::Registry(DocumentView::Unreadable(why))) => self.fail(
                WorkspaceErrorView::ConfigCorrupt(why),
            ),
            (Phase::CheckingRegistry, EventView::Registry(DocumentView::Malformed(why))) => self.fail(
                WorkspaceErrorView::ConfigCorrupt(why),
            ),
            (Phase::CheckingDirectory, EventView::Directory(is_directory)) => {
                if !is_directory {
                    self.fail(WorkspaceErrorView::InvalidRoot(self.root))
                } else if self.chosen {
                    Creation { phase: Phase::CreatingDirectory, ..self }
                } else {
                    Creation { phase: Phase::Confirming, ..self }
                }
            },
            (Phase::Confirming, EventView::Answer(line)) => match confirmation_of(line) {
                Confirmation::Yes => Creation { phase: Phase::CreatingDirectory, ..self },
                Confirmation::No => Creation { phase: Phase::ChoosingRoot, ..self },
                Confirmation::Unclear => Creation { unclear: true, ..self },
            },
            (Phase::ChoosingRoot, EventView::Answer(line)) => Creation {
                phase: Phase::CheckingRegistry,
                root: trimmed(line),
                config: self.config.with_root(trimmed(line)),
                chosen: true,
                ..self
            },
            (Phase::CreatingDirectory, EventView::Done) => Creation {
                phase: Phase::WritingConfig,
                ..self
            },
            (Phase::WritingConfig, EventView::Done) => Creation {
                phase: Phase::WritingBaseline,
                ..self
            },
            (Phase::WritingBaseline, EventView::Done) => Creation { phase: Phase::Locking, ..self },
            (Phase::Locking, EventView::Lock(attempt)) => match self.lock.decision(attempt) {
                LockDecision::Acquired => Creation {
                    phase: Phase::ReadingRegistry,
                    lock: self.lock.after(attempt),
                    ..self
                },
                LockDecision::Wait { millis } => Creation {
                    phase: Phase::Waiting,
                    lock: self.lock.after(attempt),
                    ..self
                },
                LockDecision::TimedOut => self.fail(WorkspaceErrorView::LockTimeout),
            },
            (Phase::Waiting, EventView::Done) => Creation { phase: Phase::Locking, ..self },
            (Phase::ReadingRegistry, EventView::Registry(DocumentView::Parsed(registry))) => Creation {
                phase: Phase::SavingRegistry,
                registry: registry.insert(self.id, self.root),
                ..self
            },
            (Phase::ReadingRegistry, EventView::Registry(DocumentView::Unreadable(why))) => self.fail(
                WorkspaceErrorView::ConfigCorrupt(why),
            ),
            (Phase::ReadingRegistry, EventView::Registry(DocumentView::Malformed(why))) => self.fail(
                WorkspaceErrorView::ConfigCorrupt(why),
            ),
            (Phase::SavingRegistry, EventView::Done) => Creation { phase: Phase::Unlocking, ..self },
            (Phase::Unlocking, EventView::Done) => match self.failure {
                Some(_) => Creation { phase: Phase::RollingBack, lock: LockState::fresh(), ..self },
                None => Creation { phase: Phase::Finished, lock: LockState::fresh(), ..self },
            },
            (Phase::RollingBack, EventView::Done) => Creation { phase: Phase::Finished, ..self },
            (_, EventView::Failed(why)) => self.fail(WorkspaceErrorView::Storage(why)),
            (_, _) => self.fail(WorkspaceErrorView::Storage(unexpected_event())),
        }
    }

    /// The step to take in this state.
    pub open spec fn action(self) -> ActionView {
        match self.phase {
            Phase::LoadingConfig => ActionView::ReadConfig {
                path: match self.config_file {
                    Some(path) => path,
                    None => Seq::empty(),
                },
            },
            Phase::CheckingRegistry => ActionView::ReadRegistry {
                path: workspace_list_path_spec(self.root_dir),
            },
            Phase::CheckingDirectory => ActionView::ProbeDirectory { path: self.root },
            Phase::Confirming => ActionView::Confirm { root: self.root, again: self.unclear },
            Phase::ChoosingRoot => ActionView::AskRoot,
            Phase::CreatingDirectory => ActionView::CreateDirectory {
                path: workspace_dir_spec(self.root_dir, self.id),
            },
            Phase::WritingConfig => ActionView::WriteConfig {
                path: config_path_spec(self.root_dir, self.id),
                config: self.config,
            },
            Phase::WritingBaseline => ActionView::WriteConfig {
                path: config_baseline_path_spec(self.root_dir, self.id),
                config: self.config,
            },
            Phase::Locking => ActionView::TryLock {
                path: workspace_list_lock_path_spec(self.root_dir),
            },
            Phase::Waiting => ActionView::Sleep { millis: POLL_INTERVAL_MS },
            Phase::ReadingRegistry => ActionView::ReadRegistry {
                path: workspace_list_path_spec(self.root_dir),
            },
            Phase::SavingRegistry => ActionView::WriteRegistry {
                registry: self.registry,
                write_to: workspace_list_temp_path_spec(self.root_dir),
                rename_to: workspace_list_path_spec(self.root_dir),
            },
            Phase::Unlocking => ActionView::Unlock {
                path: workspace_list_lock_path_spec(self.root_dir),
            },
            Phase::RollingBack => ActionView::RemoveDirectory {
                path: workspace_dir_spec(self.root_dir, self.id),
            },
            Phase::Finished => ActionView::Finish(
                match self.failure {
                    Some(e) => Err(e),
                    None => Ok((self.id, self.root)),
                },
            ),
        }
    }
}

/// The making of one workspace, step by step.
#[derive(Debug)]
pub struct WorkspaceFactory {
    phase: Phase,
    root_dir: String,
    cwd: String,
    id: String,
    config_file: Option<String>,
    config: Config,
    root: String,
    chosen: bool,
    unclear: bool,
    registry: WorkspaceList,
    lock: LockGuard,
    failure: Option<WorkspaceError>,
}

impl View for WorkspaceFactory {
    type V = Creation;

    closed spec fn view(&self) -> Creation {
        Creation {
            phase: self.phase,
            root_dir: self.root_dir@,
            cwd: self.cwd@,
            id: self.id@,
            config_file: match self.config_file {
                Some(path) => Some(path@),
                None => None,
            },
            config: self.config@,
            root: self.root@,
            chosen: self.chosen,
            unclear: self.unclear,
            registry: self.registry@,
            lock: self.lock@,
            failure: match self.failure {
                Some(e) => Some(e@),
                None => None,
            },
        }
    }
}

impl WorkspaceFactory {
    #[verifier::type_invariant]
    spec fn lock_matches_phase(&self) -> bool {
        self.lock@.held == self.phase.holds_lock()
    }

    /// Begins to make the workspace `id` below the storage directory
    /// `root_dir`, for a user who works in `cwd` and has named the
    /// configuration file `config_file`, or none.
    pub fn begin(config_file: Option<String>, cwd: String, root_dir: String, id: String) -> (factory:
        WorkspaceFactory)
        ensures
            factory@ == Creation::begin(text_of(config_file), cwd@, root_dir@, id@),
    {
        let phase = if config_file.is_some() {
            Phase::LoadingConfig
        } else {
            Phase::CheckingRegistry
        };
        let root = cwd.clone();
        let config = default_config().with_root(cwd.clone());
        WorkspaceFactory {
            phase,
            root_dir,
            cwd,
            id,
            config_file,
            config,
            root,
            chosen: false,
            unclear: false,
            registry: WorkspaceList::new(),
            lock: LockGuard::new(),
            failure: None,
        }
    }

    /// How far the making of the workspace has come.
    pub fn phase(&self) -> (phase: Phase)
        ensures
            phase == self@.phase,
    {
        self.phase
    }

    /// Whether the result is known.
    pub fn is_finished(&self) -> (finished: bool)
        ensures
            finished == (self@.phase == Phase::Finished),
    {
        self.phase == Phase::Finished
    }

    /// The step to take next.
    pub fn action(&self) -> (action: Action)
        ensures
            action@ == self@.action(),
    {
        match self.phase {
            Phase::LoadingConfig => Action::ReadConfig {
                path: match &self.config_file {
                    Some(path) => path.clone(),
                    None => String::new(),
                },
            },
            Phase::CheckingRegistry => Action::ReadRegistry {
                path: workspace_list_path_in(self.root_dir.as_str()),
            },
            Phase::CheckingDirectory => Action::ProbeDirectory { path: self.root.clone() },
            Phase::Confirming => Action::Confirm { root: self.root.clone(), again: self.unclear },
            Phase::ChoosingRoot => Action::AskRoot,
            Phase::CreatingDirectory => Action::CreateDirectory {
                path: workspace_dir(self.root_dir.as_str(), self.id.as_str()),
            },
            Phase::WritingConfig => Action::WriteConfig {
                path: config_path(self.root_dir.as_str(), self.id.as_str()),
                config: self.config.clone(),
            },
            Phase::WritingBaseline => Action::WriteConfig {
                path: config_baseline_path(self.root_dir.as_str(), self.id.as_str()),
                config: self.config.clone(),
            },
            Phase::Locking => Action::TryLock {
                path: workspace_list_lock_path_in(self.root_dir.as_str()),
            },
            Phase::Waiting => Action::Sleep { millis: POLL_INTERVAL_MS },
            Phase::ReadingRegistry => Action::ReadRegistry {
                path: workspace_list_path_in(self.root_dir.as_str()),
            },
            Phase::SavingRegistry => Action::WriteRegistry {
                plan: save(&self.registry, self.root_dir.as_str()),
            },
            Phase::Unlocking => Action::Unlock {
                path: workspace_list_lock_path_in(self.root_dir.as_str()),
            },
            Phase::RollingBack => Action::RemoveDirectory {
                path: workspace_dir(self.root_dir.as_str(), self.id.as_str()),
            },
            Phase::Finished => Action::Finish(
                match &self.failure {
                    Some(e) => Err(e.clone()),
                    None => Ok(Workspace { id: self.id.clone(), root: self.root.clone() }),
                },
            ),
        }
    }

    /// Takes note of how the step that `action` asked for ended.
    pub fn advance(self, event: Event) -> (next: WorkspaceFactory)
        ensures
            next@ == self@.next(event@),
    {
        proof {
            use_type_invariant(&self);
        }
        let WorkspaceFactory {
            phase: was,
            root_dir,
            cwd,
            id,
            config_file,
            mut config,
            mut root,
            mut chosen,
            mut unclear,
            mut registry,
            mut lock,
            mut failure,
        } = self;
        let mut phase = was;
        let mut problem: Option<WorkspaceError> = None;
        match (was, event) {
            (Phase::LoadingConfig, Event::ConfigFile(Document::Parsed(read))) => {
                root =
                match &read.root {
                    Some(root) => root.clone(),
                    None => cwd.clone(),
                };
                config = read.with_root(root.clone());
                phase = Phase::CheckingRegistry;
            },
            (Phase::LoadingConfig, Event::ConfigFile(Document::Unreadable(why))) => {
                problem = Some(WorkspaceError::FileDoesNotExist(FileDoesNotExist::new(why)));
            },
            (Phase::LoadingConfig, Event::ConfigFile(Document::Malformed(why))) => {
                problem = Some(WorkspaceError::ConfigCorrupt(UnexpectedConfigFile::new(why)));
            },
            (Phase::CheckingRegistry, Event::Registry(Document::Parsed(read))) => {
                if read.contains_root(root.as_str()) {
                    problem =
                    Some(
                        WorkspaceError::WorkspaceAlreadyExists(
                            WorkspaceAlreadyExists::new(root.clone()),
                        ),
                    );
                } else {
                    phase = Phase::CheckingDirectory;
                }
            },
            (Phase::CheckingRegistry, Event::Registry(Document::Unreadable(why))) => {
                problem = Some(WorkspaceError::ConfigCorrupt(UnexpectedConfigFile::new(why)));
            },
            (Phase::CheckingRegistry, Event::Registry(Document::Malformed(why))) => {
                problem = Some(WorkspaceError::ConfigCorrupt(UnexpectedConfigFile::new(why)));
            },
            (Phase::CheckingDirectory, Event::Directory(is_directory)) => {
                if !is_directory {
                    problem =
                    Some(WorkspaceError::InvalidRoot(ConfigError::InvalidDirectory(root.clone())));
                } else if chosen {
                    phase = Phase::CreatingDirectory;
                } else {
                    phase = Phase::Confirming;
                }
            },
            (Phase::Confirming, Event::Answer(line)) => {
                match read_confirmation(line.as_str()) {
                    Confirmation::Yes => {
                        phase = Phase::CreatingDirectory;
                    },
                    Confirmation::No => {
                        phase = Phase::ChoosingRoot;
                    },
                    Confirmation::Unclear => {
                        unclear = true;
                    },
                }
            },
            (Phase::ChoosingRoot, Event::Answer(line)) => {
                root = trim(line.as_str());
                config = config.with_root(root.clone());
                chosen = true;
                phase = Phase::CheckingRegistry;
            },
            (Phase::CreatingDirectory, Event::Done) => {
                phase = Phase::WritingConfig;
            },
            (Phase::WritingConfig, Event::Done) => {
                phase = Phase::WritingBaseline;
            },
            (Phase::WritingBaseline, Event::Done) => {
                phase = Phase::Locking;
            },
            (Phase::Locking, Event::Lock(attempt)) => {
                match lock.acquire(attempt) {
                    LockDecision::Acquired => {
                        phase = Phase::ReadingRegistry;
                    },
                    LockDecision::Wait { millis: _ } => {
                        phase = Phase::Waiting;
                    },
                    LockDecision::TimedOut => {
                        problem = Some(WorkspaceError::LockTimeout);
                    },
                }
            },
            (Phase::Waiting, Event::Done) => {
                phase = Phase::Locking;
            },
            (Phase::ReadingRegistry, Event::Registry(Document::Parsed(read))) => {
                registry = read;
                registry.insert(id.clone(), root.clone());
                phase = Phase::SavingRegistry;
            },
            (Phase::ReadingRegistry, Event::Registry(Document::Unreadable(why))) => {
                problem = Some(WorkspaceError::ConfigCorrupt(UnexpectedConfigFile::new(why)));
            },
            (Phase::ReadingRegistry, Event::Registry(Document::Malformed(why))) => {
                problem = Some(WorkspaceError::ConfigCorrupt(UnexpectedConfigFile::new(why)));
            },
            (Phase::SavingRegistry, Event::Done) => {
                phase = Phase::Unlocking;
            },
            (Phase::Unlocking, Event::Done) => {
                lock.release();
                phase =
                match failure {
                    Some(_) => Phase::RollingBack,
                    None => Phase::Finished,
                };
            },
            (Phase::RollingBack, Event::Done) => {
                phase = Phase::Finished;
            },
            (_, Event::Failed(why)) => {
                problem = Some(WorkspaceError::Storage(why));
            },
            (_, _) => {
                problem =
                Some(
                    WorkspaceError::Storage(
                        String::from_str(
                            "the step that was asked for was not the one that was answered",
                        ),
                    ),
                );
            },
        }
        if let Some(error) = problem {
            match was {
                Phase::WritingConfig | Phase::WritingBaseline | Phase::Locking | Phase::Waiting => {
                    phase = Phase::RollingBack;
                    failure = Some(error);
                },
                Phase::ReadingRegistry | Phase::SavingRegistry => {
                    phase = Phase::Unlocking;
                    failure = Some(error);
                },
                Phase::Unlocking => {
                    lock.release();
                    if failure.is_some() {
                        phase = Phase::RollingBack;
                    } else {
                        phase = Phase::Finished;
                        failure = Some(error);
                    }
                },
                Phase::RollingBack => {
                    phase = Phase::Finished;
                },
                Phase::Finished => {},
                _ => {
                    phase = Phase::Finished;
                    failure = Some(error);
                },
            }
        }
        WorkspaceFactory {
            phase,
            root_dir,
            cwd,
            id,
            config_file,
            config,
            root,
            chosen,
            unclear,
            registry,
            lock,
            failure,
        }
    }
}

/// Begins to make a workspace below the storage directory `root_dir`, for a
/// user who works in `cwd` and has named the configuration file
/// `config_file`, or none. The workspace gets a new identifier.
pub fn init_workspace(config_file: Option<String>, cwd: String, root_dir: String) -> (factory:
    WorkspaceFactory)
    ensures
        exists|id: Seq<char>|
            is_workspace_id(id) && factory@ == #[trigger] Creation::begin(
                text_of(config_file),
                cwd@,
                root_dir@,
                id,
            ),
{
    let id = new_workspace_name();
    WorkspaceFactory::begin(config_file, cwd, root_dir, id)
}

/// Every state of the making of a workspace is consistent: the beginning
/// is, and each step keeps it so.
pub proof fn lemma_consistency(
    config_file: Option<Seq<char>>,
    cwd: Seq<char>,
    root_dir: Seq<char>,
    id: Seq<char>,
    state: Creation,
    event: EventView,
)
    ensures
        Creation::begin(config_file, cwd, root_dir, id).consistent(),
        state.consistent() ==> state.next(event).consistent(),
{
}

/// The lock is never left behind. It is taken only by an attempt that made
/// the sentinel; once taken it is held until the removal of the sentinel has
/// been asked for; and the making of the workspace does not end before that.
pub proof fn lemma_lock_is_released(state: Creation, event: EventView)
    requires
        state.consistent(),
    ensures
        !state.phase.holds_lock() && state.next(event).phase.holds_lock() ==> state.phase
            == Phase::Locking && event == EventView::Lock(LockAttempt::Created),
        state.phase.holds_lock() && !state.next(event).phase.holds_lock() ==> state.phase
            == Phase::Unlocking && state.action() == (ActionView::Unlock {
            path: workspace_list_lock_path_spec(state.root_dir),
        }),
        state.next(event).phase == Phase::Finished ==> !state.next(event).lock.held,
        state.phase != Phase::Finished && state.next(event).phase == Phase::Finished
            ==> !state.phase.holds_lock() || state.phase == Phase::Unlocking,
{
}

/// Nothing in the storage directory is changed before the root has been
/// checked and confirmed: a state in which nothing has been touched asks
/// for no change, and is reached only from states of which the same holds.
pub proof fn lemma_nothing_changes_before_the_root_is_accepted(
    config_file: Option<Seq<char>>,
    cwd: Seq<char>,
    root_dir: Seq<char>,
    id: Seq<char>,
    state: Creation,
    event: EventView,
)
    ensures
        Creation::begin(config_file, cwd, root_dir, id).phase.untouched(),
        state.phase.untouched() ==> !state.action().changes_storage(),
        state.next(event).phase.untouched() ==> state.phase.untouched(),
        state.phase == Phase::Finished ==> !state.action().changes_storage(),
{
}

/// A root that is registered already is refused: when the registry that is
/// read for the check holds a workspace with the root, the making of the
/// workspace ends there with `WorkspaceAlreadyExists` for that root, from a
/// state in which nothing has been touched.
pub proof fn lemma_registered_root_is_refused(state: Creation, registry: Map<Seq<char>, Seq<char>>)
    requires
        state.phase == Phase::CheckingRegistry,
        has_root(registry, state.root),
    ensures
        state.phase.untouched(),
        state.next(EventView::Registry(DocumentView::Parsed(registry))).phase == Phase::Finished,
        state.next(EventView::Registry(DocumentView::Parsed(registry))).action()
            == ActionView::Finish(Err(WorkspaceErrorView::WorkspaceAlreadyExists(state.root))),
{
}

/// A root that is no existing directory is refused with `InvalidRoot`, from
/// a state in which nothing has been touched.
pub proof fn lemma_missing_directory_is_refused(state: Creation)
    requires
        state.phase == Phase::CheckingDirectory,
    ensures
        state.phase.untouched(),
        state.next(EventView::Directory(false)).phase == Phase::Finished,
        state.next(EventView::Directory(false)).action() == ActionView::Finish(
            Err(WorkspaceErrorView::InvalidRoot(state.root)),
        ),
{
}

/// After a failure the directory does not stay behind: while the directory
/// is there and the workspace is not registered, the making of the workspace
/// does not end; a failure then leads to the removal of the directory, after
/// the release of the lock where it is held; and the failure that is
/// reported in the end is the first one.
pub proof fn lemma_failure_removes_the_directory(state: Creation, event: EventView)
    requires
        state.consistent(),
    ensures
        state.phase.directory_at_stake() ==> state.next(event).phase != Phase::Finished,
        state.phase.directory_at_stake() && state.next(event).failure is Some ==> state.next(
            event,
        ).phase == (if state.phase.holds_lock() {
            Phase::Unlocking
        } else {
            Phase::RollingBack
        }),
        state.phase == Phase::Unlocking && state.failure is Some ==> state.next(event).phase
            == Phase::RollingBack,
        state.phase == Phase::RollingBack ==> state.next(event).phase == Phase::Finished
            && state.action() == (ActionView::RemoveDirectory {
            path: workspace_dir_spec(state.root_dir, state.id),
        }),
        state.failure is Some ==> state.next(event).failure == state.failure,
{
}

/// The steps that commit a workspace come in one order: the directory, the
/// configuration, its second copy, the lock, the registry. The registry that
/// is saved is the one that was read under the lock with the new workspace
/// registered in it, and the making of the workspace ends well only after
/// that registry has been saved and the lock released.
pub proof fn lemma_commit_order(state: Creation, event: EventView, registry: Map<Seq<char>, Seq<char>>)
    requires
        state.consistent(),
    ensures
        state.next(event).phase == Phase::WritingConfig ==> state.phase == Phase::CreatingDirectory
            && event == EventView::Done,
        state.next(event).phase == Phase::WritingBaseline ==> state.phase == Phase::WritingConfig
            && event == EventView::Done,
        state.next(event).phase == Phase::Locking ==> (state.phase == Phase::WritingBaseline
            || state.phase == Phase::Waiting) && event == EventView::Done,
        state.next(event).phase == Phase::SavingRegistry ==> state.phase == Phase::ReadingRegistry,
        state.phase == Phase::ReadingRegistry ==> state.next(
            EventView::Registry(DocumentView::Parsed(registry)),
        ).action() == (ActionView::WriteRegistry {
            registry: registry.insert(state.id, state.root),
            write_to: workspace_list_temp_path_spec(state.root_dir),
            rename_to: workspace_list_path_spec(state.root_dir),
        }),
        state.next(event).phase == Phase::Unlocking && state.next(event).failure is None
            ==> state.phase == Phase::SavingRegistry && event == EventView::Done,
        state.phase != Phase::Finished && state.next(event).phase == Phase::Finished && state.next(
            event,
        ).failure is None ==> state.phase == Phase::Unlocking && event == EventView::Done
            && state.next(event).action() == ActionView::Finish(Ok((state.id, state.root))),
{
}

/// Without a configuration file the workspace gets the default
/// configuration, with its root in place of the default root: this holds at
/// the beginning and is kept by every step, so it holds of the configuration
/// that is written.
pub proof fn lemma_default_configuration(
    cwd: Seq<char>,
    root_dir: Seq<char>,
    id: Seq<char>,
    state: Creation,
    event: EventView,
)
    ensures
        Creation::begin(None, cwd, root_dir, id).has_default_config(),
        Creation::begin(None, cwd, root_dir, id).root == cwd,
        state.config_file is None && state.consistent() && state.has_default_config()
            ==> state.next(event).has_default_config() && state.next(event).config_file is None,
        state.phase == Phase::WritingConfig && state.has_default_config() ==> state.action() == (
        ActionView::WriteConfig {
            path: config_path_spec(state.root_dir, state.id),
            config: default_config_view().with_root(state.root),
        }),
{
}

} // verus!
