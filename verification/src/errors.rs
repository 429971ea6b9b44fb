//! The failures that the registry operations report, and their messages.

use vstd::prelude::*;

verus! {

/// A configuration file named by the user could not be opened.
#[derive(Debug)]
pub struct FileDoesNotExist {
    file: String,
}

impl View for FileDoesNotExist {
    type V = Seq<char>;

    /// The file, or the reason it could not be opened, as reported.
    closed spec fn view(&self) -> Seq<char> {
        self.file@
    }
}

impl FileDoesNotExist {
    pub fn new(file: String) -> (e: Self)
        ensures
            e@ == file@,
    {
        Self { file }
    }

    pub fn file(&self) -> (file: &str)
        ensures
            file@ == self@,
    {
        self.file.as_str()
    }

    pub open spec fn message_spec(file: Seq<char>) -> Seq<char> {
        "Error: file '"@ + file + "' does not exist."@
    }

    /// The text shown to the user.
    pub fn message(&self) -> (m: String)
        ensures
            m@ == Self::message_spec(self@),
    {
        let mut m = String::from_str("Error: file '");
        m.append(self.file.as_str());
        m.append("' does not exist.");
        m
    }
}

impl Clone for FileDoesNotExist {
    fn clone(&self) -> (copy: Self)
        ensures
            copy@ == self@,
    {
        Self { file: self.file.clone() }
    }
}

/// A document, the registry or a workspace's configuration, that could not be
/// parsed or has another shape than expected.
#[derive(Debug)]
pub struct UnexpectedConfigFile {
    error: String,
}

impl View for UnexpectedConfigFile {
    type V = Seq<char>;

    /// What was wrong with the document.
    closed spec fn view(&self) -> Seq<char> {
        self.error@
    }
}

impl UnexpectedConfigFile {
    pub fn new(error: String) -> (e: Self)
        ensures
            e@ == error@,
    {
        Self { error }
    }

    pub fn error(&self) -> (error: &str)
        ensures
            error@ == self@,
    {
        self.error.as_str()
    }

    pub open spec fn message_spec(error: Seq<char>) -> Seq<char> {
        "Error: unexpected config file format. "@ + error
    }

    /// The text shown to the user.
    pub fn message(&self) -> (m: String)
        ensures
            m@ == Self::message_spec(self@),
    {
        let mut m = String::from_str("Error: unexpected config file format. ");
        m.append(self.error.as_str());
        m
    }
}

impl Clone for UnexpectedConfigFile {
    fn clone(&self) -> (copy: Self)
        ensures
            copy@ == self@,
    {
        Self { error: self.error.clone() }
    }
}

/// The root chosen for a new workspace is the root of a registered one.
#[derive(Debug)]
pub struct WorkspaceAlreadyExists {
    root: String,
}

impl View for WorkspaceAlreadyExists {
    type V = Seq<char>;

    /// The root that is registered already.
    closed spec fn view(&self) -> Seq<char> {
        self.root@
    }
}

impl WorkspaceAlreadyExists {
    pub fn new(root: String) -> (e: Self)
        ensures
            e@ == root@,
    {
        Self { root }
    }

    pub fn root(&self) -> (root: &str)
        ensures
            root@ == self@,
    {
        self.root.as_str()
    }

    pub open spec fn message_spec(root: Seq<char>) -> Seq<char> {
        "Error: the directory at "@ + root + " already exists. You are not allow to init agagin"@
    }

    /// The text shown to the user.
    pub fn message(&self) -> (m: String)
        ensures
            m@ == Self::message_spec(self@),
    {
        let mut m = String::from_str("Error: the directory at ");
        m.append(self.root.as_str());
        m.append(" already exists. You are not allow to init agagin");
        m
    }
}

impl Clone for WorkspaceAlreadyExists {
    fn clone(&self) -> (copy: Self)
        ensures
            copy@ == self@,
    {
        Self { root: self.root.clone() }
    }
}

/// A configuration that cannot be used.
#[derive(Debug)]
pub enum ConfigError {
    /// The root does not exist or is no directory.
    InvalidDirectory(String),
}

impl View for ConfigError {
    type V = Seq<char>;

    /// The directory that was refused.
    open spec fn view(&self) -> Seq<char> {
        match self {
            ConfigError::InvalidDirectory(dir) => dir@,
        }
    }
}

impl ConfigError {
    pub open spec fn message_spec(dir: Seq<char>) -> Seq<char> {
        "Error: diectory: \""@ + dir + "\" is not a valid path."@
    }

    /// The text shown to the user.
    pub fn message(&self) -> (m: String)
        ensures
            m@ == Self::message_spec(self@),
    {
        match self {
            ConfigError::InvalidDirectory(dir) => {
                let mut m = String::from_str("Error: diectory: \"");
                m.append(dir.as_str());
                m.append("\" is not a valid path.");
                m
            },
        }
    }
}

impl Clone for ConfigError {
    fn clone(&self) -> (copy: Self)
        ensures
            copy@ == self@,
    {
        match self {
            ConfigError::InvalidDirectory(dir) => ConfigError::InvalidDirectory(dir.clone()),
        }
    }
}

/// Any failure of a registry operation.
#[derive(Debug)]
pub enum WorkspaceError {
    /// A configuration file named by the user could not be opened.
    FileDoesNotExist(FileDoesNotExist),
    /// The registry or a configuration document is not what it should be.
    ConfigCorrupt(UnexpectedConfigFile),
    /// The root is registered already.
    WorkspaceAlreadyExists(WorkspaceAlreadyExists),
    /// The root does not exist or is no directory.
    InvalidRoot(ConfigError),
    /// The registry stayed locked for the whole time allowed for waiting.
    LockTimeout,
    /// No registered root is an ancestor of the directory asked about.
    WorkspaceNotFound,
    /// The storage directory could not be read or changed; the text says why.
    Storage(String),
}

/// A `WorkspaceError` with the text it carries as a sequence of characters.
pub enum WorkspaceErrorView {
    FileDoesNotExist(Seq<char>),
    ConfigCorrupt(Seq<char>),
    WorkspaceAlreadyExists(Seq<char>),
    InvalidRoot(Seq<char>),
    LockTimeout,
    WorkspaceNotFound,
    Storage(Seq<char>),
}

impl View for WorkspaceError {
    type V = WorkspaceErrorView;

    open spec fn view(&self) -> WorkspaceErrorView {
        match self {
            WorkspaceError::FileDoesNotExist(e) => WorkspaceErrorView::FileDoesNotExist(e@),
            WorkspaceError::ConfigCorrupt(e) => WorkspaceErrorView::ConfigCorrupt(e@),
            WorkspaceError::WorkspaceAlreadyExists(e) => WorkspaceErrorView::WorkspaceAlreadyExists(
                e@,
            ),
            WorkspaceError::InvalidRoot(e) => WorkspaceErrorView::InvalidRoot(e@),
            WorkspaceError::LockTimeout => WorkspaceErrorView::LockTimeout,
            WorkspaceError::WorkspaceNotFound => WorkspaceErrorView::WorkspaceNotFound,
            WorkspaceError::Storage(why) => WorkspaceErrorView::Storage(why@),
        }
    }
}

impl Clone for WorkspaceError {
    fn clone(&self) -> (copy: Self)
        ensures
            copy@ == self@,
    {
        match self {
            WorkspaceError::FileDoesNotExist(e) => WorkspaceError::FileDoesNotExist(e.clone()),
            WorkspaceError::ConfigCorrupt(e) => WorkspaceError::ConfigCorrupt(e.clone()),
            WorkspaceError::WorkspaceAlreadyExists(e) => WorkspaceError::WorkspaceAlreadyExists(
                e.clone(),
            ),
            WorkspaceError::InvalidRoot(e) => WorkspaceError::InvalidRoot(e.clone()),
            WorkspaceError::LockTimeout => WorkspaceError::LockTimeout,
            WorkspaceError::WorkspaceNotFound => WorkspaceError::WorkspaceNotFound,
            WorkspaceError::Storage(why) => WorkspaceError::Storage(why.clone()),
        }
    }
}

impl WorkspaceErrorView {
    /// The text shown to the user for this failure.
    pub open spec fn message(self) -> Seq<char> {
        match self {
            WorkspaceErrorView::FileDoesNotExist(file) => FileDoesNotExist::message_spec(file),
            WorkspaceErrorView::ConfigCorrupt(error) => UnexpectedConfigFile::message_spec(error),
            WorkspaceErrorView::WorkspaceAlreadyExists(root) => {
                WorkspaceAlreadyExists::message_spec(root)
            },
            WorkspaceErrorView::InvalidRoot(dir) => ConfigError::message_spec(dir),
            WorkspaceErrorView::LockTimeout => {
                "Error: the workspace list is locked by another process."@
            },
            WorkspaceErrorView::WorkspaceNotFound => {
                "Error: the current directory is not a workspace directory. Please run cserunner init first"@
            },
            WorkspaceErrorView::Storage(why) => "Error: "@ + why,
        }
    }
}

impl WorkspaceError {
    /// The text shown to the user.
    pub fn message(&self) -> (m: String)
        ensures
            m@ == self@.message(),
    {
        match self {
            WorkspaceError::FileDoesNotExist(e) => e.message(),
            WorkspaceError::ConfigCorrupt(e) => e.message(),
            WorkspaceError::WorkspaceAlreadyExists(e) => e.message(),
            WorkspaceError::InvalidRoot(e) => e.message(),
            WorkspaceError::LockTimeout => String::from_str(
                "Error: the workspace list is locked by another process.",
            ),
            WorkspaceError::WorkspaceNotFound => String::from_str(
                "Error: the current directory is not a workspace directory. Please run cserunner init first",
            ),
            WorkspaceError::Storage(why) => {
                let mut m = String::from_str("Error: ");
                m.append(why.as_str());
                m
            },
        }
    }
}

} // verus!
