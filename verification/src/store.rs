//! Loading and saving the registry, and finding the workspace and the
//! configuration document for a directory. Files are read and written by the
//! caller, which reports what it found as a `Document`.

use crate::config::{Config, ConfigView};
use crate::errors::{UnexpectedConfigFile, WorkspaceError, WorkspaceErrorView};
use crate::paths::{
    config_path, config_path_spec, workspace_list_path_in, workspace_list_path_spec,
    workspace_list_temp_path_in, workspace_list_temp_path_spec,
};
use crate::registry::{entries_of, has_owner, is_owner, map_of, Workspace, WorkspaceList};
use vstd::prelude::*;

verus! {

/// What came of reading a document from a file and parsing it.
#[derive(Debug)]
pub enum Document<T> {
    /// The file is not there or cannot be read; the text says why.
    Unreadable(String),
    /// The file does not hold a document of the expected shape; the text
    /// says what is wrong with it.
    Malformed(String),
    /// The document.
    Parsed(T),
}

pub enum DocumentView<V> {
    Unreadable(Seq<char>),
    Malformed(Seq<char>),
    Parsed(V),
}

impl<T: View> View for Document<T> {
    type V = DocumentView<T::V>;

    open spec fn view(&self) -> DocumentView<T::V> {
        match self {
            Document::Unreadable(why) => DocumentView::Unreadable(why@),
            Document::Malformed(why) => DocumentView::Malformed(why@),
            Document::Parsed(document) => DocumentView::Parsed(document@),
        }
    }
}

/// The document, or `ConfigCorrupt` with the reason why there is none.
pub open spec fn accepted<V>(document: DocumentView<V>) -> Result<V, WorkspaceErrorView> {
    match document {
        DocumentView::Unreadable(why) => Err(WorkspaceErrorView::ConfigCorrupt(why)),
        DocumentView::Malformed(why) => Err(WorkspaceErrorView::ConfigCorrupt(why)),
        DocumentView::Parsed(document) => Ok(document),
    }
}

/// The registry that was read. A registry document that is missing,
/// unreadable or of another shape is `ConfigCorrupt`.
pub fn load(document: Document<WorkspaceList>) -> (registry: Result<WorkspaceList, WorkspaceError>)
    ensures
        match registry {
            Ok(registry) => accepted(document@) == Ok::<
                Map<Seq<char>, Seq<char>>,
                WorkspaceErrorView,
            >(registry@),
            Err(e) => accepted(document@) == Err::<Map<Seq<char>, Seq<char>>, WorkspaceErrorView>(
                e@,
            ),
        },
{
    match document {
        Document::Unreadable(why) => Err(
            WorkspaceError::ConfigCorrupt(UnexpectedConfigFile::new(why)),
        ),
        Document::Malformed(why) => Err(WorkspaceError::ConfigCorrupt(UnexpectedConfigFile::new(why))),
        Document::Parsed(registry) => Ok(registry),
    }
}

/// The configuration that was read. A configuration document that is
/// missing, unreadable or of another shape is `ConfigCorrupt`.
pub fn accept_config(document: Document<Config>) -> (config: Result<Config, WorkspaceError>)
    ensures
        match config {
            Ok(config) => accepted(document@) == Ok::<ConfigView, WorkspaceErrorView>(config@),
            Err(e) => accepted(document@) == Err::<ConfigView, WorkspaceErrorView>(e@),
        },
{
    match document {
        Document::Unreadable(why) => Err(
            WorkspaceError::ConfigCorrupt(UnexpectedConfigFile::new(why)),
        ),
        Document::Malformed(why) => Err(WorkspaceError::ConfigCorrupt(UnexpectedConfigFile::new(why))),
        Document::Parsed(config) => Ok(config),
    }
}

/// How to save a registry so that no reader ever finds half a document: the
/// whole document is written to `write_to`, a file in the directory of the
/// registry document, which is then renamed to `rename_to`.
#[derive(Debug)]
pub struct SavePlan {
    /// The registered workspaces, each as its identifier and its root.
    pub entries: Vec<(String, String)>,
    /// The file to write the document to.
    pub write_to: String,
    /// The registry document, which the written file replaces.
    pub rename_to: String,
}

/// How to save `registry` below the storage directory `root_dir`.
pub fn save(registry: &WorkspaceList, root_dir: &str) -> (plan: SavePlan)
    ensures
        map_of(entries_of(plan.entries@)) == registry@,
        plan.write_to@ == workspace_list_temp_path_spec(root_dir@),
        plan.rename_to@ == workspace_list_path_spec(root_dir@),
{
    SavePlan {
        entries: registry.entries(),
        write_to: workspace_list_temp_path_in(root_dir),
        rename_to: workspace_list_path_in(root_dir),
    }
}

/// What a save plan holds is enough to load the registry again: its entries,
/// made into a registry and reported as parsed, are accepted by `load` as the
/// registry that was saved. Writing them to the file and parsing the file is
/// the caller's part.
pub proof fn lemma_saved_registry_loads_back(
    registry: Map<Seq<char>, Seq<char>>,
    saved: Seq<(Seq<char>, Seq<char>)>,
)
    requires
        map_of(saved) == registry,
    ensures
        accepted(DocumentView::Parsed(map_of(saved))) == Ok::<
            Map<Seq<char>, Seq<char>>,
            WorkspaceErrorView,
        >(registry),
{
}

/// The workspace that governs a directory, and where its configuration is.
#[derive(Debug)]
pub struct Located {
    /// The workspace.
    pub workspace: Workspace,
    /// The configuration document of the workspace.
    pub config_path: String,
}

/// The workspace that governs `current_path` according to the registry that
/// was read, with the path of its configuration document below `root_dir`.
/// Fails with `ConfigCorrupt` if there is no registry, and with
/// `WorkspaceNotFound` if no registered root governs `current_path`.
pub fn locate(registry: Document<WorkspaceList>, root_dir: &str, current_path: &str) -> (found:
    Result<Located, WorkspaceError>)
    ensures
        match found {
            Ok(found) => {
                &&& registry@ matches DocumentView::Parsed(registry)
                &&& is_owner(registry, found.workspace.id@, current_path@)
                &&& found.workspace.root@ == registry[found.workspace.id@]
                &&& found.config_path@ == config_path_spec(root_dir@, found.workspace.id@)
            },
            Err(e) => match registry@ {
                DocumentView::Parsed(registry) => e@ == WorkspaceErrorView::WorkspaceNotFound
                    && !has_owner(registry, current_path@),
                DocumentView::Unreadable(why) => e@ == WorkspaceErrorView::ConfigCorrupt(why),
                DocumentView::Malformed(why) => e@ == WorkspaceErrorView::ConfigCorrupt(why),
            },
        },
{
    let registry = load(registry)?;
    let workspace = registry.resolve(current_path)?;
    let config_path = config_path(root_dir, workspace.id.as_str());
    Ok(Located { workspace, config_path })
}

} // verus!
