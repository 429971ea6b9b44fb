//! Where the registry and the workspaces are kept: the storage directory in
//! the user's home directory and the files below it. Paths are strings whose
//! components are separated by `/`.

use crate::errors::{WorkspaceError, WorkspaceErrorView};
use crate::text::text_of;
use vstd::prelude::*;

verus! {

/// `base` extended by the component `name`.
pub open spec fn join_spec(base: Seq<char>, name: Seq<char>) -> Seq<char> {
    if base.len() == 0 || base.last() == '/' {
        base + name
    } else {
        base + seq!['/'] + name
    }
}

/// The storage directory for a user whose home directory is `home`; without a
/// home directory it is `~/.cserunner`, as a shell would write it.
pub open spec fn root_dir_spec(home: Option<Seq<char>>) -> Seq<char> {
    match home {
        Some(home) => join_spec(home, ".cserunner"@),
        None => join_spec("~"@, ".cserunner"@),
    }
}

/// The registry document below the storage directory `root_dir`.
pub open spec fn workspace_list_path_spec(root_dir: Seq<char>) -> Seq<char> {
    join_spec(root_dir, "workspace_list.json"@)
}

/// The lock sentinel beside the registry document.
pub open spec fn workspace_list_lock_path_spec(root_dir: Seq<char>) -> Seq<char> {
    join_spec(root_dir, "workspace_list.json.lock"@)
}

/// The file that a new registry document is written to before it replaces
/// the old one.
pub open spec fn workspace_list_temp_path_spec(root_dir: Seq<char>) -> Seq<char> {
    join_spec(root_dir, "workspace_list.json.tmp"@)
}

/// The directory of the workspace `id`.
pub open spec fn workspace_dir_spec(root_dir: Seq<char>, id: Seq<char>) -> Seq<char> {
    join_spec(root_dir, id)
}

/// The configuration document of the workspace `id`.
pub open spec fn config_path_spec(root_dir: Seq<char>, id: Seq<char>) -> Seq<char> {
    join_spec(workspace_dir_spec(root_dir, id), "config.json"@)
}

/// The second copy of the configuration, written when the workspace is made.
pub open spec fn config_baseline_path_spec(root_dir: Seq<char>, id: Seq<char>) -> Seq<char> {
    join_spec(workspace_dir_spec(root_dir, id), "config.json.lock"@)
}

/// `base` extended by the component `name`: a `/` is put between them unless
/// `base` is empty or ends with one.
pub fn join(base: &str, name: &str) -> (path: String)
    ensures
        path@ == join_spec(base@, name@),
{
    let n = base.unicode_len();
    let mut path = String::from_str(base);
    if n > 0 && base.get_char(n - 1) != '/' {
        proof {
            reveal_strlit("/");
            assert("/"@ == seq!['/']);
        }
        path.append("/");
    }
    path.append(name);
    path
}

/// The storage directory for a user whose home directory is `home`.
pub fn root_dir_for(home: Option<String>) -> (dir: String)
    ensures
        dir@ == root_dir_spec(text_of(home)),
{
    match home {
        Some(home) => join(home.as_str(), ".cserunner"),
        None => join("~", ".cserunner"),
    }
}

/// The registry document below `root_dir`.
pub fn workspace_list_path_in(root_dir: &str) -> (path: String)
    ensures
        path@ == workspace_list_path_spec(root_dir@),
{
    join(root_dir, "workspace_list.json")
}

/// The lock sentinel below `root_dir`.
pub fn workspace_list_lock_path_in(root_dir: &str) -> (path: String)
    ensures
        path@ == workspace_list_lock_path_spec(root_dir@),
{
    join(root_dir, "workspace_list.json.lock")
}

/// The temporary file below `root_dir` for a registry document being saved.
pub fn workspace_list_temp_path_in(root_dir: &str) -> (path: String)
    ensures
        path@ == workspace_list_temp_path_spec(root_dir@),
{
    join(root_dir, "workspace_list.json.tmp")
}

/// The directory of the workspace `id` below `root_dir`.
pub fn workspace_dir(root_dir: &str, id: &str) -> (path: String)
    ensures
        path@ == workspace_dir_spec(root_dir@, id@),
{
    join(root_dir, id)
}

/// The configuration document of the workspace `id` below `root_dir`.
pub fn config_path(root_dir: &str, id: &str) -> (path: String)
    ensures
        path@ == config_path_spec(root_dir@, id@),
{
    let dir = join(root_dir, id);
    join(dir.as_str(), "config.json")
}

/// The second copy of the configuration of the workspace `id`.
pub fn config_baseline_path(root_dir: &str, id: &str) -> (path: String)
    ensures
        path@ == config_baseline_path_spec(root_dir@, id@),
{
    let dir = join(root_dir, id);
    join(dir.as_str(), "config.json.lock")
}

/// The error of `homedir::get_my_home`. Nothing is known of what it holds;
/// it is only told apart from success.
#[verifier::external_type_specification]
#[verifier::external_body]
pub struct ExGetHomeError(homedir::GetHomeError);

/// Calls `homedir::get_my_home`, which reads the variable `HOME` and, without
/// it, the user database. The home directory comes back as text, with
/// anything that is not UTF-8 replaced as `to_string_lossy` does. Nothing is
/// claimed of the result: it depends on the process and the machine.
#[verifier::external_body]
fn home_of_current_user() -> (home: Result<Option<String>, homedir::GetHomeError>) {
    match homedir::get_my_home() {
        Ok(Some(dir)) => Ok(Some(dir.to_string_lossy().into_owned())),
        Ok(None) => Ok(None),
        Err(e) => Err(e),
    }
}

/// What `get_root_dir` reports when the home directory cannot be looked up.
pub open spec fn home_lookup_failed() -> Seq<char> {
    "the home directory of the current user could not be determined"@
}

/// The storage directory of the current user: `.cserunner` in the home
/// directory. Fails only if the home directory cannot be looked up.
pub fn get_root_dir() -> (dir: Result<String, WorkspaceError>)
    ensures
        match dir {
            Ok(dir) => exists|home: Option<Seq<char>>| dir@ == root_dir_spec(home),
            Err(e) => e@ == WorkspaceErrorView::Storage(home_lookup_failed()),
        },
{
    match home_of_current_user() {
        Ok(home) => {
            let ghost h = text_of(home);
            let dir = root_dir_for(home);
            assert(dir@ == root_dir_spec(h));
            Ok(dir)
        },
        Err(_) => Err(
            WorkspaceError::Storage(
                String::from_str("the home directory of the current user could not be determined"),
            ),
        ),
    }
}

/// The registry document of the current user.
pub fn get_workspace_list_path() -> (path: Result<String, WorkspaceError>)
    ensures
        match path {
            Ok(path) => exists|home: Option<Seq<char>>|
                path@ == workspace_list_path_spec(root_dir_spec(home)),
            Err(e) => e@ == WorkspaceErrorView::Storage(home_lookup_failed()),
        },
{
    match get_root_dir() {
        Ok(dir) => {
            let path = workspace_list_path_in(dir.as_str());
            let ghost home = choose|home: Option<Seq<char>>| dir@ == root_dir_spec(home);
            assert(path@ == workspace_list_path_spec(root_dir_spec(home)));
            Ok(path)
        },
        Err(e) => Err(e),
    }
}

/// The lock sentinel of the current user's registry.
pub fn get_workspace_list_lock_path() -> (path: Result<String, WorkspaceError>)
    ensures
        match path {
            Ok(path) => exists|home: Option<Seq<char>>|
                path@ == workspace_list_lock_path_spec(root_dir_spec(home)),
            Err(e) => e@ == WorkspaceErrorView::Storage(home_lookup_failed()),
        },
{
    match get_root_dir() {
        Ok(dir) => {
            let path = workspace_list_lock_path_in(dir.as_str());
            let ghost home = choose|home: Option<Seq<char>>| dir@ == root_dir_spec(home);
            assert(path@ == workspace_list_lock_path_spec(root_dir_spec(home)));
            Ok(path)
        },
        Err(e) => Err(e),
    }
}

} // verus!
