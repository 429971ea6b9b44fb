//! Making a new workspace: its identifier, the checks on its root, the
//! user's confirmation, and the order of the steps that create it.

use crate::errors::{ConfigError, WorkspaceAlreadyExists, WorkspaceError, WorkspaceErrorView};
use crate::registry::{has_root, WorkspaceList};
use crate::text::{trim, trimmed};
use rand::distributions::{Alphanumeric, DistString};
use vstd::prelude::*;

verus! {

/// The number of random characters in a workspace identifier.
pub const ID_SUFFIX_LEN: usize = 16;

/// An ASCII letter or digit.
pub open spec fn is_alphanumeric(c: char) -> bool {
    let n = c as u32;
    ||| 0x30 <= n <= 0x39
    ||| 0x41 <= n <= 0x5A
    ||| 0x61 <= n <= 0x7A
}

/// Every character of `s` is an ASCII letter or digit.
pub open spec fn all_alphanumeric(s: Seq<char>) -> bool {
    forall|i: int| 0 <= i < s.len() ==> is_alphanumeric(#[trigger] s[i])
}

/// The identifier with the random part `suffix`.
pub open spec fn workspace_name_spec(suffix: Seq<char>) -> Seq<char> {
    "workspace_"@ + suffix
}

/// `id` is a workspace identifier: `workspace_` and 16 ASCII letters or
/// digits.
pub open spec fn is_workspace_id(id: Seq<char>) -> bool {
    exists|suffix: Seq<char>|
        #![trigger workspace_name_spec(suffix)]
        suffix.len() == ID_SUFFIX_LEN && all_alphanumeric(suffix) && id == workspace_name_spec(
            suffix,
        )
}

/// Calls `rand::distributions::DistString::sample_string` on
/// `rand::distributions::Alphanumeric` with the generator of the current
/// thread. The result has `len` characters, each drawn from `A`-`Z`, `a`-`z`
/// and `0`-`9`; which ones is left to chance.
#[verifier::external_body]
fn random_alphanumeric(len: usize) -> (s: String)
    ensures
        s@.len() == len,
        all_alphanumeric(s@),
{
    Alphanumeric.sample_string(&mut rand::thread_rng(), len)
}

/// The identifier with the random part `suffix`.
pub fn workspace_name(suffix: &str) -> (name: String)
    ensures
        name@ == workspace_name_spec(suffix@),
{
    let mut name = String::from_str("workspace_");
    name.append(suffix);
    name
}

/// A new workspace identifier. It is drawn at random and not compared with
/// the identifiers in use: that two are equal is possible, and unlikely.
pub fn new_workspace_name() -> (name: String)
    ensures
        is_workspace_id(name@),
{
    let suffix = random_alphanumeric(ID_SUFFIX_LEN);
    workspace_name(suffix.as_str())
}

/// What `check_workspace_is_valid` finds for the root `root`, given the
/// registry and whether `root` is an existing directory.
pub open spec fn validity(
    registry: Map<Seq<char>, Seq<char>>,
    root: Seq<char>,
    is_directory: bool,
) -> Result<(), WorkspaceErrorView> {
    if has_root(registry, root) {
        Err(WorkspaceErrorView::WorkspaceAlreadyExists(root))
    } else if !is_directory {
        Err(WorkspaceErrorView::InvalidRoot(root))
    } else {
        Ok(())
    }
}

/// Checks that no workspace is registered with the root `root`.
pub fn check_root_is_new(registry: &WorkspaceList, root: &str) -> (checked: Result<
    (),
    WorkspaceError,
>)
    ensures
        checked is Ok <==> !has_root(registry@, root@),
        checked matches Err(e) ==> e@ == WorkspaceErrorView::WorkspaceAlreadyExists(root@),
{
    if registry.contains_root(root) {
        Err(
            WorkspaceError::WorkspaceAlreadyExists(
                WorkspaceAlreadyExists::new(String::from_str(root)),
            ),
        )
    } else {
        Ok(())
    }
}

/// Checks that `root` is an existing directory, which the caller has looked
/// up.
pub fn check_root_is_directory(root: &str, is_directory: bool) -> (checked: Result<
    (),
    WorkspaceError,
>)
    ensures
        checked is Ok <==> is_directory,
        checked matches Err(e) ==> e@ == WorkspaceErrorView::InvalidRoot(root@),
{
    if is_directory {
        Ok(())
    } else {
        Err(WorkspaceError::InvalidRoot(ConfigError::InvalidDirectory(String::from_str(root))))
    }
}

/// Checks the root of a workspace to be: it must not be the root of a
/// registered workspace (`WorkspaceAlreadyExists`), and it must be an
/// existing directory (`InvalidRoot`), which the caller has looked up.
pub fn check_workspace_is_valid(registry: &WorkspaceList, root: &str, is_directory: bool) -> (checked:
    Result<(), WorkspaceError>)
    ensures
        match checked {
            Ok(()) => validity(registry@, root@, is_directory) == Ok::<(), WorkspaceErrorView>(()),
            Err(e) => validity(registry@, root@, is_directory) == Err::<(), WorkspaceErrorView>(e@),
        },
{
    check_root_is_new(registry, root)?;
    check_root_is_directory(root, is_directory)
}

/// What the user answered when asked to confirm a root.
#[derive(Debug, Clone, Copy, PartialEq, Eq, Structural)]
pub enum Confirmation {
    /// The root is right: `y`, or nothing at all.
    Yes,
    /// The root is wrong: `n`.
    No,
    /// Neither: the question is asked again.
    Unclear,
}

/// What the answer `line` means: the white space around it and the case of
/// its letters do not count.
pub open spec fn confirmation_of(line: Seq<char>) -> Confirmation {
    let answer = trimmed(line);
    if answer == ""@ || answer == "y"@ || answer == "Y"@ {
        Confirmation::Yes
    } else if answer == "n"@ || answer == "N"@ {
        Confirmation::No
    } else {
        Confirmation::Unclear
    }
}

/// What the answer `line` means.
pub fn read_confirmation(line: &str) -> (confirmation: Confirmation)
    ensures
        confirmation == confirmation_of(line@),
{
    let answer = trim(line);
    if answer == String::from_str("") || answer == String::from_str("y") || answer
        == String::from_str("Y") {
        Confirmation::Yes
    } else if answer == String::from_str("n") || answer == String::from_str("N") {
        Confirmation::No
    } else {
        Confirmation::Unclear
    }
}

/// The question that asks the user to confirm the root `root`.
pub open spec fn confirm_prompt_spec(root: Seq<char>) -> Seq<char> {
    "The root directory is set to '"@ + root + "'. Is this correct? [Y/N]"@
}

/// The question that asks the user to confirm the root `root`.
pub fn confirm_prompt(root: &str) -> (prompt: String)
    ensures
        prompt@ == confirm_prompt_spec(root@),
{
    let mut prompt = String::from_str("The root directory is set to '");
    prompt.append(root);
    prompt.append("'. Is this correct? [Y/N]");
    prompt
}

/// What the user is told after an answer that is neither yes nor no.
pub fn invalid_answer_prompt() -> (prompt: String)
    ensures
        prompt@ == "Invalid input. Please enter 'y' or 'n'."@,
{
    String::from_str("Invalid input. Please enter 'y' or 'n'.")
}

/// The request for another root.
pub fn ask_root_prompt() -> (prompt: String)
    ensures
        prompt@ == "Please enter the root directory of the workspace."@,
{
    String::from_str("Please enter the root directory of the workspace.")
}

} // verus!
