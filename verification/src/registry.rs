//! The registry: which workspace identifier stands for which root directory,
//! and which workspace governs a given directory.

use crate::errors::{WorkspaceError, WorkspaceErrorView};
use crate::text::chars_of;
use vstd::prelude::*;

verus! {

/// An identifier and the root registered under it, as text.
pub type Entry = (Seq<char>, Seq<char>);

/// `registry` after the `entries` have been registered in it one after the
/// other; a later entry replaces an earlier one with the same identifier.
pub open spec fn extended(registry: Map<Seq<char>, Seq<char>>, entries: Seq<Entry>) -> Map<
    Seq<char>,
    Seq<char>,
>
    decreases entries.len(),
{
    if entries.len() == 0 {
        registry
    } else {
        extended(registry, entries.drop_last()).insert(entries.last().0, entries.last().1)
    }
}

/// The registry that holds the `entries` and nothing else.
pub open spec fn map_of(entries: Seq<Entry>) -> Map<Seq<char>, Seq<char>> {
    extended(Map::empty(), entries)
}

/// No identifier occurs twice in `entries`.
pub open spec fn distinct_ids(entries: Seq<Entry>) -> bool {
    forall|i: int, j: int| 0 <= i < j < entries.len() ==> entries[i].0 != entries[j].0
}

/// The text of each pair of `pairs`.
pub open spec fn entries_of(pairs: Seq<(String, String)>) -> Seq<Entry> {
    pairs.map_values(|p: (String, String)| (p.0@, p.1@))
}

/// The directory `root` is `path` or lies above it: `path` starts with
/// `root`, and `root` ends where a component of `path` ends.
pub open spec fn governs(root: Seq<char>, path: Seq<char>) -> bool {
    &&& root.is_prefix_of(path)
    &&& (root.len() == 0 || root.len() == path.len() || root.last() == '/' || path[root.len() as int]
        == '/')
}

/// Some registered root governs `path`.
pub open spec fn has_owner(registry: Map<Seq<char>, Seq<char>>, path: Seq<char>) -> bool {
    exists|id: Seq<char>| registry.dom().contains(id) && governs(#[trigger] registry[id], path)
}

/// The workspace `id` governs `path`, and no registered root that governs
/// `path` is longer than the root of `id`.
pub open spec fn is_owner(registry: Map<Seq<char>, Seq<char>>, id: Seq<char>, path: Seq<char>) -> bool {
    &&& registry.dom().contains(id)
    &&& governs(registry[id], path)
    &&& forall|other: Seq<char>|
        registry.dom().contains(other) && governs(#[trigger] registry[other], path)
            ==> registry[other].len() <= registry[id].len()
}

/// Some workspace is registered with the root `root`.
pub open spec fn has_root(registry: Map<Seq<char>, Seq<char>>, root: Seq<char>) -> bool {
    exists|id: Seq<char>| registry.dom().contains(id) && #[trigger] registry[id] == root
}

/// What is registered after `entries`: every one of them and all of
/// `registry` that none of them replaces.
pub proof fn lemma_extended(registry: Map<Seq<char>, Seq<char>>, entries: Seq<Entry>)
    ensures
        forall|id: Seq<char>| #[trigger]
            extended(registry, entries).dom().contains(id) <==> (registry.dom().contains(id)
                || exists|i: int| 0 <= i < entries.len() && #[trigger] entries[i].0 == id),
        forall|id: Seq<char>|
            registry.dom().contains(id) && (forall|i: int|
                0 <= i < entries.len() ==> #[trigger] entries[i].0 != id) ==> #[trigger] extended(
                registry,
                entries,
            )[id] == registry[id],
        distinct_ids(entries) ==> forall|i: int|
            0 <= i < entries.len() ==> extended(registry, entries)[#[trigger] entries[i].0]
                == entries[i].1,
        registry.dom().finite() ==> extended(registry, entries).dom().finite(),
    decreases entries.len(),
{
    if entries.len() > 0 {
        let init = entries.drop_last();
        let last = entries.last();
        lemma_extended(registry, init);
        let prev = extended(registry, init);
        let next = extended(registry, entries);
        assert(next == prev.insert(last.0, last.1));
        assert forall|id: Seq<char>| #[trigger]
            next.dom().contains(id) <==> (registry.dom().contains(id) || exists|i: int|
                0 <= i < entries.len() && #[trigger] entries[i].0 == id) by {
            if next.dom().contains(id) {
                if id == last.0 {
                    assert(entries[entries.len() - 1].0 == id);
                } else if !registry.dom().contains(id) {
                    let i = choose|i: int| 0 <= i < init.len() && #[trigger] init[i].0 == id;
                    assert(entries[i].0 == id);
                }
            }
            if exists|i: int| 0 <= i < entries.len() && #[trigger] entries[i].0 == id {
                let i = choose|i: int| 0 <= i < entries.len() && #[trigger] entries[i].0 == id;
                if i < init.len() {
                    assert(init[i].0 == id);
                }
            }
        }
        assert forall|id: Seq<char>|
            registry.dom().contains(id) && (forall|i: int|
                0 <= i < entries.len() ==> #[trigger] entries[i].0 != id) implies #[trigger] next[id]
            == registry[id] by {
            assert(entries[entries.len() - 1].0 != id);
            assert forall|i: int| 0 <= i < init.len() implies #[trigger] init[i].0 != id by {
                assert(entries[i].0 != id);
            }
        }
        if distinct_ids(entries) {
            assert(distinct_ids(init)) by {
                assert forall|i: int, j: int| 0 <= i < j < init.len() implies init[i].0
                    != init[j].0 by {
                    assert(entries[i].0 != entries[j].0);
                }
            }
            assert forall|i: int| 0 <= i < entries.len() implies next[#[trigger] entries[i].0]
                == entries[i].1 by {
                if i < init.len() {
                    assert(init[i] == entries[i]);
                    assert(entries[i].0 != entries[entries.len() - 1].0);
                    assert(prev[init[i].0] == init[i].1);
                }
            }
        }
    }
}

/// Giving the entry at `at` another root keeps the identifiers distinct and
/// changes the registry as registering that root under its identifier does.
pub proof fn lemma_replace(entries: Seq<Entry>, at: int, root: Seq<char>)
    requires
        distinct_ids(entries),
        0 <= at < entries.len(),
    ensures
        distinct_ids(entries.update(at, (entries[at].0, root))),
        map_of(entries.update(at, (entries[at].0, root))) == map_of(entries).insert(
            entries[at].0,
            root,
        ),
        map_of(entries)[entries[at].0] == entries[at].1,
{
    let key = entries[at].0;
    let after = entries.update(at, (key, root));
    assert forall|a: int, b: int| 0 <= a < b < after.len() implies after[a].0 != after[b].0 by {
        assert(entries[a].0 != entries[b].0);
    }
    lemma_extended(Map::empty(), entries);
    lemma_extended(Map::empty(), after);
    assert(after[at].0 == key);
    assert forall|k: Seq<char>|
        map_of(after).dom().contains(k) <==> map_of(entries).insert(key, root).dom().contains(
            k,
        ) by {
        if map_of(after).dom().contains(k) {
            let j = choose|j: int| 0 <= j < after.len() && #[trigger] after[j].0 == k;
            assert(entries[j].0 == k);
        }
        if map_of(entries).dom().contains(k) {
            let j = choose|j: int| 0 <= j < entries.len() && #[trigger] entries[j].0 == k;
            assert(after[j].0 == k);
        }
    }
    assert forall|k: Seq<char>| map_of(after).dom().contains(k) implies map_of(after)[k] == map_of(
        entries,
    ).insert(key, root)[k] by {
        let j = choose|j: int| 0 <= j < after.len() && #[trigger] after[j].0 == k;
        assert(map_of(after)[after[j].0] == after[j].1);
        if j != at {
            assert(entries[j].0 != entries[at].0);
            assert(map_of(entries)[entries[j].0] == entries[j].1);
        }
    }
    assert(map_of(after) =~= map_of(entries).insert(key, root));
    assert(map_of(entries)[entries[at].0] == entries[at].1);
}

/// Entries with distinct identifiers make a registry of as many workspaces.
pub proof fn lemma_distinct_len(entries: Seq<Entry>)
    requires
        distinct_ids(entries),
    ensures
        map_of(entries).dom().finite(),
        map_of(entries).len() == entries.len(),
    decreases entries.len(),
{
    lemma_extended(Map::empty(), entries);
    if entries.len() > 0 {
        let init = entries.drop_last();
        let last = entries.last();
        assert(distinct_ids(init)) by {
            assert forall|i: int, j: int| 0 <= i < j < init.len() implies init[i].0 != init[j].0 by {
                assert(entries[i].0 != entries[j].0);
            }
        }
        lemma_distinct_len(init);
        lemma_extended(Map::empty(), init);
        assert(!map_of(init).dom().contains(last.0)) by {
            if map_of(init).dom().contains(last.0) {
                let i = choose|i: int| 0 <= i < init.len() && #[trigger] init[i].0 == last.0;
                assert(entries[i].0 != entries[entries.len() - 1].0);
            }
        }
        assert(map_of(entries).dom() =~= map_of(init).dom().insert(last.0));
    }
}

/// Registrations made one after the other lose nothing: when the
/// identifiers are distinct and new to `registry`, every one of them ends up
/// registered with its own root, every workspace of `registry` keeps its
/// root, nothing else is registered, and the registry has grown by their
/// number. The order in which they are made does not matter to this.
pub proof fn lemma_no_registration_is_lost(registry: Map<Seq<char>, Seq<char>>, entries: Seq<Entry>)
    requires
        distinct_ids(entries),
        forall|i: int| 0 <= i < entries.len() ==> !registry.dom().contains(#[trigger] entries[i].0),
    ensures
        forall|i: int|
            0 <= i < entries.len() ==> extended(registry, entries).dom().contains(
                #[trigger] entries[i].0,
            ) && extended(registry, entries)[entries[i].0] == entries[i].1,
        forall|id: Seq<char>|
            registry.dom().contains(id) ==> extended(registry, entries).dom().contains(id)
                && #[trigger] extended(registry, entries)[id] == registry[id],
        forall|id: Seq<char>| #[trigger]
            extended(registry, entries).dom().contains(id) ==> registry.dom().contains(id)
                || exists|i: int| 0 <= i < entries.len() && #[trigger] entries[i].0 == id,
        registry.dom().finite() ==> extended(registry, entries).dom().finite() && extended(
            registry,
            entries,
        ).len() == registry.len() + entries.len(),
    decreases entries.len(),
{
    lemma_extended(registry, entries);
    assert forall|id: Seq<char>| registry.dom().contains(id) implies extended(
        registry,
        entries,
    ).dom().contains(id) && #[trigger] extended(registry, entries)[id] == registry[id] by {
        assert forall|i: int| 0 <= i < entries.len() implies #[trigger] entries[i].0 != id by {}
    }
    if entries.len() > 0 && registry.dom().finite() {
        let init = entries.drop_last();
        let last = entries.last();
        assert(distinct_ids(init)) by {
            assert forall|i: int, j: int| 0 <= i < j < init.len() implies init[i].0 != init[j].0 by {
                assert(entries[i].0 != entries[j].0);
            }
        }
        assert forall|i: int| 0 <= i < init.len() implies !registry.dom().contains(
            #[trigger] init[i].0,
        ) by {
            assert(init[i].0 == entries[i].0);
        }
        lemma_no_registration_is_lost(registry, init);
        lemma_extended(registry, init);
        assert(!extended(registry, init).dom().contains(last.0)) by {
            assert(last.0 == entries[entries.len() - 1].0);
            if exists|i: int| 0 <= i < init.len() && #[trigger] init[i].0 == last.0 {
                let i = choose|i: int| 0 <= i < init.len() && #[trigger] init[i].0 == last.0;
                assert(entries[i].0 != entries[entries.len() - 1].0);
            }
        }
        assert(extended(registry, entries).dom() =~= extended(registry, init).dom().insert(last.0));
    }
}

/// Of two roots that govern one path, the shorter one is the longer one or
/// lies above it: the roots that govern a path are nested.
pub proof fn lemma_governing_roots_are_nested(high: Seq<char>, low: Seq<char>, path: Seq<char>)
    requires
        governs(high, path),
        governs(low, path),
        high.len() <= low.len(),
    ensures
        high.is_prefix_of(low),
        high.len() == low.len() ==> high == low,
{
    assert(high =~= low.subrange(0, high.len() as int));
    if high.len() == low.len() {
        assert(high =~= low);
    }
}

/// The workspace that governs a path has the deepest of the roots that
/// govern it: every other such root lies above its root or is its root. So
/// the root of the governing workspace is the same whatever identifier is
/// found for it.
pub proof fn lemma_owner_is_deepest(
    registry: Map<Seq<char>, Seq<char>>,
    path: Seq<char>,
    owner: Seq<char>,
    other: Seq<char>,
)
    requires
        is_owner(registry, owner, path),
        registry.dom().contains(other),
        governs(registry[other], path),
    ensures
        registry[other].is_prefix_of(registry[owner]),
        registry[other].len() < registry[owner].len() ==> !is_owner(registry, other, path),
        is_owner(registry, other, path) ==> registry[other] == registry[owner],
{
    lemma_governing_roots_are_nested(registry[other], registry[owner], path);
    if is_owner(registry, other, path) {
        assert(registry[owner].len() <= registry[other].len());
    }
}

/// The registry of workspaces. No identifier is registered twice; the order
/// of registration means nothing.
#[derive(Debug)]
pub struct WorkspaceList {
    workspace_mapping: Vec<(String, String)>,
}

/// A registered workspace.
#[derive(Debug)]
pub struct Workspace {
    /// The identifier, which also names the workspace's directory.
    pub id: String,
    /// The root directory of the workspace.
    pub root: String,
}

impl View for WorkspaceList {
    type V = Map<Seq<char>, Seq<char>>;

    /// The root registered under each identifier.
    closed spec fn view(&self) -> Map<Seq<char>, Seq<char>> {
        map_of(entries_of(self.workspace_mapping@))
    }
}

/// Whether `root` governs `path`, both given by their characters.
fn governs_chars(root: &Vec<char>, path: &Vec<char>) -> (b: bool)
    ensures
        b == governs(root@, path@),
{
    let n = root.len();
    if n > path.len() {
        return false;
    }
    let mut i: usize = 0;
    while i < n
        invariant
            n == root.len(),
            n <= path.len(),
            i <= n,
            forall|j: int| 0 <= j < i ==> root@[j] == path@[j],
        decreases n - i,
    {
        if root[i] != path[i] {
            return false;
        }
        i += 1;
    }
    assert(root@ =~= path@.subrange(0, n as int));
    n == 0 || n == path.len() || root[n - 1] == '/' || path[n] == '/'
}

/// Whether `a` and `b` are the same text.
fn same_chars(a: &Vec<char>, b: &Vec<char>) -> (same: bool)
    ensures
        same == (a@ == b@),
{
    if a.len() != b.len() {
        return false;
    }
    let mut i: usize = 0;
    while i < a.len()
        invariant
            a.len() == b.len(),
            i <= a.len(),
            forall|j: int| 0 <= j < i ==> a@[j] == b@[j],
        decreases a.len() - i,
    {
        if a[i] != b[i] {
            return false;
        }
        i += 1;
    }
    assert(a@ =~= b@);
    true
}

impl WorkspaceList {
    #[verifier::type_invariant]
    spec fn well_formed(&self) -> bool {
        distinct_ids(entries_of(self.workspace_mapping@))
    }

    /// The registry without any workspace.
    pub fn new() -> (list: WorkspaceList)
        ensures
            list@ == Map::<Seq<char>, Seq<char>>::empty(),
    {
        WorkspaceList { workspace_mapping: Vec::new() }
    }

    /// Where `id` is kept, if it is registered.
    fn position(&self, id: &str) -> (at: Option<usize>)
        ensures
            match at {
                Some(i) => i < self.workspace_mapping@.len() && self.workspace_mapping@[i as int].0@
                    == id@,
                None => forall|i: int|
                    0 <= i < self.workspace_mapping@.len() ==> (
                    #[trigger] self.workspace_mapping@[i]).0@ != id@,
            },
    {
        let wanted = chars_of(id);
        let mut i: usize = 0;
        while i < self.workspace_mapping.len()
            invariant
                wanted@ == id@,
                i <= self.workspace_mapping@.len(),
                forall|j: int| 0 <= j < i ==> (#[trigger] self.workspace_mapping@[j]).0@ != id@,
            decreases self.workspace_mapping@.len() - i,
        {
            let here = chars_of(self.workspace_mapping[i].0.as_str());
            if same_chars(&here, &wanted) {
                return Some(i);
            }
            i += 1;
        }
        None
    }

    /// Whether a workspace is registered under `id`.
    pub fn contains_key(&self, id: &str) -> (found: bool)
        ensures
            found == self@.dom().contains(id@),
    {
        let at = self.position(id);
        proof {
            let entries = entries_of(self.workspace_mapping@);
            lemma_extended(Map::empty(), entries);
            match at {
                Some(i) => {
                    assert(entries[i as int].0 == id@);
                },
                None => {
                    assert forall|i: int| 0 <= i < entries.len() implies #[trigger] entries[i].0
                        != id@ by {
                        assert(self.workspace_mapping@[i].0@ != id@);
                    }
                },
            }
        }
        at.is_some()
    }

    /// The root registered under `id`.
    pub fn get(&self, id: &str) -> (root: Option<&str>)
        ensures
            match root {
                Some(root) => self@.dom().contains(id@) && self@[id@] == root@,
                None => !self@.dom().contains(id@),
            },
    {
        let at = self.position(id);
        proof {
            use_type_invariant(self);
            let entries = entries_of(self.workspace_mapping@);
            lemma_extended(Map::empty(), entries);
            match at {
                Some(i) => {
                    assert(entries[i as int].0 == id@);
                },
                None => {
                    assert forall|i: int| 0 <= i < entries.len() implies #[trigger] entries[i].0
                        != id@ by {
                        assert(self.workspace_mapping@[i].0@ != id@);
                    }
                },
            }
        }
        match at {
            Some(i) => Some(self.workspace_mapping[i].1.as_str()),
            None => None,
        }
    }

    /// Registers `root` under `id`. A root registered under `id` before is
    /// replaced and handed back.
    pub fn insert(&mut self, id: String, root: String) -> (replaced: Option<String>)
        ensures
            final(self)@ == old(self)@.insert(id@, root@),
            match replaced {
                Some(before) => old(self)@.dom().contains(id@) && old(self)@[id@] == before@,
                None => !old(self)@.dom().contains(id@),
            },
    {
        let at = self.position(id.as_str());
        let mut taken = WorkspaceList::new();
        core::mem::swap(self, &mut taken);
        proof {
            use_type_invariant(&taken);
        }
        let WorkspaceList { workspace_mapping: mut pairs } = taken;
        let ghost before = entries_of(pairs@);
        let ghost key = id@;
        let ghost value = root@;
        proof {
            lemma_extended(Map::empty(), before);
        }
        match at {
            Some(i) => {
                assert(before[i as int].0 == key);
                let mut entry = (id, root);
                pairs.set_and_swap(i, &mut entry);
                proof {
                    let after = entries_of(pairs@);
                    assert(after =~= before.update(i as int, (key, value)));
                    lemma_replace(before, i as int, value);
                }
                *self = WorkspaceList { workspace_mapping: pairs };
                Some(entry.1)
            },
            None => {
                assert forall|i: int| 0 <= i < before.len() implies #[trigger] before[i].0
                    != key by {
                    assert(pairs@[i].0@ != key);
                }
                pairs.push((id, root));
                proof {
                    let after = entries_of(pairs@);
                    assert(after =~= before.push((key, value)));
                    assert(after.drop_last() =~= before);
                }
                *self = WorkspaceList { workspace_mapping: pairs };
                None
            },
        }
    }

    /// Whether some workspace is registered with the root `root`.
    pub fn contains_root(&self, root: &str) -> (found: bool)
        ensures
            found == has_root(self@, root@),
    {
        let wanted = chars_of(root);
        let ghost entries = entries_of(self.workspace_mapping@);
        proof {
            use_type_invariant(self);
            lemma_extended(Map::empty(), entries);
        }
        let mut i: usize = 0;
        while i < self.workspace_mapping.len()
            invariant
                wanted@ == root@,
                entries == entries_of(self.workspace_mapping@),
                i <= entries.len(),
                forall|j: int| 0 <= j < i ==> (#[trigger] entries[j]).1 != root@,
            decreases entries.len() - i,
        {
            let here = chars_of(self.workspace_mapping[i].1.as_str());
            if same_chars(&here, &wanted) {
                proof {
                    use_type_invariant(self);
                    lemma_extended(Map::empty(), entries);
                    let id = entries[i as int].0;
                    assert(self@.dom().contains(id) && self@[id] == root@);
                }
                return true;
            }
            i += 1;
        }
        proof {
            if has_root(self@, root@) {
                let id = choose|id: Seq<char>| self@.dom().contains(id) && #[trigger] self@[id]
                    == root@;
                let j = choose|j: int| 0 <= j < entries.len() && #[trigger] entries[j].0 == id;
                assert(entries[j].1 == root@);
            }
        }
        false
    }

    /// The workspace that governs `path`: of the registered roots that are
    /// `path` or lie above it, the longest. Fails with `WorkspaceNotFound`
    /// if and only if no registered root governs `path`.
    pub fn resolve(&self, path: &str) -> (found: Result<Workspace, WorkspaceError>)
        ensures
            match found {
                Ok(workspace) => is_owner(self@, workspace.id@, path@) && workspace.root@
                    == self@[workspace.id@],
                Err(e) => e@ == WorkspaceErrorView::WorkspaceNotFound && !has_owner(self@, path@),
            },
    {
        let target = chars_of(path);
        let ghost entries = entries_of(self.workspace_mapping@);
        proof {
            use_type_invariant(self);
            lemma_extended(Map::empty(), entries);
        }
        let mut best: Option<usize> = None;
        let mut best_len: usize = 0;
        let mut i: usize = 0;
        while i < self.workspace_mapping.len()
            invariant
                target@ == path@,
                entries == entries_of(self.workspace_mapping@),
                i <= entries.len(),
                match best {
                    Some(b) => {
                        &&& b < i
                        &&& governs(entries[b as int].1, path@)
                        &&& best_len == entries[b as int].1.len()
                        &&& forall|j: int|
                            0 <= j < i && governs((#[trigger] entries[j]).1, path@)
                                ==> entries[j].1.len() <= best_len
                    },
                    None => forall|j: int| 0 <= j < i ==> !governs((#[trigger] entries[j]).1, path@),
                },
            decreases entries.len() - i,
        {
            let root = chars_of(self.workspace_mapping[i].1.as_str());
            if governs_chars(&root, &target) {
                if best.is_none() || root.len() > best_len {
                    best = Some(i);
                    best_len = root.len();
                }
            }
            i += 1;
        }
        match best {
            Some(b) => {
                let workspace = Workspace {
                    id: self.workspace_mapping[b].0.clone(),
                    root: self.workspace_mapping[b].1.clone(),
                };
                proof {
                    let id = entries[b as int].0;
                    assert(self@.dom().contains(id) && self@[id] == entries[b as int].1);
                    assert forall|other: Seq<char>|
                        self@.dom().contains(other) && governs(
                            #[trigger] self@[other],
                            path@,
                        ) implies self@[other].len() <= self@[id].len() by {
                        let j = choose|j: int|
                            0 <= j < entries.len() && #[trigger] entries[j].0 == other;
                        assert(entries[j].1 == self@[other]);
                    }
                }
                Ok(workspace)
            },
            None => {
                proof {
                    if has_owner(self@, path@) {
                        let id = choose|id: Seq<char>|
                            self@.dom().contains(id) && governs(#[trigger] self@[id], path@);
                        let j = choose|j: int|
                            0 <= j < entries.len() && #[trigger] entries[j].0 == id;
                        assert(entries[j].1 == self@[id]);
                    }
                }
                Err(WorkspaceError::WorkspaceNotFound)
            },
        }
    }

    /// How many workspaces are registered.
    pub fn len(&self) -> (n: usize)
        ensures
            self@.dom().finite(),
            n == self@.len(),
    {
        proof {
            use_type_invariant(self);
            lemma_distinct_len(entries_of(self.workspace_mapping@));
        }
        self.workspace_mapping.len()
    }

    /// Whether no workspace is registered.
    pub fn is_empty(&self) -> (empty: bool)
        ensures
            empty == (self@ == Map::<Seq<char>, Seq<char>>::empty()),
    {
        proof {
            let entries = entries_of(self.workspace_mapping@);
            lemma_extended(Map::empty(), entries);
            if entries.len() > 0 {
                assert(self@.dom().contains(entries[0].0));
            } else {
                assert(self@ =~= Map::<Seq<char>, Seq<char>>::empty());
            }
        }
        self.workspace_mapping.len() == 0
    }

    /// The registry that holds `entries`, each an identifier and its root.
    /// Of two entries with one identifier the later one stays.
    pub fn from_entries(entries: Vec<(String, String)>) -> (list: WorkspaceList)
        ensures
            list@ == map_of(entries_of(entries@)),
    {
        let mut list = WorkspaceList::new();
        let mut i: usize = 0;
        while i < entries.len()
            invariant
                i <= entries.len(),
                list@ == map_of(entries_of(entries@).take(i as int)),
            decreases entries.len() - i,
        {
            let id = entries[i].0.clone();
            let root = entries[i].1.clone();
            proof {
                let all = entries_of(entries@);
                assert(all.take(i + 1).drop_last() =~= all.take(i as int));
                assert(all.take(i + 1).last() == (id@, root@));
            }
            list.insert(id, root);
            i += 1;
        }
        assert(entries_of(entries@).take(i as int) =~= entries_of(entries@));
        list
    }

    /// The registered workspaces, each as its identifier and its root, in no
    /// order that means anything. `from_entries` makes this registry again
    /// from them.
    pub fn entries(&self) -> (entries: Vec<(String, String)>)
        ensures
            distinct_ids(entries_of(entries@)),
            map_of(entries_of(entries@)) == self@,
    {
        let mut entries: Vec<(String, String)> = Vec::new();
        let mut i: usize = 0;
        while i < self.workspace_mapping.len()
            invariant
                i <= self.workspace_mapping@.len(),
                entries@.len() == i,
                forall|j: int|
                    0 <= j < i ==> (#[trigger] entries@[j]).0@ == self.workspace_mapping@[j].0@
                        && entries@[j].1@ == self.workspace_mapping@[j].1@,
            decreases self.workspace_mapping@.len() - i,
        {
            let id = self.workspace_mapping[i].0.clone();
            let root = self.workspace_mapping[i].1.clone();
            entries.push((id, root));
            i += 1;
        }
        proof {
            use_type_invariant(self);
            assert(entries_of(entries@) =~= entries_of(self.workspace_mapping@));
        }
        entries
    }
}

} // verus!
