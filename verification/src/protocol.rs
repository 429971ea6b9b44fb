//! Several processes that make workspaces at the same time, below one
//! storage directory. The processes share the registry document and the lock
//! sentinel, and take their steps in any order. What is proved is that the
//! lock keeps them apart and that no registration is lost.
//!
//! The storage directory is taken to do two things in one step each: to make
//! the sentinel only if it is not there, and to replace the registry
//! document as a whole.

use crate::factory::{ActionView, Creation, EventView, Phase};
use crate::lock::LockAttempt;
use crate::store::DocumentView;
use vstd::prelude::*;

verus! {

/// What the processes share.
pub struct Shared {
    /// The registry document.
    pub registry: Map<Seq<char>, Seq<char>>,
    /// Whether the lock sentinel is there.
    pub sentinel: bool,
    /// Whether a process has failed to remove the sentinel it had made.
    pub orphaned: bool,
}

/// The processes and what they share.
pub struct System {
    pub shared: Shared,
    /// The making of a workspace in each process.
    pub makers: Seq<Creation>,
}

/// The storage directory answers the step `action` with `event` and is
/// `after` afterwards: an attempt on the lock succeeds only if the sentinel
/// is not there, and makes it; a registry that is read is the one that is
/// there; a registry is saved as a whole or not at all; the sentinel is gone
/// once its removal has succeeded; nothing else changes what is shared.
pub open spec fn answers(action: ActionView, before: Shared, event: EventView, after: Shared) -> bool {
    match action {
        ActionView::TryLock { path } => if event == EventView::Lock(LockAttempt::Created) {
            !before.sentinel && after == (Shared { sentinel: true, ..before })
        } else {
            after == before
        },
        ActionView::ReadRegistry { path } => {
            &&& after == before
            &&& event matches EventView::Registry(DocumentView::Parsed(registry)) ==> registry
                == before.registry
        },
        ActionView::WriteRegistry { registry, write_to, rename_to } => if event == EventView::Done {
            after == (Shared { registry, ..before })
        } else {
            after == before
        },
        ActionView::Unlock { path } => if event == EventView::Done {
            after == (Shared { sentinel: false, ..before })
        } else {
            after == (Shared { orphaned: true, ..before })
        },
        ActionView::Finish(result) => false,
        _ => after == before,
    }
}

/// The process `i`, which has not finished, takes its step, and the storage
/// directory answers with `event`.
pub open spec fn step(before: System, i: int, event: EventView, after: System) -> bool {
    &&& 0 <= i < before.makers.len()
    &&& before.makers[i].phase != Phase::Finished
    &&& answers(before.makers[i].action(), before.shared, event, after.shared)
    &&& after.makers == before.makers.update(i, before.makers[i].next(event))
}

/// The workspace of this process is registered and the process has met no
/// failure.
pub open spec fn has_registered(maker: Creation) -> bool {
    maker.failure is None && (maker.phase == Phase::Unlocking || maker.phase == Phase::Finished)
}

/// No process has taken a step: the sentinel is not there, the registry is
/// `registry`, and each process begins with an identifier that no other
/// process has and that is not registered.
pub open spec fn starts(registry: Map<Seq<char>, Seq<char>>, system: System) -> bool {
    &&& system.shared == (Shared { registry, sentinel: false, orphaned: false })
    &&& forall|i: int|
        0 <= i < system.makers.len() ==> {
            let maker = #[trigger] system.makers[i];
            &&& maker == Creation::begin(maker.config_file, maker.cwd, maker.root_dir, maker.id)
            &&& !registry.dom().contains(maker.id)
        }
    &&& forall|i: int, j: int|
        0 <= i < j < system.makers.len() ==> (#[trigger] system.makers[i]).id != (
        #[trigger] system.makers[j]).id
}

/// What holds of the processes and what they share at any time, when they
/// started with the registry `registry`.
pub open spec fn safe(registry: Map<Seq<char>, Seq<char>>, system: System) -> bool {
    &&& forall|i: int| 0 <= i < system.makers.len() ==> (#[trigger] system.makers[i]).consistent()
    &&& forall|i: int|
        0 <= i < system.makers.len() ==> !registry.dom().contains((#[trigger] system.makers[i]).id)
    &&& forall|i: int, j: int|
        0 <= i < j < system.makers.len() ==> (#[trigger] system.makers[i]).id != (
        #[trigger] system.makers[j]).id
    // at most one process holds the lock
    &&& forall|i: int, j: int|
        0 <= i < j < system.makers.len() ==> !((#[trigger] system.makers[i]).phase.holds_lock() && (
        #[trigger] system.makers[j]).phase.holds_lock())
    // while a process holds the lock, the sentinel is there
    &&& forall|i: int|
        0 <= i < system.makers.len() && (#[trigger] system.makers[i]).phase.holds_lock()
            ==> system.shared.sentinel
    // the sentinel is there only while a process holds the lock, unless one could not remove it
    &&& system.shared.sentinel && !system.shared.orphaned ==> exists|i: int|
        0 <= i < system.makers.len() && (#[trigger] system.makers[i]).phase.holds_lock()
    // the registry that a process is about to save is the one that is there, with its workspace
    &&& forall|i: int|
        0 <= i < system.makers.len() && (#[trigger] system.makers[i]).phase == Phase::SavingRegistry
            ==> system.makers[i].registry == system.shared.registry.insert(
            system.makers[i].id,
            system.makers[i].root,
        )
    // no registration is lost
    &&& forall|i: int|
        0 <= i < system.makers.len() && has_registered(#[trigger] system.makers[i])
            ==> system.shared.registry.dom().contains(system.makers[i].id)
            && system.shared.registry[system.makers[i].id] == system.makers[i].root
    // what was registered at the start stays registered
    &&& forall|id: Seq<char>| #[trigger]
        registry.dom().contains(id) ==> system.shared.registry.dom().contains(id)
            && system.shared.registry[id] == registry[id]
}

/// Processes that have not taken a step are safe.
pub proof fn lemma_start_is_safe(registry: Map<Seq<char>, Seq<char>>, system: System)
    requires
        starts(registry, system),
    ensures
        safe(registry, system),
{
    assert forall|i: int| 0 <= i < system.makers.len() implies (
    #[trigger] system.makers[i]).consistent() && !system.makers[i].phase.holds_lock()
        && system.makers[i].phase != Phase::SavingRegistry && !has_registered(system.makers[i]) by {
        let maker = system.makers[i];
        assert(maker == Creation::begin(maker.config_file, maker.cwd, maker.root_dir, maker.id));
    }
}

/// Whatever step a process takes, the processes stay safe. So they are safe
/// at any time: the lock is held by one process at most, and the workspace
/// of every process that has registered one is in the registry with its
/// root, beside everything that was registered at the start.
pub proof fn lemma_step_is_safe(
    registry: Map<Seq<char>, Seq<char>>,
    before: System,
    i: int,
    event: EventView,
    after: System,
)
    requires
        safe(registry, before),
        step(before, i, event, after),
    ensures
        safe(registry, after),
{
    let was = before.makers[i];
    let now = was.next(event);
    assert(after.makers[i] == now);
    assert(was.consistent());
    assert(now.id == was.id);
    assert(now.consistent());
    assert forall|j: int| 0 <= j < after.makers.len() && j != i implies #[trigger] after.makers[j]
        == before.makers[j] by {}
    assert forall|j: int| 0 <= j < after.makers.len() implies (
    #[trigger] after.makers[j]).consistent() && !registry.dom().contains(after.makers[j].id) by {
        if j != i {
            assert(before.makers[j].consistent());
        } else {
            assert(!registry.dom().contains(before.makers[i].id));
        }
    }
    // Only the holder of the lock changes the registry or removes the sentinel.
    assert(after.shared.registry != before.shared.registry ==> was.phase == Phase::SavingRegistry);
    assert(before.shared.sentinel && !after.shared.sentinel ==> was.phase == Phase::Unlocking);
    assert forall|j: int| 0 <= j < after.makers.len() && j != i && was.phase.holds_lock() implies !(
    #[trigger] before.makers[j]).phase.holds_lock() by {
        if j < i {
            assert(!(before.makers[j].phase.holds_lock() && before.makers[i].phase.holds_lock()));
        } else {
            assert(!(before.makers[i].phase.holds_lock() && before.makers[j].phase.holds_lock()));
        }
    }
    if now.phase.holds_lock() && !was.phase.holds_lock() {
        assert(!before.shared.sentinel);
        assert forall|j: int| 0 <= j < before.makers.len() implies !(
        #[trigger] before.makers[j]).phase.holds_lock() by {}
    }
    assert forall|a: int, b: int| 0 <= a < b < after.makers.len() implies !((
    #[trigger] after.makers[a]).phase.holds_lock() && (
    #[trigger] after.makers[b]).phase.holds_lock()) by {
        if a != i && b != i {
            assert(!(before.makers[a].phase.holds_lock() && before.makers[b].phase.holds_lock()));
        } else if a == i {
            if now.phase.holds_lock() && before.makers[b].phase.holds_lock() {
                assert(was.phase.holds_lock());
            }
        } else {
            if now.phase.holds_lock() && before.makers[a].phase.holds_lock() {
                assert(was.phase.holds_lock());
            }
        }
    }
    assert forall|a: int, b: int| 0 <= a < b < after.makers.len() implies (
    #[trigger] after.makers[a]).id != (#[trigger] after.makers[b]).id by {
        assert(before.makers[a].id != before.makers[b].id);
    }
    assert forall|j: int|
        0 <= j < after.makers.len() && (
        #[trigger] after.makers[j]).phase.holds_lock() implies after.shared.sentinel by {
        if j != i {
            assert(before.makers[j].phase.holds_lock());
        }
    }
    if after.shared.sentinel && !after.shared.orphaned {
        if now.phase.holds_lock() {
            assert(after.makers[i].phase.holds_lock());
        } else {
            // A process that gives the lock up has asked for the removal of
            // the sentinel, after which it is gone or known to be left.
            assert(!was.phase.holds_lock());
            assert(before.shared.sentinel && !before.shared.orphaned);
            let j = choose|j: int|
                0 <= j < before.makers.len() && (#[trigger] before.makers[j]).phase.holds_lock();
            assert(after.makers[j].phase.holds_lock());
        }
    }
    assert forall|j: int|
        0 <= j < after.makers.len() && (#[trigger] after.makers[j]).phase
            == Phase::SavingRegistry implies after.makers[j].registry
        == after.shared.registry.insert(after.makers[j].id, after.makers[j].root) by {
        if j != i {
            assert(before.makers[j].phase.holds_lock());
        }
    }
    assert forall|j: int|
        0 <= j < after.makers.len() && has_registered(
            #[trigger] after.makers[j],
        ) implies after.shared.registry.dom().contains(after.makers[j].id)
        && after.shared.registry[after.makers[j].id] == after.makers[j].root by {
        if j != i {
            assert(has_registered(before.makers[j]));
            if i < j {
                assert(before.makers[i].id != before.makers[j].id);
            } else {
                assert(before.makers[j].id != before.makers[i].id);
            }
        }
    }
    assert forall|id: Seq<char>| #[trigger]
        registry.dom().contains(id) implies after.shared.registry.dom().contains(id)
        && after.shared.registry[id] == registry[id] by {
        assert(!registry.dom().contains(before.makers[i].id));
    }
}

/// When every process has finished and none has failed to remove the
/// sentinel, the sentinel is not there.
pub proof fn lemma_no_sentinel_is_left(registry: Map<Seq<char>, Seq<char>>, system: System)
    requires
        safe(registry, system),
        !system.shared.orphaned,
        forall|i: int|
            0 <= i < system.makers.len() ==> (#[trigger] system.makers[i]).phase == Phase::Finished,
    ensures
        !system.shared.sentinel,
{
}

/// No update is lost: when every process has made its workspace, every one
/// of these workspaces is in the registry under its own identifier and with
/// its own root, no two of them under one identifier, and what was
/// registered at the start is registered still.
pub proof fn lemma_no_update_is_lost(registry: Map<Seq<char>, Seq<char>>, system: System)
    requires
        safe(registry, system),
        forall|i: int|
            0 <= i < system.makers.len() ==> (#[trigger] system.makers[i]).phase == Phase::Finished
                && system.makers[i].failure is None,
    ensures
        forall|i: int|
            0 <= i < system.makers.len() ==> system.shared.registry.dom().contains(
                (#[trigger] system.makers[i]).id,
            ) && system.shared.registry[system.makers[i].id] == system.makers[i].root,
        forall|i: int, j: int|
            0 <= i < j < system.makers.len() ==> (#[trigger] system.makers[i]).id != (
            #[trigger] system.makers[j]).id,
        forall|id: Seq<char>| #[trigger]
            registry.dom().contains(id) ==> system.shared.registry.dom().contains(id)
                && system.shared.registry[id] == registry[id],
{
    assert forall|i: int| 0 <= i < system.makers.len() implies system.shared.registry.dom().contains(
        (#[trigger] system.makers[i]).id,
    ) && system.shared.registry[system.makers[i].id] == system.makers[i].root by {
        assert(has_registered(system.makers[i]));
    }
}

} // verus!
