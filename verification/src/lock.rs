//! The lock on the registry: a sentinel file beside the registry document,
//! present while one process changes the registry. The file itself is made
//! and removed by the caller; what is decided here is what to do after each
//! attempt to make it, and for how long to go on trying.

use vstd::prelude::*;

verus! {

/// The time to sleep between two attempts, in milliseconds.
pub const POLL_INTERVAL_MS: u64 = 50;

/// The longest time to wait for the lock in all, in milliseconds.
pub const LOCK_TIMEOUT_MS: u64 = 10_000;

/// How one attempt to make the sentinel ended. The attempt must make the file
/// only if it is not there, in one step: looking first and making it
/// afterwards would let two processes both find it absent.
#[derive(Debug, Clone, Copy, PartialEq, Eq, Structural)]
pub enum LockAttempt {
    /// The sentinel was not there and has been made.
    Created,
    /// The sentinel was there already.
    AlreadyPresent,
}

/// What to do after an attempt.
#[derive(Debug, Clone, Copy, PartialEq, Eq, Structural)]
pub enum LockDecision {
    /// The lock is held: go on, and release it afterwards.
    Acquired,
    /// Sleep for so many milliseconds, then try again.
    Wait { millis: u64 },
    /// The lock was not free in the time allowed: give up.
    TimedOut,
}

/// The lock as one process sees it.
pub struct LockState {
    /// For how long the process has slept while waiting, in milliseconds.
    pub waited_ms: nat,
    /// Whether the process holds the lock.
    pub held: bool,
}

/// The lock on the registry, as held or waited for by this process.
#[derive(Debug)]
pub struct LockGuard {
    waited_ms: u64,
    held: bool,
}

impl View for LockGuard {
    type V = LockState;

    closed spec fn view(&self) -> LockState {
        LockState { waited_ms: self.waited_ms as nat, held: self.held }
    }
}

impl LockState {
    /// A process that has not tried yet.
    pub open spec fn fresh() -> LockState {
        LockState { waited_ms: 0, held: false }
    }

    /// How many more times a process in this state is told to wait before it
    /// is told to give up.
    pub open spec fn retries_left(self) -> nat {
        if self.waited_ms <= LOCK_TIMEOUT_MS {
            ((LOCK_TIMEOUT_MS - self.waited_ms) / (POLL_INTERVAL_MS as int)) as nat
        } else {
            0
        }
    }

    /// What a process in this state is told after `attempt`.
    pub open spec fn decision(self, attempt: LockAttempt) -> LockDecision {
        match attempt {
            LockAttempt::Created => LockDecision::Acquired,
            LockAttempt::AlreadyPresent => if self.waited_ms + POLL_INTERVAL_MS
                <= LOCK_TIMEOUT_MS {
                LockDecision::Wait { millis: POLL_INTERVAL_MS }
            } else {
                LockDecision::TimedOut
            },
        }
    }

    /// The state of the process after `attempt`.
    pub open spec fn after(self, attempt: LockAttempt) -> LockState {
        match self.decision(attempt) {
            LockDecision::Acquired => LockState { held: true, ..self },
            LockDecision::Wait { millis } => LockState {
                waited_ms: (self.waited_ms + millis) as nat,
                ..self
            },
            LockDecision::TimedOut => self,
        }
    }
}

impl LockGuard {
    #[verifier::type_invariant]
    spec fn within_limit(&self) -> bool {
        self.waited_ms <= LOCK_TIMEOUT_MS
    }

    /// The lock before the first attempt.
    pub fn new() -> (guard: LockGuard)
        ensures
            guard@ == LockState::fresh(),
    {
        LockGuard { waited_ms: 0, held: false }
    }

    /// Whether the lock is held.
    pub fn is_held(&self) -> (held: bool)
        ensures
            held == self@.held,
    {
        self.held
    }

    /// For how long the process has slept while waiting, in milliseconds;
    /// never more than `LOCK_TIMEOUT_MS`.
    pub fn waited_ms(&self) -> (waited: u64)
        ensures
            waited == self@.waited_ms,
            waited <= LOCK_TIMEOUT_MS,
    {
        proof {
            use_type_invariant(self);
        }
        self.waited_ms
    }

    /// Takes note of one attempt to make the sentinel and says what to do
    /// next. The process must not hold the lock already.
    pub fn acquire(&mut self, attempt: LockAttempt) -> (decision: LockDecision)
        requires
            !old(self)@.held,
        ensures
            decision == old(self)@.decision(attempt),
            final(self)@ == old(self)@.after(attempt),
    {
        proof {
            use_type_invariant(&*self);
        }
        match attempt {
            LockAttempt::Created => {
                self.held = true;
                LockDecision::Acquired
            },
            LockAttempt::AlreadyPresent => {
                if self.waited_ms + POLL_INTERVAL_MS <= LOCK_TIMEOUT_MS {
                    self.waited_ms = self.waited_ms + POLL_INTERVAL_MS;
                    LockDecision::Wait { millis: POLL_INTERVAL_MS }
                } else {
                    LockDecision::TimedOut
                }
            },
        }
    }

    /// Takes note that the sentinel has been removed: the lock is free, and
    /// a later wait starts from nothing.
    pub fn release(&mut self)
        ensures
            final(self)@ == LockState::fresh(),
    {
        *self = LockGuard { waited_ms: 0, held: false };
    }
}

/// Waiting for the lock ends: each time a process is told to wait, one retry
/// fewer is left to it, it has then slept for `POLL_INTERVAL_MS` more and
/// for no more than `LOCK_TIMEOUT_MS` in all, and with no retry left it is
/// told to give up.
pub proof fn lemma_waiting_ends(state: LockState)
    requires
        state.waited_ms <= LOCK_TIMEOUT_MS,
    ensures
        state.decision(LockAttempt::AlreadyPresent) is Wait <==> state.retries_left() > 0,
        state.decision(LockAttempt::AlreadyPresent) is TimedOut <==> state.retries_left() == 0,
        state.retries_left() > 0 ==> {
            let next = state.after(LockAttempt::AlreadyPresent);
            &&& next.retries_left() == state.retries_left() - 1
            &&& next.waited_ms == state.waited_ms + POLL_INTERVAL_MS
            &&& next.waited_ms <= LOCK_TIMEOUT_MS
            &&& next.held == state.held
        },
        LockState::fresh().retries_left() == LOCK_TIMEOUT_MS / POLL_INTERVAL_MS,
{
}

} // verus!
