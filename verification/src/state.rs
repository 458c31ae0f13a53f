//! The lock-state model and its laws.
//!
//! An advisory lock on one resource, among the handles that cooperate
//! through it, is always in one of three states: unlocked, shared among one
//! or more holders, or held exclusively. The spec functions below state
//! which acquisitions each state grants and how acquisition and release move
//! between the states, exactly as `flock(2)` documents them; the proof
//! functions state the guarantees the guard lifecycle rests on. The platform
//! adapter realizes these transitions through the OS, which keeps the real
//! lock table.

use vstd::prelude::*;

verus! {

/// The two lock modes a guard can hold.
pub enum LockMode {
    /// Held together with any number of other shared holders.
    Shared,
    /// Held alone.
    Exclusive,
}

/// The advisory lock state of one resource among the cooperating holders.
pub enum ResourceState {
    /// Nobody holds a lock.
    Unlocked,
    /// The given number of holders share the lock.
    SharedLocked(nat),
    /// One holder has the lock exclusively.
    ExclusiveLocked,
}

/// A state the OS can actually be in: a shared lock has at least one holder.
pub open spec fn state_ok(s: ResourceState) -> bool {
    match s {
        ResourceState::SharedLocked(n) => n >= 1,
        _ => true,
    }
}

/// Whether a new lock of mode `m` is granted while the resource is in state
/// `s`: shared locks are compatible with shared locks, an exclusive lock is
/// compatible with nothing.
pub open spec fn grants(s: ResourceState, m: LockMode) -> bool {
    match m {
        LockMode::Shared => !(s is ExclusiveLocked),
        LockMode::Exclusive => s is Unlocked,
    }
}

/// The state after a granted acquisition of mode `m`. In a state that does
/// not grant `m` nothing is acquired and the state stands.
pub open spec fn after_acquire(s: ResourceState, m: LockMode) -> ResourceState {
    match m {
        LockMode::Shared => match s {
            ResourceState::Unlocked => ResourceState::SharedLocked(1),
            ResourceState::SharedLocked(n) => ResourceState::SharedLocked((n + 1) as nat),
            ResourceState::ExclusiveLocked => s,
        },
        LockMode::Exclusive => match s {
            ResourceState::Unlocked => ResourceState::ExclusiveLocked,
            _ => s,
        },
    }
}

/// The state after one holder of mode `m` releases. Release is
/// unconditional: the last shared holder and the exclusive holder both
/// leave the resource unlocked.
pub open spec fn after_release(s: ResourceState, m: LockMode) -> ResourceState {
    match m {
        LockMode::Shared => match s {
            ResourceState::SharedLocked(n) => if n <= 1 {
                ResourceState::Unlocked
            } else {
                ResourceState::SharedLocked((n - 1) as nat)
            },
            _ => s,
        },
        LockMode::Exclusive => match s {
            ResourceState::ExclusiveLocked => ResourceState::Unlocked,
            _ => s,
        },
    }
}

/// Acquisition and release keep the state well formed: the model never
/// produces a shared lock with no holders.
pub proof fn lemma_transitions_preserve_ok(s: ResourceState, m: LockMode)
    requires
        state_ok(s),
    ensures
        state_ok(after_acquire(s, m)),
        state_ok(after_release(s, m)),
{
}

/// While an exclusive lock is outstanding, no acquisition in either mode is
/// granted to anybody else: a nonblocking attempt observes contention, and
/// never acquires.
pub proof fn lemma_exclusive_excludes_all(m: LockMode)
    ensures
        !grants(ResourceState::ExclusiveLocked, m),
{
}

/// Shared locks are compatible with shared locks and incompatible with
/// exclusive ones: while `n >= 1` shared holders are outstanding, another
/// shared acquisition is granted and an exclusive one is not.
pub proof fn lemma_shared_compatibility(n: nat)
    requires
        n >= 1,
    ensures
        grants(ResourceState::SharedLocked(n), LockMode::Shared),
        !grants(ResourceState::SharedLocked(n), LockMode::Exclusive),
{
}

/// When the last shared holder releases, the resource returns to the
/// unlocked state and a subsequent exclusive acquisition is granted: no
/// stuck lock state remains behind a released shared guard.
pub proof fn lemma_release_enables_exclusive()
    ensures
        after_release(ResourceState::SharedLocked(1), LockMode::Shared) == ResourceState::Unlocked,
        grants(
            after_release(ResourceState::SharedLocked(1), LockMode::Shared),
            LockMode::Exclusive,
        ),
{
}

/// Acquisition followed by release restores the state exactly, so an
/// immediate re-acquisition of the same mode is granted again: the
/// acquire-release-acquire round trip never wedges the resource.
pub proof fn lemma_acquire_release_round_trip(s: ResourceState, m: LockMode)
    requires
        state_ok(s),
        grants(s, m),
    ensures
        after_release(after_acquire(s, m), m) == s,
        grants(after_release(after_acquire(s, m), m), m),
{
}

} // verus!
