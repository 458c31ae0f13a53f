//! Platform syscall adapter.
//!
//! Translates the five logical locking operations into the native `flock(2)`
//! call and normalizes the native outcome into a uniform result. The whole
//! resource is always locked: `flock` knows no byte ranges, which matches the
//! whole-resource-only granularity of this library.

use vstd::prelude::*;

use crate::error::LockError;
use nix::errno::Errno;
use nix::fcntl::FlockArg;

verus! {

/// How many times a blocking request interrupted by a signal is retried
/// before the interruption is reported as an error. Retrying is meant to be
/// transparent; the bound exists so that every call provably terminates.
pub const INTERRUPT_RETRY_LIMIT: u64 = 1000000000;

/// The five logical requests of the platform adapter, one per native
/// `flock(2)` request this library ever issues.
#[derive(Clone, Copy, Debug, PartialEq, Eq, Structural)]
pub enum LockOp {
    /// Obtain a shared lock, waiting until it is available.
    Shared,
    /// Obtain an exclusive lock, waiting until it is available.
    Exclusive,
    /// Obtain a shared lock or report contention at once.
    SharedNonblock,
    /// Obtain an exclusive lock or report contention at once.
    ExclusiveNonblock,
    /// Release whatever lock is held.
    Unlock,
}

/// What a single native call reported.
#[derive(Clone, Copy, Debug, PartialEq, Eq, Structural)]
pub enum FlockStatus {
    /// The request was carried out.
    Success,
    /// The resource is locked elsewhere and the request was nonblocking.
    WouldBlock,
    /// A signal interrupted the call; the payload is the OS code reported.
    Interrupted(i32),
    /// The call failed; the payload is the raw OS error code.
    Failed(i32),
}

/// The two requests that carry the "do not block" flag.
pub open spec fn op_is_nonblocking(op: LockOp) -> bool {
    op == LockOp::SharedNonblock || op == LockOp::ExclusiveNonblock
}

/// Executable mirror of [`op_is_nonblocking`].
fn is_nonblocking(op: LockOp) -> (r: bool)
    ensures
        r == op_is_nonblocking(op),
{
    match op {
        LockOp::SharedNonblock => true,
        LockOp::ExclusiveNonblock => true,
        _ => false,
    }
}

/// Relies on `nix::fcntl::flock`, which issues the native `flock(2)` call on
/// the given descriptor with the flag set matching `op`. `Ok` means the
/// request was carried out. Of the errors, `EAGAIN` (equal to `EWOULDBLOCK`)
/// reports contention, and flock(2) documents that it is reported only when
/// the `LOCK_NB` flag was selected, so a blocking request never observes
/// `WouldBlock`; `EINTR` reports an interrupting signal; every other code is
/// passed through raw.
#[verifier::external_body]
fn flock_once(fd: i32, op: LockOp) -> (r: FlockStatus)
    ensures
        !op_is_nonblocking(op) ==> r != FlockStatus::WouldBlock,
{
    let arg = match op {
        LockOp::Shared => FlockArg::LockShared,
        LockOp::Exclusive => FlockArg::LockExclusive,
        LockOp::SharedNonblock => FlockArg::LockSharedNonblock,
        LockOp::ExclusiveNonblock => FlockArg::LockExclusiveNonblock,
        LockOp::Unlock => FlockArg::Unlock,
    };
    match nix::fcntl::flock(fd, arg) {
        Ok(()) => FlockStatus::Success,
        Err(Errno::EAGAIN) => FlockStatus::WouldBlock,
        Err(Errno::EINTR) => FlockStatus::Interrupted(Errno::EINTR as i32),
        Err(e) => FlockStatus::Failed(e as i32),
    }
}

/// How one native report is classified: `None` asks for a retry, `Some`
/// ends the operation with the given result, where `Ok(true)` means the lock
/// was obtained (or released, for [`LockOp::Unlock`]), `Ok(false)` means
/// contention, and `Err` wraps the OS error code.
///
/// Contention is never an error, and an interruption is retried exactly when
/// the request was a blocking one and retries remain; no other retry exists.
pub open spec fn spec_step(op: LockOp, status: FlockStatus, retries_left: u64) -> Option<
    Result<bool, LockError>,
> {
    match status {
        FlockStatus::Success => Some(Ok(true)),
        FlockStatus::WouldBlock => Some(Ok(false)),
        FlockStatus::Interrupted(code) => if op_is_nonblocking(op) || retries_left == 0 {
            Some(Err(LockError { code }))
        } else {
            None
        },
        FlockStatus::Failed(code) => Some(Err(LockError { code })),
    }
}

/// Decides, from one native report, whether the operation is finished and
/// with what result, exactly as [`spec_step`] states.
pub fn classify(op: LockOp, status: FlockStatus, retries_left: u64) -> (r: Option<
    Result<bool, LockError>,
>)
    ensures
        r == spec_step(op, status, retries_left),
{
    match status {
        FlockStatus::Success => Some(Ok(true)),
        FlockStatus::WouldBlock => Some(Ok(false)),
        FlockStatus::Interrupted(code) => {
            if is_nonblocking(op) || retries_left == 0 {
                Some(Err(LockError { code }))
            } else {
                None
            }
        },
        FlockStatus::Failed(code) => Some(Err(LockError { code })),
    }
}

/// A denied nonblocking attempt surfaces as "not acquired", never as an
/// error: the contention report of the native call ends the operation with
/// `Ok(false)`, whatever the request and the retry budget.
pub proof fn lemma_contention_is_not_an_error(op: LockOp, retries_left: u64)
    ensures
        spec_step(op, FlockStatus::WouldBlock, retries_left) == Some(
            Ok::<bool, LockError>(false),
        ),
{
}

/// Issues one logical request, retrying blocking requests that a signal
/// interrupted. A blocking request never reports contention: it either
/// waits it out or fails outright.
fn run_op(fd: i32, op: LockOp) -> (r: Result<bool, LockError>)
    ensures
        !op_is_nonblocking(op) ==> (r matches Ok(b) ==> b),
{
    let mut retries_left: u64 = INTERRUPT_RETRY_LIMIT;
    loop
        decreases retries_left,
    {
        let status = flock_once(fd, op);
        match classify(op, status, retries_left) {
            Some(result) => {
                return result;
            },
            None => {
                retries_left = retries_left - 1;
            },
        }
    }
}

/// Blocks until a shared lock on the resource behind `fd` is obtained.
/// Fails only on an unexpected OS error, never on contention.
pub fn lock_shared(fd: i32) -> (r: Result<(), LockError>) {
    match run_op(fd, LockOp::Shared) {
        Ok(_) => Ok(()),
        Err(e) => Err(e),
    }
}

/// Blocks until an exclusive lock on the resource behind `fd` is obtained.
/// Fails only on an unexpected OS error, never on contention.
pub fn lock_exclusive(fd: i32) -> (r: Result<(), LockError>) {
    match run_op(fd, LockOp::Exclusive) {
        Ok(_) => Ok(()),
        Err(e) => Err(e),
    }
}

/// Attempts a shared lock without blocking: `Ok(true)` if it was obtained,
/// `Ok(false)` if the resource is locked elsewhere.
pub fn try_lock_shared(fd: i32) -> (r: Result<bool, LockError>) {
    run_op(fd, LockOp::SharedNonblock)
}

/// Attempts an exclusive lock without blocking: `Ok(true)` if it was
/// obtained, `Ok(false)` if the resource is locked elsewhere.
pub fn try_lock_exclusive(fd: i32) -> (r: Result<bool, LockError>) {
    run_op(fd, LockOp::ExclusiveNonblock)
}

/// Releases whatever lock is held on the resource behind `fd`. Fails only
/// on an unexpected OS error.
pub fn unlock(fd: i32) -> (r: Result<(), LockError>) {
    match run_op(fd, LockOp::Unlock) {
        Ok(_) => Ok(()),
        Err(e) => Err(e),
    }
}

} // verus!
