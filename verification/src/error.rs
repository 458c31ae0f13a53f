use vstd::prelude::*;

verus! {

/// Error reported when a native locking call fails for a reason other than
/// contention: permission denied, an invalid descriptor, an unsupported
/// operation, and the like.
///
/// Contention is never reported this way: the nonblocking entry points
/// surface it as a distinct "would block" outcome instead.
#[derive(Clone, Copy, Debug, PartialEq, Eq, Structural)]
pub struct LockError {
    /// The raw OS error code (`errno`) of the failed native call.
    pub code: i32,
}

} // verus!
