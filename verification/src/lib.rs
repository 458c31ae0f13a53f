//! Advisory whole-file locking around an already-open OS resource.
//!
//! A [`FdLock`] wraps a caller-supplied resource together with its raw file
//! descriptor and hands out shared or exclusive lock guards, blocking or
//! nonblocking. A guard ties the held OS lock to a value: acquisition
//! consumes the handle, so at most one guard per handle can be outstanding
//! at any instant, and releasing the guard hands the handle back.
//!
//! The locks are advisory: they coordinate processes that take them through
//! the same protocol and constrain nobody else. The library never opens or
//! closes the descriptor it is given.

mod error;
mod lock;
pub mod state;
pub mod sys;

pub use error::LockError;
pub use lock::FdLock;
pub use lock::FdLockReadGuard;
pub use lock::FdLockWriteGuard;
pub use lock::TryLockOutcome;
pub use state::LockMode;
pub use state::ResourceState;
pub use sys::FlockStatus;
pub use sys::LockOp;
