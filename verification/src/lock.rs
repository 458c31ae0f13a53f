//! The lock handle and the two lock guards.
//!
//! Acquisition consumes the handle and hands it to the guard; releasing the
//! guard hands the handle back. At most one guard per handle can therefore
//! be outstanding at any instant: a second acquisition on the same handle is
//! rejected by the type system until the first guard has been released.

use vstd::prelude::*;

use crate::error::LockError;
use crate::sys;

verus! {

/// Outcome of a nonblocking acquisition attempt.
///
/// Contention is not an error: it is the dedicated [`TryLockOutcome::WouldBlock`]
/// outcome, and the handle comes back untouched in every case but success.
#[must_use]
pub enum TryLockOutcome<G, H> {
    /// The lock was obtained; the guard holds the handle.
    Acquired(G),
    /// The resource is locked elsewhere; the handle comes back untouched.
    WouldBlock(H),
    /// The native call failed; the handle comes back untouched, together
    /// with the OS error.
    Failed(H, LockError),
}

/// Advisory lock handle around an open file-like resource.
///
/// The handle owns the caller-supplied resource and borrows its raw file
/// descriptor; it never opens, creates, or closes the underlying file. It
/// holds no lock state of its own: each acquisition call consumes the handle
/// and delegates to the platform adapter, and the guard that comes back
/// returns the handle on release.
#[derive(Debug)]
pub struct FdLock<T> {
    pub(crate) inner: T,
    pub(crate) fd: i32,
}

/// Guard of a held shared lock.
///
/// Other cooperating handles may hold shared locks on the same resource at
/// the same time; exclusive acquisition is refused while any shared guard is
/// outstanding. The guard grants read access to the wrapped resource and
/// releases the lock through [`FdLockReadGuard::unlock`].
#[must_use]
#[derive(Debug)]
pub struct FdLockReadGuard<T> {
    pub(crate) lock: FdLock<T>,
}

/// Guard of a held exclusive lock.
///
/// No other cooperating handle can hold any lock on the resource while this
/// guard is outstanding. The guard grants read and write access to the
/// wrapped resource and releases the lock through
/// [`FdLockWriteGuard::unlock`].
#[must_use]
#[derive(Debug)]
pub struct FdLockWriteGuard<T> {
    pub(crate) lock: FdLock<T>,
}

impl<T> FdLock<T> {
    /// The wrapped resource, as specifications see it.
    pub closed spec fn spec_inner(self) -> T {
        self.inner
    }

    /// The raw descriptor, as specifications see it.
    pub closed spec fn spec_fd(self) -> i32 {
        self.fd
    }

    /// Wraps `inner`, whose open OS resource is identified by the raw file
    /// descriptor `fd`. The descriptor is borrowed, never closed.
    pub fn new(inner: T, fd: i32) -> (r: FdLock<T>)
        ensures
            r.spec_inner() == inner,
            r.spec_fd() == fd,
    {
        FdLock { inner, fd }
    }

    /// The raw descriptor this handle locks through.
    pub fn fd(&self) -> (r: i32)
        ensures
            r == self.spec_fd(),
    {
        self.fd
    }

    /// Gives the wrapped resource back, unchanged.
    pub fn into_inner(self) -> (r: T)
        ensures
            r == self.spec_inner(),
    {
        self.inner
    }

    /// Blocks until a shared lock is obtained, then returns the guard.
    /// Fails only on an unexpected OS error, never on contention; either
    /// way the handle is carried over untouched.
    pub fn read(self) -> (r: Result<FdLockReadGuard<T>, (FdLock<T>, LockError)>)
        ensures
            (r matches Ok(g) ==> g@ == self),
            (r matches Err(p) ==> p.0 == self),
    {
        let fd = self.fd;
        match sys::lock_shared(fd) {
            Ok(()) => Ok(FdLockReadGuard { lock: self }),
            Err(e) => Err((self, e)),
        }
    }

    /// Attempts a shared lock without blocking.
    pub fn try_read(self) -> (r: TryLockOutcome<FdLockReadGuard<T>, FdLock<T>>)
        ensures
            (r matches TryLockOutcome::Acquired(g) ==> g@ == self),
            (r matches TryLockOutcome::WouldBlock(h) ==> h == self),
            (r matches TryLockOutcome::Failed(h, _e) ==> h == self),
    {
        let fd = self.fd;
        match sys::try_lock_shared(fd) {
            Ok(true) => TryLockOutcome::Acquired(FdLockReadGuard { lock: self }),
            Ok(false) => TryLockOutcome::WouldBlock(self),
            Err(e) => TryLockOutcome::Failed(self, e),
        }
    }

    /// Blocks until an exclusive lock is obtained, then returns the guard.
    /// Fails only on an unexpected OS error, never on contention; either
    /// way the handle is carried over untouched.
    pub fn write(self) -> (r: Result<FdLockWriteGuard<T>, (FdLock<T>, LockError)>)
        ensures
            (r matches Ok(g) ==> g@ == self),
            (r matches Err(p) ==> p.0 == self),
    {
        let fd = self.fd;
        match sys::lock_exclusive(fd) {
            Ok(()) => Ok(FdLockWriteGuard { lock: self }),
            Err(e) => Err((self, e)),
        }
    }

    /// Attempts an exclusive lock without blocking.
    pub fn try_write(self) -> (r: TryLockOutcome<FdLockWriteGuard<T>, FdLock<T>>)
        ensures
            (r matches TryLockOutcome::Acquired(g) ==> g@ == self),
            (r matches TryLockOutcome::WouldBlock(h) ==> h == self),
            (r matches TryLockOutcome::Failed(h, _e) ==> h == self),
    {
        let fd = self.fd;
        match sys::try_lock_exclusive(fd) {
            Ok(true) => TryLockOutcome::Acquired(FdLockWriteGuard { lock: self }),
            Ok(false) => TryLockOutcome::WouldBlock(self),
            Err(e) => TryLockOutcome::Failed(self, e),
        }
    }
}

impl<T> View for FdLockReadGuard<T> {
    type V = FdLock<T>;

    /// The handle the guard holds, as specifications see it.
    closed spec fn view(&self) -> FdLock<T> {
        self.lock
    }
}

impl<T> FdLockReadGuard<T> {
    /// Read access to the wrapped resource, passed through unchanged.
    pub fn get(&self) -> (r: &T)
        ensures
            *r == self@.spec_inner(),
    {
        &self.lock.inner
    }

    /// Releases the shared lock unconditionally and hands the handle back,
    /// together with the outcome of the release call. Release fails only on
    /// an unexpected OS error; the handle comes back either way, so the
    /// lock is never released twice.
    pub fn unlock(self) -> (r: (FdLock<T>, Result<(), LockError>))
        ensures
            r.0 == self@,
    {
        let outcome = sys::unlock(self.lock.fd);
        (self.lock, outcome)
    }
}

impl<T> View for FdLockWriteGuard<T> {
    type V = FdLock<T>;

    /// The handle the guard holds, as specifications see it.
    closed spec fn view(&self) -> FdLock<T> {
        self.lock
    }
}

impl<T> FdLockWriteGuard<T> {
    /// Read access to the wrapped resource, passed through unchanged.
    pub fn get(&self) -> (r: &T)
        ensures
            *r == self@.spec_inner(),
    {
        &self.lock.inner
    }

    /// Write access to the wrapped resource, passed through unchanged: what
    /// the caller stores through the returned reference is what the guard
    /// holds from then on, and the descriptor stays the same.
    pub fn get_mut(&mut self) -> (r: &mut T)
        ensures
            *r == old(self)@.spec_inner(),
            final(self)@.spec_fd() == old(self)@.spec_fd(),
            final(self)@.spec_inner() == *final(r),
    {
        &mut self.lock.inner
    }

    /// Releases the exclusive lock unconditionally and hands the handle
    /// back, together with the outcome of the release call. Release fails
    /// only on an unexpected OS error; the handle comes back either way, so
    /// the lock is never released twice.
    pub fn unlock(self) -> (r: (FdLock<T>, Result<(), LockError>))
        ensures
            r.0 == self@,
    {
        let outcome = sys::unlock(self.lock.fd);
        (self.lock, outcome)
    }
}

} // verus!
