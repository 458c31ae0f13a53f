use fd_lock::sys;
use fd_lock::FdLock;
use fd_lock::FlockStatus;
use fd_lock::LockError;
use fd_lock::LockOp;
use fd_lock::TryLockOutcome;
use nix::errno::Errno;
use nix::fcntl::open;
use nix::fcntl::OFlag;
use nix::sys::stat::Mode;
use nix::unistd::close;
use nix::unistd::mkstemp;
use nix::unistd::unlink;
use std::path::Path;
use std::path::PathBuf;

/// Creates a temporary file and opens it a second time, so that two
/// independent open file descriptions refer to the same resource.
fn temp_fds() -> (i32, i32, PathBuf) {
    let (fd1, path) = mkstemp("/tmp/fd_lock_test_XXXXXX").expect("mkstemp failed");
    let fd2 = open(path.as_path(), OFlag::O_RDWR, Mode::empty()).expect("open failed");
    (fd1, fd2, path)
}

fn cleanup(fds: &[i32], path: &Path) {
    for fd in fds {
        let _ = close(*fd);
    }
    let _ = unlink(path);
}

#[test]
fn try_write_conflicts_until_released() {
    let (fd1, fd2, path) = temp_fds();

    let a = FdLock::new((), fd1);
    let g1 = match a.try_write() {
        TryLockOutcome::Acquired(g) => g,
        _ => panic!("uncontended try_write should acquire"),
    };

    let b = FdLock::new((), fd2);
    let b = match b.try_write() {
        TryLockOutcome::WouldBlock(h) => h,
        TryLockOutcome::Acquired(_) => panic!("second handle acquired a held exclusive lock"),
        TryLockOutcome::Failed(_, e) => panic!("contention reported as error {}", e.code),
    };

    let (_, released) = g1.unlock();
    assert!(released.is_ok());

    match b.try_write() {
        TryLockOutcome::Acquired(g) => {
            let (_, released) = g.unlock();
            assert!(released.is_ok());
        }
        _ => panic!("released lock should be acquirable again"),
    }

    cleanup(&[fd1, fd2], &path);
}

#[test]
fn exclusive_excludes_shared_and_exclusive() {
    let (fd1, fd2, path) = temp_fds();

    let g = match FdLock::new((), fd1).write() {
        Ok(g) => g,
        Err((_, e)) => panic!("blocking write failed with {}", e.code),
    };

    let b = FdLock::new((), fd2);
    let b = match b.try_read() {
        TryLockOutcome::WouldBlock(h) => h,
        TryLockOutcome::Acquired(_) => panic!("shared lock granted beside an exclusive one"),
        TryLockOutcome::Failed(_, e) => panic!("contention reported as error {}", e.code),
    };
    match b.try_write() {
        TryLockOutcome::WouldBlock(_) => {}
        TryLockOutcome::Acquired(_) => panic!("exclusive lock granted beside an exclusive one"),
        TryLockOutcome::Failed(_, e) => panic!("contention reported as error {}", e.code),
    }

    let (_, released) = g.unlock();
    assert!(released.is_ok());

    cleanup(&[fd1, fd2], &path);
}

#[test]
fn shared_locks_coexist_and_block_writers() {
    let (fd1, fd2, path) = temp_fds();
    let fd3 = open(path.as_path(), OFlag::O_RDWR, Mode::empty()).expect("open failed");

    let ga = match FdLock::new((), fd1).read() {
        Ok(g) => g,
        Err((_, e)) => panic!("blocking read failed with {}", e.code),
    };

    let gb = match FdLock::new((), fd2).try_read() {
        TryLockOutcome::Acquired(g) => g,
        _ => panic!("shared locks should be compatible with shared locks"),
    };

    let c = FdLock::new((), fd3);
    let c = match c.try_write() {
        TryLockOutcome::WouldBlock(h) => h,
        TryLockOutcome::Acquired(_) => panic!("exclusive lock granted beside shared ones"),
        TryLockOutcome::Failed(_, e) => panic!("contention reported as error {}", e.code),
    };

    let (_, released) = ga.unlock();
    assert!(released.is_ok());

    let c = match c.try_write() {
        TryLockOutcome::WouldBlock(h) => h,
        _ => panic!("one shared holder is still outstanding"),
    };

    let (_, released) = gb.unlock();
    assert!(released.is_ok());

    match c.try_write() {
        TryLockOutcome::Acquired(g) => {
            let (_, released) = g.unlock();
            assert!(released.is_ok());
        }
        _ => panic!("all shared holders released; exclusive should succeed"),
    }

    cleanup(&[fd1, fd2, fd3], &path);
}

#[test]
fn shared_release_enables_exclusive() {
    let (fd1, fd2, path) = temp_fds();

    let g = match FdLock::new((), fd1).read() {
        Ok(g) => g,
        Err((_, e)) => panic!("blocking read failed with {}", e.code),
    };
    let (_, released) = g.unlock();
    assert!(released.is_ok());

    match FdLock::new((), fd2).try_write() {
        TryLockOutcome::Acquired(g) => {
            let (_, released) = g.unlock();
            assert!(released.is_ok());
        }
        _ => panic!("exclusive acquisition should succeed after the shared guard is gone"),
    }

    cleanup(&[fd1, fd2], &path);
}

#[test]
fn acquire_release_round_trip_same_handle() {
    let (fd1, fd2, path) = temp_fds();
    let _ = close(fd2);

    let h = FdLock::new((), fd1);
    let g = h.write().expect("first exclusive acquisition");
    let (h, released) = g.unlock();
    assert!(released.is_ok());

    let g = h.write().expect("re-acquisition after release");
    let (h, released) = g.unlock();
    assert!(released.is_ok());

    let g = h.read().expect("shared acquisition after release");
    let (h, released) = g.unlock();
    assert!(released.is_ok());
    assert_eq!(h.fd(), fd1);

    cleanup(&[fd1], &path);
}

#[test]
fn invalid_descriptor_reports_io_error() {
    let bad = FdLock::new((), -1);
    let bad = match bad.try_write() {
        TryLockOutcome::Failed(h, e) => {
            assert_eq!(e.code, Errno::EBADF as i32);
            h
        }
        _ => panic!("an invalid descriptor must fail, not block or acquire"),
    };

    let bad = match bad.write() {
        Err((h, e)) => {
            assert_eq!(e.code, Errno::EBADF as i32);
            h
        }
        Ok(_) => panic!("an invalid descriptor must not hand out a guard"),
    };

    match bad.read() {
        Err((_, e)) => assert_eq!(e.code, Errno::EBADF as i32),
        Ok(_) => panic!("an invalid descriptor must not hand out a guard"),
    }
}

#[test]
fn guards_pass_the_resource_through() {
    let (fd1, fd2, path) = temp_fds();
    let _ = close(fd2);

    let h = FdLock::new(vec![1u8, 2], fd1);
    assert_eq!(h.fd(), fd1);

    let mut g = match h.try_write() {
        TryLockOutcome::Acquired(g) => g,
        _ => panic!("uncontended try_write should acquire"),
    };
    assert_eq!(g.get().len(), 2);
    g.get_mut().push(3);
    let (h, released) = g.unlock();
    assert!(released.is_ok());

    let g = h.read().expect("shared acquisition");
    assert_eq!(g.get()[2], 3);
    let (h, released) = g.unlock();
    assert!(released.is_ok());

    assert_eq!(h.into_inner(), vec![1u8, 2, 3]);

    cleanup(&[fd1], &path);
}

#[test]
fn classify_decides_like_the_documented_protocol() {
    let ok: Option<Result<bool, LockError>> = Some(Ok(true));
    let contended: Option<Result<bool, LockError>> = Some(Ok(false));
    assert_eq!(sys::classify(LockOp::Shared, FlockStatus::Success, 5), ok);
    assert_eq!(sys::classify(LockOp::Unlock, FlockStatus::Success, 0), ok);
    assert_eq!(
        sys::classify(LockOp::ExclusiveNonblock, FlockStatus::WouldBlock, 5),
        contended
    );

    // A blocking request interrupted by a signal is retried while retries
    // remain, and only then reported; a nonblocking one is never retried.
    assert_eq!(
        sys::classify(LockOp::Exclusive, FlockStatus::Interrupted(4), 5),
        None
    );
    assert_eq!(
        sys::classify(LockOp::Exclusive, FlockStatus::Interrupted(4), 0),
        Some(Err(LockError { code: 4 }))
    );
    assert_eq!(
        sys::classify(LockOp::SharedNonblock, FlockStatus::Interrupted(4), 5),
        Some(Err(LockError { code: 4 }))
    );

    assert_eq!(
        sys::classify(LockOp::Shared, FlockStatus::Failed(13), 5),
        Some(Err(LockError { code: 13 }))
    );
}

#[test]
fn adapter_operations_cover_the_matrix() {
    let (fd1, fd2, path) = temp_fds();

    assert_eq!(sys::lock_shared(fd1), Ok(()));
    assert_eq!(sys::try_lock_shared(fd2), Ok(true));
    assert_eq!(sys::try_lock_exclusive(fd2), Ok(false));
    assert_eq!(sys::unlock(fd2), Ok(()));
    assert_eq!(sys::unlock(fd1), Ok(()));

    assert_eq!(sys::lock_exclusive(fd1), Ok(()));
    assert_eq!(sys::try_lock_shared(fd2), Ok(false));
    assert_eq!(sys::unlock(fd1), Ok(()));
    assert_eq!(sys::try_lock_exclusive(fd2), Ok(true));
    assert_eq!(sys::unlock(fd2), Ok(()));

    assert_eq!(sys::unlock(-1), Err(LockError { code: Errno::EBADF as i32 }));

    cleanup(&[fd1, fd2], &path);
}
