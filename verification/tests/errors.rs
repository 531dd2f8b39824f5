use perf_events::errno;
use perf_events::error::{BufferError, Error, FileControlError, OpenError};
use perf_events::fd::{FileCall, FileState, PerfFile};
use perf_events::sample::ring_buffer::RingLayout;

#[test]
fn errno_table_agrees_with_libc() {
    assert_eq!(errno::EPERM, libc::EPERM);
    assert_eq!(errno::ENOENT, libc::ENOENT);
    assert_eq!(errno::ESRCH, libc::ESRCH);
    assert_eq!(errno::EINTR, libc::EINTR);
    assert_eq!(errno::E2BIG, libc::E2BIG);
    assert_eq!(errno::EBADF, libc::EBADF);
    assert_eq!(errno::EAGAIN, libc::EAGAIN);
    assert_eq!(errno::ENOMEM, libc::ENOMEM);
    assert_eq!(errno::EACCES, libc::EACCES);
    assert_eq!(errno::EFAULT, libc::EFAULT);
    assert_eq!(errno::EBUSY, libc::EBUSY);
    assert_eq!(errno::EEXIST, libc::EEXIST);
    assert_eq!(errno::ENODEV, libc::ENODEV);
    assert_eq!(errno::ENOTDIR, libc::ENOTDIR);
    assert_eq!(errno::EINVAL, libc::EINVAL);
    assert_eq!(errno::ENFILE, libc::ENFILE);
    assert_eq!(errno::EMFILE, libc::EMFILE);
    assert_eq!(errno::ETXTBSY, libc::ETXTBSY);
    assert_eq!(errno::ENOSPC, libc::ENOSPC);
    assert_eq!(errno::EDEADLK, libc::EDEADLK);
    assert_eq!(errno::ENOLCK, libc::ENOLCK);
    assert_eq!(errno::ENOSYS, libc::ENOSYS);
    assert_eq!(errno::EOVERFLOW, libc::EOVERFLOW);
    assert_eq!(errno::EOPNOTSUPP, libc::EOPNOTSUPP);
}

#[test]
fn errno_table_agrees_with_nix() {
    assert_eq!(errno::EINVAL, nix::errno::Errno::EINVAL as i32);
    assert_eq!(errno::E2BIG, nix::errno::Errno::E2BIG as i32);
    assert_eq!(errno::EOPNOTSUPP, nix::errno::Errno::EOPNOTSUPP as i32);
    assert_eq!(errno::EOVERFLOW, nix::errno::Errno::EOVERFLOW as i32);
}

#[test]
fn system_call_numbers_agree_with_libc() {
    assert_eq!(perf_events::fd::O_ASYNC, libc::O_ASYNC);
    assert_eq!(perf_events::fd::O_NONBLOCK, libc::O_NONBLOCK);
    assert_eq!(perf_events::fd::PROT_READ, libc::PROT_READ);
    assert_eq!(perf_events::fd::PROT_WRITE, libc::PROT_WRITE);
    assert_eq!(perf_events::fd::MAP_SHARED, libc::MAP_SHARED);
}

#[test]
fn open_error_for_each_errno() {
    let table = [
        (libc::E2BIG, OpenError::AttrWrongSize),
        (libc::EACCES, OpenError::CapSysAdminRequired),
        (libc::EBADF, OpenError::InvalidFdOrPid),
        (libc::EBUSY, OpenError::PmuBusy),
        (libc::EFAULT, OpenError::AttrInvalidPointer),
        (libc::EINVAL, OpenError::InvalidEvent),
        (libc::EMFILE, OpenError::TooManyOpenFiles),
        (libc::ENODEV, OpenError::CpuFeatureUnsupported),
        (libc::ENOENT, OpenError::InvalidEventType),
        (libc::ENOSPC, OpenError::TooManyBreakpoints),
        (libc::ENOSYS, OpenError::UserStackSampleUnsupported),
        (libc::EOPNOTSUPP, OpenError::HardwareFeatureUnsupported),
        (libc::EOVERFLOW, OpenError::SampleMaxStackTooLarge),
        (libc::EPERM, OpenError::CapSysAdminRequiredOrExcludeUnsupported),
        (libc::ESRCH, OpenError::ProcessDoesNotExist),
    ];
    for (errno, expected) in table {
        assert_eq!(OpenError::from_errno(errno), expected);
    }
}

#[test]
fn open_error_unknown_keeps_the_number() {
    assert_eq!(OpenError::from_errno(libc::EIO), OpenError::Unknown { errno: libc::EIO });
    assert_eq!(OpenError::from_errno(0), OpenError::Unknown { errno: 0 });
    assert_eq!(OpenError::from_errno(-7), OpenError::Unknown { errno: -7 });
}

#[test]
fn buffer_error_for_each_errno() {
    let table = [
        (libc::EACCES, BufferError::Access),
        (libc::EBADF, BufferError::FdBad),
        (libc::EINVAL, BufferError::InvalidArgs),
        (libc::ENODEV, BufferError::NoMapSupport),
        (libc::ENOMEM, BufferError::NoMemory),
        (libc::EAGAIN, BufferError::TooMuchLocking),
        (libc::EEXIST, BufferError::ClashesWithExisting),
        (libc::ENFILE, BufferError::TooManyOpenFiles),
        (libc::EOVERFLOW, BufferError::Overflow),
        (libc::EPERM, BufferError::ExecFailed),
        (libc::ETXTBSY, BufferError::DenyWriteFailed),
    ];
    for (errno, expected) in table {
        assert_eq!(BufferError::from_i32(errno), Some(expected));
    }
    assert_eq!(BufferError::from_i32(libc::EIO), None);
    assert_eq!(BufferError::from_errno(libc::EIO), BufferError::Unknown { errno: libc::EIO });
    assert_eq!(BufferError::from_errno(libc::ENODEV), BufferError::NoMapSupport);
}

#[test]
fn file_control_error_for_each_errno() {
    let table = [
        (libc::EACCES, FileControlError::Prohibited),
        (libc::EAGAIN, FileControlError::MappedByAnother),
        (libc::EBADF, FileControlError::BadFd),
        (libc::EBUSY, FileControlError::Busy),
        (libc::EDEADLK, FileControlError::WouldDeadlock),
        (libc::EFAULT, FileControlError::Unaddressable),
        (libc::EINTR, FileControlError::Interrupted),
        (libc::EINVAL, FileControlError::InvalidArgument),
        (libc::EMFILE, FileControlError::TooManyOpenFiles),
        (libc::ENOLCK, FileControlError::LockingFailed),
        (libc::ENOTDIR, FileControlError::NotADirectory),
        (libc::EPERM, FileControlError::SeveralMiscellaneousErrors),
    ];
    for (errno, expected) in table {
        assert_eq!(FileControlError::from_i32(errno), Some(expected));
    }
    assert_eq!(FileControlError::from_i32(libc::ENOSPC), None);
    assert_eq!(
        FileControlError::from_errno(libc::ENOSPC),
        FileControlError::Unknown { errno: libc::ENOSPC }
    );
    assert_eq!(FileControlError::from_errno(libc::EINTR), FileControlError::Interrupted);
}

#[test]
fn error_from_each_inner_error() {
    assert_eq!(
        Error::from(OpenError::PmuBusy),
        Error::FdOpen { inner: OpenError::PmuBusy }
    );
    assert_eq!(
        Error::from(BufferError::NoMemory),
        Error::Mmap { inner: BufferError::NoMemory }
    );
    assert_eq!(
        Error::from(FileControlError::BadFd),
        Error::Fcntl { inner: FileControlError::BadFd }
    );
}

#[test]
fn open_with_frequency_above_the_maximum_is_an_invalid_event() {
    // the kernel answers a frequency above its maximum with EINVAL
    assert_eq!(
        PerfFile::new(-1, libc::EINVAL),
        Err(Error::FdOpen { inner: OpenError::InvalidEvent })
    );
}

#[test]
fn open_hands_out_the_descriptor() {
    assert_eq!(PerfFile::new(7, 0), Ok(PerfFile { fd: 7, state: FileState::Opened }));
    assert_eq!(PerfFile::new(0, 0), Ok(PerfFile { fd: 0, state: FileState::Opened }));
    assert_eq!(
        PerfFile::new(-2, 5),
        Err(Error::FdOpen { inner: OpenError::Unknown { errno: 5 } })
    );
    assert_eq!(
        PerfFile::new(1 << 40, 5),
        Err(Error::FdOpen { inner: OpenError::Unknown { errno: 5 } })
    );
}

#[test]
fn setup_goes_through_its_steps_in_order() {
    let layout = RingLayout::new(128, 4096).unwrap();
    let mut file = PerfFile::new(5, 0).unwrap();
    assert_eq!(
        file.next_call(&layout),
        Some(FileCall::SetFlags { fd: 5, flags: libc::O_ASYNC | libc::O_NONBLOCK })
    );
    assert_eq!(file.completed(None), Ok(()));
    assert_eq!(file.state, FileState::NonBlocking);
    assert_eq!(
        file.next_call(&layout),
        Some(FileCall::MapRing {
            fd: 5,
            len: 528384,
            prot: libc::PROT_READ | libc::PROT_WRITE,
            flags: libc::MAP_SHARED,
        })
    );
    assert_eq!(file.completed(None), Ok(()));
    assert_eq!(file.next_call(&layout), Some(FileCall::Register { fd: 5 }));
    assert_eq!(file.completed(None), Ok(()));
    assert_eq!(file.next_call(&layout), Some(FileCall::Enable { fd: 5, request: 0x2400 }));
    assert!(!file.enabled());
    assert_eq!(file.completed(None), Ok(()));
    assert!(file.enabled());
    assert_eq!(file.next_call(&layout), None);
    assert_eq!(file.completed(None), Ok(()));
    assert_eq!(file.state, FileState::Enabled);
}

#[test]
fn setup_failure_names_the_step_that_failed() {
    let mut file = PerfFile::new(5, 0).unwrap();
    assert_eq!(
        file.completed(Some(libc::EBADF)),
        Err(Error::Fcntl { inner: FileControlError::BadFd })
    );
    assert_eq!(file.state, FileState::Opened);
    // a failure of fcntl is an error of fcntl, whatever the number
    assert_eq!(
        file.completed(Some(libc::EIO)),
        Err(Error::Fcntl { inner: FileControlError::Unknown { errno: libc::EIO } })
    );
    assert_eq!(
        file.completed(Some(libc::ENOMEM)),
        Err(Error::Fcntl { inner: FileControlError::Unknown { errno: libc::ENOMEM } })
    );
    assert_eq!(file.state, FileState::Opened);
    file.completed(None).unwrap();
    assert_eq!(
        file.completed(Some(libc::ENOMEM)),
        Err(Error::Mmap { inner: BufferError::NoMemory })
    );
    // a failure of mmap is an error of mmap, whatever the number
    assert_eq!(
        file.completed(Some(libc::EIO)),
        Err(Error::Mmap { inner: BufferError::Unknown { errno: libc::EIO } })
    );
    assert_eq!(file.state, FileState::NonBlocking);
    file.completed(None).unwrap();
    // the registration has no kind of its own
    assert_eq!(file.completed(Some(libc::ENOMEM)), Err(Error::Posix { errno: libc::ENOMEM }));
    assert_eq!(file.state, FileState::Mapped);
    file.completed(None).unwrap();
    // a failure of the enabling ioctl is an error of enabling
    assert_eq!(file.completed(Some(libc::EINVAL)), Err(Error::Enable { errno: libc::EINVAL }));
    assert_eq!(file.state, FileState::Registered);
}
