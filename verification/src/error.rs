//! The errors of a `perf_events` session, and how error numbers map to them.

use vstd::prelude::*;
use crate::errno::{
    E2BIG, EACCES, EAGAIN, EBADF, EBUSY, EDEADLK, EEXIST, EFAULT, EINTR, EINVAL, EMFILE, ENFILE,
    ENODEV, ENOENT, ENOLCK, ENOMEM, ENOSPC, ENOSYS, ENOTDIR, EOPNOTSUPP, EOVERFLOW, EPERM, ESRCH,
    ETXTBSY,
};

verus! {

/// Why `perf_event_open` refused to hand out a file descriptor.
#[derive(Clone, Copy, Debug, PartialEq, Eq)]
pub enum OpenError {
    /// The size of the attribute block is not one this kernel accepts.
    AttrWrongSize,
    /// The event needs `CAP_SYS_ADMIN` or a more permissive paranoid setting.
    CapSysAdminRequired,
    /// The group descriptor, or the cgroup descriptor given as pid, is not valid.
    InvalidFdOrPid,
    /// Another event already has exclusive access to the PMU.
    PmuBusy,
    /// The attribute pointer points at invalid memory.
    AttrInvalidPointer,
    /// The event is invalid: a frequency above the maximum, a CPU that does
    /// not exist, reserved bits set, and many more.
    InvalidEvent,
    /// The per-process limit on open file descriptors is reached.
    TooManyOpenFiles,
    /// The event involves a feature the current CPU does not support.
    CpuFeatureUnsupported,
    /// The event type is not valid.
    InvalidEventType,
    /// More breakpoint events were asked for than the hardware supports.
    TooManyBreakpoints,
    /// User stack sampling was asked for and the hardware does not support it.
    UserStackSampleUnsupported,
    /// The event needs a hardware feature that is missing.
    HardwareFeatureUnsupported,
    /// `sample_max_stack` is above the system-wide maximum.
    SampleMaxStackTooLarge,
    /// An exclusion is unsupported, or `CAP_SYS_ADMIN` is needed.
    CapSysAdminRequiredOrExcludeUnsupported,
    /// The process to attach to does not exist.
    ProcessDoesNotExist,
    /// The kernel reported an error number outside its documented set.
    Unknown { errno: i32 },
}

/// The classification of `perf_event_open` error numbers.
pub open spec fn open_error_of(errno: i32) -> OpenError {
    if errno == E2BIG {
        OpenError::AttrWrongSize
    } else if errno == EACCES {
        OpenError::CapSysAdminRequired
    } else if errno == EBADF {
        OpenError::InvalidFdOrPid
    } else if errno == EBUSY {
        OpenError::PmuBusy
    } else if errno == EFAULT {
        OpenError::AttrInvalidPointer
    } else if errno == EINVAL {
        OpenError::InvalidEvent
    } else if errno == EMFILE {
        OpenError::TooManyOpenFiles
    } else if errno == ENODEV {
        OpenError::CpuFeatureUnsupported
    } else if errno == ENOENT {
        OpenError::InvalidEventType
    } else if errno == ENOSPC {
        OpenError::TooManyBreakpoints
    } else if errno == ENOSYS {
        OpenError::UserStackSampleUnsupported
    } else if errno == EOPNOTSUPP {
        OpenError::HardwareFeatureUnsupported
    } else if errno == EOVERFLOW {
        OpenError::SampleMaxStackTooLarge
    } else if errno == EPERM {
        OpenError::CapSysAdminRequiredOrExcludeUnsupported
    } else if errno == ESRCH {
        OpenError::ProcessDoesNotExist
    } else {
        OpenError::Unknown { errno }
    }
}

impl OpenError {
    /// Classifies the error number that `perf_event_open` left behind.
    pub fn from_errno(errno: i32) -> (e: OpenError)
        ensures
            e == open_error_of(errno),
    {
        match errno {
            E2BIG => OpenError::AttrWrongSize,
            EACCES => OpenError::CapSysAdminRequired,
            EBADF => OpenError::InvalidFdOrPid,
            EBUSY => OpenError::PmuBusy,
            EFAULT => OpenError::AttrInvalidPointer,
            EINVAL => OpenError::InvalidEvent,
            EMFILE => OpenError::TooManyOpenFiles,
            ENODEV => OpenError::CpuFeatureUnsupported,
            ENOENT => OpenError::InvalidEventType,
            ENOSPC => OpenError::TooManyBreakpoints,
            ENOSYS => OpenError::UserStackSampleUnsupported,
            EOPNOTSUPP => OpenError::HardwareFeatureUnsupported,
            EOVERFLOW => OpenError::SampleMaxStackTooLarge,
            EPERM => OpenError::CapSysAdminRequiredOrExcludeUnsupported,
            ESRCH => OpenError::ProcessDoesNotExist,
            _ => OpenError::Unknown { errno },
        }
    }
}

/// Why the bytes in the ring buffer are not a record.
#[derive(Clone, Copy, Debug, PartialEq, Eq)]
pub enum DecodeError {
    /// Fewer bytes than a header has lie between tail and head.
    TruncatedHeader { available: u64 },
    /// The header gives a size smaller than the header itself.
    SizeTooSmall { size: u16 },
    /// The header gives a size larger than what lies between tail and head.
    SizeExceedsAvailable { size: u16, available: u64 },
    /// The header names a kind that this crate does not know, and the
    /// decoder was told to be strict.
    UnknownKind { kind: u32 },
    /// The bytes after the header do not have the layout of the kind that
    /// the header names.
    Malformed { kind: u32 },
}

/// Why the ring buffer could not be mapped.
#[derive(Clone, Copy, Debug, PartialEq, Eq)]
pub enum BufferError {
    /// The descriptor is not open for reading and writing.
    Access,
    /// The descriptor is not valid.
    FdBad,
    /// Address, length or offset are not acceptable.
    InvalidArgs,
    /// The file does not support mapping.
    NoMapSupport,
    /// No memory is left, or the process has too many mappings.
    NoMemory,
    /// The file is locked, or too much memory is locked.
    TooMuchLocking,
    /// The mapping would clash with one that exists.
    ClashesWithExisting,
    /// The system-wide limit on open files is reached.
    TooManyOpenFiles,
    /// The pages of length and offset do not fit an address.
    Overflow,
    /// The mapping was prevented by a seal or by a `noexec` mount.
    ExecFailed,
    /// The file is open for writing and the mapping denies writes.
    DenyWriteFailed,
    /// `mmap` reported an error number outside its documented set.
    Unknown { errno: i32 },
}

/// The classification of `mmap` error numbers; `None` for a number that
/// `mmap` does not document.
pub open spec fn buffer_error_of(errno: i32) -> Option<BufferError> {
    if errno == EACCES {
        Some(BufferError::Access)
    } else if errno == EBADF {
        Some(BufferError::FdBad)
    } else if errno == EINVAL {
        Some(BufferError::InvalidArgs)
    } else if errno == ENODEV {
        Some(BufferError::NoMapSupport)
    } else if errno == ENOMEM {
        Some(BufferError::NoMemory)
    } else if errno == EAGAIN {
        Some(BufferError::TooMuchLocking)
    } else if errno == EEXIST {
        Some(BufferError::ClashesWithExisting)
    } else if errno == ENFILE {
        Some(BufferError::TooManyOpenFiles)
    } else if errno == EOVERFLOW {
        Some(BufferError::Overflow)
    } else if errno == EPERM {
        Some(BufferError::ExecFailed)
    } else if errno == ETXTBSY {
        Some(BufferError::DenyWriteFailed)
    } else {
        None
    }
}

/// The error of `mmap` that `errno` stands for: the documented one, or the
/// bare number.
pub open spec fn buffer_failure_of(errno: i32) -> BufferError {
    match buffer_error_of(errno) {
        Some(e) => e,
        None => BufferError::Unknown { errno },
    }
}

impl BufferError {
    /// The error of `mmap` that `errno` stands for, whatever the number.
    pub fn from_errno(errno: i32) -> (e: BufferError)
        ensures
            e == buffer_failure_of(errno),
    {
        match BufferError::from_i32(errno) {
            Some(e) => e,
            None => BufferError::Unknown { errno },
        }
    }

    /// Classifies the error number that `mmap` left behind; `None` for a
    /// number that `mmap` does not document.
    pub fn from_i32(errno: i32) -> (e: Option<BufferError>)
        ensures
            e == buffer_error_of(errno),
    {
        match errno {
            EACCES => Some(BufferError::Access),
            EBADF => Some(BufferError::FdBad),
            EINVAL => Some(BufferError::InvalidArgs),
            ENODEV => Some(BufferError::NoMapSupport),
            ENOMEM => Some(BufferError::NoMemory),
            EAGAIN => Some(BufferError::TooMuchLocking),
            EEXIST => Some(BufferError::ClashesWithExisting),
            ENFILE => Some(BufferError::TooManyOpenFiles),
            EOVERFLOW => Some(BufferError::Overflow),
            EPERM => Some(BufferError::ExecFailed),
            ETXTBSY => Some(BufferError::DenyWriteFailed),
            _ => None,
        }
    }
}

/// Why `fcntl` refused.
#[derive(Clone, Copy, Debug, PartialEq, Eq)]
pub enum FileControlError {
    /// Locks of other processes prohibit the operation.
    Prohibited,
    /// The file is mapped by another process.
    MappedByAnother,
    /// The descriptor is not open, or not open in the mode that the lock
    /// needs.
    BadFd,
    /// A pipe holds more than its new size, or a shared mapping is writable.
    Busy,
    /// The lock would lead to a deadlock.
    WouldDeadlock,
    /// The lock lies outside the address space.
    Unaddressable,
    /// A signal interrupted the operation.
    Interrupted,
    /// The command or its argument is not one that this kernel takes.
    InvalidArgument,
    /// The per-process limit on open files is reached.
    TooManyOpenFiles,
    /// The lock table is full.
    LockingFailed,
    /// The descriptor does not refer to a directory.
    NotADirectory,
    /// A limit on pipes is reached, or a seal or an attribute of the file
    /// prohibits the operation.
    SeveralMiscellaneousErrors,
    /// `fcntl` reported an error number outside its documented set.
    Unknown { errno: i32 },
}

/// The classification of `fcntl` error numbers; `None` for a number that
/// `fcntl` does not document.
pub open spec fn file_control_error_of(errno: i32) -> Option<FileControlError> {
    if errno == EACCES {
        Some(FileControlError::Prohibited)
    } else if errno == EAGAIN {
        Some(FileControlError::MappedByAnother)
    } else if errno == EBADF {
        Some(FileControlError::BadFd)
    } else if errno == EBUSY {
        Some(FileControlError::Busy)
    } else if errno == EDEADLK {
        Some(FileControlError::WouldDeadlock)
    } else if errno == EFAULT {
        Some(FileControlError::Unaddressable)
    } else if errno == EINTR {
        Some(FileControlError::Interrupted)
    } else if errno == EINVAL {
        Some(FileControlError::InvalidArgument)
    } else if errno == EMFILE {
        Some(FileControlError::TooManyOpenFiles)
    } else if errno == ENOLCK {
        Some(FileControlError::LockingFailed)
    } else if errno == ENOTDIR {
        Some(FileControlError::NotADirectory)
    } else if errno == EPERM {
        Some(FileControlError::SeveralMiscellaneousErrors)
    } else {
        None
    }
}

/// The error of `fcntl` that `errno` stands for: the documented one, or the
/// bare number.
pub open spec fn file_control_failure_of(errno: i32) -> FileControlError {
    match file_control_error_of(errno) {
        Some(e) => e,
        None => FileControlError::Unknown { errno },
    }
}

impl FileControlError {
    /// The error of `fcntl` that `errno` stands for, whatever the number.
    pub fn from_errno(errno: i32) -> (e: FileControlError)
        ensures
            e == file_control_failure_of(errno),
    {
        match FileControlError::from_i32(errno) {
            Some(e) => e,
            None => FileControlError::Unknown { errno },
        }
    }

    /// Classifies the error number that `fcntl` left behind; `None` for a
    /// number that `fcntl` does not document.
    pub fn from_i32(errno: i32) -> (e: Option<FileControlError>)
        ensures
            e == file_control_error_of(errno),
    {
        match errno {
            EACCES => Some(FileControlError::Prohibited),
            EAGAIN => Some(FileControlError::MappedByAnother),
            EBADF => Some(FileControlError::BadFd),
            EBUSY => Some(FileControlError::Busy),
            EDEADLK => Some(FileControlError::WouldDeadlock),
            EFAULT => Some(FileControlError::Unaddressable),
            EINTR => Some(FileControlError::Interrupted),
            EINVAL => Some(FileControlError::InvalidArgument),
            EMFILE => Some(FileControlError::TooManyOpenFiles),
            ENOLCK => Some(FileControlError::LockingFailed),
            ENOTDIR => Some(FileControlError::NotADirectory),
            EPERM => Some(FileControlError::SeveralMiscellaneousErrors),
            _ => None,
        }
    }
}

/// Why a configuration cannot become an attribute block.
#[derive(Clone, Copy, Debug, PartialEq, Eq)]
pub enum ConfigError {
    /// A frequency of zero samples a second.
    ZeroFrequency,
    /// A wakeup after zero bytes.
    ZeroWatermark,
    /// A branch stack is requested and no kind of branch is named for it.
    BranchStackWithoutFilter,
}

/// Why a ring buffer of the wanted size cannot be mapped.
#[derive(Clone, Copy, Debug, PartialEq, Eq)]
pub enum LayoutError {
    /// The number of data pages is no power of two.
    PagesNotPowerOfTwo,
    /// The page size is no power of two.
    PageSizeNotPowerOfTwo,
    /// The mapping would be longer than an address can say.
    TooLarge,
}

/// Everything that can go wrong in a session.
#[derive(Clone, Debug, PartialEq, Eq)]
pub enum Error {
    /// The configuration cannot become an attribute block.
    InvalidConfig { inner: ConfigError },
    /// `perf_event_open` refused.
    FdOpen { inner: OpenError },
    /// No counter could be started.
    Start { inner: String },
    /// A system call failed with an error number that has no variant of its
    /// own.
    Posix { errno: i32 },
    /// Reading a counter failed with this error number.
    Read { errno: i32 },
    /// The ring buffer cannot have the wanted size.
    Layout { inner: LayoutError },
    /// `mmap` refused.
    Mmap { inner: BufferError },
    /// `fcntl` refused.
    Fcntl { inner: FileControlError },
    /// The ioctl that enables the event failed with this error number.
    Enable { errno: i32 },
    /// The bytes in the ring buffer are not a record.
    Decode { inner: DecodeError },
    /// The worker of a session panicked; what it left behind, in words.
    WorkerPanic { inner: String },
    /// Anything else, in words.
    Misc { inner: String },
}

impl From<ConfigError> for Error {
    fn from(inner: ConfigError) -> (e: Error) {
        Error::InvalidConfig { inner }
    }
}

impl vstd::std_specs::convert::FromSpecImpl<ConfigError> for Error {
    open spec fn obeys_from_spec() -> bool {
        true
    }

    open spec fn from_spec(inner: ConfigError) -> Error {
        Error::InvalidConfig { inner }
    }
}

impl From<OpenError> for Error {
    fn from(inner: OpenError) -> (e: Error) {
        Error::FdOpen { inner }
    }
}

impl vstd::std_specs::convert::FromSpecImpl<OpenError> for Error {
    open spec fn obeys_from_spec() -> bool {
        true
    }

    open spec fn from_spec(inner: OpenError) -> Error {
        Error::FdOpen { inner }
    }
}

impl From<LayoutError> for Error {
    fn from(inner: LayoutError) -> (e: Error) {
        Error::Layout { inner }
    }
}

impl vstd::std_specs::convert::FromSpecImpl<LayoutError> for Error {
    open spec fn obeys_from_spec() -> bool {
        true
    }

    open spec fn from_spec(inner: LayoutError) -> Error {
        Error::Layout { inner }
    }
}

impl From<BufferError> for Error {
    fn from(inner: BufferError) -> (e: Error) {
        Error::Mmap { inner }
    }
}

impl vstd::std_specs::convert::FromSpecImpl<BufferError> for Error {
    open spec fn obeys_from_spec() -> bool {
        true
    }

    open spec fn from_spec(inner: BufferError) -> Error {
        Error::Mmap { inner }
    }
}

impl From<FileControlError> for Error {
    fn from(inner: FileControlError) -> (e: Error) {
        Error::Fcntl { inner }
    }
}

impl vstd::std_specs::convert::FromSpecImpl<FileControlError> for Error {
    open spec fn obeys_from_spec() -> bool {
        true
    }

    open spec fn from_spec(inner: FileControlError) -> Error {
        Error::Fcntl { inner }
    }
}

impl From<DecodeError> for Error {
    fn from(inner: DecodeError) -> (e: Error) {
        Error::Decode { inner }
    }
}

impl vstd::std_specs::convert::FromSpecImpl<DecodeError> for Error {
    open spec fn obeys_from_spec() -> bool {
        true
    }

    open spec fn from_spec(inner: DecodeError) -> Error {
        Error::Decode { inner }
    }
}

} // verus!
