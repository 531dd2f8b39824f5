//! The event file: what to ask of the kernel, in which order, and what its
//! answers mean.
//!
//! The system calls themselves are the caller's.  This module builds their
//! arguments, turns their results into values and errors, and keeps the
//! order of the setup: open, switch to asynchronous non-blocking mode, map
//! the ring buffer, register with the reactor, enable.
//!
//! The flags and the request number below are those of the generic Linux
//! ABI, as x86, ARM and RISC-V have it.  A few architectures, MIPS and SPARC
//! among them, number the file status flags otherwise; this crate does not
//! serve them.

use vstd::prelude::*;
use crate::attr::PerfEventAttr;
use crate::config::{
    config_error, cpu_raw, pid_raw, sampling_attr, SamplingConfig, SamplingConfigView,
};
use crate::count::{count_attr, CountConfig};
use crate::error::{
    buffer_failure_of, file_control_failure_of, open_error_of, BufferError, Error,
    FileControlError, OpenError,
};
use crate::sample::ring_buffer::RingLayout;

verus! {

/// File status flag: signal when input or output becomes possible.
pub const O_ASYNC: i32 = 0x2000;

/// File status flag: never block.
pub const O_NONBLOCK: i32 = 0x800;

/// Memory protection: pages may be read.
pub const PROT_READ: i32 = 1;

/// Memory protection: pages may be written.
pub const PROT_WRITE: i32 = 2;

/// Mapping flag: share the mapping.
pub const MAP_SHARED: i32 = 1;

/// The request number of the ioctl that enables an event.
pub const PERF_EVENT_IOC_ENABLE: u64 = 0x2400;

/// The arguments of `perf_event_open`.
#[derive(Clone, Copy, Debug, PartialEq, Eq)]
pub struct OpenRequest {
    /// The attribute block.
    pub attr: PerfEventAttr,
    /// The process to follow: 0 for the caller, -1 for all, else its id.
    pub pid: i32,
    /// The CPU to follow: -1 for all, else its number.
    pub cpu: i32,
    /// The group to join: always -1, none.
    pub group_fd: i32,
    /// The flags: always 0.
    pub flags: u64,
}

/// The arguments that open the event of `c`.
pub open spec fn open_request_of(c: SamplingConfigView) -> OpenRequest {
    OpenRequest {
        attr: sampling_attr(c),
        pid: pid_raw(c.shared.pid),
        cpu: cpu_raw(c.shared.cpu),
        group_fd: -1i32,
        flags: 0,
    }
}

/// The arguments that open the counter of `c`.
pub open spec fn count_request_of(c: CountConfig) -> OpenRequest {
    OpenRequest {
        attr: count_attr(c),
        pid: pid_raw(c.shared.pid),
        cpu: cpu_raw(c.shared.cpu),
        group_fd: -1i32,
        flags: 0,
    }
}

/// What remains to be done to an event file before records can be read.
#[derive(Clone, Copy, Debug, PartialEq, Eq)]
pub enum FileState {
    /// Opened, and nothing more.
    Opened,
    /// Switched to asynchronous non-blocking mode.
    NonBlocking,
    /// The ring buffer is mapped.
    Mapped,
    /// Registered with the reactor.
    Registered,
    /// Enabled: the kernel writes records.
    Enabled,
}

/// One step of the setup of an event file.
#[derive(Clone, Copy, Debug, PartialEq, Eq)]
pub enum FileCall {
    /// `fcntl(fd, F_SETFL, flags)`.
    SetFlags { fd: i32, flags: i32 },
    /// `mmap(NULL, len, prot, flags, fd, 0)`.
    MapRing { fd: i32, len: usize, prot: i32, flags: i32 },
    /// Register `fd` with the reactor, for readability.
    Register { fd: i32 },
    /// `ioctl(fd, request, 0)`.
    Enable { fd: i32, request: u64 },
}

/// The file descriptor of an event, and how far its setup has come.
#[derive(Clone, Copy, Debug, PartialEq, Eq)]
pub struct PerfFile {
    /// The descriptor.
    pub fd: i32,
    /// How far the setup has come.
    pub state: FileState,
}

/// What the result of `perf_event_open` means: -1 is the error that the
/// error number names, a descriptor is a file that was just opened.  A
/// result that is neither is an error that no number names.
pub open spec fn opened(ret: i64, errno: i32) -> Result<PerfFile, Error> {
    if ret == -1 {
        Err(Error::FdOpen { inner: open_error_of(errno) })
    } else if 0 <= ret <= i32::MAX {
        Ok(PerfFile { fd: ret as i32, state: FileState::Opened })
    } else {
        Err(Error::FdOpen { inner: OpenError::Unknown { errno } })
    }
}

/// The step that a file in state `state` needs next, if it needs one.
pub open spec fn next_call_of(fd: i32, state: FileState, layout: RingLayout) -> Option<FileCall> {
    match state {
        FileState::Opened => Some(FileCall::SetFlags { fd, flags: O_ASYNC | O_NONBLOCK }),
        FileState::NonBlocking => Some(
            FileCall::MapRing {
                fd,
                len: layout.spec_total_len() as usize,
                prot: PROT_READ | PROT_WRITE,
                flags: MAP_SHARED,
            },
        ),
        FileState::Mapped => Some(FileCall::Register { fd }),
        FileState::Registered => Some(FileCall::Enable { fd, request: PERF_EVENT_IOC_ENABLE }),
        FileState::Enabled => None,
    }
}

/// The state after the step that state `state` needs has succeeded.
pub open spec fn state_after(state: FileState) -> FileState {
    match state {
        FileState::Opened => FileState::NonBlocking,
        FileState::NonBlocking => FileState::Mapped,
        FileState::Mapped => FileState::Registered,
        FileState::Registered => FileState::Enabled,
        FileState::Enabled => FileState::Enabled,
    }
}

/// The error that a failure of the step that state `state` needs stands
/// for.  Its kind tells the step: an error of `fcntl` for the switch of the
/// mode, an error of `mmap` for the mapping, an error of the enabling ioctl
/// for the last step; a registration that fails has no kind of its own and
/// comes as the bare number.  Within its kind, a number that the call does
/// not document is kept as it is.
pub open spec fn failure_of(state: FileState, errno: i32) -> Error {
    match state {
        FileState::Opened => Error::Fcntl { inner: file_control_failure_of(errno) },
        FileState::NonBlocking => Error::Mmap { inner: buffer_failure_of(errno) },
        FileState::Mapped => Error::Posix { errno },
        FileState::Registered => Error::Enable { errno },
        FileState::Enabled => Error::Enable { errno },
    }
}

impl PerfFile {
    /// The arguments of `perf_event_open` for a sampling session, or the
    /// rule that the configuration breaks.
    pub fn request(config: &SamplingConfig) -> (r: Result<OpenRequest, Error>)
        ensures
            r == (match config_error(config@) {
                Some(inner) => Err::<OpenRequest, Error>(Error::InvalidConfig { inner }),
                None => Ok(open_request_of(config@)),
            }),
    {
        match config.attr() {
            Err(inner) => Err(Error::InvalidConfig { inner }),
            Ok(attr) => Ok(
                OpenRequest {
                    attr,
                    pid: config.shared.pid.raw(),
                    cpu: config.shared.cpu.raw(),
                    group_fd: -1,
                    flags: 0,
                },
            ),
        }
    }

    /// The arguments of `perf_event_open` for a counter.  A counter joins no
    /// group, for a group cannot be inherited and read as one.
    pub fn count_request(config: &CountConfig) -> (r: OpenRequest)
        ensures
            r == count_request_of(*config),
    {
        OpenRequest {
            attr: config.attr(),
            pid: config.shared.pid.raw(),
            cpu: config.shared.cpu.raw(),
            group_fd: -1,
            flags: 0,
        }
    }

    /// The event file that `perf_event_open` handed out, or the error that
    /// it reported.  `ret` is what the call returned, and `errno` the error
    /// number that it left behind.
    pub fn new(ret: i64, errno: i32) -> (r: Result<PerfFile, Error>)
        ensures
            r == opened(ret, errno),
    {
        if ret == -1 {
            Err(Error::FdOpen { inner: OpenError::from_errno(errno) })
        } else if 0 <= ret && ret <= i32::MAX as i64 {
            Ok(PerfFile { fd: ret as i32, state: FileState::Opened })
        } else {
            Err(Error::FdOpen { inner: OpenError::Unknown { errno } })
        }
    }

    /// The step of the setup that comes next; `None` once the file is
    /// enabled.
    pub fn next_call(&self, layout: &RingLayout) -> (call: Option<FileCall>)
        requires
            layout.wf(),
        ensures
            call == next_call_of(self.fd, self.state, *layout),
    {
        match self.state {
            FileState::Opened => Some(
                FileCall::SetFlags { fd: self.fd, flags: O_ASYNC | O_NONBLOCK },
            ),
            FileState::NonBlocking => Some(
                FileCall::MapRing {
                    fd: self.fd,
                    len: layout.total_len(),
                    prot: PROT_READ | PROT_WRITE,
                    flags: MAP_SHARED,
                },
            ),
            FileState::Mapped => Some(FileCall::Register { fd: self.fd }),
            FileState::Registered => Some(
                FileCall::Enable { fd: self.fd, request: PERF_EVENT_IOC_ENABLE },
            ),
            FileState::Enabled => None,
        }
    }

    /// Takes note of how the step that came next has ended: `None` for
    /// success, else the error number.  After a success the file is one step
    /// further.  After a failure it is where it was, and the error is of the
    /// kind of the step: `Fcntl` for the switch of the mode and `Mmap` for
    /// the mapping, whatever the number, `Enable` for the enabling ioctl,
    /// and the bare number for the registration.
    pub fn completed(&mut self, failure: Option<i32>) -> (r: Result<(), Error>)
        ensures
            match failure {
                None => r is Ok && *final(self) == (PerfFile {
                    state: state_after(old(self).state),
                    ..*old(self)
                }),
                Some(errno) => r == Err::<(), Error>(failure_of(old(self).state, errno))
                    && *final(self) == *old(self),
            },
    {
        match failure {
            None => {
                self.state = match self.state {
                    FileState::Opened => FileState::NonBlocking,
                    FileState::NonBlocking => FileState::Mapped,
                    FileState::Mapped => FileState::Registered,
                    FileState::Registered => FileState::Enabled,
                    FileState::Enabled => FileState::Enabled,
                };
                Ok(())
            },
            Some(errno) => {
                let error = match self.state {
                    FileState::Opened => Error::Fcntl {
                        inner: FileControlError::from_errno(errno),
                    },
                    FileState::NonBlocking => Error::Mmap {
                        inner: BufferError::from_errno(errno),
                    },
                    FileState::Mapped => Error::Posix { errno },
                    FileState::Registered => Error::Enable { errno },
                    FileState::Enabled => Error::Enable { errno },
                };
                Err(error)
            },
        }
    }

    /// Whether the kernel writes records for this file.
    pub fn enabled(&self) -> (b: bool)
        ensures
            b == (self.state == FileState::Enabled),
    {
        match self.state {
            FileState::Enabled => true,
            _ => false,
        }
    }
}

/// The setup of a file goes through its steps in one order: the mode is
/// switched before the ring buffer is mapped, the ring buffer is mapped
/// before the file is registered, and the file is enabled last and once.
pub proof fn lemma_setup_order(fd: i32, layout: RingLayout)
    ensures
        next_call_of(fd, FileState::Opened, layout) is Some,
        next_call_of(fd, FileState::Opened, layout)->0 is SetFlags,
        next_call_of(fd, state_after(FileState::Opened), layout)->0 is MapRing,
        next_call_of(fd, state_after(state_after(FileState::Opened)), layout)->0 is Register,
        next_call_of(
            fd,
            state_after(state_after(state_after(FileState::Opened))),
            layout,
        )->0 is Enable,
        next_call_of(
            fd,
            state_after(state_after(state_after(state_after(FileState::Opened)))),
            layout,
        ) is None,
{
}

} // verus!
