//! The eight bytes that start every record.

use vstd::prelude::*;
use crate::abi::{
    MISC_CPUMODE_MASK, MISC_EXACT_IP, MISC_EXT_RESERVED, MISC_GUEST_KERNEL, MISC_GUEST_USER,
    MISC_HYPERVISOR, MISC_KERNEL, MISC_MULTIPURPOSE, MISC_USER, RECORD_AUX, RECORD_COMM,
    RECORD_EXIT, RECORD_FORK, RECORD_ITRACE_START, RECORD_LOST, RECORD_LOST_SAMPLES,
    RECORD_MMAP, RECORD_MMAP2, RECORD_READ, RECORD_SAMPLE, RECORD_SWITCH,
    RECORD_SWITCH_CPU_WIDE, RECORD_THROTTLE, RECORD_UNTHROTTLE,
};
use crate::wire::{
    lemma_u16_round_trip, lemma_u32_round_trip, spec_u16, spec_u32, u16_at, u16_bytes, u32_at,
    u32_bytes, ByteOrder,
};

verus! {

/// The kinds of record that the kernel writes to the ring buffer.
#[derive(Clone, Copy, Debug, PartialEq, Eq)]
pub enum SampledEventType {
    /// An executable mapping.
    Mmap,
    /// Events were lost.
    Lost,
    /// A process changed its name.
    Comm,
    /// A process exited.
    Exit,
    /// The event was throttled.
    Throttle,
    /// The event was unthrottled.
    Unthrottle,
    /// A process forked.
    Fork,
    /// A counter was read.
    Read,
    /// A sample.
    Sample,
    /// A mapping, with the identity of the mapped file.
    Mmap2,
    /// New data in the AUX area.
    Aux,
    /// An instruction trace started.
    ItraceStart,
    /// Hardware samples were lost.
    LostSamples,
    /// A context switch.
    Switch,
    /// A context switch, seen CPU-wide.
    SwitchCpuWide,
}

/// The number by which the kernel names a kind of record.
pub open spec fn kind_code(t: SampledEventType) -> u32 {
    match t {
        SampledEventType::Mmap => RECORD_MMAP,
        SampledEventType::Lost => RECORD_LOST,
        SampledEventType::Comm => RECORD_COMM,
        SampledEventType::Exit => RECORD_EXIT,
        SampledEventType::Throttle => RECORD_THROTTLE,
        SampledEventType::Unthrottle => RECORD_UNTHROTTLE,
        SampledEventType::Fork => RECORD_FORK,
        SampledEventType::Read => RECORD_READ,
        SampledEventType::Sample => RECORD_SAMPLE,
        SampledEventType::Mmap2 => RECORD_MMAP2,
        SampledEventType::Aux => RECORD_AUX,
        SampledEventType::ItraceStart => RECORD_ITRACE_START,
        SampledEventType::LostSamples => RECORD_LOST_SAMPLES,
        SampledEventType::Switch => RECORD_SWITCH,
        SampledEventType::SwitchCpuWide => RECORD_SWITCH_CPU_WIDE,
    }
}

/// The kind of record that the kernel names by `n`, if it names one.
pub open spec fn kind_of(n: u32) -> Option<SampledEventType> {
    if n == RECORD_MMAP {
        Some(SampledEventType::Mmap)
    } else if n == RECORD_LOST {
        Some(SampledEventType::Lost)
    } else if n == RECORD_COMM {
        Some(SampledEventType::Comm)
    } else if n == RECORD_EXIT {
        Some(SampledEventType::Exit)
    } else if n == RECORD_THROTTLE {
        Some(SampledEventType::Throttle)
    } else if n == RECORD_UNTHROTTLE {
        Some(SampledEventType::Unthrottle)
    } else if n == RECORD_FORK {
        Some(SampledEventType::Fork)
    } else if n == RECORD_READ {
        Some(SampledEventType::Read)
    } else if n == RECORD_SAMPLE {
        Some(SampledEventType::Sample)
    } else if n == RECORD_MMAP2 {
        Some(SampledEventType::Mmap2)
    } else if n == RECORD_AUX {
        Some(SampledEventType::Aux)
    } else if n == RECORD_ITRACE_START {
        Some(SampledEventType::ItraceStart)
    } else if n == RECORD_LOST_SAMPLES {
        Some(SampledEventType::LostSamples)
    } else if n == RECORD_SWITCH {
        Some(SampledEventType::Switch)
    } else if n == RECORD_SWITCH_CPU_WIDE {
        Some(SampledEventType::SwitchCpuWide)
    } else {
        None
    }
}

impl SampledEventType {
    /// The number by which the kernel names the kind.
    pub fn code(&self) -> (n: u32)
        ensures
            n == kind_code(*self),
            kind_of(n) == Some(*self),
    {
        match *self {
            SampledEventType::Mmap => RECORD_MMAP,
            SampledEventType::Lost => RECORD_LOST,
            SampledEventType::Comm => RECORD_COMM,
            SampledEventType::Exit => RECORD_EXIT,
            SampledEventType::Throttle => RECORD_THROTTLE,
            SampledEventType::Unthrottle => RECORD_UNTHROTTLE,
            SampledEventType::Fork => RECORD_FORK,
            SampledEventType::Read => RECORD_READ,
            SampledEventType::Sample => RECORD_SAMPLE,
            SampledEventType::Mmap2 => RECORD_MMAP2,
            SampledEventType::Aux => RECORD_AUX,
            SampledEventType::ItraceStart => RECORD_ITRACE_START,
            SampledEventType::LostSamples => RECORD_LOST_SAMPLES,
            SampledEventType::Switch => RECORD_SWITCH,
            SampledEventType::SwitchCpuWide => RECORD_SWITCH_CPU_WIDE,
        }
    }

    /// The kind that the kernel names by `n`; `None` for a number that names
    /// no kind this crate knows.
    pub fn from_u32(n: u32) -> (t: Option<SampledEventType>)
        ensures
            t == kind_of(n),
    {
        match n {
            RECORD_MMAP => Some(SampledEventType::Mmap),
            RECORD_LOST => Some(SampledEventType::Lost),
            RECORD_COMM => Some(SampledEventType::Comm),
            RECORD_EXIT => Some(SampledEventType::Exit),
            RECORD_THROTTLE => Some(SampledEventType::Throttle),
            RECORD_UNTHROTTLE => Some(SampledEventType::Unthrottle),
            RECORD_FORK => Some(SampledEventType::Fork),
            RECORD_READ => Some(SampledEventType::Read),
            RECORD_SAMPLE => Some(SampledEventType::Sample),
            RECORD_MMAP2 => Some(SampledEventType::Mmap2),
            RECORD_AUX => Some(SampledEventType::Aux),
            RECORD_ITRACE_START => Some(SampledEventType::ItraceStart),
            RECORD_LOST_SAMPLES => Some(SampledEventType::LostSamples),
            RECORD_SWITCH => Some(SampledEventType::Switch),
            RECORD_SWITCH_CPU_WIDE => Some(SampledEventType::SwitchCpuWide),
            _ => None,
        }
    }
}

/// Where the CPU was when the record was made.
#[derive(Clone, Copy, Debug, PartialEq, Eq)]
pub enum CpuMode {
    /// Not known.
    Unknown,
    /// In the kernel.
    Kernel,
    /// In user code.
    User,
    /// In the hypervisor.
    Hypervisor,
    /// In the kernel of a guest.
    GuestKernel,
    /// In the user code of a guest.
    GuestUser,
}

/// The CPU mode that stands in the low three bits `m` of `misc`.  The two
/// values that the kernel does not define read as unknown.
pub open spec fn cpu_mode_of(m: u16) -> CpuMode {
    if m == MISC_KERNEL {
        CpuMode::Kernel
    } else if m == MISC_USER {
        CpuMode::User
    } else if m == MISC_HYPERVISOR {
        CpuMode::Hypervisor
    } else if m == MISC_GUEST_KERNEL {
        CpuMode::GuestKernel
    } else if m == MISC_GUEST_USER {
        CpuMode::GuestUser
    } else {
        CpuMode::Unknown
    }
}

/// The header of a record.
#[derive(Clone, Copy, Debug, PartialEq, Eq)]
pub struct EventHeader {
    /// The kind of the record, as the kernel numbers it.
    pub kind: u32,
    /// The CPU mode and the flags of the record.
    pub misc: u16,
    /// The size of the record in bytes, the header included.
    pub size: u16,
}

/// The header that the first eight bytes of `s` hold.
pub open spec fn header_of(order: ByteOrder, s: Seq<u8>) -> EventHeader {
    EventHeader {
        kind: spec_u32(order, s),
        misc: spec_u16(order, s.skip(4)),
        size: spec_u16(order, s.skip(6)),
    }
}

/// The eight bytes of a header.
pub open spec fn header_bytes(order: ByteOrder, h: EventHeader) -> Seq<u8> {
    u32_bytes(order, h.kind) + u16_bytes(order, h.misc) + u16_bytes(order, h.size)
}

/// Reading back the bytes of a header gives the header, whatever follows
/// them.
pub proof fn lemma_header_round_trip(order: ByteOrder, h: EventHeader, rest: Seq<u8>)
    ensures
        header_bytes(order, h).len() == 8,
        header_of(order, header_bytes(order, h) + rest) == h,
        (header_bytes(order, h) + rest).skip(8) == rest,
{
    let s = header_bytes(order, h) + rest;
    let r_size = u16_bytes(order, h.size) + rest;
    let r_misc = u16_bytes(order, h.misc) + r_size;
    let r_kind = u32_bytes(order, h.kind) + r_misc;
    lemma_u32_round_trip(order, h.kind, r_misc);
    lemma_u16_round_trip(order, h.misc, r_size);
    lemma_u16_round_trip(order, h.size, rest);
    assert(s =~= r_kind);
    assert(s.skip(4) =~= r_misc);
    assert(s.skip(6) =~= r_size);
    assert(s.skip(8) =~= rest);
}

impl EventHeader {
    /// Reads a header from the front of `bytes`; `None` where there are
    /// fewer than eight.
    pub fn parse(order: ByteOrder, bytes: &[u8]) -> (h: Option<EventHeader>)
        ensures
            h == (if bytes@.len() >= 8 {
                Some(header_of(order, bytes@))
            } else {
                None
            }),
    {
        if bytes.len() < 8 {
            return None;
        }
        assert(bytes@.skip(0) =~= bytes@);
        Some(
            EventHeader {
                kind: u32_at(order, bytes, 0),
                misc: u16_at(order, bytes, 4),
                size: u16_at(order, bytes, 6),
            },
        )
    }

    /// The kind of the record, where this crate knows it.
    pub fn event_type(&self) -> (t: Option<SampledEventType>)
        ensures
            t == kind_of(self.kind),
    {
        SampledEventType::from_u32(self.kind)
    }

    /// Where the CPU was when the record was made.
    pub fn cpu_mode(&self) -> (m: CpuMode)
        ensures
            m == cpu_mode_of(self.misc & MISC_CPUMODE_MASK),
    {
        let m = self.misc & MISC_CPUMODE_MASK;
        if m == MISC_KERNEL {
            CpuMode::Kernel
        } else if m == MISC_USER {
            CpuMode::User
        } else if m == MISC_HYPERVISOR {
            CpuMode::Hypervisor
        } else if m == MISC_GUEST_KERNEL {
            CpuMode::GuestKernel
        } else if m == MISC_GUEST_USER {
            CpuMode::GuestUser
        } else {
            CpuMode::Unknown
        }
    }

    /// The bit whose meaning depends on the kind: the mapping holds data,
    /// the name changed by exec, or the switch leads away from the process.
    pub fn multipurpose(&self) -> (b: bool)
        ensures
            b == (self.misc & MISC_MULTIPURPOSE != 0),
    {
        self.misc & MISC_MULTIPURPOSE != 0
    }

    /// Whether the instruction pointer of the sample is exact.
    pub fn exact_ip(&self) -> (b: bool)
        ensures
            b == (self.misc & MISC_EXACT_IP != 0),
    {
        self.misc & MISC_EXACT_IP != 0
    }

    /// Whether the bit reserved for extensions is set.
    pub fn reserved(&self) -> (b: bool)
        ensures
            b == (self.misc & MISC_EXT_RESERVED != 0),
    {
        self.misc & MISC_EXT_RESERVED != 0
    }
}

} // verus!
