//! The attribute block that `perf_event_open` takes.
//!
//! [`PerfEventAttr`] holds the fields of the kernel's `perf_event_attr` as
//! plain values.  The bits of its packed flag word are named booleans; they
//! meet their positions in one place, [`flags_word`].  The two unions of the
//! kernel structure are raw integers here; which arm they hold is told by a
//! flag.

use vstd::prelude::*;
use crate::bits::has_bit;
use crate::wire::{
    lemma_u16_round_trip, lemma_u32_round_trip, lemma_u64_round_trip, push_u16, push_u32,
    push_u64, spec_u16, spec_u32, spec_u64, u16_at, u16_bytes, u32_at, u32_bytes, u64_at,
    u64_bytes, ByteOrder,
};

verus! {

/// The flags of the attribute block, one field for each.
#[derive(Clone, Copy, Debug, PartialEq, Eq, Structural)]
pub struct AttrFlags {
    /// The event starts disabled.
    pub disabled: bool,
    /// Children inherit the event.
    pub inherit: bool,
    /// The event must always be on the PMU.
    pub pinned: bool,
    /// Only this group may be on the PMU.
    pub exclusive: bool,
    /// Events in user space are not counted.
    pub exclude_user: bool,
    /// Events in the kernel are not counted.
    pub exclude_kernel: bool,
    /// Events in the hypervisor are not counted.
    pub exclude_hv: bool,
    /// Nothing is counted while the CPU idles.
    pub exclude_idle: bool,
    /// Executable mappings are recorded.
    pub mmap: bool,
    /// Changes of the process name are recorded.
    pub comm: bool,
    /// The rate is a frequency, not a period.
    pub freq: bool,
    /// Counts are saved per task on a context switch.
    pub inherit_stat: bool,
    /// The event is enabled by the next exec.
    pub enable_on_exec: bool,
    /// Forks and exits are recorded.
    pub task: bool,
    /// The wakeup threshold counts bytes, not samples.
    pub watermark: bool,
    /// How exact the instruction pointer of a sample must be, 0 to 3.
    pub precise_ip: u8,
    /// Data mappings are recorded.
    pub mmap_data: bool,
    /// Records that are no samples carry an identity too.
    pub sample_id_all: bool,
    /// Events in the host are not counted.
    pub exclude_host: bool,
    /// Events in a guest are not counted.
    pub exclude_guest: bool,
    /// Call chains leave out the kernel.
    pub exclude_callchain_kernel: bool,
    /// Call chains leave out user space.
    pub exclude_callchain_user: bool,
    /// Mappings are recorded with the identity of the file.
    pub mmap2: bool,
    /// Name changes by exec are marked as such.
    pub comm_exec: bool,
    /// Timestamps come from the clock in `clockid`.
    pub use_clockid: bool,
    /// Context switches are recorded.
    pub context_switch: bool,
    /// The ring buffer is written from its end.
    pub write_backward: bool,
    /// Namespace changes are recorded.
    pub namespaces: bool,
}

/// The shift that brings a field of `width` bits to its place in the flag
/// word, where `low` is the number of bits declared before it.  A
/// little-endian host fills the word from its lowest bit, a big-endian host
/// from its highest.
pub open spec fn field_shift(order: ByteOrder, low: u64, width: u64) -> u64 {
    match order {
        ByteOrder::Little => low,
        ByteOrder::Big => (64 - low - width) as u64,
    }
}

/// One flag as a number.
pub open spec fn flag_value(b: bool) -> u64 {
    if b {
        1
    } else {
        0
    }
}

/// The part of the flag word that says what is counted and for whom.
pub open spec fn scope_bits(order: ByteOrder, f: AttrFlags) -> u64 {
    (flag_value(f.disabled) << field_shift(order, 0, 1))
        | (flag_value(f.inherit) << field_shift(order, 1, 1))
        | (flag_value(f.pinned) << field_shift(order, 2, 1))
        | (flag_value(f.exclusive) << field_shift(order, 3, 1))
        | (flag_value(f.exclude_user) << field_shift(order, 4, 1))
        | (flag_value(f.exclude_kernel) << field_shift(order, 5, 1))
        | (flag_value(f.exclude_hv) << field_shift(order, 6, 1))
        | (flag_value(f.exclude_idle) << field_shift(order, 7, 1))
}

/// The part of the flag word that says which side records are written and how the event fires.
pub open spec fn record_bits(order: ByteOrder, f: AttrFlags) -> u64 {
    (flag_value(f.mmap) << field_shift(order, 8, 1))
        | (flag_value(f.comm) << field_shift(order, 9, 1))
        | (flag_value(f.freq) << field_shift(order, 10, 1))
        | (flag_value(f.inherit_stat) << field_shift(order, 11, 1))
        | (flag_value(f.enable_on_exec) << field_shift(order, 12, 1))
        | (flag_value(f.task) << field_shift(order, 13, 1))
        | (flag_value(f.watermark) << field_shift(order, 14, 1))
}

/// The part of the flag word that says what samples hold.
pub open spec fn sample_bits(order: ByteOrder, f: AttrFlags) -> u64 {
    ((f.precise_ip as u64) << field_shift(order, 15, 2))
        | (flag_value(f.mmap_data) << field_shift(order, 17, 1))
        | (flag_value(f.sample_id_all) << field_shift(order, 18, 1))
        | (flag_value(f.exclude_host) << field_shift(order, 19, 1))
        | (flag_value(f.exclude_guest) << field_shift(order, 20, 1))
        | (flag_value(f.exclude_callchain_kernel) << field_shift(order, 21, 1))
        | (flag_value(f.exclude_callchain_user) << field_shift(order, 22, 1))
}

/// The part of the flag word that says the flags of later kernels.
pub open spec fn late_bits(order: ByteOrder, f: AttrFlags) -> u64 {
    (flag_value(f.mmap2) << field_shift(order, 23, 1))
        | (flag_value(f.comm_exec) << field_shift(order, 24, 1))
        | (flag_value(f.use_clockid) << field_shift(order, 25, 1))
        | (flag_value(f.context_switch) << field_shift(order, 26, 1))
        | (flag_value(f.write_backward) << field_shift(order, 27, 1))
        | (flag_value(f.namespaces) << field_shift(order, 28, 1))
}

/// The flag word that holds `f`.
pub open spec fn flags_word(order: ByteOrder, f: AttrFlags) -> u64 {
    scope_bits(order, f) | record_bits(order, f) | sample_bits(order, f) | late_bits(order, f)
}

/// The flags that `word` holds.
pub open spec fn flags_of_word(order: ByteOrder, word: u64) -> AttrFlags {
    AttrFlags {
        disabled: has_bit(word, field_shift(order, 0, 1)),
        inherit: has_bit(word, field_shift(order, 1, 1)),
        pinned: has_bit(word, field_shift(order, 2, 1)),
        exclusive: has_bit(word, field_shift(order, 3, 1)),
        exclude_user: has_bit(word, field_shift(order, 4, 1)),
        exclude_kernel: has_bit(word, field_shift(order, 5, 1)),
        exclude_hv: has_bit(word, field_shift(order, 6, 1)),
        exclude_idle: has_bit(word, field_shift(order, 7, 1)),
        mmap: has_bit(word, field_shift(order, 8, 1)),
        comm: has_bit(word, field_shift(order, 9, 1)),
        freq: has_bit(word, field_shift(order, 10, 1)),
        inherit_stat: has_bit(word, field_shift(order, 11, 1)),
        enable_on_exec: has_bit(word, field_shift(order, 12, 1)),
        task: has_bit(word, field_shift(order, 13, 1)),
        watermark: has_bit(word, field_shift(order, 14, 1)),
        precise_ip: ((word >> field_shift(order, 15, 2)) & 3) as u8,
        mmap_data: has_bit(word, field_shift(order, 17, 1)),
        sample_id_all: has_bit(word, field_shift(order, 18, 1)),
        exclude_host: has_bit(word, field_shift(order, 19, 1)),
        exclude_guest: has_bit(word, field_shift(order, 20, 1)),
        exclude_callchain_kernel: has_bit(word, field_shift(order, 21, 1)),
        exclude_callchain_user: has_bit(word, field_shift(order, 22, 1)),
        mmap2: has_bit(word, field_shift(order, 23, 1)),
        comm_exec: has_bit(word, field_shift(order, 24, 1)),
        use_clockid: has_bit(word, field_shift(order, 25, 1)),
        context_switch: has_bit(word, field_shift(order, 26, 1)),
        write_backward: has_bit(word, field_shift(order, 27, 1)),
        namespaces: has_bit(word, field_shift(order, 28, 1)),
    }
}

/// The flags with none set and `precise_ip` zero.
pub open spec fn no_flags() -> AttrFlags {
    AttrFlags {
        disabled: false,
        inherit: false,
        pinned: false,
        exclusive: false,
        exclude_user: false,
        exclude_kernel: false,
        exclude_hv: false,
        exclude_idle: false,
        mmap: false,
        comm: false,
        freq: false,
        inherit_stat: false,
        enable_on_exec: false,
        task: false,
        watermark: false,
        precise_ip: 0,
        mmap_data: false,
        sample_id_all: false,
        exclude_host: false,
        exclude_guest: false,
        exclude_callchain_kernel: false,
        exclude_callchain_user: false,
        mmap2: false,
        comm_exec: false,
        use_clockid: false,
        context_switch: false,
        write_backward: false,
        namespaces: false,
    }
}

fn shift_of(order: ByteOrder, low: u64, width: u64) -> (s: u64)
    requires
        width >= 1,
        low + width <= 64,
    ensures
        s == field_shift(order, low, width),
        s < 64,
{
    match order {
        ByteOrder::Little => low,
        ByteOrder::Big => 64 - low - width,
    }
}

fn value_of(b: bool) -> (v: u64)
    ensures
        v == flag_value(b),
{
    if b {
        1
    } else {
        0
    }
}

impl AttrFlags {
    /// Whether the flags can be written: `precise_ip` has two bits.
    pub open spec fn wf(self) -> bool {
        self.precise_ip <= 3
    }

    /// No flag set.
    pub fn none() -> (f: AttrFlags)
        ensures
            f == no_flags(),
    {
        AttrFlags {
            disabled: false,
            inherit: false,
            pinned: false,
            exclusive: false,
            exclude_user: false,
            exclude_kernel: false,
            exclude_hv: false,
            exclude_idle: false,
            mmap: false,
            comm: false,
            freq: false,
            inherit_stat: false,
            enable_on_exec: false,
            task: false,
            watermark: false,
            precise_ip: 0,
            mmap_data: false,
            sample_id_all: false,
            exclude_host: false,
            exclude_guest: false,
            exclude_callchain_kernel: false,
            exclude_callchain_user: false,
            mmap2: false,
            comm_exec: false,
            use_clockid: false,
            context_switch: false,
            write_backward: false,
            namespaces: false,
        }
    }

    fn scope_word(&self, order: ByteOrder) -> (w: u64)
        ensures
            w == scope_bits(order, *self),
    {
        let w = value_of(self.disabled) << shift_of(order, 0, 1);
        let w = w | (value_of(self.inherit) << shift_of(order, 1, 1));
        let w = w | (value_of(self.pinned) << shift_of(order, 2, 1));
        let w = w | (value_of(self.exclusive) << shift_of(order, 3, 1));
        let w = w | (value_of(self.exclude_user) << shift_of(order, 4, 1));
        let w = w | (value_of(self.exclude_kernel) << shift_of(order, 5, 1));
        let w = w | (value_of(self.exclude_hv) << shift_of(order, 6, 1));
        let w = w | (value_of(self.exclude_idle) << shift_of(order, 7, 1));
        w
    }

    fn record_word(&self, order: ByteOrder) -> (w: u64)
        ensures
            w == record_bits(order, *self),
    {
        let w = value_of(self.mmap) << shift_of(order, 8, 1);
        let w = w | (value_of(self.comm) << shift_of(order, 9, 1));
        let w = w | (value_of(self.freq) << shift_of(order, 10, 1));
        let w = w | (value_of(self.inherit_stat) << shift_of(order, 11, 1));
        let w = w | (value_of(self.enable_on_exec) << shift_of(order, 12, 1));
        let w = w | (value_of(self.task) << shift_of(order, 13, 1));
        let w = w | (value_of(self.watermark) << shift_of(order, 14, 1));
        w
    }

    fn sample_word(&self, order: ByteOrder) -> (w: u64)
        ensures
            w == sample_bits(order, *self),
    {
        let w = (self.precise_ip as u64) << shift_of(order, 15, 2);
        let w = w | (value_of(self.mmap_data) << shift_of(order, 17, 1));
        let w = w | (value_of(self.sample_id_all) << shift_of(order, 18, 1));
        let w = w | (value_of(self.exclude_host) << shift_of(order, 19, 1));
        let w = w | (value_of(self.exclude_guest) << shift_of(order, 20, 1));
        let w = w | (value_of(self.exclude_callchain_kernel) << shift_of(order, 21, 1));
        let w = w | (value_of(self.exclude_callchain_user) << shift_of(order, 22, 1));
        w
    }

    fn late_word(&self, order: ByteOrder) -> (w: u64)
        ensures
            w == late_bits(order, *self),
    {
        let w = value_of(self.mmap2) << shift_of(order, 23, 1);
        let w = w | (value_of(self.comm_exec) << shift_of(order, 24, 1));
        let w = w | (value_of(self.use_clockid) << shift_of(order, 25, 1));
        let w = w | (value_of(self.context_switch) << shift_of(order, 26, 1));
        let w = w | (value_of(self.write_backward) << shift_of(order, 27, 1));
        let w = w | (value_of(self.namespaces) << shift_of(order, 28, 1));
        w
    }

    /// Packs the flags into the word the kernel reads.
    pub fn word(&self, order: ByteOrder) -> (w: u64)
        ensures
            w == flags_word(order, *self),
    {
        self.scope_word(order) | self.record_word(order) | self.sample_word(order)
            | self.late_word(order)
    }

    /// Reads the flags out of a word.  Bits that belong to no flag are
    /// ignored.
    pub fn from_word(order: ByteOrder, word: u64) -> (f: AttrFlags)
        ensures
            f == flags_of_word(order, word),
            f.wf(),
    {
        let at = shift_of(order, 15, 2);
        let p = (word >> at) & 3;
        assert(p <= 3) by (bit_vector)
            requires
                p == (word >> at) & 3,
        ;
        AttrFlags {
            disabled: (word >> shift_of(order, 0, 1)) & 1 == 1,
            inherit: (word >> shift_of(order, 1, 1)) & 1 == 1,
            pinned: (word >> shift_of(order, 2, 1)) & 1 == 1,
            exclusive: (word >> shift_of(order, 3, 1)) & 1 == 1,
            exclude_user: (word >> shift_of(order, 4, 1)) & 1 == 1,
            exclude_kernel: (word >> shift_of(order, 5, 1)) & 1 == 1,
            exclude_hv: (word >> shift_of(order, 6, 1)) & 1 == 1,
            exclude_idle: (word >> shift_of(order, 7, 1)) & 1 == 1,
            mmap: (word >> shift_of(order, 8, 1)) & 1 == 1,
            comm: (word >> shift_of(order, 9, 1)) & 1 == 1,
            freq: (word >> shift_of(order, 10, 1)) & 1 == 1,
            inherit_stat: (word >> shift_of(order, 11, 1)) & 1 == 1,
            enable_on_exec: (word >> shift_of(order, 12, 1)) & 1 == 1,
            task: (word >> shift_of(order, 13, 1)) & 1 == 1,
            watermark: (word >> shift_of(order, 14, 1)) & 1 == 1,
            precise_ip: p as u8,
            mmap_data: (word >> shift_of(order, 17, 1)) & 1 == 1,
            sample_id_all: (word >> shift_of(order, 18, 1)) & 1 == 1,
            exclude_host: (word >> shift_of(order, 19, 1)) & 1 == 1,
            exclude_guest: (word >> shift_of(order, 20, 1)) & 1 == 1,
            exclude_callchain_kernel: (word >> shift_of(order, 21, 1)) & 1 == 1,
            exclude_callchain_user: (word >> shift_of(order, 22, 1)) & 1 == 1,
            mmap2: (word >> shift_of(order, 23, 1)) & 1 == 1,
            comm_exec: (word >> shift_of(order, 24, 1)) & 1 == 1,
            use_clockid: (word >> shift_of(order, 25, 1)) & 1 == 1,
            context_switch: (word >> shift_of(order, 26, 1)) & 1 == 1,
            write_backward: (word >> shift_of(order, 27, 1)) & 1 == 1,
            namespaces: (word >> shift_of(order, 28, 1)) & 1 == 1,
        }
    }
}

proof fn lemma_word_fields_little(
    w: u64,
    x_disabled: u64,
    x_inherit: u64,
    x_pinned: u64,
    x_exclusive: u64,
    x_exclude_user: u64,
    x_exclude_kernel: u64,
    x_exclude_hv: u64,
    x_exclude_idle: u64,
    x_mmap: u64,
    x_comm: u64,
    x_freq: u64,
    x_inherit_stat: u64,
    x_enable_on_exec: u64,
    x_task: u64,
    x_watermark: u64,
    x_precise_ip: u64,
    x_mmap_data: u64,
    x_sample_id_all: u64,
    x_exclude_host: u64,
    x_exclude_guest: u64,
    x_exclude_callchain_kernel: u64,
    x_exclude_callchain_user: u64,
    x_mmap2: u64,
    x_comm_exec: u64,
    x_use_clockid: u64,
    x_context_switch: u64,
    x_write_backward: u64,
    x_namespaces: u64,
)
    by (bit_vector)
    requires
        x_disabled <= 1,
        x_inherit <= 1,
        x_pinned <= 1,
        x_exclusive <= 1,
        x_exclude_user <= 1,
        x_exclude_kernel <= 1,
        x_exclude_hv <= 1,
        x_exclude_idle <= 1,
        x_mmap <= 1,
        x_comm <= 1,
        x_freq <= 1,
        x_inherit_stat <= 1,
        x_enable_on_exec <= 1,
        x_task <= 1,
        x_watermark <= 1,
        x_precise_ip <= 3,
        x_mmap_data <= 1,
        x_sample_id_all <= 1,
        x_exclude_host <= 1,
        x_exclude_guest <= 1,
        x_exclude_callchain_kernel <= 1,
        x_exclude_callchain_user <= 1,
        x_mmap2 <= 1,
        x_comm_exec <= 1,
        x_use_clockid <= 1,
        x_context_switch <= 1,
        x_write_backward <= 1,
        x_namespaces <= 1,
        w == ((x_disabled << 0u64)
            | (x_inherit << 1u64)
            | (x_pinned << 2u64)
            | (x_exclusive << 3u64)
            | (x_exclude_user << 4u64)
            | (x_exclude_kernel << 5u64)
            | (x_exclude_hv << 6u64)
            | (x_exclude_idle << 7u64))
            | ((x_mmap << 8u64)
            | (x_comm << 9u64)
            | (x_freq << 10u64)
            | (x_inherit_stat << 11u64)
            | (x_enable_on_exec << 12u64)
            | (x_task << 13u64)
            | (x_watermark << 14u64))
            | ((x_precise_ip << 15u64)
            | (x_mmap_data << 17u64)
            | (x_sample_id_all << 18u64)
            | (x_exclude_host << 19u64)
            | (x_exclude_guest << 20u64)
            | (x_exclude_callchain_kernel << 21u64)
            | (x_exclude_callchain_user << 22u64))
            | ((x_mmap2 << 23u64)
            | (x_comm_exec << 24u64)
            | (x_use_clockid << 25u64)
            | (x_context_switch << 26u64)
            | (x_write_backward << 27u64)
            | (x_namespaces << 28u64)),
    ensures
        ((w >> 0u64) & 1 == 1) == (x_disabled == 1),
        ((w >> 1u64) & 1 == 1) == (x_inherit == 1),
        ((w >> 2u64) & 1 == 1) == (x_pinned == 1),
        ((w >> 3u64) & 1 == 1) == (x_exclusive == 1),
        ((w >> 4u64) & 1 == 1) == (x_exclude_user == 1),
        ((w >> 5u64) & 1 == 1) == (x_exclude_kernel == 1),
        ((w >> 6u64) & 1 == 1) == (x_exclude_hv == 1),
        ((w >> 7u64) & 1 == 1) == (x_exclude_idle == 1),
        ((w >> 8u64) & 1 == 1) == (x_mmap == 1),
        ((w >> 9u64) & 1 == 1) == (x_comm == 1),
        ((w >> 10u64) & 1 == 1) == (x_freq == 1),
        ((w >> 11u64) & 1 == 1) == (x_inherit_stat == 1),
        ((w >> 12u64) & 1 == 1) == (x_enable_on_exec == 1),
        ((w >> 13u64) & 1 == 1) == (x_task == 1),
        ((w >> 14u64) & 1 == 1) == (x_watermark == 1),
        (w >> 15u64) & 3 == x_precise_ip,
        ((w >> 17u64) & 1 == 1) == (x_mmap_data == 1),
        ((w >> 18u64) & 1 == 1) == (x_sample_id_all == 1),
        ((w >> 19u64) & 1 == 1) == (x_exclude_host == 1),
        ((w >> 20u64) & 1 == 1) == (x_exclude_guest == 1),
        ((w >> 21u64) & 1 == 1) == (x_exclude_callchain_kernel == 1),
        ((w >> 22u64) & 1 == 1) == (x_exclude_callchain_user == 1),
        ((w >> 23u64) & 1 == 1) == (x_mmap2 == 1),
        ((w >> 24u64) & 1 == 1) == (x_comm_exec == 1),
        ((w >> 25u64) & 1 == 1) == (x_use_clockid == 1),
        ((w >> 26u64) & 1 == 1) == (x_context_switch == 1),
        ((w >> 27u64) & 1 == 1) == (x_write_backward == 1),
        ((w >> 28u64) & 1 == 1) == (x_namespaces == 1),
{
}

proof fn lemma_word_fields_big(
    w: u64,
    x_disabled: u64,
    x_inherit: u64,
    x_pinned: u64,
    x_exclusive: u64,
    x_exclude_user: u64,
    x_exclude_kernel: u64,
    x_exclude_hv: u64,
    x_exclude_idle: u64,
    x_mmap: u64,
    x_comm: u64,
    x_freq: u64,
    x_inherit_stat: u64,
    x_enable_on_exec: u64,
    x_task: u64,
    x_watermark: u64,
    x_precise_ip: u64,
    x_mmap_data: u64,
    x_sample_id_all: u64,
    x_exclude_host: u64,
    x_exclude_guest: u64,
    x_exclude_callchain_kernel: u64,
    x_exclude_callchain_user: u64,
    x_mmap2: u64,
    x_comm_exec: u64,
    x_use_clockid: u64,
    x_context_switch: u64,
    x_write_backward: u64,
    x_namespaces: u64,
)
    by (bit_vector)
    requires
        x_disabled <= 1,
        x_inherit <= 1,
        x_pinned <= 1,
        x_exclusive <= 1,
        x_exclude_user <= 1,
        x_exclude_kernel <= 1,
        x_exclude_hv <= 1,
        x_exclude_idle <= 1,
        x_mmap <= 1,
        x_comm <= 1,
        x_freq <= 1,
        x_inherit_stat <= 1,
        x_enable_on_exec <= 1,
        x_task <= 1,
        x_watermark <= 1,
        x_precise_ip <= 3,
        x_mmap_data <= 1,
        x_sample_id_all <= 1,
        x_exclude_host <= 1,
        x_exclude_guest <= 1,
        x_exclude_callchain_kernel <= 1,
        x_exclude_callchain_user <= 1,
        x_mmap2 <= 1,
        x_comm_exec <= 1,
        x_use_clockid <= 1,
        x_context_switch <= 1,
        x_write_backward <= 1,
        x_namespaces <= 1,
        w == ((x_disabled << 63u64)
            | (x_inherit << 62u64)
            | (x_pinned << 61u64)
            | (x_exclusive << 60u64)
            | (x_exclude_user << 59u64)
            | (x_exclude_kernel << 58u64)
            | (x_exclude_hv << 57u64)
            | (x_exclude_idle << 56u64))
            | ((x_mmap << 55u64)
            | (x_comm << 54u64)
            | (x_freq << 53u64)
            | (x_inherit_stat << 52u64)
            | (x_enable_on_exec << 51u64)
            | (x_task << 50u64)
            | (x_watermark << 49u64))
            | ((x_precise_ip << 47u64)
            | (x_mmap_data << 46u64)
            | (x_sample_id_all << 45u64)
            | (x_exclude_host << 44u64)
            | (x_exclude_guest << 43u64)
            | (x_exclude_callchain_kernel << 42u64)
            | (x_exclude_callchain_user << 41u64))
            | ((x_mmap2 << 40u64)
            | (x_comm_exec << 39u64)
            | (x_use_clockid << 38u64)
            | (x_context_switch << 37u64)
            | (x_write_backward << 36u64)
            | (x_namespaces << 35u64)),
    ensures
        ((w >> 63u64) & 1 == 1) == (x_disabled == 1),
        ((w >> 62u64) & 1 == 1) == (x_inherit == 1),
        ((w >> 61u64) & 1 == 1) == (x_pinned == 1),
        ((w >> 60u64) & 1 == 1) == (x_exclusive == 1),
        ((w >> 59u64) & 1 == 1) == (x_exclude_user == 1),
        ((w >> 58u64) & 1 == 1) == (x_exclude_kernel == 1),
        ((w >> 57u64) & 1 == 1) == (x_exclude_hv == 1),
        ((w >> 56u64) & 1 == 1) == (x_exclude_idle == 1),
        ((w >> 55u64) & 1 == 1) == (x_mmap == 1),
        ((w >> 54u64) & 1 == 1) == (x_comm == 1),
        ((w >> 53u64) & 1 == 1) == (x_freq == 1),
        ((w >> 52u64) & 1 == 1) == (x_inherit_stat == 1),
        ((w >> 51u64) & 1 == 1) == (x_enable_on_exec == 1),
        ((w >> 50u64) & 1 == 1) == (x_task == 1),
        ((w >> 49u64) & 1 == 1) == (x_watermark == 1),
        (w >> 47u64) & 3 == x_precise_ip,
        ((w >> 46u64) & 1 == 1) == (x_mmap_data == 1),
        ((w >> 45u64) & 1 == 1) == (x_sample_id_all == 1),
        ((w >> 44u64) & 1 == 1) == (x_exclude_host == 1),
        ((w >> 43u64) & 1 == 1) == (x_exclude_guest == 1),
        ((w >> 42u64) & 1 == 1) == (x_exclude_callchain_kernel == 1),
        ((w >> 41u64) & 1 == 1) == (x_exclude_callchain_user == 1),
        ((w >> 40u64) & 1 == 1) == (x_mmap2 == 1),
        ((w >> 39u64) & 1 == 1) == (x_comm_exec == 1),
        ((w >> 38u64) & 1 == 1) == (x_use_clockid == 1),
        ((w >> 37u64) & 1 == 1) == (x_context_switch == 1),
        ((w >> 36u64) & 1 == 1) == (x_write_backward == 1),
        ((w >> 35u64) & 1 == 1) == (x_namespaces == 1),
{
}

/// Reading back a packed flag word gives the flags that were packed.
pub proof fn lemma_flags_round_trip(order: ByteOrder, f: AttrFlags)
    requires
        f.wf(),
    ensures
        flags_of_word(order, flags_word(order, f)) == f,
{
    let w = flags_word(order, f);
    match order {
        ByteOrder::Little => {
            lemma_word_fields_little(w, flag_value(f.disabled), flag_value(f.inherit), flag_value(f.pinned), flag_value(f.exclusive), flag_value(f.exclude_user), flag_value(f.exclude_kernel), flag_value(f.exclude_hv), flag_value(f.exclude_idle), flag_value(f.mmap), flag_value(f.comm), flag_value(f.freq), flag_value(f.inherit_stat), flag_value(f.enable_on_exec), flag_value(f.task), flag_value(f.watermark), (f.precise_ip as u64), flag_value(f.mmap_data), flag_value(f.sample_id_all), flag_value(f.exclude_host), flag_value(f.exclude_guest), flag_value(f.exclude_callchain_kernel), flag_value(f.exclude_callchain_user), flag_value(f.mmap2), flag_value(f.comm_exec), flag_value(f.use_clockid), flag_value(f.context_switch), flag_value(f.write_backward), flag_value(f.namespaces));
        },
        ByteOrder::Big => {
            lemma_word_fields_big(w, flag_value(f.disabled), flag_value(f.inherit), flag_value(f.pinned), flag_value(f.exclusive), flag_value(f.exclude_user), flag_value(f.exclude_kernel), flag_value(f.exclude_hv), flag_value(f.exclude_idle), flag_value(f.mmap), flag_value(f.comm), flag_value(f.freq), flag_value(f.inherit_stat), flag_value(f.enable_on_exec), flag_value(f.task), flag_value(f.watermark), (f.precise_ip as u64), flag_value(f.mmap_data), flag_value(f.sample_id_all), flag_value(f.exclude_host), flag_value(f.exclude_guest), flag_value(f.exclude_callchain_kernel), flag_value(f.exclude_callchain_user), flag_value(f.mmap2), flag_value(f.comm_exec), flag_value(f.use_clockid), flag_value(f.context_switch), flag_value(f.write_backward), flag_value(f.namespaces));
        },
    }
}

/// The attribute block of one event.
#[derive(Clone, Copy, Debug, PartialEq, Eq, Structural)]
pub struct PerfEventAttr {
    /// The major type of the event.
    pub type_: u32,
    /// The size of the block in bytes, by which the kernel tells its version.
    pub size: u32,
    /// The event within its type.
    pub config: u64,
    /// The sampling period, or the frequency where `flags.freq` is set.
    pub sample_period_or_freq: u64,
    /// The values that each sample holds, one bit for each.
    pub sample_type: u64,
    /// The layout of what a read of the counter returns.
    pub read_format: u64,
    /// The packed flags.
    pub flags: AttrFlags,
    /// The wakeup threshold in samples, or in bytes where `flags.watermark` is set.
    pub wakeup_events_or_watermark: u32,
    /// The kind of breakpoint.
    pub bp_type: u32,
    /// The breakpoint address, or an extension of `config`.
    pub bp_addr_or_config1: u64,
    /// The breakpoint length, or a further extension of `config`.
    pub bp_len_or_config2: u64,
    /// The branches that a branch stack holds.
    pub branch_sample_type: u64,
    /// The user registers to dump on a sample, one bit for each.
    pub sample_regs_user: u64,
    /// The size of the user stack to dump on a sample.
    pub sample_stack_user: u32,
    /// The clock that timestamps come from, where `flags.use_clockid` is set.
    pub clockid: i32,
    /// The registers to dump at the interrupt, one bit for each.
    pub sample_regs_intr: u64,
    /// How much AUX data triggers a record.
    pub aux_watermark: u32,
    /// The deepest call chain to record.
    pub sample_max_stack: u16,
    /// Reserved, zero.
    pub reserved_2: u16,
}

/// The bytes of the event and what it samples.
pub open spec fn event_bytes(order: ByteOrder, a: PerfEventAttr) -> Seq<u8> {
    u32_bytes(order, a.type_)
        + u32_bytes(order, a.size)
        + u64_bytes(order, a.config)
        + u64_bytes(order, a.sample_period_or_freq)
        + u64_bytes(order, a.sample_type)
        + u64_bytes(order, a.read_format)
        + u64_bytes(order, flags_word(order, a.flags))
}

/// The bytes of the wakeup threshold, the breakpoint and the branch filter.
pub open spec fn wakeup_bytes(order: ByteOrder, a: PerfEventAttr) -> Seq<u8> {
    u32_bytes(order, a.wakeup_events_or_watermark)
        + u32_bytes(order, a.bp_type)
        + u64_bytes(order, a.bp_addr_or_config1)
        + u64_bytes(order, a.bp_len_or_config2)
        + u64_bytes(order, a.branch_sample_type)
}

/// The bytes of the register and stack dumps, the clock and the AUX area.
pub open spec fn dump_bytes(order: ByteOrder, a: PerfEventAttr) -> Seq<u8> {
    u64_bytes(order, a.sample_regs_user)
        + u32_bytes(order, a.sample_stack_user)
        + u32_bytes(order, a.clockid as u32)
        + u64_bytes(order, a.sample_regs_intr)
        + u32_bytes(order, a.aux_watermark)
        + u16_bytes(order, a.sample_max_stack)
        + u16_bytes(order, a.reserved_2)
}

/// The bytes of the attribute block as the kernel reads them: the fields in
/// their order, without padding.
pub open spec fn attr_bytes(order: ByteOrder, a: PerfEventAttr) -> Seq<u8> {
    event_bytes(order, a) + wakeup_bytes(order, a) + dump_bytes(order, a)
}

/// The attribute block that the first 112 bytes of `s` hold.
pub open spec fn attr_of_bytes(order: ByteOrder, s: Seq<u8>) -> PerfEventAttr {
    PerfEventAttr {
        type_: spec_u32(order, s.skip(0)),
        size: spec_u32(order, s.skip(4)),
        config: spec_u64(order, s.skip(8)),
        sample_period_or_freq: spec_u64(order, s.skip(16)),
        sample_type: spec_u64(order, s.skip(24)),
        read_format: spec_u64(order, s.skip(32)),
        flags: flags_of_word(order, spec_u64(order, s.skip(40))),
        wakeup_events_or_watermark: spec_u32(order, s.skip(48)),
        bp_type: spec_u32(order, s.skip(52)),
        bp_addr_or_config1: spec_u64(order, s.skip(56)),
        bp_len_or_config2: spec_u64(order, s.skip(64)),
        branch_sample_type: spec_u64(order, s.skip(72)),
        sample_regs_user: spec_u64(order, s.skip(80)),
        sample_stack_user: spec_u32(order, s.skip(88)),
        clockid: spec_u32(order, s.skip(92)) as i32,
        sample_regs_intr: spec_u64(order, s.skip(96)),
        aux_watermark: spec_u32(order, s.skip(104)),
        sample_max_stack: spec_u16(order, s.skip(108)),
        reserved_2: spec_u16(order, s.skip(110)),
    }
}

/// The block with every field zero and no flag set.
pub open spec fn zeroed_attr() -> PerfEventAttr {
    PerfEventAttr {
        type_: 0,
        size: 0,
        config: 0,
        sample_period_or_freq: 0,
        sample_type: 0,
        read_format: 0,
        flags: no_flags(),
        wakeup_events_or_watermark: 0,
        bp_type: 0,
        bp_addr_or_config1: 0,
        bp_len_or_config2: 0,
        branch_sample_type: 0,
        sample_regs_user: 0,
        sample_stack_user: 0,
        clockid: 0,
        sample_regs_intr: 0,
        aux_watermark: 0,
        sample_max_stack: 0,
        reserved_2: 0,
    }
}

impl PerfEventAttr {
    /// Whether the block can be written.
    pub open spec fn wf(self) -> bool {
        self.flags.wf()
    }

    /// The block with every field zero, as the kernel's examples start out.
    pub fn zeroed() -> (a: PerfEventAttr)
        ensures
            a == zeroed_attr(),
    {
        PerfEventAttr {
            type_: 0,
            size: 0,
            config: 0,
            sample_period_or_freq: 0,
            sample_type: 0,
            read_format: 0,
            flags: AttrFlags::none(),
            wakeup_events_or_watermark: 0,
            bp_type: 0,
            bp_addr_or_config1: 0,
            bp_len_or_config2: 0,
            branch_sample_type: 0,
            sample_regs_user: 0,
            sample_stack_user: 0,
            clockid: 0,
            sample_regs_intr: 0,
            aux_watermark: 0,
            sample_max_stack: 0,
            reserved_2: 0,
        }
    }

    fn event_part(&self, order: ByteOrder) -> (out: Vec<u8>)
        ensures
            out@ == event_bytes(order, *self),
    {
        let mut out: Vec<u8> = Vec::new();
        push_u32(order, &mut out, self.type_);
        assert(out@ =~= u32_bytes(order, self.type_));
        push_u32(order, &mut out, self.size);
        push_u64(order, &mut out, self.config);
        push_u64(order, &mut out, self.sample_period_or_freq);
        push_u64(order, &mut out, self.sample_type);
        push_u64(order, &mut out, self.read_format);
        push_u64(order, &mut out, self.flags.word(order));
        out
    }

    fn wakeup_part(&self, order: ByteOrder) -> (out: Vec<u8>)
        ensures
            out@ == wakeup_bytes(order, *self),
    {
        let mut out: Vec<u8> = Vec::new();
        push_u32(order, &mut out, self.wakeup_events_or_watermark);
        assert(out@ =~= u32_bytes(order, self.wakeup_events_or_watermark));
        push_u32(order, &mut out, self.bp_type);
        push_u64(order, &mut out, self.bp_addr_or_config1);
        push_u64(order, &mut out, self.bp_len_or_config2);
        push_u64(order, &mut out, self.branch_sample_type);
        out
    }

    fn dump_part(&self, order: ByteOrder) -> (out: Vec<u8>)
        ensures
            out@ == dump_bytes(order, *self),
    {
        let mut out: Vec<u8> = Vec::new();
        push_u64(order, &mut out, self.sample_regs_user);
        assert(out@ =~= u64_bytes(order, self.sample_regs_user));
        push_u32(order, &mut out, self.sample_stack_user);
        push_u32(order, &mut out, #[verifier::truncate] (self.clockid as u32));
        push_u64(order, &mut out, self.sample_regs_intr);
        push_u32(order, &mut out, self.aux_watermark);
        push_u16(order, &mut out, self.sample_max_stack);
        push_u16(order, &mut out, self.reserved_2);
        out
    }

    /// Writes the block as the bytes that `perf_event_open` takes.
    pub fn to_bytes(&self, order: ByteOrder) -> (out: Vec<u8>)
        ensures
            out@ == attr_bytes(order, *self),
            out@.len() == 112,
    {
        let mut out = self.event_part(order);
        let mut wakeup = self.wakeup_part(order);
        let mut dump = self.dump_part(order);
        out.append(&mut wakeup);
        out.append(&mut dump);
        proof {
            lemma_attr_bytes_len(order, *self);
        }
        out
    }

    /// Reads a block back from its bytes.  `None` where `bytes` is not 112
    /// bytes long.
    pub fn from_bytes(order: ByteOrder, bytes: &[u8]) -> (a: Option<PerfEventAttr>)
        ensures
            a == (if bytes@.len() == 112 {
                Some(attr_of_bytes(order, bytes@))
            } else {
                None
            }),
            a is Some ==> a->0.wf(),
    {
        if bytes.len() != 112 {
            return None;
        }
        Some(
            PerfEventAttr {
                type_: u32_at(order, bytes, 0),
                size: u32_at(order, bytes, 4),
                config: u64_at(order, bytes, 8),
                sample_period_or_freq: u64_at(order, bytes, 16),
                sample_type: u64_at(order, bytes, 24),
                read_format: u64_at(order, bytes, 32),
                flags: AttrFlags::from_word(order, u64_at(order, bytes, 40)),
                wakeup_events_or_watermark: u32_at(order, bytes, 48),
                bp_type: u32_at(order, bytes, 52),
                bp_addr_or_config1: u64_at(order, bytes, 56),
                bp_len_or_config2: u64_at(order, bytes, 64),
                branch_sample_type: u64_at(order, bytes, 72),
                sample_regs_user: u64_at(order, bytes, 80),
                sample_stack_user: u32_at(order, bytes, 88),
                clockid: #[verifier::truncate] (u32_at(order, bytes, 92) as i32),
                sample_regs_intr: u64_at(order, bytes, 96),
                aux_watermark: u32_at(order, bytes, 104),
                sample_max_stack: u16_at(order, bytes, 108),
                reserved_2: u16_at(order, bytes, 110),
            },
        )
    }
}

/// Reading the bytes of the event and what it samples gives back each field, whatever follows them.
proof fn lemma_event_round_trip(order: ByteOrder, a: PerfEventAttr, rest: Seq<u8>)
    ensures
        event_bytes(order, a).len() == 48,
        spec_u32(order, (event_bytes(order, a) + rest).skip(0)) == a.type_,
        spec_u32(order, (event_bytes(order, a) + rest).skip(4)) == a.size,
        spec_u64(order, (event_bytes(order, a) + rest).skip(8)) == a.config,
        spec_u64(order, (event_bytes(order, a) + rest).skip(16)) == a.sample_period_or_freq,
        spec_u64(order, (event_bytes(order, a) + rest).skip(24)) == a.sample_type,
        spec_u64(order, (event_bytes(order, a) + rest).skip(32)) == a.read_format,
        a.wf() ==> flags_of_word(order, spec_u64(order, (event_bytes(order, a) + rest).skip(40))) == a.flags,
        (event_bytes(order, a) + rest).skip(48) == rest,
{
    let s = event_bytes(order, a) + rest;
    let r_flags = u64_bytes(order, flags_word(order, a.flags)) + rest;
    let r_read_format = u64_bytes(order, a.read_format) + r_flags;
    let r_sample_type = u64_bytes(order, a.sample_type) + r_read_format;
    let r_sample_period_or_freq = u64_bytes(order, a.sample_period_or_freq) + r_sample_type;
    let r_config = u64_bytes(order, a.config) + r_sample_period_or_freq;
    let r_size = u32_bytes(order, a.size) + r_config;
    let r_type_ = u32_bytes(order, a.type_) + r_size;
    assert(s =~= r_type_);
    lemma_u32_round_trip(order, a.type_, r_size);
    assert(s.skip(0) =~= r_type_);
    assert(s.skip(4) =~= r_size);
    lemma_u32_round_trip(order, a.size, r_config);
    assert(s.skip(4) =~= r_size);
    assert(s.skip(8) =~= r_config);
    lemma_u64_round_trip(order, a.config, r_sample_period_or_freq);
    assert(s.skip(8) =~= r_config);
    assert(s.skip(16) =~= r_sample_period_or_freq);
    lemma_u64_round_trip(order, a.sample_period_or_freq, r_sample_type);
    assert(s.skip(16) =~= r_sample_period_or_freq);
    assert(s.skip(24) =~= r_sample_type);
    lemma_u64_round_trip(order, a.sample_type, r_read_format);
    assert(s.skip(24) =~= r_sample_type);
    assert(s.skip(32) =~= r_read_format);
    lemma_u64_round_trip(order, a.read_format, r_flags);
    assert(s.skip(32) =~= r_read_format);
    assert(s.skip(40) =~= r_flags);
    lemma_u64_round_trip(order, flags_word(order, a.flags), rest);
    if a.wf() {
        lemma_flags_round_trip(order, a.flags);
    }
    assert(s.skip(40) =~= r_flags);
    assert(s.skip(48) =~= rest);
}

/// Reading the bytes of the wakeup threshold, the breakpoint and the branch filter gives back each field, whatever follows them.
proof fn lemma_wakeup_round_trip(order: ByteOrder, a: PerfEventAttr, rest: Seq<u8>)
    ensures
        wakeup_bytes(order, a).len() == 32,
        spec_u32(order, (wakeup_bytes(order, a) + rest).skip(0)) == a.wakeup_events_or_watermark,
        spec_u32(order, (wakeup_bytes(order, a) + rest).skip(4)) == a.bp_type,
        spec_u64(order, (wakeup_bytes(order, a) + rest).skip(8)) == a.bp_addr_or_config1,
        spec_u64(order, (wakeup_bytes(order, a) + rest).skip(16)) == a.bp_len_or_config2,
        spec_u64(order, (wakeup_bytes(order, a) + rest).skip(24)) == a.branch_sample_type,
        (wakeup_bytes(order, a) + rest).skip(32) == rest,
{
    let s = wakeup_bytes(order, a) + rest;
    let r_branch_sample_type = u64_bytes(order, a.branch_sample_type) + rest;
    let r_bp_len_or_config2 = u64_bytes(order, a.bp_len_or_config2) + r_branch_sample_type;
    let r_bp_addr_or_config1 = u64_bytes(order, a.bp_addr_or_config1) + r_bp_len_or_config2;
    let r_bp_type = u32_bytes(order, a.bp_type) + r_bp_addr_or_config1;
    let r_wakeup_events_or_watermark = u32_bytes(order, a.wakeup_events_or_watermark) + r_bp_type;
    assert(s =~= r_wakeup_events_or_watermark);
    lemma_u32_round_trip(order, a.wakeup_events_or_watermark, r_bp_type);
    assert(s.skip(0) =~= r_wakeup_events_or_watermark);
    assert(s.skip(4) =~= r_bp_type);
    lemma_u32_round_trip(order, a.bp_type, r_bp_addr_or_config1);
    assert(s.skip(4) =~= r_bp_type);
    assert(s.skip(8) =~= r_bp_addr_or_config1);
    lemma_u64_round_trip(order, a.bp_addr_or_config1, r_bp_len_or_config2);
    assert(s.skip(8) =~= r_bp_addr_or_config1);
    assert(s.skip(16) =~= r_bp_len_or_config2);
    lemma_u64_round_trip(order, a.bp_len_or_config2, r_branch_sample_type);
    assert(s.skip(16) =~= r_bp_len_or_config2);
    assert(s.skip(24) =~= r_branch_sample_type);
    lemma_u64_round_trip(order, a.branch_sample_type, rest);
    assert(s.skip(24) =~= r_branch_sample_type);
    assert(s.skip(32) =~= rest);
}

/// Reading the bytes of the register and stack dumps, the clock and the AUX area gives back each field, whatever follows them.
proof fn lemma_dump_round_trip(order: ByteOrder, a: PerfEventAttr, rest: Seq<u8>)
    ensures
        dump_bytes(order, a).len() == 32,
        spec_u64(order, (dump_bytes(order, a) + rest).skip(0)) == a.sample_regs_user,
        spec_u32(order, (dump_bytes(order, a) + rest).skip(8)) == a.sample_stack_user,
        spec_u32(order, (dump_bytes(order, a) + rest).skip(12)) as i32 == a.clockid,
        spec_u64(order, (dump_bytes(order, a) + rest).skip(16)) == a.sample_regs_intr,
        spec_u32(order, (dump_bytes(order, a) + rest).skip(24)) == a.aux_watermark,
        spec_u16(order, (dump_bytes(order, a) + rest).skip(28)) == a.sample_max_stack,
        spec_u16(order, (dump_bytes(order, a) + rest).skip(30)) == a.reserved_2,
        (dump_bytes(order, a) + rest).skip(32) == rest,
{
    let s = dump_bytes(order, a) + rest;
    let r_reserved_2 = u16_bytes(order, a.reserved_2) + rest;
    let r_sample_max_stack = u16_bytes(order, a.sample_max_stack) + r_reserved_2;
    let r_aux_watermark = u32_bytes(order, a.aux_watermark) + r_sample_max_stack;
    let r_sample_regs_intr = u64_bytes(order, a.sample_regs_intr) + r_aux_watermark;
    let r_clockid = u32_bytes(order, a.clockid as u32) + r_sample_regs_intr;
    let r_sample_stack_user = u32_bytes(order, a.sample_stack_user) + r_clockid;
    let r_sample_regs_user = u64_bytes(order, a.sample_regs_user) + r_sample_stack_user;
    assert(s =~= r_sample_regs_user);
    lemma_u64_round_trip(order, a.sample_regs_user, r_sample_stack_user);
    assert(s.skip(0) =~= r_sample_regs_user);
    assert(s.skip(8) =~= r_sample_stack_user);
    lemma_u32_round_trip(order, a.sample_stack_user, r_clockid);
    assert(s.skip(8) =~= r_sample_stack_user);
    assert(s.skip(12) =~= r_clockid);
    lemma_u32_round_trip(order, a.clockid as u32, r_sample_regs_intr);
    let c = a.clockid;
    assert((c as u32) as i32 == c) by (bit_vector);
    assert(s.skip(12) =~= r_clockid);
    assert(s.skip(16) =~= r_sample_regs_intr);
    lemma_u64_round_trip(order, a.sample_regs_intr, r_aux_watermark);
    assert(s.skip(16) =~= r_sample_regs_intr);
    assert(s.skip(24) =~= r_aux_watermark);
    lemma_u32_round_trip(order, a.aux_watermark, r_sample_max_stack);
    assert(s.skip(24) =~= r_aux_watermark);
    assert(s.skip(28) =~= r_sample_max_stack);
    lemma_u16_round_trip(order, a.sample_max_stack, r_reserved_2);
    assert(s.skip(28) =~= r_sample_max_stack);
    assert(s.skip(30) =~= r_reserved_2);
    lemma_u16_round_trip(order, a.reserved_2, rest);
    assert(s.skip(30) =~= r_reserved_2);
    assert(s.skip(32) =~= rest);
}

/// The attribute block is 112 bytes long.
pub proof fn lemma_attr_bytes_len(order: ByteOrder, a: PerfEventAttr)
    ensures
        attr_bytes(order, a).len() == 112,
{
    let none = Seq::<u8>::empty();
    lemma_event_round_trip(order, a, none);
    lemma_wakeup_round_trip(order, a, none);
    lemma_dump_round_trip(order, a, none);
}

/// Writing an attribute block and reading the bytes back gives the block
/// that was written.
pub proof fn lemma_attr_round_trip(order: ByteOrder, a: PerfEventAttr)
    requires
        a.wf(),
    ensures
        attr_bytes(order, a).len() == 112,
        attr_of_bytes(order, attr_bytes(order, a)) == a,
{
    let s = attr_bytes(order, a);
    let e = event_bytes(order, a);
    let w = wakeup_bytes(order, a);
    let d = dump_bytes(order, a);
    let none = Seq::<u8>::empty();
    lemma_event_round_trip(order, a, w + d);
    lemma_wakeup_round_trip(order, a, d);
    lemma_dump_round_trip(order, a, none);
    assert(s =~= e + (w + d));
    assert(d + none =~= d);
    assert(s.skip(48) =~= (w + d).skip(0));
    assert(s.skip(52) =~= (w + d).skip(4));
    assert(s.skip(56) =~= (w + d).skip(8));
    assert(s.skip(64) =~= (w + d).skip(16));
    assert(s.skip(72) =~= (w + d).skip(24));
    assert(s.skip(80) =~= d.skip(0));
    assert(s.skip(88) =~= d.skip(8));
    assert(s.skip(92) =~= d.skip(12));
    assert(s.skip(96) =~= d.skip(16));
    assert(s.skip(104) =~= d.skip(24));
    assert(s.skip(108) =~= d.skip(28));
    assert(s.skip(110) =~= d.skip(30));
}

} // verus!
