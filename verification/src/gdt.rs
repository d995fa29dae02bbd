//! The segment descriptor table and the task-state segment.
//!
//! The descriptor table is a relic of segmentation; the kernel needs it for
//! two descriptors only: a 64-bit kernel code segment, and the task-state
//! segment whose interrupt-stack table provides the guaranteed-valid backup
//! stack that the double-fault vector switches to.  The module builds the
//! descriptors as the architecture lays them out, bit for bit; the caller
//! loads the finished table into the CPU.

use vstd::prelude::*;

use crate::kernel::{step_allowed, step_apply, BootState, BootStep};

verus! {

/// Interrupt-stack-table slot reserved for the double-fault handler.
pub const DOUBLE_FAULT_IST_INDEX: u16 = 0;

/// Size in bytes of the statically reserved backup stack.  The region has no
/// guard page, so handlers running on it must not recurse deeply.
pub const STACK_SIZE: usize = 4096 * 5;

/// Size in bytes of the task-state segment as the CPU lays it out.
pub const TSS_SIZE: u64 = 104;

/// Limit field of the task-state segment descriptor: one less than the size.
pub const TSS_LIMIT: u64 = TSS_SIZE - 1;

/// Descriptor flag: the segment was accessed.  The CPU would otherwise set
/// this bit itself on first use.
pub const DESC_ACCESSED: u64 = 1u64 << 40;

/// Descriptor flag: the segment is writable (for data) or readable (for code).
pub const DESC_WRITABLE: u64 = 1u64 << 41;

/// Descriptor flag: the segment holds executable code.
pub const DESC_EXECUTABLE: u64 = 1u64 << 43;

/// Descriptor flag: an ordinary code or data segment, not a system segment.
pub const DESC_USER_SEGMENT: u64 = 1u64 << 44;

/// Descriptor flag: the descriptor is valid for use.
pub const DESC_PRESENT: u64 = 1u64 << 47;

/// Descriptor flag: a 64-bit code segment.
pub const DESC_LONG_MODE: u64 = 1u64 << 53;

/// Descriptor flag: the limit is counted in 4 KiB pages.
pub const DESC_GRANULARITY: u64 = 1u64 << 55;

/// Descriptor limit field, bits 0 to 15.
pub const DESC_LIMIT_0_15: u64 = 0xFFFF;

/// Descriptor limit field, bits 16 to 19.
pub const DESC_LIMIT_16_19: u64 = 0xFu64 << 48;

/// System-segment type: an available 64-bit task-state segment.
pub const DESC_TYPE_TSS_AVAILABLE: u64 = 0x9u64 << 40;

/// The complete 64-bit kernel code segment descriptor.  In long mode base
/// and limit are ignored for code, but the limit fields are set for
/// compatibility with CPUs that check them.
pub const KERNEL_CODE64: u64 = DESC_ACCESSED | DESC_WRITABLE | DESC_EXECUTABLE
    | DESC_USER_SEGMENT | DESC_PRESENT | DESC_LONG_MODE | DESC_GRANULARITY | DESC_LIMIT_0_15
    | DESC_LIMIT_16_19;

/// The kernel code descriptor equals the architecture's well-known constant.
pub proof fn kernel_code64_value()
    by (bit_vector)
    ensures
        KERNEL_CODE64 == 0x00af9b000000ffffu64,
{
}

/// The CPU-defined record holding alternate stack pointers for fault
/// handling.  Only the fields the kernel programs are modeled; addresses are
/// plain integers because a model value has no machine address.
#[derive(Debug, Clone, Copy, PartialEq, Eq)]
pub struct TaskStateSegment {
    /// Stack tops used when a handler lowers the privilege level.
    pub privilege_stack_table: [u64; 3],
    /// Stack tops that a vector can be configured to switch to on entry.
    pub interrupt_stack_table: [u64; 7],
    /// Offset of the I/O permission bitmap; placed at the end of the segment,
    /// meaning there is no bitmap.
    pub iomap_base: u16,
}

/// Builds the task-state segment for a backup stack whose lowest address is
/// `stack_start`.  Slot 0 of the interrupt-stack table receives the address
/// one past the end of the stack region (stacks grow downward); every other
/// slot stays empty.  The caller owns the stack region for the life of the
/// process and must never free or move it.
pub fn build_tss(stack_start: u64) -> (tss: TaskStateSegment)
    requires
        stack_start + STACK_SIZE <= u64::MAX,
    ensures
        tss.interrupt_stack_table[DOUBLE_FAULT_IST_INDEX as int] == stack_start + STACK_SIZE,
        forall|i: int| 0 < i < 7 ==> tss.interrupt_stack_table[i] == 0,
        forall|i: int| 0 <= i < 3 ==> tss.privilege_stack_table[i] == 0,
        tss.iomap_base == TSS_SIZE,
{
    let stack_end: u64 = stack_start + STACK_SIZE as u64;
    TaskStateSegment {
        privilege_stack_table: [0, 0, 0],
        interrupt_stack_table: [stack_end, 0, 0, 0, 0, 0, 0],
        iomap_base: TSS_SIZE as u16,
    }
}

/// An entry of the descriptor table: ordinary descriptors occupy one 64-bit
/// quad, system descriptors (the task-state segment) two.
#[derive(Debug, Clone, Copy, PartialEq, Eq, Structural)]
pub enum Descriptor {
    UserSegment(u64),
    SystemSegment(u64, u64),
}

impl Descriptor {
    /// The 64-bit quads the descriptor occupies in the table, in order.
    pub open spec fn quads(self) -> Seq<u64> {
        match self {
            Descriptor::UserSegment(q) => seq![q],
            Descriptor::SystemSegment(low, high) => seq![low, high],
        }
    }

    /// The kernel code segment descriptor.
    pub fn kernel_code_segment() -> (r: Descriptor)
        ensures
            r == Descriptor::UserSegment(KERNEL_CODE64),
    {
        Descriptor::UserSegment(KERNEL_CODE64)
    }

    /// Low quad of a task-state segment descriptor for a segment based at
    /// `addr`: limit in bits 0 to 15, base bits 0 to 23 in bits 16 to 39,
    /// the type and present flags in bits 40 to 47, base bits 24 to 31 in
    /// bits 56 to 63.
    pub open spec fn spec_tss_low(addr: u64) -> u64 {
        TSS_LIMIT | ((addr & 0xFF_FFFF) << 16) | DESC_TYPE_TSS_AVAILABLE | DESC_PRESENT
            | (((addr >> 24) & 0xFF) << 56)
    }

    /// High quad of a task-state segment descriptor: base bits 32 to 63.
    pub open spec fn spec_tss_high(addr: u64) -> u64 {
        addr >> 32
    }

    /// The descriptor for a task-state segment located at address `addr`.
    /// The segment must outlive the table: the descriptor embeds its
    /// address, and the CPU reads through it on every stack switch.
    pub fn tss_segment(addr: u64) -> (r: Descriptor)
        ensures
            r == Descriptor::SystemSegment(Self::spec_tss_low(addr), Self::spec_tss_high(addr)),
    {
        let low: u64 = TSS_LIMIT | ((addr & 0xFF_FFFF) << 16) | DESC_TYPE_TSS_AVAILABLE
            | DESC_PRESENT | (((addr >> 24) & 0xFF) << 56);
        let high: u64 = addr >> 32;
        Descriptor::SystemSegment(low, high)
    }
}

/// An opaque index-and-flags value naming one table entry; produced only by
/// the table builder and consumed by CPU register loads.
#[derive(Debug, Clone, Copy, PartialEq, Eq, Structural)]
pub struct SegmentSelector(u16);

impl SegmentSelector {
    /// The raw value loaded into a segment register: the entry index in the
    /// upper bits, the requested privilege level (always 0 here: kernel) in
    /// the low two bits.
    pub closed spec fn value(self) -> u16 {
        self.0
    }

    /// The table index the selector names.
    pub open spec fn index(self) -> int {
        self.value() as int / 8
    }

    /// The raw value loaded into a segment register.
    pub fn raw_value(&self) -> (r: u16)
        ensures
            r == self.value(),
    {
        self.0
    }
}

/// The ordered sequence of descriptor entries.  Append-only while the table
/// is built; immutable once loaded into the CPU.  Entry 0 is the null
/// descriptor the architecture demands.
pub struct GlobalDescriptorTable {
    table: Vec<u64>,
}

/// The CPU-defined capacity of the model table, in 64-bit quads.
pub const GDT_CAPACITY: usize = 8;

impl GlobalDescriptorTable {
    /// The table's quads in order.
    pub closed spec fn entries(self) -> Seq<u64> {
        self.table@
    }

    /// Well-formed: starts with the null descriptor and fits the capacity.
    pub open spec fn wf(self) -> bool {
        &&& 1 <= self.entries().len() <= GDT_CAPACITY
        &&& self.entries()[0] == 0
    }

    /// An empty table: just the null descriptor.
    pub fn new() -> (r: GlobalDescriptorTable)
        ensures
            r.entries() =~= seq![0u64],
            r.wf(),
    {
        let mut table: Vec<u64> = Vec::new();
        table.push(0);
        GlobalDescriptorTable { table }
    }

    /// The table's quads in order, for the caller that loads the table into
    /// the CPU.
    pub fn quads(&self) -> (r: &Vec<u64>)
        ensures
            r@ == self.entries(),
    {
        &self.table
    }

    /// Appends a descriptor and returns the selector that names it.  Entries
    /// are appended in exactly the order their selectors are later used:
    /// the index is positional.
    pub fn add_entry(&mut self, entry: Descriptor) -> (sel: SegmentSelector)
        requires
            old(self).wf(),
            old(self).entries().len() + entry.quads().len() <= GDT_CAPACITY,
        ensures
            final(self).wf(),
            final(self).entries() =~= old(self).entries() + entry.quads(),
            sel.value() == old(self).entries().len() * 8,
            sel.index() == old(self).entries().len(),
    {
        let index = self.table.len();
        match entry {
            Descriptor::UserSegment(q) => {
                self.table.push(q);
            },
            Descriptor::SystemSegment(low, high) => {
                self.table.push(low);
                self.table.push(high);
            },
        }
        let idx16: u16 = index as u16;
        assert(idx16 << 3 == idx16 * 8) by (bit_vector)
            requires
                idx16 <= 7,
        ;
        SegmentSelector(idx16 << 3)
    }
}

/// The selectors the boot code loads: the kernel code segment for the code
/// segment register, the task-state segment for the task register.
#[derive(Debug, Clone, Copy, PartialEq, Eq, Structural)]
pub struct Selectors {
    pub code_selector: SegmentSelector,
    pub tss_selector: SegmentSelector,
}

/// Builds the minimal descriptor table: the null entry, the kernel code
/// descriptor, then the task-state segment descriptor for the segment at
/// `tss_addr`.  The selectors come back alongside the table; the code
/// selector names entry 1 and the task-state selector entry 2, in exactly
/// the order the entries were appended.
pub fn build_gdt(tss_addr: u64) -> (r: (GlobalDescriptorTable, Selectors))
    ensures
        r.0.wf(),
        r.0.entries() =~= seq![
            0u64,
            KERNEL_CODE64,
            Descriptor::spec_tss_low(tss_addr),
            Descriptor::spec_tss_high(tss_addr),
        ],
        r.1.code_selector.index() == 1,
        r.1.code_selector.value() == 8,
        r.1.tss_selector.index() == 2,
        r.1.tss_selector.value() == 16,
{
    let mut gdt = GlobalDescriptorTable::new();
    let code_selector = gdt.add_entry(Descriptor::kernel_code_segment());
    let tss_selector = gdt.add_entry(Descriptor::tss_segment(tss_addr));
    (gdt, Selectors { code_selector, tss_selector })
}

/// The segment-table stage of startup: builds the task-state segment for a
/// backup stack at `stack_start` and the descriptor table that references
/// it, and records that the caller loads the table, reloads the code
/// segment register with the new code selector, and loads the task register
/// with the task-state selector.  Must run strictly before the vector table
/// is loaded: the double-fault vector's stack switch reads the loaded
/// task-state segment.
pub fn init(boot: &mut BootState, stack_start: u64, tss_addr: u64) -> (r: (
    TaskStateSegment,
    GlobalDescriptorTable,
    Selectors,
))
    requires
        step_allowed(*old(boot), BootStep::LoadGdt),
        stack_start + STACK_SIZE <= u64::MAX,
    ensures
        *final(boot) == step_apply(*old(boot), BootStep::LoadGdt),
        r.0.interrupt_stack_table[DOUBLE_FAULT_IST_INDEX as int] == stack_start + STACK_SIZE,
        r.1.wf(),
        r.1.entries() =~= seq![
            0u64,
            KERNEL_CODE64,
            Descriptor::spec_tss_low(tss_addr),
            Descriptor::spec_tss_high(tss_addr),
        ],
        r.2.code_selector.index() == 1,
        r.2.tss_selector.index() == 2,
{
    let tss = build_tss(stack_start);
    let (gdt, selectors) = build_gdt(tss_addr);
    boot.gdt_loaded = true;
    (tss, gdt, selectors)
}

} // verus!
