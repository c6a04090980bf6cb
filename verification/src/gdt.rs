//! Descriptor-table setup: the kernel code segment and a Task State Segment
//! whose interrupt stack table reserves one slot for a dedicated fail-safe
//! stack, so the double-fault handler never runs on a suspect stack.

use crate::machine::Machine;
use vstd::prelude::*;

verus! {

/// Interrupt-stack-table slot reserved for the double-fault handler.
pub const DOUBLE_FAULT_IST_INDEX: u16 = 0;

/// Number of slots in the interrupt stack table.
pub const IST_ENTRY_COUNT: usize = 7;

/// Size in bytes of the dedicated double-fault stack (20 KiB), sized to
/// survive one nested fault frame without overflowing.
pub const DOUBLE_FAULT_STACK_SIZE: u64 = 4096 * 5;

/// Capacity of the descriptor table in single slots.
pub const GDT_CAPACITY: usize = 8;

/// A contiguous memory region reserved as a stack. Stacks grow downward,
/// so the address loaded into the stack-pointer register is `end()`.
#[derive(Clone, Copy, PartialEq, Eq, Structural, Debug)]
pub struct StackRegion {
    pub start: u64,
    pub size: u64,
}

impl StackRegion {
    /// A usable stack region: non-empty, and its end address fits in 64 bits.
    pub open spec fn wf(self) -> bool {
        &&& self.size > 0
        &&& self.start + self.size <= u64::MAX
    }

    /// One past the highest address of the region; the initial top of stack.
    pub open spec fn spec_end(self) -> int {
        self.start + self.size
    }

    pub fn end(&self) -> (r: u64)
        requires
            self.wf(),
        ensures
            r == self.spec_end(),
    {
        self.start + self.size
    }

    /// `addr` lies inside the region.
    pub open spec fn contains(self, addr: int) -> bool {
        self.start <= addr < self.spec_end()
    }

    /// `sp` is a stack-pointer value that belongs to this stack: anywhere
    /// from just above the lowest address up to the initial top of stack.
    pub open spec fn holds_stack_pointer(self, sp: u64) -> bool {
        self.start < sp <= self.spec_end()
    }

    /// The two regions share no address.
    pub open spec fn disjoint_from(self, other: StackRegion) -> bool {
        self.spec_end() <= other.start || other.spec_end() <= self.start
    }

    pub fn overlaps(&self, other: &StackRegion) -> (r: bool)
        requires
            self.wf(),
            other.wf(),
        ensures
            r == !self.disjoint_from(*other),
    {
        !(self.start + self.size <= other.start || other.start + other.size <= self.start)
    }
}

/// Task State Segment model: an interrupt stack table of seven alternate
/// stack-top addresses (0 means the slot is unused).
pub struct TaskStateSegment {
    pub interrupt_stack_table: Vec<u64>,
}

impl TaskStateSegment {
    pub open spec fn wf(self) -> bool {
        self.interrupt_stack_table@.len() == IST_ENTRY_COUNT
    }

    pub fn new() -> (r: TaskStateSegment)
        ensures
            r.wf(),
            forall|i: int| 0 <= i < IST_ENTRY_COUNT ==> r.interrupt_stack_table@[i] == 0,
    {
        let mut t: Vec<u64> = Vec::new();
        t.push(0);
        t.push(0);
        t.push(0);
        t.push(0);
        t.push(0);
        t.push(0);
        t.push(0);
        TaskStateSegment { interrupt_stack_table: t }
    }

    /// Record `stack_top` in the given interrupt-stack-table slot.
    pub fn set_ist_entry(&mut self, index: u16, stack_top: u64)
        requires
            old(self).wf(),
            index < IST_ENTRY_COUNT,
        ensures
            final(self).wf(),
            final(self).interrupt_stack_table@ == old(self).interrupt_stack_table@.update(
                index as int,
                stack_top,
            ),
    {
        self.interrupt_stack_table.set(index as usize, stack_top);
    }
}

/// One slot of the descriptor table. In 64-bit mode a task-state descriptor
/// occupies two consecutive slots.
#[derive(Clone, Copy, PartialEq, Eq, Structural, Debug)]
pub enum GdtEntry {
    Null,
    KernelCode,
    TaskStateLow,
    TaskStateHigh,
}

/// The descriptor table itself: append-only at initialization. Selectors
/// are byte offsets computed from the position of each entry, which is why
/// entry order is part of the contract.
pub struct GlobalDescriptorTable {
    pub entries: Vec<GdtEntry>,
}

impl GlobalDescriptorTable {
    pub open spec fn wf(self) -> bool {
        &&& 1 <= self.entries@.len() <= GDT_CAPACITY
        &&& self.entries@[0] == GdtEntry::Null
    }

    pub fn new() -> (r: GlobalDescriptorTable)
        ensures
            r.wf(),
            r.entries@ =~= seq![GdtEntry::Null],
    {
        let mut entries: Vec<GdtEntry> = Vec::new();
        entries.push(GdtEntry::Null);
        GlobalDescriptorTable { entries }
    }

    /// Append the kernel code-segment descriptor. The returned selector is
    /// the entry's byte offset in the table, ring 0.
    pub fn add_code_entry(&mut self) -> (selector: u16)
        requires
            old(self).wf(),
            old(self).entries@.len() < GDT_CAPACITY,
        ensures
            final(self).wf(),
            final(self).entries@ == old(self).entries@.push(GdtEntry::KernelCode),
            selector == old(self).entries@.len() * 8,
    {
        let selector: u16 = (self.entries.len() * 8) as u16;
        self.entries.push(GdtEntry::KernelCode);
        selector
    }

    /// Append the task-state descriptor (two slots). The returned selector
    /// is the byte offset of the first slot.
    pub fn add_tss_entry(&mut self) -> (selector: u16)
        requires
            old(self).wf(),
            old(self).entries@.len() + 2 <= GDT_CAPACITY,
        ensures
            final(self).wf(),
            final(self).entries@ == old(self).entries@.push(GdtEntry::TaskStateLow).push(
                GdtEntry::TaskStateHigh,
            ),
            selector == old(self).entries@.len() * 8,
    {
        let selector: u16 = (self.entries.len() * 8) as u16;
        self.entries.push(GdtEntry::TaskStateLow);
        self.entries.push(GdtEntry::TaskStateHigh);
        selector
    }
}

/// Selectors returned by `build`: byte offsets into the descriptor table.
#[derive(Clone, Copy, PartialEq, Eq, Structural, Debug)]
pub struct Selectors {
    pub code_selector: u16,
    pub tss_selector: u16,
}

/// Construct the descriptor table: the kernel code segment followed by a
/// task-state descriptor whose interrupt stack table holds the top of the
/// given fail-safe stack in slot `DOUBLE_FAULT_IST_INDEX`.
pub fn build(double_fault_stack: StackRegion) -> (r: (
    GlobalDescriptorTable,
    TaskStateSegment,
    Selectors,
))
    requires
        double_fault_stack.wf(),
    ensures
        r.0.wf(),
        r.1.wf(),
        r.0.entries@ =~= seq![
            GdtEntry::Null,
            GdtEntry::KernelCode,
            GdtEntry::TaskStateLow,
            GdtEntry::TaskStateHigh,
        ],
        r.2.code_selector == 8,
        r.2.tss_selector == 16,
        r.1.interrupt_stack_table@[DOUBLE_FAULT_IST_INDEX as int] == double_fault_stack.spec_end(),
        forall|i: int|
            0 <= i < IST_ENTRY_COUNT && i != DOUBLE_FAULT_IST_INDEX ==> r.1.interrupt_stack_table@[i]
                == 0,
{
    let mut tss = TaskStateSegment::new();
    tss.set_ist_entry(DOUBLE_FAULT_IST_INDEX, double_fault_stack.end());
    let mut gdt = GlobalDescriptorTable::new();
    let code_selector = gdt.add_code_entry();
    let tss_selector = gdt.add_tss_entry();
    (gdt, tss, Selectors { code_selector, tss_selector })
}

/// Load the built descriptor table: make it the active table, reload the
/// code-segment register with the returned code selector and load the
/// task-state selector. On hardware these are the privileged register
/// loads the unverified binding performs; here the step flips the
/// machine's phase, which every later bootstrap step requires. Must run
/// exactly once, before the vector table is loaded.
pub fn init(m: &mut Machine)
    requires
        old(m).wf(),
        !old(m).gdt_loaded,
    ensures
        final(m).wf(),
        *final(m) == (Machine { gdt_loaded: true, ..*old(m) }),
{
    m.gdt_loaded = true;
}

/// The fail-safe stack shares no address — and no stack-pointer value —
/// with any stack region it is disjoint from, in particular the default
/// execution stack.
pub proof fn lemma_fail_safe_stack_disjoint(fail_safe: StackRegion, other: StackRegion)
    requires
        fail_safe.wf(),
        other.wf(),
        fail_safe.disjoint_from(other),
    ensures
        forall|addr: int| fail_safe.contains(addr) ==> !other.contains(addr),
        forall|sp: u64| fail_safe.holds_stack_pointer(sp) ==> !other.holds_stack_pointer(sp),
{
}

} // verus!
