//! Exception/interrupt vector table: binds the CPU-reserved exception
//! vectors (breakpoint, double fault) and the two wired hardware lines
//! (timer, keyboard) to handler identities, the double fault on the
//! fail-safe stack index. All four must be bound before interrupts are
//! globally enabled; every other vector is an unhandled, fatal trap.

use crate::gdt::DOUBLE_FAULT_IST_INDEX;
use crate::gdt::IST_ENTRY_COUNT;
use crate::machine::Machine;
use vstd::prelude::*;

verus! {

/// Vector of the primary controller's first hardware line, just above the
/// 32 CPU-reserved exception vectors.
pub const PIC_1_OFFSET: u8 = 32;

/// Vector of the secondary (chained) controller's first line.
pub const PIC_2_OFFSET: u8 = PIC_1_OFFSET + 8;

/// CPU-reserved breakpoint exception vector.
pub const BREAKPOINT_VECTOR: u8 = 3;

/// CPU-reserved double-fault exception vector.
pub const DOUBLE_FAULT_VECTOR: u8 = 8;

/// Number of entries in the vector table.
pub const IDT_ENTRIES: usize = 256;

/// The two wired hardware interrupt lines, named by their remapped vector.
#[derive(Clone, Copy, PartialEq, Eq, Structural, Debug)]
pub enum InterruptIndex {
    Timer,
    Keyboard,
}

impl InterruptIndex {
    /// The vector this line is remapped to: the primary controller's
    /// offset for the timer, the following vector for the keyboard.
    pub open spec fn spec_vector(self) -> u8 {
        match self {
            InterruptIndex::Timer => PIC_1_OFFSET,
            InterruptIndex::Keyboard => (PIC_1_OFFSET + 1) as u8,
        }
    }

    pub fn as_u8(self) -> (r: u8)
        ensures
            r == self.spec_vector(),
    {
        match self {
            InterruptIndex::Timer => PIC_1_OFFSET,
            InterruptIndex::Keyboard => PIC_1_OFFSET + 1,
        }
    }

    pub fn as_usize(self) -> (r: usize)
        ensures
            r == self.spec_vector() as usize,
    {
        self.as_u8() as usize
    }
}

/// Which handler routine a vector table slot points at.
#[derive(Clone, Copy, PartialEq, Eq, Structural, Debug)]
pub enum HandlerId {
    Breakpoint,
    DoubleFault,
    Timer,
    Keyboard,
}

/// One populated vector entry: the handler and, optionally, the
/// interrupt-stack-table index the CPU must switch to before running it.
#[derive(Clone, Copy, PartialEq, Eq, Debug)]
pub struct IdtEntry {
    pub handler: HandlerId,
    pub stack_index: Option<u16>,
}

/// The vector table: a mapping from vector number to an optional entry.
pub struct InterruptDescriptorTable {
    pub entries: Vec<Option<IdtEntry>>,
}

impl InterruptDescriptorTable {
    pub open spec fn wf(self) -> bool {
        self.entries@.len() == IDT_ENTRIES
    }

    pub open spec fn spec_entry(self, vector: u8) -> Option<IdtEntry> {
        self.entries@[vector as int]
    }

    /// An empty table: every vector is an unhandled trap.
    pub fn new() -> (r: InterruptDescriptorTable)
        ensures
            r.wf(),
            forall|j: int| 0 <= j < IDT_ENTRIES ==> r.entries@[j] is None,
    {
        let mut entries: Vec<Option<IdtEntry>> = Vec::new();
        while entries.len() < IDT_ENTRIES
            invariant
                entries@.len() <= IDT_ENTRIES,
                forall|j: int| 0 <= j < entries@.len() ==> entries@[j] is None,
            decreases IDT_ENTRIES - entries@.len(),
        {
            entries.push(None);
        }
        InterruptDescriptorTable { entries }
    }

    pub fn entry(&self, vector: u8) -> (r: Option<IdtEntry>)
        requires
            self.wf(),
        ensures
            r == self.spec_entry(vector),
    {
        self.entries[vector as usize]
    }

    /// Bind `vector` to `handler`, running on the interrupted stack.
    pub fn set_handler(&mut self, vector: u8, handler: HandlerId)
        requires
            old(self).wf(),
        ensures
            final(self).wf(),
            final(self).entries@ == old(self).entries@.update(
                vector as int,
                Some(IdtEntry { handler, stack_index: None }),
            ),
    {
        self.entries.set(vector as usize, Some(IdtEntry { handler, stack_index: None }));
    }

    /// Bind `vector` to `handler` with a forced switch to the given
    /// interrupt-stack-table slot.
    pub fn set_handler_with_stack_index(&mut self, vector: u8, handler: HandlerId, stack_index: u16)
        requires
            old(self).wf(),
            stack_index < IST_ENTRY_COUNT,
        ensures
            final(self).wf(),
            final(self).entries@ == old(self).entries@.update(
                vector as int,
                Some(IdtEntry { handler, stack_index: Some(stack_index) }),
            ),
    {
        self.entries.set(
            vector as usize,
            Some(IdtEntry { handler, stack_index: Some(stack_index) }),
        );
    }
}

/// The table is fit for enabling interrupts: breakpoint and double fault
/// are bound — the double fault on the fail-safe stack index — and so are
/// the timer and keyboard lines.
pub open spec fn ready_for_interrupts(idt: InterruptDescriptorTable) -> bool {
    &&& idt.wf()
    &&& idt.spec_entry(BREAKPOINT_VECTOR) == Some(
        IdtEntry { handler: HandlerId::Breakpoint, stack_index: None },
    )
    &&& idt.spec_entry(DOUBLE_FAULT_VECTOR) == Some(
        IdtEntry { handler: HandlerId::DoubleFault, stack_index: Some(DOUBLE_FAULT_IST_INDEX) },
    )
    &&& idt.spec_entry(PIC_1_OFFSET) == Some(
        IdtEntry { handler: HandlerId::Timer, stack_index: None },
    )
    &&& idt.spec_entry((PIC_1_OFFSET + 1) as u8) == Some(
        IdtEntry { handler: HandlerId::Keyboard, stack_index: None },
    )
}

/// The table binds exactly the four required vectors and nothing else.
pub open spec fn idt_exactly_bound(idt: InterruptDescriptorTable) -> bool {
    &&& ready_for_interrupts(idt)
    &&& forall|v: u8|
        v != BREAKPOINT_VECTOR && v != DOUBLE_FAULT_VECTOR && v != PIC_1_OFFSET && v != PIC_1_OFFSET
            + 1 ==> idt.spec_entry(v) is None
}

/// Populate the vector table: breakpoint, double fault on the fail-safe
/// stack, and the two hardware lines — and no other vector.
pub fn build_idt() -> (idt: InterruptDescriptorTable)
    ensures
        idt_exactly_bound(idt),
{
    let mut idt = InterruptDescriptorTable::new();
    idt.set_handler(BREAKPOINT_VECTOR, HandlerId::Breakpoint);
    idt.set_handler_with_stack_index(
        DOUBLE_FAULT_VECTOR,
        HandlerId::DoubleFault,
        DOUBLE_FAULT_IST_INDEX,
    );
    idt.set_handler(InterruptIndex::Timer.as_u8(), HandlerId::Timer);
    idt.set_handler(InterruptIndex::Keyboard.as_u8(), HandlerId::Keyboard);
    idt
}

/// Exception severity classes: a breakpoint resumes, the hardware lines
/// acknowledge and return, and everything else — the double fault above
/// all — is fatal: logged if possible, then the processor parks.
#[derive(Clone, Copy, PartialEq, Eq, Structural, Debug)]
pub enum Severity {
    Recoverable,
    FatalLogged,
    HardwareRoutine,
}

pub open spec fn spec_severity(vector: u8) -> Severity {
    if vector == BREAKPOINT_VECTOR {
        Severity::Recoverable
    } else if vector == PIC_1_OFFSET || vector == PIC_1_OFFSET + 1 {
        Severity::HardwareRoutine
    } else {
        Severity::FatalLogged
    }
}

pub fn severity(vector: u8) -> (s: Severity)
    ensures
        s == spec_severity(vector),
{
    if vector == BREAKPOINT_VECTOR {
        Severity::Recoverable
    } else if vector == PIC_1_OFFSET || vector == PIC_1_OFFSET + 1 {
        Severity::HardwareRoutine
    } else {
        Severity::FatalLogged
    }
}

/// Load the vector table into the active register. On hardware this is
/// the privileged table load the unverified binding performs; here it
/// flips the machine's phase. Legal only after the descriptor tables are
/// loaded, so the fail-safe stack index the table references is valid,
/// and required before interrupts are enabled.
pub fn init_idt(m: &mut Machine)
    requires
        old(m).wf(),
        old(m).gdt_loaded,
        !old(m).idt_loaded,
    ensures
        final(m).wf(),
        *final(m) == (Machine { idt_loaded: true, ..*old(m) }),
{
    m.idt_loaded = true;
}

} // verus!
