//! The bootstrap state machine: owns the built tables, the controller
//! pair and the decoder, enforces the strict startup order (descriptor
//! tables, vector table, controllers, global enable), and routes each
//! interrupt through the vector table exactly as the hardware would —
//! including the forced switch to the fail-safe stack on a double fault.
//!
//! Everything the hardware would absorb is kept as observable state: port
//! writes, display requests and logged exception frames, so the protocol
//! obligations are part of every handler's contract.

use crate::gdt;
use crate::gdt::DOUBLE_FAULT_IST_INDEX;
use crate::gdt::GlobalDescriptorTable;
use crate::gdt::Selectors;
use crate::gdt::StackRegion;
use crate::gdt::TaskStateSegment;
use crate::interrupts::build_idt;
use crate::interrupts::idt_exactly_bound;
use crate::interrupts::HandlerId;
use crate::interrupts::InterruptDescriptorTable;
use crate::interrupts::BREAKPOINT_VECTOR;
use crate::interrupts::DOUBLE_FAULT_VECTOR;
use crate::interrupts::PIC_1_OFFSET;
use crate::interrupts::PIC_2_OFFSET;
use crate::keyboard::spec_action;
use crate::keyboard::spec_advance;
use crate::keyboard::DecodeState;
use crate::keyboard::DisplayAction;
use crate::keyboard::Keyboard;
use crate::pic::spec_eoi_writes;
use crate::pic::spec_initialize_writes;
use crate::pic::ChainedPics;
use crate::pic::PortWrite;
use vstd::prelude::*;

verus! {

/// The stack frame the CPU pushes when it transfers into a handler.
#[derive(Clone, Copy, PartialEq, Eq, Structural, Debug)]
pub struct InterruptStackFrame {
    pub instruction_pointer: u64,
    pub code_segment: u16,
    pub stack_pointer: u64,
}

/// One record the exception path logs: the vector, the captured frame,
/// the error code if the exception pushes one, and the stack pointer the
/// handler actually ran on.
#[derive(Clone, Copy, PartialEq, Eq, Debug)]
pub struct LoggedException {
    pub vector: u8,
    pub frame: InterruptStackFrame,
    pub error_code: Option<u64>,
    pub handler_stack_pointer: u64,
}

/// Whether control returns to the interrupted code after a dispatch.
#[derive(Clone, Copy, PartialEq, Eq, Structural, Debug)]
pub enum Outcome {
    Resumed,
    Halted,
}

/// The whole subsystem as one owned state object.
pub struct Machine {
    pub primary_stack: StackRegion,
    pub double_fault_stack: StackRegion,
    pub gdt: GlobalDescriptorTable,
    pub tss: TaskStateSegment,
    pub selectors: Selectors,
    pub idt: InterruptDescriptorTable,
    pub pics: ChainedPics,
    pub keyboard: Keyboard,
    pub gdt_loaded: bool,
    pub idt_loaded: bool,
    pub interrupts_enabled: bool,
    pub halted: bool,
    pub exception_log: Vec<LoggedException>,
    pub display: Vec<DisplayAction>,
    pub port_writes: Vec<PortWrite>,
}

impl Machine {
    /// The machine invariant: usable, disjoint stacks; the task-state
    /// segment's fail-safe slot holds the fail-safe stack's top; the
    /// vector table binds exactly the required vectors; the controllers
    /// carry the agreed offsets; and the phases only ever advance in the
    /// bootstrap order.
    pub open spec fn wf(self) -> bool {
        &&& self.primary_stack.wf()
        &&& self.double_fault_stack.wf()
        &&& self.double_fault_stack.disjoint_from(self.primary_stack)
        &&& self.gdt.wf()
        &&& self.tss.wf()
        &&& self.tss.interrupt_stack_table@[DOUBLE_FAULT_IST_INDEX as int]
            == self.double_fault_stack.spec_end()
        &&& idt_exactly_bound(self.idt)
        &&& self.pics.wf()
        &&& self.pics.primary.offset == PIC_1_OFFSET
        &&& self.pics.secondary.offset == PIC_2_OFFSET
        &&& self.idt_loaded ==> self.gdt_loaded
        &&& self.pics.initialized ==> self.idt_loaded
        &&& self.interrupts_enabled ==> self.pics.initialized
    }

    /// Build the machine from its two stack regions: the default
    /// execution stack and the dedicated fail-safe stack. Returns `None`
    /// iff a region is unusable or the two overlap — a fail-safe stack
    /// that shares addresses with the stack whose validity is in question
    /// is rejected by construction.
    pub fn new(primary_stack: StackRegion, double_fault_stack: StackRegion) -> (r: Option<
        Machine,
    >)
        ensures
            (r is Some) == (primary_stack.wf() && double_fault_stack.wf()
                && double_fault_stack.disjoint_from(primary_stack)),
            r matches Some(m) ==> ({
                &&& m.wf()
                &&& m.primary_stack == primary_stack
                &&& m.double_fault_stack == double_fault_stack
                &&& m.selectors.code_selector == 8
                &&& m.selectors.tss_selector == 16
                &&& !m.gdt_loaded
                &&& !m.idt_loaded
                &&& !m.pics.initialized
                &&& !m.interrupts_enabled
                &&& !m.halted
                &&& m.keyboard.state == DecodeState::Ground
                &&& m.exception_log@.len() == 0
                &&& m.display@.len() == 0
                &&& m.port_writes@.len() == 0
            }),
    {
        if primary_stack.size == 0 || double_fault_stack.size == 0 {
            return None;
        }
        if primary_stack.start > u64::MAX - primary_stack.size {
            return None;
        }
        if double_fault_stack.start > u64::MAX - double_fault_stack.size {
            return None;
        }
        if double_fault_stack.overlaps(&primary_stack) {
            return None;
        }
        let (gdt, tss, selectors) = gdt::build(double_fault_stack);
        let idt = build_idt();
        let pics = ChainedPics::new(PIC_1_OFFSET, PIC_2_OFFSET);
        Some(
            Machine {
                primary_stack,
                double_fault_stack,
                gdt,
                tss,
                selectors,
                idt,
                pics,
                keyboard: Keyboard::new(),
                gdt_loaded: false,
                idt_loaded: false,
                interrupts_enabled: false,
                halted: false,
                exception_log: Vec::new(),
                display: Vec::new(),
                port_writes: Vec::new(),
            },
        )
    }
}

/// Remap the interrupt controllers: runs the four-step handshake and
/// appends its exact wire protocol to the machine's port log. Legal only
/// after the vector table is loaded and before interrupts are enabled.
pub fn initialize_pics(m: &mut Machine)
    requires
        old(m).wf(),
        old(m).idt_loaded,
        !old(m).pics.initialized,
    ensures
        final(m).wf(),
        final(m).pics == (ChainedPics { initialized: true, ..old(m).pics }),
        final(m).port_writes@ =~= old(m).port_writes@ + spec_initialize_writes(old(m).pics),
        *final(m) == (Machine {
            pics: final(m).pics,
            port_writes: final(m).port_writes,
            ..*old(m)
        }),
{
    let mut writes = m.pics.initialize();
    m.port_writes.append(&mut writes);
}

/// Globally enable interrupt delivery: the last step of the bootstrap,
/// legal only once the controllers are remapped.
pub fn enable_interrupts(m: &mut Machine)
    requires
        old(m).wf(),
        old(m).pics.initialized,
    ensures
        final(m).wf(),
        *final(m) == (Machine { interrupts_enabled: true, ..*old(m) }),
{
    m.interrupts_enabled = true;
}

/// The startup collaborator's strict order: descriptor tables, vector
/// table, interrupt controllers, then the global enable.
pub fn init(m: &mut Machine)
    requires
        old(m).wf(),
        !old(m).gdt_loaded,
        !old(m).idt_loaded,
        !old(m).pics.initialized,
    ensures
        final(m).wf(),
        final(m).gdt_loaded,
        final(m).idt_loaded,
        final(m).pics.initialized,
        final(m).interrupts_enabled,
        final(m).halted == old(m).halted,
        final(m).keyboard.state == old(m).keyboard.state,
        final(m).exception_log@ =~= old(m).exception_log@,
        final(m).display@ =~= old(m).display@,
        final(m).port_writes@ =~= old(m).port_writes@ + spec_initialize_writes(old(m).pics),
{
    gdt::init(m);
    crate::interrupts::init_idt(m);
    initialize_pics(m);
    enable_interrupts(m);
}

/// Park the processor: the terminal state. Nothing executes afterwards.
pub fn hlt_loop(m: &mut Machine)
    ensures
        *final(m) == (Machine { halted: true, ..*old(m) }),
{
    m.halted = true;
}

/// The stack pointer the handler for `vector` runs on: a configured
/// stack-switch index selects the task-state segment's alternate stack
/// top; otherwise the interrupted stack pointer is kept.
pub open spec fn spec_handler_stack_pointer(m: Machine, vector: u8, current_sp: u64) -> u64 {
    match m.idt.spec_entry(vector) {
        Some(e) => match e.stack_index {
            Some(i) => m.tss.interrupt_stack_table@[i as int],
            None => current_sp,
        },
        None => current_sp,
    }
}

/// The record a dispatch of `vector` logs when it logs at all.
pub open spec fn spec_logged(
    m: Machine,
    vector: u8,
    instruction_pointer: u64,
    current_sp: u64,
    error_code: Option<u64>,
) -> LoggedException {
    LoggedException {
        vector,
        frame: InterruptStackFrame {
            instruction_pointer,
            code_segment: m.selectors.code_selector,
            stack_pointer: current_sp,
        },
        error_code,
        handler_stack_pointer: spec_handler_stack_pointer(m, vector, current_sp),
    }
}

/// What one decoded action adds to the display log: nothing, or itself.
pub open spec fn spec_display_append(a: DisplayAction) -> Seq<DisplayAction> {
    if a == DisplayAction::Nothing {
        Seq::<DisplayAction>::empty()
    } else {
        seq![a]
    }
}

/// A double fault never runs on the interrupted stack: whatever stack
/// pointer was live when the fault hit, the handler's stack pointer is
/// the fail-safe stack's top — inside the fail-safe region and outside
/// the default execution stack.
pub proof fn lemma_double_fault_switches_stack(m: Machine, current_sp: u64)
    requires
        m.wf(),
    ensures
        spec_handler_stack_pointer(m, DOUBLE_FAULT_VECTOR, current_sp)
            == m.double_fault_stack.spec_end(),
        m.double_fault_stack.holds_stack_pointer(
            spec_handler_stack_pointer(m, DOUBLE_FAULT_VECTOR, current_sp),
        ),
        !m.primary_stack.holds_stack_pointer(
            spec_handler_stack_pointer(m, DOUBLE_FAULT_VECTOR, current_sp),
        ),
{
}

/// The fail-safe stack recorded in the task-state segment is disjoint
/// from the default execution stack: no address and no stack-pointer
/// value lies in both, so the fatal-exception handler never reuses any
/// part of a normal stack.
pub proof fn lemma_fail_safe_stack_isolated(m: Machine)
    requires
        m.wf(),
    ensures
        m.tss.interrupt_stack_table@[DOUBLE_FAULT_IST_INDEX as int]
            == m.double_fault_stack.spec_end(),
        forall|addr: int|
            m.double_fault_stack.contains(addr) ==> !m.primary_stack.contains(addr),
        forall|sp: u64|
            m.double_fault_stack.holds_stack_pointer(sp) ==> !m.primary_stack.holds_stack_pointer(
                sp,
            ),
{
    gdt::lemma_fail_safe_stack_disjoint(m.double_fault_stack, m.primary_stack);
}

/// Route one interrupt or exception through the vector table, as the CPU
/// would: switch to the configured alternate stack where the entry
/// demands one, run the bound handler, and report whether execution
/// resumes. `port_input` carries the byte the keyboard data port yields
/// when the keyboard line fires; the hardware guarantees one is waiting.
///
/// The per-vector contract: a breakpoint logs its frame and resumes; a
/// double fault logs its frame and error code on the fail-safe stack and
/// halts for good; the timer acknowledges end-of-interrupt and returns;
/// the keyboard feeds its byte to the decode pipeline, hands the decoded
/// request to the display log, acknowledges end-of-interrupt and
/// returns; an unbound vector is fatal.
pub fn dispatch(
    m: &mut Machine,
    vector: u8,
    instruction_pointer: u64,
    current_sp: u64,
    port_input: Option<u8>,
) -> (outcome: Outcome)
    requires
        old(m).wf(),
        old(m).idt_loaded,
        !old(m).halted,
        (vector == PIC_1_OFFSET || vector == PIC_1_OFFSET + 1) ==> old(m).interrupts_enabled,
        vector == PIC_1_OFFSET + 1 ==> port_input is Some,
    ensures
        final(m).wf(),
        final(m).primary_stack == old(m).primary_stack,
        final(m).double_fault_stack == old(m).double_fault_stack,
        final(m).gdt == old(m).gdt,
        final(m).tss == old(m).tss,
        final(m).selectors == old(m).selectors,
        final(m).idt == old(m).idt,
        final(m).pics == old(m).pics,
        final(m).gdt_loaded == old(m).gdt_loaded,
        final(m).idt_loaded == old(m).idt_loaded,
        final(m).interrupts_enabled == old(m).interrupts_enabled,
        vector == BREAKPOINT_VECTOR ==> ({
            &&& outcome == Outcome::Resumed
            &&& !final(m).halted
            &&& final(m).exception_log@ =~= old(m).exception_log@.push(
                spec_logged(*old(m), vector, instruction_pointer, current_sp, None),
            )
            &&& final(m).display@ =~= old(m).display@
            &&& final(m).port_writes@ =~= old(m).port_writes@
            &&& final(m).keyboard.state == old(m).keyboard.state
        }),
        vector == DOUBLE_FAULT_VECTOR ==> ({
            &&& outcome == Outcome::Halted
            &&& final(m).halted
            &&& final(m).exception_log@ =~= old(m).exception_log@.push(
                spec_logged(*old(m), vector, instruction_pointer, current_sp, Some(0)),
            )
            &&& final(m).exception_log@.last().handler_stack_pointer == old(
                m,
            ).double_fault_stack.spec_end()
            &&& old(m).double_fault_stack.holds_stack_pointer(
                final(m).exception_log@.last().handler_stack_pointer,
            )
            &&& final(m).display@ =~= old(m).display@
            &&& final(m).port_writes@ =~= old(m).port_writes@
            &&& final(m).keyboard.state == old(m).keyboard.state
        }),
        vector == PIC_1_OFFSET ==> ({
            &&& outcome == Outcome::Resumed
            &&& !final(m).halted
            &&& final(m).exception_log@ =~= old(m).exception_log@
            &&& final(m).display@ =~= old(m).display@
            &&& final(m).port_writes@ =~= old(m).port_writes@ + spec_eoi_writes(
                old(m).pics,
                vector,
            )
            &&& final(m).keyboard.state == old(m).keyboard.state
        }),
        vector == PIC_1_OFFSET + 1 ==> (port_input matches Some(b) ==> ({
            &&& outcome == Outcome::Resumed
            &&& !final(m).halted
            &&& final(m).exception_log@ =~= old(m).exception_log@
            &&& final(m).keyboard.state == spec_advance(old(m).keyboard.state, b).0
            &&& final(m).display@ =~= old(m).display@ + spec_display_append(
                spec_action(old(m).keyboard.state, b),
            )
            &&& final(m).port_writes@ =~= old(m).port_writes@ + spec_eoi_writes(
                old(m).pics,
                vector,
            )
        })),
        (vector != BREAKPOINT_VECTOR && vector != DOUBLE_FAULT_VECTOR && vector != PIC_1_OFFSET
            && vector != PIC_1_OFFSET + 1) ==> ({
            &&& outcome == Outcome::Halted
            &&& final(m).halted
            &&& final(m).exception_log@ =~= old(m).exception_log@.push(
                spec_logged(*old(m), vector, instruction_pointer, current_sp, None),
            )
            &&& final(m).display@ =~= old(m).display@
            &&& final(m).port_writes@ =~= old(m).port_writes@
            &&& final(m).keyboard.state == old(m).keyboard.state
        }),
{
    let handler_sp = handler_stack_pointer(m, vector, current_sp);
    let frame = InterruptStackFrame {
        instruction_pointer,
        code_segment: m.selectors.code_selector,
        stack_pointer: current_sp,
    };
    match m.idt.entry(vector) {
        None => {
            m.exception_log.push(
                LoggedException {
                    vector,
                    frame,
                    error_code: None,
                    handler_stack_pointer: handler_sp,
                },
            );
            m.halted = true;
            Outcome::Halted
        },
        Some(e) => match e.handler {
            HandlerId::Breakpoint => {
                m.exception_log.push(
                    LoggedException {
                        vector,
                        frame,
                        error_code: None,
                        handler_stack_pointer: handler_sp,
                    },
                );
                Outcome::Resumed
            },
            HandlerId::DoubleFault => {
                m.exception_log.push(
                    LoggedException {
                        vector,
                        frame,
                        error_code: Some(0),
                        handler_stack_pointer: handler_sp,
                    },
                );
                m.halted = true;
                Outcome::Halted
            },
            HandlerId::Timer => {
                let mut writes = m.pics.notify_end_of_interrupt(vector);
                m.port_writes.append(&mut writes);
                Outcome::Resumed
            },
            HandlerId::Keyboard => {
                let scancode = match port_input {
                    Some(b) => b,
                    None => 0,
                };
                let action = m.keyboard.handle_scancode(scancode);
                if !matches!(action, DisplayAction::Nothing) {
                    m.display.push(action);
                }
                let mut writes = m.pics.notify_end_of_interrupt(vector);
                m.port_writes.append(&mut writes);
                Outcome::Resumed
            },
        },
    }
}

/// Executable form of the stack-switch rule.
pub fn handler_stack_pointer(m: &Machine, vector: u8, current_sp: u64) -> (sp: u64)
    requires
        m.wf(),
    ensures
        sp == spec_handler_stack_pointer(*m, vector, current_sp),
{
    match m.idt.entry(vector) {
        Some(e) => match e.stack_index {
            Some(i) => {
                proof {
                    assert(i == DOUBLE_FAULT_IST_INDEX);
                }
                m.tss.interrupt_stack_table[i as usize]
            },
            None => current_sp,
        },
        None => current_sp,
    }
}

} // verus!
