//! Bootstrap order, descriptor-table layout, fail-safe stack isolation
//! and the dispatch scenarios.

use kernel_interrupts::gdt;
use kernel_interrupts::gdt::GdtEntry;
use kernel_interrupts::gdt::StackRegion;
use kernel_interrupts::gdt::DOUBLE_FAULT_IST_INDEX;
use kernel_interrupts::gdt::DOUBLE_FAULT_STACK_SIZE;
use kernel_interrupts::interrupts::severity;
use kernel_interrupts::interrupts::InterruptIndex;
use kernel_interrupts::interrupts::Severity;
use kernel_interrupts::keyboard::DisplayAction;
use kernel_interrupts::machine;
use kernel_interrupts::machine::Machine;
use kernel_interrupts::machine::Outcome;
use kernel_interrupts::pic::PIC_1_COMMAND_PORT;
use kernel_interrupts::pic::PIC_2_COMMAND_PORT;

fn primary_stack() -> StackRegion {
    StackRegion { start: 0x2000_0000, size: 80 * 1024 }
}

fn fail_safe_stack() -> StackRegion {
    StackRegion { start: 0x4444_4444_0000, size: DOUBLE_FAULT_STACK_SIZE }
}

fn booted_machine() -> Machine {
    let mut m = Machine::new(primary_stack(), fail_safe_stack()).unwrap();
    machine::init(&mut m);
    m
}

#[test]
fn interrupt_index_carries_the_remapped_vectors() {
    assert_eq!(InterruptIndex::Timer.as_u8(), 32);
    assert_eq!(InterruptIndex::Keyboard.as_u8(), 33);
    assert_eq!(InterruptIndex::Timer.as_usize(), 32);
    assert_eq!(InterruptIndex::Keyboard.as_usize(), 33);
}

#[test]
fn descriptor_table_selectors_follow_table_position() {
    let (table, tss, selectors) = gdt::build(fail_safe_stack());
    assert_eq!(
        table.entries,
        vec![
            GdtEntry::Null,
            GdtEntry::KernelCode,
            GdtEntry::TaskStateLow,
            GdtEntry::TaskStateHigh,
        ]
    );
    assert_eq!(selectors.code_selector, 8);
    assert_eq!(selectors.tss_selector, 16);
    let top = fail_safe_stack().start + DOUBLE_FAULT_STACK_SIZE;
    assert_eq!(tss.interrupt_stack_table[DOUBLE_FAULT_IST_INDEX as usize], top);
}

#[test]
fn overlapping_stack_regions_are_rejected_by_construction() {
    let a = StackRegion { start: 0x1000, size: 0x1000 };
    let b = StackRegion { start: 0x1800, size: 0x1000 };
    assert!(Machine::new(a, b).is_none());
    let empty = StackRegion { start: 0x1000, size: 0 };
    assert!(Machine::new(empty, fail_safe_stack()).is_none());
    let overflowing = StackRegion { start: u64::MAX - 10, size: 0x1000 };
    assert!(Machine::new(primary_stack(), overflowing).is_none());
}

#[test]
fn fail_safe_stack_is_disjoint_from_the_primary_stack() {
    let m = booted_machine();
    let ist_top = m.tss.interrupt_stack_table[DOUBLE_FAULT_IST_INDEX as usize];
    let fail_safe = m.double_fault_stack;
    let primary = m.primary_stack;
    assert_eq!(ist_top, fail_safe.start + fail_safe.size);
    // the configured alternate range shares no address with the default stack
    assert!(
        fail_safe.start + fail_safe.size <= primary.start
            || primary.start + primary.size <= fail_safe.start
    );
}

#[test]
fn boot_sequence_then_breakpoint_resumes_with_a_logged_frame() {
    let mut m = booted_machine();
    assert!(m.gdt_loaded && m.idt_loaded && m.pics.initialized && m.interrupts_enabled);
    assert_eq!(m.pics.primary.offset, 32);
    assert_eq!(m.pics.secondary.offset, 40);
    // booting put the whole remap handshake on the wire, nothing else
    assert_eq!(m.port_writes.len(), 18);
    assert_eq!(m.port_writes[0].port, PIC_1_COMMAND_PORT);
    assert_eq!(m.port_writes[0].value, 0x11);
    let outcome = machine::dispatch(&mut m, 3, 0x1234, 0x2000_5000, None);
    assert_eq!(outcome, Outcome::Resumed);
    assert!(!m.halted);
    assert_eq!(m.exception_log.len(), 1);
    let logged = &m.exception_log[0];
    assert_eq!(logged.vector, 3);
    assert_eq!(logged.frame.instruction_pointer, 0x1234);
    assert_eq!(logged.frame.code_segment, 8);
    assert_eq!(logged.error_code, None);
    // a breakpoint keeps running on the interrupted stack
    assert_eq!(logged.handler_stack_pointer, 0x2000_5000);
}

#[test]
fn double_fault_on_an_exhausted_stack_runs_on_the_alternate_stack_and_halts() {
    let mut m = booted_machine();
    // the primary stack is exhausted: the live stack pointer sits at its base
    let exhausted_sp = m.primary_stack.start;
    let outcome = machine::dispatch(&mut m, 8, 0x4321, exhausted_sp, None);
    assert_eq!(outcome, Outcome::Halted);
    assert!(m.halted);
    let logged = m.exception_log.last().unwrap();
    assert_eq!(logged.vector, 8);
    assert_eq!(logged.error_code, Some(0));
    // the handler's stack pointer falls inside the configured alternate range
    let fail_safe = m.double_fault_stack;
    assert!(fail_safe.start < logged.handler_stack_pointer);
    assert!(logged.handler_stack_pointer <= fail_safe.start + fail_safe.size);
    // and outside the primary stack's range
    let primary = m.primary_stack;
    assert!(
        logged.handler_stack_pointer <= primary.start
            || logged.handler_stack_pointer > primary.start + primary.size
    );
}

#[test]
fn timer_interrupt_acknowledges_and_returns() {
    let mut m = booted_machine();
    let before = m.port_writes.len();
    let outcome = machine::dispatch(&mut m, 32, 0, 0x2000_5000, None);
    assert_eq!(outcome, Outcome::Resumed);
    assert!(!m.halted);
    let acks = &m.port_writes[before..];
    assert_eq!(acks.len(), 1);
    assert_eq!(acks[0].port, PIC_1_COMMAND_PORT);
    assert_eq!(acks[0].value, 0x20);
    assert!(m.display.is_empty());
}

#[test]
fn keyboard_interrupt_decodes_prints_and_acknowledges() {
    let mut m = booted_machine();
    let before = m.port_writes.len();
    let outcome = machine::dispatch(&mut m, 33, 0, 0x2000_5000, Some(0x23));
    assert_eq!(outcome, Outcome::Resumed);
    assert_eq!(m.display, vec![DisplayAction::Print('h')]);
    let acks = &m.port_writes[before..];
    assert_eq!(acks.len(), 1);
    assert_eq!(acks[0].port, PIC_1_COMMAND_PORT);
    // the release byte adds nothing to the display
    let _ = machine::dispatch(&mut m, 33, 0, 0x2000_5000, Some(0xA3));
    assert_eq!(m.display, vec![DisplayAction::Print('h')]);
}

#[test]
fn backspace_scancode_asks_the_display_for_exactly_one_erase() {
    let mut m = booted_machine();
    let _ = machine::dispatch(&mut m, 33, 0, 0x2000_5000, Some(0x0E));
    assert_eq!(m.display, vec![DisplayAction::EraseLast]);
    let erases: usize = m
        .display
        .iter()
        .filter(|a| matches!(a, DisplayAction::EraseLast))
        .count();
    assert_eq!(erases, 1);
    let writes: usize = m
        .display
        .iter()
        .filter(|a| matches!(a, DisplayAction::Print(_) | DisplayAction::PrintRaw(_)))
        .count();
    assert_eq!(writes, 0);
}

#[test]
fn unbound_vector_is_fatal() {
    let mut m = booted_machine();
    let outcome = machine::dispatch(&mut m, 13, 0x99, 0x2000_5000, None);
    assert_eq!(outcome, Outcome::Halted);
    assert!(m.halted);
    assert_eq!(m.exception_log.last().unwrap().vector, 13);
}

#[test]
fn severity_classes_follow_the_design() {
    assert_eq!(severity(3), Severity::Recoverable);
    assert_eq!(severity(8), Severity::FatalLogged);
    assert_eq!(severity(32), Severity::HardwareRoutine);
    assert_eq!(severity(33), Severity::HardwareRoutine);
    assert_eq!(severity(13), Severity::FatalLogged);
    assert_eq!(severity(34), Severity::FatalLogged);
}

#[test]
fn hlt_loop_parks_the_machine() {
    let mut m = booted_machine();
    machine::hlt_loop(&mut m);
    assert!(m.halted);
}

#[test]
fn secondary_line_interrupt_acknowledges_both_controllers() {
    let mut m = booted_machine();
    // a vector in the secondary window is not bound in this design: fatal,
    // but the controller model still owes both acknowledgments
    let acks = m.pics.notify_end_of_interrupt(44);
    assert_eq!(acks.len(), 2);
    assert_eq!(acks[0].port, PIC_2_COMMAND_PORT);
    assert_eq!(acks[1].port, PIC_1_COMMAND_PORT);
}
