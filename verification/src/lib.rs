//! Verified model of a kernel's exception/interrupt bootstrap layer:
//! descriptor tables with a fail-safe double-fault stack, the interrupt
//! vector table, the chained legacy interrupt-controller protocol, and the
//! keyboard scancode decode pipeline.

pub mod gdt;
pub mod interrupts;
pub mod keyboard;
pub mod machine;
pub mod pic;
