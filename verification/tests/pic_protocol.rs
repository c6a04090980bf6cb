//! The interrupt-controller bridge: remap handshake bytes and the
//! end-of-interrupt chaining protocol.

use kernel_interrupts::pic::ChainedPics;
use kernel_interrupts::pic::PortWrite;
use kernel_interrupts::pic::CMD_END_OF_INTERRUPT;
use kernel_interrupts::pic::CMD_INIT;
use kernel_interrupts::pic::MODE_8086;
use kernel_interrupts::pic::PIC_1_COMMAND_PORT;
use kernel_interrupts::pic::PIC_1_DATA_PORT;
use kernel_interrupts::pic::PIC_2_COMMAND_PORT;
use kernel_interrupts::pic::PIC_2_DATA_PORT;
use kernel_interrupts::pic::WAIT_PORT;

fn w(port: u16, value: u8) -> PortWrite {
    PortWrite { port, value }
}

fn fresh_initialized_pics() -> ChainedPics {
    let mut pics = ChainedPics::new(32, 40);
    let _ = pics.initialize();
    pics
}

#[test]
fn remap_handshake_is_the_exact_wire_protocol() {
    let mut pics = ChainedPics::new(32, 40);
    let writes = pics.initialize();
    let expected = vec![
        w(PIC_1_COMMAND_PORT, CMD_INIT),
        w(WAIT_PORT, 0),
        w(PIC_2_COMMAND_PORT, CMD_INIT),
        w(WAIT_PORT, 0),
        w(PIC_1_DATA_PORT, 32),
        w(WAIT_PORT, 0),
        w(PIC_2_DATA_PORT, 40),
        w(WAIT_PORT, 0),
        w(PIC_1_DATA_PORT, 4),
        w(WAIT_PORT, 0),
        w(PIC_2_DATA_PORT, 2),
        w(WAIT_PORT, 0),
        w(PIC_1_DATA_PORT, MODE_8086),
        w(WAIT_PORT, 0),
        w(PIC_2_DATA_PORT, MODE_8086),
        w(WAIT_PORT, 0),
        w(PIC_1_DATA_PORT, 0),
        w(PIC_2_DATA_PORT, 0),
    ];
    assert_eq!(writes, expected);
    assert!(pics.initialized);
}

#[test]
fn offsets_must_not_overlap_the_reserved_range() {
    let pics = ChainedPics::new(32, 40);
    assert_eq!(pics.primary.offset, 32);
    assert_eq!(pics.secondary.offset, 40);
    assert!(!pics.handles_interrupt(31));
    assert!(pics.handles_interrupt(32));
    assert!(pics.handles_interrupt(39));
    assert!(pics.handles_interrupt(40));
    assert!(pics.handles_interrupt(47));
    assert!(!pics.handles_interrupt(48));
}

#[test]
fn eoi_for_a_primary_line_acknowledges_the_primary_once() {
    let pics = fresh_initialized_pics();
    let writes = pics.notify_end_of_interrupt(32);
    assert_eq!(writes, vec![w(PIC_1_COMMAND_PORT, CMD_END_OF_INTERRUPT)]);
}

#[test]
fn eoi_for_a_secondary_line_acknowledges_both_controllers() {
    let pics = fresh_initialized_pics();
    let writes = pics.notify_end_of_interrupt(40);
    assert_eq!(
        writes,
        vec![
            w(PIC_2_COMMAND_PORT, CMD_END_OF_INTERRUPT),
            w(PIC_1_COMMAND_PORT, CMD_END_OF_INTERRUPT),
        ]
    );
}

#[test]
fn eoi_for_an_unserviced_vector_acknowledges_nothing() {
    let pics = fresh_initialized_pics();
    assert!(pics.notify_end_of_interrupt(3).is_empty());
    assert!(pics.notify_end_of_interrupt(8).is_empty());
    assert!(pics.notify_end_of_interrupt(255).is_empty());
}

#[test]
fn eoi_over_a_sequence_is_one_acknowledgment_per_serviced_interrupt() {
    let pics = fresh_initialized_pics();
    let serviced: [u8; 6] = [32, 33, 40, 47, 3, 32];
    let mut primary_acks: u32 = 0;
    let mut secondary_acks: u32 = 0;
    for vector in serviced {
        for write in pics.notify_end_of_interrupt(vector) {
            if write.port == PIC_1_COMMAND_PORT && write.value == CMD_END_OF_INTERRUPT {
                primary_acks += 1;
            }
            if write.port == PIC_2_COMMAND_PORT && write.value == CMD_END_OF_INTERRUPT {
                secondary_acks += 1;
            }
        }
    }
    // five of the six vectors are serviced lines, two of them secondary
    assert_eq!(primary_acks, 5);
    assert_eq!(secondary_acks, 2);
}
