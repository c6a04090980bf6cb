//! The decode pipeline agrees with the pc-keyboard crate (scancode set 1,
//! US 104-key layout, control mapping ignored) on every single-byte press
//! and release and on every extended sequence, byte for byte.

use kernel_interrupts::keyboard::Keyboard;
use pc_keyboard::layouts::Us104Key;
use pc_keyboard::HandleControl;
use pc_keyboard::ScancodeSet1;

fn reference_keyboard() -> pc_keyboard::Keyboard<Us104Key, ScancodeSet1> {
    pc_keyboard::Keyboard::new(ScancodeSet1::new(), Us104Key, HandleControl::Ignore)
}

fn events_agree(ours: &Option<kernel_interrupts::keyboard::KeyEvent>, theirs: &Option<pc_keyboard::KeyEvent>) -> bool {
    match (ours, theirs) {
        (None, None) => true,
        (Some(a), Some(b)) => format!("{:?}", a) == format!("{:?}", b),
        _ => false,
    }
}

#[test]
fn single_byte_presses_and_releases_match_the_reference() {
    for code in 0x01..=0xFFu8 {
        if code == 0xE0 || code == 0xE1 {
            continue;
        }
        let mut ours = Keyboard::new();
        let mut theirs = reference_keyboard();
        let our_event = ours.add_byte(code);
        let their_event = theirs.add_byte(code).ok().flatten();
        assert!(
            events_agree(&our_event, &their_event),
            "byte {:#04x}: {:?} vs {:?}",
            code,
            our_event,
            their_event
        );
    }
}

#[test]
fn extended_sequences_match_the_reference() {
    for code in 0x01..=0xFFu8 {
        if code == 0xE0 || code == 0xE1 {
            continue;
        }
        let mut ours = Keyboard::new();
        let mut theirs = reference_keyboard();
        assert_eq!(ours.add_byte(0xE0), None);
        assert_eq!(theirs.add_byte(0xE0).ok().flatten(), None);
        let our_event = ours.add_byte(code);
        let their_event = theirs.add_byte(code).ok().flatten();
        assert!(
            events_agree(&our_event, &their_event),
            "extended byte {:#04x}: {:?} vs {:?}",
            code,
            our_event,
            their_event
        );
    }
}

#[test]
fn decoded_presses_match_the_reference_layout() {
    for code in 0x01..=0x58u8 {
        let mut ours = Keyboard::new();
        let mut theirs = reference_keyboard();
        let our_event = ours.add_byte(code);
        let their_event = theirs.add_byte(code).ok().flatten();
        match (our_event, their_event) {
            (None, None) => {}
            (Some(a), Some(b)) => {
                let our_key = ours.process_keyevent(a);
                let their_key = theirs.process_keyevent(b);
                let ours_text = format!("{:?}", our_key);
                let theirs_text = format!("{:?}", their_key);
                assert_eq!(ours_text, theirs_text, "press {:#04x}", code);
            }
            (a, b) => panic!("press {:#04x}: {:?} vs {:?}", code, a, b),
        }
    }
}
