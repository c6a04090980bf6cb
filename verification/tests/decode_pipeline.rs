//! The scancode decode pipeline: framing, mapping and policy.

use kernel_interrupts::keyboard::DecodedKey;
use kernel_interrupts::keyboard::DisplayAction;
use kernel_interrupts::keyboard::KeyCode;
use kernel_interrupts::keyboard::KeyState;
use kernel_interrupts::keyboard::Keyboard;

#[test]
fn press_then_release_round_trip_yields_one_press() {
    let mut kb = Keyboard::new();
    // press of the 'a' key
    let press = kb.add_byte(0x1E).expect("press byte must complete an event");
    assert_eq!(press.code, KeyCode::A);
    assert_eq!(press.state, KeyState::Down);
    // matching release: an event, but never a second press
    let release = kb.add_byte(0x9E).expect("release byte must complete an event");
    assert_eq!(release.code, KeyCode::A);
    assert_eq!(release.state, KeyState::Up);
}

#[test]
fn release_events_produce_no_visible_output() {
    let mut kb = Keyboard::new();
    let release = kb.add_byte(0x9E).unwrap();
    assert_eq!(kb.process_keyevent(release), None);
    let mut kb2 = Keyboard::new();
    assert_eq!(kb2.handle_scancode(0x9E), DisplayAction::Nothing);
}

#[test]
fn printable_press_decodes_to_its_character() {
    let kb = Keyboard::new();
    let mut framing = Keyboard::new();
    let ev = framing.add_byte(0x23).unwrap();
    assert_eq!(kb.process_keyevent(ev), Some(DecodedKey::Unicode('h')));
}

#[test]
fn extended_sequences_decode_across_two_bytes() {
    let mut kb = Keyboard::new();
    assert_eq!(kb.add_byte(0xE0), None);
    let ev = kb.add_byte(0x48).unwrap();
    assert_eq!(ev.code, KeyCode::ArrowUp);
    assert_eq!(ev.state, KeyState::Down);
    assert_eq!(kb.process_keyevent(ev), Some(DecodedKey::RawKey(KeyCode::ArrowUp)));
}

#[test]
fn unrecognized_bytes_yield_no_event_deterministically() {
    let junk: [u8; 6] = [0x55, 0x60, 0x6F, 0xD5, 0xE5, 0x7F];
    for _round in 0..2 {
        let mut kb = Keyboard::new();
        for byte in junk {
            assert_eq!(kb.add_byte(byte), None);
            assert_eq!(kb.handle_scancode(byte), DisplayAction::Nothing);
        }
    }
}

#[test]
fn unknown_extended_code_is_absorbed() {
    let mut kb = Keyboard::new();
    assert_eq!(kb.add_byte(0xE0), None);
    assert_eq!(kb.add_byte(0x11), None);
    // the decoder is back at ground state and keeps working
    let ev = kb.add_byte(0x1E).unwrap();
    assert_eq!(ev.code, KeyCode::A);
}

#[test]
fn backspace_press_asks_for_exactly_one_erase() {
    let mut kb = Keyboard::new();
    assert_eq!(kb.handle_scancode(0x0E), DisplayAction::EraseLast);
    // its release asks for nothing more
    assert_eq!(kb.handle_scancode(0x8E), DisplayAction::Nothing);
}

#[test]
fn escape_press_is_swallowed() {
    let mut kb = Keyboard::new();
    assert_eq!(kb.handle_scancode(0x01), DisplayAction::Nothing);
}

#[test]
fn non_printable_press_is_forwarded_in_debug_form() {
    let mut kb = Keyboard::new();
    assert_eq!(kb.handle_scancode(0x3B), DisplayAction::PrintRaw(KeyCode::F1));
}

#[test]
fn printable_press_is_forwarded_to_the_write_path() {
    let mut kb = Keyboard::new();
    assert_eq!(kb.handle_scancode(0x10), DisplayAction::Print('q'));
    assert_eq!(kb.handle_scancode(0x39), DisplayAction::Print(' '));
    assert_eq!(kb.handle_scancode(0x02), DisplayAction::Print('1'));
}
