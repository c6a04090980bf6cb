//! Scancode Decode Pipeline: a layered state machine that turns the raw
//! byte stream of a PS/2 keyboard (scancode set 1, US layout) into typed
//! key events.
//!
//! The framing layer accumulates multi-byte sequences (extended-key
//! prefixes, key-release markers) until a complete scancode is known; the
//! mapping layer turns the completed scancode into a semantic key identity
//! and, for printable keys, a character; the policy layer decides what the
//! display collaborator must do with the decoded event. Unknown bytes are
//! absorbed silently: they never produce an event and never fault.

use vstd::prelude::*;

verus! {

/// First byte of an extended (two-byte) scancode sequence.
pub const EXTENDED_PREFIX: u8 = 0xE0;

/// First byte of the rarer second extended sequence.
pub const EXTENDED2_PREFIX: u8 = 0xE1;

/// Bit that marks a scancode byte as a key release rather than a press.
pub const RELEASE_BIT: u8 = 0x80;

/// Semantic identity of a physical key.
#[derive(Clone, Copy, PartialEq, Eq, Structural, Debug)]
pub enum KeyCode {
    Escape,
    Key1,
    Key2,
    Key3,
    Key4,
    Key5,
    Key6,
    Key7,
    Key8,
    Key9,
    Key0,
    OemMinus,
    OemPlus,
    Backspace,
    Tab,
    Q,
    W,
    E,
    R,
    T,
    Y,
    U,
    I,
    O,
    P,
    Oem4,
    Oem6,
    Return,
    LControl,
    A,
    S,
    D,
    F,
    G,
    H,
    J,
    K,
    L,
    Oem1,
    Oem3,
    Oem8,
    LShift,
    Oem7,
    Z,
    X,
    C,
    V,
    B,
    N,
    M,
    OemComma,
    OemPeriod,
    Oem2,
    RShift,
    NumpadMultiply,
    LAlt,
    Spacebar,
    CapsLock,
    F1,
    F2,
    F3,
    F4,
    F5,
    F6,
    F7,
    F8,
    F9,
    F10,
    NumpadLock,
    ScrollLock,
    Numpad7,
    Numpad8,
    Numpad9,
    NumpadSubtract,
    Numpad4,
    Numpad5,
    Numpad6,
    NumpadAdd,
    Numpad1,
    Numpad2,
    Numpad3,
    Numpad0,
    NumpadPeriod,
    SysRq,
    Oem5,
    F11,
    F12,
    PrevTrack,
    NextTrack,
    NumpadEnter,
    RControl,
    Mute,
    Calculator,
    Play,
    Stop,
    RAlt2,
    VolumeDown,
    VolumeUp,
    WWWHome,
    NumpadDivide,
    PrintScreen,
    RAltGr,
    Home,
    ArrowUp,
    PageUp,
    ArrowLeft,
    ArrowRight,
    End,
    ArrowDown,
    PageDown,
    Insert,
    Delete,
    LWin,
    RWin,
    Apps,
    Oem11,
    Oem12,
    Oem10,
    Oem9,
    Oem13,
    RControl2,
}

/// Direction of a key transition.
#[derive(Clone, Copy, PartialEq, Eq, Structural, Debug)]
pub enum KeyState {
    Down,
    Up,
}

/// One complete decoded key transition.
#[derive(Clone, Copy, PartialEq, Eq, Structural, Debug)]
pub struct KeyEvent {
    pub code: KeyCode,
    pub state: KeyState,
}

/// A key press resolved to what it means: a printable character under the
/// fixed layout, or the bare key identity for everything else.
#[derive(Clone, Copy, PartialEq, Eq, Structural, Debug)]
pub enum DecodedKey {
    RawKey(KeyCode),
    Unicode(char),
}

/// Framing-layer state: which multi-byte sequence is in progress.
#[derive(Clone, Copy, PartialEq, Eq, Structural, Debug)]
pub enum DecodeState {
    Ground,
    Extended,
    Extended2,
}

/// What the keyboard handler asks of the display collaborator for one
/// decoded event.
#[derive(Clone, Copy, PartialEq, Eq, Structural, Debug)]
pub enum DisplayAction {
    Nothing,
    EraseLast,
    Print(char),
    PrintRaw(KeyCode),
}

/// The decoder itself. Re-entrant across interrupts: one instance persists
/// and is mutated only by the keyboard handler path.
pub struct Keyboard {
    pub state: DecodeState,
}

/// The single-byte scancode table of set 1.
pub open spec fn spec_map_scancode(code: u8) -> Option<KeyCode> {
    match code {
        0x01 => Some(KeyCode::Escape),
        0x02 => Some(KeyCode::Key1),
        0x03 => Some(KeyCode::Key2),
        0x04 => Some(KeyCode::Key3),
        0x05 => Some(KeyCode::Key4),
        0x06 => Some(KeyCode::Key5),
        0x07 => Some(KeyCode::Key6),
        0x08 => Some(KeyCode::Key7),
        0x09 => Some(KeyCode::Key8),
        0x0A => Some(KeyCode::Key9),
        0x0B => Some(KeyCode::Key0),
        0x0C => Some(KeyCode::OemMinus),
        0x0D => Some(KeyCode::OemPlus),
        0x0E => Some(KeyCode::Backspace),
        0x0F => Some(KeyCode::Tab),
        0x10 => Some(KeyCode::Q),
        0x11 => Some(KeyCode::W),
        0x12 => Some(KeyCode::E),
        0x13 => Some(KeyCode::R),
        0x14 => Some(KeyCode::T),
        0x15 => Some(KeyCode::Y),
        0x16 => Some(KeyCode::U),
        0x17 => Some(KeyCode::I),
        0x18 => Some(KeyCode::O),
        0x19 => Some(KeyCode::P),
        0x1A => Some(KeyCode::Oem4),
        0x1B => Some(KeyCode::Oem6),
        0x1C => Some(KeyCode::Return),
        0x1D => Some(KeyCode::LControl),
        0x1E => Some(KeyCode::A),
        0x1F => Some(KeyCode::S),
        0x20 => Some(KeyCode::D),
        0x21 => Some(KeyCode::F),
        0x22 => Some(KeyCode::G),
        0x23 => Some(KeyCode::H),
        0x24 => Some(KeyCode::J),
        0x25 => Some(KeyCode::K),
        0x26 => Some(KeyCode::L),
        0x27 => Some(KeyCode::Oem1),
        0x28 => Some(KeyCode::Oem3),
        0x29 => Some(KeyCode::Oem8),
        0x2A => Some(KeyCode::LShift),
        0x2B => Some(KeyCode::Oem7),
        0x2C => Some(KeyCode::Z),
        0x2D => Some(KeyCode::X),
        0x2E => Some(KeyCode::C),
        0x2F => Some(KeyCode::V),
        0x30 => Some(KeyCode::B),
        0x31 => Some(KeyCode::N),
        0x32 => Some(KeyCode::M),
        0x33 => Some(KeyCode::OemComma),
        0x34 => Some(KeyCode::OemPeriod),
        0x35 => Some(KeyCode::Oem2),
        0x36 => Some(KeyCode::RShift),
        0x37 => Some(KeyCode::NumpadMultiply),
        0x38 => Some(KeyCode::LAlt),
        0x39 => Some(KeyCode::Spacebar),
        0x3A => Some(KeyCode::CapsLock),
        0x3B => Some(KeyCode::F1),
        0x3C => Some(KeyCode::F2),
        0x3D => Some(KeyCode::F3),
        0x3E => Some(KeyCode::F4),
        0x3F => Some(KeyCode::F5),
        0x40 => Some(KeyCode::F6),
        0x41 => Some(KeyCode::F7),
        0x42 => Some(KeyCode::F8),
        0x43 => Some(KeyCode::F9),
        0x44 => Some(KeyCode::F10),
        0x45 => Some(KeyCode::NumpadLock),
        0x46 => Some(KeyCode::ScrollLock),
        0x47 => Some(KeyCode::Numpad7),
        0x48 => Some(KeyCode::Numpad8),
        0x49 => Some(KeyCode::Numpad9),
        0x4A => Some(KeyCode::NumpadSubtract),
        0x4B => Some(KeyCode::Numpad4),
        0x4C => Some(KeyCode::Numpad5),
        0x4D => Some(KeyCode::Numpad6),
        0x4E => Some(KeyCode::NumpadAdd),
        0x4F => Some(KeyCode::Numpad1),
        0x50 => Some(KeyCode::Numpad2),
        0x51 => Some(KeyCode::Numpad3),
        0x52 => Some(KeyCode::Numpad0),
        0x53 => Some(KeyCode::NumpadPeriod),
        0x54 => Some(KeyCode::SysRq),
        0x56 => Some(KeyCode::Oem5),
        0x57 => Some(KeyCode::F11),
        0x58 => Some(KeyCode::F12),
        _ => None,
    }
}

/// The extended scancode table (bytes after an `E0` prefix).
pub open spec fn spec_map_extended_scancode(code: u8) -> Option<KeyCode> {
    match code {
        0x10 => Some(KeyCode::PrevTrack),
        0x19 => Some(KeyCode::NextTrack),
        0x1C => Some(KeyCode::NumpadEnter),
        0x1D => Some(KeyCode::RControl),
        0x20 => Some(KeyCode::Mute),
        0x21 => Some(KeyCode::Calculator),
        0x22 => Some(KeyCode::Play),
        0x24 => Some(KeyCode::Stop),
        0x2A => Some(KeyCode::RAlt2),
        0x2E => Some(KeyCode::VolumeDown),
        0x30 => Some(KeyCode::VolumeUp),
        0x32 => Some(KeyCode::WWWHome),
        0x35 => Some(KeyCode::NumpadDivide),
        0x37 => Some(KeyCode::PrintScreen),
        0x38 => Some(KeyCode::RAltGr),
        0x47 => Some(KeyCode::Home),
        0x48 => Some(KeyCode::ArrowUp),
        0x49 => Some(KeyCode::PageUp),
        0x4B => Some(KeyCode::ArrowLeft),
        0x4D => Some(KeyCode::ArrowRight),
        0x4F => Some(KeyCode::End),
        0x50 => Some(KeyCode::ArrowDown),
        0x51 => Some(KeyCode::PageDown),
        0x52 => Some(KeyCode::Insert),
        0x53 => Some(KeyCode::Delete),
        0x5B => Some(KeyCode::LWin),
        0x5C => Some(KeyCode::RWin),
        0x5D => Some(KeyCode::Apps),
        0x70 => Some(KeyCode::Oem11),
        0x73 => Some(KeyCode::Oem12),
        0x79 => Some(KeyCode::Oem10),
        0x7B => Some(KeyCode::Oem9),
        0x7D => Some(KeyCode::Oem13),
        _ => None,
    }
}

/// The second extended table (bytes after an `E1` prefix).
pub open spec fn spec_map_extended2_scancode(code: u8) -> Option<KeyCode> {
    match code {
        0x1D => Some(KeyCode::RControl2),
        _ => None,
    }
}

/// Character produced by a key press under the fixed US layout, unshifted;
/// `None` for keys that carry no character.
pub open spec fn spec_char_for(code: KeyCode) -> Option<char> {
    match code {
        KeyCode::Escape => Some('\u{1b}'),
        KeyCode::Key1 => Some('1'),
        KeyCode::Key2 => Some('2'),
        KeyCode::Key3 => Some('3'),
        KeyCode::Key4 => Some('4'),
        KeyCode::Key5 => Some('5'),
        KeyCode::Key6 => Some('6'),
        KeyCode::Key7 => Some('7'),
        KeyCode::Key8 => Some('8'),
        KeyCode::Key9 => Some('9'),
        KeyCode::Key0 => Some('0'),
        KeyCode::OemMinus => Some('-'),
        KeyCode::OemPlus => Some('='),
        KeyCode::Backspace => Some('\u{8}'),
        KeyCode::Tab => Some('\t'),
        KeyCode::Q => Some('q'),
        KeyCode::W => Some('w'),
        KeyCode::E => Some('e'),
        KeyCode::R => Some('r'),
        KeyCode::T => Some('t'),
        KeyCode::Y => Some('y'),
        KeyCode::U => Some('u'),
        KeyCode::I => Some('i'),
        KeyCode::O => Some('o'),
        KeyCode::P => Some('p'),
        KeyCode::Oem4 => Some('['),
        KeyCode::Oem6 => Some(']'),
        KeyCode::Return => Some('\n'),
        KeyCode::A => Some('a'),
        KeyCode::S => Some('s'),
        KeyCode::D => Some('d'),
        KeyCode::F => Some('f'),
        KeyCode::G => Some('g'),
        KeyCode::H => Some('h'),
        KeyCode::J => Some('j'),
        KeyCode::K => Some('k'),
        KeyCode::L => Some('l'),
        KeyCode::Oem1 => Some(';'),
        KeyCode::Oem3 => Some('\''),
        KeyCode::Oem8 => Some('`'),
        KeyCode::Z => Some('z'),
        KeyCode::X => Some('x'),
        KeyCode::C => Some('c'),
        KeyCode::V => Some('v'),
        KeyCode::B => Some('b'),
        KeyCode::N => Some('n'),
        KeyCode::M => Some('m'),
        KeyCode::OemComma => Some(','),
        KeyCode::OemPeriod => Some('.'),
        KeyCode::Oem2 => Some('/'),
        KeyCode::NumpadMultiply => Some('*'),
        KeyCode::Spacebar => Some(' '),
        KeyCode::Numpad7 => Some('7'),
        KeyCode::Numpad8 => Some('8'),
        KeyCode::Numpad9 => Some('9'),
        KeyCode::NumpadSubtract => Some('-'),
        KeyCode::Numpad4 => Some('4'),
        KeyCode::Numpad5 => Some('5'),
        KeyCode::Numpad6 => Some('6'),
        KeyCode::NumpadAdd => Some('+'),
        KeyCode::Numpad1 => Some('1'),
        KeyCode::Numpad2 => Some('2'),
        KeyCode::Numpad3 => Some('3'),
        KeyCode::Numpad0 => Some('0'),
        KeyCode::NumpadPeriod => Some('.'),
        KeyCode::Oem5 => Some('\\'),
        KeyCode::NumpadEnter => Some('\n'),
        KeyCode::NumpadDivide => Some('/'),
        KeyCode::Delete => Some('\u{7f}'),
        _ => None,
    }
}

/// A press event for `code`.
pub open spec fn press_event(code: KeyCode) -> Option<KeyEvent> {
    Some(KeyEvent { code, state: KeyState::Down })
}

/// A release event for `code`.
pub open spec fn release_event(code: KeyCode) -> Option<KeyEvent> {
    Some(KeyEvent { code, state: KeyState::Up })
}

/// One step of the framing layer: the next state and the completed event,
/// if this byte finishes a scancode.
pub open spec fn spec_advance(st: DecodeState, byte: u8) -> (DecodeState, Option<KeyEvent>) {
    match st {
        DecodeState::Ground => {
            if byte == EXTENDED_PREFIX {
                (DecodeState::Extended, None::<KeyEvent>)
            } else if byte == EXTENDED2_PREFIX {
                (DecodeState::Extended2, None::<KeyEvent>)
            } else if byte >= RELEASE_BIT {
                (
                    DecodeState::Ground,
                    match spec_map_scancode((byte - RELEASE_BIT) as u8) {
                        Some(k) => release_event(k),
                        None => None,
                    },
                )
            } else {
                (
                    DecodeState::Ground,
                    match spec_map_scancode(byte) {
                        Some(k) => press_event(k),
                        None => None,
                    },
                )
            }
        },
        DecodeState::Extended => (
            DecodeState::Ground,
            if byte >= RELEASE_BIT {
                match spec_map_extended_scancode((byte - RELEASE_BIT) as u8) {
                    Some(k) => release_event(k),
                    None => None,
                }
            } else {
                match spec_map_extended_scancode(byte) {
                    Some(k) => press_event(k),
                    None => None,
                }
            },
        ),
        DecodeState::Extended2 => (
            DecodeState::Ground,
            if byte >= RELEASE_BIT {
                match spec_map_extended2_scancode((byte - RELEASE_BIT) as u8) {
                    Some(k) => release_event(k),
                    None => None,
                }
            } else {
                match spec_map_extended2_scancode(byte) {
                    Some(k) => press_event(k),
                    None => None,
                }
            },
        ),
    }
}

/// The mapping layer's verdict on a completed event: presses resolve to a
/// character where the layout has one and to the bare key otherwise;
/// releases resolve to nothing, so only presses become visible.
pub open spec fn spec_decode_key(ev: KeyEvent) -> Option<DecodedKey> {
    match ev.state {
        KeyState::Down => match spec_char_for(ev.code) {
            Some(c) => Some(DecodedKey::Unicode(c)),
            None => Some(DecodedKey::RawKey(ev.code)),
        },
        KeyState::Up => None,
    }
}

/// The policy layer: Backspace erases the last character, Escape is
/// swallowed, a printable press is written, any other press is forwarded
/// in debug form, and everything else — releases, incomplete or unknown
/// sequences — does nothing.
pub open spec fn spec_action_for(ev: Option<KeyEvent>) -> DisplayAction {
    match ev {
        None => DisplayAction::Nothing,
        Some(e) => match e.state {
            KeyState::Up => DisplayAction::Nothing,
            KeyState::Down => {
                if e.code == KeyCode::Backspace {
                    DisplayAction::EraseLast
                } else if e.code == KeyCode::Escape {
                    DisplayAction::Nothing
                } else {
                    match spec_char_for(e.code) {
                        Some(c) => DisplayAction::Print(c),
                        None => DisplayAction::PrintRaw(e.code),
                    }
                }
            },
        },
    }
}

/// What one raw byte, fed in state `st`, asks of the display.
pub open spec fn spec_action(st: DecodeState, byte: u8) -> DisplayAction {
    spec_action_for(spec_advance(st, byte).1)
}

impl Keyboard {
    pub fn new() -> (r: Keyboard)
        ensures
            r.state == DecodeState::Ground,
    {
        Keyboard { state: DecodeState::Ground }
    }

    /// Framing layer: feed one raw byte; returns the completed key event,
    /// or `None` while a sequence is still in progress or the byte is
    /// unknown. Total over all byte values: it never faults.
    pub fn add_byte(&mut self, byte: u8) -> (ev: Option<KeyEvent>)
        ensures
            final(self).state == spec_advance(old(self).state, byte).0,
            ev == spec_advance(old(self).state, byte).1,
    {
        match self.state {
            DecodeState::Ground => {
                if byte == EXTENDED_PREFIX {
                    self.state = DecodeState::Extended;
                    None
                } else if byte == EXTENDED2_PREFIX {
                    self.state = DecodeState::Extended2;
                    None
                } else if byte >= RELEASE_BIT {
                    match map_scancode(byte - RELEASE_BIT) {
                        Some(k) => Some(KeyEvent { code: k, state: KeyState::Up }),
                        None => None,
                    }
                } else {
                    match map_scancode(byte) {
                        Some(k) => Some(KeyEvent { code: k, state: KeyState::Down }),
                        None => None,
                    }
                }
            },
            DecodeState::Extended => {
                self.state = DecodeState::Ground;
                if byte >= RELEASE_BIT {
                    match map_extended_scancode(byte - RELEASE_BIT) {
                        Some(k) => Some(KeyEvent { code: k, state: KeyState::Up }),
                        None => None,
                    }
                } else {
                    match map_extended_scancode(byte) {
                        Some(k) => Some(KeyEvent { code: k, state: KeyState::Down }),
                        None => None,
                    }
                }
            },
            DecodeState::Extended2 => {
                self.state = DecodeState::Ground;
                if byte >= RELEASE_BIT {
                    match map_extended2_scancode(byte - RELEASE_BIT) {
                        Some(k) => Some(KeyEvent { code: k, state: KeyState::Up }),
                        None => None,
                    }
                } else {
                    match map_extended2_scancode(byte) {
                        Some(k) => Some(KeyEvent { code: k, state: KeyState::Down }),
                        None => None,
                    }
                }
            },
        }
    }

    /// Mapping layer: resolve a completed event to its decoded key.
    pub fn process_keyevent(&self, ev: KeyEvent) -> (r: Option<DecodedKey>)
        ensures
            r == spec_decode_key(ev),
    {
        match ev.state {
            KeyState::Down => match char_for(ev.code) {
                Some(c) => Some(DecodedKey::Unicode(c)),
                None => Some(DecodedKey::RawKey(ev.code)),
            },
            KeyState::Up => None,
        }
    }

    /// Framing, mapping and policy in one step: feed one raw byte and
    /// decide what the display collaborator must do.
    pub fn handle_scancode(&mut self, byte: u8) -> (a: DisplayAction)
        ensures
            final(self).state == spec_advance(old(self).state, byte).0,
            a == spec_action(old(self).state, byte),
    {
        let ev = self.add_byte(byte);
        match ev {
            None => DisplayAction::Nothing,
            Some(e) => match e.state {
                KeyState::Up => DisplayAction::Nothing,
                KeyState::Down => {
                    if e.code == KeyCode::Backspace {
                        DisplayAction::EraseLast
                    } else if e.code == KeyCode::Escape {
                        DisplayAction::Nothing
                    } else {
                        match char_for(e.code) {
                            Some(c) => DisplayAction::Print(c),
                            None => DisplayAction::PrintRaw(e.code),
                        }
                    }
                },
            },
        }
    }
}

/// Executable single-byte scancode table; agrees with the specification
/// table on every byte.
pub fn map_scancode(code: u8) -> (r: Option<KeyCode>)
    ensures
        r == spec_map_scancode(code),
{
    match code {
        0x01 => Some(KeyCode::Escape),
        0x02 => Some(KeyCode::Key1),
        0x03 => Some(KeyCode::Key2),
        0x04 => Some(KeyCode::Key3),
        0x05 => Some(KeyCode::Key4),
        0x06 => Some(KeyCode::Key5),
        0x07 => Some(KeyCode::Key6),
        0x08 => Some(KeyCode::Key7),
        0x09 => Some(KeyCode::Key8),
        0x0A => Some(KeyCode::Key9),
        0x0B => Some(KeyCode::Key0),
        0x0C => Some(KeyCode::OemMinus),
        0x0D => Some(KeyCode::OemPlus),
        0x0E => Some(KeyCode::Backspace),
        0x0F => Some(KeyCode::Tab),
        0x10 => Some(KeyCode::Q),
        0x11 => Some(KeyCode::W),
        0x12 => Some(KeyCode::E),
        0x13 => Some(KeyCode::R),
        0x14 => Some(KeyCode::T),
        0x15 => Some(KeyCode::Y),
        0x16 => Some(KeyCode::U),
        0x17 => Some(KeyCode::I),
        0x18 => Some(KeyCode::O),
        0x19 => Some(KeyCode::P),
        0x1A => Some(KeyCode::Oem4),
        0x1B => Some(KeyCode::Oem6),
        0x1C => Some(KeyCode::Return),
        0x1D => Some(KeyCode::LControl),
        0x1E => Some(KeyCode::A),
        0x1F => Some(KeyCode::S),
        0x20 => Some(KeyCode::D),
        0x21 => Some(KeyCode::F),
        0x22 => Some(KeyCode::G),
        0x23 => Some(KeyCode::H),
        0x24 => Some(KeyCode::J),
        0x25 => Some(KeyCode::K),
        0x26 => Some(KeyCode::L),
        0x27 => Some(KeyCode::Oem1),
        0x28 => Some(KeyCode::Oem3),
        0x29 => Some(KeyCode::Oem8),
        0x2A => Some(KeyCode::LShift),
        0x2B => Some(KeyCode::Oem7),
        0x2C => Some(KeyCode::Z),
        0x2D => Some(KeyCode::X),
        0x2E => Some(KeyCode::C),
        0x2F => Some(KeyCode::V),
        0x30 => Some(KeyCode::B),
        0x31 => Some(KeyCode::N),
        0x32 => Some(KeyCode::M),
        0x33 => Some(KeyCode::OemComma),
        0x34 => Some(KeyCode::OemPeriod),
        0x35 => Some(KeyCode::Oem2),
        0x36 => Some(KeyCode::RShift),
        0x37 => Some(KeyCode::NumpadMultiply),
        0x38 => Some(KeyCode::LAlt),
        0x39 => Some(KeyCode::Spacebar),
        0x3A => Some(KeyCode::CapsLock),
        0x3B => Some(KeyCode::F1),
        0x3C => Some(KeyCode::F2),
        0x3D => Some(KeyCode::F3),
        0x3E => Some(KeyCode::F4),
        0x3F => Some(KeyCode::F5),
        0x40 => Some(KeyCode::F6),
        0x41 => Some(KeyCode::F7),
        0x42 => Some(KeyCode::F8),
        0x43 => Some(KeyCode::F9),
        0x44 => Some(KeyCode::F10),
        0x45 => Some(KeyCode::NumpadLock),
        0x46 => Some(KeyCode::ScrollLock),
        0x47 => Some(KeyCode::Numpad7),
        0x48 => Some(KeyCode::Numpad8),
        0x49 => Some(KeyCode::Numpad9),
        0x4A => Some(KeyCode::NumpadSubtract),
        0x4B => Some(KeyCode::Numpad4),
        0x4C => Some(KeyCode::Numpad5),
        0x4D => Some(KeyCode::Numpad6),
        0x4E => Some(KeyCode::NumpadAdd),
        0x4F => Some(KeyCode::Numpad1),
        0x50 => Some(KeyCode::Numpad2),
        0x51 => Some(KeyCode::Numpad3),
        0x52 => Some(KeyCode::Numpad0),
        0x53 => Some(KeyCode::NumpadPeriod),
        0x54 => Some(KeyCode::SysRq),
        0x56 => Some(KeyCode::Oem5),
        0x57 => Some(KeyCode::F11),
        0x58 => Some(KeyCode::F12),
        _ => None,
    }
}

/// Executable extended scancode table.
pub fn map_extended_scancode(code: u8) -> (r: Option<KeyCode>)
    ensures
        r == spec_map_extended_scancode(code),
{
    match code {
        0x10 => Some(KeyCode::PrevTrack),
        0x19 => Some(KeyCode::NextTrack),
        0x1C => Some(KeyCode::NumpadEnter),
        0x1D => Some(KeyCode::RControl),
        0x20 => Some(KeyCode::Mute),
        0x21 => Some(KeyCode::Calculator),
        0x22 => Some(KeyCode::Play),
        0x24 => Some(KeyCode::Stop),
        0x2A => Some(KeyCode::RAlt2),
        0x2E => Some(KeyCode::VolumeDown),
        0x30 => Some(KeyCode::VolumeUp),
        0x32 => Some(KeyCode::WWWHome),
        0x35 => Some(KeyCode::NumpadDivide),
        0x37 => Some(KeyCode::PrintScreen),
        0x38 => Some(KeyCode::RAltGr),
        0x47 => Some(KeyCode::Home),
        0x48 => Some(KeyCode::ArrowUp),
        0x49 => Some(KeyCode::PageUp),
        0x4B => Some(KeyCode::ArrowLeft),
        0x4D => Some(KeyCode::ArrowRight),
        0x4F => Some(KeyCode::End),
        0x50 => Some(KeyCode::ArrowDown),
        0x51 => Some(KeyCode::PageDown),
        0x52 => Some(KeyCode::Insert),
        0x53 => Some(KeyCode::Delete),
        0x5B => Some(KeyCode::LWin),
        0x5C => Some(KeyCode::RWin),
        0x5D => Some(KeyCode::Apps),
        0x70 => Some(KeyCode::Oem11),
        0x73 => Some(KeyCode::Oem12),
        0x79 => Some(KeyCode::Oem10),
        0x7B => Some(KeyCode::Oem9),
        0x7D => Some(KeyCode::Oem13),
        _ => None,
    }
}

/// Executable second extended table.
pub fn map_extended2_scancode(code: u8) -> (r: Option<KeyCode>)
    ensures
        r == spec_map_extended2_scancode(code),
{
    match code {
        0x1D => Some(KeyCode::RControl2),
        _ => None,
    }
}

/// Executable layout table: the character a key press produces, if any.
pub fn char_for(code: KeyCode) -> (r: Option<char>)
    ensures
        r == spec_char_for(code),
{
    match code {
        KeyCode::Escape => Some('\u{1b}'),
        KeyCode::Key1 => Some('1'),
        KeyCode::Key2 => Some('2'),
        KeyCode::Key3 => Some('3'),
        KeyCode::Key4 => Some('4'),
        KeyCode::Key5 => Some('5'),
        KeyCode::Key6 => Some('6'),
        KeyCode::Key7 => Some('7'),
        KeyCode::Key8 => Some('8'),
        KeyCode::Key9 => Some('9'),
        KeyCode::Key0 => Some('0'),
        KeyCode::OemMinus => Some('-'),
        KeyCode::OemPlus => Some('='),
        KeyCode::Backspace => Some('\u{8}'),
        KeyCode::Tab => Some('\t'),
        KeyCode::Q => Some('q'),
        KeyCode::W => Some('w'),
        KeyCode::E => Some('e'),
        KeyCode::R => Some('r'),
        KeyCode::T => Some('t'),
        KeyCode::Y => Some('y'),
        KeyCode::U => Some('u'),
        KeyCode::I => Some('i'),
        KeyCode::O => Some('o'),
        KeyCode::P => Some('p'),
        KeyCode::Oem4 => Some('['),
        KeyCode::Oem6 => Some(']'),
        KeyCode::Return => Some('\n'),
        KeyCode::A => Some('a'),
        KeyCode::S => Some('s'),
        KeyCode::D => Some('d'),
        KeyCode::F => Some('f'),
        KeyCode::G => Some('g'),
        KeyCode::H => Some('h'),
        KeyCode::J => Some('j'),
        KeyCode::K => Some('k'),
        KeyCode::L => Some('l'),
        KeyCode::Oem1 => Some(';'),
        KeyCode::Oem3 => Some('\''),
        KeyCode::Oem8 => Some('`'),
        KeyCode::Z => Some('z'),
        KeyCode::X => Some('x'),
        KeyCode::C => Some('c'),
        KeyCode::V => Some('v'),
        KeyCode::B => Some('b'),
        KeyCode::N => Some('n'),
        KeyCode::M => Some('m'),
        KeyCode::OemComma => Some(','),
        KeyCode::OemPeriod => Some('.'),
        KeyCode::Oem2 => Some('/'),
        KeyCode::NumpadMultiply => Some('*'),
        KeyCode::Spacebar => Some(' '),
        KeyCode::Numpad7 => Some('7'),
        KeyCode::Numpad8 => Some('8'),
        KeyCode::Numpad9 => Some('9'),
        KeyCode::NumpadSubtract => Some('-'),
        KeyCode::Numpad4 => Some('4'),
        KeyCode::Numpad5 => Some('5'),
        KeyCode::Numpad6 => Some('6'),
        KeyCode::NumpadAdd => Some('+'),
        KeyCode::Numpad1 => Some('1'),
        KeyCode::Numpad2 => Some('2'),
        KeyCode::Numpad3 => Some('3'),
        KeyCode::Numpad0 => Some('0'),
        KeyCode::NumpadPeriod => Some('.'),
        KeyCode::Oem5 => Some('\\'),
        KeyCode::NumpadEnter => Some('\n'),
        KeyCode::NumpadDivide => Some('/'),
        KeyCode::Delete => Some('\u{7f}'),
        _ => None,
    }
}

/// Round trip: in ground state, a recognized press byte yields exactly one
/// press event of its key, and the matching release byte then yields a
/// release event of the same key — never a second press — with the decoder
/// back at ground state after each byte.
pub proof fn lemma_press_release_round_trip(code: u8, key: KeyCode)
    requires
        code < RELEASE_BIT,
        spec_map_scancode(code) == Some(key),
    ensures
        spec_advance(DecodeState::Ground, code).0 == DecodeState::Ground,
        spec_advance(DecodeState::Ground, code).1 == press_event(key),
        spec_advance(DecodeState::Ground, (code + RELEASE_BIT) as u8).0 == DecodeState::Ground,
        spec_advance(DecodeState::Ground, (code + RELEASE_BIT) as u8).1 == release_event(key),
        spec_advance(DecodeState::Ground, (code + RELEASE_BIT) as u8).1 != press_event(key),
{
}

/// Decoder run over a whole byte stream: final state and every completed
/// event, in order.
pub open spec fn spec_run(st: DecodeState, bytes: Seq<u8>) -> (DecodeState, Seq<KeyEvent>)
    decreases bytes.len(),
{
    if bytes.len() == 0 {
        (st, Seq::<KeyEvent>::empty())
    } else {
        let step = spec_advance(st, bytes[0]);
        let rest = spec_run(step.0, bytes.drop_first());
        (
            rest.0,
            (match step.1 {
                Some(e) => seq![e],
                None => Seq::<KeyEvent>::empty(),
            }) + rest.1,
        )
    }
}

/// Round trip over the stream itself: feeding the canonical press byte
/// of a recognized key followed by its release byte yields exactly the
/// press event and then the release event — one press, never two — and
/// leaves the decoder at ground state.
pub proof fn lemma_round_trip_stream(code: u8, key: KeyCode)
    requires
        code < RELEASE_BIT,
        spec_map_scancode(code) == Some(key),
    ensures
        ({
            let run = spec_run(DecodeState::Ground, seq![code, (code + RELEASE_BIT) as u8]);
            &&& run.0 == DecodeState::Ground
            &&& run.1 =~= seq![
                KeyEvent { code: key, state: KeyState::Down },
                KeyEvent { code: key, state: KeyState::Up },
            ]
        }),
{
    let bytes = seq![code, (code + RELEASE_BIT) as u8];
    assert(bytes.drop_first() =~= seq![(code + RELEASE_BIT) as u8]);
    assert(bytes.drop_first().drop_first() =~= Seq::<u8>::empty());
    reveal_with_fuel(spec_run, 4);
}

/// A byte that no framing state turns into an event: not a prefix byte,
/// and absent from every table both as a press and as a release.
pub open spec fn spec_unrecognized(byte: u8) -> bool {
    &&& byte != EXTENDED_PREFIX
    &&& byte != EXTENDED2_PREFIX
    &&& spec_map_scancode(low_bits(byte)) is None
    &&& spec_map_extended_scancode(low_bits(byte)) is None
    &&& spec_map_extended2_scancode(low_bits(byte)) is None
}

/// The scancode proper, with the release bit stripped.
pub open spec fn low_bits(byte: u8) -> u8 {
    if byte >= RELEASE_BIT {
        (byte - RELEASE_BIT) as u8
    } else {
        byte
    }
}

/// Feeding any stream of unrecognized bytes never faults and never yields
/// an event: the decoder absorbs the stream deterministically and ends at
/// ground state.
pub proof fn lemma_unrecognized_bytes_no_event(st: DecodeState, bytes: Seq<u8>)
    requires
        forall|i: int| 0 <= i < bytes.len() ==> spec_unrecognized(bytes[i]),
    ensures
        spec_run(st, bytes).1 =~= Seq::<KeyEvent>::empty(),
        bytes.len() > 0 ==> spec_run(st, bytes).0 == DecodeState::Ground,
    decreases bytes.len(),
{
    if bytes.len() == 0 {
    } else {
        assert(spec_unrecognized(bytes[0]));
        lemma_unrecognized_bytes_no_event(spec_advance(st, bytes[0]).0, bytes.drop_first());
    }
}

/// A release never asks anything of the display: only key presses are
/// visible.
pub proof fn lemma_release_produces_no_output(ev: KeyEvent)
    requires
        ev.state == KeyState::Up,
    ensures
        spec_action_for(Some(ev)) == DisplayAction::Nothing,
{
}

} // verus!
