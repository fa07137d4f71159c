//! IBM PC Keyboard Scancode Set 1 Conversion
//!
//! Converts host keyboard keys to IBM PC XT scancode set 1.
//!
//! In scancode set 1:
//! - Make codes are sent when a key is pressed
//! - Break codes are sent when a key is released (make code | 0x80)

use vstd::prelude::*;

verus! {

/// A key on the host keyboard, by its physical position (US layout names)
#[derive(Debug, Clone, Copy, PartialEq, Eq, Hash, Structural)]
pub enum KeyCode {
    Digit1,
    Digit2,
    Digit3,
    Digit4,
    Digit5,
    Digit6,
    Digit7,
    Digit8,
    Digit9,
    Digit0,
    KeyQ,
    KeyW,
    KeyE,
    KeyR,
    KeyT,
    KeyY,
    KeyU,
    KeyI,
    KeyO,
    KeyP,
    KeyA,
    KeyS,
    KeyD,
    KeyF,
    KeyG,
    KeyH,
    KeyJ,
    KeyK,
    KeyL,
    KeyZ,
    KeyX,
    KeyC,
    KeyV,
    KeyB,
    KeyN,
    KeyM,
    Escape,
    Backspace,
    Tab,
    Enter,
    Space,
    ControlLeft,
    ShiftLeft,
    ShiftRight,
    AltLeft,
    CapsLock,
    F1,
    F2,
    F3,
    F4,
    F5,
    F6,
    F7,
    F8,
    F9,
    F10,
    ArrowUp,
    ArrowLeft,
    ArrowRight,
    ArrowDown,
    Minus,
    Equal,
    BracketLeft,
    BracketRight,
    Semicolon,
    Quote,
    Backquote,
    Backslash,
    Comma,
    Period,
    Slash,
    NumLock,
    Numpad0,
    Numpad1,
    Numpad2,
    Numpad3,
    Numpad4,
    Numpad5,
    Numpad6,
    Numpad7,
    Numpad8,
    Numpad9,
    NumpadMultiply,
    NumpadSubtract,
    NumpadAdd,
    NumpadDecimal,
    ControlRight,
    AltRight,
    F11,
    F12,
    Insert,
    Delete,
    Home,
    End,
    PageUp,
    PageDown,
    PrintScreen,
    ScrollLock,
    Pause,
    NumpadEnter,
    NumpadDivide,
    SuperLeft,
    SuperRight,
    ContextMenu,
    IntlBackslash,
    /// Any other key
    Other,
}

/// A physical key: a known key code, or a key the host could not identify
#[derive(Debug, Clone, Copy, PartialEq, Eq, Hash, Structural)]
pub enum PhysicalKey {
    /// A key with a known code
    Code(KeyCode),
    /// A key the host could not identify
    Unidentified,
}

/// Scancode set 1 make code of a key, if the keyboard has that key
pub open spec fn scancode_of(code: KeyCode) -> Option<u8> {
    match code {
        KeyCode::Digit1 => Some(0x02u8),
        KeyCode::Digit2 => Some(0x03u8),
        KeyCode::Digit3 => Some(0x04u8),
        KeyCode::Digit4 => Some(0x05u8),
        KeyCode::Digit5 => Some(0x06u8),
        KeyCode::Digit6 => Some(0x07u8),
        KeyCode::Digit7 => Some(0x08u8),
        KeyCode::Digit8 => Some(0x09u8),
        KeyCode::Digit9 => Some(0x0Au8),
        KeyCode::Digit0 => Some(0x0Bu8),
        KeyCode::KeyQ => Some(0x10u8),
        KeyCode::KeyW => Some(0x11u8),
        KeyCode::KeyE => Some(0x12u8),
        KeyCode::KeyR => Some(0x13u8),
        KeyCode::KeyT => Some(0x14u8),
        KeyCode::KeyY => Some(0x15u8),
        KeyCode::KeyU => Some(0x16u8),
        KeyCode::KeyI => Some(0x17u8),
        KeyCode::KeyO => Some(0x18u8),
        KeyCode::KeyP => Some(0x19u8),
        KeyCode::KeyA => Some(0x1Eu8),
        KeyCode::KeyS => Some(0x1Fu8),
        KeyCode::KeyD => Some(0x20u8),
        KeyCode::KeyF => Some(0x21u8),
        KeyCode::KeyG => Some(0x22u8),
        KeyCode::KeyH => Some(0x23u8),
        KeyCode::KeyJ => Some(0x24u8),
        KeyCode::KeyK => Some(0x25u8),
        KeyCode::KeyL => Some(0x26u8),
        KeyCode::KeyZ => Some(0x2Cu8),
        KeyCode::KeyX => Some(0x2Du8),
        KeyCode::KeyC => Some(0x2Eu8),
        KeyCode::KeyV => Some(0x2Fu8),
        KeyCode::KeyB => Some(0x30u8),
        KeyCode::KeyN => Some(0x31u8),
        KeyCode::KeyM => Some(0x32u8),
        KeyCode::Escape => Some(0x01u8),
        KeyCode::Backspace => Some(0x0Eu8),
        KeyCode::Tab => Some(0x0Fu8),
        KeyCode::Enter => Some(0x1Cu8),
        KeyCode::Space => Some(0x39u8),
        KeyCode::ControlLeft => Some(0x1Du8),
        KeyCode::ShiftLeft => Some(0x2Au8),
        KeyCode::ShiftRight => Some(0x36u8),
        KeyCode::AltLeft => Some(0x38u8),
        KeyCode::CapsLock => Some(0x3Au8),
        KeyCode::F1 => Some(0x3Bu8),
        KeyCode::F2 => Some(0x3Cu8),
        KeyCode::F3 => Some(0x3Du8),
        KeyCode::F4 => Some(0x3Eu8),
        KeyCode::F5 => Some(0x3Fu8),
        KeyCode::F6 => Some(0x40u8),
        KeyCode::F7 => Some(0x41u8),
        KeyCode::F8 => Some(0x42u8),
        KeyCode::F9 => Some(0x43u8),
        KeyCode::F10 => Some(0x44u8),
        KeyCode::ArrowUp => Some(0x48u8),
        KeyCode::ArrowLeft => Some(0x4Bu8),
        KeyCode::ArrowRight => Some(0x4Du8),
        KeyCode::ArrowDown => Some(0x50u8),
        KeyCode::Minus => Some(0x0Cu8),
        KeyCode::Equal => Some(0x0Du8),
        KeyCode::BracketLeft => Some(0x1Au8),
        KeyCode::BracketRight => Some(0x1Bu8),
        KeyCode::Semicolon => Some(0x27u8),
        KeyCode::Quote => Some(0x28u8),
        KeyCode::Backquote => Some(0x29u8),
        KeyCode::Backslash => Some(0x2Bu8),
        KeyCode::Comma => Some(0x33u8),
        KeyCode::Period => Some(0x34u8),
        KeyCode::Slash => Some(0x35u8),
        KeyCode::NumLock => Some(0x45u8),
        KeyCode::Numpad0 => Some(0x52u8),
        KeyCode::Numpad1 => Some(0x4Fu8),
        KeyCode::Numpad2 => Some(0x50u8),
        KeyCode::Numpad3 => Some(0x51u8),
        KeyCode::Numpad4 => Some(0x4Bu8),
        KeyCode::Numpad5 => Some(0x4Cu8),
        KeyCode::Numpad6 => Some(0x4Du8),
        KeyCode::Numpad7 => Some(0x47u8),
        KeyCode::Numpad8 => Some(0x48u8),
        KeyCode::Numpad9 => Some(0x49u8),
        KeyCode::NumpadMultiply => Some(0x37u8),
        KeyCode::NumpadSubtract => Some(0x4Au8),
        KeyCode::NumpadAdd => Some(0x4Eu8),
        KeyCode::NumpadDecimal => Some(0x53u8),
        _ => None,
    }
}

/// Convert a physical key to IBM PC Scancode Set 1
///
/// Returns the make code (press) scancode. For break codes (release),
/// OR the result with 0x80.
pub fn physical_key_to_scancode(key: PhysicalKey) -> (r: Option<u8>)
    ensures
        r == match key {
            PhysicalKey::Code(code) => scancode_of(code),
            PhysicalKey::Unidentified => None,
        },
{
    match key {
        PhysicalKey::Code(code) => keycode_to_scancode(code),
        PhysicalKey::Unidentified => None,
    }
}

/// Convert a key code to IBM PC Scancode Set 1 make code
///
/// Every make code is below 0x80, so the break code (make | 0x80) of a key
/// differs from every make code.
pub fn keycode_to_scancode(code: KeyCode) -> (r: Option<u8>)
    ensures
        r == scancode_of(code),
        r matches Some(m) ==> 0 < m < 0x80,
{
    match code {
        KeyCode::Digit1 => Some(0x02),
        KeyCode::Digit2 => Some(0x03),
        KeyCode::Digit3 => Some(0x04),
        KeyCode::Digit4 => Some(0x05),
        KeyCode::Digit5 => Some(0x06),
        KeyCode::Digit6 => Some(0x07),
        KeyCode::Digit7 => Some(0x08),
        KeyCode::Digit8 => Some(0x09),
        KeyCode::Digit9 => Some(0x0A),
        KeyCode::Digit0 => Some(0x0B),
        KeyCode::KeyQ => Some(0x10),
        KeyCode::KeyW => Some(0x11),
        KeyCode::KeyE => Some(0x12),
        KeyCode::KeyR => Some(0x13),
        KeyCode::KeyT => Some(0x14),
        KeyCode::KeyY => Some(0x15),
        KeyCode::KeyU => Some(0x16),
        KeyCode::KeyI => Some(0x17),
        KeyCode::KeyO => Some(0x18),
        KeyCode::KeyP => Some(0x19),
        KeyCode::KeyA => Some(0x1E),
        KeyCode::KeyS => Some(0x1F),
        KeyCode::KeyD => Some(0x20),
        KeyCode::KeyF => Some(0x21),
        KeyCode::KeyG => Some(0x22),
        KeyCode::KeyH => Some(0x23),
        KeyCode::KeyJ => Some(0x24),
        KeyCode::KeyK => Some(0x25),
        KeyCode::KeyL => Some(0x26),
        KeyCode::KeyZ => Some(0x2C),
        KeyCode::KeyX => Some(0x2D),
        KeyCode::KeyC => Some(0x2E),
        KeyCode::KeyV => Some(0x2F),
        KeyCode::KeyB => Some(0x30),
        KeyCode::KeyN => Some(0x31),
        KeyCode::KeyM => Some(0x32),
        KeyCode::Escape => Some(0x01),
        KeyCode::Backspace => Some(0x0E),
        KeyCode::Tab => Some(0x0F),
        KeyCode::Enter => Some(0x1C),
        KeyCode::Space => Some(0x39),
        KeyCode::ControlLeft => Some(0x1D),
        KeyCode::ShiftLeft => Some(0x2A),
        KeyCode::ShiftRight => Some(0x36),
        KeyCode::AltLeft => Some(0x38),
        KeyCode::CapsLock => Some(0x3A),
        KeyCode::F1 => Some(0x3B),
        KeyCode::F2 => Some(0x3C),
        KeyCode::F3 => Some(0x3D),
        KeyCode::F4 => Some(0x3E),
        KeyCode::F5 => Some(0x3F),
        KeyCode::F6 => Some(0x40),
        KeyCode::F7 => Some(0x41),
        KeyCode::F8 => Some(0x42),
        KeyCode::F9 => Some(0x43),
        KeyCode::F10 => Some(0x44),
        KeyCode::ArrowUp => Some(0x48),
        KeyCode::ArrowLeft => Some(0x4B),
        KeyCode::ArrowRight => Some(0x4D),
        KeyCode::ArrowDown => Some(0x50),
        KeyCode::Minus => Some(0x0C),
        KeyCode::Equal => Some(0x0D),
        KeyCode::BracketLeft => Some(0x1A),
        KeyCode::BracketRight => Some(0x1B),
        KeyCode::Semicolon => Some(0x27),
        KeyCode::Quote => Some(0x28),
        KeyCode::Backquote => Some(0x29),
        KeyCode::Backslash => Some(0x2B),
        KeyCode::Comma => Some(0x33),
        KeyCode::Period => Some(0x34),
        KeyCode::Slash => Some(0x35),
        KeyCode::NumLock => Some(0x45),
        KeyCode::Numpad0 => Some(0x52),
        KeyCode::Numpad1 => Some(0x4F),
        KeyCode::Numpad2 => Some(0x50),
        KeyCode::Numpad3 => Some(0x51),
        KeyCode::Numpad4 => Some(0x4B),
        KeyCode::Numpad5 => Some(0x4C),
        KeyCode::Numpad6 => Some(0x4D),
        KeyCode::Numpad7 => Some(0x47),
        KeyCode::Numpad8 => Some(0x48),
        KeyCode::Numpad9 => Some(0x49),
        KeyCode::NumpadMultiply => Some(0x37),
        KeyCode::NumpadSubtract => Some(0x4A),
        KeyCode::NumpadAdd => Some(0x4E),
        KeyCode::NumpadDecimal => Some(0x53),
        _ => None,
    }
}

/// The keys of a row of the typing block, left to right: the digit row,
/// the Q row, the A row and the Z row, then the function keys F1 to F10
pub open spec fn key_row(row: int) -> Seq<KeyCode> {
    if row == 0 {
        seq![
            KeyCode::Digit1,
            KeyCode::Digit2,
            KeyCode::Digit3,
            KeyCode::Digit4,
            KeyCode::Digit5,
            KeyCode::Digit6,
            KeyCode::Digit7,
            KeyCode::Digit8,
            KeyCode::Digit9,
            KeyCode::Digit0,
            KeyCode::Minus,
            KeyCode::Equal,
        ]
    } else if row == 1 {
        seq![
            KeyCode::KeyQ,
            KeyCode::KeyW,
            KeyCode::KeyE,
            KeyCode::KeyR,
            KeyCode::KeyT,
            KeyCode::KeyY,
            KeyCode::KeyU,
            KeyCode::KeyI,
            KeyCode::KeyO,
            KeyCode::KeyP,
            KeyCode::BracketLeft,
            KeyCode::BracketRight,
        ]
    } else if row == 2 {
        seq![
            KeyCode::KeyA,
            KeyCode::KeyS,
            KeyCode::KeyD,
            KeyCode::KeyF,
            KeyCode::KeyG,
            KeyCode::KeyH,
            KeyCode::KeyJ,
            KeyCode::KeyK,
            KeyCode::KeyL,
            KeyCode::Semicolon,
            KeyCode::Quote,
            KeyCode::Backquote,
        ]
    } else if row == 3 {
        seq![
            KeyCode::KeyZ,
            KeyCode::KeyX,
            KeyCode::KeyC,
            KeyCode::KeyV,
            KeyCode::KeyB,
            KeyCode::KeyN,
            KeyCode::KeyM,
            KeyCode::Comma,
            KeyCode::Period,
            KeyCode::Slash,
        ]
    } else {
        seq![
            KeyCode::F1,
            KeyCode::F2,
            KeyCode::F3,
            KeyCode::F4,
            KeyCode::F5,
            KeyCode::F6,
            KeyCode::F7,
            KeyCode::F8,
            KeyCode::F9,
            KeyCode::F10,
        ]
    }
}

/// The make code of the leftmost key of each row of `key_row`
pub open spec fn row_base(row: int) -> int {
    if row == 0 {
        0x02
    } else if row == 1 {
        0x10
    } else if row == 2 {
        0x1E
    } else if row == 3 {
        0x2C
    } else {
        0x3B
    }
}

/// Make codes run along each row of the keyboard: the key in column `col`
/// of row `row` has the row's first code plus `col`.
pub proof fn law_rows_consecutive(row: int, col: int)
    requires
        0 <= row < 5,
        0 <= col < key_row(row).len(),
    ensures
        scancode_of(key_row(row)[col]) == Some((row_base(row) + col) as u8),
{
}

/// The key whose make code is `s`, among the keys that have a code of
/// their own (the keypad's 2, 4, 6 and 8 share theirs with the arrows)
pub open spec fn key_with_code(s: u8) -> Option<KeyCode> {
    match s {
        0x01u8 => Some(KeyCode::Escape),
        0x02u8 => Some(KeyCode::Digit1),
        0x03u8 => Some(KeyCode::Digit2),
        0x04u8 => Some(KeyCode::Digit3),
        0x05u8 => Some(KeyCode::Digit4),
        0x06u8 => Some(KeyCode::Digit5),
        0x07u8 => Some(KeyCode::Digit6),
        0x08u8 => Some(KeyCode::Digit7),
        0x09u8 => Some(KeyCode::Digit8),
        0x0Au8 => Some(KeyCode::Digit9),
        0x0Bu8 => Some(KeyCode::Digit0),
        0x0Cu8 => Some(KeyCode::Minus),
        0x0Du8 => Some(KeyCode::Equal),
        0x0Eu8 => Some(KeyCode::Backspace),
        0x0Fu8 => Some(KeyCode::Tab),
        0x10u8 => Some(KeyCode::KeyQ),
        0x11u8 => Some(KeyCode::KeyW),
        0x12u8 => Some(KeyCode::KeyE),
        0x13u8 => Some(KeyCode::KeyR),
        0x14u8 => Some(KeyCode::KeyT),
        0x15u8 => Some(KeyCode::KeyY),
        0x16u8 => Some(KeyCode::KeyU),
        0x17u8 => Some(KeyCode::KeyI),
        0x18u8 => Some(KeyCode::KeyO),
        0x19u8 => Some(KeyCode::KeyP),
        0x1Au8 => Some(KeyCode::BracketLeft),
        0x1Bu8 => Some(KeyCode::BracketRight),
        0x1Cu8 => Some(KeyCode::Enter),
        0x1Du8 => Some(KeyCode::ControlLeft),
        0x1Eu8 => Some(KeyCode::KeyA),
        0x1Fu8 => Some(KeyCode::KeyS),
        0x20u8 => Some(KeyCode::KeyD),
        0x21u8 => Some(KeyCode::KeyF),
        0x22u8 => Some(KeyCode::KeyG),
        0x23u8 => Some(KeyCode::KeyH),
        0x24u8 => Some(KeyCode::KeyJ),
        0x25u8 => Some(KeyCode::KeyK),
        0x26u8 => Some(KeyCode::KeyL),
        0x27u8 => Some(KeyCode::Semicolon),
        0x28u8 => Some(KeyCode::Quote),
        0x29u8 => Some(KeyCode::Backquote),
        0x2Au8 => Some(KeyCode::ShiftLeft),
        0x2Bu8 => Some(KeyCode::Backslash),
        0x2Cu8 => Some(KeyCode::KeyZ),
        0x2Du8 => Some(KeyCode::KeyX),
        0x2Eu8 => Some(KeyCode::KeyC),
        0x2Fu8 => Some(KeyCode::KeyV),
        0x30u8 => Some(KeyCode::KeyB),
        0x31u8 => Some(KeyCode::KeyN),
        0x32u8 => Some(KeyCode::KeyM),
        0x33u8 => Some(KeyCode::Comma),
        0x34u8 => Some(KeyCode::Period),
        0x35u8 => Some(KeyCode::Slash),
        0x36u8 => Some(KeyCode::ShiftRight),
        0x37u8 => Some(KeyCode::NumpadMultiply),
        0x38u8 => Some(KeyCode::AltLeft),
        0x39u8 => Some(KeyCode::Space),
        0x3Au8 => Some(KeyCode::CapsLock),
        0x3Bu8 => Some(KeyCode::F1),
        0x3Cu8 => Some(KeyCode::F2),
        0x3Du8 => Some(KeyCode::F3),
        0x3Eu8 => Some(KeyCode::F4),
        0x3Fu8 => Some(KeyCode::F5),
        0x40u8 => Some(KeyCode::F6),
        0x41u8 => Some(KeyCode::F7),
        0x42u8 => Some(KeyCode::F8),
        0x43u8 => Some(KeyCode::F9),
        0x44u8 => Some(KeyCode::F10),
        0x45u8 => Some(KeyCode::NumLock),
        0x47u8 => Some(KeyCode::Numpad7),
        0x48u8 => Some(KeyCode::ArrowUp),
        0x49u8 => Some(KeyCode::Numpad9),
        0x4Au8 => Some(KeyCode::NumpadSubtract),
        0x4Bu8 => Some(KeyCode::ArrowLeft),
        0x4Cu8 => Some(KeyCode::Numpad5),
        0x4Du8 => Some(KeyCode::ArrowRight),
        0x4Eu8 => Some(KeyCode::NumpadAdd),
        0x4Fu8 => Some(KeyCode::Numpad1),
        0x50u8 => Some(KeyCode::ArrowDown),
        0x51u8 => Some(KeyCode::Numpad3),
        0x52u8 => Some(KeyCode::Numpad0),
        0x53u8 => Some(KeyCode::NumpadDecimal),
        _ => None,
    }
}

/// Whether `code` is one of the keypad keys 2, 4, 6 and 8, which send the
/// same make codes as the arrow keys
pub open spec fn is_arrow_alias(code: KeyCode) -> bool {
    code == KeyCode::Numpad2 || code == KeyCode::Numpad4 || code == KeyCode::Numpad6 || code
        == KeyCode::Numpad8
}

/// Every key other than the keypad's arrow aliases is the only key with
/// its make code: the code names the key back.
pub proof fn law_code_names_key(code: KeyCode)
    ensures
        !is_arrow_alias(code) && scancode_of(code) is Some ==> key_with_code(
            scancode_of(code)->0,
        ) == Some(code),
{
}

/// Distinct keys send distinct make codes, the keypad's 2, 4, 6 and 8
/// (which send the arrow keys' codes) aside.
pub proof fn law_codes_distinct(k1: KeyCode, k2: KeyCode)
    requires
        !is_arrow_alias(k1),
        !is_arrow_alias(k2),
        scancode_of(k1) is Some,
        scancode_of(k1) == scancode_of(k2),
    ensures
        k1 == k2,
{
    law_code_names_key(k1);
    law_code_names_key(k2);
}

} // verus!
