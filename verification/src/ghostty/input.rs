//! Keyboard input as the terminal engine sees it: its key codes and its
//! modifier bits, and how GDK hardware keycodes and modifier masks map to them.
use vstd::prelude::*;

verus! {

/// A key of the terminal engine's key enumeration (physical keys, named as
/// on a US QWERTY layout).
#[derive(Debug, Clone, Copy, PartialEq, Eq, Structural)]
pub enum GhosttyKey {
    Unidentified,
    Escape,
    Digit1,
    Digit2,
    Digit3,
    Digit4,
    Digit5,
    Digit6,
    Digit7,
    Digit8,
    Digit9,
    Digit0,
    Minus,
    Equal,
    Backspace,
    Tab,
    Q,
    W,
    E,
    R,
    T,
    Y,
    U,
    I,
    O,
    P,
    BracketLeft,
    BracketRight,
    Enter,
    ControlLeft,
    A,
    S,
    D,
    F,
    G,
    H,
    J,
    K,
    L,
    Semicolon,
    Quote,
    Backquote,
    ShiftLeft,
    Backslash,
    Z,
    X,
    C,
    V,
    B,
    N,
    M,
    Comma,
    Period,
    Slash,
    ShiftRight,
    NumpadMultiply,
    AltLeft,
    Space,
    CapsLock,
    F1,
    F2,
    F3,
    F4,
    F5,
    F6,
    F7,
    F8,
    F9,
    F10,
    Numpad7,
    Numpad8,
    Numpad9,
    NumpadSubtract,
    Numpad4,
    Numpad5,
    Numpad6,
    NumpadAdd,
    Numpad1,
    Numpad2,
    Numpad3,
    Numpad0,
    NumpadDecimal,
    F11,
    F12,
    NumpadEnter,
    ControlRight,
    NumpadDivide,
    AltRight,
    Home,
    ArrowUp,
    PageUp,
    ArrowLeft,
    ArrowRight,
    End,
    ArrowDown,
    PageDown,
    Insert,
    Delete,
    MetaLeft,
    MetaRight,
    ContextMenu,
}

/// The X11 hardware keycode (scancode + 8) of each key that has one;
/// `Unidentified` has none.
pub open spec fn hardware_keycode(key: GhosttyKey) -> Option<u32> {
    match key {
        GhosttyKey::Unidentified => None,
        GhosttyKey::Escape => Some(9u32),
        GhosttyKey::Digit1 => Some(10u32),
        GhosttyKey::Digit2 => Some(11u32),
        GhosttyKey::Digit3 => Some(12u32),
        GhosttyKey::Digit4 => Some(13u32),
        GhosttyKey::Digit5 => Some(14u32),
        GhosttyKey::Digit6 => Some(15u32),
        GhosttyKey::Digit7 => Some(16u32),
        GhosttyKey::Digit8 => Some(17u32),
        GhosttyKey::Digit9 => Some(18u32),
        GhosttyKey::Digit0 => Some(19u32),
        GhosttyKey::Minus => Some(20u32),
        GhosttyKey::Equal => Some(21u32),
        GhosttyKey::Backspace => Some(22u32),
        GhosttyKey::Tab => Some(23u32),
        GhosttyKey::Q => Some(24u32),
        GhosttyKey::W => Some(25u32),
        GhosttyKey::E => Some(26u32),
        GhosttyKey::R => Some(27u32),
        GhosttyKey::T => Some(28u32),
        GhosttyKey::Y => Some(29u32),
        GhosttyKey::U => Some(30u32),
        GhosttyKey::I => Some(31u32),
        GhosttyKey::O => Some(32u32),
        GhosttyKey::P => Some(33u32),
        GhosttyKey::BracketLeft => Some(34u32),
        GhosttyKey::BracketRight => Some(35u32),
        GhosttyKey::Enter => Some(36u32),
        GhosttyKey::ControlLeft => Some(37u32),
        GhosttyKey::A => Some(38u32),
        GhosttyKey::S => Some(39u32),
        GhosttyKey::D => Some(40u32),
        GhosttyKey::F => Some(41u32),
        GhosttyKey::G => Some(42u32),
        GhosttyKey::H => Some(43u32),
        GhosttyKey::J => Some(44u32),
        GhosttyKey::K => Some(45u32),
        GhosttyKey::L => Some(46u32),
        GhosttyKey::Semicolon => Some(47u32),
        GhosttyKey::Quote => Some(48u32),
        GhosttyKey::Backquote => Some(49u32),
        GhosttyKey::ShiftLeft => Some(50u32),
        GhosttyKey::Backslash => Some(51u32),
        GhosttyKey::Z => Some(52u32),
        GhosttyKey::X => Some(53u32),
        GhosttyKey::C => Some(54u32),
        GhosttyKey::V => Some(55u32),
        GhosttyKey::B => Some(56u32),
        GhosttyKey::N => Some(57u32),
        GhosttyKey::M => Some(58u32),
        GhosttyKey::Comma => Some(59u32),
        GhosttyKey::Period => Some(60u32),
        GhosttyKey::Slash => Some(61u32),
        GhosttyKey::ShiftRight => Some(62u32),
        GhosttyKey::NumpadMultiply => Some(63u32),
        GhosttyKey::AltLeft => Some(64u32),
        GhosttyKey::Space => Some(65u32),
        GhosttyKey::CapsLock => Some(66u32),
        GhosttyKey::F1 => Some(67u32),
        GhosttyKey::F2 => Some(68u32),
        GhosttyKey::F3 => Some(69u32),
        GhosttyKey::F4 => Some(70u32),
        GhosttyKey::F5 => Some(71u32),
        GhosttyKey::F6 => Some(72u32),
        GhosttyKey::F7 => Some(73u32),
        GhosttyKey::F8 => Some(74u32),
        GhosttyKey::F9 => Some(75u32),
        GhosttyKey::F10 => Some(76u32),
        GhosttyKey::Numpad7 => Some(79u32),
        GhosttyKey::Numpad8 => Some(80u32),
        GhosttyKey::Numpad9 => Some(81u32),
        GhosttyKey::NumpadSubtract => Some(82u32),
        GhosttyKey::Numpad4 => Some(83u32),
        GhosttyKey::Numpad5 => Some(84u32),
        GhosttyKey::Numpad6 => Some(85u32),
        GhosttyKey::NumpadAdd => Some(86u32),
        GhosttyKey::Numpad1 => Some(87u32),
        GhosttyKey::Numpad2 => Some(88u32),
        GhosttyKey::Numpad3 => Some(89u32),
        GhosttyKey::Numpad0 => Some(90u32),
        GhosttyKey::NumpadDecimal => Some(91u32),
        GhosttyKey::F11 => Some(95u32),
        GhosttyKey::F12 => Some(96u32),
        GhosttyKey::NumpadEnter => Some(104u32),
        GhosttyKey::ControlRight => Some(105u32),
        GhosttyKey::NumpadDivide => Some(106u32),
        GhosttyKey::AltRight => Some(108u32),
        GhosttyKey::Home => Some(110u32),
        GhosttyKey::ArrowUp => Some(111u32),
        GhosttyKey::PageUp => Some(112u32),
        GhosttyKey::ArrowLeft => Some(113u32),
        GhosttyKey::ArrowRight => Some(114u32),
        GhosttyKey::End => Some(115u32),
        GhosttyKey::ArrowDown => Some(116u32),
        GhosttyKey::PageDown => Some(117u32),
        GhosttyKey::Insert => Some(118u32),
        GhosttyKey::Delete => Some(119u32),
        GhosttyKey::MetaLeft => Some(133u32),
        GhosttyKey::MetaRight => Some(134u32),
        GhosttyKey::ContextMenu => Some(135u32),
    }
}

/// The engine key of each X11 hardware keycode (US QWERTY positions);
/// `Unidentified` for keycodes without one (such as Num Lock, Scroll Lock
/// and Print Screen).
pub open spec fn keycode_key(keycode: u32) -> GhosttyKey {
    match keycode {
        9 => GhosttyKey::Escape,
        10 => GhosttyKey::Digit1,
        11 => GhosttyKey::Digit2,
        12 => GhosttyKey::Digit3,
        13 => GhosttyKey::Digit4,
        14 => GhosttyKey::Digit5,
        15 => GhosttyKey::Digit6,
        16 => GhosttyKey::Digit7,
        17 => GhosttyKey::Digit8,
        18 => GhosttyKey::Digit9,
        19 => GhosttyKey::Digit0,
        20 => GhosttyKey::Minus,
        21 => GhosttyKey::Equal,
        22 => GhosttyKey::Backspace,
        23 => GhosttyKey::Tab,
        24 => GhosttyKey::Q,
        25 => GhosttyKey::W,
        26 => GhosttyKey::E,
        27 => GhosttyKey::R,
        28 => GhosttyKey::T,
        29 => GhosttyKey::Y,
        30 => GhosttyKey::U,
        31 => GhosttyKey::I,
        32 => GhosttyKey::O,
        33 => GhosttyKey::P,
        34 => GhosttyKey::BracketLeft,
        35 => GhosttyKey::BracketRight,
        36 => GhosttyKey::Enter,
        37 => GhosttyKey::ControlLeft,
        38 => GhosttyKey::A,
        39 => GhosttyKey::S,
        40 => GhosttyKey::D,
        41 => GhosttyKey::F,
        42 => GhosttyKey::G,
        43 => GhosttyKey::H,
        44 => GhosttyKey::J,
        45 => GhosttyKey::K,
        46 => GhosttyKey::L,
        47 => GhosttyKey::Semicolon,
        48 => GhosttyKey::Quote,
        49 => GhosttyKey::Backquote,
        50 => GhosttyKey::ShiftLeft,
        51 => GhosttyKey::Backslash,
        52 => GhosttyKey::Z,
        53 => GhosttyKey::X,
        54 => GhosttyKey::C,
        55 => GhosttyKey::V,
        56 => GhosttyKey::B,
        57 => GhosttyKey::N,
        58 => GhosttyKey::M,
        59 => GhosttyKey::Comma,
        60 => GhosttyKey::Period,
        61 => GhosttyKey::Slash,
        62 => GhosttyKey::ShiftRight,
        63 => GhosttyKey::NumpadMultiply,
        64 => GhosttyKey::AltLeft,
        65 => GhosttyKey::Space,
        66 => GhosttyKey::CapsLock,
        67 => GhosttyKey::F1,
        68 => GhosttyKey::F2,
        69 => GhosttyKey::F3,
        70 => GhosttyKey::F4,
        71 => GhosttyKey::F5,
        72 => GhosttyKey::F6,
        73 => GhosttyKey::F7,
        74 => GhosttyKey::F8,
        75 => GhosttyKey::F9,
        76 => GhosttyKey::F10,
        79 => GhosttyKey::Numpad7,
        80 => GhosttyKey::Numpad8,
        81 => GhosttyKey::Numpad9,
        82 => GhosttyKey::NumpadSubtract,
        83 => GhosttyKey::Numpad4,
        84 => GhosttyKey::Numpad5,
        85 => GhosttyKey::Numpad6,
        86 => GhosttyKey::NumpadAdd,
        87 => GhosttyKey::Numpad1,
        88 => GhosttyKey::Numpad2,
        89 => GhosttyKey::Numpad3,
        90 => GhosttyKey::Numpad0,
        91 => GhosttyKey::NumpadDecimal,
        95 => GhosttyKey::F11,
        96 => GhosttyKey::F12,
        104 => GhosttyKey::NumpadEnter,
        105 => GhosttyKey::ControlRight,
        106 => GhosttyKey::NumpadDivide,
        108 => GhosttyKey::AltRight,
        110 => GhosttyKey::Home,
        111 => GhosttyKey::ArrowUp,
        112 => GhosttyKey::PageUp,
        113 => GhosttyKey::ArrowLeft,
        114 => GhosttyKey::ArrowRight,
        115 => GhosttyKey::End,
        116 => GhosttyKey::ArrowDown,
        117 => GhosttyKey::PageDown,
        118 => GhosttyKey::Insert,
        119 => GhosttyKey::Delete,
        133 => GhosttyKey::MetaLeft,
        134 => GhosttyKey::MetaRight,
        135 => GhosttyKey::ContextMenu,
        _ => GhosttyKey::Unidentified,
    }
}

/// Maps a GDK hardware keycode (an X11 keycode, not a keyval) to the engine's
/// key: the key whose hardware keycode it is, or `Unidentified` when no key
/// has that keycode.
pub fn map_keycode_to_ghostty(keycode: u32) -> (key: GhosttyKey)
    ensures
        key == keycode_key(keycode),
        key != GhosttyKey::Unidentified ==> hardware_keycode(key) == Some(keycode),
        key == GhosttyKey::Unidentified <==> forall|k: GhosttyKey|
            hardware_keycode(k) != Some(keycode),
{
    match keycode {
        9 => GhosttyKey::Escape,
        10 => GhosttyKey::Digit1,
        11 => GhosttyKey::Digit2,
        12 => GhosttyKey::Digit3,
        13 => GhosttyKey::Digit4,
        14 => GhosttyKey::Digit5,
        15 => GhosttyKey::Digit6,
        16 => GhosttyKey::Digit7,
        17 => GhosttyKey::Digit8,
        18 => GhosttyKey::Digit9,
        19 => GhosttyKey::Digit0,
        20 => GhosttyKey::Minus,
        21 => GhosttyKey::Equal,
        22 => GhosttyKey::Backspace,
        23 => GhosttyKey::Tab,
        24 => GhosttyKey::Q,
        25 => GhosttyKey::W,
        26 => GhosttyKey::E,
        27 => GhosttyKey::R,
        28 => GhosttyKey::T,
        29 => GhosttyKey::Y,
        30 => GhosttyKey::U,
        31 => GhosttyKey::I,
        32 => GhosttyKey::O,
        33 => GhosttyKey::P,
        34 => GhosttyKey::BracketLeft,
        35 => GhosttyKey::BracketRight,
        36 => GhosttyKey::Enter,
        37 => GhosttyKey::ControlLeft,
        38 => GhosttyKey::A,
        39 => GhosttyKey::S,
        40 => GhosttyKey::D,
        41 => GhosttyKey::F,
        42 => GhosttyKey::G,
        43 => GhosttyKey::H,
        44 => GhosttyKey::J,
        45 => GhosttyKey::K,
        46 => GhosttyKey::L,
        47 => GhosttyKey::Semicolon,
        48 => GhosttyKey::Quote,
        49 => GhosttyKey::Backquote,
        50 => GhosttyKey::ShiftLeft,
        51 => GhosttyKey::Backslash,
        52 => GhosttyKey::Z,
        53 => GhosttyKey::X,
        54 => GhosttyKey::C,
        55 => GhosttyKey::V,
        56 => GhosttyKey::B,
        57 => GhosttyKey::N,
        58 => GhosttyKey::M,
        59 => GhosttyKey::Comma,
        60 => GhosttyKey::Period,
        61 => GhosttyKey::Slash,
        62 => GhosttyKey::ShiftRight,
        63 => GhosttyKey::NumpadMultiply,
        64 => GhosttyKey::AltLeft,
        65 => GhosttyKey::Space,
        66 => GhosttyKey::CapsLock,
        67 => GhosttyKey::F1,
        68 => GhosttyKey::F2,
        69 => GhosttyKey::F3,
        70 => GhosttyKey::F4,
        71 => GhosttyKey::F5,
        72 => GhosttyKey::F6,
        73 => GhosttyKey::F7,
        74 => GhosttyKey::F8,
        75 => GhosttyKey::F9,
        76 => GhosttyKey::F10,
        79 => GhosttyKey::Numpad7,
        80 => GhosttyKey::Numpad8,
        81 => GhosttyKey::Numpad9,
        82 => GhosttyKey::NumpadSubtract,
        83 => GhosttyKey::Numpad4,
        84 => GhosttyKey::Numpad5,
        85 => GhosttyKey::Numpad6,
        86 => GhosttyKey::NumpadAdd,
        87 => GhosttyKey::Numpad1,
        88 => GhosttyKey::Numpad2,
        89 => GhosttyKey::Numpad3,
        90 => GhosttyKey::Numpad0,
        91 => GhosttyKey::NumpadDecimal,
        95 => GhosttyKey::F11,
        96 => GhosttyKey::F12,
        104 => GhosttyKey::NumpadEnter,
        105 => GhosttyKey::ControlRight,
        106 => GhosttyKey::NumpadDivide,
        108 => GhosttyKey::AltRight,
        110 => GhosttyKey::Home,
        111 => GhosttyKey::ArrowUp,
        112 => GhosttyKey::PageUp,
        113 => GhosttyKey::ArrowLeft,
        114 => GhosttyKey::ArrowRight,
        115 => GhosttyKey::End,
        116 => GhosttyKey::ArrowDown,
        117 => GhosttyKey::PageDown,
        118 => GhosttyKey::Insert,
        119 => GhosttyKey::Delete,
        133 => GhosttyKey::MetaLeft,
        134 => GhosttyKey::MetaRight,
        135 => GhosttyKey::ContextMenu,
        _ => GhosttyKey::Unidentified,
    }
}

/// GDK's shift modifier bit.
pub const GDK_SHIFT_MASK: u32 = 0x1;
/// GDK's control modifier bit.
pub const GDK_CONTROL_MASK: u32 = 0x4;
/// GDK's alt modifier bit.
pub const GDK_ALT_MASK: u32 = 0x8;
/// GDK's super modifier bit.
pub const GDK_SUPER_MASK: u32 = 0x400_0000;

/// The engine's shift modifier bit.
pub const GHOSTTY_MODS_SHIFT: u32 = 0x1;
/// The engine's control modifier bit.
pub const GHOSTTY_MODS_CTRL: u32 = 0x2;
/// The engine's alt modifier bit.
pub const GHOSTTY_MODS_ALT: u32 = 0x4;
/// The engine's super modifier bit.
pub const GHOSTTY_MODS_SUPER: u32 = 0x8;

/// The engine modifier bits for a GDK modifier state: shift, control, alt
/// and super each carried over; every other GDK bit dropped.
pub open spec fn ghostty_mods(state: u32) -> u32 {
    (if state & GDK_SHIFT_MASK != 0 { GHOSTTY_MODS_SHIFT } else { 0 })
        | (if state & GDK_CONTROL_MASK != 0 { GHOSTTY_MODS_CTRL } else { 0 })
        | (if state & GDK_ALT_MASK != 0 { GHOSTTY_MODS_ALT } else { 0 })
        | (if state & GDK_SUPER_MASK != 0 { GHOSTTY_MODS_SUPER } else { 0 })
}

/// Maps a GDK modifier state (the bits of a `ModifierType`) to the engine's
/// modifier bits; 0 when none of shift, control, alt and super is held.
pub fn map_mods(state: u32) -> (mods: u32)
    ensures
        mods == ghostty_mods(state),
{
    let shift: u32 = if state & GDK_SHIFT_MASK != 0 { GHOSTTY_MODS_SHIFT } else { 0 };
    let ctrl: u32 = if state & GDK_CONTROL_MASK != 0 { GHOSTTY_MODS_CTRL } else { 0 };
    let alt: u32 = if state & GDK_ALT_MASK != 0 { GHOSTTY_MODS_ALT } else { 0 };
    let sup: u32 = if state & GDK_SUPER_MASK != 0 { GHOSTTY_MODS_SUPER } else { 0 };
    shift | ctrl | alt | sup
}

/// Holding several modifiers at once gives the union of their bits: the
/// mapping of a combined GDK state is the union of the mappings of its parts.
pub proof fn law_mods_of_union(a: u32, b: u32)
    ensures
        ghostty_mods(a | b) == ghostty_mods(a) | ghostty_mods(b),
{
    assert(ghostty_mods(a | b) == ghostty_mods(a) | ghostty_mods(b)) by (bit_vector);
}

/// Each held modifier is visible in the result, and no modifier appears that
/// was not held: the mapping loses nothing of shift, control, alt and super.
pub proof fn law_mods_faithful(state: u32)
    ensures
        (ghostty_mods(state) & GHOSTTY_MODS_SHIFT != 0) == (state & GDK_SHIFT_MASK != 0),
        (ghostty_mods(state) & GHOSTTY_MODS_CTRL != 0) == (state & GDK_CONTROL_MASK != 0),
        (ghostty_mods(state) & GHOSTTY_MODS_ALT != 0) == (state & GDK_ALT_MASK != 0),
        (ghostty_mods(state) & GHOSTTY_MODS_SUPER != 0) == (state & GDK_SUPER_MASK != 0),
        ghostty_mods(state) & !0xfu32 == 0,
{
    assert((ghostty_mods(state) & GHOSTTY_MODS_SHIFT != 0) == (state & GDK_SHIFT_MASK != 0)) by (bit_vector);
    assert((ghostty_mods(state) & GHOSTTY_MODS_CTRL != 0) == (state & GDK_CONTROL_MASK != 0)) by (bit_vector);
    assert((ghostty_mods(state) & GHOSTTY_MODS_ALT != 0) == (state & GDK_ALT_MASK != 0)) by (bit_vector);
    assert((ghostty_mods(state) & GHOSTTY_MODS_SUPER != 0) == (state & GDK_SUPER_MASK != 0)) by (bit_vector);
    assert(ghostty_mods(state) & !0xfu32 == 0) by (bit_vector);
}

} // verus!
