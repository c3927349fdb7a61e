//! Symbolic key names, and the menu option that a letter key selects.

use vstd::prelude::*;

verus! {

/// Symbolic name of a keyboard key.
#[derive(Debug, Hash, PartialEq, Eq, Clone, Copy, Structural)]
pub enum VirtualKeyCode {
    Key1,
    Key2,
    Key3,
    Key4,
    Key5,
    Key6,
    Key7,
    Key8,
    Key9,
    Key0,
    A,
    B,
    C,
    D,
    E,
    F,
    G,
    H,
    I,
    J,
    K,
    L,
    M,
    N,
    O,
    P,
    Q,
    R,
    S,
    T,
    U,
    V,
    W,
    X,
    Y,
    Z,
    Escape,
    F1,
    F2,
    F3,
    F4,
    F5,
    F6,
    F7,
    F8,
    F9,
    F10,
    F11,
    F12,
    F13,
    F14,
    F15,
    F16,
    F17,
    F18,
    F19,
    F20,
    F21,
    F22,
    F23,
    F24,
    Snapshot,
    Scroll,
    Pause,
    Insert,
    Home,
    Delete,
    End,
    PageDown,
    PageUp,
    Left,
    Up,
    Right,
    Down,
    Back,
    Return,
    Space,
    Compose,
    Caret,
    Numlock,
    Numpad0,
    Numpad1,
    Numpad2,
    Numpad3,
    Numpad4,
    Numpad5,
    Numpad6,
    Numpad7,
    Numpad8,
    Numpad9,
    AbntC1,
    AbntC2,
    Add,
    Apostrophe,
    Apps,
    At,
    Ax,
    Backslash,
    Calculator,
    Capital,
    Colon,
    Comma,
    Convert,
    Decimal,
    Divide,
    Equals,
    Grave,
    Kana,
    Kanji,
    LAlt,
    LBracket,
    LControl,
    LShift,
    LWin,
    Mail,
    MediaSelect,
    MediaStop,
    Minus,
    Multiply,
    Mute,
    MyComputer,
    NavigateForward,
    NavigateBackward,
    NextTrack,
    NoConvert,
    NumpadComma,
    NumpadEnter,
    NumpadEquals,
    OEM102,
    Period,
    PlayPause,
    Power,
    PrevTrack,
    RAlt,
    RBracket,
    RControl,
    RShift,
    RWin,
    Semicolon,
    Slash,
    Sleep,
    Stop,
    Subtract,
    Sysrq,
    Tab,
    Underline,
    Unlabeled,
    VolumeDown,
    VolumeUp,
    Wake,
    WebBack,
    WebFavorites,
    WebForward,
    WebHome,
    WebRefresh,
    WebSearch,
    WebStop,
    Yen,
    Copy,
    Paste,
    Cut,
}

impl VirtualKeyCode {
    /// Whether the key is one of the letters `A` to `Z`.
    pub open spec fn is_letter(self) -> bool {
        0 <= letter_index(self)
    }
}

/// The place of a letter key in the alphabet, counted from 0, and -1 for
/// every key that is no letter.
pub open spec fn letter_index(key: VirtualKeyCode) -> int {
    match key {
        VirtualKeyCode::A => 0,
        VirtualKeyCode::B => 1,
        VirtualKeyCode::C => 2,
        VirtualKeyCode::D => 3,
        VirtualKeyCode::E => 4,
        VirtualKeyCode::F => 5,
        VirtualKeyCode::G => 6,
        VirtualKeyCode::H => 7,
        VirtualKeyCode::I => 8,
        VirtualKeyCode::J => 9,
        VirtualKeyCode::K => 10,
        VirtualKeyCode::L => 11,
        VirtualKeyCode::M => 12,
        VirtualKeyCode::N => 13,
        VirtualKeyCode::O => 14,
        VirtualKeyCode::P => 15,
        VirtualKeyCode::Q => 16,
        VirtualKeyCode::R => 17,
        VirtualKeyCode::S => 18,
        VirtualKeyCode::T => 19,
        VirtualKeyCode::U => 20,
        VirtualKeyCode::V => 21,
        VirtualKeyCode::W => 22,
        VirtualKeyCode::X => 23,
        VirtualKeyCode::Y => 24,
        VirtualKeyCode::Z => 25,
        _ => -1,
    }
}

/// For A-Z menus, translates the keys A through Z into 0..25, and every
/// other key into -1.
pub fn letter_to_option(key: VirtualKeyCode) -> (option: i32)
    ensures
        option == letter_index(key),
        -1 <= option <= 25,
        option == -1 <==> !key.is_letter(),
{
    match key {
        VirtualKeyCode::A => 0,
        VirtualKeyCode::B => 1,
        VirtualKeyCode::C => 2,
        VirtualKeyCode::D => 3,
        VirtualKeyCode::E => 4,
        VirtualKeyCode::F => 5,
        VirtualKeyCode::G => 6,
        VirtualKeyCode::H => 7,
        VirtualKeyCode::I => 8,
        VirtualKeyCode::J => 9,
        VirtualKeyCode::K => 10,
        VirtualKeyCode::L => 11,
        VirtualKeyCode::M => 12,
        VirtualKeyCode::N => 13,
        VirtualKeyCode::O => 14,
        VirtualKeyCode::P => 15,
        VirtualKeyCode::Q => 16,
        VirtualKeyCode::R => 17,
        VirtualKeyCode::S => 18,
        VirtualKeyCode::T => 19,
        VirtualKeyCode::U => 20,
        VirtualKeyCode::V => 21,
        VirtualKeyCode::W => 22,
        VirtualKeyCode::X => 23,
        VirtualKeyCode::Y => 24,
        VirtualKeyCode::Z => 25,
        _ => -1,
    }
}

/// A key that selects the same menu option as a letter key is that letter
/// key: no two letters share an option.
pub proof fn lemma_letter_options_are_distinct(a: VirtualKeyCode, b: VirtualKeyCode)
    requires
        a.is_letter(),
        letter_index(a) == letter_index(b),
    ensures
        a == b,
{
}

/// Every option from 0 to 25 belongs to a letter key.
pub proof fn lemma_every_option_has_a_letter(option: int)
    requires
        0 <= option <= 25,
    ensures
        exists|key: VirtualKeyCode| key.is_letter() && letter_index(key) == option,
{
    if option == 0 {
        assert(letter_index(VirtualKeyCode::A) == 0);
    }     else if option == 1 {
        assert(letter_index(VirtualKeyCode::B) == 1);
    }     else if option == 2 {
        assert(letter_index(VirtualKeyCode::C) == 2);
    }     else if option == 3 {
        assert(letter_index(VirtualKeyCode::D) == 3);
    }     else if option == 4 {
        assert(letter_index(VirtualKeyCode::E) == 4);
    }     else if option == 5 {
        assert(letter_index(VirtualKeyCode::F) == 5);
    }     else if option == 6 {
        assert(letter_index(VirtualKeyCode::G) == 6);
    }     else if option == 7 {
        assert(letter_index(VirtualKeyCode::H) == 7);
    }     else if option == 8 {
        assert(letter_index(VirtualKeyCode::I) == 8);
    }     else if option == 9 {
        assert(letter_index(VirtualKeyCode::J) == 9);
    }     else if option == 10 {
        assert(letter_index(VirtualKeyCode::K) == 10);
    }     else if option == 11 {
        assert(letter_index(VirtualKeyCode::L) == 11);
    }     else if option == 12 {
        assert(letter_index(VirtualKeyCode::M) == 12);
    }     else if option == 13 {
        assert(letter_index(VirtualKeyCode::N) == 13);
    }     else if option == 14 {
        assert(letter_index(VirtualKeyCode::O) == 14);
    }     else if option == 15 {
        assert(letter_index(VirtualKeyCode::P) == 15);
    }     else if option == 16 {
        assert(letter_index(VirtualKeyCode::Q) == 16);
    }     else if option == 17 {
        assert(letter_index(VirtualKeyCode::R) == 17);
    }     else if option == 18 {
        assert(letter_index(VirtualKeyCode::S) == 18);
    }     else if option == 19 {
        assert(letter_index(VirtualKeyCode::T) == 19);
    }     else if option == 20 {
        assert(letter_index(VirtualKeyCode::U) == 20);
    }     else if option == 21 {
        assert(letter_index(VirtualKeyCode::V) == 21);
    }     else if option == 22 {
        assert(letter_index(VirtualKeyCode::W) == 22);
    }     else if option == 23 {
        assert(letter_index(VirtualKeyCode::X) == 23);
    }     else if option == 24 {
        assert(letter_index(VirtualKeyCode::Y) == 24);
    }     else if option == 25 {
        assert(letter_index(VirtualKeyCode::Z) == 25);
    }
}

} // verus!
