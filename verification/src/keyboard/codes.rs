//! Virtual key codes.

use vstd::prelude::*;

verus! {

/// Key codes for key-pressed and key-released events. These are not the same as
/// the unicode characters which result from keyboard entry, and should
/// therefore not be used for text input but instead for simple key
/// pressed/released tracking (useful for instance if using the keyboard to
/// control a game).
#[derive(Clone, Copy, Debug, PartialEq, Eq, Structural)]
pub enum KeyCode {
    /// Left mouse button
    LeftMouseButton,
    /// Right mouse button
    RightMouseButton,
    /// Control-break processing
    Cancel,
    /// Middle mouse button (three-button mouse)
    MiddleMouseButton,
    /// X1 mouse button
    X1MouseButton,
    /// X2 mouse button
    X2MouseButton,
    /// BACKSPACE key
    Back,
    /// TAB key
    Tab,
    /// CLEAR key
    Clear,
    /// ENTER key
    Return,
    /// SHIFT key
    Shift,
    /// CTRL key
    Control,
    /// ALT key
    Menu,
    /// PAUSE key
    Pause,
    /// CAPS LOCK key
    Capital,
    /// IME Kana or Hangel mode
    IMEKanaHangel,
    /// IME Junja mode
    IMEJunja,
    /// IME final mode
    IMEFinal,
    /// IME Hanja or Kanji mode
    IMEHanja,
    /// ESC key
    Escape,
    /// IME convert
    IMEConvert,
    /// IME nonconvert
    IMENonconvert,
    /// IME accept
    IMEAccept,
    /// IME mode change request
    IMEModechange,
    /// SPACEBAR
    Space,
    /// PAGE UP key
    PageUp,
    /// PAGE DOWN key
    PageDown,
    /// END key
    End,
    /// HOME key
    Home,
    /// LEFT ARROW key
    Left,
    /// UP ARROW key
    Up,
    /// RIGHT ARROW key
    Right,
    /// DOWN ARROW key
    Down,
    /// SELECT key
    Select,
    /// PRINT key
    Print,
    /// EXECUTE key
    Execute,
    /// PRINT SCREEN key
    PrintScreen,
    /// INS key
    Insert,
    /// DEL key
    Delete,
    /// HELP key
    Help,
    /// 0 key
    Zero,
    /// 1 key
    One,
    /// 2 key
    Two,
    /// 3 key
    Three,
    /// 4 key
    Four,
    /// 5 key
    Five,
    /// 6 key
    Six,
    /// 7 key
    Seven,
    /// 8 key
    Eight,
    /// 9 key
    Nine,
    /// A key
    A,
    /// B key
    B,
    /// C key
    C,
    /// D key
    D,
    /// E key
    E,
    /// F key
    F,
    /// G key
    G,
    /// H key
    H,
    /// I key
    I,
    /// J key
    J,
    /// K key
    K,
    /// L key
    L,
    /// M key
    M,
    /// N key
    N,
    /// O key
    O,
    /// P key
    P,
    /// Q key
    Q,
    /// R key
    R,
    /// S key
    S,
    /// T key
    T,
    /// U key
    U,
    /// V key
    V,
    /// W key
    W,
    /// X key
    X,
    /// Y key
    Y,
    /// Z key
    Z,
    /// Left Windows key (Natural keyboard)
    LeftWindows,
    /// Right Windows key (Natural keyboard)
    RightWindows,
    /// Applications key (Natural keyboard)
    Apps,
    /// Computer Sleep key
    Sleep,
    /// Numeric keypad 0 key
    Numpad0,
    /// Numeric keypad 1 key
    Numpad1,
    /// Numeric keypad 2 key
    Numpad2,
    /// Numeric keypad 3 key
    Numpad3,
    /// Numeric keypad 4 key
    Numpad4,
    /// Numeric keypad 5 key
    Numpad5,
    /// Numeric keypad 6 key
    Numpad6,
    /// Numeric keypad 7 key
    Numpad7,
    /// Numeric keypad 8 key
    Numpad8,
    /// Numeric keypad 9 key
    Numpad9,
    /// Multiply key
    Multiply,
    /// Add key
    Add,
    /// Separator key
    Separator,
    /// Subtract key
    Subtract,
    /// Decimal key
    Decimal,
    /// Divide key
    Divide,
    /// F1 key
    F1,
    /// F2 key
    F2,
    /// F3 key
    F3,
    /// F4 key
    F4,
    /// F5 key
    F5,
    /// F6 key
    F6,
    /// F7 key
    F7,
    /// F8 key
    F8,
    /// F9 key
    F9,
    /// F10 key
    F10,
    /// F11 key
    F11,
    /// F12 key
    F12,
    /// F13 key
    F13,
    /// F14 key
    F14,
    /// F15 key
    F15,
    /// F16 key
    F16,
    /// F17 key
    F17,
    /// F18 key
    F18,
    /// F19 key
    F19,
    /// F20 key
    F20,
    /// F21 key
    F21,
    /// F22 key
    F22,
    /// F23 key
    F23,
    /// F24 key
    F24,
    /// NUM LOCK key
    Numlock,
    /// SCROLL LOCK key
    ScrollLock,
    /// Left SHIFT key
    LeftShift,
    /// Right SHIFT key
    RightShift,
    /// Left CONTROL key
    LeftControl,
    /// Right CONTROL key
    RightControl,
    /// Left MENU key
    LeftAlt,
    /// Right MENU key
    RightAlt,
    /// Browser Back key
    BrowserBack,
    /// Browser Forward key
    BrowserForward,
    /// Browser Refresh key
    BrowserRefresh,
    /// Browser Stop key
    BrowserStop,
    /// Browser Search key
    BrowserSearch,
    /// Browser Favorites key
    BrowserFavorites,
    /// Browser Start and Home key
    BrowserHome,
    /// Volume Mute key
    VolumeMute,
    /// Volume Down key
    VolumeDown,
    /// Volume Up key
    VolumeUp,
    /// Next Track key
    MediaNextTrack,
    /// Previous Track key
    MediaPrevTrack,
    /// Stop Media key
    MediaStop,
    /// Play/Pause Media key
    MediaPlayPause,
    /// Start Mail key
    LaunchMail,
    /// Select Media key
    LaunchMediaSelect,
    /// Start Application 1 key
    LaunchApp1,
    /// Start Application 2 key
    LaunchApp2,
    /// Used for miscellaneous characters; it can vary by keyboard.
    OEM1,
    /// For any country/region, the '+' key
    OEMPlus,
    /// For any country/region, the ',' key
    OEMComma,
    /// For any country/region, the '-' key
    OEMMinus,
    /// For any country/region, the '.' key
    OEMPeriod,
    /// Used for miscellaneous characters; it can vary by keyboard.
    OEM2,
    /// Used for miscellaneous characters; it can vary by keyboard.
    OEM3,
    /// Used for miscellaneous characters; it can vary by keyboard.
    OEM4,
    /// Used for miscellaneous characters; it can vary by keyboard.
    OEM5,
    /// Used for miscellaneous characters; it can vary by keyboard.
    OEM6,
    /// Used for miscellaneous characters; it can vary by keyboard.
    OEM7,
    /// Used for miscellaneous characters; it can vary by keyboard.
    OEM8,
    /// Either the angle bracket key or the backslash key on the RT 102-key
    /// keyboard
    OEM102,
    /// IME PROCESS key
    Processkey,
    /// Used to pass Unicode characters as if they were keystrokes.
    Packet,
    /// Attn key
    Attn,
    /// CrSel key
    CrSel,
    /// ExSel key
    ExSel,
    /// Erase EOF key
    EraseEOF,
    /// Play key
    Play,
    /// Zoom key
    Zoom,
    /// PA1 key
    Pa1,
    /// Clear key
    OEMClear,
}

impl KeyCode {
    /// The native virtual-key code of this key.
    pub open spec fn code(self) -> u8 {
        match self {
            KeyCode::LeftMouseButton => 0x01,
            KeyCode::RightMouseButton => 0x02,
            KeyCode::Cancel => 0x03,
            KeyCode::MiddleMouseButton => 0x04,
            KeyCode::X1MouseButton => 0x05,
            KeyCode::X2MouseButton => 0x06,
            KeyCode::Back => 0x08,
            KeyCode::Tab => 0x09,
            KeyCode::Clear => 0x0C,
            KeyCode::Return => 0x0D,
            KeyCode::Shift => 0x10,
            KeyCode::Control => 0x11,
            KeyCode::Menu => 0x12,
            KeyCode::Pause => 0x13,
            KeyCode::Capital => 0x14,
            KeyCode::IMEKanaHangel => 0x15,
            KeyCode::IMEJunja => 0x17,
            KeyCode::IMEFinal => 0x18,
            KeyCode::IMEHanja => 0x19,
            KeyCode::Escape => 0x1B,
            KeyCode::IMEConvert => 0x1C,
            KeyCode::IMENonconvert => 0x1D,
            KeyCode::IMEAccept => 0x1E,
            KeyCode::IMEModechange => 0x1F,
            KeyCode::Space => 0x20,
            KeyCode::PageUp => 0x21,
            KeyCode::PageDown => 0x22,
            KeyCode::End => 0x23,
            KeyCode::Home => 0x24,
            KeyCode::Left => 0x25,
            KeyCode::Up => 0x26,
            KeyCode::Right => 0x27,
            KeyCode::Down => 0x28,
            KeyCode::Select => 0x29,
            KeyCode::Print => 0x2A,
            KeyCode::Execute => 0x2B,
            KeyCode::PrintScreen => 0x2C,
            KeyCode::Insert => 0x2D,
            KeyCode::Delete => 0x2E,
            KeyCode::Help => 0x2F,
            KeyCode::Zero => 0x30,
            KeyCode::One => 0x31,
            KeyCode::Two => 0x32,
            KeyCode::Three => 0x33,
            KeyCode::Four => 0x34,
            KeyCode::Five => 0x35,
            KeyCode::Six => 0x36,
            KeyCode::Seven => 0x37,
            KeyCode::Eight => 0x38,
            KeyCode::Nine => 0x39,
            KeyCode::A => 0x41,
            KeyCode::B => 0x42,
            KeyCode::C => 0x43,
            KeyCode::D => 0x44,
            KeyCode::E => 0x45,
            KeyCode::F => 0x46,
            KeyCode::G => 0x47,
            KeyCode::H => 0x48,
            KeyCode::I => 0x49,
            KeyCode::J => 0x4A,
            KeyCode::K => 0x4B,
            KeyCode::L => 0x4C,
            KeyCode::M => 0x4D,
            KeyCode::N => 0x4E,
            KeyCode::O => 0x4F,
            KeyCode::P => 0x50,
            KeyCode::Q => 0x51,
            KeyCode::R => 0x52,
            KeyCode::S => 0x53,
            KeyCode::T => 0x54,
            KeyCode::U => 0x55,
            KeyCode::V => 0x56,
            KeyCode::W => 0x57,
            KeyCode::X => 0x58,
            KeyCode::Y => 0x59,
            KeyCode::Z => 0x5A,
            KeyCode::LeftWindows => 0x5B,
            KeyCode::RightWindows => 0x5C,
            KeyCode::Apps => 0x5D,
            KeyCode::Sleep => 0x5F,
            KeyCode::Numpad0 => 0x60,
            KeyCode::Numpad1 => 0x61,
            KeyCode::Numpad2 => 0x62,
            KeyCode::Numpad3 => 0x63,
            KeyCode::Numpad4 => 0x64,
            KeyCode::Numpad5 => 0x65,
            KeyCode::Numpad6 => 0x66,
            KeyCode::Numpad7 => 0x67,
            KeyCode::Numpad8 => 0x68,
            KeyCode::Numpad9 => 0x69,
            KeyCode::Multiply => 0x6A,
            KeyCode::Add => 0x6B,
            KeyCode::Separator => 0x6C,
            KeyCode::Subtract => 0x6D,
            KeyCode::Decimal => 0x6E,
            KeyCode::Divide => 0x6F,
            KeyCode::F1 => 0x70,
            KeyCode::F2 => 0x71,
            KeyCode::F3 => 0x72,
            KeyCode::F4 => 0x73,
            KeyCode::F5 => 0x74,
            KeyCode::F6 => 0x75,
            KeyCode::F7 => 0x76,
            KeyCode::F8 => 0x77,
            KeyCode::F9 => 0x78,
            KeyCode::F10 => 0x79,
            KeyCode::F11 => 0x7A,
            KeyCode::F12 => 0x7B,
            KeyCode::F13 => 0x7C,
            KeyCode::F14 => 0x7D,
            KeyCode::F15 => 0x7E,
            KeyCode::F16 => 0x7F,
            KeyCode::F17 => 0x80,
            KeyCode::F18 => 0x81,
            KeyCode::F19 => 0x82,
            KeyCode::F20 => 0x83,
            KeyCode::F21 => 0x84,
            KeyCode::F22 => 0x85,
            KeyCode::F23 => 0x86,
            KeyCode::F24 => 0x87,
            KeyCode::Numlock => 0x90,
            KeyCode::ScrollLock => 0x91,
            KeyCode::LeftShift => 0xA0,
            KeyCode::RightShift => 0xA1,
            KeyCode::LeftControl => 0xA2,
            KeyCode::RightControl => 0xA3,
            KeyCode::LeftAlt => 0xA4,
            KeyCode::RightAlt => 0xA5,
            KeyCode::BrowserBack => 0xA6,
            KeyCode::BrowserForward => 0xA7,
            KeyCode::BrowserRefresh => 0xA8,
            KeyCode::BrowserStop => 0xA9,
            KeyCode::BrowserSearch => 0xAA,
            KeyCode::BrowserFavorites => 0xAB,
            KeyCode::BrowserHome => 0xAC,
            KeyCode::VolumeMute => 0xAD,
            KeyCode::VolumeDown => 0xAE,
            KeyCode::VolumeUp => 0xAF,
            KeyCode::MediaNextTrack => 0xB0,
            KeyCode::MediaPrevTrack => 0xB1,
            KeyCode::MediaStop => 0xB2,
            KeyCode::MediaPlayPause => 0xB3,
            KeyCode::LaunchMail => 0xB4,
            KeyCode::LaunchMediaSelect => 0xB5,
            KeyCode::LaunchApp1 => 0xB6,
            KeyCode::LaunchApp2 => 0xB7,
            KeyCode::OEM1 => 0xBA,
            KeyCode::OEMPlus => 0xBB,
            KeyCode::OEMComma => 0xBC,
            KeyCode::OEMMinus => 0xBD,
            KeyCode::OEMPeriod => 0xBE,
            KeyCode::OEM2 => 0xBF,
            KeyCode::OEM3 => 0xC0,
            KeyCode::OEM4 => 0xDB,
            KeyCode::OEM5 => 0xDC,
            KeyCode::OEM6 => 0xDD,
            KeyCode::OEM7 => 0xDE,
            KeyCode::OEM8 => 0xDF,
            KeyCode::OEM102 => 0xE2,
            KeyCode::Processkey => 0xE5,
            KeyCode::Packet => 0xE7,
            KeyCode::Attn => 0xF6,
            KeyCode::CrSel => 0xF7,
            KeyCode::ExSel => 0xF8,
            KeyCode::EraseEOF => 0xF9,
            KeyCode::Play => 0xFA,
            KeyCode::Zoom => 0xFB,
            KeyCode::Pa1 => 0xFD,
            KeyCode::OEMClear => 0xFE,
        }
    }

    /// The key that a native virtual-key code stands for, if it stands for one.
    pub open spec fn from_code(code: u8) -> Option<KeyCode> {
        match code {
            0x01 => Some(KeyCode::LeftMouseButton),
            0x02 => Some(KeyCode::RightMouseButton),
            0x03 => Some(KeyCode::Cancel),
            0x04 => Some(KeyCode::MiddleMouseButton),
            0x05 => Some(KeyCode::X1MouseButton),
            0x06 => Some(KeyCode::X2MouseButton),
            0x08 => Some(KeyCode::Back),
            0x09 => Some(KeyCode::Tab),
            0x0C => Some(KeyCode::Clear),
            0x0D => Some(KeyCode::Return),
            0x10 => Some(KeyCode::Shift),
            0x11 => Some(KeyCode::Control),
            0x12 => Some(KeyCode::Menu),
            0x13 => Some(KeyCode::Pause),
            0x14 => Some(KeyCode::Capital),
            0x15 => Some(KeyCode::IMEKanaHangel),
            0x17 => Some(KeyCode::IMEJunja),
            0x18 => Some(KeyCode::IMEFinal),
            0x19 => Some(KeyCode::IMEHanja),
            0x1B => Some(KeyCode::Escape),
            0x1C => Some(KeyCode::IMEConvert),
            0x1D => Some(KeyCode::IMENonconvert),
            0x1E => Some(KeyCode::IMEAccept),
            0x1F => Some(KeyCode::IMEModechange),
            0x20 => Some(KeyCode::Space),
            0x21 => Some(KeyCode::PageUp),
            0x22 => Some(KeyCode::PageDown),
            0x23 => Some(KeyCode::End),
            0x24 => Some(KeyCode::Home),
            0x25 => Some(KeyCode::Left),
            0x26 => Some(KeyCode::Up),
            0x27 => Some(KeyCode::Right),
            0x28 => Some(KeyCode::Down),
            0x29 => Some(KeyCode::Select),
            0x2A => Some(KeyCode::Print),
            0x2B => Some(KeyCode::Execute),
            0x2C => Some(KeyCode::PrintScreen),
            0x2D => Some(KeyCode::Insert),
            0x2E => Some(KeyCode::Delete),
            0x2F => Some(KeyCode::Help),
            0x30 => Some(KeyCode::Zero),
            0x31 => Some(KeyCode::One),
            0x32 => Some(KeyCode::Two),
            0x33 => Some(KeyCode::Three),
            0x34 => Some(KeyCode::Four),
            0x35 => Some(KeyCode::Five),
            0x36 => Some(KeyCode::Six),
            0x37 => Some(KeyCode::Seven),
            0x38 => Some(KeyCode::Eight),
            0x39 => Some(KeyCode::Nine),
            0x41 => Some(KeyCode::A),
            0x42 => Some(KeyCode::B),
            0x43 => Some(KeyCode::C),
            0x44 => Some(KeyCode::D),
            0x45 => Some(KeyCode::E),
            0x46 => Some(KeyCode::F),
            0x47 => Some(KeyCode::G),
            0x48 => Some(KeyCode::H),
            0x49 => Some(KeyCode::I),
            0x4A => Some(KeyCode::J),
            0x4B => Some(KeyCode::K),
            0x4C => Some(KeyCode::L),
            0x4D => Some(KeyCode::M),
            0x4E => Some(KeyCode::N),
            0x4F => Some(KeyCode::O),
            0x50 => Some(KeyCode::P),
            0x51 => Some(KeyCode::Q),
            0x52 => Some(KeyCode::R),
            0x53 => Some(KeyCode::S),
            0x54 => Some(KeyCode::T),
            0x55 => Some(KeyCode::U),
            0x56 => Some(KeyCode::V),
            0x57 => Some(KeyCode::W),
            0x58 => Some(KeyCode::X),
            0x59 => Some(KeyCode::Y),
            0x5A => Some(KeyCode::Z),
            0x5B => Some(KeyCode::LeftWindows),
            0x5C => Some(KeyCode::RightWindows),
            0x5D => Some(KeyCode::Apps),
            0x5F => Some(KeyCode::Sleep),
            0x60 => Some(KeyCode::Numpad0),
            0x61 => Some(KeyCode::Numpad1),
            0x62 => Some(KeyCode::Numpad2),
            0x63 => Some(KeyCode::Numpad3),
            0x64 => Some(KeyCode::Numpad4),
            0x65 => Some(KeyCode::Numpad5),
            0x66 => Some(KeyCode::Numpad6),
            0x67 => Some(KeyCode::Numpad7),
            0x68 => Some(KeyCode::Numpad8),
            0x69 => Some(KeyCode::Numpad9),
            0x6A => Some(KeyCode::Multiply),
            0x6B => Some(KeyCode::Add),
            0x6C => Some(KeyCode::Separator),
            0x6D => Some(KeyCode::Subtract),
            0x6E => Some(KeyCode::Decimal),
            0x6F => Some(KeyCode::Divide),
            0x70 => Some(KeyCode::F1),
            0x71 => Some(KeyCode::F2),
            0x72 => Some(KeyCode::F3),
            0x73 => Some(KeyCode::F4),
            0x74 => Some(KeyCode::F5),
            0x75 => Some(KeyCode::F6),
            0x76 => Some(KeyCode::F7),
            0x77 => Some(KeyCode::F8),
            0x78 => Some(KeyCode::F9),
            0x79 => Some(KeyCode::F10),
            0x7A => Some(KeyCode::F11),
            0x7B => Some(KeyCode::F12),
            0x7C => Some(KeyCode::F13),
            0x7D => Some(KeyCode::F14),
            0x7E => Some(KeyCode::F15),
            0x7F => Some(KeyCode::F16),
            0x80 => Some(KeyCode::F17),
            0x81 => Some(KeyCode::F18),
            0x82 => Some(KeyCode::F19),
            0x83 => Some(KeyCode::F20),
            0x84 => Some(KeyCode::F21),
            0x85 => Some(KeyCode::F22),
            0x86 => Some(KeyCode::F23),
            0x87 => Some(KeyCode::F24),
            0x90 => Some(KeyCode::Numlock),
            0x91 => Some(KeyCode::ScrollLock),
            0xA0 => Some(KeyCode::LeftShift),
            0xA1 => Some(KeyCode::RightShift),
            0xA2 => Some(KeyCode::LeftControl),
            0xA3 => Some(KeyCode::RightControl),
            0xA4 => Some(KeyCode::LeftAlt),
            0xA5 => Some(KeyCode::RightAlt),
            0xA6 => Some(KeyCode::BrowserBack),
            0xA7 => Some(KeyCode::BrowserForward),
            0xA8 => Some(KeyCode::BrowserRefresh),
            0xA9 => Some(KeyCode::BrowserStop),
            0xAA => Some(KeyCode::BrowserSearch),
            0xAB => Some(KeyCode::BrowserFavorites),
            0xAC => Some(KeyCode::BrowserHome),
            0xAD => Some(KeyCode::VolumeMute),
            0xAE => Some(KeyCode::VolumeDown),
            0xAF => Some(KeyCode::VolumeUp),
            0xB0 => Some(KeyCode::MediaNextTrack),
            0xB1 => Some(KeyCode::MediaPrevTrack),
            0xB2 => Some(KeyCode::MediaStop),
            0xB3 => Some(KeyCode::MediaPlayPause),
            0xB4 => Some(KeyCode::LaunchMail),
            0xB5 => Some(KeyCode::LaunchMediaSelect),
            0xB6 => Some(KeyCode::LaunchApp1),
            0xB7 => Some(KeyCode::LaunchApp2),
            0xBA => Some(KeyCode::OEM1),
            0xBB => Some(KeyCode::OEMPlus),
            0xBC => Some(KeyCode::OEMComma),
            0xBD => Some(KeyCode::OEMMinus),
            0xBE => Some(KeyCode::OEMPeriod),
            0xBF => Some(KeyCode::OEM2),
            0xC0 => Some(KeyCode::OEM3),
            0xDB => Some(KeyCode::OEM4),
            0xDC => Some(KeyCode::OEM5),
            0xDD => Some(KeyCode::OEM6),
            0xDE => Some(KeyCode::OEM7),
            0xDF => Some(KeyCode::OEM8),
            0xE2 => Some(KeyCode::OEM102),
            0xE5 => Some(KeyCode::Processkey),
            0xE7 => Some(KeyCode::Packet),
            0xF6 => Some(KeyCode::Attn),
            0xF7 => Some(KeyCode::CrSel),
            0xF8 => Some(KeyCode::ExSel),
            0xF9 => Some(KeyCode::EraseEOF),
            0xFA => Some(KeyCode::Play),
            0xFB => Some(KeyCode::Zoom),
            0xFD => Some(KeyCode::Pa1),
            0xFE => Some(KeyCode::OEMClear),
            _ => None,
        }
    }

    /// The native virtual-key code of this key.
    pub fn value(&self) -> (v: u8)
        ensures
            v == self.code(),
    {
        match self {
            KeyCode::LeftMouseButton => 0x01,
            KeyCode::RightMouseButton => 0x02,
            KeyCode::Cancel => 0x03,
            KeyCode::MiddleMouseButton => 0x04,
            KeyCode::X1MouseButton => 0x05,
            KeyCode::X2MouseButton => 0x06,
            KeyCode::Back => 0x08,
            KeyCode::Tab => 0x09,
            KeyCode::Clear => 0x0C,
            KeyCode::Return => 0x0D,
            KeyCode::Shift => 0x10,
            KeyCode::Control => 0x11,
            KeyCode::Menu => 0x12,
            KeyCode::Pause => 0x13,
            KeyCode::Capital => 0x14,
            KeyCode::IMEKanaHangel => 0x15,
            KeyCode::IMEJunja => 0x17,
            KeyCode::IMEFinal => 0x18,
            KeyCode::IMEHanja => 0x19,
            KeyCode::Escape => 0x1B,
            KeyCode::IMEConvert => 0x1C,
            KeyCode::IMENonconvert => 0x1D,
            KeyCode::IMEAccept => 0x1E,
            KeyCode::IMEModechange => 0x1F,
            KeyCode::Space => 0x20,
            KeyCode::PageUp => 0x21,
            KeyCode::PageDown => 0x22,
            KeyCode::End => 0x23,
            KeyCode::Home => 0x24,
            KeyCode::Left => 0x25,
            KeyCode::Up => 0x26,
            KeyCode::Right => 0x27,
            KeyCode::Down => 0x28,
            KeyCode::Select => 0x29,
            KeyCode::Print => 0x2A,
            KeyCode::Execute => 0x2B,
            KeyCode::PrintScreen => 0x2C,
            KeyCode::Insert => 0x2D,
            KeyCode::Delete => 0x2E,
            KeyCode::Help => 0x2F,
            KeyCode::Zero => 0x30,
            KeyCode::One => 0x31,
            KeyCode::Two => 0x32,
            KeyCode::Three => 0x33,
            KeyCode::Four => 0x34,
            KeyCode::Five => 0x35,
            KeyCode::Six => 0x36,
            KeyCode::Seven => 0x37,
            KeyCode::Eight => 0x38,
            KeyCode::Nine => 0x39,
            KeyCode::A => 0x41,
            KeyCode::B => 0x42,
            KeyCode::C => 0x43,
            KeyCode::D => 0x44,
            KeyCode::E => 0x45,
            KeyCode::F => 0x46,
            KeyCode::G => 0x47,
            KeyCode::H => 0x48,
            KeyCode::I => 0x49,
            KeyCode::J => 0x4A,
            KeyCode::K => 0x4B,
            KeyCode::L => 0x4C,
            KeyCode::M => 0x4D,
            KeyCode::N => 0x4E,
            KeyCode::O => 0x4F,
            KeyCode::P => 0x50,
            KeyCode::Q => 0x51,
            KeyCode::R => 0x52,
            KeyCode::S => 0x53,
            KeyCode::T => 0x54,
            KeyCode::U => 0x55,
            KeyCode::V => 0x56,
            KeyCode::W => 0x57,
            KeyCode::X => 0x58,
            KeyCode::Y => 0x59,
            KeyCode::Z => 0x5A,
            KeyCode::LeftWindows => 0x5B,
            KeyCode::RightWindows => 0x5C,
            KeyCode::Apps => 0x5D,
            KeyCode::Sleep => 0x5F,
            KeyCode::Numpad0 => 0x60,
            KeyCode::Numpad1 => 0x61,
            KeyCode::Numpad2 => 0x62,
            KeyCode::Numpad3 => 0x63,
            KeyCode::Numpad4 => 0x64,
            KeyCode::Numpad5 => 0x65,
            KeyCode::Numpad6 => 0x66,
            KeyCode::Numpad7 => 0x67,
            KeyCode::Numpad8 => 0x68,
            KeyCode::Numpad9 => 0x69,
            KeyCode::Multiply => 0x6A,
            KeyCode::Add => 0x6B,
            KeyCode::Separator => 0x6C,
            KeyCode::Subtract => 0x6D,
            KeyCode::Decimal => 0x6E,
            KeyCode::Divide => 0x6F,
            KeyCode::F1 => 0x70,
            KeyCode::F2 => 0x71,
            KeyCode::F3 => 0x72,
            KeyCode::F4 => 0x73,
            KeyCode::F5 => 0x74,
            KeyCode::F6 => 0x75,
            KeyCode::F7 => 0x76,
            KeyCode::F8 => 0x77,
            KeyCode::F9 => 0x78,
            KeyCode::F10 => 0x79,
            KeyCode::F11 => 0x7A,
            KeyCode::F12 => 0x7B,
            KeyCode::F13 => 0x7C,
            KeyCode::F14 => 0x7D,
            KeyCode::F15 => 0x7E,
            KeyCode::F16 => 0x7F,
            KeyCode::F17 => 0x80,
            KeyCode::F18 => 0x81,
            KeyCode::F19 => 0x82,
            KeyCode::F20 => 0x83,
            KeyCode::F21 => 0x84,
            KeyCode::F22 => 0x85,
            KeyCode::F23 => 0x86,
            KeyCode::F24 => 0x87,
            KeyCode::Numlock => 0x90,
            KeyCode::ScrollLock => 0x91,
            KeyCode::LeftShift => 0xA0,
            KeyCode::RightShift => 0xA1,
            KeyCode::LeftControl => 0xA2,
            KeyCode::RightControl => 0xA3,
            KeyCode::LeftAlt => 0xA4,
            KeyCode::RightAlt => 0xA5,
            KeyCode::BrowserBack => 0xA6,
            KeyCode::BrowserForward => 0xA7,
            KeyCode::BrowserRefresh => 0xA8,
            KeyCode::BrowserStop => 0xA9,
            KeyCode::BrowserSearch => 0xAA,
            KeyCode::BrowserFavorites => 0xAB,
            KeyCode::BrowserHome => 0xAC,
            KeyCode::VolumeMute => 0xAD,
            KeyCode::VolumeDown => 0xAE,
            KeyCode::VolumeUp => 0xAF,
            KeyCode::MediaNextTrack => 0xB0,
            KeyCode::MediaPrevTrack => 0xB1,
            KeyCode::MediaStop => 0xB2,
            KeyCode::MediaPlayPause => 0xB3,
            KeyCode::LaunchMail => 0xB4,
            KeyCode::LaunchMediaSelect => 0xB5,
            KeyCode::LaunchApp1 => 0xB6,
            KeyCode::LaunchApp2 => 0xB7,
            KeyCode::OEM1 => 0xBA,
            KeyCode::OEMPlus => 0xBB,
            KeyCode::OEMComma => 0xBC,
            KeyCode::OEMMinus => 0xBD,
            KeyCode::OEMPeriod => 0xBE,
            KeyCode::OEM2 => 0xBF,
            KeyCode::OEM3 => 0xC0,
            KeyCode::OEM4 => 0xDB,
            KeyCode::OEM5 => 0xDC,
            KeyCode::OEM6 => 0xDD,
            KeyCode::OEM7 => 0xDE,
            KeyCode::OEM8 => 0xDF,
            KeyCode::OEM102 => 0xE2,
            KeyCode::Processkey => 0xE5,
            KeyCode::Packet => 0xE7,
            KeyCode::Attn => 0xF6,
            KeyCode::CrSel => 0xF7,
            KeyCode::ExSel => 0xF8,
            KeyCode::EraseEOF => 0xF9,
            KeyCode::Play => 0xFA,
            KeyCode::Zoom => 0xFB,
            KeyCode::Pa1 => 0xFD,
            KeyCode::OEMClear => 0xFE,
        }
    }

    /// The key that a 16-bit value stands for, if it stands for one. Values
    /// beyond a byte stand for none.
    pub open spec fn of_value(value: u16) -> Option<KeyCode> {
        if value <= u8::MAX {
            Self::from_code(value as u8)
        } else {
            None
        }
    }

    /// Looks up the key for a native virtual-key code. Values that name no
    /// key, those beyond a byte among them, give `Err(())`.
    pub fn try_from(value: u16) -> (res: Result<KeyCode, ()>)
        ensures
            match res {
                Ok(key) => key.code() == value,
                Err(_) => forall|key: KeyCode| key.code() != value,
            },
            res.ok() == Self::of_value(value),
    {
        proof {
            Self::lemma_code_round_trip();
        }
        match value {
            0x01 => Ok(KeyCode::LeftMouseButton),
            0x02 => Ok(KeyCode::RightMouseButton),
            0x03 => Ok(KeyCode::Cancel),
            0x04 => Ok(KeyCode::MiddleMouseButton),
            0x05 => Ok(KeyCode::X1MouseButton),
            0x06 => Ok(KeyCode::X2MouseButton),
            0x08 => Ok(KeyCode::Back),
            0x09 => Ok(KeyCode::Tab),
            0x0C => Ok(KeyCode::Clear),
            0x0D => Ok(KeyCode::Return),
            0x10 => Ok(KeyCode::Shift),
            0x11 => Ok(KeyCode::Control),
            0x12 => Ok(KeyCode::Menu),
            0x13 => Ok(KeyCode::Pause),
            0x14 => Ok(KeyCode::Capital),
            0x15 => Ok(KeyCode::IMEKanaHangel),
            0x17 => Ok(KeyCode::IMEJunja),
            0x18 => Ok(KeyCode::IMEFinal),
            0x19 => Ok(KeyCode::IMEHanja),
            0x1B => Ok(KeyCode::Escape),
            0x1C => Ok(KeyCode::IMEConvert),
            0x1D => Ok(KeyCode::IMENonconvert),
            0x1E => Ok(KeyCode::IMEAccept),
            0x1F => Ok(KeyCode::IMEModechange),
            0x20 => Ok(KeyCode::Space),
            0x21 => Ok(KeyCode::PageUp),
            0x22 => Ok(KeyCode::PageDown),
            0x23 => Ok(KeyCode::End),
            0x24 => Ok(KeyCode::Home),
            0x25 => Ok(KeyCode::Left),
            0x26 => Ok(KeyCode::Up),
            0x27 => Ok(KeyCode::Right),
            0x28 => Ok(KeyCode::Down),
            0x29 => Ok(KeyCode::Select),
            0x2A => Ok(KeyCode::Print),
            0x2B => Ok(KeyCode::Execute),
            0x2C => Ok(KeyCode::PrintScreen),
            0x2D => Ok(KeyCode::Insert),
            0x2E => Ok(KeyCode::Delete),
            0x2F => Ok(KeyCode::Help),
            0x30 => Ok(KeyCode::Zero),
            0x31 => Ok(KeyCode::One),
            0x32 => Ok(KeyCode::Two),
            0x33 => Ok(KeyCode::Three),
            0x34 => Ok(KeyCode::Four),
            0x35 => Ok(KeyCode::Five),
            0x36 => Ok(KeyCode::Six),
            0x37 => Ok(KeyCode::Seven),
            0x38 => Ok(KeyCode::Eight),
            0x39 => Ok(KeyCode::Nine),
            0x41 => Ok(KeyCode::A),
            0x42 => Ok(KeyCode::B),
            0x43 => Ok(KeyCode::C),
            0x44 => Ok(KeyCode::D),
            0x45 => Ok(KeyCode::E),
            0x46 => Ok(KeyCode::F),
            0x47 => Ok(KeyCode::G),
            0x48 => Ok(KeyCode::H),
            0x49 => Ok(KeyCode::I),
            0x4A => Ok(KeyCode::J),
            0x4B => Ok(KeyCode::K),
            0x4C => Ok(KeyCode::L),
            0x4D => Ok(KeyCode::M),
            0x4E => Ok(KeyCode::N),
            0x4F => Ok(KeyCode::O),
            0x50 => Ok(KeyCode::P),
            0x51 => Ok(KeyCode::Q),
            0x52 => Ok(KeyCode::R),
            0x53 => Ok(KeyCode::S),
            0x54 => Ok(KeyCode::T),
            0x55 => Ok(KeyCode::U),
            0x56 => Ok(KeyCode::V),
            0x57 => Ok(KeyCode::W),
            0x58 => Ok(KeyCode::X),
            0x59 => Ok(KeyCode::Y),
            0x5A => Ok(KeyCode::Z),
            0x5B => Ok(KeyCode::LeftWindows),
            0x5C => Ok(KeyCode::RightWindows),
            0x5D => Ok(KeyCode::Apps),
            0x5F => Ok(KeyCode::Sleep),
            0x60 => Ok(KeyCode::Numpad0),
            0x61 => Ok(KeyCode::Numpad1),
            0x62 => Ok(KeyCode::Numpad2),
            0x63 => Ok(KeyCode::Numpad3),
            0x64 => Ok(KeyCode::Numpad4),
            0x65 => Ok(KeyCode::Numpad5),
            0x66 => Ok(KeyCode::Numpad6),
            0x67 => Ok(KeyCode::Numpad7),
            0x68 => Ok(KeyCode::Numpad8),
            0x69 => Ok(KeyCode::Numpad9),
            0x6A => Ok(KeyCode::Multiply),
            0x6B => Ok(KeyCode::Add),
            0x6C => Ok(KeyCode::Separator),
            0x6D => Ok(KeyCode::Subtract),
            0x6E => Ok(KeyCode::Decimal),
            0x6F => Ok(KeyCode::Divide),
            0x70 => Ok(KeyCode::F1),
            0x71 => Ok(KeyCode::F2),
            0x72 => Ok(KeyCode::F3),
            0x73 => Ok(KeyCode::F4),
            0x74 => Ok(KeyCode::F5),
            0x75 => Ok(KeyCode::F6),
            0x76 => Ok(KeyCode::F7),
            0x77 => Ok(KeyCode::F8),
            0x78 => Ok(KeyCode::F9),
            0x79 => Ok(KeyCode::F10),
            0x7A => Ok(KeyCode::F11),
            0x7B => Ok(KeyCode::F12),
            0x7C => Ok(KeyCode::F13),
            0x7D => Ok(KeyCode::F14),
            0x7E => Ok(KeyCode::F15),
            0x7F => Ok(KeyCode::F16),
            0x80 => Ok(KeyCode::F17),
            0x81 => Ok(KeyCode::F18),
            0x82 => Ok(KeyCode::F19),
            0x83 => Ok(KeyCode::F20),
            0x84 => Ok(KeyCode::F21),
            0x85 => Ok(KeyCode::F22),
            0x86 => Ok(KeyCode::F23),
            0x87 => Ok(KeyCode::F24),
            0x90 => Ok(KeyCode::Numlock),
            0x91 => Ok(KeyCode::ScrollLock),
            0xA0 => Ok(KeyCode::LeftShift),
            0xA1 => Ok(KeyCode::RightShift),
            0xA2 => Ok(KeyCode::LeftControl),
            0xA3 => Ok(KeyCode::RightControl),
            0xA4 => Ok(KeyCode::LeftAlt),
            0xA5 => Ok(KeyCode::RightAlt),
            0xA6 => Ok(KeyCode::BrowserBack),
            0xA7 => Ok(KeyCode::BrowserForward),
            0xA8 => Ok(KeyCode::BrowserRefresh),
            0xA9 => Ok(KeyCode::BrowserStop),
            0xAA => Ok(KeyCode::BrowserSearch),
            0xAB => Ok(KeyCode::BrowserFavorites),
            0xAC => Ok(KeyCode::BrowserHome),
            0xAD => Ok(KeyCode::VolumeMute),
            0xAE => Ok(KeyCode::VolumeDown),
            0xAF => Ok(KeyCode::VolumeUp),
            0xB0 => Ok(KeyCode::MediaNextTrack),
            0xB1 => Ok(KeyCode::MediaPrevTrack),
            0xB2 => Ok(KeyCode::MediaStop),
            0xB3 => Ok(KeyCode::MediaPlayPause),
            0xB4 => Ok(KeyCode::LaunchMail),
            0xB5 => Ok(KeyCode::LaunchMediaSelect),
            0xB6 => Ok(KeyCode::LaunchApp1),
            0xB7 => Ok(KeyCode::LaunchApp2),
            0xBA => Ok(KeyCode::OEM1),
            0xBB => Ok(KeyCode::OEMPlus),
            0xBC => Ok(KeyCode::OEMComma),
            0xBD => Ok(KeyCode::OEMMinus),
            0xBE => Ok(KeyCode::OEMPeriod),
            0xBF => Ok(KeyCode::OEM2),
            0xC0 => Ok(KeyCode::OEM3),
            0xDB => Ok(KeyCode::OEM4),
            0xDC => Ok(KeyCode::OEM5),
            0xDD => Ok(KeyCode::OEM6),
            0xDE => Ok(KeyCode::OEM7),
            0xDF => Ok(KeyCode::OEM8),
            0xE2 => Ok(KeyCode::OEM102),
            0xE5 => Ok(KeyCode::Processkey),
            0xE7 => Ok(KeyCode::Packet),
            0xF6 => Ok(KeyCode::Attn),
            0xF7 => Ok(KeyCode::CrSel),
            0xF8 => Ok(KeyCode::ExSel),
            0xF9 => Ok(KeyCode::EraseEOF),
            0xFA => Ok(KeyCode::Play),
            0xFB => Ok(KeyCode::Zoom),
            0xFD => Ok(KeyCode::Pa1),
            0xFE => Ok(KeyCode::OEMClear),
            _ => Err(()),
        }
    }

    /// All keys, in the order of their native codes.
    pub fn iter() -> (keys: Vec<KeyCode>)
        ensures
            forall|key: KeyCode| keys@.contains(key),
            forall|i: int, j: int|
                0 <= i < j < keys.len() ==> keys[i].code() < keys[j].code(),
    {
        let mut keys: Vec<KeyCode> = Vec::new();
        let mut value: u16 = 0;
        while value <= 0xFF
            invariant
                value <= 0x100,
                forall|key: KeyCode| key.code() < value ==> keys@.contains(key),
                forall|i: int| 0 <= i < keys.len() ==> (#[trigger] keys[i]).code() < value,
                forall|i: int, j: int|
                    0 <= i < j < keys.len() ==> keys[i].code() < keys[j].code(),
            decreases 0x100 - value,
        {
            let ghost before = keys@;
            match Self::try_from(value) {
                Ok(key) => {
                    keys.push(key);
                    proof {
                        assert(keys@.last() == key);
                        assert forall|other: KeyCode| other.code() < value + 1 implies keys@.contains(
                            other,
                        ) by {
                            if other.code() < value {
                                assert(before.contains(other));
                                let k = choose|k: int| 0 <= k < before.len() && before[k] == other;
                                assert(keys@[k] == other);
                            } else {
                                Self::lemma_code_round_trip();
                                assert(Self::from_code(other.code()) == Some(other));
                                assert(Self::from_code(key.code()) == Some(key));
                                assert(keys@[keys.len() - 1] == other);
                            }
                        }
                    }
                },
                Err(_) => {},
            }
            value = value + 1;
        }
        keys
    }

    /// Every key is found again under its own code, and a code names at most
    /// the key that carries it.
    pub proof fn lemma_code_round_trip()
        ensures
            forall|key: KeyCode| #[trigger] Self::from_code(key.code()) == Some(key),
            forall|code: u8|
                (#[trigger] Self::from_code(code)) is Some ==> Self::from_code(code).unwrap().code()
                    == code,
    {
    }
}

} // verus!
