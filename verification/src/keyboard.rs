use vstd::prelude::*;

verus! {

/// A key of the keyboard, as the engine names it.
#[derive(Debug, Clone, Copy, PartialEq, Eq, Structural)]
pub enum Key {
    Null,
    Apostrophe,
    Comma,
    Minus,
    Period,
    Slash,
    Zero,
    One,
    Two,
    Three,
    Four,
    Five,
    Six,
    Seven,
    Eight,
    Nine,
    Semicolon,
    Equal,
    A,
    B,
    C,
    D,
    E,
    F,
    G,
    H,
    I,
    J,
    K,
    L,
    M,
    N,
    O,
    P,
    Q,
    R,
    S,
    T,
    U,
    V,
    W,
    X,
    Y,
    Z,
    LeftBracket,
    Backslash,
    RightBracket,
    Grave,
    Space,
    Escape,
    Enter,
    Tab,
    Backspace,
    Insert,
    Delete,
    Right,
    Left,
    Down,
    Up,
    PageUp,
    PageDown,
    Home,
    End,
    CapsLock,
    ScrollLock,
    NumLock,
    PrintScreen,
    Pause,
    F1,
    F2,
    F3,
    F4,
    F5,
    F6,
    F7,
    F8,
    F9,
    F10,
    F11,
    F12,
    LeftShift,
    LeftControl,
    LeftAlt,
    LeftSuper,
    Rightshift,
    Rightcontrol,
    Rightalt,
    Rightsuper,
    KbMenu,
    Kp0,
    Kp1,
    Kp2,
    Kp3,
    Kp4,
    Kp5,
    Kp6,
    Kp7,
    Kp8,
    Kp9,
    KpDecimal,
    KpDivide,
    KpMultiply,
    KpSubtract,
    KpAdd,
    KpEnter,
    KpEqual,
    Back,
    VolumeUp,
    VolumeDown,
}

impl Key {
    /// The number by which the engine knows the key.
    pub open spec fn code_of(self) -> i32 {
        match self {
            Key::Null => 0,
            Key::Apostrophe => 39,
            Key::Comma => 44,
            Key::Minus => 45,
            Key::Period => 46,
            Key::Slash => 47,
            Key::Zero => 48,
            Key::One => 49,
            Key::Two => 50,
            Key::Three => 51,
            Key::Four => 52,
            Key::Five => 53,
            Key::Six => 54,
            Key::Seven => 55,
            Key::Eight => 56,
            Key::Nine => 57,
            Key::Semicolon => 59,
            Key::Equal => 61,
            Key::A => 65,
            Key::B => 66,
            Key::C => 67,
            Key::D => 68,
            Key::E => 69,
            Key::F => 70,
            Key::G => 71,
            Key::H => 72,
            Key::I => 73,
            Key::J => 74,
            Key::K => 75,
            Key::L => 76,
            Key::M => 77,
            Key::N => 78,
            Key::O => 79,
            Key::P => 80,
            Key::Q => 81,
            Key::R => 82,
            Key::S => 83,
            Key::T => 84,
            Key::U => 85,
            Key::V => 86,
            Key::W => 87,
            Key::X => 88,
            Key::Y => 89,
            Key::Z => 90,
            Key::LeftBracket => 91,
            Key::Backslash => 92,
            Key::RightBracket => 93,
            Key::Grave => 96,
            Key::Space => 32,
            Key::Escape => 256,
            Key::Enter => 257,
            Key::Tab => 258,
            Key::Backspace => 259,
            Key::Insert => 260,
            Key::Delete => 261,
            Key::Right => 262,
            Key::Left => 263,
            Key::Down => 264,
            Key::Up => 265,
            Key::PageUp => 266,
            Key::PageDown => 267,
            Key::Home => 268,
            Key::End => 269,
            Key::CapsLock => 280,
            Key::ScrollLock => 281,
            Key::NumLock => 282,
            Key::PrintScreen => 283,
            Key::Pause => 284,
            Key::F1 => 290,
            Key::F2 => 291,
            Key::F3 => 292,
            Key::F4 => 293,
            Key::F5 => 294,
            Key::F6 => 295,
            Key::F7 => 296,
            Key::F8 => 297,
            Key::F9 => 298,
            Key::F10 => 299,
            Key::F11 => 300,
            Key::F12 => 301,
            Key::LeftShift => 340,
            Key::LeftControl => 341,
            Key::LeftAlt => 342,
            Key::LeftSuper => 343,
            Key::Rightshift => 344,
            Key::Rightcontrol => 345,
            Key::Rightalt => 346,
            Key::Rightsuper => 347,
            Key::KbMenu => 348,
            Key::Kp0 => 320,
            Key::Kp1 => 321,
            Key::Kp2 => 322,
            Key::Kp3 => 323,
            Key::Kp4 => 324,
            Key::Kp5 => 325,
            Key::Kp6 => 326,
            Key::Kp7 => 327,
            Key::Kp8 => 328,
            Key::Kp9 => 329,
            Key::KpDecimal => 330,
            Key::KpDivide => 331,
            Key::KpMultiply => 332,
            Key::KpSubtract => 333,
            Key::KpAdd => 334,
            Key::KpEnter => 335,
            Key::KpEqual => 336,
            Key::Back => 4,
            Key::VolumeUp => 24,
            Key::VolumeDown => 25,
        }
    }

    /// The number by which the engine knows the key.
    pub fn code(self) -> (code: i32)
        ensures
            code == self.code_of(),
    {
        match self {
            Key::Null => 0,
            Key::Apostrophe => 39,
            Key::Comma => 44,
            Key::Minus => 45,
            Key::Period => 46,
            Key::Slash => 47,
            Key::Zero => 48,
            Key::One => 49,
            Key::Two => 50,
            Key::Three => 51,
            Key::Four => 52,
            Key::Five => 53,
            Key::Six => 54,
            Key::Seven => 55,
            Key::Eight => 56,
            Key::Nine => 57,
            Key::Semicolon => 59,
            Key::Equal => 61,
            Key::A => 65,
            Key::B => 66,
            Key::C => 67,
            Key::D => 68,
            Key::E => 69,
            Key::F => 70,
            Key::G => 71,
            Key::H => 72,
            Key::I => 73,
            Key::J => 74,
            Key::K => 75,
            Key::L => 76,
            Key::M => 77,
            Key::N => 78,
            Key::O => 79,
            Key::P => 80,
            Key::Q => 81,
            Key::R => 82,
            Key::S => 83,
            Key::T => 84,
            Key::U => 85,
            Key::V => 86,
            Key::W => 87,
            Key::X => 88,
            Key::Y => 89,
            Key::Z => 90,
            Key::LeftBracket => 91,
            Key::Backslash => 92,
            Key::RightBracket => 93,
            Key::Grave => 96,
            Key::Space => 32,
            Key::Escape => 256,
            Key::Enter => 257,
            Key::Tab => 258,
            Key::Backspace => 259,
            Key::Insert => 260,
            Key::Delete => 261,
            Key::Right => 262,
            Key::Left => 263,
            Key::Down => 264,
            Key::Up => 265,
            Key::PageUp => 266,
            Key::PageDown => 267,
            Key::Home => 268,
            Key::End => 269,
            Key::CapsLock => 280,
            Key::ScrollLock => 281,
            Key::NumLock => 282,
            Key::PrintScreen => 283,
            Key::Pause => 284,
            Key::F1 => 290,
            Key::F2 => 291,
            Key::F3 => 292,
            Key::F4 => 293,
            Key::F5 => 294,
            Key::F6 => 295,
            Key::F7 => 296,
            Key::F8 => 297,
            Key::F9 => 298,
            Key::F10 => 299,
            Key::F11 => 300,
            Key::F12 => 301,
            Key::LeftShift => 340,
            Key::LeftControl => 341,
            Key::LeftAlt => 342,
            Key::LeftSuper => 343,
            Key::Rightshift => 344,
            Key::Rightcontrol => 345,
            Key::Rightalt => 346,
            Key::Rightsuper => 347,
            Key::KbMenu => 348,
            Key::Kp0 => 320,
            Key::Kp1 => 321,
            Key::Kp2 => 322,
            Key::Kp3 => 323,
            Key::Kp4 => 324,
            Key::Kp5 => 325,
            Key::Kp6 => 326,
            Key::Kp7 => 327,
            Key::Kp8 => 328,
            Key::Kp9 => 329,
            Key::KpDecimal => 330,
            Key::KpDivide => 331,
            Key::KpMultiply => 332,
            Key::KpSubtract => 333,
            Key::KpAdd => 334,
            Key::KpEnter => 335,
            Key::KpEqual => 336,
            Key::Back => 4,
            Key::VolumeUp => 24,
            Key::VolumeDown => 25,
        }
    }

    /// The key that the engine knows by `code`, if there is one.
    pub fn from_code(code: i32) -> (key: Option<Key>)
        ensures
            key matches Some(found) ==> found.code_of() == code,
            key is None ==> forall|any: Key| #[trigger] any.code_of() != code,
    {
        match code {
            0 => Some(Key::Null),
            39 => Some(Key::Apostrophe),
            44 => Some(Key::Comma),
            45 => Some(Key::Minus),
            46 => Some(Key::Period),
            47 => Some(Key::Slash),
            48 => Some(Key::Zero),
            49 => Some(Key::One),
            50 => Some(Key::Two),
            51 => Some(Key::Three),
            52 => Some(Key::Four),
            53 => Some(Key::Five),
            54 => Some(Key::Six),
            55 => Some(Key::Seven),
            56 => Some(Key::Eight),
            57 => Some(Key::Nine),
            59 => Some(Key::Semicolon),
            61 => Some(Key::Equal),
            65 => Some(Key::A),
            66 => Some(Key::B),
            67 => Some(Key::C),
            68 => Some(Key::D),
            69 => Some(Key::E),
            70 => Some(Key::F),
            71 => Some(Key::G),
            72 => Some(Key::H),
            73 => Some(Key::I),
            74 => Some(Key::J),
            75 => Some(Key::K),
            76 => Some(Key::L),
            77 => Some(Key::M),
            78 => Some(Key::N),
            79 => Some(Key::O),
            80 => Some(Key::P),
            81 => Some(Key::Q),
            82 => Some(Key::R),
            83 => Some(Key::S),
            84 => Some(Key::T),
            85 => Some(Key::U),
            86 => Some(Key::V),
            87 => Some(Key::W),
            88 => Some(Key::X),
            89 => Some(Key::Y),
            90 => Some(Key::Z),
            91 => Some(Key::LeftBracket),
            92 => Some(Key::Backslash),
            93 => Some(Key::RightBracket),
            96 => Some(Key::Grave),
            32 => Some(Key::Space),
            256 => Some(Key::Escape),
            257 => Some(Key::Enter),
            258 => Some(Key::Tab),
            259 => Some(Key::Backspace),
            260 => Some(Key::Insert),
            261 => Some(Key::Delete),
            262 => Some(Key::Right),
            263 => Some(Key::Left),
            264 => Some(Key::Down),
            265 => Some(Key::Up),
            266 => Some(Key::PageUp),
            267 => Some(Key::PageDown),
            268 => Some(Key::Home),
            269 => Some(Key::End),
            280 => Some(Key::CapsLock),
            281 => Some(Key::ScrollLock),
            282 => Some(Key::NumLock),
            283 => Some(Key::PrintScreen),
            284 => Some(Key::Pause),
            290 => Some(Key::F1),
            291 => Some(Key::F2),
            292 => Some(Key::F3),
            293 => Some(Key::F4),
            294 => Some(Key::F5),
            295 => Some(Key::F6),
            296 => Some(Key::F7),
            297 => Some(Key::F8),
            298 => Some(Key::F9),
            299 => Some(Key::F10),
            300 => Some(Key::F11),
            301 => Some(Key::F12),
            340 => Some(Key::LeftShift),
            341 => Some(Key::LeftControl),
            342 => Some(Key::LeftAlt),
            343 => Some(Key::LeftSuper),
            344 => Some(Key::Rightshift),
            345 => Some(Key::Rightcontrol),
            346 => Some(Key::Rightalt),
            347 => Some(Key::Rightsuper),
            348 => Some(Key::KbMenu),
            320 => Some(Key::Kp0),
            321 => Some(Key::Kp1),
            322 => Some(Key::Kp2),
            323 => Some(Key::Kp3),
            324 => Some(Key::Kp4),
            325 => Some(Key::Kp5),
            326 => Some(Key::Kp6),
            327 => Some(Key::Kp7),
            328 => Some(Key::Kp8),
            329 => Some(Key::Kp9),
            330 => Some(Key::KpDecimal),
            331 => Some(Key::KpDivide),
            332 => Some(Key::KpMultiply),
            333 => Some(Key::KpSubtract),
            334 => Some(Key::KpAdd),
            335 => Some(Key::KpEnter),
            336 => Some(Key::KpEqual),
            4 => Some(Key::Back),
            24 => Some(Key::VolumeUp),
            25 => Some(Key::VolumeDown),
            _ => None,
        }
    }
}

/// No two keys share a number, so a key's number finds the key again.
pub proof fn lemma_key_codes_distinct(one: Key, other: Key)
    ensures
        one.code_of() == other.code_of() <==> one == other,
{
}

} // verus!
