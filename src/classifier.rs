use crate::keycode::KeyCode;
use vstd::prelude::*;

verus! {

/// The four arrow keys.
#[derive(Clone, Copy, Debug, PartialEq, Eq, Structural)]
pub enum Direction {
    Up,
    Down,
    Left,
    Right,
}

/// What one key press means to the recorder, whatever its current state.
#[derive(Clone, Copy, Debug, PartialEq, Eq, Structural)]
pub enum ClassifiedEvent {
    ToggleRecording,
    Cancel,
    Newline,
    Space,
    DeleteLast,
    Arrow(Direction),
    Char(char),
    Ignored,
}

/// The arrow glyph written into a note for a direction.
pub open spec fn glyph_of(d: Direction) -> char {
    match d {
        Direction::Up => '\u{2191}',
        Direction::Down => '\u{2193}',
        Direction::Left => '\u{2190}',
        Direction::Right => '\u{2192}',
    }
}

/// The printable character of a key: lower-case letters, digits from either
/// the main row or the keypad, and a fixed set of punctuation.
pub open spec fn key_char(k: KeyCode) -> Option<char> {
    match k {
        KeyCode::KeyA => Some('a'),
        KeyCode::KeyB => Some('b'),
        KeyCode::KeyC => Some('c'),
        KeyCode::KeyD => Some('d'),
        KeyCode::KeyE => Some('e'),
        KeyCode::KeyF => Some('f'),
        KeyCode::KeyG => Some('g'),
        KeyCode::KeyH => Some('h'),
        KeyCode::KeyI => Some('i'),
        KeyCode::KeyJ => Some('j'),
        KeyCode::KeyK => Some('k'),
        KeyCode::KeyL => Some('l'),
        KeyCode::KeyM => Some('m'),
        KeyCode::KeyN => Some('n'),
        KeyCode::KeyO => Some('o'),
        KeyCode::KeyP => Some('p'),
        KeyCode::KeyQ => Some('q'),
        KeyCode::KeyR => Some('r'),
        KeyCode::KeyS => Some('s'),
        KeyCode::KeyT => Some('t'),
        KeyCode::KeyU => Some('u'),
        KeyCode::KeyV => Some('v'),
        KeyCode::KeyW => Some('w'),
        KeyCode::KeyX => Some('x'),
        KeyCode::KeyY => Some('y'),
        KeyCode::KeyZ => Some('z'),
        KeyCode::Num0 | KeyCode::Kp0 => Some('0'),
        KeyCode::Num1 | KeyCode::Kp1 => Some('1'),
        KeyCode::Num2 | KeyCode::Kp2 => Some('2'),
        KeyCode::Num3 | KeyCode::Kp3 => Some('3'),
        KeyCode::Num4 | KeyCode::Kp4 => Some('4'),
        KeyCode::Num5 | KeyCode::Kp5 => Some('5'),
        KeyCode::Num6 | KeyCode::Kp6 => Some('6'),
        KeyCode::Num7 | KeyCode::Kp7 => Some('7'),
        KeyCode::Num8 | KeyCode::Kp8 => Some('8'),
        KeyCode::Num9 | KeyCode::Kp9 => Some('9'),
        KeyCode::Minus => Some('-'),
        KeyCode::Equal => Some('='),
        KeyCode::LeftBracket => Some('['),
        KeyCode::RightBracket => Some(']'),
        KeyCode::SemiColon => Some(';'),
        KeyCode::Quote => Some('\''),
        KeyCode::BackQuote => Some('`'),
        KeyCode::BackSlash => Some('\\'),
        KeyCode::Comma => Some(','),
        KeyCode::Dot => Some('.'),
        KeyCode::Slash => Some('/'),
        _ => None,
    }
}

/// The classification of a key press.
pub open spec fn event_of(k: KeyCode) -> ClassifiedEvent {
    match k {
        KeyCode::F9 => ClassifiedEvent::ToggleRecording,
        KeyCode::Escape => ClassifiedEvent::Cancel,
        KeyCode::Return => ClassifiedEvent::Newline,
        KeyCode::Space => ClassifiedEvent::Space,
        KeyCode::Backspace => ClassifiedEvent::DeleteLast,
        KeyCode::UpArrow => ClassifiedEvent::Arrow(Direction::Up),
        KeyCode::DownArrow => ClassifiedEvent::Arrow(Direction::Down),
        KeyCode::LeftArrow => ClassifiedEvent::Arrow(Direction::Left),
        KeyCode::RightArrow => ClassifiedEvent::Arrow(Direction::Right),
        _ => match key_char(k) {
            Some(c) => ClassifiedEvent::Char(c),
            None => ClassifiedEvent::Ignored,
        },
    }
}

impl Direction {
    /// The glyph written into a note for this direction.
    pub fn glyph(&self) -> (r: char)
        ensures
            r == glyph_of(*self),
    {
        match self {
            Direction::Up => '\u{2191}',
            Direction::Down => '\u{2193}',
            Direction::Left => '\u{2190}',
            Direction::Right => '\u{2192}',
        }
    }
}

/// The printable character of a key, or `None` for a key that prints nothing.
pub fn key_to_char(key: KeyCode) -> (r: Option<char>)
    ensures
        r == key_char(key),
{
    let c = match key {
            KeyCode::KeyA => 'a',
            KeyCode::KeyB => 'b',
            KeyCode::KeyC => 'c',
            KeyCode::KeyD => 'd',
            KeyCode::KeyE => 'e',
            KeyCode::KeyF => 'f',
            KeyCode::KeyG => 'g',
            KeyCode::KeyH => 'h',
            KeyCode::KeyI => 'i',
            KeyCode::KeyJ => 'j',
            KeyCode::KeyK => 'k',
            KeyCode::KeyL => 'l',
            KeyCode::KeyM => 'm',
            KeyCode::KeyN => 'n',
            KeyCode::KeyO => 'o',
            KeyCode::KeyP => 'p',
            KeyCode::KeyQ => 'q',
            KeyCode::KeyR => 'r',
            KeyCode::KeyS => 's',
            KeyCode::KeyT => 't',
            KeyCode::KeyU => 'u',
            KeyCode::KeyV => 'v',
            KeyCode::KeyW => 'w',
            KeyCode::KeyX => 'x',
            KeyCode::KeyY => 'y',
            KeyCode::KeyZ => 'z',
            KeyCode::Num0 | KeyCode::Kp0 => '0',
            KeyCode::Num1 | KeyCode::Kp1 => '1',
            KeyCode::Num2 | KeyCode::Kp2 => '2',
            KeyCode::Num3 | KeyCode::Kp3 => '3',
            KeyCode::Num4 | KeyCode::Kp4 => '4',
            KeyCode::Num5 | KeyCode::Kp5 => '5',
            KeyCode::Num6 | KeyCode::Kp6 => '6',
            KeyCode::Num7 | KeyCode::Kp7 => '7',
            KeyCode::Num8 | KeyCode::Kp8 => '8',
            KeyCode::Num9 | KeyCode::Kp9 => '9',
            KeyCode::Minus => '-',
            KeyCode::Equal => '=',
            KeyCode::LeftBracket => '[',
            KeyCode::RightBracket => ']',
            KeyCode::SemiColon => ';',
            KeyCode::Quote => '\'',
            KeyCode::BackQuote => '`',
            KeyCode::BackSlash => '\\',
            KeyCode::Comma => ',',
            KeyCode::Dot => '.',
            KeyCode::Slash => '/',
        _ => {
            return None;
        },
    };
    Some(c)
}

/// Classifies one key press. Total: every key maps to exactly one event,
/// and keys outside every set map to `Ignored`.
pub fn classify(key: KeyCode) -> (r: ClassifiedEvent)
    ensures
        r == event_of(key),
{
    match key {
        KeyCode::F9 => ClassifiedEvent::ToggleRecording,
        KeyCode::Escape => ClassifiedEvent::Cancel,
        KeyCode::Return => ClassifiedEvent::Newline,
        KeyCode::Space => ClassifiedEvent::Space,
        KeyCode::Backspace => ClassifiedEvent::DeleteLast,
        KeyCode::UpArrow => ClassifiedEvent::Arrow(Direction::Up),
        KeyCode::DownArrow => ClassifiedEvent::Arrow(Direction::Down),
        KeyCode::LeftArrow => ClassifiedEvent::Arrow(Direction::Left),
        KeyCode::RightArrow => ClassifiedEvent::Arrow(Direction::Right),
        _ => match key_to_char(key) {
            Some(c) => ClassifiedEvent::Char(c),
            None => ClassifiedEvent::Ignored,
        },
    }
}

} // verus!
