//! Key identities and the keyboard state of one frame.
use vstd::prelude::*;

verus! {

/// A physical key, by its position on a US layout.
#[derive(Debug, Clone, Copy, PartialEq, Eq, Structural)]
pub enum Key {
    KeyA, KeyB, KeyC, KeyD, KeyE, KeyF, KeyG, KeyH, KeyI, KeyJ, KeyK, KeyL, KeyM,
    KeyN, KeyO, KeyP, KeyQ, KeyR, KeyS, KeyT, KeyU, KeyV, KeyW, KeyX, KeyY, KeyZ,
    Digit0, Digit1, Digit2, Digit3, Digit4, Digit5, Digit6, Digit7, Digit8, Digit9,
    F1, F2, F3, F4, F5, F6, F7, F8, F9, F10, F11, F12,
    Escape, Enter, Tab, Backspace, Space, Minus, Slash,
    ArrowLeft, ArrowRight, ArrowUp, ArrowDown,
    Home, End, PageUp, PageDown, Insert, Delete,
    ControlLeft, ControlRight, AltLeft, AltRight, ShiftLeft, ShiftRight, SuperLeft, SuperRight,
    /// Any other key
    Other,
}

/// The keys held and the keys pressed since the previous frame.
#[derive(Debug, Clone)]
pub struct KeyboardState {
    pub pressed: Vec<Key>,
    pub just_pressed: Vec<Key>,
}

/// Whether `k` occurs in `keys`.
fn key_in(keys: &Vec<Key>, k: Key) -> (r: bool)
    ensures
        r == keys@.contains(k),
{
    let mut i: usize = 0;
    while i < keys.len()
        invariant
            i <= keys@.len(),
            forall|j: int| 0 <= j < i ==> keys@[j] != k,
        decreases keys.len() - i,
    {
        if keys[i] == k {
            proof {
                assert(keys@[i as int] == k);
            }
            return true;
        }
        i = i + 1;
    }
    false
}

impl KeyboardState {
    /// Whether `k` is held.
    pub fn pressed(&self, k: Key) -> (r: bool)
        ensures
            r == self.pressed@.contains(k),
    {
        key_in(&self.pressed, k)
    }

    /// Whether `k` was pressed this frame.
    pub fn just_pressed(&self, k: Key) -> (r: bool)
        ensures
            r == self.just_pressed@.contains(k),
    {
        key_in(&self.just_pressed, k)
    }

    /// Whether either of two keys is held.
    pub fn any_pressed(&self, a: Key, b: Key) -> (r: bool)
        ensures
            r == (self.pressed@.contains(a) || self.pressed@.contains(b)),
    {
        self.pressed(a) || self.pressed(b)
    }
}

/// Modifiers held with a key: either key of each pair, and the leader key
/// when its sequence is active.
#[derive(Debug, Clone, Copy, PartialEq, Eq, Structural)]
pub struct KeyModifiers {
    pub ctrl: bool,
    pub alt: bool,
    pub shift: bool,
    pub super_key: bool,
    pub leader: bool,
}

/// The modifiers held in this frame.
pub fn build_modifiers(keyboard: &KeyboardState, leader_active: bool) -> (m: KeyModifiers)
    ensures
        m.ctrl == (keyboard.pressed@.contains(Key::ControlLeft) || keyboard.pressed@.contains(Key::ControlRight)),
        m.alt == (keyboard.pressed@.contains(Key::AltLeft) || keyboard.pressed@.contains(Key::AltRight)),
        m.shift == (keyboard.pressed@.contains(Key::ShiftLeft) || keyboard.pressed@.contains(Key::ShiftRight)),
        m.super_key == (keyboard.pressed@.contains(Key::SuperLeft) || keyboard.pressed@.contains(Key::SuperRight)),
        m.leader == leader_active,
{
    KeyModifiers {
        ctrl: keyboard.any_pressed(Key::ControlLeft, Key::ControlRight),
        alt: keyboard.any_pressed(Key::AltLeft, Key::AltRight),
        shift: keyboard.any_pressed(Key::ShiftLeft, Key::ShiftRight),
        super_key: keyboard.any_pressed(Key::SuperLeft, Key::SuperRight),
        leader: leader_active,
    }
}

/// The lower-case letter of a letter key.
pub open spec fn letter_of(k: Key) -> Option<char> {
    match k {
        Key::KeyA => Some('a'), Key::KeyB => Some('b'), Key::KeyC => Some('c'),
        Key::KeyD => Some('d'), Key::KeyE => Some('e'), Key::KeyF => Some('f'),
        Key::KeyG => Some('g'), Key::KeyH => Some('h'), Key::KeyI => Some('i'),
        Key::KeyJ => Some('j'), Key::KeyK => Some('k'), Key::KeyL => Some('l'),
        Key::KeyM => Some('m'), Key::KeyN => Some('n'), Key::KeyO => Some('o'),
        Key::KeyP => Some('p'), Key::KeyQ => Some('q'), Key::KeyR => Some('r'),
        Key::KeyS => Some('s'), Key::KeyT => Some('t'), Key::KeyU => Some('u'),
        Key::KeyV => Some('v'), Key::KeyW => Some('w'), Key::KeyX => Some('x'),
        Key::KeyY => Some('y'), Key::KeyZ => Some('z'),
        _ => None,
    }
}

/// Letter keys give lower-case ASCII letters, each key its own letter.
pub proof fn lemma_letters_distinct(k1: Key, k2: Key)
    ensures
        letter_of(k1) matches Some(c) ==> 'a' <= c <= 'z',
        letter_of(k1) is Some && letter_of(k1) == letter_of(k2) ==> k1 == k2,
{
}

/// With shift a letter key types the upper-case form of its letter, and
/// without it the letter itself.
pub proof fn lemma_shifted_letters(k: Key)
    ensures
        letter_of(k) matches Some(c) ==> typed_char(k, false) == Some(c) && (typed_char(k, true) matches Some(u)
            && 'A' <= u <= 'Z' && u as u32 + 32 == c as u32),
{
}

/// The lower-case letter of a letter key, for hint selection.
pub fn keycode_to_char(k: Key) -> (r: Option<char>)
    ensures
        r == letter_of(k),
{
    match k {
        Key::KeyA => Some('a'), Key::KeyB => Some('b'), Key::KeyC => Some('c'),
        Key::KeyD => Some('d'), Key::KeyE => Some('e'), Key::KeyF => Some('f'),
        Key::KeyG => Some('g'), Key::KeyH => Some('h'), Key::KeyI => Some('i'),
        Key::KeyJ => Some('j'), Key::KeyK => Some('k'), Key::KeyL => Some('l'),
        Key::KeyM => Some('m'), Key::KeyN => Some('n'), Key::KeyO => Some('o'),
        Key::KeyP => Some('p'), Key::KeyQ => Some('q'), Key::KeyR => Some('r'),
        Key::KeyS => Some('s'), Key::KeyT => Some('t'), Key::KeyU => Some('u'),
        Key::KeyV => Some('v'), Key::KeyW => Some('w'), Key::KeyX => Some('x'),
        Key::KeyY => Some('y'), Key::KeyZ => Some('z'),
        _ => None,
    }
}

/// The upper-case letter for a lower-case ASCII letter.
pub open spec fn upper(c: char) -> char {
    ((c as u32) - 32) as char
}

/// The character a key types on a US layout, with or without shift:
/// letters, digits with their shifted symbols, space and minus.
pub open spec fn typed_char(k: Key, shift: bool) -> Option<char> {
    match letter_of(k) {
        Some(c) => Some(if shift { upper(c) } else { c }),
        None => match k {
            Key::Digit0 => Some(if shift { ')' } else { '0' }),
            Key::Digit1 => Some(if shift { '!' } else { '1' }),
            Key::Digit2 => Some(if shift { '@' } else { '2' }),
            Key::Digit3 => Some(if shift { '#' } else { '3' }),
            Key::Digit4 => Some(if shift { '$' } else { '4' }),
            Key::Digit5 => Some(if shift { '%' } else { '5' }),
            Key::Digit6 => Some(if shift { '^' } else { '6' }),
            Key::Digit7 => Some(if shift { '&' } else { '7' }),
            Key::Digit8 => Some(if shift { '*' } else { '8' }),
            Key::Digit9 => Some(if shift { '(' } else { '9' }),
            Key::Space => Some(' '),
            Key::Minus => Some(if shift { '_' } else { '-' }),
            _ => None,
        },
    }
}

/// The character a key types, with or without shift.
pub fn typed_key_char(k: Key, shift: bool) -> (r: Option<char>)
    ensures
        r == typed_char(k, shift),
{
    match keycode_to_char(k) {
        Some(c) => {
            if shift {
                let u: u32 = c as u32;
                let b: u8 = (u - 32) as u8;
                Some(b as char)
            } else {
                Some(c)
            }
        },
        None => match k {
            Key::Digit0 => Some(if shift { ')' } else { '0' }),
            Key::Digit1 => Some(if shift { '!' } else { '1' }),
            Key::Digit2 => Some(if shift { '@' } else { '2' }),
            Key::Digit3 => Some(if shift { '#' } else { '3' }),
            Key::Digit4 => Some(if shift { '$' } else { '4' }),
            Key::Digit5 => Some(if shift { '%' } else { '5' }),
            Key::Digit6 => Some(if shift { '^' } else { '6' }),
            Key::Digit7 => Some(if shift { '&' } else { '7' }),
            Key::Digit8 => Some(if shift { '*' } else { '8' }),
            Key::Digit9 => Some(if shift { '(' } else { '9' }),
            Key::Space => Some(' '),
            Key::Minus => Some(if shift { '_' } else { '-' }),
            _ => None,
        },
    }
}

} // verus!
