//! Daemon connection logic: the terminal bytes of special keys, the
//! filtering of typed text, the reconnection backoff and message framing.
use vstd::prelude::*;
use vstd::string::StringSliceAdditionalSpecFns;
use crate::input::keys::Key;

verus! {

/// The bytes a special key sends to the terminal.
pub open spec fn key_bytes(key: Key) -> Option<Seq<u8>> {
    match key {
        Key::Enter => Some(seq![13u8]),
        Key::Backspace => Some(seq![0x7Fu8]),
        Key::Tab => Some(seq![9u8]),
        Key::Escape => Some(seq![0x1Bu8]),
        Key::Space => Some(seq![32u8]),
        Key::ArrowUp => Some(seq![0x1Bu8, 91u8, 65u8]),
        Key::ArrowDown => Some(seq![0x1Bu8, 91u8, 66u8]),
        Key::ArrowRight => Some(seq![0x1Bu8, 91u8, 67u8]),
        Key::ArrowLeft => Some(seq![0x1Bu8, 91u8, 68u8]),
        Key::Home => Some(seq![0x1Bu8, 91u8, 72u8]),
        Key::End => Some(seq![0x1Bu8, 91u8, 70u8]),
        Key::PageUp => Some(seq![0x1Bu8, 91u8, 53u8, 126u8]),
        Key::PageDown => Some(seq![0x1Bu8, 91u8, 54u8, 126u8]),
        Key::Delete => Some(seq![0x1Bu8, 91u8, 51u8, 126u8]),
        Key::Insert => Some(seq![0x1Bu8, 91u8, 50u8, 126u8]),
        Key::F1 => Some(seq![0x1Bu8, 79u8, 80u8]),
        Key::F2 => Some(seq![0x1Bu8, 79u8, 81u8]),
        Key::F3 => Some(seq![0x1Bu8, 79u8, 82u8]),
        Key::F4 => Some(seq![0x1Bu8, 79u8, 83u8]),
        Key::F5 => Some(seq![0x1Bu8, 91u8, 49u8, 53u8, 126u8]),
        Key::F6 => Some(seq![0x1Bu8, 91u8, 49u8, 55u8, 126u8]),
        Key::F7 => Some(seq![0x1Bu8, 91u8, 49u8, 56u8, 126u8]),
        Key::F8 => Some(seq![0x1Bu8, 91u8, 49u8, 57u8, 126u8]),
        Key::F9 => Some(seq![0x1Bu8, 91u8, 50u8, 48u8, 126u8]),
        Key::F10 => Some(seq![0x1Bu8, 91u8, 50u8, 49u8, 126u8]),
        Key::F11 => Some(seq![0x1Bu8, 91u8, 50u8, 51u8, 126u8]),
        Key::F12 => Some(seq![0x1Bu8, 91u8, 50u8, 52u8, 126u8]),
        _ => None,
    }
}

/// Special keys are told apart by their bytes: no two keys send the same
/// bytes; every sequence of more than one byte is an escape sequence; a
/// single byte is a control byte, or the space.
pub proof fn lemma_key_bytes_distinct(k1: Key, k2: Key)
    ensures
        key_bytes(k1) is Some && key_bytes(k1) == key_bytes(k2) ==> k1 == k2,
        key_bytes(k1) matches Some(b) ==> b.len() >= 1 && (b.len() > 1 ==> b[0] == 0x1Bu8),
        key_bytes(k1) matches Some(b) ==> (b.len() == 1 ==> is_control_byte(b[0]) || b[0] == 32u8),
{
    if key_bytes(k1) is Some && key_bytes(k1) == key_bytes(k2) {
        let b = key_bytes(k1)->0;
        assert(b.len() == key_bytes(k2)->0.len());
        if b.len() > 1 {
            assert(b[1] == key_bytes(k2)->0[1]);
            assert(b[2] == key_bytes(k2)->0[2]);
        }
        if b.len() > 3 {
            assert(b[3] == key_bytes(k2)->0[3]);
        }
        assert(b[0] == key_bytes(k2)->0[0]);
    }
}

/// The view of optional bytes.
pub open spec fn bytes_opt(b: Option<Vec<u8>>) -> Option<Seq<u8>> {
    match b {
        Some(v) => Some(v@),
        None => None,
    }
}

/// The terminal bytes of a special key: control characters, and escape
/// sequences for the cursor, editing and function keys. Other keys type
/// text instead.
pub fn key_to_bytes(key: Key) -> (r: Option<Vec<u8>>)
    ensures
        bytes_opt(r) == key_bytes(key),
{
    let r: Option<Vec<u8>> = match key {
        Key::Enter => Some(vec![13u8]),
        Key::Backspace => Some(vec![0x7Fu8]),
        Key::Tab => Some(vec![9u8]),
        Key::Escape => Some(vec![0x1Bu8]),
        Key::Space => Some(vec![32u8]),
        Key::ArrowUp => Some(vec![0x1Bu8, 91u8, 65u8]),
        Key::ArrowDown => Some(vec![0x1Bu8, 91u8, 66u8]),
        Key::ArrowRight => Some(vec![0x1Bu8, 91u8, 67u8]),
        Key::ArrowLeft => Some(vec![0x1Bu8, 91u8, 68u8]),
        Key::Home => Some(vec![0x1Bu8, 91u8, 72u8]),
        Key::End => Some(vec![0x1Bu8, 91u8, 70u8]),
        Key::PageUp => Some(vec![0x1Bu8, 91u8, 53u8, 126u8]),
        Key::PageDown => Some(vec![0x1Bu8, 91u8, 54u8, 126u8]),
        Key::Delete => Some(vec![0x1Bu8, 91u8, 51u8, 126u8]),
        Key::Insert => Some(vec![0x1Bu8, 91u8, 50u8, 126u8]),
        Key::F1 => Some(vec![0x1Bu8, 79u8, 80u8]),
        Key::F2 => Some(vec![0x1Bu8, 79u8, 81u8]),
        Key::F3 => Some(vec![0x1Bu8, 79u8, 82u8]),
        Key::F4 => Some(vec![0x1Bu8, 79u8, 83u8]),
        Key::F5 => Some(vec![0x1Bu8, 91u8, 49u8, 53u8, 126u8]),
        Key::F6 => Some(vec![0x1Bu8, 91u8, 49u8, 55u8, 126u8]),
        Key::F7 => Some(vec![0x1Bu8, 91u8, 49u8, 56u8, 126u8]),
        Key::F8 => Some(vec![0x1Bu8, 91u8, 49u8, 57u8, 126u8]),
        Key::F9 => Some(vec![0x1Bu8, 91u8, 50u8, 48u8, 126u8]),
        Key::F10 => Some(vec![0x1Bu8, 91u8, 50u8, 49u8, 126u8]),
        Key::F11 => Some(vec![0x1Bu8, 91u8, 50u8, 51u8, 126u8]),
        Key::F12 => Some(vec![0x1Bu8, 91u8, 50u8, 52u8, 126u8]),
        _ => None,
    };
    proof {
        assert(bytes_opt(r) =~~= key_bytes(key));
    }
    r
}

/// A control byte: below space, or delete.
pub open spec fn is_control_byte(b: u8) -> bool {
    b < 0x20 || b == 0x7F
}

/// The bytes typed text sends: nothing for a key that sends its own bytes,
/// nor for text holding a control byte; else the text's UTF-8 bytes.
pub open spec fn typed_bytes(key: Key, text: Seq<u8>) -> Option<Seq<u8>> {
    if key_bytes(key) is Some {
        None
    } else if exists|i: int| 0 <= i < text.len() && is_control_byte(text[i]) {
        None
    } else {
        Some(text)
    }
}

/// The bytes to send for text typed with `key`, if any.
pub fn text_input_bytes(key: Key, text: &str) -> (r: Option<Vec<u8>>)
    ensures
        bytes_opt(r) == typed_bytes(key, text.spec_bytes()),
{
    if key_to_bytes(key).is_some() {
        return None;
    }
    let bytes = text.as_bytes_vec();
    let mut i: usize = 0;
    while i < bytes.len()
        invariant
            i <= bytes@.len(),
            bytes@ == text.spec_bytes(),
            forall|j: int| 0 <= j < i ==> !is_control_byte(bytes@[j]),
        decreases bytes.len() - i,
    {
        if bytes[i] < 0x20 || bytes[i] == 0x7F {
            proof {
                assert(is_control_byte(text.spec_bytes()[i as int]));
            }
            return None;
        }
        i = i + 1;
    }
    Some(bytes)
}

/// The bytes that run a startup command: the command followed by a carriage
/// return.
pub fn startup_input(command: &str) -> (r: Vec<u8>)
    ensures
        r@ == command.spec_bytes().push(13u8),
{
    let mut bytes = command.as_bytes_vec();
    bytes.push(13u8);
    bytes
}

// ==================== Reconnection ====================

/// What to do after a failed connection attempt.
#[derive(Debug, Clone, Copy, PartialEq, Eq, Structural)]
pub enum ReconnectStep {
    /// Stop: the attempts are used up
    GiveUp,
    /// Wait this many milliseconds, then try again
    RetryAfter(u64),
}

/// Longest wait between connection attempts, in milliseconds.
pub const MAX_RECONNECT_DELAY_MS: u64 = 5000;

/// Exponential backoff between connection attempts.
#[derive(Debug, Clone, Copy, PartialEq, Eq, Structural)]
pub struct ReconnectBackoff {
    /// Failed attempts so far
    pub attempts: u32,
    /// Wait before the next attempt, in milliseconds
    pub delay_ms: u64,
    /// Attempts allowed
    pub max_attempts: u32,
}

impl ReconnectBackoff {
    /// No attempt failed yet; the first wait is `initial_delay_ms`.
    pub fn new(initial_delay_ms: u64, max_attempts: u32) -> (b: Self)
        ensures
            b == (ReconnectBackoff { attempts: 0, delay_ms: initial_delay_ms, max_attempts }),
    {
        ReconnectBackoff { attempts: 0, delay_ms: initial_delay_ms, max_attempts }
    }

    /// Records a failed attempt: give up once the attempts are used up, else
    /// wait the current delay, which then doubles up to five seconds.
    pub fn on_failure(&mut self) -> (step: ReconnectStep)
        requires
            old(self).attempts < u32::MAX,
            old(self).delay_ms * 2 <= u64::MAX,
        ensures
            final(self).attempts == old(self).attempts + 1,
            final(self).max_attempts == old(self).max_attempts,
            final(self).attempts >= final(self).max_attempts ==> step == ReconnectStep::GiveUp
                && final(self).delay_ms == old(self).delay_ms,
            final(self).attempts < final(self).max_attempts ==> step == ReconnectStep::RetryAfter(
                old(self).delay_ms,
            ) && final(self).delay_ms == (if old(self).delay_ms * 2 < MAX_RECONNECT_DELAY_MS {
                old(self).delay_ms * 2
            } else {
                MAX_RECONNECT_DELAY_MS as int
            }),
    {
        self.attempts = self.attempts + 1;
        if self.attempts >= self.max_attempts {
            return ReconnectStep::GiveUp;
        }
        let wait = self.delay_ms;
        let doubled = self.delay_ms * 2;
        self.delay_ms = if doubled < MAX_RECONNECT_DELAY_MS { doubled } else { MAX_RECONNECT_DELAY_MS };
        ReconnectStep::RetryAfter(wait)
    }
}

/// Whether a message length read from the daemon can be a message: not
/// empty and within the largest message size.
pub fn valid_frame_len(len: usize, max_message_size: usize) -> (r: bool)
    ensures
        r == (len != 0 && len <= max_message_size),
{
    len != 0 && len <= max_message_size
}

} // verus!
