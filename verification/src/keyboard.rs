//! The stateful keyboard scancode decoder.
//!
//! Scancode decoding itself — the "set 1" multi-byte sequences and the
//! 104-key US layout — is done by the `pc_keyboard` crate.  Its decoder is a
//! small state machine whose every outcome is a pure function of its two
//! histories — the bytes fed and the key events processed — which is what
//! the trusted contracts below record.  The decoder is a process-wide
//! singleton: constructed once at startup, fed one byte per keyboard
//! interrupt, never reset.

use vstd::prelude::*;

use pc_keyboard::layouts::Us104Key;
use pc_keyboard::{DecodedKey, HandleControl, KeyEvent, Keyboard, ScancodeSet1};

verus! {

/// Holds the `pc_keyboard::Keyboard` decoder for scancode set 1 and the US
/// 104-key layout.  That type is generic over traits of its own crate, which
/// the verifier cannot take as bounds, so the value is wrapped whole, opaque
/// to the verifier and described only by [`kb_bytes`] and [`kb_events`].
#[verifier::external_body]
pub struct KeyboardState {
    kb: Keyboard<Us104Key, ScancodeSet1>,
}

/// Declares `pc_keyboard::KeyEvent`, the completed key transition that
/// `add_byte` hands to `process_keyevent`; carried through opaquely.
#[verifier::external_type_specification]
#[verifier::external_body]
pub struct ExKeyEvent(KeyEvent);

/// Declares `pc_keyboard::Error`, the error a byte that scancode set 1 does
/// not define comes back as; the decoder treats it as "no event".
#[verifier::external_type_specification]
#[verifier::external_body]
pub struct ExPcKeyboardError(pc_keyboard::Error);

/// The raw bytes a decoder has been fed through `add_byte`, oldest first.
/// The scancode state machine's position is a pure function of this history.
pub uninterp spec fn kb_bytes(kb: KeyboardState) -> Seq<u8>;

/// The key events a decoder has processed through `process_keyevent`, oldest
/// first.  The modifier state (shift, control, the locks) is a pure function
/// of this history.
pub uninterp spec fn kb_events(kb: KeyboardState) -> Seq<KeyEvent>;

/// What feeding the last byte of `bytes` returns, the rest of `bytes` having
/// been fed before it: nothing yet (a prefix byte of a multi-byte sequence),
/// a completed key event, or an error for a code the set does not define.
/// The scancode state machine holds no other state, so the outcome is a
/// function of the byte history alone, the same in every process and on
/// every machine.
pub uninterp spec fn spec_add_byte(bytes: Seq<u8>) -> Result<
    Option<KeyEvent>,
    pc_keyboard::Error,
>;

/// What processing `ev` yields after the events of `events` have been
/// processed: nothing for a modifier transition or a key release, the
/// layout's mapping for any other press.  The mapping reads only the event,
/// the modifier state — itself a pure function of the events processed so
/// far — and the control-key handling fixed at construction, so the outcome
/// is a function of these arguments alone, the same in every process and on
/// every machine; a raw key is carried as the stable name of its key code.
pub uninterp spec fn spec_process_keyevent(events: Seq<KeyEvent>, ev: KeyEvent) -> Option<Key>;

/// Relies on `pc_keyboard::Keyboard::new`: a fresh decoder that has consumed
/// nothing, set to scancode set 1, the US 104-key layout, and no special
/// handling of the control keys.
#[verifier::external_body]
fn kb_new() -> (kb: KeyboardState)
    ensures
        kb_bytes(kb) == Seq::<u8>::empty(),
        kb_events(kb) == Seq::<KeyEvent>::empty(),
{
    KeyboardState { kb: Keyboard::new(Us104Key, ScancodeSet1, HandleControl::Ignore) }
}

/// Relies on `pc_keyboard::Keyboard::add_byte`: advances the scancode state
/// machine by one byte; the outcome is a function of the bytes fed so far
/// alone, and with scancode set 1 the machine never reaches a state on which
/// the call panics.
#[verifier::external_body]
fn kb_add_byte(kb: &mut KeyboardState, byte: u8) -> (r: Result<
    Option<KeyEvent>,
    pc_keyboard::Error,
>)
    ensures
        kb_bytes(*final(kb)) == kb_bytes(*old(kb)).push(byte),
        kb_events(*final(kb)) == kb_events(*old(kb)),
        r == spec_add_byte(kb_bytes(*old(kb)).push(byte)),
{
    kb.kb.add_byte(byte)
}

/// Relies on `pc_keyboard::Keyboard::process_keyevent`: maps a key event
/// through the active layout and the modifier state it tracks; a pure
/// modifier press and any key release yield nothing, any other press yields
/// the layout's mapping.  The call reads and writes only the modifier state,
/// which is a pure function of the events processed so far, and the
/// control-key handling fixed at construction, so its result is a function
/// of the event history and the event alone.  It feeds no scancode byte, so
/// the byte history is unchanged.  A raw (non-printable) key is carried as
/// the stable name of its key code.
#[verifier::external_body]
fn kb_process_keyevent(kb: &mut KeyboardState, ev: KeyEvent) -> (r: Option<
    Key,
>)
    ensures
        kb_bytes(*final(kb)) == kb_bytes(*old(kb)),
        kb_events(*final(kb)) == kb_events(*old(kb)).push(ev),
        r == spec_process_keyevent(kb_events(*old(kb)), ev),
{
    match kb.kb.process_keyevent(ev) {
        Some(DecodedKey::Unicode(character)) => Some(Key::Unicode(character)),
        Some(DecodedKey::RawKey(key)) => Some(Key::RawKey(format!("{:?}", key))),
        None => None,
    }
}

/// A decoded key as the handlers consume it: a Unicode scalar to print, or
/// the name of a key that has no printable mapping.
#[derive(Debug, PartialEq, Eq)]
pub enum Key {
    Unicode(char),
    RawKey(String),
}

/// What `add_byte` hands its caller for a given byte history: the completed
/// key event if the last byte completed one; nothing for a prefix byte or a
/// byte the set does not define (an undefined code only resets the machine,
/// it is not an error the interrupt handler could act on).
pub open spec fn spec_event_of(bytes: Seq<u8>) -> Option<KeyEvent> {
    match spec_add_byte(bytes) {
        Ok(ev) => ev,
        Err(_) => None,
    }
}

/// The stateful scancode decoder: consumes the raw keyboard byte stream one
/// byte at a time and produces decoded key events.
pub struct ScancodeDecoder {
    keyboard: KeyboardState,
}

impl ScancodeDecoder {
    /// The raw bytes fed so far, oldest first.
    pub closed spec fn bytes(self) -> Seq<u8> {
        kb_bytes(self.keyboard)
    }

    /// The key events processed so far, oldest first.
    pub closed spec fn events(self) -> Seq<KeyEvent> {
        kb_events(self.keyboard)
    }

    /// A fresh decoder that has consumed nothing.
    pub fn new() -> (r: ScancodeDecoder)
        ensures
            r.bytes() == Seq::<u8>::empty(),
            r.events() == Seq::<KeyEvent>::empty(),
    {
        ScancodeDecoder { keyboard: kb_new() }
    }

    /// Consumes one raw byte.  A prefix byte of a multi-byte sequence yields
    /// nothing; a completing byte yields the key event; a code the set does
    /// not define yields nothing and resets the sequence.  The outcome is a
    /// function of the byte history alone.
    pub fn add_byte(&mut self, byte: u8) -> (r: Option<KeyEvent>)
        ensures
            final(self).bytes() == old(self).bytes().push(byte),
            final(self).events() == old(self).events(),
            r == spec_event_of(old(self).bytes().push(byte)),
    {
        match kb_add_byte(&mut self.keyboard, byte) {
            Ok(ev) => ev,
            Err(_) => None,
        }
    }

    /// Maps a key event through the active layout: a Unicode scalar for a
    /// printable press, a raw key name for a non-printable one, nothing for
    /// a pure modifier press or a release.  The outcome is a function of the
    /// event history and the event alone.
    pub fn process_keyevent(&mut self, ev: KeyEvent) -> (r: Option<Key>)
        ensures
            final(self).bytes() == old(self).bytes(),
            final(self).events() == old(self).events().push(ev),
            r == spec_process_keyevent(old(self).events(), ev),
    {
        kb_process_keyevent(&mut self.keyboard, ev)
    }
}

} // verus!
