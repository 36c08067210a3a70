//! Keyboard decoding and the decisions of the interrupt handlers.
//!
//! The handlers themselves run in the kernel: they read the scancode port,
//! call the registered callbacks and signal end of interrupt to the chained
//! interrupt controllers. What each handler does, and in which order, is
//! decided here.
use vstd::prelude::*;
use pc_keyboard::layouts::Us104Key;
use pc_keyboard::{
    DecodedKey as LayoutKey, Error, HandleControl, KeyCode, KeyEvent, KeyState, Keyboard,
    ScancodeSet1,
};

verus! {

/// First vector of the primary interrupt controller, just past the CPU
/// exception vectors.
pub const PIC_1_OFFSET: u8 = 32;

/// First vector of the secondary interrupt controller.
pub const PIC_2_OFFSET: u8 = PIC_1_OFFSET + 8;

/// Vector of the timer line (line 0 of the primary controller).
pub const TIMER_INTERRUPT: u8 = PIC_1_OFFSET;

/// Vector of the keyboard line (line 1 of the primary controller).
pub const KEYBOARD_INTERRUPT: u8 = PIC_1_OFFSET + 1;

/// Vector the CPU raises on a double fault.
pub const DOUBLE_FAULT_VECTOR: u8 = 8;

/// Port from which the keyboard's scancode byte is read.
pub const KEYBOARD_DATA_PORT: u16 = 0x60;

/// The first scancode byte of set 1 that reports a key release.
pub const RELEASE_BIT: u8 = 0x80;

#[verifier::external_type_specification]
#[verifier::external_body]
pub struct ExKeyCode(KeyCode);

#[verifier::external_type_specification]
#[verifier::external_body]
pub struct ExError(Error);

/// A key that was pressed, as the layout reads it.
#[derive(Debug, Clone, Copy, PartialEq, Eq)]
pub enum DecodedKey {
    /// A key that stands for a character.
    Unicode(char),
    /// A key with no character (arrows, function keys, ...).
    RawKey(KeyCode),
}

/// A key transition reported by the scancode decoder.
struct ScanEvent {
    pub code: KeyCode,
    /// Pressed (true) or released (false).
    pub pressed: bool,
}

/// Turns the keyboard's scancode bytes into key presses. It keeps the state
/// between bytes: a pending extended prefix and the modifier keys held. Its
/// field is hidden from verification: Verus does not take the declaration of
/// pc_keyboard's `Keyboard`, whose parameters are bound by the crate's traits.
#[verifier::external_body]
pub struct KeyboardDecoder {
    keyboard: Keyboard<Us104Key, ScancodeSet1>,
}

/// Relies on pc_keyboard's `Keyboard::new`: a decoder for the US 104-key
/// layout and scancode set 1 that leaves Ctrl+letter as letters.
#[verifier::external_body]
fn new_keyboard() -> (r: KeyboardDecoder) {
    KeyboardDecoder { keyboard: Keyboard::new(Us104Key, ScancodeSet1, HandleControl::Ignore) }
}

/// Relies on pc_keyboard's `Keyboard::add_byte` with scancode set 1: a byte
/// of 0x80 or more that completes an event completes a release, any other a
/// press.
#[verifier::external_body]
fn keyboard_add_byte(kb: &mut KeyboardDecoder, byte: u8) -> (r: Result<Option<ScanEvent>, Error>)
    ensures
        r matches Ok(Some(ev)) ==> ev.pressed == (byte < RELEASE_BIT),
{
    match kb.keyboard.add_byte(byte) {
        Ok(Some(KeyEvent { code, state: KeyState::Down })) => Ok(Some(ScanEvent { code, pressed: true })),
        Ok(Some(KeyEvent { code, state: KeyState::Up })) => Ok(Some(ScanEvent { code, pressed: false })),
        Ok(None) => Ok(None),
        Err(e) => Err(e),
    }
}

/// Relies on pc_keyboard's `Keyboard::process_keyevent`: a release never
/// gives a key (it may only update the modifier state).
#[verifier::external_body]
fn keyboard_process_event(kb: &mut KeyboardDecoder, ev: ScanEvent) -> (r: Option<DecodedKey>)
    ensures
        !ev.pressed ==> r is None,
{
    let state = if ev.pressed { KeyState::Down } else { KeyState::Up };
    match kb.keyboard.process_keyevent(KeyEvent::new(ev.code, state)) {
        Some(LayoutKey::Unicode(c)) => Some(DecodedKey::Unicode(c)),
        Some(LayoutKey::RawKey(k)) => Some(DecodedKey::RawKey(k)),
        None => None,
    }
}

impl KeyboardDecoder {
    /// A decoder that has seen no byte.
    pub fn new() -> (r: KeyboardDecoder) {
        new_keyboard()
    }

    /// Feeds one scancode byte. A byte that completes a key press gives the
    /// key; a byte of an unfinished sequence, a release, a modifier key or an
    /// unknown code gives nothing.
    pub fn feed(&mut self, byte: u8) -> (r: Option<DecodedKey>)
        ensures
            byte >= RELEASE_BIT ==> r is None,
    {
        match keyboard_add_byte(self, byte) {
            Ok(Some(ev)) => keyboard_process_event(self, ev),
            Ok(None) => None,
            Err(_) => None,
        }
    }
}

/// What a slot of the interrupt descriptor table holds.
#[derive(Debug, Clone, Copy, PartialEq, Eq, Structural)]
pub enum VectorEntry {
    /// Not set: the CPU's default fault.
    Unset,
    /// The fatal double-fault path.
    DoubleFault,
    /// The timer line's handler.
    Timer,
    /// The keyboard line's handler.
    Keyboard,
}

/// The entry that the table holds at `vector`: the double-fault path at the
/// CPU's double-fault vector, the timer and the keyboard handlers at the
/// first two vectors of the primary controller, nothing elsewhere.
pub fn vector_entry(vector: u8) -> (r: VectorEntry)
    ensures
        r == (if vector == DOUBLE_FAULT_VECTOR {
            VectorEntry::DoubleFault
        } else if vector == TIMER_INTERRUPT {
            VectorEntry::Timer
        } else if vector == KEYBOARD_INTERRUPT {
            VectorEntry::Keyboard
        } else {
            VectorEntry::Unset
        }),
{
    if vector == DOUBLE_FAULT_VECTOR {
        VectorEntry::DoubleFault
    } else if vector == TIMER_INTERRUPT {
        VectorEntry::Timer
    } else if vector == KEYBOARD_INTERRUPT {
        VectorEntry::Keyboard
    } else {
        VectorEntry::Unset
    }
}

/// One thing an interrupt handler does.
#[derive(Debug, Clone, Copy, PartialEq, Eq)]
pub enum HandlerStep {
    /// Call the registered timer callback.
    CallTimerHandler,
    /// Call the registered keyboard callback with a key.
    CallKeyboardHandler(DecodedKey),
    /// Signal end of interrupt for a vector to the interrupt controllers.
    EndOfInterrupt(u8),
}

/// What the keyboard handler does once the decoder has answered `key`: the
/// keyboard callback when a key came, then, always, the end of interrupt
/// for the keyboard line.
pub open spec fn keyboard_steps(key: Option<DecodedKey>) -> Seq<HandlerStep> {
    match key {
        Some(k) => seq![HandlerStep::CallKeyboardHandler(k), HandlerStep::EndOfInterrupt(KEYBOARD_INTERRUPT)],
        None => seq![HandlerStep::EndOfInterrupt(KEYBOARD_INTERRUPT)],
    }
}

/// The steps of the timer handler: the timer callback, then the end of
/// interrupt for the timer line.
pub fn timer_interrupt_steps() -> (r: Vec<HandlerStep>)
    ensures
        r@ == seq![HandlerStep::CallTimerHandler, HandlerStep::EndOfInterrupt(TIMER_INTERRUPT)],
{
    let mut r: Vec<HandlerStep> = Vec::new();
    r.push(HandlerStep::CallTimerHandler);
    r.push(HandlerStep::EndOfInterrupt(TIMER_INTERRUPT));
    r
}

/// The steps of the keyboard handler once the decoder has answered `key`.
pub fn keyboard_interrupt_steps(key: Option<DecodedKey>) -> (r: Vec<HandlerStep>)
    ensures
        r@ == keyboard_steps(key),
{
    let mut r: Vec<HandlerStep> = Vec::new();
    match key {
        Some(k) => r.push(HandlerStep::CallKeyboardHandler(k)),
        None => {},
    }
    r.push(HandlerStep::EndOfInterrupt(KEYBOARD_INTERRUPT));
    r
}

/// The keyboard handler's decisions for the scancode byte it read: the byte
/// goes to the decoder, and the steps follow from its answer. The end of
/// interrupt comes exactly once, last, whatever the decoder answered; a
/// release byte calls no callback.
pub fn handle_keyboard_scancode(decoder: &mut KeyboardDecoder, scancode: u8) -> (r: Vec<HandlerStep>)
    ensures
        exists|key: Option<DecodedKey>| r@ == keyboard_steps(key),
        scancode >= RELEASE_BIT ==> r@ == keyboard_steps(None),
{
    let key = decoder.feed(scancode);
    keyboard_interrupt_steps(key)
}

} // verus!
