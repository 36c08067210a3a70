use kernel_console::interrupts::{
    handle_keyboard_scancode, keyboard_interrupt_steps, timer_interrupt_steps, vector_entry,
    DecodedKey, HandlerStep, KeyboardDecoder, VectorEntry, KEYBOARD_INTERRUPT, TIMER_INTERRUPT,
};
use pc_keyboard::KeyCode;

#[test]
fn press_then_release_gives_one_key() {
    let mut decoder = KeyboardDecoder::new();
    assert_eq!(decoder.feed(0x1E), Some(DecodedKey::Unicode('a')));
    assert_eq!(decoder.feed(0x9E), None);
}

#[test]
fn shifted_press_gives_capital() {
    let mut decoder = KeyboardDecoder::new();
    assert_eq!(decoder.feed(0x2A), None);
    assert_eq!(decoder.feed(0x1E), Some(DecodedKey::Unicode('A')));
    assert_eq!(decoder.feed(0x9E), None);
    assert_eq!(decoder.feed(0xAA), None);
    assert_eq!(decoder.feed(0x1E), Some(DecodedKey::Unicode('a')));
}

#[test]
fn release_alone_gives_nothing() {
    let mut decoder = KeyboardDecoder::new();
    assert_eq!(decoder.feed(0x9E), None);
}

#[test]
fn extended_sequence_gives_raw_key() {
    let mut decoder = KeyboardDecoder::new();
    assert_eq!(decoder.feed(0xE0), None);
    assert_eq!(decoder.feed(0x48), Some(DecodedKey::RawKey(KeyCode::ArrowUp)));
    assert_eq!(decoder.feed(0xE0), None);
    assert_eq!(decoder.feed(0xC8), None);
}

#[test]
fn unknown_code_is_dropped() {
    let mut decoder = KeyboardDecoder::new();
    assert_eq!(decoder.feed(0x7F), None);
    assert_eq!(decoder.feed(0x1E), Some(DecodedKey::Unicode('a')));
}

#[test]
fn vector_table_layout() {
    assert_eq!(vector_entry(8), VectorEntry::DoubleFault);
    assert_eq!(vector_entry(32), VectorEntry::Timer);
    assert_eq!(vector_entry(33), VectorEntry::Keyboard);
    assert_eq!(vector_entry(0), VectorEntry::Unset);
    assert_eq!(vector_entry(34), VectorEntry::Unset);
    assert_eq!(vector_entry(255), VectorEntry::Unset);
}

#[test]
fn timer_acknowledges_after_callback() {
    assert_eq!(
        timer_interrupt_steps(),
        vec![HandlerStep::CallTimerHandler, HandlerStep::EndOfInterrupt(TIMER_INTERRUPT)]
    );
    assert_eq!(TIMER_INTERRUPT, 32);
}

#[test]
fn keyboard_acknowledges_with_and_without_key() {
    assert_eq!(
        keyboard_interrupt_steps(Some(DecodedKey::Unicode('q'))),
        vec![
            HandlerStep::CallKeyboardHandler(DecodedKey::Unicode('q')),
            HandlerStep::EndOfInterrupt(KEYBOARD_INTERRUPT)
        ]
    );
    assert_eq!(keyboard_interrupt_steps(None), vec![HandlerStep::EndOfInterrupt(33)]);
}

#[test]
fn keyboard_handler_end_to_end() {
    let mut decoder = KeyboardDecoder::new();
    assert_eq!(
        handle_keyboard_scancode(&mut decoder, 0x1E),
        vec![
            HandlerStep::CallKeyboardHandler(DecodedKey::Unicode('a')),
            HandlerStep::EndOfInterrupt(33)
        ]
    );
    assert_eq!(handle_keyboard_scancode(&mut decoder, 0x9E), vec![HandlerStep::EndOfInterrupt(33)]);
    assert_eq!(handle_keyboard_scancode(&mut decoder, 0xE0), vec![HandlerStep::EndOfInterrupt(33)]);
}
