use termina::console::{
    get_char_for_key, handle_control_key_state, handle_focus, handle_key_event, handle_resize,
    handle_surrogate, parse_key_event_record, parse_mouse_event_record, parse_relative_y,
    WindowsKeyEvent,
};
use termina::input::{ALT, CONTROL, SHIFT};
use termina::{
    ButtonState, Event, InputReaderMode, InputRecord, KeyCode, KeyEvent, KeyEventKind,
    KeyEventState, KeyRecord, Modifiers, MouseButton, MouseButtonsPressed, MouseEvent,
    MouseEventKind, MouseRecord, Parser, WindowSize,
};

fn key(key_down: i32, vk: u16, unicode_char: u16, state: u32) -> KeyRecord {
    KeyRecord {
        key_down,
        virtual_key_code: vk,
        unicode_char,
        ascii_char: 0,
        control_key_state: state,
        layout_text: Vec::new(),
    }
}

fn mouse(button_state: u32, event_flags: u32) -> MouseRecord {
    MouseRecord { x: 4, y: 12, button_state, control_key_state: 0, event_flags, window_top: 10 }
}

fn drain(parser: &mut Parser) -> Vec<Event> {
    let mut out = Vec::new();
    while let Some(e) = parser.pop_event() {
        out.push(e);
    }
    out
}

fn mouse_kinds(events: &[Event]) -> Vec<MouseEventKind> {
    events
        .iter()
        .map(|e| match e {
            Event::Mouse(m) => m.kind,
            other => panic!("not a mouse event: {:?}", other),
        })
        .collect()
}

fn press(code: KeyCode, modifiers: u8) -> Event {
    Event::Key(KeyEvent {
        code,
        kind: KeyEventKind::Press,
        modifiers: Modifiers { bits: modifiers },
        state: KeyEventState { bits: 0 },
    })
}

#[test]
fn mouse_button_diffing_left_then_right() {
    let mut parser = Parser::new(InputReaderMode::Legacy);
    let records = vec![
        InputRecord::Mouse(mouse(0x01, 0)),
        InputRecord::Mouse(mouse(0x00, 0)),
        InputRecord::Mouse(mouse(0x02, 0)),
    ];
    parser.decode_input_records(&records);
    let events = drain(&mut parser);
    assert_eq!(
        mouse_kinds(&events),
        vec![
            MouseEventKind::Down(MouseButton::Left),
            MouseEventKind::Up(MouseButton::Left),
            MouseEventKind::Down(MouseButton::Right),
        ]
    );
}

#[test]
fn mouse_event_row_is_relative_to_window() {
    let pressed = MouseButtonsPressed { left: false, right: false, middle: false };
    let event = parse_mouse_event_record(&mouse(0x01, 0), &pressed);
    assert_eq!(
        event,
        Some(MouseEvent {
            kind: MouseEventKind::Down(MouseButton::Left),
            column: 4,
            row: 2,
            modifiers: Modifiers { bits: 0 },
        })
    );
    assert_eq!(parse_relative_y(10, 3), 7);
    assert_eq!(parse_relative_y(0, 1), -1);
}

#[test]
fn mouse_move_drag_and_wheel() {
    let none = MouseButtonsPressed { left: false, right: false, middle: false };
    let kind = |state: u32, flags: u32| parse_mouse_event_record(&mouse(state, flags), &none).map(|m| m.kind);
    assert_eq!(kind(0, 0x01), Some(MouseEventKind::Moved));
    assert_eq!(kind(0x01, 0x01), Some(MouseEventKind::Drag(MouseButton::Left)));
    assert_eq!(kind(0x05, 0x01), Some(MouseEventKind::Drag(MouseButton::Middle)));
    assert_eq!(kind(0x07, 0x01), Some(MouseEventKind::Drag(MouseButton::Right)));
    assert_eq!(kind(0xFF88_0000, 0x04), Some(MouseEventKind::ScrollDown));
    assert_eq!(kind(0x0078_0000, 0x04), Some(MouseEventKind::ScrollUp));
    assert_eq!(kind(0, 0x04), None);
    assert_eq!(kind(0xFF88_0000, 0x08), Some(MouseEventKind::ScrollLeft));
    assert_eq!(kind(0x0078_0000, 0x08), Some(MouseEventKind::ScrollRight));
    assert_eq!(kind(0x01, 0x40), None);
    let held = MouseButtonsPressed { left: false, right: false, middle: true };
    assert_eq!(
        parse_mouse_event_record(&mouse(0, 0x02), &held).map(|m| m.kind),
        Some(MouseEventKind::Up(MouseButton::Middle))
    );
}

#[test]
fn button_state_bits() {
    let b = ButtonState::from(0x1Au32);
    assert!(b.right_button());
    assert!(!b.left_button());
    assert!(!b.middle_button());
    assert!(!b.release_button());
    assert!(ButtonState::from(0u32).release_button());
    let down = ButtonState::from(0xFF88_0000u32);
    assert!(down.scroll_down() && down.scroll_left());
    assert!(!down.scroll_up() && !down.scroll_right());
}

#[test]
fn surrogate_pair_gives_one_character() {
    let mut parser = Parser::new(InputReaderMode::Legacy);
    let records = vec![
        InputRecord::Key(key(1, 0, 0xD83D, 0)),
        InputRecord::Key(key(1, 0, 0xDE00, 0)),
    ];
    parser.decode_input_records(&records);
    assert_eq!(drain(&mut parser), vec![press(KeyCode::Char('\u{1F600}'), 0)]);
}

#[test]
fn stale_surrogate_is_dropped_by_other_key() {
    let mut parser = Parser::new(InputReaderMode::Legacy);
    let records = vec![
        InputRecord::Key(key(1, 0, 0xD83D, 0)),
        InputRecord::Key(key(1, 0x41, 'a' as u16, 0)),
        InputRecord::Key(key(1, 0, 0xDE00, 0)),
    ];
    parser.decode_input_records(&records);
    assert_eq!(drain(&mut parser), vec![press(KeyCode::Char('a'), 0)]);
}

#[test]
fn handle_surrogate_buffers_then_pairs() {
    let mut buffer = None;
    assert_eq!(handle_surrogate(&mut buffer, 0xD83D), None);
    assert_eq!(buffer, Some(0xD83D));
    assert_eq!(handle_surrogate(&mut buffer, 0xDE00), Some('\u{1F600}'));
    assert_eq!(buffer, None);
    assert_eq!(handle_surrogate(&mut buffer, 0xDE00), None);
    assert_eq!(handle_surrogate(&mut buffer, 0xD83D), None);
    assert_eq!(buffer, None);
}

#[test]
fn handle_key_event_keeps_buffer_on_no_event() {
    let mut buffer = Some(0xD83D);
    assert_eq!(handle_key_event(&key(1, 0x10, 0, SHIFT_STATE), &mut buffer), None);
    assert_eq!(buffer, Some(0xD83D));
    assert_eq!(handle_key_event(&key(1, 0x0D, 13, 0), &mut buffer), Some(press(KeyCode::Enter, 0)));
    assert_eq!(buffer, None);
}

const SHIFT_STATE: u32 = 0x10;

#[test]
fn resize_record_becomes_zero_based() {
    let mut parser = Parser::new(InputReaderMode::Vte);
    let records = vec![
        InputRecord::BufferSize { x: 1, y: 1 },
        InputRecord::BufferSize { x: 0, y: 5 },
        InputRecord::BufferSize { x: 80, y: 0 },
        InputRecord::BufferSize { x: 80, y: 24 },
    ];
    parser.decode_input_records(&records);
    let size = |rows, cols| {
        Event::WindowResized(WindowSize { rows, cols, pixel_width: None, pixel_height: None })
    };
    assert_eq!(drain(&mut parser), vec![size(0, 0), size(23, 79)]);
    assert_eq!(handle_resize(1, 1), Some(size(0, 0)));
    assert_eq!(handle_resize(0, 0), None);
}

#[test]
fn split_batches_decode_as_one() {
    let records = vec![
        InputRecord::Key(key(1, 0, 0xD83D, 0)),
        InputRecord::Mouse(mouse(0x01, 0)),
        InputRecord::Key(key(1, 0, 0xDE00, 0)),
        InputRecord::Focus(1),
        InputRecord::Mouse(mouse(0x00, 0)),
        InputRecord::Other,
        InputRecord::BufferSize { x: 10, y: 3 },
    ];
    let mut whole = Parser::new(InputReaderMode::Legacy);
    whole.decode_input_records(&records);
    let expected = drain(&mut whole);
    assert_eq!(expected.len(), 5);
    for split in 0..=records.len() {
        let mut parts = Parser::new(InputReaderMode::Legacy);
        parts.decode_input_records(&records[..split].to_vec());
        parts.decode_input_records(&records[split..].to_vec());
        assert_eq!(drain(&mut parts), expected);
    }
}

#[test]
fn vte_mode_collects_bytes_of_key_presses() {
    let mut parser = Parser::new(InputReaderMode::Vte);
    let mut a = key(1, 0, 0, 0);
    a.ascii_char = 0x1B;
    let mut b = key(1, 0, 0, 0);
    b.ascii_char = b'[';
    let mut up = key(0, 0, 0, 0);
    up.ascii_char = b'x';
    let zero = key(1, 0, 0, 0);
    let records = vec![
        InputRecord::Key(a),
        InputRecord::Key(up),
        InputRecord::Key(zero),
        InputRecord::Key(b),
        InputRecord::Mouse(mouse(0x01, 0)),
        InputRecord::Focus(0),
    ];
    parser.decode_input_records(&records);
    assert_eq!(parser.take_bytes(), vec![0x1B, b'[']);
    assert_eq!(parser.take_bytes(), Vec::<u8>::new());
    assert_eq!(drain(&mut parser), vec![Event::FocusOut]);
    assert_eq!(parser.mode(), InputReaderMode::Vte);
}

#[test]
fn focus_records() {
    assert_eq!(handle_focus(1), Event::FocusIn);
    assert_eq!(handle_focus(0), Event::FocusOut);
    assert_eq!(handle_focus(-1), Event::FocusOut);
}

#[test]
fn control_key_state_to_modifiers() {
    assert_eq!(handle_control_key_state(0), Modifiers { bits: 0 });
    assert_eq!(handle_control_key_state(0x10), Modifiers { bits: SHIFT });
    assert_eq!(handle_control_key_state(0x04), Modifiers { bits: CONTROL });
    assert_eq!(handle_control_key_state(0x08), Modifiers { bits: CONTROL });
    assert_eq!(handle_control_key_state(0x01), Modifiers { bits: ALT });
    assert_eq!(handle_control_key_state(0x1F), Modifiers { bits: SHIFT | CONTROL | ALT });
    assert_eq!(handle_control_key_state(0x80), Modifiers { bits: 0 });
}

#[test]
fn named_keys() {
    let parse = |vk: u16, state: u32| parse_key_event_record(&key(1, vk, 0, state));
    let k = |code: KeyCode, m: u8| Some(WindowsKeyEvent::KeyEvent(KeyEvent {
        code,
        kind: KeyEventKind::Press,
        modifiers: Modifiers { bits: m },
        state: KeyEventState { bits: 0 },
    }));
    assert_eq!(parse(0x70, 0), k(KeyCode::Function(1), 0));
    assert_eq!(parse(0x87, 0), k(KeyCode::Function(24), 0));
    assert_eq!(parse(0x09, 0), k(KeyCode::Tab, 0));
    assert_eq!(parse(0x09, 0x10), k(KeyCode::BackTab, SHIFT));
    assert_eq!(parse(0x08, 0), k(KeyCode::Backspace, 0));
    assert_eq!(parse(0x1B, 0), k(KeyCode::Escape, 0));
    assert_eq!(parse(0x25, 0x08), k(KeyCode::Left, CONTROL));
    assert_eq!(parse(0x22, 0), k(KeyCode::PageDown, 0));
    assert_eq!(parse(0x2E, 0), k(KeyCode::Delete, 0));
    assert_eq!(parse(0x10, 0x10), None);
    assert_eq!(parse(0x11, 0x08), None);
    assert_eq!(parse(0x12, 0x02), None);
}

#[test]
fn release_and_alt_codes() {
    let released = parse_key_event_record(&key(0, 0x41, 'a' as u16, 0));
    assert_eq!(
        released,
        Some(WindowsKeyEvent::KeyEvent(KeyEvent {
            code: KeyCode::Char('a'),
            kind: KeyEventKind::Release,
            modifiers: Modifiers { bits: 0 },
            state: KeyEventState { bits: 0 },
        }))
    );
    // Numpad digits typed with Alt alone make no event.
    assert_eq!(parse_key_event_record(&key(1, 0x61, '1' as u16, 0x02)), None);
    // Control alone does not change that; Control with Shift does.
    assert_eq!(parse_key_event_record(&key(1, 0x61, '1' as u16, 0x0A)), None);
    assert!(parse_key_event_record(&key(1, 0x61, '1' as u16, 0x1A)).is_some());
    // The release of Alt carries the composed character.
    assert_eq!(
        parse_key_event_record(&key(0, 0x12, 0xE9, 0)),
        Some(WindowsKeyEvent::KeyEvent(KeyEvent {
            code: KeyCode::Char('\u{E9}'),
            kind: KeyEventKind::Release,
            modifiers: Modifiers { bits: 0 },
            state: KeyEventState { bits: 0 },
        }))
    );
    assert_eq!(parse_key_event_record(&key(0, 0x12, 0xD83D, 0)), Some(WindowsKeyEvent::Surrogate(0xD83D)));
}

#[test]
fn control_characters_use_keyboard_layout() {
    let mut ctrl_a = key(1, 0x41, 0x01, 0x08);
    ctrl_a.layout_text = vec!['a' as u16];
    assert_eq!(
        parse_key_event_record(&ctrl_a),
        Some(WindowsKeyEvent::KeyEvent(KeyEvent {
            code: KeyCode::Char('a'),
            kind: KeyEventKind::Press,
            modifiers: Modifiers { bits: CONTROL },
            state: KeyEventState { bits: 0 },
        }))
    );
    let mut shifted = key(1, 0x41, 0x01, 0x18);
    shifted.layout_text = vec!['a' as u16];
    assert_eq!(get_char_for_key(&shifted), Some('A'));
    let mut caps_and_shift = key(1, 0x41, 0x01, 0x90);
    caps_and_shift.layout_text = vec!['A' as u16];
    assert_eq!(get_char_for_key(&caps_and_shift), Some('a'));
    let mut caps = key(1, 0x41, 0x01, 0x80);
    caps.layout_text = vec!['a' as u16];
    assert_eq!(get_char_for_key(&caps), Some('A'));
    let mut dead = key(1, 0x41, 0x01, 0x08);
    dead.layout_text = Vec::new();
    assert_eq!(get_char_for_key(&dead), None);
    assert_eq!(parse_key_event_record(&dead), None);
    let mut two = key(1, 0x41, 0x01, 0x08);
    two.layout_text = vec!['a' as u16, 'b' as u16];
    assert_eq!(get_char_for_key(&two), None);
    let mut pair = key(1, 0x41, 0x01, 0x00);
    pair.layout_text = vec![0xD83D, 0xDE00];
    assert_eq!(get_char_for_key(&pair), Some('\u{1F600}'));
}
