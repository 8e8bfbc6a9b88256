use termina::input::{ALT, CONTROL, SHIFT};
use termina::vt::VtDecoder;
use termina::{
    Event, InputReaderMode, InputRecord, KeyCode, KeyEvent, KeyEventKind, KeyEventState,
    KeyRecord, Modifiers, MouseButton, MouseEvent, MouseEventKind, Parser,
};

fn key(code: KeyCode, mods: u8) -> Event {
    Event::Key(KeyEvent {
        code,
        kind: KeyEventKind::Press,
        modifiers: Modifiers { bits: mods },
        state: KeyEventState { bits: 0 },
    })
}

fn mouse(kind: MouseEventKind, column: u16, row: u16, mods: u8) -> Event {
    Event::Mouse(MouseEvent { kind, column, row, modifiers: Modifiers { bits: mods } })
}

fn decode_all(bytes: &[u8]) -> Vec<Event> {
    VtDecoder::new().decode(bytes)
}

#[test]
fn printable_and_control_bytes() {
    assert_eq!(
        decode_all(b"a\r\t\x7f\x01 \x00"),
        vec![
            key(KeyCode::Char('a'), 0),
            key(KeyCode::Enter, 0),
            key(KeyCode::Tab, 0),
            key(KeyCode::Backspace, 0),
            key(KeyCode::Char('a'), CONTROL),
            key(KeyCode::Char(' '), 0),
            key(KeyCode::Char(' '), CONTROL),
        ]
    );
}

#[test]
fn cursor_and_function_keys() {
    assert_eq!(decode_all(b"\x1b[A"), vec![key(KeyCode::Up, 0)]);
    assert_eq!(decode_all(b"\x1b[1;5C"), vec![key(KeyCode::Right, CONTROL)]);
    assert_eq!(decode_all(b"\x1b[1;2D"), vec![key(KeyCode::Left, SHIFT)]);
    assert_eq!(decode_all(b"\x1bOP"), vec![key(KeyCode::Function(1), 0)]);
    assert_eq!(decode_all(b"\x1bOH"), vec![key(KeyCode::Home, 0)]);
    assert_eq!(decode_all(b"\x1b[3~"), vec![key(KeyCode::Delete, 0)]);
    assert_eq!(decode_all(b"\x1b[15~"), vec![key(KeyCode::Function(5), 0)]);
    assert_eq!(decode_all(b"\x1b[24;3~"), vec![key(KeyCode::Function(12), ALT)]);
    assert_eq!(decode_all(b"\x1b[Z"), vec![key(KeyCode::BackTab, SHIFT)]);
    assert_eq!(decode_all(b"\x1b[5~\x1b[6~"), vec![key(KeyCode::PageUp, 0), key(KeyCode::PageDown, 0)]);
}

#[test]
fn cursor_position_report() {
    assert_eq!(decode_all(b"\x1b[12;40R"), vec![Event::CursorPosition { column: 39, row: 11 }]);
    // Without two one-based numbers the sequence is the key F3.
    assert_eq!(decode_all(b"\x1b[0;40R"), vec![key(KeyCode::Function(3), SHIFT | ALT | CONTROL)]);
    assert_eq!(decode_all(b"\x1b[R"), vec![key(KeyCode::Function(3), 0)]);
}

#[test]
fn bracketed_paste() {
    assert_eq!(
        decode_all(b"\x1b[200~hi \x1b[A there\x1b[201~x"),
        vec![Event::Paste("hi \x1b[A there".to_string()), key(KeyCode::Char('x'), 0)]
    );
    assert_eq!(decode_all(b"\x1b[200~\x1b[201~"), vec![Event::Paste(String::new())]);
    assert_eq!(
        decode_all(b"\x1b[200~a\xffb\x1b[201~"),
        vec![Event::Paste("a\u{FFFD}b".to_string())]
    );
    let mut decoder = VtDecoder::new();
    assert_eq!(decoder.decode(b"\x1b[200~caf"), vec![]);
    assert_eq!(decoder.decode("é\x1b[20".as_bytes()), vec![]);
    assert_eq!(decoder.decode(b"1~"), vec![Event::Paste("café".to_string())]);
    assert_eq!(decoder.pending(), &Vec::<u8>::new());
}

#[test]
fn focus_sequences() {
    assert_eq!(decode_all(b"\x1b[I\x1b[O"), vec![Event::FocusIn, Event::FocusOut]);
}

#[test]
fn sgr_mouse_reports() {
    assert_eq!(
        decode_all(b"\x1b[<0;10;5M\x1b[<0;10;5m"),
        vec![
            mouse(MouseEventKind::Down(MouseButton::Left), 9, 4, 0),
            mouse(MouseEventKind::Up(MouseButton::Left), 9, 4, 0),
        ]
    );
    assert_eq!(decode_all(b"\x1b[<64;1;1M"), vec![mouse(MouseEventKind::ScrollUp, 0, 0, 0)]);
    assert_eq!(decode_all(b"\x1b[<65;1;1M"), vec![mouse(MouseEventKind::ScrollDown, 0, 0, 0)]);
    assert_eq!(decode_all(b"\x1b[<35;3;4M"), vec![mouse(MouseEventKind::Moved, 2, 3, 0)]);
    assert_eq!(
        decode_all(b"\x1b[<34;3;4M"),
        vec![mouse(MouseEventKind::Drag(MouseButton::Right), 2, 3, 0)]
    );
    assert_eq!(
        decode_all(b"\x1b[<21;2;2M"),
        vec![mouse(MouseEventKind::Down(MouseButton::Middle), 1, 1, SHIFT | CONTROL)]
    );
    // A zero coordinate is not one-based: no event.
    assert_eq!(decode_all(b"\x1b[<0;0;5M"), vec![]);
}

#[test]
fn alt_and_escape() {
    assert_eq!(decode_all(b"\x1ba"), vec![key(KeyCode::Char('a'), ALT)]);
    assert_eq!(decode_all(b"\x1b\x1b[A"), vec![key(KeyCode::Escape, 0), key(KeyCode::Up, 0)]);
    let mut decoder = VtDecoder::new();
    assert_eq!(decoder.decode(b"\x1b"), vec![]);
    assert_eq!(decoder.pending(), &vec![0x1b]);
    assert_eq!(decoder.flush_escape(), Some(key(KeyCode::Escape, 0)));
    assert_eq!(decoder.pending(), &Vec::<u8>::new());
    assert_eq!(decoder.flush_escape(), None);
    assert_eq!(decoder.decode(b"\x1b["), vec![]);
    assert_eq!(decoder.flush_escape(), None);
    assert_eq!(decoder.decode(b"B"), vec![key(KeyCode::Down, 0)]);
}

#[test]
fn utf8_characters() {
    assert_eq!(
        decode_all("é😀".as_bytes()),
        vec![key(KeyCode::Char('é'), 0), key(KeyCode::Char('😀'), 0)]
    );
    // Invalid bytes are skipped.
    assert_eq!(decode_all(&[0xFF, b'x', 0xC3, b'y']), vec![key(KeyCode::Char('x'), 0), key(KeyCode::Char('y'), 0)]);
    // An encoded surrogate is no character.
    assert_eq!(decode_all(&[0xED, 0xA0, 0x80]), vec![]);
    // Unknown sequences are skipped.
    assert_eq!(decode_all(b"\x1b[99x!"), vec![key(KeyCode::Char('!'), 0)]);
}

#[test]
fn chunked_input_decodes_as_whole() {
    let input: Vec<u8> = [
        b"\x1b[1;5C".as_slice(),
        "é😀".as_bytes(),
        b"a\x1b[<0;10;5M\x1bOQ\x1b[200~p\x1b[201~\x1b[15~\x1bz\x1b",
    ]
    .concat();
    let mut whole = VtDecoder::new();
    let expected = whole.decode(&input);
    assert_eq!(expected.len(), 9);
    assert_eq!(whole.pending(), &vec![0x1b]);
    for i in 0..=input.len() {
        for j in i..=input.len() {
            let mut d = VtDecoder::new();
            let mut got = d.decode(&input[..i]);
            got.extend(d.decode(&input[i..j]));
            got.extend(d.decode(&input[j..]));
            assert_eq!(got, expected, "split at {} and {}", i, j);
            assert_eq!(d.pending(), whole.pending());
        }
    }
}

#[test]
fn parser_runs_collected_bytes_through_decoder() {
    let byte = |b: u8| {
        InputRecord::Key(KeyRecord {
            key_down: 1,
            virtual_key_code: 0,
            unicode_char: 0,
            ascii_char: b,
            control_key_state: 0,
            layout_text: Vec::new(),
        })
    };
    let mut parser = Parser::new(InputReaderMode::Vte);
    let mut decoder = VtDecoder::new();
    parser.decode_input_records(&vec![byte(0x1b), byte(b'[')]);
    parser.process_bytes(&mut decoder);
    assert_eq!(parser.event_count(), 0);
    assert_eq!(decoder.pending(), &vec![0x1b, b'[']);
    parser.decode_input_records(&vec![byte(b'A'), byte(b'q')]);
    parser.process_bytes(&mut decoder);
    assert_eq!(parser.pop_event(), Some(key(KeyCode::Up, 0)));
    assert_eq!(parser.pop_event(), Some(key(KeyCode::Char('q'), 0)));
    assert_eq!(parser.pop_event(), None);
    assert_eq!(decoder.pending(), &Vec::<u8>::new());
}
