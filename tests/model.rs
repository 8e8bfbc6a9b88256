use std::time::Duration;
use termina::chars::single_char_of_utf16;
use termina::timeout::{duration_of_nanos, is_elapsed, leftover_nanos};
use termina::input::{ALT, META, HYPER, SHIFT};
use termina::{
    cursor_position, has_state, poll_decision, try_ensure_char_case, CharCase, Event,
    EventQueue, InputReaderMode, InputRecord, KeyCode, KeyEvent, KeyEventKind, Modifiers,
    OneBased, Parser, PollAction, PollTimeout, ScreenBufferInfo,
};

fn key_event(c: char) -> Event {
    Event::Key(KeyEvent::new(KeyCode::Char(c), Modifiers::empty()))
}

#[test]
fn key_event_constructors() {
    let e = KeyEvent::new(KeyCode::Enter, Modifiers::from_bits(SHIFT));
    assert_eq!(e.kind, KeyEventKind::Press);
    assert_eq!(e.modifiers.bits, SHIFT);
    assert_eq!(e.state.bits, 0);
    let f = KeyEvent::from(KeyCode::Tab);
    assert_eq!(f.code, KeyCode::Tab);
    assert_eq!(f.modifiers, Modifiers::empty());
}

#[test]
fn modifier_sets() {
    let m = Modifiers::from_bits(SHIFT).union(Modifiers::from_bits(ALT));
    assert!(m.contains(Modifiers::from_bits(SHIFT)));
    assert!(m.contains(Modifiers::from_bits(SHIFT | ALT)));
    assert!(!m.contains(Modifiers::from_bits(META)));
    assert_ne!(HYPER, META);
}

#[test]
fn one_based_values() {
    assert!(OneBased::new(0).is_none());
    let one = OneBased::new(1).unwrap();
    assert_eq!(one.get(), 1);
    assert_eq!(one.zero_based(), 0);
    assert_eq!(OneBased::from_zero_based(9).get(), 10);
}

#[test]
fn cursor_position_in_window() {
    let info = ScreenBufferInfo { cursor_x: 5, cursor_y: 102, window_top: 100 };
    let (col, row) = cursor_position(&info).unwrap();
    assert_eq!((col.get(), row.get()), (6, 3));
    let edge = ScreenBufferInfo { cursor_x: -1, cursor_y: 0, window_top: 0 };
    assert!(cursor_position(&edge).is_none());
}

#[test]
fn has_state_bits() {
    assert!(has_state(0x18, 0x08));
    assert!(!has_state(0x10, 0x0C));
}

#[test]
fn char_case() {
    assert_eq!(try_ensure_char_case('a', CharCase::UpperCase), 'A');
    assert_eq!(try_ensure_char_case('A', CharCase::LowerCase), 'a');
    assert_eq!(try_ensure_char_case('A', CharCase::UpperCase), 'A');
    assert_eq!(try_ensure_char_case('1', CharCase::UpperCase), '1');
    // The upper case of this letter takes two characters: it stays.
    assert_eq!(try_ensure_char_case('\u{DF}', CharCase::UpperCase), '\u{DF}');
    assert_eq!(try_ensure_char_case('\u{130}', CharCase::LowerCase), '\u{130}');
}

#[test]
fn utf16_single_character() {
    assert_eq!(single_char_of_utf16(&vec![0x41]), Some('A'));
    assert_eq!(single_char_of_utf16(&vec![0xD83D, 0xDE00]), Some('\u{1F600}'));
    assert_eq!(single_char_of_utf16(&vec![]), None);
    assert_eq!(single_char_of_utf16(&vec![0xD83D]), None);
    assert_eq!(single_char_of_utf16(&vec![0xDE00, 0xD83D]), None);
    assert_eq!(single_char_of_utf16(&vec![0x41, 0x42]), None);
    assert_eq!(single_char_of_utf16(&vec![0xD83D, 0xDE00, 0x41]), None);
}

#[test]
fn take_match_keeps_other_events_in_order() {
    let mut queue = EventQueue::new();
    queue.push(key_event('a'));
    queue.push(Event::FocusIn);
    queue.push(key_event('b'));
    queue.push(Event::FocusOut);
    let is_focus = |e: &Event| matches!(e, Event::FocusIn | Event::FocusOut);
    assert!(queue.has_match(&is_focus));
    assert_eq!(queue.take_match(&is_focus), Some(Event::FocusIn));
    assert_eq!(queue.take_match(&is_focus), Some(Event::FocusOut));
    assert_eq!(queue.take_match(&is_focus), None);
    assert!(!queue.has_match(&is_focus));
    assert_eq!(queue.len(), 2);
    let any = |_: &Event| true;
    assert_eq!(queue.take_match(&any), Some(key_event('a')));
    assert_eq!(queue.take_match(&any), Some(key_event('b')));
    assert_eq!(queue.take_match(&any), None);
}

#[test]
fn queue_fill_and_drain() {
    let mut parser = Parser::new(InputReaderMode::Legacy);
    parser.decode_input_records(&vec![InputRecord::Focus(1), InputRecord::Focus(0)]);
    let mut queue = EventQueue::new();
    queue.push(key_event('z'));
    queue.fill_from(&mut parser);
    assert_eq!(parser.event_count(), 0);
    assert_eq!(queue.len(), 3);
    assert_eq!(queue.take_match(&|e: &Event| *e == Event::FocusOut), Some(Event::FocusOut));
    queue.drain();
    assert_eq!(queue.len(), 0);
}

#[test]
fn poll_decisions() {
    assert_eq!(poll_decision(true, Some(0)), PollAction::Ready);
    assert_eq!(poll_decision(false, Some(0)), PollAction::TimedOut);
    assert_eq!(poll_decision(false, Some(5)), PollAction::Wait(Some(5)));
    assert_eq!(poll_decision(false, None), PollAction::Wait(None));
}

#[test]
fn poll_timeout_budget() {
    let none = PollTimeout::new(None);
    assert!(!none.elapsed());
    assert_eq!(none.leftover(), None);
    assert_eq!(none.remaining(), None);
    let zero = PollTimeout::new(Some(Duration::ZERO));
    assert!(zero.elapsed());
    assert_eq!(zero.leftover(), Some(Duration::ZERO));
    let long = PollTimeout::new(Some(Duration::from_secs(3600)));
    assert!(!long.elapsed());
    let left = long.leftover().unwrap();
    assert!(left <= Duration::from_secs(3600));
    assert!(left > Duration::from_secs(3500));
    let huge = PollTimeout::new(Some(Duration::MAX));
    assert!(huge.leftover().unwrap() <= Duration::MAX);
}

#[test]
fn leftover_and_elapsed_formulas() {
    assert!(!is_elapsed(None, 5));
    assert!(is_elapsed(Some(5), 5));
    assert!(!is_elapsed(Some(6), 5));
    assert_eq!(leftover_nanos(Some(10), 3), Some(7));
    assert_eq!(leftover_nanos(Some(3), 10), Some(0));
    assert_eq!(leftover_nanos(None, 10), None);
    assert_eq!(duration_of_nanos(1_500_000_000), Duration::new(1, 500_000_000));
    assert_eq!(duration_of_nanos(u128::MAX), Duration::MAX);
}
