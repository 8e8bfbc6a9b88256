use vstd::prelude::*;
use std::collections::VecDeque;
use crate::chars::{
    CharCase, char_of_pair, char_of_unit, ensure_case_spec, is_high_surrogate, is_low_surrogate,
    is_surrogate, pair_value, single_char_of_utf16, try_ensure_char_case, utf16_single,
};
use crate::vt::{VtDecoder, events_match, parse_all};
use crate::input::{
    ALT, CONTROL, Event, KeyCode, KeyEvent, KeyEventKind, KeyEventState, Modifiers, MouseButton,
    MouseEvent, MouseEventKind, OneBased, SHIFT, WindowSize,
};

verus! {

// Virtual key codes of the Win32 console.
pub const VK_BACK: u16 = 0x08;
pub const VK_TAB: u16 = 0x09;
pub const VK_RETURN: u16 = 0x0D;
pub const VK_SHIFT: u16 = 0x10;
pub const VK_CONTROL: u16 = 0x11;
pub const VK_MENU: u16 = 0x12;
pub const VK_ESCAPE: u16 = 0x1B;
pub const VK_PRIOR: u16 = 0x21;
pub const VK_NEXT: u16 = 0x22;
pub const VK_END: u16 = 0x23;
pub const VK_HOME: u16 = 0x24;
pub const VK_LEFT: u16 = 0x25;
pub const VK_UP: u16 = 0x26;
pub const VK_RIGHT: u16 = 0x27;
pub const VK_DOWN: u16 = 0x28;
pub const VK_INSERT: u16 = 0x2D;
pub const VK_DELETE: u16 = 0x2E;
pub const VK_NUMPAD0: u16 = 0x60;
pub const VK_NUMPAD9: u16 = 0x69;
pub const VK_F1: u16 = 0x70;
pub const VK_F24: u16 = 0x87;

// Bits of the control key state of a key or mouse record.
pub const RIGHT_ALT_PRESSED: u32 = 0x01;
pub const LEFT_ALT_PRESSED: u32 = 0x02;
pub const RIGHT_CTRL_PRESSED: u32 = 0x04;
pub const LEFT_CTRL_PRESSED: u32 = 0x08;
pub const SHIFT_PRESSED: u32 = 0x10;
pub const CAPSLOCK_ON: u32 = 0x80;

// Bits of the button state of a mouse record.
pub const FROM_LEFT_1ST_BUTTON_PRESSED: u32 = 0x01;
pub const RIGHTMOST_BUTTON_PRESSED: u32 = 0x02;
pub const FROM_LEFT_2ND_BUTTON_PRESSED: u32 = 0x04;
pub const FROM_LEFT_3RD_BUTTON_PRESSED: u32 = 0x08;
pub const FROM_LEFT_4TH_BUTTON_PRESSED: u32 = 0x10;

// Event flags of a mouse record.
pub const MOUSE_MOVED: u32 = 0x01;
pub const DOUBLE_CLICK: u32 = 0x02;
pub const MOUSE_WHEELED: u32 = 0x04;
pub const MOUSE_HWHEELED: u32 = 0x08;

/// How key records are read.
#[derive(Debug, Clone, Copy, PartialEq, Eq, Structural)]
pub enum InputReaderMode {
    /// Each key-down record carries one byte of an escape-sequence stream.
    Vte,
    /// Key and mouse records are read as structured events.
    Legacy,
}

/// A key record of the console.
#[derive(Debug, Clone, PartialEq, Eq)]
pub struct KeyRecord {
    /// 1 for a key press; 0 for a release.
    pub key_down: i32,
    pub virtual_key_code: u16,
    /// The UTF-16 unit that the record carries.
    pub unicode_char: u16,
    /// The byte that the record carries when it is read as bytes.
    pub ascii_char: u8,
    pub control_key_state: u32,
    /// The UTF-16 units that the active keyboard layout gives for this key
    /// with no modifier held; empty where it gives none or the key is dead.
    pub layout_text: Vec<u16>,
}

/// A mouse record of the console.
#[derive(Debug, Clone, Copy, PartialEq, Eq, Structural)]
pub struct MouseRecord {
    pub x: i16,
    /// Row, counted from the top of the screen buffer.
    pub y: i16,
    pub button_state: u32,
    pub control_key_state: u32,
    pub event_flags: u32,
    /// Row of the screen buffer at the top of the visible window.
    pub window_top: i16,
}

/// One input record of the console.
#[derive(Debug, Clone, PartialEq, Eq)]
pub enum InputRecord {
    Key(KeyRecord),
    Mouse(MouseRecord),
    /// The screen buffer's new size, one-based.
    BufferSize { x: i16, y: i16 },
    /// A focus change; a positive value means the window gained focus.
    Focus(i32),
    /// A record of a kind that is not read.
    Other,
}

pub open spec fn spec_has_state(a: u32, b: u32) -> bool {
    a & b != 0
}

/// Whether any of the bits `b` is set in `a`.
pub fn has_state(a: u32, b: u32) -> (r: bool)
    ensures
        r == spec_has_state(a, b),
{
    (a & b) != 0
}

/// The modifiers that a control key state reports.
pub open spec fn modifiers_of(state: u32) -> Modifiers {
    let s: u8 = if spec_has_state(state, SHIFT_PRESSED) {
        SHIFT
    } else {
        0
    };
    let c: u8 = if spec_has_state(state, LEFT_CTRL_PRESSED | RIGHT_CTRL_PRESSED) {
        CONTROL
    } else {
        0
    };
    let a: u8 = if spec_has_state(state, LEFT_ALT_PRESSED | RIGHT_ALT_PRESSED) {
        ALT
    } else {
        0
    };
    Modifiers { bits: s | c | a }
}

/// The modifiers that a control key state reports: Shift, Control and Alt.
pub fn handle_control_key_state(state: u32) -> (r: Modifiers)
    ensures
        r == modifiers_of(state),
{
    let s: u8 = if has_state(state, SHIFT_PRESSED) {
        SHIFT
    } else {
        0
    };
    let c: u8 = if has_state(state, LEFT_CTRL_PRESSED | RIGHT_CTRL_PRESSED) {
        CONTROL
    } else {
        0
    };
    let a: u8 = if has_state(state, LEFT_ALT_PRESSED | RIGHT_ALT_PRESSED) {
        ALT
    } else {
        0
    };
    Modifiers::from_bits(s | c | a)
}

/// What one key record gives before surrogate halves are paired.
#[derive(Debug, Clone, Copy, PartialEq, Eq, Structural)]
pub enum WindowsKeyEvent {
    KeyEvent(KeyEvent),
    /// Half of a UTF-16 surrogate pair.
    Surrogate(u16),
}

/// The key code of a virtual key that has a name of its own.
pub open spec fn named_key_spec(vk: u16, shift: bool) -> Option<KeyCode> {
    if vk == VK_BACK {
        Some(KeyCode::Backspace)
    } else if vk == VK_ESCAPE {
        Some(KeyCode::Escape)
    } else if vk == VK_RETURN {
        Some(KeyCode::Enter)
    } else if VK_F1 <= vk && vk <= VK_F24 {
        Some(KeyCode::Function((vk - 111) as u8))
    } else if vk == VK_LEFT {
        Some(KeyCode::Left)
    } else if vk == VK_UP {
        Some(KeyCode::Up)
    } else if vk == VK_RIGHT {
        Some(KeyCode::Right)
    } else if vk == VK_DOWN {
        Some(KeyCode::Down)
    } else if vk == VK_PRIOR {
        Some(KeyCode::PageUp)
    } else if vk == VK_NEXT {
        Some(KeyCode::PageDown)
    } else if vk == VK_HOME {
        Some(KeyCode::Home)
    } else if vk == VK_END {
        Some(KeyCode::End)
    } else if vk == VK_DELETE {
        Some(KeyCode::Delete)
    } else if vk == VK_INSERT {
        Some(KeyCode::Insert)
    } else if vk == VK_TAB && shift {
        Some(KeyCode::BackTab)
    } else if vk == VK_TAB {
        Some(KeyCode::Tab)
    } else {
        None
    }
}

fn named_key_code(vk: u16, shift: bool) -> (r: Option<KeyCode>)
    ensures
        r == named_key_spec(vk, shift),
{
    if vk == VK_BACK {
        Some(KeyCode::Backspace)
    } else if vk == VK_ESCAPE {
        Some(KeyCode::Escape)
    } else if vk == VK_RETURN {
        Some(KeyCode::Enter)
    } else if VK_F1 <= vk && vk <= VK_F24 {
        Some(KeyCode::Function((vk - 111) as u8))
    } else if vk == VK_LEFT {
        Some(KeyCode::Left)
    } else if vk == VK_UP {
        Some(KeyCode::Up)
    } else if vk == VK_RIGHT {
        Some(KeyCode::Right)
    } else if vk == VK_DOWN {
        Some(KeyCode::Down)
    } else if vk == VK_PRIOR {
        Some(KeyCode::PageUp)
    } else if vk == VK_NEXT {
        Some(KeyCode::PageDown)
    } else if vk == VK_HOME {
        Some(KeyCode::Home)
    } else if vk == VK_END {
        Some(KeyCode::End)
    } else if vk == VK_DELETE {
        Some(KeyCode::Delete)
    } else if vk == VK_INSERT {
        Some(KeyCode::Insert)
    } else if vk == VK_TAB && shift {
        Some(KeyCode::BackTab)
    } else if vk == VK_TAB {
        Some(KeyCode::Tab)
    } else {
        None
    }
}

/// The case that a character from the keyboard layout gets: upper case where
/// exactly one of Shift and Caps Lock is on.
pub open spec fn desired_case_spec(state: u32) -> CharCase {
    if spec_has_state(state, SHIFT_PRESSED) != spec_has_state(state, CAPSLOCK_ON) {
        CharCase::UpperCase
    } else {
        CharCase::LowerCase
    }
}

/// The character that the keyboard layout gives for a key, in the case that
/// Shift and Caps Lock ask for; `None` where the layout gives no single character.
pub open spec fn layout_char_spec(r: KeyRecord) -> Option<char> {
    match utf16_single(r.layout_text@) {
        Some(c) => Some(ensure_case_spec(c, desired_case_spec(r.control_key_state))),
        None => None,
    }
}

/// The character of a key as the keyboard layout gives it.
pub fn get_char_for_key(key_event: &KeyRecord) -> (r: Option<char>)
    ensures
        r == layout_char_spec(*key_event),
{
    let ch = match single_char_of_utf16(&key_event.layout_text) {
        Some(c) => c,
        None => {
            return None;
        },
    };
    let is_shift_pressed = has_state(key_event.control_key_state, SHIFT_PRESSED);
    let is_capslock_on = has_state(key_event.control_key_state, CAPSLOCK_ON);
    let desired_case = if is_shift_pressed != is_capslock_on {
        CharCase::UpperCase
    } else {
        CharCase::LowerCase
    };
    Some(try_ensure_char_case(ch, desired_case))
}

pub open spec fn key_kind_spec(key_down: i32) -> KeyEventKind {
    if key_down == 1 {
        KeyEventKind::Press
    } else {
        KeyEventKind::Release
    }
}

pub open spec fn key_of(r: KeyRecord, code: KeyCode) -> WindowsKeyEvent {
    WindowsKeyEvent::KeyEvent(
        KeyEvent {
            code,
            modifiers: modifiers_of(r.control_key_state),
            kind: key_kind_spec(r.key_down),
            state: KeyEventState { bits: 0 },
        },
    )
}

/// A UTF-16 unit as a key: a surrogate half, or the character it is.
pub open spec fn unit_key_spec(r: KeyRecord) -> WindowsKeyEvent {
    if is_surrogate(r.unicode_char) {
        WindowsKeyEvent::Surrogate(r.unicode_char)
    } else {
        key_of(r, KeyCode::Char(r.unicode_char as char))
    }
}

/// Whether a key record is the release of Alt that ends an Alt code and carries its character.
pub open spec fn is_alt_code_spec(r: KeyRecord) -> bool {
    r.virtual_key_code == VK_MENU && r.key_down != 1 && r.unicode_char != 0
}

/// Whether a key record is a numpad digit typed with Alt alone, part of an Alt code.
pub open spec fn is_alt_numpad_spec(r: KeyRecord) -> bool {
    let m = modifiers_of(r.control_key_state);
    &&& VK_NUMPAD0 <= r.virtual_key_code <= VK_NUMPAD9
    &&& m.spec_contains(Modifiers { bits: ALT })
    &&& !m.spec_contains(Modifiers { bits: SHIFT | CONTROL })
}

/// What a key record gives: a key event, a surrogate half, or nothing.
pub open spec fn parse_key_spec(r: KeyRecord) -> Option<WindowsKeyEvent> {
    let vk = r.virtual_key_code;
    if is_alt_code_spec(r) {
        Some(unit_key_spec(r))
    } else if is_alt_numpad_spec(r) {
        None
    } else if vk == VK_SHIFT || vk == VK_CONTROL || vk == VK_MENU {
        None
    } else if let Some(code) = named_key_spec(
        vk,
        modifiers_of(r.control_key_state).spec_contains(Modifiers { bits: SHIFT }),
    ) {
        Some(key_of(r, code))
    } else if r.unicode_char <= 0x1f {
        match layout_char_spec(r) {
            Some(c) => Some(key_of(r, KeyCode::Char(c))),
            None => None,
        }
    } else {
        Some(unit_key_spec(r))
    }
}

fn key_with(key_event: &KeyRecord, code: KeyCode, modifiers: Modifiers) -> (r: WindowsKeyEvent)
    requires
        modifiers == modifiers_of(key_event.control_key_state),
    ensures
        r == key_of(*key_event, code),
{
    let kind = if key_event.key_down == 1 {
        KeyEventKind::Press
    } else {
        KeyEventKind::Release
    };
    WindowsKeyEvent::KeyEvent(KeyEvent { code, modifiers, kind, state: KeyEventState::empty() })
}

fn unit_key(key_event: &KeyRecord, modifiers: Modifiers) -> (r: WindowsKeyEvent)
    requires
        modifiers == modifiers_of(key_event.control_key_state),
    ensures
        r == unit_key_spec(*key_event),
{
    let utf16 = key_event.unicode_char;
    if 0xD800 <= utf16 && utf16 <= 0xDFFF {
        WindowsKeyEvent::Surrogate(utf16)
    } else {
        key_with(key_event, KeyCode::Char(char_of_unit(utf16)), modifiers)
    }
}

/// Reads one key record: named keys by their virtual key code, other keys by
/// the character they carry or, for control characters, by the keyboard layout.
pub fn parse_key_event_record(key_event: &KeyRecord) -> (r: Option<WindowsKeyEvent>)
    ensures
        r == parse_key_spec(*key_event),
{
    let modifiers = handle_control_key_state(key_event.control_key_state);
    let vk = key_event.virtual_key_code;
    let is_alt_code = vk == VK_MENU && key_event.key_down != 1 && key_event.unicode_char != 0;
    if is_alt_code {
        return Some(unit_key(key_event, modifiers));
    }
    let is_numpad_numeric_key = VK_NUMPAD0 <= vk && vk <= VK_NUMPAD9;
    let is_only_alt_modifier = modifiers.contains(Modifiers::from_bits(ALT)) && !modifiers.contains(
        Modifiers::from_bits(SHIFT | CONTROL),
    );
    if is_only_alt_modifier && is_numpad_numeric_key {
        return None;
    }
    if vk == VK_SHIFT || vk == VK_CONTROL || vk == VK_MENU {
        return None;
    }
    let shift = modifiers.contains(Modifiers::from_bits(SHIFT));
    match named_key_code(vk, shift) {
        Some(code) => Some(key_with(key_event, code, modifiers)),
        None => {
            if key_event.unicode_char <= 0x1f {
                match get_char_for_key(key_event) {
                    Some(c) => Some(key_with(key_event, KeyCode::Char(c), modifiers)),
                    None => None,
                }
            } else {
                Some(unit_key(key_event, modifiers))
            }
        },
    }
}

/// The surrogate half that stays buffered, and the character completed, after
/// `new_surrogate` arrives with `buffered` waiting.
pub open spec fn surrogate_spec(buffered: Option<u16>, new_surrogate: u16) -> (Option<u16>, Option<char>) {
    match buffered {
        Some(b) => (None, if is_high_surrogate(b) && is_low_surrogate(new_surrogate) {
            Some(pair_value(b, new_surrogate) as char)
        } else {
            None
        }),
        None => (Some(new_surrogate), None),
    }
}

/// Pairs a surrogate half with the one buffered, or buffers it where none is.
/// A pair that does not form a character is dropped.
pub fn handle_surrogate(surrogate_buffer: &mut Option<u16>, new_surrogate: u16) -> (r: Option<char>)
    ensures
        (*final(surrogate_buffer), r) == surrogate_spec(*old(surrogate_buffer), new_surrogate),
{
    match *surrogate_buffer {
        Some(buffered_surrogate) => {
            *surrogate_buffer = None;
            if 0xD800 <= buffered_surrogate && buffered_surrogate <= 0xDBFF && 0xDC00
                <= new_surrogate && new_surrogate <= 0xDFFF {
                Some(char_of_pair(buffered_surrogate, new_surrogate))
            } else {
                None
            }
        },
        None => {
            *surrogate_buffer = Some(new_surrogate);
            None
        },
    }
}

/// The surrogate buffer and the event after a key record in structured mode.
/// A key event drops a surrogate half that waits.
pub open spec fn key_step_spec(r: KeyRecord, buffered: Option<u16>) -> (Option<u16>, Option<Event>) {
    match parse_key_spec(r) {
        None => (buffered, None),
        Some(WindowsKeyEvent::KeyEvent(k)) => (None, Some(Event::Key(k))),
        Some(WindowsKeyEvent::Surrogate(s)) => {
            let (b, c) = surrogate_spec(buffered, s);
            match c {
                Some(ch) => (
                    b,
                    Some(
                        Event::Key(
                            KeyEvent {
                                code: KeyCode::Char(ch),
                                kind: KeyEventKind::Press,
                                modifiers: modifiers_of(r.control_key_state),
                                state: KeyEventState { bits: 0 },
                            },
                        ),
                    ),
                ),
                None => (b, None),
            }
        },
    }
}

/// A high surrogate followed by a low one gives the one character that the
/// pair encodes, and leaves nothing buffered.
pub proof fn lemma_surrogate_pair(high: u16, low: u16)
    requires
        is_high_surrogate(high),
        is_low_surrogate(low),
    ensures
        surrogate_spec(None, high) == (Some(high), None::<char>),
        surrogate_spec(Some(high), low) == (None::<u16>, Some(pair_value(high, low) as char)),
{
}

/// A key record that gives a key event drops a surrogate half that waits and
/// yields its own event unchanged.
pub proof fn lemma_key_drops_stale_surrogate(r: KeyRecord, buffered: Option<u16>)
    requires
        parse_key_spec(r) matches Some(WindowsKeyEvent::KeyEvent(_)),
    ensures
        key_step_spec(r, buffered) == (None::<u16>, Some(Event::Key(parse_key_spec(r)->0->KeyEvent_0))),
{
}

/// Reads a key record in structured mode.
pub fn handle_key_event(key_event: &KeyRecord, surrogate_buffer: &mut Option<u16>) -> (r: Option<Event>)
    ensures
        (*final(surrogate_buffer), r) == key_step_spec(*key_event, *old(surrogate_buffer)),
{
    match parse_key_event_record(key_event) {
        None => None,
        Some(WindowsKeyEvent::KeyEvent(k)) => {
            *surrogate_buffer = None;
            Some(Event::Key(k))
        },
        Some(WindowsKeyEvent::Surrogate(new_surrogate)) => {
            match handle_surrogate(surrogate_buffer, new_surrogate) {
                Some(ch) => {
                    let modifiers = handle_control_key_state(key_event.control_key_state);
                    Some(Event::Key(KeyEvent::new(KeyCode::Char(ch), modifiers)))
                },
                None => None,
            }
        },
    }
}

pub open spec fn focus_spec(set_focus: i32) -> Event {
    if set_focus > 0 {
        Event::FocusIn
    } else {
        Event::FocusOut
    }
}

/// A focus record as an event.
pub fn handle_focus(set_focus: i32) -> (r: Event)
    ensures
        r == focus_spec(set_focus),
{
    if set_focus > 0 {
        Event::FocusIn
    } else {
        Event::FocusOut
    }
}

/// The buttons held at the last mouse record.
#[derive(Debug, Clone, Copy, PartialEq, Eq, Structural)]
pub struct MouseButtonsPressed {
    pub left: bool,
    pub right: bool,
    pub middle: bool,
}

/// The button state of a mouse record. The low bits tell which buttons are
/// held; for a wheel record the sign tells the direction.
#[derive(Debug, Clone, Copy, PartialEq, Eq, Structural)]
pub struct ButtonState {
    pub state: i32,
}

impl From<u32> for ButtonState {
    fn from(event: u32) -> (r: ButtonState) {
        ButtonState { state: event as i32 }
    }
}

impl vstd::std_specs::convert::FromSpecImpl<u32> for ButtonState {
    open spec fn obeys_from_spec() -> bool {
        true
    }

    open spec fn from_spec(event: u32) -> ButtonState {
        ButtonState { state: event as i32 }
    }
}

impl ButtonState {
    pub open spec fn spec_left(self) -> bool {
        self.state as u32 & FROM_LEFT_1ST_BUTTON_PRESSED != 0
    }

    pub open spec fn spec_right(self) -> bool {
        self.state as u32 & (RIGHTMOST_BUTTON_PRESSED | FROM_LEFT_3RD_BUTTON_PRESSED
            | FROM_LEFT_4TH_BUTTON_PRESSED) != 0
    }

    pub open spec fn spec_middle(self) -> bool {
        self.state as u32 & FROM_LEFT_2ND_BUTTON_PRESSED != 0
    }

    /// The buttons that this state holds.
    pub open spec fn pressed(self) -> MouseButtonsPressed {
        MouseButtonsPressed { left: self.spec_left(), right: self.spec_right(), middle: self.spec_middle() }
    }

    /// Whether no button is held.
    pub fn release_button(&self) -> (r: bool)
        ensures
            r == (self.state == 0),
    {
        self.state == 0
    }

    /// Whether the left button is held.
    pub fn left_button(&self) -> (r: bool)
        ensures
            r == self.spec_left(),
    {
        self.state as u32 & FROM_LEFT_1ST_BUTTON_PRESSED != 0
    }

    /// Whether the right button is held: the rightmost, third or fourth button.
    pub fn right_button(&self) -> (r: bool)
        ensures
            r == self.spec_right(),
    {
        self.state as u32 & (RIGHTMOST_BUTTON_PRESSED | FROM_LEFT_3RD_BUTTON_PRESSED
            | FROM_LEFT_4TH_BUTTON_PRESSED) != 0
    }

    /// Whether the middle button is held.
    pub fn middle_button(&self) -> (r: bool)
        ensures
            r == self.spec_middle(),
    {
        self.state as u32 & FROM_LEFT_2ND_BUTTON_PRESSED != 0
    }

    /// Whether the wheel turned towards the user.
    pub fn scroll_down(&self) -> (r: bool)
        ensures
            r == (self.state < 0),
    {
        self.state < 0
    }

    /// Whether the wheel turned away from the user.
    pub fn scroll_up(&self) -> (r: bool)
        ensures
            r == (self.state > 0),
    {
        self.state > 0
    }

    /// Whether the horizontal wheel turned right.
    pub fn scroll_right(&self) -> (r: bool)
        ensures
            r == (self.state > 0),
    {
        self.state > 0
    }

    /// Whether the horizontal wheel turned left.
    pub fn scroll_left(&self) -> (r: bool)
        ensures
            r == (self.state < 0),
    {
        self.state < 0
    }
}

/// The kind of a mouse record, given the buttons held at the one before it.
/// A press or release is found by comparing the two, left before right before
/// middle; a move with buttons held drags the right, else the middle, else the left.
pub open spec fn mouse_kind_spec(flags: u32, b: ButtonState, p: MouseButtonsPressed) -> Option<MouseEventKind> {
    if flags == 0 || flags == DOUBLE_CLICK {
        if b.spec_left() && !p.left {
            Some(MouseEventKind::Down(MouseButton::Left))
        } else if !b.spec_left() && p.left {
            Some(MouseEventKind::Up(MouseButton::Left))
        } else if b.spec_right() && !p.right {
            Some(MouseEventKind::Down(MouseButton::Right))
        } else if !b.spec_right() && p.right {
            Some(MouseEventKind::Up(MouseButton::Right))
        } else if b.spec_middle() && !p.middle {
            Some(MouseEventKind::Down(MouseButton::Middle))
        } else if !b.spec_middle() && p.middle {
            Some(MouseEventKind::Up(MouseButton::Middle))
        } else {
            None
        }
    } else if flags == MOUSE_MOVED {
        if b.state == 0 {
            Some(MouseEventKind::Moved)
        } else if b.spec_right() {
            Some(MouseEventKind::Drag(MouseButton::Right))
        } else if b.spec_middle() {
            Some(MouseEventKind::Drag(MouseButton::Middle))
        } else {
            Some(MouseEventKind::Drag(MouseButton::Left))
        }
    } else if flags == MOUSE_WHEELED {
        if b.state < 0 {
            Some(MouseEventKind::ScrollDown)
        } else if b.state > 0 {
            Some(MouseEventKind::ScrollUp)
        } else {
            None
        }
    } else if flags == MOUSE_HWHEELED {
        if b.state < 0 {
            Some(MouseEventKind::ScrollLeft)
        } else if b.state > 0 {
            Some(MouseEventKind::ScrollRight)
        } else {
            None
        }
    } else {
        None
    }
}

/// A row of the screen buffer, counted from the top of the visible window.
pub open spec fn relative_y_spec(y: i16, window_top: i16) -> i16 {
    (y - window_top) as i16
}

/// Turns a row of the screen buffer into one counted from the top of the
/// visible window; the difference wraps to 16 bits.
pub fn parse_relative_y(y: i16, window_top: i16) -> (r: i16)
    ensures
        r == relative_y_spec(y, window_top),
{
    ((y as i32) - (window_top as i32)) as i16
}

/// The mouse event of a record, given the buttons held at the one before it.
pub open spec fn mouse_event_spec(r: MouseRecord, p: MouseButtonsPressed) -> Option<MouseEvent> {
    match mouse_kind_spec(r.event_flags, ButtonState { state: r.button_state as i32 }, p) {
        Some(kind) => Some(
            MouseEvent {
                kind,
                column: r.x as u16,
                row: relative_y_spec(r.y, r.window_top) as u16,
                modifiers: modifiers_of(r.control_key_state),
            },
        ),
        None => None,
    }
}

/// Reads a mouse record, given the buttons held at the one before it.
pub fn parse_mouse_event_record(event: &MouseRecord, buttons_pressed: &MouseButtonsPressed) -> (r:
    Option<MouseEvent>)
    ensures
        r == mouse_event_spec(*event, *buttons_pressed),
{
    let modifiers = handle_control_key_state(event.control_key_state);
    let xpos = event.x as u16;
    let ypos = parse_relative_y(event.y, event.window_top) as u16;
    let button_state = ButtonState::from(event.button_state);
    let flags = event.event_flags;
    let kind = if flags == 0 || flags == DOUBLE_CLICK {
        if button_state.left_button() && !buttons_pressed.left {
            Some(MouseEventKind::Down(MouseButton::Left))
        } else if !button_state.left_button() && buttons_pressed.left {
            Some(MouseEventKind::Up(MouseButton::Left))
        } else if button_state.right_button() && !buttons_pressed.right {
            Some(MouseEventKind::Down(MouseButton::Right))
        } else if !button_state.right_button() && buttons_pressed.right {
            Some(MouseEventKind::Up(MouseButton::Right))
        } else if button_state.middle_button() && !buttons_pressed.middle {
            Some(MouseEventKind::Down(MouseButton::Middle))
        } else if !button_state.middle_button() && buttons_pressed.middle {
            Some(MouseEventKind::Up(MouseButton::Middle))
        } else {
            None
        }
    } else if flags == MOUSE_MOVED {
        let button = if button_state.right_button() {
            MouseButton::Right
        } else if button_state.middle_button() {
            MouseButton::Middle
        } else {
            MouseButton::Left
        };
        if button_state.release_button() {
            Some(MouseEventKind::Moved)
        } else {
            Some(MouseEventKind::Drag(button))
        }
    } else if flags == MOUSE_WHEELED {
        if button_state.scroll_down() {
            Some(MouseEventKind::ScrollDown)
        } else if button_state.scroll_up() {
            Some(MouseEventKind::ScrollUp)
        } else {
            None
        }
    } else if flags == MOUSE_HWHEELED {
        if button_state.scroll_left() {
            Some(MouseEventKind::ScrollLeft)
        } else if button_state.scroll_right() {
            Some(MouseEventKind::ScrollRight)
        } else {
            None
        }
    } else {
        None
    };
    match kind {
        Some(kind) => Some(MouseEvent { kind, column: xpos, row: ypos, modifiers }),
        None => None,
    }
}

/// A mouse record as an event, given the buttons held at the one before it.
pub fn handle_mouse_event(event: &MouseRecord, buttons_pressed: &MouseButtonsPressed) -> (r: Option<Event>)
    ensures
        r == (match mouse_event_spec(*event, *buttons_pressed) {
            Some(m) => Some(Event::Mouse(m)),
            None => None,
        }),
{
    match parse_mouse_event_record(event, buttons_pressed) {
        Some(m) => Some(Event::Mouse(m)),
        None => None,
    }
}

/// The resize event of a buffer-size record, whose sizes are one-based;
/// `None` for a record with a zero size, which is invalid.
pub open spec fn resize_spec(x: i16, y: i16) -> Option<Event> {
    if x as u16 == 0 || y as u16 == 0 {
        None
    } else {
        Some(
            Event::WindowResized(
                WindowSize {
                    rows: (y as u16 - 1) as u16,
                    cols: (x as u16 - 1) as u16,
                    pixel_width: None,
                    pixel_height: None,
                },
            ),
        )
    }
}

/// The resize event of a buffer-size record: its one-based sizes become
/// zero-based, and a zero size drops the record.
pub fn handle_resize(x: i16, y: i16) -> (r: Option<Event>)
    ensures
        r == resize_spec(x, y),
{
    let rows = match OneBased::new(y as u16) {
        Some(rows) => rows,
        None => {
            return None;
        },
    };
    let cols = match OneBased::new(x as u16) {
        Some(cols) => cols,
        None => {
            return None;
        },
    };
    Some(
        Event::WindowResized(
            WindowSize {
                rows: rows.zero_based(),
                cols: cols.zero_based(),
                pixel_width: None,
                pixel_height: None,
            },
        ),
    )
}

/// What a decoder holds between calls, as plain values.
pub struct ParserState {
    pub mode: InputReaderMode,
    /// Bytes of the escape-sequence stream not yet parsed.
    pub buffer: Seq<u8>,
    /// Events decoded and not yet taken, oldest first.
    pub events: Seq<Event>,
    /// A surrogate half that waits for the other.
    pub surrogate: Option<u16>,
    /// The buttons held at the last mouse record.
    pub buttons: MouseButtonsPressed,
}

pub open spec fn push_opt(events: Seq<Event>, e: Option<Event>) -> Seq<Event> {
    match e {
        Some(e) => events.push(e),
        None => events,
    }
}

/// The state after one record.
pub open spec fn step_spec(s: ParserState, record: InputRecord) -> ParserState {
    match record {
        InputRecord::Key(k) => match s.mode {
            InputReaderMode::Vte => if k.key_down == 0 || k.ascii_char == 0 {
                s
            } else {
                ParserState { buffer: s.buffer.push(k.ascii_char), ..s }
            },
            InputReaderMode::Legacy => {
                let (b, e) = key_step_spec(k, s.surrogate);
                ParserState { surrogate: b, events: push_opt(s.events, e), ..s }
            },
        },
        InputRecord::BufferSize { x, y } => ParserState {
            events: push_opt(s.events, resize_spec(x, y)),
            ..s
        },
        InputRecord::Focus(f) => ParserState { events: s.events.push(focus_spec(f)), ..s },
        InputRecord::Mouse(m) => match s.mode {
            InputReaderMode::Vte => s,
            InputReaderMode::Legacy => {
                let e = match mouse_event_spec(m, s.buttons) {
                    Some(me) => Some(Event::Mouse(me)),
                    None => None,
                };
                ParserState {
                    events: push_opt(s.events, e),
                    buttons: ButtonState { state: m.button_state as i32 }.pressed(),
                    ..s
                }
            },
        },
        InputRecord::Other => s,
    }
}

/// The state after a sequence of records, read in order.
pub open spec fn decode_spec(s: ParserState, records: Seq<InputRecord>) -> ParserState
    decreases records.len(),
{
    if records.len() == 0 {
        s
    } else {
        step_spec(decode_spec(s, records.drop_last()), records.last())
    }
}

/// Decoding two batches of records one after the other leaves the same state
/// as decoding them as one batch: how records are split across calls does not
/// change the events, the bytes buffered or what waits for the next record.
pub proof fn lemma_decode_chunks(s: ParserState, a: Seq<InputRecord>, b: Seq<InputRecord>)
    ensures
        decode_spec(decode_spec(s, a), b) == decode_spec(s, a + b),
    decreases b.len(),
{
    if b.len() == 0 {
        assert(a + b =~= a);
    } else {
        lemma_decode_chunks(s, a, b.drop_last());
        assert((a + b).drop_last() =~= a + b.drop_last());
        assert((a + b).last() == b.last());
    }
}

/// Turns console input records into events.
pub struct Parser {
    mode: InputReaderMode,
    buffer: Vec<u8>,
    events: VecDeque<Event>,
    surrogate_buffer: Option<u16>,
    mouse_buttons_pressed: MouseButtonsPressed,
}

impl View for Parser {
    type V = ParserState;

    closed spec fn view(&self) -> ParserState {
        ParserState {
            mode: self.mode,
            buffer: self.buffer@,
            events: self.events@,
            surrogate: self.surrogate_buffer,
            buttons: self.mouse_buttons_pressed,
        }
    }
}

impl Parser {
    /// A decoder in `mode` that holds nothing.
    pub fn new(mode: InputReaderMode) -> (r: Parser)
        ensures
            r@ == (ParserState {
                mode,
                buffer: Seq::empty(),
                events: Seq::empty(),
                surrogate: None,
                buttons: MouseButtonsPressed { left: false, right: false, middle: false },
            }),
    {
        Parser {
            mode,
            buffer: Vec::new(),
            events: VecDeque::new(),
            surrogate_buffer: None,
            mouse_buttons_pressed: MouseButtonsPressed { left: false, right: false, middle: false },
        }
    }

    /// Reads a batch of records in order. In escape-sequence mode the bytes of
    /// key presses go to the byte buffer, key releases and zero bytes are
    /// dropped; in structured mode key and mouse records become events. Resize
    /// and focus records become events in both modes.
    pub fn decode_input_records(&mut self, records: &Vec<InputRecord>)
        ensures
            final(self)@ == decode_spec(old(self)@, records@),
    {
        let ghost s0 = self@;
        let mut i: usize = 0;
        while i < records.len()
            invariant
                0 <= i <= records.len(),
                self@ == decode_spec(s0, records@.take(i as int)),
            decreases records.len() - i,
        {
            proof {
                assert(records@.take(i + 1).drop_last() =~= records@.take(i as int));
            }
            match &records[i] {
                InputRecord::Key(record) => {
                    match self.mode {
                        InputReaderMode::Vte => {
                            if record.key_down != 0 && record.ascii_char != 0 {
                                self.buffer.push(record.ascii_char);
                            }
                        },
                        InputReaderMode::Legacy => {
                            if let Some(event) = handle_key_event(record, &mut self.surrogate_buffer) {
                                self.events.push_back(event);
                            }
                        },
                    }
                },
                InputRecord::BufferSize { x, y } => {
                    if let Some(event) = handle_resize(*x, *y) {
                        self.events.push_back(event);
                    }
                },
                InputRecord::Focus(f) => {
                    self.events.push_back(handle_focus(*f));
                },
                InputRecord::Mouse(record) => {
                    if self.mode == InputReaderMode::Legacy {
                        let button_state = ButtonState::from(record.button_state);
                        let mouse_event = handle_mouse_event(record, &self.mouse_buttons_pressed);
                        self.mouse_buttons_pressed = MouseButtonsPressed {
                            left: button_state.left_button(),
                            right: button_state.right_button(),
                            middle: button_state.middle_button(),
                        };
                        if let Some(event) = mouse_event {
                            self.events.push_back(event);
                        }
                    }
                },
                InputRecord::Other => {},
            }
            i = i + 1;
        }
        proof {
            assert(records@.take(records.len() as int) =~= records@);
        }
    }

    /// Runs the bytes of the escape-sequence stream through `decoder`: the
    /// events of the complete units join the queue in order, and the bytes of
    /// an unfinished unit wait in `decoder`.
    pub fn process_bytes(&mut self, decoder: &mut VtDecoder)
        ensures
            final(self)@ == (ParserState {
                buffer: Seq::empty(),
                events: final(self)@.events,
                ..old(self)@
            }),
            final(self)@.events.len() >= old(self)@.events.len(),
            final(self)@.events.take(old(self)@.events.len() as int) == old(self)@.events,
            events_match(
                final(self)@.events.skip(old(self)@.events.len() as int),
                parse_all(old(decoder)@ + old(self)@.buffer).0,
            ),
            final(decoder)@ == parse_all(old(decoder)@ + old(self)@.buffer).1,
    {
        let bytes = self.take_bytes();
        let mut events = decoder.decode(bytes.as_slice());
        let ghost start = self.events@;
        let ghost all = events@;
        while events.len() > 0
            invariant
                self.events@ + events@ == start + all,
                self@ == (ParserState { buffer: Seq::empty(), events: self.events@, ..old(self)@ }),
            decreases events.len(),
        {
            let ghost before = events@;
            let e = events.remove(0);
            self.events.push_back(e);
            proof {
                assert(before =~= seq![e] + events@);
                assert(self.events@ + events@ =~= start + all);
            }
        }
        proof {
            assert(self.events@ + events@ =~= self.events@);
            assert(self.events@.take(start.len() as int) =~= start);
            assert(self.events@.skip(start.len() as int) =~= all);
        }
    }

    /// The mode that key records are read in.
    pub fn mode(&self) -> (r: InputReaderMode)
        ensures
            r == self@.mode,
    {
        self.mode
    }

    /// Takes the oldest event decoded, if any.
    pub fn pop_event(&mut self) -> (r: Option<Event>)
        ensures
            old(self)@.events.len() == 0 ==> r is None && final(self)@ == old(self)@,
            old(self)@.events.len() > 0 ==> r == Some(old(self)@.events[0]) && final(self)@ == (
            ParserState { events: old(self)@.events.drop_first(), ..old(self)@ }),
    {
        self.events.pop_front()
    }

    /// The number of events decoded and not yet taken.
    pub fn event_count(&self) -> (r: usize)
        ensures
            r == self@.events.len(),
    {
        self.events.len()
    }

    /// Takes the bytes of the escape-sequence stream that wait to be parsed.
    pub fn take_bytes(&mut self) -> (r: Vec<u8>)
        ensures
            r@ == old(self)@.buffer,
            final(self)@ == (ParserState { buffer: Seq::empty(), ..old(self)@ }),
    {
        let mut taken: Vec<u8> = Vec::new();
        std::mem::swap(&mut taken, &mut self.buffer);
        taken
    }
}

/// What the console reports of its screen buffer: the cursor, and the row of
/// the buffer at the top of the visible window.
#[derive(Debug, Clone, Copy, PartialEq, Eq, Structural)]
pub struct ScreenBufferInfo {
    pub cursor_x: i16,
    pub cursor_y: i16,
    pub window_top: i16,
}

/// The cursor's column and its row in the visible window, both one-based;
/// `None` where a zero-based coordinate has no one-based value in 16 bits.
pub fn cursor_position(info: &ScreenBufferInfo) -> (r: Option<(OneBased, OneBased)>)
    ensures
        ({
            let x = info.cursor_x as u16;
            let y = relative_y_spec(info.cursor_y, info.window_top) as u16;
            &&& r is Some <==> (x < u16::MAX && y < u16::MAX)
            &&& r matches Some((c, w)) ==> c.spec_get() == x + 1 && w.spec_get() == y + 1
        }),
{
    let x = info.cursor_x as u16;
    let y = parse_relative_y(info.cursor_y, info.window_top) as u16;
    if x < u16::MAX && y < u16::MAX {
        Some((OneBased::from_zero_based(x), OneBased::from_zero_based(y)))
    } else {
        None
    }
}

} // verus!
