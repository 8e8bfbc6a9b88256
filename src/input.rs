use vstd::prelude::*;

verus! {

/// Bit of the Shift modifier.
pub const SHIFT: u8 = 2;
/// Bit of the Alt modifier.
pub const ALT: u8 = 4;
/// Bit of the Control modifier.
pub const CONTROL: u8 = 8;
/// Bit of the Super modifier.
pub const SUPER: u8 = 16;
/// Bit of the Hyper modifier.
pub const HYPER: u8 = 32;
/// Bit of the Meta modifier.
pub const META: u8 = 64;

/// A set of key modifiers, stored as bits.
///
/// `HYPER` and `META` stand for two different keys and get two different bits.
#[derive(Debug, Clone, Copy, PartialEq, Eq, Structural)]
pub struct Modifiers {
    pub bits: u8,
}

impl Modifiers {
    pub open spec fn spec_contains(self, other: Modifiers) -> bool {
        self.bits & other.bits == other.bits
    }

    pub open spec fn spec_union(self, other: Modifiers) -> Modifiers {
        Modifiers { bits: self.bits | other.bits }
    }

    /// The set whose bits are `bits`.
    pub fn from_bits(bits: u8) -> (r: Modifiers)
        ensures
            r.bits == bits,
    {
        Modifiers { bits }
    }

    /// The empty set.
    pub fn empty() -> (r: Modifiers)
        ensures
            r.bits == 0,
    {
        Modifiers { bits: 0 }
    }

    /// Whether every modifier of `other` is in `self`.
    pub fn contains(&self, other: Modifiers) -> (r: bool)
        ensures
            r == self.spec_contains(other),
    {
        self.bits & other.bits == other.bits
    }

    /// The modifiers of both sets.
    pub fn union(&self, other: Modifiers) -> (r: Modifiers)
        ensures
            r == self.spec_union(other),
    {
        Modifiers { bits: self.bits | other.bits }
    }
}

/// Bit of the keypad state.
pub const KEYPAD: u8 = 2;
/// Bit of the Caps Lock state.
pub const CAPS_LOCK: u8 = 4;
/// Bit of the Num Lock state.
pub const NUM_LOCK: u8 = 8;

/// Lock and keypad state that came with a key event, stored as bits.
#[derive(Debug, Clone, Copy, PartialEq, Eq, Structural)]
pub struct KeyEventState {
    pub bits: u8,
}

impl KeyEventState {
    /// The empty state.
    pub fn empty() -> (r: KeyEventState)
        ensures
            r.bits == 0,
    {
        KeyEventState { bits: 0 }
    }
}

#[derive(Debug, Clone, Copy, PartialEq, Eq, Structural)]
pub enum KeyEventKind {
    Press,
    Release,
    Repeat,
}

#[derive(Debug, Clone, Copy, PartialEq, Eq, Structural)]
pub enum ModifierKeyCode {
    LeftShift,
    LeftControl,
    LeftAlt,
    LeftSuper,
    LeftHyper,
    LeftMeta,
    RightShift,
    RightControl,
    RightAlt,
    RightSuper,
    RightHyper,
    RightMeta,
    IsoLevel3Shift,
    IsoLevel5Shift,
}

#[derive(Debug, Clone, Copy, PartialEq, Eq, Structural)]
pub enum MediaKeyCode {
    Play,
    Pause,
    PlayPause,
    Reverse,
    Stop,
    FastForward,
    Rewind,
    TrackNext,
    TrackPrevious,
    Record,
    LowerVolume,
    RaiseVolume,
    MuteVolume,
}

#[derive(Debug, Clone, Copy, PartialEq, Eq, Structural)]
pub enum KeyCode {
    Char(char),
    Enter,
    Backspace,
    Tab,
    Escape,
    Left,
    Right,
    Up,
    Down,
    Home,
    End,
    BackTab,
    PageUp,
    PageDown,
    Insert,
    Delete,
    KeypadBegin,
    CapsLock,
    ScrollLock,
    NumLock,
    PrintScreen,
    Pause,
    Menu,
    /// The function keys F1 to F35, by number.
    Function(u8),
    Modifier(ModifierKeyCode),
    Media(MediaKeyCode),
}

#[derive(Debug, Clone, Copy, PartialEq, Eq, Structural)]
pub struct KeyEvent {
    pub code: KeyCode,
    pub kind: KeyEventKind,
    pub modifiers: Modifiers,
    pub state: KeyEventState,
}

impl KeyEvent {
    /// A key press of `code` with `modifiers` and no lock state.
    pub fn new(code: KeyCode, modifiers: Modifiers) -> (r: KeyEvent)
        ensures
            r == (KeyEvent {
                code,
                kind: KeyEventKind::Press,
                modifiers,
                state: KeyEventState { bits: 0 },
            }),
    {
        KeyEvent { code, modifiers, kind: KeyEventKind::Press, state: KeyEventState { bits: 0 } }
    }
}

impl From<KeyCode> for KeyEvent {
    /// A key press of `code` without modifiers.
    fn from(code: KeyCode) -> (r: KeyEvent) {
        KeyEvent {
            code,
            kind: KeyEventKind::Press,
            modifiers: Modifiers { bits: 0 },
            state: KeyEventState { bits: 0 },
        }
    }
}

impl vstd::std_specs::convert::FromSpecImpl<KeyCode> for KeyEvent {
    open spec fn obeys_from_spec() -> bool {
        true
    }

    open spec fn from_spec(code: KeyCode) -> KeyEvent {
        KeyEvent {
            code,
            kind: KeyEventKind::Press,
            modifiers: Modifiers { bits: 0 },
            state: KeyEventState { bits: 0 },
        }
    }
}

#[derive(Debug, Clone, Copy, PartialEq, Eq, Structural)]
pub enum MouseButton {
    Left,
    Right,
    Middle,
}

#[derive(Debug, Clone, Copy, PartialEq, Eq, Structural)]
pub enum MouseEventKind {
    /// A button went down.
    Down(MouseButton),
    /// A button went up.
    Up(MouseButton),
    /// The cursor moved while the button was held.
    Drag(MouseButton),
    /// The cursor moved with no button held.
    Moved,
    /// The wheel turned towards the user.
    ScrollDown,
    /// The wheel turned away from the user.
    ScrollUp,
    ScrollLeft,
    ScrollRight,
}

#[derive(Debug, Clone, Copy, PartialEq, Eq, Structural)]
pub struct MouseEvent {
    pub kind: MouseEventKind,
    pub column: u16,
    pub row: u16,
    pub modifiers: Modifiers,
}

/// Size of the terminal window, in cells and, where known, in pixels.
#[derive(Debug, Clone, Copy, PartialEq, Eq, Structural)]
pub struct WindowSize {
    pub rows: u16,
    pub cols: u16,
    pub pixel_width: Option<u16>,
    pub pixel_height: Option<u16>,
}

/// A coordinate or size counted from one; never zero.
#[derive(Debug, Clone, Copy, PartialEq, Eq, Structural)]
pub struct OneBased {
    value: u16,
}

impl OneBased {
    #[verifier::type_invariant]
    spec fn inv(self) -> bool {
        self.value >= 1
    }

    pub closed spec fn spec_get(self) -> u16 {
        self.value
    }

    /// `Some` of a one-based value, `None` for zero.
    pub fn new(value: u16) -> (r: Option<OneBased>)
        ensures
            value == 0 ==> r is None,
            value != 0 ==> r is Some && r->0.spec_get() == value,
    {
        if value == 0 {
            None
        } else {
            Some(OneBased { value })
        }
    }

    /// The one-based value of a zero-based one.
    pub fn from_zero_based(zero_based: u16) -> (r: OneBased)
        requires
            zero_based < u16::MAX,
        ensures
            r.spec_get() == zero_based + 1,
    {
        OneBased { value: zero_based + 1 }
    }

    /// The value, counted from one.
    pub fn get(&self) -> (r: u16)
        ensures
            r == self.spec_get(),
            r >= 1,
    {
        proof {
            use_type_invariant(self);
        }
        self.value
    }

    /// The value, counted from zero.
    pub fn zero_based(&self) -> (r: u16)
        ensures
            r == self.spec_get() - 1,
    {
        proof {
            use_type_invariant(self);
        }
        self.value - 1
    }
}

/// Something that happened at the terminal.
#[derive(Debug, Clone, PartialEq, Eq)]
pub enum Event {
    Key(KeyEvent),
    Mouse(MouseEvent),
    FocusIn,
    FocusOut,
    WindowResized(WindowSize),
    /// Text pasted as one piece.
    Paste(String),
    /// A report of the cursor's position, zero-based.
    CursorPosition { column: u16, row: u16 },
}

} // verus!
