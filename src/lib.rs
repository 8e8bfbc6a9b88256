//! Input-acquisition core of a terminal library: a unified event model, a
//! decoder of terminal byte streams, a decoder of console input records, the
//! bookkeeping for waits with a time budget, and a queue that hands out the
//! first event that matches a filter while keeping every other event in order.

pub mod chars;
pub mod console;
pub mod input;
pub mod queue;
pub mod timeout;
pub mod vt;

pub use chars::{CharCase, try_ensure_char_case};
pub use console::{
    ButtonState, InputReaderMode, InputRecord, KeyRecord, MouseButtonsPressed, MouseRecord,
    Parser, ScreenBufferInfo, cursor_position, has_state,
};
pub use input::{
    Event, KeyCode, KeyEvent, KeyEventKind, KeyEventState, MediaKeyCode, ModifierKeyCode,
    Modifiers, MouseButton, MouseEvent, MouseEventKind, OneBased, WindowSize,
};
pub use queue::{EventQueue, PollAction, poll_decision};
pub use timeout::PollTimeout;
pub use vt::VtDecoder;
