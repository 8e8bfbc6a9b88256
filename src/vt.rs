use vstd::prelude::*;
use crate::chars::{char_from_u32, is_scalar};
use crate::input::{
    ALT, CONTROL, Event, KeyCode, KeyEvent, KeyEventKind, KeyEventState, Modifiers, MouseButton,
    MouseEvent, MouseEventKind, SHIFT,
};

verus! {

/// The escape byte, which starts every escape sequence.
pub const ESC: u8 = 0x1B;

/// How long, in milliseconds, a lone ESC waits for a byte that would make it
/// the start of a sequence before it is taken as the Escape key.
pub const ESCAPE_GRACE_MS: u64 = 50;

/// Whether a byte ends a control sequence.
pub open spec fn is_final(b: u8) -> bool {
    0x40 <= b && b <= 0x7E
}

/// The index of the first byte at or after `i` that ends a control sequence.
pub open spec fn csi_end(b: Seq<u8>, i: int) -> Option<int>
    decreases b.len() - i,
{
    if i < 0 || i >= b.len() {
        None
    } else if is_final(b[i]) {
        Some(i)
    } else {
        csi_end(b, i + 1)
    }
}

/// Whether `b` holds at least six bytes and starts with the marker that
/// opens a bracketed paste, ESC `[200~`.
pub open spec fn is_paste_start(b: Seq<u8>) -> bool {
    &&& b.len() >= 6
    &&& b[0] == ESC && b[1] == 0x5B && b[2] == 0x32 && b[3] == 0x30 && b[4] == 0x30 && b[5] == 0x7E
}

/// Whether the marker that closes a bracketed paste, ESC `[201~`, stands at `i`.
pub open spec fn is_paste_end_at(b: Seq<u8>, i: int) -> bool {
    &&& 0 <= i && i + 6 <= b.len()
    &&& b[i] == ESC && b[i + 1] == 0x5B && b[i + 2] == 0x32 && b[i + 3] == 0x30
    &&& b[i + 4] == 0x31 && b[i + 5] == 0x7E
}

/// The first index at or after `i` where the marker that closes a paste stands.
pub open spec fn paste_end(b: Seq<u8>, i: int) -> Option<int>
    decreases b.len() - i,
{
    if i < 0 || i + 6 > b.len() {
        None
    } else if is_paste_end_at(b, i) {
        Some(i)
    } else {
        paste_end(b, i + 1)
    }
}

/// The length of a UTF-8 sequence that starts with `c`; zero where `c` starts none.
pub open spec fn utf8_len(c: u8) -> int {
    if 0xC2 <= c && c <= 0xDF {
        2
    } else if 0xE0 <= c && c <= 0xEF {
        3
    } else if 0xF0 <= c && c <= 0xF4 {
        4
    } else {
        0
    }
}

pub open spec fn is_cont(b: u8) -> bool {
    0x80 <= b && b < 0xC0
}

/// Whether the bytes after the first, up to `need`, are all continuation bytes.
pub open spec fn conts_ok(b: Seq<u8>, need: int) -> bool {
    forall|i: int| 1 <= i < need ==> is_cont(#[trigger] b[i])
}

/// The length of the unit of input that starts `b`: one key, one sequence,
/// or one byte that is skipped. `None` where `b` may be the start of a longer
/// unit and more bytes are needed to tell.
pub open spec fn unit_len(b: Seq<u8>) -> Option<int> {
    if b.len() == 0 {
        None
    } else if b[0] == ESC {
        if b.len() == 1 {
            None
        } else if b[1] == 0x5B {
            match csi_end(b, 2) {
                Some(k) => if k == 5 && is_paste_start(b) {
                    match paste_end(b, 6) {
                        Some(m) => Some(m + 6),
                        None => None,
                    }
                } else {
                    Some(k + 1)
                },
                None => None,
            }
        } else if b[1] == 0x4F {
            if b.len() < 3 {
                None
            } else {
                Some(3)
            }
        } else if b[1] < 0x80 && b[1] != ESC {
            Some(2)
        } else {
            Some(1)
        }
    } else if b[0] < 0x80 {
        Some(1)
    } else {
        let need = utf8_len(b[0]);
        if need == 0 {
            Some(1)
        } else if b.len() < need {
            None
        } else if conts_ok(b, need) {
            Some(need)
        } else {
            Some(1)
        }
    }
}

/// A key press with the modifier bits `mods`.
pub open spec fn key_ev(code: KeyCode, mods: u8) -> Event {
    Event::Key(
        KeyEvent {
            code,
            kind: KeyEventKind::Press,
            modifiers: Modifiers { bits: mods },
            state: KeyEventState { bits: 0 },
        },
    )
}

/// The key of a single byte below 0x80, with its modifier bits: named
/// control keys, Control with a letter or digit, and printable characters.
pub open spec fn byte_key(c: u8) -> Option<(KeyCode, u8)> {
    if c == ESC {
        Some((KeyCode::Escape, 0))
    } else if c == 0x0D || c == 0x0A {
        Some((KeyCode::Enter, 0))
    } else if c == 0x09 {
        Some((KeyCode::Tab, 0))
    } else if c == 0x7F || c == 0x08 {
        Some((KeyCode::Backspace, 0))
    } else if c == 0 {
        Some((KeyCode::Char(' '), CONTROL))
    } else if 0x01 <= c && c <= 0x1A {
        Some((KeyCode::Char((c + 0x60) as u8 as char), CONTROL))
    } else if 0x1C <= c && c <= 0x1F {
        Some((KeyCode::Char((c - 0x1C + 0x34) as u8 as char), CONTROL))
    } else if 0x20 <= c && c <= 0x7E {
        Some((KeyCode::Char(c as char), 0))
    } else {
        None
    }
}

/// The key of an SS3 sequence, by its last byte.
pub open spec fn ss3_key(c: u8) -> Option<KeyCode> {
    if c == 0x41 {
        Some(KeyCode::Up)
    } else if c == 0x42 {
        Some(KeyCode::Down)
    } else if c == 0x43 {
        Some(KeyCode::Right)
    } else if c == 0x44 {
        Some(KeyCode::Left)
    } else if c == 0x48 {
        Some(KeyCode::Home)
    } else if c == 0x46 {
        Some(KeyCode::End)
    } else if 0x50 <= c && c <= 0x53 {
        Some(KeyCode::Function((c - 0x4F) as u8))
    } else {
        None
    }
}

/// The key of a numbered control sequence ending in `~`.
pub open spec fn tilde_key(n: u32) -> Option<KeyCode> {
    if n == 1 || n == 7 {
        Some(KeyCode::Home)
    } else if n == 2 {
        Some(KeyCode::Insert)
    } else if n == 3 {
        Some(KeyCode::Delete)
    } else if n == 4 || n == 8 {
        Some(KeyCode::End)
    } else if n == 5 {
        Some(KeyCode::PageUp)
    } else if n == 6 {
        Some(KeyCode::PageDown)
    } else if 11 <= n && n <= 15 {
        Some(KeyCode::Function((n - 10) as u8))
    } else if 17 <= n && n <= 21 {
        Some(KeyCode::Function((n - 11) as u8))
    } else if 23 <= n && n <= 24 {
        Some(KeyCode::Function((n - 12) as u8))
    } else {
        None
    }
}

/// The key of a control sequence without number that ends in `f`.
pub open spec fn letter_key(f: u8) -> Option<KeyCode> {
    if f == 0x41 {
        Some(KeyCode::Up)
    } else if f == 0x42 {
        Some(KeyCode::Down)
    } else if f == 0x43 {
        Some(KeyCode::Right)
    } else if f == 0x44 {
        Some(KeyCode::Left)
    } else if f == 0x48 {
        Some(KeyCode::Home)
    } else if f == 0x46 {
        Some(KeyCode::End)
    } else if 0x50 <= f && f <= 0x53 {
        Some(KeyCode::Function((f - 0x4F) as u8))
    } else {
        None
    }
}

/// The largest value that a parameter of a control sequence keeps.
pub const PARAM_CAP: u32 = 65536;

/// The parameters read so far from the bytes of a sequence, and the one being read.
pub open spec fn params_fold(body: Seq<u8>) -> (Seq<u32>, u32)
    decreases body.len(),
{
    if body.len() == 0 {
        (Seq::empty(), 0)
    } else {
        let (ps, cur) = params_fold(body.drop_last());
        let c = body.last();
        if c == 0x3B {
            (ps.push(cur), 0)
        } else if 0x30 <= c && c <= 0x39 {
            (ps, if cur * 10 + (c - 0x30) > PARAM_CAP {
                PARAM_CAP
            } else {
                (cur * 10 + (c - 0x30)) as u32
            })
        } else {
            (ps, cur)
        }
    }
}

/// The numbers of a control sequence, split at `;`; an empty field is zero,
/// a value above the cap is the cap, other bytes are skipped.
pub open spec fn params(body: Seq<u8>) -> Seq<u32> {
    params_fold(body).0.push(params_fold(body).1)
}

/// The modifier bits of an xterm modifier parameter: one plus the sum of
/// 1 for Shift, 2 for Alt and 4 for Control.
pub open spec fn param_mods(m: u32) -> u8 {
    if m < 1 {
        0
    } else {
        let v = m - 1;
        let s: u8 = if v % 2 == 1 {
            SHIFT
        } else {
            0
        };
        let a: u8 = if (v / 2) % 2 == 1 {
            ALT
        } else {
            0
        };
        let c: u8 = if (v / 4) % 2 == 1 {
            CONTROL
        } else {
            0
        };
        s | a | c
    }
}

pub open spec fn sgr_button(b: u32) -> MouseButton {
    if b == 0 {
        MouseButton::Left
    } else if b == 1 {
        MouseButton::Middle
    } else {
        MouseButton::Right
    }
}

/// The mouse event of an SGR report with button code `cb` at one-based
/// column `x` and row `y`; `press` for a report that ends in `M`.
pub open spec fn sgr_mouse(cb: u32, x: u32, y: u32, press: bool) -> Option<Event> {
    let b = cb % 4;
    let s: u8 = if (cb / 4) % 2 == 1 {
        SHIFT
    } else {
        0
    };
    let a: u8 = if (cb / 8) % 2 == 1 {
        ALT
    } else {
        0
    };
    let c: u8 = if (cb / 16) % 2 == 1 {
        CONTROL
    } else {
        0
    };
    let kind = if (cb / 64) % 2 == 1 {
        Some(
            if b == 0 {
                MouseEventKind::ScrollUp
            } else if b == 1 {
                MouseEventKind::ScrollDown
            } else if b == 2 {
                MouseEventKind::ScrollLeft
            } else {
                MouseEventKind::ScrollRight
            },
        )
    } else if (cb / 32) % 2 == 1 {
        Some(
            if b == 3 {
                MouseEventKind::Moved
            } else {
                MouseEventKind::Drag(sgr_button(b))
            },
        )
    } else if b == 3 {
        None
    } else if press {
        Some(MouseEventKind::Down(sgr_button(b)))
    } else {
        Some(MouseEventKind::Up(sgr_button(b)))
    };
    if x == 0 || y == 0 || x > PARAM_CAP || y > PARAM_CAP {
        None
    } else {
        match kind {
            Some(k) => Some(
                Event::Mouse(
                    MouseEvent {
                        kind: k,
                        column: (x - 1) as u16,
                        row: (y - 1) as u16,
                        modifiers: Modifiers { bits: s | a | c },
                    },
                ),
            ),
            None => None,
        }
    }
}

/// The event of a whole control sequence `u`: ESC, `[`, parameters, final byte.
pub open spec fn csi_event(u: Seq<u8>) -> Option<Event> {
    let body = u.subrange(2, u.len() - 1);
    let f = u.last();
    let p = params(body);
    let mods = if p.len() >= 2 {
        param_mods(p[1])
    } else {
        0
    };
    if body.len() > 0 && body[0] == 0x3C {
        if (f == 0x4D || f == 0x6D) && p.len() == 3 {
            sgr_mouse(p[0], p[1], p[2], f == 0x4D)
        } else {
            None
        }
    } else if f == 0x49 && body.len() == 0 {
        Some(Event::FocusIn)
    } else if f == 0x4F && body.len() == 0 {
        Some(Event::FocusOut)
    } else if f == 0x5A {
        Some(key_ev(KeyCode::BackTab, SHIFT))
    } else if f == 0x52 && p.len() == 2 && 1 <= p[0] <= PARAM_CAP && 1 <= p[1] <= PARAM_CAP {
        Some(Event::CursorPosition { column: (p[1] - 1) as u16, row: (p[0] - 1) as u16 })
    } else if f == 0x7E {
        match tilde_key(p[0]) {
            Some(k) => Some(key_ev(k, mods)),
            None => None,
        }
    } else {
        match letter_key(f) {
            Some(k) => Some(key_ev(k, mods)),
            None => None,
        }
    }
}

/// The code point of a UTF-8 sequence `u` of two to four bytes, and the least
/// code point that a sequence of its length may hold.
pub open spec fn utf8_value(u: Seq<u8>) -> (int, int) {
    if u.len() == 2 {
        ((u[0] - 0xC0) * 64 + (u[1] - 0x80), 0x80)
    } else if u.len() == 3 {
        ((u[0] - 0xE0) * 4096 + (u[1] - 0x80) * 64 + (u[2] - 0x80), 0x800)
    } else {
        ((u[0] - 0xF0) * 262144 + (u[1] - 0x80) * 4096 + (u[2] - 0x80) * 64 + (u[3] - 0x80), 0x10000)
    }
}

/// The event of a complete unit of input.
pub open spec fn unit_event(u: Seq<u8>) -> Option<Event> {
    if u.len() == 1 {
        match byte_key(u[0]) {
            Some((k, m)) => Some(key_ev(k, m)),
            None => None,
        }
    } else if u[0] == ESC && u[1] == 0x5B {
        csi_event(u)
    } else if u[0] == ESC && u[1] == 0x4F {
        match ss3_key(u[2]) {
            Some(k) => Some(key_ev(k, 0)),
            None => None,
        }
    } else if u[0] == ESC {
        match byte_key(u[1]) {
            Some((k, m)) => Some(key_ev(k, m | ALT)),
            None => None,
        }
    } else {
        let (v, least) = utf8_value(u);
        if v >= least && v <= 0x10FFFF && is_scalar(v as u32) {
            Some(key_ev(KeyCode::Char(v as u32 as char), 0))
        } else {
            None
        }
    }
}

/// What a unit of input decodes to: an event, or the bytes of a bracketed paste.
pub enum Decoded {
    Plain(Event),
    Paste(Seq<u8>),
}

/// What a complete unit of input decodes to.
pub open spec fn unit_decoded(u: Seq<u8>) -> Option<Decoded> {
    if u.len() >= 12 && is_paste_start(u) {
        Some(Decoded::Paste(u.subrange(6, u.len() - 6)))
    } else {
        match unit_event(u) {
            Some(e) => Some(Decoded::Plain(e)),
            None => None,
        }
    }
}

/// The text of a paste: its bytes read as UTF-8, each invalid sequence replaced.
pub uninterp spec fn utf8_lossy(b: Seq<u8>) -> Seq<char>;

/// Relies on String::from_utf8_lossy: the text of `b`, each invalid UTF-8
/// sequence replaced by U+FFFD; the result depends on the bytes alone.
#[verifier::external_body]
fn string_from_utf8_lossy(b: &[u8]) -> (r: String)
    ensures
        r@ == utf8_lossy(b@),
{
    String::from_utf8_lossy(b).into_owned()
}

/// Whether `e` is the event of `d`.
pub open spec fn decoded_matches(e: Event, d: Decoded) -> bool {
    match d {
        Decoded::Plain(x) => e == x,
        Decoded::Paste(b) => e matches Event::Paste(s) && s@ == utf8_lossy(b),
    }
}

/// Whether the events `es` are those of `ds`, one for one and in order.
pub open spec fn events_match(es: Seq<Event>, ds: Seq<Decoded>) -> bool {
    &&& es.len() == ds.len()
    &&& forall|i: int| 0 <= i < es.len() ==> decoded_matches(#[trigger] es[i], ds[i])
}

pub open spec fn prepend_opt(e: Option<Decoded>, es: Seq<Decoded>) -> Seq<Decoded> {
    match e {
        Some(e) => seq![e] + es,
        None => es,
    }
}

/// The events of the complete units at the front of `b`, and the bytes
/// after them that wait for more input.
pub open spec fn parse_all(b: Seq<u8>) -> (Seq<Decoded>, Seq<u8>)
    decreases b.len(),
{
    match unit_len(b) {
        Some(n) => if 0 < n <= b.len() {
            let (es, rest) = parse_all(b.skip(n));
            (prepend_opt(unit_decoded(b.take(n)), es), rest)
        } else {
            (Seq::empty(), b)
        },
        None => (Seq::empty(), b),
    }
}

proof fn lemma_csi_end_bounds(b: Seq<u8>, i: int)
    ensures
        csi_end(b, i) matches Some(k) ==> 0 <= i <= k < b.len() && is_final(b[k]),
    decreases b.len() - i,
{
    if 0 <= i < b.len() && !is_final(b[i]) {
        lemma_csi_end_bounds(b, i + 1);
    }
}

proof fn lemma_csi_end_extend(x: Seq<u8>, y: Seq<u8>, i: int)
    requires
        csi_end(x, i) is Some,
    ensures
        csi_end(x + y, i) == csi_end(x, i),
    decreases x.len() - i,
{
    assert((x + y)[i] == x[i]);
    if !is_final(x[i]) {
        lemma_csi_end_extend(x, y, i + 1);
    }
}

proof fn lemma_paste_end_bounds(b: Seq<u8>, i: int)
    ensures
        paste_end(b, i) matches Some(m) ==> 0 <= i <= m && m + 6 <= b.len() && is_paste_end_at(b, m),
    decreases b.len() - i,
{
    if 0 <= i && i + 6 <= b.len() && !is_paste_end_at(b, i) {
        lemma_paste_end_bounds(b, i + 1);
    }
}

proof fn lemma_paste_end_extend(x: Seq<u8>, y: Seq<u8>, i: int)
    requires
        paste_end(x, i) is Some,
    ensures
        paste_end(x + y, i) == paste_end(x, i),
    decreases x.len() - i,
{
    let xy = x + y;
    assert(xy[i] == x[i] && xy[i + 1] == x[i + 1] && xy[i + 2] == x[i + 2]);
    assert(xy[i + 3] == x[i + 3] && xy[i + 4] == x[i + 4] && xy[i + 5] == x[i + 5]);
    if !is_paste_end_at(x, i) {
        lemma_paste_end_extend(x, y, i + 1);
    }
}

proof fn lemma_unit_len_bounds(b: Seq<u8>)
    ensures
        unit_len(b) matches Some(n) ==> 0 < n <= b.len(),
{
    lemma_csi_end_bounds(b, 2);
    lemma_paste_end_bounds(b, 6);
}

/// A unit that is complete stays the same unit whatever bytes follow.
proof fn lemma_unit_len_extend(x: Seq<u8>, y: Seq<u8>)
    requires
        unit_len(x) is Some,
    ensures
        unit_len(x + y) == unit_len(x),
{
    let xy = x + y;
    assert(xy[0] == x[0]);
    if x.len() > 1 {
        assert(xy[1] == x[1]);
    }
    if x[0] == ESC && x.len() > 1 && x[1] == 0x5B {
        lemma_csi_end_extend(x, y, 2);
        lemma_csi_end_bounds(x, 2);
        if csi_end(x, 2) == Some(5int) {
            assert(xy[2] == x[2] && xy[3] == x[3] && xy[4] == x[4] && xy[5] == x[5]);
            if is_paste_start(x) {
                lemma_paste_end_extend(x, y, 6);
            }
        }
    }
    if x[0] >= 0x80 && utf8_len(x[0]) != 0 && x.len() >= utf8_len(x[0]) {
        let need = utf8_len(x[0]);
        if conts_ok(x, need) {
            assert forall|i: int| 1 <= i < need implies is_cont(#[trigger] xy[i]) by {
                assert(xy[i] == x[i]);
                assert(is_cont(x[i]));
            }
        } else {
            let i = choose|i: int| 1 <= i < need && !is_cont(#[trigger] x[i]);
            assert(xy[i] == x[i]);
        }
    }
}

/// Decoding the bytes `x` and then, with what `x` left waiting, the bytes `y`
/// gives the same events and leaves the same bytes waiting as decoding `x`
/// and `y` together: how input is split across reads does not matter.
pub proof fn lemma_parse_chunks(x: Seq<u8>, y: Seq<u8>)
    ensures
        parse_all(x + y) == ({
            let (e1, rest) = parse_all(x);
            let (e2, rest2) = parse_all(rest + y);
            (e1 + e2, rest2)
        }),
    decreases x.len(),
{
    let (e1, rest) = parse_all(x);
    lemma_unit_len_bounds(x);
    match unit_len(x) {
        Some(n) => {
            lemma_unit_len_extend(x, y);
            let xy = x + y;
            assert(xy.take(n) =~= x.take(n));
            assert(xy.skip(n) =~= x.skip(n) + y);
            lemma_parse_chunks(x.skip(n), y);
            let (a, r) = parse_all(x.skip(n));
            let (b, r2) = parse_all(r + y);
            assert(prepend_opt(unit_decoded(x.take(n)), a + b) =~= prepend_opt(unit_decoded(x.take(n)), a) + b);
        },
        None => {
            assert(Seq::<Decoded>::empty() + parse_all(x + y).0 =~= parse_all(x + y).0);
        },
    }
}

fn key_of(code: KeyCode, mods: u8) -> (r: Event)
    ensures
        r == key_ev(code, mods),
{
    Event::Key(
        KeyEvent {
            code,
            kind: KeyEventKind::Press,
            modifiers: Modifiers::from_bits(mods),
            state: KeyEventState::empty(),
        },
    )
}

fn byte_key_of(c: u8) -> (r: Option<(KeyCode, u8)>)
    ensures
        r == byte_key(c),
{
    if c == ESC {
        Some((KeyCode::Escape, 0))
    } else if c == 0x0D || c == 0x0A {
        Some((KeyCode::Enter, 0))
    } else if c == 0x09 {
        Some((KeyCode::Tab, 0))
    } else if c == 0x7F || c == 0x08 {
        Some((KeyCode::Backspace, 0))
    } else if c == 0 {
        Some((KeyCode::Char(' '), CONTROL))
    } else if 0x01 <= c && c <= 0x1A {
        Some((KeyCode::Char((c + 0x60) as char), CONTROL))
    } else if 0x1C <= c && c <= 0x1F {
        Some((KeyCode::Char((c - 0x1C + 0x34) as char), CONTROL))
    } else if 0x20 <= c && c <= 0x7E {
        Some((KeyCode::Char(c as char), 0))
    } else {
        None
    }
}

fn ss3_key_of(c: u8) -> (r: Option<KeyCode>)
    ensures
        r == ss3_key(c),
{
    if c == 0x41 {
        Some(KeyCode::Up)
    } else if c == 0x42 {
        Some(KeyCode::Down)
    } else if c == 0x43 {
        Some(KeyCode::Right)
    } else if c == 0x44 {
        Some(KeyCode::Left)
    } else if c == 0x48 {
        Some(KeyCode::Home)
    } else if c == 0x46 {
        Some(KeyCode::End)
    } else if 0x50 <= c && c <= 0x53 {
        Some(KeyCode::Function(c - 0x4F))
    } else {
        None
    }
}

fn tilde_key_of(n: u32) -> (r: Option<KeyCode>)
    ensures
        r == tilde_key(n),
{
    if n == 1 || n == 7 {
        Some(KeyCode::Home)
    } else if n == 2 {
        Some(KeyCode::Insert)
    } else if n == 3 {
        Some(KeyCode::Delete)
    } else if n == 4 || n == 8 {
        Some(KeyCode::End)
    } else if n == 5 {
        Some(KeyCode::PageUp)
    } else if n == 6 {
        Some(KeyCode::PageDown)
    } else if 11 <= n && n <= 15 {
        Some(KeyCode::Function((n - 10) as u8))
    } else if 17 <= n && n <= 21 {
        Some(KeyCode::Function((n - 11) as u8))
    } else if 23 <= n && n <= 24 {
        Some(KeyCode::Function((n - 12) as u8))
    } else {
        None
    }
}

fn letter_key_of(f: u8) -> (r: Option<KeyCode>)
    ensures
        r == letter_key(f),
{
    if f == 0x41 {
        Some(KeyCode::Up)
    } else if f == 0x42 {
        Some(KeyCode::Down)
    } else if f == 0x43 {
        Some(KeyCode::Right)
    } else if f == 0x44 {
        Some(KeyCode::Left)
    } else if f == 0x48 {
        Some(KeyCode::Home)
    } else if f == 0x46 {
        Some(KeyCode::End)
    } else if 0x50 <= f && f <= 0x53 {
        Some(KeyCode::Function(f - 0x4F))
    } else {
        None
    }
}

fn param_mods_of(m: u32) -> (r: u8)
    ensures
        r == param_mods(m),
{
    if m < 1 {
        0
    } else {
        let v = m - 1;
        let s: u8 = if v % 2 == 1 {
            SHIFT
        } else {
            0
        };
        let a: u8 = if (v / 2) % 2 == 1 {
            ALT
        } else {
            0
        };
        let c: u8 = if (v / 4) % 2 == 1 {
            CONTROL
        } else {
            0
        };
        s | a | c
    }
}

fn sgr_button_of(b: u32) -> (r: MouseButton)
    ensures
        r == sgr_button(b),
{
    if b == 0 {
        MouseButton::Left
    } else if b == 1 {
        MouseButton::Middle
    } else {
        MouseButton::Right
    }
}

fn sgr_mouse_of(cb: u32, x: u32, y: u32, press: bool) -> (r: Option<Event>)
    ensures
        r == sgr_mouse(cb, x, y, press),
{
    let b = cb % 4;
    let s: u8 = if (cb / 4) % 2 == 1 {
        SHIFT
    } else {
        0
    };
    let a: u8 = if (cb / 8) % 2 == 1 {
        ALT
    } else {
        0
    };
    let c: u8 = if (cb / 16) % 2 == 1 {
        CONTROL
    } else {
        0
    };
    let kind = if (cb / 64) % 2 == 1 {
        Some(
            if b == 0 {
                MouseEventKind::ScrollUp
            } else if b == 1 {
                MouseEventKind::ScrollDown
            } else if b == 2 {
                MouseEventKind::ScrollLeft
            } else {
                MouseEventKind::ScrollRight
            },
        )
    } else if (cb / 32) % 2 == 1 {
        Some(
            if b == 3 {
                MouseEventKind::Moved
            } else {
                MouseEventKind::Drag(sgr_button_of(b))
            },
        )
    } else if b == 3 {
        None
    } else if press {
        Some(MouseEventKind::Down(sgr_button_of(b)))
    } else {
        Some(MouseEventKind::Up(sgr_button_of(b)))
    };
    if x == 0 || y == 0 || x > PARAM_CAP || y > PARAM_CAP {
        None
    } else {
        match kind {
            Some(k) => Some(
                Event::Mouse(
                    MouseEvent {
                        kind: k,
                        column: (x - 1) as u16,
                        row: (y - 1) as u16,
                        modifiers: Modifiers::from_bits(s | a | c),
                    },
                ),
            ),
            None => None,
        }
    }
}

/// The parameters of the control sequence `u`, read from its third byte up
/// to the one before the last.
fn params_of(u: &Vec<u8>) -> (r: Vec<u32>)
    requires
        u.len() >= 3,
    ensures
        r@ == params(u@.subrange(2, u.len() - 1)),
{
    let mut ps: Vec<u32> = Vec::new();
    let mut cur: u32 = 0;
    let end = u.len() - 1;
    let mut i: usize = 2;
    while i < end
        invariant
            2 <= i <= end,
            end == u.len() - 1,
            (ps@, cur) == params_fold(u@.subrange(2, i as int)),
            cur <= PARAM_CAP,
        decreases end - i,
    {
        proof {
            assert(u@.subrange(2, i + 1).drop_last() =~= u@.subrange(2, i as int));
            assert(u@.subrange(2, i + 1).last() == u@[i as int]);
        }
        let c = u[i];
        if c == 0x3B {
            ps.push(cur);
            cur = 0;
        } else if 0x30 <= c && c <= 0x39 {
            let next: u64 = cur as u64 * 10 + (c - 0x30) as u64;
            cur = if next > PARAM_CAP as u64 {
                PARAM_CAP
            } else {
                next as u32
            };
        }
        i = i + 1;
    }
    ps.push(cur);
    ps
}

/// The event of a whole control sequence.
fn csi_event_of(u: &Vec<u8>) -> (r: Option<Event>)
    requires
        u.len() >= 3,
    ensures
        r == csi_event(u@),
{
    let ghost body = u@.subrange(2, u.len() - 1);
    let f = u[u.len() - 1];
    let p = params_of(u);
    let mods = if p.len() >= 2 {
        param_mods_of(p[1])
    } else {
        0
    };
    let body_len = u.len() - 3;
    if body_len > 0 && u[2] == 0x3C {
        if (f == 0x4D || f == 0x6D) && p.len() == 3 {
            sgr_mouse_of(p[0], p[1], p[2], f == 0x4D)
        } else {
            None
        }
    } else if f == 0x49 && body_len == 0 {
        Some(Event::FocusIn)
    } else if f == 0x4F && body_len == 0 {
        Some(Event::FocusOut)
    } else if f == 0x5A {
        Some(key_of(KeyCode::BackTab, SHIFT))
    } else if f == 0x52 && p.len() == 2 && 1 <= p[0] && p[0] <= PARAM_CAP && 1 <= p[1] && p[1]
        <= PARAM_CAP {
        Some(Event::CursorPosition { column: (p[1] - 1) as u16, row: (p[0] - 1) as u16 })
    } else if f == 0x7E {
        match tilde_key_of(p[0]) {
            Some(k) => Some(key_of(k, mods)),
            None => None,
        }
    } else {
        match letter_key_of(f) {
            Some(k) => Some(key_of(k, mods)),
            None => None,
        }
    }
}

/// What holds of the bytes of a complete unit.
pub open spec fn unit_shape(u: Seq<u8>) -> bool {
    &&& u.len() >= 1
    &&& is_paste_start(u) ==> u.len() >= 12
    &&& u[0] == ESC && u.len() >= 2 && u[1] == 0x5B ==> u.len() >= 3
    &&& u[0] == ESC && u.len() >= 2 && u[1] == 0x4F ==> u.len() == 3
    &&& u[0] == ESC && u.len() >= 2 ==> u.len() == 2 || u[1] == 0x5B || u[1] == 0x4F
    &&& u[0] != ESC && u.len() >= 2 ==> utf8_len(u[0]) == u.len() && conts_ok(u, u.len() as int)
}

proof fn lemma_unit_shape(b: Seq<u8>)
    requires
        unit_len(b) is Some,
    ensures
        unit_shape(b.take(unit_len(b)->0)),
{
    lemma_unit_len_bounds(b);
    lemma_csi_end_bounds(b, 2);
    lemma_paste_end_bounds(b, 6);
    let n = unit_len(b)->0;
    let u = b.take(n);
    assert(u[0] == b[0]);
    if n >= 2 {
        assert(u[1] == b[1]);
    }
    if n >= 6 {
        assert(u[2] == b[2] && u[3] == b[3] && u[4] == b[4] && u[5] == b[5]);
        if is_paste_start(u) {
            assert(csi_end(b, 5) == Some(5int));
            assert(csi_end(b, 4) == Some(5int));
            assert(csi_end(b, 3) == Some(5int));
            assert(csi_end(b, 2) == Some(5int));
        }
    }
    if b[0] != ESC && n >= 2 {
        assert forall|i: int| 1 <= i < n implies is_cont(#[trigger] u[i]) by {
            assert(u[i] == b[i]);
        }
    }
}

fn utf8_event_of(u: &Vec<u8>) -> (r: Option<Event>)
    requires
        2 <= u.len() <= 4,
        u[0] != ESC,
        utf8_len(u[0]) == u.len(),
        conts_ok(u@, u.len() as int),
    ensures
        r == unit_event(u@),
{
    proof {
        assert(is_cont(u@[1]));
        if u.len() >= 3 {
            assert(is_cont(u@[2]));
        }
        if u.len() >= 4 {
            assert(is_cont(u@[3]));
        }
    }
    let (v, least): (u32, u32) = if u.len() == 2 {
        ((u[0] - 0xC0) as u32 * 64 + (u[1] - 0x80) as u32, 0x80)
    } else if u.len() == 3 {
        ((u[0] - 0xE0) as u32 * 4096 + (u[1] - 0x80) as u32 * 64 + (u[2] - 0x80) as u32, 0x800)
    } else {
        (
            (u[0] - 0xF0) as u32 * 262144 + (u[1] - 0x80) as u32 * 4096 + (u[2] - 0x80) as u32 * 64
                + (u[3] - 0x80) as u32,
            0x10000,
        )
    };
    if v >= least && v <= 0x10FFFF {
        match char_from_u32(v) {
            Some(c) => Some(key_of(KeyCode::Char(c), 0)),
            None => None,
        }
    } else {
        None
    }
}

/// The event of a complete unit of input.
fn unit_event_of(u: &Vec<u8>) -> (r: Option<Event>)
    requires
        unit_shape(u@),
    ensures
        r == unit_event(u@),
{
    if u.len() == 1 {
        match byte_key_of(u[0]) {
            Some((k, m)) => Some(key_of(k, m)),
            None => None,
        }
    } else if u[0] == ESC && u[1] == 0x5B {
        csi_event_of(u)
    } else if u[0] == ESC && u[1] == 0x4F {
        match ss3_key_of(u[2]) {
            Some(k) => Some(key_of(k, 0)),
            None => None,
        }
    } else if u[0] == ESC {
        match byte_key_of(u[1]) {
            Some((k, m)) => Some(key_of(k, m | ALT)),
            None => None,
        }
    } else {
        utf8_event_of(u)
    }
}

/// What a complete unit of input decodes to, as an event.
fn unit_decoded_of(u: &Vec<u8>) -> (r: Option<Event>)
    requires
        unit_shape(u@),
    ensures
        r matches Some(e) ==> unit_decoded(u@) matches Some(d) && decoded_matches(e, d),
        r is None ==> unit_decoded(u@) is None,
{
    if u.len() >= 12 && u[0] == ESC && u[1] == 0x5B && u[2] == 0x32 && u[3] == 0x30 && u[4] == 0x30
        && u[5] == 0x7E {
        let body = copy_range(u, 6, u.len() - 6);
        Some(Event::Paste(string_from_utf8_lossy(body.as_slice())))
    } else {
        unit_event_of(u)
    }
}

/// Where the marker that closes a paste first stands at or after `i`, in the
/// bytes from `start` on; counted from `start`.
fn paste_end_at(buf: &Vec<u8>, start: usize, i: usize) -> (r: Option<usize>)
    requires
        start <= buf.len(),
    ensures
        r matches Some(m) ==> paste_end(buf@.skip(start as int), i as int) == Some(m as int),
        r is None ==> paste_end(buf@.skip(start as int), i as int) is None,
{
    let ghost b = buf@.skip(start as int);
    let avail = buf.len() - start;
    let mut j: usize = i;
    while j < avail && avail - j >= 6
        invariant
            start <= buf.len(),
            avail == buf.len() - start,
            i <= j,
            b == buf@.skip(start as int),
            paste_end(b, i as int) == paste_end(b, j as int),
        decreases avail - j,
    {
        let k = start + j;
        proof {
            assert(b[j as int] == buf@[k as int] && b[j + 1] == buf@[k + 1] && b[j + 2] == buf@[k + 2]);
            assert(b[j + 3] == buf@[k + 3] && b[j + 4] == buf@[k + 4] && b[j + 5] == buf@[k + 5]);
        }
        if buf[k] == ESC && buf[k + 1] == 0x5B && buf[k + 2] == 0x32 && buf[k + 3] == 0x30 && buf[k
            + 4] == 0x31 && buf[k + 5] == 0x7E {
            return Some(j);
        }
        j = j + 1;
    }
    None
}

/// Where the control sequence that starts at `start` ends, counted from `start`.
fn csi_end_at(buf: &Vec<u8>, start: usize) -> (r: Option<usize>)
    requires
        start <= buf.len(),
    ensures
        r matches Some(k) ==> csi_end(buf@.skip(start as int), 2) == Some(k as int),
        r is None ==> csi_end(buf@.skip(start as int), 2) is None,
{
    let ghost b = buf@.skip(start as int);
    let mut i: usize = 2;
    while i < buf.len() - start
        invariant
            start <= buf.len(),
            2 <= i,
            b == buf@.skip(start as int),
            csi_end(b, 2) == csi_end(b, i as int),
        decreases buf.len() - start - i,
    {
        let c = buf[start + i];
        proof {
            assert(b[i as int] == c);
        }
        if 0x40 <= c && c <= 0x7E {
            return Some(i);
        }
        i = i + 1;
    }
    None
}

/// The length of the unit that starts at `start`; `None` where more bytes are needed.
fn unit_len_at(buf: &Vec<u8>, start: usize) -> (r: Option<usize>)
    requires
        start < buf.len(),
    ensures
        r is None <==> unit_len(buf@.skip(start as int)) is None,
        r matches Some(n) ==> unit_len(buf@.skip(start as int)) == Some(n as int),
{
    let ghost b = buf@.skip(start as int);
    let avail = buf.len() - start;
    let c = buf[start];
    proof {
        assert(b[0] == c);
        if avail > 1 {
            assert(b[1] == buf@[start + 1]);
        }
    }
    if c == ESC {
        if avail == 1 {
            None
        } else if buf[start + 1] == 0x5B {
            match csi_end_at(buf, start) {
                Some(k) => {
                    proof {
                        lemma_csi_end_bounds(b, 2);
                        if k == 5 {
                            assert(b[2] == buf@[start + 2] && b[3] == buf@[start + 3]);
                            assert(b[4] == buf@[start + 4] && b[5] == buf@[start + 5]);
                        }
                    }
                    if k == 5 && buf[start + 2] == 0x32 && buf[start + 3] == 0x30 && buf[start + 4]
                        == 0x30 && buf[start + 5] == 0x7E {
                        match paste_end_at(buf, start, 6) {
                            Some(m) => {
                                proof {
                                    lemma_paste_end_bounds(b, 6);
                                }
                                Some(m + 6)
                            },
                            None => None,
                        }
                    } else {
                        Some(k + 1)
                    }
                },
                None => None,
            }
        } else if buf[start + 1] == 0x4F {
            if avail < 3 {
                None
            } else {
                Some(3)
            }
        } else if buf[start + 1] < 0x80 && buf[start + 1] != ESC {
            Some(2)
        } else {
            Some(1)
        }
    } else if c < 0x80 {
        Some(1)
    } else {
        let need: usize = if 0xC2 <= c && c <= 0xDF {
            2
        } else if 0xE0 <= c && c <= 0xEF {
            3
        } else if 0xF0 <= c && c <= 0xF4 {
            4
        } else {
            0
        };
        if need == 0 {
            Some(1)
        } else if avail < need {
            None
        } else {
            let mut i: usize = 1;
            let mut ok = true;
            while i < need
                invariant
                    1 <= i <= need,
                    need <= avail,
                    avail == buf.len() - start,
                    b == buf@.skip(start as int),
                    ok == (forall|j: int| 1 <= j < i ==> is_cont(#[trigger] b[j])),
                decreases need - i,
            {
                let d = buf[start + i];
                proof {
                    assert(b[i as int] == d);
                }
                if !(0x80 <= d && d < 0xC0) {
                    ok = false;
                }
                i = i + 1;
            }
            if ok {
                Some(need)
            } else {
                Some(1)
            }
        }
    }
}

/// The bytes of `buf` from `start` up to `end`.
fn copy_range(buf: &Vec<u8>, start: usize, end: usize) -> (r: Vec<u8>)
    requires
        start <= end <= buf.len(),
    ensures
        r@ == buf@.subrange(start as int, end as int),
{
    let mut out: Vec<u8> = Vec::new();
    let mut i: usize = start;
    while i < end
        invariant
            start <= i <= end,
            end <= buf.len(),
            out@ == buf@.subrange(start as int, i as int),
        decreases end - i,
    {
        out.push(buf[i]);
        proof {
            assert(out@ =~= buf@.subrange(start as int, i + 1));
        }
        i = i + 1;
    }
    out
}

/// Turns a stream of terminal bytes into events. Bytes that may begin a
/// longer unit wait for the next call.
pub struct VtDecoder {
    pending: Vec<u8>,
}

impl View for VtDecoder {
    type V = Seq<u8>;

    /// The bytes that wait for more input.
    closed spec fn view(&self) -> Seq<u8> {
        self.pending@
    }
}

impl VtDecoder {
    /// A decoder with nothing waiting.
    pub fn new() -> (r: VtDecoder)
        ensures
            r@ == Seq::<u8>::empty(),
    {
        VtDecoder { pending: Vec::new() }
    }

    /// The bytes that wait for more input.
    pub fn pending(&self) -> (r: &Vec<u8>)
        ensures
            r@ == self@,
    {
        &self.pending
    }

    /// Decodes `bytes` after the bytes that were waiting: returns the events
    /// of every complete unit, in order, and keeps the rest waiting.
    /// Unknown sequences and invalid bytes give no event.
    pub fn decode(&mut self, bytes: &[u8]) -> (r: Vec<Event>)
        ensures
            events_match(r@, parse_all(old(self)@ + bytes@).0),
            final(self)@ == parse_all(old(self)@ + bytes@).1,
    {
        let mut buf = copy_range(&self.pending, 0, self.pending.len());
        let mut j: usize = 0;
        while j < bytes.len()
            invariant
                0 <= j <= bytes.len(),
                buf@ == old(self)@ + bytes@.take(j as int),
            decreases bytes.len() - j,
        {
            buf.push(bytes[j]);
            proof {
                assert(buf@ =~= old(self)@ + bytes@.take(j + 1));
            }
            j = j + 1;
        }
        proof {
            assert(bytes@.take(bytes.len() as int) =~= bytes@);
            assert(buf@.skip(0) =~= buf@);
        }
        let ghost all = buf@;
        let ghost mut done: Seq<Decoded> = Seq::empty();
        let mut out: Vec<Event> = Vec::new();
        let mut pos: usize = 0;
        loop
            invariant
                pos <= buf.len(),
                buf@ == all,
                parse_all(all) == (done + parse_all(all.skip(pos as int)).0, parse_all(
                    all.skip(pos as int),
                ).1),
                events_match(out@, done),
            ensures
                pos <= buf.len(),
                buf@ == all,
                parse_all(all) == (done + parse_all(all.skip(pos as int)).0, parse_all(
                    all.skip(pos as int),
                ).1),
                events_match(out@, done),
                pos == buf.len() || unit_len(all.skip(pos as int)) is None,
            decreases buf.len() - pos,
        {
            let ghost b = all.skip(pos as int);
            if pos == buf.len() {
                proof {
                    assert(b =~= Seq::<u8>::empty());
                }
                break;
            }
            match unit_len_at(&buf, pos) {
                Some(n) => {
                    proof {
                        lemma_unit_len_bounds(b);
                        lemma_unit_shape(b);
                        assert(b.take(n as int) =~= all.subrange(pos as int, pos + n));
                        assert(b.skip(n as int) =~= all.skip(pos + n));
                    }
                    let u = copy_range(&buf, pos, pos + n);
                    let e = unit_decoded_of(&u);
                    let ghost tail = parse_all(all.skip(pos + n)).0;
                    match e {
                        Some(ev) => {
                            let ghost d = unit_decoded(u@)->0;
                            let ghost before = out@;
                            let ghost done_before = done;
                            proof {
                                assert(done + (seq![d] + tail) =~= done.push(d) + tail);
                                done = done.push(d);
                            }
                            out.push(ev);
                            proof {
                                assert forall|i: int| 0 <= i < out@.len() implies decoded_matches(
                                    #[trigger] out@[i],
                                    done[i],
                                ) by {
                                    if i < before.len() {
                                        assert(out@[i] == before[i]);
                                        assert(done[i] == done_before[i]);
                                    }
                                }
                            }
                        },
                        None => {},
                    }
                    pos = pos + n;
                },
                None => {
                    break;
                },
            }
        }
        let rest = copy_range(&buf, pos, buf.len());
        proof {
            let b = all.skip(pos as int);
            assert(rest@ =~= b);
            if pos < buf.len() {
                assert(unit_len(b) is None);
                assert(parse_all(b) == (Seq::<Decoded>::empty(), b));
                assert(done + Seq::<Decoded>::empty() =~= done);
            } else {
                assert(b =~= Seq::<u8>::empty());
                assert(done + Seq::<Decoded>::empty() =~= done);
            }
        }
        self.pending = rest;
        out
    }

    /// Takes a lone ESC that waited out its grace period as the Escape key.
    /// Anything else that waits stays.
    pub fn flush_escape(&mut self) -> (r: Option<Event>)
        ensures
            old(self)@ == seq![ESC] ==> r == Some(key_ev(KeyCode::Escape, 0)) && final(self)@
                == Seq::<u8>::empty(),
            old(self)@ != seq![ESC] ==> r is None && final(self)@ == old(self)@,
    {
        if self.pending.len() == 1 && self.pending[0] == ESC {
            self.pending = Vec::new();
            proof {
                assert(old(self)@ =~= seq![ESC]);
            }
            Some(key_of(KeyCode::Escape, 0))
        } else {
            proof {
                if old(self)@ == seq![ESC] {
                    assert(old(self)@[0] == ESC);
                }
            }
            None
        }
    }
}

/// Decoding a byte stream in two calls gives the events of decoding it in
/// one call, in the same order, and leaves the same bytes waiting.
pub proof fn lemma_decode_split(pending: Seq<u8>, a: Seq<u8>, b: Seq<u8>)
    ensures
        ({
            let (e1, rest1) = parse_all(pending + a);
            let (e2, rest2) = parse_all(rest1 + b);
            (e1 + e2, rest2)
        }) == parse_all(pending + (a + b)),
{
    assert(pending + (a + b) =~= (pending + a) + b);
    lemma_parse_chunks(pending + a, b);
}

} // verus!
