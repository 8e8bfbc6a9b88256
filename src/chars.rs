use vstd::prelude::*;

verus! {

/// Whether `v` is a Unicode scalar value, that is a code point that is no surrogate.
pub open spec fn is_scalar(v: u32) -> bool {
    v < 0xD800 || (0xE000 <= v && v <= 0x10FFFF)
}

pub open spec fn is_surrogate(u: u16) -> bool {
    0xD800 <= u && u <= 0xDFFF
}

pub open spec fn is_high_surrogate(u: u16) -> bool {
    0xD800 <= u && u <= 0xDBFF
}

pub open spec fn is_low_surrogate(u: u16) -> bool {
    0xDC00 <= u && u <= 0xDFFF
}

/// The code point that a high and a low surrogate encode together.
pub open spec fn pair_value(high: u16, low: u16) -> u32 {
    (0x10000 + (high - 0xD800) * 0x400 + (low - 0xDC00)) as u32
}

/// The one character that a sequence of UTF-16 units encodes, if it encodes
/// exactly one and nothing else.
pub open spec fn utf16_single(units: Seq<u16>) -> Option<char> {
    if units.len() == 1 && !is_surrogate(units[0]) {
        Some(units[0] as char)
    } else if units.len() == 2 && is_high_surrogate(units[0]) && is_low_surrogate(units[1]) {
        Some(pair_value(units[0], units[1]) as char)
    } else {
        None
    }
}

/// Relies on char::from_u32: `Some` exactly for Unicode scalar values.
#[verifier::external_body]
pub(crate) fn char_from_u32(v: u32) -> (r: Option<char>)
    ensures
        r == (if is_scalar(v) {
            Some(v as char)
        } else {
            None
        }),
{
    char::from_u32(v)
}

/// The character of a UTF-16 unit that is no surrogate.
pub fn char_of_unit(unit: u16) -> (r: char)
    requires
        !is_surrogate(unit),
    ensures
        r == unit as char,
{
    match char_from_u32(unit as u32) {
        Some(c) => c,
        None => {
            proof {
                assert(false);
            }
            ' '
        },
    }
}

/// The character that a high and a low surrogate encode together.
pub fn char_of_pair(high: u16, low: u16) -> (r: char)
    requires
        is_high_surrogate(high),
        is_low_surrogate(low),
    ensures
        r == pair_value(high, low) as char,
{
    let v: u32 = 0x10000 + ((high - 0xD800) as u32) * 0x400 + ((low - 0xDC00) as u32);
    match char_from_u32(v) {
        Some(c) => c,
        None => {
            proof {
                assert(false);
            }
            ' '
        },
    }
}

/// The one character that `units` encodes, or `None` where they encode none,
/// more than one, or are not valid UTF-16.
pub fn single_char_of_utf16(units: &Vec<u16>) -> (r: Option<char>)
    ensures
        r == utf16_single(units@),
{
    if units.len() == 1 && !(0xD800 <= units[0] && units[0] <= 0xDFFF) {
        Some(char_of_unit(units[0]))
    } else if units.len() == 2 && 0xD800 <= units[0] && units[0] <= 0xDBFF && 0xDC00 <= units[1]
        && units[1] <= 0xDFFF {
        Some(char_of_pair(units[0], units[1]))
    } else {
        None
    }
}

/// Whether a character has the Unicode Uppercase property.
pub uninterp spec fn uppercase_flag(c: char) -> bool;

/// Whether a character has the Unicode Lowercase property.
pub uninterp spec fn lowercase_flag(c: char) -> bool;

/// The Unicode lowercase mapping of a character.
pub uninterp spec fn lowercase_of(c: char) -> Seq<char>;

/// The Unicode uppercase mapping of a character.
pub uninterp spec fn uppercase_of(c: char) -> Seq<char>;

/// Relies on char::is_uppercase: the Uppercase property of `c`.
#[verifier::external_body]
fn char_is_uppercase(c: char) -> (r: bool)
    ensures
        r == uppercase_flag(c),
{
    c.is_uppercase()
}

/// Relies on char::is_lowercase: the Lowercase property of `c`.
#[verifier::external_body]
fn char_is_lowercase(c: char) -> (r: bool)
    ensures
        r == lowercase_flag(c),
{
    c.is_lowercase()
}

/// Relies on char::to_lowercase: the lowercase mapping of `c`, one or more characters.
#[verifier::external_body]
fn char_to_lowercase(c: char) -> (r: Vec<char>)
    ensures
        r@ == lowercase_of(c),
        r@.len() >= 1,
{
    c.to_lowercase().collect()
}

/// Relies on char::to_uppercase: the uppercase mapping of `c`, one or more characters.
#[verifier::external_body]
fn char_to_uppercase(c: char) -> (r: Vec<char>)
    ensures
        r@ == uppercase_of(c),
        r@.len() >= 1,
{
    c.to_uppercase().collect()
}

/// The letter case that a character should be given.
#[derive(Debug, Clone, Copy, PartialEq, Eq, Structural)]
pub enum CharCase {
    LowerCase,
    UpperCase,
}

pub open spec fn single_or_spec(ch: char, mapped: Seq<char>) -> char {
    if mapped.len() == 1 {
        mapped[0]
    } else {
        ch
    }
}

/// `ch` in the case `desired`, where its case mapping is a single character;
/// else `ch` unchanged.
pub open spec fn ensure_case_spec(ch: char, desired: CharCase) -> char {
    match desired {
        CharCase::LowerCase => if uppercase_flag(ch) {
            single_or_spec(ch, lowercase_of(ch))
        } else {
            ch
        },
        CharCase::UpperCase => if lowercase_flag(ch) {
            single_or_spec(ch, uppercase_of(ch))
        } else {
            ch
        },
    }
}

/// The only character of a case mapping `mapped` of `ch`, or `ch` itself
/// where the mapping has more than one.
pub fn single_or(ch: char, mapped: &Vec<char>) -> (r: char)
    ensures
        r == single_or_spec(ch, mapped@),
{
    if mapped.len() == 1 {
        mapped[0]
    } else {
        ch
    }
}

/// Gives `ch` the case `desired` where that takes one character.
pub fn try_ensure_char_case(ch: char, desired: CharCase) -> (r: char)
    ensures
        r == ensure_case_spec(ch, desired),
{
    match desired {
        CharCase::LowerCase => {
            if char_is_uppercase(ch) {
                let lower = char_to_lowercase(ch);
                single_or(ch, &lower)
            } else {
                ch
            }
        },
        CharCase::UpperCase => {
            if char_is_lowercase(ch) {
                let upper = char_to_uppercase(ch);
                single_or(ch, &upper)
            } else {
                ch
            }
        },
    }
}

} // verus!
