//! Extraction of the 16-bit assigned number from a 128-bit UUID string.
//!
//! Bluetooth SIG base-UUID-derived UUIDs carry their identity in the first
//! eight hex characters of the textual form
//! `xxxxxxxx-xxxx-xxxx-xxxx-xxxxxxxxxxxx`; the assigned number is the second
//! group of four (characters 4 to 7). A string that does not match the
//! grammar (wrong length, wrong dash placement, a character that is not a
//! lowercase hex digit) has no short UUID: it yields `None`, never an error,
//! since malformed UUIDs from third-party peripherals are a normal
//! occurrence and must degrade to "no match".

use vstd::prelude::*;

verus! {

/// A lowercase hexadecimal digit: '0' to '9' (48..57) or 'a' to 'f' (97..102).
pub open spec fn is_lower_hex_digit(c: char) -> bool {
    ('0' as int <= c as int && c as int <= '9' as int)
    || ('a' as int <= c as int && c as int <= 'f' as int)
}

/// Numeric value of a lowercase hex digit.
pub open spec fn hex_digit_value(c: char) -> int
    recommends
        is_lower_hex_digit(c),
{
    if '0' as int <= c as int && c as int <= '9' as int {
        c as int - '0' as int
    } else {
        c as int - 'a' as int + 10
    }
}

/// The expected UUID grammar: 36 characters, dashes exactly at positions
/// 8, 13, 18 and 23, lowercase hex digits everywhere else.
pub open spec fn uuid_grammar_ok(s: Seq<char>) -> bool {
    &&& s.len() == 36
    &&& s[8] == '-'
    &&& s[13] == '-'
    &&& s[18] == '-'
    &&& s[23] == '-'
    &&& forall|j: int|
        0 <= j < 36 && j != 8 && j != 13 && j != 18 && j != 23
            ==> is_lower_hex_digit(#[trigger] s[j])
}

/// The 16-bit assigned number embedded at characters 4 to 7.
pub open spec fn assigned_number(s: Seq<char>) -> u16
    recommends
        uuid_grammar_ok(s),
{
    (hex_digit_value(s[4]) * 0x1000
        + hex_digit_value(s[5]) * 0x100
        + hex_digit_value(s[6]) * 0x10
        + hex_digit_value(s[7])) as u16
}

/// What `short_uuid` returns: the assigned number of a well-formed UUID
/// string, and `None` for every string outside the grammar.
pub open spec fn spec_short_uuid(s: Seq<char>) -> Option<u16> {
    if uuid_grammar_ok(s) {
        Some(assigned_number(s))
    } else {
        None
    }
}

/// Value of one character as a lowercase hex digit, `None` when it is not one.
fn hex_value(c: char) -> (r: Option<u32>)
    ensures
        r is Some <==> is_lower_hex_digit(c),
        r is Some ==> r->0 == hex_digit_value(c),
{
    let u = c as u32;
    if 48 <= u && u <= 57 {
        Some(u - 48)
    } else if 97 <= u && u <= 102 {
        Some(u - 87)
    } else {
        None
    }
}

/// Parse the 16-bit assigned number out of a full UUID string.
///
/// Returns `Some` exactly on strings of the expected grammar, with the value
/// of hex characters 4 to 7, and `None` on every other string.
pub fn short_uuid(s: &str) -> (r: Option<u16>)
    ensures
        r == spec_short_uuid(s@),
{
    if s.unicode_len() != 36 {
        return None;
    }
    let mut i: usize = 0;
    while i < 36
        invariant
            s@.len() == 36,
            i <= 36,
            forall|j: int|
                0 <= j < i && j != 8 && j != 13 && j != 18 && j != 23
                    ==> is_lower_hex_digit(#[trigger] s@[j]),
            forall|j: int|
                0 <= j < i && (j == 8 || j == 13 || j == 18 || j == 23)
                    ==> s@[j] == '-',
        decreases 36 - i,
    {
        let c = s.get_char(i);
        if i == 8 || i == 13 || i == 18 || i == 23 {
            if c != '-' {
                return None;
            }
        } else {
            if hex_value(c).is_none() {
                return None;
            }
        }
        i = i + 1;
    }
    let d0 = hex_value(s.get_char(4)).unwrap();
    let d1 = hex_value(s.get_char(5)).unwrap();
    let d2 = hex_value(s.get_char(6)).unwrap();
    let d3 = hex_value(s.get_char(7)).unwrap();
    let value = d0 * 0x1000 + d1 * 0x100 + d2 * 0x10 + d3;
    Some(value as u16)
}

} // verus!
