//! Textual rendering of workflow results: uppercase hex for card UIDs and
//! decimal for balance values.

use vstd::prelude::*;
use crate::commands::CardId;

verus! {

/// The uppercase hexadecimal digit for a value below 16
/// (also the decimal digit for a value below 10).
pub open spec fn digit_char(d: int) -> char
    recommends
        0 <= d < 16,
{
    if d == 0 {
        '0'
    } else if d == 1 {
        '1'
    } else if d == 2 {
        '2'
    } else if d == 3 {
        '3'
    } else if d == 4 {
        '4'
    } else if d == 5 {
        '5'
    } else if d == 6 {
        '6'
    } else if d == 7 {
        '7'
    } else if d == 8 {
        '8'
    } else if d == 9 {
        '9'
    } else if d == 10 {
        'A'
    } else if d == 11 {
        'B'
    } else if d == 12 {
        'C'
    } else if d == 13 {
        'D'
    } else if d == 14 {
        'E'
    } else {
        'F'
    }
}

/// Two uppercase hex digits of a byte.
pub open spec fn hex_byte_spec(b: u8) -> Seq<char> {
    seq![digit_char(b as int / 16), digit_char(b as int % 16)]
}

/// The eight-digit uppercase hex rendering of a card UID.
pub open spec fn card_id_hex_spec(id: CardId) -> Seq<char> {
    hex_byte_spec(id.b0) + hex_byte_spec(id.b1) + hex_byte_spec(id.b2) + hex_byte_spec(id.b3)
}

/// The decimal rendering of a nonnegative value, most significant digit first.
pub open spec fn decimal_spec(n: int) -> Seq<char>
    recommends
        n >= 0,
    decreases n,
{
    if n < 10 {
        seq![digit_char(n)]
    } else {
        decimal_spec(n / 10).push(digit_char(n % 10))
    }
}

/// The one-character string for a digit value below 16.
fn digit_str(d: u8) -> (r: &'static str)
    requires
        d < 16,
    ensures
        r@ == seq![digit_char(d as int)],
{
    proof {
        reveal_strlit("0");
        reveal_strlit("1");
        reveal_strlit("2");
        reveal_strlit("3");
        reveal_strlit("4");
        reveal_strlit("5");
        reveal_strlit("6");
        reveal_strlit("7");
        reveal_strlit("8");
        reveal_strlit("9");
        reveal_strlit("A");
        reveal_strlit("B");
        reveal_strlit("C");
        reveal_strlit("D");
        reveal_strlit("E");
        reveal_strlit("F");
    }
    let r = if d == 0 {
        "0"
    } else if d == 1 {
        "1"
    } else if d == 2 {
        "2"
    } else if d == 3 {
        "3"
    } else if d == 4 {
        "4"
    } else if d == 5 {
        "5"
    } else if d == 6 {
        "6"
    } else if d == 7 {
        "7"
    } else if d == 8 {
        "8"
    } else if d == 9 {
        "9"
    } else if d == 10 {
        "A"
    } else if d == 11 {
        "B"
    } else if d == 12 {
        "C"
    } else if d == 13 {
        "D"
    } else if d == 14 {
        "E"
    } else {
        "F"
    };
    proof {
        assert(r@ =~= seq![digit_char(d as int)]);
    }
    r
}

/// Appends the two uppercase hex digits of a byte.
fn push_hex_byte(s: &mut String, b: u8)
    ensures
        final(s)@ == old(s)@ + hex_byte_spec(b),
{
    s.append(digit_str(b / 16));
    s.append(digit_str(b % 16));
    proof {
        assert(s@ =~= old(s)@ + hex_byte_spec(b));
    }
}

/// The uppercase hex string of a card UID, two digits per byte.
pub fn card_id_hex(id: CardId) -> (r: String)
    ensures
        r@ == card_id_hex_spec(id),
{
    let mut s = String::new();
    push_hex_byte(&mut s, id.b0);
    push_hex_byte(&mut s, id.b1);
    push_hex_byte(&mut s, id.b2);
    push_hex_byte(&mut s, id.b3);
    proof {
        assert(s@ =~= card_id_hex_spec(id));
    }
    s
}

/// Appends the decimal digits of `n`, most significant first.
fn push_decimal(s: &mut String, n: u32)
    ensures
        final(s)@ == old(s)@ + decimal_spec(n as int),
    decreases n,
{
    if n < 10 {
        s.append(digit_str(n as u8));
    } else {
        push_decimal(s, n / 10);
        s.append(digit_str((n % 10) as u8));
        proof {
            assert(s@ =~= old(s)@ + decimal_spec(n as int));
        }
    }
}

/// The decimal string of a 32-bit value.
pub fn decimal(n: u32) -> (r: String)
    ensures
        r@ == decimal_spec(n as int),
{
    let mut s = String::new();
    push_decimal(&mut s, n);
    proof {
        assert(s@ =~= decimal_spec(n as int));
    }
    s
}

} // verus!
