use vstd::prelude::*;

use crate::error::SnxError;

verus! {

/// Holds of the characters `0-9`, `a-f` and `A-F`.
pub open spec fn is_hex_digit(c: char) -> bool {
    ('0' <= c && c <= '9') || ('a' <= c && c <= 'f') || ('A' <= c && c <= 'F')
}

/// The numeric value of one hex digit.
pub open spec fn hex_digit_value(c: char) -> int
    recommends
        is_hex_digit(c),
{
    if '0' <= c && c <= '9' {
        c as int - '0' as int
    } else if 'a' <= c && c <= 'f' {
        c as int - 'a' as int + 10
    } else {
        c as int - 'A' as int + 10
    }
}

/// Holds of a string that is a well-formed hex encoding: an even number of
/// characters, all of them hex digits.
pub open spec fn hex_input_valid(s: Seq<char>) -> bool {
    s.len() % 2 == 0 && (forall|i: int| 0 <= i < s.len() ==> is_hex_digit(#[trigger] s[i]))
}

/// The bytes a well-formed hex string encodes: one byte per digit pair.
pub open spec fn hex_decoded(s: Seq<char>) -> Seq<u8> {
    Seq::new(s.len() / 2, |i: int| (hex_digit_value(s[2 * i]) * 16 + hex_digit_value(s[2 * i + 1])) as u8)
}

/// The numeric value of one hex digit character, or `None` if it is not one.
fn hex_digit(c: char) -> (r: Option<u8>)
    ensures
        r is Some <==> is_hex_digit(c),
        r is Some ==> r->0 == hex_digit_value(c),
{
    let v = c as u32;
    if v >= 48 && v <= 57 {
        Some((v - 48) as u8)
    } else if v >= 97 && v <= 102 {
        Some((v - 97 + 10) as u8)
    } else if v >= 65 && v <= 70 {
        Some((v - 65 + 10) as u8)
    } else {
        None
    }
}

/// Decodes a hex string to the bytes it encodes; fails on a string of odd
/// length or with a character that is not a hex digit.
pub fn decode_from_hex(data: &str) -> (r: Result<Vec<u8>, SnxError>)
    ensures
        r is Ok <==> hex_input_valid(data@),
        r matches Ok(v) ==> v@ == hex_decoded(data@),
        r matches Err(e) ==> e == SnxError::InvalidHex,
{
    let len = data.unicode_len();
    if len % 2 != 0 {
        return Err(SnxError::InvalidHex);
    }
    let mut out: Vec<u8> = Vec::new();
    let mut i: usize = 0;
    while i < len / 2
        invariant
            len == data@.len(),
            len % 2 == 0,
            i <= len / 2,
            out@.len() == i,
            forall|j: int| 0 <= j < 2 * i ==> is_hex_digit(#[trigger] data@[j]),
            forall|j: int| 0 <= j < i
                ==> #[trigger] out@[j] == (hex_digit_value(data@[2 * j]) * 16 + hex_digit_value(
                    data@[2 * j + 1],
                )) as u8,
        decreases len / 2 - i,
    {
        let hi = data.get_char(2 * i);
        let lo = data.get_char(2 * i + 1);
        let hi = match hex_digit(hi) {
            Some(v) => v,
            None => {
                return Err(SnxError::InvalidHex);
            },
        };
        let lo = match hex_digit(lo) {
            Some(v) => v,
            None => {
                return Err(SnxError::InvalidHex);
            },
        };
        assert(hi < 16 && lo < 16);
        out.push(hi * 16 + lo);
        i = i + 1;
    }
    proof {
        assert(out@ =~= hex_decoded(data@));
    }
    Ok(out)
}

} // verus!
