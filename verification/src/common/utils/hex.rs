//! Lower-case hexadecimal encoding of single bytes.
use vstd::prelude::*;

verus! {

/// The value of an ASCII hexadecimal digit (either case), `None` for any other byte.
pub open spec fn hex_val(c: u8) -> Option<u8> {
    if 48 <= c <= 57 {
        Some((c - 48) as u8)
    } else if 97 <= c <= 102 {
        Some((c - 87) as u8)
    } else if 65 <= c <= 70 {
        Some((c - 55) as u8)
    } else {
        None
    }
}

/// The lower-case hexadecimal digit of `n` (`n < 16`).
pub open spec fn hex_char(n: u8) -> u8 {
    if n < 10 {
        (48 + n) as u8
    } else {
        (87 + n) as u8
    }
}

/// The value of a hexadecimal digit.
fn hex_digit_value(c: u8) -> (r: Option<u8>)
    ensures
        r == hex_val(c),
{
    if 48 <= c && c <= 57 {
        Some(c - 48)
    } else if 97 <= c && c <= 102 {
        Some(c - 87)
    } else if 65 <= c && c <= 70 {
        Some(c - 55)
    } else {
        None
    }
}

/// Writes the two lower-case hexadecimal digits of `byte` into `out`.
pub fn byte_to_hex(byte: u8, out: &mut [u8; 2])
    ensures
        final(out)@ == seq![hex_char(byte / 16), hex_char(byte % 16)],
{
    let hi = byte >> 4u8;
    let lo = byte & 0x0fu8;
    assert(hi == byte / 16 && lo == byte % 16) by (bit_vector)
        requires
            hi == byte >> 4u8,
            lo == byte & 0x0fu8,
    ;
    out[0] = if hi < 10 { 48 + hi } else { 87 + hi };
    out[1] = if lo < 10 { 48 + lo } else { 87 + lo };
    assert(out@ =~= seq![hex_char(byte / 16), hex_char(byte % 16)]);
}

/// The byte written by two hexadecimal digits (either case), `None` when
/// either byte is not a hexadecimal digit.
pub fn hex_to_byte(hi: u8, lo: u8) -> (r: Option<u8>)
    ensures
        r == match (hex_val(hi), hex_val(lo)) {
            (Some(h), Some(l)) => Some((16 * h + l) as u8),
            _ => None,
        },
{
    if hi >= 128 || lo >= 128 {
        return None;
    }
    match (hex_digit_value(hi), hex_digit_value(lo)) {
        (Some(high), Some(low)) => {
            let r = (high << 4u8) | low;
            assert(r == 16 * high + low) by (bit_vector)
                requires
                    high < 16,
                    low < 16,
                    r == (high << 4u8) | low,
            ;
            Some(r)
        },
        _ => None,
    }
}

/// Reading back the two digits written for a byte gives the byte.
pub proof fn lemma_hex_roundtrip(byte: u8)
    ensures
        hex_val(hex_char(byte / 16)) == Some(byte / 16),
        hex_val(hex_char(byte % 16)) == Some(byte % 16),
        (16 * (byte / 16) + byte % 16) as u8 == byte,
{
}

} // verus!
