//! Validation of client checksums.
//!
//! A checksum is 72 characters (an 8-character obfuscated timestamp followed by
//! a 64-digit device hash) or 137 characters (the same, then `/` and a 64-digit
//! MAC hash).  The timestamp is Base64 (URL-safe, unpadded) of six obfuscated
//! bytes whose first two repeat as the last two.
use base64::Engine as _;
use vstd::prelude::*;
use vstd::string::*;

verus! {

broadcast use vstd::string::group_string_axioms;

/// What the `base64` crate's URL-safe, unpadded engine decodes `s` to
/// (`None` when it refuses `s`): RFC 4648 Base64 with the URL-safe
/// alphabet, no padding, and no stray bits in the last character, which is
/// `spec_decode`.
pub open spec fn url_safe_no_pad_decode(s: Seq<char>) -> Option<Seq<u8>> {
    crate::common::utils::base64::spec_decode(s)
}

/// Decodes URL-safe, unpadded Base64.
///
/// Trusted: calls `base64::engine::general_purpose::URL_SAFE_NO_PAD.decode`,
/// whose engine (URL-safe alphabet, `NO_PAD` configuration) refuses padding,
/// bytes outside the alphabet, a lone trailing character and a last
/// character with bits outside the decoded bytes; the result, with the
/// error mapped to `None`, is `spec_decode` of the input's characters.
#[verifier::external_body]
pub(crate) fn decode_url_safe_no_pad(s: &str) -> (r: Option<Vec<u8>>)
    ensures
        r.deep_view() == url_safe_no_pad_decode(s@),
{
    base64::engine::general_purpose::URL_SAFE_NO_PAD.decode(s).ok()
}

/// The `i`-th byte of the de-obfuscation of `s`: the byte minus its index
/// (wrapping), xor the previous original byte (165 before the first).
pub open spec fn deobfuscated_byte(s: Seq<u8>, i: int) -> u8 {
    (s[i].wrapping_sub((i % 256) as u8)) ^ (if i == 0 {
        165u8
    } else {
        s[i - 1]
    })
}

/// The de-obfuscation of `s`.
pub open spec fn spec_deobfuscate(s: Seq<u8>) -> Seq<u8> {
    Seq::new(s.len(), |i: int| deobfuscated_byte(s, i))
}

/// Reverses the obfuscation of a timestamp in place.
pub fn deobfuscate_bytes(bytes: &mut Vec<u8>)
    ensures
        final(bytes)@ == spec_deobfuscate(old(bytes)@),
{
    let ghost orig = bytes@;
    let mut prev: u8 = 165;
    let mut idx: usize = 0;
    let len = bytes.len();
    while idx < len
        invariant
            len == bytes@.len(),
            len == orig.len(),
            idx <= len,
            idx > 0 ==> prev == orig[idx - 1],
            idx == 0 ==> prev == 165,
            forall|j: int| 0 <= j < idx ==> bytes@[j] == deobfuscated_byte(orig, j),
            forall|j: int| idx <= j < len ==> bytes@[j] == orig[j],
        decreases len - idx,
    {
        let temp = bytes[idx];
        let v = temp.wrapping_sub((idx % 256) as u8) ^ prev;
        bytes.set(idx, v);
        prev = temp;
        idx = idx + 1;
    }
    assert(bytes@ =~= spec_deobfuscate(orig));
}

/// The timestamp held by decoded timestamp bytes: six bytes whose
/// de-obfuscation repeats its first two bytes as its last two; the timestamp is
/// the last four de-obfuscated bytes, big-endian.
pub open spec fn spec_time_of(decoded: Seq<u8>) -> Option<u64> {
    let d = spec_deobfuscate(decoded);
    if decoded.len() != 6 {
        None
    } else if d[0] != d[4] || d[1] != d[5] {
        None
    } else {
        Some(((d[2] as u64) * 0x1000000 + (d[3] as u64) * 0x10000 + (d[4] as u64) * 0x100 + (d[5] as u64)) as u64)
    }
}

/// The timestamp held by decoded timestamp bytes.
pub fn time_from_decoded(decoded: Vec<u8>) -> (r: Option<u64>)
    ensures
        r == spec_time_of(decoded@),
{
    let mut b = decoded;
    if b.len() != 6 {
        return None;
    }
    deobfuscate_bytes(&mut b);
    if b[0] != b[4] || b[1] != b[5] {
        return None;
    }
    let t = ((b[2] as u64) << 24u64) | ((b[3] as u64) << 16u64) | ((b[4] as u64) << 8u64) | (b[5] as u64);
    let (b2, b3, b4, b5) = (b[2], b[3], b[4], b[5]);
    assert(t == (b2 as u64) * 0x1000000 + (b3 as u64) * 0x10000 + (b4 as u64) * 0x100 + (b5 as u64))
        by (bit_vector)
        requires
            t == ((b2 as u64) << 24u64) | ((b3 as u64) << 16u64) | ((b4 as u64) << 8u64) | (b5 as u64),
    ;
    Some(t)
}

/// The timestamp held by an 8-character timestamp field, `None` when it does
/// not decode or does not hold a well-formed timestamp.
pub fn extract_time_ks(timestamp_base64: &str) -> (r: Option<u64>)
    ensures
        r == match url_safe_no_pad_decode(timestamp_base64@) {
            Some(d) => spec_time_of(d),
            None => None,
        },
{
    match decode_url_safe_no_pad(timestamp_base64) {
        Some(bytes) => time_from_decoded(bytes),
        None => None,
    }
}

/// An ASCII letter or digit.
pub open spec fn is_alnum(c: char) -> bool {
    ('0' <= c <= '9') || ('A' <= c <= 'Z') || ('a' <= c <= 'z')
}

/// An ASCII hexadecimal digit (either case).
pub open spec fn is_hex(c: char) -> bool {
    ('0' <= c <= '9') || ('A' <= c <= 'F') || ('a' <= c <= 'f')
}

/// Whether character `c` at index `i` fits a checksum of `len` characters:
/// a letter, digit, `/`, `-` or `_` everywhere; past the 8-character timestamp
/// a hexadecimal digit, except a `/` at index 72 of the long form.
pub open spec fn checksum_char_ok(len: nat, i: int, c: char) -> bool {
    &&& (is_alnum(c) || c == '/' || c == '-' || c == '_')
    &&& (i < 8 || (if len == 137 && i == 72 {
        c == '/'
    } else {
        is_hex(c)
    }))
}

/// Whether `s` is a well-formed checksum.
pub open spec fn spec_valid_checksum(s: Seq<char>) -> bool {
    &&& (s.len() == 72 || s.len() == 137)
    &&& forall|i: int| 0 <= i < s.len() ==> checksum_char_ok(s.len(), i, #[trigger] s[i])
    &&& match url_safe_no_pad_decode(s.subrange(0, 8)) {
        Some(d) => spec_time_of(d) is Some,
        None => false,
    }
}

fn is_alnum_byte(b: u8) -> (r: bool)
    ensures
        r == is_alnum(b as char),
{
    (48 <= b && b <= 57) || (65 <= b && b <= 90) || (97 <= b && b <= 122)
}

fn is_hex_byte(b: u8) -> (r: bool)
    ensures
        r == is_hex(b as char),
{
    (48 <= b && b <= 57) || (65 <= b && b <= 70) || (97 <= b && b <= 102)
}

/// Whether `checksum` is a well-formed checksum.
pub fn validate_checksum(checksum: &str) -> (r: bool)
    ensures
        r == spec_valid_checksum(checksum@),
{
    let ghost s = checksum@;
    if !checksum.is_ascii() {
        proof {
            assert(!vstd::utf8::is_ascii_chars(s));
            let k = choose|k: int| 0 <= k < s.len() && !('\0' <= #[trigger] s[k] <= '\u{7f}');
            assert(!checksum_char_ok(s.len(), k, s[k]));
        }
        return false;
    }
    let bytes = checksum.as_bytes();
    let len = bytes.len();
    proof {
        assert(bytes@ =~= Seq::new(s.len(), |i: int| s[i] as u8));
        assert forall|j: int| 0 <= j < len implies (#[trigger] bytes@[j]) as char == s[j] by {
            assert('\0' <= s[j] <= '\u{7f}');
        }
    }
    if len != 72 && len != 137 {
        return false;
    }
    let mut i: usize = 0;
    while i < len
        invariant
            s == checksum@,
            len == bytes@.len(),
            len == s.len(),
            len == 72 || len == 137,
            i <= len,
            forall|j: int| 0 <= j < len ==> (#[trigger] bytes@[j]) as char == s[j],
            forall|j: int| 0 <= j < i ==> checksum_char_ok(len as nat, j, #[trigger] s[j]),
        decreases len - i,
    {
        let b = bytes[i];
        assert(b as char == s[i as int]);
        let valid = if !is_alnum_byte(b) && b != 47 && b != 45 && b != 95 {
            false
        } else if i < 8 {
            true
        } else if len == 137 && i == 72 {
            b == 47
        } else {
            is_hex_byte(b)
        };
        if !valid {
            return false;
        }
        i = i + 1;
    }
    let prefix = checksum.substring_ascii(0, 8);
    extract_time_ks(prefix).is_some()
}

} // verus!
