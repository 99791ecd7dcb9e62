//! Base64 with the URL-safe alphabet (`A-Z`, `a-z`, `0-9`, `-`, `_`) and no
//! padding.
//!
//! Three bytes become four characters; a final group of one or two bytes
//! becomes two or three characters.  Decoding refuses characters outside the
//! alphabet, inputs whose length leaves a remainder of one modulo four, and a
//! last character that carries bits no encoding sets; it gives back exactly
//! the bytes that were encoded.
use vstd::prelude::*;
use vstd::string::*;

use crate::text::push_char;

verus! {

broadcast use vstd::string::group_string_axioms;

/// The alphabet character of the six-bit value `i`.
pub open spec fn enc_char(i: nat) -> char {
    if i < 26 {
        ((65 + i) as u32) as char
    } else if i < 52 {
        ((97 + (i - 26)) as u32) as char
    } else if i < 62 {
        ((48 + (i - 52)) as u32) as char
    } else if i == 62 {
        '-'
    } else {
        '_'
    }
}

/// The six-bit value of an alphabet character, `None` for any other character.
pub open spec fn dec_char(c: char) -> Option<u8> {
    let v = c as u32;
    if 'A' <= c <= 'Z' {
        Some((v - 65) as u8)
    } else if 'a' <= c <= 'z' {
        Some((26 + (v - 97)) as u8)
    } else if '0' <= c <= '9' {
        Some((52 + (v - 48)) as u8)
    } else if c == '-' {
        Some(62u8)
    } else if c == '_' {
        Some(63u8)
    } else {
        None
    }
}

/// The encoding of `s`.
pub open spec fn spec_encode(s: Seq<u8>) -> Seq<char>
    decreases s.len(),
{
    if s.len() == 0 {
        Seq::empty()
    } else if s.len() == 1 {
        seq![enc_char((s[0] >> 2u8) as nat), enc_char(((s[0] & 3u8) << 4u8) as nat)]
    } else if s.len() == 2 {
        seq![
            enc_char((s[0] >> 2u8) as nat),
            enc_char((((s[0] & 3u8) << 4u8) | (s[1] >> 4u8)) as nat),
            enc_char(((s[1] & 15u8) << 2u8) as nat),
        ]
    } else {
        seq![
            enc_char((s[0] >> 2u8) as nat),
            enc_char((((s[0] & 3u8) << 4u8) | (s[1] >> 4u8)) as nat),
            enc_char((((s[1] & 15u8) << 2u8) | (s[2] >> 6u8)) as nat),
            enc_char((s[2] & 63u8) as nat),
        ] + spec_encode(s.skip(3))
    }
}

/// The six-bit value of a character assumed to be in the alphabet.
pub open spec fn val(c: char) -> u8 {
    dec_char(c).unwrap()
}

/// The decoding of a string of alphabet characters whose length is not one
/// more than a multiple of four.
pub open spec fn spec_decode_valid(s: Seq<char>) -> Seq<u8>
    decreases s.len(),
{
    if s.len() < 2 {
        Seq::empty()
    } else if s.len() == 2 {
        seq![(val(s[0]) << 2u8) | (val(s[1]) >> 4u8)]
    } else if s.len() == 3 {
        seq![(val(s[0]) << 2u8) | (val(s[1]) >> 4u8), (val(s[1]) << 4u8) | (val(s[2]) >> 2u8)]
    } else {
        seq![
            (val(s[0]) << 2u8) | (val(s[1]) >> 4u8),
            (val(s[1]) << 4u8) | (val(s[2]) >> 2u8),
            (val(s[2]) << 6u8) | val(s[3]),
        ] + spec_decode_valid(s.skip(4))
    }
}

/// Every character of `s` is in the alphabet.
pub open spec fn all_valid(s: Seq<char>) -> bool {
    forall|i: int| 0 <= i < s.len() ==> (#[trigger] dec_char(s[i])) is Some
}

/// The last character sets no bit that falls outside the decoded bytes: its
/// low four bits are clear after a final pair, its low two bits after a final
/// triple.
pub open spec fn canonical_tail(s: Seq<char>) -> bool {
    if s.len() % 4 == 2 {
        val(s.last()) & 15u8 == 0
    } else if s.len() % 4 == 3 {
        val(s.last()) & 3u8 == 0
    } else {
        true
    }
}

/// The decoding of `s`: `None` when `s` holds a character outside the alphabet,
/// its length is one more than a multiple of four, or its last character sets
/// bits that no encoding sets.
pub open spec fn spec_decode(s: Seq<char>) -> Option<Seq<u8>> {
    if s.len() == 0 {
        Some(Seq::empty())
    } else if !all_valid(s) {
        None
    } else if s.len() % 4 == 1 {
        None
    } else if !canonical_tail(s) {
        None
    } else {
        Some(spec_decode_valid(s))
    }
}

/// The alphabet character of a six-bit value.
fn encode_six(i: u8) -> (c: char)
    requires
        i < 64,
    ensures
        c == enc_char(i as nat),
        dec_char(c) == Some(i),
{
    let b: u8 = if i < 26 {
        65 + i
    } else if i < 52 {
        97 + (i - 26)
    } else if i < 62 {
        48 + (i - 52)
    } else if i == 62 {
        45
    } else {
        95
    };
    b as char
}

/// The six-bit value of an ASCII byte, `None` outside the alphabet.
fn decode_six(b: u8) -> (r: Option<u8>)
    ensures
        r == dec_char(b as char),
        r matches Some(v) ==> v < 64,
{
    if 65 <= b && b <= 90 {
        Some(b - 65)
    } else if 97 <= b && b <= 122 {
        Some(26 + (b - 97))
    } else if 48 <= b && b <= 57 {
        Some(52 + (b - 48))
    } else if b == 45 {
        Some(62)
    } else if b == 95 {
        Some(63)
    } else {
        None
    }
}

/// Encodes bytes as Base64 text.
pub fn to_base64(bytes: &[u8]) -> (r: String)
    ensures
        r@ == spec_encode(bytes@),
{
    let len = bytes.len();
    let mut output = String::new();
    let mut i: usize = 0;
    assert(bytes@.skip(0) =~= bytes@);
    while len - i > 2
        invariant
            len == bytes@.len(),
            i <= len,
            spec_encode(bytes@) == output@ + spec_encode(bytes@.skip(i as int)),
        decreases len - i,
    {
        let b1 = bytes[i];
        let b2 = bytes[i + 1];
        let b3 = bytes[i + 2];
        let c1 = b1 >> 2u8;
        let c2 = ((b1 & 3u8) << 4u8) | (b2 >> 4u8);
        let c3 = ((b2 & 15u8) << 2u8) | (b3 >> 6u8);
        let c4 = b3 & 63u8;
        assert(c1 < 64 && c2 < 64 && c3 < 64 && c4 < 64) by (bit_vector)
            requires
                c1 == b1 >> 2u8,
                c2 == ((b1 & 3u8) << 4u8) | (b2 >> 4u8),
                c3 == ((b2 & 15u8) << 2u8) | (b3 >> 6u8),
                c4 == b3 & 63u8,
        ;
        push_char(&mut output, encode_six(c1));
        push_char(&mut output, encode_six(c2));
        push_char(&mut output, encode_six(c3));
        push_char(&mut output, encode_six(c4));
        proof {
            let rest = bytes@.skip(i as int);
            assert(rest[0] == b1 && rest[1] == b2 && rest[2] == b3);
            assert(rest.skip(3) =~= bytes@.skip(i + 3));
        }
        i = i + 3;
    }
    let remaining = len - i;
    let ghost rest = bytes@.skip(i as int);
    if remaining > 0 {
        let b1 = bytes[i];
        let b2: u8 = if remaining > 1 {
            bytes[i + 1]
        } else {
            0
        };
        let c1 = b1 >> 2u8;
        let c2 = ((b1 & 3u8) << 4u8) | (b2 >> 4u8);
        let c3 = (b2 & 15u8) << 2u8;
        assert(c1 < 64 && c2 < 64 && c3 < 64 && (b2 == 0u8 ==> c2 == (b1 & 3u8) << 4u8)) by (bit_vector)
            requires
                c1 == b1 >> 2u8,
                c2 == ((b1 & 3u8) << 4u8) | (b2 >> 4u8),
                c3 == (b2 & 15u8) << 2u8,
        ;
        push_char(&mut output, encode_six(c1));
        push_char(&mut output, encode_six(c2));
        if remaining > 1 {
            push_char(&mut output, encode_six(c3));
            proof {
                assert(rest.len() == 2 && rest[0] == b1 && rest[1] == b2);
            }
        } else {
            proof {
                assert(rest.len() == 1 && rest[0] == b1);
            }
        }
    } else {
        assert(rest.len() == 0);
    }
    output
}


/// The six-bit value of a byte known to be an alphabet character.
fn six(b: u8) -> (r: u8)
    requires
        dec_char(b as char) is Some,
    ensures
        r == val(b as char),
        r < 64,
{
    match decode_six(b) {
        Some(v) => v,
        None => 0,
    }
}

/// Decodes Base64 text; `None` when it holds a character outside the alphabet,
/// its length is one more than a multiple of four, or its last character sets
/// bits that no encoding sets.
pub fn from_base64(input: &str) -> (r: Option<Vec<u8>>)
    ensures
        match r {
            Some(v) => spec_decode(input@) == Some(v@),
            None => spec_decode(input@) is None,
        },
{
    let ghost chars = input@;
    if input.is_empty() {
        return Some(Vec::new());
    }
    if !input.is_ascii() {
        proof {
            assert(!vstd::utf8::is_ascii_chars(chars));
            let k = choose|k: int| 0 <= k < chars.len() && !('\0' <= #[trigger] chars[k] <= '\u{7f}');
            assert(dec_char(chars[k]) is None);
        }
        return None;
    }
    let bytes = input.as_bytes();
    let len = bytes.len();
    proof {
        assert(bytes@ =~= Seq::new(chars.len(), |i: int| chars[i] as u8));
        assert forall|j: int| 0 <= j < len implies (#[trigger] bytes@[j]) as char == chars[j] by {
            assert('\0' <= chars[j] <= '\u{7f}');
        }
    }
    if len % 4 == 1 {
        return None;
    }
    let mut k: usize = 0;
    while k < len
        invariant
            chars == input@,
            len == bytes@.len(),
            len == chars.len(),
            k <= len,
            forall|j: int| 0 <= j < len ==> (#[trigger] bytes@[j]) as char == chars[j],
            forall|j: int| 0 <= j < k ==> (#[trigger] dec_char(chars[j])) is Some,
        decreases len - k,
    {
        if decode_six(bytes[k]).is_none() {
            assert(bytes@[k as int] as char == chars[k as int]);
            assert(dec_char(chars[k as int]) is None);
            assert(!all_valid(chars));
            return None;
        }
        k = k + 1;
    }
    assert(all_valid(chars));
    let last = len - 1;
    assert(bytes@[last as int] as char == chars.last());
    assert(dec_char(chars[last as int]) is Some);
    let tail = six(bytes[last]);
    if (len % 4 == 2 && tail & 15u8 != 0) || (len % 4 == 3 && tail & 3u8 != 0) {
        assert(!canonical_tail(chars));
        return None;
    }
    assert(canonical_tail(chars));
    let mut output: Vec<u8> = Vec::new();
    let mut i: usize = 0;
    assert(chars.skip(0) =~= chars);
    while len - i > 3
        invariant
            chars == input@,
            len == bytes@.len(),
            len == chars.len(),
            i <= len,
            i % 4 == 0,
            len % 4 != 1,
            forall|j: int| 0 <= j < len ==> (#[trigger] bytes@[j]) as char == chars[j],
            all_valid(chars),
            spec_decode_valid(chars) == output@ + spec_decode_valid(chars.skip(i as int)),
        decreases len - i,
    {
        assert(bytes@[i as int] as char == chars[i as int]);
        assert(bytes@[i + 1] as char == chars[i + 1]);
        assert(bytes@[i + 2] as char == chars[i + 2]);
        assert(bytes@[i + 3] as char == chars[i + 3]);
        assert(dec_char(chars[i as int]) is Some);
        assert(dec_char(chars[i + 1]) is Some);
        assert(dec_char(chars[i + 2]) is Some);
        assert(dec_char(chars[i + 3]) is Some);
        let c1 = six(bytes[i]);
        let c2 = six(bytes[i + 1]);
        let c3 = six(bytes[i + 2]);
        let c4 = six(bytes[i + 3]);
        output.push((c1 << 2u8) | (c2 >> 4u8));
        output.push((c2 << 4u8) | (c3 >> 2u8));
        output.push((c3 << 6u8) | c4);
        proof {
            let rest = chars.skip(i as int);
            assert(rest[0] == chars[i as int] && rest[1] == chars[i + 1] && rest[2] == chars[i + 2]
                && rest[3] == chars[i + 3]);
            assert(rest.skip(4) =~= chars.skip(i + 4));
        }
        i = i + 4;
    }
    let remainder = len - i;
    let ghost rest = chars.skip(i as int);
    assert(remainder != 1) by {
        assert(len % 4 == (i + remainder) % 4);
    }
    if remainder >= 2 {
        assert(bytes@[i as int] as char == chars[i as int]);
        assert(bytes@[i + 1] as char == chars[i + 1]);
        assert(dec_char(chars[i as int]) is Some);
        assert(dec_char(chars[i + 1]) is Some);
        let c1 = six(bytes[i]);
        let c2 = six(bytes[i + 1]);
        output.push((c1 << 2u8) | (c2 >> 4u8));
        if remainder == 3 {
            assert(bytes@[i + 2] as char == chars[i + 2]);
            assert(dec_char(chars[i + 2]) is Some);
            let c3 = six(bytes[i + 2]);
            output.push((c2 << 4u8) | (c3 >> 2u8));
        }
        proof {
            assert(rest[0] == chars[i as int] && rest[1] == chars[i + 1]);
            if remainder == 3 {
                assert(rest[2] == chars[i + 2]);
            }
        }
    }
    Some(output)
}


/// Every six-bit value is decoded from its alphabet character.
pub proof fn lemma_dec_enc(x: u8)
    requires
        x < 64,
    ensures
        dec_char(enc_char(x as nat)) == Some(x),
{
}

proof fn lemma_group(b1: u8, b2: u8, b3: u8)
    ensures
        ((b1 >> 2u8) << 2u8) | ((((b1 & 3u8) << 4u8) | (b2 >> 4u8)) >> 4u8) == b1,
        ((((b1 & 3u8) << 4u8) | (b2 >> 4u8)) << 4u8) | ((((b2 & 15u8) << 2u8) | (b3 >> 6u8)) >> 2u8)
            == b2,
        ((((b2 & 15u8) << 2u8) | (b3 >> 6u8)) << 6u8) | (b3 & 63u8) == b3,
        ((b1 >> 2u8) << 2u8) | (((b1 & 3u8) << 4u8) >> 4u8) == b1,
        ((((b1 & 3u8) << 4u8) | (b2 >> 4u8)) << 4u8) | (((b2 & 15u8) << 2u8) >> 2u8) == b2,
        b1 >> 2u8 < 64,
        (((b1 & 3u8) << 4u8) | (b2 >> 4u8)) < 64,
        (((b2 & 15u8) << 2u8) | (b3 >> 6u8)) < 64,
        b3 & 63u8 < 64,
        ((b1 & 3u8) << 4u8) < 64,
        ((b2 & 15u8) << 2u8) < 64,
{
    assert(((b1 >> 2u8) << 2u8) | ((((b1 & 3u8) << 4u8) | (b2 >> 4u8)) >> 4u8) == b1) by (bit_vector);
    assert(((((b1 & 3u8) << 4u8) | (b2 >> 4u8)) << 4u8) | ((((b2 & 15u8) << 2u8) | (b3 >> 6u8)) >> 2u8)
        == b2) by (bit_vector);
    assert(((((b2 & 15u8) << 2u8) | (b3 >> 6u8)) << 6u8) | (b3 & 63u8) == b3) by (bit_vector);
    assert(((b1 >> 2u8) << 2u8) | (((b1 & 3u8) << 4u8) >> 4u8) == b1) by (bit_vector);
    assert(((((b1 & 3u8) << 4u8) | (b2 >> 4u8)) << 4u8) | (((b2 & 15u8) << 2u8) >> 2u8) == b2)
        by (bit_vector);
    assert(b1 >> 2u8 < 64) by (bit_vector);
    assert((((b1 & 3u8) << 4u8) | (b2 >> 4u8)) < 64) by (bit_vector);
    assert((((b2 & 15u8) << 2u8) | (b3 >> 6u8)) < 64) by (bit_vector);
    assert(b3 & 63u8 < 64) by (bit_vector);
    assert(((b1 & 3u8) << 4u8) < 64) by (bit_vector);
    assert(((b2 & 15u8) << 2u8) < 64) by (bit_vector);
}

/// The encoding holds only alphabet characters, its length is never one more
/// than a multiple of four, and decoding its alphabet values gives back the bytes.
#[verifier::rlimit(40)]
proof fn lemma_encode_decodes(s: Seq<u8>)
    ensures
        all_valid(spec_encode(s)),
        spec_encode(s).len() % 4 != 1,
        (spec_encode(s).len() == 0) == (s.len() == 0),
        spec_decode_valid(spec_encode(s)) == s,
        canonical_tail(spec_encode(s)),
    decreases s.len(),
{
    let e = spec_encode(s);
    if s.len() == 0 {
    } else if s.len() == 1 {
        lemma_group(s[0], 0, 0);
        lemma_dec_enc(s[0] >> 2u8);
        lemma_dec_enc((s[0] & 3u8) << 4u8);
        let b0 = s[0];
        let t = (b0 & 3u8) << 4u8;
        assert(t & 15u8 == 0) by (bit_vector)
            requires
                t == (b0 & 3u8) << 4u8,
        ;
        assert(spec_decode_valid(e) =~= s);
    } else if s.len() == 2 {
        lemma_group(s[0], s[1], 0);
        lemma_dec_enc(s[0] >> 2u8);
        lemma_dec_enc(((s[0] & 3u8) << 4u8) | (s[1] >> 4u8));
        lemma_dec_enc((s[1] & 15u8) << 2u8);
        let b1 = s[1];
        let t = (b1 & 15u8) << 2u8;
        assert(t & 3u8 == 0) by (bit_vector)
            requires
                t == (b1 & 15u8) << 2u8,
        ;
        assert(spec_decode_valid(e) =~= s);
    } else {
        let rest = s.skip(3);
        lemma_encode_decodes(rest);
        lemma_group(s[0], s[1], s[2]);
        lemma_dec_enc(s[0] >> 2u8);
        lemma_dec_enc(((s[0] & 3u8) << 4u8) | (s[1] >> 4u8));
        lemma_dec_enc(((s[1] & 15u8) << 2u8) | (s[2] >> 6u8));
        lemma_dec_enc(s[2] & 63u8);
        let er = spec_encode(rest);
        assert(e.skip(4) =~= er);
        assert forall|i: int| 0 <= i < e.len() implies (#[trigger] dec_char(e[i])) is Some by {
            if i >= 4 {
                assert(e[i] == er[i - 4]);
            }
        }
        assert(spec_decode_valid(e) == seq![s[0], s[1], s[2]] + spec_decode_valid(er));
        assert(s =~= seq![s[0], s[1], s[2]] + rest);
        if er.len() > 0 {
            assert(e.last() == er.last());
        }
    }
}

/// Decoding gives back exactly the bytes that were encoded.
pub proof fn lemma_decode_encode(s: Seq<u8>)
    ensures
        spec_decode(spec_encode(s)) == Some(s),
{
    lemma_encode_decodes(s);
}

/// Every character of an encoding is ASCII.
pub proof fn lemma_encode_ascii(s: Seq<u8>)
    ensures
        vstd::utf8::is_ascii_chars(spec_encode(s)),
    decreases s.len(),
{
    lemma_encode_decodes(s);
    let e = spec_encode(s);
    assert forall|i: int| 0 <= i < e.len() implies '\0' <= #[trigger] e[i] <= '\u{7f}' by {
        assert(dec_char(e[i]) is Some);
    }
}

} // verus!
