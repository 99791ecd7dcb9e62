//! Fixed-width base-62 encoding of 128-bit numbers (digits `0-9A-Za-z`).
use vstd::prelude::*;
use vstd::arithmetic::div_mod::lemma_div_denominator;
use vstd::arithmetic::power::{pow, lemma_pow0, lemma_pow_positive};

verus! {

/// Number of base-62 digits written for a 128-bit number.
pub const BASE62_LEN: usize = 22;

/// The digit character of `d` (`d < 62`): `0-9`, then `A-Z`, then `a-z`.
pub open spec fn base62_char(d: nat) -> u8 {
    if d < 10 {
        (48 + d) as u8
    } else if d < 36 {
        (55 + d) as u8
    } else {
        (61 + d) as u8
    }
}

/// The `k`-th base-62 digit of `num`, counting from the least significant.
pub open spec fn base62_digit(num: nat, k: nat) -> nat {
    ((num as int / pow(62, k)) % 62) as nat
}

/// The 22 base-62 digits of `num`, most significant first.
pub open spec fn spec_base62(num: nat) -> Seq<u8> {
    Seq::new(22, |i: int| base62_char(base62_digit(num, (21 - i) as nat)))
}

fn digit_char(d: u128) -> (c: u8)
    requires
        d < 62,
    ensures
        c == base62_char(d as nat),
{
    let d = d as u8;
    if d < 10 {
        48 + d
    } else if d < 36 {
        55 + d
    } else {
        61 + d
    }
}

/// Writes the 22 base-62 digits of `num` into `buf`, most significant first.
pub fn encode_bytes(num: u128, buf: &mut [u8; 22])
    ensures
        final(buf)@ == spec_base62(num as nat),
{
    let mut n = num;
    let mut k: usize = 0;
    proof {
        lemma_pow0(62);
    }
    while k < BASE62_LEN
        invariant
            k <= 22,
            buf@.len() == 22,
            pow(62, k as nat) > 0,
            n as int == num as int / pow(62, k as nat),
            forall|i: int|
                22 - k <= i < 22 ==> buf@[i] == base62_char(base62_digit(num as nat, (21 - i) as nat)),
        decreases 22 - k,
    {
        buf[BASE62_LEN - 1 - k] = digit_char(n % 62);
        proof {
            lemma_div_denominator(num as int, pow(62, k as nat), 62);
            assert(pow(62, (k + 1) as nat) == 62 * pow(62, k as nat)) by {
                reveal(pow);
            }
            assert(pow(62, k as nat) * 62 == 62 * pow(62, k as nat)) by (nonlinear_arith);
            lemma_pow_positive(62, (k + 1) as nat);
        }
        n = n / 62;
        k = k + 1;
    }
    assert(buf@ =~= spec_base62(num as nat));
}

} // verus!
