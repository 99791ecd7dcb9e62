//! Stripe customer payment identifier.
use vstd::prelude::*;
use vstd::string::*;

use crate::text::{has_prefix, push_char, strip_prefix};

verus! {

broadcast use vstd::string::group_string_axioms;

/// An ASCII letter or digit.
pub open spec fn is_alnum_char(c: char) -> bool {
    ('0' <= c <= '9') || ('A' <= c <= 'Z') || ('a' <= c <= 'z')
}

/// The identifier part of `id`: `id` without a leading `cus_`.
pub open spec fn payment_suffix(id: Seq<char>) -> Seq<char> {
    if has_prefix(id, "cus_"@) {
        id.skip(4)
    } else {
        id
    }
}

/// Whether `id` names a payment: after an optional `cus_`, exactly 14 ASCII
/// letters and digits.
pub open spec fn spec_valid_payment_id(id: Seq<char>) -> bool {
    let t = payment_suffix(id);
    &&& t.len() == 14
    &&& forall|i: int| 0 <= i < 14 ==> is_alnum_char(#[trigger] t[i])
}

/// The 14 letters and digits of a Stripe customer id (without `cus_`).
#[derive(Clone, Copy)]
pub struct PaymentId(pub [u8; 14]);

/// Whether a byte is an ASCII letter or digit.
pub fn is_alphanumeric(c: u8) -> (r: bool)
    ensures
        r == is_alnum_char(c as char),
{
    (65 <= c && c <= 90) || (97 <= c && c <= 122) || (48 <= c && c <= 57)
}

impl PaymentId {
    /// The characters of the identifier.
    pub open spec fn spec_chars(&self) -> Seq<char> {
        self.0@.map_values(|b: u8| b as char)
    }

    /// Parses `cus_XXXXXXXXXXXXXX` or `XXXXXXXXXXXXXX` (14 letters or digits).
    pub fn new(id: &str) -> (r: Option<Self>)
        ensures
            r is Some == spec_valid_payment_id(id@),
            r matches Some(p) ==> p.spec_chars() == payment_suffix(id@),
    {
        proof {
            reveal_strlit("cus_");
        }
        let suffix = match strip_prefix(id, "cus_") {
            Some(t) => t,
            None => id,
        };
        let ghost t = suffix@;
        assert(t == payment_suffix(id@));
        if !suffix.is_ascii() {
            proof {
                assert(!vstd::utf8::is_ascii_chars(t));
                let k = choose|k: int| 0 <= k < t.len() && !('\0' <= #[trigger] t[k] <= '\u{7f}');
                if t.len() == 14 {
                    assert(!is_alnum_char(t[k]));
                }
            }
            return None;
        }
        let bytes = suffix.as_bytes();
        proof {
            assert(bytes@ =~= Seq::new(t.len(), |i: int| t[i] as u8));
            assert forall|j: int| 0 <= j < t.len() implies (#[trigger] bytes@[j]) as char == t[j] by {
                assert('\0' <= t[j] <= '\u{7f}');
            }
        }
        if bytes.len() != 14 {
            return None;
        }
        let mut array = [0u8; 14];
        let mut i: usize = 0;
        while i < 14
            invariant
                t == payment_suffix(id@),
                bytes@.len() == 14,
                t.len() == 14,
                i <= 14,
                array@.len() == 14,
                forall|j: int| 0 <= j < 14 ==> (#[trigger] bytes@[j]) as char == t[j],
                forall|j: int| 0 <= j < i ==> is_alnum_char(#[trigger] t[j]),
                forall|j: int| 0 <= j < i ==> #[trigger] array@[j] == bytes@[j],
            decreases 14 - i,
        {
            let c = bytes[i];
            assert(c as char == t[i as int]);
            if !is_alphanumeric(c) {
                return None;
            }
            array[i] = c;
            i = i + 1;
        }
        let p = PaymentId(array);
        assert(p.spec_chars() =~= t);
        Some(p)
    }

    /// The 14 letters and digits of the identifier, without `cus_`.
    pub fn as_str(&self) -> (r: String)
        ensures
            r@ == self.spec_chars(),
    {
        let mut s = String::new();
        let mut i: usize = 0;
        while i < 14
            invariant
                i <= 14,
                self.0@.len() == 14,
                s@ == self.spec_chars().subrange(0, i as int),
            decreases 14 - i,
        {
            push_char(&mut s, self.0[i] as char);
            assert(self.spec_chars().subrange(0, i + 1) =~= self.spec_chars().subrange(0, i as int).push(
                self.0@[i as int] as char,
            ));
            i = i + 1;
        }
        assert(self.spec_chars().subrange(0, 14) =~= self.spec_chars());
        s
    }

    /// The identifier with its `cus_` prefix.
    pub fn to_string(&self) -> (r: String)
        ensures
            r@ == "cus_"@ + self.spec_chars(),
    {
        let mut s = String::from_str("cus_");
        let mut i: usize = 0;
        while i < 14
            invariant
                i <= 14,
                self.0@.len() == 14,
                s@ == "cus_"@ + self.spec_chars().subrange(0, i as int),
            decreases 14 - i,
        {
            push_char(&mut s, self.0[i] as char);
            assert(self.spec_chars().subrange(0, i + 1) =~= self.spec_chars().subrange(0, i as int).push(
                self.0@[i as int] as char,
            ));
            i = i + 1;
        }
        assert(self.spec_chars().subrange(0, 14) =~= self.spec_chars());
        s
    }
}

} // verus!
