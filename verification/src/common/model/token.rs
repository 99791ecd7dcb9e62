//! The payload of a session token: its integer-as-string field and the rules
//! by which a payload object is read.
use vstd::prelude::*;

use crate::text::{dec, digit_char, push_char, str_eq, u64_to_string};

verus! {

/// A 64-bit integer that travels as a decimal string.
#[derive(Clone, Copy, Debug)]
pub struct StringI64(pub i64);

/// Whether `c` is a decimal digit.
pub open spec fn is_digit(c: char) -> bool {
    '0' <= c && c <= '9'
}

/// Every character is a decimal digit.
pub open spec fn all_digits(s: Seq<char>) -> bool {
    forall|i: int| 0 <= i < s.len() ==> is_digit(#[trigger] s[i])
}

/// The number that a string of decimal digits denotes.
pub open spec fn digits_value(s: Seq<char>) -> nat
    decreases s.len(),
{
    if s.len() == 0 {
        0
    } else {
        digits_value(s.drop_last()) * 10 + ((s.last() as u32) - 48) as nat
    }
}

/// The integer that `s` denotes in base 10: an optional `+` or `-`, then one
/// or more digits, within the range of `i64`.
pub open spec fn parse_i64(s: Seq<char>) -> Option<i64> {
    let neg = s.len() > 0 && s[0] == '-';
    let body = if s.len() > 0 && (s[0] == '-' || s[0] == '+') {
        s.skip(1)
    } else {
        s
    };
    if body.len() == 0 || !all_digits(body) {
        None
    } else {
        let v: int = if neg {
            -digits_value(body)
        } else {
            digits_value(body) as int
        };
        if i64::MIN <= v <= i64::MAX {
            Some(v as i64)
        } else {
            None
        }
    }
}

/// The decimal text of an integer, with a leading `-` when it is negative.
pub open spec fn i64_text(v: i64) -> Seq<char> {
    if v < 0 {
        seq!['-'] + dec((-v) as nat)
    } else {
        dec(v as nat)
    }
}

/// A digit string is worth at least each of its prefixes.
proof fn lemma_digits_value_prefix(s: Seq<char>, k: int)
    requires
        0 <= k <= s.len(),
    ensures
        digits_value(s) >= digits_value(s.take(k)),
    decreases s.len(),
{
    if k < s.len() {
        let t = s.drop_last();
        lemma_digits_value_prefix(t, k);
        assert(t.take(k) =~= s.take(k));
    } else {
        assert(s.take(k) =~= s);
    }
}

/// The decimal text of a number is all digits and denotes the number.
proof fn lemma_dec_digits(n: nat)
    ensures
        all_digits(dec(n)),
        digits_value(dec(n)) == n,
        dec(n).len() > 0,
        is_digit(dec(n)[0]),
    decreases n,
{
    if n >= 10 {
        lemma_dec_digits(n / 10);
        let d = dec(n / 10);
        let e = dec(n);
        assert(e == d.push(digit_char(n % 10)));
        assert(e.drop_last() =~= d);
        assert forall|i: int| 0 <= i < e.len() implies is_digit(#[trigger] e[i]) by {
            if i < d.len() {
                assert(e[i] == d[i]);
            }
        }
        assert(e[0] == d[0]);
        assert((digit_char(n % 10) as u32) == 48 + n % 10);
        assert(e.last() == digit_char(n % 10));
        assert(digits_value(e) == digits_value(d) * 10 + (n % 10));
        assert(n == (n / 10) * 10 + n % 10) by (nonlinear_arith);
    } else {
        let e = dec(n);
        assert(e.drop_last() =~= Seq::<char>::empty());
        assert((digit_char(n) as u32) == 48 + n);
        assert(digits_value(Seq::<char>::empty()) == 0);
        assert(digits_value(e) == digits_value(e.drop_last()) * 10 + ((e.last() as u32) - 48) as nat);
    }
}

/// Reading the decimal text of an integer gives the integer back.
pub proof fn lemma_i64_text_roundtrip(v: i64)
    ensures
        parse_i64(i64_text(v)) == Some(v),
{
    if v < 0 {
        let m = (-v) as nat;
        lemma_dec_digits(m);
        let s = i64_text(v);
        assert(s.skip(1) =~= dec(m));
        assert(s[0] == '-');
    } else {
        lemma_dec_digits(v as nat);
        let s = i64_text(v);
        assert(s[0] != '-' && s[0] != '+');
    }
}

impl StringI64 {
    /// Reads a base-10 integer: an optional sign and one or more digits;
    /// `None` for any other text or a value outside `i64`.
    pub fn parse(value: &str) -> (r: Option<StringI64>)
        ensures
            (match r {
                Some(x) => parse_i64(value@) == Some(x.0),
                None => parse_i64(value@) is None,
            }),
    {
        let n = value.unicode_len();
        let ghost s = value@;
        if n == 0 {
            return None;
        }
        let first = value.get_char(0);
        let neg = first == '-';
        let start: usize = if first == '-' || first == '+' { 1 } else { 0 };
        let ghost body = if s[0] == '-' || s[0] == '+' { s.skip(1) } else { s };
        assert(body =~= s.skip(start as int));
        if start >= n {
            return None;
        }
        let limit: u128 = 0x8000_0000_0000_0000;
        let mut mag: u128 = 0;
        let mut i: usize = start;
        while i < n
            invariant
                s == value@,
                n == s.len(),
                start <= i <= n,
                n > 0,
                start == (if s[0] == '-' || s[0] == '+' { 1usize } else { 0usize }),
                body == (if s[0] == '-' || s[0] == '+' { s.skip(1) } else { s }),
                limit == 0x8000_0000_0000_0000u128,
                mag <= limit,
                all_digits(body.take(i - start)),
                mag == digits_value(body.take(i - start)),
            decreases n - i,
        {
            let c = value.get_char(i);
            let ghost k = (i - start) as int;
            assert(body[k] == c);
            if !('0' <= c && c <= '9') {
                assert(!all_digits(body));
                assert(parse_i64(s) is None);
                return None;
            }
            let d = (c as u32 - 48) as u128;
            assert(body.take(k + 1).drop_last() =~= body.take(k));
            mag = mag * 10 + d;
            assert(all_digits(body.take(k + 1))) by {
                assert forall|j: int| 0 <= j < k + 1 implies is_digit(#[trigger] body.take(k + 1)[j]) by {
                    if j < k {
                        assert(body.take(k + 1)[j] == body.take(k)[j]);
                    }
                }
            }
            if mag > limit {
                proof {
                    if all_digits(body) {
                        lemma_digits_value_prefix(body, k + 1);
                        assert(digits_value(body) > 0x8000_0000_0000_0000);
                    }
                }
                assert(parse_i64(s) is None);
                return None;
            }
            i = i + 1;
        }
        assert(body.take(n - start) =~= body);
        if neg {
            if mag == limit {
                Some(StringI64(i64::MIN))
            } else {
                let m = mag as i64;
                Some(StringI64(-m))
            }
        } else {
            if mag == limit {
                None
            } else {
                Some(StringI64(mag as i64))
            }
        }
    }

    /// The decimal text of the value, as it is sent.
    pub fn to_string(&self) -> (r: String)
        ensures
            r@ == i64_text(self.0),
    {
        let v = self.0;
        if v < 0 {
            let m: u64 = if v == i64::MIN {
                0x8000_0000_0000_0000u64
            } else {
                (-v) as u64
            };
            let d = u64_to_string(m);
            let mut s = String::new();
            push_char(&mut s, '-');
            s.append(d.as_str());
            assert(s@ =~= seq!['-'] + dec((-v) as nat));
            s
        } else {
            u64_to_string(v as u64)
        }
    }
}

/// The issuer that every session token names.
pub open spec fn issuer() -> Seq<char> {
    "https://authentication.cursor.sh"@
}

/// The scope that every session token grants.
pub open spec fn token_scope() -> Seq<char> {
    "openid profile email offline_access"@
}

/// The audience that every session token is meant for.
pub open spec fn audience() -> Seq<char> {
    "https://cursor.com"@
}

/// The claims of a session token.
#[derive(Debug)]
pub struct TokenPayload {
    /// The subject: the provider and user the token was issued to.
    pub sub: String,
    /// When the token was issued.
    pub time: StringI64,
    /// The token's random part.
    pub randomness: String,
    /// When the token expires (Unix seconds).
    pub exp: i64,
    /// A session token (`type` is `session`) rather than a web one (`web`).
    pub is_session: bool,
}

/// A field of the payload object.
#[derive(Clone, Copy, Debug, PartialEq, Eq, Structural)]
pub enum TokenField {
    Sub,
    Time,
    Randomness,
    Exp,
    Iss,
    Scope,
    Aud,
    Type,
}

/// The payload field named `s`.
pub open spec fn token_field_named(s: Seq<char>) -> Option<TokenField> {
    if s == "sub"@ {
        Some(TokenField::Sub)
    } else if s == "time"@ {
        Some(TokenField::Time)
    } else if s == "randomness"@ {
        Some(TokenField::Randomness)
    } else if s == "exp"@ {
        Some(TokenField::Exp)
    } else if s == "iss"@ {
        Some(TokenField::Iss)
    } else if s == "scope"@ {
        Some(TokenField::Scope)
    } else if s == "aud"@ {
        Some(TokenField::Aud)
    } else if s == "type"@ {
        Some(TokenField::Type)
    } else {
        None
    }
}

impl TokenField {
    /// The field named `s`; `None` for a name that is not a payload field.
    pub fn from_name(s: &str) -> (r: Option<TokenField>)
        ensures
            r == token_field_named(s@),
    {
        if str_eq(s, "sub") {
            Some(TokenField::Sub)
        } else if str_eq(s, "time") {
            Some(TokenField::Time)
        } else if str_eq(s, "randomness") {
            Some(TokenField::Randomness)
        } else if str_eq(s, "exp") {
            Some(TokenField::Exp)
        } else if str_eq(s, "iss") {
            Some(TokenField::Iss)
        } else if str_eq(s, "scope") {
            Some(TokenField::Scope)
        } else if str_eq(s, "aud") {
            Some(TokenField::Aud)
        } else if str_eq(s, "type") {
            Some(TokenField::Type)
        } else {
            None
        }
    }
}

/// A field of the payload object with its value.
pub enum TokenEntry {
    Sub(String),
    Time(StringI64),
    Randomness(String),
    Exp(i64),
    Iss(String),
    Scope(String),
    Aud(String),
    Type(String),
}

/// The field that an entry sets.
pub open spec fn entry_field(e: TokenEntry) -> TokenField {
    match e {
        TokenEntry::Sub(_) => TokenField::Sub,
        TokenEntry::Time(_) => TokenField::Time,
        TokenEntry::Randomness(_) => TokenField::Randomness,
        TokenEntry::Exp(_) => TokenField::Exp,
        TokenEntry::Iss(_) => TokenField::Iss,
        TokenEntry::Scope(_) => TokenField::Scope,
        TokenEntry::Aud(_) => TokenField::Aud,
        TokenEntry::Type(_) => TokenField::Type,
    }
}

/// Why a payload object was refused.
#[derive(Debug)]
pub enum TokenPayloadError {
    /// A field occurs twice.
    DuplicateField(TokenField),
    /// A required field is absent.
    MissingField(TokenField),
    /// `type` is neither `session` nor `web`.
    InvalidType,
    /// `iss` is not the expected issuer.
    InvalidIssuer,
    /// `scope` is not the expected scope.
    InvalidScope,
    /// `aud` is not the expected audience.
    InvalidAudience,
}

/// The fields of a payload object read so far.
pub struct TokenPayloadReader {
    pub sub: Option<String>,
    pub time: Option<StringI64>,
    pub randomness: Option<String>,
    pub exp: Option<i64>,
    pub is_session: Option<bool>,
    pub iss_seen: bool,
    pub scope_seen: bool,
    pub aud_seen: bool,
}

/// Whether field `f` has already been read.
pub open spec fn seen(r: TokenPayloadReader, f: TokenField) -> bool {
    match f {
        TokenField::Sub => r.sub is Some,
        TokenField::Time => r.time is Some,
        TokenField::Randomness => r.randomness is Some,
        TokenField::Exp => r.exp is Some,
        TokenField::Type => r.is_session is Some,
        TokenField::Iss => r.iss_seen,
        TokenField::Scope => r.scope_seen,
        TokenField::Aud => r.aud_seen,
    }
}

/// The first required field that has not been read, in the order in which
/// they are checked.
pub open spec fn first_missing(r: TokenPayloadReader) -> Option<TokenField> {
    if r.sub is None {
        Some(TokenField::Sub)
    } else if r.time is None {
        Some(TokenField::Time)
    } else if r.randomness is None {
        Some(TokenField::Randomness)
    } else if r.exp is None {
        Some(TokenField::Exp)
    } else if r.is_session is None {
        Some(TokenField::Type)
    } else if !r.iss_seen {
        Some(TokenField::Iss)
    } else if !r.scope_seen {
        Some(TokenField::Scope)
    } else if !r.aud_seen {
        Some(TokenField::Aud)
    } else {
        None
    }
}

impl TokenPayloadReader {
    /// A reader that has read nothing.
    pub fn new() -> (r: Self)
        ensures
            forall|f: TokenField| !seen(r, f),
    {
        TokenPayloadReader {
            sub: None,
            time: None,
            randomness: None,
            exp: None,
            is_session: None,
            iss_seen: false,
            scope_seen: false,
            aud_seen: false,
        }
    }

    /// Refuses a field that has already been read.
    pub fn check_field(&self, field: TokenField) -> (r: Result<(), TokenPayloadError>)
        ensures
            r is Err <==> seen(*self, field),
            r matches Err(e) ==> e == TokenPayloadError::DuplicateField(field),
    {
        let dup = match field {
            TokenField::Sub => self.sub.is_some(),
            TokenField::Time => self.time.is_some(),
            TokenField::Randomness => self.randomness.is_some(),
            TokenField::Exp => self.exp.is_some(),
            TokenField::Type => self.is_session.is_some(),
            TokenField::Iss => self.iss_seen,
            TokenField::Scope => self.scope_seen,
            TokenField::Aud => self.aud_seen,
        };
        if dup {
            Err(TokenPayloadError::DuplicateField(field))
        } else {
            Ok(())
        }
    }

    /// Reads one field with its value. A repeated field is refused; `type`
    /// must be `session` or `web`, and `iss`, `scope` and `aud` must hold the
    /// expected values. On success the field is recorded and nothing else
    /// changes; on failure the reader is left as it was.
    pub fn accept(&mut self, entry: TokenEntry) -> (r: Result<(), TokenPayloadError>)
        ensures
            seen(*old(self), entry_field(entry)) ==> r == Err::<(), TokenPayloadError>(
                TokenPayloadError::DuplicateField(entry_field(entry)),
            ),
            !seen(*old(self), entry_field(entry)) ==> (match entry {
                TokenEntry::Sub(v) => r is Ok && *final(self) == TokenPayloadReader { sub: Some(v), ..*old(self) },
                TokenEntry::Time(v) => r is Ok && *final(self) == TokenPayloadReader { time: Some(v), ..*old(self) },
                TokenEntry::Randomness(v) => r is Ok && *final(self) == TokenPayloadReader { randomness: Some(v), ..*old(self) },
                TokenEntry::Exp(v) => r is Ok && *final(self) == TokenPayloadReader { exp: Some(v), ..*old(self) },
                TokenEntry::Type(v) => if v@ == "session"@ {
                    r is Ok && *final(self) == TokenPayloadReader { is_session: Some(true), ..*old(self) }
                } else if v@ == "web"@ {
                    r is Ok && *final(self) == TokenPayloadReader { is_session: Some(false), ..*old(self) }
                } else {
                    r == Err::<(), TokenPayloadError>(TokenPayloadError::InvalidType)
                },
                TokenEntry::Iss(v) => if v@ == issuer() {
                    r is Ok && *final(self) == TokenPayloadReader { iss_seen: true, ..*old(self) }
                } else {
                    r == Err::<(), TokenPayloadError>(TokenPayloadError::InvalidIssuer)
                },
                TokenEntry::Scope(v) => if v@ == token_scope() {
                    r is Ok && *final(self) == TokenPayloadReader { scope_seen: true, ..*old(self) }
                } else {
                    r == Err::<(), TokenPayloadError>(TokenPayloadError::InvalidScope)
                },
                TokenEntry::Aud(v) => if v@ == audience() {
                    r is Ok && *final(self) == TokenPayloadReader { aud_seen: true, ..*old(self) }
                } else {
                    r == Err::<(), TokenPayloadError>(TokenPayloadError::InvalidAudience)
                },
            }),
            r is Err ==> *final(self) == *old(self),
    {
        let field = match &entry {
            TokenEntry::Sub(_) => TokenField::Sub,
            TokenEntry::Time(_) => TokenField::Time,
            TokenEntry::Randomness(_) => TokenField::Randomness,
            TokenEntry::Exp(_) => TokenField::Exp,
            TokenEntry::Iss(_) => TokenField::Iss,
            TokenEntry::Scope(_) => TokenField::Scope,
            TokenEntry::Aud(_) => TokenField::Aud,
            TokenEntry::Type(_) => TokenField::Type,
        };
        match self.check_field(field) {
            Err(e) => return Err(e),
            Ok(()) => {},
        }
        match entry {
            TokenEntry::Sub(v) => {
                self.sub = Some(v);
            },
            TokenEntry::Time(v) => {
                self.time = Some(v);
            },
            TokenEntry::Randomness(v) => {
                self.randomness = Some(v);
            },
            TokenEntry::Exp(v) => {
                self.exp = Some(v);
            },
            TokenEntry::Type(v) => {
                if str_eq(v.as_str(), "session") {
                    self.is_session = Some(true);
                } else if str_eq(v.as_str(), "web") {
                    self.is_session = Some(false);
                } else {
                    return Err(TokenPayloadError::InvalidType);
                }
            },
            TokenEntry::Iss(v) => {
                if str_eq(v.as_str(), "https://authentication.cursor.sh") {
                    self.iss_seen = true;
                } else {
                    return Err(TokenPayloadError::InvalidIssuer);
                }
            },
            TokenEntry::Scope(v) => {
                if str_eq(v.as_str(), "openid profile email offline_access") {
                    self.scope_seen = true;
                } else {
                    return Err(TokenPayloadError::InvalidScope);
                }
            },
            TokenEntry::Aud(v) => {
                if str_eq(v.as_str(), "https://cursor.com") {
                    self.aud_seen = true;
                } else {
                    return Err(TokenPayloadError::InvalidAudience);
                }
            },
        }
        Ok(())
    }

    /// The payload once the object has been read: refused with the first
    /// required field that is missing, in the order sub, time, randomness,
    /// exp, type, iss, scope, aud.
    pub fn finish(self) -> (r: Result<TokenPayload, TokenPayloadError>)
        ensures
            (match first_missing(self) {
                Some(f) => r == Err::<TokenPayload, TokenPayloadError>(TokenPayloadError::MissingField(f)),
                None => r == Ok::<TokenPayload, TokenPayloadError>(
                    TokenPayload {
                        sub: self.sub->0,
                        time: self.time->0,
                        randomness: self.randomness->0,
                        exp: self.exp->0,
                        is_session: self.is_session->0,
                    },
                ),
            }),
    {
        let TokenPayloadReader { sub, time, randomness, exp, is_session, iss_seen, scope_seen, aud_seen } = self;
        let sub = match sub {
            Some(v) => v,
            None => return Err(TokenPayloadError::MissingField(TokenField::Sub)),
        };
        let time = match time {
            Some(v) => v,
            None => return Err(TokenPayloadError::MissingField(TokenField::Time)),
        };
        let randomness = match randomness {
            Some(v) => v,
            None => return Err(TokenPayloadError::MissingField(TokenField::Randomness)),
        };
        let exp = match exp {
            Some(v) => v,
            None => return Err(TokenPayloadError::MissingField(TokenField::Exp)),
        };
        let is_session = match is_session {
            Some(v) => v,
            None => return Err(TokenPayloadError::MissingField(TokenField::Type)),
        };
        if !iss_seen {
            return Err(TokenPayloadError::MissingField(TokenField::Iss));
        }
        if !scope_seen {
            return Err(TokenPayloadError::MissingField(TokenField::Scope));
        }
        if !aud_seen {
            return Err(TokenPayloadError::MissingField(TokenField::Aud));
        }
        Ok(TokenPayload { sub, time, randomness, exp, is_session })
    }
}

} // verus!
