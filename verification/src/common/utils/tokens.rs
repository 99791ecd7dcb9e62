//! Session tokens in the token files: reading the token out of an entry,
//! and checking a token's claims. An entry may carry a prefix that ends in a
//! colon, written plainly (`:`) or escaped (`%3A`); the token is what
//! follows the last one. A token is a JWT whose payload's claims must name
//! the expected issuer, scope and audience and a period that holds the
//! present.
use vstd::prelude::*;

use crate::common::model::token::{StringI64, audience, issuer, parse_i64, token_scope};
use crate::common::utils::checksum::{decode_url_safe_no_pad, url_safe_no_pad_decode};
use crate::text::{lines_of, split_char, str_eq, str_lines, str_split_char, str_trim, string_texts, trim};

verus! {

/// The position of the last `:` in `s`, or -1 when there is none.
pub open spec fn last_colon(s: Seq<char>) -> int
    decreases s.len(),
{
    if s.len() == 0 {
        -1
    } else if s.last() == ':' {
        s.len() - 1
    } else {
        last_colon(s.drop_last())
    }
}

/// Whether an escaped colon `%3A` starts at `i` in `s`.
pub open spec fn escaped_colon_at(s: Seq<char>, i: int) -> bool {
    0 <= i && i + 3 <= s.len() && s[i] == '%' && s[i + 1] == '3' && s[i + 2] == 'A'
}

/// The position of the last `%3A` in `s`, or -1 when there is none.
pub open spec fn last_escaped_colon(s: Seq<char>) -> int
    decreases s.len(),
{
    if s.len() < 3 {
        -1
    } else if escaped_colon_at(s, s.len() - 3) {
        s.len() - 3
    } else {
        last_escaped_colon(s.drop_last())
    }
}

/// Where the token starts in an entry: just after the last colon, plain or
/// escaped, whichever comes later; at the start when there is none.
pub open spec fn token_start(s: Seq<char>) -> int {
    let c = last_colon(s);
    let e = last_escaped_colon(s);
    if c < 0 && e < 0 {
        0
    } else if c > e {
        c + 1
    } else {
        e + 3
    }
}

/// The last colon lies in the text and is a colon; none follows it.
pub proof fn lemma_last_colon(s: Seq<char>)
    ensures
        -1 <= last_colon(s) < s.len(),
        last_colon(s) >= 0 ==> s[last_colon(s)] == ':',
        forall|i: int| last_colon(s) < i < s.len() ==> s[i] != ':',
    decreases s.len(),
{
    if s.len() > 0 && s.last() != ':' {
        let t = s.drop_last();
        lemma_last_colon(t);
        assert forall|i: int| last_colon(s) < i < s.len() implies s[i] != ':' by {
            if i < s.len() - 1 {
                assert(s[i] == t[i]);
            }
        }
    }
}

/// The last escaped colon lies in the text and is one; none starts after it.
pub proof fn lemma_last_escaped_colon(s: Seq<char>)
    ensures
        -1 <= last_escaped_colon(s) <= s.len() - 3 || last_escaped_colon(s) == -1,
        last_escaped_colon(s) >= 0 ==> escaped_colon_at(s, last_escaped_colon(s)),
        forall|i: int| last_escaped_colon(s) < i ==> !escaped_colon_at(s, i),
    decreases s.len(),
{
    if s.len() >= 3 && !escaped_colon_at(s, s.len() - 3) {
        let t = s.drop_last();
        lemma_last_escaped_colon(t);
        assert forall|i: int| last_escaped_colon(s) < i implies !escaped_colon_at(s, i) by {
            if i < s.len() - 3 {
                assert(escaped_colon_at(s, i) == escaped_colon_at(t, i));
            }
        }
    }
}

/// The token starts within the entry.
pub proof fn lemma_token_start(s: Seq<char>)
    ensures
        0 <= token_start(s) <= s.len(),
{
    lemma_last_colon(s);
    lemma_last_escaped_colon(s);
}

/// Reading the token out of an entry a second time changes nothing: the
/// token holds no colon, plain or escaped, so it starts at its beginning.
pub proof fn lemma_token_start_idempotent(s: Seq<char>)
    ensures
        token_start(s.skip(token_start(s))) == 0,
{
    lemma_token_start(s);
    lemma_last_colon(s);
    lemma_last_escaped_colon(s);
    let k = token_start(s);
    let t = s.skip(k);
    lemma_last_colon(t);
    lemma_last_escaped_colon(t);
    if last_colon(t) >= 0 {
        let i = last_colon(t);
        assert(s[k + i] == ':');
    }
    if last_escaped_colon(t) >= 0 {
        let i = last_escaped_colon(t);
        assert(escaped_colon_at(s, k + i));
    }
}

/// The position of the last `:` (see `last_colon`).
fn rfind_colon(s: &str) -> (r: Option<usize>)
    ensures
        match r {
            Some(i) => i == last_colon(s@),
            None => last_colon(s@) == -1,
        },
{
    let mut i = s.unicode_len();
    assert(s@.take(i as int) =~= s@);
    while i > 0
        invariant
            i <= s@.len(),
            last_colon(s@) == last_colon(s@.take(i as int)),
        decreases i,
    {
        assert(s@.take(i as int).drop_last() =~= s@.take(i as int - 1));
        if s.get_char(i - 1) == ':' {
            return Some(i - 1);
        }
        i = i - 1;
    }
    None
}

/// The position of the last `%3A` (see `last_escaped_colon`).
fn rfind_escaped_colon(s: &str) -> (r: Option<usize>)
    ensures
        match r {
            Some(i) => i == last_escaped_colon(s@),
            None => last_escaped_colon(s@) == -1,
        },
{
    let mut i = s.unicode_len();
    assert(s@.take(i as int) =~= s@);
    while i >= 3
        invariant
            i <= s@.len(),
            last_escaped_colon(s@) == last_escaped_colon(s@.take(i as int)),
        decreases i,
    {
        let ghost t = s@.take(i as int);
        assert(t.drop_last() =~= s@.take(i as int - 1));
        if s.get_char(i - 3) == '%' && s.get_char(i - 2) == '3' && s.get_char(i - 1) == 'A' {
            assert(escaped_colon_at(t, i - 3));
            return Some(i - 3);
        }
        assert(!escaped_colon_at(t, i - 3));
        i = i - 1;
    }
    None
}

/// The token of an entry: what follows its last colon, plain or escaped
/// (see `token_start`); the whole entry when it has none.
pub fn parse_token(token_part: &str) -> (r: Option<String>)
    ensures
        r matches Some(t) && t@ == token_part@.skip(token_start(token_part@)),
{
    proof {
        lemma_last_colon(token_part@);
        lemma_last_escaped_colon(token_part@);
    }
    let n = token_part.unicode_len();
    let start: usize = match (rfind_colon(token_part), rfind_escaped_colon(token_part)) {
        (None, None) => 0,
        (Some(c), None) => c + 1,
        (None, Some(e)) => e + 3,
        (Some(c), Some(e)) => {
            if c > e {
                c + 1
            } else {
                e + 3
            }
        },
    };
    let token = token_part.substring_char(start, n);
    assert(token@ =~= token_part@.skip(start as int));
    Some(token.to_owned())
}

/// The header that every session token carries: HS256, type JWT, in
/// URL-safe Base64.
pub open spec fn jwt_header() -> Seq<char> {
    "eyJhbGciOiJIUzI1NiIsInR5cCI6IkpXVCJ9"@
}

/// The decoded payload of a token of three dot-separated parts: its second
/// part read as URL-safe, unpadded Base64; `None` when there are not three
/// parts or the part does not decode.
pub open spec fn jwt_payload_of(token: Seq<char>) -> Option<Seq<u8>> {
    let parts = split_char(token, '.');
    if parts.len() != 3 {
        None
    } else {
        url_safe_no_pad_decode(parts[1])
    }
}

/// The decoded payload of a token (see `jwt_payload_of`); with
/// `check_header`, also `None` unless the first part is `jwt_header`.
pub fn jwt_payload(token: &str, check_header: bool) -> (r: Option<Vec<u8>>)
    ensures
        r.deep_view() == (if check_header && !(split_char(token@, '.').len() == 3 && split_char(token@, '.')[0]
            == jwt_header()) {
            None
        } else {
            jwt_payload_of(token@)
        }),
{
    let parts = str_split_char(token, '.');
    proof {
        assert(string_texts(parts@).len() == parts@.len());
    }
    if parts.len() != 3 {
        return None;
    }
    assert(string_texts(parts@)[0] == parts@[0]@);
    assert(string_texts(parts@)[1] == parts@[1]@);
    if check_header && !str_eq(parts[0].as_str(), "eyJhbGciOiJIUzI1NiIsInR5cCI6IkpXVCJ9") {
        return None;
    }
    decode_url_safe_no_pad(parts[1].as_str())
}

/// A claim's value as the checks read it.
#[derive(Debug)]
pub enum ClaimValue {
    /// A JSON string.
    Str(String),
    /// A JSON number that is an integer in the range of `i64`.
    Int(i64),
    /// Any other JSON value.
    Other,
}

/// The claims of a token payload that the checks read; `None` for a claim
/// the payload lacks.
#[derive(Debug)]
pub struct TokenClaims {
    pub sub: Option<ClaimValue>,
    pub time: Option<ClaimValue>,
    pub randomness: Option<ClaimValue>,
    pub exp: Option<ClaimValue>,
    pub iss: Option<ClaimValue>,
    pub scope: Option<ClaimValue>,
    pub aud: Option<ClaimValue>,
}

/// Whether a claim is the string `text`.
pub open spec fn claim_is(c: Option<ClaimValue>, text: Seq<char>) -> bool {
    c matches Some(ClaimValue::Str(s)) && s@ == text
}

/// Whether the claims make a valid token at the instant `now` (Unix
/// seconds): every claim is there; `time` is a string holding an integer no
/// later than `now`; `randomness` is a string of 18 bytes; `exp` is an
/// integer no earlier than `now`; and `iss`, `scope` and `aud` name the
/// expected issuer, scope and audience.
pub open spec fn claims_valid(c: TokenClaims, now: i64) -> bool {
    &&& c.sub is Some
    &&& c.time is Some
    &&& c.randomness is Some
    &&& c.exp is Some
    &&& c.iss is Some
    &&& c.scope is Some
    &&& c.aud is Some
    &&& c.time matches Some(ClaimValue::Str(t)) && parse_i64(t@) matches Some(v) && v <= now
    &&& c.randomness matches Some(ClaimValue::Str(r)) && vstd::utf8::encode_utf8(r@).len() == 18
    &&& c.exp matches Some(ClaimValue::Int(e)) && now <= e
    &&& claim_is(c.iss, issuer())
    &&& claim_is(c.scope, token_scope())
    &&& claim_is(c.aud, audience())
}

/// Whether `c` is the string `text`.
fn claim_equals(c: &Option<ClaimValue>, text: &str) -> (r: bool)
    ensures
        r == claim_is(*c, text@),
{
    match c {
        Some(ClaimValue::Str(s)) => str_eq(s.as_str(), text),
        _ => false,
    }
}

/// Whether the claims make a valid token at the instant `now` (see
/// `claims_valid`).
pub fn check_claims(c: &TokenClaims, now: i64) -> (r: bool)
    ensures
        r == claims_valid(*c, now),
{
    if c.sub.is_none() || c.time.is_none() || c.randomness.is_none() || c.exp.is_none() || c.iss.is_none()
        || c.scope.is_none() || c.aud.is_none() {
        return false;
    }
    match &c.time {
        Some(ClaimValue::Str(t)) => match StringI64::parse(t.as_str()) {
            Some(v) => {
                if v.0 > now {
                    return false;
                }
            },
            None => return false,
        },
        _ => return false,
    }
    match &c.randomness {
        Some(ClaimValue::Str(r)) => {
            if r.as_str().as_bytes().len() != 18 {
                return false;
            }
        },
        _ => return false,
    }
    match &c.exp {
        Some(ClaimValue::Int(e)) => {
            if now > *e {
                return false;
            }
        },
        _ => return false,
    }
    let iss = "https://authentication.cursor.sh";
    let scope = "openid profile email offline_access";
    let aud = "https://cursor.com";
    claim_equals(&c.iss, iss) && claim_equals(&c.scope, scope) && claim_equals(&c.aud, aud)
}

/// The user id in a token's subject: the part after the first `|` (up to
/// the next one), or the whole subject when it has no `|`.
pub open spec fn user_id_of_sub(sub: Seq<char>) -> Seq<char> {
    let parts = split_char(sub, '|');
    if parts.len() >= 2 {
        parts[1]
    } else {
        sub
    }
}

/// The user id in a token's subject (see `user_id_of_sub`).
pub fn user_id_from_sub(sub: &str) -> (r: String)
    ensures
        r@ == user_id_of_sub(sub@),
{
    let mut parts = str_split_char(sub, '|');
    proof {
        assert(string_texts(parts@).len() == parts@.len());
    }
    if parts.len() >= 2 {
        assert(string_texts(parts@)[1] == parts@[1]@);
        parts.swap_remove(1)
    } else {
        sub.to_owned()
    }
}

/// Whether a trimmed line carries an entry: it is neither empty nor a
/// comment (starting with `#`).
pub open spec fn is_entry_line(l: Seq<char>) -> bool {
    l.len() > 0 && l[0] != '#'
}

/// The candidate tokens of the token file: its lines, trimmed, that are
/// neither empty nor comments, in order.
pub open spec fn token_file_lines_of(lines: Seq<Seq<char>>) -> Seq<Seq<char>>
    decreases lines.len(),
{
    if lines.len() == 0 {
        Seq::empty()
    } else {
        let rest = token_file_lines_of(lines.drop_last());
        let l = trim(lines.last());
        if is_entry_line(l) {
            rest.push(l)
        } else {
            rest
        }
    }
}

/// The entry of a line of the token list: the line, trimmed, must be
/// neither empty nor a comment and hold exactly one comma; the token is
/// read from the part before it (see `token_start`) and the checksum is the
/// part after it.
pub open spec fn list_entry(line: Seq<char>) -> Option<(Seq<char>, Seq<char>)> {
    let l = trim(line);
    let parts = split_char(l, ',');
    if is_entry_line(l) && parts.len() == 2 {
        Some((parts[0].skip(token_start(parts[0])), parts[1]))
    } else {
        None
    }
}

/// The entries of the token list's lines, in order.
pub open spec fn list_entries_of(lines: Seq<Seq<char>>) -> Seq<(Seq<char>, Seq<char>)>
    decreases lines.len(),
{
    if lines.len() == 0 {
        Seq::empty()
    } else {
        let rest = list_entries_of(lines.drop_last());
        match list_entry(lines.last()) {
            Some(e) => rest.push(e),
            None => rest,
        }
    }
}

/// The texts of a list of pairs of strings.
pub open spec fn pair_texts(v: Seq<(String, String)>) -> Seq<(Seq<char>, Seq<char>)> {
    v.map_values(|p: (String, String)| (p.0@, p.1@))
}

/// The candidate tokens of the token file's contents (see
/// `token_file_lines_of`).
pub fn token_file_lines(content: &str) -> (r: Vec<String>)
    ensures
        string_texts(r@) == token_file_lines_of(lines_of(content@)),
{
    let lines = str_lines(content);
    let ghost ls = lines_of(content@);
    let mut out: Vec<String> = Vec::new();
    let mut i: usize = 0;
    while i < lines.len()
        invariant
            i <= lines.len(),
            ls == string_texts(lines@),
            string_texts(out@) == token_file_lines_of(ls.take(i as int)),
        decreases lines.len() - i,
    {
        assert(ls.take(i as int + 1).drop_last() =~= ls.take(i as int));
        assert(ls.take(i as int + 1).last() == lines@[i as int]@);
        let l = str_trim(lines[i].as_str());
        if l.unicode_len() > 0 && l.get_char(0) != '#' {
            let ghost prev = out@;
            let t = l.to_owned();
            out.push(t);
            assert(string_texts(out@) =~= string_texts(prev).push(t@));
        }
        i = i + 1;
    }
    assert(ls.take(lines.len() as int) =~= ls);
    out
}

/// The entries of the token list's contents (see `list_entries_of`).
pub fn token_list_entries(content: &str) -> (r: Vec<(String, String)>)
    ensures
        pair_texts(r@) == list_entries_of(lines_of(content@)),
{
    let lines = str_lines(content);
    let ghost ls = lines_of(content@);
    let mut out: Vec<(String, String)> = Vec::new();
    let mut i: usize = 0;
    while i < lines.len()
        invariant
            i <= lines.len(),
            ls == string_texts(lines@),
            pair_texts(out@) == list_entries_of(ls.take(i as int)),
        decreases lines.len() - i,
    {
        assert(ls.take(i as int + 1).drop_last() =~= ls.take(i as int));
        assert(ls.take(i as int + 1).last() == lines@[i as int]@);
        let l = str_trim(lines[i].as_str());
        if l.unicode_len() > 0 && l.get_char(0) != '#' {
            let mut parts = str_split_char(l, ',');
            proof {
                assert(string_texts(parts@).len() == parts@.len());
            }
            if parts.len() == 2 {
                assert(string_texts(parts@)[0] == parts@[0]@);
                assert(string_texts(parts@)[1] == parts@[1]@);
                let checksum = parts.pop().unwrap();
                let token = match parse_token(parts[0].as_str()) {
                    Some(t) => t,
                    None => String::new(),
                };
                let ghost prev = out@;
                let ghost entry = (token@, checksum@);
                out.push((token, checksum));
                assert(pair_texts(out@) =~= pair_texts(prev).push(entry));
            }
        }
        i = i + 1;
    }
    assert(ls.take(lines.len() as int) =~= ls);
    out
}

} // verus!
