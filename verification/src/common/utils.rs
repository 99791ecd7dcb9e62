pub mod base62;
pub mod base64;
pub mod checksum;
pub mod duration_fmt;
pub mod hex;
pub mod standard_base64;
pub mod string_builder;
pub mod tokens;

use ::base64::Engine as _;
use rand::TryRngCore as _;
use sha2::Digest as _;
use std::io::Write as _;
use vstd::prelude::*;

verus! {

/// `s` without two leading line feeds, when it starts with them.
pub open spec fn without_leading_newlines(s: Seq<char>) -> Seq<char> {
    if s.len() >= 2 && s[0] == '\n' && s[1] == '\n' {
        s.skip(2)
    } else {
        s
    }
}

/// Text that can drop a leading blank line.
pub trait TrimNewlines: Sized {
    /// The text.
    spec fn newline_text(&self) -> Seq<char>;

    /// The text without two leading line feeds, when it starts with them.
    fn trim_leading_newlines(self) -> (r: Self)
        ensures
            r.newline_text() == without_leading_newlines(self.newline_text()),
    ;
}

impl<'a> TrimNewlines for &'a str {
    open spec fn newline_text(&self) -> Seq<char> {
        (*self)@
    }

    fn trim_leading_newlines(self) -> (r: Self) {
        let n = self.unicode_len();
        if n >= 2 && self.get_char(0) == '\n' && self.get_char(1) == '\n' {
            let t = self.substring_char(2, n);
            assert(t@ =~= self@.skip(2));
            t
        } else {
            self
        }
    }
}

impl TrimNewlines for String {
    open spec fn newline_text(&self) -> Seq<char> {
        self@
    }

    fn trim_leading_newlines(self) -> (r: Self) {
        let n = self.as_str().unicode_len();
        if n >= 2 && self.as_str().get_char(0) == '\n' && self.as_str().get_char(1) == '\n' {
            let t = self.as_str().substring_char(2, n).to_owned();
            assert(t@ =~= self@.skip(2));
            t
        } else {
            self
        }
    }
}

/// The filter of a usage-event query: a period (Unix milliseconds), a model
/// and a page size.
pub struct FilteredUsageArgs {
    pub start: Option<i64>,
    pub end: Option<i64>,
    pub model_id: Option<&'static str>,
    pub size: Option<i32>,
}

/// Seconds in a day.
pub const DAY_SECS: i64 = 86400;

/// How far the clock of usage queries is behind UTC, in seconds (UTC-16).
pub const USAGE_TZ_WEST_SECS: i64 = 57600;

/// The instant (Unix milliseconds) at which the day that holds the instant
/// `now_secs` (Unix seconds) begins on the clock of usage queries (UTC-16).
pub open spec fn usage_day_start_ms(now_secs: int) -> int {
    ((now_secs - USAGE_TZ_WEST_SECS) / (DAY_SECS as int) * DAY_SECS + USAGE_TZ_WEST_SECS) * 1000
}

/// The first instant of a default query period: seven days before the
/// current day begins.
pub open spec fn usage_default_start_ms(now_secs: int) -> int {
    usage_day_start_ms(now_secs) - 7 * DAY_SECS * 1000
}

/// The last instant of a default query period: the last millisecond of the
/// current day.
pub open spec fn usage_default_end_ms(now_secs: int) -> int {
    usage_day_start_ms(now_secs) + DAY_SECS * 1000 - 1
}

/// The beginning of the current day on the clock of usage queries
/// (see `usage_day_start_ms`).
fn usage_day_start(now_secs: i64) -> (r: i64)
    requires
        -9_000_000_000_000 <= now_secs <= 9_000_000_000_000,
    ensures
        r == usage_day_start_ms(now_secs as int),
{
    let shift: i64 = 200_000_000 * DAY_SECS;
    let shifted: i64 = now_secs - USAGE_TZ_WEST_SECS + shift;
    let days: i64 = ((shifted as u64) / (DAY_SECS as u64)) as i64 - 200_000_000;
    assert(days == (now_secs - 57600) / 86400int) by (nonlinear_arith)
        requires
            shifted == now_secs - 57600 + 200_000_000 * 86400,
            shifted >= 0,
            days == (shifted as int) / 86400int - 200_000_000,
    ;
    assert(-200_000_000 <= days <= 200_000_000) by (nonlinear_arith)
        requires
            days == (now_secs - 57600) / 86400int,
            -9_000_000_000_000 <= now_secs <= 9_000_000_000_000,
    ;
    (days * DAY_SECS + USAGE_TZ_WEST_SECS) * 1000
}

impl crate::api::aiserver::v1::GetFilteredUsageEventsRequest {
    /// The query for a filter: page 1 of `size` events (100 by default) of
    /// the model, in the given period; a bound that is missing is taken
    /// from the current day on the clock of usage queries, which the
    /// instant `now_secs` (Unix seconds) falls on: the period then runs from
    /// seven days before that day to its end.
    pub fn from_args(args: FilteredUsageArgs, now_secs: i64) -> (r: Self)
        requires
            -9_000_000_000_000 <= now_secs <= 9_000_000_000_000,
        ensures
            r.team_id == 0,
            r.start_date matches Some(s) && s == match args.start {
                Some(a) => a as int,
                None => usage_default_start_ms(now_secs as int),
            },
            r.end_date matches Some(e) && e == match args.end {
                Some(b) => b as int,
                None => usage_default_end_ms(now_secs as int),
            },
            r.user_id is None,
            match args.model_id {
                Some(m) => r.model_id matches Some(s) && s@ == m@,
                None => r.model_id is None,
            },
            r.page == Some(1i32),
            r.page_size == Some(
                match args.size {
                    Some(n) => n,
                    None => 100i32,
                },
            ),
    {
        let day_start = usage_day_start(now_secs);
        let start_date = match args.start {
            Some(a) => a,
            None => day_start - 7 * DAY_SECS * 1000,
        };
        let end_date = match args.end {
            Some(b) => b,
            None => day_start + DAY_SECS * 1000 - 1,
        };
        let model_id = match args.model_id {
            Some(m) => Some(m.to_owned()),
            None => None,
        };
        let page_size = match args.size {
            Some(n) => n,
            None => 100,
        };
        crate::api::aiserver::v1::GetFilteredUsageEventsRequest {
            team_id: 0,
            start_date: Some(start_date),
            end_date: Some(end_date),
            user_id: None,
            model_id,
            page: Some(1),
            page_size: Some(page_size),
        }
    }
}

} // verus!

verus! {

/// The gzip stream (compression level 6, no file name, zero time stamp) of
/// `data`, as the `flate2` crate writes it.
pub uninterp spec fn gzip6(data: Seq<u8>) -> Seq<u8>;

/// Compresses `data` with gzip at level 6; `None` when the compressor reports
/// an error.
///
/// Trusted: calls `flate2::write::GzEncoder::new` with `Compression::new(6)`,
/// `write_all` and `finish`. The stream depends on the data alone (the header
/// holds a zero time stamp); it is only named, not described.
#[verifier::external_body]
fn compress_gzip(data: &[u8]) -> (r: Option<Vec<u8>>)
    ensures
        r matches Some(v) ==> v@ == gzip6(data@),
{
    let mut encoder = flate2::write::GzEncoder::new(Vec::new(), flate2::Compression::new(6));
    match encoder.write_all(data) {
        Ok(()) => encoder.finish().ok(),
        Err(_) => None,
    }
}

/// Why a message could not be framed.
#[derive(Clone, Copy, Debug, PartialEq, Eq, Structural)]
pub enum EncodeError {
    /// The compressor failed.
    Compression,
    /// The body is longer than a 32-bit length can say.
    LengthOverflow,
}

/// The four big-endian bytes of `n` (`n < 2^32`).
pub open spec fn be32(n: nat) -> Seq<u8> {
    seq![((n / 0x1000000) % 256) as u8, ((n / 0x10000) % 256) as u8, ((n / 0x100) % 256) as u8, (n % 256) as u8]
}

/// A frame of the stream protocol: a flag byte (1 when the body is
/// compressed), the body's length in four big-endian bytes, then the body.
pub open spec fn frame(flag: u8, body: Seq<u8>) -> Seq<u8> {
    seq![flag] + be32(body.len()) + body
}

/// The framed form of an encoded message: a body of 1024 bytes or more is
/// sent compressed when compression makes it shorter.
pub open spec fn framed_message(encoded: Seq<u8>) -> Result<Seq<u8>, EncodeError> {
    let z = gzip6(encoded);
    let (flag, body) = if encoded.len() >= 1024 && z.len() < encoded.len() {
        (1u8, z)
    } else {
        (0u8, encoded)
    };
    if body.len() <= u32::MAX {
        Ok(frame(flag, body))
    } else {
        Err(EncodeError::LengthOverflow)
    }
}

/// The four big-endian bytes of `n`.
fn be32_bytes(n: u32) -> (r: [u8; 4])
    ensures
        r@ == be32(n as nat),
{
    let r = [(n / 0x1000000) as u8, ((n / 0x10000) % 256) as u8, ((n / 0x100) % 256) as u8, (n % 256) as u8];
    assert(r@ =~= be32(n as nat));
    r
}

/// An encoded message as it is sent: unchanged outside a stream, framed in a
/// stream (see `framed_message`); framing fails only when the compressor
/// fails or the body is too long.
pub fn encode_message(encoded: Vec<u8>, maybe_stream: bool) -> (r: Result<Vec<u8>, EncodeError>)
    ensures
        !maybe_stream ==> r == Ok::<Vec<u8>, EncodeError>(encoded),
        maybe_stream ==> (r matches Ok(v) ==> framed_message(encoded@) == Ok::<Seq<u8>, EncodeError>(v@)),
        maybe_stream ==> (r matches Err(e) ==> (e == EncodeError::Compression && encoded.len() >= 1024)
            || framed_message(encoded@) == Err::<Seq<u8>, EncodeError>(e)),
        maybe_stream && encoded.len() < 1024 ==> r is Ok,
{
    if !maybe_stream {
        return Ok(encoded);
    }
    let n = encoded.len();
    let (flag, body): (u8, Vec<u8>) = if n >= 1024 {
        match compress_gzip(encoded.as_slice()) {
            Some(z) => {
                if z.len() < n {
                    (1, z)
                } else {
                    (0, encoded)
                }
            },
            None => return Err(EncodeError::Compression),
        }
    } else {
        (0, encoded)
    };
    if body.len() > 0xffff_ffff {
        return Err(EncodeError::LengthOverflow);
    }
    let len = body.len() as u32;
    let header = be32_bytes(len);
    let mut buf: Vec<u8> = Vec::new();
    buf.push(flag);
    buf.push(header[0]);
    buf.push(header[1]);
    buf.push(header[2]);
    buf.push(header[3]);
    let ghost head = buf@;
    let mut i: usize = 0;
    while i < body.len()
        invariant
            i <= body.len(),
            head.len() == 5,
            buf@ == head + body@.take(i as int),
        decreases body.len() - i,
    {
        buf.push(body[i]);
        assert(body@.take(i as int + 1) =~= body@.take(i as int).push(body@[i as int]));
        i = i + 1;
    }
    assert(body@.take(body.len() as int) =~= body@);
    assert(head =~= seq![flag] + be32(body@.len()));
    Ok(buf)
}

/// The SHA-256 digest of `data`, as the `sha2` crate computes it.
pub uninterp spec fn sha256(data: Seq<u8>) -> Seq<u8>;

/// The SHA-256 digest of `data`.
///
/// Trusted: calls `sha2::Sha256::digest`; the digest depends on the data
/// alone and is 32 bytes long, as the algorithm fixes; it is otherwise only
/// named.
#[verifier::external_body]
fn sha256_digest(data: &[u8]) -> (r: Vec<u8>)
    ensures
        r@ == sha256(data@),
        r@.len() == 32,
{
    sha2::Sha256::digest(data).to_vec()
}

/// The URL-safe Base64 text of `bytes`, without padding.
///
/// Trusted: calls `URL_SAFE_NO_PAD.encode` of the `base64` crate,
/// which the crate documents as RFC 4648 Base64 with the URL-safe alphabet
/// and no padding: the encoding that `base64::spec_encode` states.
#[verifier::external_body]
fn url_safe_no_pad_encode(bytes: &[u8]) -> (r: String)
    requires
        bytes@.len() <= 0x1000_0000,
    ensures
        r@ == crate::common::utils::base64::spec_encode(bytes@),
{
    ::base64::engine::general_purpose::URL_SAFE_NO_PAD.encode(bytes)
}

/// Thirty-two bytes from the operating system's secure random source; `None`
/// when the source fails.
///
/// Trusted: calls `rand::rngs::OsRng::try_fill_bytes`; nothing is stated of
/// the bytes but their number.
#[verifier::external_body]
fn os_random_32() -> (r: Option<[u8; 32]>) {
    let mut bytes = [0u8; 32];
    match rand::rngs::OsRng.try_fill_bytes(&mut bytes) {
        Ok(()) => Some(bytes),
        Err(_) => None,
    }
}

/// A PKCE pair for the S256 method from the verifier's random bytes: the
/// verifier is their URL-safe Base64 text, the challenge the URL-safe Base64
/// text of the SHA-256 digest of the verifier's text.
pub fn pkce_pair_from(random: &[u8; 32]) -> (r: (String, String))
    ensures
        r.0@ == crate::common::utils::base64::spec_encode(random@),
        r.1@ == crate::common::utils::base64::spec_encode(sha256(r.0@.map_values(|c: char| c as u8))),
{
    let verifier = url_safe_no_pad_encode(random);
    let vs = verifier.as_str();
    let bytes = vs.as_bytes();
    let ghost vb = bytes@;
    proof {
        crate::common::utils::base64::lemma_encode_ascii(random@);
        vstd::string::is_ascii_spec_bytes(vs);
        assert(vb =~= verifier@.map_values(|c: char| c as u8));
    }
    let digest = sha256_digest(bytes);
    let challenge = url_safe_no_pad_encode(digest.as_slice());
    (verifier, challenge)
}

/// A fresh PKCE pair (see `pkce_pair_from`); `None` when the random source
/// fails.
pub fn generate_pkce_pair() -> (r: Option<(String, String)>)
    ensures
        r matches Some(p) ==> exists|random: Seq<u8>|
            #![trigger crate::common::utils::base64::spec_encode(random)]
            random.len() == 32 && p.0@ == crate::common::utils::base64::spec_encode(random) && p.1@
                == crate::common::utils::base64::spec_encode(sha256(p.0@.map_values(|c: char| c as u8))),
{
    match os_random_32() {
        Some(random) => Some(pkce_pair_from(&random)),
        None => None,
    }
}

} // verus!

verus! {

/// `s` with ASCII upper-case letters made lower case.
pub open spec fn ascii_lower(s: Seq<char>) -> Seq<char> {
    s.map_values(|c: char| if 'A' <= c && c <= 'Z' { ((c as u32) + 32) as char } else { c })
}

/// The setting that an environment value gives a flag: `true` or `1` turn
/// it on and `false` or `0` off, in any ASCII case and with surrounding white
/// space; anything else, or no value, leaves the default.
pub open spec fn bool_setting(value: Option<Seq<char>>, default: bool) -> bool {
    match value {
        Some(v) => {
            let t = crate::text::trim(ascii_lower(v));
            if t == "true"@ || t == "1"@ {
                true
            } else if t == "false"@ || t == "0"@ {
                false
            } else {
                default
            }
        },
        None => default,
    }
}

/// `s` with ASCII upper-case letters made lower case.
fn to_ascii_lower(s: &str) -> (r: String)
    ensures
        r@ == ascii_lower(s@),
{
    let n = s.unicode_len();
    let mut r = String::new();
    let mut i: usize = 0;
    while i < n
        invariant
            n == s@.len(),
            i <= n,
            r@ == ascii_lower(s@.take(i as int)),
        decreases n - i,
    {
        let c = s.get_char(i);
        let d = if 'A' <= c && c <= 'Z' {
            ((c as u8) + 32) as char
        } else {
            c
        };
        crate::text::push_char(&mut r, d);
        assert(s@.take(i as int + 1) =~= s@.take(i as int).push(c));
        assert(ascii_lower(s@.take(i as int + 1)) =~= ascii_lower(s@.take(i as int)).push(d));
        i = i + 1;
    }
    assert(s@.take(n as int) =~= s@);
    r
}

/// The setting that an environment value gives a flag (see `bool_setting`).
pub fn parse_bool_value(value: Option<String>, default: bool) -> (r: bool)
    ensures
        r == bool_setting(
            match value {
                Some(v) => Some(v@),
                None => None,
            },
            default,
        ),
{
    match value {
        Some(v) => {
            let lower = to_ascii_lower(v.as_str());
            let t = crate::text::str_trim(lower.as_str());
            if crate::text::str_eq(t, "true") || crate::text::str_eq(t, "1") {
                true
            } else if crate::text::str_eq(t, "false") || crate::text::str_eq(t, "0") {
                false
            } else {
                default
            }
        },
        None => default,
    }
}

/// The text that an environment value gives a setting: the value without
/// surrounding white space, or the default when that leaves nothing or there
/// is no value.
pub fn parse_string_value(value: Option<String>, default: &'static str) -> (r: String)
    ensures
        r@ == (match value {
            Some(v) => if crate::text::trim(v@).len() > 0 {
                crate::text::trim(v@)
            } else {
                default@
            },
            None => default@,
        }),
{
    match value {
        Some(v) => {
            let t = crate::text::str_trim(v.as_str());
            if t.unicode_len() > 0 {
                t.to_owned()
            } else {
                default.to_owned()
            }
        },
        None => default.to_owned(),
    }
}

} // verus!
