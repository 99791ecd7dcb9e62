//! Dynamic API keys: the configuration that a key carries, how it is merged
//! into a request's configuration, and the token it holds.
use vstd::prelude::*;

pub mod key;

pub use key::{KeyConfig, Token, TokenInfo, Type, UsageCheckModel, strings_view};

use crate::common::utils::base64::{from_base64, spec_decode};
use crate::text::strip_prefix;

verus! {

/// The period in which a token is valid (Unix seconds).
pub struct TokenDuration {
    pub start: i64,
    pub end: i64,
}

/// The user a token was issued to.
pub struct Subject {
    /// The identity provider.
    pub provider: String,
    /// The user id.
    pub id: [u8; 16],
}

/// A session token in its decoded form.
pub struct RawToken {
    pub subject: Subject,
    pub randomness: [u8; 8],
    pub signature: [u8; 32],
    pub duration: TokenDuration,
    pub is_session: bool,
}

/// What a raw token stands for.
pub open spec fn raw_token_view(r: RawToken) -> (Seq<char>, Seq<u8>, Seq<u8>, Seq<u8>, i64, i64, bool) {
    (r.subject.provider@, r.subject.id@, r.randomness@, r.signature@, r.duration.start, r.duration.end, r.is_session)
}

/// What a stored token stands for, in the same shape.
pub open spec fn token_view(t: Token) -> (Seq<char>, Seq<u8>, Seq<u8>, Seq<u8>, i64, i64, bool) {
    (t.provider@, t.sub_id@, t.randomness@, t.signature@, t.start, t.end, t.is_session)
}

/// The bytes of `v` as an array of `N` bytes.
fn to_array<const N: usize>(v: &Vec<u8>) -> (r: [u8; N])
    requires
        v.len() == N,
    ensures
        r@ == v@,
{
    let mut a: [u8; N] = [0u8; N];
    let mut i: usize = 0;
    while i < N
        invariant
            v.len() == N,
            a@.len() == N,
            i <= N,
            forall|j: int| 0 <= j < i ==> a@[j] == v@[j],
        decreases N - i,
    {
        a.set(i, v[i]);
        i = i + 1;
    }
    assert(a@ =~= v@);
    a
}

/// The bytes of an array as a vector.
fn to_vec<const N: usize>(a: &[u8; N]) -> (r: Vec<u8>)
    ensures
        r@ == a@,
{
    let mut v: Vec<u8> = Vec::new();
    let mut i: usize = 0;
    while i < N
        invariant
            a@.len() == N,
            i <= N,
            v@ == a@.take(i as int),
        decreases N - i,
    {
        v.push(a[i]);
        assert(a@.take(i as int + 1) =~= a@.take(i as int).push(a@[i as int]));
        i = i + 1;
    }
    assert(a@.take(N as int) =~= a@);
    v
}

impl Token {
    /// The stored form of a raw token.
    pub fn from_raw(raw: RawToken) -> (r: Self)
        ensures
            token_view(r) == raw_token_view(raw),
    {
        let signature = to_vec(&raw.signature);
        let sub_id = to_vec(&raw.subject.id);
        let randomness = to_vec(&raw.randomness);
        Token {
            provider: raw.subject.provider,
            signature,
            sub_id,
            randomness,
            start: raw.duration.start,
            end: raw.duration.end,
            is_session: raw.is_session,
        }
    }

    /// The raw token that this stored token holds; `None` when the user id is
    /// not 16 bytes, the randomness not 8 or the signature not 32.
    pub fn into_raw(self) -> (r: Option<RawToken>)
        ensures
            r is Some <==> (self.sub_id.len() == 16 && self.randomness.len() == 8 && self.signature.len() == 32),
            r matches Some(raw) ==> raw_token_view(raw) == token_view(self),
    {
        if self.sub_id.len() != 16 || self.randomness.len() != 8 || self.signature.len() != 32 {
            return None;
        }
        let id: [u8; 16] = to_array(&self.sub_id);
        let randomness: [u8; 8] = to_array(&self.randomness);
        let signature: [u8; 32] = to_array(&self.signature);
        Some(
            RawToken {
                subject: Subject { provider: self.provider, id },
                randomness,
                signature,
                duration: TokenDuration { start: self.start, end: self.end },
                is_session: self.is_session,
            },
        )
    }
}

/// A token stored from a raw token has a 16-byte user id, 8 bytes of
/// randomness and a 32-byte signature, which is what `into_raw` asks for
/// before it hands back a raw token equal to the stored one.
pub proof fn lemma_stored_token_reads_back(raw: RawToken, t: Token)
    requires
        token_view(t) == raw_token_view(raw),
    ensures
        t.sub_id.len() == 16 && t.randomness.len() == 8 && t.signature.len() == 32,
{
}

impl KeyConfig {
    /// A key configuration that holds the service-wide settings: images are
    /// disabled when the service refuses them, and the slow pool and web
    /// references follow the service.
    pub fn new_with_global(vision_disabled: bool, slow_pool: bool, web_refs: bool) -> (r: Self)
        ensures
            r.token_info is None,
            r.secret is None,
            r.disable_vision == Some(vision_disabled),
            r.enable_slow_pool == Some(slow_pool),
            r.usage_check_models is None,
            r.include_web_references == Some(web_refs),
    {
        KeyConfig {
            token_info: None,
            secret: None,
            disable_vision: Some(vision_disabled),
            enable_slow_pool: Some(slow_pool),
            usage_check_models: None,
            include_web_references: Some(web_refs),
        }
    }

    /// Copies into `config` every setting that this configuration holds,
    /// leaving its token, secret and the settings this one lacks unchanged.
    pub fn copy_without_auth_token(&self, config: &mut Self)
        ensures
            final(config).token_info == old(config).token_info,
            final(config).secret == old(config).secret,
            final(config).disable_vision == (if self.disable_vision is Some {
                self.disable_vision
            } else {
                old(config).disable_vision
            }),
            final(config).enable_slow_pool == (if self.enable_slow_pool is Some {
                self.enable_slow_pool
            } else {
                old(config).enable_slow_pool
            }),
            final(config).include_web_references == (if self.include_web_references is Some {
                self.include_web_references
            } else {
                old(config).include_web_references
            }),
            self.usage_check_models is Some ==> (final(config).usage_check_models matches Some(u) && u.check_type
                == self.usage_check_models->0.check_type && strings_view(u.model_ids@)
                == strings_view(self.usage_check_models->0.model_ids@)),
            self.usage_check_models is None ==> final(config).usage_check_models == old(
                config,
            ).usage_check_models,
    {
        if self.disable_vision.is_some() {
            config.disable_vision = self.disable_vision;
        }
        if self.enable_slow_pool.is_some() {
            config.enable_slow_pool = self.enable_slow_pool;
        }
        match &self.usage_check_models {
            Some(u) => {
                config.usage_check_models = Some(u.duplicate());
            },
            None => {},
        }
        if self.include_web_references.is_some() {
            config.include_web_references = self.include_web_references;
        }
    }
}

/// The configuration bytes of a dynamic key: the key without its prefix,
/// decoded from Base64; `None` when the key lacks the prefix or the rest is
/// not Base64.
pub fn parse_dynamic_token(auth_token: &str, key_prefix: &str) -> (r: Option<Vec<u8>>)
    ensures
        (match r {
            Some(v) => auth_token@.len() >= key_prefix@.len() && auth_token@.take(key_prefix@.len() as int)
                == key_prefix@ && spec_decode(auth_token@.skip(key_prefix@.len() as int)) == Some(v@),
            None => !(auth_token@.len() >= key_prefix@.len() && auth_token@.take(key_prefix@.len() as int)
                == key_prefix@) || spec_decode(auth_token@.skip(key_prefix@.len() as int)) is None,
        }),
{
    match strip_prefix(auth_token, key_prefix) {
        Some(rest) => {
            assert(auth_token@.subrange(0, key_prefix@.len() as int) =~= auth_token@.take(key_prefix@.len() as int));
            from_base64(rest)
        },
        None => {
            assert(auth_token@.len() >= key_prefix@.len() ==> auth_token@.subrange(0, key_prefix@.len() as int)
                =~= auth_token@.take(key_prefix@.len() as int));
            None
        },
    }
}

} // verus!
