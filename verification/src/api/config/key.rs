//! The configuration that a dynamic API key carries.
use vstd::prelude::*;

verus! {

/// The settings of a dynamic API key.
pub struct KeyConfig {
    /// The token the key authenticates with.
    pub token_info: Option<TokenInfo>,
    /// The SHA-256 hash of the key's password.
    pub secret: Option<Vec<u8>>,
    pub disable_vision: Option<bool>,
    pub enable_slow_pool: Option<bool>,
    pub include_web_references: Option<bool>,
    pub usage_check_models: Option<UsageCheckModel>,
}

/// The token of a key with the client data that goes with it.
pub struct TokenInfo {
    pub token: Option<Token>,
    /// The checksum (64 bytes).
    pub checksum: Vec<u8>,
    /// The client key.
    pub client_key: Vec<u8>,
    pub config_version: Option<Vec<u8>>,
    pub session_id: Vec<u8>,
    pub proxy_name: Option<String>,
    pub timezone: Option<String>,
    pub gcpp_host: Option<i32>,
}

/// A session token in its stored form.
pub struct Token {
    pub provider: String,
    /// The user id (16 bytes).
    pub sub_id: Vec<u8>,
    /// The random part (8 bytes).
    pub randomness: Vec<u8>,
    /// Issue time (Unix seconds).
    pub start: i64,
    /// Expiry time (Unix seconds).
    pub end: i64,
    /// The signature (32 bytes).
    pub signature: Vec<u8>,
    pub is_session: bool,
}

/// Which models a key's requests are checked for usage.
pub struct UsageCheckModel {
    /// The wire number of the check type (see `Type`).
    pub check_type: i32,
    /// The models, when the type is custom.
    pub model_ids: Vec<String>,
}

/// The kinds of usage check.
#[derive(Clone, Copy, Debug, PartialEq, Eq, Structural)]
pub enum Type {
    Default,
    Disabled,
    All,
    Custom,
}

impl Type {
    /// The check type with wire number `v`; `None` for an unknown number.
    pub fn from_i32(v: i32) -> (r: Option<Type>)
        ensures
            r == (if v == 0 {
                Some(Type::Default)
            } else if v == 1 {
                Some(Type::Disabled)
            } else if v == 2 {
                Some(Type::All)
            } else if v == 3 {
                Some(Type::Custom)
            } else {
                None::<Type>
            }),
    {
        match v {
            0 => Some(Type::Default),
            1 => Some(Type::Disabled),
            2 => Some(Type::All),
            3 => Some(Type::Custom),
            _ => None,
        }
    }
}

/// The texts of a list of strings.
pub open spec fn strings_view(v: Seq<String>) -> Seq<Seq<char>> {
    v.map_values(|s: String| s@)
}

impl UsageCheckModel {
    /// A copy of this rule.
    pub fn duplicate(&self) -> (r: UsageCheckModel)
        ensures
            r.check_type == self.check_type,
            strings_view(r.model_ids@) == strings_view(self.model_ids@),
    {
        let mut ids: Vec<String> = Vec::new();
        let mut i: usize = 0;
        while i < self.model_ids.len()
            invariant
                i <= self.model_ids.len(),
                strings_view(ids@) == strings_view(self.model_ids@.take(i as int)),
            decreases self.model_ids.len() - i,
        {
            let ghost prev = ids@;
            let c = self.model_ids[i].clone();
            ids.push(c);
            assert(strings_view(prev.push(c)) =~= strings_view(prev).push(c@));
            assert(self.model_ids@.take(i as int + 1) =~= self.model_ids@.take(i as int).push(self.model_ids@[i as int]));
            assert(strings_view(self.model_ids@.take(i as int).push(self.model_ids@[i as int])) =~= strings_view(
                self.model_ids@.take(i as int),
            ).push(self.model_ids@[i as int]@));
            i = i + 1;
        }
        assert(self.model_ids@.take(self.model_ids.len() as int) =~= self.model_ids@);
        UsageCheckModel { check_type: self.check_type, model_ids: ids }
    }
}

} // verus!
