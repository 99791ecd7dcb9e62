//! The chat models that the service offers, message roles and message ids.
use vstd::prelude::*;

pub mod anthropic;
pub mod openai;
pub mod parser;

use crate::common::utils::base62::{encode_bytes, spec_base62};
use crate::text::{push_char, str_eq};

verus! {

/// The author of a chat message.
#[derive(Clone, Copy, Debug, PartialEq, Eq, Structural)]
pub enum Role {
    System,
    User,
    Assistant,
}

/// The role named `s` in a chat request: `system` (or `developer`), `user`
/// (or `human`) and `assistant` (or `ai`).
pub open spec fn role_named(s: Seq<char>) -> Option<Role> {
    if s == "system"@ || s == "developer"@ {
        Some(Role::System)
    } else if s == "user"@ || s == "human"@ {
        Some(Role::User)
    } else if s == "assistant"@ || s == "ai"@ {
        Some(Role::Assistant)
    } else {
        None
    }
}

impl Role {
    /// The role named `s`, accepting each role's alias; `None` for any other name.
    pub fn from_name(s: &str) -> (r: Option<Role>)
        ensures
            r == role_named(s@),
    {
        if str_eq(s, "system") || str_eq(s, "developer") {
            Some(Role::System)
        } else if str_eq(s, "user") || str_eq(s, "human") {
            Some(Role::User)
        } else if str_eq(s, "assistant") || str_eq(s, "ai") {
            Some(Role::Assistant)
        } else {
            None
        }
    }

    /// The name under which the role is sent.
    pub fn as_str(&self) -> (r: &'static str)
        ensures
            r@ == (match *self {
                Role::System => "system"@,
                Role::User => "user"@,
                Role::Assistant => "assistant"@,
            }),
    {
        match self {
            Role::System => "system",
            Role::User => "user",
            Role::Assistant => "assistant",
        }
    }
}

/// A chat model: its ids, its owner and what it supports.
pub struct Model {
    /// The id under which the upstream service knows the model.
    pub server_id: String,
    /// The name shown to clients.
    pub client_id: String,
    /// The id under which clients ask for the model.
    pub id: String,
    pub owned_by: &'static str,
    pub is_thinking: bool,
    pub is_image: bool,
    pub is_max: bool,
    pub is_non_max: bool,
}

/// What a model stands for.
pub struct ModelView {
    pub server_id: Seq<char>,
    pub client_id: Seq<char>,
    pub id: Seq<char>,
    pub owned_by: Seq<char>,
    pub is_thinking: bool,
    pub is_image: bool,
    pub is_max: bool,
    pub is_non_max: bool,
}

pub open spec fn model_view(m: Model) -> ModelView {
    ModelView {
        server_id: m.server_id@,
        client_id: m.client_id@,
        id: m.id@,
        owned_by: m.owned_by@,
        is_thinking: m.is_thinking,
        is_image: m.is_image,
        is_max: m.is_max,
        is_non_max: m.is_non_max,
    }
}

/// Two models are the same entry when their client ids and capabilities
/// agree; the server and display ids and the owner are not compared.
pub open spec fn same_model(a: Model, b: Model) -> bool {
    a.id@ == b.id@ && a.is_thinking == b.is_thinking && a.is_image == b.is_image && a.is_max == b.is_max
        && a.is_non_max == b.is_non_max
}

impl Model {
    /// A copy of this model.
    pub fn duplicate(&self) -> (r: Model)
        ensures
            model_view(r) == model_view(*self),
    {
        Model {
            server_id: self.server_id.clone(),
            client_id: self.client_id.clone(),
            id: self.id.clone(),
            owned_by: self.owned_by,
            is_thinking: self.is_thinking,
            is_image: self.is_image,
            is_max: self.is_max,
            is_non_max: self.is_non_max,
        }
    }

    /// Whether the two models are the same entry (see `same_model`).
    pub fn same_as(&self, other: &Model) -> (r: bool)
        ensures
            r == same_model(*self, *other),
    {
        str_eq(self.id.as_str(), other.id.as_str()) && self.is_thinking == other.is_thinking
            && self.is_image == other.is_image && self.is_max == other.is_max && self.is_non_max
            == other.is_non_max
    }
}

/// The list of the service's models, as it is answered to clients.
pub struct ModelsResponse;

/// A message id: a 128-bit number written as 22 base-62 digits.
#[derive(Clone, Copy)]
pub struct MessageId(pub u128);

impl MessageId {
    /// The message id for the number `v`.
    pub fn new(v: u128) -> (r: Self)
        ensures
            r.0 == v,
    {
        MessageId(v)
    }

    /// The 22 base-62 digits of the id, most significant first.
    pub fn to_str(&self) -> (r: String)
        ensures
            r@ == spec_base62(self.0 as nat).map_values(|b: u8| b as char),
    {
        let mut buf: [u8; 22] = [0u8; 22];
        encode_bytes(self.0, &mut buf);
        let mut s = String::new();
        let mut i: usize = 0;
        while i < 22
            invariant
                i <= 22,
                buf@ == spec_base62(self.0 as nat),
                s@ == buf@.take(i as int).map_values(|b: u8| b as char),
            decreases 22 - i,
        {
            let b = buf[i];
            push_char(&mut s, b as char);
            assert(buf@.take(i as int + 1) =~= buf@.take(i as int).push(b));
            assert(buf@.take(i as int + 1).map_values(|b: u8| b as char) =~= buf@.take(i as int).map_values(
                |b: u8| b as char,
            ).push(b as char));
            i = i + 1;
        }
        assert(buf@.take(22) =~= buf@);
        s
    }
}

} // verus!
