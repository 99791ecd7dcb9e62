//! A model as the upstream service lists it.
use vstd::prelude::*;

verus! {

/// A model that the upstream service offers, with what the model list of
/// this service takes from it.
pub struct AvailableModel {
    /// The model's name, under which clients ask for it.
    pub name: String,
    pub default_on: bool,
    pub is_long_context_only: Option<bool>,
    pub is_chat_only: Option<bool>,
    pub supports_agent: Option<bool>,
    pub supports_thinking: Option<bool>,
    pub supports_images: Option<bool>,
    pub supports_auto_context: Option<bool>,
    pub supports_max_mode: Option<bool>,
    pub supports_non_max_mode: Option<bool>,
    pub context_token_limit: Option<i32>,
    pub context_token_limit_for_max_mode: Option<i32>,
    /// The name to show, when it differs from `name`.
    pub client_display_name: Option<String>,
    /// The upstream name, when it differs from `name`.
    pub server_model_name: Option<String>,
}

/// An optional flag read as `false` when it is absent.
pub open spec fn flag(b: Option<bool>) -> bool {
    match b {
        Some(v) => v,
        None => false,
    }
}

impl AvailableModel {
    /// Whether the model supports thinking (absent: no).
    pub fn supports_thinking(&self) -> (r: bool)
        ensures
            r == flag(self.supports_thinking),
    {
        match self.supports_thinking {
            Some(v) => v,
            None => false,
        }
    }

    /// Whether the model accepts images (absent: no).
    pub fn supports_images(&self) -> (r: bool)
        ensures
            r == flag(self.supports_images),
    {
        match self.supports_images {
            Some(v) => v,
            None => false,
        }
    }

    /// Whether the model has a max mode (absent: no).
    pub fn supports_max_mode(&self) -> (r: bool)
        ensures
            r == flag(self.supports_max_mode),
    {
        match self.supports_max_mode {
            Some(v) => v,
            None => false,
        }
    }

    /// Whether the model can run outside max mode (absent: no).
    pub fn supports_non_max_mode(&self) -> (r: bool)
        ensures
            r == flag(self.supports_non_max_mode),
    {
        match self.supports_non_max_mode {
            Some(v) => v,
            None => false,
        }
    }
}

} // verus!
