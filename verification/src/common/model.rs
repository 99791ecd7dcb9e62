//! Response and data models shared across the service.
use std::borrow::Cow;
use vstd::prelude::*;

pub mod config;
pub mod error;
pub mod health;
pub mod token;


pub mod tri;
pub mod userinfo;

verus! {

/// Outcome of an API call.
#[derive(Debug, Clone, Copy, PartialEq, Eq, Structural)]
pub enum ApiStatus {
    Success,
    Error,
}

/// A generic error response.
pub struct GenericError {
    pub status: ApiStatus,
    pub code: Option<u16>,
    pub error: Option<Cow<'static, str>>,
    pub message: Option<Cow<'static, str>>,
}

/// The text of an optional `Cow` string.
pub open spec fn opt_text(c: Option<Cow<'static, str>>) -> Option<Seq<char>> {
    match c {
        Some(s) => Some(s@),
        None => None,
    }
}

} // verus!
