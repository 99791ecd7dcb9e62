//! Verified core of a Cursor API gateway: the formatting, encoding, parsing and
//! error-mapping logic that the HTTP service is built around.
use vstd::prelude::*;

pub mod common;
pub mod api;
pub mod text;

verus! {

} // verus!
