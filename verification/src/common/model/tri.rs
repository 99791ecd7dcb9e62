//! A three-state optional value: absent, explicitly null, or present.
use vstd::prelude::*;

verus! {

/// A field that may be missing, explicitly null, or hold a value.
#[derive(Clone)]
pub enum TriState<T> {
    Undefined,
    Null,
    Value(T),
}

impl<T> TriState<T> {
    /// Whether the field is missing.
    pub fn is_undefined(&self) -> (r: bool)
        ensures
            r == (self is Undefined),
    {
        match self {
            TriState::Undefined => true,
            _ => false,
        }
    }
}

} // verus!
