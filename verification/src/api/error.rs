//! Errors of the upstream stream: the canonical error that every failure is
//! reduced to, and the error that the upstream service sends.
use vstd::prelude::*;

pub mod canonical;
pub mod cursor;

pub use canonical::CanonicalError;
pub use cursor::CursorError;

verus! {

/// A failure while reading the upstream response stream.
pub enum StreamError {
    Upstream(CursorError),
    DataLengthLessThan5,
    EmptyStream,
}

/// The text that describes a stream error.
pub open spec fn stream_error_text(e: StreamError) -> Seq<char> {
    match e {
        StreamError::Upstream(c) => c.code@,
        StreamError::DataLengthLessThan5 => "data length less than 5"@,
        StreamError::EmptyStream => "empty stream"@,
    }
}

impl StreamError {
    /// The text that describes this error: the upstream error code, or a fixed
    /// description of the stream fault.
    pub fn to_string(&self) -> (r: String)
        ensures
            r@ == stream_error_text(*self),
    {
        match self {
            StreamError::Upstream(c) => c.code().to_owned(),
            StreamError::DataLengthLessThan5 => String::from_str("data length less than 5"),
            StreamError::EmptyStream => String::from_str("empty stream"),
        }
    }
}

} // verus!
