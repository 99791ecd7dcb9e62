//! The error body that the upstream service sends with a failed request.
use vstd::prelude::*;

use super::canonical::{
    CanonicalError, ErrorView, details_error_view, details_ok, error_view, status_for, sum_views, type_for,
};
use crate::api::aiserver::v1::{ErrorDetails, unknown_name};
use crate::common::utils::standard_base64::{standard_no_pad_decode, standard_no_pad_decode_bytes};
use crate::text::{append_string, has_prefix};

verus! {

/// An upstream error: its code and the error details that came with it.
pub struct CursorError {
    pub code: String,
    pub details: Vec<ErrorDetails>,
}

/// Every error detail's custom details have no repeated key.
pub open spec fn all_details_ok(d: Seq<ErrorDetails>) -> bool {
    forall|i: int| 0 <= i < d.len() ==> details_ok(#[trigger] d[i].details)
}

impl CursorError {
    /// The upstream error code.
    pub fn code(&self) -> (r: &str)
        ensures
            r@ == self.code@,
    {
        self.code.as_str()
    }

    /// The canonical error for this upstream error, carrying its code: with
    /// no details, an error of unknown kind; with one, the canonical error of
    /// that detail; with several, their sum.
    pub fn canonical(self) -> (r: CanonicalError)
        requires
            all_details_ok(self.details@),
        ensures
            r.code == Some(self.code),
            self.details.len() == 0 ==> (r.details is None && r.status_code == 500 && r.error_type@ == unknown_name()),
            self.details.len() == 1 ==> (r.details == self.details@[0].details && r.status_code == status_for(
                self.details@[0].error,
            ) && r.error_type@ == type_for(self.details@[0].error)),
            self.details.len() >= 2 ==> ({
                let s = sum_views(self.details@.map_values(|d: ErrorDetails| details_error_view(d)));
                &&& error_view(r).details == s.details
                &&& r.status_code == s.status
                &&& r.error_type@ == s.kind
            }),
    {
        let CursorError { code, details } = self;
        let n = details.len();
        let e = if n == 1 {
            let mut details = details;
            let d = details.remove(0);
            CanonicalError::from_details(d)
        } else if n == 0 {
            CanonicalError::unknown()
        } else {
            let ghost ds = details@;
            let mut rest = details;
            let mut errs: Vec<CanonicalError> = Vec::new();
            let mut i: usize = 0;
            while rest.len() > 0
                invariant
                    i <= ds.len(),
                    ds.len() <= usize::MAX,
                    rest@ == ds.skip(i as int),
                    all_details_ok(ds),
                    errs.len() == i,
                    forall|j: int| 0 <= j < i ==> details_ok(#[trigger] errs@[j].details),
                    forall|j: int| 0 <= j < i ==> #[trigger] error_view(errs@[j]) == details_error_view(ds[j]),
                decreases rest.len(),
            {
                let d = rest.remove(0);
                proof {
                    assert(ds.skip(i as int).remove(0) =~= ds.skip(i as int + 1));
                    assert(details_ok(ds[i as int].details));
                }
                errs.push(CanonicalError::from_details(d));
                i = i + 1;
            }
            proof {
                assert(errs@.map_values(|e: CanonicalError| error_view(e)) =~= ds.map_values(
                    |d: ErrorDetails| details_error_view(d),
                ));
            }
            CanonicalError::sum(errs)
        };
        e.with_code(code)
    }
}

/// The bytes of an error detail's value: standard, unpadded Base64 of a
/// protobuf message (see `standard_no_pad_decode`). A value that does not
/// decode is refused with `invalid Base64 string: ` and the decoder's
/// message.
pub fn error_detail_bytes(value: &str) -> (r: Result<Vec<u8>, String>)
    ensures
        (match r {
            Ok(v) => standard_no_pad_decode(value@) == Some(v@),
            Err(e) => standard_no_pad_decode(value@) is None && has_prefix(e@, "invalid Base64 string: "@),
        }),
{
    match standard_no_pad_decode_bytes(value) {
        Ok(v) => Ok(v),
        Err(msg) => {
            let mut e = String::from_str("invalid Base64 string: ");
            append_string(&mut e, msg);
            assert(e@.subrange(0, "invalid Base64 string: "@.len() as int) =~= "invalid Base64 string: "@);
            Err(e)
        },
    }
}

} // verus!
