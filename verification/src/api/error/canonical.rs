//! The canonical error: what every upstream failure is reduced to before it is
//! answered.
use vstd::prelude::*;

use crate::api::aiserver::v1::error_details::error_of;
use crate::api::aiserver::v1::{
    CustomErrorDetails, ErrorDetails, info_map, keys_distinct, status_of, type_name_of, unknown_name,
};
use crate::text::push_char;

verus! {

/// An error as it is answered: an optional upstream code, optional custom
/// details, an HTTP status and the snake-case name of the error kind.
pub struct CanonicalError {
    pub code: Option<String>,
    pub details: Option<CustomErrorDetails>,
    pub status_code: u16,
    pub error_type: &'static str,
}

/// What custom error details stand for.
pub struct DetailsView {
    pub title: Seq<char>,
    pub detail: Seq<char>,
    pub info: Map<Seq<char>, Seq<char>>,
}

/// What a canonical error stands for.
pub struct ErrorView {
    pub code: Option<Seq<char>>,
    pub details: Option<DetailsView>,
    pub status: u16,
    pub kind: Seq<char>,
}

pub open spec fn details_view(d: CustomErrorDetails) -> DetailsView {
    DetailsView { title: d.title@, detail: d.detail@, info: info_map(d.additional_info@) }
}

pub open spec fn opt_details_view(d: Option<CustomErrorDetails>) -> Option<DetailsView> {
    match d {
        Some(x) => Some(details_view(x)),
        None => None,
    }
}

pub open spec fn opt_string_view(s: Option<String>) -> Option<Seq<char>> {
    match s {
        Some(x) => Some(x@),
        None => None,
    }
}

/// Custom details, where present, have no repeated key.
pub open spec fn details_ok(d: Option<CustomErrorDetails>) -> bool {
    match d {
        Some(x) => keys_distinct(x.additional_info@),
        None => true,
    }
}

pub open spec fn error_view(e: CanonicalError) -> ErrorView {
    ErrorView {
        code: opt_string_view(e.code),
        details: opt_details_view(e.details),
        status: e.status_code,
        kind: e.error_type@,
    }
}

/// The HTTP status for an upstream error number.
pub open spec fn status_for(error: i32) -> u16 {
    match error_of(error) {
        Some(e) => status_of(e),
        None => 500,
    }
}

/// The error-kind name for an upstream error number.
pub open spec fn type_for(error: i32) -> Seq<char> {
    match error_of(error) {
        Some(e) => type_name_of(e),
        None => unknown_name(),
    }
}

/// What the canonical error made from upstream error details stands for.
pub open spec fn details_error_view(d: ErrorDetails) -> ErrorView {
    ErrorView {
        code: None,
        details: opt_details_view(d.details),
        status: status_for(d.error),
        kind: type_for(d.error),
    }
}

/// Two optional codes joined: present codes are concatenated.
pub open spec fn merge_code(acc: Option<Seq<char>>, c: Option<Seq<char>>) -> Option<Seq<char>> {
    match c {
        None => acc,
        Some(x) => match acc {
            None => Some(x),
            Some(a) => Some(a + x),
        },
    }
}

/// Two optional details joined as `CustomErrorDetails::add` joins them.
pub open spec fn merge_details(acc: Option<DetailsView>, d: Option<DetailsView>) -> Option<DetailsView> {
    match d {
        None => acc,
        Some(x) => match acc {
            None => Some(x),
            Some(a) => Some(
                DetailsView {
                    title: a.title + seq!['&'] + x.title,
                    detail: a.detail + seq!['&'] + x.detail,
                    info: a.info.union_prefer_right(x.info),
                },
            ),
        },
    }
}

/// The errors summed: codes and details joined in order, and the status and
/// kind of the first error with the highest status (status 0 and `unknown`
/// when there is none above 0).
pub open spec fn sum_views(s: Seq<ErrorView>) -> ErrorView
    decreases s.len(),
{
    if s.len() == 0 {
        ErrorView { code: None, details: None, status: 0, kind: unknown_name() }
    } else {
        let a = sum_views(s.drop_last());
        let e = s.last();
        ErrorView {
            code: merge_code(a.code, e.code),
            details: merge_details(a.details, e.details),
            status: if a.status < e.status { e.status } else { a.status },
            kind: if a.status < e.status { e.kind } else { a.kind },
        }
    }
}

/// Replaces each underscore by a space.
pub open spec fn underscores_to_spaces(s: Seq<char>) -> Seq<char> {
    s.map_values(|c: char| if c == '_' { ' ' } else { c })
}

/// `s` with each underscore replaced by a space.
fn replace_underscores(s: &str) -> (r: String)
    ensures
        r@ == underscores_to_spaces(s@),
{
    let n = s.unicode_len();
    let mut r = String::new();
    let mut i: usize = 0;
    while i < n
        invariant
            n == s@.len(),
            i <= n,
            r@ == underscores_to_spaces(s@.take(i as int)),
        decreases n - i,
    {
        let c = s.get_char(i);
        if c == '_' {
            push_char(&mut r, ' ');
        } else {
            push_char(&mut r, c);
        }
        assert(s@.take(i as int + 1) =~= s@.take(i as int).push(c));
        assert(underscores_to_spaces(s@.take(i as int + 1)) =~= underscores_to_spaces(s@.take(i as int)).push(
            if c == '_' { ' ' } else { c },
        ));
        i = i + 1;
    }
    assert(s@.take(n as int) =~= s@);
    r
}

impl CanonicalError {
    /// The canonical error made from upstream error details: no code, the
    /// same custom details, and the status and kind name of the error number.
    pub fn from_details(error: ErrorDetails) -> (r: Self)
        ensures
            r.code is None,
            r.details == error.details,
            r.status_code == status_for(error.error),
            r.error_type@ == type_for(error.error),
    {
        CanonicalError {
            code: None,
            details: error.details,
            status_code: ErrorDetails::status_code(error.error),
            error_type: ErrorDetails::error_type(error.error),
        }
    }

    /// The error that stands for a failure of unknown kind: status 500.
    pub fn unknown() -> (r: Self)
        ensures
            r.code is None,
            r.details is None,
            r.status_code == 500,
            r.error_type@ == unknown_name(),
    {
        CanonicalError { code: None, details: None, status_code: 500, error_type: "unknown" }
    }

    /// This error with its upstream code set to `code`.
    pub fn with_code(self, code: String) -> (r: Self)
        ensures
            r.code == Some(code),
            r.details == self.details,
            r.status_code == self.status_code,
            r.error_type == self.error_type,
    {
        let mut s = self;
        s.code = Some(code);
        s
    }

    /// Several errors joined into one: codes and custom details joined in
    /// order, and the status and kind of the first error with the highest
    /// status.
    pub fn sum(errors: Vec<CanonicalError>) -> (r: Self)
        requires
            forall|i: int| 0 <= i < errors.len() ==> details_ok(#[trigger] errors@[i].details),
        ensures
            details_ok(r.details),
            error_view(r) == sum_views(errors@.map_values(|e: CanonicalError| error_view(e))),
    {
        let ghost all = errors@;
        let ghost views = all.map_values(|e: CanonicalError| error_view(e));
        let mut rest = errors;
        let mut code: Option<String> = None;
        let mut details: Option<CustomErrorDetails> = None;
        let mut status_code: u16 = 0;
        let mut error_type: &'static str = "unknown";
        let mut i: usize = 0;
        assert(views.take(0) =~= Seq::<ErrorView>::empty());
        assert(all.len() == rest.len());
        while rest.len() > 0
            invariant
                i <= all.len(),
                all.len() <= usize::MAX,
                rest@ == all.skip(i as int),
                views == all.map_values(|e: CanonicalError| error_view(e)),
                forall|j: int| 0 <= j < all.len() ==> details_ok(#[trigger] all[j].details),
                details_ok(details),
                ({
                    let a = sum_views(views.take(i as int));
                    &&& opt_string_view(code) == a.code
                    &&& opt_details_view(details) == a.details
                    &&& status_code == a.status
                    &&& error_type@ == a.kind
                }),
            decreases rest.len(),
        {
            let e = rest.remove(0);
            proof {
                assert(all.skip(i as int).remove(0) =~= all.skip(i as int + 1));
                assert(views.take(i as int + 1).drop_last() =~= views.take(i as int));
                assert(views.take(i as int + 1).last() == error_view(all[i as int]));
            }
            let CanonicalError { code: ecode, details: edetails, status_code: estatus, error_type: etype } = e;
            code = match ecode {
                Some(acode) => match code {
                    Some(c) => {
                        let mut c = c;
                        c.append(acode.as_str());
                        Some(c)
                    },
                    None => Some(acode),
                },
                None => code,
            };
            details = match edetails {
                Some(ad) => match details {
                    Some(d) => {
                        let mut d = d;
                        d.add(ad);
                        Some(d)
                    },
                    None => Some(ad),
                },
                None => details,
            };
            if status_code < estatus {
                status_code = estatus;
                error_type = etype;
            }
            i = i + 1;
        }
        assert(views.take(i as int) =~= views);
        CanonicalError { code, details, status_code, error_type }
    }

    /// The title of this error: the title of its custom details, or else its
    /// code with underscores read as spaces.
    pub fn title(&self) -> (r: Option<String>)
        ensures
            opt_string_view(r) == (match self.details {
                Some(d) => Some(d.title@),
                None => match self.code {
                    Some(c) => Some(underscores_to_spaces(c@)),
                    None => None,
                },
            }),
    {
        match &self.details {
            Some(details) => Some(details.title.clone()),
            None => match &self.code {
                Some(c) => Some(replace_underscores(c.as_str())),
                None => None,
            },
        }
    }

    /// The detail text of this error's custom details, if it has any.
    pub fn detail(&self) -> (r: Option<&str>)
        ensures
            r is Some == self.details is Some,
            r matches Some(t) ==> t@ == self.details->0.detail@,
    {
        match &self.details {
            Some(details) => Some(details.detail.as_str()),
            None => None,
        }
    }
}

} // verus!
