//! Answering requests: the checks that a chat request passes before it is
//! sent on.
use vstd::prelude::*;

pub mod cpp;
pub mod stream;

use crate::api::constant::{Models, views};
use crate::api::model::parser::{ExtModel, ext_model_named, ext_view};
use crate::api::aiserver::v1::available_models_response::AvailableModel;
use crate::common::model::error::ChatError;
use crate::common::model::{ApiStatus, GenericError, opt_text};
use std::borrow::Cow;
use crate::text::append_string;

verus! {

/// The model that a chat request names, checked: refused when no known model
/// answers to the name (see `ext_model_named`), then when the request holds
/// no message.
pub fn check_chat_request(model: &str, message_count: usize, models: &Models, bypass: bool) -> (r: Result<ExtModel, ChatError>)
    ensures
        (match r {
            Ok(m) => message_count > 0 && ext_model_named(model@, views(models.models@), bypass) == Some(ext_view(m)),
            Err(ChatError::ModelNotSupported(name)) => name@ == model@ && ext_model_named(model@, views(models.models@), bypass) is None,
            Err(ChatError::EmptyMessages) => message_count == 0 && ext_model_named(model@, views(models.models@), bypass) is Some,
            Err(_) => false,
        }),
{
    match ExtModel::from_str(model, models, bypass) {
        None => Err(ChatError::ModelNotSupported(model.to_owned())),
        Some(m) => {
            if message_count == 0 {
                Err(ChatError::EmptyMessages)
            } else {
                Ok(m)
            }
        },
    }
}

/// The model name of a request in the Anthropic format: `-thinking` is
/// appended when the request turns thinking on.
pub fn thinking_model_name(model: String, thinking_enabled: bool) -> (r: String)
    ensures
        r@ == (if thinking_enabled {
            model@ + "-thinking"@
        } else {
            model@
        }),
{
    if thinking_enabled {
        let mut m = model;
        append_string(&mut m, "-thinking".to_owned());
        m
    } else {
        model
    }
}

/// The answer to a request for the raw model list: the list last fetched
/// from the server, or, before any was fetched, a 404 error asking the
/// client to request the model list first.
pub fn raw_models_response(models: &Models) -> (r: Result<&Vec<AvailableModel>, GenericError>)
    ensures
        (match models.raw_models {
            Some(v) => r == Ok::<&Vec<AvailableModel>, GenericError>(&v),
            None => r matches Err(e) && e.status == ApiStatus::Error && e.code == Some(404u16)
                && opt_text(e.error) == Some("Models data not available"@)
                && opt_text(e.message) == Some("Please request /v1/models first to initialize models data"@),
        }),
{
    match models.raw_list() {
        Some(v) => Ok(v),
        None => Err(
            GenericError {
                status: ApiStatus::Error,
                code: Some(404),
                error: Some(Cow::Borrowed("Models data not available")),
                message: Some(Cow::Borrowed("Please request /v1/models first to initialize models data")),
            },
        ),
    }
}

/// The status a request's log entry records.
#[derive(Clone, Copy, Debug, PartialEq, Eq, Structural)]
pub enum LogStatus {
    Pending,
    Success,
    Failure,
}

/// The service's request counters and the status of one request's entry.
#[derive(Clone, Copy, Debug, PartialEq, Eq, Structural)]
pub struct RequestBook {
    pub total: u64,
    pub active: u64,
    pub errors: u64,
    pub status: LogStatus,
}

/// What happens to a chat request, as the bookkeeping sees it.
#[derive(Clone, Copy, Debug, PartialEq, Eq, Structural)]
pub enum RequestEvent {
    /// The request was accepted and logged.
    Begin,
    /// Preparing or sending the request to the backend failed.
    SendFailed,
    /// The backend answered.
    Sent,
    /// The backend's stream began with an error.
    UpstreamFailed,
    /// The whole answer came back empty.
    EmptyAnswer,
}

/// `n + 1` on a wrapping 64-bit counter.
pub open spec fn inc(n: u64) -> u64 {
    if n == u64::MAX {
        0
    } else {
        (n + 1) as u64
    }
}

/// `n - 1` on a wrapping 64-bit counter.
pub open spec fn dec(n: u64) -> u64 {
    if n == 0 {
        u64::MAX
    } else {
        (n - 1) as u64
    }
}

/// The bookkeeping of a chat request: a new request counts as one more in
/// total and active, and is pending; a failed send ends it as a failure,
/// no longer active, with one more error; an answer ends it as a success,
/// no longer active; an error at the start of the stream or an empty answer
/// marks it as a failure with one more error.
pub open spec fn spec_book(b: RequestBook, e: RequestEvent) -> RequestBook {
    match e {
        RequestEvent::Begin => RequestBook { total: inc(b.total), active: inc(b.active), status: LogStatus::Pending, ..b },
        RequestEvent::SendFailed => RequestBook { active: dec(b.active), errors: inc(b.errors), status: LogStatus::Failure, ..b },
        RequestEvent::Sent => RequestBook { active: dec(b.active), status: LogStatus::Success, ..b },
        RequestEvent::UpstreamFailed | RequestEvent::EmptyAnswer => RequestBook { errors: inc(b.errors), status: LogStatus::Failure, ..b },
    }
}

fn inc_exec(n: u64) -> (r: u64)
    ensures
        r == inc(n),
{
    if n == u64::MAX {
        0
    } else {
        n + 1
    }
}

fn dec_exec(n: u64) -> (r: u64)
    ensures
        r == dec(n),
{
    if n == 0 {
        u64::MAX
    } else {
        n - 1
    }
}

/// The bookkeeping of a chat request (see `spec_book`).
pub fn book_request(b: RequestBook, e: RequestEvent) -> (r: RequestBook)
    ensures
        r == spec_book(b, e),
{
    match e {
        RequestEvent::Begin => RequestBook { total: inc_exec(b.total), active: inc_exec(b.active), status: LogStatus::Pending, ..b },
        RequestEvent::SendFailed => RequestBook { active: dec_exec(b.active), errors: inc_exec(b.errors), status: LogStatus::Failure, ..b },
        RequestEvent::Sent => RequestBook { active: dec_exec(b.active), status: LogStatus::Success, ..b },
        RequestEvent::UpstreamFailed | RequestEvent::EmptyAnswer => RequestBook { errors: inc_exec(b.errors), status: LogStatus::Failure, ..b },
    }
}

/// A request that begins and is then answered, or fails to be sent, leaves
/// the number of active requests as it found it.
pub proof fn lemma_request_leaves_active(b: RequestBook)
    requires
        b.active < u64::MAX,
    ensures
        spec_book(spec_book(b, RequestEvent::Begin), RequestEvent::Sent).active == b.active,
        spec_book(spec_book(b, RequestEvent::Begin), RequestEvent::SendFailed).active == b.active,
{
}

} // verus!
