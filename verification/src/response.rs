//! Replies that the service composes itself.

use vstd::prelude::*;

use crate::error::{Error, LOAD_FAILURE_PREFIX};
use crate::readiness::{TranscribeReadiness, TranscribeReadinessView};
use crate::text::{occurs_at, opt_string, starts_with};

verus! {

pub const STATUS_OK: u16 = 200;

pub const STATUS_BAD_REQUEST: u16 = 400;

pub const STATUS_INTERNAL_SERVER_ERROR: u16 = 500;

pub const STATUS_SERVICE_UNAVAILABLE: u16 = 503;

/// The value of the `Retry-After` header.
pub const RETRY_AFTER: &'static str = "5";

/// What a client is told while the model loads.
pub const NOT_READY_MESSAGE: &'static str = "model is warming up; retry later";

/// What a reply carries.
#[derive(Debug, Clone, PartialEq, Eq)]
pub enum ReplyBody {
    /// Plain text.
    Text(String),
    /// A JSON object with the fields `error` and `detail`.
    JsonError { error: String, detail: String },
    /// The readiness as a JSON object.
    Readiness(TranscribeReadiness),
}

/// A [`ReplyBody`] by the characters that it carries.
pub enum ReplyBodyView {
    Text(Seq<char>),
    JsonError { error: Seq<char>, detail: Seq<char> },
    Readiness(TranscribeReadinessView),
}

impl View for ReplyBody {
    type V = ReplyBodyView;

    open spec fn view(&self) -> ReplyBodyView {
        match self {
            ReplyBody::Text(text) => ReplyBodyView::Text(text@),
            ReplyBody::JsonError { error, detail } => ReplyBodyView::JsonError {
                error: error@,
                detail: detail@,
            },
            ReplyBody::Readiness(readiness) => ReplyBodyView::Readiness(readiness@),
        }
    }
}

/// A reply: its status, its `Retry-After` header and its body.
#[derive(Debug, Clone, PartialEq, Eq)]
pub struct Reply {
    pub status: u16,
    pub retry_after: Option<String>,
    pub body: ReplyBody,
}

/// A [`Reply`] by the characters that it carries.
pub struct ReplyView {
    pub status: u16,
    pub retry_after: Option<Seq<char>>,
    pub body: ReplyBodyView,
}

impl View for Reply {
    type V = ReplyView;

    open spec fn view(&self) -> ReplyView {
        ReplyView {
            status: self.status,
            retry_after: opt_string(self.retry_after),
            body: self.body@,
        }
    }
}

/// A reply of plain text.
pub open spec fn text_reply(status: u16, text: Seq<char>) -> ReplyView {
    ReplyView { status, retry_after: None, body: ReplyBodyView::Text(text) }
}

/// A reply that names an error in a JSON object.
pub open spec fn json_error_reply(status: u16, error: Seq<char>, detail: Seq<char>) -> ReplyView {
    ReplyView { status, retry_after: None, body: ReplyBodyView::JsonError { error, detail } }
}

/// The reply while the model is not loaded: the client is to ask again later.
pub open spec fn not_ready_reply(is_ws: bool) -> ReplyView {
    let reply = if is_ws {
        text_reply(STATUS_SERVICE_UNAVAILABLE, NOT_READY_MESSAGE@)
    } else {
        json_error_reply(STATUS_SERVICE_UNAVAILABLE, "model_loading"@, NOT_READY_MESSAGE@)
    };
    ReplyView { retry_after: Some(RETRY_AFTER@), ..reply }
}

/// The failure named as a failure to load, once.
pub open spec fn load_failure_text(error: Seq<char>) -> Seq<char> {
    if occurs_at(error, LOAD_FAILURE_PREFIX@, 0) {
        error
    } else {
        LOAD_FAILURE_PREFIX@ + error
    }
}

/// The reply when the model could not be loaded.
pub open spec fn load_failed_reply(is_ws: bool, error: Seq<char>) -> ReplyView {
    if is_ws {
        text_reply(STATUS_INTERNAL_SERVER_ERROR, load_failure_text(error))
    } else {
        json_error_reply(STATUS_INTERNAL_SERVER_ERROR, "model_load_failed"@, error)
    }
}

/// A reply of plain text.
pub fn text_response(status: u16, text: String) -> (reply: Reply)
    ensures
        reply@ == text_reply(status, text@),
{
    Reply { status, retry_after: None, body: ReplyBody::Text(text) }
}

/// A reply that names an error in a JSON object.
pub fn json_error_response(status: u16, error: String, detail: String) -> (reply: Reply)
    ensures
        reply@ == json_error_reply(status, error@, detail@),
{
    Reply { status, retry_after: None, body: ReplyBody::JsonError { error, detail } }
}

/// The reply while the model is not loaded.
pub fn not_ready_response(is_ws: bool) -> (reply: Reply)
    ensures
        reply@ == not_ready_reply(is_ws),
{
    let reply = if is_ws {
        text_response(STATUS_SERVICE_UNAVAILABLE, NOT_READY_MESSAGE.to_string())
    } else {
        json_error_response(
            STATUS_SERVICE_UNAVAILABLE,
            "model_loading".to_string(),
            NOT_READY_MESSAGE.to_string(),
        )
    };
    Reply { retry_after: Some(RETRY_AFTER.to_string()), ..reply }
}

/// The reply when the model could not be loaded.
pub fn load_failed_response(is_ws: bool, error: &str) -> (reply: Reply)
    ensures
        reply@ == load_failed_reply(is_ws, error@),
{
    if is_ws {
        let message = if starts_with(error, LOAD_FAILURE_PREFIX) {
            error.to_string()
        } else {
            LOAD_FAILURE_PREFIX.to_string().concat(error)
        };
        text_response(STATUS_INTERNAL_SERVER_ERROR, message)
    } else {
        json_error_response(
            STATUS_INTERNAL_SERVER_ERROR,
            "model_load_failed".to_string(),
            error.to_string(),
        )
    }
}

/// The reply to a health check, which the state of the model has no part in.
pub fn health_response() -> (reply: Reply)
    ensures
        reply@ == text_reply(STATUS_OK, "ok"@),
{
    text_response(STATUS_OK, "ok".to_string())
}

/// The reply to a request for the readiness.
pub fn status_response(readiness: Result<TranscribeReadiness, Error>) -> (reply: Reply)
    ensures
        reply@ == (match readiness {
            Ok(status) => ReplyView {
                status: STATUS_OK,
                retry_after: None,
                body: ReplyBodyView::Readiness(status@),
            },
            Err(error) => text_reply(STATUS_INTERNAL_SERVER_ERROR, error@.message()),
        }),
{
    match readiness {
        Ok(status) => Reply {
            status: STATUS_OK,
            retry_after: None,
            body: ReplyBody::Readiness(status),
        },
        Err(error) => text_response(STATUS_INTERNAL_SERVER_ERROR, error.message()),
    }
}

} // verus!
