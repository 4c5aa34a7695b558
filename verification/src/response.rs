//! What the receiver answers, and the reasons for which it refuses a request.
use vstd::prelude::*;

verus! {

pub const STATUS_OK: u16 = 200;

pub const STATUS_BAD_REQUEST: u16 = 400;

pub const STATUS_UNAUTHORIZED: u16 = 401;

pub const STATUS_NOT_FOUND: u16 = 404;

pub const STATUS_METHOD_NOT_ALLOWED: u16 = 405;

pub const STATUS_INTERNAL_SERVER_ERROR: u16 = 500;

/// An answer by its contents.
#[verifier::ext_equal]
pub struct ResponseView {
    pub status: u16,
    pub content_type: Seq<char>,
    pub body: Seq<char>,
}

/// A plain-text answer.
pub open spec fn plain_text(status: u16, body: Seq<char>) -> ResponseView {
    ResponseView { status, content_type: "text/plain; charset=utf-8"@, body }
}

/// An answer to a webhook request.
#[derive(Clone, Copy, Debug)]
pub struct WebhookResponse {
    pub status: u16,
    pub content_type: &'static str,
    pub body: &'static str,
}

impl View for WebhookResponse {
    type V = ResponseView;

    open spec fn view(&self) -> ResponseView {
        ResponseView {
            status: self.status,
            content_type: self.content_type@,
            body: self.body@,
        }
    }
}

/// Answers with a status and a plain-text body.
pub fn response(status: u16, body: &'static str) -> (answer: WebhookResponse)
    ensures
        answer@ == plain_text(status, body@),
        answer.status == status,
        answer.content_type@ == "text/plain; charset=utf-8"@,
        answer.body@ == body@,
{
    WebhookResponse { status, content_type: "text/plain; charset=utf-8", body }
}

/// Why a request is refused before its payload is looked at.
#[derive(Debug)]
pub enum RequestError {
    MethodNotAllowed,
    NotFound,
    MissingTimestamp,
    MissingSignature,
    /// The body could not be read; the text says why.
    BodyReadFailed(String),
}

impl RequestError {
    /// The answer that this refusal gives.
    pub open spec fn answer(self) -> ResponseView {
        match self {
            RequestError::MethodNotAllowed => plain_text(405, "method not allowed"@),
            RequestError::NotFound => plain_text(404, "not found"@),
            RequestError::MissingTimestamp => plain_text(401, "missing signature headers"@),
            RequestError::MissingSignature => plain_text(401, "missing signature headers"@),
            RequestError::BodyReadFailed(_) => plain_text(400, "failed to read request body"@),
        }
    }

    /// Answers the refused request.
    pub fn into_response(self) -> (answer: WebhookResponse)
        ensures
            answer@ == self.answer(),
            answer.content_type@ == "text/plain; charset=utf-8"@,
            self is MethodNotAllowed ==> answer.status == 405 && answer.body@
                == "method not allowed"@,
            self is NotFound ==> answer.status == 404 && answer.body@ == "not found"@,
            self is MissingTimestamp ==> answer.status == 401 && answer.body@
                == "missing signature headers"@,
            self is MissingSignature ==> answer.status == 401 && answer.body@
                == "missing signature headers"@,
            self is BodyReadFailed ==> answer.status == 400 && answer.body@
                == "failed to read request body"@,
    {
        match self {
            RequestError::MethodNotAllowed => response(
                STATUS_METHOD_NOT_ALLOWED,
                "method not allowed",
            ),
            RequestError::NotFound => response(STATUS_NOT_FOUND, "not found"),
            RequestError::MissingTimestamp => response(
                STATUS_UNAUTHORIZED,
                "missing signature headers",
            ),
            RequestError::MissingSignature => response(
                STATUS_UNAUTHORIZED,
                "missing signature headers",
            ),
            RequestError::BodyReadFailed(_) => response(
                STATUS_BAD_REQUEST,
                "failed to read request body",
            ),
        }
    }
}

/// Why a signed payload is refused.
#[derive(Debug)]
pub enum WebhookError {
    InvalidSignature,
    /// The payload is no event; the text says why.
    MalformedPayload(String),
    /// The event could not be recorded; the text says why.
    Persistence(String),
}

impl WebhookError {
    /// The answer that this refusal gives.
    pub open spec fn answer(self) -> ResponseView {
        match self {
            WebhookError::InvalidSignature => plain_text(401, "invalid signature"@),
            WebhookError::MalformedPayload(_) => plain_text(400, "malformed payload"@),
            WebhookError::Persistence(_) => plain_text(500, "failed to record webhook"@),
        }
    }

    /// The error in words.
    pub open spec fn words(self) -> Seq<char> {
        match self {
            WebhookError::InvalidSignature => "missing or invalid webhook signature"@,
            WebhookError::MalformedPayload(detail) => "malformed payload: "@ + detail@,
            WebhookError::Persistence(detail) => "failed to record webhook: "@ + detail@,
        }
    }

    /// Answers the refused request.
    pub fn into_response(self) -> (answer: WebhookResponse)
        ensures
            answer@ == self.answer(),
            answer.content_type@ == "text/plain; charset=utf-8"@,
            self is InvalidSignature ==> answer.status == 401 && answer.body@
                == "invalid signature"@,
            self is MalformedPayload ==> answer.status == 400 && answer.body@
                == "malformed payload"@,
            self is Persistence ==> answer.status == 500 && answer.body@
                == "failed to record webhook"@,
    {
        match self {
            WebhookError::InvalidSignature => response(STATUS_UNAUTHORIZED, "invalid signature"),
            WebhookError::MalformedPayload(_) => response(
                STATUS_BAD_REQUEST,
                "malformed payload",
            ),
            WebhookError::Persistence(_) => response(
                STATUS_INTERNAL_SERVER_ERROR,
                "failed to record webhook",
            ),
        }
    }

    /// Says what went wrong.
    pub fn message(&self) -> (text: String)
        ensures
            text@ == self.words(),
            match *self {
                WebhookError::InvalidSignature => text@ == "missing or invalid webhook signature"@,
                WebhookError::MalformedPayload(detail) => text@ == "malformed payload: "@
                    + detail@,
                WebhookError::Persistence(detail) => text@ == "failed to record webhook: "@
                    + detail@,
            },
    {
        match self {
            WebhookError::InvalidSignature => "missing or invalid webhook signature".to_owned(),
            WebhookError::MalformedPayload(detail) => "malformed payload: ".to_owned().concat(
                detail.as_str(),
            ),
            WebhookError::Persistence(detail) => "failed to record webhook: ".to_owned().concat(
                detail.as_str(),
            ),
        }
    }
}

} // verus!
