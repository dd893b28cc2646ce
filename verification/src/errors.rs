use vstd::prelude::*;

verus! {

/// Why an inbound webhook request was rejected.
#[derive(Debug, Clone, Copy, PartialEq, Eq, Structural)]
pub enum SlackSignatureErrorReason {
    /// The signature header or the timestamp header is missing.
    AbsentSignature,
    /// The timestamp header is not a whole decimal number of seconds.
    InvalidTimestamp,
    /// The timestamp lies outside the freshness window.
    StaleTimestamp,
    /// The received hash differs from the one computed over the raw body.
    WrongSignature,
}

/// An envelope-level failure: the service answered `ok: false`.
#[derive(Debug, Clone, PartialEq)]
pub struct SlackClientApiError {
    pub code: String,
    pub warnings: Option<Vec<String>>,
    pub http_response_body: Option<String>,
}

/// A transport-level failure: the service answered with a status other
/// than 200.
#[derive(Debug, Clone, PartialEq)]
pub struct SlackClientHttpError {
    pub status_code: u16,
    pub http_response_body: Option<String>,
}

/// A response that was not a well-formed envelope.
#[derive(Debug, Clone, PartialEq)]
pub struct SlackClientProtocolError {
    pub http_response_body: String,
}

/// A rejected inbound webhook request.
#[derive(Debug, Clone, PartialEq)]
pub struct SlackEventSignatureError {
    pub reason: SlackSignatureErrorReason,
}

/// A network-level failure, surfaced with its underlying cause unconverted.
#[derive(Debug, Clone, PartialEq)]
pub struct SlackClientTransportError {
    pub cause: String,
}

/// Every failure the client can hand back, fully classified at the point
/// of detection and propagated unchanged.
#[derive(Debug, Clone, PartialEq)]
pub enum SlackClientError {
    ApiError(SlackClientApiError),
    HttpError(SlackClientHttpError),
    ProtocolError(SlackClientProtocolError),
    SignatureError(SlackEventSignatureError),
    TransportError(SlackClientTransportError),
}

/// The mathematical shape of a client error, with every string a `Seq<char>`.
pub enum SlackClientErrorView {
    Api { code: Seq<char>, warnings: Option<Seq<Seq<char>>>, body: Option<Seq<char>> },
    Http { status_code: u16, body: Option<Seq<char>> },
    Protocol { body: Seq<char> },
    Signature { reason: SlackSignatureErrorReason },
    Transport { cause: Seq<char> },
}

impl View for SlackClientError {
    type V = SlackClientErrorView;

    open spec fn view(&self) -> SlackClientErrorView {
        match self {
            SlackClientError::ApiError(e) => SlackClientErrorView::Api {
                code: e.code@,
                warnings: e.warnings.deep_view(),
                body: e.http_response_body.deep_view(),
            },
            SlackClientError::HttpError(e) => SlackClientErrorView::Http {
                status_code: e.status_code,
                body: e.http_response_body.deep_view(),
            },
            SlackClientError::ProtocolError(e) => SlackClientErrorView::Protocol {
                body: e.http_response_body@,
            },
            SlackClientError::SignatureError(e) => SlackClientErrorView::Signature {
                reason: e.reason,
            },
            SlackClientError::TransportError(e) => SlackClientErrorView::Transport {
                cause: e.cause@,
            },
        }
    }
}

impl SlackClientApiError {
    pub fn new(code: String) -> (r: Self)
        ensures
            r.code == code,
            r.warnings is None,
            r.http_response_body is None,
    {
        SlackClientApiError { code, warnings: None, http_response_body: None }
    }

    pub fn opt_warnings(self, warnings: Option<Vec<String>>) -> (r: Self)
        ensures
            r.code == self.code,
            r.warnings == warnings,
            r.http_response_body == self.http_response_body,
    {
        SlackClientApiError { warnings, ..self }
    }

    pub fn with_http_response_body(self, body: String) -> (r: Self)
        ensures
            r.code == self.code,
            r.warnings == self.warnings,
            r.http_response_body == Some(body),
    {
        SlackClientApiError { http_response_body: Some(body), ..self }
    }
}

impl SlackClientHttpError {
    pub fn new(status_code: u16) -> (r: Self)
        ensures
            r.status_code == status_code,
            r.http_response_body is None,
    {
        SlackClientHttpError { status_code, http_response_body: None }
    }

    pub fn with_http_response_body(self, body: String) -> (r: Self)
        ensures
            r.status_code == self.status_code,
            r.http_response_body == Some(body),
    {
        SlackClientHttpError { http_response_body: Some(body), ..self }
    }
}

impl SlackEventSignatureError {
    pub fn new(reason: SlackSignatureErrorReason) -> (r: Self)
        ensures
            r.reason == reason,
    {
        SlackEventSignatureError { reason }
    }
}

} // verus!
