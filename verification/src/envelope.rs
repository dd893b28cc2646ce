use vstd::prelude::*;
use vstd::string::{StrSliceExecFns, StringExecFns};

use crate::errors::{
    SlackClientApiError, SlackClientError, SlackClientErrorView, SlackClientHttpError,
    SlackClientProtocolError, SlackClientTransportError,
};

verus! {

/// The uniform wrapper every response of the web API carries before any
/// payload field: `ok`, an optional `error` code, optional `warnings`.
#[derive(Debug, Clone, PartialEq)]
pub struct SlackEnvelopeMessage {
    pub ok: bool,
    pub error: Option<String>,
    pub warnings: Option<Vec<String>>,
}

/// The mathematical shape of an envelope.
pub struct SlackEnvelopeMessageView {
    pub ok: bool,
    pub error: Option<Seq<char>>,
    pub warnings: Option<Seq<Seq<char>>>,
}

impl View for SlackEnvelopeMessage {
    type V = SlackEnvelopeMessageView;

    open spec fn view(&self) -> SlackEnvelopeMessageView {
        SlackEnvelopeMessageView {
            ok: self.ok,
            error: self.error.deep_view(),
            warnings: self.warnings.deep_view(),
        }
    }
}

impl DeepView for SlackEnvelopeMessage {
    type V = SlackEnvelopeMessageView;

    open spec fn deep_view(&self) -> SlackEnvelopeMessageView {
        self.view()
    }
}

/// The envelope written in a body text: nothing when the text is not a JSON
/// object; otherwise `ok` (false when absent or not a boolean), the `error`
/// string if one is present, and the `warnings` strings if present.
pub uninterp spec fn envelope_of(s: Seq<char>) -> Option<SlackEnvelopeMessageView>;

/// Relies on serde_json::from_str and serde_json::Value's accessors: whether
/// the body parses as a JSON object and what its top-level `ok`, `error` and
/// `warnings` fields hold are functions of the body text alone.
#[verifier::external_body]
pub(crate) fn parse_envelope(body: &str) -> (r: Option<SlackEnvelopeMessage>)
    ensures
        r.deep_view() == envelope_of(body@),
{
    let v: serde_json::Value = serde_json::from_str(body).ok()?;
    if !v.is_object() {
        return None;
    }
    let ok = v.get("ok").and_then(|x| x.as_bool()).unwrap_or(false);
    let error = v.get("error").and_then(|x| x.as_str()).map(|x| x.to_string());
    let warnings = v.get("warnings").and_then(|x| x.as_array()).map(
        |a| a.iter().map(|w| w.as_str().unwrap_or("").to_string()).collect(),
    );
    Some(SlackEnvelopeMessage { ok, error, warnings })
}

/// The media type part of a content type header value: everything before the
/// first `;`.
pub open spec fn media_type_of(s: Seq<char>) -> Seq<char>
    decreases s.len(),
{
    if s.len() == 0 {
        s
    } else if s[0] == ';' {
        Seq::empty()
    } else {
        seq![s[0]] + media_type_of(s.skip(1))
    }
}

/// Whether a content type header value names JSON, whatever parameters
/// follow the media type.
pub open spec fn is_json_media_type(s: Seq<char>) -> bool {
    media_type_of(s) == "application/json"@
}

proof fn lemma_media_type_prefix(s: Seq<char>, p: int)
    requires
        0 <= p <= s.len(),
        forall|i: int| 0 <= i < p ==> s[i] != ';',
        p < s.len() ==> s[p] == ';',
    ensures
        media_type_of(s) == s.take(p),
    decreases p,
{
    if p == 0 {
        assert(media_type_of(s) =~= s.take(0));
    } else {
        lemma_media_type_prefix(s.skip(1), p - 1);
        assert(seq![s[0]] + s.skip(1).take(p - 1) =~= s.take(p));
    }
}

/// Decides whether a content type header value names JSON.
pub fn is_json_content_type(ct: &str) -> (r: bool)
    ensures
        r == is_json_media_type(ct@),
{
    let n = ct.unicode_len();
    let mut p: usize = 0;
    loop
        invariant
            0 <= p <= n,
            n == ct@.len(),
            forall|i: int| 0 <= i < p ==> ct@[i] != ';',
        ensures
            0 <= p <= n,
            forall|i: int| 0 <= i < p ==> ct@[i] != ';',
            p < n ==> ct@[p as int] == ';',
        decreases n - p,
    {
        if p == n {
            break ;
        }
        if ct.get_char(p) == ';' {
            break ;
        }
        p += 1;
    }
    proof {
        lemma_media_type_prefix(ct@, p as int);
    }
    let media = ct.substring_char(0, p).to_owned();
    let target = String::from_str("application/json");
    media == target
}

/// What a transport hands back when the wire call itself succeeded: the
/// status, the content type header if one came, and the whole body text.
#[derive(Debug, Clone, PartialEq)]
pub struct SlackWireResponse {
    pub status: u16,
    pub content_type: Option<String>,
    pub body: String,
}

/// The mathematical shape of a wire response.
pub struct SlackWireResponseView {
    pub status: u16,
    pub content_type: Option<Seq<char>>,
    pub body: Seq<char>,
}

impl View for SlackWireResponse {
    type V = SlackWireResponseView;

    open spec fn view(&self) -> SlackWireResponseView {
        SlackWireResponseView {
            status: self.status,
            content_type: self.content_type.deep_view(),
            body: self.body@,
        }
    }
}

/// The shape of one wire outcome: a response, or a network-level failure
/// with its cause.
pub open spec fn wire_outcome_view(r: Result<SlackWireResponse, String>) -> Result<
    SlackWireResponseView,
    Seq<char>,
> {
    match r {
        Ok(w) => Ok(w@),
        Err(c) => Err(c@),
    }
}

/// The shape of what a web API call hands back: the payload text still to be
/// decoded by the endpoint, or a fully classified error.
pub open spec fn webapi_result_view(r: Result<String, SlackClientError>) -> Result<
    Seq<char>,
    SlackClientErrorView,
> {
    match r {
        Ok(s) => Ok(s@),
        Err(e) => Err(e@),
    }
}

/// The central three-way branch of the protocol. A status other than 200 is
/// an HTTP error with that exact status and the raw body, whatever the body
/// holds. At 200 with a non-JSON content type, or an empty body, the payload
/// is the empty object. Otherwise the envelope decides: a body that is no
/// envelope is a protocol error; an envelope with an error code is an API
/// error carrying that code, the warnings and the raw body; an envelope
/// without one means the body itself is the payload.
pub open spec fn webapi_payload_of(w: Result<SlackWireResponseView, Seq<char>>) -> Result<
    Seq<char>,
    SlackClientErrorView,
> {
    match w {
        Err(cause) => Err(SlackClientErrorView::Transport { cause }),
        Ok(resp) => {
            if resp.status != 200 {
                Err(
                    SlackClientErrorView::Http {
                        status_code: resp.status,
                        body: Some(resp.body),
                    },
                )
            } else if match resp.content_type {
                Some(ct) => !is_json_media_type(ct),
                None => false,
            } {
                Ok("{}"@)
            } else if resp.body.len() == 0 {
                Ok("{}"@)
            } else {
                match envelope_of(resp.body) {
                    None => Err(SlackClientErrorView::Protocol { body: resp.body }),
                    Some(env) => match env.error {
                        None => Ok(resp.body),
                        Some(code) => Err(
                            SlackClientErrorView::Api {
                                code,
                                warnings: env.warnings,
                                body: Some(resp.body),
                            },
                        ),
                    },
                }
            }
        },
    }
}

/// Law: a status other than 200 is always an HTTP error carrying that exact
/// status and the raw body, whatever the body or the content type hold.
pub proof fn lemma_http_error_classification(resp: SlackWireResponseView)
    requires
        resp.status != 200,
    ensures
        webapi_payload_of(Ok(resp)) == Err::<Seq<char>, SlackClientErrorView>(
            SlackClientErrorView::Http { status_code: resp.status, body: Some(resp.body) },
        ),
{
}

/// Law: a 200 whose envelope carries an error code is always an API error
/// carrying that exact code, the envelope's warnings and the raw body, and
/// its body is never handed on as a payload.
pub proof fn lemma_api_error_classification(resp: SlackWireResponseView, code: Seq<char>)
    requires
        resp.status == 200,
        match resp.content_type {
            Some(ct) => is_json_media_type(ct),
            None => true,
        },
        resp.body.len() > 0,
        envelope_of(resp.body) matches Some(env) && env.error == Some(code),
    ensures
        webapi_payload_of(Ok(resp)) == Err::<Seq<char>, SlackClientErrorView>(
            SlackClientErrorView::Api {
                code,
                warnings: envelope_of(resp.body)->Some_0.warnings,
                body: Some(resp.body),
            },
        ),
{
}

/// Classifies one wire outcome exactly as `webapi_payload_of` says.
pub fn decode_webapi_response(wire: Result<SlackWireResponse, String>) -> (r: Result<
    String,
    SlackClientError,
>)
    ensures
        webapi_result_view(r) == webapi_payload_of(wire_outcome_view(wire)),
{
    match wire {
        Err(cause) => Err(SlackClientError::TransportError(SlackClientTransportError { cause })),
        Ok(resp) => {
            if resp.status != 200 {
                return Err(
                    SlackClientError::HttpError(
                        SlackClientHttpError::new(resp.status).with_http_response_body(resp.body),
                    ),
                );
            }
            let json_content = match &resp.content_type {
                Some(ct) => is_json_content_type(ct.as_str()),
                None => true,
            };
            if !json_content {
                return Ok(String::from_str("{}"));
            }
            if resp.body.as_str().is_empty() {
                return Ok(String::from_str("{}"));
            }
            match parse_envelope(resp.body.as_str()) {
                None => Err(
                    SlackClientError::ProtocolError(
                        SlackClientProtocolError { http_response_body: resp.body },
                    ),
                ),
                Some(env) => match env.error {
                    None => Ok(resp.body),
                    Some(code) => Err(
                        SlackClientError::ApiError(
                            SlackClientApiError::new(code).opt_warnings(
                                env.warnings,
                            ).with_http_response_body(resp.body),
                        ),
                    ),
                },
            }
        },
    }
}

} // verus!
