use vstd::prelude::*;
use vstd::string::StringExecFns;

use crate::envelope::{
    decode_webapi_response, webapi_payload_of, webapi_result_view, wire_outcome_view,
    SlackWireResponse, SlackWireResponseView,
};
use crate::errors::SlackClientError;
use crate::models::{SlackApiToken, SlackClientId, SlackClientSecret};
use crate::request::{
    accept_charset_header, basic_header_value, bearer_header_value, create_http_request,
    setup_basic_auth_header, setup_token_auth_header, HttpMethod, HttpRequest, HttpRequestView,
};

verus! {

impl Clone for HttpRequest {
    /// Clones a request; the copy has the same shape.
    fn clone(&self) -> (r: Self)
        ensures
            r@ == self@,
    {
        let mut headers: Vec<(String, String)> = Vec::new();
        let mut i: usize = 0;
        while i < self.headers.len()
            invariant
                0 <= i <= self.headers.len(),
                headers.deep_view() =~= self.headers.deep_view().take(i as int),
            decreases self.headers.len() - i,
        {
            let ghost prev = headers.deep_view();
            let pair = (self.headers[i].0.clone(), self.headers[i].1.clone());
            let ghost pv = (pair.0@, pair.1@);
            headers.push(pair);
            proof {
                assert(headers.deep_view() =~= prev.push(pv));
                assert(self.headers.deep_view()[i as int] == pv);
                assert(prev.push(pv) =~= self.headers.deep_view().take(i + 1));
            }
            i += 1;
        }
        let body = match &self.body {
            Some(b) => Some(b.clone()),
            None => None,
        };
        let r = HttpRequest { method: self.method, url: self.url.clone(), headers, body };
        proof {
            assert(headers.deep_view() =~= self.headers.deep_view());
            assert(r@ =~= self@);
        }
        r
    }
}

/// What any concrete transport promises: it sends the request it is handed,
/// and it hands back the next outcome the wire has in store. The two spec
/// views let every caller's contract speak of exactly which requests went out
/// and how each outcome was classified.
pub trait SlackClientHttpConnector: Sized {
    /// Every request this transport has sent, oldest first.
    spec fn sent_requests(&self) -> Seq<HttpRequestView>;

    /// The outcomes the wire will hand back, next first.
    spec fn upcoming_responses(&self) -> Seq<Result<SlackWireResponseView, Seq<char>>>;

    /// Performs one dispatch. A transport with nothing left in store reports
    /// a network-level failure.
    fn http_send(&mut self, request: &HttpRequest) -> (r: Result<SlackWireResponse, String>)
        ensures
            final(self).sent_requests() == old(self).sent_requests().push(request@),
            old(self).upcoming_responses().len() > 0 ==> {
                &&& wire_outcome_view(r) == old(self).upcoming_responses()[0]
                &&& final(self).upcoming_responses() == old(self).upcoming_responses().skip(1)
            },
            old(self).upcoming_responses().len() == 0 ==> {
                &&& r is Err
                &&& final(self).upcoming_responses() == old(self).upcoming_responses()
            },
    ;
}

/// Sends one fully built request and classifies the outcome by the
/// protocol's three-way branch.
pub fn send_webapi_request<C: SlackClientHttpConnector>(
    connector: &mut C,
    request: &HttpRequest,
) -> (r: Result<String, SlackClientError>)
    ensures
        final(connector).sent_requests() == old(connector).sent_requests().push(request@),
        old(connector).upcoming_responses().len() > 0 ==> {
            &&& webapi_result_view(r) == webapi_payload_of(
                old(connector).upcoming_responses()[0],
            )
            &&& final(connector).upcoming_responses() == old(connector).upcoming_responses().skip(1)
        },
        old(connector).upcoming_responses().len() == 0 ==> {
            &&& r matches Err(e) && e@ is Transport
            &&& final(connector).upcoming_responses() == old(connector).upcoming_responses()
        },
{
    let wire = connector.http_send(request);
    decode_webapi_response(wire)
}

/// The token's text, where one is supplied.
pub open spec fn opt_token_view(token: Option<&SlackApiToken>) -> Option<Seq<char>> {
    match token {
        Some(t) => Some(t.token_value.0@),
        None => None,
    }
}

/// The shape of a GET dispatch: the charset header, then the bearer header
/// when a token is supplied, and no body.
pub open spec fn get_request_view(url: Seq<char>, token: Option<Seq<char>>) -> HttpRequestView {
    HttpRequestView {
        method: HttpMethod::Get,
        url,
        headers: match token {
            None => seq![accept_charset_header()],
            Some(t) => seq![accept_charset_header(), ("authorization"@, bearer_header_value(t))],
        },
        body: None,
    }
}

/// The shape of a GET dispatch under the client-credential variant: basic
/// authentication, client id as username and secret as password.
pub open spec fn basic_get_request_view(
    url: Seq<char>,
    client_id: Seq<char>,
    client_secret: Seq<char>,
) -> HttpRequestView {
    HttpRequestView {
        method: HttpMethod::Get,
        url,
        headers: seq![
            accept_charset_header(),
            ("authorization"@, basic_header_value(client_id, client_secret)),
        ],
        body: None,
    }
}

/// The shape of a POST dispatch: a JSON body with the content type that
/// announces it, and the bearer header when a token is supplied.
pub open spec fn post_request_view(
    url: Seq<char>,
    body: Seq<char>,
    token: Option<Seq<char>>,
) -> HttpRequestView {
    HttpRequestView {
        method: HttpMethod::Post,
        url,
        headers: match token {
            None => seq![accept_charset_header(), json_content_type_header()],
            Some(t) => seq![
                accept_charset_header(),
                json_content_type_header(),
                ("authorization"@, bearer_header_value(t)),
            ],
        },
        body: Some(body),
    }
}

/// The content type header a POST carries.
pub open spec fn json_content_type_header() -> (Seq<char>, Seq<char>) {
    ("content-type"@, "application/json; charset=utf-8"@)
}

/// Appends one header to a request.
fn add_header(request: HttpRequest, name: String, value: String) -> (r: HttpRequest)
    ensures
        r.method == request.method,
        r.url == request.url,
        r.body == request.body,
        r@.headers == request@.headers.push((name@, value@)),
{
    let HttpRequest { method, url, mut headers, body } = request;
    headers.push((name, value));
    let r = HttpRequest { method, url, headers, body };
    proof {
        assert(r@.headers =~= request@.headers.push((name@, value@)));
    }
    r
}

/// Issues a GET of the given URL, with the bearer credential when one is
/// supplied, and classifies the outcome.
pub fn http_get_uri<C: SlackClientHttpConnector>(
    connector: &mut C,
    full_uri: String,
    token: Option<&SlackApiToken>,
) -> (r: Result<String, SlackClientError>)
    ensures
        final(connector).sent_requests() == old(connector).sent_requests().push(
            get_request_view(full_uri@, opt_token_view(token)),
        ),
        old(connector).upcoming_responses().len() > 0 ==> {
            &&& webapi_result_view(r) == webapi_payload_of(
                old(connector).upcoming_responses()[0],
            )
            &&& final(connector).upcoming_responses() == old(connector).upcoming_responses().skip(1)
        },
        old(connector).upcoming_responses().len() == 0 ==> {
            &&& r matches Err(e) && e@ is Transport
            &&& final(connector).upcoming_responses() == old(connector).upcoming_responses()
        },
{
    let ghost url = full_uri@;
    let request = setup_token_auth_header(create_http_request(full_uri, HttpMethod::Get), token);
    proof {
        assert(request@.headers =~= get_request_view(url, opt_token_view(token)).headers);
        assert(request@ =~= get_request_view(url, opt_token_view(token)));
    }
    send_webapi_request(connector, &request)
}

/// Issues a GET of the given URL under the client-credential variant and
/// classifies the outcome.
pub fn http_get_with_client_secret<C: SlackClientHttpConnector>(
    connector: &mut C,
    full_uri: String,
    client_id: &SlackClientId,
    client_secret: &SlackClientSecret,
) -> (r: Result<String, SlackClientError>)
    ensures
        final(connector).sent_requests() == old(connector).sent_requests().push(
            basic_get_request_view(full_uri@, client_id.0@, client_secret.0@),
        ),
        old(connector).upcoming_responses().len() > 0 ==> {
            &&& webapi_result_view(r) == webapi_payload_of(
                old(connector).upcoming_responses()[0],
            )
            &&& final(connector).upcoming_responses() == old(connector).upcoming_responses().skip(1)
        },
        old(connector).upcoming_responses().len() == 0 ==> {
            &&& r matches Err(e) && e@ is Transport
            &&& final(connector).upcoming_responses() == old(connector).upcoming_responses()
        },
{
    let ghost url = full_uri@;
    let request = setup_basic_auth_header(
        create_http_request(full_uri, HttpMethod::Get),
        client_id.value().as_str(),
        client_secret.value().as_str(),
    );
    proof {
        assert(request@.headers =~= basic_get_request_view(url, client_id.0@, client_secret.0@).headers);
        assert(request@ =~= basic_get_request_view(url, client_id.0@, client_secret.0@));
    }
    send_webapi_request(connector, &request)
}

/// Issues a POST of the given URL with an already serialized JSON body, with
/// the bearer credential when one is supplied, and classifies the outcome.
pub fn http_post_uri<C: SlackClientHttpConnector>(
    connector: &mut C,
    full_uri: String,
    post_json: String,
    token: Option<&SlackApiToken>,
) -> (r: Result<String, SlackClientError>)
    ensures
        final(connector).sent_requests() == old(connector).sent_requests().push(
            post_request_view(full_uri@, post_json@, opt_token_view(token)),
        ),
        old(connector).upcoming_responses().len() > 0 ==> {
            &&& webapi_result_view(r) == webapi_payload_of(
                old(connector).upcoming_responses()[0],
            )
            &&& final(connector).upcoming_responses() == old(connector).upcoming_responses().skip(1)
        },
        old(connector).upcoming_responses().len() == 0 ==> {
            &&& r matches Err(e) && e@ is Transport
            &&& final(connector).upcoming_responses() == old(connector).upcoming_responses()
        },
{
    let request = create_post_request(full_uri, post_json, token);
    send_webapi_request(connector, &request)
}

/// Builds a whole POST dispatch: URL, JSON body, the content type that
/// announces it, and the bearer credential when one is supplied.
pub fn create_post_request(
    full_uri: String,
    post_json: String,
    token: Option<&SlackApiToken>,
) -> (r: HttpRequest)
    ensures
        r@ == post_request_view(full_uri@, post_json@, opt_token_view(token)),
{
    let ghost url = full_uri@;
    let ghost body = post_json@;
    let request = create_http_request(full_uri, HttpMethod::Post);
    let request = add_header(
        request,
        String::from_str("content-type"),
        String::from_str("application/json; charset=utf-8"),
    );
    let request = HttpRequest { body: Some(post_json), ..request };
    let request = setup_token_auth_header(request, token);
    proof {
        assert(request@.headers =~= post_request_view(url, body, opt_token_view(token)).headers);
        assert(request@ =~= post_request_view(url, body, opt_token_view(token)));
    }
    request
}

/// A transport that replays outcomes given to it beforehand and keeps every
/// request it is asked to send; the concrete stand-in the contract of
/// `SlackClientHttpConnector` describes.
pub struct SlackClientReplayConnector {
    queued: Vec<Result<SlackWireResponse, String>>,
    log: Vec<HttpRequest>,
}

impl SlackClientReplayConnector {
    pub fn new() -> (r: Self)
        ensures
            r.sent_requests() == Seq::<HttpRequestView>::empty(),
            r.upcoming_responses() == Seq::<Result<SlackWireResponseView, Seq<char>>>::empty(),
    {
        let r = SlackClientReplayConnector { queued: Vec::new(), log: Vec::new() };
        proof {
            assert(r.sent_requests() =~= Seq::<HttpRequestView>::empty());
            assert(r.upcoming_responses() =~= Seq::<
                Result<SlackWireResponseView, Seq<char>>,
            >::empty());
        }
        r
    }

    /// Queues one more outcome for the wire to hand back.
    pub fn enqueue(&mut self, outcome: Result<SlackWireResponse, String>)
        ensures
            final(self).upcoming_responses() == old(self).upcoming_responses().push(
                wire_outcome_view(outcome),
            ),
            final(self).sent_requests() == old(self).sent_requests(),
    {
        self.queued.push(outcome);
        proof {
            assert(self.upcoming_responses() =~= old(self).upcoming_responses().push(
                wire_outcome_view(outcome),
            ));
        }
    }

    /// The requests sent so far, for a caller that wants to look at them.
    pub fn requests(&self) -> (r: &Vec<HttpRequest>)
        ensures
            r.deep_view() == self.sent_requests(),
    {
        &self.log
    }
}

impl SlackClientHttpConnector for SlackClientReplayConnector {
    closed spec fn sent_requests(&self) -> Seq<HttpRequestView> {
        self.log.deep_view()
    }

    closed spec fn upcoming_responses(&self) -> Seq<Result<SlackWireResponseView, Seq<char>>> {
        self.queued@.map_values(|o: Result<SlackWireResponse, String>| wire_outcome_view(o))
    }

    fn http_send(&mut self, request: &HttpRequest) -> (r: Result<SlackWireResponse, String>) {
        self.log.push(request.clone());
        proof {
            assert(self.log.deep_view() =~= old(self).log.deep_view().push(request@));
        }
        if self.queued.len() > 0 {
            let w = self.queued.remove(0);
            proof {
                assert(self.queued@ =~= old(self).queued@.skip(1));
                assert(self.upcoming_responses() =~= old(self).upcoming_responses().skip(1));
            }
            w
        } else {
            Err(String::from_str("nothing left on the wire"))
        }
    }
}

/// One caller's view of the service: a transport and the bearer credential
/// every call of this session carries.
pub struct SlackClientSession<C: SlackClientHttpConnector> {
    pub connector: C,
    pub token: SlackApiToken,
}

impl<C: SlackClientHttpConnector> SlackClientSession<C> {
    pub fn new(connector: C, token: SlackApiToken) -> (r: Self)
        ensures
            r.connector == connector,
            r.token == token,
    {
        SlackClientSession { connector, token }
    }

    /// Issues one GET of the named API method with the given parameters,
    /// under this session's token.
    pub fn http_get(&mut self, method: &str, params: &Vec<(String, Option<String>)>) -> (r: Result<
        String,
        SlackClientError,
    >)
        ensures
            final(self).token == old(self).token,
            final(self).connector.sent_requests() == old(self).connector.sent_requests().push(
                get_request_view(
                    crate::request::api_method_url(method@, params.deep_view()),
                    Some(old(self).token.token_value.0@),
                ),
            ),
            old(self).connector.upcoming_responses().len() > 0 ==> {
                &&& webapi_result_view(r) == webapi_payload_of(
                    old(self).connector.upcoming_responses()[0],
                )
                &&& final(self).connector.upcoming_responses() == old(
                    self,
                ).connector.upcoming_responses().skip(1)
            },
            old(self).connector.upcoming_responses().len() == 0 ==> {
                &&& r matches Err(e) && e@ is Transport
                &&& final(self).connector.upcoming_responses() == old(
                    self,
                ).connector.upcoming_responses()
            },
    {
        let url = crate::request::build_api_method_url(method, params);
        http_get_uri(&mut self.connector, url, Some(&self.token))
    }

    /// Issues one POST of the named API method with an already serialized
    /// JSON body, under this session's token.
    pub fn http_post(&mut self, method: &str, post_json: String) -> (r: Result<
        String,
        SlackClientError,
    >)
        ensures
            final(self).token == old(self).token,
            final(self).connector.sent_requests() == old(self).connector.sent_requests().push(
                post_request_view(
                    crate::request::api_method_url(method@, Seq::empty()),
                    post_json@,
                    Some(old(self).token.token_value.0@),
                ),
            ),
            old(self).connector.upcoming_responses().len() > 0 ==> {
                &&& webapi_result_view(r) == webapi_payload_of(
                    old(self).connector.upcoming_responses()[0],
                )
                &&& final(self).connector.upcoming_responses() == old(
                    self,
                ).connector.upcoming_responses().skip(1)
            },
            old(self).connector.upcoming_responses().len() == 0 ==> {
                &&& r matches Err(e) && e@ is Transport
                &&& final(self).connector.upcoming_responses() == old(
                    self,
                ).connector.upcoming_responses()
            },
    {
        let params: Vec<(String, Option<String>)> = Vec::new();
        let url = crate::request::build_api_method_url(method, &params);
        proof {
            assert(params.deep_view() =~= Seq::<(Seq<char>, Option<Seq<char>>)>::empty());
        }
        http_post_uri(&mut self.connector, url, post_json, Some(&self.token))
    }
}

} // verus!
