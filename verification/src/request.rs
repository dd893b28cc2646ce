use vstd::prelude::*;
use vstd::string::{StrSliceExecFns, StringExecFns, StringSliceAdditionalSpecFns};

use crate::models::SlackApiToken;

verus! {

/// The two dispatch verbs the web API uses.
#[derive(Debug, Clone, Copy, PartialEq, Eq, Structural)]
pub enum HttpMethod {
    Get,
    Post,
}

/// An outgoing request, fully built and ready for a transport to send.
#[derive(Debug, PartialEq)]
pub struct HttpRequest {
    pub method: HttpMethod,
    pub url: String,
    pub headers: Vec<(String, String)>,
    pub body: Option<String>,
}

/// The mathematical shape of an outgoing request.
#[verifier::ext_equal]
pub struct HttpRequestView {
    pub method: HttpMethod,
    pub url: Seq<char>,
    pub headers: Seq<(Seq<char>, Seq<char>)>,
    pub body: Option<Seq<char>>,
}

impl View for HttpRequest {
    type V = HttpRequestView;

    open spec fn view(&self) -> HttpRequestView {
        HttpRequestView {
            method: self.method,
            url: self.url@,
            headers: self.headers.deep_view(),
            body: self.body.deep_view(),
        }
    }
}

impl DeepView for HttpRequest {
    type V = HttpRequestView;

    open spec fn deep_view(&self) -> HttpRequestView {
        self.view()
    }
}

/// What the form-urlencoded serializer leaves unchanged: ASCII alphanumerics
/// and `*`, `-`, `.`, `_`.
pub open spec fn is_form_safe_char(c: char) -> bool {
    ('0' <= c && c <= '9') || ('A' <= c && c <= 'Z') || ('a' <= c && c <= 'z') || c == '*' || c
        == '-' || c == '.' || c == '_'
}

/// The form-urlencoded serialization of a text.
pub uninterp spec fn form_encoded_of(s: Seq<char>) -> Seq<char>;

/// Relies on form_urlencoded::byte_serialize of the url crate family: bytes
/// that are ASCII alphanumerics or `*-._` pass through unchanged, a space
/// becomes `+`, and every other byte becomes a `%XX` escape; the result
/// depends on the input bytes alone.
#[verifier::external_body]
fn form_urlencode(s: &str) -> (r: String)
    ensures
        r@ == form_encoded_of(s@),
        (forall|i: int| 0 <= i < s@.len() ==> is_form_safe_char(#[trigger] s@[i])) ==> r@ == s@,
{
    url::form_urlencoded::byte_serialize(s.as_bytes()).collect()
}

/// The query string of an ordered list of parameters: a parameter with no
/// value is omitted; each present parameter is sent as `name=value`, both
/// form-urlencoded, and the pairs are joined with `&`.
pub open spec fn query_string_of(params: Seq<(Seq<char>, Option<Seq<char>>)>) -> Seq<char>
    decreases params.len(),
{
    if params.len() == 0 {
        Seq::empty()
    } else {
        let rest = query_string_of(params.drop_last());
        match params.last().1 {
            None => rest,
            Some(v) => {
                let pair = form_encoded_of(params.last().0) + seq!['='] + form_encoded_of(v);
                if rest.len() == 0 {
                    pair
                } else {
                    rest + seq!['&'] + pair
                }
            },
        }
    }
}

/// Builds the query string that `query_string_of` describes.
pub fn build_query_string(params: &Vec<(String, Option<String>)>) -> (r: String)
    ensures
        r@ == query_string_of(params.deep_view()),
{
    let mut r = String::new();
    let mut i: usize = 0;
    while i < params.len()
        invariant
            0 <= i <= params.len(),
            r@ == query_string_of(params.deep_view().take(i as int)),
        decreases params.len() - i,
    {
        let ghost dv = params.deep_view();
        proof {
            assert(dv.take(i + 1).drop_last() =~= dv.take(i as int));
        }
        match &params[i].1 {
            None => {
                proof {
                    assert(r@ == query_string_of(dv.take(i + 1)));
                }
            },
            Some(v) => {
                proof {
                    reveal_strlit("&");
                    reveal_strlit("=");
                }
                if !r.as_str().is_empty() {
                    r.append("&");
                }
                r.append(form_urlencode(params[i].0.as_str()).as_str());
                r.append("=");
                r.append(form_urlencode(v.as_str()).as_str());
                proof {
                    assert("&"@ =~= seq!['&']);
                    assert("="@ =~= seq!['=']);
                    assert(r@ =~= query_string_of(dv.take(i + 1)));
                }
            },
        }
        i += 1;
    }
    proof {
        assert(params.deep_view().take(params.len() as int) =~= params.deep_view());
    }
    r
}

/// The root under which every method of the web API lives.
pub open spec fn api_base_url() -> Seq<char> {
    "https://slack.com/api/"@
}

/// The full URL of one method call: the API root, the method name, and the
/// query string when any parameter is present.
pub open spec fn api_method_url(
    method: Seq<char>,
    params: Seq<(Seq<char>, Option<Seq<char>>)>,
) -> Seq<char> {
    let q = query_string_of(params);
    if q.len() == 0 {
        api_base_url() + method
    } else {
        api_base_url() + method + seq!['?'] + q
    }
}

/// Builds the URL that `api_method_url` describes.
pub fn build_api_method_url(
    method: &str,
    params: &Vec<(String, Option<String>)>,
) -> (r: String)
    ensures
        r@ == api_method_url(method@, params.deep_view()),
{
    proof {
        reveal_strlit("https://slack.com/api/");
        reveal_strlit("?");
    }
    let mut r = String::new();
    r.append("https://slack.com/api/");
    r.append(method);
    let q = build_query_string(params);
    if !q.as_str().is_empty() {
        r.append("?");
        r.append(q.as_str());
        proof {
            assert("?"@ =~= seq!['?']);
            assert(r@ =~= api_method_url(method@, params.deep_view()));
        }
    } else {
        proof {
            assert(r@ =~= api_method_url(method@, params.deep_view()));
        }
    }
    r
}

/// The header every outgoing request carries.
pub open spec fn accept_charset_header() -> (Seq<char>, Seq<char>) {
    ("accept-charset"@, "utf-8"@)
}

/// Starts a request for the given URL and verb, with the charset header set.
pub fn create_http_request(url: String, method: HttpMethod) -> (r: HttpRequest)
    ensures
        r@.method == method,
        r@.url == url@,
        r@.headers =~= seq![accept_charset_header()],
        r@.body is None,
{
    let mut headers: Vec<(String, String)> = Vec::new();
    headers.push((String::from_str("accept-charset"), String::from_str("utf-8")));
    HttpRequest { method, url, headers, body: None }
}

/// The value of a bearer authorization header for a token.
pub open spec fn bearer_header_value(token: Seq<char>) -> Seq<char> {
    "Bearer "@ + token
}

/// Attaches the bearer credential when one is supplied; a request without a
/// token is left as it is.
pub fn setup_token_auth_header(request: HttpRequest, token: Option<&SlackApiToken>) -> (r:
    HttpRequest)
    ensures
        r.method == request.method,
        r.url == request.url,
        r.body == request.body,
        match token {
            None => r@.headers == request@.headers,
            Some(t) => r@.headers == request@.headers.push(
                ("authorization"@, bearer_header_value(t.token_value.0@)),
            ),
        },
{
    match token {
        None => request,
        Some(t) => {
            let HttpRequest { method, url, mut headers, body } = request;
            let mut value = String::new();
            value.append("Bearer ");
            value.append(t.token_value.value().as_str());
            headers.push((String::from_str("authorization"), value));
            let r = HttpRequest { method, url, headers, body };
            proof {
                assert(r@.headers =~= request@.headers.push(
                    ("authorization"@, bearer_header_value(t.token_value.0@)),
                ));
            }
            r
        },
    }
}

/// The standard-alphabet, padded base64 encoding of the input bytes.
pub uninterp spec fn base64_of(b: Seq<u8>) -> Seq<char>;

/// Relies on base64::encode: the standard-alphabet, padded encoding of the
/// argument's bytes; the result depends on those bytes alone.
#[verifier::external_body]
fn base64_encode(s: &str) -> (r: String)
    ensures
        r@ == base64_of(s.spec_bytes()),
{
    base64::encode(s)
}

/// The value of a basic authorization header: the base64 encoding of the
/// UTF-8 bytes of `username:password`.
pub open spec fn basic_header_value(username: Seq<char>, password: Seq<char>) -> Seq<char> {
    "Basic "@ + base64_of(vstd::utf8::encode_utf8(username + ":"@ + password))
}

/// Attaches the client-credential pair as HTTP basic authentication, the
/// client id as username and the secret as password.
pub fn setup_basic_auth_header(request: HttpRequest, username: &str, password: &str) -> (r:
    HttpRequest)
    ensures
        r.method == request.method,
        r.url == request.url,
        r.body == request.body,
        r@.headers == request@.headers.push(
            ("authorization"@, basic_header_value(username@, password@)),
        ),
{
    let HttpRequest { method, url, mut headers, body } = request;
    let mut creds = String::new();
    creds.append(username);
    creds.append(":");
    creds.append(password);
    let mut value = String::new();
    value.append("Basic ");
    value.append(base64_encode(creds.as_str()).as_str());
    headers.push((String::from_str("authorization"), value));
    let r = HttpRequest { method, url, headers, body };
    proof {
        assert(r@.headers =~= request@.headers.push(
            ("authorization"@, basic_header_value(username@, password@)),
        ));
    }
    r
}

} // verus!
