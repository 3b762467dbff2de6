//! The API client: how it is set up, the requests it sends and how it reads
//! the status of an answer.
use crate::error::LocoError;
use crate::text::{
    concat2, lemma_trim_end_char, opt_view, owned, pairs_view, push_pair, trim_end, trim_end_char,
};
use vstd::prelude::*;
use vstd::utf8::encode_utf8;

pub mod endpoints;

verus! {

/// `reqwest::Client`, the HTTP client held by `LocoClient`.
#[verifier::external_type_specification]
#[verifier::external_body]
pub struct ExReqwestClient(reqwest::Client);

/// `reqwest::header::HeaderValue`, a checked HTTP header value.
#[verifier::external_type_specification]
#[verifier::external_body]
pub struct ExHeaderValue(reqwest::header::HeaderValue);

/// `reqwest::header::InvalidHeaderValue`, the refusal of a header value.
#[verifier::external_type_specification]
#[verifier::external_body]
pub struct ExInvalidHeaderValue(reqwest::header::InvalidHeaderValue);

/// User agent sent with every request.
pub const USER_AGENT: &'static str = "loco-cli/0.1.0";

/// Message of the error raised when the API key cannot stand in a header.
pub const INVALID_KEY_MESSAGE: &'static str = "Invalid API key format";

/// A byte that may appear in an HTTP header value: visible ASCII, any byte
/// of 128 or more, or a tab.
pub open spec fn header_byte_ok(b: u8) -> bool {
    b >= 32 && b != 127 || b == 9
}

/// Whether every byte of the UTF-8 encoding of `s` may appear in a header value.
pub open spec fn valid_header_value(s: Seq<char>) -> bool {
    forall|i: int| 0 <= i < encode_utf8(s).len() ==> header_byte_ok(#[trigger] encode_utf8(s)[i])
}

/// The `Authorization` header value for an API key.
pub open spec fn auth_header(api_key: Seq<char>) -> Seq<char> {
    "Loco "@ + api_key
}

/// `reqwest::header::HeaderValue::from_str`.
/// Claimed: it succeeds exactly when every byte of the string is a
/// permitted header byte (the crate's check is `b >= 32 && b != 127 || b == b'\t'`
/// on each byte of `s.as_bytes()`).
#[verifier::external_body]
fn header_value(s: &str) -> (res: Result<reqwest::header::HeaderValue, reqwest::header::InvalidHeaderValue>)
    ensures
        res is Ok <==> valid_header_value(s@),
{
    reqwest::header::HeaderValue::from_str(s)
}

/// Builds a `reqwest::Client` that sends the `Authorization` header with
/// value `auth` and the user agent `user_agent` by default
/// (`Client::builder().default_headers(..).user_agent(..).build()`).
/// Nothing is claimed of the outcome: building can fail on the machine's
/// TLS setup, and the client is opaque. Every `ApiRequest` carries these
/// headers itself as well, so what is sent does not rest on this client.
#[verifier::external_body]
fn build_http_client(auth: reqwest::header::HeaderValue, user_agent: &str) -> (res: Result<
    reqwest::Client,
    reqwest::Error,
>) {
    let mut headers = reqwest::header::HeaderMap::new();
    headers.insert(reqwest::header::AUTHORIZATION, auth);
    reqwest::Client::builder().default_headers(headers).user_agent(user_agent).build()
}

/// Client of the Loco API.
pub struct LocoClient {
    http: reqwest::Client,
    base_url: String,
    auth: String,
}

/// An HTTP method used by the API.
#[derive(Debug, Clone, Copy, PartialEq, Eq)]
pub enum HttpMethod {
    Get,
    Post,
    Patch,
    Delete,
}

/// The body of a request.
#[derive(Debug)]
pub enum RequestBody {
    /// No body.
    Empty,
    /// A form of `name=value` fields.
    Form(Vec<(String, String)>),
    /// Plain text.
    Text(String),
    /// Raw bytes (`application/octet-stream`).
    Bytes(Vec<u8>),
    /// A JSON object whose members are the given string fields.
    Json(Vec<(String, String)>),
}

/// A request to send: method, full URL, headers, query parameters in
/// order, body.
#[derive(Debug)]
pub struct ApiRequest {
    pub method: HttpMethod,
    pub url: String,
    pub headers: Vec<(String, String)>,
    pub query: Vec<(String, String)>,
    pub body: RequestBody,
}

impl LocoClient {
    /// The API address, without trailing `/`.
    pub closed spec fn base(&self) -> Seq<char> {
        self.base_url@
    }

    /// The HTTP client held by this client, built once by `new`.
    pub closed spec fn http_client(&self) -> reqwest::Client {
        self.http
    }

    /// The `Authorization` value sent with every request.
    pub closed spec fn auth(&self) -> Seq<char> {
        self.auth@
    }

    /// The headers that every request of this client carries: its
    /// `Authorization` value and the library's user agent.
    pub open spec fn identity_headers(&self) -> Seq<(Seq<char>, Seq<char>)> {
        seq![("Authorization"@, self.auth()), ("User-Agent"@, USER_AGENT@)]
    }

    /// A client's API address never ends with `/`, and its `Authorization`
    /// value can stand in a header.
    #[verifier::type_invariant]
    spec fn well_formed(self) -> bool {
        &&& self.base_url@.len() == 0 || self.base_url@.last() != '/'
        &&& valid_header_value(self.auth@)
    }

    /// Sets up a client that authenticates with `Authorization: Loco <key>`
    /// and talks to `base_url` with its trailing slashes removed.
    pub fn new(api_key: &str, base_url: &str) -> (res: Result<Self, LocoError>)
        ensures
            match res {
                Ok(c) => valid_header_value(auth_header(api_key@)) && c.base() == trim_end_char(
                    base_url@,
                    '/',
                ) && c.auth() == auth_header(api_key@),
                Err(LocoError::Config(m)) => !valid_header_value(auth_header(api_key@)) && m@
                    == INVALID_KEY_MESSAGE@,
                Err(LocoError::Http(_)) => valid_header_value(auth_header(api_key@)),
                Err(_) => false,
            },
    {
        let auth_value = concat2("Loco ", api_key);
        let auth = match header_value(auth_value.as_str()) {
            Ok(v) => v,
            Err(_) => {
                return Err(LocoError::Config(owned(INVALID_KEY_MESSAGE)));
            },
        };
        let http = match build_http_client(auth, USER_AGENT) {
            Ok(h) => h,
            Err(e) => {
                return Err(LocoError::Http(e));
            },
        };
        let base = trim_end(base_url, '/');
        proof {
            lemma_trim_end_char(base_url@, '/');
        }
        Ok(LocoClient { http, base_url: base, auth: auth_value })
    }

    /// The full URL of an API path.
    pub fn url(&self, path: &str) -> (res: String)
        ensures
            res@ == self.base() + path@,
            self.base().len() == 0 || self.base().last() != '/',
    {
        proof {
            use_type_invariant(self);
        }
        concat2(self.base_url.as_str(), path)
    }

    /// The HTTP client that sends the requests: the one the client holds.
    pub fn client(&self) -> (res: &reqwest::Client)
        ensures
            *res == self.http_client(),
    {
        &self.http
    }

    /// The identifying headers of this client, as sent with each request.
    fn identity_header_pairs(&self) -> (res: Vec<(String, String)>)
        ensures
            pairs_view(res@) == self.identity_headers(),
    {
        let mut h: Vec<(String, String)> = Vec::new();
        assert(pairs_view(h@) =~= Seq::empty());
        push_pair(&mut h, "Authorization", self.auth.as_str());
        push_pair(&mut h, "User-Agent", USER_AGENT);
        assert(pairs_view(h@) =~= self.identity_headers());
        h
    }

    /// A request to `path` under the API address.
    fn request(&self, method: HttpMethod, path: &str, query: Vec<(String, String)>, body: RequestBody) -> (r: ApiRequest)
        ensures
            r.method == method,
            r.url@ == self.base() + path@,
            pairs_view(r.headers@) == self.identity_headers(),
            r.query == query,
            r.body == body,
    {
        ApiRequest { method, url: self.url(path), headers: self.identity_header_pairs(), query, body }
    }
}

/// The API address of a client has no trailing `/`, so that joining it with
/// a path that starts with `/` never doubles the slash; normalizing an
/// address twice gives the same address.
pub proof fn law_base_url_normalized(base_url: Seq<char>)
    ensures
        trim_end_char(base_url, '/').len() == 0 || trim_end_char(base_url, '/').last() != '/',
        trim_end_char(trim_end_char(base_url, '/'), '/') == trim_end_char(base_url, '/'),
        base_url.len() > 0 && base_url.last() != '/' ==> trim_end_char(base_url, '/') == base_url,
{
    lemma_trim_end_char(base_url, '/');
}

/// Every request of a client set up with an API key carries the header
/// `Authorization: Loco <key>`, then the user agent `loco-cli/0.1.0`.
pub proof fn law_requests_carry_key(c: LocoClient, api_key: Seq<char>)
    requires
        c.auth() == auth_header(api_key),
    ensures
        c.identity_headers() == seq![
            ("Authorization"@, "Loco "@ + api_key),
            ("User-Agent"@, "loco-cli/0.1.0"@),
        ],
{
}

/// A 2xx status.
pub open spec fn is_success(status: u16) -> bool {
    200 <= status <= 299
}

/// The message of an API error: the `error` member of the body when the
/// body is the API's error document, else the body itself.
pub open spec fn api_error_message(body: Seq<char>, api_message: Option<Seq<char>>) -> Seq<char> {
    match api_message {
        Some(m) => m,
        None => body,
    }
}

/// Whether a status is a 2xx success.
pub fn is_success_status(status: u16) -> (res: bool)
    ensures
        res == is_success(status),
{
    200 <= status && status <= 299
}

/// Whether the body of an answer is needed to classify it: only for
/// unsuccessful answers other than 401 and 429.
pub fn status_needs_body(status: u16) -> (res: bool)
    ensures
        res == !(is_success(status) || status == 401 || status == 429),
{
    !((200 <= status && status <= 299) || status == 401 || status == 429)
}

/// The error that an unsuccessful answer stands for. `body` is the body of
/// the answer (empty when it was not needed or could not be read) and
/// `api_message` the `error` member of the body when the body is the API's
/// error document.
pub fn status_error(status: u16, body: String, api_message: Option<String>) -> (e: LocoError)
    requires
        !is_success(status),
    ensures
        status == 401 ==> e is Unauthorized,
        status == 404 ==> (e matches LocoError::NotFound(b) && b@ == body@),
        status == 429 ==> e is RateLimited,
        status != 401 && status != 404 && status != 429 ==> (e matches LocoError::Api {
            status: s,
            message,
        } && s == status && message@ == api_error_message(body@, opt_view(api_message))),
{
    if status == 401 {
        LocoError::Unauthorized
    } else if status == 404 {
        LocoError::NotFound(body)
    } else if status == 429 {
        LocoError::RateLimited
    } else {
        let message = match api_message {
            Some(m) => m,
            None => body,
        };
        LocoError::Api { status, message }
    }
}

} // verus!
