//! The authenticated JSON API client, modeled as request preparation plus
//! response classification.
//!
//! Building a request — joining the path against the base URL, serializing
//! the body before any signing so body-dependent signatures see the exact
//! bytes, invoking the configured [`TokenGen`] exactly once, and setting
//! the JSON headers — is all here and verified. Classifying a response by
//! status is here too. Only the transport itself (sending the prepared
//! request and reading back status and body text) is left to an async
//! shell around this crate.

use vstd::prelude::*;

verus! {

/// User-agent offered on outgoing requests.
pub const USER_AGENT: &'static str = "paykit/0.1";

/// Default whole-request timeout, in seconds.
pub const REQUEST_TIMEOUT_SECS: u64 = 30;

/// Default connect timeout, in seconds.
pub const CONNECT_TIMEOUT_SECS: u64 = 10;

/// HTTP method of an outgoing request.
#[derive(Copy, Clone, Debug, PartialEq, Eq, Structural)]
pub enum HttpMethod {
    Get,
    Post,
    Put,
    Delete,
    Patch,
}

impl HttpMethod {
    pub open spec fn spec_name(self) -> Seq<char> {
        match self {
            HttpMethod::Get => "GET"@,
            HttpMethod::Post => "POST"@,
            HttpMethod::Put => "PUT"@,
            HttpMethod::Delete => "DELETE"@,
            HttpMethod::Patch => "PATCH"@,
        }
    }

    /// The method name as it appears on the wire.
    pub fn name(&self) -> (r: &'static str)
        ensures
            r@ == self.spec_name(),
    {
        match self {
            HttpMethod::Get => "GET",
            HttpMethod::Post => "POST",
            HttpMethod::Put => "PUT",
            HttpMethod::Delete => "DELETE",
            HttpMethod::Patch => "PATCH",
        }
    }
}

/// A fully prepared outgoing request: resolved URL, per-request headers,
/// and the serialized body text, ready for a transport to send.
pub struct ApiRequest {
    pub method: HttpMethod,
    pub url: String,
    pub headers: Vec<(String, String)>,
    pub body: Option<String>,
}

/// How a call through the client failed.
#[derive(Debug)]
pub enum ApiError {
    /// The base URL is not an absolute URL.
    InvalidBaseUrl { base: String },
    /// The path cannot be joined against the base URL.
    UrlJoin { path: String },
    /// A signing strategy could not construct credentials.
    Signing { detail: String },
    /// Connection, DNS, TLS or timeout failure below the HTTP layer.
    Transport { cause: String },
    /// The response had a non-success status.
    Status { method: HttpMethod, path: String, status: u16, body: String },
    /// A success response whose body is not the JSON the caller expected.
    Decode { path: String, body: String, detail: String },
}

/// Per-request authentication: given method, resolved URL and the exact
/// serialized body text (if any), add credentials to the prepared request.
/// A strategy must not keep per-call state: concurrent requests share it.
pub trait TokenGen: Send + Sync {
    fn generate_token(
        &self,
        method: HttpMethod,
        url: &str,
        body: Option<&str>,
        req: ApiRequest,
    ) -> Result<ApiRequest, ApiError>;
}

/// Pre-shared static `authorization` header value.
pub struct StaticTokenGen {
    pub value: String,
}

impl TokenGen for StaticTokenGen {
    /// Appends one `authorization` header and changes nothing else.
    fn generate_token(
        &self,
        method: HttpMethod,
        url: &str,
        body: Option<&str>,
        req: ApiRequest,
    ) -> (r: Result<ApiRequest, ApiError>)
        ensures
            r matches Ok(q) && q.method == req.method && q.url == req.url && q.body == req.body
                && q.headers@.len() == req.headers@.len() + 1 && q.headers@.subrange(
                0,
                req.headers@.len() as int,
            ) == req.headers@ && q.headers@.last().0@ == "authorization"@
                && q.headers@.last().1@ == self.value@,
    {
        let mut req = req;
        req.headers.push(("authorization".to_owned(), self.value.clone()));
        Ok(req)
    }
}

/// What `url::Url::parse` accepts as an absolute URL, and its normalized
/// serialization. A function of the string alone; named, not defined.
pub uninterp spec fn spec_url_normalize(s: Seq<char>) -> Option<Seq<char>>;

/// Relies on `url::Url::parse` and `Url::as_str`: whether a string parses
/// as an absolute URL, and the normalized form, depend on the string
/// alone.
#[verifier::external_body]
pub(crate) fn url_normalize(s: &str) -> (r: Option<String>)
    ensures
        r is Some <==> spec_url_normalize(s@) is Some,
        r matches Some(u) ==> spec_url_normalize(s@) == Some(u@),
{
    match url::Url::parse(s) {
        Ok(u) => Some(u.as_str().to_owned()),
        Err(_) => None,
    }
}

/// What RFC 3986 resolution of `path` against `base` yields. A function
/// of the two strings alone; named, not defined.
pub uninterp spec fn spec_url_join(base: Seq<char>, path: Seq<char>) -> Option<Seq<char>>;

/// Relies on `url::Url::parse` and `Url::join`: resolving a path against
/// a base URL depends on the two strings alone.
#[verifier::external_body]
fn url_join(base: &str, path: &str) -> (r: Option<String>)
    ensures
        r is Some <==> spec_url_join(base@, path@) is Some,
        r matches Some(u) ==> spec_url_join(base@, path@) == Some(u@),
{
    match url::Url::parse(base) {
        Ok(b) => match b.join(path) {
            Ok(u) => Some(u.as_str().to_owned()),
            Err(_) => None,
        },
        Err(_) => None,
    }
}

/// The authenticated JSON API client: a normalized base URL, the headers
/// every request carries, and an optional signing strategy invoked exactly
/// once per outgoing request.
pub struct JsonApi {
    base: String,
    default_headers: Vec<(String, String)>,
    allow_invalid_certs: bool,
    token_gen: Option<Box<dyn TokenGen>>,
}

impl JsonApi {
    pub closed spec fn spec_base(&self) -> Seq<char> {
        self.base@
    }

    pub closed spec fn spec_default_headers(&self) -> Seq<(Seq<char>, Seq<char>)> {
        Seq::new(
            self.default_headers@.len(),
            |i: int| (self.default_headers@[i].0@, self.default_headers@[i].1@),
        )
    }

    pub closed spec fn spec_has_token_gen(&self) -> bool {
        self.token_gen is Some
    }

    pub closed spec fn spec_allow_invalid_certs(&self) -> bool {
        self.allow_invalid_certs
    }

    /// A client without authentication: `user-agent` and `accept` default
    /// headers only.
    pub fn new(base: &str) -> (r: Result<Self, ApiError>)
        ensures
            r is Ok <==> spec_url_normalize(base@) is Some,
            r matches Ok(api) ==> {
                &&& spec_url_normalize(base@) == Some(api.spec_base())
                &&& api.spec_default_headers() =~= seq![
                    ("user-agent"@, "paykit/0.1"@),
                    ("accept"@, "application/json; charset=utf-8"@),
                ]
                &&& !api.spec_has_token_gen()
            },
            r matches Err(e) ==> e matches ApiError::InvalidBaseUrl { base: b } && b@ == base@,
    {
        let base_url = match url_normalize(base) {
            None => return Err(ApiError::InvalidBaseUrl { base: base.to_owned() }),
            Some(u) => u,
        };
        let mut headers: Vec<(String, String)> = Vec::new();
        headers.push(("user-agent".to_owned(), USER_AGENT.to_owned()));
        headers.push(("accept".to_owned(), "application/json; charset=utf-8".to_owned()));
        Ok(JsonApi { base: base_url, default_headers: headers, allow_invalid_certs: false, token_gen: None })
    }

    /// A client with a pre-shared `authorization` header value on every
    /// request.
    pub fn token(base: &str, token: &str, allow_invalid_certs: bool) -> (r: Result<Self, ApiError>)
        ensures
            r is Ok <==> spec_url_normalize(base@) is Some,
            r matches Ok(api) ==> {
                &&& spec_url_normalize(base@) == Some(api.spec_base())
                &&& api.spec_default_headers() =~= seq![
                    ("user-agent"@, "paykit/0.1"@),
                    ("authorization"@, token@),
                    ("accept"@, "application/json; charset=utf-8"@),
                ]
                &&& !api.spec_has_token_gen()
            },
            r matches Err(e) ==> e matches ApiError::InvalidBaseUrl { base: b } && b@ == base@,
    {
        let base_url = match url_normalize(base) {
            None => return Err(ApiError::InvalidBaseUrl { base: base.to_owned() }),
            Some(u) => u,
        };
        let mut headers: Vec<(String, String)> = Vec::new();
        headers.push(("user-agent".to_owned(), USER_AGENT.to_owned()));
        headers.push(("authorization".to_owned(), token.to_owned()));
        headers.push(("accept".to_owned(), "application/json; charset=utf-8".to_owned()));
        Ok(JsonApi {
            base: base_url,
            default_headers: headers,
            allow_invalid_certs,
            token_gen: None,
        })
    }

    /// A client with a per-request signing strategy.
    pub fn token_gen<T: TokenGen + 'static>(base: &str, allow_invalid_certs: bool, tg: T) -> (r:
        Result<Self, ApiError>)
        ensures
            r is Ok <==> spec_url_normalize(base@) is Some,
            r matches Ok(api) ==> {
                &&& spec_url_normalize(base@) == Some(api.spec_base())
                &&& api.spec_default_headers() =~= seq![
                    ("user-agent"@, "paykit/0.1"@),
                    ("accept"@, "application/json; charset=utf-8"@),
                ]
                &&& api.spec_has_token_gen()
            },
            r matches Err(e) ==> e matches ApiError::InvalidBaseUrl { base: b } && b@ == base@,
    {
        let base_url = match url_normalize(base) {
            None => return Err(ApiError::InvalidBaseUrl { base: base.to_owned() }),
            Some(u) => u,
        };
        let mut headers: Vec<(String, String)> = Vec::new();
        headers.push(("user-agent".to_owned(), USER_AGENT.to_owned()));
        headers.push(("accept".to_owned(), "application/json; charset=utf-8".to_owned()));
        Ok(JsonApi {
            base: base_url,
            default_headers: headers,
            allow_invalid_certs,
            token_gen: Some(Box::new(tg)),
        })
    }

    /// The normalized base URL.
    pub fn base(&self) -> (r: &String)
        ensures
            r@ == self.spec_base(),
    {
        &self.base
    }

    /// The headers every request carries.
    pub fn default_headers(&self) -> (r: &Vec<(String, String)>)
        ensures
            Seq::new(r@.len(), |i: int| (r@[i].0@, r@[i].1@)) == self.spec_default_headers(),
    {
        &self.default_headers
    }

    /// Whether certificate validation is disabled (transport
    /// configuration, applied by the shell that sends the request).
    pub fn allow_invalid_certs(&self) -> (r: bool)
        ensures
            r == self.spec_allow_invalid_certs(),
    {
        self.allow_invalid_certs
    }

    /// Prepare one outgoing request: resolve the path, hand the request to
    /// the signing strategy (exactly once, after the body was serialized),
    /// then set the JSON content headers and the body.
    ///
    /// The method, the resolved URL and the body of a prepared request
    /// are always those asked for: a strategy adds credentials, it does
    /// not redirect the request. Without a signing strategy the headers
    /// are pinned completely too: exactly one `accept` header plus — for
    /// requests with a body — one `content-type` header, and nothing
    /// else; in particular no `authorization` header. With a strategy,
    /// what it added is its own business.
    pub fn build_req(&self, method: HttpMethod, path: &str, body: Option<&str>) -> (r: Result<
        ApiRequest,
        ApiError,
    >)
        ensures
            r is Err ==> spec_url_join(self.spec_base(), path@) is None || self.spec_has_token_gen(),
            spec_url_join(self.spec_base(), path@) is None ==> (r matches Err(e)
                && e matches ApiError::UrlJoin { path: p } && p@ == path@),
            !self.spec_has_token_gen() && spec_url_join(self.spec_base(), path@) is Some
                ==> r is Ok,
            r matches Ok(q) ==> {
                &&& q.method == method
                &&& Some(q.url@) == spec_url_join(self.spec_base(), path@)
                &&& match body {
                    Some(b) => q.body matches Some(qb) && qb@ == b@,
                    None => q.body is None,
                }
                &&& !self.spec_has_token_gen() ==> {
                    &&& Seq::new(q.headers@.len(), |i: int| (q.headers@[i].0@, q.headers@[i].1@))
                        =~= if body is Some {
                        seq![
                            ("accept"@, "application/json"@),
                            ("content-type"@, "application/json; charset=utf-8"@),
                        ]
                    } else {
                        seq![("accept"@, "application/json"@)]
                    }
                }
            },
    {
        let url = match url_join(self.base.as_str(), path) {
            None => return Err(ApiError::UrlJoin { path: path.to_owned() }),
            Some(u) => u,
        };
        let mut headers: Vec<(String, String)> = Vec::new();
        headers.push(("accept".to_owned(), "application/json".to_owned()));
        let mut req = ApiRequest { method, url: url.clone(), headers, body: None };
        if let Some(tg) = &self.token_gen {
            req = match tg.generate_token(method, url.as_str(), body, req) {
                Ok(q) => q,
                Err(e) => return Err(e),
            };
            // a strategy adds credentials; it cannot redirect the request
            req.method = method;
            req.url = url;
        }
        match body {
            Some(b) => {
                req.headers.push((
                    "content-type".to_owned(),
                    "application/json; charset=utf-8".to_owned(),
                ));
                req.body = Some(b.to_owned());
            },
            None => {
                req.body = None;
            },
        }
        Ok(req)
    }
}

/// Sort a raw response by status: a success status hands the body text on
/// for decoding; anything else is an HTTP-status error carrying method,
/// path, status and the raw body.
pub fn classify_response(method: HttpMethod, path: &str, status: u16, body: String) -> (r: Result<
    String,
    ApiError,
>)
    ensures
        r is Ok <==> 200 <= status < 300,
        r matches Ok(b) ==> b == body,
        r matches Err(e) ==> e matches ApiError::Status { method: m, path: p, status: s, body: b }
            && m == method && p@ == path@ && s == status && b == body,
{
    if 200 <= status && status < 300 {
        Ok(body)
    } else {
        Err(ApiError::Status { method, path: path.to_owned(), status, body })
    }
}

/// Like [`classify_response`], but a caller that only wants the status
/// code gets it back on success.
pub fn classify_status(method: HttpMethod, path: &str, status: u16, body: String) -> (r: Result<
    u16,
    ApiError,
>)
    ensures
        r is Ok <==> 200 <= status < 300,
        r matches Ok(s) ==> s == status,
        r matches Err(e) ==> e matches ApiError::Status { method: m, path: p, status: s, body: b }
            && m == method && p@ == path@ && s == status && b == body,
{
    if 200 <= status && status < 300 {
        Ok(status)
    } else {
        Err(ApiError::Status { method, path: path.to_owned(), status, body })
    }
}

} // verus!
