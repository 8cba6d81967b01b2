//! Request descriptors handed to the transport, and its responses.
use vstd::prelude::*;
use crate::body::{Body, ContentType};
use crate::errors::HttpClientError;
use crate::headers::Headers;
use crate::http_method::{HttpMethod, method_name, upper_of};
use crate::url::{Url, UrlError, url_scheme_of, scheme_supported};

verus! {

/// Timeout of every request: thirty seconds.
pub const REQUEST_TIMEOUT_NS: u64 = 30_000_000_000;

#[derive(Debug, Clone)]
pub struct HttpRequest {
    /// A random identifier, drawn by the caller.
    pub id: u128,
    pub url: Url,
    pub method: HttpMethod,
    pub headers: Headers,
    pub body: Option<Body>,
    pub timeout_ns: u64,
}

#[derive(Debug, Clone)]
pub struct HttpResponse {
    pub status: u16,
    pub headers: Headers,
    pub body: Option<Body>,
    /// Time from sending the request to receiving the status.
    pub duration_ns: u64,
    /// Seconds since the Unix epoch at which the response arrived.
    pub timestamp_secs: i64,
}

impl HttpRequest {
    /// A GET of `https://httpbin.org/get` with identifier `id`: no
    /// headers, no body, the standard timeout.
    pub fn default_with_id(id: u128) -> (r: HttpRequest)
        ensures
            r.id == id,
            r.url@ == "https://httpbin.org/get"@,
            r.method == HttpMethod::GET,
            r.headers.wf(),
            r.headers@.dom().len() == 0,
            r.body is None,
            r.timeout_ns == REQUEST_TIMEOUT_NS,
    {
        HttpRequest {
            id,
            url: Url::default(),
            method: HttpMethod::GET,
            headers: Headers::new(),
            body: None,
            timeout_ns: REQUEST_TIMEOUT_NS,
        }
    }
}

impl HttpResponse {
    /// A status in 200..300.
    pub fn is_success(&self) -> (r: bool)
        ensures
            r == (200 <= self.status < 300),
    {
        200 <= self.status && self.status < 300
    }

    /// A status in 400..500.
    pub fn is_client_error(&self) -> (r: bool)
        ensures
            r == (400 <= self.status < 500),
    {
        400 <= self.status && self.status < 500
    }

    /// A status in 500..600.
    pub fn is_server_error(&self) -> (r: bool)
        ensures
            r == (500 <= self.status < 600),
    {
        500 <= self.status && self.status < 600
    }

    /// The body of a response whose text is `text`: none when empty,
    /// plain text otherwise.
    pub fn body_from_text(text: String) -> (r: Option<Body>)
        ensures
            text@.len() == 0 ==> r is None,
            text@.len() > 0 ==> (r matches Some(b) && b.content == text && b.content_type == ContentType::Text),
    {
        if text.as_str().is_empty() {
            None
        } else {
            Some(Body::text(text))
        }
    }
}

/// The message of the error that `Url::parse` gives for `s`, when it
/// gives one.
pub open spec fn url_error_text(s: Seq<char>) -> Seq<char> {
    match url_scheme_of(s) {
        Ok(scheme) => "Unsupported scheme: "@ + scheme,
        Err(e) => "Invalid URL: "@ + e,
    }
}

/// Whether `url` parses to a supported URL.
pub open spec fn url_accepted(url: Seq<char>) -> bool {
    url_scheme_of(url) matches Ok(scheme) && scheme_supported(scheme)
}

/// Whether `method` names a method in some letter case.
pub open spec fn method_accepted(method: Seq<char>) -> bool {
    exists|m: HttpMethod| method_name(m) == upper_of(method)
}

/// Builds the request for `url` and `method` with identifier `id`: no
/// headers, no body, the standard timeout. A URL that does not parse or
/// whose scheme is not http or https, or an unknown method, gives
/// `InvalidUrl` with the reason; the URL is checked first.
pub fn build_request(id: u128, url: &str, method: &str) -> (r: Result<HttpRequest, HttpClientError>)
    ensures
        r is Ok <==> url_accepted(url@) && method_accepted(method@),
        match r {
            Ok(req) => req.id == id && req.url@ == url@ && method_name(req.method) == upper_of(method@)
                && req.headers.wf() && req.headers@.dom().len() == 0 && req.body is None
                && req.timeout_ns == REQUEST_TIMEOUT_NS,
            Err(HttpClientError::InvalidUrl(x)) => if !url_accepted(url@) {
                x@ == url_error_text(url@)
            } else {
                x@ == "Invalid HTTP method: "@ + method@
            },
            Err(_) => false,
        },
{
    let u = match Url::parse(url) {
        Ok(u) => u,
        Err(e) => {
            let m = e.message();
            return Err(HttpClientError::InvalidUrl(m));
        },
    };
    let m = match HttpMethod::from_method_str(method) {
        Ok(m) => m,
        Err(e) => {
            return Err(HttpClientError::InvalidUrl(e));
        },
    };
    let headers = Headers::new();
    Ok(HttpRequest { id, url: u, method: m, headers, body: None, timeout_ns: REQUEST_TIMEOUT_NS })
}

} // verus!
