//! Errors of a single request or of request setup.
use vstd::prelude::*;

verus! {

#[derive(Debug, Clone)]
pub enum HttpClientError {
    ConnectionFailed(String),
    Timeout,
    InvalidUrl(String),
    SslError(String),
    TooManyRedirects,
    Cancelled,
    IoError(String),
    SerializationError(String),
    Unknown(String),
}

/// `prefix` followed by `x`.
fn prefixed(prefix: &str, x: &String) -> (r: String)
    ensures
        r@ == prefix@ + x@,
{
    let mut m = prefix.to_owned();
    m.append(x.as_str());
    m
}

impl HttpClientError {
    /// Classifies a transport failure from what the transport reports of
    /// it, in this order: a timeout, too many redirects, a failed
    /// connection, a body that could not be read or decoded; anything
    /// else is unknown. `text` describes the failure.
    pub fn from_transport_failure(timeout: bool, redirect: bool, connect: bool, body: bool, text: String) -> (r:
        HttpClientError)
        ensures
            timeout ==> r matches HttpClientError::Timeout,
            !timeout && redirect ==> r matches HttpClientError::TooManyRedirects,
            !timeout && !redirect && connect ==> (r matches HttpClientError::ConnectionFailed(x) && x == text),
            !timeout && !redirect && !connect && body ==> (r matches HttpClientError::SerializationError(x) && x
                == text),
            !timeout && !redirect && !connect && !body ==> (r matches HttpClientError::Unknown(x) && x == text),
    {
        if timeout {
            HttpClientError::Timeout
        } else if redirect {
            HttpClientError::TooManyRedirects
        } else if connect {
            HttpClientError::ConnectionFailed(text)
        } else if body {
            HttpClientError::SerializationError(text)
        } else {
            HttpClientError::Unknown(text)
        }
    }

    /// The error as a message.
    pub fn message(&self) -> (r: String)
        ensures
            match self {
                HttpClientError::ConnectionFailed(x) => r@ == "Connection failed: "@ + x@,
                HttpClientError::Timeout => r@ == "Timeout exceeded"@,
                HttpClientError::InvalidUrl(x) => r@ == "Invalid URL: "@ + x@,
                HttpClientError::SslError(x) => r@ == "SSL error: "@ + x@,
                HttpClientError::TooManyRedirects => r@ == "Too many redirects"@,
                HttpClientError::Cancelled => r@ == "Request cancelled"@,
                HttpClientError::IoError(x) => r@ == "IO error: "@ + x@,
                HttpClientError::SerializationError(x) => r@ == "Serialization error: "@ + x@,
                HttpClientError::Unknown(x) => r@ == "Unknown error: "@ + x@,
            },
    {
        match self {
            HttpClientError::ConnectionFailed(x) => prefixed("Connection failed: ", x),
            HttpClientError::Timeout => "Timeout exceeded".to_owned(),
            HttpClientError::InvalidUrl(x) => prefixed("Invalid URL: ", x),
            HttpClientError::SslError(x) => prefixed("SSL error: ", x),
            HttpClientError::TooManyRedirects => "Too many redirects".to_owned(),
            HttpClientError::Cancelled => "Request cancelled".to_owned(),
            HttpClientError::IoError(x) => prefixed("IO error: ", x),
            HttpClientError::SerializationError(x) => prefixed("Serialization error: ", x),
            HttpClientError::Unknown(x) => prefixed("Unknown error: ", x),
        }
    }
}

/// Options of a single request.
#[derive(Debug, Clone, Copy, PartialEq, Eq, Structural)]
pub struct RequestOptions {
    pub follow_redirects: bool,
    pub redirect_limit: u32,
    pub timeout_seconds: u64,
    pub verify_ssl: bool,
}

impl Default for RequestOptions {
    /// Follow up to ten redirects, thirty seconds, verify certificates.
    fn default() -> (r: RequestOptions)
        ensures
            r == (RequestOptions { follow_redirects: true, redirect_limit: 10, timeout_seconds: 30, verify_ssl: true }),
    {
        RequestOptions { follow_redirects: true, redirect_limit: 10, timeout_seconds: 30, verify_ssl: true }
    }
}

impl RequestOptions {
    /// No redirects, sixty seconds, verify certificates.
    pub fn strict_security() -> (r: RequestOptions)
        ensures
            r == (RequestOptions { follow_redirects: false, redirect_limit: 0, timeout_seconds: 60, verify_ssl: true }),
    {
        RequestOptions { follow_redirects: false, redirect_limit: 0, timeout_seconds: 60, verify_ssl: true }
    }

    /// Up to twenty redirects, ten seconds, certificates not verified.
    pub fn lenient_testing() -> (r: RequestOptions)
        ensures
            r == (RequestOptions { follow_redirects: true, redirect_limit: 20, timeout_seconds: 10, verify_ssl: false }),
    {
        RequestOptions { follow_redirects: true, redirect_limit: 20, timeout_seconds: 10, verify_ssl: false }
    }
}

} // verus!
