//! Single-request inspection: how a response body is shown.
use vstd::prelude::*;
use crate::body::ContentType;
use crate::request::HttpResponse;

verus! {

/// What re-indenting the JSON text `s` gives, or `None` when `s` is not
/// JSON.
pub uninterp spec fn pretty_json_of(s: Seq<char>) -> Option<Seq<char>>;

/// Relies on `serde_json::from_str` into a `serde_json::Value` and
/// `serde_json::to_string_pretty` of that value: `None` when either fails.
#[verifier::external_body]
fn pretty_json(s: &str) -> (r: Option<String>)
    ensures
        match r {
            Some(p) => pretty_json_of(s@) == Some(p@),
            None => pretty_json_of(s@) is None,
        },
{
    serde_json::from_str::<serde_json::Value>(s).ok().and_then(|v| serde_json::to_string_pretty(&v).ok())
}

/// The body shown for `body` of type `content_type`, given `pretty`, the
/// re-indented JSON if there is one: that for a JSON body, else the body
/// as it is.
pub fn format_body_with(body: &str, content_type: ContentType, pretty: Option<String>) -> (r: String)
    ensures
        r@ == match (content_type, pretty) {
            (ContentType::Json, Some(p)) => p@,
            _ => body@,
        },
{
    match (content_type, pretty) {
        (ContentType::Json, Some(p)) => p,
        _ => body.to_owned(),
    }
}

/// The body shown for `body` of type `content_type`: JSON re-indented
/// when it parses, anything else as it is.
pub fn format_response_body(body: &str, content_type: ContentType) -> (r: String)
    ensures
        r@ == match (content_type, pretty_json_of(body@)) {
            (ContentType::Json, Some(p)) => p,
            _ => body@,
        },
{
    if content_type == ContentType::Json {
        let pretty = pretty_json(body);
        format_body_with(body, content_type, pretty)
    } else {
        format_body_with(body, content_type, None)
    }
}

/// A response and the text its body is shown as.
#[derive(Debug, Clone)]
pub struct ApiDebugResult {
    pub response: HttpResponse,
    pub formatted_body: Option<String>,
}

impl ApiDebugResult {
    pub fn from_response(response: HttpResponse) -> (r: ApiDebugResult)
        ensures
            r.response == response,
            match response.body {
                None => r.formatted_body is None,
                Some(b) => r.formatted_body matches Some(f) && f@ == match (b.content_type, pretty_json_of(
                    b.content@,
                )) {
                    (ContentType::Json, Some(p)) => p,
                    _ => b.content@,
                },
            },
    {
        let formatted_body = match &response.body {
            None => None,
            Some(b) => Some(format_response_body(b.content(), b.content_type())),
        };
        ApiDebugResult { response, formatted_body }
    }
}

} // verus!
