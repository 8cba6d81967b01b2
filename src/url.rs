//! Target URLs: absolute, with scheme http or https.
use vstd::prelude::*;

verus! {

/// What parsing `s` as an absolute URL gives: its scheme (lower-case,
/// without the ':'), or the text of the parse error.
pub uninterp spec fn url_scheme_of(s: Seq<char>) -> Result<Seq<char>, Seq<char>>;

/// Relies on `url::Url::parse`: on success the parsed URL's `scheme()`,
/// on failure the `ParseError` as text.
#[verifier::external_body]
fn parse_scheme(s: &str) -> (r: Result<String, String>)
    ensures
        match r {
            Ok(scheme) => url_scheme_of(s@) == Ok::<Seq<char>, Seq<char>>(scheme@),
            Err(e) => url_scheme_of(s@) == Err::<Seq<char>, Seq<char>>(e@),
        },
{
    match ::url::Url::parse(s) {
        Ok(u) => Ok(u.scheme().to_owned()),
        Err(e) => Err(e.to_string()),
    }
}

/// A URL whose scheme is http or https, kept as the text it was parsed from.
#[derive(Debug, Clone)]
pub struct Url(pub String);

#[derive(Debug, Clone)]
pub enum UrlError {
    InvalidUrl(String),
    MissingScheme,
    UnsupportedScheme(String),
}

/// The schemes a target may have.
pub open spec fn scheme_supported(scheme: Seq<char>) -> bool {
    scheme == "http"@ || scheme == "https"@
}

impl Url {
    pub open spec fn view(&self) -> Seq<char> {
        self.0@
    }

    /// Decides on the text `s` given the outcome of parsing it: a URL
    /// with a supported scheme, `UnsupportedScheme` naming any other, or
    /// `InvalidUrl` with the parser's message.
    pub fn from_parsed(s: &str, parsed: Result<String, String>) -> (r: Result<Url, UrlError>)
        ensures
            match parsed {
                Ok(scheme) => if scheme_supported(scheme@) {
                    r matches Ok(u) && u@ == s@
                } else {
                    r matches Err(UrlError::UnsupportedScheme(x)) && x@ == scheme@
                },
                Err(e) => r matches Err(UrlError::InvalidUrl(x)) && x@ == e@,
            },
    {
        match parsed {
            Err(e) => Err(UrlError::InvalidUrl(e)),
            Ok(scheme) => {
                let http = "http".to_owned();
                let https = "https".to_owned();
                if scheme == http || scheme == https {
                    Ok(Url(s.to_owned()))
                } else {
                    Err(UrlError::UnsupportedScheme(scheme))
                }
            }
        }
    }

    /// Parses an absolute URL and accepts it when its scheme is http or
    /// https.
    pub fn parse(s: &str) -> (r: Result<Url, UrlError>)
        ensures
            match url_scheme_of(s@) {
                Ok(scheme) => if scheme_supported(scheme) {
                    r matches Ok(u) && u@ == s@
                } else {
                    r matches Err(UrlError::UnsupportedScheme(x)) && x@ == scheme
                },
                Err(e) => r matches Err(UrlError::InvalidUrl(x)) && x@ == e,
            },
    {
        let parsed = parse_scheme(s);
        Self::from_parsed(s, parsed)
    }

    pub fn as_str(&self) -> (r: &str)
        ensures
            r@ == self@,
    {
        self.0.as_str()
    }
}

impl Default for Url {
    fn default() -> (r: Url)
        ensures
            r@ == "https://httpbin.org/get"@,
    {
        Url("https://httpbin.org/get".to_owned())
    }
}

impl UrlError {
    /// The error as a message.
    pub fn message(&self) -> (r: String)
        ensures
            match self {
                UrlError::InvalidUrl(x) => r@ == "Invalid URL: "@ + x@,
                UrlError::MissingScheme => r@ == "Missing scheme"@,
                UrlError::UnsupportedScheme(x) => r@ == "Unsupported scheme: "@ + x@,
            },
    {
        match self {
            UrlError::InvalidUrl(x) => {
                let mut m = "Invalid URL: ".to_owned();
                m.append(x.as_str());
                m
            },
            UrlError::MissingScheme => "Missing scheme".to_owned(),
            UrlError::UnsupportedScheme(x) => {
                let mut m = "Unsupported scheme: ".to_owned();
                m.append(x.as_str());
                m
            },
        }
    }
}

} // verus!
