//! HTTP methods.
use vstd::prelude::*;

verus! {

#[derive(Debug, Clone, Copy, PartialEq, Eq, Structural)]
pub enum HttpMethod {
    GET,
    POST,
    PUT,
    DELETE,
    PATCH,
    HEAD,
    OPTIONS,
}

/// The canonical (upper-case) name of a method.
pub open spec fn method_name(m: HttpMethod) -> Seq<char> {
    match m {
        HttpMethod::GET => "GET"@,
        HttpMethod::POST => "POST"@,
        HttpMethod::PUT => "PUT"@,
        HttpMethod::DELETE => "DELETE"@,
        HttpMethod::PATCH => "PATCH"@,
        HttpMethod::HEAD => "HEAD"@,
        HttpMethod::OPTIONS => "OPTIONS"@,
    }
}

/// What `str::to_uppercase` returns for a string.
pub uninterp spec fn upper_of(s: Seq<char>) -> Seq<char>;

/// Relies on `str::to_uppercase`: the result depends on the characters
/// alone.
#[verifier::external_body]
fn to_upper(s: &str) -> (r: String)
    ensures
        r@ == upper_of(s@),
{
    s.to_uppercase()
}

/// Whether two strings hold the same characters.
pub fn same_text(a: &str, b: &str) -> (r: bool)
    ensures
        r == (a@ == b@),
{
    a.to_owned() == b.to_owned()
}

impl Default for HttpMethod {
    fn default() -> (r: HttpMethod)
        ensures
            r == HttpMethod::GET,
    {
        HttpMethod::GET
    }
}

impl HttpMethod {
    /// Safe to repeat: GET, HEAD, PUT, DELETE, OPTIONS.
    pub fn is_idempotent(&self) -> (r: bool)
        ensures
            r == (*self == HttpMethod::GET || *self == HttpMethod::HEAD || *self == HttpMethod::PUT
                || *self == HttpMethod::DELETE || *self == HttpMethod::OPTIONS),
    {
        match self {
            HttpMethod::GET | HttpMethod::HEAD | HttpMethod::PUT | HttpMethod::DELETE | HttpMethod::OPTIONS => true,
            _ => false,
        }
    }

    /// Carries a request body: POST, PUT, PATCH.
    pub fn supports_body(&self) -> (r: bool)
        ensures
            r == (*self == HttpMethod::POST || *self == HttpMethod::PUT || *self == HttpMethod::PATCH),
    {
        match self {
            HttpMethod::POST | HttpMethod::PUT | HttpMethod::PATCH => true,
            _ => false,
        }
    }

    /// The canonical name, as sent on the wire.
    pub fn as_str(&self) -> (r: &'static str)
        ensures
            r@ == method_name(*self),
    {
        match self {
            HttpMethod::GET => "GET",
            HttpMethod::POST => "POST",
            HttpMethod::PUT => "PUT",
            HttpMethod::DELETE => "DELETE",
            HttpMethod::PATCH => "PATCH",
            HttpMethod::HEAD => "HEAD",
            HttpMethod::OPTIONS => "OPTIONS",
        }
    }

    /// The method whose canonical name is `upper`, or the error message
    /// naming `written`, the text as the user wrote it.
    pub fn from_upper(upper: &str, written: &str) -> (r: Result<HttpMethod, String>)
        ensures
            match r {
                Ok(m) => method_name(m) == upper@,
                Err(e) => (forall|m: HttpMethod| method_name(m) != upper@)
                    && e@ == "Invalid HTTP method: "@ + written@,
            },
    {
        let all = [
            HttpMethod::GET,
            HttpMethod::POST,
            HttpMethod::PUT,
            HttpMethod::DELETE,
            HttpMethod::PATCH,
            HttpMethod::HEAD,
            HttpMethod::OPTIONS,
        ];
        let mut i: usize = 0;
        while i < 7
            invariant
                0 <= i <= 7,
                all@ == seq![HttpMethod::GET, HttpMethod::POST, HttpMethod::PUT, HttpMethod::DELETE,
                    HttpMethod::PATCH, HttpMethod::HEAD, HttpMethod::OPTIONS],
                forall|j: int| 0 <= j < i ==> method_name(all@[j]) != upper@,
            decreases 7 - i,
        {
            let m = all[i];
            if same_text(m.as_str(), upper) {
                return Ok(m);
            }
            i = i + 1;
        }
        proof {
            assert forall|m: HttpMethod| method_name(m) != upper@ by {
                match m {
                    HttpMethod::GET => assert(all@[0] == m),
                    HttpMethod::POST => assert(all@[1] == m),
                    HttpMethod::PUT => assert(all@[2] == m),
                    HttpMethod::DELETE => assert(all@[3] == m),
                    HttpMethod::PATCH => assert(all@[4] == m),
                    HttpMethod::HEAD => assert(all@[5] == m),
                    HttpMethod::OPTIONS => assert(all@[6] == m),
                }
            }
        }
        let mut e = "Invalid HTTP method: ".to_owned();
        e.append(written);
        Err(e)
    }

    /// Parses a method name in any letter case.
    pub fn from_method_str(s: &str) -> (r: Result<HttpMethod, String>)
        ensures
            match r {
                Ok(m) => method_name(m) == upper_of(s@),
                Err(e) => (forall|m: HttpMethod| method_name(m) != upper_of(s@))
                    && e@ == "Invalid HTTP method: "@ + s@,
            },
    {
        let upper = to_upper(s);
        Self::from_upper(upper.as_str(), s)
    }
}

impl std::str::FromStr for HttpMethod {
    type Err = String;

    fn from_str(s: &str) -> Result<HttpMethod, String> {
        HttpMethod::from_method_str(s)
    }
}

} // verus!
