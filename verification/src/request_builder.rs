use vstd::prelude::*;
use crate::error::Error;
use crate::request::{fresh_request_view, Method, Request, RequestView};
use crate::strmap::StrMap;
use crate::text::{concat, str_eq};
use crate::web_url::{parsed_url, WebUrl};

verus! {

/// Why a request could not be built from its parts: a value given is refused (with the
/// message), or making the request failed.
#[derive(Debug)]
pub enum BuildError {
    /// A refused value, with the message saying which
    Value(String),
    /// The request itself could not be made
    Request(Error),
}

/// The method a method name gives, and whether it needs a body; `None` where the name is
/// not one that is taken (no name means GET).
pub open spec fn method_choice(name: Option<Seq<char>>) -> Option<(Method, bool)> {
    match name {
        None => Some((Method::GET, false)),
        Some(n) => if n == "POST"@ {
            Some((Method::POST, true))
        } else if n == "PUT"@ {
            Some((Method::PUT, true))
        } else if n == "DELETE"@ {
            Some((Method::DELETE, false))
        } else if n == "HEAD"@ {
            Some((Method::HEAD, false))
        } else if n == "OPTIONS"@ {
            Some((Method::OPTIONS, false))
        } else if n == "PATCH"@ {
            Some((Method::PATCH, true))
        } else {
            None
        },
    }
}

/// The view of an optional string slice.
pub open spec fn opt_str_view(o: Option<&str>) -> Option<Seq<char>> {
    match o {
        Some(s) => Some(s@),
        None => None,
    }
}

/// What building a request from a URL, a method name, headers and a body gives: the URL must
/// parse, the method name must be one that is taken, and POST, PUT and PATCH need a body
/// (which the other methods leave out); the request then has the given headers.
pub open spec fn build_outcome_ok(
    url: Seq<char>,
    method: Option<Seq<char>>,
    headers: Map<Seq<char>, Seq<char>>,
    body: Option<Seq<u8>>,
    r: Result<RequestView, BuildError>,
) -> bool {
    match parsed_url(url) {
        Err(t) => r matches Err(BuildError::Value(m)) && m@ == "Invalid URL: "@ + t,
        Ok(u) => match method_choice(method) {
            None => r matches Err(BuildError::Value(m)) && m@ == "Unsupported HTTP method: "@ + method->0,
            Some((meth, needs_body)) => if needs_body && body is None {
                r matches Err(BuildError::Value(m)) && m@ == method->0 + " request requires a body"@
            } else {
                match parsed_url(u.0) {
                    Err(t) => r matches Err(BuildError::Request(e)) && e matches Error::UrlParseError(x)
                        && x.text@ == t,
                    Ok(u2) => r matches Ok(q) && q == (RequestView {
                        headers,
                        ..fresh_request_view(u2, meth, if needs_body { body } else { None })
                    }),
                }
            },
        },
    }
}

/// The request's view, where one was built.
pub open spec fn built_view(r: Result<Request, BuildError>) -> Result<RequestView, BuildError> {
    match r {
        Ok(q) => Ok(q@),
        Err(e) => Err(e),
    }
}

/// Builds a request from its parts, as a script gives them.
pub fn request_from_parts(
    url: &str,
    method: Option<&str>,
    headers: StrMap<String>,
    body: Option<Vec<u8>>,
) -> (r: Result<Request, BuildError>)
    ensures
        build_outcome_ok(
            url@,
            opt_str_view(method),
            headers@,
            match body {
                Some(b) => Some(b@),
                None => None,
            },
            built_view(r),
        ),
{
    proof {
        reveal_strlit("POST");
        reveal_strlit("PUT");
        reveal_strlit("DELETE");
        reveal_strlit("HEAD");
        reveal_strlit("OPTIONS");
        reveal_strlit("PATCH");
    }
    let parsed = match WebUrl::parse(url) {
        Ok(u) => u,
        Err(e) => {
            return Err(BuildError::Value(concat("Invalid URL: ", e.text.as_str())));
        },
    };
    let (meth, needs_body): (Method, bool) = match method {
        None => (Method::GET, false),
        Some(n) => if str_eq(n, "POST") {
            (Method::POST, true)
        } else if str_eq(n, "PUT") {
            (Method::PUT, true)
        } else if str_eq(n, "DELETE") {
            (Method::DELETE, false)
        } else if str_eq(n, "HEAD") {
            (Method::HEAD, false)
        } else if str_eq(n, "OPTIONS") {
            (Method::OPTIONS, false)
        } else if str_eq(n, "PATCH") {
            (Method::PATCH, true)
        } else {
            return Err(BuildError::Value(concat("Unsupported HTTP method: ", n)));
        },
    };
    let body_kept: Option<Vec<u8>> = if needs_body {
        match body {
            Some(b) => Some(b),
            None => {
                let n = match method {
                    Some(n) => n,
                    None => "",
                };
                return Err(BuildError::Value(concat(n, " request requires a body")));
            },
        }
    } else {
        None
    };
    let mut request = match Request::get(parsed.as_str()) {
        Ok(q) => q,
        Err(e) => {
            return Err(BuildError::Request(e));
        },
    };
    request.method = meth;
    request.body = body_kept;
    request.headers = headers;
    Ok(request)
}

} // verus!
