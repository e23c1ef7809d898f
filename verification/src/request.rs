use vstd::prelude::*;
use crate::error::Error;
use crate::strmap::{Duplicate, StrMap};
use crate::web_url::{opt_view, parsed_url, WebUrl};

verus! {

/// HTTP methods
#[derive(Debug, Clone, Copy, PartialEq, Eq, Structural, Hash)]
pub enum Method {
    GET,
    POST,
    PUT,
    DELETE,
    HEAD,
    OPTIONS,
    PATCH,
}

/// The name of a method, as it is written in HTTP.
pub open spec fn method_name_spec(m: Method) -> Seq<char> {
    match m {
        Method::GET => "GET"@,
        Method::POST => "POST"@,
        Method::PUT => "PUT"@,
        Method::DELETE => "DELETE"@,
        Method::HEAD => "HEAD"@,
        Method::OPTIONS => "OPTIONS"@,
        Method::PATCH => "PATCH"@,
    }
}

impl Method {
    /// The name of the method, as it is written in HTTP.
    pub fn as_str(&self) -> (r: &'static str)
        ensures
            r@ == method_name_spec(*self),
    {
        proof {
            reveal_strlit("GET");
            reveal_strlit("POST");
            reveal_strlit("PUT");
            reveal_strlit("DELETE");
            reveal_strlit("HEAD");
            reveal_strlit("OPTIONS");
            reveal_strlit("PATCH");
        }
        match self {
            Method::GET => "GET",
            Method::POST => "POST",
            Method::PUT => "PUT",
            Method::DELETE => "DELETE",
            Method::HEAD => "HEAD",
            Method::OPTIONS => "OPTIONS",
            Method::PATCH => "PATCH",
        }
    }
}

impl Default for Method {
    fn default() -> (r: Method)
        ensures
            r == Method::GET,
    {
        Method::GET
    }
}

/// A metadata value attached to requests, responses and items.
#[derive(Debug, PartialEq)]
pub enum MetaValue {
    /// No value
    Null,
    /// A boolean
    Bool(bool),
    /// An integer
    Int(i128),
    /// A string
    Text(String),
    /// Any other JSON value, kept as its JSON text
    Json(String),
}

/// The view of a metadata value.
pub enum MetaView {
    Null,
    Bool(bool),
    Int(int),
    Text(Seq<char>),
    Json(Seq<char>),
}

impl View for MetaValue {
    type V = MetaView;

    open spec fn view(&self) -> MetaView {
        match self {
            MetaValue::Null => MetaView::Null,
            MetaValue::Bool(b) => MetaView::Bool(*b),
            MetaValue::Int(n) => MetaView::Int(*n as int),
            MetaValue::Text(s) => MetaView::Text(s@),
            MetaValue::Json(s) => MetaView::Json(s@),
        }
    }
}

/// The value as an unsigned 64-bit integer, where it is one.
pub open spec fn meta_as_u64(v: MetaView) -> Option<u64> {
    match v {
        MetaView::Int(n) => if 0 <= n <= u64::MAX {
            Some(n as u64)
        } else {
            None
        },
        _ => None,
    }
}

/// The value as a signed 64-bit integer, where it is one.
pub open spec fn meta_as_i64(v: MetaView) -> Option<i64> {
    match v {
        MetaView::Int(n) => if i64::MIN <= n <= i64::MAX {
            Some(n as i64)
        } else {
            None
        },
        _ => None,
    }
}

impl MetaValue {
    /// The value as an unsigned 64-bit integer, where it is one.
    pub fn as_u64(&self) -> (r: Option<u64>)
        ensures
            r == meta_as_u64(self@),
    {
        match self {
            MetaValue::Int(n) => if 0 <= *n && *n <= 0xffff_ffff_ffff_ffffi128 {
                Some(*n as u64)
            } else {
                None
            },
            _ => None,
        }
    }

    /// The value as a signed 64-bit integer, where it is one.
    pub fn as_i64(&self) -> (r: Option<i64>)
        ensures
            r == meta_as_i64(self@),
    {
        match self {
            MetaValue::Int(n) => if -0x8000_0000_0000_0000i128 <= *n && *n <= 0x7fff_ffff_ffff_ffffi128 {
                Some(*n as i64)
            } else {
                None
            },
            _ => None,
        }
    }

    /// An integer value.
    pub fn from_u64(n: u64) -> (r: MetaValue)
        ensures
            r@ == MetaView::Int(n as int),
    {
        MetaValue::Int(n as i128)
    }

    /// An integer value.
    pub fn from_i64(n: i64) -> (r: MetaValue)
        ensures
            r@ == MetaView::Int(n as int),
    {
        MetaValue::Int(n as i128)
    }

    /// A string value.
    pub fn text(s: &str) -> (r: MetaValue)
        ensures
            r@ == MetaView::Text(s@),
    {
        MetaValue::Text(s.to_owned())
    }
}

impl Duplicate for MetaValue {
    fn duplicate(&self) -> (r: MetaValue) {
        match self {
            MetaValue::Null => MetaValue::Null,
            MetaValue::Bool(b) => MetaValue::Bool(*b),
            MetaValue::Int(n) => MetaValue::Int(*n),
            MetaValue::Text(s) => MetaValue::Text(s.clone()),
            MetaValue::Json(s) => MetaValue::Json(s.clone()),
        }
    }
}

impl Clone for MetaValue {
    fn clone(&self) -> (r: Self)
        ensures
            r@ == self@,
    {
        self.duplicate()
    }
}

/// A copy of a byte buffer.
pub fn dup_bytes(v: &Vec<u8>) -> (r: Vec<u8>)
    ensures
        r@ == v@,
{
    let mut out: Vec<u8> = Vec::new();
    let mut i: usize = 0;
    while i < v.len()
        invariant
            i <= v@.len(),
            out@ == v@.take(i as int),
        decreases v@.len() - i,
    {
        out.push(v[i]);
        proof {
            assert(v@.take(i + 1) =~= v@.take(i as int).push(v@[i as int]));
        }
        i = i + 1;
    }
    proof {
        assert(v@.take(v@.len() as int) =~= v@);
    }
    out
}

/// The views of a list of strings.
pub open spec fn strings_view(v: Seq<String>) -> Seq<Seq<char>> {
    v.map_values(|s: String| s@)
}

/// A copy of a list of strings.
pub fn dup_strings(v: &Vec<String>) -> (r: Vec<String>)
    ensures
        strings_view(r@) == strings_view(v@),
{
    let mut out: Vec<String> = Vec::new();
    let mut i: usize = 0;
    while i < v.len()
        invariant
            i <= v@.len(),
            out@.len() == i,
            forall|j: int| 0 <= j < i ==> #[trigger] out@[j]@ == v@[j]@,
        decreases v@.len() - i,
    {
        out.push(v[i].clone());
        i = i + 1;
    }
    proof {
        assert(strings_view(out@) =~= strings_view(v@));
    }
    out
}

/// Whether a list of strings holds the given string.
pub fn contains_string(v: &Vec<String>, s: &str) -> (r: bool)
    ensures
        r == strings_view(v@).contains(s@),
{
    let k = s.to_owned();
    let mut i: usize = 0;
    while i < v.len()
        invariant
            i <= v@.len(),
            k@ == s@,
            forall|j: int| 0 <= j < i ==> v@[j]@ != s@,
        decreases v@.len() - i,
    {
        if v[i] == k {
            proof {
                assert(strings_view(v@)[i as int] == s@);
            }
            return true;
        }
        i = i + 1;
    }
    proof {
        if strings_view(v@).contains(s@) {
            let j = choose|j: int| 0 <= j < strings_view(v@).len() && strings_view(v@)[j] == s@;
            assert(v@[j]@ == s@);
        }
    }
    false
}

/// An HTTP request to be made by the crawler
#[derive(Debug)]
pub struct Request {
    /// The URL to request
    pub url: WebUrl,
    /// The HTTP method to use
    pub method: Method,
    /// HTTP headers to include
    pub headers: StrMap<String>,
    /// Request body (for POST, PUT, etc.)
    pub body: Option<Vec<u8>>,
    /// Metadata associated with this request
    pub meta: StrMap<MetaValue>,
    /// Priority of this request (higher values = higher priority)
    pub priority: i32,
    /// Whether to follow redirects
    pub follow_redirects: bool,
    /// Maximum number of redirects to follow
    pub max_redirects: u32,
    /// Callback name to be called when the response is received
    pub callback: Option<String>,
    /// Error callback name to be called when the request fails
    pub errback: Option<String>,
    /// Cookies to be sent with the request
    pub cookies: StrMap<String>,
    /// Whether to filter this request (if false, duplicates are allowed)
    pub dont_filter: bool,
    /// Timeout for this request, in milliseconds
    pub timeout: Option<u64>,
    /// Encoding for the request
    pub encoding: Option<String>,
    /// Custom flags for middleware processing
    pub flags: Vec<String>,
    /// Proxy URL to use for this request
    pub proxy: Option<String>,
    /// Download latency in milliseconds (filled after download)
    pub download_latency: Option<u64>,
}

/// The view of a request.
pub struct RequestView {
    pub url: (Seq<char>, Option<Seq<char>>),
    pub method: Method,
    pub headers: Map<Seq<char>, Seq<char>>,
    pub body: Option<Seq<u8>>,
    pub meta: Map<Seq<char>, MetaView>,
    pub priority: i32,
    pub follow_redirects: bool,
    pub max_redirects: u32,
    pub callback: Option<Seq<char>>,
    pub errback: Option<Seq<char>>,
    pub cookies: Map<Seq<char>, Seq<char>>,
    pub dont_filter: bool,
    pub timeout: Option<u64>,
    pub encoding: Option<Seq<char>>,
    pub flags: Seq<Seq<char>>,
    pub proxy: Option<Seq<char>>,
    pub download_latency: Option<u64>,
}

/// The view of an optional byte buffer.
pub open spec fn opt_bytes_view(o: Option<Vec<u8>>) -> Option<Seq<u8>> {
    match o {
        Some(v) => Some(v@),
        None => None,
    }
}

impl View for Request {
    type V = RequestView;

    open spec fn view(&self) -> RequestView {
        RequestView {
            url: self.url@,
            method: self.method,
            headers: self.headers@,
            body: opt_bytes_view(self.body),
            meta: self.meta@,
            priority: self.priority,
            follow_redirects: self.follow_redirects,
            max_redirects: self.max_redirects,
            callback: opt_view(self.callback),
            errback: opt_view(self.errback),
            cookies: self.cookies@,
            dont_filter: self.dont_filter,
            timeout: self.timeout,
            encoding: opt_view(self.encoding),
            flags: strings_view(self.flags@),
            proxy: opt_view(self.proxy),
            download_latency: self.download_latency,
        }
    }
}

/// A new request: the given URL, method and body, and every other field at its default
/// (no headers, meta or cookies, priority 0, redirects followed up to 10, filtered).
pub open spec fn fresh_request_view(
    url: (Seq<char>, Option<Seq<char>>),
    method: Method,
    body: Option<Seq<u8>>,
) -> RequestView {
    RequestView {
        url,
        method,
        headers: Map::empty(),
        body,
        meta: Map::empty(),
        priority: 0,
        follow_redirects: true,
        max_redirects: 10,
        callback: None,
        errback: None,
        cookies: Map::empty(),
        dont_filter: false,
        timeout: None,
        encoding: None,
        flags: Seq::empty(),
        proxy: None,
        download_latency: None,
    }
}

/// Whether redirects are followed unless a request says otherwise.
pub fn default_follow_redirects() -> (r: bool)
    ensures
        r,
{
    true
}

/// How many redirects are followed unless a request says otherwise.
pub fn default_max_redirects() -> (r: u32)
    ensures
        r == 10,
{
    10
}

/// Whether duplicates of a request are let through unless it says otherwise.
pub fn default_dont_filter() -> (r: bool)
    ensures
        !r,
{
    false
}

impl Request {
    fn with_url_method_body(url: WebUrl, method: Method, body: Option<Vec<u8>>) -> (r: Request)
        ensures
            r@ == fresh_request_view(url@, method, opt_bytes_view(body)),
    {
        let r = Request {
            url,
            method,
            headers: StrMap::new(),
            body,
            meta: StrMap::new(),
            priority: 0,
            follow_redirects: default_follow_redirects(),
            max_redirects: default_max_redirects(),
            callback: None,
            errback: None,
            cookies: StrMap::new(),
            dont_filter: default_dont_filter(),
            timeout: None,
            encoding: None,
            flags: Vec::new(),
            proxy: None,
            download_latency: None,
        };
        proof {
            assert(strings_view(r.flags@) =~= Seq::<Seq<char>>::empty());
        }
        r
    }

    /// Create a new GET request
    pub fn get(url: &str) -> (r: Result<Request, Error>)
        ensures
            r is Ok <==> parsed_url(url@) is Ok,
            r matches Ok(req) ==> req@ == fresh_request_view(parsed_url(url@)->Ok_0, Method::GET, None),
            r matches Err(e) ==> e matches Error::UrlParseError(x) && x.text@ == parsed_url(url@)->Err_0,
    {
        match WebUrl::parse(url) {
            Ok(u) => Ok(Request::with_url_method_body(u, Method::GET, None)),
            Err(e) => Err(Error::UrlParseError(e)),
        }
    }

    /// Create a new POST request
    pub fn post(url: &str, body: Vec<u8>) -> (r: Result<Request, Error>)
        ensures
            r is Ok <==> parsed_url(url@) is Ok,
            r matches Ok(req) ==> req@ == fresh_request_view(parsed_url(url@)->Ok_0, Method::POST, Some(body@)),
            r matches Err(e) ==> e matches Error::UrlParseError(x) && x.text@ == parsed_url(url@)->Err_0,
    {
        match WebUrl::parse(url) {
            Ok(u) => Ok(Request::with_url_method_body(u, Method::POST, Some(body))),
            Err(e) => Err(Error::UrlParseError(e)),
        }
    }

    /// Add a header to the request
    pub fn with_header(self, key: &str, value: &str) -> (r: Self)
        ensures
            r@ == (RequestView { headers: self@.headers.insert(key@, value@), ..self@ }),
    {
        let mut s = self;
        s.headers.insert(key.to_owned(), value.to_owned());
        s
    }

    /// Add metadata to the request
    pub fn with_meta(self, key: &str, value: MetaValue) -> (r: Self)
        ensures
            r@ == (RequestView { meta: self@.meta.insert(key@, value@), ..self@ }),
    {
        let mut s = self;
        s.meta.insert(key.to_owned(), value);
        s
    }

    /// Set the callback for this request
    pub fn with_callback(self, callback: &str) -> (r: Self)
        ensures
            r@ == (RequestView { callback: Some(callback@), ..self@ }),
    {
        Request { callback: Some(callback.to_owned()), ..self }
    }

    /// Set the errback for this request
    pub fn with_errback(self, errback: &str) -> (r: Self)
        ensures
            r@ == (RequestView { errback: Some(errback@), ..self@ }),
    {
        Request { errback: Some(errback.to_owned()), ..self }
    }

    /// Set the priority for this request
    pub fn with_priority(self, priority: i32) -> (r: Self)
        ensures
            r@ == (RequestView { priority, ..self@ }),
    {
        Request { priority, ..self }
    }

    /// Add a cookie to the request
    pub fn with_cookie(self, name: &str, value: &str) -> (r: Self)
        ensures
            r@ == (RequestView { cookies: self@.cookies.insert(name@, value@), ..self@ }),
    {
        let mut s = self;
        s.cookies.insert(name.to_owned(), value.to_owned());
        s
    }

    /// Set whether to filter this request
    pub fn with_dont_filter(self, dont_filter: bool) -> (r: Self)
        ensures
            r@ == (RequestView { dont_filter, ..self@ }),
    {
        Request { dont_filter, ..self }
    }

    /// Set the timeout for this request, in milliseconds
    pub fn with_timeout(self, timeout: u64) -> (r: Self)
        ensures
            r@ == (RequestView { timeout: Some(timeout), ..self@ }),
    {
        Request { timeout: Some(timeout), ..self }
    }

    /// Set the encoding for this request
    pub fn with_encoding(self, encoding: &str) -> (r: Self)
        ensures
            r@ == (RequestView { encoding: Some(encoding@), ..self@ }),
    {
        Request { encoding: Some(encoding.to_owned()), ..self }
    }

    /// Add a flag to the request
    pub fn with_flag(self, flag: &str) -> (r: Self)
        ensures
            r@ == (RequestView { flags: self@.flags.push(flag@), ..self@ }),
    {
        let mut s = self;
        s.flags.push(flag.to_owned());
        proof {
            assert(strings_view(s.flags@) =~= strings_view(self.flags@).push(flag@));
        }
        s
    }

    /// Set the proxy for this request
    pub fn with_proxy(self, proxy: &str) -> (r: Self)
        ensures
            r@ == (RequestView { proxy: Some(proxy@), ..self@ }),
    {
        Request { proxy: Some(proxy.to_owned()), ..self }
    }

    /// Record the download latency, in milliseconds
    pub fn record_latency(&mut self, latency: u64)
        ensures
            final(self)@ == (RequestView { download_latency: Some(latency), ..old(self)@ }),
    {
        self.download_latency = Some(latency);
    }

    /// Get the effective timeout for this request, in milliseconds
    pub fn get_timeout(&self) -> (r: Option<u64>)
        ensures
            r == self@.timeout,
    {
        self.timeout
    }

    /// Check if a flag is present
    pub fn has_flag(&self, flag: &str) -> (r: bool)
        ensures
            r == self@.flags.contains(flag@),
    {
        contains_string(&self.flags, flag)
    }

    /// Whether two requests are for the same URL with the same method.
    pub fn same_target(&self, other: &Request) -> (r: bool)
        ensures
            r == (self@.url.0 == other@.url.0 && self@.method == other@.method),
    {
        let a = self.url.as_str().to_owned();
        let b = other.url.as_str().to_owned();
        a == b && self.method == other.method
    }

    /// A copy with the same fields.
    pub fn duplicate(&self) -> (r: Request)
        ensures
            r@ == self@,
    {
        let body = match &self.body {
            Some(b) => Some(dup_bytes(b)),
            None => None,
        };
        Request {
            url: self.url.duplicate(),
            method: self.method,
            headers: self.headers.duplicate(),
            body,
            meta: self.meta.duplicate(),
            priority: self.priority,
            follow_redirects: self.follow_redirects,
            max_redirects: self.max_redirects,
            callback: crate::error::dup_opt_string(&self.callback),
            errback: crate::error::dup_opt_string(&self.errback),
            cookies: self.cookies.duplicate(),
            dont_filter: self.dont_filter,
            timeout: self.timeout,
            encoding: crate::error::dup_opt_string(&self.encoding),
            flags: dup_strings(&self.flags),
            proxy: crate::error::dup_opt_string(&self.proxy),
            download_latency: self.download_latency,
        }
    }
}

impl Duplicate for Request {
    fn duplicate(&self) -> (r: Request) {
        Request::duplicate(self)
    }
}

impl PartialEq for Request {
    /// Two requests are equal when they are for the same URL with the same method.
    fn eq(&self, other: &Self) -> (r: bool) {
        self.same_target(other)
    }
}

impl Eq for Request {}

impl vstd::std_specs::cmp::PartialEqSpecImpl for Request {
    open spec fn obeys_eq_spec() -> bool {
        true
    }

    open spec fn eq_spec(&self, other: &Self) -> bool {
        self@.url.0 == other@.url.0 && self@.method == other@.method
    }
}

impl Clone for Request {
    fn clone(&self) -> (r: Self)
        ensures
            r@ == self@,
    {
        self.duplicate()
    }
}

} // verus!
