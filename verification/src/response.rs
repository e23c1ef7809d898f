use vstd::prelude::*;
use vstd::utf8::{decode_utf8, valid_utf8};
use crate::error::{Error, ResponseParseError, dup_opt_string, fresh_context_view};
use crate::request::{
    MetaValue, MetaView, Request, RequestView, contains_string, dup_bytes, dup_strings, fresh_request_view,
    meta_as_i64, opt_bytes_view, strings_view,
};
use crate::strmap::{Duplicate, StrMap};
use crate::text::concat;
use crate::web_url::{joined_url, opt_view, parsed_url, WebUrl};

verus! {

/// A metadata value of a response: a plain value, or a request to schedule again.
#[derive(Debug)]
pub enum ResponseMetaValue {
    /// A plain metadata value
    Value(MetaValue),
    /// A request (as a retry middleware leaves it under "retry_request")
    Request(Box<Request>),
}

/// The view of a response metadata value.
pub enum ResponseMetaView {
    Value(MetaView),
    Request(RequestView),
}

impl View for ResponseMetaValue {
    type V = ResponseMetaView;

    open spec fn view(&self) -> ResponseMetaView {
        match self {
            ResponseMetaValue::Value(v) => ResponseMetaView::Value(v@),
            ResponseMetaValue::Request(r) => ResponseMetaView::Request(r@),
        }
    }
}

impl Duplicate for ResponseMetaValue {
    fn duplicate(&self) -> (r: ResponseMetaValue) {
        match self {
            ResponseMetaValue::Value(v) => ResponseMetaValue::Value(v.duplicate()),
            ResponseMetaValue::Request(b) => ResponseMetaValue::Request(Box::new(b.duplicate())),
        }
    }
}

/// An HTTP response received by the crawler
#[derive(Debug)]
pub struct Response {
    /// The URL of the response
    pub url: WebUrl,
    /// The HTTP status code
    pub status: u16,
    /// HTTP headers received
    pub headers: StrMap<String>,
    /// Response body
    pub body: Vec<u8>,
    /// The request that generated this response
    pub request: Request,
    /// Metadata associated with this response
    pub meta: StrMap<ResponseMetaValue>,
    /// Flags to indicate various processing states
    pub flags: Vec<String>,
    /// SSL certificate information (DER encoded)
    pub certificate: Option<Vec<u8>>,
    /// IP address of the server that returned the response
    pub ip_address: Option<String>,
    /// Protocol used for the request (HTTP, HTTPS)
    pub protocol: Option<String>,
}

/// The view of a response.
pub struct ResponseView {
    pub url: (Seq<char>, Option<Seq<char>>),
    pub status: u16,
    pub headers: Map<Seq<char>, Seq<char>>,
    pub body: Seq<u8>,
    pub request: RequestView,
    pub meta: Map<Seq<char>, ResponseMetaView>,
    pub flags: Seq<Seq<char>>,
    pub certificate: Option<Seq<u8>>,
    pub ip_address: Option<Seq<char>>,
    pub protocol: Option<Seq<char>>,
}

impl View for Response {
    type V = ResponseView;

    open spec fn view(&self) -> ResponseView {
        ResponseView {
            url: self.url@,
            status: self.status,
            headers: self.headers@,
            body: self.body@,
            request: self.request@,
            meta: self.meta@,
            flags: strings_view(self.flags@),
            certificate: opt_bytes_view(self.certificate),
            ip_address: opt_view(self.ip_address),
            protocol: opt_view(self.protocol),
        }
    }
}

/// The text (`Display`) of the error with which `String::from_utf8` refuses the bytes.
pub uninterp spec fn utf8_refusal(bytes: Seq<u8>) -> Seq<char>;

/// Decodes UTF-8 with `String::from_utf8`, which std documents as succeeding exactly on valid
/// UTF-8 and keeping the characters it encodes; the error's text is named by `utf8_refusal`.
#[verifier::external_body]
fn decode_utf8_text(bytes: Vec<u8>) -> (r: Result<String, String>)
    ensures
        r is Ok <==> valid_utf8(bytes@),
        r matches Ok(s) ==> s@ == decode_utf8(bytes@),
        r matches Err(t) ==> t@ == utf8_refusal(bytes@),
{
    match String::from_utf8(bytes) {
        Ok(s) => Ok(s),
        Err(e) => Err(e.to_string()),
    }
}

#[verifier::external_type_specification]
#[verifier::external_body]
pub struct ExJsonValue(serde_json::Value);

/// The text (`Display`) of the error with which `serde_json::from_str` refuses the text as a
/// JSON value; `None` where it accepts it.
pub uninterp spec fn json_refusal(text: Seq<char>) -> Option<Seq<char>>;

/// The value that `serde_json::from_str` parses from the text, where it accepts it.
pub uninterp spec fn json_value(text: Seq<char>) -> serde_json::Value;

/// Parses JSON text into a `serde_json::Value` with `serde_json::from_str`, a function of the
/// text alone: whether it succeeds and the text of its error are named by `json_refusal`, the
/// value by `json_value`.
#[verifier::external_body]
pub(crate) fn parse_json_value(text: &str) -> (r: Result<serde_json::Value, String>)
    ensures
        r is Ok <==> json_refusal(text@) is None,
        r matches Ok(v) ==> v == json_value(text@),
        r matches Err(t) ==> json_refusal(text@) == Some(t@),
{
    match serde_json::from_str::<serde_json::Value>(text) {
        Ok(v) => Ok(v),
        Err(e) => Err(e.to_string()),
    }
}

/// The member that `serde_json::Value::get` finds under the key: `None` where the value is
/// not an object or has no such key.
pub uninterp spec fn json_member(v: serde_json::Value, key: Seq<char>) -> Option<serde_json::Value>;

/// `serde_json::Value::get` with a string key, a function of the value and the key alone,
/// named by `json_member`.
#[verifier::external_body]
pub(crate) fn json_get_member(v: &serde_json::Value, key: &str) -> (r: Option<serde_json::Value>)
    ensures
        r == json_member(*v, key@),
{
    v.get(key).cloned()
}

/// What `serde_json::Value::as_u64` gives: the value as a `u64` where it is an integer that
/// fits, `None` otherwise.
pub uninterp spec fn json_u64(v: serde_json::Value) -> Option<u64>;

/// `serde_json::Value::as_u64`, a function of the value alone, named by `json_u64`.
#[verifier::external_body]
pub(crate) fn json_as_u64(v: &serde_json::Value) -> (r: Option<u64>)
    ensures
        r == json_u64(*v),
{
    v.as_u64()
}

/// The status codes of redirects.
pub open spec fn is_redirect_status(status: u16) -> bool {
    status == 301 || status == 302 || status == 303 || status == 307 || status == 308
}

/// The redirect statuses are exactly 301 (Moved Permanently), 302 (Found), 303 (See Other),
/// 307 (Temporary Redirect) and 308 (Permanent Redirect); no other status, in particular no
/// 2xx, 304, 4xx or 5xx status, is a redirect.
pub proof fn law_redirect_statuses(status: u16)
    ensures
        is_redirect_status(status) <==> (status == 301 || status == 302 || status == 303 || status == 307
            || status == 308),
        is_redirect_status(status) ==> 300 < status < 309 && status != 304 && status != 305 && status != 306,
{
}

/// The depth of a followed request: one more than the depth the original request carries.
pub open spec fn followed_meta(req: RequestView) -> Map<Seq<char>, MetaView> {
    if req.meta.contains_key("depth"@) && meta_as_i64(req.meta["depth"@]) is Some {
        Map::empty().insert("depth"@, MetaView::Int(meta_as_i64(req.meta["depth"@])->0 + 1))
    } else {
        Map::empty()
    }
}

/// Whether following a link from a request of this view cannot overflow its depth.
pub open spec fn depth_can_grow(req: RequestView) -> bool {
    req.meta.contains_key("depth"@) ==> meta_as_i64(req.meta["depth"@]) != Some(i64::MAX)
}

impl Response {
    /// Create a new response, at the URL of its request, with no meta, flags or connection details.
    pub fn new(request: Request, status: u16, headers: StrMap<String>, body: Vec<u8>) -> (r: Self)
        ensures
            r@ == (ResponseView {
                url: request@.url,
                status,
                headers: headers@,
                body: body@,
                request: request@,
                meta: Map::empty(),
                flags: Seq::empty(),
                certificate: None,
                ip_address: None,
                protocol: None,
            }),
    {
        let url = request.url.duplicate();
        let r = Response {
            url,
            status,
            headers,
            body,
            request,
            meta: StrMap::new(),
            flags: Vec::new(),
            certificate: None,
            ip_address: None,
            protocol: None,
        };
        proof {
            assert(strings_view(r.flags@) =~= Seq::<Seq<char>>::empty());
        }
        r
    }

    /// Get the response body as a string
    pub fn text(&self) -> (r: Result<String, Error>)
        ensures
            r is Ok <==> valid_utf8(self@.body),
            r matches Ok(s) ==> s@ == decode_utf8(self@.body),
            r matches Err(e) ==> e matches Error::Parse { error: ResponseParseError::Other(m), context }
                && m@ == "Failed to decode UTF-8: "@ + utf8_refusal(self@.body) && context@ == fresh_context_view(),
    {
        match decode_utf8_text(dup_bytes(&self.body)) {
            Ok(s) => Ok(s),
            Err(msg) => Err(Error::parse(ResponseParseError::Other(concat("Failed to decode UTF-8: ", msg.as_str())))),
        }
    }

    /// Get the response body as JSON: the body must be UTF-8 (else the error of `text`) and
    /// JSON (else a serde error).
    pub fn json(&self) -> (r: Result<serde_json::Value, Error>)
        ensures
            !valid_utf8(self@.body) ==> (r matches Err(e) && e matches Error::Parse {
                error: ResponseParseError::Other(m),
                context,
            } && m@ == "Failed to decode UTF-8: "@ + utf8_refusal(self@.body) && context@ == fresh_context_view()),
            valid_utf8(self@.body) ==> (r is Ok <==> json_refusal(decode_utf8(self@.body)) is None),
            r matches Ok(v) ==> valid_utf8(self@.body) && v == json_value(decode_utf8(self@.body)),
            valid_utf8(self@.body) && r is Err ==> (r matches Err(e) && e matches Error::SerdeError(m)
                && m@ == json_refusal(decode_utf8(self@.body))->0),
    {
        let text = match self.text() {
            Ok(t) => t,
            Err(e) => return Err(e),
        };
        match parse_json_value(text.as_str()) {
            Ok(v) => Ok(v),
            Err(msg) => Err(Error::SerdeError(msg)),
        }
    }

    /// Add metadata to the response
    pub fn with_meta(self, key: &str, value: MetaValue) -> (r: Self)
        ensures
            r@ == (ResponseView { meta: self@.meta.insert(key@, ResponseMetaView::Value(value@)), ..self@ }),
    {
        let mut s = self;
        s.meta.insert(key.to_owned(), ResponseMetaValue::Value(value));
        s
    }

    /// Add a flag to the response
    pub fn with_flag(self, flag: &str) -> (r: Self)
        ensures
            r@ == (ResponseView { flags: self@.flags.push(flag@), ..self@ }),
    {
        let mut s = self;
        s.flags.push(flag.to_owned());
        proof {
            assert(strings_view(s.flags@) =~= strings_view(self.flags@).push(flag@));
        }
        s
    }

    /// Set the certificate for the response
    pub fn with_certificate(self, certificate: Vec<u8>) -> (r: Self)
        ensures
            r@ == (ResponseView { certificate: Some(certificate@), ..self@ }),
    {
        Response { certificate: Some(certificate), ..self }
    }

    /// Set the IP address for the response
    pub fn with_ip_address(self, ip_address: &str) -> (r: Self)
        ensures
            r@ == (ResponseView { ip_address: Some(ip_address@), ..self@ }),
    {
        Response { ip_address: Some(ip_address.to_owned()), ..self }
    }

    /// Set the protocol for the response
    pub fn with_protocol(self, protocol: &str) -> (r: Self)
        ensures
            r@ == (ResponseView { protocol: Some(protocol@), ..self@ }),
    {
        Response { protocol: Some(protocol.to_owned()), ..self }
    }

    /// Check if the response was successful (status code 200-299)
    pub fn is_success(&self) -> (r: bool)
        ensures
            r == (200 <= self.status < 300),
    {
        self.status >= 200 && self.status < 300
    }

    /// Check if the response is a redirect (301, 302, 303, 307 or 308)
    pub fn is_redirect(&self) -> (r: bool)
        ensures
            r == is_redirect_status(self.status),
            r <==> (self.status == 301 || self.status == 302 || self.status == 303 || self.status == 307
                || self.status == 308),
    {
        self.status == 301 || self.status == 302 || self.status == 303 || self.status == 307 || self.status == 308
    }

    /// Join this response's URL with a relative URL
    pub fn urljoin(&self, url: &str) -> (r: Result<WebUrl, Error>)
        ensures
            r is Ok <==> joined_url(self@.url.0, url@) is Ok,
            r matches Ok(u) ==> u@ == joined_url(self@.url.0, url@)->Ok_0,
            r matches Err(e) ==> e matches Error::UrlParseError(x) && x.text@ == joined_url(self@.url.0, url@)->Err_0,
    {
        match self.url.join(url) {
            Ok(u) => Ok(u),
            Err(e) => Err(Error::UrlParseError(e)),
        }
    }

    /// Get the redirect URL if this response is a redirect: its "location" header
    /// resolved against the response URL
    pub fn redirect_url(&self) -> (r: Option<Result<WebUrl, Error>>)
        ensures
            !is_redirect_status(self.status) ==> r is None,
            is_redirect_status(self.status) && !self@.headers.contains_key("location"@) ==> r is None,
            is_redirect_status(self.status) && self@.headers.contains_key("location"@) ==> {
                let j = joined_url(self@.url.0, self@.headers["location"@]);
                &&& r is Some
                &&& (r->0 is Ok <==> j is Ok)
                &&& (r->0 matches Ok(u) ==> u@ == j->Ok_0)
                &&& (r->0 matches Err(e) ==> e matches Error::UrlParseError(x) && x.text@ == j->Err_0)
            },
    {
        if !self.is_redirect() {
            return None;
        }
        match self.headers.get("location") {
            Some(location) => Some(self.urljoin(location.as_str())),
            None => None,
        }
    }

    /// Create a copy of this response
    pub fn copy(&self) -> (r: Self)
        ensures
            r@ == self@,
    {
        self.duplicate()
    }

    /// A copy with the same fields.
    pub fn duplicate(&self) -> (r: Self)
        ensures
            r@ == self@,
    {
        let certificate = match &self.certificate {
            Some(c) => Some(dup_bytes(c)),
            None => None,
        };
        Response {
            url: self.url.duplicate(),
            status: self.status,
            headers: self.headers.duplicate(),
            body: dup_bytes(&self.body),
            request: self.request.duplicate(),
            meta: self.meta.duplicate(),
            flags: dup_strings(&self.flags),
            certificate,
            ip_address: dup_opt_string(&self.ip_address),
            protocol: dup_opt_string(&self.protocol),
        }
    }

    /// Create a new response with modified attributes: each argument that is given replaces
    /// the field, the others are copied
    #[allow(clippy::too_many_arguments)]
    pub fn replace(
        &self,
        url: Option<WebUrl>,
        status: Option<u16>,
        headers: Option<StrMap<String>>,
        body: Option<Vec<u8>>,
        request: Option<Request>,
        meta: Option<StrMap<ResponseMetaValue>>,
        flags: Option<Vec<String>>,
        certificate: Option<Option<Vec<u8>>>,
        ip_address: Option<Option<String>>,
        protocol: Option<Option<String>>,
    ) -> (r: Self)
        ensures
            r@.url == (match url { Some(u) => u@, None => self@.url }),
            r@.status == (match status { Some(s) => s, None => self@.status }),
            r@.headers == (match headers { Some(h) => h@, None => self@.headers }),
            r@.body == (match body { Some(b) => b@, None => self@.body }),
            r@.request == (match request { Some(q) => q@, None => self@.request }),
            r@.meta == (match meta { Some(m) => m@, None => self@.meta }),
            r@.flags == (match flags { Some(f) => strings_view(f@), None => self@.flags }),
            r@.certificate == (match certificate { Some(c) => opt_bytes_view(c), None => self@.certificate }),
            r@.ip_address == (match ip_address { Some(a) => opt_view(a), None => self@.ip_address }),
            r@.protocol == (match protocol { Some(p) => opt_view(p), None => self@.protocol }),
    {
        Response {
            url: match url { Some(u) => u, None => self.url.duplicate() },
            status: match status { Some(s) => s, None => self.status },
            headers: match headers { Some(h) => h, None => self.headers.duplicate() },
            body: match body { Some(b) => b, None => dup_bytes(&self.body) },
            request: match request { Some(q) => q, None => self.request.duplicate() },
            meta: match meta { Some(m) => m, None => self.meta.duplicate() },
            flags: match flags { Some(f) => f, None => dup_strings(&self.flags) },
            certificate: match certificate {
                Some(c) => c,
                None => match &self.certificate {
                    Some(c) => Some(dup_bytes(c)),
                    None => None,
                },
            },
            ip_address: match ip_address { Some(a) => a, None => dup_opt_string(&self.ip_address) },
            protocol: match protocol { Some(p) => p, None => dup_opt_string(&self.protocol) },
        }
    }

    /// Create a new request from a URL found in this response: a GET of the URL resolved
    /// against the response URL, one level deeper than the original request, with its cookies
    pub fn follow(&self, url: &str) -> (r: Result<Request, Error>)
        requires
            depth_can_grow(self@.request),
        ensures
            r is Ok <==> (joined_url(self@.url.0, url@) is Ok
                && parsed_url((joined_url(self@.url.0, url@)->Ok_0).0) is Ok),
            r matches Ok(req) ==> req@ == (RequestView {
                meta: followed_meta(self@.request),
                cookies: self@.request.cookies,
                ..fresh_request_view(parsed_url((joined_url(self@.url.0, url@)->Ok_0).0)->Ok_0, crate::request::Method::GET, None)
            }),
            r matches Err(e) ==> e is UrlParseError,
    {
        let absolute = match self.urljoin(url) {
            Ok(u) => u,
            Err(e) => return Err(e),
        };
        let mut request = match Request::get(absolute.as_str()) {
            Ok(r) => r,
            Err(e) => return Err(e),
        };
        if let Some(ref_depth) = self.request.meta.get("depth") {
            if let Some(depth) = ref_depth.as_i64() {
                request = request.with_meta("depth", MetaValue::from_i64(depth + 1));
            }
        }
        let ghost before = request@;
        request.cookies.extend_from(&self.request.cookies);
        proof {
            assert(before.cookies.union_prefer_right(self@.request.cookies) =~= self@.request.cookies);
            assert(request@.meta =~= followed_meta(self@.request));
        }
        Ok(request)
    }

    /// Create requests from URLs found in this response, as `follow` does for each; the
    /// first URL that cannot be followed fails the whole call
    pub fn follow_all(&self, urls: &Vec<String>) -> (r: Result<Vec<Request>, Error>)
        requires
            depth_can_grow(self@.request),
        ensures
            r is Ok <==> forall|i: int| 0 <= i < urls@.len() ==> (joined_url(self@.url.0, #[trigger] urls@[i]@) is Ok
                && parsed_url((joined_url(self@.url.0, urls@[i]@)->Ok_0).0) is Ok),
            r matches Ok(reqs) ==> reqs@.len() == urls@.len() && forall|i: int| 0 <= i < urls@.len() ==>
                (#[trigger] reqs@[i])@ == (RequestView {
                    meta: followed_meta(self@.request),
                    cookies: self@.request.cookies,
                    ..fresh_request_view(parsed_url((joined_url(self@.url.0, urls@[i]@)->Ok_0).0)->Ok_0, crate::request::Method::GET, None)
                }),
    {
        let mut requests: Vec<Request> = Vec::new();
        let mut i: usize = 0;
        while i < urls.len()
            invariant
                depth_can_grow(self@.request),
                i <= urls@.len(),
                requests@.len() == i,
                forall|j: int| 0 <= j < i ==> (joined_url(self@.url.0, #[trigger] urls@[j]@) is Ok
                    && parsed_url((joined_url(self@.url.0, urls@[j]@)->Ok_0).0) is Ok),
                forall|j: int| 0 <= j < i ==> (#[trigger] requests@[j])@ == (RequestView {
                    meta: followed_meta(self@.request),
                    cookies: self@.request.cookies,
                    ..fresh_request_view(parsed_url((joined_url(self@.url.0, urls@[j]@)->Ok_0).0)->Ok_0, crate::request::Method::GET, None)
                }),
            decreases urls@.len() - i,
        {
            match self.follow(urls[i].as_str()) {
                Ok(req) => requests.push(req),
                Err(e) => return Err(e),
            }
            i = i + 1;
        }
        Ok(requests)
    }

    /// Check if a flag is present
    pub fn has_flag(&self, flag: &str) -> (r: bool)
        ensures
            r == self@.flags.contains(flag@),
    {
        contains_string(&self.flags, flag)
    }
}

impl Clone for Response {
    fn clone(&self) -> (r: Self)
        ensures
            r@ == self@,
    {
        self.duplicate()
    }
}

} // verus!
