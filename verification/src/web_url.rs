use vstd::prelude::*;

verus! {

#[verifier::external_type_specification]
#[verifier::external_body]
pub struct ExUrl(url::Url);

#[verifier::external_type_specification]
#[verifier::external_body]
pub struct ExUrlParseError(url::ParseError);

/// The serialization and host (`as_str`, `host_str`) of the URL that `url::Url::parse`
/// makes of `input`; where it refuses the input, the text (`Display`) of its error.
pub uninterp spec fn parsed_url(input: Seq<char>) -> Result<(Seq<char>, Option<Seq<char>>), Seq<char>>;

/// The serialization and host of the URL that `url::Url::join` makes of `input`
/// against the base URL whose serialization is `base`; where it refuses, the text of its
/// error.
pub uninterp spec fn joined_url(base: Seq<char>, input: Seq<char>) -> Result<(Seq<char>, Option<Seq<char>>), Seq<char>>;

/// A URL that `url` refused: its error, and that error's text.
#[derive(Debug)]
pub struct UrlError {
    pub error: url::ParseError,
    pub text: String,
}

/// The view of an optional string.
pub open spec fn opt_view(o: Option<String>) -> Option<Seq<char>> {
    match o {
        Some(s) => Some(s@),
        None => None,
    }
}

/// A parsed absolute URL: its serialization and its host.
#[derive(Debug, PartialEq, Eq)]
pub struct WebUrl {
    inner: url::Url,
    text: String,
    host: Option<String>,
}

impl View for WebUrl {
    type V = (Seq<char>, Option<Seq<char>>);

    closed spec fn view(&self) -> (Seq<char>, Option<Seq<char>>) {
        (self.text@, opt_view(self.host))
    }
}

/// Parses an absolute URL with `url::Url::parse`; the contract names its serialization
/// and host, or the text of its refusal, by `parsed_url`.
#[verifier::external_body]
fn parse_url(input: &str) -> (r: Result<WebUrl, UrlError>)
    ensures
        r is Ok <==> parsed_url(input@) is Ok,
        r matches Ok(u) ==> u@ == parsed_url(input@)->Ok_0,
        r matches Err(e) ==> e.text@ == parsed_url(input@)->Err_0,
{
    match url::Url::parse(input) {
        Ok(u) => {
            let text = u.as_str().to_string();
            let host = u.host_str().map(|h| h.to_string());
            Ok(WebUrl { inner: u, text, host })
        },
        Err(e) => Err(UrlError { error: e, text: e.to_string() }),
    }
}

/// Resolves `input` against `base` with `url::Url::join`; the contract names the result by
/// `joined_url` over the base's serialization (the inner URL of every `WebUrl` has that
/// serialization, since only this module builds one, from what `url` returned).
#[verifier::external_body]
fn join_url(base: &WebUrl, input: &str) -> (r: Result<WebUrl, UrlError>)
    ensures
        r is Ok <==> joined_url(base@.0, input@) is Ok,
        r matches Ok(u) ==> u@ == joined_url(base@.0, input@)->Ok_0,
        r matches Err(e) ==> e.text@ == joined_url(base@.0, input@)->Err_0,
{
    match base.inner.join(input) {
        Ok(u) => {
            let text = u.as_str().to_string();
            let host = u.host_str().map(|h| h.to_string());
            Ok(WebUrl { inner: u, text, host })
        },
        Err(e) => Err(UrlError { error: e, text: e.to_string() }),
    }
}

/// The ASCII serialization of the origin of the URL whose serialization is `url` (scheme, host
/// and port; "null" for an opaque origin).
pub uninterp spec fn origin_text(url: Seq<char>) -> Seq<char>;

/// The origin of a URL by `url::Url::origin`, written out by `Origin::ascii_serialization`;
/// the contract names it by `origin_text` over the URL's serialization.
#[verifier::external_body]
fn url_origin(u: &WebUrl) -> (r: String)
    ensures
        r@ == origin_text(u@.0),
{
    u.inner.origin().ascii_serialization()
}

/// A copy of a `url::Url` by its `Clone` impl (a field-by-field copy); nothing is stated
/// of it, as `WebUrl`'s view holds only the serialization and host that go beside it.
#[verifier::external_body]
fn copy_url(u: &url::Url) -> url::Url {
    u.clone()
}

impl WebUrl {
    /// Parses an absolute URL.
    pub fn parse(input: &str) -> (r: Result<WebUrl, UrlError>)
        ensures
            r is Ok <==> parsed_url(input@) is Ok,
            r matches Ok(u) ==> u@ == parsed_url(input@)->Ok_0,
            r matches Err(e) ==> e.text@ == parsed_url(input@)->Err_0,
    {
        parse_url(input)
    }

    /// Resolves a possibly relative reference against this URL.
    pub fn join(&self, input: &str) -> (r: Result<WebUrl, UrlError>)
        ensures
            r is Ok <==> joined_url(self@.0, input@) is Ok,
            r matches Ok(u) ==> u@ == joined_url(self@.0, input@)->Ok_0,
            r matches Err(e) ==> e.text@ == joined_url(self@.0, input@)->Err_0,
    {
        join_url(self, input)
    }

    /// The serialization of the URL.
    pub fn as_str(&self) -> (r: &str)
        ensures
            r@ == self@.0,
    {
        self.text.as_str()
    }

    /// The host of the URL, if it has one.
    pub fn host_str(&self) -> (r: Option<&str>)
        ensures
            match r {
                Some(h) => self@.1 == Some(h@),
                None => self@.1 is None,
            },
    {
        match &self.host {
            Some(h) => Some(h.as_str()),
            None => None,
        }
    }

    /// The origin of the URL (scheme, host and port), written out.
    pub fn origin_serialization(&self) -> (r: String)
        ensures
            r@ == origin_text(self@.0),
    {
        url_origin(self)
    }

    /// A copy with the same serialization and host.
    pub fn duplicate(&self) -> (r: WebUrl)
        ensures
            r@ == self@,
    {
        let host = match &self.host {
            Some(h) => Some(h.clone()),
            None => None,
        };
        WebUrl { inner: copy_url(&self.inner), text: self.text.clone(), host }
    }
}

impl Clone for WebUrl {
    fn clone(&self) -> (r: Self)
        ensures
            r@ == self@,
    {
        self.duplicate()
    }
}

} // verus!
