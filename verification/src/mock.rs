use vstd::prelude::*;
use vstd::utf8::encode_utf8;
use crate::error::{fresh_context_view, Error};
use crate::request::{Request, RequestView};
use crate::response::{Response, ResponseView};
use crate::strmap::StrMap;
use crate::text::concat;

verus! {

/// The page a mock download gives where no response was set up for the URL: an HTML page
/// naming the URL.
pub open spec fn mock_page(request: RequestView) -> ResponseView {
    ResponseView {
        url: request.url,
        status: 200,
        headers: Map::empty().insert("Content-Type"@, "text/html"@),
        body: encode_utf8("<html><body><h1>Mock response for "@ + request.url.0 + "</h1></body></html>"@),
        request,
        meta: Map::empty(),
        flags: Seq::empty(),
        certificate: None,
        ip_address: None,
        protocol: None,
    }
}

/// A downloader that answers from responses set up by URL, for tests
#[derive(Debug)]
pub struct MockDownloader {
    responses: StrMap<Response>,
}

impl View for MockDownloader {
    type V = Map<Seq<char>, ResponseView>;

    closed spec fn view(&self) -> Map<Seq<char>, ResponseView> {
        self.responses@
    }
}

impl MockDownloader {
    /// Create a new mock downloader with no responses
    pub fn new() -> (r: Self)
        ensures
            r@ == Map::<Seq<char>, ResponseView>::empty(),
    {
        MockDownloader { responses: StrMap::new() }
    }

    /// Add a response for a specific URL
    pub fn add_response(&mut self, url: &str, response: Response)
        ensures
            final(self)@ == old(self)@.insert(url@, response@),
    {
        self.responses.insert(url.to_owned(), response);
    }

    /// The response set up for the request's URL, or a page naming the URL.
    pub fn download(&self, request: Request) -> (r: Result<Response, Error>)
        ensures
            match self@.get(request@.url.0) {
                Some(p) => r matches Ok(q) && q@ == p,
                None => r matches Ok(q) && q@ == mock_page(request@),
            },
    {
        match self.responses.get(request.url.as_str()) {
            Some(p) => Ok(p.duplicate()),
            None => {
                let a = concat("<html><body><h1>Mock response for ", request.url.as_str());
                let text = concat(a.as_str(), "</h1></body></html>");
                let body = text.as_str().as_bytes_vec();
                let mut headers: StrMap<String> = StrMap::new();
                headers.insert(String::from_str("Content-Type"), String::from_str("text/html"));
                Ok(Response::new(request, 200, headers, body))
            },
        }
    }
}

/// A downloader that always fails, for tests
#[derive(Debug, Clone, Copy)]
pub struct FailingDownloader;

impl FailingDownloader {
    /// Fails: an error "Mock downloader failure".
    pub fn download(&self, request: Request) -> (r: Result<Response, Error>)
        ensures
            r matches Err(e) && e matches Error::Other { message, context }
                && message@ == "Mock downloader failure"@ && context@ == fresh_context_view(),
    {
        Err(Error::other(String::from_str("Mock downloader failure")))
    }
}

} // verus!
