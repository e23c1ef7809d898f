use vstd::prelude::*;
use crate::error::Error;
use crate::item::{item_object, DynamicItem, ItemView};
use crate::request::{dup_strings, strings_view, MetaValue, MetaView, Request, RequestView};
use crate::strmap::StrMap;
use crate::web_url::parsed_url;

verus! {

/// Output from parsing a response: the items extracted and the requests to follow
#[derive(Debug)]
pub struct ParseOutput {
    /// Items extracted from the response
    pub items: Vec<DynamicItem>,
    /// Requests to follow
    pub requests: Vec<Request>,
}

/// The views of a sequence of items.
pub open spec fn item_views(v: Seq<DynamicItem>) -> Seq<ItemView> {
    v.map_values(|i: DynamicItem| i@)
}

/// The views of a sequence of requests.
pub open spec fn request_views(v: Seq<Request>) -> Seq<RequestView> {
    v.map_values(|r: Request| r@)
}

/// The item that an item of type `item_type` written as the object `fields` becomes.
pub open spec fn converted_item(item_type: Seq<char>, fields: Map<Seq<char>, MetaView>) -> ItemView {
    ItemView { item_type_name: item_type, fields }
}

impl ParseOutput {
    /// Create a new empty parse output
    pub fn new() -> (r: Self)
        ensures
            r.items@.len() == 0,
            r.requests@.len() == 0,
    {
        ParseOutput { items: Vec::new(), requests: Vec::new() }
    }

    /// Add an item given as its item type and the object it is written as.
    pub fn add_item_fields(&mut self, item_type: &str, fields: StrMap<MetaValue>) -> (r: &mut Self)
        ensures
            item_views((*r).items@) == item_views(old(self).items@).push(converted_item(item_type@, fields@)),
            request_views((*r).requests@) == request_views(old(self).requests@),
            item_views(final(self).items@) == item_views(final(r).items@),
            request_views(final(self).requests@) == request_views(final(r).requests@),
    {
        let ghost i0 = self.items@;
        self.items.push(DynamicItem { item_type_name: item_type.to_owned(), fields });
        proof {
            assert(item_views(self.items@) =~= item_views(i0).push(converted_item(item_type@, fields@)));
        }
        self
    }

    /// Add a dynamic item: it is kept as an item of type "dynamic_item" whose fields are the
    /// object it is written as (its own type name under "_type", then its fields).
    pub fn add_item(&mut self, item: DynamicItem) -> (r: &mut Self)
        ensures
            item_views((*r).items@) == item_views(old(self).items@).push(
                converted_item("dynamic_item"@, item_object(item@)),
            ),
            request_views((*r).requests@) == request_views(old(self).requests@),
            item_views(final(self).items@) == item_views(final(r).items@),
            request_views(final(self).requests@) == request_views(final(r).requests@),
    {
        let object = item.as_object();
        match object {
            Ok(fields) => self.add_item_fields(item.item_type(), fields),
            Err(_) => self,
        }
    }

    /// Add a request to the output
    pub fn add_request(&mut self, request: Request) -> (r: &mut Self)
        ensures
            request_views((*r).requests@) == request_views(old(self).requests@).push(request@),
            item_views((*r).items@) == item_views(old(self).items@),
            item_views(final(self).items@) == item_views(final(r).items@),
            request_views(final(self).requests@) == request_views(final(r).requests@),
    {
        let ghost q0 = self.requests@;
        self.requests.push(request);
        proof {
            assert(request_views(self.requests@) =~= request_views(q0).push(request@));
        }
        self
    }

    /// Create a parse output with a single item
    pub fn item(item: DynamicItem) -> (r: Self)
        ensures
            item_views(r.items@) == seq![converted_item("dynamic_item"@, item_object(item@))],
            r.requests@.len() == 0,
    {
        let mut output = Self::new();
        output.add_item(item);
        proof {
            assert(item_views(Seq::<DynamicItem>::empty()).push(converted_item("dynamic_item"@, item_object(item@)))
                =~= seq![converted_item("dynamic_item"@, item_object(item@))]);
            assert(request_views(output.requests@).len() == output.requests@.len());
        }
        output
    }

    /// Create a parse output with a single request
    pub fn request(request: Request) -> (r: Self)
        ensures
            request_views(r.requests@) == seq![request@],
            r.items@.len() == 0,
    {
        let mut output = Self::new();
        output.add_request(request);
        proof {
            assert(request_views(Seq::<Request>::empty()).push(request@) =~= seq![request@]);
            assert(item_views(output.items@).len() == output.items@.len());
        }
        output
    }
}

impl Default for ParseOutput {
    fn default() -> (r: Self)
        ensures
            r.items@.len() == 0,
            r.requests@.len() == 0,
    {
        Self::new()
    }
}

/// What making a GET request of a URL gives: the request, or the URL's parse error.
pub open spec fn get_outcome_ok(url: Seq<char>, r: Result<Request, Error>) -> bool {
    match parsed_url(url) {
        Ok(u) => r matches Ok(q) && q@ == crate::request::fresh_request_view(u, crate::request::Method::GET, None),
        Err(t) => r matches Err(e) && e matches Error::UrlParseError(x) && x.text@ == t,
    }
}

/// A GET request for each start URL, in order; each URL that does not parse gives its error in
/// its place.
pub fn start_requests_for(start_urls: &Vec<String>) -> (r: Vec<Result<Request, Error>>)
    ensures
        r@.len() == start_urls@.len(),
        forall|i: int| 0 <= i < r@.len() ==> get_outcome_ok(start_urls@[i]@, #[trigger] r@[i]),
{
    let mut out: Vec<Result<Request, Error>> = Vec::new();
    let mut i: usize = 0;
    while i < start_urls.len()
        invariant
            i <= start_urls@.len(),
            out@.len() == i,
            forall|j: int| 0 <= j < i ==> get_outcome_ok(start_urls@[j]@, #[trigger] out@[j]),
        decreases start_urls@.len() - i,
    {
        out.push(Request::get(start_urls[i].as_str()));
        i = i + 1;
    }
    out
}

/// A basic spider: a name, the domains it may crawl, where it starts, and its settings
#[derive(Debug)]
pub struct BasicSpider {
    name: String,
    allowed_domains: Vec<String>,
    start_urls: Vec<String>,
    settings: StrMap<MetaValue>,
}

/// The view of a basic spider.
pub struct SpiderView {
    pub name: Seq<char>,
    pub allowed_domains: Seq<Seq<char>>,
    pub start_urls: Seq<Seq<char>>,
    pub settings: Map<Seq<char>, MetaView>,
}

impl View for BasicSpider {
    type V = SpiderView;

    closed spec fn view(&self) -> SpiderView {
        SpiderView {
            name: self.name@,
            allowed_domains: strings_view(self.allowed_domains@),
            start_urls: strings_view(self.start_urls@),
            settings: self.settings@,
        }
    }
}

impl BasicSpider {
    /// Create a new basic spider, with no allowed domains and no settings
    pub fn new(name: &str, start_urls: Vec<String>) -> (r: Self)
        ensures
            r@ == (SpiderView {
                name: name@,
                allowed_domains: Seq::empty(),
                start_urls: strings_view(start_urls@),
                settings: Map::empty(),
            }),
    {
        let r = BasicSpider { name: name.to_owned(), allowed_domains: Vec::new(), start_urls, settings: StrMap::new() };
        proof {
            assert(strings_view(Seq::<String>::empty()) =~= Seq::<Seq<char>>::empty());
        }
        r
    }

    /// Set the allowed domains for this spider
    pub fn with_allowed_domains(self, domains: Vec<String>) -> (r: Self)
        ensures
            r@ == (SpiderView { allowed_domains: strings_view(domains@), ..self@ }),
    {
        BasicSpider { allowed_domains: domains, ..self }
    }

    /// Set a custom setting for this spider
    pub fn with_setting(self, key: &str, value: MetaValue) -> (r: Self)
        ensures
            r@ == (SpiderView { settings: self@.settings.insert(key@, value@), ..self@ }),
    {
        let mut s = self;
        s.settings.insert(key.to_owned(), value);
        s
    }

    /// Get the name of the spider
    pub fn name(&self) -> (r: &str)
        ensures
            r@ == self@.name,
    {
        self.name.as_str()
    }

    /// Get the allowed domains for this spider
    pub fn allowed_domains(&self) -> (r: Vec<String>)
        ensures
            strings_view(r@) == self@.allowed_domains,
    {
        dup_strings(&self.allowed_domains)
    }

    /// Get the start URLs for this spider
    pub fn start_urls(&self) -> (r: Vec<String>)
        ensures
            strings_view(r@) == self@.start_urls,
    {
        dup_strings(&self.start_urls)
    }

    /// Get custom settings for this spider
    pub fn settings(&self) -> (r: StrMap<MetaValue>)
        ensures
            r@ == self@.settings,
    {
        self.settings.duplicate()
    }

    /// A GET request for each start URL, in order (errors in place of URLs that do not parse)
    pub fn start_requests(&self) -> (r: Vec<Result<Request, Error>>)
        ensures
            r@.len() == self@.start_urls.len(),
            forall|i: int| 0 <= i < r@.len() ==> get_outcome_ok(self@.start_urls[i], #[trigger] r@[i]),
    {
        let r = start_requests_for(&self.start_urls);
        proof {
            assert forall|i: int| 0 <= i < r@.len() implies get_outcome_ok(self@.start_urls[i], #[trigger] r@[i]) by {
                assert(self@.start_urls[i] == self.start_urls@[i]@);
            }
        }
        r
    }
}

} // verus!
