use vstd::prelude::*;
use crate::benchmark::{ScenarioView, TestScenario};
use crate::item::{item_object, DynamicItem, ItemView};
use crate::request::{dup_strings, fresh_request_view, strings_view, Method, MetaValue, MetaView, Request, RequestView};
use crate::response::{Response, ResponseMetaValue, ResponseMetaView, ResponseView};
use crate::spider::{converted_item, item_views, request_views, ParseOutput};
use crate::strmap::StrMap;
use crate::text::{concat, decimal, u64_text};
use crate::web_url::{origin_text, parsed_url};

verus! {

/// The depth a response was reached at: its "depth" metadata where that is an unsigned
/// integer (cut to 32 bits), else zero.
pub open spec fn response_depth(meta: Map<Seq<char>, ResponseMetaView>) -> u32 {
    if meta.contains_key("depth"@) {
        match meta["depth"@] {
            ResponseMetaView::Value(v) => match crate::request::meta_as_u64(v) {
                Some(d) => d as u32,
                None => 0,
            },
            ResponseMetaView::Request(_) => 0,
        }
    } else {
        0
    }
}

/// The URL of the `i`-th link a page of the mock site has: the origin, a slash and `i`.
pub open spec fn link_url(origin: Seq<char>, i: nat) -> Seq<char> {
    origin + "/"@ + decimal(i)
}

/// How many links of a page are followed: as many as the page has, short of the page limit.
pub open spec fn followed_links(page_limit: usize, links_per_page: usize) -> nat {
    if page_limit <= 1 {
        0
    } else if links_per_page < page_limit - 1 {
        links_per_page as nat
    } else {
        (page_limit - 1) as nat
    }
}

/// The item a page gives: a benchmark item with its URL, a title and its depth, kept as a
/// dynamic item.
pub open spec fn page_item(url: Seq<char>, depth: u32) -> ItemView {
    converted_item(
        "dynamic_item"@,
        item_object(
            ItemView {
                item_type_name: "benchmark_item"@,
                fields: Map::empty().insert("url"@, MetaView::Text(url)).insert(
                    "title"@,
                    MetaView::Text("Benchmark Page"@),
                ).insert("depth"@, MetaView::Int(depth as int)),
            },
        ),
    )
}

/// Every link that is followed from a page of this URL parses.
pub open spec fn links_parse(url: Seq<char>, n: nat) -> bool {
    forall|i: nat| 1 <= i <= n ==> (#[trigger] parsed_url(link_url(origin_text(url), i))) is Ok
}

/// A spider for benchmark crawls of the mock site: it makes an item of each page and follows
/// the page's links, one level deeper, down to the depth limit and up to the page limit.
#[derive(Debug)]
pub struct BenchmarkSpider {
    pub name: String,
    pub start_urls: Vec<String>,
    pub page_limit: usize,
    pub max_depth: u32,
    pub links_per_page: usize,
}

/// How many links each page of the crawled site has: what the mock server is set to, else five.
pub fn links_per_page_for(use_mock_server: bool, mock_links_per_page: Option<usize>) -> (r: usize)
    ensures
        r == if use_mock_server {
            match mock_links_per_page {
                Some(n) => n,
                None => 5,
            }
        } else {
            5
        },
{
    if use_mock_server {
        match mock_links_per_page {
            Some(n) => n,
            None => 5,
        }
    } else {
        5
    }
}

impl BenchmarkSpider {
    /// The spider for a scenario: its name, URLs, page limit and depth (cut to 32 bits).
    pub fn from_scenario(scenario: &TestScenario, links_per_page: usize) -> (r: Self)
        ensures
            r.name@ == scenario@.name,
            strings_view(r.start_urls@) == scenario@.urls,
            r.page_limit == scenario.page_limit,
            r.max_depth == scenario.max_depth as u32,
            r.links_per_page == links_per_page,
    {
        BenchmarkSpider {
            name: scenario.name.clone(),
            start_urls: dup_strings(&scenario.urls),
            page_limit: scenario.page_limit,
            max_depth: scenario.max_depth as u32,
            links_per_page,
        }
    }

    /// Parses a page: one item, then the links followed from it.
    pub fn parse(&self, response: &Response) -> (r: ParseOutput)
        requires
            response_depth(response@.meta) < self.max_depth ==> links_parse(
                response@.url.0,
                followed_links(self.page_limit, self.links_per_page),
            ),
        ensures
            item_views(r.items@) == seq![page_item(response@.url.0, response_depth(response@.meta))],
            ({
                let depth = response_depth(response@.meta);
                let n: nat = if depth < self.max_depth {
                    followed_links(self.page_limit, self.links_per_page)
                } else {
                    0
                };
                &&& r.requests@.len() == n
                &&& forall|k: int| 0 <= k < n ==> #[trigger] r.requests@[k]@ == (RequestView {
                    meta: Map::empty().insert("depth"@, MetaView::Int(depth + 1)),
                    ..fresh_request_view(
                        parsed_url(link_url(origin_text(response@.url.0), (k + 1) as nat))->Ok_0,
                        Method::GET,
                        None,
                    )
                })
            }),
    {
        let depth: u32 = match response.meta.get("depth") {
            Some(ResponseMetaValue::Value(v)) => match v.as_u64() {
                Some(d) => d as u32,
                None => 0,
            },
            _ => 0,
        };
        let mut output = ParseOutput::new();
        let mut item = DynamicItem::new("benchmark_item");
        item.set("url", MetaValue::Text(response.url.as_str().to_owned()));
        item.set("title", MetaValue::Text(String::from_str("Benchmark Page")));
        item.set("depth", MetaValue::Int(depth as i128));
        output.add_item(item);
        proof {
            assert(item_views(output.items@) =~= seq![page_item(response@.url.0, depth)]);
            assert(request_views(output.requests@).len() == output.requests@.len());
            assert(output.requests@.len() == 0);
        }
        if depth < self.max_depth {
            let base = response.url.origin_serialization();
            let ghost n = followed_links(self.page_limit, self.links_per_page);
            let mut i: usize = 1;
            while i <= self.links_per_page && output.requests.len() + 1 < self.page_limit
                invariant
                    1 <= i,
                    i <= self.links_per_page + 1,
                    output.requests@.len() == i - 1,
                    i - 1 <= n,
                    n == followed_links(self.page_limit, self.links_per_page),
                    links_parse(response@.url.0, n),
                    base@ == origin_text(response@.url.0),
                    depth < self.max_depth,
                    depth == response_depth(response@.meta),
                    item_views(output.items@) == seq![page_item(response@.url.0, depth)],
                    forall|k: int| 0 <= k < output.requests@.len() ==> #[trigger] output.requests@[k]@ == (RequestView {
                        meta: Map::empty().insert("depth"@, MetaView::Int(depth + 1)),
                        ..fresh_request_view(
                            parsed_url(link_url(origin_text(response@.url.0), (k + 1) as nat))->Ok_0,
                            Method::GET,
                            None,
                        )
                    }),
                decreases self.links_per_page + 1 - i,
            {
                let with_slash = concat(base.as_str(), "/");
                let url = concat(with_slash.as_str(), u64_text(i as u64).as_str());
                proof {
                    assert(url@ == link_url(origin_text(response@.url.0), i as nat));
                    assert(1 <= i as nat <= n);
                    assert(parsed_url(link_url(origin_text(response@.url.0), i as nat)) is Ok);
                }
                let mut request = Request::get(url.as_str()).unwrap();
                request.meta.insert(String::from_str("depth"), MetaValue::Int(depth as i128 + 1));
                let ghost before = output.requests@;
                output.add_request(request);
                proof {
                    assert(request_views(output.requests@) == request_views(before).push(request@));
                    assert forall|k: int| 0 <= k < output.requests@.len() implies #[trigger] output.requests@[k]@ == (RequestView {
                        meta: Map::empty().insert("depth"@, MetaView::Int(depth + 1)),
                        ..fresh_request_view(
                            parsed_url(link_url(origin_text(response@.url.0), (k + 1) as nat))->Ok_0,
                            Method::GET,
                            None,
                        )
                    }) by {
                        assert(request_views(output.requests@)[k] == output.requests@[k]@);
                        if k < before.len() {
                            assert(request_views(before)[k] == before[k]@);
                        }
                    }
                }
                i = i + 1;
            }
        }
        output
    }

    /// Parses a page where every link it would follow parses as a URL; `None` where one does not.
    pub fn try_parse(&self, response: &Response) -> (r: Option<ParseOutput>)
        ensures
            r is Some <==> (response_depth(response@.meta) < self.max_depth ==> links_parse(
                response@.url.0,
                followed_links(self.page_limit, self.links_per_page),
            )),
            r matches Some(o) ==> item_views(o.items@) == seq![page_item(response@.url.0, response_depth(response@.meta))],
            r matches Some(o) ==> ({
                let depth = response_depth(response@.meta);
                let n: nat = if depth < self.max_depth {
                    followed_links(self.page_limit, self.links_per_page)
                } else {
                    0
                };
                &&& o.requests@.len() == n
                &&& forall|k: int| 0 <= k < n ==> #[trigger] o.requests@[k]@ == (RequestView {
                    meta: Map::empty().insert("depth"@, MetaView::Int(depth + 1)),
                    ..fresh_request_view(
                        parsed_url(link_url(origin_text(response@.url.0), (k + 1) as nat))->Ok_0,
                        Method::GET,
                        None,
                    )
                })
            }),
    {
        let depth: u32 = match response.meta.get("depth") {
            Some(ResponseMetaValue::Value(v)) => match v.as_u64() {
                Some(d) => d as u32,
                None => 0,
            },
            _ => 0,
        };
        proof {
            assert(depth == response_depth(response@.meta));
        }
        if depth < self.max_depth {
            let n: usize = if self.page_limit <= 1 {
                0
            } else if self.links_per_page < self.page_limit - 1 {
                self.links_per_page
            } else {
                self.page_limit - 1
            };
            let base = response.url.origin_serialization();
            let mut i: usize = 1;
            while i <= n
                invariant
                    1 <= i <= n + 1,
                    n == followed_links(self.page_limit, self.links_per_page),
                    base@ == origin_text(response@.url.0),
                    forall|j: nat| 1 <= j < i ==> (#[trigger] parsed_url(link_url(origin_text(response@.url.0), j))) is Ok,
                    depth == response_depth(response@.meta),
                    depth < self.max_depth,
                decreases n + 1 - i,
            {
                let with_slash = concat(base.as_str(), "/");
                let url = concat(with_slash.as_str(), u64_text(i as u64).as_str());
                proof {
                    assert(url@ == link_url(origin_text(response@.url.0), i as nat));
                }
                if crate::web_url::WebUrl::parse(url.as_str()).is_err() {
                    proof {
                        assert(parsed_url(link_url(origin_text(response@.url.0), i as nat)) is Err);
                        assert(!links_parse(response@.url.0, n as nat));
                    }
                    return None;
                }
                i = i + 1;
            }
        }
        Some(self.parse(response))
    }
}

} // verus!
