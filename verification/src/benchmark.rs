use vstd::prelude::*;
use crate::request::strings_view;
use crate::strmap::StrMap;

verus! {

/// Test scenario configuration
#[derive(Debug, Clone)]
pub struct TestScenario {
    /// Name of the test scenario
    pub name: String,
    /// Description of the test scenario
    pub description: String,
    /// Target URLs to crawl
    pub urls: Vec<String>,
    /// Number of pages to crawl
    pub page_limit: usize,
    /// Maximum depth to crawl
    pub max_depth: usize,
    /// Concurrent requests
    pub concurrent_requests: usize,
    /// Download delay in milliseconds
    pub download_delay_ms: u64,
    /// User agent to use
    pub user_agent: String,
    /// Follow redirects
    pub follow_redirects: bool,
    /// Respect robots.txt
    pub respect_robots_txt: bool,
    /// Additional settings
    pub settings: StrMap<String>,
}

/// The view of a test scenario.
pub struct ScenarioView {
    pub name: Seq<char>,
    pub description: Seq<char>,
    pub urls: Seq<Seq<char>>,
    pub page_limit: usize,
    pub max_depth: usize,
    pub concurrent_requests: usize,
    pub download_delay_ms: u64,
    pub user_agent: Seq<char>,
    pub follow_redirects: bool,
    pub respect_robots_txt: bool,
    pub settings: Map<Seq<char>, Seq<char>>,
}

impl View for TestScenario {
    type V = ScenarioView;

    open spec fn view(&self) -> ScenarioView {
        ScenarioView {
            name: self.name@,
            description: self.description@,
            urls: strings_view(self.urls@),
            page_limit: self.page_limit,
            max_depth: self.max_depth,
            concurrent_requests: self.concurrent_requests,
            download_delay_ms: self.download_delay_ms,
            user_agent: self.user_agent@,
            follow_redirects: self.follow_redirects,
            respect_robots_txt: self.respect_robots_txt,
            settings: self.settings@,
        }
    }
}

/// The default scenario under the given name: one URL (https://example.com), 100 pages,
/// depth 2, 16 requests at once, no delay, following redirects and respecting robots.txt.
pub open spec fn scenario_named(name: Seq<char>) -> ScenarioView {
    ScenarioView {
        name,
        description: "Default test scenario"@,
        urls: seq!["https://example.com"@],
        page_limit: 100,
        max_depth: 2,
        concurrent_requests: 16,
        download_delay_ms: 0,
        user_agent: "scrapy-rs-benchmark/0.1.0"@,
        follow_redirects: true,
        respect_robots_txt: true,
        settings: Map::empty(),
    }
}

impl TestScenario {
    /// Create a new test scenario with the given name and default settings
    pub fn new(name: &str) -> (r: Self)
        ensures
            r@ == scenario_named(name@),
    {
        let urls = vec![String::from_str("https://example.com")];
        let r = TestScenario {
            name: name.to_owned(),
            description: String::from_str("Default test scenario"),
            urls,
            page_limit: 100,
            max_depth: 2,
            concurrent_requests: 16,
            download_delay_ms: 0,
            user_agent: String::from_str("scrapy-rs-benchmark/0.1.0"),
            follow_redirects: true,
            respect_robots_txt: true,
            settings: StrMap::new(),
        };
        proof {
            assert(r@.urls =~= seq!["https://example.com"@]);
        }
        r
    }

    /// Set the description
    pub fn with_description(self, description: &str) -> (r: Self)
        ensures
            r@ == (ScenarioView { description: description@, ..self@ }),
    {
        TestScenario { description: description.to_owned(), ..self }
    }

    /// Set the URLs to crawl
    pub fn with_urls(self, urls: Vec<String>) -> (r: Self)
        ensures
            r@ == (ScenarioView { urls: strings_view(urls@), ..self@ }),
    {
        TestScenario { urls, ..self }
    }

    /// Set the page limit
    pub fn with_page_limit(self, limit: usize) -> (r: Self)
        ensures
            r@ == (ScenarioView { page_limit: limit, ..self@ }),
    {
        TestScenario { page_limit: limit, ..self }
    }

    /// Set the maximum depth
    pub fn with_max_depth(self, depth: usize) -> (r: Self)
        ensures
            r@ == (ScenarioView { max_depth: depth, ..self@ }),
    {
        TestScenario { max_depth: depth, ..self }
    }

    /// Set the concurrent requests
    pub fn with_concurrent_requests(self, requests: usize) -> (r: Self)
        ensures
            r@ == (ScenarioView { concurrent_requests: requests, ..self@ }),
    {
        TestScenario { concurrent_requests: requests, ..self }
    }

    /// Set the download delay
    pub fn with_download_delay(self, delay_ms: u64) -> (r: Self)
        ensures
            r@ == (ScenarioView { download_delay_ms: delay_ms, ..self@ }),
    {
        TestScenario { download_delay_ms: delay_ms, ..self }
    }

    /// Set the user agent
    pub fn with_user_agent(self, user_agent: &str) -> (r: Self)
        ensures
            r@ == (ScenarioView { user_agent: user_agent@, ..self@ }),
    {
        TestScenario { user_agent: user_agent.to_owned(), ..self }
    }

    /// Set whether to follow redirects
    pub fn with_follow_redirects(self, follow: bool) -> (r: Self)
        ensures
            r@ == (ScenarioView { follow_redirects: follow, ..self@ }),
    {
        TestScenario { follow_redirects: follow, ..self }
    }

    /// Set whether to respect robots.txt
    pub fn with_respect_robots_txt(self, respect: bool) -> (r: Self)
        ensures
            r@ == (ScenarioView { respect_robots_txt: respect, ..self@ }),
    {
        TestScenario { respect_robots_txt: respect, ..self }
    }

    /// Add a setting
    pub fn with_setting(self, key: &str, value: &str) -> (r: Self)
        ensures
            r@ == (ScenarioView { settings: self@.settings.insert(key@, value@), ..self@ }),
    {
        let mut s = self;
        s.settings.insert(key.to_owned(), value.to_owned());
        s
    }
}

impl Default for TestScenario {
    fn default() -> (r: Self)
        ensures
            r@ == scenario_named("default"@),
    {
        TestScenario::new("default")
    }
}

/// The views of a sequence of scenarios.
pub open spec fn scenario_views(v: Seq<TestScenario>) -> Seq<ScenarioView> {
    v.map_values(|s: TestScenario| s@)
}

/// The predefined scenarios: simple, medium, complex and real-world crawls.
pub open spec fn predefined_scenarios() -> Seq<ScenarioView> {
    seq![
        ScenarioView {
            description: "Simple crawl of a few pages"@,
            urls: seq!["https://example.com"@],
            page_limit: 10,
            max_depth: 1,
            concurrent_requests: 4,
            ..scenario_named("simple"@)
        },
        ScenarioView {
            description: "Medium crawl with moderate depth"@,
            urls: seq!["https://quotes.toscrape.com"@],
            page_limit: 100,
            max_depth: 3,
            concurrent_requests: 8,
            ..scenario_named("medium"@)
        },
        ScenarioView {
            description: "Complex crawl with multiple start URLs and high concurrency"@,
            urls: seq!["https://books.toscrape.com"@, "https://quotes.toscrape.com"@],
            page_limit: 500,
            max_depth: 5,
            concurrent_requests: 32,
            ..scenario_named("complex"@)
        },
        ScenarioView {
            description: "Real-world crawl with rate limiting"@,
            urls: seq!["https://news.ycombinator.com"@],
            page_limit: 200,
            max_depth: 2,
            concurrent_requests: 4,
            download_delay_ms: 500,
            user_agent: "Mozilla/5.0 (Macintosh; Intel Mac OS X 10_15_7) AppleWebKit/537.36 (KHTML, like Gecko) Chrome/91.0.4472.114 Safari/537.36"@,
            ..scenario_named("real_world"@)
        },
    ]
}

/// Predefined test scenarios
pub fn get_predefined_scenarios() -> (r: Vec<TestScenario>)
    ensures
        scenario_views(r@) == predefined_scenarios(),
{
    let simple = TestScenario::new("simple")
        .with_description("Simple crawl of a few pages")
        .with_urls(vec![String::from_str("https://example.com")])
        .with_page_limit(10)
        .with_max_depth(1)
        .with_concurrent_requests(4);
    let medium = TestScenario::new("medium")
        .with_description("Medium crawl with moderate depth")
        .with_urls(vec![String::from_str("https://quotes.toscrape.com")])
        .with_page_limit(100)
        .with_max_depth(3)
        .with_concurrent_requests(8);
    let complex = TestScenario::new("complex")
        .with_description("Complex crawl with multiple start URLs and high concurrency")
        .with_urls(vec![String::from_str("https://books.toscrape.com"), String::from_str("https://quotes.toscrape.com")])
        .with_page_limit(500)
        .with_max_depth(5)
        .with_concurrent_requests(32);
    let real_world = TestScenario::new("real_world")
        .with_description("Real-world crawl with rate limiting")
        .with_urls(vec![String::from_str("https://news.ycombinator.com")])
        .with_page_limit(200)
        .with_max_depth(2)
        .with_concurrent_requests(4)
        .with_download_delay(500)
        .with_user_agent("Mozilla/5.0 (Macintosh; Intel Mac OS X 10_15_7) AppleWebKit/537.36 (KHTML, like Gecko) Chrome/91.0.4472.114 Safari/537.36");
    proof {
        assert(simple@.urls =~= seq!["https://example.com"@]);
        assert(medium@.urls =~= seq!["https://quotes.toscrape.com"@]);
        assert(complex@.urls =~= seq!["https://books.toscrape.com"@, "https://quotes.toscrape.com"@]);
        assert(real_world@.urls =~= seq!["https://news.ycombinator.com"@]);
    }
    let r = vec![simple, medium, complex, real_world];
    proof {
        assert(scenario_views(r@) =~= predefined_scenarios());
    }
    r
}

/// Item structure for benchmark tests
#[derive(Debug, Clone)]
pub struct BenchmarkItem {
    /// URL of the page
    pub url: String,
    /// Title of the page
    pub title: Option<String>,
    /// Description or excerpt
    pub description: Option<String>,
    /// Links found on the page
    pub links: Vec<String>,
    /// When the item was scraped, in milliseconds since the epoch
    pub timestamp_ms: i64,
}

impl BenchmarkItem {
    /// Create a new benchmark item scraped at `timestamp_ms`, with no title, description or links
    pub fn new(url: &str, timestamp_ms: i64) -> (r: Self)
        ensures
            r.url@ == url@,
            r.title is None,
            r.description is None,
            r.links@.len() == 0,
            r.timestamp_ms == timestamp_ms,
    {
        BenchmarkItem { url: url.to_owned(), title: None, description: None, links: Vec::new(), timestamp_ms }
    }

    /// Set the title
    pub fn with_title(self, title: &str) -> (r: Self)
        ensures
            r.title matches Some(t) && t@ == title@,
            r.url == self.url,
            r.description == self.description,
            r.links == self.links,
            r.timestamp_ms == self.timestamp_ms,
    {
        BenchmarkItem { title: Some(title.to_owned()), ..self }
    }

    /// Set the description
    pub fn with_description(self, description: &str) -> (r: Self)
        ensures
            r.description matches Some(t) && t@ == description@,
            r.url == self.url,
            r.title == self.title,
            r.links == self.links,
            r.timestamp_ms == self.timestamp_ms,
    {
        BenchmarkItem { description: Some(description.to_owned()), ..self }
    }

    /// Add a link
    pub fn with_link(self, link: &str) -> (r: Self)
        ensures
            strings_view(r.links@) == strings_view(self.links@).push(link@),
            r.url == self.url,
            r.title == self.title,
            r.description == self.description,
            r.timestamp_ms == self.timestamp_ms,
    {
        let mut s = self;
        let ghost l0 = s.links@;
        s.links.push(link.to_owned());
        proof {
            assert(strings_view(s.links@) =~= strings_view(l0).push(link@));
        }
        s
    }

    /// Add multiple links
    pub fn with_links(self, links: Vec<String>) -> (r: Self)
        ensures
            strings_view(r.links@) == strings_view(self.links@) + strings_view(links@),
            r.url == self.url,
            r.title == self.title,
            r.description == self.description,
            r.timestamp_ms == self.timestamp_ms,
    {
        let mut s = self;
        let mut more = links;
        let ghost l0 = s.links@;
        let ghost m0 = more@;
        s.links.append(&mut more);
        proof {
            assert(strings_view(s.links@) =~= strings_view(l0) + strings_view(m0));
        }
        s
    }
}

} // verus!
