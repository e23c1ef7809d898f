use vstd::prelude::*;
use vstd::string::StringExecFns;
use crate::benchmark::{get_predefined_scenarios, predefined_scenarios, scenario_named, ScenarioView, TestScenario};
use crate::config::{CrawlStrategy, EngineConfig, SchedulerType};
use crate::downloader::DownloaderConfig;
use crate::request::strings_view;
use crate::response::{json_as_u64, json_get_member, json_member, json_refusal, json_u64, json_value, parse_json_value};
use crate::text::{concat, seq_join, str_eq};

verus! {

/// The settings of a custom benchmark run that may be given; those not given keep the
/// default scenario's value.
#[derive(Debug)]
pub struct ScenarioOverrides {
    pub urls: Option<Vec<String>>,
    pub page_limit: Option<usize>,
    pub max_depth: Option<usize>,
    pub concurrent_requests: Option<usize>,
    pub download_delay_ms: Option<u64>,
    pub user_agent: Option<String>,
    pub follow_redirects: Option<bool>,
    pub respect_robots_txt: Option<bool>,
}

/// The scenario with the given settings put in place of its own.
pub open spec fn overridden(base: ScenarioView, o: ScenarioOverrides) -> ScenarioView {
    ScenarioView {
        urls: match o.urls {
            Some(u) => strings_view(u@),
            None => base.urls,
        },
        page_limit: match o.page_limit {
            Some(n) => n,
            None => base.page_limit,
        },
        max_depth: match o.max_depth {
            Some(n) => n,
            None => base.max_depth,
        },
        concurrent_requests: match o.concurrent_requests {
            Some(n) => n,
            None => base.concurrent_requests,
        },
        download_delay_ms: match o.download_delay_ms {
            Some(n) => n,
            None => base.download_delay_ms,
        },
        user_agent: match o.user_agent {
            Some(u) => u@,
            None => base.user_agent,
        },
        follow_redirects: match o.follow_redirects {
            Some(b) => b,
            None => base.follow_redirects,
        },
        respect_robots_txt: match o.respect_robots_txt {
            Some(b) => b,
            None => base.respect_robots_txt,
        },
        ..base
    }
}

/// The default scenario with the given settings in place of its own.
pub fn custom_scenario(o: ScenarioOverrides) -> (r: TestScenario)
    ensures
        r@ == overridden(scenario_named("default"@), o),
{
    let ghost og = o;
    let mut s = TestScenario::default();
    let ScenarioOverrides {
        urls,
        page_limit,
        max_depth,
        concurrent_requests,
        download_delay_ms,
        user_agent,
        follow_redirects,
        respect_robots_txt,
    } = o;
    if let Some(u) = urls {
        s = s.with_urls(u);
    }
    if let Some(n) = page_limit {
        s = s.with_page_limit(n);
    }
    if let Some(n) = max_depth {
        s = s.with_max_depth(n);
    }
    if let Some(n) = concurrent_requests {
        s = s.with_concurrent_requests(n);
    }
    if let Some(n) = download_delay_ms {
        s = s.with_download_delay(n);
    }
    if let Some(u) = user_agent {
        s = s.with_user_agent(u.as_str());
    }
    if let Some(b) = follow_redirects {
        s = s.with_follow_redirects(b);
    }
    if let Some(b) = respect_robots_txt {
        s = s.with_respect_robots_txt(b);
    }
    proof {
        assert(s@ == overridden(scenario_named("default"@), og));
    }
    s
}

/// The first predefined scenario with the given name.
pub fn find_scenario(name: &str) -> (r: Option<TestScenario>)
    ensures
        match r {
            Some(s) => exists|i: int|
                0 <= i < predefined_scenarios().len() && s@ == #[trigger] predefined_scenarios()[i]
                    && predefined_scenarios()[i].name == name@
                    && forall|j: int| 0 <= j < i ==> #[trigger] predefined_scenarios()[j].name != name@,
            None => forall|i: int| 0 <= i < predefined_scenarios().len() ==> #[trigger] predefined_scenarios()[i].name != name@,
        },
{
    let mut all = get_predefined_scenarios();
    let ghost views = predefined_scenarios();
    let n = all.len();
    let mut i: usize = 0;
    while i < n
        invariant
            n == all@.len(),
            views == predefined_scenarios(),
            all@.map_values(|s: TestScenario| s@) == views,
            i <= n,
            forall|j: int| 0 <= j < i ==> #[trigger] views[j].name != name@,
        decreases n - i,
    {
        assert(views[i as int] == all@[i as int]@);
        if str_eq(all[i].name.as_str(), name) {
            let s = all.remove(i);
            return Some(s);
        }
        i = i + 1;
    }
    None
}

/// The message given where no predefined scenario has the name asked for.
pub open spec fn unknown_scenario_text(name: Seq<char>) -> Seq<char> {
    "Scenario '"@ + name + "' not found. Use 'list' command to see available scenarios."@
}

/// The scenario of a benchmark run: the predefined one of that name where a name is given,
/// else the default scenario with the given settings.
pub fn select_scenario(name: Option<&str>, o: ScenarioOverrides) -> (r: Result<TestScenario, String>)
    ensures
        match name {
            Some(n) => match r {
                Ok(s) => exists|i: int|
                    0 <= i < predefined_scenarios().len() && s@ == #[trigger] predefined_scenarios()[i]
                        && predefined_scenarios()[i].name == n@
                        && forall|j: int| 0 <= j < i ==> #[trigger] predefined_scenarios()[j].name != n@,
                Err(e) => e@ == unknown_scenario_text(n@)
                    && forall|i: int| 0 <= i < predefined_scenarios().len() ==> #[trigger] predefined_scenarios()[i].name != n@,
            },
            None => r matches Ok(s) && s@ == overridden(scenario_named("default"@), o),
        },
{
    match name {
        Some(n) => match find_scenario(n) {
            Some(s) => Ok(s),
            None => {
                let a = concat("Scenario '", n);
                Err(concat(a.as_str(), "' not found. Use 'list' command to see available scenarios."))
            },
        },
        None => Ok(custom_scenario(o)),
    }
}

/// A URL as a quoted Python string.
pub open spec fn python_quoted(url: Seq<char>) -> Seq<char> {
    "'"@ + url + "'"@
}

/// The URLs written as a Python list: each quoted, separated by a comma and a space, in
/// square brackets.
pub open spec fn python_list(urls: Seq<Seq<char>>) -> Seq<char> {
    "["@ + seq_join(urls.map_values(|u: Seq<char>| python_quoted(u)), ", "@) + "]"@
}

/// Writes the URLs as a Python list.
pub fn python_url_list(urls: &Vec<String>) -> (r: String)
    ensures
        r@ == python_list(strings_view(urls@)),
{
    let ghost quoted = strings_view(urls@).map_values(|u: Seq<char>| python_quoted(u));
    let mut out = String::from_str("[");
    let mut i: usize = 0;
    while i < urls.len()
        invariant
            i <= urls@.len(),
            quoted == strings_view(urls@).map_values(|u: Seq<char>| python_quoted(u)),
            out@ == "["@ + seq_join(quoted.take(i as int), ", "@),
        decreases urls@.len() - i,
    {
        let ghost before = out@;
        if i > 0 {
            out.append(", ");
        }
        out.append("'");
        out.append(urls[i].as_str());
        out.append("'");
        proof {
            assert(quoted[i as int] == python_quoted(urls@[i as int]@));
            assert(quoted.take(i + 1).drop_last() =~= quoted.take(i as int));
            if i == 0 {
                assert(quoted.take(1) =~= seq![quoted[0]]);
            }
            assert(out@ =~= "["@ + seq_join(quoted.take(i + 1), ", "@));
        }
        i = i + 1;
    }
    out.append("]");
    proof {
        assert(quoted.take(urls@.len() as int) =~= quoted);
    }
    out
}

/// The engine settings of a benchmark run of a scenario: its concurrency (for requests and
/// items alike), delay, user agent, robots.txt and redirect settings; the defaults elsewhere.
pub open spec fn benchmark_engine_config_ok(s: ScenarioView, r: EngineConfig) -> bool {
    &&& r.concurrent_requests == s.concurrent_requests
    &&& r.concurrent_items == s.concurrent_requests
    &&& r.download_delay_ms == s.download_delay_ms
    &&& r.user_agent@ == s.user_agent
    &&& r.respect_robots_txt == s.respect_robots_txt
    &&& r.follow_redirects == s.follow_redirects
    &&& r.max_requests_per_domain is None
    &&& r.max_requests_per_spider is None
    &&& r.request_timeout == 30
    &&& r.retry_enabled
    &&& r.max_retries == 3
    &&& r.max_depth is None
    &&& r.log_requests
    &&& r.log_items
    &&& r.log_stats
    &&& r.stats_interval_secs == 60
    &&& r.scheduler_type == SchedulerType::Memory
    &&& r.crawl_strategy == CrawlStrategy::Priority
    &&& r.domain_delay_ms is None
    &&& !r.enable_resource_monitoring
    &&& r.max_active_size_per_domain == 5_000_000
    &&& r.delay_per_domain == 0
}

/// The engine settings of a benchmark run of a scenario.
pub fn benchmark_engine_config(s: &TestScenario) -> (r: EngineConfig)
    ensures
        benchmark_engine_config_ok(s@, r),
{
    EngineConfig {
        concurrent_requests: s.concurrent_requests,
        concurrent_items: s.concurrent_requests,
        download_delay_ms: s.download_delay_ms,
        user_agent: s.user_agent.clone(),
        respect_robots_txt: s.respect_robots_txt,
        follow_redirects: s.follow_redirects,
        ..EngineConfig::default()
    }
}

/// The downloader settings of a benchmark run of a scenario: its concurrency and user agent,
/// a 30 second timeout, and the defaults elsewhere.
pub fn benchmark_downloader_config(s: &TestScenario) -> (r: DownloaderConfig)
    ensures
        r.concurrent_requests == s.concurrent_requests,
        r.user_agent@ == s.user_agent@,
        r.timeout == 30,
        r.retry_enabled,
        r.max_retries == 3,
        r.retry_delay_ms == 1000,
        r.max_retry_delay_ms == 30000,
{
    DownloaderConfig {
        concurrent_requests: s.concurrent_requests,
        user_agent: s.user_agent.clone(),
        timeout: 30,
        ..DownloaderConfig::default()
    }
}

/// The count a statistics value holds under a key: the member's unsigned integer, `None`
/// where there is no such member or it is no unsigned integer.
pub open spec fn stat_count_spec(stats: serde_json::Value, key: Seq<char>) -> Option<u64> {
    match json_member(stats, key) {
        Some(m) => json_u64(m),
        None => None,
    }
}

/// The counts of a Scrapy run, as its statistics file gives them.
#[derive(Debug, Clone, Copy, PartialEq, Eq, Structural)]
pub struct ScrapyStats {
    /// `downloader/request_count`
    pub request_count: Option<u64>,
    /// `downloader/response_count`
    pub response_count: Option<u64>,
    /// `item_scraped_count`
    pub item_count: Option<u64>,
    /// `downloader/exception_count`
    pub error_count: Option<u64>,
}

/// The counts that a statistics value holds.
pub open spec fn scrapy_stats_spec(stats: serde_json::Value) -> ScrapyStats {
    ScrapyStats {
        request_count: stat_count_spec(stats, "downloader/request_count"@),
        response_count: stat_count_spec(stats, "downloader/response_count"@),
        item_count: stat_count_spec(stats, "item_scraped_count"@),
        error_count: stat_count_spec(stats, "downloader/exception_count"@),
    }
}

/// The unsigned integer that a statistics value holds under a key.
pub fn stat_count(stats: &serde_json::Value, key: &str) -> (r: Option<u64>)
    ensures
        r == stat_count_spec(*stats, key@),
{
    match json_get_member(stats, key) {
        Some(m) => json_as_u64(&m),
        None => None,
    }
}

/// The counts of a Scrapy run from its parsed statistics.
pub fn scrapy_stats_of(stats: &serde_json::Value) -> (r: ScrapyStats)
    ensures
        r == scrapy_stats_spec(*stats),
{
    ScrapyStats {
        request_count: stat_count(stats, "downloader/request_count"),
        response_count: stat_count(stats, "downloader/response_count"),
        item_count: stat_count(stats, "item_scraped_count"),
        error_count: stat_count(stats, "downloader/exception_count"),
    }
}

/// The counts of a Scrapy run from the text of its statistics file: the text must be JSON
/// (else the parser's error text).
pub fn scrapy_stats_from_text(text: &str) -> (r: Result<ScrapyStats, String>)
    ensures
        r is Ok <==> json_refusal(text@) is None,
        r matches Ok(s) ==> s == scrapy_stats_spec(json_value(text@)),
        r matches Err(t) ==> json_refusal(text@) == Some(t@),
{
    match parse_json_value(text) {
        Ok(v) => Ok(scrapy_stats_of(&v)),
        Err(t) => Err(t),
    }
}

} // verus!
