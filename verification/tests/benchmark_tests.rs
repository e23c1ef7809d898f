use scrapy_rs::scrapy_project::{pipeline_edits, settings_edits, spider_edits, start_urls_edit, TemplateEdit};
use scrapy_rs::text::seconds_string;
use scrapy_rs::benchmark_plan::{benchmark_downloader_config, benchmark_engine_config, custom_scenario, find_scenario, python_url_list, scrapy_stats_from_text, scrapy_stats_of, select_scenario, stat_count, ScenarioOverrides, ScrapyStats};
use scrapy_rs::mock_site::{generate_page_html, page_link_targets, robots_txt};
use scrapy_rs::benchmark::{get_predefined_scenarios, BenchmarkItem, TestScenario};
use scrapy_rs::benchmark_spider::{links_per_page_for, BenchmarkSpider};
use scrapy_rs::request::MetaValue;
use scrapy_rs::request::Request;
use scrapy_rs::request_builder::{request_from_parts, BuildError};
use scrapy_rs::response::{Response, ResponseMetaValue};
use scrapy_rs::request::Method;
use scrapy_rs::strmap::StrMap;

#[test]
fn scenario_defaults_and_builders() {
    let d = TestScenario::default();
    assert_eq!(d.name, "default");
    assert_eq!(d.description, "Default test scenario");
    assert_eq!(d.urls, vec!["https://example.com"]);
    assert_eq!(d.page_limit, 100);
    assert_eq!(d.max_depth, 2);
    assert_eq!(d.concurrent_requests, 16);
    assert_eq!(d.user_agent, "scrapy-rs-benchmark/0.1.0");
    let s = TestScenario::new("x")
        .with_page_limit(5)
        .with_max_depth(9)
        .with_download_delay(3)
        .with_follow_redirects(false)
        .with_respect_robots_txt(false)
        .with_setting("k", "v");
    assert_eq!(s.name, "x");
    assert_eq!(s.page_limit, 5);
    assert_eq!(s.max_depth, 9);
    assert_eq!(s.download_delay_ms, 3);
    assert!(!s.follow_redirects);
    assert!(!s.respect_robots_txt);
    assert_eq!(s.settings.get("k").unwrap(), "v");
}

#[test]
fn predefined_scenarios() {
    let all = get_predefined_scenarios();
    let names: Vec<&str> = all.iter().map(|s| s.name.as_str()).collect();
    assert_eq!(names, vec!["simple", "medium", "complex", "real_world"]);
    assert_eq!(all[2].urls.len(), 2);
    assert_eq!(all[2].concurrent_requests, 32);
    assert_eq!(all[3].download_delay_ms, 500);
    assert!(all[3].user_agent.starts_with("Mozilla/5.0"));
}

#[test]
fn benchmark_item_builders() {
    let item = BenchmarkItem::new("https://a.com", 5)
        .with_title("T")
        .with_link("l1")
        .with_links(vec!["l2".to_string(), "l3".to_string()]);
    assert_eq!(item.title.as_deref(), Some("T"));
    assert_eq!(item.links, vec!["l1", "l2", "l3"]);
    assert_eq!(item.timestamp_ms, 5);
}

#[test]
fn benchmark_spider_follows_links() {
    let scenario = TestScenario::new("b").with_page_limit(3).with_max_depth(2);
    let spider = BenchmarkSpider::from_scenario(&scenario, links_per_page_for(true, Some(5)));
    let mut response = Response::new(Request::get("http://127.0.0.1:8080/0").unwrap(), 200, StrMap::new(), vec![]);
    response.meta.insert("depth".to_string(), ResponseMetaValue::Value(MetaValue::Int(1)));
    let out = spider.try_parse(&response).unwrap();
    assert_eq!(out.items.len(), 1);
    assert_eq!(out.items[0].get("depth").unwrap(), &MetaValue::Int(1));
    assert_eq!(out.items[0].get("_type").unwrap(), &MetaValue::Text("benchmark_item".to_string()));
    // the page limit of three leaves room for two links
    assert_eq!(out.requests.len(), 2);
    assert_eq!(out.requests[0].url.as_str(), "http://127.0.0.1:8080/1");
    assert_eq!(out.requests[1].url.as_str(), "http://127.0.0.1:8080/2");
    assert_eq!(out.requests[1].meta.get("depth").unwrap(), &MetaValue::Int(2));

    let mut deep = response.copy();
    deep.meta.insert("depth".to_string(), ResponseMetaValue::Value(MetaValue::Int(2)));
    assert_eq!(spider.parse(&deep).requests.len(), 0);
    assert_eq!(links_per_page_for(false, Some(9)), 5);
}

#[test]
fn request_from_parts_checks_method_and_body() {
    let r = request_from_parts("https://example.com", Some("PUT"), StrMap::new(), Some(vec![1, 2])).unwrap();
    assert_eq!(r.method, Method::PUT);
    assert_eq!(r.body, Some(vec![1, 2]));
    let r = request_from_parts("https://example.com", None, StrMap::new(), Some(vec![1])).unwrap();
    assert_eq!(r.method, Method::GET);
    assert_eq!(r.body, None);
    match request_from_parts("https://example.com", Some("POST"), StrMap::new(), None) {
        Err(BuildError::Value(m)) => assert_eq!(m, "POST request requires a body"),
        _ => panic!("expected a refusal"),
    }
    match request_from_parts("https://example.com", Some("GET"), StrMap::new(), None) {
        Err(BuildError::Value(m)) => assert_eq!(m, "Unsupported HTTP method: GET"),
        _ => panic!("expected a refusal"),
    }
    match request_from_parts("nope", None, StrMap::new(), None) {
        Err(BuildError::Value(m)) => assert!(m.starts_with("Invalid URL: ")),
        _ => panic!("expected a refusal"),
    }
    let mut headers = StrMap::new();
    headers.insert("A".to_string(), "b".to_string());
    let r = request_from_parts("https://example.com", Some("DELETE"), headers, None).unwrap();
    assert_eq!(r.headers.get("A").unwrap(), "b");
}

fn expected_page(id: usize, page_count: usize, links_per_page: usize) -> String {
    let mut html = format!(
        r#"<!DOCTYPE html>
<html>
<head>
    <title>Mock Page {}</title>
    <meta name="description" content="This is a mock page for benchmarking scrapy and scrapy-rs">
</head>
<body>
    <h1>Mock Page {}</h1>
    <p>This is a generated page for benchmarking scrapy and scrapy-rs.</p>
    <p>Current page ID: {}</p>
    <p>Total pages: {}</p>
    <h2>Links</h2>
    <ul>
"#,
        id, id, id, page_count
    );
    for i in 0..links_per_page {
        let target_id = (id + i + 1) % page_count;
        html.push_str(&format!(
            r#"        <li><a href="/{0}">Link to Page {0}</a></li>
"#,
            target_id
        ));
    }
    html.push_str(
        r#"    </ul>
    <div class="content">
        <p>Lorem ipsum dolor sit amet, consectetur adipiscing elit. Sed do eiusmod tempor incididunt 
        ut labore et dolore magna aliqua. Ut enim ad minim veniam, quis nostrud exercitation ullamco 
        laboris nisi ut aliquip ex ea commodo consequat.</p>
    </div>
</body>
</html>"#,
    );
    html
}

#[test]
fn mock_page_links_wrap_round_the_site() {
    assert_eq!(page_link_targets(3, 5, 4), vec![4, 0, 1, 2]);
    assert_eq!(page_link_targets(0, 100, 3), vec![1, 2, 3]);
    assert!(page_link_targets(7, 0, 0).is_empty());
    for id in 0..6 {
        for t in page_link_targets(id, 6, 5) {
            assert!(t < 6 && t != id);
        }
    }
}

#[test]
fn mock_page_html_layout() {
    assert_eq!(generate_page_html(3, 5, 4), expected_page(3, 5, 4));
    assert_eq!(generate_page_html(0, 100, 10), expected_page(0, 100, 10));
    let html = generate_page_html(12, 20, 2);
    assert!(html.contains("<title>Mock Page 12</title>"));
    assert!(html.contains("<li><a href=\"/13\">Link to Page 13</a></li>"));
    assert!(html.contains("<li><a href=\"/14\">Link to Page 14</a></li>"));
    assert!(!html.contains("/15\""));
}

#[test]
fn mock_robots_file() {
    assert_eq!(robots_txt(false), "User-agent: *\nAllow: /");
    assert_eq!(robots_txt(true), "User-agent: *\nDisallow: /5\nDisallow: /10\nDisallow: /15");
}

fn no_overrides() -> ScenarioOverrides {
    ScenarioOverrides {
        urls: None,
        page_limit: None,
        max_depth: None,
        concurrent_requests: None,
        download_delay_ms: None,
        user_agent: None,
        follow_redirects: None,
        respect_robots_txt: None,
    }
}

#[test]
fn benchmark_scenario_by_name() {
    let s = select_scenario(Some("complex"), no_overrides()).unwrap();
    assert_eq!(s.name, "complex");
    assert_eq!(s.page_limit, 500);
    assert_eq!(s.urls.len(), 2);
    assert_eq!(find_scenario("real_world").unwrap().download_delay_ms, 500);
    assert!(find_scenario("nope").is_none());
    assert_eq!(
        select_scenario(Some("nope"), no_overrides()).unwrap_err(),
        "Scenario 'nope' not found. Use 'list' command to see available scenarios."
    );
}

#[test]
fn benchmark_custom_scenario() {
    let s = select_scenario(None, no_overrides()).unwrap();
    assert_eq!(s.name, "default");
    assert_eq!(s.page_limit, 100);
    let o = ScenarioOverrides {
        urls: Some(vec!["http://localhost:8000/0".to_string()]),
        page_limit: Some(5),
        max_depth: None,
        concurrent_requests: Some(2),
        download_delay_ms: Some(250),
        user_agent: Some("bench".to_string()),
        follow_redirects: Some(false),
        respect_robots_txt: None,
    };
    let s = custom_scenario(o);
    assert_eq!(s.urls, vec!["http://localhost:8000/0".to_string()]);
    assert_eq!(s.page_limit, 5);
    assert_eq!(s.max_depth, 2);
    assert_eq!(s.concurrent_requests, 2);
    assert_eq!(s.download_delay_ms, 250);
    assert_eq!(s.user_agent, "bench");
    assert!(!s.follow_redirects);
    assert!(s.respect_robots_txt);
}

#[test]
fn benchmark_python_url_list() {
    assert_eq!(python_url_list(&vec![]), "[]");
    assert_eq!(python_url_list(&vec!["https://a.com".to_string()]), "['https://a.com']");
    assert_eq!(
        python_url_list(&vec!["https://a.com".to_string(), "https://b.com/x".to_string()]),
        "['https://a.com', 'https://b.com/x']"
    );
}

#[test]
fn benchmark_engine_and_downloader_configs() {
    let s = TestScenario::new("x").with_concurrent_requests(7).with_download_delay(40).with_user_agent("ua");
    let e = benchmark_engine_config(&s);
    assert_eq!(e.concurrent_requests, 7);
    assert_eq!(e.concurrent_items, 7);
    assert_eq!(e.download_delay_ms, 40);
    assert_eq!(e.user_agent, "ua");
    assert_eq!(e.request_timeout, 30);
    assert_eq!(e.max_retries, 3);
    let d = benchmark_downloader_config(&s);
    assert_eq!(d.concurrent_requests, 7);
    assert_eq!(d.user_agent, "ua");
    assert_eq!(d.timeout, 30);
    assert_eq!(d.retry_delay_ms, 1000);
}

#[test]
fn benchmark_scrapy_stat_counts() {
    let text = r#"{"downloader/request_count": 42, "item_scraped_count": -1,
        "downloader/response_count": "9", "elapsed_time_seconds": 1.5}"#;
    let stats = scrapy_stats_from_text(text).unwrap();
    assert_eq!(
        stats,
        ScrapyStats { request_count: Some(42), response_count: None, item_count: None, error_count: None }
    );
    let value: serde_json::Value = serde_json::from_str(text).unwrap();
    assert_eq!(stat_count(&value, "downloader/request_count"), Some(42));
    assert_eq!(stat_count(&value, "elapsed_time_seconds"), None);
    assert_eq!(scrapy_stats_of(&value), stats);
    let full = scrapy_stats_from_text(
        r#"{"downloader/request_count": 10, "downloader/response_count": 9,
            "item_scraped_count": 8, "downloader/exception_count": 1}"#,
    )
    .unwrap();
    assert_eq!(full, ScrapyStats { request_count: Some(10), response_count: Some(9), item_count: Some(8), error_count: Some(1) });
    // not an object: no counts
    assert_eq!(scrapy_stats_from_text("[1, 2]").unwrap().request_count, None);
}

#[test]
fn benchmark_scrapy_stats_refuse_bad_json() {
    let err = scrapy_stats_from_text("{not json").unwrap_err();
    let expected = serde_json::from_str::<serde_json::Value>("{not json").unwrap_err().to_string();
    assert_eq!(err, expected);
}

#[test]
fn scrapy_delay_seconds_match_float_display() {
    for ms in (0u64..20_000).chain([86_400_000, 123_456_789]) {
        assert_eq!(seconds_string(ms), format!("{}", ms as f64 / 1000.0), "{} ms", ms);
    }
}

fn edit_pairs(edits: &[TemplateEdit]) -> Vec<(String, String)> {
    edits.iter().map(|e| (e.from.clone(), e.to.clone())).collect()
}

#[test]
fn scrapy_settings_edits() {
    let s = TestScenario::new("t")
        .with_concurrent_requests(8)
        .with_download_delay(500)
        .with_user_agent("ua/1")
        .with_follow_redirects(false)
        .with_setting("LOG_LEVEL", "INFO")
        .with_setting("COOKIES_ENABLED", "False");
    let pairs = edit_pairs(&settings_edits(&s));
    let expected: Vec<(String, String)> = vec![
        ("ROBOTSTXT_OBEY = True", "ROBOTSTXT_OBEY = true"),
        ("CONCURRENT_REQUESTS = 16", "CONCURRENT_REQUESTS = 8"),
        ("DOWNLOAD_DELAY = 0.0", "DOWNLOAD_DELAY = 0.5"),
        ("USER_AGENT = 'scrapy-benchmark/1.0'", "USER_AGENT = 'ua/1'"),
        ("REDIRECT_ENABLED = True", "REDIRECT_ENABLED = false"),
        ("# other settings will be added at runtime", "LOG_LEVEL = 'INFO'\nCOOKIES_ENABLED = 'False'\n"),
    ]
    .into_iter()
    .map(|(a, b)| (a.to_string(), b.to_string()))
    .collect();
    assert_eq!(pairs, expected);
}

#[test]
fn scrapy_spider_and_pipeline_edits() {
    let s = TestScenario::new("t")
        .with_urls(vec!["https://a.com".to_string(), "https://b.com".to_string()])
        .with_page_limit(20)
        .with_max_depth(3);
    let with_urls = edit_pairs(&spider_edits(&s, true));
    assert_eq!(with_urls.len(), 3);
    assert_eq!(with_urls[0].1, "self.start_urls = ['https://a.com', 'https://b.com']");
    assert_eq!(with_urls[1], ("self.max_pages = 100".to_string(), "self.max_pages = 20".to_string()));
    assert_eq!(with_urls[2], ("self.max_depth = 2".to_string(), "self.max_depth = 3".to_string()));
    assert_eq!(edit_pairs(&spider_edits(&s, false)), with_urls[1..].to_vec());
    let e = start_urls_edit(&vec!["http://127.0.0.1:8000/0".to_string()]);
    assert_eq!(e.to, "self.start_urls = ['http://127.0.0.1:8000/0']");

    assert!(pipeline_edits(None, "t_scrapy").is_empty());
    let p = edit_pairs(&pipeline_edits(Some("/tmp/out"), "t_scrapy"));
    assert_eq!(p[0], ("self.output_dir = None".to_string(), "self.output_dir = '/tmp/out'".to_string()));
    assert_eq!(
        p[1],
        (
            "self.output_file = None".to_string(),
            "self.output_file = os.path.join(self.output_dir, 'items_t_scrapy.json')".to_string()
        )
    );
}
