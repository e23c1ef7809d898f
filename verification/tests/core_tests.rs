use scrapy_rs::item::DynamicItem;
use scrapy_rs::request::{MetaValue, Method, Request};
use scrapy_rs::response::{Response, ResponseMetaValue};
use scrapy_rs::spider::{BasicSpider, ParseOutput};
use scrapy_rs::strmap::StrMap;

#[test]
fn test_request_get() {
    let req = Request::get("https://example.com").unwrap();
    assert_eq!(req.url.as_str(), "https://example.com/");
    assert_eq!(req.method, Method::GET);
    assert!(req.body.is_none());
}

#[test]
fn test_request_post() {
    let body = "test body";
    let req = Request::post("https://example.com", body.as_bytes().to_vec()).unwrap();
    assert_eq!(req.url.as_str(), "https://example.com/");
    assert_eq!(req.method, Method::POST);
    assert_eq!(req.body.unwrap(), body.as_bytes());
}

#[test]
fn test_request_with_header() {
    let req = Request::get("https://example.com")
        .unwrap()
        .with_header("User-Agent", "scrapy-rs/0.1.0");

    assert_eq!(req.headers.get("User-Agent").unwrap(), "scrapy-rs/0.1.0");
}

#[test]
fn test_request_with_meta() {
    let req = Request::get("https://example.com")
        .unwrap()
        .with_meta("depth", MetaValue::Int(2));

    assert_eq!(req.meta.get("depth").unwrap(), &MetaValue::Int(2));
}

#[test]
fn test_request_with_cookies() {
    let req = Request::get("https://example.com")
        .unwrap()
        .with_cookie("session", "abc123");

    assert_eq!(req.cookies.get("session").unwrap(), "abc123");
}

#[test]
fn test_request_with_dont_filter() {
    let req = Request::get("https://example.com")
        .unwrap()
        .with_dont_filter(true);

    assert!(req.dont_filter);
}

#[test]
fn test_request_with_timeout() {
    // thirty seconds, in milliseconds
    let timeout = 30_000u64;
    let req = Request::get("https://example.com")
        .unwrap()
        .with_timeout(timeout);

    assert_eq!(req.timeout, Some(timeout));
}

#[test]
fn test_request_with_flags() {
    let req = Request::get("https://example.com")
        .unwrap()
        .with_flag("high-priority")
        .with_flag("no-cache");

    assert!(req.has_flag("high-priority"));
    assert!(req.has_flag("no-cache"));
    assert!(!req.has_flag("non-existent"));
}

#[test]
fn test_request_with_proxy() {
    let req = Request::get("https://example.com")
        .unwrap()
        .with_proxy("http://proxy.example.com:8080");

    assert_eq!(req.proxy.unwrap(), "http://proxy.example.com:8080");
}

#[test]
fn test_record_latency() {
    let mut req = Request::get("https://example.com").unwrap();
    let latency = 150u64;

    req.record_latency(latency);
    assert_eq!(req.download_latency, Some(latency));
}

#[test]
fn request_get_refuses_relative_url() {
    let r = Request::get("not a url");
    assert!(matches!(r, Err(scrapy_rs::error::Error::UrlParseError(_))));
}

#[test]
fn request_defaults() {
    let req = Request::get("https://example.com/a").unwrap();
    assert_eq!(req.priority, 0);
    assert!(req.follow_redirects);
    assert_eq!(req.max_redirects, 10);
    assert!(!req.dont_filter);
    assert_eq!(req.headers.len(), 0);
    assert_eq!(scrapy_rs::request::default_max_redirects(), 10);
    assert!(scrapy_rs::request::default_follow_redirects());
    assert!(!scrapy_rs::request::default_dont_filter());
}

#[test]
fn test_response_text() {
    let request = Request::get("https://example.com").unwrap();
    let body = "Hello, world!".as_bytes().to_vec();
    let response = Response::new(request, 200, StrMap::new(), body.clone());

    assert_eq!(response.text().unwrap(), "Hello, world!");
}

#[test]
fn response_text_refuses_invalid_utf8() {
    let request = Request::get("https://example.com").unwrap();
    let response = Response::new(request, 200, StrMap::new(), vec![0xff, 0xfe]);
    assert!(response.text().is_err());
}

#[test]
fn test_response_is_success() {
    let request = Request::get("https://example.com").unwrap();
    let response = Response::new(request.clone(), 200, StrMap::new(), Vec::new());
    assert!(response.is_success());

    let response = Response::new(request, 404, StrMap::new(), Vec::new());
    assert!(!response.is_success());
}

#[test]
fn test_response_redirect_url() {
    let request = Request::get("https://example.com").unwrap();
    let mut headers = StrMap::new();
    headers.insert("location".to_string(), "/new-page".to_string());

    let response = Response::new(request, 301, headers, Vec::new());

    assert!(response.is_redirect());
    let redirect_url = response.redirect_url().unwrap().unwrap();
    assert_eq!(redirect_url.as_str(), "https://example.com/new-page");
}

#[test]
fn test_response_with_flags() {
    let request = Request::get("https://example.com").unwrap();
    let response = Response::new(request, 200, StrMap::new(), Vec::new())
        .with_flag("cached")
        .with_flag("from-middleware");

    assert!(response.has_flag("cached"));
    assert!(response.has_flag("from-middleware"));
    assert!(!response.has_flag("non-existent"));
    assert_eq!(response.flags.len(), 2);
}

#[test]
fn test_response_copy_and_replace() {
    let request = Request::get("https://example.com").unwrap();
    let original = Response::new(request.clone(), 200, StrMap::new(), b"original".to_vec())
        .with_flag("original");

    // Test copy
    let copied = original.copy();
    assert_eq!(copied.url, original.url);
    assert_eq!(copied.status, original.status);
    assert_eq!(copied.body, original.body);
    assert_eq!(copied.flags, original.flags);

    // Test replace
    let replaced = original.replace(
        None,
        Some(404),
        None,
        Some(b"replaced".to_vec()),
        None,
        None,
        Some(vec!["replaced".to_string()]),
        None,
        None,
        None,
    );

    assert_eq!(replaced.url, original.url); // Same URL
    assert_eq!(replaced.status, 404); // Changed status
    assert_eq!(replaced.body, b"replaced"); // Changed body
    assert_eq!(replaced.flags, vec!["replaced"]); // Changed flags
}

#[test]
fn test_response_urljoin() {
    let request = Request::get("https://example.com/page").unwrap();
    let response = Response::new(request, 200, StrMap::new(), Vec::new());

    let absolute = response.urljoin("/absolute").unwrap();
    assert_eq!(absolute.as_str(), "https://example.com/absolute");

    let relative = response.urljoin("relative").unwrap();
    assert_eq!(relative.as_str(), "https://example.com/relative");

    let with_query = response.urljoin("?query=value").unwrap();
    assert_eq!(with_query.as_str(), "https://example.com/page?query=value");
}

#[test]
fn test_response_follow() {
    let mut request = Request::get("https://example.com").unwrap();
    request.meta.insert("depth".to_string(), MetaValue::Int(1));
    request.cookies.insert("session".to_string(), "abc123".to_string());

    let response = Response::new(request, 200, StrMap::new(), Vec::new());

    let followed = response.follow("/next-page").unwrap();

    assert_eq!(followed.url.as_str(), "https://example.com/next-page");
    assert_eq!(followed.meta.get("depth").unwrap(), &MetaValue::Int(2)); // Depth incremented
    assert_eq!(followed.cookies.get("session").unwrap(), "abc123"); // Cookies copied
}

#[test]
fn test_response_follow_all() {
    let request = Request::get("https://example.com").unwrap();
    let response = Response::new(request, 200, StrMap::new(), Vec::new());

    let urls = vec!["/page1".to_string(), "/page2".to_string(), "/page3".to_string()];
    let followed = response.follow_all(&urls).unwrap();

    assert_eq!(followed.len(), 3);
    assert_eq!(followed[0].url.as_str(), "https://example.com/page1");
    assert_eq!(followed[1].url.as_str(), "https://example.com/page2");
    assert_eq!(followed[2].url.as_str(), "https://example.com/page3");
}

#[test]
fn response_meta_keeps_requests() {
    let request = Request::get("https://example.com").unwrap();
    let mut response = Response::new(request.clone(), 500, StrMap::new(), Vec::new());
    response.meta.insert("retry_request".to_string(), ResponseMetaValue::Request(Box::new(request)));
    assert!(response.meta.contains_key("retry_request"));
}

#[test]
fn test_dynamic_item() {
    let mut item = DynamicItem::new("product");
    item.set("title", MetaValue::Text("Test Product".to_string()))
        .set("price", MetaValue::Json("19.99".to_string()))
        .set("tags", MetaValue::Json("[\"test\",\"product\"]".to_string()));

    assert_eq!(item.get("title").unwrap(), &MetaValue::Text("Test Product".to_string()));
    assert_eq!(item.get("price").unwrap(), &MetaValue::Json("19.99".to_string()));
    assert!(item.has_field("tags"));
    assert!(!item.has_field("description"));
}

#[test]
fn dynamic_item_object_has_its_type() {
    let mut item = DynamicItem::new("product");
    item.set("title", MetaValue::Text("x".to_string()));
    let object = item.as_object().unwrap();
    assert_eq!(object.get("_type").unwrap(), &MetaValue::Text("product".to_string()));
    assert_eq!(object.get("title").unwrap(), &MetaValue::Text("x".to_string()));
    assert_eq!(item.item_type(), "dynamic_item");
}

#[test]
fn parse_output_add_item_converts() {
    let mut output = ParseOutput::new();
    let mut item = DynamicItem::new("test");
    item.set("url", MetaValue::Text("https://example.com/".to_string()));
    output.add_item(item);
    output.add_request(Request::get("https://example.com/next").unwrap());
    assert_eq!(output.items.len(), 1);
    assert_eq!(output.requests.len(), 1);
    assert_eq!(output.items[0].item_type_name, "dynamic_item");
    assert_eq!(output.items[0].get("_type").unwrap(), &MetaValue::Text("test".to_string()));
    assert_eq!(output.requests[0].url.as_str(), "https://example.com/next");
    let single = ParseOutput::request(Request::get("https://example.com/x").unwrap());
    assert_eq!(single.requests.len(), 1);
    assert_eq!(single.items.len(), 0);
}

#[test]
fn test_basic_spider() {
    let spider = BasicSpider::new("basic_spider", vec!["https://example.com".to_string()])
        .with_allowed_domains(vec!["example.com".to_string()])
        .with_setting("download_delay", MetaValue::Int(2));

    assert_eq!(spider.name(), "basic_spider");
    assert_eq!(spider.allowed_domains(), vec!["example.com"]);
    assert_eq!(spider.start_urls(), vec!["https://example.com"]);
    assert_eq!(spider.settings().get("download_delay").unwrap(), &MetaValue::Int(2));
}

#[test]
fn basic_spider_start_requests() {
    let spider = BasicSpider::new(
        "s",
        vec!["https://example.com/a".to_string(), "bad url".to_string()],
    );
    let reqs = spider.start_requests();
    assert_eq!(reqs.len(), 2);
    assert_eq!(reqs[0].as_ref().unwrap().url.as_str(), "https://example.com/a");
    assert!(reqs[1].is_err());
}

#[test]
fn strmap_insert_remove_keeps_order() {
    let mut m: StrMap<String> = StrMap::new();
    m.insert("a".to_string(), "1".to_string());
    m.insert("b".to_string(), "2".to_string());
    m.insert("a".to_string(), "3".to_string());
    assert_eq!(m.len(), 2);
    assert_eq!(m.get("a").unwrap(), "3");
    assert_eq!(m.key_at(0), "a");
    assert_eq!(m.remove("a"), Some("3".to_string()));
    assert_eq!(m.remove("a"), None);
    assert_eq!(m.len(), 1);
    assert_eq!(m.key_at(0), "b");
}

#[test]
fn test_response_json() {
    let request = Request::get("https://example.com").unwrap();
    let body = r#"{"message": "Hello, world!"}"#.as_bytes().to_vec();
    let response = Response::new(request, 200, StrMap::new(), body);

    let json: serde_json::Value = response.json().unwrap();
    assert_eq!(json["message"], "Hello, world!");
}

#[test]
fn response_json_refusals() {
    let request = Request::get("https://example.com").unwrap();
    let not_json = Response::new(request.clone(), 200, StrMap::new(), b"not json".to_vec());
    assert!(matches!(not_json.json(), Err(scrapy_rs::error::Error::SerdeError(_))));
    let not_utf8 = Response::new(request, 200, StrMap::new(), vec![0xff, 0xfe]);
    assert!(matches!(not_utf8.json(), Err(scrapy_rs::error::Error::Parse { .. })));
}

#[test]
fn requests_equal_by_url_and_method() {
    let a = Request::get("https://example.com/x").unwrap();
    let b = Request::get("https://example.com/x").unwrap().with_header("Accept", "text/html");
    let c = Request::post("https://example.com/x", b"body".to_vec()).unwrap();
    let d = Request::get("https://example.com/y").unwrap();
    assert!(a == b);
    assert!(a != c);
    assert!(a != d);
}

#[test]
fn url_errors_carry_their_text() {
    let expected = url::Url::parse("not a url").unwrap_err().to_string();
    assert_eq!(expected, "relative URL without a base");
    match Request::get("not a url") {
        Err(scrapy_rs::error::Error::UrlParseError(e)) => {
            assert_eq!(e.text, expected);
            assert_eq!(e.error, url::ParseError::RelativeUrlWithoutBase);
        },
        other => panic!("unexpected {:?}", other),
    }
    let e = Request::get("http://[::1").unwrap_err();
    assert_eq!(e.describe(), format!("URL parse error: {}", url::Url::parse("http://[::1").unwrap_err()));
    match scrapy_rs::request_builder::request_from_parts("no scheme", None, StrMap::new(), None) {
        Err(scrapy_rs::request_builder::BuildError::Value(m)) => assert_eq!(m, "Invalid URL: relative URL without a base"),
        other => panic!("unexpected {:?}", other),
    }
}

#[test]
fn response_decoding_errors_say_why() {
    let request = Request::get("https://example.com").unwrap();
    let bad = vec![0x61, 0xff, 0xfe];
    let why = String::from_utf8(bad.clone()).unwrap_err().to_string();
    let response = Response::new(request.clone(), 200, StrMap::new(), bad);
    match response.text() {
        Err(scrapy_rs::error::Error::Parse { error: scrapy_rs::error::ResponseParseError::Other(m), .. }) => {
            assert_eq!(m, format!("Failed to decode UTF-8: {}", why))
        },
        other => panic!("unexpected {:?}", other),
    }
    let body = "{\"a\": ".to_string();
    let why = serde_json::from_str::<serde_json::Value>(&body).unwrap_err().to_string();
    let response = Response::new(request, 200, StrMap::new(), body.into_bytes());
    match response.json() {
        Err(scrapy_rs::error::Error::SerdeError(m)) => assert_eq!(m, why),
        other => panic!("unexpected {:?}", other),
    }
}
