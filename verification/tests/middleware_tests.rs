use scrapy_rs::error::Error;
use scrapy_rs::middleware::{
    DefaultHeadersMiddleware, LogLevel, MiddlewareChain, MiddlewarePriority, MiddlewareWrapper,
    RandomDelayMiddleware, RateLimitMiddleware, ResponseLoggerMiddleware, RetryMiddleware,
    UrlFilterMiddleware,
};
use scrapy_rs::pattern::Pattern;
use scrapy_rs::request::{MetaValue, Request};
use scrapy_rs::response::{Response, ResponseMetaValue};
use scrapy_rs::strmap::StrMap;

fn response_with_status(status: u16) -> Response {
    Response::new(Request::get("https://example.com").unwrap(), status, StrMap::new(), vec![])
}

#[test]
fn test_default_headers_middleware() {
    let mut headers = StrMap::new();
    headers.insert("X-Test".to_string(), "test".to_string());
    let middleware = DefaultHeadersMiddleware::new(headers);

    let request = Request::get("https://example.com").unwrap();
    let processed = middleware.process_request(request);

    assert_eq!(processed.headers.get("X-Test").unwrap(), "test");
}

#[test]
fn default_headers_common_and_override() {
    let middleware = DefaultHeadersMiddleware::common().with_header("Accept-Language", "fr");
    let request = Request::get("https://example.com")
        .unwrap()
        .with_header("Accept-Language", "de")
        .with_header("X-Own", "1");
    let processed = middleware.process_request(request);
    assert_eq!(processed.headers.get("User-Agent").unwrap(), "scrapy-rs/0.1.0");
    assert_eq!(processed.headers.get("Accept-Language").unwrap(), "fr");
    assert_eq!(processed.headers.get("X-Own").unwrap(), "1");
    assert_eq!(middleware.priority(), MiddlewarePriority::Normal);
    assert_eq!(middleware.name(), "DefaultHeadersMiddleware");
}

#[test]
fn test_url_filter_middleware() {
    let middleware = UrlFilterMiddleware::from_strings(
        vec!["https://example.com/.*"],
        vec!["https://example.com/forbidden"],
    )
    .unwrap();

    let request = Request::get("https://example.com/allowed").unwrap();
    assert!(middleware.process_request(request).is_ok());

    let request = Request::get("https://example.com/forbidden").unwrap();
    let result = middleware.process_request(request);
    match result {
        Err(Error::Middleware { message, .. }) => assert_eq!(
            message,
            "URL https://example.com/forbidden matched denied pattern https://example.com/forbidden"
        ),
        _ => panic!("expected a middleware error"),
    }
}

#[test]
fn url_filter_needs_an_allowed_match() {
    let middleware = UrlFilterMiddleware::from_strings(vec!["^https://a\\.com/"], vec![]).unwrap();
    let request = Request::get("https://b.com/x").unwrap();
    match middleware.process_request(request) {
        Err(Error::Middleware { message, .. }) => {
            assert_eq!(message, "URL https://b.com/x did not match any allowed pattern")
        }
        _ => panic!("expected a middleware error"),
    }
    let none = UrlFilterMiddleware::from_strings(vec![], vec![]).unwrap();
    assert!(none.process_request(Request::get("https://b.com/x").unwrap()).is_ok());
}

#[test]
fn url_filter_refuses_bad_pattern() {
    match UrlFilterMiddleware::from_strings(vec!["("], vec![]) {
        Err(Error::Middleware { message, .. }) => assert!(message.starts_with("Invalid regex: ")),
        _ => panic!("expected a middleware error"),
    }
    let p = Pattern::new("ab+c").unwrap();
    assert_eq!(p.as_str(), "ab+c");
    assert!(p.is_match("xxabbbcyy"));
    assert!(!p.is_match("ac"));
}

#[test]
fn test_response_logger_middleware() {
    let middleware = ResponseLoggerMiddleware::info();
    let processed = middleware.process_response(response_with_status(200));
    assert_eq!(processed.status, 200);
    assert_eq!(middleware.level, LogLevel::Info);
    assert_eq!(ResponseLoggerMiddleware::debug().level, LogLevel::Debug);
}

#[test]
fn test_retry_middleware() {
    let middleware = RetryMiddleware::new(vec![500], 3, 100);
    let response = response_with_status(500);

    let processed = middleware.process_response(response.clone());
    assert!(processed.meta.contains_key("retry_request"));

    let mut with_count = response.clone();
    with_count
        .meta
        .insert("retry_count".to_string(), ResponseMetaValue::Value(MetaValue::Int(1)));
    let processed = middleware.process_response(with_count);
    assert!(processed.meta.contains_key("retry_request"));

    let mut at_max = response.clone();
    at_max
        .meta
        .insert("retry_count".to_string(), ResponseMetaValue::Value(MetaValue::Int(3)));
    let processed = middleware.process_response(at_max);
    assert!(!processed.meta.contains_key("retry_request"));

    let ok = middleware.process_response(response_with_status(200));
    assert!(!ok.meta.contains_key("retry_request"));
    assert_eq!(middleware.retry_delay_ms(), 100);
}

#[test]
fn retry_middleware_common_settings() {
    let m = RetryMiddleware::common();
    for status in [500u16, 502, 503, 504, 408, 429] {
        assert!(m.should_retry(&response_with_status(status)));
    }
    assert!(!m.should_retry(&response_with_status(404)));
    assert_eq!(m.retry_delay_ms(), 1000);
}

fn named(p: MiddlewarePriority, name: &str) -> MiddlewareWrapper<String> {
    MiddlewareWrapper { middleware: name.to_string(), priority: p, name: name.to_string() }
}

#[test]
fn new_tests_test_middleware_priority() {
    let mut chain: MiddlewareChain<String> = MiddlewareChain::new(vec![]);
    chain.add(named(MiddlewarePriority::Low, "low"));
    chain.add(named(MiddlewarePriority::Normal, "normal"));
    chain.add(named(MiddlewarePriority::High, "high"));

    let middlewares = chain.get_middlewares();
    assert_eq!(middlewares[0].priority, MiddlewarePriority::High);
    assert_eq!(middlewares[1].priority, MiddlewarePriority::Normal);
    assert_eq!(middlewares[2].priority, MiddlewarePriority::Low);
}

#[test]
fn new_tests_test_middleware_chain_execution_order() {
    let mut chain: MiddlewareChain<String> = MiddlewareChain::new(vec![]);
    chain.add(named(MiddlewarePriority::Normal, "normal"));
    chain.add(named(MiddlewarePriority::Low, "low"));
    chain.add(named(MiddlewarePriority::High, "high"));
    let order: Vec<String> = chain.middlewares().iter().map(|w| w.middleware.clone()).collect();
    assert_eq!(order, vec!["high", "normal", "low"]);
}

#[test]
fn chain_sort_is_stable() {
    let mut chain: MiddlewareChain<String> = MiddlewareChain::new(vec![
        named(MiddlewarePriority::Normal, "n1"),
        named(MiddlewarePriority::Highest, "h1"),
        named(MiddlewarePriority::Normal, "n2"),
        named(MiddlewarePriority::Lowest, "l1"),
        named(MiddlewarePriority::Highest, "h2"),
    ]);
    assert!(chain.is_sorted());
    let order: Vec<String> = chain.middlewares().iter().map(|w| w.name.clone()).collect();
    assert_eq!(order, vec!["h1", "h2", "n1", "n2", "l1"]);
    chain.ensure_sorted();
    let again: Vec<String> = chain.middlewares().iter().map(|w| w.name.clone()).collect();
    assert_eq!(again, order);
    assert_eq!(chain.len(), 5);
}

#[test]
fn new_chain_runs_higher_priority_first() {
    let chain: MiddlewareChain<String> = MiddlewareChain::new(vec![
        named(MiddlewarePriority::Low, "low"),
        named(MiddlewarePriority::High, "high"),
    ]);
    let order: Vec<&str> = chain.middlewares().iter().map(|w| w.name.as_str()).collect();
    assert_eq!(order, vec!["high", "low"]);
}

#[test]
fn priority_values() {
    assert_eq!(MiddlewarePriority::Highest.value(), 1000);
    assert_eq!(MiddlewarePriority::High.value(), 800);
    assert_eq!(MiddlewarePriority::Normal.value(), 500);
    assert_eq!(MiddlewarePriority::Low.value(), 200);
    assert_eq!(MiddlewarePriority::Lowest.value(), 0);
    assert_eq!(MiddlewarePriority::default(), MiddlewarePriority::Normal);
    assert!(MiddlewarePriority::Highest > MiddlewarePriority::Low);
    let w = MiddlewareWrapper::new(7u8);
    assert_eq!(w.priority, MiddlewarePriority::Normal);
    assert_eq!(w.name, "Unknown");
}

#[test]
fn new_tests_test_rate_limit_middleware() {
    // three requests per second
    let mut rate_limit = RateLimitMiddleware::new(3, 1);
    for _ in 0..3 {
        assert_eq!(rate_limit.acquire(10_000), None);
    }
    // the fourth waits until the oldest leaves the window
    assert_eq!(rate_limit.acquire(10_100), Some(900));
    // a second later the window has room again
    assert_eq!(rate_limit.acquire(11_200), None);
    assert_eq!(rate_limit.priority(), MiddlewarePriority::High);
}

#[test]
fn random_delay_stays_in_range() {
    let m = RandomDelayMiddleware::new(100, 200);
    for _ in 0..50 {
        let d = m.next_delay();
        assert!((100..=200).contains(&d));
    }
    assert_eq!(m.delay_for(25), 125);
    let fixed = RandomDelayMiddleware::new(7, 7);
    assert_eq!(fixed.next_delay(), 7);
}

#[test]
fn sorted_chain_is_kept() {
    let mut chain: MiddlewareChain<String> = MiddlewareChain::new(vec![
        named(MiddlewarePriority::High, "a"),
        named(MiddlewarePriority::High, "b"),
        named(MiddlewarePriority::Lowest, "c"),
    ]);
    chain.ensure_sorted();
    let order: Vec<&str> = chain.middlewares().iter().map(|w| w.name.as_str()).collect();
    assert_eq!(order, vec!["a", "b", "c"]);
}

#[test]
fn wrappers_order_by_priority_highest_first() {
    let wrap = |p: MiddlewarePriority, m: u8| MiddlewareWrapper { middleware: m, priority: p, name: "w".to_string() };
    let high = wrap(MiddlewarePriority::High, 1);
    let low = wrap(MiddlewarePriority::Low, 2);
    let other_high = wrap(MiddlewarePriority::High, 3);
    assert_eq!(high.partial_cmp(&low), Some(std::cmp::Ordering::Less));
    assert_eq!(low.partial_cmp(&high), Some(std::cmp::Ordering::Greater));
    assert!(high == other_high);
    assert!(high != low);
    let mut v = vec![wrap(MiddlewarePriority::Lowest, 0), wrap(MiddlewarePriority::Highest, 1), wrap(MiddlewarePriority::Normal, 2)];
    v.sort_by(|a, b| a.partial_cmp(b).unwrap());
    let order: Vec<u8> = v.iter().map(|w| w.middleware).collect();
    assert_eq!(order, vec![1, 2, 0]);
}

fn wrapped(m: DefaultHeadersMiddleware) -> MiddlewareWrapper<DefaultHeadersMiddleware> {
    MiddlewareWrapper { priority: m.priority(), name: m.name().to_string(), middleware: m }
}

fn run_chain(chain: &MiddlewareChain<DefaultHeadersMiddleware>, request: Request) -> Request {
    let mut request = request;
    for w in chain.middlewares() {
        request = w.middleware.process_request(request);
    }
    request
}

#[test]
fn test_chained_middleware() {
    let mut chained: MiddlewareChain<DefaultHeadersMiddleware> = MiddlewareChain::new(Vec::new());
    let mut headers = StrMap::new();
    headers.insert("X-Test".to_string(), "test".to_string());
    chained.add(wrapped(DefaultHeadersMiddleware::new(headers)));

    let request = Request::get("https://example.com").unwrap();
    let processed = run_chain(&chained, request);
    assert_eq!(processed.headers.get("X-Test").unwrap(), "test");
}

#[test]
fn middleware_tests_test_middleware_priority() {
    let high = DefaultHeadersMiddleware::new(StrMap::new()).with_priority(MiddlewarePriority::High);
    let normal = DefaultHeadersMiddleware::new(StrMap::new());
    let low = DefaultHeadersMiddleware::new(StrMap::new()).with_priority(MiddlewarePriority::Low);

    // Added in reverse order; the chain keeps them sorted by priority.
    let mut chain: MiddlewareChain<DefaultHeadersMiddleware> = MiddlewareChain::new(vec![]);
    chain.add(wrapped(low));
    chain.add(wrapped(normal));
    chain.add(wrapped(high));

    let request = Request::get("https://example.com").unwrap();
    let _ = run_chain(&chain, request);
    let priorities: Vec<MiddlewarePriority> = chain.middlewares().iter().map(|w| w.priority).collect();
    assert_eq!(priorities, vec![MiddlewarePriority::High, MiddlewarePriority::Normal, MiddlewarePriority::Low]);
}

#[test]
fn middleware_tests_test_rate_limit_middleware() {
    // Three requests per second, on a clock in milliseconds.
    let mut rate_limit = RateLimitMiddleware::new(3, 1);
    let start = 50_000;
    for i in 0..3 {
        // The first three pass through at once.
        assert_eq!(rate_limit.acquire(start + i), None);
    }
    // The fourth waits for close to the whole window.
    let wait = rate_limit.acquire(start + 3).unwrap();
    assert!(wait > 900);
}

#[test]
fn middleware_tests_test_middleware_chain_execution_order() {
    let mut chain: MiddlewareChain<String> = MiddlewareChain::new(vec![]);
    chain.add(named(MiddlewarePriority::Normal, "normal"));
    chain.add(named(MiddlewarePriority::Low, "low"));
    chain.add(named(MiddlewarePriority::High, "high"));
    let mut order: Vec<String> = Vec::new();
    for w in chain.middlewares() {
        order.push(w.middleware.clone());
    }
    assert_eq!(order, vec!["high", "normal", "low"]);
}

#[test]
fn invalid_patterns_say_why() {
    let why = regex::Regex::new("(").unwrap_err().to_string();
    match Pattern::new("(") {
        Err(Error::Middleware { message, .. }) => assert_eq!(message, format!("Invalid regex: {}", why)),
        other => panic!("unexpected {:?}", other.map(|p| p.as_str().to_string())),
    }
    // The allowed patterns are compiled first: the first that fails is reported.
    let why_bracket = regex::Regex::new("[").unwrap_err().to_string();
    match UrlFilterMiddleware::from_strings(vec!["ok", "[", "("], vec!["("]) {
        Err(Error::Middleware { message, .. }) => assert_eq!(message, format!("Invalid regex: {}", why_bracket)),
        _ => panic!("expected a middleware error"),
    }
    match UrlFilterMiddleware::from_strings(vec!["ok"], vec!["fine", "("]) {
        Err(Error::Middleware { message, .. }) => assert_eq!(message, format!("Invalid regex: {}", why)),
        _ => panic!("expected a middleware error"),
    }
}
