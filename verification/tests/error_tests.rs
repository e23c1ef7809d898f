use scrapy_rs::engine_core::{directive_for, reported_error, ErrorSite, LoopDirective};
use scrapy_rs::error::{Error, ErrorContext, HttpError, NetworkError, ResponseParseError};
use scrapy_rs::error_handler::{
    AbortOnErrorCallback, DefaultErrorHandler, ErrorAction, ErrorManager, ErrorStats,
    HandlerOutcome, IgnoreErrorCallback, LogErrorCallback,
};
use scrapy_rs::request::{MetaValue, Request};

fn server_error_at(url: &str) -> Error {
    Error::http(HttpError::ServerError { status: 503, message: "busy".to_string() })
        .with_url(url.to_string())
}

#[test]
fn error_context_builders() {
    let c = ErrorContext::new()
        .with_url("https://example.com/x".to_string())
        .with_status_code(404)
        .with_request_id("r1".to_string())
        .with_spider_name("s".to_string())
        .with_component("downloader".to_string())
        .with_metadata("k".to_string(), "v".to_string());
    assert_eq!(c.url.as_deref(), Some("https://example.com/x"));
    assert_eq!(c.status_code, Some(404));
    assert_eq!(c.request_id.as_deref(), Some("r1"));
    assert_eq!(c.spider_name.as_deref(), Some("s"));
    assert_eq!(c.component.as_deref(), Some("downloader"));
    assert_eq!(c.metadata.get("k").unwrap(), "v");
}

#[test]
fn error_context_text() {
    let fresh = ErrorContext::new();
    assert!(fresh.timestamp.is_some());
    assert_eq!(fresh.describe(), "");
    let c = ErrorContext::new().with_status_code(404).with_component("downloader".to_string());
    assert_eq!(c.describe(), "status=404, component=downloader");
    let stamp = c.timestamp;
    let c = c.with_metadata("b".to_string(), "2".to_string()).with_metadata("a".to_string(), "1".to_string());
    assert_eq!(c.timestamp, stamp);
    assert_eq!(c.describe(), "status=404, component=downloader, b=2, a=1");
}

#[test]
fn error_retryable_kinds() {
    assert!(Error::network(NetworkError::Timeout(1000)).is_retryable());
    assert!(Error::network(NetworkError::ConnectionRefused).is_retryable());
    assert!(!Error::network(NetworkError::SslError("x".to_string())).is_retryable());
    assert!(server_error_at("https://a.com").is_retryable());
    assert!(!Error::http(HttpError::ClientError { status: 404, message: String::new() }).is_retryable());
    assert!(!Error::other("x".to_string()).is_retryable());
    let limited = Error::http(HttpError::RateLimited {
        status: 429,
        message: "slow".to_string(),
        retry_after: Some(7000),
    });
    assert!(limited.is_retryable());
    assert_eq!(limited.retry_delay(), Some(7000));
    assert_eq!(Error::network(NetworkError::Timeout(5)).kind_name(), "network");
}

#[test]
fn error_describe_texts() {
    let e = Error::network(NetworkError::Timeout(1500));
    assert!(e.describe().starts_with("Network error: "));
    let h = Error::http(HttpError::ClientError { status: 404, message: "Not Found".to_string() });
    assert!(h.describe().starts_with("HTTP error: Client error: 404 Not Found"));
}

#[test]
fn handler_retries_with_backoff() {
    let handler = DefaultErrorHandler::new();
    let error = server_error_at("https://example.com/page");
    match handler.handle_error(&error) {
        HandlerOutcome::Act(ErrorAction::Retry { request, delay, .. }) => {
            assert_eq!(request.url.as_str(), "https://example.com/page");
            assert_eq!(request.meta.get("retry_count").unwrap(), &MetaValue::Int(1));
            // a server error brings its own delay of five seconds
            assert_eq!(delay, Some(5000));
        }
        _ => panic!("expected a retry"),
    }
}

#[test]
fn handler_backoff_grows_and_caps() {
    let handler = DefaultErrorHandler::new()
        .with_max_retries(10)
        .with_base_delay(2)
        .with_max_delay(5)
        .with_retry_parse_errors(true);
    let parse_error = || {
        Error::parse(ResponseParseError::HtmlError("bad".to_string()))
            .with_url("https://example.com/page".to_string())
    };
    match handler.handle_error(&parse_error()) {
        // no delay of its own: the base delay, 2 * 2^0 seconds
        HandlerOutcome::Act(ErrorAction::Retry { delay, .. }) => assert_eq!(delay, Some(2000)),
        _ => panic!("expected a retry"),
    }
    let error = parse_error().with_metadata("retry_count".to_string(), "2".to_string());
    match handler.handle_error(&error) {
        // 2 * 2^2 = 8 seconds, capped at 5
        HandlerOutcome::Act(ErrorAction::Retry { delay, request, .. }) => {
            assert_eq!(delay, Some(5000));
            assert_eq!(request.meta.get("retry_count").unwrap(), &MetaValue::Int(3));
        }
        _ => panic!("expected a retry"),
    }
}

#[test]
fn handler_backoff_with_large_settings() {
    // many retries and an unbounded maximum delay: only the count reached matters
    let handler = DefaultErrorHandler::new()
        .with_max_retries(100)
        .with_max_delay(u64::MAX)
        .with_retry_parse_errors(true);
    let parse_error = |count: &str| {
        Error::parse(ResponseParseError::HtmlError("bad".to_string()))
            .with_url("https://example.com/page".to_string())
            .with_metadata("retry_count".to_string(), count.to_string())
    };
    let error = parse_error("10");
    assert!(handler.backoff_defined(&error));
    match handler.handle_error(&error) {
        // 1 * 2^10 seconds, below the maximum
        HandlerOutcome::Act(ErrorAction::Retry { delay, .. }) => assert_eq!(delay, Some(1_024_000)),
        _ => panic!("expected a retry"),
    }
    let error = parse_error("63");
    assert!(handler.backoff_defined(&error));
    match handler.handle_error(&error) {
        // 2^63 seconds, exactly, in milliseconds
        HandlerOutcome::Act(ErrorAction::Retry { delay, .. }) => {
            assert_eq!(delay, Some((1u128 << 63) * 1000));
            let action = ErrorAction::Retry {
                request: Request::get("https://example.com/page").unwrap(),
                delay,
                reason: "r".to_string(),
            };
            let expected = format!("Retry https://example.com/page after {:?}: r", Some(std::time::Duration::from_secs(1u64 << 63)));
            assert_eq!(action.describe(), expected);
        }
        _ => panic!("expected a retry"),
    }
    // 2^64 overflows
    assert!(!handler.backoff_defined(&parse_error("64")));
    // an error with a delay of its own needs no backoff
    let server = server_error_at("https://example.com/").with_metadata("retry_count".to_string(), "70".to_string());
    assert!(handler.backoff_defined(&server));
}

#[test]
fn handler_skips_without_request_or_after_max() {
    let handler = DefaultErrorHandler::new();
    match handler.handle_error(&Error::other("boom".to_string())) {
        HandlerOutcome::Act(ErrorAction::Skip { reason }) => assert_eq!(reason, "No request to retry"),
        _ => panic!("expected a skip"),
    }
    let error = server_error_at("https://example.com/").with_metadata("retry_count".to_string(), "3".to_string());
    match handler.handle_error(&error) {
        HandlerOutcome::Act(ErrorAction::Skip { reason }) => assert_eq!(reason, "Maximum retries (3) reached"),
        _ => panic!("expected a skip"),
    }
    let custom = DefaultErrorHandler::new().with_custom_handler("http");
    match custom.handle_error(&server_error_at("https://example.com/")) {
        HandlerOutcome::Delegate(kind) => assert_eq!(kind, "http"),
        _ => panic!("expected a delegation"),
    }
}

#[test]
fn error_stats_record_and_merge() {
    let mut a = ErrorStats::new();
    a.record_error(&server_error_at("https://a.example.com/x"));
    a.record_error(&Error::network(NetworkError::Timeout(1)));
    a.record_action(&ErrorAction::Ignore);
    assert_eq!(a.total_errors, 2);
    assert_eq!(a.http_errors, 1);
    assert_eq!(a.network_errors, 1);
    assert_eq!(a.ignored, 1);
    assert_eq!(a.errors_by_status.get(&503), 1);
    assert_eq!(a.errors_by_domain.get(&"a.example.com".to_string()), 1);

    let mut b = ErrorStats::new();
    b.record_error(&server_error_at("https://a.example.com/y"));
    a.merge(&b);
    assert_eq!(a.total_errors, 3);
    assert_eq!(a.errors_by_status.get(&503), 2);
    assert_eq!(a.errors_by_domain.get(&"a.example.com".to_string()), 2);
    assert_eq!(
        a.total_errors,
        a.network_errors + a.http_errors + a.parse_errors + a.item_errors + a.scheduler_errors
            + a.middleware_errors + a.other_errors
    );
}

#[test]
fn error_manager_counts_errors_and_actions() {
    let mut manager = ErrorManager::default();
    let outcome = manager.handle_error(&server_error_at("https://example.com/"));
    assert!(matches!(outcome, HandlerOutcome::Act(ErrorAction::Retry { .. })));
    assert_eq!(manager.stats().total_errors, 1);
    assert_eq!(manager.stats().retries, 1);
    manager.handle_error(&Error::other("x".to_string()));
    assert_eq!(manager.stats().skips, 1);
    manager.record_action(&ErrorAction::Abort { reason: "r".to_string() });
    assert_eq!(manager.stats().aborts, 1);
}

#[test]
fn error_callbacks() {
    let e = Error::other("x".to_string());
    assert!(LogErrorCallback.on_error(&e, None).is_ok());
    assert!(IgnoreErrorCallback.on_error(&e, None).is_ok());
    match AbortOnErrorCallback.on_error(&e, None) {
        Err(Error::Other { message, .. }) => assert_eq!(message, "Aborting crawl due to error"),
        _ => panic!("expected an abort"),
    }
}

#[test]
fn engine_reports_pipeline_errors() {
    let cause = Error::item("bad".to_string());
    let e = reported_error(ErrorSite::Pipeline, cause, "", "spider1");
    match e {
        Error::Other { message, context } => {
            assert!(message.starts_with("Error processing item: "));
            assert_eq!(context.component.as_deref(), Some("pipeline"));
            assert_eq!(context.spider_name.as_deref(), Some("spider1"));
        }
        _ => panic!("expected an other error"),
    }
}

#[test]
fn engine_directive_for_abort() {
    let d = directive_for(ErrorSite::StartRequests, Ok(ErrorAction::Abort { reason: "stop".to_string() }));
    match d {
        LoopDirective::Fail { reason } => assert_eq!(reason, "Aborted: stop"),
        _ => panic!("expected a failure"),
    }
}

#[test]
fn error_stats_merge_commutes() {
    let mut a = ErrorStats::new();
    a.record_error(&server_error_at("https://a.com/"));
    a.record_action(&ErrorAction::Skip { reason: "s".to_string() });
    let mut b = ErrorStats::new();
    b.record_error(&server_error_at("https://b.com/"));
    b.record_error(&Error::item("i".to_string()));
    let mut ab = ErrorStats::new();
    ab.merge(&a);
    ab.merge(&b);
    let mut ba = ErrorStats::new();
    ba.merge(&b);
    ba.merge(&a);
    assert_eq!(ab.total_errors, ba.total_errors);
    assert_eq!(ab.total_errors, 3);
    assert_eq!(ab.item_errors, ba.item_errors);
    assert_eq!(ab.skips, ba.skips);
    assert_eq!(ab.errors_by_status.get(&503), ba.errors_by_status.get(&503));
    assert_eq!(ab.errors_by_domain.get(&"b.com".to_string()), 1);
    let zero = ErrorStats::new();
    let before = ab.total_errors;
    ab.merge(&zero);
    assert_eq!(ab.total_errors, before);
}

#[test]
fn error_context_mut_edits_in_place() {
    let mut e = Error::item("bad item".to_string());
    if let Some(c) = e.context_mut() {
        c.status_code = Some(500);
        c.component = Some("pipeline".to_string());
    }
    let c = e.context().unwrap();
    assert_eq!(c.status_code, Some(500));
    assert_eq!(c.component.as_deref(), Some("pipeline"));
    assert!(matches!(e, Error::Item { ref message, .. } if message == "bad item"));

    let mut io = Error::IoError("disk".to_string());
    assert!(io.context_mut().is_none());
}

#[test]
fn error_action_descriptions() {
    assert_eq!(ErrorAction::Ignore.describe(), "Ignore");
    assert_eq!(ErrorAction::Abort { reason: "stop".to_string() }.describe(), "Abort: stop");
    assert_eq!(ErrorAction::Skip { reason: "bad".to_string() }.describe(), "Skip: bad");
    let request = Request::get("https://example.com/a").unwrap();
    let none = ErrorAction::Retry { request: request.clone(), delay: None, reason: "why".to_string() };
    assert_eq!(none.describe(), "Retry https://example.com/a after None: why");
    for ms in (0u64..5_000).chain([59_999, 60_000, 3_600_000, u64::MAX]) {
        let action = ErrorAction::Retry { request: request.clone(), delay: Some(ms as u128), reason: "why".to_string() };
        let expected = format!(
            "Retry {} after {:?}: {}",
            "https://example.com/a",
            Some(std::time::Duration::from_millis(ms)),
            "why"
        );
        assert_eq!(action.describe(), expected, "{} ms", ms);
    }
}

#[test]
fn error_duration_texts_match_debug() {
    for ms in [0u64, 1, 999, 1000, 1500, 5000, 61_234] {
        let e = NetworkError::Timeout(ms);
        assert_eq!(e.describe(), format!("Request timeout after {:?}", std::time::Duration::from_millis(ms)));
        let limited = HttpError::RateLimited { status: 429, message: "slow".to_string(), retry_after: Some(ms) };
        assert_eq!(
            limited.describe(),
            format!("Rate limited: 429 slow, retry after {:?}", Some(std::time::Duration::from_millis(ms)))
        );
    }
    let none = HttpError::RateLimited { status: 429, message: "slow".to_string(), retry_after: None };
    assert_eq!(none.describe(), "Rate limited: 429 slow, retry after None");
}

#[test]
fn handler_reads_retry_count_as_u32() {
    let handler = DefaultErrorHandler::new().with_max_retries(10);
    let count_after = |text: &str| {
        let error = server_error_at("https://example.com/").with_metadata("retry_count".to_string(), text.to_string());
        match handler.handle_error(&error) {
            HandlerOutcome::Act(ErrorAction::Retry { request, .. }) => request.meta.get("retry_count").cloned(),
            _ => panic!("expected a retry"),
        }
    };
    assert_eq!(count_after("+4"), Some(MetaValue::Int(5)));
    assert_eq!(count_after("007"), Some(MetaValue::Int(8)));
    // not a u32: the count starts again
    assert_eq!(count_after("x1"), Some(MetaValue::Int(1)));
    assert_eq!(count_after("-1"), Some(MetaValue::Int(1)));
    assert_eq!(count_after("+"), Some(MetaValue::Int(1)));
    assert_eq!(count_after("4294967296"), Some(MetaValue::Int(1)));
    assert_eq!(count_after(""), Some(MetaValue::Int(1)));
}
