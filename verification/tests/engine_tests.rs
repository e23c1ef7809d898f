use scrapy_rs::config::{CrawlStrategy, EngineConfig, SchedulerType};
use scrapy_rs::downloader::{download_error, DownloadStage, DownloaderConfig};
use scrapy_rs::engine_core::{CrawlCore, CrawlEvent};
use scrapy_rs::error::{Error, HttpError, NetworkError};
use scrapy_rs::request::Request;
use scrapy_rs::resource::limits_exceeded;
use scrapy_rs::slot::{create_request_id, Slot, SlotManager, MIN_RESPONSE_SIZE};
use scrapy_rs::stats::{state_error, EngineStats, StateStep};
use scrapy_rs::mock::{FailingDownloader, MockDownloader};
use scrapy_rs::response::Response;
use scrapy_rs::strmap::StrMap;
use scrapy_rs::utils::{create_scheduler, extract_domain, format_duration, SchedulerPlan};

#[test]
fn test_slot_basic() {
    let mut slot: Slot<()> = Slot::new("test".to_string(), 10000, 100);

    assert_eq!(slot.name(), "test");
    assert_eq!(slot.queue_length(), 0);
    assert_eq!(slot.active_count(), 0);
    assert!(slot.is_idle());

    let request = Request::get("https://example.com").unwrap();
    slot.add_request(request.clone(), ());

    assert_eq!(slot.queue_length(), 1);
    assert!(!slot.is_idle());

    let next = slot.next_request(0, None);
    assert!(next.is_some());

    assert_eq!(slot.active_count(), 1);
    assert_eq!(slot.queue_length(), 0);

    let request_id = create_request_id(&request);
    slot.finish_request(&request_id, Some(2000));

    assert_eq!(slot.active_count(), 0);
    assert!(slot.is_idle());
}

#[test]
fn slot_test_slot_delay() {
    let mut slot: Slot<()> = Slot::new("test".to_string(), 10000, 100);
    slot.add_request(Request::get("https://example.com/1").unwrap(), ());
    slot.add_request(Request::get("https://example.com/2").unwrap(), ());

    // The first request needs no wait.
    assert_eq!(slot.wait_before_next(1_000), 0);
    assert!(slot.next_request(1_000, None).is_some());

    // The second must wait out the delay since the first.
    assert_eq!(slot.wait_before_next(1_000), 100);
    assert_eq!(slot.wait_before_next(1_040), 60);
    assert_eq!(slot.wait_before_next(1_100), 0);
    assert!(slot.next_request(1_100, None).is_some());
}

#[test]
fn slot_test_test_slot_delay() {
    // A slot with a 100 ms delay, on a clock in milliseconds.
    let mut slot: Slot<()> = Slot::new("test-domain.com".to_string(), 5000, 100);
    slot.add_request(Request::get("https://test-domain.com/path1").unwrap(), ());
    slot.add_request(Request::get("https://test-domain.com/path2").unwrap(), ());

    // The first request comes at once.
    let start = 7_000;
    let waited1 = slot.wait_before_next(start);
    assert!(waited1 < 50);
    assert!(slot.next_request(start + waited1, None).is_some());

    // The second is held back by the delay.
    let waited2 = slot.wait_before_next(start + waited1);
    assert!(waited2 >= 100);
    assert!(slot.next_request(start + waited1 + waited2, None).is_some());
}

#[test]
fn test_slot_throttle() {
    let mut slot: Slot<()> = Slot::new("test".to_string(), 2000, 0);
    let request = Request::get("https://example.com").unwrap();
    slot.add_request(request.clone(), ());
    assert!(slot.next_request(0, None).is_some());

    let request_id = create_request_id(&request);
    slot.finish_request(&request_id, Some(3000));

    assert!(slot.needs_throttle());
    assert_eq!(slot.active_size(), 3000);
}

#[test]
fn test_slot_with_scheduler() {
    let mut slot: Slot<u32> = Slot::with_scheduler("test-domain.com".to_string(), 10000, 0);

    let low_priority = Request::get("https://test-domain.com/low").unwrap().with_priority(1);
    let high_priority = Request::get("https://test-domain.com/high").unwrap().with_priority(10);

    slot.add_request(low_priority.clone(), 1);
    slot.add_request(high_priority.clone(), 2);

    // The scheduler names the high-priority request first.
    let (req, token) = slot.next_request(0, Some(&high_priority)).unwrap();
    assert!(req.url.as_str().contains("/high"));
    assert_eq!(req.priority, 10);
    assert_eq!(token, 2);

    let (req, token) = slot.next_request(0, Some(&low_priority)).unwrap();
    assert!(req.url.as_str().contains("/low"));
    assert_eq!(req.priority, 1);
    assert_eq!(token, 1);

    assert!(slot.next_request(0, None).is_none());
}

#[test]
fn slot_takes_front_when_scheduler_names_unknown() {
    let mut slot: Slot<u32> = Slot::with_scheduler("d".to_string(), 10000, 0);
    slot.add_request(Request::get("https://d.com/a").unwrap(), 1);
    slot.add_request(Request::get("https://d.com/b").unwrap(), 2);
    let other = Request::get("https://d.com/zzz").unwrap();
    let (_, token) = slot.next_request(0, Some(&other)).unwrap();
    assert_eq!(token, 1);
}

#[test]
fn test_slot_basic_operations() {
    let mut slot: Slot<()> = Slot::new("test-domain.com".to_string(), 5000, 0);

    assert_eq!(slot.name(), "test-domain.com");
    assert!(slot.is_idle());
    assert_eq!(slot.active_count(), 0);
    assert_eq!(slot.queue_length(), 0);

    let request1 = Request::get("https://test-domain.com/path1").unwrap();
    let request2 = Request::get("https://test-domain.com/path2").unwrap();

    slot.add_request(request1.clone(), ());
    slot.add_request(request2.clone(), ());

    assert_eq!(slot.queue_length(), 2);
    assert!(!slot.is_idle());

    let next = slot.next_request(0, None);
    assert!(next.is_some());

    assert_eq!(slot.queue_length(), 1);
    assert_eq!(slot.active_count(), 1);

    let (request, _) = next.unwrap();
    let request_id = create_request_id(&request);
    slot.finish_request(&request_id, Some(1500));

    assert_eq!(slot.active_count(), 0);
    assert_eq!(slot.queue_length(), 1);
    assert!(!slot.is_idle());

    let next = slot.next_request(0, None);
    assert!(next.is_some());

    assert_eq!(slot.queue_length(), 0);
    assert_eq!(slot.active_count(), 1);

    let (request, _) = next.unwrap();
    let request_id = create_request_id(&request);
    slot.finish_request(&request_id, Some(2000));

    assert!(slot.is_idle());
    assert_eq!(slot.active_count(), 0);
    assert_eq!(slot.queue_length(), 0);
}

#[test]
fn test_slot_manager() {
    let mut manager: SlotManager<()> = SlotManager::new(5000, 0);

    assert_eq!(manager.get_slot("domain1.com").name(), "domain1.com");
    assert_eq!(manager.get_slot("domain2.com").name(), "domain2.com");

    manager.get_slot("domain1.com").add_request(Request::get("https://domain1.com/path").unwrap(), ());
    manager.get_slot("domain2.com").add_request(Request::get("https://domain2.com/path").unwrap(), ());

    assert_eq!(manager.get_slot("domain1.com").queue_length(), 1);
    assert_eq!(manager.get_slot("domain2.com").queue_length(), 1);

    let names = manager.get_slot_names();
    assert_eq!(names.len(), 2);
    assert!(names.contains(&"domain1.com".to_string()));
    assert!(names.contains(&"domain2.com".to_string()));

    let again = manager.get_slot_by_name("domain1.com");
    assert!(again.is_some());
    assert_eq!(again.unwrap().name(), "domain1.com");

    assert!(!manager.all_slots_idle());

    let next1 = manager.get_slot("domain1.com").next_request(0, None).unwrap();
    let next2 = manager.get_slot("domain2.com").next_request(0, None).unwrap();
    let id1 = create_request_id(&next1.0);
    let id2 = create_request_id(&next2.0);
    manager.get_slot("domain1.com").finish_request(&id1, None);
    manager.get_slot("domain2.com").finish_request(&id2, None);

    assert!(manager.all_slots_idle());

    manager.close_slot("domain1.com");

    manager
        .get_slot("domain1.com")
        .add_request(Request::get("https://domain1.com/another-path").unwrap(), ());
    assert!(manager.get_slot("domain1.com").next_request(0, None).is_none());
    assert!(manager.get_slot_by_name("nowhere.com").is_none());
}

#[test]
fn slot_take_then_finish_restores_active() {
    let mut slot: Slot<()> = Slot::new("s".to_string(), 100_000, 0);
    let request = Request::get("https://example.com/x").unwrap();
    slot.add_request(request.clone(), ());
    slot.next_request(0, None).unwrap();
    assert_eq!(slot.active_size(), MIN_RESPONSE_SIZE);
    slot.finish_request(&create_request_id(&request), Some(10));
    // a small response is charged the least size
    assert_eq!(slot.active_size(), MIN_RESPONSE_SIZE);
    assert_eq!(slot.active_count(), 0);
}

#[test]
fn request_id_is_url_and_method() {
    let request = Request::get("https://example.com/a?b=1").unwrap();
    assert_eq!(create_request_id(&request), "https://example.com/a?b=1-GET");
    let post = Request::post("https://example.com/p", vec![1]).unwrap();
    assert_eq!(create_request_id(&post), "https://example.com/p-POST");
}

#[test]
fn crawl_core_pause_resume() {
    let mut core = CrawlCore::new();
    assert!(core.pause().is_err());
    core.begin_run(10).unwrap();
    assert!(core.begin_run(11).is_err());
    assert_eq!(core.stats.start_time, Some(10));
    core.pause().unwrap();
    assert!(!core.running);
    assert!(core.pause().is_err());
    core.resume().unwrap();
    assert!(core.running);
    core.close(99);
    assert!(!core.running);
    assert_eq!(core.stats.end_time, Some(99));
}

#[test]
fn crawl_core_concurrency() {
    let mut core = CrawlCore::new();
    core.begin_run(0).unwrap();
    assert!(core.may_start_task(2, false));
    core.task_started(2);
    core.task_started(2);
    assert!(!core.may_start_task(2, false));
    assert!(core.loop_continues(true, false));
    core.task_finished();
    core.task_finished();
    assert!(!core.loop_continues(true, false));
    assert!(!core.may_start_task(2, true));
}

#[test]
fn engine_stats_duration() {
    let mut stats = EngineStats::new();
    assert_eq!(stats.duration(5), None);
    stats.start_time = Some(1000);
    assert_eq!(stats.duration(1500), Some(500));
    stats.end_time = Some(1200);
    assert_eq!(stats.duration(5000), Some(200));
    stats.record_request();
    stats.record_response();
    stats.record_item();
    stats.record_error();
    assert_eq!(stats.request_count, 1);
    assert_eq!(stats.error_count, 1);
}

#[test]
fn engine_config_defaults() {
    let config = EngineConfig::default();
    assert_eq!(config.concurrent_requests, 16);
    assert_eq!(config.concurrent_items, 100);
    assert_eq!(config.user_agent, "scrapy_rs/0.1.0");
    assert_eq!(config.request_timeout, 30);
    assert_eq!(config.max_retries, 3);
    assert_eq!(config.scheduler_type, SchedulerType::Memory);
    assert_eq!(config.crawl_strategy, CrawlStrategy::Priority);
    assert_eq!(create_scheduler(&config), SchedulerPlan::Memory);
}

#[test]
fn scheduler_plan_for_domain_groups() {
    let mut config = EngineConfig::default();
    config.scheduler_type = SchedulerType::DomainGroup;
    config.max_depth = Some(4);
    config.domain_delay_ms = Some(250);
    assert_eq!(
        create_scheduler(&config),
        SchedulerPlan::DomainGroup {
            strategy: CrawlStrategy::Priority,
            max_requests_per_domain: None,
            domain_delay_ms: Some(250),
            respect_depth: true,
            max_depth: Some(4),
        }
    );
    config.scheduler_type = SchedulerType::DepthFirst;
    assert_eq!(create_scheduler(&config), SchedulerPlan::DepthFirst { max_depth: Some(4) });
}

#[test]
fn format_duration_writes_hours_minutes_seconds() {
    assert_eq!(format_duration(0), "0h 0m 0s");
    assert_eq!(format_duration(3723), "1h 2m 3s");
    assert_eq!(format_duration(59), "0h 0m 59s");
    assert_eq!(format_duration(90061), "25h 1m 1s");
}

#[test]
fn extract_domain_gives_host() {
    let r = Request::get("https://sub.example.com:8080/x").unwrap();
    assert_eq!(extract_domain(&r.url), "sub.example.com");
    let d = Request::get("data:text/plain,hello").unwrap();
    assert_eq!(extract_domain(&d.url), "unknown");
}

#[test]
fn downloader_retry_delays_double() {
    let config = DownloaderConfig::default();
    let timeout = Error::network(NetworkError::Timeout(5));
    assert_eq!(config.retry_after_failure(0, &timeout), Some(1000));
    assert_eq!(config.retry_after_failure(1, &timeout), Some(2000));
    assert_eq!(config.retry_after_failure(2, &timeout), Some(4000));
    assert_eq!(config.retry_after_failure(3, &timeout), None);
    let not_found = Error::http(HttpError::ClientError { status: 404, message: "nf".to_string() });
    assert_eq!(config.retry_after_failure(0, &not_found), None);
    let mut off = DownloaderConfig::default();
    off.retry_enabled = false;
    assert_eq!(off.retry_after_failure(0, &timeout), None);
    assert_eq!(config.user_agent, "scrapy_rs/0.1.0");
}

#[test]
fn download_errors_carry_detail() {
    match download_error(DownloadStage::Send, "connection refused") {
        Error::Http { error: HttpError::ClientError { status, message }, .. } => {
            assert_eq!(status, 0);
            assert_eq!(message, "HTTP request failed: connection refused");
        }
        _ => panic!("wrong error"),
    }
    match download_error(DownloadStage::Client, "tls") {
        Error::Other { message, .. } => assert_eq!(message, "Failed to create HTTP client: tls"),
        _ => panic!("wrong error"),
    }
}

#[test]
fn resource_limits_zero_means_none() {
    assert!(!limits_exceeded(10_000, 0, 50, 0, 50, 0));
    assert!(limits_exceeded(10_000, 5_000, 0, 0, 0, 0));
    assert!(!limits_exceeded(5_000, 5_000, 3, 3, 0, 1));
    assert!(limits_exceeded(0, 0, 4, 3, 0, 0));
    assert!(limits_exceeded(0, 0, 0, 0, 2, 1));
}

#[test]
fn mock_downloader_answers() {
    let mut mock = MockDownloader::new();
    let req = Request::get("https://example.com/set").unwrap();
    mock.add_response("https://example.com/set", Response::new(req.clone(), 201, StrMap::new(), b"x".to_vec()));
    assert_eq!(mock.download(req).unwrap().status, 201);
    let other = Request::get("https://example.com/other").unwrap();
    let page = mock.download(other).unwrap();
    assert_eq!(page.status, 200);
    assert_eq!(page.headers.get("Content-Type").unwrap(), "text/html");
    assert_eq!(
        page.text().unwrap(),
        "<html><body><h1>Mock response for https://example.com/other</h1></body></html>"
    );
    match FailingDownloader.download(Request::get("https://example.com").unwrap()) {
        Err(Error::Other { message, .. }) => assert_eq!(message, "Mock downloader failure"),
        _ => panic!("expected a failure"),
    }
}

#[test]
fn state_errors_name_the_step() {
    match state_error(StateStep::Read, "no such file") {
        Error::Other { message, .. } => assert_eq!(message, "Failed to read engine state from file: no such file"),
        _ => panic!("expected an other error"),
    }
}

#[test]
fn crawl_events_raise_their_own_counts() {
    let mut core = CrawlCore::new();
    assert!(core.can_send());
    core.request_sent();
    core.request_sent();
    assert_eq!(core.awaiting, 2);
    assert!(core.can_end_download(true));
    core.download_ended(true);
    core.download_ended(false);
    assert_eq!(core.awaiting, 0);
    assert!(!core.can_end_download(false));
    for event in [CrawlEvent::ItemScraped, CrawlEvent::ItemScraped, CrawlEvent::ItemScraped, CrawlEvent::ErrorOccurred] {
        assert!(core.can_count(event));
        core.count_event(event);
    }
    assert_eq!(core.stats.request_count, 2);
    assert_eq!(core.stats.response_count, 1);
    assert_eq!(core.stats.item_count, 3);
    assert_eq!(core.stats.error_count, 1);
    assert!(core.stats.response_count <= core.stats.request_count);
    assert!(!core.running);
    assert_eq!(core.active_tasks, 0);
    core.stats.error_count = usize::MAX;
    assert!(!core.can_count(CrawlEvent::ErrorOccurred));
    assert!(core.can_count(CrawlEvent::ItemScraped));
}
