use scrapy_rs::error::Error;
use scrapy_rs::item::DynamicItem;
use std::sync::atomic::{AtomicBool, AtomicUsize, Ordering};
use std::sync::Arc;
use scrapy_rs::monitoring::{event_for_signal, Monitoring, MonitoringConfig, MonitoringEvent};
use scrapy_rs::pipeline::{filter_item, DummyPipeline, JsonArrayFile, Level, LogPipeline};
use scrapy_rs::request::{MetaValue, Request};
use scrapy_rs::response::Response;
use scrapy_rs::signal::{Signal, SignalArgs, SignalManager};
use scrapy_rs::strmap::StrMap;

fn enabled(max_events: usize) -> MonitoringConfig {
    MonitoringConfig {
        enabled: true,
        metrics_interval_ms: 100,
        max_events,
        enable_dashboard: false,
        dashboard_port: 8080,
        enable_metrics_server: false,
        metrics_server_port: 8081,
    }
}

#[test]
fn event_history_keeps_newest() {
    let mut monitoring: Monitoring<()> = Monitoring::new(enabled(10));
    monitoring.send_event(1, "test_event", MetaValue::Json("{\"value\":42}".to_string())).unwrap();

    let events = monitoring.get_events();
    assert!(events.iter().any(|(_, e)| matches!(e,
        MonitoringEvent::Custom { name, data }
            if name == "test_event" && *data == MetaValue::Json("{\"value\":42}".to_string()))));

    for i in 0..15 {
        monitoring
            .send_event(2 + i as i64, &format!("event_{}", i), MetaValue::Int(i as i128))
            .unwrap();
    }
    let events = monitoring.get_events();
    assert!(events.len() <= 10);
    // the oldest events were dropped: event_0 .. event_4 and the first test event
    let names: Vec<String> = events
        .iter()
        .map(|(_, e)| match e {
            MonitoringEvent::Custom { name, .. } => name.clone(),
            _ => String::new(),
        })
        .collect();
    let expected: Vec<String> = (5..15).map(|i| format!("event_{}", i)).collect();
    assert_eq!(names, expected);
    // the newest is kept, last
    match &events[events.len() - 1].1 {
        MonitoringEvent::Custom { name, .. } => assert_eq!(name, "event_14"),
        _ => panic!("expected a custom event"),
    }
}

#[test]
fn disabled_monitoring_records_nothing() {
    let mut monitoring: Monitoring<()> = Monitoring::new(MonitoringConfig::default());
    monitoring.send_event(1, "x", MetaValue::Null).unwrap();
    assert_eq!(monitoring.get_events().len(), 0);
    let d = MonitoringConfig::default();
    assert!(!d.enabled);
    assert_eq!(d.max_events, 1000);
    assert_eq!(d.dashboard_port, 8080);
    assert_eq!(d.metrics_server_port, 9090);
}

#[test]
fn signals_become_events() {
    let e: Option<MonitoringEvent<()>> = event_for_signal(Signal::EngineStarted, &SignalArgs::Nothing);
    assert!(matches!(e, Some(MonitoringEvent::EngineStarted)));
    let e: Option<MonitoringEvent<()>> =
        event_for_signal(Signal::SpiderOpened, &SignalArgs::Spider("s1".to_string()));
    assert!(matches!(e, Some(MonitoringEvent::SpiderOpened { name }) if name == "s1"));
    let e: Option<MonitoringEvent<()>> = event_for_signal(Signal::SpiderOpened, &SignalArgs::Nothing);
    assert!(e.is_none());
    let req = Request::get("https://example.com/a").unwrap();
    let e: Option<MonitoringEvent<()>> = event_for_signal(Signal::RequestSent, &SignalArgs::Request(req.clone()));
    assert!(matches!(e, Some(MonitoringEvent::RequestSent { url }) if url == "https://example.com/a"));
    let resp = Response::new(req, 404, StrMap::new(), vec![]);
    let e: Option<MonitoringEvent<()>> = event_for_signal(Signal::ResponseReceived, &SignalArgs::Response(resp));
    assert!(matches!(e, Some(MonitoringEvent::ResponseReceived { url, status: 404 }) if url == "https://example.com/a"));
    let e: Option<MonitoringEvent<()>> =
        event_for_signal(Signal::ItemScraped, &SignalArgs::Item(DynamicItem::new("book")));
    assert!(matches!(e, Some(MonitoringEvent::ItemScraped { item_type }) if item_type == "book"));
    let e: Option<MonitoringEvent<()>> =
        event_for_signal(Signal::ErrorOccurred, &SignalArgs::Error("oops".to_string()));
    assert!(matches!(e, Some(MonitoringEvent::ErrorOccurred { message }) if message == "oops"));
}

type Handler = Box<dyn Fn(SignalArgs) -> Result<(), Error> + Send + Sync>;

fn counting(counter: &Arc<AtomicUsize>) -> Handler {
    let c = counter.clone();
    Box::new(move |_| {
        c.fetch_add(1, Ordering::SeqCst);
        Ok(())
    })
}

#[test]
fn test_signal_manager() {
    let mut manager: SignalManager<Handler> = SignalManager::new();
    let called = Arc::new(AtomicBool::new(false));
    let called_clone = called.clone();
    manager
        .connect(
            Signal::EngineStarted,
            Box::new(move |_| {
                called_clone.store(true, Ordering::SeqCst);
                Ok(())
            }),
        )
        .unwrap();
    manager.send(Signal::EngineStarted, SignalArgs::Nothing).unwrap();
    assert!(called.load(Ordering::SeqCst));
}

#[test]
fn test_multiple_handlers() {
    let mut manager: SignalManager<Handler> = SignalManager::new();
    let counter1 = Arc::new(AtomicUsize::new(0));
    let counter2 = Arc::new(AtomicUsize::new(0));
    manager.connect(Signal::ItemScraped, counting(&counter1)).unwrap();
    manager.connect(Signal::ItemScraped, counting(&counter2)).unwrap();
    manager.send(Signal::ItemScraped, SignalArgs::Nothing).unwrap();
    assert_eq!(counter1.load(Ordering::SeqCst), 1);
    assert_eq!(counter2.load(Ordering::SeqCst), 1);
}

#[test]
fn test_disconnect() {
    let mut manager: SignalManager<Handler> = SignalManager::new();
    let counter = Arc::new(AtomicUsize::new(0));
    manager.connect(Signal::RequestSent, counting(&counter)).unwrap();
    manager.send(Signal::RequestSent, SignalArgs::Nothing).unwrap();
    assert_eq!(counter.load(Ordering::SeqCst), 1);
    manager.disconnect(Signal::RequestSent).unwrap();
    manager.send(Signal::RequestSent, SignalArgs::Nothing).unwrap();
    assert_eq!(counter.load(Ordering::SeqCst), 1);
}

#[test]
fn signal_registry_keeps_connection_order() {
    let mut manager: SignalManager<u32> = SignalManager::default();
    manager.connect(Signal::ItemScraped, 1).unwrap();
    manager.connect(Signal::ItemScraped, 2).unwrap();
    manager.connect(Signal::ErrorOccurred, 3).unwrap();
    assert_eq!(manager.handlers_for(Signal::ItemScraped), &vec![1, 2]);
    assert!(manager.handlers_for(Signal::EngineStopped).is_empty());
    manager.disconnect_all().unwrap();
    assert!(manager.handlers_for(Signal::ErrorOccurred).is_empty());
}

#[test]
fn send_stops_at_first_failing_handler() {
    let mut manager: SignalManager<Handler> = SignalManager::new();
    let before = Arc::new(AtomicUsize::new(0));
    let after = Arc::new(AtomicUsize::new(0));
    manager.connect(Signal::ErrorOccurred, counting(&before)).unwrap();
    manager
        .connect(Signal::ErrorOccurred, Box::new(|args| match args {
            SignalArgs::Error(text) => Err(Error::other(text)),
            _ => Ok(()),
        }))
        .unwrap();
    manager.connect(Signal::ErrorOccurred, counting(&after)).unwrap();
    let r = manager.send(Signal::ErrorOccurred, SignalArgs::Error("boom".to_string()));
    match r {
        Err(Error::Other { message, .. }) => assert_eq!(message, "boom"),
        other => panic!("unexpected {:?}", other),
    }
    assert_eq!(before.load(Ordering::SeqCst), 1);
    assert_eq!(after.load(Ordering::SeqCst), 0);
    assert!(manager.send(Signal::ErrorOccurred, SignalArgs::Nothing).is_ok());
    assert_eq!(after.load(Ordering::SeqCst), 1);
}

#[test]
fn signal_names() {
    assert_eq!(Signal::EngineStarted.as_str(), "engine_started");
    assert_eq!(Signal::ResponseReceived.as_str(), "response_received");
    assert_eq!(Signal::ErrorOccurred.as_str(), "error_occurred");
    assert_eq!(Signal::ErrorOccurred.index(), 10);
}

#[test]
fn test_dummy_pipeline() {
    let pipeline = DummyPipeline::new();
    let mut item = DynamicItem::new("test");
    item.set("field1", MetaValue::Text("value1".to_string()));
    let result = pipeline.process_dynamic_item(item.clone()).unwrap();
    assert_eq!(result.get("field1").unwrap(), &MetaValue::Text("value1".to_string()));
    let logged = LogPipeline::info().process_dynamic_item(item).unwrap();
    assert!(logged.has_field("field1"));
    assert_eq!(LogPipeline::debug().level, Level::Debug);
}

#[test]
fn test_filter_pipeline() {
    let mut keep_item = DynamicItem::new("test");
    keep_item.set("keep", MetaValue::Bool(true));
    let mut drop_item = DynamicItem::new("test");
    drop_item.set("drop", MetaValue::Bool(true));

    let keep = keep_item.has_field("keep");
    let result = filter_item(keep_item.clone(), keep).unwrap();
    assert_eq!(result.get("keep").unwrap(), &MetaValue::Bool(true));

    let keep = drop_item.has_field("keep");
    match filter_item(drop_item, keep) {
        Err(scrapy_rs::error::Error::Item { message, .. }) => assert_eq!(message, "Item filtered out"),
        _ => panic!("expected the item to be filtered out"),
    }
}

#[test]
fn json_array_file_framing() {
    let mut framing = JsonArrayFile::new(false);
    assert!(framing.item_chunk(&b"{}".to_vec()).is_none());
    let mut content = framing.opening();
    assert!(framing.is_open);
    content.extend(framing.item_chunk(&b"{\"a\":1}".to_vec()).unwrap());
    content.extend(framing.item_chunk(&b"{\"b\":2}".to_vec()).unwrap());
    let (step_back, tail) = framing.closing(content.len() as u64).unwrap();
    assert!(step_back);
    content.truncate(content.len() - 2);
    content.extend(tail);
    assert_eq!(content, b"[\n{\"a\":1},\n{\"b\":2}\n]".to_vec());
    // a second close writes nothing
    assert!(framing.closing(content.len() as u64).is_none());
    assert!(JsonArrayFile::new(true).opening().is_empty());
}

#[test]
fn json_array_file_without_items() {
    let mut framing = JsonArrayFile::new(false);
    let mut content = framing.opening();
    let (step_back, tail) = framing.closing(content.len() as u64).unwrap();
    assert!(!step_back);
    content.extend(tail);
    assert_eq!(content, b"[\n\n]".to_vec());
    let parsed: serde_json::Value = serde_json::from_slice(&content).unwrap();
    assert_eq!(parsed, serde_json::Value::Array(vec![]));
}

#[test]
fn test_monitoring_events() {
    let mut monitoring: Monitoring<()> = Monitoring::new(enabled(5));
    monitoring.record(1, MonitoringEvent::EngineStarted);
    monitoring.record(2, MonitoringEvent::SpiderOpened { name: "test_spider".to_string() });
    monitoring.record(3, MonitoringEvent::RequestScheduled { url: "https://example.com".to_string() });

    let events = monitoring.get_events();
    assert_eq!(events.len(), 3);
    assert!(matches!(events[0].1, MonitoringEvent::EngineStarted));
    match &events[1].1 {
        MonitoringEvent::SpiderOpened { name } => assert_eq!(name, "test_spider"),
        _ => panic!("Expected SpiderOpened event"),
    }
    match &events[2].1 {
        MonitoringEvent::RequestScheduled { url } => assert_eq!(url, "https://example.com"),
        _ => panic!("Expected RequestScheduled event"),
    }

    // The history keeps at most five events: the oldest is pushed out.
    monitoring.record(4, MonitoringEvent::ResponseReceived { url: "https://example.com".to_string(), status: 200 });
    monitoring.record(5, MonitoringEvent::ItemScraped { item_type: "test_item".to_string() });
    monitoring.record(6, MonitoringEvent::EngineStopped);
    let events = monitoring.get_events();
    assert_eq!(events.len(), 5);
    match &events[0].1 {
        MonitoringEvent::SpiderOpened { name } => assert_eq!(name, "test_spider"),
        _ => panic!("Expected SpiderOpened event"),
    }

    // Custom events are kept last.
    monitoring.send_event(7, "custom_event", MetaValue::Int(42)).unwrap();
    let events = monitoring.get_events();
    match &events[events.len() - 1].1 {
        MonitoringEvent::Custom { name, data } => {
            assert_eq!(name, "custom_event");
            assert_eq!(*data, MetaValue::Int(42));
        },
        _ => panic!("Expected Custom event"),
    }
}
