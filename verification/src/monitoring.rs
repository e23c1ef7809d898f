use vstd::prelude::*;
use crate::error::Error;
use crate::request::MetaValue;
use crate::signal::{Signal, SignalArgs};
use crate::stats::EngineStats;

verus! {

/// Monitoring configuration
#[derive(Debug, Clone, Copy)]
pub struct MonitoringConfig {
    /// Whether to enable monitoring
    pub enabled: bool,
    /// Interval for collecting metrics in milliseconds
    pub metrics_interval_ms: u64,
    /// Maximum number of events to keep in history
    pub max_events: usize,
    /// Whether to enable the web dashboard
    pub enable_dashboard: bool,
    /// Port for the web dashboard
    pub dashboard_port: u16,
    /// Whether to enable the metrics server
    pub enable_metrics_server: bool,
    /// Port for the metrics server
    pub metrics_server_port: u16,
}

impl Default for MonitoringConfig {
    fn default() -> (r: Self)
        ensures
            !r.enabled,
            r.metrics_interval_ms == 1000,
            r.max_events == 1000,
            !r.enable_dashboard,
            r.dashboard_port == 8080,
            !r.enable_metrics_server,
            r.metrics_server_port == 9090,
    {
        MonitoringConfig {
            enabled: false,
            metrics_interval_ms: 1000,
            max_events: 1000,
            enable_dashboard: false,
            dashboard_port: 8080,
            enable_metrics_server: false,
            metrics_server_port: 9090,
        }
    }
}

/// Event types for monitoring; `R` is what a resource sample carries.
#[derive(Debug)]
#[allow(inconsistent_fields)]
pub enum MonitoringEvent<R> {
    /// Engine started
    EngineStarted,
    /// Engine stopped
    EngineStopped,
    /// Engine paused
    EnginePaused,
    /// Engine resumed
    EngineResumed,
    /// Spider opened
    SpiderOpened { name: String },
    /// Spider closed
    SpiderClosed { name: String },
    /// Request scheduled
    RequestScheduled { url: String },
    /// Request sent
    RequestSent { url: String },
    /// Response received
    ResponseReceived { url: String, status: u16 },
    /// Item scraped
    ItemScraped { item_type: String },
    /// Error occurred
    ErrorOccurred { message: String },
    /// Stats updated
    StatsUpdated { stats: EngineStats },
    /// Resource stats updated
    ResourceStatsUpdated { stats: R },
    /// Custom event
    Custom { name: String, data: MetaValue },
}

/// The event that a signal with its arguments is reported as: the engine's own signals always,
/// the others where they come with the arguments they describe (the spider's name, the
/// request's or response's URL, the item's type, the error's message).
pub open spec fn signal_event_ok<R>(signal: Signal, args: SignalArgs, r: Option<MonitoringEvent<R>>) -> bool {
    match signal {
        Signal::EngineStarted => r matches Some(MonitoringEvent::EngineStarted),
        Signal::EngineStopped => r matches Some(MonitoringEvent::EngineStopped),
        Signal::EnginePaused => r matches Some(MonitoringEvent::EnginePaused),
        Signal::EngineResumed => r matches Some(MonitoringEvent::EngineResumed),
        Signal::SpiderOpened => match args {
            SignalArgs::Spider(n) => r matches Some(MonitoringEvent::SpiderOpened { name }) && name@ == n@,
            _ => r is None,
        },
        Signal::SpiderClosed => match args {
            SignalArgs::Spider(n) => r matches Some(MonitoringEvent::SpiderClosed { name }) && name@ == n@,
            _ => r is None,
        },
        Signal::RequestScheduled => match args {
            SignalArgs::Request(q) => r matches Some(MonitoringEvent::RequestScheduled { url }) && url@ == q@.url.0,
            _ => r is None,
        },
        Signal::RequestSent => match args {
            SignalArgs::Request(q) => r matches Some(MonitoringEvent::RequestSent { url }) && url@ == q@.url.0,
            _ => r is None,
        },
        Signal::ResponseReceived => match args {
            SignalArgs::Response(p) => r matches Some(MonitoringEvent::ResponseReceived { url, status })
                && url@ == p@.url.0 && status == p.status,
            _ => r is None,
        },
        Signal::ItemScraped => match args {
            SignalArgs::Item(i) => r matches Some(MonitoringEvent::ItemScraped { item_type })
                && item_type@ == i@.item_type_name,
            _ => r is None,
        },
        Signal::ErrorOccurred => match args {
            SignalArgs::Error(m) => r matches Some(MonitoringEvent::ErrorOccurred { message }) && message@ == m@,
            _ => r is None,
        },
    }
}

/// The event that a signal is reported as, where it is reported.
pub fn event_for_signal<R>(signal: Signal, args: &SignalArgs) -> (r: Option<MonitoringEvent<R>>)
    ensures
        signal_event_ok(signal, *args, r),
{
    match signal {
        Signal::EngineStarted => Some(MonitoringEvent::EngineStarted),
        Signal::EngineStopped => Some(MonitoringEvent::EngineStopped),
        Signal::EnginePaused => Some(MonitoringEvent::EnginePaused),
        Signal::EngineResumed => Some(MonitoringEvent::EngineResumed),
        Signal::SpiderOpened => match args {
            SignalArgs::Spider(n) => Some(MonitoringEvent::SpiderOpened { name: n.clone() }),
            _ => None,
        },
        Signal::SpiderClosed => match args {
            SignalArgs::Spider(n) => Some(MonitoringEvent::SpiderClosed { name: n.clone() }),
            _ => None,
        },
        Signal::RequestScheduled => match args {
            SignalArgs::Request(q) => Some(MonitoringEvent::RequestScheduled { url: q.url.as_str().to_owned() }),
            _ => None,
        },
        Signal::RequestSent => match args {
            SignalArgs::Request(q) => Some(MonitoringEvent::RequestSent { url: q.url.as_str().to_owned() }),
            _ => None,
        },
        Signal::ResponseReceived => match args {
            SignalArgs::Response(p) => Some(
                MonitoringEvent::ResponseReceived { url: p.url.as_str().to_owned(), status: p.status },
            ),
            _ => None,
        },
        Signal::ItemScraped => match args {
            SignalArgs::Item(i) => Some(MonitoringEvent::ItemScraped { item_type: i.item_type_name.clone() }),
            _ => None,
        },
        Signal::ErrorOccurred => match args {
            SignalArgs::Error(m) => Some(MonitoringEvent::ErrorOccurred { message: m.clone() }),
            _ => None,
        },
    }
}

/// The event is a custom event with this name and data.
pub open spec fn is_custom_event<R>(e: MonitoringEvent<R>, name: Seq<char>, data: crate::request::MetaView) -> bool {
    e matches MonitoringEvent::Custom { name: n, data: d } && n@ == name && d@ == data
}

/// The history after an event is added: the newest `max` entries.
pub open spec fn kept_history<T>(s: Seq<T>, max: nat) -> Seq<T> {
    if s.len() > max {
        s.subrange(s.len() - max, s.len() as int)
    } else {
        s
    }
}

/// The monitoring state: its configuration and the history of events, each with the time
/// (milliseconds since the epoch) it was recorded at.
#[derive(Debug)]
#[verifier::reject_recursive_types(R)]
pub struct Monitoring<R> {
    config: MonitoringConfig,
    events: Vec<(i64, MonitoringEvent<R>)>,
}

impl<R> Monitoring<R> {
    /// The configuration.
    pub closed spec fn config_spec(&self) -> MonitoringConfig {
        self.config
    }

    /// The event history, oldest first.
    pub closed spec fn history(&self) -> Seq<(i64, MonitoringEvent<R>)> {
        self.events@
    }

    /// Create a new monitoring system with the given configuration and no events
    pub fn new(config: MonitoringConfig) -> (r: Self)
        ensures
            r.config_spec() == config,
            r.history() == Seq::<(i64, MonitoringEvent<R>)>::empty(),
    {
        Monitoring { config, events: Vec::new() }
    }

    /// The configuration
    pub fn config(&self) -> (r: &MonitoringConfig)
        ensures
            *r == self.config_spec(),
    {
        &self.config
    }

    /// Record an event at time `at`, keeping only the newest `max_events`.
    pub fn record(&mut self, at: i64, event: MonitoringEvent<R>)
        ensures
            final(self).config_spec() == old(self).config_spec(),
            final(self).history() == kept_history(
                old(self).history().push((at, event)),
                old(self).config_spec().max_events as nat,
            ),
    {
        let ghost full = self.events@.push((at, event));
        self.events.push((at, event));
        let max = self.config.max_events;
        while self.events.len() > max
            invariant
                max == self.config.max_events,
                self.config == old(self).config,
                full.len() >= self.events@.len(),
                self.events@.len() >= max || self.events@.len() == full.len(),
                self.events@ == full.subrange(full.len() - self.events@.len(), full.len() as int),
            decreases self.events@.len(),
        {
            let ghost before = self.events@;
            let _ = self.events.remove(0);
            proof {
                assert(self.events@ =~= full.subrange(full.len() - self.events@.len(), full.len() as int));
            }
        }
        proof {
            if self.events@.len() == full.len() {
                assert(self.events@ =~= full);
            }
        }
    }

    /// Send a custom event; it is recorded at time `at` where monitoring is enabled and
    /// ignored where it is not.
    pub fn send_event(&mut self, at: i64, name: &str, data: MetaValue) -> (r: Result<(), Error>)
        ensures
            r is Ok,
            final(self).config_spec() == old(self).config_spec(),
            !old(self).config_spec().enabled ==> final(self).history() == old(self).history(),
            old(self).config_spec().enabled ==> exists|e: MonitoringEvent<R>| #[trigger] is_custom_event(e, name@, data@)
                && final(self).history() == kept_history(
                    old(self).history().push((at, e)),
                    old(self).config_spec().max_events as nat,
                ),
    {
        if !self.config.enabled {
            return Ok(());
        }
        let event = MonitoringEvent::Custom { name: name.to_owned(), data };
        let ghost e = event;
        self.record(at, event);
        proof {
            assert(is_custom_event(e, name@, data@));
        }
        Ok(())
    }

    /// Get the event history, oldest first
    pub fn get_events(&self) -> (r: &Vec<(i64, MonitoringEvent<R>)>)
        ensures
            r@ == self.history(),
    {
        &self.events
    }
}

/// The history never holds more than `max` events, and the newest event is always kept
/// (where `max` is at least one).
pub proof fn law_history_bounded<T>(s: Seq<T>, x: T, max: nat)
    ensures
        kept_history(s.push(x), max).len() <= max || s.push(x).len() <= max,
        kept_history(s.push(x), max).len() <= s.len() + 1,
        max >= 1 ==> kept_history(s.push(x), max).last() == x,
        kept_history(s.push(x), max).len() == if s.len() + 1 > max {
            max
        } else {
            s.len() + 1
        },
{
}

} // verus!
