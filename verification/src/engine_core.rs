use vstd::prelude::*;
use crate::config::EngineConfig;
use crate::error::{ContextView, Error, error_text, fresh_context_view};
use crate::error_handler::ErrorAction;
use crate::request::{Request, RequestView};
use crate::response::{Response, ResponseMetaView, ResponseMetaValue};
use crate::stats::EngineStats;
use crate::text::concat;

verus! {

/// Where in the crawl an error arose.
#[derive(Debug, Clone, Copy, PartialEq, Eq, Structural)]
pub enum ErrorSite {
    /// Building the spider's start requests
    StartRequests,
    /// The request middleware refused a request
    RequestMiddleware,
    /// The download failed
    Downloader,
    /// The response middleware refused a response
    ResponseMiddleware,
    /// The spider failed to parse a response
    SpiderParse,
    /// An item pipeline failed
    Pipeline,
}

/// What the crawl loop does once the error manager has answered.
#[derive(Debug)]
pub enum LoopDirective {
    /// Schedule the request again, after the delay (in milliseconds) if there is one
    Requeue { request: Request, delay: Option<u128> },
    /// End the run with an error
    Fail { reason: String },
    /// Leave the crawl loop
    StopLoop,
    /// Carry on
    Proceed,
}

/// The component name an error context gets at each site.
pub open spec fn site_component(site: ErrorSite) -> Seq<char> {
    match site {
        ErrorSite::StartRequests => "spider_start_requests"@,
        ErrorSite::RequestMiddleware => "request_middleware"@,
        ErrorSite::Downloader => "downloader"@,
        ErrorSite::ResponseMiddleware => "response_middleware"@,
        ErrorSite::SpiderParse => "spider_parse"@,
        ErrorSite::Pipeline => "pipeline"@,
    }
}

/// The message prefix of the error reported at each site (the downloader's own error is
/// reported as it is).
pub open spec fn site_prefix(site: ErrorSite) -> Seq<char> {
    match site {
        ErrorSite::StartRequests => "Error creating start request: "@,
        ErrorSite::RequestMiddleware => "Request middleware rejected request: "@,
        ErrorSite::Downloader => ""@,
        ErrorSite::ResponseMiddleware => "Response middleware rejected response: "@,
        ErrorSite::SpiderParse => "Error parsing response: "@,
        ErrorSite::Pipeline => "Error processing item: "@,
    }
}

/// Whether the error reported at a site carries the URL of the request.
pub open spec fn site_has_url(site: ErrorSite) -> bool {
    site == ErrorSite::RequestMiddleware || site == ErrorSite::Downloader || site == ErrorSite::SpiderParse
}

/// The error the engine hands to the error manager: the downloader's own error, or a
/// generic error that quotes the cause; with the site's component, the spider's name
/// and, at some sites, the URL in its context.
pub open spec fn reported_error_ok(site: ErrorSite, cause: Error, url: Seq<char>, spider: Seq<char>, r: Error) -> bool {
    if site == ErrorSite::Downloader {
        &&& r.same_kind_and_payload(&cause)
        &&& match cause.context_view() {
            Some(c) => r.context_view() == Some(ContextView {
                component: Some("downloader"@),
                url: Some(url),
                spider_name: Some(spider),
                ..c
            }),
            None => r.context_view() is None,
        }
    } else {
        &&& r is Other
        &&& r->Other_message@ == site_prefix(site) + error_text(cause)
        &&& r.context_view() == Some(ContextView {
            component: Some(site_component(site)),
            spider_name: Some(spider),
            url: if site_has_url(site) { Some(url) } else { None },
            ..fresh_context_view()
        })
    }
}

fn site_strings(site: ErrorSite) -> (r: (&'static str, &'static str))
    ensures
        r.0@ == site_component(site),
        r.1@ == site_prefix(site),
{
    proof {
        reveal_strlit("spider_start_requests");
        reveal_strlit("request_middleware");
        reveal_strlit("downloader");
        reveal_strlit("response_middleware");
        reveal_strlit("spider_parse");
        reveal_strlit("pipeline");
        reveal_strlit("Error creating start request: ");
        reveal_strlit("Request middleware rejected request: ");
        reveal_strlit("");
        reveal_strlit("Response middleware rejected response: ");
        reveal_strlit("Error parsing response: ");
        reveal_strlit("Error processing item: ");
    }
    match site {
        ErrorSite::StartRequests => ("spider_start_requests", "Error creating start request: "),
        ErrorSite::RequestMiddleware => ("request_middleware", "Request middleware rejected request: "),
        ErrorSite::Downloader => ("downloader", ""),
        ErrorSite::ResponseMiddleware => ("response_middleware", "Response middleware rejected response: "),
        ErrorSite::SpiderParse => ("spider_parse", "Error parsing response: "),
        ErrorSite::Pipeline => ("pipeline", "Error processing item: "),
    }
}

/// Builds the error the engine reports for a failure at a site.
pub fn reported_error(site: ErrorSite, cause: Error, url: &str, spider: &str) -> (r: Error)
    ensures
        reported_error_ok(site, cause, url@, spider@, r),
{
    let (component, prefix) = site_strings(site);
    match site {
        ErrorSite::Downloader => {
            let e = cause.with_component(component.to_owned());
            let e = e.with_url(url.to_owned());
            e.with_spider_name(spider.to_owned())
        },
        _ => {
            let text = cause.describe();
            let e = Error::other(concat(prefix, text.as_str()));
            let e = e.with_component(component.to_owned());
            let e = e.with_spider_name(spider.to_owned());
            if site == ErrorSite::RequestMiddleware || site == ErrorSite::SpiderParse {
                e.with_url(url.to_owned())
            } else {
                e
            }
        },
    }
}

/// The message of the error signal sent for a failure at a site (item pipelines send none).
pub open spec fn signal_text_spec(site: ErrorSite, cause: Error) -> Option<Seq<char>> {
    match site {
        ErrorSite::StartRequests => Some("Error creating start request: "@ + error_text(cause)),
        ErrorSite::RequestMiddleware => Some("Error downloading request: "@ + error_text(cause)),
        ErrorSite::Downloader => Some("Error downloading request: "@ + error_text(cause)),
        ErrorSite::ResponseMiddleware => Some("Response middleware rejected response: "@ + error_text(cause)),
        ErrorSite::SpiderParse => Some("Error parsing response: "@ + error_text(cause)),
        ErrorSite::Pipeline => None,
    }
}

/// The message of the error signal for a failure at a site.
pub fn signal_text(site: ErrorSite, cause: &Error) -> (r: Option<String>)
    ensures
        (r is Some) == (signal_text_spec(site, *cause) is Some),
        r is Some ==> r->0@ == signal_text_spec(site, *cause)->0,
{
    let text = cause.describe();
    match site {
        ErrorSite::StartRequests => Some(concat("Error creating start request: ", text.as_str())),
        ErrorSite::RequestMiddleware => Some(concat("Error downloading request: ", text.as_str())),
        ErrorSite::Downloader => Some(concat("Error downloading request: ", text.as_str())),
        ErrorSite::ResponseMiddleware => Some(concat("Response middleware rejected response: ", text.as_str())),
        ErrorSite::SpiderParse => Some(concat("Error parsing response: ", text.as_str())),
        ErrorSite::Pipeline => None,
    }
}

/// What the loop does with the error manager's answer at a site: retried requests are
/// scheduled again (item failures are not retried); an abort ends the run while the start
/// requests are being scheduled, leaves the loop at the request middleware, and is only
/// noted elsewhere; every other answer, and a failure of the error manager, lets the crawl
/// carry on.
pub open spec fn directive_ok(site: ErrorSite, answer: Result<ErrorAction, Error>, r: LoopDirective) -> bool {
    match answer {
        Ok(ErrorAction::Retry { request, delay, .. }) => if site == ErrorSite::Pipeline {
            r is Proceed
        } else {
            r matches LoopDirective::Requeue { request: q, delay: d } && q@ == request@ && d == delay
        },
        Ok(ErrorAction::Abort { reason }) => if site == ErrorSite::StartRequests {
            r matches LoopDirective::Fail { reason: f } && f@ == "Aborted: "@ + reason@
        } else if site == ErrorSite::RequestMiddleware {
            r is StopLoop
        } else {
            r is Proceed
        },
        _ => r is Proceed,
    }
}

/// Decides what the loop does with the error manager's answer.
pub fn directive_for(site: ErrorSite, answer: Result<ErrorAction, Error>) -> (r: LoopDirective)
    ensures
        directive_ok(site, answer, r),
{
    match answer {
        Ok(ErrorAction::Retry { request, delay, .. }) => if site == ErrorSite::Pipeline {
            LoopDirective::Proceed
        } else {
            LoopDirective::Requeue { request, delay }
        },
        Ok(ErrorAction::Abort { reason }) => if site == ErrorSite::StartRequests {
            LoopDirective::Fail { reason: concat("Aborted: ", reason.as_str()) }
        } else if site == ErrorSite::RequestMiddleware {
            LoopDirective::StopLoop
        } else {
            LoopDirective::Proceed
        },
        _ => LoopDirective::Proceed,
    }
}

/// What the loop does with each answer: a retry anywhere but at the pipeline schedules that
/// same request again after that same delay, and a retry of an item goes nowhere; an abort
/// ends the run while start requests are scheduled and leaves the loop at the request
/// middleware; a skip, an ignore or a failure of the error manager lets the crawl carry on.
pub proof fn law_directives(site: ErrorSite, answer: Result<ErrorAction, Error>, r: LoopDirective)
    requires
        directive_ok(site, answer, r),
    ensures
        answer matches Ok(ErrorAction::Retry { request, delay, .. }) ==> (site != ErrorSite::Pipeline
            ==> (r matches LoopDirective::Requeue { request: q, delay: d } && q@ == request@ && d == delay)),
        answer matches Ok(ErrorAction::Retry { .. }) && site == ErrorSite::Pipeline ==> r is Proceed,
        answer matches Ok(ErrorAction::Abort { reason }) ==> (site == ErrorSite::StartRequests
            ==> (r matches LoopDirective::Fail { reason: f } && f@ == "Aborted: "@ + reason@)),
        answer matches Ok(ErrorAction::Abort { .. }) && site == ErrorSite::RequestMiddleware ==> r is StopLoop,
        answer matches Ok(ErrorAction::Abort { .. }) && site != ErrorSite::StartRequests
            && site != ErrorSite::RequestMiddleware ==> r is Proceed,
        answer matches Ok(ErrorAction::Skip { .. }) ==> r is Proceed,
        answer matches Ok(ErrorAction::Ignore) ==> r is Proceed,
        answer is Err ==> r is Proceed,
{
}

/// The domain a request is grouped under: its host, or "unknown".
pub open spec fn domain_spec(r: RequestView) -> Seq<char> {
    match r.url.1 {
        Some(h) => h,
        None => "unknown"@,
    }
}

/// The domain a request is grouped under: its host, or "unknown".
pub fn domain_for(request: &Request) -> (r: String)
    ensures
        r@ == domain_spec(request@),
{
    match request.url.host_str() {
        Some(h) => h.to_owned(),
        None => {
            proof {
                reveal_strlit("unknown");
            }
            "unknown".to_owned()
        },
    }
}

/// The request a response asks to have scheduled again: the one the retry middleware left
/// under "retry_request".
pub open spec fn retry_request_spec(r: crate::response::ResponseView) -> Option<RequestView> {
    if r.meta.contains_key("retry_request"@) {
        match r.meta["retry_request"@] {
            ResponseMetaView::Request(q) => Some(q),
            _ => None,
        }
    } else {
        None
    }
}

/// The request a response asks to have scheduled again, if any.
pub fn retry_request_of(response: &Response) -> (r: Option<Request>)
    ensures
        match r {
            Some(q) => retry_request_spec(response@) == Some(q@),
            None => retry_request_spec(response@) is None,
        },
{
    match response.meta.get("retry_request") {
        Some(ResponseMetaValue::Request(q)) => Some(q.duplicate()),
        _ => None,
    }
}

/// What happens in a crawl that its statistics count, besides requests and responses (those
/// are counted by `request_sent` and `download_ended`).
#[derive(Debug, Clone, Copy, PartialEq, Eq, Structural)]
pub enum CrawlEvent {
    /// An item passed the pipelines
    ItemScraped,
    /// Something failed: a download, a middleware, a parse, a pipeline, or the enqueueing of a
    /// request that a page yielded
    ErrorOccurred,
}

/// The count that an event raises.
pub open spec fn event_count(s: EngineStats, e: CrawlEvent) -> usize {
    match e {
        CrawlEvent::ItemScraped => s.item_count,
        CrawlEvent::ErrorOccurred => s.error_count,
    }
}

/// The statistics after an event: its own count one higher, everything else as it was.
pub open spec fn counted(s: EngineStats, e: CrawlEvent) -> EngineStats {
    match e {
        CrawlEvent::ItemScraped => EngineStats { item_count: (s.item_count + 1) as usize, ..s },
        CrawlEvent::ErrorOccurred => EngineStats { error_count: (s.error_count + 1) as usize, ..s },
    }
}

/// The crawl after a request went out: it is counted and awaits its download.
pub open spec fn after_request_sent(c: CrawlCore) -> CrawlCore {
    CrawlCore {
        stats: EngineStats { request_count: (c.stats.request_count + 1) as usize, ..c.stats },
        awaiting: (c.awaiting + 1) as usize,
        ..c
    }
}

/// The crawl after the download of a sent request ended, with a response or without one:
/// it no longer awaits it, and a response is counted.
pub open spec fn after_download(c: CrawlCore, got_response: bool) -> CrawlCore {
    CrawlCore {
        stats: if got_response {
            EngineStats { response_count: (c.stats.response_count + 1) as usize, ..c.stats }
        } else {
            c.stats
        },
        awaiting: (c.awaiting - 1) as usize,
        ..c
    }
}

/// The state of a crawl that the engine's decisions read and change.
#[derive(Debug)]
pub struct CrawlCore {
    /// Whether the crawl runs (false before it starts, while paused and once closed)
    pub running: bool,
    /// Number of download tasks under way
    pub active_tasks: usize,
    /// The statistics of the crawl
    pub stats: EngineStats,
    /// Number of requests sent whose download has not ended
    pub awaiting: usize,
}

impl CrawlCore {
    /// Every response counted answers a request counted, and so does every download awaited:
    /// responses and awaited downloads together never outnumber the requests.
    pub open spec fn counts_consistent(&self) -> bool {
        self.stats.response_count + self.awaiting <= self.stats.request_count
    }
}

impl CrawlCore {
    /// A crawl that has not started.
    pub fn new() -> (r: Self)
        ensures
            !r.running,
            r.active_tasks == 0,
            r.stats == EngineStats::new_spec(),
            r.awaiting == 0,
            r.counts_consistent(),
    {
        CrawlCore { running: false, active_tasks: 0, stats: EngineStats::new(), awaiting: 0 }
    }

    /// Starts a run at time `now`: refused while the crawl runs.
    pub fn begin_run(&mut self, now: u64) -> (r: Result<(), Error>)
        ensures
            old(self).running ==> r is Err && *final(self) == *old(self),
            !old(self).running ==> r is Ok && final(self).running
                && final(self).active_tasks == old(self).active_tasks
                && final(self).awaiting == old(self).awaiting
                && final(self).stats == (EngineStats { start_time: Some(now), ..old(self).stats }),
            r matches Err(e) ==> e matches Error::Other { message, .. } && message@ == "Engine is already running"@,
    {
        if self.running {
            return Err(Error::other("Engine is already running".to_owned()));
        }
        self.running = true;
        self.stats.start_time = Some(now);
        Ok(())
    }

    /// Pauses the crawl: refused unless it runs.
    pub fn pause(&mut self) -> (r: Result<(), Error>)
        ensures
            !old(self).running ==> r is Err && *final(self) == *old(self),
            old(self).running ==> r is Ok && *final(self) == (CrawlCore { running: false, ..*old(self) }),
            r matches Err(e) ==> e matches Error::Other { message, .. } && message@ == "Engine is not running"@,
    {
        if !self.running {
            return Err(Error::other("Engine is not running".to_owned()));
        }
        self.running = false;
        Ok(())
    }

    /// Resumes the crawl: refused while it runs.
    pub fn resume(&mut self) -> (r: Result<(), Error>)
        ensures
            old(self).running ==> r is Err && *final(self) == *old(self),
            !old(self).running ==> r is Ok && *final(self) == (CrawlCore { running: true, ..*old(self) }),
            r matches Err(e) ==> e matches Error::Other { message, .. } && message@ == "Engine is already running"@,
    {
        if self.running {
            return Err(Error::other("Engine is already running".to_owned()));
        }
        self.running = true;
        Ok(())
    }

    /// Closes the crawl at time `now`: it stops running and its end time is set.
    pub fn close(&mut self, now: u64)
        ensures
            *final(self) == (CrawlCore {
                running: false,
                stats: EngineStats { end_time: Some(now), ..old(self).stats },
                ..*old(self)
            }),
    {
        self.running = false;
        self.stats.end_time = Some(now);
    }

    /// Whether another download task may start: the crawl runs, a request waits, and fewer
    /// tasks than the configured number are under way.
    pub fn may_start_task(&self, concurrent_requests: usize, scheduler_empty: bool) -> (r: bool)
        ensures
            r == (self.running && !scheduler_empty && self.active_tasks < concurrent_requests),
    {
        self.running && !scheduler_empty && self.active_tasks < concurrent_requests
    }

    /// A download task started.
    pub fn task_started(&mut self, concurrent_requests: usize)
        requires
            old(self).active_tasks < concurrent_requests,
        ensures
            *final(self) == (CrawlCore { active_tasks: (old(self).active_tasks + 1) as usize, ..*old(self) }),
    {
        self.active_tasks = self.active_tasks + 1;
    }

    /// A download task finished.
    pub fn task_finished(&mut self)
        requires
            old(self).active_tasks > 0,
        ensures
            *final(self) == (CrawlCore { active_tasks: (old(self).active_tasks - 1) as usize, ..*old(self) }),
    {
        self.active_tasks = self.active_tasks - 1;
    }

    /// Whether the count that `event` raises can go up without overflow.
    pub fn can_count(&self, event: CrawlEvent) -> (r: bool)
        ensures
            r == (event_count(self.stats, event) < usize::MAX),
    {
        match event {
            CrawlEvent::ItemScraped => self.stats.item_count < usize::MAX,
            CrawlEvent::ErrorOccurred => self.stats.error_count < usize::MAX,
        }
    }

    /// Counts an event in the statistics: each kind of event raises its own count by one.
    pub fn count_event(&mut self, event: CrawlEvent)
        requires
            event_count(old(self).stats, event) < usize::MAX,
        ensures
            *final(self) == (CrawlCore { stats: counted(old(self).stats, event), ..*old(self) }),
            old(self).counts_consistent() ==> final(self).counts_consistent(),
    {
        match event {
            CrawlEvent::ItemScraped => self.stats.record_item(),
            CrawlEvent::ErrorOccurred => self.stats.record_error(),
        }
    }

    /// Whether another request can be sent without a count overflowing.
    pub fn can_send(&self) -> (r: bool)
        ensures
            r == (self.stats.request_count < usize::MAX && self.awaiting < usize::MAX),
    {
        self.stats.request_count < usize::MAX && self.awaiting < usize::MAX
    }

    /// A request passed the request middlewares and goes to the downloader: it is counted, and
    /// its download is awaited.
    pub fn request_sent(&mut self)
        requires
            old(self).stats.request_count < usize::MAX,
            old(self).awaiting < usize::MAX,
        ensures
            *final(self) == after_request_sent(*old(self)),
            old(self).counts_consistent() ==> final(self).counts_consistent(),
    {
        self.stats.record_request();
        self.awaiting = self.awaiting + 1;
    }

    /// Whether the download of a sent request can end, with a response where `got_response`,
    /// without a count going wrong.
    pub fn can_end_download(&self, got_response: bool) -> (r: bool)
        ensures
            r == (self.awaiting > 0 && (got_response ==> self.stats.response_count < usize::MAX)),
    {
        self.awaiting > 0 && (!got_response || self.stats.response_count < usize::MAX)
    }

    /// The download of a sent request ended: with a response, which is counted, or without one
    /// (it failed, or the request was not taken).
    pub fn download_ended(&mut self, got_response: bool)
        requires
            old(self).awaiting > 0,
            got_response ==> old(self).stats.response_count < usize::MAX,
        ensures
            *final(self) == after_download(*old(self), got_response),
            old(self).counts_consistent() ==> final(self).counts_consistent(),
    {
        if got_response {
            self.stats.record_response();
        }
        self.awaiting = self.awaiting - 1;
    }

    /// Whether the crawl loop goes on: requests wait, or tasks are under way.
    pub fn loop_continues(&self, scheduler_empty: bool, tasks_pending: bool) -> (r: bool)
        ensures
            r == (!scheduler_empty || self.active_tasks > 0 || tasks_pending),
    {
        !scheduler_empty || self.active_tasks > 0 || tasks_pending
    }
}

impl EngineStats {
    /// No counts and no times.
    pub open spec fn new_spec() -> EngineStats {
        EngineStats { request_count: 0, response_count: 0, item_count: 0, error_count: 0, start_time: None, end_time: None }
    }
}

/// The components an engine is built with from its configuration.
#[derive(Debug)]
pub struct ComponentPlan {
    /// Log each item (else items pass through a pipeline that does nothing)
    pub log_pipeline: bool,
    /// The User-Agent header the default-headers middleware adds
    pub user_agent: String,
    /// Log each response
    pub response_logger: bool,
    /// Retry responses with retryable status codes
    pub retry_middleware: bool,
    /// Watch memory and task counts
    pub resource_monitoring: bool,
    /// Size in bytes of what a domain's slot may have in flight
    pub slot_max_active_size: usize,
    /// Delay between two requests of a slot, in milliseconds
    pub slot_delay: u64,
    /// Capacity of the channel that carries items to the pipeline
    pub item_channel_capacity: usize,
    /// Downloads at once
    pub downloader_concurrency: usize,
    /// Download timeout in seconds
    pub downloader_timeout: u64,
    /// Whether the downloader retries
    pub downloader_retry_enabled: bool,
    /// How often the downloader retries
    pub downloader_max_retries: u32,
}

/// Plans the components of an engine from its configuration.
pub fn plan_components(config: &EngineConfig) -> (r: ComponentPlan)
    ensures
        r.log_pipeline == config.log_items,
        r.user_agent@ == config.user_agent@,
        r.response_logger == config.log_requests,
        r.retry_middleware == config.retry_enabled,
        r.resource_monitoring == config.enable_resource_monitoring,
        r.slot_max_active_size == config.max_active_size_per_domain,
        r.slot_delay == config.delay_per_domain,
        r.item_channel_capacity == config.concurrent_items,
        r.downloader_concurrency == config.concurrent_requests,
        r.downloader_timeout == config.request_timeout,
        r.downloader_retry_enabled == config.retry_enabled,
        r.downloader_max_retries == config.max_retries,
{
    ComponentPlan {
        log_pipeline: config.log_items,
        user_agent: config.user_agent.clone(),
        response_logger: config.log_requests,
        retry_middleware: config.retry_enabled,
        resource_monitoring: config.enable_resource_monitoring,
        slot_max_active_size: config.max_active_size_per_domain,
        slot_delay: config.delay_per_domain,
        item_channel_capacity: config.concurrent_items,
        downloader_concurrency: config.concurrent_requests,
        downloader_timeout: config.request_timeout,
        downloader_retry_enabled: config.retry_enabled,
        downloader_max_retries: config.max_retries,
    }
}

/// How long each part of closing may take before the engine gives up on it, in milliseconds.
pub fn close_step_timeout_ms() -> (r: u64)
    ensures
        r == 5000,
{
    5000
}

/// Pausing a running crawl and resuming it gives back the state it had.
pub proof fn law_pause_resume(c: CrawlCore, paused: CrawlCore, resumed: CrawlCore)
    requires
        c.running,
        paused == (CrawlCore { running: false, ..c }),
        resumed == (CrawlCore { running: true, ..paused }),
    ensures
        resumed == c,
{
}

/// Tasks start only as `may_start_task` allows and finish one at a time, so the number under
/// way never passes the configured number of concurrent requests.
pub proof fn law_tasks_bounded(c: CrawlCore, next: CrawlCore, limit: usize, scheduler_empty: bool)
    requires
        c.active_tasks <= limit,
        (c.running && !scheduler_empty && c.active_tasks < limit && next == (CrawlCore {
            active_tasks: (c.active_tasks + 1) as usize,
            ..c
        })) || (c.active_tasks > 0 && next == (CrawlCore { active_tasks: (c.active_tasks - 1) as usize, ..c })),
    ensures
        next.active_tasks <= limit,
{
}

/// A response is never counted without its request: every step of the crawl keeps the counts
/// consistent, so responses never outnumber requests.
pub proof fn law_responses_never_outnumber_requests(c: CrawlCore, got_response: bool, e: CrawlEvent)
    requires
        c.counts_consistent(),
    ensures
        c.stats.response_count <= c.stats.request_count,
        c.stats.request_count < usize::MAX && c.awaiting < usize::MAX ==> after_request_sent(c).counts_consistent(),
        c.awaiting > 0 ==> after_download(c, got_response).counts_consistent(),
        (CrawlCore { stats: counted(c.stats, e), ..c }).counts_consistent(),
        (CrawlCore { running: !c.running, ..c }).counts_consistent(),
{
}

} // verus!
