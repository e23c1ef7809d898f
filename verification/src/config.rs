use vstd::prelude::*;
use crate::text::concat;

verus! {

/// Scheduler type to use
#[derive(Debug, Clone, Copy, PartialEq, Eq, Structural)]
pub enum SchedulerType {
    /// Memory-based scheduler with priority queue
    Memory,
    /// Domain-aware scheduler with per-domain queues
    DomainGroup,
    /// Breadth-first search scheduler
    BreadthFirst,
    /// Depth-first search scheduler
    DepthFirst,
}

impl Default for SchedulerType {
    fn default() -> (r: Self)
        ensures
            r == SchedulerType::Memory,
    {
        SchedulerType::Memory
    }
}

/// The order in which a domain-aware scheduler hands out requests
#[derive(Debug, Clone, Copy, PartialEq, Eq, Structural)]
pub enum CrawlStrategy {
    /// Highest priority first
    Priority,
    /// Shallowest first
    BreadthFirst,
    /// Deepest first
    DepthFirst,
}

/// The version of this package, as the default user agent names it.
pub open spec fn package_version() -> Seq<char> {
    "0.1.0"@
}

/// The default user agent: "scrapy_rs/" and the package version.
pub fn default_user_agent() -> (r: String)
    ensures
        r@ == "scrapy_rs/"@ + package_version(),
{
    concat("scrapy_rs/", "0.1.0")
}

/// Configuration for the crawler engine (resource limits, which hold fractions, travel
/// beside it)
#[derive(Debug, Clone)]
pub struct EngineConfig {
    /// Maximum number of concurrent requests
    pub concurrent_requests: usize,
    /// Maximum number of items to process concurrently
    pub concurrent_items: usize,
    /// Delay between requests in milliseconds
    pub download_delay_ms: u64,
    /// Maximum number of requests per domain
    pub max_requests_per_domain: Option<usize>,
    /// Maximum number of requests per spider
    pub max_requests_per_spider: Option<usize>,
    /// Whether to respect robots.txt
    pub respect_robots_txt: bool,
    /// User agent string
    pub user_agent: String,
    /// Default request timeout in seconds
    pub request_timeout: u64,
    /// Whether to retry failed requests
    pub retry_enabled: bool,
    /// Maximum number of retries
    pub max_retries: u32,
    /// Whether to follow redirects
    pub follow_redirects: bool,
    /// Maximum depth to crawl
    pub max_depth: Option<usize>,
    /// Whether to log requests and responses
    pub log_requests: bool,
    /// Whether to log items
    pub log_items: bool,
    /// Whether to log stats
    pub log_stats: bool,
    /// Interval for logging stats in seconds
    pub stats_interval_secs: u64,
    /// Type of scheduler to use
    pub scheduler_type: SchedulerType,
    /// Crawl strategy to use
    pub crawl_strategy: CrawlStrategy,
    /// Delay between requests to the same domain (in milliseconds)
    pub domain_delay_ms: Option<u64>,
    /// Enable resource monitoring
    pub enable_resource_monitoring: bool,
    /// Size in bytes of the responses a domain's slot may have in flight before it throttles
    pub max_active_size_per_domain: usize,
    /// Delay between two requests of the same slot (in milliseconds)
    pub delay_per_domain: u64,
}

impl Default for EngineConfig {
    fn default() -> (r: Self)
        ensures
            r.concurrent_requests == 16,
            r.concurrent_items == 100,
            r.download_delay_ms == 0,
            r.max_requests_per_domain is None,
            r.max_requests_per_spider is None,
            r.respect_robots_txt,
            r.user_agent@ == "scrapy_rs/"@ + package_version(),
            r.request_timeout == 30,
            r.retry_enabled,
            r.max_retries == 3,
            r.follow_redirects,
            r.max_depth is None,
            r.log_requests,
            r.log_items,
            r.log_stats,
            r.stats_interval_secs == 60,
            r.scheduler_type == SchedulerType::Memory,
            r.crawl_strategy == CrawlStrategy::Priority,
            r.domain_delay_ms is None,
            !r.enable_resource_monitoring,
            r.max_active_size_per_domain == 5_000_000,
            r.delay_per_domain == 0,
    {
        EngineConfig {
            concurrent_requests: 16,
            concurrent_items: 100,
            download_delay_ms: 0,
            max_requests_per_domain: None,
            max_requests_per_spider: None,
            respect_robots_txt: true,
            user_agent: default_user_agent(),
            request_timeout: 30,
            retry_enabled: true,
            max_retries: 3,
            follow_redirects: true,
            max_depth: None,
            log_requests: true,
            log_items: true,
            log_stats: true,
            stats_interval_secs: 60,
            scheduler_type: SchedulerType::Memory,
            crawl_strategy: CrawlStrategy::Priority,
            domain_delay_ms: None,
            enable_resource_monitoring: false,
            max_active_size_per_domain: 5_000_000,
            delay_per_domain: 0,
        }
    }
}

} // verus!
