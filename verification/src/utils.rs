use vstd::prelude::*;
use crate::config::{CrawlStrategy, EngineConfig, SchedulerType};
use crate::text::{concat, decimal, u64_text};
use crate::web_url::WebUrl;

verus! {

/// The domain of a URL: its host, or "unknown" where it has none.
pub open spec fn url_domain(url: (Seq<char>, Option<Seq<char>>)) -> Seq<char> {
    match url.1 {
        Some(h) => h,
        None => "unknown"@,
    }
}

/// Extract domain from URL
pub fn extract_domain(url: &WebUrl) -> (r: String)
    ensures
        r@ == url_domain(url@),
{
    match url.host_str() {
        Some(h) => h.to_owned(),
        None => String::from_str("unknown"),
    }
}

/// A duration of `total_seconds` written as hours, minutes and seconds: "1h 2m 3s".
pub open spec fn duration_text(total_seconds: u64) -> Seq<char> {
    decimal((total_seconds / 3600) as nat) + "h "@ + decimal(((total_seconds % 3600) / 60) as nat) + "m "@
        + decimal((total_seconds % 60) as nat) + "s"@
}

/// Format a duration (whole seconds) in human-readable form
pub fn format_duration(total_seconds: u64) -> (r: String)
    ensures
        r@ == duration_text(total_seconds),
{
    let hours = total_seconds / 3600;
    let minutes = (total_seconds % 3600) / 60;
    let seconds = total_seconds % 60;
    let a = concat(u64_text(hours).as_str(), "h ");
    let b = concat(a.as_str(), u64_text(minutes).as_str());
    let c = concat(b.as_str(), "m ");
    let d = concat(c.as_str(), u64_text(seconds).as_str());
    concat(d.as_str(), "s")
}

/// Which scheduler an engine is built with, and its settings.
#[derive(Debug, Clone, Copy, PartialEq, Eq, Structural)]
pub enum SchedulerPlan {
    /// A priority queue in memory
    Memory,
    /// Per-domain queues
    DomainGroup {
        strategy: CrawlStrategy,
        max_requests_per_domain: Option<usize>,
        domain_delay_ms: Option<u64>,
        respect_depth: bool,
        max_depth: Option<usize>,
    },
    /// Shallowest requests first
    BreadthFirst { max_depth: Option<usize> },
    /// Deepest requests first
    DepthFirst { max_depth: Option<usize> },
}

/// The scheduler that a configuration asks for: a domain-group scheduler takes the crawl
/// strategy, per-domain limit and delay and depth limit of the configuration, respects depth,
/// and has no domain lists; the depth-ordered ones take the depth limit.
pub open spec fn scheduler_plan_spec(config: EngineConfig) -> SchedulerPlan {
    match config.scheduler_type {
        SchedulerType::Memory => SchedulerPlan::Memory,
        SchedulerType::DomainGroup => SchedulerPlan::DomainGroup {
            strategy: config.crawl_strategy,
            max_requests_per_domain: config.max_requests_per_domain,
            domain_delay_ms: config.domain_delay_ms,
            respect_depth: true,
            max_depth: config.max_depth,
        },
        SchedulerType::BreadthFirst => SchedulerPlan::BreadthFirst { max_depth: config.max_depth },
        SchedulerType::DepthFirst => SchedulerPlan::DepthFirst { max_depth: config.max_depth },
    }
}

/// Plans the scheduler from the engine configuration
pub fn create_scheduler(config: &EngineConfig) -> (r: SchedulerPlan)
    ensures
        r == scheduler_plan_spec(*config),
{
    match config.scheduler_type {
        SchedulerType::Memory => SchedulerPlan::Memory,
        SchedulerType::DomainGroup => SchedulerPlan::DomainGroup {
            strategy: config.crawl_strategy,
            max_requests_per_domain: config.max_requests_per_domain,
            domain_delay_ms: config.domain_delay_ms,
            respect_depth: true,
            max_depth: config.max_depth,
        },
        SchedulerType::BreadthFirst => SchedulerPlan::BreadthFirst { max_depth: config.max_depth },
        SchedulerType::DepthFirst => SchedulerPlan::DepthFirst { max_depth: config.max_depth },
    }
}

/// The kind of scheduler a plan builds.
pub open spec fn plan_kind(p: SchedulerPlan) -> SchedulerType {
    match p {
        SchedulerPlan::Memory => SchedulerType::Memory,
        SchedulerPlan::DomainGroup { .. } => SchedulerType::DomainGroup,
        SchedulerPlan::BreadthFirst { .. } => SchedulerType::BreadthFirst,
        SchedulerPlan::DepthFirst { .. } => SchedulerType::DepthFirst,
    }
}

/// The engine is built with the kind of scheduler its configuration names: a breadth-first
/// configuration gives a breadth-first scheduler, a depth-first one a depth-first scheduler,
/// and so on; the depth-ordered and domain-group schedulers keep the configured depth limit,
/// and a domain-group scheduler the configured strategy, per-domain limit and delay.
pub proof fn law_scheduler_kind_matches(config: EngineConfig)
    ensures
        plan_kind(scheduler_plan_spec(config)) == config.scheduler_type,
        config.scheduler_type == SchedulerType::Memory ==> scheduler_plan_spec(config) == SchedulerPlan::Memory,
        config.scheduler_type == SchedulerType::BreadthFirst ==> scheduler_plan_spec(config)
            == (SchedulerPlan::BreadthFirst { max_depth: config.max_depth }),
        config.scheduler_type == SchedulerType::DepthFirst ==> scheduler_plan_spec(config)
            == (SchedulerPlan::DepthFirst { max_depth: config.max_depth }),
        config.scheduler_type == SchedulerType::DomainGroup ==> (scheduler_plan_spec(config) matches
            SchedulerPlan::DomainGroup { strategy, max_requests_per_domain, domain_delay_ms, respect_depth, max_depth }
            && strategy == config.crawl_strategy && max_requests_per_domain == config.max_requests_per_domain
            && domain_delay_ms == config.domain_delay_ms && respect_depth && max_depth == config.max_depth),
{
}

} // verus!
