use vstd::prelude::*;
use crate::error::{fresh_context_view, Error};
use crate::text::concat;

verus! {

/// Statistics for the crawler engine
#[derive(Debug, Clone, Copy, PartialEq, Eq)]
pub struct EngineStats {
    /// Number of requests sent
    pub request_count: usize,
    /// Number of responses received
    pub response_count: usize,
    /// Number of items scraped
    pub item_count: usize,
    /// Number of errors
    pub error_count: usize,
    /// Start time of the crawl, in milliseconds on the engine's clock
    pub start_time: Option<u64>,
    /// End time of the crawl, in milliseconds on the engine's clock
    pub end_time: Option<u64>,
}

/// `a - b`, or zero where `b` is later (a clock reading before the start counts as no time).
pub open spec fn elapsed_spec(a: u64, b: u64) -> u64 {
    if a >= b {
        (a - b) as u64
    } else {
        0
    }
}

impl EngineStats {
    /// No counts and no times.
    pub fn new() -> (r: Self)
        ensures
            r == (EngineStats {
                request_count: 0,
                response_count: 0,
                item_count: 0,
                error_count: 0,
                start_time: None,
                end_time: None,
            }),
    {
        EngineStats {
            request_count: 0,
            response_count: 0,
            item_count: 0,
            error_count: 0,
            start_time: None,
            end_time: None,
        }
    }

    /// The duration of the crawl in milliseconds: from start to end, or to `now` while it
    /// runs; none before it starts
    pub fn duration(&self, now: u64) -> (r: Option<u64>)
        ensures
            r == match (self.start_time, self.end_time) {
                (Some(s), Some(e)) => Some(elapsed_spec(e, s)),
                (Some(s), None) => Some(elapsed_spec(now, s)),
                _ => None,
            },
    {
        match (self.start_time, self.end_time) {
            (Some(s), Some(e)) => Some(if e >= s { e - s } else { 0 }),
            (Some(s), None) => Some(if now >= s { now - s } else { 0 }),
            _ => None,
        }
    }

    /// Prepare the stats for serialization by removing the clock readings
    pub fn prepare_for_serialization(&mut self)
        ensures
            *final(self) == (EngineStats { start_time: None, end_time: None, ..*old(self) }),
    {
        self.start_time = None;
        self.end_time = None;
    }

    /// Restore the stats after deserialization: the crawl counts as started `now`
    pub fn after_deserialization(&mut self, now: u64)
        ensures
            *final(self) == (EngineStats { start_time: Some(now), end_time: None, ..*old(self) }),
    {
        self.start_time = Some(now);
        self.end_time = None;
    }

    /// One more request sent.
    pub fn record_request(&mut self)
        requires
            old(self).request_count < usize::MAX,
        ensures
            *final(self) == (EngineStats { request_count: (old(self).request_count + 1) as usize, ..*old(self) }),
    {
        self.request_count = self.request_count + 1;
    }

    /// One more response received.
    pub fn record_response(&mut self)
        requires
            old(self).response_count < usize::MAX,
        ensures
            *final(self) == (EngineStats { response_count: (old(self).response_count + 1) as usize, ..*old(self) }),
    {
        self.response_count = self.response_count + 1;
    }

    /// One more item scraped.
    pub fn record_item(&mut self)
        requires
            old(self).item_count < usize::MAX,
        ensures
            *final(self) == (EngineStats { item_count: (old(self).item_count + 1) as usize, ..*old(self) }),
    {
        self.item_count = self.item_count + 1;
    }

    /// One more error.
    pub fn record_error(&mut self)
        requires
            old(self).error_count < usize::MAX,
        ensures
            *final(self) == (EngineStats { error_count: (old(self).error_count + 1) as usize, ..*old(self) }),
    {
        self.error_count = self.error_count + 1;
    }
}

impl Default for EngineStats {
    fn default() -> (r: Self)
        ensures
            r == (EngineStats {
                request_count: 0,
                response_count: 0,
                item_count: 0,
                error_count: 0,
                start_time: None,
                end_time: None,
            }),
    {
        EngineStats::new()
    }
}

/// Engine state for serialization and persistence
#[derive(Debug, Clone, Copy)]
pub struct EngineState {
    /// Engine statistics
    pub stats: EngineStats,
}

/// A step of saving or loading the engine's state.
#[derive(Debug, Clone, Copy, PartialEq, Eq, Structural)]
pub enum StateStep {
    Serialize,
    Write,
    Read,
    Deserialize,
}

/// The message prefix of a failed step.
pub open spec fn state_step_prefix(step: StateStep) -> Seq<char> {
    match step {
        StateStep::Serialize => "Failed to serialize engine state: "@,
        StateStep::Write => "Failed to write engine state to file: "@,
        StateStep::Read => "Failed to read engine state from file: "@,
        StateStep::Deserialize => "Failed to deserialize engine state: "@,
    }
}

/// The error a failed step of saving or loading the state is reported as, with the outside
/// error's text as `detail`.
pub fn state_error(step: StateStep, detail: &str) -> (r: Error)
    ensures
        r matches Error::Other { message, context } && message@ == state_step_prefix(step) + detail@
            && context@ == fresh_context_view(),
{
    let prefix = match step {
        StateStep::Serialize => "Failed to serialize engine state: ",
        StateStep::Write => "Failed to write engine state to file: ",
        StateStep::Read => "Failed to read engine state from file: ",
        StateStep::Deserialize => "Failed to deserialize engine state: ",
    };
    Error::other(concat(prefix, detail))
}

} // verus!
