use vstd::prelude::*;
use crate::config::package_version;
use crate::error::{fresh_context_view, Error, HttpError};
use crate::error_handler::pow2;
use crate::text::concat;

verus! {

/// Configuration for the downloader (the backoff multiplier, a fraction, travels beside it)
#[derive(Debug, Clone)]
pub struct DownloaderConfig {
    /// Maximum number of concurrent requests
    pub concurrent_requests: usize,
    /// User agent string
    pub user_agent: String,
    /// Default request timeout in seconds
    pub timeout: u64,
    /// Whether to retry failed requests
    pub retry_enabled: bool,
    /// Maximum number of retries
    pub max_retries: u32,
    /// Initial retry delay in milliseconds
    pub retry_delay_ms: u64,
    /// Maximum retry delay in milliseconds
    pub max_retry_delay_ms: u64,
}

impl Default for DownloaderConfig {
    fn default() -> (r: Self)
        ensures
            r.concurrent_requests == 10,
            r.user_agent@ == "scrapy_rs/"@ + package_version(),
            r.timeout == 30,
            r.retry_enabled,
            r.max_retries == 3,
            r.retry_delay_ms == 1000,
            r.max_retry_delay_ms == 30000,
    {
        DownloaderConfig {
            concurrent_requests: 10,
            user_agent: crate::config::default_user_agent(),
            timeout: 30,
            retry_enabled: true,
            max_retries: 3,
            retry_delay_ms: 1000,
            max_retry_delay_ms: 30000,
        }
    }
}

/// How many times a download is retried: none where retrying is off.
pub open spec fn effective_retries(config: DownloaderConfig) -> u32 {
    if config.retry_enabled {
        config.max_retries
    } else {
        0
    }
}

/// Whether the delay before retry number `retries + 1` fits in a `u64`.
pub open spec fn retry_delay_fits(config: DownloaderConfig, retries: u32) -> bool {
    pow2(retries as nat) <= u64::MAX && config.retry_delay_ms * pow2(retries as nat) <= u64::MAX
}

impl DownloaderConfig {
    /// After `retries` retries, a download failed with `error`: the delay (milliseconds) before
    /// trying again, doubling from the initial delay with each retry; `None` where the error is
    /// not retryable or the retries are used up.
    pub fn retry_after_failure(&self, retries: u32, error: &Error) -> (r: Option<u64>)
        requires
            retries < effective_retries(*self) && error.retryable_spec() ==> retry_delay_fits(*self, retries),
        ensures
            r is Some <==> retries < effective_retries(*self) && error.retryable_spec(),
            r matches Some(d) ==> d == self.retry_delay_ms * pow2(retries as nat),
    {
        let max_retries = if self.retry_enabled {
            self.max_retries
        } else {
            0
        };
        if retries >= max_retries || !error.is_retryable() {
            return None;
        }
        let mut factor: u64 = 1;
        let mut i: u32 = 0;
        while i < retries
            invariant
                i <= retries,
                factor == pow2(i as nat),
                pow2(retries as nat) <= u64::MAX,
            decreases retries - i,
        {
            proof {
                crate::error_handler::lemma_pow2_monotone(i as nat + 1, retries as nat);
            }
            factor = factor * 2;
            i = i + 1;
        }
        Some(self.retry_delay_ms * factor)
    }
}

/// Where a download went wrong.
#[derive(Debug, Clone, Copy, PartialEq, Eq, Structural)]
pub enum DownloadStage {
    /// Building the HTTP client
    Client,
    /// Waiting for a download slot
    Permit,
    /// Sending the request
    Send,
    /// Reading the response body
    Body,
}

/// The error a download failure is reported as, with the outside error's text as `detail`.
pub open spec fn download_error_ok(stage: DownloadStage, detail: Seq<char>, e: Error) -> bool {
    match stage {
        DownloadStage::Client => e matches Error::Other { message, context }
            && message@ == "Failed to create HTTP client: "@ + detail && context@ == fresh_context_view(),
        DownloadStage::Permit => e matches Error::Other { message, context }
            && message@ == "Failed to acquire semaphore permit: "@ + detail && context@ == fresh_context_view(),
        DownloadStage::Send => e matches Error::Http { error: HttpError::ClientError { status, message }, context }
            && status == 0 && message@ == "HTTP request failed: "@ + detail && context@ == fresh_context_view(),
        DownloadStage::Body => e matches Error::Http { error: HttpError::ClientError { status, message }, context }
            && status == 0 && message@ == "Failed to read response body: "@ + detail
            && context@ == fresh_context_view(),
    }
}

/// The error a download failure at `stage` is reported as.
pub fn download_error(stage: DownloadStage, detail: &str) -> (r: Error)
    ensures
        download_error_ok(stage, detail@, r),
{
    match stage {
        DownloadStage::Client => Error::other(concat("Failed to create HTTP client: ", detail)),
        DownloadStage::Permit => Error::other(concat("Failed to acquire semaphore permit: ", detail)),
        DownloadStage::Send => Error::http(
            HttpError::ClientError { status: 0, message: concat("HTTP request failed: ", detail) },
        ),
        DownloadStage::Body => Error::http(
            HttpError::ClientError { status: 0, message: concat("Failed to read response body: ", detail) },
        ),
    }
}

} // verus!
