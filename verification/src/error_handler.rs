use vstd::prelude::*;
use crate::countmap::CountMap;
use crate::response::Response;
use crate::error::{Error, HttpError, NetworkError, error_text, fresh_context_view, kind_name_spec};
use crate::request::{MetaValue, MetaView, Request, RequestView, fresh_request_view, meta_as_u64, strings_view, contains_string};
use crate::text::{concat, decimal, opt_duration_debug_string, opt_duration_debug_text, parse_u32, parsed_u32, u64_text};
use crate::web_url::{parsed_url, WebUrl};

verus! {

/// Error action to take after handling an error
#[derive(Debug)]
pub enum ErrorAction {
    /// Ignore the error and continue
    Ignore,
    /// Retry the request, after `delay` milliseconds (if None, use default delay)
    Retry { request: Request, delay: Option<u128>, reason: String },
    /// Abort the crawl
    Abort { reason: String },
    /// Skip the current item/request and continue
    Skip { reason: String },
}

/// How an action is described: its kind, and for a retry the URL, the delay as an optional
/// duration and the reason; for an abort or a skip the reason.
pub open spec fn action_text(a: ErrorAction) -> Seq<char> {
    match a {
        ErrorAction::Ignore => "Ignore"@,
        ErrorAction::Retry { request, delay, reason } => "Retry "@ + request@.url.0 + " after "@
            + opt_duration_debug_text(match delay { Some(ms) => Some(ms as nat), None => None }) + ": "@ + reason@,
        ErrorAction::Abort { reason } => "Abort: "@ + reason@,
        ErrorAction::Skip { reason } => "Skip: "@ + reason@,
    }
}

impl ErrorAction {
    /// Describe the action in words.
    pub fn describe(&self) -> (r: String)
        ensures
            r@ == action_text(*self),
    {
        match self {
            ErrorAction::Ignore => "Ignore".to_owned(),
            ErrorAction::Retry { request, delay, reason } => {
                let head = concat("Retry ", request.url.as_str());
                let head = concat(head.as_str(), " after ");
                let delay_text = opt_duration_debug_string(*delay);
                let head = concat(head.as_str(), delay_text.as_str());
                let head = concat(head.as_str(), ": ");
                concat(head.as_str(), reason.as_str())
            },
            ErrorAction::Abort { reason } => concat("Abort: ", reason.as_str()),
            ErrorAction::Skip { reason } => concat("Skip: ", reason.as_str()),
        }
    }
}

/// What a default error handler does with an error: pass it to the handler registered for
/// its kind, or act on it itself.
#[derive(Debug)]
pub enum HandlerOutcome {
    /// Hand the error to the custom handler registered for this kind of error
    Delegate(String),
    /// Take this action
    Act(ErrorAction),
}

/// The settings of a default error handler.
pub struct HandlerConfig {
    pub max_retries: u32,
    pub retry_network_errors: bool,
    pub retry_http_errors: bool,
    pub retry_parse_errors: bool,
    pub base_delay: u64,
    pub max_delay: u64,
    pub custom_kinds: Set<Seq<char>>,
}

/// Default error handler that implements common error handling strategies
#[derive(Debug)]
pub struct DefaultErrorHandler {
    max_retries: u32,
    retry_network_errors: bool,
    retry_http_errors: bool,
    retry_parse_errors: bool,
    /// Base delay for exponential backoff (in seconds)
    base_delay: u64,
    /// Maximum delay for exponential backoff (in seconds)
    max_delay: u64,
    /// The kinds of error that have a custom handler
    custom_kinds: Vec<String>,
}

impl View for DefaultErrorHandler {
    type V = HandlerConfig;

    closed spec fn view(&self) -> HandlerConfig {
        HandlerConfig {
            max_retries: self.max_retries,
            retry_network_errors: self.retry_network_errors,
            retry_http_errors: self.retry_http_errors,
            retry_parse_errors: self.retry_parse_errors,
            base_delay: self.base_delay,
            max_delay: self.max_delay,
            custom_kinds: strings_view(self.custom_kinds@).to_set(),
        }
    }
}

/// Two to the power `n`.
pub open spec fn pow2(n: nat) -> nat
    decreases n,
{
    if n == 0 {
        1
    } else {
        2 * pow2((n - 1) as nat)
    }
}

/// Exponential backoff in seconds: `base * 2^count`, capped at `max`.
pub open spec fn backoff_secs(base: u64, max: u64, count: u32) -> nat {
    let d = base * pow2(count as nat);
    if d <= max {
        d as nat
    } else {
        max as nat
    }
}

/// The request to retry that an error's context describes: a GET of its URL, with the
/// request ID and the retry count of the context copied into its meta.
pub open spec fn retry_request_spec(e: Error) -> Option<RequestView> {
    match e.context_view() {
        Some(c) => match c.url {
            Some(u) => match parsed_url(u) {
                Ok(p) => {
                    let base = fresh_request_view(p, crate::request::Method::GET, None);
                    let with_id = match c.request_id {
                        Some(id) => RequestView { meta: base.meta.insert("request_id"@, MetaView::Text(id)), ..base },
                        None => base,
                    };
                    let with_count = if c.metadata.contains_key("retry_count"@)
                        && parsed_u32(c.metadata["retry_count"@]) is Some {
                        RequestView {
                            meta: with_id.meta.insert(
                                "retry_count"@,
                                MetaView::Int(parsed_u32(c.metadata["retry_count"@])->0 as int),
                            ),
                            ..with_id
                        }
                    } else {
                        with_id
                    };
                    Some(with_count)
                },
                Err(_) => None,
            },
            None => None,
        },
        None => None,
    }
}

/// The retry count a request carries in its meta (0 where it carries none).
pub open spec fn retry_count_of(r: RequestView) -> u64 {
    if r.meta.contains_key("retry_count"@) && meta_as_u64(r.meta["retry_count"@]) is Some {
        meta_as_u64(r.meta["retry_count"@])->0
    } else {
        0
    }
}

/// Whether the handler's settings allow retrying this error.
pub open spec fn should_retry_spec(cfg: HandlerConfig, e: Error) -> bool {
    match e {
        Error::Network { .. } => cfg.retry_network_errors && e.retryable_spec(),
        Error::Http { .. } => cfg.retry_http_errors && e.retryable_spec(),
        Error::Parse { .. } => cfg.retry_parse_errors,
        _ => false,
    }
}

/// `base * 2^count` fits in a `u64`, and so does `2^count`: the backoff for this retry count
/// can be computed.
pub open spec fn backoff_fits(base: u64, count: u32) -> bool {
    &&& pow2(count as nat) <= u64::MAX
    &&& base * pow2(count as nat) <= u64::MAX
}

/// The retry count for which the handler computes an exponential backoff for this error, if
/// it does: the error is retried, and the error names no delay of its own.
pub open spec fn backoff_count(cfg: HandlerConfig, e: Error) -> Option<u32> {
    if cfg.custom_kinds.contains(kind_name_spec(&e)) {
        None
    } else {
        match retry_request_spec(e) {
            None => None,
            Some(req) => {
                let count = retry_count_of(req);
                if count < cfg.max_retries && should_retry_spec(cfg, e) && e.retry_delay_spec() is None {
                    Some(count as u32)
                } else {
                    None
                }
            },
        }
    }
}

/// The handler can decide on this error without overflow: where it computes a backoff, the
/// backoff fits.
pub open spec fn backoff_defined(cfg: HandlerConfig, e: Error) -> bool {
    backoff_count(cfg, e) matches Some(c) ==> backoff_fits(cfg.base_delay, c)
}

impl DefaultErrorHandler {
    /// Create a new default error handler: three retries of network and HTTP errors,
    /// backoff from 1 s up to 60 s, no custom handlers.
    pub fn new() -> (r: Self)
        ensures
            r@ == (HandlerConfig {
                max_retries: 3,
                retry_network_errors: true,
                retry_http_errors: true,
                retry_parse_errors: false,
                base_delay: 1,
                max_delay: 60,
                custom_kinds: Set::empty(),
            }),
    {
        let r = DefaultErrorHandler {
            max_retries: 3,
            retry_network_errors: true,
            retry_http_errors: true,
            retry_parse_errors: false,
            base_delay: 1,
            max_delay: 60,
            custom_kinds: Vec::new(),
        };
        proof {
            assert(strings_view(r.custom_kinds@).to_set() =~= Set::<Seq<char>>::empty());
        }
        r
    }

    /// Set the maximum number of retries
    pub fn with_max_retries(self, max_retries: u32) -> (r: Self)
        ensures
            r@ == (HandlerConfig { max_retries, ..self@ }),
    {
        DefaultErrorHandler { max_retries, ..self }
    }

    /// Set whether to retry network errors
    pub fn with_retry_network_errors(self, retry: bool) -> (r: Self)
        ensures
            r@ == (HandlerConfig { retry_network_errors: retry, ..self@ }),
    {
        DefaultErrorHandler { retry_network_errors: retry, ..self }
    }

    /// Set whether to retry HTTP errors
    pub fn with_retry_http_errors(self, retry: bool) -> (r: Self)
        ensures
            r@ == (HandlerConfig { retry_http_errors: retry, ..self@ }),
    {
        DefaultErrorHandler { retry_http_errors: retry, ..self }
    }

    /// Set whether to retry parse errors
    pub fn with_retry_parse_errors(self, retry: bool) -> (r: Self)
        ensures
            r@ == (HandlerConfig { retry_parse_errors: retry, ..self@ }),
    {
        DefaultErrorHandler { retry_parse_errors: retry, ..self }
    }

    /// Set the base delay for exponential backoff, in seconds
    pub fn with_base_delay(self, base_delay: u64) -> (r: Self)
        ensures
            r@ == (HandlerConfig { base_delay, ..self@ }),
    {
        DefaultErrorHandler { base_delay, ..self }
    }

    /// Set the maximum delay for exponential backoff, in seconds
    pub fn with_max_delay(self, max_delay: u64) -> (r: Self)
        ensures
            r@ == (HandlerConfig { max_delay, ..self@ }),
    {
        DefaultErrorHandler { max_delay, ..self }
    }

    /// Registers a custom handler for one kind of error (by its kind name, such as "http"):
    /// errors of that kind are then delegated to it.
    pub fn with_custom_handler(self, error_type: &str) -> (r: Self)
        ensures
            r@ == (HandlerConfig { custom_kinds: self@.custom_kinds.insert(error_type@), ..self@ }),
    {
        let mut s = self;
        if !contains_string(&s.custom_kinds, error_type) {
            s.custom_kinds.push(error_type.to_owned());
            proof {
                assert(strings_view(s.custom_kinds@) =~= strings_view(self.custom_kinds@).push(error_type@));
                lemma_push_to_set(strings_view(self.custom_kinds@), error_type@);
            }
        } else {
            proof {
                assert(strings_view(s.custom_kinds@).to_set() =~= strings_view(self.custom_kinds@).to_set().insert(error_type@));
            }
        }
        s
    }

    /// The retry delay by exponential backoff, `base * 2^count` seconds capped at the
    /// maximum, in milliseconds.
    fn calculate_retry_delay(&self, retry_count: u32) -> (r: u128)
        requires
            backoff_fits(self.base_delay, retry_count),
        ensures
            r == backoff_secs(self.base_delay, self.max_delay, retry_count) * 1000,
    {
        let mut d: u64 = self.base_delay;
        let mut i: u32 = 0;
        assert(pow2(0) == 1);
        while i < retry_count
            invariant
                backoff_fits(self.base_delay, retry_count),
                i <= retry_count,
                d == self.base_delay * pow2(i as nat),
            decreases retry_count - i,
        {
            proof {
                lemma_pow2_monotone(i as nat + 1, retry_count as nat);
                assert(pow2(i as nat + 1) == 2 * pow2(i as nat));
                assert(self.base_delay * pow2(i as nat + 1) == 2 * d) by (nonlinear_arith)
                    requires d == self.base_delay * pow2(i as nat), pow2(i as nat + 1) == 2 * pow2(i as nat);
                assert(self.base_delay * pow2(i as nat + 1) <= self.base_delay * pow2(retry_count as nat)) by (nonlinear_arith)
                    requires pow2(i as nat + 1) <= pow2(retry_count as nat);
            }
            d = d * 2;
            i = i + 1;
        }
        let capped = if d <= self.max_delay { d } else { self.max_delay };
        capped as u128 * 1000
    }

    /// Whether this handler can decide on `error` without overflow (see `handle_error`).
    pub fn backoff_defined(&self, error: &Error) -> (r: bool)
        ensures
            r == backoff_defined(self@, *error),
    {
        if contains_string(&self.custom_kinds, error.kind_name()) {
            return true;
        }
        let request = match DefaultErrorHandler::request_from_context(error) {
            Some(req) => req,
            None => return true,
        };
        let retry_count = DefaultErrorHandler::retry_count(&request);
        if retry_count >= self.max_retries as u64 || !self.should_retry(error) || error.retry_delay().is_some() {
            return true;
        }
        backoff_fits_exec(self.base_delay, retry_count as u32)
    }

    /// The retry count a request carries in its meta, 0 where it carries none.
    fn retry_count(request: &Request) -> (r: u64)
        ensures
            r == retry_count_of(request@),
    {
        match request.meta.get("retry_count") {
            Some(v) => match v.as_u64() {
                Some(n) => n,
                None => 0,
            },
            None => 0,
        }
    }

    /// Whether the settings allow retrying this error.
    fn should_retry(&self, error: &Error) -> (r: bool)
        ensures
            r == should_retry_spec(self@, *error),
    {
        match error {
            Error::Network { .. } => self.retry_network_errors && error.is_retryable(),
            Error::Http { .. } => self.retry_http_errors && error.is_retryable(),
            Error::Parse { .. } => self.retry_parse_errors,
            _ => false,
        }
    }

    /// The request to retry, rebuilt from the error's context.
    fn request_from_context(error: &Error) -> (r: Option<Request>)
        ensures
            match r {
                Some(req) => retry_request_spec(*error) == Some(req@),
                None => retry_request_spec(*error) is None,
            },
    {
        let context = match error.context() {
            Some(c) => c,
            None => return None,
        };
        let url = match &context.url {
            Some(u) => u,
            None => return None,
        };
        match Request::get(url.as_str()) {
            Ok(req) => {
                let mut req = req;
                if let Some(request_id) = &context.request_id {
                    req = req.with_meta("request_id", MetaValue::Text(request_id.clone()));
                }
                if let Some(retry_count) = context.metadata.get("retry_count") {
                    if let Some(count) = parse_u32(retry_count.as_str()) {
                        req = req.with_meta("retry_count", MetaValue::from_u64(count as u64));
                    }
                }
                Some(req)
            },
            Err(_) => None,
        }
    }

    /// Decides what to do with an error: delegate it to the handler registered for its kind,
    /// or skip it, or retry the request its context names with an incremented retry count.
    ///
    /// Where the exponential backoff `base * 2^count` would overflow a `u64`, no outcome is
    /// defined: callers test `backoff_defined` first.
    pub fn handle_error(&self, error: &Error) -> (r: HandlerOutcome)
        requires
            backoff_defined(self@, *error),
        ensures
            handler_outcome_spec(self@, *error, r),
    {
        let kind = error.kind_name();
        if contains_string(&self.custom_kinds, kind) {
            return HandlerOutcome::Delegate(kind.to_owned());
        }
        let request = match DefaultErrorHandler::request_from_context(error) {
            Some(req) => req,
            None => {
                return HandlerOutcome::Act(ErrorAction::Skip { reason: "No request to retry".to_owned() });
            },
        };
        let retry_count: u64 = DefaultErrorHandler::retry_count(&request);
        if retry_count >= self.max_retries as u64 {
            let n = u64_text(self.max_retries as u64);
            let a = concat("Maximum retries (", n.as_str());
            return HandlerOutcome::Act(ErrorAction::Skip { reason: concat(a.as_str(), ") reached") });
        }
        let retry_count = retry_count as u32;
        let should_retry = self.should_retry(error);
        let text = error.describe();
        if should_retry {
            let request = request.with_meta("retry_count", MetaValue::from_u64(retry_count as u64 + 1));
            let delay: u128 = match error.retry_delay() {
                Some(d) => d as u128,
                None => self.calculate_retry_delay(retry_count),
            };
            HandlerOutcome::Act(ErrorAction::Retry {
                request,
                delay: Some(delay),
                reason: concat("Retrying after error: ", text.as_str()),
            })
        } else {
            HandlerOutcome::Act(ErrorAction::Skip { reason: concat("Non-retryable error: ", text.as_str()) })
        }
    }
}

/// Pushing an element adds it to the set of elements.
pub proof fn lemma_push_to_set<A>(s: Seq<A>, x: A)
    ensures
        s.push(x).to_set() == s.to_set().insert(x),
{
    assert forall|y: A| s.push(x).to_set().contains(y) == s.to_set().insert(x).contains(y) by {
        if y == x {
            assert(s.push(x)[s.len() as int] == x);
        }
        if s.to_set().contains(y) {
            let i = choose|i: int| 0 <= i < s.len() && s[i] == y;
            assert(s.push(x)[i] == y);
        }
        if s.push(x).to_set().contains(y) && y != x {
            let i = choose|i: int| 0 <= i < s.push(x).len() && s.push(x)[i] == y;
            assert(s[i] == y);
        }
    }
    assert(s.push(x).to_set() =~= s.to_set().insert(x));
}

/// `2^a <= 2^b` when `a <= b`.
pub proof fn lemma_pow2_monotone(a: nat, b: nat)
    requires
        a <= b,
    ensures
        pow2(a) <= pow2(b),
        pow2(a) >= 1,
    decreases b,
{
    if b > a {
        lemma_pow2_monotone(a, (b - 1) as nat);
    } else if a > 0 {
        lemma_pow2_monotone((a - 1) as nat, (a - 1) as nat);
    }
}

/// `pow2` agrees with vstd's power of two.
proof fn lemma_pow2_agrees(n: nat)
    ensures
        pow2(n) == vstd::arithmetic::power2::pow2(n),
    decreases n,
{
    if n == 0 {
        vstd::arithmetic::power2::lemma2_to64();
    } else {
        lemma_pow2_agrees((n - 1) as nat);
        vstd::arithmetic::power2::lemma_pow2_unfold(n);
    }
}

/// `2^63` and `2^64`.
proof fn lemma_pow2_values()
    ensures
        pow2(63) == 0x8000_0000_0000_0000,
        pow2(64) == 0x1_0000_0000_0000_0000,
{
    lemma_pow2_agrees(63);
    lemma_pow2_agrees(64);
    vstd::arithmetic::power2::lemma2_to64();
    vstd::arithmetic::power2::lemma2_to64_rest();
}

/// Whether `base * 2^count` and `2^count` fit in a `u64`.
fn backoff_fits_exec(base: u64, count: u32) -> (r: bool)
    ensures
        r == backoff_fits(base, count),
{
    if count >= 64 {
        proof {
            lemma_pow2_monotone(64, count as nat);
            lemma_pow2_values();
        }
        return false;
    }
    let mut p: u64 = 1;
    let mut i: u32 = 0;
    assert(pow2(0) == 1);
    while i < count
        invariant
            i <= count,
            count < 64,
            p == pow2(i as nat),
        decreases count - i,
    {
        proof {
            lemma_pow2_monotone(i as nat + 1, 63);
            lemma_pow2_values();
            assert(pow2(i as nat + 1) == 2 * pow2(i as nat));
        }
        p = p * 2;
        i = i + 1;
    }
    proof {
        lemma_pow2_monotone(count as nat, 63);
        lemma_pow2_values();
    }
    match base.checked_mul(p) {
        Some(_) => true,
        None => false,
    }
}

/// What the default handler does with an error, given its settings.
pub open spec fn handler_outcome_spec(cfg: HandlerConfig, e: Error, r: HandlerOutcome) -> bool {
    if cfg.custom_kinds.contains(kind_name_spec(&e)) {
        r matches HandlerOutcome::Delegate(k) && k@ == kind_name_spec(&e)
    } else {
        match retry_request_spec(e) {
            None => r matches HandlerOutcome::Act(ErrorAction::Skip { reason }) && reason@ == "No request to retry"@,
            Some(req) => {
                let count = retry_count_of(req);
                if count >= cfg.max_retries {
                    r matches HandlerOutcome::Act(ErrorAction::Skip { reason })
                        && reason@ == "Maximum retries ("@ + decimal(cfg.max_retries as nat) + ") reached"@
                } else if should_retry_spec(cfg, e) {
                    r matches HandlerOutcome::Act(ErrorAction::Retry { request, delay, reason })
                        && request@ == (RequestView {
                            meta: req.meta.insert("retry_count"@, MetaView::Int(count + 1)),
                            ..req
                        })
                        && delay == Some(match e.retry_delay_spec() {
                            Some(d) => d as int,
                            None => (backoff_secs(cfg.base_delay, cfg.max_delay, count as u32) * 1000) as int,
                        } as u128)
                        && reason@ == "Retrying after error: "@ + error_text(e)
                } else {
                    r matches HandlerOutcome::Act(ErrorAction::Skip { reason })
                        && reason@ == "Non-retryable error: "@ + error_text(e)
                }
            },
        }
    }
}

} // verus!

verus! {

/// Error statistics
#[derive(Debug)]
pub struct ErrorStats {
    /// Total number of errors
    pub total_errors: usize,
    /// Number of network errors
    pub network_errors: usize,
    /// Number of HTTP errors
    pub http_errors: usize,
    /// Number of parse errors
    pub parse_errors: usize,
    /// Number of item errors
    pub item_errors: usize,
    /// Number of scheduler errors
    pub scheduler_errors: usize,
    /// Number of middleware errors
    pub middleware_errors: usize,
    /// Number of other errors
    pub other_errors: usize,
    /// Number of retries
    pub retries: usize,
    /// Number of aborts
    pub aborts: usize,
    /// Number of skips
    pub skips: usize,
    /// Number of ignored errors
    pub ignored: usize,
    /// Errors by status code (for HTTP errors)
    pub errors_by_status: CountMap<u16>,
    /// Errors by domain
    pub errors_by_domain: CountMap<String>,
}

/// The status code an HTTP error is counted under: the context's, else the error's own.
pub open spec fn http_status_spec(error: HttpError, context_status: Option<u16>) -> u16 {
    match context_status {
        Some(s) => s,
        None => match error {
            HttpError::ClientError { status, .. } => status,
            HttpError::ServerError { status, .. } => status,
            HttpError::RateLimited { status, .. } => status,
            HttpError::RedirectError { status, .. } => status,
        },
    }
}

/// The domain an error is counted under: the host of the URL in its context, if that parses.
pub open spec fn error_domain_spec(e: Error) -> Option<Seq<char>> {
    match e.context_view() {
        Some(c) => match c.url {
            Some(u) => match parsed_url(u) {
                Ok(p) => p.1,
                Err(_) => None,
            },
            None => None,
        },
        None => None,
    }
}

/// The statistics after an increment of one counter.
pub open spec fn kind_counter_bumped(old: ErrorStats, new: ErrorStats, e: Error) -> bool {
    &&& new.network_errors == old.network_errors + (if e is Network { 1int } else { 0 })
    &&& new.http_errors == old.http_errors + (if e is Http { 1int } else { 0 })
    &&& new.parse_errors == old.parse_errors + (if e is Parse { 1int } else { 0 })
    &&& new.item_errors == old.item_errors + (if e is Item { 1int } else { 0 })
    &&& new.scheduler_errors == old.scheduler_errors + (if e is Scheduler { 1int } else { 0 })
    &&& new.middleware_errors == old.middleware_errors + (if e is Middleware { 1int } else { 0 })
    &&& new.other_errors == old.other_errors + (if (e is UrlParseError || e is IoError || e is SerdeError || e is Other) { 1int } else { 0 })
}

/// The count of an HTTP error's status code went up by one; other errors leave the counts
/// by status code as they were.
pub open spec fn status_counted(old: ErrorStats, new: ErrorStats, e: Error) -> bool {
    match e {
        Error::Http { error: he, context } => {
            let s = http_status_spec(he, context.status_code);
            new.errors_by_status.counts() == old.errors_by_status.counts().insert(
                s,
                old.errors_by_status.count_of(s) + 1,
            )
        },
        _ => new.errors_by_status.counts() == old.errors_by_status.counts(),
    }
}

/// The count of the error's domain went up by one, where it has one.
pub open spec fn domain_counted(old: ErrorStats, new: ErrorStats, e: Error) -> bool {
    match error_domain_spec(e) {
        Some(d) => new.errors_by_domain.counts() == old.errors_by_domain.counts().insert(
            d,
            old.errors_by_domain.count_of(d) + 1,
        ),
        None => new.errors_by_domain.counts() == old.errors_by_domain.counts(),
    }
}

/// The error counts (total, by kind, by status code and by domain) of `a` and `b` agree.
pub open spec fn same_error_counts(a: ErrorStats, b: ErrorStats) -> bool {
    &&& a.total_errors == b.total_errors
    &&& a.network_errors == b.network_errors
    &&& a.http_errors == b.http_errors
    &&& a.parse_errors == b.parse_errors
    &&& a.item_errors == b.item_errors
    &&& a.scheduler_errors == b.scheduler_errors
    &&& a.middleware_errors == b.middleware_errors
    &&& a.other_errors == b.other_errors
    &&& a.errors_by_status.counts() == b.errors_by_status.counts()
    &&& a.errors_by_domain.counts() == b.errors_by_domain.counts()
}

impl ErrorStats {
    /// Create a new error stats instance, with every count zero
    pub fn new() -> (r: Self)
        ensures
            r.is_zero(),
    {
        ErrorStats {
            total_errors: 0,
            network_errors: 0,
            http_errors: 0,
            parse_errors: 0,
            item_errors: 0,
            scheduler_errors: 0,
            middleware_errors: 0,
            other_errors: 0,
            retries: 0,
            aborts: 0,
            skips: 0,
            ignored: 0,
            errors_by_status: CountMap::new(),
            errors_by_domain: CountMap::new(),
        }
    }

    /// Every count is zero.
    pub open spec fn is_zero(&self) -> bool {
        &&& self.total_errors == 0
        &&& self.network_errors == 0
        &&& self.http_errors == 0
        &&& self.parse_errors == 0
        &&& self.item_errors == 0
        &&& self.scheduler_errors == 0
        &&& self.middleware_errors == 0
        &&& self.other_errors == 0
        &&& self.retries == 0
        &&& self.aborts == 0
        &&& self.skips == 0
        &&& self.ignored == 0
        &&& self.errors_by_status.counts() == Map::<u16, nat>::empty()
        &&& self.errors_by_domain.counts() == Map::<Seq<char>, nat>::empty()
    }

    /// No count can overflow when one more error is recorded.
    pub open spec fn can_record(&self) -> bool {
        &&& self.total_errors < usize::MAX
        &&& self.network_errors < usize::MAX
        &&& self.http_errors < usize::MAX
        &&& self.parse_errors < usize::MAX
        &&& self.item_errors < usize::MAX
        &&& self.scheduler_errors < usize::MAX
        &&& self.middleware_errors < usize::MAX
        &&& self.other_errors < usize::MAX
        &&& forall|s: u16| #[trigger] self.errors_by_status.count_of(s) < usize::MAX
        &&& forall|d: Seq<char>| #[trigger] self.errors_by_domain.count_of(d) < usize::MAX
    }

    /// Record an error: the total, the counter of its kind, its status code (HTTP errors)
    /// and the domain of its URL each go up by one.
    pub fn record_error(&mut self, error: &Error)
        requires
            old(self).can_record(),
        ensures
            final(self).total_errors == old(self).total_errors + 1,
            kind_counter_bumped(*old(self), *final(self), *error),
            final(self).retries == old(self).retries,
            final(self).aborts == old(self).aborts,
            final(self).skips == old(self).skips,
            final(self).ignored == old(self).ignored,
            status_counted(*old(self), *final(self), *error),
            domain_counted(*old(self), *final(self), *error),
    {
        self.total_errors = self.total_errors + 1;
        match error {
            Error::Network { .. } => self.network_errors = self.network_errors + 1,
            Error::Http { error, context } => {
                self.http_errors = self.http_errors + 1;
                let status = match context.status_code {
                    Some(s) => s,
                    None => match error {
                        HttpError::ClientError { status, .. } => *status,
                        HttpError::ServerError { status, .. } => *status,
                        HttpError::RateLimited { status, .. } => *status,
                        HttpError::RedirectError { status, .. } => *status,
                    },
                };
                self.errors_by_status.add(&status, 1);
            },
            Error::Parse { .. } => self.parse_errors = self.parse_errors + 1,
            Error::Item { .. } => self.item_errors = self.item_errors + 1,
            Error::Scheduler { .. } => self.scheduler_errors = self.scheduler_errors + 1,
            Error::Middleware { .. } => self.middleware_errors = self.middleware_errors + 1,
            _ => self.other_errors = self.other_errors + 1,
        }
        if let Some(context) = error.context() {
            if let Some(url) = &context.url {
                if let Ok(parsed) = WebUrl::parse(url.as_str()) {
                    if let Some(domain) = parsed.host_str() {
                        let d = domain.to_owned();
                        self.errors_by_domain.add(&d, 1);
                    }
                }
            }
        }
    }

    /// Record an error action: the counter of its kind goes up by one.
    pub fn record_action(&mut self, action: &ErrorAction)
        requires
            old(self).retries < usize::MAX,
            old(self).aborts < usize::MAX,
            old(self).skips < usize::MAX,
            old(self).ignored < usize::MAX,
        ensures
            final(self).retries == old(self).retries + (if action is Retry { 1int } else { 0 }),
            final(self).aborts == old(self).aborts + (if action is Abort { 1int } else { 0 }),
            final(self).skips == old(self).skips + (if action is Skip { 1int } else { 0 }),
            final(self).ignored == old(self).ignored + (if action is Ignore { 1int } else { 0 }),
            same_error_counts(*old(self), *final(self)),
    {
        match action {
            ErrorAction::Retry { .. } => self.retries = self.retries + 1,
            ErrorAction::Abort { .. } => self.aborts = self.aborts + 1,
            ErrorAction::Skip { .. } => self.skips = self.skips + 1,
            ErrorAction::Ignore => self.ignored = self.ignored + 1,
        }
    }
}


impl ErrorStats {
    /// Every sum of a count here and the same count in `other` fits in a `usize`.
    pub open spec fn can_merge(&self, other: &ErrorStats) -> bool {
        &&& self.total_errors + other.total_errors <= usize::MAX
        &&& self.network_errors + other.network_errors <= usize::MAX
        &&& self.http_errors + other.http_errors <= usize::MAX
        &&& self.parse_errors + other.parse_errors <= usize::MAX
        &&& self.item_errors + other.item_errors <= usize::MAX
        &&& self.scheduler_errors + other.scheduler_errors <= usize::MAX
        &&& self.middleware_errors + other.middleware_errors <= usize::MAX
        &&& self.other_errors + other.other_errors <= usize::MAX
        &&& self.retries + other.retries <= usize::MAX
        &&& self.aborts + other.aborts <= usize::MAX
        &&& self.skips + other.skips <= usize::MAX
        &&& self.ignored + other.ignored <= usize::MAX
        &&& forall|s: u16| #[trigger] self.errors_by_status.count_of(s) + other.errors_by_status.count_of(s) <= usize::MAX
        &&& forall|d: Seq<char>| #[trigger] self.errors_by_domain.count_of(d) + other.errors_by_domain.count_of(d) <= usize::MAX
    }

    /// The counts of `new` are those of `a` and `b` added.
    pub open spec fn is_sum(new: ErrorStats, a: ErrorStats, b: ErrorStats) -> bool {
        &&& new.total_errors == a.total_errors + b.total_errors
        &&& new.network_errors == a.network_errors + b.network_errors
        &&& new.http_errors == a.http_errors + b.http_errors
        &&& new.parse_errors == a.parse_errors + b.parse_errors
        &&& new.item_errors == a.item_errors + b.item_errors
        &&& new.scheduler_errors == a.scheduler_errors + b.scheduler_errors
        &&& new.middleware_errors == a.middleware_errors + b.middleware_errors
        &&& new.other_errors == a.other_errors + b.other_errors
        &&& new.retries == a.retries + b.retries
        &&& new.aborts == a.aborts + b.aborts
        &&& new.skips == a.skips + b.skips
        &&& new.ignored == a.ignored + b.ignored
        &&& forall|s: u16| #[trigger] new.errors_by_status.count_of(s) == a.errors_by_status.count_of(s) + b.errors_by_status.count_of(s)
        &&& forall|d: Seq<char>| #[trigger] new.errors_by_domain.count_of(d) == a.errors_by_domain.count_of(d) + b.errors_by_domain.count_of(d)
        &&& new.errors_by_status.counts().dom() == a.errors_by_status.counts().dom().union(b.errors_by_status.counts().dom())
        &&& new.errors_by_domain.counts().dom() == a.errors_by_domain.counts().dom().union(b.errors_by_domain.counts().dom())
    }

    /// Merge another error stats instance into this one: every count becomes the sum.
    pub fn merge(&mut self, other: &ErrorStats)
        requires
            old(self).can_merge(other),
        ensures
            ErrorStats::is_sum(*final(self), *old(self), *other),
    {
        self.total_errors = self.total_errors + other.total_errors;
        self.network_errors = self.network_errors + other.network_errors;
        self.http_errors = self.http_errors + other.http_errors;
        self.parse_errors = self.parse_errors + other.parse_errors;
        self.item_errors = self.item_errors + other.item_errors;
        self.scheduler_errors = self.scheduler_errors + other.scheduler_errors;
        self.middleware_errors = self.middleware_errors + other.middleware_errors;
        self.other_errors = self.other_errors + other.other_errors;
        self.retries = self.retries + other.retries;
        self.aborts = self.aborts + other.aborts;
        self.skips = self.skips + other.skips;
        self.ignored = self.ignored + other.ignored;
        self.errors_by_status.merge_from(&other.errors_by_status);
        self.errors_by_domain.merge_from(&other.errors_by_domain);
    }
}

/// A request is never retried more than the handler allows: a retry carries a retry count one
/// above the count its error's request had, and that is at most the maximum.
pub proof fn law_retry_count_bounded(cfg: HandlerConfig, e: Error, r: HandlerOutcome)
    requires
        handler_outcome_spec(cfg, e, r),
        r matches HandlerOutcome::Act(ErrorAction::Retry { .. }),
    ensures
        retry_request_spec(e) is Some,
        ({
            let count = retry_count_of(retry_request_spec(e)->0);
            &&& count < cfg.max_retries
            &&& r matches HandlerOutcome::Act(ErrorAction::Retry { request, .. })
                && retry_count_of(request@) == count + 1
                && count + 1 <= cfg.max_retries
        }),
{
    let req = retry_request_spec(e)->0;
    let count = retry_count_of(req);
    if let HandlerOutcome::Act(ErrorAction::Retry { request, .. }) = r {
        assert(request@.meta == req.meta.insert("retry_count"@, MetaView::Int(count + 1)));
        assert(request@.meta.contains_key("retry_count"@));
        assert(meta_as_u64(request@.meta["retry_count"@]) == Some((count + 1) as u64));
    }
}

/// A handler that retries network errors retries every retryable one that names its request
/// and has retries left: a connection refused, reset or timed out, or a failed DNS lookup,
/// after two seconds, and a request timeout after five; the retry count goes up by one.
pub proof fn law_network_failures_retried(cfg: HandlerConfig, e: Error, r: HandlerOutcome)
    requires
        handler_outcome_spec(cfg, e, r),
        cfg.retry_network_errors,
        !cfg.custom_kinds.contains(kind_name_spec(&e)),
        retry_request_spec(e) matches Some(req) && retry_count_of(req) < cfg.max_retries,
        e matches Error::Network { error: NetworkError::ConnectionRefused, .. }
            || e matches Error::Network { error: NetworkError::ConnectionReset, .. }
            || e matches Error::Network { error: NetworkError::ConnectionTimeout, .. }
            || e matches Error::Network { error: NetworkError::DnsError(_), .. }
            || e matches Error::Network { error: NetworkError::Timeout(_), .. },
    ensures
        r matches HandlerOutcome::Act(ErrorAction::Retry { request, delay, .. })
            && retry_count_of(request@) == retry_count_of(retry_request_spec(e)->0) + 1
            && delay == Some(if e matches Error::Network { error: NetworkError::Timeout(_), .. } { 5000u128 } else { 2000u128 }),
{
    crate::error::law_retryable_errors(e);
    let req = retry_request_spec(e)->0;
    let count = retry_count_of(req);
    if let HandlerOutcome::Act(ErrorAction::Retry { request, .. }) = r {
        assert(request@.meta == req.meta.insert("retry_count"@, MetaView::Int(count + 1)));
        assert(meta_as_u64(request@.meta["retry_count"@]) == Some((count + 1) as u64));
    }
}

/// The backoff delay never passes the handler's maximum delay.
pub proof fn law_backoff_capped(base: u64, max: u64, count: u32)
    ensures
        backoff_secs(base, max, count) <= max,
{
}

/// The total number of errors is the sum of the errors of each kind.
pub open spec fn kinds_add_up(s: ErrorStats) -> bool {
    s.total_errors == s.network_errors + s.http_errors + s.parse_errors + s.item_errors + s.scheduler_errors
        + s.middleware_errors + s.other_errors
}

/// Recording an error keeps the total equal to the sum of the kinds: each error is counted
/// under exactly one kind.
pub proof fn law_record_keeps_kinds_total(before: ErrorStats, after: ErrorStats, e: Error)
    requires
        kinds_add_up(before),
        after.total_errors == before.total_errors + 1,
        kind_counter_bumped(before, after, e),
    ensures
        kinds_add_up(after),
{
}

/// Merging keeps the total equal to the sum of the kinds.
pub proof fn law_merge_keeps_kinds_total(merged: ErrorStats, a: ErrorStats, b: ErrorStats)
    requires
        kinds_add_up(a),
        kinds_add_up(b),
        ErrorStats::is_sum(merged, a, b),
    ensures
        kinds_add_up(merged),
{
}

/// Merging `b` into `a` counts the same as merging `a` into `b`.
pub proof fn law_merge_commutes(ab: ErrorStats, ba: ErrorStats, a: ErrorStats, b: ErrorStats)
    requires
        ErrorStats::is_sum(ab, a, b),
        ErrorStats::is_sum(ba, b, a),
    ensures
        ab.total_errors == ba.total_errors,
        ab.network_errors == ba.network_errors,
        ab.http_errors == ba.http_errors,
        ab.parse_errors == ba.parse_errors,
        ab.item_errors == ba.item_errors,
        ab.scheduler_errors == ba.scheduler_errors,
        ab.middleware_errors == ba.middleware_errors,
        ab.other_errors == ba.other_errors,
        ab.retries == ba.retries,
        ab.aborts == ba.aborts,
        ab.skips == ba.skips,
        ab.ignored == ba.ignored,
        forall|s: u16| #[trigger] ab.errors_by_status.count_of(s) == ba.errors_by_status.count_of(s),
        forall|d: Seq<char>| #[trigger] ab.errors_by_domain.count_of(d) == ba.errors_by_domain.count_of(d),
{
    assert forall|s: u16| #[trigger] ab.errors_by_status.count_of(s) == ba.errors_by_status.count_of(s) by {
        assert(ab.errors_by_status.count_of(s) == a.errors_by_status.count_of(s) + b.errors_by_status.count_of(s));
        assert(ba.errors_by_status.count_of(s) == b.errors_by_status.count_of(s) + a.errors_by_status.count_of(s));
    }
    assert forall|d: Seq<char>| #[trigger] ab.errors_by_domain.count_of(d) == ba.errors_by_domain.count_of(d) by {
        assert(ab.errors_by_domain.count_of(d) == a.errors_by_domain.count_of(d) + b.errors_by_domain.count_of(d));
        assert(ba.errors_by_domain.count_of(d) == b.errors_by_domain.count_of(d) + a.errors_by_domain.count_of(d));
    }
}

/// Merging statistics with every count zero changes no count.
pub proof fn law_merge_zero(merged: ErrorStats, a: ErrorStats, zero: ErrorStats)
    requires
        zero.is_zero(),
        ErrorStats::is_sum(merged, a, zero),
    ensures
        merged.total_errors == a.total_errors,
        merged.network_errors == a.network_errors,
        merged.http_errors == a.http_errors,
        merged.retries == a.retries,
        forall|s: u16| #[trigger] merged.errors_by_status.count_of(s) == a.errors_by_status.count_of(s),
        forall|d: Seq<char>| #[trigger] merged.errors_by_domain.count_of(d) == a.errors_by_domain.count_of(d),
{
    assert forall|s: u16| #[trigger] merged.errors_by_status.count_of(s) == a.errors_by_status.count_of(s) by {
        assert(merged.errors_by_status.count_of(s) == a.errors_by_status.count_of(s) + zero.errors_by_status.count_of(s));
        assert(!zero.errors_by_status.counts().contains_key(s));
    }
    assert forall|d: Seq<char>| #[trigger] merged.errors_by_domain.count_of(d) == a.errors_by_domain.count_of(d) by {
        assert(merged.errors_by_domain.count_of(d) == a.errors_by_domain.count_of(d) + zero.errors_by_domain.count_of(d));
        assert(!zero.errors_by_domain.counts().contains_key(d));
    }
}

/// Error manager: the error handler, and the statistics of the errors it was given and the
/// actions it chose.
#[derive(Debug)]
pub struct ErrorManager {
    handler: DefaultErrorHandler,
    stats: ErrorStats,
}

impl ErrorManager {
    /// The handler's settings.
    pub closed spec fn handler_config(&self) -> HandlerConfig {
        self.handler@
    }

    /// The statistics so far.
    pub closed spec fn stats_spec(&self) -> ErrorStats {
        self.stats
    }

    /// Create a new error manager with the given handler and no statistics
    pub fn new(handler: DefaultErrorHandler) -> (r: Self)
        ensures
            r.handler_config() == handler@,
            r.stats_spec().is_zero(),
    {
        ErrorManager { handler, stats: ErrorStats::new() }
    }

    /// Handle an error: it is counted, the handler decides, and an action it chose is counted
    /// too (an action of a handler registered for the error's kind is counted with
    /// `record_action` once that handler has chosen it).
    pub fn handle_error(&mut self, error: &Error) -> (r: HandlerOutcome)
        requires
            old(self).stats_spec().can_record(),
            old(self).stats_spec().retries < usize::MAX,
            old(self).stats_spec().aborts < usize::MAX,
            old(self).stats_spec().skips < usize::MAX,
            old(self).stats_spec().ignored < usize::MAX,
            backoff_defined(old(self).handler_config(), *error),
        ensures
            handler_outcome_spec(old(self).handler_config(), *error, r),
            final(self).handler_config() == old(self).handler_config(),
            final(self).stats_spec().total_errors == old(self).stats_spec().total_errors + 1,
            kind_counter_bumped(old(self).stats_spec(), final(self).stats_spec(), *error),
            status_counted(old(self).stats_spec(), final(self).stats_spec(), *error),
            domain_counted(old(self).stats_spec(), final(self).stats_spec(), *error),
            final(self).stats_spec().retries == old(self).stats_spec().retries + (if r matches HandlerOutcome::Act(a) && a is Retry { 1int } else { 0 }),
            final(self).stats_spec().aborts == old(self).stats_spec().aborts + (if r matches HandlerOutcome::Act(a) && a is Abort { 1int } else { 0 }),
            final(self).stats_spec().skips == old(self).stats_spec().skips + (if r matches HandlerOutcome::Act(a) && a is Skip { 1int } else { 0 }),
            final(self).stats_spec().ignored == old(self).stats_spec().ignored + (if r matches HandlerOutcome::Act(a) && a is Ignore { 1int } else { 0 }),
    {
        self.stats.record_error(error);
        let outcome = self.handler.handle_error(error);
        match &outcome {
            HandlerOutcome::Act(action) => self.stats.record_action(action),
            HandlerOutcome::Delegate(_) => {},
        }
        outcome
    }

    /// Count an action that a handler registered for an error's kind chose.
    pub fn record_action(&mut self, action: &ErrorAction)
        requires
            old(self).stats_spec().retries < usize::MAX,
            old(self).stats_spec().aborts < usize::MAX,
            old(self).stats_spec().skips < usize::MAX,
            old(self).stats_spec().ignored < usize::MAX,
        ensures
            final(self).handler_config() == old(self).handler_config(),
            final(self).stats_spec().retries == old(self).stats_spec().retries + (if action is Retry { 1int } else { 0 }),
            final(self).stats_spec().aborts == old(self).stats_spec().aborts + (if action is Abort { 1int } else { 0 }),
            final(self).stats_spec().skips == old(self).stats_spec().skips + (if action is Skip { 1int } else { 0 }),
            final(self).stats_spec().ignored == old(self).stats_spec().ignored + (if action is Ignore { 1int } else { 0 }),
            same_error_counts(old(self).stats_spec(), final(self).stats_spec()),
    {
        self.stats.record_action(action);
    }

    /// Get the error statistics
    pub fn stats(&self) -> (r: &ErrorStats)
        ensures
            *r == self.stats_spec(),
    {
        &self.stats
    }

    /// The error handler
    pub fn handler(&self) -> (r: &DefaultErrorHandler)
        ensures
            r@ == self.handler_config(),
    {
        &self.handler
    }
}

impl Default for ErrorManager {
    fn default() -> (r: Self)
        ensures
            r.stats_spec().is_zero(),
            r.handler_config() == (HandlerConfig {
                max_retries: 3,
                retry_network_errors: true,
                retry_http_errors: true,
                retry_parse_errors: false,
                base_delay: 1,
                max_delay: 60,
                custom_kinds: Set::empty(),
            }),
    {
        ErrorManager::new(DefaultErrorHandler::new())
    }
}

/// Error callback that logs errors and goes on
#[derive(Debug, Clone, Copy)]
pub struct LogErrorCallback;

impl LogErrorCallback {
    /// Goes on after an error (the caller writes the log line).
    pub fn on_error(&self, error: &Error, response: Option<&Response>) -> (r: Result<(), Error>)
        ensures
            r is Ok,
    {
        Ok(())
    }
}

/// Error callback that ignores errors
#[derive(Debug, Clone, Copy)]
pub struct IgnoreErrorCallback;

impl IgnoreErrorCallback {
    /// Goes on after an error.
    pub fn on_error(&self, error: &Error, response: Option<&Response>) -> (r: Result<(), Error>)
        ensures
            r is Ok,
    {
        Ok(())
    }
}

/// Error callback that aborts the crawl on errors
#[derive(Debug, Clone, Copy)]
pub struct AbortOnErrorCallback;

impl AbortOnErrorCallback {
    /// Stops the crawl: an error "Aborting crawl due to error".
    pub fn on_error(&self, error: &Error, response: Option<&Response>) -> (r: Result<(), Error>)
        ensures
            r matches Err(e) && e matches Error::Other { message, context }
                && message@ == "Aborting crawl due to error"@ && context@ == fresh_context_view(),
    {
        Err(Error::other(String::from_str("Aborting crawl due to error")))
    }
}

} // verus!
