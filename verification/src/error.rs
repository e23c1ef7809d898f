use vstd::prelude::*;
use crate::strmap::StrMap;
use crate::web_url::{opt_view, UrlError};

verus! {

#[verifier::external_type_specification]
#[verifier::external_body]
pub struct ExSystemTime(std::time::SystemTime);

/// The current wall-clock time, by `std::time::SystemTime::now`; nothing is stated of it.
#[verifier::external_body]
fn system_time_now() -> std::time::SystemTime {
    std::time::SystemTime::now()
}

/// Where and how an error arose.
#[derive(Debug)]
pub struct ErrorContext {
    /// URL associated with the error
    pub url: Option<String>,
    /// HTTP status code (if applicable)
    pub status_code: Option<u16>,
    /// Request ID (if available)
    pub request_id: Option<String>,
    /// Spider name
    pub spider_name: Option<String>,
    /// Component where the error occurred
    pub component: Option<String>,
    /// Time when the error occurred
    pub timestamp: Option<std::time::SystemTime>,
    /// Additional metadata
    pub metadata: StrMap<String>,
}

/// The context fields that the error logic reads, by view.
pub struct ContextView {
    pub url: Option<Seq<char>>,
    pub status_code: Option<u16>,
    pub request_id: Option<Seq<char>>,
    pub spider_name: Option<Seq<char>>,
    pub component: Option<Seq<char>>,
    pub has_timestamp: bool,
    pub metadata: Map<Seq<char>, Seq<char>>,
}

impl View for ErrorContext {
    type V = ContextView;

    open spec fn view(&self) -> ContextView {
        ContextView {
            url: opt_view(self.url),
            status_code: self.status_code,
            request_id: opt_view(self.request_id),
            spider_name: opt_view(self.spider_name),
            component: opt_view(self.component),
            has_timestamp: self.timestamp is Some,
            metadata: self.metadata@,
        }
    }
}

/// A copy of an optional string.
pub fn dup_opt_string(o: &Option<String>) -> (r: Option<String>)
    ensures
        opt_view(r) == opt_view(*o),
{
    match o {
        Some(s) => Some(s.clone()),
        None => None,
    }
}

impl ErrorContext {
    /// A context with nothing but the current time.
    pub fn new() -> (r: Self)
        ensures
            r@ == fresh_context_view(),
            r.metadata.key_order() == Seq::<Seq<char>>::empty(),
    {
        ErrorContext {
            url: None,
            status_code: None,
            request_id: None,
            spider_name: None,
            component: None,
            timestamp: Some(system_time_now()),
            metadata: StrMap::new(),
        }
    }

    /// Sets the URL.
    pub fn with_url(self, url: String) -> (r: Self)
        ensures
            r@ == (ContextView { url: Some(url@), ..self@ }),
            r.timestamp == self.timestamp,
            r.metadata.key_order() == self.metadata.key_order(),
    {
        ErrorContext { url: Some(url), ..self }
    }

    /// Sets the status code.
    pub fn with_status_code(self, status_code: u16) -> (r: Self)
        ensures
            r@ == (ContextView { status_code: Some(status_code), ..self@ }),
            r.timestamp == self.timestamp,
            r.metadata.key_order() == self.metadata.key_order(),
    {
        ErrorContext { status_code: Some(status_code), ..self }
    }

    /// Sets the request ID.
    pub fn with_request_id(self, request_id: String) -> (r: Self)
        ensures
            r@ == (ContextView { request_id: Some(request_id@), ..self@ }),
            r.timestamp == self.timestamp,
            r.metadata.key_order() == self.metadata.key_order(),
    {
        ErrorContext { request_id: Some(request_id), ..self }
    }

    /// Sets the spider name.
    pub fn with_spider_name(self, spider_name: String) -> (r: Self)
        ensures
            r@ == (ContextView { spider_name: Some(spider_name@), ..self@ }),
            r.timestamp == self.timestamp,
            r.metadata.key_order() == self.metadata.key_order(),
    {
        ErrorContext { spider_name: Some(spider_name), ..self }
    }

    /// Sets the component.
    pub fn with_component(self, component: String) -> (r: Self)
        ensures
            r@ == (ContextView { component: Some(component@), ..self@ }),
            r.timestamp == self.timestamp,
            r.metadata.key_order() == self.metadata.key_order(),
    {
        ErrorContext { component: Some(component), ..self }
    }

    /// Adds a metadata entry, replacing an earlier one under the same key.
    pub fn with_metadata(self, key: String, value: String) -> (r: Self)
        ensures
            r@ == (ContextView { metadata: self@.metadata.insert(key@, value@), ..self@ }),
            r.timestamp == self.timestamp,
            self@.metadata.contains_key(key@) ==> r.metadata.key_order() == self.metadata.key_order(),
            !self@.metadata.contains_key(key@) ==> r.metadata.key_order() == self.metadata.key_order().push(key@),
    {
        let mut s = self;
        s.metadata.insert(key, value);
        s
    }

    /// A copy with the same fields.
    pub fn duplicate(&self) -> (r: Self)
        ensures
            r@ == self@,
    {
        ErrorContext {
            url: dup_opt_string(&self.url),
            status_code: self.status_code,
            request_id: dup_opt_string(&self.request_id),
            spider_name: dup_opt_string(&self.spider_name),
            component: dup_opt_string(&self.component),
            timestamp: self.timestamp,
            metadata: self.metadata.duplicate(),
        }
    }
}

impl Clone for ErrorContext {
    fn clone(&self) -> (r: Self)
        ensures
            r@ == self@,
    {
        self.duplicate()
    }
}

} // verus!

verus! {

/// Network error types
#[derive(Debug)]
pub enum NetworkError {
    /// Connection refused
    ConnectionRefused,
    /// Connection reset
    ConnectionReset,
    /// Connection timed out
    ConnectionTimeout,
    /// DNS resolution error
    DnsError(String),
    /// SSL/TLS error
    SslError(String),
    /// Proxy error
    ProxyError(String),
    /// Too many redirects
    TooManyRedirects,
    /// Request timeout, after the given number of milliseconds
    Timeout(u64),
    /// Other network error
    Other(String),
}

/// HTTP error types
#[derive(Debug)]
pub enum HttpError {
    /// Client error (4xx)
    ClientError { status: u16, message: String },
    /// Server error (5xx)
    ServerError { status: u16, message: String },
    /// Rate limited; `retry_after` in milliseconds
    RateLimited { status: u16, message: String, retry_after: Option<u64> },
    /// Redirect error
    RedirectError { status: u16, message: String },
}

/// Parse error types
#[derive(Debug)]
pub enum ResponseParseError {
    /// HTML parse error
    HtmlError(String),
    /// JSON parse error
    JsonError(String),
    /// XML parse error
    XmlError(String),
    /// CSS selector error
    CssSelectorError(String),
    /// XPath error
    XPathError(String),
    /// Regex error
    RegexError(String),
    /// Other parse error
    Other(String),
}

/// Error types of the framework
#[derive(Debug)]
#[allow(inconsistent_fields)]
pub enum Error {
    /// Error when parsing a URL
    UrlParseError(UrlError),
    /// Network error
    Network { error: NetworkError, context: ErrorContext },
    /// HTTP error
    Http { error: HttpError, context: ErrorContext },
    /// Error when parsing response content
    Parse { error: ResponseParseError, context: ErrorContext },
    /// Error when processing an item
    Item { message: String, context: ErrorContext },
    /// Error in the scheduler
    Scheduler { message: String, context: ErrorContext },
    /// Error in middleware
    Middleware { message: String, context: ErrorContext },
    /// IO error
    IoError(String),
    /// Serde error
    SerdeError(String),
    /// Generic error
    Other { message: String, context: ErrorContext },
}

/// A change to an error context.
pub enum ContextEdit {
    Replace(ErrorContext),
    Url(String),
    StatusCode(u16),
    RequestId(String),
    SpiderName(String),
    Component(String),
    Metadata(String, String),
}

/// The context after an edit.
pub open spec fn edited_context(c: ContextView, edit: ContextEdit) -> ContextView {
    match edit {
        ContextEdit::Replace(n) => n@,
        ContextEdit::Url(u) => ContextView { url: Some(u@), ..c },
        ContextEdit::StatusCode(s) => ContextView { status_code: Some(s), ..c },
        ContextEdit::RequestId(r) => ContextView { request_id: Some(r@), ..c },
        ContextEdit::SpiderName(n) => ContextView { spider_name: Some(n@), ..c },
        ContextEdit::Component(n) => ContextView { component: Some(n@), ..c },
        ContextEdit::Metadata(k, v) => ContextView { metadata: c.metadata.insert(k@, v@), ..c },
    }
}

fn apply_edit(c: ErrorContext, edit: ContextEdit) -> (r: ErrorContext)
    ensures
        r@ == edited_context(c@, edit),
{
    match edit {
        ContextEdit::Replace(n) => n,
        ContextEdit::Url(u) => c.with_url(u),
        ContextEdit::StatusCode(s) => c.with_status_code(s),
        ContextEdit::RequestId(r) => c.with_request_id(r),
        ContextEdit::SpiderName(n) => c.with_spider_name(n),
        ContextEdit::Component(n) => c.with_component(n),
        ContextEdit::Metadata(k, v) => c.with_metadata(k, v),
    }
}

/// The names by which error kinds are told apart (for per-kind handlers and statistics).
pub open spec fn kind_name_spec(e: &Error) -> Seq<char> {
    match e {
        Error::Network { .. } => "network"@,
        Error::Http { .. } => "http"@,
        Error::Parse { .. } => "parse"@,
        Error::Item { .. } => "item"@,
        Error::Scheduler { .. } => "scheduler"@,
        Error::Middleware { .. } => "middleware"@,
        Error::UrlParseError(_) => "url_parse"@,
        Error::IoError(_) => "io"@,
        Error::SerdeError(_) => "serde"@,
        Error::Other { .. } => "other"@,
    }
}

impl Error {
    /// The context of the error, by view; errors without a context have none.
    pub open spec fn context_view(&self) -> Option<ContextView> {
        match self {
            Error::Network { context, .. } => Some(context@),
            Error::Http { context, .. } => Some(context@),
            Error::Parse { context, .. } => Some(context@),
            Error::Item { context, .. } => Some(context@),
            Error::Scheduler { context, .. } => Some(context@),
            Error::Middleware { context, .. } => Some(context@),
            Error::Other { context, .. } => Some(context@),
            _ => None,
        }
    }

    /// Same variant, and the same payload besides the context.
    pub open spec fn same_kind_and_payload(&self, other: &Error) -> bool {
        match (self, other) {
            (Error::UrlParseError(a), Error::UrlParseError(b)) => a == b,
            (Error::Network { error: a, .. }, Error::Network { error: b, .. }) => a == b,
            (Error::Http { error: a, .. }, Error::Http { error: b, .. }) => a == b,
            (Error::Parse { error: a, .. }, Error::Parse { error: b, .. }) => a == b,
            (Error::Item { message: a, .. }, Error::Item { message: b, .. }) => a@ == b@,
            (Error::Scheduler { message: a, .. }, Error::Scheduler { message: b, .. }) => a@ == b@,
            (Error::Middleware { message: a, .. }, Error::Middleware { message: b, .. }) => a@ == b@,
            (Error::IoError(a), Error::IoError(b)) => a@ == b@,
            (Error::SerdeError(a), Error::SerdeError(b)) => a@ == b@,
            (Error::Other { message: a, .. }, Error::Other { message: b, .. }) => a@ == b@,
            _ => false,
        }
    }

    /// Create a new network error
    pub fn network(error: NetworkError) -> (r: Self)
        ensures
            r matches Error::Network { error: e, context } && e == error && context@ == fresh_context_view(),
    {
        Error::Network { error, context: ErrorContext::new() }
    }

    /// Create a new HTTP error
    pub fn http(error: HttpError) -> (r: Self)
        ensures
            r matches Error::Http { error: e, context } && e == error && context@ == fresh_context_view(),
    {
        Error::Http { error, context: ErrorContext::new() }
    }

    /// Create a new parse error
    pub fn parse(error: ResponseParseError) -> (r: Self)
        ensures
            r matches Error::Parse { error: e, context } && e == error && context@ == fresh_context_view(),
    {
        Error::Parse { error, context: ErrorContext::new() }
    }

    /// Create a new item error
    pub fn item(message: String) -> (r: Self)
        ensures
            r matches Error::Item { message: m, context } && m@ == message@ && context@ == fresh_context_view(),
    {
        Error::Item { message, context: ErrorContext::new() }
    }

    /// Create a new scheduler error
    pub fn scheduler(message: String) -> (r: Self)
        ensures
            r matches Error::Scheduler { message: m, context } && m@ == message@ && context@ == fresh_context_view(),
    {
        Error::Scheduler { message, context: ErrorContext::new() }
    }

    /// Create a new middleware error
    pub fn middleware(message: String) -> (r: Self)
        ensures
            r matches Error::Middleware { message: m, context } && m@ == message@ && context@ == fresh_context_view(),
    {
        Error::Middleware { message, context: ErrorContext::new() }
    }

    /// Create a new generic error
    pub fn other(message: String) -> (r: Self)
        ensures
            r matches Error::Other { message: m, context } && m@ == message@ && context@ == fresh_context_view(),
    {
        Error::Other { message, context: ErrorContext::new() }
    }

    /// Get the error context
    pub fn context(&self) -> (r: Option<&ErrorContext>)
        ensures
            match r {
                Some(c) => self.context_view() == Some(c@),
                None => self.context_view() is None,
            },
    {
        match self {
            Error::Network { context, .. } => Some(context),
            Error::Http { context, .. } => Some(context),
            Error::Parse { context, .. } => Some(context),
            Error::Item { context, .. } => Some(context),
            Error::Scheduler { context, .. } => Some(context),
            Error::Middleware { context, .. } => Some(context),
            Error::Other { context, .. } => Some(context),
            _ => None,
        }
    }

    /// Get a mutable reference to the error context
    pub fn context_mut(&mut self) -> (r: Option<&mut ErrorContext>)
        ensures
            r is None <==> old(self).context_view() is None,
            r is None ==> *final(self) == *old(self),
            r matches Some(c) ==> {
                &&& old(self).context_view() == Some(c@)
                &&& final(self).context_view() == Some(final(c)@)
                &&& final(self).same_kind_and_payload(old(self))
            },
    {
        match self {
            Error::Network { context, .. } => Some(context),
            Error::Http { context, .. } => Some(context),
            Error::Parse { context, .. } => Some(context),
            Error::Item { context, .. } => Some(context),
            Error::Scheduler { context, .. } => Some(context),
            Error::Middleware { context, .. } => Some(context),
            Error::Other { context, .. } => Some(context),
            _ => None,
        }
    }

    /// Applies an edit to the context, where the error has one.
    pub fn edit_context(self, edit: ContextEdit) -> (r: Self)
        ensures
            r.same_kind_and_payload(&self),
            match self.context_view() {
                Some(c) => r.context_view() == Some(edited_context(c, edit)),
                None => r.context_view() is None,
            },
    {
        match self {
            Error::Network { error, context } => Error::Network { error, context: apply_edit(context, edit) },
            Error::Http { error, context } => Error::Http { error, context: apply_edit(context, edit) },
            Error::Parse { error, context } => Error::Parse { error, context: apply_edit(context, edit) },
            Error::Item { message, context } => Error::Item { message, context: apply_edit(context, edit) },
            Error::Scheduler { message, context } => Error::Scheduler { message, context: apply_edit(context, edit) },
            Error::Middleware { message, context } => Error::Middleware { message, context: apply_edit(context, edit) },
            Error::Other { message, context } => Error::Other { message, context: apply_edit(context, edit) },
            Error::UrlParseError(e) => Error::UrlParseError(e),
            Error::IoError(m) => Error::IoError(m),
            Error::SerdeError(m) => Error::SerdeError(m),
        }
    }

    /// Set the error context
    pub fn with_context(self, context: ErrorContext) -> (r: Self)
        ensures
            r.same_kind_and_payload(&self),
            self.context_view() is Some ==> r.context_view() == Some(context@),
            self.context_view() is None ==> r.context_view() is None,
    {
        self.edit_context(ContextEdit::Replace(context))
    }

    /// Set the URL in the error context
    pub fn with_url(self, url: String) -> (r: Self)
        ensures
            r.same_kind_and_payload(&self),
            match self.context_view() {
                Some(c) => r.context_view() == Some(ContextView { url: Some(url@), ..c }),
                None => r.context_view() is None,
            },
    {
        self.edit_context(ContextEdit::Url(url))
    }

    /// Set the status code in the error context
    pub fn with_status_code(self, status_code: u16) -> (r: Self)
        ensures
            r.same_kind_and_payload(&self),
            match self.context_view() {
                Some(c) => r.context_view() == Some(ContextView { status_code: Some(status_code), ..c }),
                None => r.context_view() is None,
            },
    {
        self.edit_context(ContextEdit::StatusCode(status_code))
    }

    /// Set the request ID in the error context
    pub fn with_request_id(self, request_id: String) -> (r: Self)
        ensures
            r.same_kind_and_payload(&self),
            match self.context_view() {
                Some(c) => r.context_view() == Some(ContextView { request_id: Some(request_id@), ..c }),
                None => r.context_view() is None,
            },
    {
        self.edit_context(ContextEdit::RequestId(request_id))
    }

    /// Set the spider name in the error context
    pub fn with_spider_name(self, spider_name: String) -> (r: Self)
        ensures
            r.same_kind_and_payload(&self),
            match self.context_view() {
                Some(c) => r.context_view() == Some(ContextView { spider_name: Some(spider_name@), ..c }),
                None => r.context_view() is None,
            },
    {
        self.edit_context(ContextEdit::SpiderName(spider_name))
    }

    /// Set the component in the error context
    pub fn with_component(self, component: String) -> (r: Self)
        ensures
            r.same_kind_and_payload(&self),
            match self.context_view() {
                Some(c) => r.context_view() == Some(ContextView { component: Some(component@), ..c }),
                None => r.context_view() is None,
            },
    {
        self.edit_context(ContextEdit::Component(component))
    }

    /// Add metadata to the error context
    pub fn with_metadata(self, key: String, value: String) -> (r: Self)
        ensures
            r.same_kind_and_payload(&self),
            match self.context_view() {
                Some(c) => r.context_view() == Some(ContextView { metadata: c.metadata.insert(key@, value@), ..c }),
                None => r.context_view() is None,
            },
    {
        self.edit_context(ContextEdit::Metadata(key, value))
    }

    /// Whether the error is worth retrying.
    pub open spec fn retryable_spec(&self) -> bool {
        match self {
            Error::Network { error, .. } => match error {
                NetworkError::ConnectionRefused | NetworkError::ConnectionReset
                | NetworkError::ConnectionTimeout | NetworkError::DnsError(_)
                | NetworkError::Timeout(_) => true,
                _ => false,
            },
            Error::Http { error, .. } => match error {
                HttpError::ServerError { status, .. } => 500 <= *status && *status < 600,
                HttpError::RateLimited { .. } => true,
                _ => false,
            },
            _ => false,
        }
    }

    /// Check if this error is retryable
    pub fn is_retryable(&self) -> (r: bool)
        ensures
            r == self.retryable_spec(),
    {
        match self {
            Error::Network { error, .. } => match error {
                NetworkError::ConnectionRefused => true,
                NetworkError::ConnectionReset => true,
                NetworkError::ConnectionTimeout => true,
                NetworkError::DnsError(_) => true,
                NetworkError::Timeout(_) => true,
                _ => false,
            },
            Error::Http { error, .. } => match error {
                HttpError::ServerError { status, .. } => *status >= 500 && *status < 600,
                HttpError::RateLimited { .. } => true,
                _ => false,
            },
            _ => false,
        }
    }

    /// The recommended delay before a retry, in milliseconds.
    pub open spec fn retry_delay_spec(&self) -> Option<u64> {
        match self {
            Error::Http { error: HttpError::RateLimited { retry_after, .. }, .. } => *retry_after,
            Error::Network { error: NetworkError::Timeout(_), .. } => Some(5000),
            Error::Network { .. } => Some(2000),
            Error::Http { error: HttpError::ServerError { .. }, .. } => Some(5000),
            _ => None,
        }
    }

    /// Get the recommended retry delay for this error, in milliseconds
    pub fn retry_delay(&self) -> (r: Option<u64>)
        ensures
            r == self.retry_delay_spec(),
    {
        match self {
            Error::Http { error: HttpError::RateLimited { retry_after, .. }, .. } => *retry_after,
            Error::Network { error: NetworkError::Timeout(_), .. } => Some(5000),
            Error::Network { .. } => Some(2000),
            Error::Http { error: HttpError::ServerError { .. }, .. } => Some(5000),
            _ => None,
        }
    }

    /// The name of the kind of this error.
    pub fn kind_name(&self) -> (r: &'static str)
        ensures
            r@ == kind_name_spec(self),
    {
        proof {
            reveal_strlit("network");
            reveal_strlit("http");
            reveal_strlit("parse");
            reveal_strlit("item");
            reveal_strlit("scheduler");
            reveal_strlit("middleware");
            reveal_strlit("url_parse");
            reveal_strlit("io");
            reveal_strlit("serde");
            reveal_strlit("other");
        }
        match self {
            Error::Network { .. } => "network",
            Error::Http { .. } => "http",
            Error::Parse { .. } => "parse",
            Error::Item { .. } => "item",
            Error::Scheduler { .. } => "scheduler",
            Error::Middleware { .. } => "middleware",
            Error::UrlParseError(_) => "url_parse",
            Error::IoError(_) => "io",
            Error::SerdeError(_) => "serde",
            Error::Other { .. } => "other",
        }
    }
}

/// What `ErrorContext::new` makes: no fields but the timestamp.
pub open spec fn fresh_context_view() -> ContextView {
        ContextView {
            url: None,
            status_code: None,
            request_id: None,
            spider_name: None,
            component: None,
            has_timestamp: true,
            metadata: Map::empty(),
        }
}

} // verus!

verus! {

use crate::text::{concat, decimal, duration_debug_string, duration_debug_text, join_strings, opt_duration_debug_string, opt_duration_debug_text, seq_join, u64_text};

/// The text of a network error.
pub open spec fn network_text(e: NetworkError) -> Seq<char> {
    match e {
        NetworkError::ConnectionRefused => "Connection refused"@,
        NetworkError::ConnectionReset => "Connection reset"@,
        NetworkError::ConnectionTimeout => "Connection timed out"@,
        NetworkError::DnsError(s) => "DNS resolution error: "@ + s@,
        NetworkError::SslError(s) => "SSL/TLS error: "@ + s@,
        NetworkError::ProxyError(s) => "Proxy error: "@ + s@,
        NetworkError::TooManyRedirects => "Too many redirects"@,
        NetworkError::Timeout(ms) => "Request timeout after "@ + duration_debug_text(ms as nat),
        NetworkError::Other(s) => "Network error: "@ + s@,
    }
}

/// The text of an HTTP error.
pub open spec fn http_text(e: HttpError) -> Seq<char> {
    match e {
        HttpError::ClientError { status, message } => "Client error: "@ + decimal(status as nat) + " "@ + message@,
        HttpError::ServerError { status, message } => "Server error: "@ + decimal(status as nat) + " "@ + message@,
        HttpError::RateLimited { status, message, retry_after } => "Rate limited: "@ + decimal(status as nat) + " "@
            + message@ + ", retry after "@ + opt_duration_debug_text(match retry_after {
            Some(ms) => Some(ms as nat),
            None => None,
        }),
        HttpError::RedirectError { status, message } => "Redirect error: "@ + decimal(status as nat) + " "@ + message@,
    }
}

/// The text of a parse error.
pub open spec fn parse_error_text(e: ResponseParseError) -> Seq<char> {
    match e {
        ResponseParseError::HtmlError(s) => "HTML parse error: "@ + s@,
        ResponseParseError::JsonError(s) => "JSON parse error: "@ + s@,
        ResponseParseError::XmlError(s) => "XML parse error: "@ + s@,
        ResponseParseError::CssSelectorError(s) => "CSS selector error: "@ + s@,
        ResponseParseError::XPathError(s) => "XPath error: "@ + s@,
        ResponseParseError::RegexError(s) => "Regex error: "@ + s@,
        ResponseParseError::Other(s) => "Parse error: "@ + s@,
    }
}

/// The `name=value` parts of a context: the fields that are set, then the metadata in order.
pub open spec fn context_parts(c: ErrorContext) -> Seq<Seq<char>> {
    let a = match c.url { Some(u) => seq!["url="@ + u@], None => Seq::empty() };
    let b = match c.status_code { Some(s) => seq!["status="@ + decimal(s as nat)], None => Seq::empty() };
    let d = match c.request_id { Some(r) => seq!["request_id="@ + r@], None => Seq::empty() };
    let e = match c.spider_name { Some(s) => seq!["spider="@ + s@], None => Seq::empty() };
    let f = match c.component { Some(s) => seq!["component="@ + s@], None => Seq::empty() };
    let ks = c.metadata.key_order();
    let m = ks.map_values(|k: Seq<char>| k + "="@ + c.metadata@[k]);
    a + b + d + e + f + m
}

/// The text of a context: its parts joined by ", ".
pub open spec fn context_text(c: ErrorContext) -> Seq<char> {
    seq_join(context_parts(c), ", "@)
}

/// The text of an error.
pub open spec fn error_text(e: Error) -> Seq<char> {
    match e {
        Error::UrlParseError(u) => "URL parse error: "@ + u.text@,
        Error::Network { error, context } => "Network error: "@ + network_text(error) + " "@ + context_text(context),
        Error::Http { error, context } => "HTTP error: "@ + http_text(error) + " "@ + context_text(context),
        Error::Parse { error, context } => "Parse error: "@ + parse_error_text(error) + " "@ + context_text(context),
        Error::Item { message, context } => "Item processing error: "@ + message@ + " "@ + context_text(context),
        Error::Scheduler { message, context } => "Scheduler error: "@ + message@ + " "@ + context_text(context),
        Error::Middleware { message, context } => "Middleware error: "@ + message@ + " "@ + context_text(context),
        Error::IoError(s) => "IO error: "@ + s@,
        Error::SerdeError(s) => "Serialization error: "@ + s@,
        Error::Other { message, context } => message@ + " "@ + context_text(context),
    }
}

impl NetworkError {
    /// The text of the error.
    pub fn describe(&self) -> (r: String)
        ensures
            r@ == network_text(*self),
    {
        match self {
            NetworkError::ConnectionRefused => "Connection refused".to_owned(),
            NetworkError::ConnectionReset => "Connection reset".to_owned(),
            NetworkError::ConnectionTimeout => "Connection timed out".to_owned(),
            NetworkError::DnsError(s) => concat("DNS resolution error: ", s.as_str()),
            NetworkError::SslError(s) => concat("SSL/TLS error: ", s.as_str()),
            NetworkError::ProxyError(s) => concat("Proxy error: ", s.as_str()),
            NetworkError::TooManyRedirects => "Too many redirects".to_owned(),
            NetworkError::Timeout(ms) => concat("Request timeout after ", duration_debug_string(*ms as u128).as_str()),
            NetworkError::Other(s) => concat("Network error: ", s.as_str()),
        }
    }
}

fn status_line(prefix: &str, status: u16, message: &String) -> (r: String)
    ensures
        r@ == prefix@ + decimal(status as nat) + " "@ + message@,
{
    let n = u64_text(status as u64);
    let a = concat(prefix, n.as_str());
    let b = concat(a.as_str(), " ");
    concat(b.as_str(), message.as_str())
}

impl HttpError {
    /// The text of the error.
    pub fn describe(&self) -> (r: String)
        ensures
            r@ == http_text(*self),
    {
        match self {
            HttpError::ClientError { status, message } => status_line("Client error: ", *status, message),
            HttpError::ServerError { status, message } => status_line("Server error: ", *status, message),
            HttpError::RateLimited { status, message, retry_after } => {
                let a = status_line("Rate limited: ", *status, message);
                let b = concat(a.as_str(), ", retry after ");
                let d = opt_duration_debug_string(match retry_after {
                    Some(ms) => Some(*ms as u128),
                    None => None,
                });
                concat(b.as_str(), d.as_str())
            },
            HttpError::RedirectError { status, message } => status_line("Redirect error: ", *status, message),
        }
    }
}

impl ResponseParseError {
    /// The text of the error.
    pub fn describe(&self) -> (r: String)
        ensures
            r@ == parse_error_text(*self),
    {
        match self {
            ResponseParseError::HtmlError(s) => concat("HTML parse error: ", s.as_str()),
            ResponseParseError::JsonError(s) => concat("JSON parse error: ", s.as_str()),
            ResponseParseError::XmlError(s) => concat("XML parse error: ", s.as_str()),
            ResponseParseError::CssSelectorError(s) => concat("CSS selector error: ", s.as_str()),
            ResponseParseError::XPathError(s) => concat("XPath error: ", s.as_str()),
            ResponseParseError::RegexError(s) => concat("Regex error: ", s.as_str()),
            ResponseParseError::Other(s) => concat("Parse error: ", s.as_str()),
        }
    }
}

impl ErrorContext {
    /// The text of the context: `name=value` parts joined by ", ".
    pub fn describe(&self) -> (r: String)
        ensures
            r@ == context_text(*self),
    {
        let mut parts: Vec<String> = Vec::new();
        if let Some(u) = &self.url {
            parts.push(concat("url=", u.as_str()));
        }
        if let Some(s) = self.status_code {
            let n = u64_text(s as u64);
            parts.push(concat("status=", n.as_str()));
        }
        if let Some(r) = &self.request_id {
            parts.push(concat("request_id=", r.as_str()));
        }
        if let Some(s) = &self.spider_name {
            parts.push(concat("spider=", s.as_str()));
        }
        if let Some(s) = &self.component {
            parts.push(concat("component=", s.as_str()));
        }
        let ghost head = parts@.map_values(|s: String| s@);
        let ks = self.metadata.len();
        let ghost korder = self.metadata.key_order();
        let ghost mparts = korder.map_values(|k: Seq<char>| k + "="@ + self.metadata@[k]);
        let mut i: usize = 0;
        while i < ks
            invariant
                ks == korder.len(),
                korder == self.metadata.key_order(),
                mparts == korder.map_values(|k: Seq<char>| k + "="@ + self.metadata@[k]),
                i <= ks,
                parts@.map_values(|s: String| s@) == head + mparts.take(i as int),
            decreases ks - i,
        {
            let k = self.metadata.key_at(i);
            let v = self.metadata.value_at(i);
            let a = concat(k.as_str(), "=");
            let p = concat(a.as_str(), v.as_str());
            let ghost before = parts@;
            parts.push(p);
            proof {
                assert(mparts.take(i + 1) =~= mparts.take(i as int).push(mparts[i as int]));
                assert(parts@.map_values(|s: String| s@) =~= before.map_values(|s: String| s@).push(p@));
            }
            i = i + 1;
        }
        proof {
            assert(mparts.take(ks as int) =~= mparts);
            assert(parts@.map_values(|s: String| s@) =~= context_parts(*self));
        }
        join_strings(&parts, ", ")
    }
}

fn with_context_text(prefix: &str, middle: &str, context: &ErrorContext) -> (r: String)
    ensures
        r@ == prefix@ + middle@ + " "@ + context_text(*context),
{
    let a = concat(prefix, middle);
    let b = concat(a.as_str(), " ");
    let c = context.describe();
    concat(b.as_str(), c.as_str())
}

impl Error {
    /// The text of the error.
    pub fn describe(&self) -> (r: String)
        ensures
            r@ == error_text(*self),
    {
        match self {
            Error::UrlParseError(e) => concat("URL parse error: ", e.text.as_str()),
            Error::Network { error, context } => {
                let t = error.describe();
                with_context_text("Network error: ", t.as_str(), context)
            },
            Error::Http { error, context } => {
                let t = error.describe();
                with_context_text("HTTP error: ", t.as_str(), context)
            },
            Error::Parse { error, context } => {
                let t = error.describe();
                with_context_text("Parse error: ", t.as_str(), context)
            },
            Error::Item { message, context } => with_context_text("Item processing error: ", message.as_str(), context),
            Error::Scheduler { message, context } => with_context_text("Scheduler error: ", message.as_str(), context),
            Error::Middleware { message, context } => with_context_text("Middleware error: ", message.as_str(), context),
            Error::IoError(s) => concat("IO error: ", s.as_str()),
            Error::SerdeError(s) => concat("Serialization error: ", s.as_str()),
            Error::Other { message, context } => {
                proof {
                    reveal_strlit("");
                    assert(""@ + message@ =~= message@);
                }
                with_context_text("", message.as_str(), context)
            },
        }
    }
}

} // verus!

verus! {

/// Which errors are worth retrying: network failures that may pass (a refused, reset or timed
/// out connection, a failed DNS lookup, a request timeout), server errors (5xx) and rate
/// limiting; no other network or HTTP error, and no error of another kind.
pub proof fn law_retryable_errors(e: Error)
    ensures
        e matches Error::Network { error: NetworkError::ConnectionRefused, .. } ==> e.retryable_spec(),
        e matches Error::Network { error: NetworkError::ConnectionReset, .. } ==> e.retryable_spec(),
        e matches Error::Network { error: NetworkError::ConnectionTimeout, .. } ==> e.retryable_spec(),
        e matches Error::Network { error: NetworkError::DnsError(_), .. } ==> e.retryable_spec(),
        e matches Error::Network { error: NetworkError::Timeout(_), .. } ==> e.retryable_spec(),
        e matches Error::Network { error: NetworkError::SslError(_), .. } ==> !e.retryable_spec(),
        e matches Error::Network { error: NetworkError::ProxyError(_), .. } ==> !e.retryable_spec(),
        e matches Error::Network { error: NetworkError::TooManyRedirects, .. } ==> !e.retryable_spec(),
        e matches Error::Network { error: NetworkError::Other(_), .. } ==> !e.retryable_spec(),
        e matches Error::Http { error: HttpError::ServerError { status, .. }, .. } ==> (e.retryable_spec()
            <==> 500 <= status <= 599),
        e matches Error::Http { error: HttpError::RateLimited { .. }, .. } ==> e.retryable_spec(),
        e matches Error::Http { error: HttpError::ClientError { .. }, .. } ==> !e.retryable_spec(),
        e matches Error::Http { error: HttpError::RedirectError { .. }, .. } ==> !e.retryable_spec(),
        !(e is Network || e is Http) ==> !e.retryable_spec(),
{
}

} // verus!
