use vstd::prelude::*;
use std::collections::VecDeque;
use crate::error::{fresh_context_view, Error};
use crate::request::{meta_as_u64, Request, RequestView};
use crate::response::{Response, ResponseMetaValue, ResponseMetaView, ResponseView};
use crate::strmap::StrMap;
use crate::text::concat;
use crate::pattern::{Pattern, compile_pattern, regex_matches, regex_refusal};

verus! {

/// Priority level for middleware execution; higher priority middleware is executed first.
/// The variants are declared from the lowest up, so the derived order follows their values.
#[derive(Debug, Clone, Copy, PartialEq, Eq, Structural, PartialOrd, Ord, Hash)]
pub enum MiddlewarePriority {
    /// Lowest priority, executed last (0)
    Lowest,
    /// Low priority (200)
    Low,
    /// Normal priority, the default (500)
    Normal,
    /// High priority (800)
    High,
    /// Highest priority, executed first (1000)
    Highest,
}

/// The numeric value of a priority.
pub open spec fn priority_value(p: MiddlewarePriority) -> u32 {
    match p {
        MiddlewarePriority::Lowest => 0,
        MiddlewarePriority::Low => 200,
        MiddlewarePriority::Normal => 500,
        MiddlewarePriority::High => 800,
        MiddlewarePriority::Highest => 1000,
    }
}

impl MiddlewarePriority {
    /// The numeric value of the priority.
    pub fn value(&self) -> (r: u32)
        ensures
            r == priority_value(*self),
    {
        match self {
            MiddlewarePriority::Lowest => 0,
            MiddlewarePriority::Low => 200,
            MiddlewarePriority::Normal => 500,
            MiddlewarePriority::High => 800,
            MiddlewarePriority::Highest => 1000,
        }
    }
}

impl Default for MiddlewarePriority {
    fn default() -> (r: Self)
        ensures
            r == MiddlewarePriority::Normal,
    {
        MiddlewarePriority::Normal
    }
}

/// A middleware in a chain, with its priority and name.
#[derive(Debug)]
pub struct MiddlewareWrapper<M> {
    pub middleware: M,
    pub priority: MiddlewarePriority,
    pub name: String,
}

/// The view of a chained middleware.
pub struct WrapperView<M> {
    pub middleware: M,
    pub priority: MiddlewarePriority,
    pub name: Seq<char>,
}

impl<M> View for MiddlewareWrapper<M> {
    type V = WrapperView<M>;

    open spec fn view(&self) -> WrapperView<M> {
        WrapperView { middleware: self.middleware, priority: self.priority, name: self.name@ }
    }
}

impl<M> MiddlewareWrapper<M> {
    /// A wrapper at normal priority, named "Unknown".
    pub fn new(middleware: M) -> (r: Self)
        ensures
            r.middleware == middleware,
            r.priority == MiddlewarePriority::Normal,
            r.name@ == "Unknown"@,
    {
        MiddlewareWrapper { middleware, priority: MiddlewarePriority::Normal, name: String::from_str("Unknown") }
    }
}

/// The value by which a chained middleware is ordered.
pub open spec fn rank<M>(w: WrapperView<M>) -> u32 {
    priority_value(w.priority)
}

/// The chain with `x` inserted after the last entry whose priority is at least its own.
pub open spec fn insert_by_priority<M>(s: Seq<WrapperView<M>>, x: WrapperView<M>) -> Seq<WrapperView<M>>
    decreases s.len(),
{
    if s.len() == 0 {
        seq![x]
    } else if rank(s.last()) >= rank(x) {
        s.push(x)
    } else {
        insert_by_priority(s.drop_last(), x).push(s.last())
    }
}

/// The chain in order of priority, highest first, entries of equal priority kept in the order
/// they were given (a stable sort).
pub open spec fn sort_by_priority<M>(s: Seq<WrapperView<M>>) -> Seq<WrapperView<M>>
    decreases s.len(),
{
    if s.len() == 0 {
        s
    } else {
        insert_by_priority(sort_by_priority(s.drop_last()), s.last())
    }
}

/// No entry has a higher priority than one before it.
pub open spec fn sorted_by_priority<M>(s: Seq<WrapperView<M>>) -> bool {
    forall|i: int, j: int| 0 <= i < j < s.len() ==> rank(#[trigger] s[i]) >= rank(#[trigger] s[j])
}

/// The entries of a chain that have the given priority, in chain order.
pub open spec fn with_priority_of<M>(s: Seq<WrapperView<M>>, p: MiddlewarePriority) -> Seq<WrapperView<M>> {
    s.filter(|w: WrapperView<M>| w.priority == p)
}

/// Inserting by priority is inserting at the place found by walking back over the entries of
/// lower priority.
proof fn lemma_insert_at<M>(s: Seq<WrapperView<M>>, x: WrapperView<M>, j: int)
    requires
        0 <= j <= s.len(),
        j == 0 || rank(s[j - 1]) >= rank(x),
        forall|k: int| j <= k < s.len() ==> rank(#[trigger] s[k]) < rank(x),
    ensures
        insert_by_priority(s, x) == s.insert(j, x),
    decreases s.len(),
{
    if s.len() == 0 {
        assert(s.insert(j, x) =~= seq![x]);
    } else if rank(s.last()) >= rank(x) {
        assert(j == s.len());
        assert(s.insert(j, x) =~= s.push(x));
    } else {
        let p = s.drop_last();
        lemma_insert_at(p, x, j);
        assert(s.insert(j, x) =~= p.insert(j, x).push(s.last()));
    }
}

/// Inserting by priority keeps a chain sorted, adds exactly the entry, and keeps the entries of
/// each priority in their order with the new one last among its own.
proof fn lemma_insert_props<M>(s: Seq<WrapperView<M>>, x: WrapperView<M>)
    ensures
        sorted_by_priority(s) ==> sorted_by_priority(insert_by_priority(s, x)),
        insert_by_priority(s, x).to_multiset() == s.to_multiset().insert(x),
        insert_by_priority(s, x).len() == s.len() + 1,
        forall|p: MiddlewarePriority| #[trigger] with_priority_of(insert_by_priority(s, x), p)
            == if x.priority == p {
            with_priority_of(s, p).push(x)
        } else {
            with_priority_of(s, p)
        },
    decreases s.len(),
{
    broadcast use vstd::seq_lib::group_seq_properties;
    reveal(Seq::filter);
    let t = insert_by_priority(s, x);
    if s.len() == 0 {
        assert(t =~= Seq::<WrapperView<M>>::empty().push(x));
        assert forall|p: MiddlewarePriority| #[trigger] with_priority_of(t, p)
            == if x.priority == p {
            with_priority_of(s, p).push(x)
        } else {
            with_priority_of(s, p)
        } by {
            assert(t.drop_last() =~= s);
        }
    } else if rank(s.last()) >= rank(x) {
        assert forall|p: MiddlewarePriority| #[trigger] with_priority_of(t, p)
            == if x.priority == p {
            with_priority_of(s, p).push(x)
        } else {
            with_priority_of(s, p)
        } by {
            assert(t.drop_last() =~= s);
        }
        if sorted_by_priority(s) {
            assert forall|i: int, j: int| 0 <= i < j < t.len() implies rank(#[trigger] t[i]) >= rank(#[trigger] t[j]) by {
                if j == s.len() {
                    if i < s.len() - 1 {
                        assert(rank(s[i]) >= rank(s[s.len() - 1]));
                    }
                } else {
                    assert(t[i] == s[i] && t[j] == s[j]);
                }
            }
        }
    } else {
        let p0 = s.drop_last();
        let u = insert_by_priority(p0, x);
        lemma_insert_props(p0, x);
        assert(t == u.push(s.last()));
        assert(t.drop_last() =~= u);
        assert(s =~= p0.push(s.last()));
        assert forall|p: MiddlewarePriority| #[trigger] with_priority_of(t, p)
            == if x.priority == p {
            with_priority_of(s, p).push(x)
        } else {
            with_priority_of(s, p)
        } by {
            assert(with_priority_of(u, p) == if x.priority == p {
                with_priority_of(p0, p).push(x)
            } else {
                with_priority_of(p0, p)
            });
            assert(s.drop_last() =~= p0);
            if s.last().priority == p {
                assert(x.priority != p);
            }
        }
        if sorted_by_priority(s) {
            assert(sorted_by_priority(p0)) by {
                assert forall|i: int, j: int| 0 <= i < j < p0.len() implies rank(#[trigger] p0[i]) >= rank(#[trigger] p0[j]) by {
                    assert(p0[i] == s[i] && p0[j] == s[j]);
                }
            }
            assert(sorted_by_priority(u));
            assert forall|i: int, j: int| 0 <= i < j < t.len() implies rank(#[trigger] t[i]) >= rank(#[trigger] t[j]) by {
                if j == t.len() - 1 {
                    assert(t[j] == s.last());
                    let m = u.to_multiset();
                    assert(t[i] == u[i]);
                    assert(u.contains(u[i]));
                    assert(m.count(u[i]) > 0);
                    assert(m == p0.to_multiset().insert(x));
                    if u[i] != x {
                        assert(p0.to_multiset().count(u[i]) > 0);
                        assert(p0.contains(u[i]));
                        let k = choose|k: int| 0 <= k < p0.len() && p0[k] == u[i];
                        assert(s[k] == p0[k]);
                        assert(rank(s[k]) >= rank(s[s.len() - 1]));
                    }
                } else {
                    assert(t[i] == u[i] && t[j] == u[j]);
                }
            }
        }
    }
}

/// Sorting by priority gives a sorted chain of the same entries, the entries of each priority
/// in the order they were given.
pub proof fn law_sort_by_priority<M>(s: Seq<WrapperView<M>>)
    ensures
        sorted_by_priority(sort_by_priority(s)),
        sort_by_priority(s).to_multiset() == s.to_multiset(),
        sort_by_priority(s).len() == s.len(),
        forall|p: MiddlewarePriority| #[trigger] with_priority_of(sort_by_priority(s), p)
            == with_priority_of(s, p),
    decreases s.len(),
{
    broadcast use vstd::seq_lib::group_seq_properties;
    reveal(Seq::filter);
    if s.len() == 0 {
        assert(s.to_multiset() =~= vstd::multiset::Multiset::empty());
    } else {
        let p0 = s.drop_last();
        law_sort_by_priority(p0);
        lemma_insert_props(sort_by_priority(p0), s.last());
        assert(s =~= p0.push(s.last()));
        assert forall|p: MiddlewarePriority| #[trigger] with_priority_of(sort_by_priority(s), p)
            == with_priority_of(s, p) by {
            assert(with_priority_of(sort_by_priority(p0), p) == with_priority_of(p0, p));
            assert(s.drop_last() =~= p0);
        }
    }
}

/// A chain that is already sorted by priority is left as it is by sorting.
pub proof fn law_sorted_chain_is_kept<M>(s: Seq<WrapperView<M>>)
    requires
        sorted_by_priority(s),
    ensures
        sort_by_priority(s) == s,
    decreases s.len(),
{
    if s.len() > 0 {
        let p0 = s.drop_last();
        assert(sorted_by_priority(p0)) by {
            assert forall|i: int, j: int| 0 <= i < j < p0.len() implies rank(#[trigger] p0[i]) >= rank(#[trigger] p0[j]) by {
                assert(p0[i] == s[i] && p0[j] == s[j]);
            }
        }
        law_sorted_chain_is_kept(p0);
        if p0.len() > 0 {
            assert(rank(s[p0.len() - 1]) >= rank(s[s.len() - 1]));
        }
        assert(p0.push(s.last()) =~= s);
    }
}

/// A chain of middlewares run in order of priority, highest first.
#[verifier::reject_recursive_types(M)]
pub struct MiddlewareChain<M> {
    middlewares: Vec<MiddlewareWrapper<M>>,
    sorted: bool,
}

/// The views of a sequence of chained middlewares.
pub open spec fn wrapper_views<M>(v: Seq<MiddlewareWrapper<M>>) -> Seq<WrapperView<M>> {
    v.map_values(|w: MiddlewareWrapper<M>| w@)
}

impl<M> View for MiddlewareChain<M> {
    type V = (Seq<WrapperView<M>>, bool);

    closed spec fn view(&self) -> (Seq<WrapperView<M>>, bool) {
        (wrapper_views(self.middlewares@), self.sorted)
    }
}

/// Requests pass through a chain of request middlewares.
pub type ChainedRequestMiddleware<M> = MiddlewareChain<M>;

/// Responses pass through a chain of response middlewares.
pub type ChainedResponseMiddleware<M> = MiddlewareChain<M>;

impl<M> MiddlewareChain<M> {
    /// A chain of the given middlewares, sorted by priority, highest first; middlewares
    /// of equal priority keep the order in which they were given.
    pub fn new(middlewares: Vec<MiddlewareWrapper<M>>) -> (r: Self)
        ensures
            r@ == (sort_by_priority(wrapper_views(middlewares@)), true),
    {
        MiddlewareChain { middlewares: Self::sort_entries(middlewares), sorted: true }
    }

    /// Sorts `v` by priority, highest first, keeping the order of equal priorities.
    fn sort_entries(v: Vec<MiddlewareWrapper<M>>) -> (r: Vec<MiddlewareWrapper<M>>)
        ensures
            wrapper_views(r@) == sort_by_priority(wrapper_views(v@)),
    {
        let ghost input = wrapper_views(v@);
        let ghost n = input.len();
        let mut src = v;
        let mut rest: Vec<MiddlewareWrapper<M>> = Vec::new();
        proof {
            assert(input.skip(0) =~= input);
            assert(wrapper_views(rest@) =~= sort_by_priority(input.take(0)));
        }
        while src.len() > 0
            invariant
                wrapper_views(src@) == input.skip(n - src@.len()),
                src@.len() <= n,
                n == input.len(),
                wrapper_views(rest@) == sort_by_priority(input.take(n - src@.len())),
            decreases src@.len(),
        {
            let ghost done = (n - src@.len()) as int;
            let ghost s0 = src@;
            let w = src.remove(0);
            proof {
                assert(wrapper_views(s0)[0] == s0[0]@);
                assert(input.skip(done)[0] == input[done]);
                assert(w@ == input[done]);
                assert(wrapper_views(src@) =~= input.skip(done + 1)) by {
                    assert forall|k: int| 0 <= k < src@.len() implies #[trigger] wrapper_views(src@)[k] == input.skip(done + 1)[k] by {
                        assert(src@[k] == s0[k + 1]);
                        assert(wrapper_views(s0)[k + 1] == s0[k + 1]@);
                        assert(input.skip(done)[k + 1] == input[done + 1 + k]);
                    }
                }
            }
            let r = w.priority.value();
            let mut j: usize = rest.len();
            while j > 0 && rest[j - 1].priority.value() < r
                invariant
                    j <= rest@.len(),
                    r == rank(w@),
                    forall|k: int| j <= k < rest@.len() ==> rank(#[trigger] wrapper_views(rest@)[k]) < r,
                decreases j,
            {
                proof {
                    assert(wrapper_views(rest@)[j - 1] == rest@[j - 1]@);
                }
                j = j - 1;
            }
            proof {
                if j > 0 {
                    assert(wrapper_views(rest@)[j - 1] == rest@[j - 1]@);
                }
                lemma_insert_at(wrapper_views(rest@), w@, j as int);
                assert(input.take(done + 1).drop_last() =~= input.take(done));
                assert(input.take(done + 1).last() == input[done]);
            }
            let ghost r0 = rest@;
            rest.insert(j, w);
            proof {
                assert(wrapper_views(rest@) =~= wrapper_views(r0).insert(j as int, w@));
            }
        }
        proof {
            assert(input.take(n as int) =~= input);
        }
        rest
    }

    /// Add a middleware and sort the chain again.
    pub fn add(&mut self, middleware: MiddlewareWrapper<M>)
        ensures
            final(self)@ == (sort_by_priority(old(self)@.0.push(middleware@)), true),
    {
        let mut v: Vec<MiddlewareWrapper<M>> = Vec::new();
        std::mem::swap(&mut v, &mut self.middlewares);
        let ghost v0 = v@;
        v.push(middleware);
        proof {
            assert(wrapper_views(v@) =~= wrapper_views(v0).push(middleware@));
        }
        self.middlewares = Self::sort_entries(v);
        self.sorted = true;
    }

    /// Sort the middlewares by priority, unless they already are.
    pub fn ensure_sorted(&mut self)
        ensures
            final(self)@ == (if old(self)@.1 {
                old(self)@.0
            } else {
                sort_by_priority(old(self)@.0)
            }, true),
    {
        if !self.sorted {
            let mut v: Vec<MiddlewareWrapper<M>> = Vec::new();
            std::mem::swap(&mut v, &mut self.middlewares);
            self.middlewares = Self::sort_entries(v);
            self.sorted = true;
        }
    }

    /// Get the middlewares in priority order.
    pub fn get_middlewares(&mut self) -> (r: &Vec<MiddlewareWrapper<M>>)
        ensures
            final(self)@ == (if old(self)@.1 {
                old(self)@.0
            } else {
                sort_by_priority(old(self)@.0)
            }, true),
            wrapper_views(r@) == final(self)@.0,
    {
        self.ensure_sorted();
        &self.middlewares
    }

    /// The middlewares in the order they run.
    pub fn middlewares(&self) -> (r: &Vec<MiddlewareWrapper<M>>)
        ensures
            wrapper_views(r@) == self@.0,
    {
        &self.middlewares
    }

    /// The number of middlewares in the chain.
    pub fn len(&self) -> (r: usize)
        ensures
            r == self@.0.len(),
    {
        self.middlewares.len()
    }

    /// Whether the chain has been sorted.
    pub fn is_sorted(&self) -> (r: bool)
        ensures
            r == self@.1,
    {
        self.sorted
    }
}

/// Log level for the response logger
#[derive(Debug, Clone, Copy, PartialEq, Eq, Structural)]
pub enum LogLevel {
    Debug,
    Info,
    Warn,
}

/// A middleware that adds default headers to requests
#[derive(Debug)]
pub struct DefaultHeadersMiddleware {
    headers: StrMap<String>,
    priority: MiddlewarePriority,
}

impl View for DefaultHeadersMiddleware {
    type V = (Map<Seq<char>, Seq<char>>, MiddlewarePriority);

    closed spec fn view(&self) -> (Map<Seq<char>, Seq<char>>, MiddlewarePriority) {
        (self.headers@, self.priority)
    }
}

/// The headers that `DefaultHeadersMiddleware::common` adds.
pub open spec fn common_headers() -> Map<Seq<char>, Seq<char>> {
    Map::empty().insert("User-Agent"@, "scrapy-rs/0.1.0"@).insert(
        "Accept"@,
        "text/html,application/xhtml+xml,application/xml;q=0.9,*/*;q=0.8"@,
    ).insert("Accept-Language"@, "en"@)
}

impl DefaultHeadersMiddleware {
    /// Create a new DefaultHeadersMiddleware with the given headers, at normal priority
    pub fn new(headers: StrMap<String>) -> (r: Self)
        ensures
            r@ == (headers@, MiddlewarePriority::Normal),
    {
        DefaultHeadersMiddleware { headers, priority: MiddlewarePriority::Normal }
    }

    /// Create a new DefaultHeadersMiddleware with common headers
    pub fn common() -> (r: Self)
        ensures
            r@ == (common_headers(), MiddlewarePriority::Normal),
    {
        let mut headers: StrMap<String> = StrMap::new();
        headers.insert(String::from_str("User-Agent"), String::from_str("scrapy-rs/0.1.0"));
        headers.insert(
            String::from_str("Accept"),
            String::from_str("text/html,application/xhtml+xml,application/xml;q=0.9,*/*;q=0.8"),
        );
        headers.insert(String::from_str("Accept-Language"), String::from_str("en"));
        Self::new(headers)
    }

    /// Add a header to the middleware
    pub fn with_header(self, key: &str, value: &str) -> (r: Self)
        ensures
            r@ == (self@.0.insert(key@, value@), self@.1),
    {
        let mut s = self;
        s.headers.insert(key.to_owned(), value.to_owned());
        s
    }

    /// Set the priority of this middleware
    pub fn with_priority(self, priority: MiddlewarePriority) -> (r: Self)
        ensures
            r@ == (self@.0, priority),
    {
        DefaultHeadersMiddleware { priority, ..self }
    }

    /// The request with the default headers set, replacing headers of the same name.
    pub fn process_request(&self, request: Request) -> (r: Request)
        ensures
            r@ == (RequestView { headers: request@.headers.union_prefer_right(self@.0), ..request@ }),
    {
        let mut request = request;
        request.headers.extend_from(&self.headers);
        request
    }

    /// Get the priority of this middleware
    pub fn priority(&self) -> (r: MiddlewarePriority)
        ensures
            r == self@.1,
    {
        self.priority
    }

    /// Get the name of this middleware
    pub fn name(&self) -> (r: &'static str)
        ensures
            r@ == "DefaultHeadersMiddleware"@,
    {
        "DefaultHeadersMiddleware"
    }
}

/// Draws a number in `0..=bound` with `rand::Rng::gen_range` on the thread's generator
/// (`rand::thread_rng`); which number is left open, only its range is stated.
#[verifier::external_body]
fn random_up_to(bound: u64) -> (r: u64)
    ensures
        r <= bound,
{
    rand::Rng::gen_range(&mut rand::thread_rng(), 0..=bound)
}

/// A middleware that waits a random delay before each request
#[derive(Debug, Clone, Copy)]
pub struct RandomDelayMiddleware {
    min_delay_ms: u64,
    max_delay_ms: u64,
}

impl View for RandomDelayMiddleware {
    type V = (u64, u64);

    closed spec fn view(&self) -> (u64, u64) {
        (self.min_delay_ms, self.max_delay_ms)
    }
}

impl RandomDelayMiddleware {
    /// Create a new RandomDelayMiddleware with the given delay range (milliseconds)
    pub fn new(min_delay_ms: u64, max_delay_ms: u64) -> (r: Self)
        requires
            min_delay_ms <= max_delay_ms,
        ensures
            r@ == (min_delay_ms, max_delay_ms),
    {
        RandomDelayMiddleware { min_delay_ms, max_delay_ms }
    }

    /// The delay for a draw of `offset` above the minimum.
    pub fn delay_for(&self, offset: u64) -> (r: u64)
        requires
            self@.0 <= self@.1,
            offset <= self@.1 - self@.0,
        ensures
            r == self@.0 + offset,
    {
        self.min_delay_ms + offset
    }

    /// A random delay (milliseconds) within the range, to wait before the request goes out.
    pub fn next_delay(&self) -> (r: u64)
        requires
            self@.0 <= self@.1,
        ensures
            self@.0 <= r <= self@.1,
    {
        let offset = random_up_to(self.max_delay_ms - self.min_delay_ms);
        self.delay_for(offset)
    }
}

impl Pattern {
    /// Compiles a regular expression; a pattern that does not compile gives a middleware error
    /// saying "Invalid regex: " and why.
    pub fn new(source: &str) -> (r: Result<Pattern, Error>)
        ensures
            r is Ok <==> regex_refusal(source@) is None,
            r matches Ok(p) ==> p@ == source@,
            r matches Err(e) ==> e matches Error::Middleware { message, context }
                && message@ == "Invalid regex: "@ + regex_refusal(source@)->0 && context@ == fresh_context_view(),
    {
        match compile_pattern(source) {
            Ok(p) => Ok(p),
            Err(text) => Err(Error::middleware(concat("Invalid regex: ", text.as_str()))),
        }
    }
}

/// Every pattern compiles.
pub open spec fn all_compile(patterns: Seq<Seq<char>>) -> bool {
    forall|i: int| 0 <= i < patterns.len() ==> regex_refusal(#[trigger] patterns[i]) is None
}

/// Pattern `k` is the first that does not compile.
pub open spec fn refused_at(patterns: Seq<Seq<char>>, k: int) -> bool {
    &&& 0 <= k < patterns.len()
    &&& regex_refusal(patterns[k]) is Some
    &&& forall|j: int| 0 <= j < k ==> regex_refusal(#[trigger] patterns[j]) is None
}

/// The error is the one the first pattern that does not compile gives.
pub open spec fn refusal_error(patterns: Seq<Seq<char>>, e: Error) -> bool {
    exists|k: int| #[trigger] refused_at(patterns, k) && (e matches Error::Middleware { message, context }
        && message@ == "Invalid regex: "@ + regex_refusal(patterns[k])->0 && context@ == fresh_context_view())
}

/// The views of a sequence of patterns.
pub open spec fn pattern_views(v: Seq<Pattern>) -> Seq<Seq<char>> {
    v.map_values(|p: Pattern| p@)
}

/// `i` is the first pattern that matches `url`.
pub open spec fn is_first_matching(patterns: Seq<Seq<char>>, url: Seq<char>, i: int) -> bool {
    &&& 0 <= i < patterns.len()
    &&& regex_matches(patterns[i], url)
    &&& forall|j: int| 0 <= j < i ==> !regex_matches(#[trigger] patterns[j], url)
}

/// Some pattern matches `url`.
pub open spec fn any_matches(patterns: Seq<Seq<char>>, url: Seq<char>) -> bool {
    exists|i: int| 0 <= i < patterns.len() && regex_matches(#[trigger] patterns[i], url)
}

/// Why a URL is refused: the first denied pattern that matches it, or, where allowed patterns
/// are given, that none of them matches; `None` where it passes.
pub open spec fn url_refusal(allowed: Seq<Seq<char>>, denied: Seq<Seq<char>>, url: Seq<char>) -> Option<Seq<char>> {
    if any_matches(denied, url) {
        let i = choose|i: int| is_first_matching(denied, url, i);
        Some("URL "@ + url + " matched denied pattern "@ + denied[i])
    } else if allowed.len() > 0 && !any_matches(allowed, url) {
        Some("URL "@ + url + " did not match any allowed pattern"@)
    } else {
        None
    }
}

/// Where some pattern matches, a first one does.
proof fn lemma_first_match_exists(patterns: Seq<Seq<char>>, url: Seq<char>, k: int)
    requires
        0 <= k < patterns.len(),
        regex_matches(patterns[k], url),
    ensures
        exists|i: int| is_first_matching(patterns, url, i),
    decreases k,
{
    if exists|j: int| 0 <= j < k && regex_matches(#[trigger] patterns[j], url) {
        let j = choose|j: int| 0 <= j < k && regex_matches(#[trigger] patterns[j], url);
        lemma_first_match_exists(patterns, url, j);
    } else {
        assert(is_first_matching(patterns, url, k));
    }
}

/// Denied patterns are checked first, whatever the allowed ones are (none included): a URL
/// that some denied pattern matches is refused, naming the first denied pattern that matches.
/// A URL that no denied pattern matches is refused only where allowed patterns are given and
/// none of them matches it; otherwise it passes.
pub proof fn law_url_filter(allowed: Seq<Seq<char>>, denied: Seq<Seq<char>>, url: Seq<char>, k: int)
    ensures
        0 <= k < denied.len() && regex_matches(denied[k], url) ==> exists|i: int|
            0 <= i < denied.len() && regex_matches(#[trigger] denied[i], url)
            && (forall|j: int| 0 <= j < i ==> !regex_matches(#[trigger] denied[j], url))
            && url_refusal(allowed, denied, url) == Some("URL "@ + url + " matched denied pattern "@ + denied[i]),
        (forall|j: int| 0 <= j < denied.len() ==> !regex_matches(#[trigger] denied[j], url)) ==> (
            url_refusal(allowed, denied, url) is None <==> (allowed.len() == 0 || exists|j: int|
                0 <= j < allowed.len() && regex_matches(#[trigger] allowed[j], url))),
        (forall|j: int| 0 <= j < denied.len() ==> !regex_matches(#[trigger] denied[j], url)) && allowed.len() > 0
            && (forall|j: int| 0 <= j < allowed.len() ==> !regex_matches(#[trigger] allowed[j], url))
            ==> url_refusal(allowed, denied, url) == Some("URL "@ + url + " did not match any allowed pattern"@),
{
    if 0 <= k < denied.len() && regex_matches(denied[k], url) {
        lemma_first_match_exists(denied, url, k);
        assert(any_matches(denied, url));
        let i = choose|i: int| is_first_matching(denied, url, i);
        assert(is_first_matching(denied, url, i));
    }
    if forall|j: int| 0 <= j < denied.len() ==> !regex_matches(#[trigger] denied[j], url) {
        assert(!any_matches(denied, url));
    }
}

/// A middleware that filters requests based on URL patterns
#[derive(Debug)]
pub struct UrlFilterMiddleware {
    allowed_patterns: Vec<Pattern>,
    denied_patterns: Vec<Pattern>,
}

impl View for UrlFilterMiddleware {
    type V = (Seq<Seq<char>>, Seq<Seq<char>>);

    closed spec fn view(&self) -> (Seq<Seq<char>>, Seq<Seq<char>>) {
        (pattern_views(self.allowed_patterns@), pattern_views(self.denied_patterns@))
    }
}

impl UrlFilterMiddleware {
    /// Create a new UrlFilterMiddleware with the given patterns
    pub fn new(allowed_patterns: Vec<Pattern>, denied_patterns: Vec<Pattern>) -> (r: Self)
        ensures
            r@ == (pattern_views(allowed_patterns@), pattern_views(denied_patterns@)),
    {
        UrlFilterMiddleware { allowed_patterns, denied_patterns }
    }

    fn compile_all(patterns: &Vec<&str>) -> (r: Result<Vec<Pattern>, Error>)
        ensures
            r is Ok <==> all_compile(patterns@.map_values(|p: &str| p@)),
            r matches Ok(v) ==> pattern_views(v@) == patterns@.map_values(|p: &str| p@),
            r matches Err(e) ==> refusal_error(patterns@.map_values(|p: &str| p@), e),
    {
        let ghost ps = patterns@.map_values(|p: &str| p@);
        let mut out: Vec<Pattern> = Vec::new();
        let mut i: usize = 0;
        while i < patterns.len()
            invariant
                ps == patterns@.map_values(|p: &str| p@),
                i <= patterns@.len(),
                out@.len() == i,
                forall|j: int| 0 <= j < i ==> regex_refusal(#[trigger] ps[j]) is None,
                forall|j: int| 0 <= j < i ==> #[trigger] out@[j]@ == patterns@[j]@,
            decreases patterns@.len() - i,
        {
            assert(ps[i as int] == patterns@[i as int]@);
            match Pattern::new(patterns[i]) {
                Ok(p) => out.push(p),
                Err(e) => {
                    proof {
                        assert(refused_at(ps, i as int));
                    }
                    return Err(e);
                },
            }
            i = i + 1;
        }
        proof {
            assert(pattern_views(out@) =~= patterns@.map_values(|p: &str| p@));
        }
        Ok(out)
    }

    /// Create a new UrlFilterMiddleware from string patterns; the first pattern that does not
    /// compile (allowed ones first) gives a middleware error saying "Invalid regex: " and why.
    pub fn from_strings(allowed_patterns: Vec<&str>, denied_patterns: Vec<&str>) -> (r: Result<Self, Error>)
        ensures
            r is Ok <==> all_compile(allowed_patterns@.map_values(|p: &str| p@))
                && all_compile(denied_patterns@.map_values(|p: &str| p@)),
            r matches Ok(m) ==> m@ == (
                allowed_patterns@.map_values(|p: &str| p@),
                denied_patterns@.map_values(|p: &str| p@),
            ),
            r matches Err(e) ==> if all_compile(allowed_patterns@.map_values(|p: &str| p@)) {
                refusal_error(denied_patterns@.map_values(|p: &str| p@), e)
            } else {
                refusal_error(allowed_patterns@.map_values(|p: &str| p@), e)
            },
    {
        let allowed = match Self::compile_all(&allowed_patterns) {
            Ok(v) => v,
            Err(e) => {
                return Err(e);
            },
        };
        let denied = match Self::compile_all(&denied_patterns) {
            Ok(v) => v,
            Err(e) => {
                return Err(e);
            },
        };
        Ok(Self::new(allowed, denied))
    }

    /// The request where its URL passes the filter; a middleware error saying why where not.
    pub fn process_request(&self, request: Request) -> (r: Result<Request, Error>)
        ensures
            match url_refusal(self@.0, self@.1, request@.url.0) {
                None => r matches Ok(q) && q@ == request@,
                Some(why) => r matches Err(e) && e matches Error::Middleware { message, context }
                    && message@ == why && context@ == fresh_context_view(),
            },
    {
        let url = request.url.as_str();
        let ghost denied = self@.1;
        let ghost allowed = self@.0;
        let mut i: usize = 0;
        while i < self.denied_patterns.len()
            invariant
                i <= self.denied_patterns@.len(),
                denied == pattern_views(self.denied_patterns@),
                url@ == request@.url.0,
                forall|j: int| 0 <= j < i ==> !regex_matches(#[trigger] denied[j], url@),
            decreases self.denied_patterns@.len() - i,
        {
            proof {
                assert(denied[i as int] == self.denied_patterns@[i as int]@);
            }
            if self.denied_patterns[i].is_match(url) {
                let m1 = concat("URL ", url);
                let m2 = concat(m1.as_str(), " matched denied pattern ");
                let m3 = concat(m2.as_str(), self.denied_patterns[i].as_str());
                proof {
                    assert(is_first_matching(denied, url@, i as int));
                    let c = choose|c: int| is_first_matching(denied, url@, c);
                    assert(c == i) by {
                        if c < i {
                            assert(!regex_matches(denied[c], url@));
                        } else if c > i {
                            assert(!regex_matches(denied[i as int], url@));
                        }
                    }
                }
                return Err(Error::middleware(m3));
            }
            i = i + 1;
        }
        proof {
            assert(!any_matches(denied, url@));
        }
        if self.allowed_patterns.len() > 0 {
            let mut allowed_found = false;
            let mut k: usize = 0;
            while k < self.allowed_patterns.len() && !allowed_found
                invariant
                    k <= self.allowed_patterns@.len(),
                    allowed == pattern_views(self.allowed_patterns@),
                    url@ == request@.url.0,
                    allowed_found ==> any_matches(allowed, url@),
                    !allowed_found ==> forall|j: int| 0 <= j < k ==> !regex_matches(#[trigger] allowed[j], url@),
                decreases self.allowed_patterns@.len() - k,
            {
                proof {
                    assert(allowed[k as int] == self.allowed_patterns@[k as int]@);
                }
                if self.allowed_patterns[k].is_match(url) {
                    allowed_found = true;
                }
                k = k + 1;
            }
            if !allowed_found {
                let m1 = concat("URL ", url);
                let m2 = concat(m1.as_str(), " did not match any allowed pattern");
                return Err(Error::middleware(m2));
            }
        }
        Ok(request)
    }

    /// Get the name of this middleware
    pub fn name(&self) -> (r: &'static str)
        ensures
            r@ == "UrlFilterMiddleware"@,
    {
        "UrlFilterMiddleware"
    }
}

/// A middleware that logs responses and passes them on unchanged
#[derive(Debug, Clone, Copy)]
pub struct ResponseLoggerMiddleware {
    pub level: LogLevel,
}

impl ResponseLoggerMiddleware {
    /// Create a new ResponseLoggerMiddleware with the given log level
    pub fn new(level: LogLevel) -> (r: Self)
        ensures
            r.level == level,
    {
        ResponseLoggerMiddleware { level }
    }

    /// Create a new ResponseLoggerMiddleware with INFO level
    pub fn info() -> (r: Self)
        ensures
            r.level == LogLevel::Info,
    {
        Self::new(LogLevel::Info)
    }

    /// Create a new ResponseLoggerMiddleware with DEBUG level
    pub fn debug() -> (r: Self)
        ensures
            r.level == LogLevel::Debug,
    {
        Self::new(LogLevel::Debug)
    }

    /// The response, unchanged (the caller writes the log line at `level`).
    pub fn process_response(&self, response: Response) -> (r: Response)
        ensures
            r@ == response@,
    {
        response
    }

    /// Get the name of this middleware
    pub fn name(&self) -> (r: &'static str)
        ensures
            r@ == "ResponseLoggerMiddleware"@,
    {
        "ResponseLoggerMiddleware"
    }
}

/// How many times a response was retried, by its "retry_count" metadata; zero where it has
/// none that is an unsigned integer.
pub open spec fn response_retry_count(meta: Map<Seq<char>, ResponseMetaView>) -> u64 {
    if meta.contains_key("retry_count"@) {
        match meta["retry_count"@] {
            ResponseMetaView::Value(v) => match meta_as_u64(v) {
                Some(n) => n,
                None => 0,
            },
            ResponseMetaView::Request(_) => 0,
        }
    } else {
        0
    }
}

/// A middleware that marks failed responses for retry
#[derive(Debug)]
pub struct RetryMiddleware {
    retry_status_codes: Vec<u16>,
    max_retries: u32,
    retry_delay_ms: u64,
}

impl View for RetryMiddleware {
    type V = (Seq<u16>, u32, u64);

    closed spec fn view(&self) -> (Seq<u16>, u32, u64) {
        (self.retry_status_codes@, self.max_retries, self.retry_delay_ms)
    }
}

/// Whether a response is to be retried: its status is one to retry and it has been retried
/// fewer times than allowed.
pub open spec fn should_retry_response(codes: Seq<u16>, max_retries: u32, r: ResponseView) -> bool {
    codes.contains(r.status) && response_retry_count(r.meta) < max_retries
}

impl RetryMiddleware {
    /// Create a new RetryMiddleware with the given parameters
    pub fn new(retry_status_codes: Vec<u16>, max_retries: u32, retry_delay_ms: u64) -> (r: Self)
        ensures
            r@ == (retry_status_codes@, max_retries, retry_delay_ms),
    {
        RetryMiddleware { retry_status_codes, max_retries, retry_delay_ms }
    }

    /// Create a new RetryMiddleware with common settings: server errors, timeouts and rate
    /// limits, three retries, a second apart
    pub fn common() -> (r: Self)
        ensures
            r@ == (seq![500u16, 502, 503, 504, 408, 429], 3u32, 1000u64),
    {
        let r = Self::new(vec![500u16, 502, 503, 504, 408, 429], 3, 1000);
        proof {
            assert(r@.0 =~= seq![500u16, 502, 503, 504, 408, 429]);
        }
        r
    }

    /// The delay (milliseconds) to wait after marking a response for retry.
    pub fn retry_delay_ms(&self) -> (r: u64)
        ensures
            r == self@.2,
    {
        self.retry_delay_ms
    }

    /// Whether the response is to be retried.
    pub fn should_retry(&self, response: &Response) -> (r: bool)
        ensures
            r == should_retry_response(self@.0, self@.1, response@),
    {
        let mut found = false;
        let mut i: usize = 0;
        while i < self.retry_status_codes.len() && !found
            invariant
                i <= self.retry_status_codes@.len(),
                found ==> self@.0.contains(response.status),
                !found ==> forall|j: int| 0 <= j < i ==> self@.0[j] != response.status,
            decreases self.retry_status_codes@.len() - i,
        {
            if self.retry_status_codes[i] == response.status {
                found = true;
                proof {
                    assert(self@.0[i as int] == response.status);
                }
            }
            i = i + 1;
        }
        if !found {
            return false;
        }
        let count: u64 = match response.meta.get("retry_count") {
            Some(ResponseMetaValue::Value(v)) => match v.as_u64() {
                Some(n) => n,
                None => 0,
            },
            _ => 0,
        };
        count < self.max_retries as u64
    }

    /// The response, with its request left under "retry_request" in its metadata where it is
    /// to be retried; unchanged otherwise.
    pub fn process_response(&self, response: Response) -> (r: Response)
        ensures
            should_retry_response(self@.0, self@.1, response@) ==> r@ == (ResponseView {
                meta: response@.meta.insert("retry_request"@, ResponseMetaView::Request(response@.request)),
                ..response@
            }),
            !should_retry_response(self@.0, self@.1, response@) ==> r@ == response@,
    {
        if !self.should_retry(&response) {
            return response;
        }
        let mut response = response;
        let request = response.request.duplicate();
        response.meta.insert(String::from_str("retry_request"), ResponseMetaValue::Request(Box::new(request)));
        response
    }

    /// Get the name of this middleware
    pub fn name(&self) -> (r: &'static str)
        ensures
            r@ == "RetryMiddleware"@,
    {
        "RetryMiddleware"
    }
}

/// The milliseconds from `t` to `now`, zero where `now` is earlier.
pub open spec fn elapsed_ms(t: u64, now: u64) -> nat {
    if now >= t {
        (now - t) as nat
    } else {
        0
    }
}

/// The timestamps left once those at least a window old are dropped from the front.
pub open spec fn pruned(q: Seq<u64>, now: u64, window: nat) -> Seq<u64>
    decreases q.len(),
{
    if q.len() > 0 && elapsed_ms(q[0], now) >= window {
        pruned(q.drop_first(), now, window)
    } else {
        q
    }
}

/// What a request at `now` does to the timestamps of a rate limit, and how long (in
/// milliseconds) it waits: with `max` requests already in the window it waits until the
/// oldest leaves it.
pub open spec fn rate_limit_step(q: Seq<u64>, now: u64, window: nat, max: nat) -> (Seq<u64>, Option<nat>) {
    let p = pruned(q, now, window);
    if p.len() >= max && p.len() > 0 {
        let passed = elapsed_ms(p[0], now);
        if passed < window {
            (p.push(now), Some((window - passed) as nat))
        } else {
            (p.drop_first().push(now), None)
        }
    } else {
        (p.push(now), None)
    }
}

/// A request comes through without waiting once every earlier request of the rate limit is at
/// least a window old (for a limit of at least one request).
pub proof fn law_quiet_window_admits(q: Seq<u64>, now: u64, window: nat, max: nat)
    requires
        max >= 1,
        forall|i: int| 0 <= i < q.len() ==> elapsed_ms(#[trigger] q[i], now) >= window,
    ensures
        rate_limit_step(q, now, window, max).1 is None,
        rate_limit_step(q, now, window, max).0 == seq![now],
    decreases q.len(),
{
    if q.len() > 0 {
        let d = q.drop_first();
        assert forall|i: int| 0 <= i < d.len() implies elapsed_ms(#[trigger] d[i], now) >= window by {
            assert(d[i] == q[i + 1]);
        }
        law_quiet_window_admits(d, now, window, max);
        assert(elapsed_ms(q[0], now) >= window);
        assert(pruned(q, now, window) == pruned(d, now, window));
    } else {
        assert(Seq::<u64>::empty().push(now) =~= seq![now]);
    }
}

/// Once the requests a window old are dropped from the front, the oldest one left is younger
/// than the window.
proof fn lemma_pruned_front(q: Seq<u64>, now: u64, window: nat)
    ensures
        pruned(q, now, window).len() > 0 ==> elapsed_ms(pruned(q, now, window)[0], now) < window,
    decreases q.len(),
{
    if q.len() > 0 && elapsed_ms(q[0], now) >= window {
        lemma_pruned_front(q.drop_first(), now, window);
    }
}

/// A request let through without waiting leaves at most `max` requests in the window (for a
/// limit of at least one request).
pub proof fn law_admitted_within_limit(q: Seq<u64>, now: u64, window: nat, max: nat)
    requires
        max >= 1,
    ensures
        rate_limit_step(q, now, window, max).1 is None ==> rate_limit_step(q, now, window, max).0.len() <= max,
{
    lemma_pruned_front(q, now, window);
}

/// The milliseconds from `t` to `now`, zero where `now` is earlier.
pub fn elapsed_between(t: u64, now: u64) -> (r: u64)
    ensures
        r == elapsed_ms(t, now),
{
    if now >= t {
        now - t
    } else {
        0
    }
}

/// A middleware that limits how many requests go out in a time window
#[derive(Debug)]
pub struct RateLimitMiddleware {
    max_requests: usize,
    time_window_secs: u64,
    timestamps: VecDeque<u64>,
    priority: MiddlewarePriority,
}

/// The state of a rate limit: the limit, the window (seconds), the timestamps (milliseconds)
/// of the requests in it, and its priority.
pub struct RateLimitView {
    pub max_requests: usize,
    pub time_window_secs: u64,
    pub timestamps: Seq<u64>,
    pub priority: MiddlewarePriority,
}

impl View for RateLimitMiddleware {
    type V = RateLimitView;

    closed spec fn view(&self) -> RateLimitView {
        RateLimitView {
            max_requests: self.max_requests,
            time_window_secs: self.time_window_secs,
            timestamps: self.timestamps@,
            priority: self.priority,
        }
    }
}

/// The window of a rate limit in milliseconds.
pub open spec fn window_ms(secs: u64) -> nat {
    (secs * 1000) as nat
}

impl RateLimitMiddleware {
    /// Create a new RateLimitMiddleware with the given rate limit, at high priority
    pub fn new(max_requests: usize, time_window_secs: u64) -> (r: Self)
        ensures
            r@ == (RateLimitView {
                max_requests,
                time_window_secs,
                timestamps: Seq::empty(),
                priority: MiddlewarePriority::High,
            }),
    {
        RateLimitMiddleware {
            max_requests,
            time_window_secs,
            timestamps: VecDeque::new(),
            priority: MiddlewarePriority::High,
        }
    }

    /// Set the priority of this middleware
    pub fn with_priority(self, priority: MiddlewarePriority) -> (r: Self)
        ensures
            r@ == (RateLimitView { priority, ..self@ }),
    {
        RateLimitMiddleware { priority, ..self }
    }

    /// Records a request at `now` (milliseconds on a monotonic clock) and gives how long it
    /// must wait first (milliseconds), if at all.
    pub fn acquire(&mut self, now: u64) -> (r: Option<u128>)
        ensures
            ({
                let step = rate_limit_step(
                    old(self)@.timestamps,
                    now,
                    window_ms(old(self)@.time_window_secs),
                    old(self)@.max_requests as nat,
                );
                &&& final(self)@ == (RateLimitView { timestamps: step.0, ..old(self)@ })
                &&& match r {
                    Some(w) => step.1 == Some(w as nat),
                    None => step.1 is None,
                }
            }),
            r matches Some(w) ==> w <= window_ms(old(self)@.time_window_secs),
    {
        let window: u128 = self.time_window_secs as u128 * 1000;
        let ghost q0 = self.timestamps@;
        while self.timestamps.len() > 0 && elapsed_between(self.timestamps[0], now) as u128 >= window
            invariant
                pruned(self.timestamps@, now, window as nat) == pruned(q0, now, window as nat),
                window == window_ms(self.time_window_secs),
                self.time_window_secs == old(self).time_window_secs,
                self.max_requests == old(self).max_requests,
                self.priority == old(self).priority,
            decreases self.timestamps@.len(),
        {
            let ghost before = self.timestamps@;
            let _ = self.timestamps.pop_front();
            proof {
                assert(self.timestamps@ =~= before.drop_first());
            }
        }
        proof {
            assert(pruned(self.timestamps@, now, window as nat) == self.timestamps@);
        }
        let mut wait: Option<u128> = None;
        if self.timestamps.len() >= self.max_requests && self.timestamps.len() > 0 {
            let oldest = self.timestamps[0];
            let passed: u64 = if now >= oldest {
                now - oldest
            } else {
                0
            };
            if (passed as u128) < window {
                wait = Some(window - passed as u128);
            } else {
                let ghost before = self.timestamps@;
                let _ = self.timestamps.pop_front();
                proof {
                    assert(self.timestamps@ =~= before.drop_first());
                }
            }
        }
        self.timestamps.push_back(now);
        wait
    }

    /// Get the priority of this middleware
    pub fn priority(&self) -> (r: MiddlewarePriority)
        ensures
            r == self@.priority,
    {
        self.priority
    }

    /// Get the name of this middleware
    pub fn name(&self) -> (r: &'static str)
        ensures
            r@ == "RateLimitMiddleware"@,
    {
        "RateLimitMiddleware"
    }
}

} // verus!
