use vstd::prelude::*;
use crate::error::Error;
use crate::item::{DynamicItem, ItemView};
use crate::request::{MetaValue, MetaView, Request, RequestView};
use crate::response::{Response, ResponseView};
use crate::strmap::Duplicate;

verus! {

/// Signals sent by the engine
#[derive(Debug, Clone, Copy, PartialEq, Eq, Structural, Hash)]
pub enum Signal {
    /// Sent when engine starts
    EngineStarted,
    /// Sent when engine stops
    EngineStopped,
    /// Sent when engine pauses
    EnginePaused,
    /// Sent when engine resumes
    EngineResumed,
    /// Sent when spider opens
    SpiderOpened,
    /// Sent when spider closes
    SpiderClosed,
    /// Sent before request is scheduled
    RequestScheduled,
    /// Sent after request is sent
    RequestSent,
    /// Sent after response is received
    ResponseReceived,
    /// Sent after item is scraped
    ItemScraped,
    /// Sent when error occurs
    ErrorOccurred,
}

/// The number of kinds of signal.
pub const SIGNAL_KINDS: usize = 11;

/// The position of a signal among the kinds.
pub open spec fn signal_index(s: Signal) -> int {
    match s {
        Signal::EngineStarted => 0,
        Signal::EngineStopped => 1,
        Signal::EnginePaused => 2,
        Signal::EngineResumed => 3,
        Signal::SpiderOpened => 4,
        Signal::SpiderClosed => 5,
        Signal::RequestScheduled => 6,
        Signal::RequestSent => 7,
        Signal::ResponseReceived => 8,
        Signal::ItemScraped => 9,
        Signal::ErrorOccurred => 10,
    }
}

/// The name a signal is written as.
pub open spec fn signal_name(s: Signal) -> Seq<char> {
    match s {
        Signal::EngineStarted => "engine_started"@,
        Signal::EngineStopped => "engine_stopped"@,
        Signal::EnginePaused => "engine_paused"@,
        Signal::EngineResumed => "engine_resumed"@,
        Signal::SpiderOpened => "spider_opened"@,
        Signal::SpiderClosed => "spider_closed"@,
        Signal::RequestScheduled => "request_scheduled"@,
        Signal::RequestSent => "request_sent"@,
        Signal::ResponseReceived => "response_received"@,
        Signal::ItemScraped => "item_scraped"@,
        Signal::ErrorOccurred => "error_occurred"@,
    }
}

impl Signal {
    /// The position of the signal among the kinds.
    pub fn index(&self) -> (r: usize)
        ensures
            r == signal_index(*self),
            r < SIGNAL_KINDS,
    {
        match self {
            Signal::EngineStarted => 0,
            Signal::EngineStopped => 1,
            Signal::EnginePaused => 2,
            Signal::EngineResumed => 3,
            Signal::SpiderOpened => 4,
            Signal::SpiderClosed => 5,
            Signal::RequestScheduled => 6,
            Signal::RequestSent => 7,
            Signal::ResponseReceived => 8,
            Signal::ItemScraped => 9,
            Signal::ErrorOccurred => 10,
        }
    }

    /// The name the signal is written as (its display form).
    pub fn as_str(&self) -> (r: &'static str)
        ensures
            r@ == signal_name(*self),
    {
        match self {
            Signal::EngineStarted => "engine_started",
            Signal::EngineStopped => "engine_stopped",
            Signal::EnginePaused => "engine_paused",
            Signal::EngineResumed => "engine_resumed",
            Signal::SpiderOpened => "spider_opened",
            Signal::SpiderClosed => "spider_closed",
            Signal::RequestScheduled => "request_scheduled",
            Signal::RequestSent => "request_sent",
            Signal::ResponseReceived => "response_received",
            Signal::ItemScraped => "item_scraped",
            Signal::ErrorOccurred => "error_occurred",
        }
    }
}

/// Signal arguments; a spider is given by its name.
#[derive(Debug)]
pub enum SignalArgs {
    /// No arguments
    Nothing,
    /// Spider related: the spider's name
    Spider(String),
    /// Request related
    Request(Request),
    /// Response related
    Response(Response),
    /// Item related
    Item(DynamicItem),
    /// Error related
    Error(String),
    /// Custom arguments
    Custom(MetaValue),
}

/// Signal arguments, by view.
pub enum SignalArgsView {
    Nothing,
    Spider(Seq<char>),
    Request(RequestView),
    Response(ResponseView),
    Item(ItemView),
    Error(Seq<char>),
    Custom(MetaView),
}

impl View for SignalArgs {
    type V = SignalArgsView;

    open spec fn view(&self) -> SignalArgsView {
        match self {
            SignalArgs::Nothing => SignalArgsView::Nothing,
            SignalArgs::Spider(s) => SignalArgsView::Spider(s@),
            SignalArgs::Request(r) => SignalArgsView::Request(r@),
            SignalArgs::Response(r) => SignalArgsView::Response(r@),
            SignalArgs::Item(i) => SignalArgsView::Item(i@),
            SignalArgs::Error(e) => SignalArgsView::Error(e@),
            SignalArgs::Custom(v) => SignalArgsView::Custom(v@),
        }
    }
}

impl SignalArgs {
    /// A copy with the same view.
    pub fn duplicate(&self) -> (r: Self)
        ensures
            r@ == self@,
    {
        match self {
            SignalArgs::Nothing => SignalArgs::Nothing,
            SignalArgs::Spider(s) => SignalArgs::Spider(s.clone()),
            SignalArgs::Request(r) => SignalArgs::Request(r.duplicate()),
            SignalArgs::Response(r) => SignalArgs::Response(r.duplicate()),
            SignalArgs::Item(i) => SignalArgs::Item(i.duplicate()),
            SignalArgs::Error(e) => SignalArgs::Error(e.clone()),
            SignalArgs::Custom(v) => SignalArgs::Custom(v.duplicate()),
        }
    }
}

impl Clone for SignalArgs {
    fn clone(&self) -> (r: Self)
        ensures
            r@ == self@,
    {
        self.duplicate()
    }
}

/// A handler called with arguments of view `v` may return `out`.
pub open spec fn handler_may_return<H: Fn(SignalArgs) -> Result<(), Error>>(
    h: H,
    v: SignalArgsView,
    out: Result<(), Error>,
) -> bool {
    exists|a: SignalArgs| a@ == v && #[trigger] call_ensures(h, (a,), out)
}

/// A handler called with arguments of view `v` may succeed.
pub open spec fn handler_may_succeed<H: Fn(SignalArgs) -> Result<(), Error>>(h: H, v: SignalArgsView) -> bool {
    exists|a: SignalArgs, out: Result<(), Error>| a@ == v && out is Ok && #[trigger] call_ensures(h, (a,), out)
}

/// A registry of handlers for each signal, called in the order they were connected.
#[verifier::reject_recursive_types(H)]
pub struct SignalManager<H> {
    handlers: Vec<Vec<H>>,
}

impl<H> SignalManager<H> {
    #[verifier::type_invariant]
    closed spec fn inv(&self) -> bool {
        self.handlers@.len() == SIGNAL_KINDS
    }

    /// The handlers connected to a signal, in the order they were connected.
    pub closed spec fn handlers(&self, s: Signal) -> Seq<H> {
        self.handlers@[signal_index(s)]@
    }

    /// A table with no handler for any signal.
    fn empty_table() -> (r: Vec<Vec<H>>)
        ensures
            r@.len() == SIGNAL_KINDS,
            forall|j: int| 0 <= j < SIGNAL_KINDS ==> #[trigger] r@[j]@ == Seq::<H>::empty(),
    {
        let mut handlers: Vec<Vec<H>> = Vec::new();
        let mut i: usize = 0;
        while i < SIGNAL_KINDS
            invariant
                i <= SIGNAL_KINDS,
                handlers@.len() == i,
                forall|j: int| 0 <= j < i ==> #[trigger] handlers@[j]@ == Seq::<H>::empty(),
            decreases SIGNAL_KINDS - i,
        {
            handlers.push(Vec::new());
            i = i + 1;
        }
        handlers
    }

    /// Create a new signal manager with no handlers
    pub fn new() -> (r: Self)
        ensures
            forall|s: Signal| #[trigger] r.handlers(s) == Seq::<H>::empty(),
    {
        SignalManager { handlers: Self::empty_table() }
    }

    /// Connect a handler to a signal, after those already connected
    pub fn connect(&mut self, signal: Signal, handler: H) -> (r: Result<(), Error>)
        ensures
            r is Ok,
            final(self).handlers(signal) == old(self).handlers(signal).push(handler),
            forall|s: Signal| s != signal ==> #[trigger] final(self).handlers(s) == old(self).handlers(s),
    {
        proof {
            use_type_invariant(&*self);
        }
        let i = signal.index();
        let mut all: Vec<Vec<H>> = Self::empty_table();
        std::mem::swap(&mut all, &mut self.handlers);
        let mut v: Vec<H> = Vec::new();
        std::mem::swap(&mut v, &mut all[i]);
        v.push(handler);
        all.set(i, v);
        self.handlers = all;
        proof {
            assert forall|s: Signal| s != signal implies #[trigger] self.handlers(s) == old(self).handlers(s) by {
                assert(signal_index(s) != signal_index(signal));
            }
        }
        Ok(())
    }

    /// The handlers a signal is sent to, in order
    pub fn handlers_for(&self, signal: Signal) -> (r: &Vec<H>)
        ensures
            r@ == self.handlers(signal),
    {
        proof {
            use_type_invariant(self);
        }
        &self.handlers[signal.index()]
    }

    /// Disconnect all signal handlers
    pub fn disconnect_all(&mut self) -> (r: Result<(), Error>)
        ensures
            r is Ok,
            forall|s: Signal| #[trigger] final(self).handlers(s) == Seq::<H>::empty(),
    {
        *self = Self::new();
        Ok(())
    }

    /// Disconnect all handlers for a specific signal
    pub fn disconnect(&mut self, signal: Signal) -> (r: Result<(), Error>)
        ensures
            r is Ok,
            final(self).handlers(signal) == Seq::<H>::empty(),
            forall|s: Signal| s != signal ==> #[trigger] final(self).handlers(s) == old(self).handlers(s),
    {
        proof {
            use_type_invariant(&*self);
        }
        let i = signal.index();
        let mut all: Vec<Vec<H>> = Self::empty_table();
        std::mem::swap(&mut all, &mut self.handlers);
        all.set(i, Vec::new());
        self.handlers = all;
        proof {
            assert forall|s: Signal| s != signal implies #[trigger] self.handlers(s) == old(self).handlers(s) by {
                assert(signal_index(s) != signal_index(signal));
            }
        }
        Ok(())
    }
}

impl<H: Fn(SignalArgs) -> Result<(), Error>> SignalManager<H> {
    /// Send a signal to its handlers in the order they were connected, each with a copy of
    /// the arguments; the first handler that fails stops the sending and its error is returned.
    pub fn send(&self, signal: Signal, args: SignalArgs) -> (r: Result<(), Error>)
        requires
            forall|i: int, a: SignalArgs|
                0 <= i < self.handlers(signal).len() ==> #[trigger] call_requires(self.handlers(signal)[i], (a,)),
        ensures
            match r {
                Ok(()) => forall|i: int|
                    0 <= i < self.handlers(signal).len() ==> handler_may_succeed(
                        #[trigger] self.handlers(signal)[i],
                        args@,
                    ),
                Err(_) => exists|k: int|
                    0 <= k < self.handlers(signal).len() && handler_may_return(
                        #[trigger] self.handlers(signal)[k],
                        args@,
                        r,
                    ) && forall|i: int|
                        0 <= i < k ==> handler_may_succeed(#[trigger] self.handlers(signal)[i], args@),
            },
    {
        let handlers = self.handlers_for(signal);
        let n = handlers.len();
        let mut i: usize = 0;
        while i < n
            invariant
                n == handlers@.len(),
                handlers@ == self.handlers(signal),
                i <= n,
                forall|j: int, a: SignalArgs| 0 <= j < n ==> #[trigger] call_requires(handlers@[j], (a,)),
                forall|j: int| 0 <= j < i ==> handler_may_succeed(#[trigger] handlers@[j], args@),
            decreases n - i,
        {
            let a = args.duplicate();
            let ghost ga = a;
            let out = (handlers[i])(a);
            match out {
                Ok(()) => {
                    assert(call_ensures(handlers@[i as int], (ga,), out));
                },
                Err(e) => {
                    return Err(e);
                },
            }
            i = i + 1;
        }
        Ok(())
    }
}

impl<H> Default for SignalManager<H> {
    fn default() -> (r: Self)
        ensures
            forall|s: Signal| #[trigger] r.handlers(s) == Seq::<H>::empty(),
    {
        Self::new()
    }
}

} // verus!
