use vstd::prelude::*;
use std::collections::VecDeque;
use crate::request::{method_name_spec, Request, RequestView};
use crate::strmap::StrMap;
use crate::text::str_eq;

verus! {

/// The size (in bytes) charged for a request while it is in flight, and the least size
/// charged for its response.
pub const MIN_RESPONSE_SIZE: usize = 1024;

/// The identifier of a request: its URL, a hyphen and its method's name.
pub open spec fn request_id_spec(r: RequestView) -> Seq<char> {
    r.url.0 + seq!['-'] + method_name_spec(r.method)
}

/// Create a unique identifier for a request based on its URL and method
pub fn create_request_id(request: &Request) -> (r: String)
    ensures
        r@ == request_id_spec(request@),
{
    proof {
        reveal_strlit("-");
    }
    let mut s = request.url.as_str().to_owned();
    s.append("-");
    s.append(request.method.as_str());
    s
}

/// The abstract state of a slot; the queue holds each request by view beside the token that
/// was queued with it.
pub struct SlotView<T> {
    pub name: Seq<char>,
    pub max_active_size: usize,
    pub queue: Seq<(RequestView, T)>,
    pub active: Map<Seq<char>, RequestView>,
    pub active_size: nat,
    pub last_request_time: Option<u64>,
    pub delay: u64,
    pub is_closing: bool,
    pub has_scheduler: bool,
}

/// Whether a queued request is for the same URL with the same method as the one named.
pub open spec fn targets(r: RequestView, wanted: RequestView) -> bool {
    r.url.0 == wanted.url.0 && r.method == wanted.method
}

/// `i` is the first position of the queue whose request targets `wanted`.
pub open spec fn is_first_match<T>(q: Seq<(RequestView, T)>, wanted: RequestView, i: int) -> bool {
    &&& 0 <= i < q.len()
    &&& targets(q[i].0, wanted)
    &&& forall|j: int| 0 <= j < i ==> !targets(#[trigger] q[j].0, wanted)
}

/// The position that the next request is taken from: with a scheduler that named a request,
/// the first queued request for the same target; in every other case the front.
pub open spec fn taken_index<T>(
    q: Seq<(RequestView, T)>,
    preferred: Option<RequestView>,
    has_scheduler: bool,
) -> int {
    match preferred {
        Some(p) => if has_scheduler && exists|i: int| is_first_match(q, p, i) {
            choose|i: int| is_first_match(q, p, i)
        } else {
            0
        },
        None => 0,
    }
}

/// The slot after the request at position `i` was taken at time `now`: it leaves the queue,
/// becomes active under its identifier and is charged the least response size.
pub open spec fn after_take<T>(v: SlotView<T>, i: int, now: u64) -> SlotView<T> {
    SlotView {
        queue: v.queue.remove(i),
        active: v.active.insert(request_id_spec(v.queue[i].0), v.queue[i].0),
        active_size: v.active_size + MIN_RESPONSE_SIZE as nat,
        last_request_time: Some(now),
        ..v
    }
}

/// The size charged for a finished response: its size where known, never less than the least.
pub open spec fn charged_size(response_size: Option<usize>) -> nat {
    let s = match response_size {
        Some(n) => n as nat,
        None => MIN_RESPONSE_SIZE as nat,
    };
    if s < MIN_RESPONSE_SIZE {
        MIN_RESPONSE_SIZE as nat
    } else {
        s
    }
}

/// The slot after the request with identifier `id` finished: the in-flight charge is taken
/// back (never below zero), the response is charged and the request is no longer active.
pub open spec fn after_finish<T>(
    v: SlotView<T>,
    id: Seq<char>,
    response_size: Option<usize>,
) -> SlotView<T> {
    let base: nat = if v.active_size >= MIN_RESPONSE_SIZE {
        (v.active_size - MIN_RESPONSE_SIZE) as nat
    } else {
        0
    };
    SlotView { active_size: base + charged_size(response_size), active: v.active.remove(id), ..v }
}

/// How long (in milliseconds) to wait at time `now` before the next request may be taken.
pub open spec fn wait_spec(last: Option<u64>, delay: u64, now: u64) -> nat {
    match last {
        Some(t) => {
            let elapsed: nat = if now >= t {
                (now - t) as nat
            } else {
                0
            };
            if elapsed < delay {
                (delay - elapsed) as nat
            } else {
                0
            }
        },
        None => 0,
    }
}

/// Downloader slot (one per domain): a queue of requests, each with a token handed back when
/// it is taken, the requests in flight and the bytes charged for them.
#[verifier::reject_recursive_types(T)]
pub struct Slot<T> {
    name: String,
    max_active_size: usize,
    queue: VecDeque<(Request, T)>,
    active: StrMap<Request>,
    active_size: usize,
    last_request_time: Option<u64>,
    delay: u64,
    is_closing: bool,
    has_scheduler: bool,
}

impl<T> View for Slot<T> {
    type V = SlotView<T>;

    closed spec fn view(&self) -> SlotView<T> {
        SlotView {
            name: self.name@,
            max_active_size: self.max_active_size,
            queue: self.queue@.map_values(|e: (Request, T)| (e.0@, e.1)),
            active: self.active@,
            active_size: self.active_size as nat,
            last_request_time: self.last_request_time,
            delay: self.delay,
            is_closing: self.is_closing,
            has_scheduler: self.has_scheduler,
        }
    }
}

/// A fresh slot: nothing queued or active, nothing charged, never used, open.
pub open spec fn fresh_slot<T>(
    name: Seq<char>,
    max_active_size: usize,
    delay: u64,
    has_scheduler: bool,
) -> SlotView<T> {
    SlotView {
        name,
        max_active_size,
        queue: Seq::empty(),
        active: Map::empty(),
        active_size: 0,
        last_request_time: None,
        delay,
        is_closing: false,
        has_scheduler,
    }
}

impl<T> Slot<T> {
    /// Create a new slot
    pub fn new(name: String, max_active_size: usize, delay: u64) -> (r: Self)
        ensures
            r@ == fresh_slot::<T>(name@, max_active_size, delay, false),
    {
        let r = Slot {
            name,
            max_active_size,
            queue: VecDeque::new(),
            active: StrMap::new(),
            active_size: 0,
            last_request_time: None,
            delay,
            is_closing: false,
            has_scheduler: false,
        };
        proof {
            assert(r@.queue =~= Seq::<(RequestView, T)>::empty());
        }
        r
    }

    /// Create a new slot whose requests are taken in the order a scheduler names them.
    pub fn with_scheduler(name: String, max_active_size: usize, delay: u64) -> (r: Self)
        ensures
            r@ == fresh_slot::<T>(name@, max_active_size, delay, true),
    {
        let r = Slot {
            name,
            max_active_size,
            queue: VecDeque::new(),
            active: StrMap::new(),
            active_size: 0,
            last_request_time: None,
            delay,
            is_closing: false,
            has_scheduler: true,
        };
        proof {
            assert(r@.queue =~= Seq::<(RequestView, T)>::empty());
        }
        r
    }

    /// Get the name of the slot
    pub fn name(&self) -> (r: &str)
        ensures
            r@ == self@.name,
    {
        self.name.as_str()
    }

    /// Whether the slot consults a scheduler when taking a request.
    pub fn has_scheduler(&self) -> (r: bool)
        ensures
            r == self@.has_scheduler,
    {
        self.has_scheduler
    }

    /// Add a request to the queue, with the token to hand back when it is taken.
    pub fn add_request(&mut self, request: Request, token: T)
        ensures
            final(self)@ == (SlotView { queue: old(self)@.queue.push((request@, token)), ..old(self)@ }),
    {
        let ghost q0 = self@.queue;
        self.queue.push_back((request, token));
        proof {
            assert(self@.queue =~= q0.push((request@, token)));
        }
    }

    /// How long (in milliseconds) to wait at time `now` (in milliseconds) before the next
    /// request may be taken: what is left of the delay since the last one.
    pub fn wait_before_next(&self, now: u64) -> (r: u64)
        ensures
            r == wait_spec(self@.last_request_time, self@.delay, now),
    {
        match self.last_request_time {
            Some(t) => {
                let elapsed = if now >= t {
                    now - t
                } else {
                    0
                };
                if elapsed < self.delay {
                    self.delay - elapsed
                } else {
                    0
                }
            },
            None => 0,
        }
    }

    /// Get the next request from the queue at time `now`. `preferred` is what the scheduler
    /// named, where the slot has one; it is not consulted otherwise.
    pub fn next_request(&mut self, now: u64, preferred: Option<&Request>) -> (r: Option<(Request, T)>)
        requires
            old(self)@.active_size + MIN_RESPONSE_SIZE <= usize::MAX,
        ensures
            old(self)@.is_closing || old(self)@.queue.len() == 0 ==> r is None && final(self)@
                == old(self)@,
            !old(self)@.is_closing && old(self)@.queue.len() > 0 ==> {
                let i = taken_index(
                    old(self)@.queue,
                    match preferred {
                        Some(p) => Some(p@),
                        None => None,
                    },
                    old(self)@.has_scheduler,
                );
                &&& 0 <= i < old(self)@.queue.len()
                &&& r matches Some((req, tok)) && (req@, tok) == old(self)@.queue[i]
                &&& final(self)@ == after_take(old(self)@, i, now)
            },
    {
        if self.is_closing || self.queue.len() == 0 {
            return None;
        }
        let ghost old_view = self@;
        let ghost pv: Option<RequestView> = match preferred {
            Some(p) => Some(p@),
            None => None,
        };
        let mut idx: usize = 0;
        if self.has_scheduler {
            if let Some(p) = preferred {
                let mut j: usize = 0;
                let mut found = false;
                while j < self.queue.len() && !found
                    invariant
                        j <= self.queue@.len(),
                        self@ == old_view,
                        pv == Some(p@),
                        found ==> is_first_match(old_view.queue, p@, idx as int),
                        !found ==> idx == 0,
                        !found ==> forall|k: int| 0 <= k < j ==> !targets(#[trigger] old_view.queue[k].0, p@),
                    decreases self.queue@.len() - j,
                {
                    proof {
                        assert(old_view.queue[j as int] == (self.queue@[j as int].0@, self.queue@[j as int].1));
                    }
                    if self.queue[j].0.same_target(p) {
                        idx = j;
                        found = true;
                    }
                    j = j + 1;
                }
                proof {
                    if found {
                        let c = choose|i: int| is_first_match(old_view.queue, p@, i);
                        assert(c == idx) by {
                            if c < idx {
                                assert(!targets(old_view.queue[c].0, p@));
                            } else if c > idx {
                                assert(!targets(old_view.queue[idx as int].0, p@));
                            }
                        }
                    } else {
                        assert forall|i: int| !is_first_match(old_view.queue, p@, i) by {
                            if 0 <= i < old_view.queue.len() {
                                assert(!targets(old_view.queue[i].0, p@));
                            }
                        }
                    }
                }
            }
        }
        assert(idx == taken_index(old_view.queue, pv, old_view.has_scheduler));
        let ghost q0 = self.queue@;
        let taken = self.queue.remove(idx);
        let (request, token) = match taken {
            Some(e) => e,
            None => {
                proof {
                    assert(false);
                }
                return None;
            },
        };
        proof {
            assert(self.queue@.map_values(|e: (Request, T)| (e.0@, e.1)) =~= old_view.queue.remove(idx as int));
        }
        self.last_request_time = Some(now);
        let id = create_request_id(&request);
        self.active.insert(id, request.duplicate());
        self.active_size = self.active_size + MIN_RESPONSE_SIZE;
        proof {
            assert(self@ == after_take(old_view, idx as int, now));
        }
        Some((request, token))
    }

    /// Finish processing a request: take back its in-flight charge, charge its response
    /// (`None` where the size is unknown) and drop it from the active requests.
    pub fn finish_request(&mut self, request_id: &str, response_size: Option<usize>)
        requires
            (if old(self)@.active_size >= MIN_RESPONSE_SIZE {
                old(self)@.active_size - MIN_RESPONSE_SIZE
            } else {
                0
            }) + charged_size(response_size) <= usize::MAX,
        ensures
            final(self)@ == after_finish(old(self)@, request_id@, response_size),
    {
        let final_size = match response_size {
            Some(n) => n,
            None => MIN_RESPONSE_SIZE,
        };
        let effective_size = if final_size < MIN_RESPONSE_SIZE {
            MIN_RESPONSE_SIZE
        } else {
            final_size
        };
        self.active_size = self.active_size.saturating_sub(MIN_RESPONSE_SIZE);
        self.active_size = self.active_size + effective_size;
        let _ = self.active.remove(request_id);
    }

    /// Check if the slot is idle: nothing queued and nothing in flight.
    pub fn is_idle(&self) -> (r: bool)
        ensures
            r == (self@.queue.len() == 0 && self@.active.len() == 0),
    {
        self.queue.len() == 0 && self.active.is_empty()
    }

    /// Check if the slot needs to throttle: more is charged than it may hold.
    pub fn needs_throttle(&self) -> (r: bool)
        ensures
            r == (self@.active_size > self@.max_active_size),
    {
        self.active_size > self.max_active_size
    }

    /// Start closing the slot: it hands out no more requests.
    pub fn close(&mut self)
        ensures
            final(self)@ == (SlotView { is_closing: true, ..old(self)@ }),
    {
        self.is_closing = true;
    }

    /// Whether the slot is closing.
    pub fn is_closing(&self) -> (r: bool)
        ensures
            r == self@.is_closing,
    {
        self.is_closing
    }

    /// Whether the slot is closing and idle, that is closed.
    pub fn is_closed(&self) -> (r: bool)
        ensures
            r == (self@.is_closing && self@.queue.len() == 0 && self@.active.len() == 0),
    {
        self.is_closing && self.is_idle()
    }

    /// Get the queue length
    pub fn queue_length(&self) -> (r: usize)
        ensures
            r == self@.queue.len(),
    {
        self.queue.len()
    }

    /// Get the number of active requests
    pub fn active_count(&self) -> (r: usize)
        ensures
            r == self@.active.len(),
    {
        self.active.len()
    }

    /// Get the current active size
    pub fn active_size(&self) -> (r: usize)
        ensures
            r == self@.active_size,
    {
        self.active_size
    }
}

/// Taking the request at position `i` and then finishing it leaves the slot's active requests
/// as they were, adds exactly the charge of its response to the active size, and leaves the
/// queue without that request.
pub proof fn law_take_then_finish<T>(v: SlotView<T>, i: int, now: u64, response_size: Option<usize>)
    requires
        0 <= i < v.queue.len(),
        !v.active.contains_key(request_id_spec(v.queue[i].0)),
    ensures
        ({
            let w = after_finish(
                after_take(v, i, now),
                request_id_spec(v.queue[i].0),
                response_size,
            );
            &&& w.active == v.active
            &&& w.active_size == v.active_size + charged_size(response_size)
            &&& w.queue == v.queue.remove(i)
        }),
{
    let id = request_id_spec(v.queue[i].0);
    assert(v.active.insert(id, v.queue[i].0).remove(id) =~= v.active);
}

/// A slot without a scheduler is first in, first out: whatever is named, the next request is
/// taken from the front of its queue.
pub proof fn law_slot_fifo<T>(q: Seq<(RequestView, T)>, preferred: Option<RequestView>)
    ensures
        taken_index(q, preferred, false) == 0,
{
}

/// Requests leave a slot no closer together than its delay: once a request was taken at
/// `now`, the wait before the next is over at a later time `t` only if `t` is at least `delay`
/// milliseconds after `now`.
pub proof fn law_slot_spacing<T>(v: SlotView<T>, i: int, now: u64, t: u64)
    requires
        0 <= i < v.queue.len(),
        t >= now,
        wait_spec(after_take(v, i, now).last_request_time, after_take(v, i, now).delay, t) == 0,
    ensures
        t >= now + v.delay,
{
}

/// The abstract state of a slot manager: its slots in the order they were made, and what new
/// slots are made with.
pub struct SlotManagerView<T> {
    pub slots: Seq<SlotView<T>>,
    pub default_max_active_size: usize,
    pub default_delay: u64,
    pub with_schedulers: bool,
}

/// The position of the first slot with the given name, if any.
pub open spec fn slot_position<T>(slots: Seq<SlotView<T>>, name: Seq<char>) -> Option<int> {
    if exists|i: int| 0 <= i < slots.len() && slots[i].name == name
        && forall|j: int| 0 <= j < i ==> #[trigger] slots[j].name != name {
        Some(choose|i: int| 0 <= i < slots.len() && slots[i].name == name
            && forall|j: int| 0 <= j < i ==> #[trigger] slots[j].name != name)
    } else {
        None
    }
}

/// The views of a sequence of slots.
pub open spec fn slot_views<T>(v: Seq<Slot<T>>) -> Seq<SlotView<T>> {
    v.map_values(|s: Slot<T>| s@)
}

proof fn lemma_slot_views_update<T>(v: Seq<Slot<T>>, i: int)
    requires
        0 <= i < v.len(),
    ensures
        forall|x: Slot<T>| #[trigger] slot_views(v.update(i, x)) == slot_views(v).update(i, x@),
{
    assert forall|x: Slot<T>| #[trigger] slot_views(v.update(i, x)) == slot_views(v).update(i, x@) by {
        assert(slot_views(v.update(i, x)) =~= slot_views(v).update(i, x@));
    }
}

/// Slot manager for handling multiple slots, one per domain.
#[verifier::reject_recursive_types(T)]
pub struct SlotManager<T> {
    slots: Vec<Slot<T>>,
    default_max_active_size: usize,
    default_delay: u64,
    with_schedulers: bool,
}

impl<T> View for SlotManager<T> {
    type V = SlotManagerView<T>;

    closed spec fn view(&self) -> SlotManagerView<T> {
        SlotManagerView {
            slots: slot_views(self.slots@),
            default_max_active_size: self.default_max_active_size,
            default_delay: self.default_delay,
            with_schedulers: self.with_schedulers,
        }
    }
}

impl<T> SlotManager<T> {
    /// Create a new slot manager
    pub fn new(default_max_active_size: usize, default_delay: u64) -> (r: Self)
        ensures
            r@ == (SlotManagerView::<T> {
                slots: Seq::empty(),
                default_max_active_size,
                default_delay,
                with_schedulers: false,
            }),
    {
        let r = SlotManager { slots: Vec::new(), default_max_active_size, default_delay, with_schedulers: false };
        proof {
            assert(r@.slots =~= Seq::<SlotView<T>>::empty());
        }
        r
    }

    /// Make the slots created from now on take their requests in the order a scheduler names
    /// them (the schedulers themselves are made and kept by the caller).
    pub fn with_scheduler_factory(self) -> (r: Self)
        ensures
            r@ == (SlotManagerView { with_schedulers: true, ..self@ }),
    {
        SlotManager { with_schedulers: true, ..self }
    }

    fn position(&self, name: &str) -> (r: Option<usize>)
        ensures
            match r {
                Some(i) => slot_position(self@.slots, name@) == Some(i as int),
                None => slot_position(self@.slots, name@) is None,
            },
    {
        let ghost sv = self@.slots;
        let mut i: usize = 0;
        while i < self.slots.len()
            invariant
                i <= self.slots@.len(),
                sv == self@.slots,
                forall|j: int| 0 <= j < i ==> #[trigger] sv[j].name != name@,
            decreases self.slots@.len() - i,
        {
            proof {
                assert(sv[i as int] == self.slots@[i as int]@);
            }
            if str_eq(self.slots[i].name(), name) {
                proof {
                    let c = choose|c: int| 0 <= c < sv.len() && sv[c].name == name@
                        && forall|j: int| 0 <= j < c ==> #[trigger] sv[j].name != name@;
                    assert(c == i) by {
                        if c < i {
                            assert(sv[c].name != name@);
                        } else if c > i {
                            assert(sv[i as int].name != name@);
                        }
                    }
                }
                return Some(i);
            }
            i = i + 1;
        }
        proof {
            assert forall|c: int| !(0 <= c < sv.len() && sv[c].name == name@
                && forall|j: int| 0 <= j < c ==> #[trigger] sv[j].name != name@) by {
                if 0 <= c < sv.len() {
                    assert(sv[c].name != name@);
                }
            }
        }
        None
    }

    /// Get or create the slot for a domain; a new one gets the defaults and, where the
    /// manager has a scheduler factory, takes its requests in a scheduler's order.
    pub fn get_slot(&mut self, domain: &str) -> (r: &mut Slot<T>)
        ensures
            slot_position(old(self)@.slots, domain@) matches Some(i) ==> (*r)@ == old(self)@.slots[i],
            slot_position(old(self)@.slots, domain@) matches Some(i) ==> final(self)@ == (SlotManagerView {
                slots: old(self)@.slots.update(i, final(r)@),
                ..old(self)@
            }),
            slot_position(old(self)@.slots, domain@) is None ==> (*r)@ == fresh_slot::<T>(
                domain@,
                old(self)@.default_max_active_size,
                old(self)@.default_delay,
                old(self)@.with_schedulers,
            ),
            slot_position(old(self)@.slots, domain@) is None ==> final(self)@ == (SlotManagerView {
                slots: old(self)@.slots.push(final(r)@),
                ..old(self)@
            }),
    {
        let i = match self.position(domain) {
            Some(i) => i,
            None => {
                let slot = if self.with_schedulers {
                    Slot::with_scheduler(domain.to_owned(), self.default_max_active_size, self.default_delay)
                } else {
                    Slot::new(domain.to_owned(), self.default_max_active_size, self.default_delay)
                };
                let ghost before = self.slots@;
                self.slots.push(slot);
                proof {
                    assert(slot_views(self.slots@) =~= slot_views(before).push(self.slots@[before.len() as int]@));
                }
                self.slots.len() - 1
            },
        };
        let ghost v0 = self.slots@;
        proof {
            lemma_slot_views_update(v0, i as int);
            assert(self@.slots[i as int] == v0[i as int]@);
            if slot_position(old(self)@.slots, domain@) is None {
                assert(v0.len() == old(self)@.slots.len() + 1);
                assert(slot_views(v0) =~= old(self)@.slots.push(v0[i as int]@));
            } else {
                assert(slot_views(v0) == old(self)@.slots);
            }
        }
        let r = &mut self.slots[i];
        proof {
            assert(slot_views(v0.update(i as int, *final(r))) == slot_views(v0).update(i as int, final(r)@));
            if slot_position(old(self)@.slots, domain@) is None {
                assert(old(self)@.slots.push(v0[i as int]@).update(i as int, final(r)@) =~= old(self)@.slots.push(final(r)@));
            }
        }
        r
    }

    /// Get all slot names, in the order the slots were made.
    pub fn get_slot_names(&self) -> (r: Vec<String>)
        ensures
            r@.len() == self@.slots.len(),
            forall|i: int| 0 <= i < r@.len() ==> #[trigger] r@[i]@ == self@.slots[i].name,
    {
        let mut out: Vec<String> = Vec::new();
        let mut i: usize = 0;
        while i < self.slots.len()
            invariant
                i <= self.slots@.len(),
                out@.len() == i,
                forall|j: int| 0 <= j < i ==> #[trigger] out@[j]@ == self@.slots[j].name,
            decreases self.slots@.len() - i,
        {
            out.push(self.slots[i].name().to_owned());
            i = i + 1;
        }
        out
    }

    /// Get a specific slot
    pub fn get_slot_by_name(&self, name: &str) -> (r: Option<&Slot<T>>)
        ensures
            match slot_position(self@.slots, name@) {
                Some(i) => r matches Some(s) && s@ == self@.slots[i],
                None => r is None,
            },
    {
        match self.position(name) {
            Some(i) => Some(&self.slots[i]),
            None => None,
        }
    }

    /// Close a specific slot; a name with no slot changes nothing.
    pub fn close_slot(&mut self, name: &str)
        ensures
            match slot_position(old(self)@.slots, name@) {
                Some(i) => final(self)@ == (SlotManagerView {
                    slots: old(self)@.slots.update(i, SlotView { is_closing: true, ..old(self)@.slots[i] }),
                    ..old(self)@
                }),
                None => final(self)@ == old(self)@,
            },
    {
        match self.position(name) {
            Some(i) => {
                proof {
                    lemma_slot_views_update(self.slots@, i as int);
                    assert(self@.slots[i as int] == self.slots@[i as int]@);
                }
                self.slots[i].close();
                proof {
                    assert(self@.slots =~= old(self)@.slots.update(i as int, SlotView { is_closing: true, ..old(self)@.slots[i as int] }));
                }
            },
            None => {},
        }
    }

    /// Close all slots
    pub fn close_all_slots(&mut self)
        ensures
            final(self)@.slots.len() == old(self)@.slots.len(),
            forall|i: int| 0 <= i < old(self)@.slots.len() ==> #[trigger] final(self)@.slots[i]
                == (SlotView { is_closing: true, ..old(self)@.slots[i] }),
            final(self)@.default_max_active_size == old(self)@.default_max_active_size,
            final(self)@.default_delay == old(self)@.default_delay,
            final(self)@.with_schedulers == old(self)@.with_schedulers,
    {
        let mut i: usize = 0;
        while i < self.slots.len()
            invariant
                i <= self.slots@.len(),
                self.slots@.len() == old(self).slots@.len(),
                forall|j: int| 0 <= j < i ==> #[trigger] self@.slots[j]
                    == (SlotView { is_closing: true, ..old(self)@.slots[j] }),
                forall|j: int| i <= j < self.slots@.len() ==> #[trigger] self@.slots[j]
                    == old(self)@.slots[j],
                self.default_max_active_size == old(self).default_max_active_size,
                self.default_delay == old(self).default_delay,
                self.with_schedulers == old(self).with_schedulers,
            decreases self.slots@.len() - i,
        {
            let ghost before = self.slots@;
            let ghost prev = self@;
            proof {
                lemma_slot_views_update(before, i as int);
                assert(prev.slots == slot_views(before));
            }
            self.slots[i].close();
            proof {
                assert(self.slots@ == before.update(i as int, self.slots@[i as int]));
                assert(slot_views(self.slots@) == slot_views(before).update(i as int, self.slots@[i as int]@));
                assert(self.slots@[i as int]@ == (SlotView { is_closing: true, ..before[i as int]@ }));
                assert(slot_views(before)[i as int] == before[i as int]@);
                assert(self@.slots == slot_views(self.slots@));
                assert forall|j: int| 0 <= j < i + 1 implies #[trigger] self@.slots[j]
                    == (SlotView { is_closing: true, ..old(self)@.slots[j] }) by {
                    if j < i {
                        assert(self@.slots[j] == slot_views(before)[j]);
                        assert(prev.slots[j] == (SlotView { is_closing: true, ..old(self)@.slots[j] }));
                    } else {
                        assert(prev.slots[j] == old(self)@.slots[j]);
                    }
                }
                assert forall|j: int| i + 1 <= j < self.slots@.len() implies #[trigger] self@.slots[j]
                    == old(self)@.slots[j] by {
                    assert(self@.slots[j] == slot_views(before)[j]);
                    assert(prev.slots[j] == old(self)@.slots[j]);
                }
            }
            i = i + 1;
        }
    }

    /// Check if all slots are idle
    pub fn all_slots_idle(&self) -> (r: bool)
        ensures
            r == forall|i: int| 0 <= i < self@.slots.len() ==> #[trigger] self@.slots[i].queue.len()
                == 0 && self@.slots[i].active.len() == 0,
    {
        let mut i: usize = 0;
        while i < self.slots.len()
            invariant
                i <= self.slots@.len(),
                forall|j: int| 0 <= j < i ==> #[trigger] self@.slots[j].queue.len() == 0
                    && self@.slots[j].active.len() == 0,
            decreases self.slots@.len() - i,
        {
            proof {
                assert(self@.slots[i as int] == self.slots@[i as int]@);
            }
            if !self.slots[i].is_idle() {
                proof {
                    assert(!(self@.slots[i as int].queue.len() == 0 && self@.slots[i as int].active.len() == 0));
                }
                return false;
            }
            assert(self.slots@[i as int]@.queue.len() == 0);
            assert(self@.slots[i as int].queue.len() == 0);
            assert(self@.slots[i as int].active.len() == 0);
            assert forall|j: int| 0 <= j < i + 1 implies #[trigger] self@.slots[j].queue.len() == 0
                && self@.slots[j].active.len() == 0 by {
                if j < i {
                    assert(self@.slots[j].queue.len() == 0);
                }
            }
            i = i + 1;
        }
        true
    }
}

} // verus!
