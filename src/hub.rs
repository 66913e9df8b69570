//! Broadcast of events to any number of subscribers.
//!
//! The hub keeps the most recent events, up to its capacity, in dispatch
//! order. A subscription is a cursor into that order: it sees every event
//! dispatched after it was created, in order. Dispatch never waits for a
//! subscriber; one that falls more than the capacity behind is told how
//! many events it missed, then goes on from the oldest event still kept.

use std::collections::VecDeque;
use std::sync::Arc;
use vstd::prelude::*;

use crate::event::{filter_accepts, Event, EventFilter};
use crate::message::Acknowledgment;

verus! {

/// The hub, abstractly: every event ever dispatched, the position of the
/// oldest one still kept, and how many it keeps.
pub struct HubView {
    pub history: Seq<Event>,
    pub first: nat,
    pub capacity: nat,
}

impl HubView {
    /// The hub's invariant.
    pub open spec fn wf(self) -> bool {
        &&& self.capacity >= 1
        &&& self.first <= self.history.len()
        &&& self.history.len() - self.first <= self.capacity
    }
}

/// The hub after dispatching `e`.
pub open spec fn after_dispatch(v: HubView, e: Event) -> HubView {
    let h = v.history.push(e);
    HubView {
        history: h,
        first: if h.len() - v.first > v.capacity {
            (h.len() - v.capacity) as nat
        } else {
            v.first
        },
        capacity: v.capacity,
    }
}

/// The hub after dispatching `es` in order.
pub open spec fn after_dispatch_all(v: HubView, es: Seq<Event>) -> HubView
    decreases es.len(),
{
    if es.len() == 0 {
        v
    } else {
        after_dispatch(after_dispatch_all(v, es.drop_last()), es.last())
    }
}

/// Position of the first event at or after `i` that `f` accepts.
pub open spec fn first_match(h: Seq<Event>, i: nat, f: EventFilter) -> Option<nat>
    decreases h.len() - i,
{
    if i >= h.len() {
        None
    } else if filter_accepts(f, h[i as int]) {
        Some(i)
    } else {
        first_match(h, i + 1, f)
    }
}

/// What one receive hands a subscriber.
#[derive(Debug, Clone)]
pub enum Received {
    /// The next event.
    Event(Arc<Event>),
    /// This many events were dropped before the subscriber read them.
    Lagged(u64),
    /// Nothing new has been dispatched.
    Empty,
}

/// A subscriber's position in the dispatch order.
#[derive(Debug, Clone, Copy, PartialEq, Eq, Structural)]
pub struct Subscription {
    next: u64,
}

impl Subscription {
    /// Position of the next event this subscription will receive.
    pub closed spec fn view(&self) -> nat {
        self.next as nat
    }
}

/// Multi-subscriber broadcast of events.
pub struct EventDispatcher {
    log: VecDeque<Arc<Event>>,
    first: u64,
    capacity: usize,
    history: Ghost<Seq<Event>>,
}

impl EventDispatcher {
    /// The hub, abstractly.
    pub closed spec fn view(&self) -> HubView {
        HubView { history: self.history@, first: self.first as nat, capacity: self.capacity as nat }
    }

    /// The hub's invariant.
    pub closed spec fn wf(&self) -> bool {
        &&& self@.wf()
        &&& self.history@.len() <= u64::MAX
        &&& self.first + self.log@.len() == self.history@.len()
        &&& forall|i: int|
            0 <= i < self.log@.len() ==> *#[trigger] self.log@[i] == self.history@[self.first + i]
    }

    /// A hub that keeps the latest `capacity` events.
    pub fn new(capacity: usize) -> (r: Self)
        requires
            capacity >= 1,
        ensures
            r.wf(),
            r@.history.len() == 0,
            r@.first == 0,
            r@.capacity == capacity,
    {
        EventDispatcher {
            log: VecDeque::with_capacity(capacity),
            first: 0,
            capacity,
            history: Ghost(Seq::empty()),
        }
    }

    /// How many events have been dispatched.
    pub fn dispatched_count(&self) -> (r: u64)
        requires
            self.wf(),
        ensures
            r == self@.history.len(),
    {
        self.first + self.log.len() as u64
    }

    /// A subscription that will see every event dispatched from now on.
    /// Filtering is done when waiting, so `_filter` is not used.
    pub fn subscribe(&self, _filter: Option<EventFilter>) -> (r: Subscription)
        requires
            self.wf(),
        ensures
            r@ == self@.history.len(),
    {
        Subscription { next: self.first + self.log.len() as u64 }
    }

    /// Broadcasts `event` to every subscription; never waits for one.
    pub fn dispatch(&mut self, event: Event)
        requires
            old(self).wf(),
            old(self)@.history.len() < u64::MAX,
        ensures
            final(self).wf(),
            final(self)@ == after_dispatch(old(self)@, event),
    {
        let ghost h = self.history@.push(event);
        self.log.push_back(Arc::new(event));
        self.history = Ghost(h);
        if self.log.len() > self.capacity {
            let _ = self.log.pop_front();
            self.first = self.first + 1;
        }
        assert forall|i: int| 0 <= i < self.log@.len() implies *#[trigger] self.log@[i]
            == self.history@[self.first + i] by {
            if self.first == old(self).first {
                if i < old(self).log@.len() {
                    assert(self.log@[i] == old(self).log@[i]);
                }
            } else {
                if i + 1 < old(self).log@.len() {
                    assert(self.log@[i] == old(self).log@[i + 1]);
                }
            }
        }
    }

    /// Hands `sub` its next event, or tells it how many it missed, or that
    /// nothing new has been dispatched.
    pub fn recv(&self, sub: &mut Subscription) -> (r: Received)
        requires
            self.wf(),
        ensures
            old(sub)@ < self@.first ==> r == Received::Lagged((self@.first - old(sub)@) as u64)
                && final(sub)@ == self@.first,
            self@.first <= old(sub)@ < self@.history.len() ==> (r matches Received::Event(e)
                && *e == self@.history[old(sub)@ as int] && final(sub)@ == old(sub)@ + 1),
            old(sub)@ >= self@.history.len() ==> r is Empty && final(sub)@ == old(sub)@,
    {
        if sub.next < self.first {
            let missed = self.first - sub.next;
            sub.next = self.first;
            return Received::Lagged(missed);
        }
        let offset = sub.next - self.first;
        if offset >= self.log.len() as u64 {
            return Received::Empty;
        }
        let e = self.log[offset as usize].clone();
        sub.next = sub.next + 1;
        Received::Event(e)
    }

    /// Takes events from `sub` until one that `filter` accepts, skipping
    /// any it missed. Returns `None`, with `sub` caught up, if none has
    /// been dispatched yet.
    pub fn next_match(&self, sub: &mut Subscription, filter: &EventFilter) -> (r: Option<
        Arc<Event>,
    >)
        requires
            self.wf(),
        ensures
            ({
                let start = if old(sub)@ < self@.first {
                    self@.first
                } else {
                    old(sub)@
                };
                match first_match(self@.history, start, *filter) {
                    Some(j) => r matches Some(e) && *e == self@.history[j as int] && final(sub)@
                        == j + 1,
                    None => r is None && final(sub)@ == if start < self@.history.len() {
                        self@.history.len()
                    } else {
                        start
                    },
                }
            }),
    {
        let ghost start = if sub@ < self@.first {
            self@.first
        } else {
            sub@
        };
        loop
            invariant
                self.wf(),
                start <= sub@ || (old(sub)@ < self@.first && sub@ == old(sub)@),
                start <= sub@ ==> first_match(self@.history, start, *filter) == first_match(
                    self@.history,
                    sub@,
                    *filter,
                ),
                start == (if old(sub)@ < self@.first {
                    self@.first
                } else {
                    old(sub)@
                }),
                start <= sub@ ==> (sub@ <= self@.history.len() || sub@ == start),
            decreases (if sub@ < self@.first {
                self@.history.len() + 1
            } else if sub@ < self@.history.len() {
                (self@.history.len() - sub@) as nat
            } else {
                0
            }),
        {
            let ghost before = sub@;
            match self.recv(sub) {
                Received::Lagged(_) => {},
                Received::Empty => {
                    return None;
                },
                Received::Event(e) => {
                    if filter.matches(&*e) {
                        return Some(e);
                    }
                },
            }
        }
    }
}

proof fn lemma_after_dispatch_all_general(v: HubView, es: Seq<Event>)
    requires
        v.wf(),
    ensures
        after_dispatch_all(v, es).wf(),
        after_dispatch_all(v, es).history == v.history + es,
        after_dispatch_all(v, es).capacity == v.capacity,
        es.len() <= v.capacity ==> after_dispatch_all(v, es).first <= v.history.len(),
    decreases es.len(),
{
    if es.len() > 0 {
        lemma_after_dispatch_all_general(v, es.drop_last());
        assert(v.history + es.drop_last() + seq![es.last()] =~= v.history + es);
    }
}

/// Ordering: a subscription created when the hub had dispatched
/// `v.history.len()` events, followed by up to `capacity` dispatches of
/// `es`, has missed nothing, and the events at its cursor onward are
/// exactly `es` in dispatch order. Events dispatched before it was created
/// lie before its cursor, so it never sees them.
pub proof fn law_subscriber_sees_later_dispatches(v: HubView, es: Seq<Event>)
    requires
        v.wf(),
        es.len() <= v.capacity,
    ensures
        ({
            let w = after_dispatch_all(v, es);
            &&& w.first <= v.history.len()
            &&& w.history.subrange(v.history.len() as int, w.history.len() as int) == es
            &&& w.history.take(v.history.len() as int) == v.history
        }),
{
    lemma_after_dispatch_all_general(v, es);
    let w = after_dispatch_all(v, es);
    assert(w.history.subrange(v.history.len() as int, w.history.len() as int) =~= es);
    assert(w.history.take(v.history.len() as int) =~= v.history);
}

proof fn lemma_first_match_in(h: Seq<Event>, i: nat, f: EventFilter, k: int)
    requires
        i <= k < h.len(),
        filter_accepts(f, h[k]),
    ensures
        first_match(h, i, f) matches Some(j) && i <= j <= k && filter_accepts(f, h[j as int])
            && forall|m: int| i <= m < j ==> !filter_accepts(f, #[trigger] h[m]),
    decreases h.len() - i,
{
    if !filter_accepts(f, h[i as int]) {
        lemma_first_match_in(h, i + 1, f, k);
    }
}

/// Race freedom: a waiter that subscribed before up to `capacity` further
/// events were dispatched, one of which its filter accepts, finds the
/// first such event among them; it cannot miss it.
pub proof fn law_waiter_sees_later_match(v: HubView, es: Seq<Event>, f: EventFilter, k: int)
    requires
        v.wf(),
        es.len() <= v.capacity,
        0 <= k < es.len(),
        filter_accepts(f, es[k]),
    ensures
        ({
            let w = after_dispatch_all(v, es);
            let n = v.history.len();
            &&& w.first <= n
            &&& (first_match(w.history, n, f) matches Some(j) && n <= j && j - n <= k
                && w.history[j as int] == es[j - n] && filter_accepts(f, es[j - n])
                && forall|m: int| 0 <= m < j - n ==> !filter_accepts(f, #[trigger] es[m]))
        }),
{
    law_subscriber_sees_later_dispatches(v, es);
    lemma_after_dispatch_all_general(v, es);
    let w = after_dispatch_all(v, es);
    let n = v.history.len();
    assert(w.history[n + k] == es[k]);
    lemma_first_match_in(w.history, n, f, n + k);
    let j = first_match(w.history, n, f)->0;
    assert forall|m: int| 0 <= m < j - n implies !filter_accepts(f, #[trigger] es[m]) by {
        assert(w.history[n + m] == es[m]);
    }
    assert(w.history[j as int] == es[j - n]);
}

/// Acknowledgement matching: a waiter whose filter accepts exactly the
/// acknowledgements carrying `code` (as `EventFilter::ack(code)` does), and
/// that subscribed before up to `capacity` further events were dispatched,
/// one of them such an acknowledgement, finds the first of them; other
/// codes before it are passed over.
pub proof fn law_ack_waiter_takes_first_code(
    v: HubView,
    es: Seq<Event>,
    f: EventFilter,
    code: u32,
    k: int,
)
    requires
        v.wf(),
        es.len() <= v.capacity,
        forall|e: Event| filter_accepts(f, e) <==> (e matches Event::Ack(a) && a.code == code),
        0 <= k < es.len(),
        es[k] == Event::Ack(Acknowledgment { code }),
    ensures
        ({
            let w = after_dispatch_all(v, es);
            let n = v.history.len();
            &&& w.first <= n
            &&& (first_match(w.history, n, f) matches Some(j) && n <= j && j - n <= k && w.history[j as int]
                == Event::Ack(Acknowledgment { code }) && forall|m: int|
                0 <= m < j - n ==> !(#[trigger] es[m] matches Event::Ack(a) && a.code == code))
        }),
{
    law_waiter_sees_later_match(v, es, f, k);
    let w = after_dispatch_all(v, es);
    let n = v.history.len();
    let j = first_match(w.history, n, f)->0;
    let e = es[j - n];
    assert(filter_accepts(f, e));
    assert(e matches Event::Ack(a) && a.code == code);
    assert(e == Event::Ack(Acknowledgment { code }));
    assert forall|m: int| 0 <= m < j - n implies !(#[trigger] es[m] matches Event::Ack(a) && a.code
        == code) by {
        assert(!filter_accepts(f, es[m]));
    }
}

} // verus!
