//! Device notifications, filters over their kinds, and the broadcast that
//! fans one upstream stream out to independent subscriptions.
//!
//! Each subscription has its own queue, bounded by the broadcast's capacity:
//! when a queue is full, a new event pushes out that queue's oldest one
//! (drop-oldest), so the producer never waits for a slow consumer.

use vstd::prelude::*;
use crate::contact::Contact;
use crate::error::CliError;

verus! {

/// One asynchronous notification from the device.
#[derive(Debug, Clone)]
pub enum Event {
    /// A direct message.
    ContactMessage { sender_prefix: Vec<u8>, text: String, is_command: bool },
    /// A message on a channel.
    ChannelMessage { channel: u8, text: String },
    /// A delivery acknowledgement.
    Ack { code: u32 },
    /// A bare advertisement: the key alone.
    Advertisement { public_key: Vec<u8> },
    /// An advertisement with the full contact record.
    NewContactAdvert(Contact),
    /// A login was accepted.
    LoginSuccess,
    /// A login was refused.
    LoginFailed,
    /// Messages wait on the device.
    MessagesWaiting,
    /// No message is left on the device.
    NoMoreMessages,
    /// The device reported an error.
    Error { message: String },
    /// A message left; its acknowledgement code and timeout.
    MessageSent { expected_ack: u32, timeout_ms: u32 },
    /// A command succeeded.
    Done,
    /// Any other reply, by its packet code.
    Reply { packet: u8, data: Vec<u8> },
}

/// The kind of an event, which filters select on.
#[derive(Debug, Clone, Copy, PartialEq, Eq, Structural)]
pub enum EventKind {
    ContactMessage,
    ChannelMessage,
    Ack,
    Advertisement,
    NewContactAdvert,
    LoginSuccess,
    LoginFailed,
    MessagesWaiting,
    NoMoreMessages,
    Error,
    MessageSent,
    Done,
    Reply,
}

/// The kind of `e`.
pub open spec fn kind_of(e: Event) -> EventKind {
    match e {
        Event::ContactMessage { .. } => EventKind::ContactMessage,
        Event::ChannelMessage { .. } => EventKind::ChannelMessage,
        Event::Ack { .. } => EventKind::Ack,
        Event::Advertisement { .. } => EventKind::Advertisement,
        Event::NewContactAdvert(_) => EventKind::NewContactAdvert,
        Event::LoginSuccess => EventKind::LoginSuccess,
        Event::LoginFailed => EventKind::LoginFailed,
        Event::MessagesWaiting => EventKind::MessagesWaiting,
        Event::NoMoreMessages => EventKind::NoMoreMessages,
        Event::Error { .. } => EventKind::Error,
        Event::MessageSent { .. } => EventKind::MessageSent,
        Event::Done => EventKind::Done,
        Event::Reply { .. } => EventKind::Reply,
    }
}

impl Event {
    /// The event's kind.
    pub fn kind(&self) -> (r: EventKind)
        ensures
            r == kind_of(*self),
    {
        match self {
            Event::ContactMessage { .. } => EventKind::ContactMessage,
            Event::ChannelMessage { .. } => EventKind::ChannelMessage,
            Event::Ack { .. } => EventKind::Ack,
            Event::Advertisement { .. } => EventKind::Advertisement,
            Event::NewContactAdvert(_) => EventKind::NewContactAdvert,
            Event::LoginSuccess => EventKind::LoginSuccess,
            Event::LoginFailed => EventKind::LoginFailed,
            Event::MessagesWaiting => EventKind::MessagesWaiting,
            Event::NoMoreMessages => EventKind::NoMoreMessages,
            Event::Error { .. } => EventKind::Error,
            Event::MessageSent { .. } => EventKind::MessageSent,
            Event::Done => EventKind::Done,
            Event::Reply { .. } => EventKind::Reply,
        }
    }
}

/// Selects events by kind.
#[derive(Debug, Clone)]
pub struct EventFilter {
    /// The kinds that pass.
    pub kinds: Vec<EventKind>,
}

/// `f` lets `e` through.
pub open spec fn passes(f: EventFilter, e: Event) -> bool {
    f.kinds@.contains(kind_of(e))
}

impl EventFilter {
    /// A filter that passes the given kinds.
    pub fn of_kinds(kinds: Vec<EventKind>) -> (r: EventFilter)
        ensures
            r.kinds@ == kinds@,
    {
        EventFilter { kinds }
    }

    /// A filter that passes one kind.
    pub fn only(kind: EventKind) -> (r: EventFilter)
        ensures
            r.kinds@ == seq![kind],
    {
        let mut kinds: Vec<EventKind> = Vec::new();
        kinds.push(kind);
        EventFilter { kinds }
    }

    /// Whether `e` passes.
    pub fn matches(&self, e: &Event) -> (r: bool)
        ensures
            r == passes(*self, *e),
    {
        let k = e.kind();
        let n = self.kinds.len();
        let mut i: usize = 0;
        while i < n
            invariant
                n == self.kinds@.len(),
                i <= n,
                k == kind_of(*e),
                forall|j: int| 0 <= j < i ==> self.kinds@[j] != k,
            decreases n - i,
        {
            if self.kinds[i] == k {
                return true;
            }
            i = i + 1;
        }
        false
    }
}

/// A handle on one subscription of a broadcast.
#[derive(Debug, Clone, Copy, PartialEq, Eq, Structural)]
pub struct Subscription {
    pub id: usize,
}

/// A queue after `e` arrives: `e` goes last, and a queue already holding
/// `cap` events first loses its oldest one.
pub open spec fn queue_after_push(q: Seq<Event>, e: Event, cap: nat) -> Seq<Event> {
    if q.len() >= cap {
        q.skip(1).push(e)
    } else {
        q.push(e)
    }
}

/// Fans one event stream out to any number of subscriptions.
#[derive(Debug)]
pub struct Broadcaster {
    /// Events that some live subscription has yet to take, oldest first.
    log: Vec<Event>,
    /// Sequence number of `log[0]`.
    base: usize,
    /// Per subscription id: the sequence number of its next event, or
    /// `None` once released.
    cursors: Vec<Option<usize>>,
    /// Largest number of events a subscription's queue holds.
    capacity: usize,
    /// The upstream stream has ended.
    closed: bool,
}

impl Broadcaster {
    /// Internal consistency.
    pub closed spec fn wf(&self) -> bool {
        &&& self.capacity > 0
        &&& self.base + self.log@.len() <= usize::MAX
        &&& forall|i: int| 0 <= i < self.cursors@.len() ==> (#[trigger] self.cursors@[i] matches Some(c) ==> self.base
            <= c <= self.base + self.log@.len() && self.base + self.log@.len() - c <= self.capacity)
    }

    /// `s` was handed out by this broadcast and not released.
    pub closed spec fn is_live(&self, s: Subscription) -> bool {
        s.id < self.cursors@.len() && self.cursors@[s.id as int] is Some
    }

    /// The events waiting for `s`, oldest first.
    pub closed spec fn queue(&self, s: Subscription) -> Seq<Event> {
        if s.id < self.cursors@.len() {
            match self.cursors@[s.id as int] {
                Some(c) => self.log@.skip(c - self.base),
                None => Seq::empty(),
            }
        } else {
            Seq::empty()
        }
    }

    /// How many subscriptions were ever made.
    pub closed spec fn handed_out(&self) -> nat {
        self.cursors@.len()
    }

    /// Largest number of events a queue holds.
    pub closed spec fn cap(&self) -> nat {
        self.capacity as nat
    }

    /// The upstream stream has ended.
    pub closed spec fn is_closed(&self) -> bool {
        self.closed
    }

    /// How many more events the sequence numbers leave room for.
    pub closed spec fn room(&self) -> int {
        usize::MAX - (self.base + self.log@.len())
    }

    /// A broadcast with no subscription, whose queues hold up to `capacity` events.
    pub fn new(capacity: usize) -> (r: Broadcaster)
        requires
            capacity > 0,
        ensures
            r.wf(),
            r.cap() == capacity,
            r.handed_out() == 0,
            !r.is_closed(),
            r.room() == usize::MAX,
    {
        Broadcaster { log: Vec::new(), base: 0, cursors: Vec::new(), capacity, closed: false }
    }

    /// A new subscription: it receives the events pushed from now on, and
    /// none from before.
    pub fn subscribe(&mut self) -> (r: Subscription)
        requires
            old(self).wf(),
        ensures
            final(self).wf(),
            r.id == old(self).handed_out(),
            final(self).handed_out() == old(self).handed_out() + 1,
            final(self).is_live(r),
            final(self).queue(r) == Seq::<Event>::empty(),
            forall|s: Subscription| s.id < old(self).handed_out() ==> final(self).is_live(s) == old(self).is_live(s)
                && final(self).queue(s) == old(self).queue(s),
            final(self).cap() == old(self).cap(),
            final(self).is_closed() == old(self).is_closed(),
            final(self).room() == old(self).room(),
    {
        let id = self.cursors.len();
        self.cursors.push(Some(self.base + self.log.len()));
        assert(self.log@.skip(self.log@.len() as int) =~= Seq::<Event>::empty());
        Subscription { id }
    }

    /// Releases `s`: it receives nothing more.
    pub fn release(&mut self, s: Subscription)
        requires
            old(self).wf(),
        ensures
            final(self).wf(),
            !final(self).is_live(s),
            final(self).handed_out() == old(self).handed_out(),
            forall|t: Subscription| t.id != s.id ==> final(self).is_live(t) == old(self).is_live(t)
                && final(self).queue(t) == old(self).queue(t),
            final(self).cap() == old(self).cap(),
            final(self).is_closed() == old(self).is_closed(),
            final(self).room() == old(self).room(),
    {
        if s.id < self.cursors.len() {
            self.cursors.set(s.id, None);
        }
    }

    /// Marks the upstream stream as ended.
    pub fn close(&mut self)
        requires
            old(self).wf(),
        ensures
            final(self).wf(),
            final(self).is_closed(),
            final(self).handed_out() == old(self).handed_out(),
            forall|t: Subscription| final(self).is_live(t) == old(self).is_live(t) && final(self).queue(t) == old(
                self,
            ).queue(t),
            final(self).cap() == old(self).cap(),
            final(self).room() == old(self).room(),
    {
        self.closed = true;
    }

    /// Whether the upstream stream has ended.
    pub fn closed(&self) -> (r: bool)
        ensures
            r == self.is_closed(),
    {
        self.closed
    }

    /// Whether another event can be pushed.
    pub fn has_room(&self) -> (r: bool)
        requires
            self.wf(),
        ensures
            r == (self.room() > 0),
    {
        self.base + self.log.len() < usize::MAX
    }

    /// The least next-sequence-number over live subscriptions, or the end
    /// of the log when none is live.
    fn min_cursor(&self) -> (r: usize)
        requires
            self.wf(),
        ensures
            self.base <= r <= self.base + self.log@.len(),
            forall|i: int| 0 <= i < self.cursors@.len() ==> (#[trigger] self.cursors@[i] matches Some(c) ==> r <= c),
            r == self.base + self.log@.len() || exists|i: int| 0 <= i < self.cursors@.len() && self.cursors@[i] == Some(r),
    {
        let mut m: usize = self.base + self.log.len();
        let n = self.cursors.len();
        let mut i: usize = 0;
        while i < n
            invariant
                self.wf(),
                n == self.cursors@.len(),
                i <= n,
                self.base <= m <= self.base + self.log@.len(),
                forall|j: int| 0 <= j < i ==> (#[trigger] self.cursors@[j] matches Some(c) ==> m <= c),
                m == self.base + self.log@.len() || exists|j: int| 0 <= j < self.cursors@.len() && self.cursors@[j] == Some(m),
            decreases n - i,
        {
            if let Some(c) = self.cursors[i] {
                if c < m {
                    m = c;
                }
            }
            i = i + 1;
        }
        m
    }

    /// Drops the first `k` events of the log.
    fn drop_front(&mut self, k: usize)
        requires
            k <= old(self).log@.len(),
            old(self).base + old(self).log@.len() <= usize::MAX,
        ensures
            final(self).log@ == old(self).log@.skip(k as int),
            final(self).base == old(self).base + k,
            final(self).cursors == old(self).cursors,
            final(self).capacity == old(self).capacity,
            final(self).closed == old(self).closed,
    {
        let rest = self.log.split_off(k);
        self.log = rest;
        self.base = self.base + k;
    }

    /// Delivers `e` to every live subscription (nothing, once the stream has
    /// ended). A subscription whose queue is full loses its oldest event.
    pub fn push(&mut self, e: Event)
        requires
            old(self).wf(),
            old(self).room() > 0,
        ensures
            final(self).wf(),
            final(self).handed_out() == old(self).handed_out(),
            final(self).cap() == old(self).cap(),
            final(self).is_closed() == old(self).is_closed(),
            final(self).room() >= old(self).room() - 1,
            forall|s: Subscription| #[trigger] final(self).is_live(s) == old(self).is_live(s),
            forall|s: Subscription| #[trigger] old(self).is_live(s) ==> final(self).queue(s) == if old(self).is_closed() {
                old(self).queue(s)
            } else {
                queue_after_push(old(self).queue(s), e, old(self).cap())
            },
    {
        if self.closed {
            return;
        }
        // Forget what every live subscription has taken already.
        let m = self.min_cursor();
        self.drop_front(m - self.base);
        let ghost mid = *self;
        assert(self.log@.len() <= self.capacity) by {
            if m != old(self).base + old(self).log@.len() {
                let j = choose|j: int| 0 <= j < self.cursors@.len() && self.cursors@[j] == Some(m);
                assert(old(self).cursors@[j] == Some(m));
            }
        }
        assert(mid.wf());
        assert forall|s: Subscription| #[trigger] old(self).is_live(s) implies mid.queue(s) == old(self).queue(s) by {
            let c = self.cursors@[s.id as int]->Some_0;
            assert(mid.log@.skip(c - mid.base) =~= old(self).log@.skip(c - old(self).base));
        }
        // A full queue makes room by losing its oldest event.
        if self.log.len() >= self.capacity {
            self.drop_front(1);
            let n = self.cursors.len();
            let mut i: usize = 0;
            while i < n
                invariant
                    n == self.cursors@.len(),
                    i <= n,
                    self.base == mid.base + 1,
                    self.log@ == mid.log@.skip(1),
                    self.capacity == mid.capacity,
                    self.closed == mid.closed,
                    mid.wf(),
                    mid.log@.len() == mid.capacity,
                    self.cursors@.len() == mid.cursors@.len(),
                    forall|j: int| 0 <= j < n ==> (#[trigger] self.cursors@[j] is Some) == (mid.cursors@[j] is Some),
                    forall|j: int| 0 <= j < i ==> (#[trigger] self.cursors@[j] matches Some(c) ==> c == if mid.cursors@[j]->Some_0
                        < self.base { self.base } else { mid.cursors@[j]->Some_0 }),
                    forall|j: int| i <= j < n ==> #[trigger] self.cursors@[j] == mid.cursors@[j],
                decreases n - i,
            {
                if let Some(c) = self.cursors[i] {
                    if c < self.base {
                        self.cursors.set(i, Some(self.base));
                    }
                }
                i = i + 1;
            }
            assert forall|s: Subscription| #[trigger] old(self).is_live(s) implies self.queue(s) == if mid.queue(s).len()
                >= mid.capacity { mid.queue(s).skip(1) } else { mid.queue(s) } by {
                let c0 = mid.cursors@[s.id as int]->Some_0;
                let c = self.cursors@[s.id as int]->Some_0;
                assert(mid.cursors@[s.id as int] is Some);
                if c0 < self.base {
                    assert(self.log@.skip(c - self.base) =~= mid.log@.skip(c0 - mid.base).skip(1));
                } else {
                    assert(self.log@.skip(c - self.base) =~= mid.log@.skip(c0 - mid.base));
                }
            }
        }
        let ghost before = *self;
        self.log.push(e);
        assert forall|s: Subscription| #[trigger] old(self).is_live(s) implies self.queue(s) == before.queue(s).push(e) by {
            let c = self.cursors@[s.id as int]->Some_0;
            assert(self.log@.skip(c - self.base) =~= before.log@.skip(c - before.base).push(e));
        }
    }

    /// The oldest event waiting for `s`, if any.
    pub fn peek(&self, s: Subscription) -> (r: Option<&Event>)
        requires
            self.wf(),
            self.is_live(s),
        ensures
            match r {
                Some(e) => self.queue(s).len() > 0 && *e == self.queue(s)[0],
                None => self.queue(s).len() == 0,
            },
    {
        let c = self.cursors[s.id].unwrap();
        if c - self.base < self.log.len() {
            Some(&self.log[c - self.base])
        } else {
            None
        }
    }

    /// Takes the oldest event waiting for `s` off its queue, if any.
    pub fn advance(&mut self, s: Subscription)
        requires
            old(self).wf(),
            old(self).is_live(s),
        ensures
            final(self).wf(),
            final(self).queue(s) == if old(self).queue(s).len() > 0 {
                old(self).queue(s).skip(1)
            } else {
                old(self).queue(s)
            },
            final(self).handed_out() == old(self).handed_out(),
            forall|t: Subscription| #[trigger] final(self).is_live(t) == old(self).is_live(t),
            forall|t: Subscription| t.id != s.id ==> #[trigger] final(self).queue(t) == old(self).queue(t),
            final(self).cap() == old(self).cap(),
            final(self).is_closed() == old(self).is_closed(),
            final(self).room() == old(self).room(),
    {
        let c = self.cursors[s.id].unwrap();
        if c - self.base < self.log.len() {
            self.cursors.set(s.id, Some(c + 1));
            assert(self.log@.skip(c + 1 - self.base) =~= old(self).log@.skip(c - self.base).skip(1));
        }
    }

    /// Takes events off `s`'s queue until one passes `f`, which stays at the
    /// front. Says whether such an event is there; every event taken failed `f`.
    pub fn skip_until(&mut self, s: Subscription, f: &EventFilter) -> (found: bool)
        requires
            old(self).wf(),
            old(self).is_live(s),
        ensures
            final(self).wf(),
            exists|k: int| 0 <= k <= old(self).queue(s).len()
                && final(self).queue(s) == old(self).queue(s).skip(k)
                && forall|j: int| 0 <= j < k ==> !passes(*f, #[trigger] old(self).queue(s)[j]),
            found == (final(self).queue(s).len() > 0),
            found ==> passes(*f, final(self).queue(s)[0]),
            final(self).handed_out() == old(self).handed_out(),
            forall|t: Subscription| #[trigger] final(self).is_live(t) == old(self).is_live(t),
            forall|t: Subscription| t.id != s.id ==> #[trigger] final(self).queue(t) == old(self).queue(t),
            final(self).cap() == old(self).cap(),
            final(self).is_closed() == old(self).is_closed(),
            final(self).room() == old(self).room(),
    {
        let ghost q0 = self.queue(s);
        assert(q0 == old(self).queue(s));
        let ghost mut k: int = 0;
        assert(q0.skip(0) =~= q0);
        loop
            invariant
                self.wf(),
                self.is_live(s),
                q0 == old(self).queue(s),
                0 <= k <= q0.len(),
                self.queue(s) == q0.skip(k),
                forall|j: int| 0 <= j < k ==> !passes(*f, #[trigger] q0[j]),
                self.handed_out() == old(self).handed_out(),
                forall|t: Subscription| #[trigger] self.is_live(t) == old(self).is_live(t),
                forall|t: Subscription| t.id != s.id ==> #[trigger] self.queue(t) == old(self).queue(t),
                self.cap() == old(self).cap(),
                self.is_closed() == old(self).is_closed(),
                self.room() == old(self).room(),
            decreases q0.len() - k,
        {
            let passed = match self.peek(s) {
                Some(e) => f.matches(e),
                None => {
                    assert(0 <= k <= old(self).queue(s).len() && self.queue(s) == old(self).queue(s).skip(k)
                        && forall|j: int| 0 <= j < k ==> !passes(*f, #[trigger] old(self).queue(s)[j]));
                    return false;
                },
            };
            if passed {
                assert(0 <= k <= old(self).queue(s).len() && self.queue(s) == old(self).queue(s).skip(k)
                        && forall|j: int| 0 <= j < k ==> !passes(*f, #[trigger] old(self).queue(s)[j]));
                return true;
            }
            self.advance(s);
            proof {
                assert(q0.skip(k).skip(1) =~= q0.skip(k + 1));
                k = k + 1;
            }
        }
    }
}

/// Pushing an event onto a queue that is not full delivers it exactly once,
/// after everything already queued, and leaves the rest in order; a
/// subscription made after the push holds nothing of it.
pub proof fn lemma_delivery_in_order(q: Seq<Event>, e: Event, cap: nat)
    requires
        q.len() < cap,
    ensures
        queue_after_push(q, e, cap) == q + seq![e],
        queue_after_push(q, e, cap).len() == q.len() + 1,
        queue_after_push(q, e, cap).last() == e,
        queue_after_push(q, e, cap).subrange(0, q.len() as int) == q,
{
    assert(q.push(e) =~= q + seq![e]);
    assert(q.push(e).subrange(0, q.len() as int) =~= q);
}

/// A queue after the events `es` arrive one after another.
pub open spec fn queue_after_pushes(q: Seq<Event>, es: Seq<Event>, cap: nat) -> Seq<Event>
    decreases es.len(),
{
    if es.len() == 0 {
        q
    } else {
        queue_after_pushes(queue_after_push(q, es[0], cap), es.skip(1), cap)
    }
}

/// A subscription whose queue keeps within its bound receives every event
/// pushed after it was made exactly once, in push order, after what it
/// already held; a subscription made later starts empty and so holds none
/// of the earlier events.
pub proof fn lemma_pushes_in_order(q: Seq<Event>, es: Seq<Event>, cap: nat)
    requires
        q.len() + es.len() <= cap,
    ensures
        queue_after_pushes(q, es, cap) == q + es,
    decreases es.len(),
{
    if es.len() > 0 {
        lemma_delivery_in_order(q, es[0], cap);
        lemma_pushes_in_order(q + seq![es[0]], es.skip(1), cap);
        assert(q + seq![es[0]] + es.skip(1) =~= q + es);
    } else {
        assert(q + es =~= q);
    }
}

/// What a wait does next.
#[derive(Debug, Clone)]
pub enum WaitStep {
    /// Hand over the event at the front of the subscription.
    Deliver,
    /// Keep waiting for more events.
    Wait,
    /// Give up with this error.
    Fail(CliError),
}

/// Decides what a filtered wait does next.
pub fn wait_step(found: bool, closed: bool, expired: bool) -> (r: WaitStep)
    ensures
        found ==> r is Deliver,
        !found && closed ==> r matches WaitStep::Fail(CliError::StreamClosed),
        !found && !closed && expired ==> r matches WaitStep::Fail(CliError::Timeout(_)),
        !found && !closed && !expired ==> r is Wait,
{
    if found {
        WaitStep::Deliver
    } else if closed {
        WaitStep::Fail(CliError::StreamClosed)
    } else if expired {
        WaitStep::Fail(CliError::Timeout("event".to_string()))
    } else {
        WaitStep::Wait
    }
}

} // verus!
