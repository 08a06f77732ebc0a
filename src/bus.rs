//! The event bus: a bounded log of recent events with one read cursor per
//! subscriber. A subscriber that falls more than the capacity behind loses
//! its oldest unread events; publishing never blocks.

use vstd::prelude::*;
use std::collections::VecDeque;
use crate::event::SoundTouchEvent;

verus! {

/// Events each subscriber may hold unread before the oldest are dropped.
pub const DEFAULT_CAPACITY: usize = 100;

/// Appends `e` to a subscriber's pending events, dropping the oldest so that
/// at most `cap` remain.
pub open spec fn bounded_push<T>(q: Seq<T>, e: T, cap: nat) -> Seq<T> {
    let q2 = q.push(e);
    if q2.len() > cap {
        q2.subrange(q2.len() - cap, q2.len() as int)
    } else {
        q2
    }
}

/// A subscriber's pending events after `events` were published in order.
pub open spec fn publish_all<T>(q: Seq<T>, events: Seq<T>, cap: nat) -> Seq<T>
    decreases events.len(),
{
    if events.len() == 0 {
        q
    } else {
        bounded_push(publish_all(q, events.drop_last(), cap), events.last(), cap)
    }
}

/// The last `cap` elements of `s`, or all of them when there are fewer.
pub open spec fn last_n<T>(s: Seq<T>, cap: nat) -> Seq<T> {
    if s.len() > cap {
        s.subrange(s.len() - cap, s.len() as int)
    } else {
        s
    }
}

/// The handle of one subscriber of a bus.
#[derive(Debug, Clone, Copy, PartialEq, Eq, Structural)]
pub struct SubscriberId {
    pub index: usize,
}

/// A broadcast of events to any number of independently paced subscribers.
pub struct EventBus {
    log: VecDeque<SoundTouchEvent>,
    unread: Vec<usize>,
    capacity: usize,
}

impl EventBus {
    pub closed spec fn capacity(&self) -> nat {
        self.capacity as nat
    }

    pub closed spec fn subscriber_count(&self) -> nat {
        self.unread@.len()
    }

    /// The events that subscriber `i` has not read yet, oldest first.
    pub closed spec fn pending(&self, i: int) -> Seq<SoundTouchEvent> {
        let n = self.log@.len() as int;
        self.log@.subrange(n - self.unread@[i] as int, n)
    }

    pub closed spec fn wf(&self) -> bool {
        &&& self.capacity > 0
        &&& self.log@.len() <= self.capacity
        &&& forall|i: int| 0 <= i < self.unread@.len() ==> #[trigger] self.unread@[i] <= self.log@.len()
    }

    /// A bus whose subscribers each hold up to `DEFAULT_CAPACITY` unread events.
    pub fn new() -> (r: EventBus)
        ensures
            r.wf(),
            r.subscriber_count() == 0,
            r.capacity() == DEFAULT_CAPACITY,
    {
        EventBus { log: VecDeque::new(), unread: Vec::new(), capacity: DEFAULT_CAPACITY }
    }

    /// A bus whose subscribers each hold up to `capacity` unread events.
    pub fn with_capacity(capacity: usize) -> (r: EventBus)
        requires
            capacity > 0,
        ensures
            r.wf(),
            r.subscriber_count() == 0,
            r.capacity() == capacity,
    {
        EventBus { log: VecDeque::new(), unread: Vec::new(), capacity }
    }

    pub fn subscriber_len(&self) -> (r: usize)
        ensures
            r == self.subscriber_count(),
    {
        self.unread.len()
    }

    /// Adds a subscriber that will receive every event published from now on.
    pub fn subscribe(&mut self) -> (id: SubscriberId)
        requires
            old(self).wf(),
        ensures
            final(self).wf(),
            final(self).capacity() == old(self).capacity(),
            id.index == old(self).subscriber_count(),
            final(self).subscriber_count() == old(self).subscriber_count() + 1,
            final(self).pending(id.index as int) == Seq::<SoundTouchEvent>::empty(),
            forall|i: int| 0 <= i < old(self).subscriber_count() ==>
                #[trigger] final(self).pending(i) == old(self).pending(i),
    {
        let index = self.unread.len();
        self.unread.push(0);
        let ghost n = self.log@.len() as int;
        assert(self.pending(index as int) =~= Seq::<SoundTouchEvent>::empty());
        assert forall|i: int| 0 <= i < old(self).subscriber_count() implies
            #[trigger] self.pending(i) == old(self).pending(i) by {
            assert(self.unread@[i] == old(self).unread@[i]);
        }
        SubscriberId { index }
    }

    /// Hands `e` to every subscriber; with no subscriber it does nothing.
    pub fn publish(&mut self, e: SoundTouchEvent)
        requires
            old(self).wf(),
        ensures
            final(self).wf(),
            final(self).capacity() == old(self).capacity(),
            final(self).subscriber_count() == old(self).subscriber_count(),
            old(self).subscriber_count() == 0 ==> *final(self) == *old(self),
            forall|i: int| 0 <= i < old(self).subscriber_count() ==>
                #[trigger] final(self).pending(i) == bounded_push(old(self).pending(i), e, old(self).capacity()),
    {
        if self.unread.len() == 0 {
            return;
        }
        let ghost old_log = self.log@;
        let ghost old_unread = self.unread@;
        if self.log.len() == self.capacity {
            self.log.pop_front();
        }
        self.log.push_back(e);
        let cap = self.capacity;
        let mut k: usize = 0;
        while k < self.unread.len()
            invariant
                self.capacity == cap,
                cap > 0,
                old_log.len() <= cap,
                self.log@ == last_n(old_log.push(e), cap as nat),
                self.unread@.len() == old_unread.len(),
                0 <= k <= self.unread@.len(),
                forall|i: int| 0 <= i < old_unread.len() ==> #[trigger] old_unread[i] <= old_log.len(),
                forall|i: int| 0 <= i < k ==> #[trigger] self.unread@[i] == (if old_unread[i] < cap {
                    old_unread[i] + 1
                } else {
                    old_unread[i] as int
                }),
                forall|i: int| k <= i < old_unread.len() ==> #[trigger] self.unread@[i] == old_unread[i],
            decreases self.unread@.len() - k,
        {
            let u = self.unread[k];
            if u < cap {
                self.unread.set(k, u + 1);
            }
            k = k + 1;
        }
        assert forall|i: int| 0 <= i < old(self).subscriber_count() implies
            #[trigger] self.pending(i) == bounded_push(old(self).pending(i), e, cap as nat) by {
            let n = old_log.len() as int;
            let u = old_unread[i] as int;
            let q = old_log.subrange(n - u, n);
            assert(q.push(e) =~= old_log.push(e).subrange(n - u, n + 1));
            if u < cap {
                if n + 1 > cap {
                    assert(self.pending(i) =~= old_log.push(e).subrange(n - u, n + 1));
                } else {
                    assert(self.pending(i) =~= old_log.push(e).subrange(n - u, n + 1));
                }
            } else {
                assert(self.pending(i) =~= q.push(e).subrange(q.push(e).len() - cap, q.push(e).len() as int));
            }
        }
    }

    /// Takes the oldest unread event of subscriber `id`, if any; other
    /// subscribers are not affected.
    pub fn recv(&mut self, id: SubscriberId) -> (r: Option<&SoundTouchEvent>)
        requires
            old(self).wf(),
        ensures
            final(self).wf(),
            final(self).capacity() == old(self).capacity(),
            final(self).subscriber_count() == old(self).subscriber_count(),
            id.index >= old(self).subscriber_count() ==> r.is_none(),
            id.index < old(self).subscriber_count() ==> {
                &&& old(self).pending(id.index as int).len() == 0 ==> r.is_none()
                    && final(self).pending(id.index as int) == old(self).pending(id.index as int)
                &&& old(self).pending(id.index as int).len() > 0 ==> r == Some(&old(self).pending(id.index as int)[0])
                    && final(self).pending(id.index as int) == old(self).pending(id.index as int).drop_first()
            },
            forall|i: int| 0 <= i < old(self).subscriber_count() && i != id.index ==>
                #[trigger] final(self).pending(i) == old(self).pending(i),
    {
        if id.index >= self.unread.len() {
            return None;
        }
        let u = self.unread[id.index];
        if u == 0 {
            return None;
        }
        let n = self.log.len();
        self.unread.set(id.index, u - 1);
        assert(self.pending(id.index as int) =~= old(self).pending(id.index as int).drop_first());
        assert forall|i: int| 0 <= i < old(self).subscriber_count() && i != id.index implies
            #[trigger] self.pending(i) == old(self).pending(i) by {
            assert(self.unread@[i] == old(self).unread@[i]);
        }
        Some(&self.log[n - u])
    }
}

/// A subscriber that reads nothing after subscribing holds exactly the last
/// `cap` events published since, in the order they were published; so two
/// handles subscribed together receive the same sequence.
pub proof fn lemma_fresh_subscriber_holds_recent_events(events: Seq<SoundTouchEvent>, cap: nat)
    requires
        cap > 0,
    ensures
        publish_all(Seq::<SoundTouchEvent>::empty(), events, cap) == last_n(events, cap),
    decreases events.len(),
{
    if events.len() > 0 {
        let p = events.drop_last();
        let x = events.last();
        lemma_fresh_subscriber_holds_recent_events(p, cap);
        assert(events =~= p.push(x));
        let q = last_n(p, cap);
        if p.len() > cap {
            assert(bounded_push(q, x, cap) =~= last_n(events, cap));
        } else {
            assert(bounded_push(q, x, cap) =~= last_n(events, cap));
        }
    }
}

} // verus!
