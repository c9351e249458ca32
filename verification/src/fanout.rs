//! Fan-out of stream messages with bounded backlog.
//!
//! Stream (telemetry) messages are delivered to any number of subscribers.
//! Each subscriber owns a backlog of fixed capacity; publishing appends to
//! every live backlog and, when one is full, drops its oldest undelivered
//! item instead of blocking. A slow subscriber therefore observes gaps —
//! counted for it — rather than stalling the router, and publishing is a
//! total operation that never waits on a consumer.
use vstd::prelude::*;

verus! {

/// `x + 1`, stopping at the largest counter value.
pub open spec fn spec_saturating_inc(x: u64) -> u64 {
    if x == u64::MAX {
        u64::MAX
    } else {
        (x + 1) as u64
    }
}

/// A bounded queue of undelivered items that drops its oldest item when
/// full rather than refusing or waiting.
pub struct Backlog<T> {
    items: Vec<T>,
    capacity: usize,
    dropped: u64,
}

impl<T> View for Backlog<T> {
    type V = Seq<T>;

    closed spec fn view(&self) -> Seq<T> {
        self.items@
    }
}

/// How one `push` changes a backlog: appended when there is room, the
/// oldest item dropped (and counted) when there is none.
pub open spec fn spec_pushed<T>(b0: Backlog<T>, b1: Backlog<T>, v: T) -> bool {
    &&& b1.cap() == b0.cap()
    &&& if b0@.len() < b0.cap() {
        b1@ == b0@.push(v) && b1.drop_count() == b0.drop_count()
    } else {
        b1@ == b0@.skip(1).push(v) && b1.drop_count() == spec_saturating_inc(b0.drop_count())
    }
}

impl<T> Backlog<T> {
    /// Fixed capacity chosen at construction.
    pub closed spec fn cap(self) -> usize {
        self.capacity
    }

    /// How many undelivered items have been dropped so far.
    pub closed spec fn drop_count(self) -> u64 {
        self.dropped
    }

    /// The backlog never outgrows its capacity.
    pub open spec fn wf(self) -> bool {
        self@.len() <= self.cap() && self.cap() >= 1
    }

    /// An empty backlog of the given capacity.
    pub fn new(capacity: usize) -> (r: Self)
        requires
            capacity >= 1,
        ensures
            r@ == Seq::<T>::empty(),
            r.cap() == capacity,
            r.drop_count() == 0,
            r.wf(),
    {
        Backlog { items: Vec::with_capacity(capacity), capacity, dropped: 0 }
    }

    /// Append one item, dropping the oldest undelivered item when full.
    /// Never fails and never waits.
    pub fn push(&mut self, v: T)
        requires
            old(self).wf(),
        ensures
            final(self).wf(),
            spec_pushed(*old(self), *final(self), v),
    {
        if self.items.len() == self.capacity {
            let _oldest = self.items.remove(0);
            if self.dropped < u64::MAX {
                self.dropped = self.dropped + 1;
            }
            proof {
                assert(self.items@ =~= old(self)@.skip(1));
            }
        }
        self.items.push(v);
    }

    /// Take the oldest undelivered item, if any.
    pub fn pop(&mut self) -> (r: Option<T>)
        requires
            old(self).wf(),
        ensures
            final(self).wf(),
            final(self).cap() == old(self).cap(),
            final(self).drop_count() == old(self).drop_count(),
            match r {
                Some(v) => old(self)@.len() > 0 && v == old(self)@[0] && final(self)@ == old(
                    self,
                )@.skip(1),
                None => old(self)@.len() == 0 && final(self)@ == old(self)@,
            },
    {
        if self.items.len() > 0 {
            let v = self.items.remove(0);
            proof {
                assert(self.items@ =~= old(self)@.skip(1));
            }
            Some(v)
        } else {
            None
        }
    }

    /// Number of undelivered items.
    pub fn len(&self) -> (n: usize)
        ensures
            n == self@.len(),
    {
        self.items.len()
    }

    /// How many undelivered items have been dropped so far.
    pub fn lagged(&self) -> (n: u64)
        ensures
            n == self.drop_count(),
    {
        self.dropped
    }
}

/// A group of subscriptions over one stream of published items.
///
/// Subscribers are addressed by the token returned at subscription;
/// unsubscribing frees the slot without renumbering the others.
pub struct FanOut<T> {
    subscribers: Vec<Option<Backlog<T>>>,
    capacity: usize,
}

impl<T> View for FanOut<T> {
    type V = Seq<Option<Backlog<T>>>;

    closed spec fn view(&self) -> Seq<Option<Backlog<T>>> {
        self.subscribers@
    }
}

impl<T> FanOut<T> {
    /// Backlog capacity shared by every subscription of the group.
    pub closed spec fn cap(self) -> usize {
        self.capacity
    }

    /// Every live backlog is well-formed with the group's capacity.
    pub open spec fn wf(self) -> bool {
        &&& self.cap() >= 1
        &&& forall|j: int|
            0 <= j < self@.len() ==> match #[trigger] self@[j] {
                Some(b) => b.wf() && b.cap() == self.cap(),
                None => true,
            }
    }

    /// A group with no subscribers whose backlogs will hold `capacity`
    /// items each.
    pub fn new(capacity: usize) -> (r: Self)
        requires
            capacity >= 1,
        ensures
            r@ == Seq::<Option<Backlog<T>>>::empty(),
            r.cap() == capacity,
            r.wf(),
    {
        FanOut { subscribers: Vec::new(), capacity }
    }

    /// Add a subscriber with an empty backlog; its token addresses it from
    /// now on.
    pub fn subscribe(&mut self) -> (token: usize)
        requires
            old(self).wf(),
        ensures
            final(self).wf(),
            final(self).cap() == old(self).cap(),
            token == old(self)@.len(),
            final(self)@.len() == old(self)@.len() + 1,
            forall|j: int| 0 <= j < old(self)@.len() ==> final(self)@[j] == old(self)@[j],
            match final(self)@[token as int] {
                Some(b) => b@ == Seq::<T>::empty() && b.drop_count() == 0 && b.cap() == old(
                    self,
                ).cap(),
                None => false,
            },
    {
        let token = self.subscribers.len();
        let backlog = Backlog::new(self.capacity);
        self.subscribers.push(Some(backlog));
        token
    }

    /// Drop a subscription, ending delivery to it.
    pub fn unsubscribe(&mut self, token: usize)
        requires
            old(self).wf(),
            token < old(self)@.len(),
        ensures
            final(self).wf(),
            final(self).cap() == old(self).cap(),
            final(self)@ == old(self)@.update(token as int, None::<Backlog<T>>),
    {
        let _entry = self.subscribers.remove(token);
        self.subscribers.insert(token, None);
        proof {
            assert(self.subscribers@ =~= old(self)@.update(token as int, None::<Backlog<T>>));
        }
    }

    /// Deliver one item to every live subscriber's backlog.
    ///
    /// Publishing is total: every live subscriber receives the item (a full
    /// backlog drops its oldest item first), no subscriber is skipped, and
    /// the call never waits on any consumer.
    pub fn publish(&mut self, v: T) where T: Copy
        requires
            old(self).wf(),
        ensures
            final(self).wf(),
            final(self).cap() == old(self).cap(),
            final(self)@.len() == old(self)@.len(),
            forall|j: int|
                0 <= j < old(self)@.len() ==> match #[trigger] old(self)@[j] {
                    Some(b0) => match final(self)@[j] {
                        Some(b1) => spec_pushed(b0, b1, v),
                        None => false,
                    },
                    None => final(self)@[j] is None,
                },
    {
        let n = self.subscribers.len();
        let mut j: usize = 0;
        while j < n
            invariant
                j <= n,
                n == self.subscribers@.len(),
                self.cap() == old(self).cap(),
                self.cap() >= 1,
                forall|k: int| j <= k < n ==> self.subscribers@[k] == old(self)@[k],
                forall|k: int|
                    0 <= k < j ==> match #[trigger] old(self)@[k] {
                        Some(b0) => match self.subscribers@[k] {
                            Some(b1) => spec_pushed(b0, b1, v) && b1.wf() && b1.cap()
                                == self.cap(),
                            None => false,
                        },
                        None => self.subscribers@[k] is None,
                    },
                forall|k: int|
                    0 <= k < n ==> match #[trigger] old(self)@[k] {
                        Some(b) => b.wf() && b.cap() == self.cap(),
                        None => true,
                    },
            decreases n - j,
        {
            let ghost before = self.subscribers@;
            let entry = self.subscribers.remove(j);
            proof {
                assert(entry == old(self)@[j as int]);
            }
            match entry {
                Some(mut b) => {
                    proof {
                        assert(match old(self)@[j as int] {
                            Some(b0) => b0.wf() && b0.cap() == self.cap(),
                            None => true,
                        });
                    }
                    b.push(v);
                    self.subscribers.insert(j, Some(b));
                },
                None => {
                    self.subscribers.insert(j, None);
                },
            }
            proof {
                assert(self.subscribers@ =~= before.update(
                    j as int,
                    self.subscribers@[j as int],
                ));
            }
            j = j + 1;
        }
        proof {
            assert forall|k: int| 0 <= k < self.subscribers@.len() implies match #[trigger] self
                .subscribers@[k] {
                Some(b) => b.wf() && b.cap() == self.cap(),
                None => true,
            } by {
                match old(self)@[k] {
                    Some(b0) => {},
                    None => {},
                }
            }
        }
    }

    /// Take the oldest undelivered item of one subscriber, if any.
    pub fn take_next(&mut self, token: usize) -> (r: Option<T>)
        requires
            old(self).wf(),
            token < old(self)@.len(),
        ensures
            final(self).wf(),
            final(self).cap() == old(self).cap(),
            final(self)@.len() == old(self)@.len(),
            forall|j: int|
                0 <= j < old(self)@.len() && j != token ==> final(self)@[j] == old(self)@[j],
            match old(self)@[token as int] {
                Some(b0) => match final(self)@[token as int] {
                    Some(b1) => {
                        &&& b1.cap() == b0.cap()
                        &&& b1.drop_count() == b0.drop_count()
                        &&& match r {
                            Some(v) => b0@.len() > 0 && v == b0@[0] && b1@ == b0@.skip(1),
                            None => b0@.len() == 0 && b1@ == b0@,
                        }
                    },
                    None => false,
                },
                None => r is None && final(self)@[token as int] is None,
            },
    {
        let ghost before = self.subscribers@;
        let entry = self.subscribers.remove(token);
        proof {
            assert(entry == old(self)@[token as int]);
        }
        let result = match entry {
            Some(mut b) => {
                proof {
                    assert(match old(self)@[token as int] {
                        Some(b0) => b0.wf() && b0.cap() == self.cap(),
                        None => true,
                    });
                }
                let r = b.pop();
                self.subscribers.insert(token, Some(b));
                r
            },
            None => {
                self.subscribers.insert(token, None);
                None
            },
        };
        proof {
            assert(self.subscribers@ =~= before.update(
                token as int,
                self.subscribers@[token as int],
            ));
        }
        result
    }

    /// How many undelivered items the subscriber under `token` has lost to
    /// drop-oldest overflow.
    pub fn lagged(&self, token: usize) -> (n: u64)
        requires
            token < self@.len(),
        ensures
            match self@[token as int] {
                Some(b) => n == b.drop_count(),
                None => n == 0,
            },
    {
        match &self.subscribers[token] {
            Some(b) => b.lagged(),
            None => 0,
        }
    }
}

} // verus!