use vstd::prelude::*;

use crate::error::Error;
use crate::subscription::{
    MonotonicClockSubscription, RwOutcome, RwSubscription, Subscription, SubscriptionResult,
    result_at,
};

verus! {

/// An opaque token supplied by the caller with each subscription and handed
/// back unchanged with its result.
#[derive(Debug, Clone, Copy, PartialEq, Eq, Structural)]
pub struct Userdata(pub u64);

impl From<u64> for Userdata {
    fn from(u: u64) -> (r: Userdata)
        ensures
            r.0 == u,
    {
        Userdata(u)
    }
}

impl vstd::std_specs::convert::FromSpecImpl<u64> for Userdata {
    open spec fn obeys_from_spec() -> bool {
        true
    }

    open spec fn from_spec(u: u64) -> Userdata {
        Userdata(u)
    }
}

impl From<Userdata> for u64 {
    fn from(u: Userdata) -> (r: u64)
        ensures
            r == u.0,
    {
        u.0
    }
}

impl vstd::std_specs::convert::FromSpecImpl<Userdata> for u64 {
    open spec fn obeys_from_spec() -> bool {
        true
    }

    open spec fn from_spec(u: Userdata) -> u64 {
        u.0
    }
}

/// The drained results of one wait, each with its token.
pub type PollResults = Vec<(SubscriptionResult, Userdata)>;

/// What draining `subs` at `now` yields: the settled subscriptions, in
/// registration order, each paired with its own token.
pub open spec fn drained(subs: Seq<(Subscription, Userdata)>, now: u64) -> Seq<
    (SubscriptionResult, Userdata),
>
    decreases subs.len(),
{
    if subs.len() == 0 {
        seq![]
    } else {
        let rest = drained(subs.drop_last(), now);
        match result_at(subs.last().0, now) {
            Some(r) => rest.push((r, subs.last().1)),
            None => rest,
        }
    }
}

/// The positions of the stream subscriptions of `subs`, in increasing order.
pub open spec fn rw_positions(subs: Seq<(Subscription, Userdata)>) -> Seq<int>
    decreases subs.len(),
{
    if subs.len() == 0 {
        seq![]
    } else {
        let rest = rw_positions(subs.drop_last());
        if subs.last().0.is_rw() {
            rest.push(subs.len() - 1)
        } else {
            rest
        }
    }
}

/// `s` with its outcome slot set to `o`; a clock subscription is unchanged.
pub open spec fn with_status(s: Subscription, o: RwOutcome) -> Subscription {
    match s {
        Subscription::Read(rw) => Subscription::Read(RwSubscription { stream: rw.stream, status: Some(o) }),
        Subscription::Write(rw) => Subscription::Write(RwSubscription { stream: rw.stream, status: Some(o) }),
        Subscription::MonotonicClock(c) => Subscription::MonotonicClock(c),
    }
}

/// The set of wait conditions of one blocking wait, in registration order.
pub struct Poll {
    subs: Vec<(Subscription, Userdata)>,
}

impl View for Poll {
    type V = Seq<(Subscription, Userdata)>;

    closed spec fn view(&self) -> Seq<(Subscription, Userdata)> {
        self.subs@
    }
}

impl Poll {
    pub fn new() -> (r: Poll)
        ensures
            r@ == Seq::<(Subscription, Userdata)>::empty(),
    {
        Poll { subs: Vec::new() }
    }

    /// Registers a wait for `clock` to reach `deadline`. Always succeeds.
    pub fn subscribe_monotonic_clock(&mut self, clock: u32, deadline: u64, ud: Userdata) -> (r:
        Result<(), Error>)
        ensures
            r is Ok,
            final(self)@ == old(self)@.push(
                (Subscription::MonotonicClock(MonotonicClockSubscription { clock, deadline }), ud),
            ),
    {
        self.subs.push(
            (Subscription::MonotonicClock(MonotonicClockSubscription { clock, deadline }), ud),
        );
        Ok(())
    }

    /// Registers a wait for `stream` to become readable.
    pub fn subscribe_read(&mut self, stream: u32, ud: Userdata)
        ensures
            final(self)@ == old(self)@.push(
                (Subscription::Read(RwSubscription { stream, status: None }), ud),
            ),
    {
        self.subs.push((Subscription::Read(RwSubscription::new(stream)), ud));
    }

    /// Registers a wait for `stream` to become writable.
    pub fn subscribe_write(&mut self, stream: u32, ud: Userdata)
        ensures
            final(self)@ == old(self)@.push(
                (Subscription::Write(RwSubscription { stream, status: None }), ud),
            ),
    {
        self.subs.push((Subscription::Write(RwSubscription::new(stream)), ud));
    }

    /// Whether no subscription was registered.
    pub fn is_empty(&self) -> (r: bool)
        ensures
            r == (self@.len() == 0),
    {
        self.subs.len() == 0
    }

    /// Consumes the set and yields, with its token, the result of every
    /// subscription that is settled at `now`: a stream wait whose outcome
    /// slot was set, a clock wait whose deadline is not later than `now`.
    pub fn results(self, now: u64) -> (r: PollResults)
        ensures
            r@ == drained(self@, now),
    {
        let mut out: PollResults = Vec::new();
        let mut i: usize = 0;
        while i < self.subs.len()
            invariant
                i <= self.subs@.len(),
                out@ == drained(self.subs@.subrange(0, i as int), now),
            decreases self.subs@.len() - i,
        {
            let (s, ud) = self.subs[i];
            proof {
                let pre = self.subs@.subrange(0, i as int + 1);
                assert(pre.drop_last() =~= self.subs@.subrange(0, i as int));
            }
            match SubscriptionResult::from_subscription(s, now) {
                Some(res) => out.push((res, ud)),
                None => {},
            }
            i = i + 1;
        }
        assert(self.subs@.subrange(0, self.subs@.len() as int) =~= self.subs@);
        out
    }

    /// The clock subscription with the smallest deadline (the first such in
    /// registration order), or `None` when there is no clock subscription.
    pub fn earliest_clock_deadline(&self) -> (r: Option<&MonotonicClockSubscription>)
        ensures
            r is None <==> (forall|i: int|
                0 <= i < self@.len() ==> !(#[trigger] self@[i].0 is MonotonicClock)),
            r matches Some(c) ==> exists|i: int|
                0 <= i < self@.len() && #[trigger] self@[i].0 == Subscription::MonotonicClock(*c)
                    && forall|j: int|
                    0 <= j < i && #[trigger] self@[j].0 is MonotonicClock
                        ==> c.deadline < self@[j].0->MonotonicClock_0.deadline,
            r matches Some(c) ==> forall|i: int|
                0 <= i < self@.len() && #[trigger] self@[i].0 is MonotonicClock
                    ==> c.deadline <= self@[i].0->MonotonicClock_0.deadline,
    {
        let mut best: Option<usize> = None;
        let mut i: usize = 0;
        while i < self.subs.len()
            invariant
                i <= self.subs@.len(),
                best is None <==> (forall|j: int|
                    0 <= j < i ==> !(#[trigger] self.subs@[j].0 is MonotonicClock)),
                best matches Some(b) ==> b < i && self.subs@[b as int].0 is MonotonicClock,
                best matches Some(b) ==> forall|j: int|
                    0 <= j < b && #[trigger] self.subs@[j].0 is MonotonicClock
                        ==> self.subs@[b as int].0->MonotonicClock_0.deadline
                            < self.subs@[j].0->MonotonicClock_0.deadline,
                best matches Some(b) ==> forall|j: int|
                    0 <= j < i && #[trigger] self.subs@[j].0 is MonotonicClock
                        ==> self.subs@[b as int].0->MonotonicClock_0.deadline
                            <= self.subs@[j].0->MonotonicClock_0.deadline,
            decreases self.subs@.len() - i,
        {
            if let Subscription::MonotonicClock(t) = &self.subs[i].0 {
                match best {
                    None => {
                        best = Some(i);
                    },
                    Some(b) => {
                        if let Subscription::MonotonicClock(c) = &self.subs[b].0 {
                            if t.deadline < c.deadline {
                                best = Some(i);
                            }
                        }
                    },
                }
            }
            i = i + 1;
        }
        match best {
            None => None,
            Some(b) => match &self.subs[b].0 {
                Subscription::MonotonicClock(c) => Some(c),
                _ => None,
            },
        }
    }

    /// The positions of the stream subscriptions, in registration order:
    /// the questions a scheduler backend answers by setting their outcome
    /// slots with `set_rw_status`.
    pub fn rw_subscriptions(&self) -> (r: Vec<usize>)
        ensures
            r@.len() == rw_positions(self@).len(),
            forall|k: int| 0 <= k < r@.len() ==> r@[k] as int == #[trigger] rw_positions(self@)[k],
    {
        let mut out: Vec<usize> = Vec::new();
        let mut i: usize = 0;
        while i < self.subs.len()
            invariant
                i <= self.subs@.len(),
                out@.len() == rw_positions(self.subs@.subrange(0, i as int)).len(),
                forall|k: int|
                    0 <= k < out@.len() ==> out@[k] as int == #[trigger] rw_positions(
                        self.subs@.subrange(0, i as int),
                    )[k],
            decreases self.subs@.len() - i,
        {
            proof {
                let pre = self.subs@.subrange(0, i as int + 1);
                assert(pre.drop_last() =~= self.subs@.subrange(0, i as int));
            }
            match &self.subs[i].0 {
                Subscription::MonotonicClock(_) => {},
                _ => out.push(i),
            }
            i = i + 1;
        }
        assert(self.subs@.subrange(0, self.subs@.len() as int) =~= self.subs@);
        out
    }

    /// How long a backend may block at `now`: the time left until the
    /// earliest clock deadline (zero once it has passed), or `None` when no
    /// clock subscription bounds the wait.
    pub fn wait_timeout(&self, now: u64) -> (r: Option<u64>)
        ensures
            r is None <==> (forall|i: int|
                0 <= i < self@.len() ==> !(#[trigger] self@[i].0 is MonotonicClock)),
            r matches Some(t) ==> exists|i: int|
                0 <= i < self@.len() && #[trigger] self@[i].0 is MonotonicClock && t == (if now
                    <= self@[i].0->MonotonicClock_0.deadline {
                    self@[i].0->MonotonicClock_0.deadline - now
                } else {
                    0
                }),
            r matches Some(t) ==> forall|i: int|
                0 <= i < self@.len() && #[trigger] self@[i].0 is MonotonicClock
                    ==> now + t <= self@[i].0->MonotonicClock_0.deadline || t == 0,
    {
        match self.earliest_clock_deadline() {
            None => None,
            Some(c) => match c.duration_until(now) {
                Some(d) => Some(d),
                None => Some(0),
            },
        }
    }

    /// Records the outcome of the stream subscription at `index`, as the
    /// scheduler backend does once it knows it.
    pub fn set_rw_status(&mut self, index: usize, outcome: RwOutcome)
        requires
            index < old(self)@.len(),
            old(self)@[index as int].0.is_rw(),
        ensures
            final(self)@ == old(self)@.update(
                index as int,
                (with_status(old(self)@[index as int].0, outcome), old(self)@[index as int].1),
            ),
    {
        let (s, ud) = self.subs[index];
        let updated = match s {
            Subscription::Read(rw) => Subscription::Read(
                RwSubscription { stream: rw.stream, status: Some(outcome) },
            ),
            Subscription::Write(rw) => Subscription::Write(
                RwSubscription { stream: rw.stream, status: Some(outcome) },
            ),
            Subscription::MonotonicClock(c) => Subscription::MonotonicClock(c),
        };
        self.subs.set(index, (updated, ud));
    }
}

/// Every position that `rw_positions` gives is in bounds and holds a stream
/// subscription, the positions increase strictly, and every stream
/// subscription's position is among them.
pub proof fn lemma_rw_positions(subs: Seq<(Subscription, Userdata)>)
    ensures
        forall|k: int|
            0 <= k < rw_positions(subs).len() ==> 0 <= #[trigger] rw_positions(subs)[k] < subs.len()
                && subs[rw_positions(subs)[k]].0.is_rw(),
        forall|k: int, l: int|
            0 <= k < l < rw_positions(subs).len() ==> #[trigger] rw_positions(subs)[k]
                < #[trigger] rw_positions(subs)[l],
        forall|i: int|
            0 <= i < subs.len() && (#[trigger] subs[i]).0.is_rw() ==> exists|k: int|
                0 <= k < rw_positions(subs).len() && #[trigger] rw_positions(subs)[k] == i,
    decreases subs.len(),
{
    if subs.len() > 0 {
        let init = subs.drop_last();
        lemma_rw_positions(init);
        assert forall|i: int| 0 <= i < subs.len() && (#[trigger] subs[i]).0.is_rw() implies exists|k: int|
            0 <= k < rw_positions(subs).len() && #[trigger] rw_positions(subs)[k] == i by {
            if i < subs.len() - 1 {
                assert(init[i] == subs[i]);
                let k = choose|k: int| 0 <= k < rw_positions(init).len() && #[trigger] rw_positions(init)[k] == i;
                assert(rw_positions(subs)[k] == i);
            } else {
                assert(rw_positions(subs)[rw_positions(subs).len() - 1] == i);
            }
        }
    }
}

/// An empty set of subscriptions drains to nothing, at any time.
pub proof fn lemma_empty_drains_nothing(p: Poll, now: u64)
    requires
        p@.len() == 0,
    ensures
        drained(p@, now) == Seq::<(SubscriptionResult, Userdata)>::empty(),
{
}

/// When no clock deadline is reached and every stream subscription has its
/// outcome set, draining yields exactly one result per stream subscription,
/// in registration order, each with that subscription's token and its
/// outcome, and no clock result.
pub proof fn lemma_drain_resolved_streams(subs: Seq<(Subscription, Userdata)>, now: u64)
    requires
        forall|i: int|
            0 <= i < subs.len() && (#[trigger] subs[i]).0 is MonotonicClock
                ==> !subs[i].0->MonotonicClock_0.reached(now),
        forall|i: int| 0 <= i < subs.len() && (#[trigger] subs[i]).0.is_rw() ==> subs[i].0.status_of() is Some,
    ensures
        drained(subs, now).len() == rw_positions(subs).len(),
        forall|k: int|
            0 <= k < drained(subs, now).len() ==> {
                let i = rw_positions(subs)[k];
                &&& (#[trigger] drained(subs, now)[k]).1 == subs[i].1
                &&& result_at(subs[i].0, now) == Some(drained(subs, now)[k].0)
                &&& !(drained(subs, now)[k].0 is MonotonicClock)
            },
    decreases subs.len(),
{
    if subs.len() > 0 {
        let init = subs.drop_last();
        assert forall|i: int| 0 <= i < init.len() && (#[trigger] init[i]).0 is MonotonicClock
            implies !init[i].0->MonotonicClock_0.reached(now) by {
            assert(init[i] == subs[i]);
        }
        assert forall|i: int| 0 <= i < init.len() && (#[trigger] init[i]).0.is_rw()
            implies init[i].0.status_of() is Some by {
            assert(init[i] == subs[i]);
        }
        lemma_drain_resolved_streams(init, now);
        lemma_rw_positions(init);
        let last = subs.len() - 1;
        assert(subs.last() == subs[last]);
    }
}

/// Two calls of `rw_subscriptions` with no change to the set in between give
/// the same positions, each naming a stream subscription of the set.
pub proof fn lemma_rw_subscriptions_idempotent(p: Poll, a: Seq<usize>, b: Seq<usize>)
    requires
        a.len() == rw_positions(p@).len(),
        forall|k: int| 0 <= k < a.len() ==> a[k] as int == #[trigger] rw_positions(p@)[k],
        b.len() == rw_positions(p@).len(),
        forall|k: int| 0 <= k < b.len() ==> b[k] as int == #[trigger] rw_positions(p@)[k],
    ensures
        a == b,
        forall|k: int| 0 <= k < a.len() ==> (#[trigger] a[k]) < p@.len() && p@[a[k] as int].0.is_rw(),
{
    lemma_rw_positions(p@);
    assert forall|k: int| 0 <= k < a.len() implies (#[trigger] a[k]) < p@.len() && p@[a[k] as int].0.is_rw() by {
        assert(a[k] as int == rw_positions(p@)[k]);
    }
    assert forall|k: int| 0 <= k < a.len() implies a[k] == b[k] by {
        assert(a[k] as int == rw_positions(p@)[k]);
        assert(b[k] as int == rw_positions(p@)[k]);
    }
    assert(a =~= b);
}

/// Each drained pair is the result of a subscription that is settled at
/// `now`, with that subscription's token; and each settled subscription
/// yields its result with its token.
pub proof fn lemma_drained_members(subs: Seq<(Subscription, Userdata)>, now: u64)
    ensures
        forall|k: int|
            0 <= k < drained(subs, now).len() ==> exists|j: int|
                0 <= j < subs.len() && (#[trigger] subs[j]).1 == (#[trigger] drained(subs, now)[k]).1
                    && result_at(subs[j].0, now) == Some(drained(subs, now)[k].0),
        forall|j: int|
            0 <= j < subs.len() && (#[trigger] result_at(subs[j].0, now)) is Some ==> exists|k: int|
                0 <= k < drained(subs, now).len() && #[trigger] drained(subs, now)[k] == (
                    result_at(subs[j].0, now)->Some_0,
                    subs[j].1,
                ),
    decreases subs.len(),
{
    if subs.len() > 0 {
        let init = subs.drop_last();
        let last = subs.len() - 1;
        lemma_drained_members(init, now);
        let d = drained(subs, now);
        let di = drained(init, now);
        assert(subs.last() == subs[last]);
        assert forall|k: int| 0 <= k < d.len() implies exists|j: int|
            0 <= j < subs.len() && (#[trigger] subs[j]).1 == (#[trigger] d[k]).1
                && result_at(subs[j].0, now) == Some(d[k].0) by {
            if k < di.len() {
                assert(d[k] == di[k]);
                let j = choose|j: int|
                    0 <= j < init.len() && (#[trigger] init[j]).1 == (#[trigger] di[k]).1
                        && result_at(init[j].0, now) == Some(di[k].0);
                assert(init[j] == subs[j]);
            } else {
                assert(subs[last].1 == d[k].1);
            }
        }
        assert forall|j: int| 0 <= j < subs.len() && (#[trigger] result_at(subs[j].0, now)) is Some
            implies exists|k: int|
            0 <= k < d.len() && #[trigger] d[k] == (result_at(subs[j].0, now)->Some_0, subs[j].1) by {
            if j < last {
                assert(init[j] == subs[j]);
                let k = choose|k: int|
                    0 <= k < di.len() && #[trigger] di[k] == (result_at(init[j].0, now)->Some_0, init[j].1);
                assert(d[k] == di[k]);
            } else {
                assert(d[d.len() - 1] == (result_at(subs[j].0, now)->Some_0, subs[j].1));
            }
        }
    }
}

/// A subscription that is not settled at `now` (a stream whose outcome was
/// never set, a clock whose deadline is later) yields nothing: when its token
/// is not shared, no drained pair carries that token.
pub proof fn lemma_unsettled_yields_nothing(subs: Seq<(Subscription, Userdata)>, now: u64, i: int)
    requires
        0 <= i < subs.len(),
        result_at(subs[i].0, now) is None,
        forall|j: int| 0 <= j < subs.len() && j != i ==> (#[trigger] subs[j]).1 != subs[i].1,
    ensures
        forall|k: int| 0 <= k < drained(subs, now).len() ==> (#[trigger] drained(subs, now)[k]).1 != subs[i].1,
{
    lemma_drained_members(subs, now);
    assert forall|k: int| 0 <= k < drained(subs, now).len() implies (#[trigger] drained(subs, now)[k]).1 != subs[i].1 by {
        let j = choose|j: int|
            0 <= j < subs.len() && (#[trigger] subs[j]).1 == (#[trigger] drained(subs, now)[k]).1
                && result_at(subs[j].0, now) == Some(drained(subs, now)[k].0);
        assert(j != i);
    }
}

} // verus!
