use vstd::prelude::*;

use crate::error::Error;

verus! {

/// Readiness flags a stream may report along with its size hint.
#[derive(Debug, Clone, Copy, PartialEq, Eq, Structural)]
pub struct RwEventFlags {
    /// The peer hung up.
    pub hangup: bool,
}

impl RwEventFlags {
    pub fn empty() -> (r: RwEventFlags)
        ensures
            !r.hangup,
    {
        RwEventFlags { hangup: false }
    }

    pub fn hangup() -> (r: RwEventFlags)
        ensures
            r.hangup,
    {
        RwEventFlags { hangup: true }
    }
}

/// What a stream wait settled to: a size hint with flags, or a failure.
pub type RwOutcome = Result<(u64, RwEventFlags), Error>;

/// A wait for a stream, named by its handle in the resource table, to become
/// readable or writable. `status` is the outcome slot that the backend fills.
#[derive(Debug, Clone, Copy, PartialEq, Eq)]
pub struct RwSubscription {
    pub stream: u32,
    pub status: Option<RwOutcome>,
}

impl RwSubscription {
    pub fn new(stream: u32) -> (r: RwSubscription)
        ensures
            r.stream == stream,
            r.status is None,
    {
        RwSubscription { stream, status: None }
    }

    /// Records that the stream is ready, with a size hint and flags.
    pub fn complete(&mut self, size: u64, flags: RwEventFlags)
        ensures
            final(self).stream == old(self).stream,
            final(self).status == Some(Ok::<(u64, RwEventFlags), Error>((size, flags))),
    {
        self.status = Some(Ok((size, flags)));
    }

    /// Records that waiting on the stream failed.
    pub fn error(&mut self, error: Error)
        ensures
            final(self).stream == old(self).stream,
            final(self).status == Some(Err::<(u64, RwEventFlags), Error>(error)),
    {
        self.status = Some(Err(error));
    }

    /// The recorded outcome, if the backend set one.
    pub fn result(&self) -> (r: Option<RwOutcome>)
        ensures
            r == self.status,
    {
        self.status
    }
}

/// A wait for a monotonic clock, named by its handle, to reach `deadline`
/// (nanoseconds, in the clock's own epoch).
#[derive(Debug, Clone, Copy, PartialEq, Eq, Structural)]
pub struct MonotonicClockSubscription {
    pub clock: u32,
    pub deadline: u64,
}

impl MonotonicClockSubscription {
    /// The deadline is reached at `now` when it is not later than `now`.
    pub open spec fn reached(self, now: u64) -> bool {
        self.deadline <= now
    }

    /// Time left until the deadline, or `None` once it has passed.
    pub fn duration_until(&self, now: u64) -> (r: Option<u64>)
        ensures
            now <= self.deadline ==> r == Some((self.deadline - now) as u64),
            now > self.deadline ==> r is None,
    {
        if now <= self.deadline {
            Some(self.deadline - now)
        } else {
            None
        }
    }

    /// `Some(Ok(()))` when the deadline is reached at `now`, else `None`.
    pub fn result(&self, now: u64) -> (r: Option<Result<(), Error>>)
        ensures
            r == (if self.reached(now) {
                Some(Ok::<(), Error>(()))
            } else {
                None
            }),
    {
        if self.deadline <= now {
            Some(Ok(()))
        } else {
            None
        }
    }
}

/// One registered wait condition.
#[derive(Debug, Clone, Copy, PartialEq, Eq)]
pub enum Subscription {
    Read(RwSubscription),
    Write(RwSubscription),
    MonotonicClock(MonotonicClockSubscription),
}

/// The settled outcome of one subscription, of the same shape.
#[derive(Debug, Clone, Copy, PartialEq, Eq)]
pub enum SubscriptionResult {
    Read(RwOutcome),
    Write(RwOutcome),
    MonotonicClock(Result<(), Error>),
}

impl Subscription {
    /// Whether this waits on a stream rather than a clock.
    pub open spec fn is_rw(self) -> bool {
        !(self is MonotonicClock)
    }

    /// The outcome slot of a stream subscription; `None` for a clock one.
    pub open spec fn status_of(self) -> Option<RwOutcome> {
        match self {
            Subscription::Read(rw) => rw.status,
            Subscription::Write(rw) => rw.status,
            Subscription::MonotonicClock(_) => None,
        }
    }
}

/// The result a subscription settles to when drained at `now`, if any.
pub open spec fn result_at(s: Subscription, now: u64) -> Option<SubscriptionResult> {
    match s {
        Subscription::Read(rw) => match rw.status {
            Some(o) => Some(SubscriptionResult::Read(o)),
            None => None,
        },
        Subscription::Write(rw) => match rw.status {
            Some(o) => Some(SubscriptionResult::Write(o)),
            None => None,
        },
        Subscription::MonotonicClock(c) => if c.reached(now) {
            Some(SubscriptionResult::MonotonicClock(Ok(())))
        } else {
            None
        },
    }
}

impl SubscriptionResult {
    /// Settles `s` at `now`: a stream wait by its outcome slot, a clock wait
    /// by whether its deadline is reached.
    pub fn from_subscription(s: Subscription, now: u64) -> (r: Option<SubscriptionResult>)
        ensures
            r == result_at(s, now),
    {
        match s {
            Subscription::Read(rw) => match rw.result() {
                Some(o) => Some(SubscriptionResult::Read(o)),
                None => None,
            },
            Subscription::Write(rw) => match rw.result() {
                Some(o) => Some(SubscriptionResult::Write(o)),
                None => None,
            },
            Subscription::MonotonicClock(c) => match c.result(now) {
                Some(o) => Some(SubscriptionResult::MonotonicClock(o)),
                None => None,
            },
        }
    }
}

} // verus!
