use vstd::prelude::*;

use crate::error::Error;

verus! {

/// Nanoseconds in one second.
pub const NANOS_PER_SEC: u64 = 1_000_000_000;

/// A wall-clock time or duration: whole seconds and the nanoseconds past them.
#[derive(Debug, Clone, Copy, PartialEq, Eq, Structural)]
pub struct Datetime {
    pub seconds: u64,
    pub nanoseconds: u32,
}

impl Datetime {
    /// The total number of nanoseconds this value stands for.
    pub open spec fn total_nanos(self) -> int {
        self.seconds * 1_000_000_000 + self.nanoseconds
    }

    /// The total number of nanoseconds, which always fits in a `u128`.
    pub fn as_nanos(&self) -> (r: u128)
        ensures
            r == self.total_nanos(),
    {
        let s = self.seconds as u128;
        assert(s * 1_000_000_000 <= 0xffff_ffff_ffff_ffffu128 * 1_000_000_000) by (nonlinear_arith)
            requires
                s <= 0xffff_ffff_ffff_ffffu128,
        ;
        s * 1_000_000_000 + self.nanoseconds as u128
    }

    /// Whether the whole seconds of this value fit in 64 bits once the
    /// nanoseconds are carried into them.
    pub open spec fn representable(self) -> bool {
        self.total_nanos() / 1_000_000_000 <= u64::MAX
    }

    /// Tells whether the value is representable.
    pub fn is_representable(&self) -> (r: bool)
        ensures
            r == self.representable(),
    {
        let s = self.seconds as u128;
        let n = self.nanoseconds as u128;
        assert((s * 1_000_000_000 + n) / 1_000_000_000 == s + n / 1_000_000_000) by (nonlinear_arith)
            requires
                s >= 0,
                n >= 0,
        ;
        s + n / 1_000_000_000 <= u64::MAX as u128
    }
}

/// A count of nanoseconds as a 64-bit instant; it fails with
/// `TimeConversionOverflow` when the count does not fit.
pub fn instant_from_nanos(nanos: u128) -> (r: Result<u64, Error>)
    ensures
        nanos <= u64::MAX ==> r == Ok::<u64, Error>(nanos as u64),
        nanos > u64::MAX ==> r == Err::<u64, Error>(Error::TimeConversionOverflow),
{
    if nanos <= u64::MAX as u128 {
        Ok(nanos as u64)
    } else {
        Err(Error::TimeConversionOverflow)
    }
}

/// A count of nanoseconds split into seconds and the nanoseconds past them;
/// it fails with `TimeConversionOverflow` when the seconds do not fit in 64
/// bits.
pub fn datetime_from_nanos(nanos: u128) -> (r: Result<Datetime, Error>)
    ensures
        nanos / 1_000_000_000 <= u64::MAX ==> r == Ok::<Datetime, Error>(
            Datetime {
                seconds: (nanos / 1_000_000_000) as u64,
                nanoseconds: (nanos % 1_000_000_000) as u32,
            },
        ),
        nanos / 1_000_000_000 > u64::MAX ==> r == Err::<Datetime, Error>(
            Error::TimeConversionOverflow,
        ),
        r matches Ok(d) ==> d.total_nanos() == nanos && d.nanoseconds < 1_000_000_000,
{
    let secs = nanos / (NANOS_PER_SEC as u128);
    let sub = nanos % (NANOS_PER_SEC as u128);
    if secs <= u64::MAX as u128 {
        Ok(Datetime { seconds: secs as u64, nanoseconds: sub as u32 })
    } else {
        Err(Error::TimeConversionOverflow)
    }
}

/// The elapsed time from `from` to `to`; none when `to` is earlier, since a
/// clock reading never goes back.
pub open spec fn elapsed(from: int, to: int) -> int {
    if from <= to {
        to - from
    } else {
        0
    }
}

/// A timer on a monotonic clock: it read `initial` at clock instant
/// `created` and advances with the clock.
#[derive(Debug, Clone, Copy, PartialEq, Eq, Structural)]
pub struct MonotonicTimer {
    pub created: u64,
    pub initial: u64,
}

impl MonotonicTimer {
    /// What the timer reads at clock instant `now`.
    pub open spec fn reading(self, now: u64) -> int {
        self.initial + elapsed(self.created as int, now as int)
    }

    /// The reading at `now`; `TimeConversionOverflow` when it does not fit in
    /// 64 bits.
    pub fn current(&self, now: u64) -> (r: Result<u64, Error>)
        ensures
            self.reading(now) <= u64::MAX ==> r == Ok::<u64, Error>(self.reading(now) as u64),
            self.reading(now) > u64::MAX ==> r == Err::<u64, Error>(Error::TimeConversionOverflow),
    {
        let passed: u64 = if self.created <= now {
            now - self.created
        } else {
            0
        };
        match self.initial.checked_add(passed) {
            Some(v) => Ok(v),
            None => Err(Error::TimeConversionOverflow),
        }
    }
}

/// A timer on the wall clock: it read `initial` when the wall clock read
/// `created` and advances with the wall clock.
#[derive(Debug, Clone, Copy, PartialEq, Eq, Structural)]
pub struct WallTimer {
    pub created: Datetime,
    pub initial: Datetime,
}

impl WallTimer {
    /// What the timer reads, in nanoseconds, when the wall clock reads `now`.
    pub open spec fn reading(self, now: Datetime) -> int {
        self.initial.total_nanos() + elapsed(self.created.total_nanos(), now.total_nanos())
    }

    /// The reading when the wall clock reads `now`; `TimeConversionOverflow`
    /// when its seconds do not fit in 64 bits.
    pub fn current(&self, now: Datetime) -> (r: Result<Datetime, Error>)
        ensures
            self.reading(now) / 1_000_000_000 <= u64::MAX ==> (r matches Ok(d)
                && d.total_nanos() == self.reading(now) && d.nanoseconds < 1_000_000_000),
            self.reading(now) / 1_000_000_000 > u64::MAX ==> r == Err::<Datetime, Error>(
                Error::TimeConversionOverflow,
            ),
    {
        let created = self.created.as_nanos();
        let at = now.as_nanos();
        let passed: u128 = if created <= at {
            at - created
        } else {
            0
        };
        datetime_from_nanos(self.initial.as_nanos() + passed)
    }
}

/// A live entry of the timer table.
#[derive(Debug, Clone, Copy, PartialEq, Eq, Structural)]
pub enum Timer {
    Monotonic(MonotonicTimer),
    Wall(WallTimer),
}

/// Timers named by handles. A handle is the position of its entry; deleted
/// entries stay empty, so a handle is never handed out twice.
pub struct TimerTable {
    entries: Vec<Option<Timer>>,
}

impl View for TimerTable {
    type V = Seq<Option<Timer>>;

    closed spec fn view(&self) -> Seq<Option<Timer>> {
        self.entries@
    }
}

impl TimerTable {
    /// Whether `h` names a live entry of `entries`.
    pub open spec fn live(entries: Seq<Option<Timer>>, h: u32) -> bool {
        h < entries.len() && entries[h as int] is Some
    }

    pub fn new() -> (r: TimerTable)
        ensures
            r@ == Seq::<Option<Timer>>::empty(),
    {
        TimerTable { entries: Vec::new() }
    }

    /// Adds `t` under a fresh handle; `TableFull` once every 32-bit handle
    /// has been handed out.
    pub fn push(&mut self, t: Timer) -> (r: Result<u32, Error>)
        ensures
            old(self)@.len() < u32::MAX ==> r == Ok::<u32, Error>(old(self)@.len() as u32)
                && final(self)@ == old(self)@.push(Some(t)),
            old(self)@.len() >= u32::MAX ==> r == Err::<u32, Error>(Error::TableFull)
                && final(self)@ == old(self)@,
    {
        if self.entries.len() < u32::MAX as usize {
            let h = self.entries.len() as u32;
            self.entries.push(Some(t));
            Ok(h)
        } else {
            Err(Error::TableFull)
        }
    }

    /// The entry under `h`; `InvalidHandle` when there is none.
    pub fn get(&self, h: u32) -> (r: Result<Timer, Error>)
        ensures
            Self::live(self@, h) ==> r == Ok::<Timer, Error>(self@[h as int]->Some_0),
            !Self::live(self@, h) ==> r == Err::<Timer, Error>(Error::InvalidHandle),
    {
        if (h as usize) < self.entries.len() {
            match self.entries[h as usize] {
                Some(t) => Ok(t),
                None => Err(Error::InvalidHandle),
            }
        } else {
            Err(Error::InvalidHandle)
        }
    }

    /// Removes the entry under `h`; `InvalidHandle`, with nothing changed,
    /// when there is none, as on a second delete of one handle.
    pub fn delete(&mut self, h: u32) -> (r: Result<(), Error>)
        ensures
            Self::live(old(self)@, h) ==> r is Ok && final(self)@ == old(self)@.update(h as int, None),
            !Self::live(old(self)@, h) ==> r == Err::<(), Error>(Error::InvalidHandle)
                && final(self)@ == old(self)@,
    {
        if (h as usize) < self.entries.len() {
            match self.entries[h as usize] {
                Some(_) => {
                    self.entries.set(h as usize, None);
                    Ok(())
                },
                None => Err(Error::InvalidHandle),
            }
        } else {
            Err(Error::InvalidHandle)
        }
    }
}

/// The clock layer's state: the timers that guests created, under their
/// handles. Clock readings come in as plain values from the host.
pub struct ClockContext {
    timers: TimerTable,
}

impl View for ClockContext {
    type V = Seq<Option<Timer>>;

    closed spec fn view(&self) -> Seq<Option<Timer>> {
        self.timers@
    }
}

/// Whether `h` names a live monotonic timer of `entries`.
pub open spec fn live_monotonic(entries: Seq<Option<Timer>>, h: u32) -> bool {
    TimerTable::live(entries, h) && entries[h as int]->Some_0 is Monotonic
}

/// Whether `h` names a live wall-clock timer of `entries`.
pub open spec fn live_wall(entries: Seq<Option<Timer>>, h: u32) -> bool {
    TimerTable::live(entries, h) && entries[h as int]->Some_0 is Wall
}

impl ClockContext {
    pub fn new() -> (r: ClockContext)
        ensures
            r@ == Seq::<Option<Timer>>::empty(),
    {
        ClockContext { timers: TimerTable::new() }
    }

    /// Wall-clock deadline subscriptions have no resolution strategy: they
    /// are refused with `UnimplementedSubscription`.
    pub fn subscribe_wall_clock(&self, when: Datetime, absolute: bool) -> (r: Result<u32, Error>)
        ensures
            r == Err::<u32, Error>(Error::UnimplementedSubscription),
    {
        Err(Error::UnimplementedSubscription)
    }

    /// Clock subscriptions outside a `Poll` have no resolution strategy: they
    /// are refused with `UnimplementedSubscription`.
    pub fn subscribe_monotonic_clock(&self, when: u64, absolute: bool) -> (r: Result<u32, Error>)
        ensures
            r == Err::<u32, Error>(Error::UnimplementedSubscription),
    {
        Err(Error::UnimplementedSubscription)
    }

    /// Creates a monotonic timer that reads `initial` now, when the clock
    /// reads `now`, and returns its handle.
    pub fn monotonic_clock_new_timer(&mut self, now: u64, initial: u64) -> (r: Result<u32, Error>)
        ensures
            old(self)@.len() < u32::MAX ==> r == Ok::<u32, Error>(old(self)@.len() as u32)
                && final(self)@ == old(self)@.push(
                Some(Timer::Monotonic(MonotonicTimer { created: now, initial })),
            ),
            old(self)@.len() >= u32::MAX ==> r == Err::<u32, Error>(Error::TableFull)
                && final(self)@ == old(self)@,
    {
        self.timers.push(Timer::Monotonic(MonotonicTimer { created: now, initial }))
    }

    /// Creates a wall-clock timer that reads `initial` now, when the wall
    /// clock reads `now`, and returns its handle; `TimeConversionOverflow`,
    /// with nothing changed, when either time has more whole seconds than
    /// 64 bits hold.
    pub fn wall_clock_new_timer(&mut self, now: Datetime, initial: Datetime) -> (r: Result<
        u32,
        Error,
    >)
        ensures
            !(now.representable() && initial.representable()) ==> r == Err::<u32, Error>(
                Error::TimeConversionOverflow,
            ) && final(self)@ == old(self)@,
            now.representable() && initial.representable() && old(self)@.len() < u32::MAX ==> r
                == Ok::<u32, Error>(old(self)@.len() as u32) && final(self)@ == old(self)@.push(
                Some(Timer::Wall(WallTimer { created: now, initial })),
            ),
            now.representable() && initial.representable() && old(self)@.len() >= u32::MAX ==> r
                == Err::<u32, Error>(Error::TableFull) && final(self)@ == old(self)@,
    {
        if !now.is_representable() || !initial.is_representable() {
            return Err(Error::TimeConversionOverflow);
        }
        self.timers.push(Timer::Wall(WallTimer { created: now, initial }))
    }

    /// The reading of the monotonic timer `h` when its clock reads `now`;
    /// `InvalidHandle` when `h` names no live monotonic timer.
    pub fn monotonic_timer_current(&self, h: u32, now: u64) -> (r: Result<u64, Error>)
        ensures
            !live_monotonic(self@, h) ==> r == Err::<u64, Error>(Error::InvalidHandle),
            live_monotonic(self@, h) ==> {
                let t = self@[h as int]->Some_0->Monotonic_0;
                &&& t.reading(now) <= u64::MAX ==> r == Ok::<u64, Error>(t.reading(now) as u64)
                &&& t.reading(now) > u64::MAX ==> r == Err::<u64, Error>(Error::TimeConversionOverflow)
            },
    {
        match self.timers.get(h) {
            Ok(Timer::Monotonic(t)) => t.current(now),
            _ => Err(Error::InvalidHandle),
        }
    }

    /// The reading of the wall-clock timer `h` when the wall clock reads
    /// `now`; `InvalidHandle` when `h` names no live wall-clock timer.
    pub fn wall_timer_current(&self, h: u32, now: Datetime) -> (r: Result<Datetime, Error>)
        ensures
            !live_wall(self@, h) ==> r == Err::<Datetime, Error>(Error::InvalidHandle),
            live_wall(self@, h) ==> {
                let t = self@[h as int]->Some_0->Wall_0;
                &&& t.reading(now) / 1_000_000_000 <= u64::MAX ==> (r matches Ok(d)
                    && d.total_nanos() == t.reading(now) && d.nanoseconds < 1_000_000_000)
                &&& t.reading(now) / 1_000_000_000 > u64::MAX ==> r == Err::<Datetime, Error>(
                    Error::TimeConversionOverflow,
                )
            },
    {
        match self.timers.get(h) {
            Ok(Timer::Wall(t)) => t.current(now),
            _ => Err(Error::InvalidHandle),
        }
    }

    /// Deletes the monotonic timer `h`; `InvalidHandle`, with nothing
    /// changed, when `h` names no live monotonic timer (as on a second drop).
    pub fn drop_monotonic_timer(&mut self, h: u32) -> (r: Result<(), Error>)
        ensures
            live_monotonic(old(self)@, h) ==> r is Ok && final(self)@ == old(self)@.update(
                h as int,
                None,
            ),
            !live_monotonic(old(self)@, h) ==> r == Err::<(), Error>(Error::InvalidHandle)
                && final(self)@ == old(self)@,
    {
        match self.timers.get(h) {
            Ok(Timer::Monotonic(_)) => self.timers.delete(h),
            _ => Err(Error::InvalidHandle),
        }
    }

    /// Deletes the wall-clock timer `h`; `InvalidHandle`, with nothing
    /// changed, when `h` names no live wall-clock timer (as on a second drop).
    pub fn drop_wall_timer(&mut self, h: u32) -> (r: Result<(), Error>)
        ensures
            live_wall(old(self)@, h) ==> r is Ok && final(self)@ == old(self)@.update(h as int, None),
            !live_wall(old(self)@, h) ==> r == Err::<(), Error>(Error::InvalidHandle)
                && final(self)@ == old(self)@,
    {
        match self.timers.get(h) {
            Ok(Timer::Wall(_)) => self.timers.delete(h),
            _ => Err(Error::InvalidHandle),
        }
    }
}

} // verus!
