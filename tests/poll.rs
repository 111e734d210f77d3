use wasi_poll::error::Error;
use wasi_poll::sched::{Poll, Userdata};
use wasi_poll::subscription::{
    MonotonicClockSubscription, RwEventFlags, RwSubscription, Subscription, SubscriptionResult,
};

#[test]
fn empty_poll_is_empty_and_drains_nothing() {
    let p = Poll::new();
    assert!(p.is_empty());
    assert_eq!(p.earliest_clock_deadline(), None);
    assert_eq!(p.wait_timeout(0), None);
    assert!(p.rw_subscriptions().is_empty());
    assert!(p.results(12345).is_empty());
}

#[test]
fn registering_makes_poll_non_empty() {
    let mut p = Poll::new();
    p.subscribe_read(3, Userdata::from(1));
    assert!(!p.is_empty());
}

#[test]
fn earliest_deadline_is_the_minimum() {
    let mut p = Poll::new();
    assert_eq!(p.subscribe_monotonic_clock(0, 300, Userdata::from(1)), Ok(()));
    p.subscribe_read(7, Userdata::from(2));
    assert_eq!(p.subscribe_monotonic_clock(1, 100, Userdata::from(3)), Ok(()));
    assert_eq!(p.subscribe_monotonic_clock(2, 200, Userdata::from(4)), Ok(()));
    let c = p.earliest_clock_deadline().unwrap();
    assert_eq!(*c, MonotonicClockSubscription { clock: 1, deadline: 100 });
}

#[test]
fn earliest_deadline_with_a_tie_returns_the_first() {
    let mut p = Poll::new();
    p.subscribe_monotonic_clock(5, 50, Userdata::from(1)).unwrap();
    p.subscribe_monotonic_clock(6, 50, Userdata::from(2)).unwrap();
    p.subscribe_monotonic_clock(7, 90, Userdata::from(3)).unwrap();
    let c = p.earliest_clock_deadline().unwrap();
    assert_eq!(c.deadline, 50);
    assert_eq!(c.clock, 5);
}

#[test]
fn no_clock_subscription_means_no_deadline() {
    let mut p = Poll::new();
    p.subscribe_read(1, Userdata::from(1));
    p.subscribe_write(2, Userdata::from(2));
    assert_eq!(p.earliest_clock_deadline(), None);
    assert_eq!(p.wait_timeout(10), None);
}

#[test]
fn resolved_streams_round_trip_their_tokens() {
    let mut p = Poll::new();
    for k in 0..3u64 {
        p.subscribe_monotonic_clock(0, 1_000 + k, Userdata::from(100 + k)).unwrap();
        if k % 2 == 0 {
            p.subscribe_read(k as u32, Userdata::from(200 + k));
        } else {
            p.subscribe_write(k as u32, Userdata::from(200 + k));
        }
    }
    let rw = p.rw_subscriptions();
    assert_eq!(rw, vec![1, 3, 5]);
    for (n, idx) in rw.iter().enumerate() {
        p.set_rw_status(*idx, Ok((n as u64 * 10, RwEventFlags::empty())));
    }
    let results = p.results(500);
    assert_eq!(results.len(), 3);
    let tokens: Vec<u64> = results.iter().map(|(_, ud)| u64::from(*ud)).collect();
    assert_eq!(tokens, vec![200, 201, 202]);
    assert_eq!(results[0].0, SubscriptionResult::Read(Ok((0, RwEventFlags::empty()))));
    assert_eq!(results[1].0, SubscriptionResult::Write(Ok((10, RwEventFlags::empty()))));
    assert_eq!(results[2].0, SubscriptionResult::Read(Ok((20, RwEventFlags::empty()))));
    for (r, _) in results.iter() {
        assert!(!matches!(r, SubscriptionResult::MonotonicClock(_)));
    }
}

#[test]
fn rw_subscriptions_twice_gives_the_same_positions() {
    let mut p = Poll::new();
    p.subscribe_write(4, Userdata::from(1));
    p.subscribe_monotonic_clock(0, 10, Userdata::from(2)).unwrap();
    p.subscribe_read(5, Userdata::from(3));
    let a = p.rw_subscriptions();
    let b = p.rw_subscriptions();
    assert_eq!(a, b);
    assert_eq!(a, vec![0, 2]);
}

#[test]
fn deadline_equal_to_now_is_reached() {
    let c = MonotonicClockSubscription { clock: 0, deadline: 500 };
    assert_eq!(c.result(500), Some(Ok(())));
    assert_eq!(c.result(499), None);
    assert_eq!(c.result(501), Some(Ok(())));
    let mut p = Poll::new();
    p.subscribe_monotonic_clock(0, 500, Userdata::from(9)).unwrap();
    let r = p.results(500);
    assert_eq!(r, vec![(SubscriptionResult::MonotonicClock(Ok(())), Userdata::from(9))]);
}

#[test]
fn timeout_race_clock_only() {
    let start: u64 = 1_000_000_000;
    let d: u64 = 100_000_000;
    let mut p = Poll::new();
    p.subscribe_monotonic_clock(0, start + d, Userdata::from(77)).unwrap();
    assert_eq!(p.wait_timeout(start), Some(d));
    assert!(p.rw_subscriptions().is_empty());
    let r = p.results(start + d);
    assert_eq!(r.len(), 1);
    assert_eq!(r[0], (SubscriptionResult::MonotonicClock(Ok(())), Userdata::from(77)));
}

#[test]
fn mixed_wait_read_ready_first() {
    let start: u64 = 5_000_000;
    let mut p = Poll::new();
    p.subscribe_read(3, Userdata::from(1));
    p.subscribe_monotonic_clock(0, start + 100_000_000, Userdata::from(2)).unwrap();
    assert_eq!(p.wait_timeout(start), Some(100_000_000));
    let rw = p.rw_subscriptions();
    assert_eq!(rw, vec![0]);
    p.set_rw_status(rw[0], Ok((42, RwEventFlags::empty())));
    let r = p.results(start + 20_000_000);
    assert_eq!(r, vec![(SubscriptionResult::Read(Ok((42, RwEventFlags::empty()))), Userdata::from(1))]);
}

#[test]
fn unresolved_stream_yields_no_result() {
    let mut p = Poll::new();
    p.subscribe_read(3, Userdata::from(1));
    p.subscribe_write(4, Userdata::from(2));
    p.set_rw_status(1, Err(Error::Io(32)));
    let r = p.results(0);
    assert_eq!(r, vec![(SubscriptionResult::Write(Err(Error::Io(32))), Userdata::from(2))]);
}

#[test]
fn hangup_flag_is_reported() {
    let mut p = Poll::new();
    p.subscribe_read(3, Userdata::from(8));
    p.set_rw_status(0, Ok((0, RwEventFlags::hangup())));
    let r = p.results(0);
    assert_eq!(r[0].0, SubscriptionResult::Read(Ok((0, RwEventFlags { hangup: true }))));
}

#[test]
fn wait_timeout_after_deadline_is_zero() {
    let mut p = Poll::new();
    p.subscribe_monotonic_clock(0, 30, Userdata::from(1)).unwrap();
    p.subscribe_monotonic_clock(0, 80, Userdata::from(2)).unwrap();
    assert_eq!(p.wait_timeout(10), Some(20));
    assert_eq!(p.wait_timeout(30), Some(0));
    assert_eq!(p.wait_timeout(50), Some(0));
}

#[test]
fn duration_until_counts_down_to_the_deadline() {
    let c = MonotonicClockSubscription { clock: 2, deadline: 90 };
    assert_eq!(c.duration_until(40), Some(50));
    assert_eq!(c.duration_until(90), Some(0));
    assert_eq!(c.duration_until(91), None);
}

#[test]
fn subscription_result_mirrors_the_shape() {
    let mut rw = RwSubscription::new(6);
    assert_eq!(rw.result(), None);
    assert_eq!(SubscriptionResult::from_subscription(Subscription::Write(rw), 0), None);
    rw.complete(9, RwEventFlags::empty());
    assert_eq!(
        SubscriptionResult::from_subscription(Subscription::Write(rw), 0),
        Some(SubscriptionResult::Write(Ok((9, RwEventFlags::empty()))))
    );
    rw.error(Error::Io(5));
    assert_eq!(
        SubscriptionResult::from_subscription(Subscription::Read(rw), 0),
        Some(SubscriptionResult::Read(Err(Error::Io(5))))
    );
}

#[test]
fn userdata_round_trips_through_u64() {
    let ud = Userdata::from(u64::MAX);
    assert_eq!(u64::from(ud), u64::MAX);
    assert_eq!(u64::from(Userdata::from(0)), 0);
}
