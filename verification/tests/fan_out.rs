//! Fan-out delivery with bounded, drop-oldest backlogs.
use hdcomm::fanout::FanOut;
use hdcomm::stream;

fn sample(time_ms: u32) -> stream::Payload {
    stream::Payload::Ahrs(stream::AhrsBody {
        acc: [1, -1, 2],
        gyro: [3, -3, 4],
        mag: [5, -5, 6],
        time_ms,
    })
}

#[test]
fn both_subscribers_receive_one_publish() {
    // Two subscribers both receive an identical payload published once.
    let mut group: FanOut<stream::Payload> = FanOut::new(16);
    let a = group.subscribe();
    let b = group.subscribe();

    group.publish(sample(42));

    assert_eq!(group.take_next(a), Some(sample(42)));
    assert_eq!(group.take_next(b), Some(sample(42)));
    assert_eq!(group.take_next(a), None);
    assert_eq!(group.take_next(b), None);
}

#[test]
fn slow_subscriber_observes_drops_but_publish_returns() {
    // A subscriber that never reads past its backlog capacity loses its
    // oldest undelivered items; publishing always returns.
    let mut group: FanOut<u32> = FanOut::new(4);
    let slow = group.subscribe();

    for i in 0..10u32 {
        group.publish(i);
    }

    assert_eq!(group.lagged(slow), 6);
    // The oldest surviving items are delivered in publish order.
    assert_eq!(group.take_next(slow), Some(6));
    assert_eq!(group.take_next(slow), Some(7));
    assert_eq!(group.take_next(slow), Some(8));
    assert_eq!(group.take_next(slow), Some(9));
    assert_eq!(group.take_next(slow), None);
}

#[test]
fn delivery_preserves_publish_order() {
    let mut group: FanOut<u32> = FanOut::new(8);
    let s = group.subscribe();
    for i in 0..5u32 {
        group.publish(i);
    }
    for i in 0..5u32 {
        assert_eq!(group.take_next(s), Some(i));
    }
}

#[test]
fn unsubscribed_slot_receives_nothing() {
    let mut group: FanOut<u32> = FanOut::new(4);
    let a = group.subscribe();
    let b = group.subscribe();
    group.unsubscribe(a);
    group.publish(5);
    assert_eq!(group.take_next(a), None);
    assert_eq!(group.take_next(b), Some(5));
}

#[test]
fn late_subscriber_misses_earlier_publishes() {
    let mut group: FanOut<u32> = FanOut::new(4);
    let early = group.subscribe();
    group.publish(1);
    let late = group.subscribe();
    group.publish(2);
    assert_eq!(group.take_next(early), Some(1));
    assert_eq!(group.take_next(early), Some(2));
    assert_eq!(group.take_next(late), Some(2));
    assert_eq!(group.take_next(late), None);
}
