use viewkit::events::Event;

#[test]
fn trigger_notifies_each_subscriber_once_in_order_with_same_value() {
    let mut e: Event<u32> = Event::new();
    e.subscribe(30);
    e.subscribe(10);
    e.subscribe(20);
    let deliveries = e.trigger(&99);
    assert_eq!(deliveries.len(), 3);
    let subscribers: Vec<u64> = deliveries.iter().map(|d| d.subscriber).collect();
    assert_eq!(subscribers, vec![30, 10, 20]);
    assert!(deliveries.iter().all(|d| d.value == 99));
}

#[test]
fn trigger_with_no_subscribers_delivers_nothing() {
    let e: Event<u32> = Event::new();
    assert_eq!(e.trigger(&1).len(), 0);
}

#[test]
fn trigger_twice_delivers_twice() {
    let mut e: Event<i64> = Event::new();
    e.subscribe(1);
    let first = e.trigger(&-5);
    let second = e.trigger(&-5);
    assert_eq!(first.len(), 1);
    assert_eq!(second.len(), 1);
    assert_eq!(first[0], second[0]);
}

#[test]
fn duplicate_subscribers_are_notified_once_each() {
    let mut e: Event<u32> = Event::new();
    e.subscribe(4);
    e.subscribe(4);
    let deliveries = e.trigger(&0);
    assert_eq!(deliveries.len(), 2);
    assert_eq!(deliveries[0].subscriber, 4);
    assert_eq!(deliveries[1].subscriber, 4);
}
