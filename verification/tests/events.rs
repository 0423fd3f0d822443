use signage_server::events::event_name;
use signage_server::events::get_subscribed_streams;
use signage_server::events::new;
use signage_server::events::payloads_for;
use signage_server::events::publish_outcome;
use signage_server::events::retain_open;
use signage_server::events::EventType;
use signage_server::events::SubscriptionTarget;
use signage_server::events::HEARTBEAT_SECONDS;

fn target(image: bool, show: bool, hide: bool, orders: bool) -> SubscriptionTarget {
    let flag = |on: bool| if on { Some(String::new()) } else { None };
    SubscriptionTarget {
        image_change: flag(image),
        popup_show: flag(show),
        popup_hide: flag(hide),
        orders_updated: flag(orders),
    }
}

#[test]
fn new_bus_has_no_subscribers() {
    let bus = new();
    assert_eq!(bus.subscriber_count(EventType::ImageChange), 0);
    assert_eq!(bus.subscriber_count(EventType::PopupShow), 0);
    assert_eq!(bus.subscriber_count(EventType::PopupHide), 0);
    assert_eq!(bus.subscriber_count(EventType::OrdersUpdated), 0);
}

#[test]
fn publish_without_subscribers_reports_a_failure() {
    let mut bus = new();
    assert_eq!(bus.publish(EventType::PopupHide, |_| String::new()), Err(()));
    assert_eq!(bus.subscriber_count(EventType::PopupHide), 0);
}

#[test]
fn publish_to_closed_subscribers_only_reports_a_failure() {
    let mut bus = new();
    let first = bus.register(EventType::ImageChange);
    let second = bus.register(EventType::ImageChange);
    let mut other = bus.register(EventType::PopupShow);
    drop(first);
    drop(second);
    assert_eq!(bus.publish(EventType::ImageChange, |i| format!("{}", i)), Err(()));
    assert_eq!(bus.subscriber_count(EventType::ImageChange), 0);
    assert_eq!(bus.subscriber_count(EventType::PopupShow), 1);
    assert!(other.try_recv().is_err());
}

#[test]
fn publish_gives_each_subscriber_the_payload_of_its_ordinal() {
    let mut bus = new();
    let mut first = bus.register(EventType::ImageChange);
    let mut second = bus.register(EventType::ImageChange);
    let mut third = bus.register(EventType::ImageChange);
    assert_eq!(bus.subscriber_count(EventType::ImageChange), 3);
    let r = bus.publish(EventType::ImageChange, |i| format!("payload {}", i));
    assert_eq!(r, Ok(()));
    assert_eq!(first.try_recv().ok(), Some("payload 0".to_string()));
    assert_eq!(second.try_recv().ok(), Some("payload 1".to_string()));
    assert_eq!(third.try_recv().ok(), Some("payload 2".to_string()));
    assert!(first.try_recv().is_err());
    assert!(second.try_recv().is_err());
    assert!(third.try_recv().is_err());
}

#[test]
fn publish_reaches_only_the_event_type_named() {
    let mut bus = new();
    let mut show = bus.register(EventType::PopupShow);
    let mut hide = bus.register(EventType::PopupHide);
    assert_eq!(bus.publish(EventType::PopupShow, |_| "hello".to_string()), Ok(()));
    assert_eq!(show.try_recv().ok(), Some("hello".to_string()));
    assert!(hide.try_recv().is_err());
    assert_eq!(bus.subscriber_count(EventType::PopupHide), 1);
}

#[test]
fn closed_subscriber_is_pruned_and_ordinals_count_the_live_ones() {
    let mut bus = new();
    let first = bus.register(EventType::ImageChange);
    let mut second = bus.register(EventType::ImageChange);
    let mut third = bus.register(EventType::ImageChange);
    drop(first);
    let r = bus.publish(EventType::ImageChange, |i| format!("{}", i));
    assert_eq!(r, Ok(()));
    assert_eq!(bus.subscriber_count(EventType::ImageChange), 2);
    assert_eq!(second.try_recv().ok(), Some("0".to_string()));
    assert_eq!(third.try_recv().ok(), Some("1".to_string()));
}

#[test]
fn disconnect_between_publishes_leaves_the_others_served() {
    let mut bus = new();
    let mut a = bus.register(EventType::ImageChange);
    let b = bus.register(EventType::ImageChange);
    let mut c = bus.register(EventType::ImageChange);
    assert_eq!(bus.publish(EventType::ImageChange, |_| "one".to_string()), Ok(()));
    drop(b);
    assert_eq!(bus.publish(EventType::ImageChange, |_| "two".to_string()), Ok(()));
    assert_eq!(bus.publish(EventType::ImageChange, |_| "three".to_string()), Ok(()));
    for receiver in [&mut a, &mut c] {
        assert_eq!(receiver.try_recv().ok(), Some("one".to_string()));
        assert_eq!(receiver.try_recv().ok(), Some("two".to_string()));
        assert_eq!(receiver.try_recv().ok(), Some("three".to_string()));
        assert!(receiver.try_recv().is_err());
    }
    assert_eq!(bus.subscriber_count(EventType::ImageChange), 2);
}

#[test]
fn slow_subscriber_accumulates_backlog_in_publish_order() {
    let mut bus = new();
    let mut slow = bus.register(EventType::OrdersUpdated);
    for n in 0..100 {
        assert_eq!(bus.publish(EventType::OrdersUpdated, |_| format!("{}", n)), Ok(()));
    }
    for n in 0..100 {
        assert_eq!(slow.try_recv().ok(), Some(format!("{}", n)));
    }
    assert!(slow.try_recv().is_err());
}

#[test]
fn retain_open_drops_the_flagged_entries_in_order() {
    let mut subs = vec![10, 20, 30, 40, 50];
    retain_open(&mut subs, &vec![true, false, false, true, false]);
    assert_eq!(subs, vec![20, 30, 50]);
    let mut all = vec![1, 2];
    retain_open(&mut all, &vec![true, true]);
    assert_eq!(all, Vec::<i32>::new());
    let mut none = vec![1, 2];
    retain_open(&mut none, &vec![false, false]);
    assert_eq!(none, vec![1, 2]);
    let mut empty: Vec<i32> = Vec::new();
    retain_open(&mut empty, &Vec::new());
    assert!(empty.is_empty());
}

#[test]
fn publish_outcome_fails_without_outcomes_or_when_a_send_failed() {
    assert_eq!(publish_outcome(&vec![]), Err(()));
    assert_eq!(publish_outcome(&vec![true]), Ok(()));
    assert_eq!(publish_outcome(&vec![true, true]), Ok(()));
    assert_eq!(publish_outcome(&vec![true, false, true]), Err(()));
    assert_eq!(publish_outcome(&vec![false]), Err(()));
}

#[test]
fn event_names_are_those_of_the_query_keys() {
    assert_eq!(event_name(EventType::ImageChange), "image_change");
    assert_eq!(event_name(EventType::PopupShow), "popup_show");
    assert_eq!(event_name(EventType::PopupHide), "popup_hide");
    assert_eq!(event_name(EventType::OrdersUpdated), "orders_updated");
    assert_eq!(HEARTBEAT_SECONDS, 10);
}

#[test]
fn no_requested_type_gives_no_registration() {
    let mut bus = new();
    let streams = get_subscribed_streams(&mut bus, &target(false, false, false, false));
    assert!(streams.is_empty());
    assert_eq!(bus.subscriber_count(EventType::ImageChange), 0);
    assert_eq!(bus.subscriber_count(EventType::OrdersUpdated), 0);
}

#[test]
fn each_requested_type_is_registered_once() {
    let mut bus = new();
    let streams = get_subscribed_streams(&mut bus, &target(true, false, true, true));
    let events: Vec<EventType> = streams.iter().map(|s| s.event).collect();
    assert_eq!(
        events,
        vec![EventType::ImageChange, EventType::PopupHide, EventType::OrdersUpdated]
    );
    assert_eq!(bus.subscriber_count(EventType::ImageChange), 1);
    assert_eq!(bus.subscriber_count(EventType::PopupShow), 0);
    assert_eq!(bus.subscriber_count(EventType::PopupHide), 1);
    assert_eq!(bus.subscriber_count(EventType::OrdersUpdated), 1);
}

#[test]
fn registrations_receive_and_are_released_with_the_connection() {
    let mut bus = new();
    let mut streams = get_subscribed_streams(&mut bus, &target(true, true, true, true));
    assert_eq!(streams.len(), 4);
    assert_eq!(bus.publish(EventType::PopupShow, |_| "hi".to_string()), Ok(()));
    assert_eq!(streams[1].event, EventType::PopupShow);
    assert_eq!(streams[1].receiver.try_recv().ok(), Some("hi".to_string()));
    assert!(streams[0].receiver.try_recv().is_err());
    drop(streams);
    assert_eq!(bus.publish(EventType::PopupShow, |_| "again".to_string()), Err(()));
    assert_eq!(bus.subscriber_count(EventType::PopupShow), 0);
}

#[test]
fn payloads_are_made_once_per_position() {
    let payloads = payloads_for(3, &|i: usize| format!("#{}", i));
    assert_eq!(payloads, vec!["#0".to_string(), "#1".to_string(), "#2".to_string()]);
    assert!(payloads_for(0, &|i: usize| format!("#{}", i)).is_empty());
}
