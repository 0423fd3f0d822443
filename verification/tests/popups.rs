use signage_server::events::new;
use signage_server::events::EventType;
use signage_server::popups::PopupEvent;
use signage_server::popups::Popups;

#[test]
fn fresh_scheduler_waits_with_nothing_queued() {
    let mut popups = Popups::new(5, 1);
    assert_eq!(popups.pending(), 0);
    assert_eq!(popups.next_timeout(), 1);
    assert_eq!(popups.step(), None);
    assert_eq!(popups.step(), None);
    assert_eq!(popups.next_timeout(), 1);
}

#[test]
fn popups_are_shown_in_the_order_added_each_followed_by_one_hide() {
    let mut popups = Popups::new(5, 1);
    popups.add_popup("first".to_string());
    popups.add_popup("second".to_string());
    popups.add_popup("third".to_string());
    assert_eq!(popups.pending(), 3);
    assert!(!popups.is_showing());
    assert_eq!(popups.step(), Some(PopupEvent::Show("first".to_string())));
    assert!(popups.is_showing());
    assert_eq!(popups.next_timeout(), 5);
    assert_eq!(popups.step(), Some(PopupEvent::Hide));
    assert_eq!(popups.next_timeout(), 1);
    assert_eq!(popups.step(), Some(PopupEvent::Show("second".to_string())));
    assert_eq!(popups.step(), Some(PopupEvent::Hide));
    assert_eq!(popups.step(), Some(PopupEvent::Show("third".to_string())));
    assert_eq!(popups.step(), Some(PopupEvent::Hide));
    assert_eq!(popups.step(), None);
    assert_eq!(popups.pending(), 0);
}

#[test]
fn popup_added_while_showing_waits_for_the_hide() {
    let mut popups = Popups::new(5, 1);
    popups.add_popup("a".to_string());
    assert_eq!(popups.step(), Some(PopupEvent::Show("a".to_string())));
    popups.add_popup("b".to_string());
    assert_eq!(popups.step(), Some(PopupEvent::Hide));
    assert_eq!(popups.step(), Some(PopupEvent::Show("b".to_string())));
    assert_eq!(popups.step(), Some(PopupEvent::Hide));
    assert_eq!(popups.step(), None);
}

#[test]
fn timeouts_can_be_replaced() {
    let mut popups = Popups::new(5, 1);
    popups.set_wait_timeout(3);
    assert_eq!(popups.next_timeout(), 3);
    popups.add_popup("a".to_string());
    popups.step();
    assert_eq!(popups.next_timeout(), 5);
    popups.set_show_timeout(9);
    assert_eq!(popups.next_timeout(), 9);
    assert_eq!(popups.step(), Some(PopupEvent::Hide));
    assert_eq!(popups.next_timeout(), 3);
}

#[test]
fn run_publishes_show_with_the_text_and_hide_with_nothing() {
    let mut bus = new();
    let mut show = bus.register(EventType::PopupShow);
    let mut hide = bus.register(EventType::PopupHide);
    let mut popups = Popups::new(5, 1);
    assert_eq!(popups.run(&mut bus), None);
    assert!(show.try_recv().is_err());
    assert!(hide.try_recv().is_err());
    popups.add_popup("42".to_string());
    assert_eq!(popups.run(&mut bus), Some(PopupEvent::Show("42".to_string())));
    assert_eq!(show.try_recv().ok(), Some("42".to_string()));
    assert!(hide.try_recv().is_err());
    assert_eq!(popups.run(&mut bus), Some(PopupEvent::Hide));
    assert_eq!(hide.try_recv().ok(), Some(String::new()));
    assert!(show.try_recv().is_err());
    assert_eq!(popups.run(&mut bus), None);
}

#[test]
fn run_without_subscribers_still_consumes_the_popup() {
    let mut bus = new();
    let mut popups = Popups::new(5, 1);
    popups.add_popup("lost".to_string());
    assert_eq!(popups.run(&mut bus), Some(PopupEvent::Show("lost".to_string())));
    assert_eq!(popups.run(&mut bus), Some(PopupEvent::Hide));
    assert_eq!(popups.pending(), 0);
}
