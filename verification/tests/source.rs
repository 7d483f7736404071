use dbus::Message;
use oled_display::notification::Notification;
use oled_display::source::{enqueue, notification_queue, Admission, QUEUE_CAPACITY};
use tokio::sync::mpsc::error::TryRecvError;

fn numbered(number: u32) -> Message {
    Message::new_method_call(
        "org.freedesktop.Notifications",
        "/org/freedesktop/Notifications",
        "org.freedesktop.Notifications",
        "Notify",
    )
    .unwrap()
    .append3("app", number, "icon")
    .append2(format!("title {}", number), "body")
}

fn number_of(message: &Message) -> u32 {
    message.read2::<String, u32>().unwrap().1
}

#[test]
fn the_queue_holds_ten_messages() {
    assert_eq!(QUEUE_CAPACITY, 10);
    let (tx, _rx) = notification_queue();
    assert_eq!(tx.max_capacity(), 10);
    assert_eq!(tx.capacity(), 10);
}

#[test]
fn a_message_is_queued_while_there_is_room() {
    let (tx, mut rx) = notification_queue();
    assert_eq!(enqueue(&tx, numbered(1)), Admission::Queued);
    assert_eq!(number_of(&rx.try_recv().unwrap()), 1);
    assert!(matches!(rx.try_recv(), Err(TryRecvError::Empty)));
}

#[test]
fn a_message_that_finds_the_queue_full_is_dropped() {
    let (tx, mut rx) = notification_queue();
    for number in 0..10 {
        assert_eq!(enqueue(&tx, numbered(number)), Admission::Queued);
    }
    assert_eq!(enqueue(&tx, numbered(10)), Admission::Dropped);
    assert_eq!(enqueue(&tx, numbered(11)), Admission::Dropped);
    for number in 0..10 {
        assert_eq!(number_of(&rx.try_recv().unwrap()), number);
    }
    assert!(matches!(rx.try_recv(), Err(TryRecvError::Empty)));
}

#[test]
fn room_comes_back_as_messages_are_taken() {
    let (tx, mut rx) = notification_queue();
    for number in 0..10 {
        enqueue(&tx, numbered(number));
    }
    assert_eq!(enqueue(&tx, numbered(10)), Admission::Dropped);
    assert_eq!(number_of(&rx.try_recv().unwrap()), 0);
    assert_eq!(enqueue(&tx, numbered(11)), Admission::Queued);
    assert_eq!(enqueue(&tx, numbered(12)), Admission::Dropped);
    let mut taken = Vec::new();
    while let Ok(message) = rx.try_recv() {
        taken.push(number_of(&message));
    }
    assert_eq!(taken, vec![1, 2, 3, 4, 5, 6, 7, 8, 9, 11]);
}

#[test]
fn a_queue_that_nobody_reads_is_closed() {
    let (tx, rx) = notification_queue();
    drop(rx);
    assert_eq!(enqueue(&tx, numbered(1)), Admission::Closed);
}

#[test]
fn the_subscription_goes_on_until_the_queue_is_closed() {
    assert!(Admission::Queued.keeps_listening());
    assert!(Admission::Dropped.keeps_listening());
    assert!(!Admission::Closed.keeps_listening());
}

#[test]
fn queued_messages_are_read_in_their_order() {
    let (tx, mut rx) = notification_queue();
    enqueue(&tx, numbered(1));
    enqueue(&tx, numbered(2));
    let first = Notification::try_from(rx.try_recv().unwrap()).unwrap();
    let second = Notification::try_from(rx.try_recv().unwrap()).unwrap();
    assert_eq!(first.title, "title 1");
    assert_eq!(second.title, "title 2");
}
