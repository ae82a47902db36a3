use axum::extract::ws::Message;
use bytes::Bytes;
use tokio::sync::broadcast::error::TryRecvError;

use subscriptions::keytable::UserTable;
use subscriptions::registry::payment_send_step;
use subscriptions::registry::payments_subscribe_step;
use subscriptions::registry::portfolio_notify_step;
use subscriptions::registry::portfolio_subscribe_step;
use subscriptions::Subscriptions;

fn msg(payload: &'static [u8]) -> Message {
    Message::Binary(Bytes::from_static(payload))
}

#[test]
fn notify_unknown_user_creates_no_entry() {
    let subs = Subscriptions::new();
    // Never subscribed: completes without error and creates no entry.
    subs.notify_user_portfolio("ghost");
    // A later first subscription starts from a fresh state: the earlier
    // notify left nothing behind.
    let rx = subs.subscribe_portfolio("ghost");
    assert!(!rx.has_changed().unwrap());
}

#[test]
fn send_payment_unknown_user_creates_no_entry() {
    let subs = Subscriptions::new();
    subs.send_payment("ghost", msg(b"gone"));
    let mut rx = subs.subscribe_payments("ghost");
    assert!(matches!(rx.try_recv(), Err(TryRecvError::Empty)));
}

#[test]
fn racing_first_subscribers_share_entry() {
    let subs = Subscriptions::new();
    let rx1 = subs.subscribe_portfolio("u1");
    let rx2 = subs.subscribe_portfolio("u1");
    subs.notify_user_portfolio("u1");
    // Both receivers observe the same underlying entry.
    assert!(rx1.has_changed().unwrap());
    assert!(rx2.has_changed().unwrap());
}

#[test]
fn portfolio_steps_create_single_entry() {
    // Drive the guarded-table step directly: three subscribers for one key
    // share one entry, and a notify reaches all of them.
    let mut table = UserTable::new();
    let rx1 = portfolio_subscribe_step(&mut table, "u1");
    let rx2 = portfolio_subscribe_step(&mut table, "u1");
    let rx3 = portfolio_subscribe_step(&mut table, "u1");
    assert!(portfolio_notify_step(&table, "u1"));
    assert!(rx1.has_changed().unwrap());
    assert!(rx2.has_changed().unwrap());
    assert!(rx3.has_changed().unwrap());
    // A key nobody subscribed to has no entry to signal.
    assert!(!portfolio_notify_step(&table, "u2"));
}

#[test]
fn payment_steps_share_single_channel() {
    let mut table = UserTable::new();
    let mut rx1 = payments_subscribe_step(&mut table, "u1");
    let mut rx2 = payments_subscribe_step(&mut table, "u1");
    assert!(payment_send_step(&table, "u1", msg(b"pay")));
    assert_eq!(rx1.try_recv().unwrap(), msg(b"pay"));
    assert_eq!(rx2.try_recv().unwrap(), msg(b"pay"));
    assert!(!payment_send_step(&table, "u2", msg(b"lost")));
}

#[test]
fn late_payment_subscriber_misses_earlier_messages() {
    let subs = Subscriptions::new();
    let mut rx1 = subs.subscribe_payments("u1");
    subs.send_payment("u1", msg(b"m1"));
    subs.send_payment("u1", msg(b"m2"));
    let mut rx2 = subs.subscribe_payments("u1");
    // The late receiver does not observe the two earlier messages...
    assert!(matches!(rx2.try_recv(), Err(TryRecvError::Empty)));
    subs.send_payment("u1", msg(b"m3"));
    // ...but does observe everything sent after its creation.
    assert_eq!(rx2.try_recv().unwrap(), msg(b"m3"));
    // The early receiver sees all three, in send order.
    assert_eq!(rx1.try_recv().unwrap(), msg(b"m1"));
    assert_eq!(rx1.try_recv().unwrap(), msg(b"m2"));
    assert_eq!(rx1.try_recv().unwrap(), msg(b"m3"));
    assert!(matches!(rx1.try_recv(), Err(TryRecvError::Empty)));
}

#[test]
fn public_send_without_subscribers_is_discarded() {
    let subs = Subscriptions::new();
    subs.send_public(msg(b"nobody"));
    // A receiver created afterwards does not see the discarded message.
    let mut rx = subs.subscribe_public();
    assert!(matches!(rx.try_recv(), Err(TryRecvError::Empty)));
}

#[test]
fn public_delivers_to_all_subscribers_in_order() {
    let subs = Subscriptions::new();
    let mut rx1 = subs.subscribe_public();
    let mut rx2 = subs.subscribe_public();
    subs.send_public(msg(b"m1"));
    subs.send_public(msg(b"m2"));
    for rx in [&mut rx1, &mut rx2] {
        assert_eq!(rx.try_recv().unwrap(), msg(b"m1"));
        assert_eq!(rx.try_recv().unwrap(), msg(b"m2"));
        assert!(matches!(rx.try_recv(), Err(TryRecvError::Empty)));
    }
}

#[test]
fn portfolio_signal_coalesces() {
    let subs = Subscriptions::new();
    let mut rx = subs.subscribe_portfolio("u1");
    subs.notify_user_portfolio("u1");
    subs.notify_user_portfolio("u1");
    // Two notifications before the consumer checks collapse into one
    // observation of "changed"; the signal does not queue a count.
    assert!(rx.has_changed().unwrap());
    let _ = rx.borrow_and_update();
    assert!(!rx.has_changed().unwrap());
}

#[test]
fn payment_scenario_subscribe_send_receive() {
    let subs = Subscriptions::new();
    let mut rx = subs.subscribe_payments("u1");
    subs.send_payment("u1", msg(b"bytes"));
    assert_eq!(rx.try_recv().unwrap(), msg(b"bytes"));
    // A send to a user nobody subscribed to neither errors nor delivers
    // anywhere, and creates no entry.
    subs.send_payment("u2", msg(b"bytes"));
    assert!(matches!(rx.try_recv(), Err(TryRecvError::Empty)));
    let mut rx2 = subs.subscribe_payments("u2");
    assert!(matches!(rx2.try_recv(), Err(TryRecvError::Empty)));
}

#[test]
fn public_scenario_two_receivers_observe_independently() {
    let subs = Subscriptions::new();
    let mut rx1 = subs.subscribe_public();
    let mut rx2 = subs.subscribe_public();
    subs.send_public(msg(b"bytes"));
    // Delivered to both, not consumed by only one.
    assert_eq!(rx1.try_recv().unwrap(), msg(b"bytes"));
    assert_eq!(rx2.try_recv().unwrap(), msg(b"bytes"));
}

#[test]
fn payment_channel_capacity_bounds_backlog() {
    let subs = Subscriptions::new();
    let mut rx = subs.subscribe_payments("u1");
    // One message more than the payment capacity of 16: the receiver lags by
    // exactly one and resumes at the oldest retained message.
    for i in 0..17u8 {
        subs.send_payment("u1", Message::Binary(Bytes::from(vec![i])));
    }
    assert!(matches!(rx.try_recv(), Err(TryRecvError::Lagged(1))));
    for i in 1..17u8 {
        assert_eq!(rx.try_recv().unwrap(), Message::Binary(Bytes::from(vec![i])));
    }
    assert!(matches!(rx.try_recv(), Err(TryRecvError::Empty)));
}

#[test]
fn public_channel_capacity_bounds_backlog() {
    let subs = Subscriptions::new();
    let mut rx = subs.subscribe_public();
    // One message more than the public capacity of 256.
    for i in 0..257u16 {
        subs.send_public(Message::Binary(Bytes::from(i.to_be_bytes().to_vec())));
    }
    assert!(matches!(rx.try_recv(), Err(TryRecvError::Lagged(1))));
    assert_eq!(
        rx.try_recv().unwrap(),
        Message::Binary(Bytes::from(1u16.to_be_bytes().to_vec()))
    );
}

#[test]
fn clones_and_default_share_one_registry() {
    let subs = Subscriptions::default();
    let clone = subs.clone();
    let mut rx = clone.subscribe_payments("u1");
    subs.send_payment("u1", msg(b"shared"));
    assert_eq!(rx.try_recv().unwrap(), msg(b"shared"));
}

#[test]
fn dropped_receiver_does_not_disturb_others() {
    let subs = Subscriptions::new();
    let mut rx1 = subs.subscribe_payments("u1");
    let rx2 = subs.subscribe_payments("u1");
    drop(rx2);
    subs.send_payment("u1", msg(b"still"));
    assert_eq!(rx1.try_recv().unwrap(), msg(b"still"));
    // Dropping every receiver leaves the entry in place: a send is still a
    // silent no-op, and a new subscriber starts fresh.
    drop(rx1);
    subs.send_payment("u1", msg(b"void"));
    let mut rx3 = subs.subscribe_payments("u1");
    assert!(matches!(rx3.try_recv(), Err(TryRecvError::Empty)));
}
