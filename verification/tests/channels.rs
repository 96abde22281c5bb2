use escalator_bot::bus::{Bus, TryRecvResult};
use escalator_bot::channels::AnyChannels;
use escalator_bot::report::{Update, UserReport};
use escalator_bot::input::EscalatorInput;
use escalator_bot::status::Status;

fn sample_report() -> UserReport {
    UserReport {
        reporter: Some(7),
        escalators: EscalatorInput::Direct(2, 3),
        affected_escalators: vec![],
        new_status: Status::Down,
    }
}

#[test]
fn can_create_sender_then_receiver() {
    let mut channels = AnyChannels::new();

    channels.update_sender();
    let _rx = channels.update_receiver();

    assert_eq!(channels.update_receiver_count(), 1);
}

#[test]
fn can_create_receiver_then_sender() {
    let mut channels = AnyChannels::new();

    let _rx = channels.update_receiver();
    channels.update_sender();

    assert_eq!(channels.update_receiver_count(), 1);
}

#[test]
fn messages_are_passed() {
    let mut bus: Bus<i32> = Bus::new(16);
    let mut rx = bus.subscribe();

    assert_eq!(bus.pending(&rx), 0);

    assert_eq!(bus.send(100).unwrap(), 1);
    assert_eq!(bus.pending(&rx), 1);

    assert!(matches!(bus.try_recv(&mut rx), TryRecvResult::Message(&100)));
}

#[test]
fn send_without_receivers_returns_value() {
    let mut bus: Bus<i32> = Bus::new(4);
    let err = bus.send(42).unwrap_err();
    assert_eq!(err.0, 42);
}

#[test]
fn receiver_sees_only_later_messages() {
    let mut bus: Bus<i32> = Bus::new(4);
    let mut early = bus.subscribe();
    assert_eq!(bus.send(1).unwrap(), 1);
    let mut late = bus.subscribe();
    assert_eq!(bus.send(2).unwrap(), 2);

    assert!(matches!(bus.try_recv(&mut early), TryRecvResult::Message(&1)));
    assert!(matches!(bus.try_recv(&mut early), TryRecvResult::Message(&2)));
    assert!(matches!(bus.try_recv(&mut early), TryRecvResult::Empty));
    assert!(matches!(bus.try_recv(&mut late), TryRecvResult::Message(&2)));
    assert!(matches!(bus.try_recv(&mut late), TryRecvResult::Empty));
}

#[test]
fn lagged_receiver_recovers() {
    // Bus lag tolerance: capacity 4, publish capacity + 2 messages before the
    // receiver drains any; the next receive reports a lag of 2 and the one
    // after that yields the oldest retained message.
    let mut bus: Bus<i32> = Bus::new(4);
    let mut rx = bus.subscribe();
    for n in 0..6 {
        assert_eq!(bus.send(n).unwrap(), 1);
    }
    assert!(matches!(bus.try_recv(&mut rx), TryRecvResult::Lagged(2)));
    assert!(matches!(bus.try_recv(&mut rx), TryRecvResult::Message(&2)));
    assert!(matches!(bus.try_recv(&mut rx), TryRecvResult::Message(&3)));
}

#[test]
fn try_send_needs_existing_channel() {
    // A receiver exists for updates, none for user reports: try_send on the
    // report channel hands the value back, while the update channel stays
    // valid and receivable.
    let mut channels = AnyChannels::new();
    let mut rx = channels.update_receiver();

    let err = channels.try_send_report(sample_report()).unwrap_err();
    assert!(matches!(err.0.new_status, Status::Down));

    let update = Update::Outdated(escalator_bot::escalator::EscalatorFloors::new(2, 3));
    assert_eq!(channels.try_send_update(update).unwrap(), 1);
    assert!(matches!(
        channels.try_recv_update(&mut rx),
        TryRecvResult::Message(Update::Outdated(_))
    ));
}

#[test]
fn try_send_with_channel_but_no_receiver_delivers_to_none() {
    // Try semantics: no listener is not an error. With a channel but no
    // receivers the value is delivered to none and not retained.
    let mut channels = AnyChannels::new();
    channels.report_sender();
    assert_eq!(channels.try_send_report(sample_report()).unwrap(), 0);
    assert_eq!(channels.report_receiver_count(), 0);

    // The undelivered value was not retained: a later receiver sees nothing.
    let mut rx = channels.report_receiver();
    assert!(matches!(channels.try_recv_report(&mut rx), TryRecvResult::Empty));

    // With a receiver, the same call counts the delivery.
    assert_eq!(channels.try_send_report(sample_report()).unwrap(), 1);
    assert!(matches!(
        channels.try_recv_report(&mut rx),
        TryRecvResult::Message(r) if matches!(r.escalators, EscalatorInput::Direct(2, 3))
    ));
}
