use escalator_bot::history_channel::{HistoryChannel, InvalidChannelError};

#[test]
fn set_and_unset_channel() {
    let mut history = HistoryChannel::from_saved(Some(None));
    assert_eq!(history.channel(), None);
    assert!(!history.needs_save());

    // A channel that is not a guild text channel is rejected.
    assert_eq!(history.set(5, false), Err(InvalidChannelError));
    assert_eq!(history.channel(), None);
    assert!(!history.needs_save());

    assert_eq!(history.set(5, true), Ok(5));
    assert_eq!(history.channel(), Some(5));
    assert!(history.needs_save());
    history.mark_saved();

    // Setting the same channel again needs no save.
    assert_eq!(history.set(5, true), Ok(5));
    assert!(!history.needs_save());

    history.unset();
    assert_eq!(history.channel(), None);
    assert!(history.needs_save());
    history.mark_saved();
    history.unset();
    assert!(!history.needs_save());
}

#[test]
fn failed_load_starts_fresh_and_dirty() {
    let history = HistoryChannel::from_saved(None);
    assert_eq!(history.channel(), None);
    assert!(history.needs_save());

    let restored = HistoryChannel::from_saved(Some(Some(7)));
    assert_eq!(restored.channel(), Some(7));
    assert!(!restored.needs_save());
}
