use escalator_bot::alerts::{
    is_on_watch_list, Alerts, EscalatorIndex, Subscription, WatchList, WatchlistAction,
    WatchlistComponent,
};
use escalator_bot::component::ComponentStatus;
use escalator_bot::escalator::EscalatorFloors;
use escalator_bot::input::EscalatorInput;

fn list_with(indices: &[usize]) -> WatchList {
    let mut wl = [false; 14];
    for &i in indices {
        wl[i] = true;
    }
    wl
}

#[test]
fn subscription_toggles() {
    let mut sub = Subscription::Ignore;
    assert!(!sub.is_watching());
    sub.toggle();
    assert!(sub.is_watching());
    sub.toggle();
    assert!(!sub.is_watching());
}

#[test]
fn resolve_input_to_indices() {
    assert!(matches!(
        EscalatorIndex::from_input(EscalatorInput::All),
        Ok(EscalatorIndex::All)
    ));
    assert!(matches!(
        EscalatorIndex::from_input(EscalatorInput::Direct(2, 3)),
        Ok(EscalatorIndex::Direct(0))
    ));
    assert!(matches!(
        EscalatorIndex::from_input(EscalatorInput::Pair(2, 3)),
        Ok(EscalatorIndex::Pair(0, 2))
    ));
    assert!(EscalatorIndex::from_input(EscalatorInput::Direct(2, 5)).is_err());
    assert!(EscalatorIndex::from_input(EscalatorInput::Pair(2, 5)).is_err());
}

#[test]
fn watch_list_membership() {
    let wl = list_with(&[0]);
    assert!(is_on_watch_list(&wl, EscalatorIndex::All));
    assert!(is_on_watch_list(&wl, EscalatorIndex::Direct(0)));
    assert!(!is_on_watch_list(&wl, EscalatorIndex::Direct(2)));
    assert!(is_on_watch_list(&wl, EscalatorIndex::Pair(0, 2)));
    assert!(is_on_watch_list(&wl, EscalatorIndex::Pair(2, 0)));
    assert!(!is_on_watch_list(&wl, EscalatorIndex::Pair(1, 2)));
}

#[test]
fn replace_stores_removes_and_marks_dirty() {
    let mut alerts = Alerts::from_entries(Some(vec![]));
    assert!(!alerts.needs_save());

    // A new non-empty list is stored and marks the set dirty.
    alerts.replace(1, list_with(&[0, 2]));
    assert_eq!(alerts.get_watch_list(1), Some(list_with(&[0, 2])));
    assert!(alerts.needs_save());
    alerts.mark_saved();

    // Replacing with the same list changes nothing.
    alerts.replace(1, list_with(&[0, 2]));
    assert!(!alerts.needs_save());

    // A changed list is stored and marks the set dirty again.
    alerts.replace(1, list_with(&[5]));
    assert_eq!(alerts.get_watch_list(1), Some(list_with(&[5])));
    assert!(alerts.needs_save());
    alerts.mark_saved();

    // An all-unselected list removes the entry.
    alerts.replace(1, [false; 14]);
    assert_eq!(alerts.get_watch_list(1), None);
    assert!(alerts.needs_save());
    alerts.mark_saved();

    // Removing an absent entry changes nothing.
    alerts.replace(1, [false; 14]);
    assert!(!alerts.needs_save());
}

#[test]
fn missing_entries_start_dirty() {
    let alerts = Alerts::from_entries(None);
    assert!(alerts.needs_save());
    assert_eq!(alerts.entries().len(), 0);
}

#[test]
fn users_watching_selection() {
    let mut alerts = Alerts::from_entries(Some(vec![]));
    alerts.replace(1, list_with(&[0])); // watches 2-3
    alerts.replace(2, list_with(&[2])); // watches 3-2
    alerts.replace(3, list_with(&[5])); // watches 4-6

    // Direct(2,3) is registry position 0.
    let users = alerts.users_watching(EscalatorInput::Direct(2, 3)).unwrap();
    assert_eq!(users, vec![1]);

    // Pair(2,3) covers positions 0 and 2.
    let users = alerts.users_watching(EscalatorInput::Pair(2, 3)).unwrap();
    assert_eq!(users, vec![1, 2]);

    // All covers everyone with a list.
    let users = alerts.users_watching(EscalatorInput::All).unwrap();
    assert_eq!(users, vec![1, 2, 3]);

    // A selection outside the registry is an error, not a crash.
    assert!(alerts.users_watching(EscalatorInput::Direct(2, 5)).is_err());
}

#[test]
fn watchlist_editor_toggles_and_submits() {
    let mut component = WatchlistComponent {
        watchlist: vec![
            (EscalatorFloors::new(2, 3), Subscription::Ignore),
            (EscalatorFloors::new(3, 2), Subscription::Watch),
        ],
    };

    let status = component.execute(WatchlistAction::Toggle(EscalatorFloors::new(2, 3)));
    assert!(matches!(status, ComponentStatus::Continue));
    assert!(component.watchlist[0].1.is_watching());
    assert!(component.watchlist[1].1.is_watching());

    // Toggling an unknown escalator changes nothing.
    component.execute(WatchlistAction::Toggle(EscalatorFloors::new(9, 9)));
    assert!(component.watchlist[0].1.is_watching());

    assert!(matches!(
        component.execute(WatchlistAction::Submit),
        ComponentStatus::Complete(())
    ));
}
