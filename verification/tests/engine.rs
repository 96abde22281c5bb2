use escalator_bot::bus::TryRecvResult;
use escalator_bot::escalator::EscalatorFloors;
use escalator_bot::input::EscalatorInput;
use escalator_bot::kind::ReportKind;
use escalator_bot::record::Info;
use escalator_bot::report::{Update, UserReport};
use escalator_bot::status::Status;
use escalator_bot::statuses::Statuses;

const HOUR: u64 = 3600;

fn two_escalator_records(status: Option<Status>) -> Vec<(EscalatorFloors, Info)> {
    vec![
        (EscalatorFloors::new(2, 3), Info { status, last_update: 0 }),
        (EscalatorFloors::new(3, 2), Info { status, last_update: 0 }),
    ]
}

fn direct_report(start: u8, end: u8, status: Status) -> UserReport {
    UserReport {
        reporter: None,
        escalators: EscalatorInput::Direct(start, end),
        affected_escalators: vec![EscalatorFloors::new(start, end)],
        new_status: status,
    }
}

#[test]
fn direct_report_on_unknown_is_rejuvenate() {
    // Two-escalator registry; a direct report sets one record, leaves the
    // other untouched, and publishes exactly one update with its kind.
    let mut statuses = Statuses::new(two_escalator_records(None), 16, HOUR, false);
    let mut rx = statuses.subscribe_updates();

    let kind = statuses.report(direct_report(2, 3, Status::Down), 100);

    assert_eq!(kind, ReportKind::Rejuvenate);
    let touched = statuses.get_info(EscalatorFloors::new(2, 3)).unwrap();
    assert_eq!(touched.status, Some(Status::Down));
    assert_eq!(touched.last_update, 100);
    let untouched = statuses.get_info(EscalatorFloors::new(3, 2)).unwrap();
    assert_eq!(untouched.status, None);
    assert!(statuses.needs_save());

    match statuses.try_recv_update(&mut rx) {
        TryRecvResult::Message(Update::Report { kind, .. }) => {
            assert_eq!(*kind, ReportKind::Rejuvenate)
        }
        other => panic!("expected one report update, got {:?}", other),
    }
    assert!(matches!(statuses.try_recv_update(&mut rx), TryRecvResult::Empty));
}

#[test]
fn repeated_report_is_redundant() {
    // The same report twice: the second changes nothing and needs no save.
    let mut statuses = Statuses::new(two_escalator_records(None), 16, HOUR, false);

    assert_eq!(statuses.report(direct_report(2, 3, Status::Down), 100), ReportKind::Rejuvenate);
    statuses.mark_saved();

    assert_eq!(statuses.report(direct_report(2, 3, Status::Down), 200), ReportKind::Redundant);
    let info = statuses.get_info(EscalatorFloors::new(2, 3)).unwrap();
    assert_eq!(info.status, Some(Status::Down));
    assert!(!statuses.needs_save());
}

#[test]
fn pair_report_flips_both() {
    // Pair(2,3) on two open records: both flip to blocked, both classified
    // normal, overall kind normal, engine dirty.
    let mut statuses = Statuses::new(two_escalator_records(Some(Status::Open)), 16, HOUR, false);

    let report = UserReport {
        reporter: None,
        escalators: EscalatorInput::Pair(2, 3),
        affected_escalators: vec![EscalatorFloors::new(2, 3), EscalatorFloors::new(3, 2)],
        new_status: Status::Blocked,
    };
    let kind = statuses.report(report, 50);

    assert_eq!(kind, ReportKind::Normal);
    assert_eq!(
        statuses.get_info(EscalatorFloors::new(2, 3)).unwrap().status,
        Some(Status::Blocked)
    );
    assert_eq!(
        statuses.get_info(EscalatorFloors::new(3, 2)).unwrap().status,
        Some(Status::Blocked)
    );
    assert!(statuses.needs_save());
}

#[test]
fn sweep_reverts_stale_status() {
    // Threshold one hour, record two hours old with a known status: one
    // sweep reverts it to unknown and reports the change.
    let mut info = Info { status: Some(Status::Down), last_update: 0 };
    assert!(info.handle_outdated(2 * HOUR, HOUR));
    assert_eq!(info.status, None);

    // Further sweeps keep it unknown and report no change.
    assert!(!info.handle_outdated(3 * HOUR, HOUR));
    assert_eq!(info.status, None);
}

#[test]
fn engine_sweep_publishes_outdated() {
    let mut statuses = Statuses::new(two_escalator_records(Some(Status::Down)), 16, HOUR, false);
    let mut rx = statuses.subscribe_updates();

    statuses.handle_outdated(2 * HOUR);

    assert!(statuses.needs_save());
    assert_eq!(statuses.get_info(EscalatorFloors::new(2, 3)).unwrap().status, None);
    assert_eq!(statuses.get_info(EscalatorFloors::new(3, 2)).unwrap().status, None);
    for expected in [EscalatorFloors::new(2, 3), EscalatorFloors::new(3, 2)] {
        match statuses.try_recv_update(&mut rx) {
            TryRecvResult::Message(Update::Outdated(floors)) => assert_eq!(*floors, expected),
            other => panic!("expected an outdated update, got {:?}", other),
        }
    }
    assert!(matches!(statuses.try_recv_update(&mut rx), TryRecvResult::Empty));

    // A second sweep at the same time changes nothing and publishes nothing.
    statuses.handle_outdated(2 * HOUR);
    assert!(matches!(statuses.try_recv_update(&mut rx), TryRecvResult::Empty));
}

#[test]
fn later_sweep_leaves_demoted_records_alone() {
    // One record goes stale first, the other only later: each sweep
    // publishes exactly the newly stale record, and an already demoted
    // record never publishes again.
    let records = vec![
        (EscalatorFloors::new(2, 3), Info { status: Some(Status::Down), last_update: 0 }),
        (EscalatorFloors::new(3, 2), Info { status: Some(Status::Open), last_update: 2 * HOUR }),
    ];
    let mut statuses = Statuses::new(records, 16, HOUR, false);
    let mut rx = statuses.subscribe_updates();

    statuses.handle_outdated(HOUR);
    match statuses.try_recv_update(&mut rx) {
        TryRecvResult::Message(Update::Outdated(floors)) => {
            assert_eq!(*floors, EscalatorFloors::new(2, 3))
        }
        other => panic!("expected one outdated update, got {:?}", other),
    }
    assert!(matches!(statuses.try_recv_update(&mut rx), TryRecvResult::Empty));
    statuses.mark_saved();

    statuses.handle_outdated(3 * HOUR);
    match statuses.try_recv_update(&mut rx) {
        TryRecvResult::Message(Update::Outdated(floors)) => {
            assert_eq!(*floors, EscalatorFloors::new(3, 2))
        }
        other => panic!("expected one outdated update, got {:?}", other),
    }
    assert!(matches!(statuses.try_recv_update(&mut rx), TryRecvResult::Empty));

    // A further sweep with nothing newly stale publishes nothing and leaves
    // the dirty flag alone.
    statuses.mark_saved();
    statuses.handle_outdated(4 * HOUR);
    assert!(matches!(statuses.try_recv_update(&mut rx), TryRecvResult::Empty));
    assert!(!statuses.needs_save());
}

#[test]
fn fresh_record_is_not_swept() {
    let mut info = Info { status: Some(Status::Open), last_update: 2 * HOUR };
    assert!(!info.handle_outdated(2 * HOUR + 30, HOUR));
    assert_eq!(info.status, Some(Status::Open));
}

#[test]
fn unknown_escalator_is_skipped() {
    // A pair report whose reverse direction is not registered: the known
    // direction still updates, the unknown one causes no error.
    let records = vec![(EscalatorFloors::new(2, 3), Info { status: None, last_update: 0 })];
    let mut statuses = Statuses::new(records, 16, HOUR, false);

    let report = UserReport {
        reporter: None,
        escalators: EscalatorInput::Pair(2, 3),
        affected_escalators: vec![EscalatorFloors::new(2, 3)],
        new_status: Status::Down,
    };
    let kind = statuses.report(report, 10);

    assert_eq!(kind, ReportKind::Rejuvenate);
    assert_eq!(
        statuses.get_info(EscalatorFloors::new(2, 3)).unwrap().status,
        Some(Status::Down)
    );
    assert!(statuses.get_info(EscalatorFloors::new(3, 2)).is_none());
}

#[test]
fn report_on_empty_registry_reduces_to_redundant() {
    let mut statuses = Statuses::new(vec![], 16, HOUR, false);
    let kind = statuses.report(direct_report(2, 3, Status::Down), 10);
    assert_eq!(kind, ReportKind::Redundant);
    assert!(!statuses.needs_save());
}

#[test]
fn affected_escalators_of_a_report() {
    // Only registered targets whose status actually differs are affected.
    let records = vec![
        (EscalatorFloors::new(2, 3), Info { status: Some(Status::Down), last_update: 0 }),
        (EscalatorFloors::new(3, 2), Info { status: Some(Status::Open), last_update: 0 }),
    ];
    let statuses = Statuses::new(records, 16, HOUR, false);

    assert_eq!(
        statuses.affected_by(EscalatorInput::Pair(2, 3), Status::Down),
        vec![EscalatorFloors::new(3, 2)]
    );
    assert_eq!(
        statuses.affected_by(EscalatorInput::All, Status::Down),
        vec![EscalatorFloors::new(3, 2)]
    );
    assert_eq!(statuses.affected_by(EscalatorInput::Direct(2, 3), Status::Down), vec![]);
    // An unregistered target is skipped, not an error.
    assert_eq!(statuses.affected_by(EscalatorInput::Direct(4, 6), Status::Down), vec![]);
}

#[test]
fn snapshot_round_trip() {
    let mut statuses = Statuses::new(two_escalator_records(None), 16, HOUR, false);
    statuses.report(direct_report(2, 3, Status::Blocked), 77);
    let snapshot = statuses.snapshot();

    let restored = Statuses::from_snapshot(Some(snapshot), 16, HOUR);
    assert!(!restored.needs_save());
    assert_eq!(
        restored.get_info(EscalatorFloors::new(2, 3)).unwrap().status,
        Some(Status::Blocked)
    );
    assert_eq!(restored.get_info(EscalatorFloors::new(2, 3)).unwrap().last_update, 77);
}

#[test]
fn missing_snapshot_falls_back_to_default() {
    let statuses = Statuses::from_snapshot(None, 16, HOUR);
    assert!(statuses.needs_save());
    let info = statuses.get_info(EscalatorFloors::new(9, 7)).unwrap();
    assert_eq!(info.status, None);
    assert_eq!(info.last_update, 0);
}

#[test]
fn default_menu_message_lists_pairs() {
    let statuses = Statuses::from_snapshot(None, 16, HOUR);
    let expected = "**Escalator Statuses:**```\n\
        🟡 2-3 🟡 3-2\n🟡 2-4 🟡 4-2\n🟡 3-5 🟡 5-3\n🟡 4-6 🟡 6-4\n\
        🟡 5-7 🟡 7-5\n🟡 6-8 🟡 8-6\n🟡 7-9 🟡 9-7```";
    assert_eq!(statuses.menu_message(), expected);
}

#[test]
fn gist_reports_unknowns_and_issues() {
    let mut statuses = Statuses::from_snapshot(None, 16, HOUR);
    let gist = statuses.gist();
    assert_eq!(gist.description, "`🟡` `ALL` escalators are `UNKNOWN`.");
    assert_eq!(gist.color, (250, 190, 25));

    let all_open = UserReport {
        reporter: None,
        escalators: EscalatorInput::All,
        affected_escalators: vec![],
        new_status: Status::Open,
    };
    statuses.report(all_open, 5);
    let gist = statuses.gist();
    assert_eq!(gist.description, "`🟢` `ALL` escalators are `OPEN`! 🥳 🎉");
    assert_eq!(gist.color, (55, 220, 70));

    statuses.report(direct_report(4, 2, Status::Down), 6);
    let gist = statuses.gist();
    assert_eq!(gist.description, "`🔴` The `4-2` escalator is `DOWN`.");
    assert_eq!(gist.color, (240, 60, 60));
}
