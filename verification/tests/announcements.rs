use escalator_bot::announce::{
    announcement_delay, is_buffered_redundant, AnnouncementBuilder,
};
use escalator_bot::escalator::EscalatorFloors;
use escalator_bot::input::EscalatorInput;
use escalator_bot::kind::ReportKind;
use escalator_bot::report::{Update, UserReport};
use escalator_bot::status::Status;

fn floors(start: u8, end: u8) -> EscalatorFloors {
    EscalatorFloors::new(start, end)
}

fn report(id: u64, escalators: EscalatorInput, status: Status) -> UserReport {
    UserReport {
        reporter: Some(id),
        escalators,
        affected_escalators: vec![],
        new_status: status,
    }
}

#[test]
fn outdated_entries_are_deduplicated() {
    let mut builder = AnnouncementBuilder::default();
    builder.add_update(Update::Outdated(floors(2, 3)));
    builder.add_update(Update::Outdated(floors(3, 2)));
    builder.add_update(Update::Outdated(floors(2, 3)));
    assert_eq!(builder.outdated, vec![floors(2, 3), floors(3, 2)]);
}

#[test]
fn report_clears_its_escalators_from_outdated() {
    let mut builder = AnnouncementBuilder::default();
    builder.add_update(Update::Outdated(floors(2, 3)));
    builder.add_update(Update::Outdated(floors(3, 2)));
    builder.add_update(Update::Outdated(floors(4, 6)));

    let r = report(1, EscalatorInput::Pair(2, 3), Status::Open);
    builder.add_update(Update::Report { report: r, kind: ReportKind::Normal });

    assert_eq!(builder.outdated, vec![floors(4, 6)]);
    assert_eq!(builder.reports.len(), 1);
}

#[test]
fn history_field_lists_newest_first() {
    let mut builder = AnnouncementBuilder::default();
    assert!(builder.history_field().is_none());

    let mut builder = AnnouncementBuilder::default();
    builder.add_report(report(1, EscalatorInput::Direct(2, 3), Status::Down));
    builder.add_report(report(2, EscalatorInput::Direct(3, 2), Status::Open));
    let text = builder.history_field().unwrap();
    assert_eq!(
        text,
        "`🟢` <@2> reported the `3-2` escalator.\n`🔴` <@1> reported the `2-3` escalator."
    );
}

#[test]
fn outdated_field_text() {
    let builder = AnnouncementBuilder::default();
    assert!(builder.outdated_field().is_none());

    let mut builder = AnnouncementBuilder::default();
    builder.add_update(Update::Outdated(floors(2, 3)));
    assert_eq!(
        builder.outdated_field().unwrap(),
        "`🟡` The `2-3` escalator has been marked as `UNKNOWN` due to infrequent reports."
    );

    builder.add_update(Update::Outdated(floors(3, 2)));
    assert_eq!(
        builder.outdated_field().unwrap(),
        "`🟡` The `2-3`, and `3-2` escalators have been marked as `UNKNOWN` due to infrequent reports."
    );
}

#[test]
fn redundant_reports_are_buffered_up_to_a_limit() {
    let redundant = Update::Report {
        report: report(1, EscalatorInput::Direct(2, 3), Status::Open),
        kind: ReportKind::Redundant,
    };
    let normal = Update::Report {
        report: report(1, EscalatorInput::Direct(2, 3), Status::Open),
        kind: ReportKind::Normal,
    };
    assert!(is_buffered_redundant(&redundant, 0));
    assert!(is_buffered_redundant(&redundant, 14));
    assert!(!is_buffered_redundant(&redundant, 15));
    assert!(!is_buffered_redundant(&normal, 0));
    assert!(!is_buffered_redundant(&Update::Outdated(floors(2, 3)), 0));
}

#[test]
fn delay_keeps_announcements_apart() {
    // 60 s minimum, 300 s maximum between announcements.
    assert_eq!(announcement_delay(0, 60, 300), 300);
    assert_eq!(announcement_delay(100, 60, 300), 200);
    assert_eq!(announcement_delay(240, 60, 300), 60);
    assert_eq!(announcement_delay(1000, 60, 300), 60);
}
