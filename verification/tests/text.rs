use escalator_bot::escalator::{Escalator, EscalatorFloors};
use escalator_bot::generate::{
    alert, announcement, menu_status, nounify_escalators, report_message, summarize_status,
    Timestamp,
};
use escalator_bot::input::EscalatorInput;
use escalator_bot::report::UserReport;
use escalator_bot::status::Status;

fn floors(start: u8, end: u8) -> EscalatorFloors {
    EscalatorFloors::new(start, end)
}

fn report(
    reporter: Option<u64>,
    escalators: EscalatorInput,
    affected: Vec<EscalatorFloors>,
    status: Status,
) -> UserReport {
    UserReport { reporter, escalators, affected_escalators: affected, new_status: status }
}

#[test]
fn nounify_forms() {
    assert_eq!(nounify_escalators(&vec![]), "`NO` escalators");
    assert_eq!(nounify_escalators(&vec![floors(2, 3)]), "The `2-3` escalator");
    assert_eq!(
        nounify_escalators(&vec![floors(2, 3), floors(3, 2)]),
        "The `2-3`, and `3-2` escalators"
    );
    assert_eq!(
        nounify_escalators(&vec![floors(2, 3), floors(3, 2), floors(2, 4)]),
        "The `2-3`, `3-2`, and `2-4` escalators"
    );
}

#[test]
fn summaries() {
    let one = vec![floors(2, 3)];
    assert_eq!(
        summarize_status(Some(Status::Down), &one, 14),
        "`🔴` The `2-3` escalator is `DOWN`."
    );
    let many: Vec<EscalatorFloors> = (0u8..7).map(|i| floors(2 + i, 4 + i)).collect();
    assert_eq!(
        summarize_status(Some(Status::Blocked), &many, 14),
        "`⛔` `MANY` escalators are `BLOCKED`."
    );
    let all: Vec<EscalatorFloors> = (0u8..14).map(|i| floors(i, i)).collect();
    assert_eq!(summarize_status(None, &all, 14), "`🟡` `ALL` escalators are `UNKNOWN`.");
}

#[test]
fn alert_message() {
    let r = report(
        Some(1),
        EscalatorInput::Direct(4, 2),
        vec![floors(4, 2)],
        Status::Down,
    );
    assert_eq!(alert(&r), "`🔴` The `4-2` escalator is `DOWN`");

    let r = report(
        None,
        EscalatorInput::Pair(4, 2),
        vec![floors(4, 2), floors(2, 4)],
        Status::Blocked,
    );
    assert_eq!(alert(&r), "`⛔` The `4-2`, and `2-4` escalators are `BLOCKED`");
}

#[test]
fn report_messages() {
    let named = report(
        Some(42),
        EscalatorInput::Direct(2, 3),
        vec![floors(2, 3)],
        Status::Open,
    );
    assert_eq!(report_message(&named), "`🟢` <@42> reported the `2-3` escalator.");

    let anonymous = report(None, EscalatorInput::Pair(3, 2), vec![], Status::Down);
    assert_eq!(
        report_message(&anonymous),
        "`🔴` an unknown user reported the `2-3` and `3-2` escalators."
    );

    let everything = report(Some(9), EscalatorInput::All, vec![], Status::Blocked);
    assert_eq!(report_message(&everything), "`⛔` <@9> reported `ALL` escalators.");
}

#[test]
fn input_nouns() {
    assert_eq!(EscalatorInput::All.message_noun(), "`ALL` escalators");
    assert_eq!(EscalatorInput::Pair(5, 3).message_noun(), "the `3-5` and `5-3` escalators");
    assert_eq!(EscalatorInput::Direct(5, 3).message_noun(), "the `5-3` escalator");
    assert_eq!(EscalatorInput::All.short_noun(), "ALL escalators");
    assert_eq!(EscalatorInput::Pair(5, 3).short_noun(), "3-5 and 5-3");
    assert_eq!(EscalatorInput::Direct(5, 3).short_noun(), "5-3");
}

#[test]
fn announcement_truncation() {
    let mk = |id: u64| {
        report(Some(id), EscalatorInput::Direct(2, 3), vec![floors(2, 3)], Status::Open)
    };
    let reports = vec![mk(1), mk(2), mk(3)];

    // Up to the limit, every report is listed.
    let full = announcement(3, &reports);
    assert_eq!(full.matches('\n').count(), 2);
    assert!(full.contains("<@1>"));
    assert!(full.contains("<@3>"));

    // Over the limit, the first limit-1 are listed with a trailer counting
    // the rest.
    let truncated = announcement(2, &reports);
    assert!(truncated.starts_with("`🟢` <@1> reported the `2-3` escalator.\n"));
    assert!(truncated.ends_with("\n*(...and 2 more)*"));
    assert!(!truncated.contains("<@2>"));
}

#[test]
fn menu_status_chunks_two_per_line() {
    let escalators = vec![
        Escalator { floors: floors(2, 3), status: Status::Open },
        Escalator { floors: floors(3, 2), status: Status::Down },
        Escalator { floors: floors(2, 4), status: Status::Blocked },
    ];
    assert_eq!(
        menu_status(&escalators),
        "**Escalator Statuses:**```\n🟢 2-3 🔴 3-2\n⛔ 2-4```"
    );
    assert_eq!(menu_status(&vec![]), "**Escalator Statuses:**```\n```");
}

#[test]
fn timestamp_tags() {
    assert_eq!(Timestamp::Default.generate_at(1700000000), "<t:1700000000>");
    assert_eq!(Timestamp::Relative.generate_at(1700000000), "<t:1700000000:R>");
    assert_eq!(Timestamp::ShortTime.generate_at(0), "<t:0:t>");
    assert_eq!(Timestamp::Long.generate_at(86400), "<t:86400:F>");
    assert_eq!(Timestamp::LongDate.as_style(), Some("D"));
    assert_eq!(Timestamp::Default.as_style(), None);
}
