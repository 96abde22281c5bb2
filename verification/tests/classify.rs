use escalator_bot::kind::{classify, reduce_kinds, ReportKind};
use escalator_bot::status::Status;

#[test]
fn classification_cases() {
    // Redundant exactly when the status is unchanged.
    assert_eq!(classify(Some(Status::Open), Status::Open), ReportKind::Redundant);
    assert_eq!(classify(Some(Status::Down), Status::Down), ReportKind::Redundant);
    assert_eq!(classify(Some(Status::Blocked), Status::Blocked), ReportKind::Redundant);
    // Rejuvenate exactly when the previous status was unknown.
    assert_eq!(classify(None, Status::Open), ReportKind::Rejuvenate);
    assert_eq!(classify(None, Status::Down), ReportKind::Rejuvenate);
    assert_eq!(classify(None, Status::Blocked), ReportKind::Rejuvenate);
    // Normal in every remaining case.
    assert_eq!(classify(Some(Status::Open), Status::Down), ReportKind::Normal);
    assert_eq!(classify(Some(Status::Down), Status::Blocked), ReportKind::Normal);
    assert_eq!(classify(Some(Status::Blocked), Status::Open), ReportKind::Normal);
}

#[test]
fn reduction_picks_most_significant() {
    let r = ReportKind::Redundant;
    let j = ReportKind::Rejuvenate;
    let n = ReportKind::Normal;

    assert_eq!(reduce_kinds(&vec![]), r);
    assert_eq!(reduce_kinds(&vec![r, r, r]), r);
    assert_eq!(reduce_kinds(&vec![r, j, r]), j);
    assert_eq!(reduce_kinds(&vec![j, j]), j);
    assert_eq!(reduce_kinds(&vec![r, j, n, r]), n);
    assert_eq!(reduce_kinds(&vec![n]), n);
    // Order does not matter: only which kinds occur.
    assert_eq!(reduce_kinds(&vec![n, j, r]), reduce_kinds(&vec![r, j, n]));
    assert_eq!(reduce_kinds(&vec![j, r]), reduce_kinds(&vec![r, j]));
}

#[test]
fn significance_order() {
    assert_eq!(
        ReportKind::Normal.more_significant(ReportKind::Rejuvenate),
        ReportKind::Normal
    );
    assert_eq!(
        ReportKind::Rejuvenate.more_significant(ReportKind::Redundant),
        ReportKind::Rejuvenate
    );
    assert_eq!(
        ReportKind::Redundant.more_significant(ReportKind::Normal),
        ReportKind::Normal
    );
}
