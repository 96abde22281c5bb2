use escalator_bot::schedule::{is_reporting_hours, reports_open_at};

#[test]
fn reporting_hours_policy() {
    // Weekdays from 7:00 through 18:59.
    assert!(is_reporting_hours(0, 7));
    assert!(is_reporting_hours(4, 18));
    assert!(!is_reporting_hours(0, 6));
    assert!(!is_reporting_hours(0, 19));
    assert!(!is_reporting_hours(5, 12));
    assert!(!is_reporting_hours(6, 12));
}

#[test]
fn reports_open_follows_new_york_clock() {
    // Tuesday 2023-11-14 17:13 in New York (22:13 UTC): open. This holds
    // only if the timezone conversion really shifted the UTC hour.
    assert!(reports_open_at(1700000000));
    // Saturday 2023-11-18 12:00 in New York: closed (weekend).
    assert!(!reports_open_at(1700326800));
    // Tuesday 2023-11-14 04:00 in New York (09:00 UTC): closed (too early),
    // though the UTC hour lies inside the reporting window.
    assert!(!reports_open_at(1699952400));
}
