use escalator_bot::component::{
    ComponentAction, ComponentStatus, EscalatorAction, EscalatorComponent, Report,
    ReportComponent,
};
use escalator_bot::escalator::{escalator_index, is_valid_escalator, EscalatorFloors};
use escalator_bot::input::{EscalatorInput, InputError};
use escalator_bot::status::Status;

#[test]
fn parse_direct_and_pair() {
    assert!(matches!(EscalatorInput::parse("2-3"), Ok(EscalatorInput::Direct(2, 3))));
    assert!(matches!(EscalatorInput::parse("4-2"), Ok(EscalatorInput::Direct(4, 2))));
    assert!(matches!(EscalatorInput::parse("7/9"), Ok(EscalatorInput::Pair(7, 9))));
    assert!(matches!(EscalatorInput::parse("all"), Ok(EscalatorInput::All)));
    assert!(matches!(EscalatorInput::parse("ALL"), Ok(EscalatorInput::All)));
    assert!(matches!(EscalatorInput::parse("aLl"), Ok(EscalatorInput::All)));
}

#[test]
fn parse_rejects_bad_input() {
    assert!(matches!(EscalatorInput::parse("a-3"), Err(InputError::InvalidFloor('a'))));
    assert!(matches!(EscalatorInput::parse("2-x"), Err(InputError::InvalidFloor('x'))));
    assert!(matches!(EscalatorInput::parse("0-2"), Err(InputError::InvalidFloor('0'))));
    assert!(matches!(EscalatorInput::parse("1-3"), Err(InputError::InvalidEscalator(1, 3))));
    assert!(matches!(EscalatorInput::parse("2-5"), Err(InputError::InvalidEscalator(2, 5))));
    assert!(matches!(EscalatorInput::parse("23"), Err(InputError::UnknownFormat)));
    assert!(matches!(EscalatorInput::parse("2_3"), Err(InputError::UnknownFormat)));
    assert!(matches!(EscalatorInput::parse(""), Err(InputError::UnknownFormat)));
}

#[test]
fn registry_rules() {
    assert!(is_valid_escalator(2, 3));
    assert!(is_valid_escalator(3, 2));
    assert!(is_valid_escalator(2, 4));
    assert!(is_valid_escalator(9, 7));
    assert!(!is_valid_escalator(2, 5));
    assert!(!is_valid_escalator(1, 3));
    assert!(!is_valid_escalator(9, 11));

    assert_eq!(escalator_index(EscalatorFloors::new(2, 3)), Some(0));
    assert_eq!(escalator_index(EscalatorFloors::new(9, 7)), Some(13));
    assert_eq!(escalator_index(EscalatorFloors::new(2, 5)), None);
}

#[test]
fn input_expansion() {
    assert_eq!(
        EscalatorInput::Pair(2, 3).escalators(),
        vec![EscalatorFloors::new(2, 3), EscalatorFloors::new(3, 2)]
    );
    assert_eq!(EscalatorInput::Direct(4, 6).escalators(), vec![EscalatorFloors::new(4, 6)]);
    assert_eq!(EscalatorInput::All.escalators().len(), 14);

    let mut iter = EscalatorInput::Pair(5, 7).iter();
    assert_eq!(iter.next(), Some(EscalatorFloors::new(5, 7)));
    assert_eq!(iter.next(), Some(EscalatorFloors::new(7, 5)));
    assert_eq!(iter.next(), None);

    assert!(EscalatorInput::Direct(2, 3).is_singular());
    assert!(!EscalatorInput::Pair(2, 3).is_singular());
    assert!(!EscalatorInput::All.is_singular());
}

#[test]
fn status_parse_ignores_case() {
    assert!(matches!(Status::parse("open"), Ok(Status::Open)));
    assert!(matches!(Status::parse("DOWN"), Ok(Status::Down)));
    assert!(matches!(Status::parse("Blocked"), Ok(Status::Blocked)));
    let err = Status::parse("busted").unwrap_err();
    assert_eq!(err.0, "BUSTED");
}

#[test]
fn status_ids_and_emoji() {
    assert_eq!(Status::Open.as_id_str(), "OPEN");
    assert_eq!(Status::Down.as_id_str(), "DOWN");
    assert_eq!(Status::Blocked.as_id_str(), "BLOCKED");
    assert_eq!(Status::Open.emoji(), '🟢');
    assert_eq!(Status::Down.emoji(), '🔴');
    assert_eq!(Status::Blocked.emoji(), '⛔');
}

#[test]
fn component_action_parsing() {
    assert!(matches!(
        ComponentAction::parse("REPORT-PAIR"),
        Some(ComponentAction::Escalator(EscalatorAction::Pair))
    ));
    assert!(matches!(
        ComponentAction::parse("REPORT-ALL"),
        Some(ComponentAction::Escalator(EscalatorAction::All))
    ));
    assert!(matches!(
        ComponentAction::parse("REPORT-FLOOR-7"),
        Some(ComponentAction::Escalator(EscalatorAction::Floor(7)))
    ));
    assert!(matches!(
        ComponentAction::parse("REPORT-SUBMIT"),
        Some(ComponentAction::Submit)
    ));
    assert!(matches!(
        ComponentAction::parse("REPORT-STATUS-DOWN"),
        Some(ComponentAction::Status(Status::Down))
    ));
    assert!(matches!(
        ComponentAction::parse("REPORT-STATUS-open"),
        Some(ComponentAction::Status(Status::Open))
    ));
    assert_eq!(ComponentAction::parse("REPORT-STATUS-GONE"), None);
    assert_eq!(ComponentAction::parse("REPORT-FLOOR-"), None);
    assert_eq!(ComponentAction::parse("REPORT-FLOOR-999"), None);
    assert_eq!(ComponentAction::parse("SOMETHING-ELSE"), None);
}

#[test]
fn report_component_flow() {
    // Select floor 2, then 4 (a valid escalator), then the status, then
    // submit: the menu completes with Direct(2, 4).
    let mut component = ReportComponent::new();
    assert!(matches!(
        component.execute(ComponentAction::Escalator(EscalatorAction::Floor(2))),
        ComponentStatus::Continue
    ));
    assert!(component.escalators.is_floor_selected(2));
    assert!(component.escalators.is_valid_next_floor(4));
    assert!(!component.escalators.is_valid_next_floor(5));

    component.execute(ComponentAction::Escalator(EscalatorAction::Floor(4)));
    assert!(component.escalators.is_floor_selected(4));

    // Submitting without a status keeps the menu open.
    assert!(matches!(
        component.execute(ComponentAction::Submit),
        ComponentStatus::Continue
    ));

    component.execute(ComponentAction::Status(Status::Down));
    match component.execute(ComponentAction::Submit) {
        ComponentStatus::Complete(Report { escalators, status }) => {
            assert!(matches!(escalators, EscalatorInput::Direct(2, 4)));
            assert_eq!(status, Status::Down);
        }
        ComponentStatus::Continue => panic!("expected a completed report"),
    }
}

#[test]
fn floor_toggling() {
    let mut esc = EscalatorComponent::new();
    // An invalid continuation changes nothing.
    esc.toggle_floor(2);
    esc.toggle_floor(5);
    assert!(esc.is_floor_selected(2));
    assert!(!esc.is_floor_selected(5));
    // Unselecting the end leaves the start.
    esc.toggle_floor(4);
    esc.toggle_floor(4);
    assert!(esc.is_floor_selected(2));
    assert!(!esc.is_floor_selected(4));
    // Unselecting the start when an end exists keeps the end as start.
    esc.toggle_floor(4);
    esc.toggle_floor(2);
    assert!(esc.is_floor_selected(4));
    assert!(!esc.is_floor_selected(2));
}

#[test]
fn pair_and_all_toggling() {
    let mut esc = EscalatorComponent::new();
    esc.execute(EscalatorAction::Pair);
    assert!(esc.is_pair());
    esc.execute(EscalatorAction::All);
    assert!(esc.is_all());
    assert_eq!(esc.try_as_escalators(), Some(EscalatorInput::All));
    // Toggling all again resets the selection entirely.
    esc.execute(EscalatorAction::All);
    assert!(!esc.is_all());
    assert!(!esc.is_pair());
    assert_eq!(esc.try_as_escalators(), None);

    esc.toggle_floor(3);
    esc.toggle_floor(5);
    esc.execute(EscalatorAction::Pair);
    assert_eq!(esc.try_as_escalators(), Some(EscalatorInput::Pair(3, 5)));
}

#[test]
fn status_button_toggles() {
    let mut component = ReportComponent::new();
    component.execute(ComponentAction::Status(Status::Open));
    assert_eq!(component.status, Some(Status::Open));
    // A different status while one is selected is ignored.
    component.execute(ComponentAction::Status(Status::Down));
    assert_eq!(component.status, Some(Status::Open));
    // The same status again unselects.
    component.execute(ComponentAction::Status(Status::Open));
    assert_eq!(component.status, None);
}
