//! The interactive report menu's state machine: which floors and status the
//! user has selected so far, how each button press changes the selection,
//! and the parsing of button ids back into actions.

use vstd::prelude::*;

use crate::escalator::{is_valid_escalator, valid_escalator_spec};
use crate::input::EscalatorInput;
use crate::status::{upper_seq, Status};

verus! {

/// A report being assembled in the interactive menu.
#[derive(Debug, Clone, Copy)]
pub struct ReportComponent {
    pub escalators: EscalatorComponent,
    pub status: Option<Status>,
}

/// The escalator-selection half of the report menu: either individual floors
/// (at most a start and an end, optionally as a pair) or every escalator.
#[derive(Debug, Clone, Copy, PartialEq, Eq)]
pub enum EscalatorComponent {
    Floors { floors: Option<(u8, Option<u8>)>, pair: bool },
    All,
}

/// Whether an interaction keeps the menu open or completes it with a value.
#[derive(Debug, Clone, Copy, PartialEq, Eq, Structural)]
pub enum ComponentStatus<T> {
    Continue,
    Complete(T),
}

/// One button press in the report menu.
#[derive(Debug, Clone, Copy, PartialEq, Eq, Structural)]
pub enum ComponentAction {
    Escalator(EscalatorAction),
    Status(Status),
    Submit,
}

/// One button press in the escalator-selection half.
#[derive(Debug, Clone, Copy, PartialEq, Eq, Structural)]
pub enum EscalatorAction {
    Pair,
    All,
    Floor(u8),
}

/// A completed selection: which escalators, and what status to report.
#[derive(Debug, Clone, Copy, PartialEq, Eq, Structural)]
pub struct Report {
    pub escalators: EscalatorInput,
    pub status: Status,
}

/// How a button is drawn: highlighted, plain, or not pressable.
#[derive(Debug, Clone, Copy, PartialEq, Eq, Structural)]
pub enum ButtonState {
    Selected,
    Unselected,
    Disabled,
}

impl ButtonState {
    pub fn disabled_if(disabled: bool) -> (r: ButtonState)
        ensures
            r == (if disabled {
                ButtonState::Disabled
            } else {
                ButtonState::Unselected
            }),
    {
        if disabled {
            ButtonState::Disabled
        } else {
            ButtonState::Unselected
        }
    }

    pub fn selected_if(selected: bool) -> (r: ButtonState)
        ensures
            r == (if selected {
                ButtonState::Selected
            } else {
                ButtonState::Unselected
            }),
    {
        if selected {
            ButtonState::Selected
        } else {
            ButtonState::Unselected
        }
    }

    /// This state unless it is plain; then the other one.
    pub fn or_else(self, other: ButtonState) -> (r: ButtonState)
        ensures
            r == (if self == ButtonState::Unselected {
                other
            } else {
                self
            }),
    {
        match self {
            ButtonState::Unselected => other,
            _ => self,
        }
    }
}

impl EscalatorComponent {
    /// Nothing selected yet.
    pub fn new() -> (r: EscalatorComponent)
        ensures
            r == (EscalatorComponent::Floors { floors: None, pair: false }),
    {
        EscalatorComponent::Floors { floors: None, pair: false }
    }

    /// The selection this state stands for, once it is complete: both floors
    /// chosen (one direction or the pair), or every escalator.
    pub open spec fn as_escalators_spec(self) -> Option<EscalatorInput> {
        match self {
            EscalatorComponent::Floors { floors, pair } => {
                match floors {
                    Some((start, maybe_end)) => {
                        match maybe_end {
                            Some(end) => {
                                if pair {
                                    Some(EscalatorInput::Pair(start, end))
                                } else {
                                    Some(EscalatorInput::Direct(start, end))
                                }
                            },
                            None => None,
                        }
                    },
                    None => None,
                }
            },
            EscalatorComponent::All => Some(EscalatorInput::All),
        }
    }

    /// The selection this state stands for, once it is complete.
    pub fn try_as_escalators(&self) -> (r: Option<EscalatorInput>)
        ensures
            r == self.as_escalators_spec(),
    {
        match self {
            EscalatorComponent::Floors { floors: Some((start, Some(end))), pair } => {
                if *pair {
                    Some(EscalatorInput::Pair(*start, *end))
                } else {
                    Some(EscalatorInput::Direct(*start, *end))
                }
            },
            EscalatorComponent::All => Some(EscalatorInput::All),
            _ => None,
        }
    }

    /// What pressing a floor button does: select a start, complete a valid
    /// pair, or unselect again; pressing an invalid continuation changes
    /// nothing, and the all-escalators state ignores floors.
    pub open spec fn toggle_floor_spec(self, floor: u8) -> EscalatorComponent {
        match self {
            EscalatorComponent::Floors { floors, pair } => {
                match floors {
                    None => EscalatorComponent::Floors { floors: Some((floor, None)), pair },
                    Some((start, maybe_end)) => {
                        if start == floor {
                            match maybe_end {
                                Some(end) => EscalatorComponent::Floors {
                                    floors: Some((end, None)),
                                    pair,
                                },
                                None => EscalatorComponent::Floors { floors: None, pair },
                            }
                        } else {
                            match maybe_end {
                                None => {
                                    if valid_escalator_spec(start, floor) {
                                        EscalatorComponent::Floors {
                                            floors: Some((start, Some(floor))),
                                            pair,
                                        }
                                    } else {
                                        self
                                    }
                                },
                                Some(end) => {
                                    if end == floor {
                                        EscalatorComponent::Floors {
                                            floors: Some((start, None)),
                                            pair,
                                        }
                                    } else {
                                        self
                                    }
                                },
                            }
                        }
                    },
                }
            },
            EscalatorComponent::All => self,
        }
    }

    /// Press a floor button.
    pub fn toggle_floor(&mut self, floor: u8)
        ensures
            *final(self) == old(self).toggle_floor_spec(floor),
    {
        match self {
            EscalatorComponent::Floors { floors, .. } => {
                let Some((start, maybe_end)) = floors else {
                    *floors = Some((floor, None));
                    return ;
                };
                if *start == floor {
                    if let Some(end) = maybe_end {
                        *floors = Some((*end, None));
                    } else {
                        *floors = None;
                    }
                    return ;
                }
                let Some(end) = maybe_end else {
                    if is_valid_escalator(*start, floor) {
                        *maybe_end = Some(floor);
                    }
                    return ;
                };
                if *end == floor {
                    *maybe_end = None;
                }
            },
            EscalatorComponent::All => {},
        }
    }

    /// What one escalator-half button press does: toggle pair mode, toggle
    /// the all-escalators state, or toggle a floor.
    pub open spec fn execute_spec(self, command: EscalatorAction) -> EscalatorComponent {
        match command {
            EscalatorAction::Pair => {
                match self {
                    EscalatorComponent::Floors { floors, pair } => EscalatorComponent::Floors {
                        floors,
                        pair: !pair,
                    },
                    EscalatorComponent::All => self,
                }
            },
            EscalatorAction::All => {
                match self {
                    EscalatorComponent::Floors { .. } => EscalatorComponent::All,
                    EscalatorComponent::All => EscalatorComponent::Floors {
                        floors: None,
                        pair: false,
                    },
                }
            },
            EscalatorAction::Floor(floor) => self.toggle_floor_spec(floor),
        }
    }

    /// Apply one escalator-half button press.
    pub fn execute(&mut self, command: EscalatorAction)
        ensures
            *final(self) == old(self).execute_spec(command),
    {
        match command {
            EscalatorAction::Pair => {
                if let EscalatorComponent::Floors { pair, .. } = self {
                    *pair = !*pair;
                }
            },
            EscalatorAction::All => {
                match self {
                    EscalatorComponent::Floors { .. } => {
                        *self = EscalatorComponent::All;
                    },
                    EscalatorComponent::All => {
                        *self = EscalatorComponent::new();
                    },
                }
            },
            EscalatorAction::Floor(floor) => self.toggle_floor(floor),
        }
    }

    pub fn is_all(&self) -> (r: bool)
        ensures
            r == (self is All),
    {
        match self {
            EscalatorComponent::Floors { .. } => false,
            EscalatorComponent::All => true,
        }
    }

    pub fn is_pair(&self) -> (r: bool)
        ensures
            r == (match *self {
                EscalatorComponent::Floors { pair, .. } => pair,
                EscalatorComponent::All => false,
            }),
    {
        match self {
            EscalatorComponent::Floors { pair, .. } => *pair,
            EscalatorComponent::All => false,
        }
    }

    /// Whether a floor button shows as selected.
    pub fn is_floor_selected(&self, floor: u8) -> (r: bool)
        ensures
            r == (match *self {
                EscalatorComponent::Floors { floors: Some((start, maybe_end)), .. } => start
                    == floor || maybe_end == Some(floor),
                _ => false,
            }),
    {
        match self {
            EscalatorComponent::Floors { floors: Some((start, maybe_end)), .. } => *start == floor
                || *maybe_end == Some(floor),
            _ => false,
        }
    }

    /// Whether pressing a floor could extend the current selection.
    pub fn is_valid_next_floor(&self, floor: u8) -> (r: bool)
        ensures
            r == (match *self {
                EscalatorComponent::Floors { floors, .. } => {
                    match floors {
                        Some((start, None)) => valid_escalator_spec(start, floor),
                        Some((_, Some(_))) => false,
                        None => true,
                    }
                },
                EscalatorComponent::All => false,
            }),
    {
        match self {
            EscalatorComponent::Floors { floors, .. } => {
                match floors {
                    Some((start, None)) => is_valid_escalator(*start, floor),
                    Some((_, Some(_))) => false,
                    None => true,
                }
            },
            EscalatorComponent::All => false,
        }
    }
}

/// What pressing a status button does: select when none is selected,
/// unselect when the same one is pressed again, ignore a different one.
pub open spec fn status_select_spec(current: Option<Status>, pressed: Status) -> Option<Status> {
    match current {
        Some(old_status) => {
            if old_status == pressed {
                None
            } else {
                current
            }
        },
        None => Some(pressed),
    }
}

impl ReportComponent {
    /// An empty report menu: no escalators, no status.
    pub fn new() -> (r: ReportComponent)
        ensures
            r.escalators == (EscalatorComponent::Floors { floors: None, pair: false }),
            r.status is None,
    {
        ReportComponent { escalators: EscalatorComponent::new(), status: None }
    }

    /// The completed report this state stands for, if both halves are done.
    pub open spec fn as_report_spec(self) -> Option<Report> {
        match self.escalators.as_escalators_spec() {
            Some(escalators) => {
                match self.status {
                    Some(status) => Some(Report { escalators, status }),
                    None => None,
                }
            },
            None => None,
        }
    }

    /// The completed report this state stands for, if both halves are done.
    pub fn try_as_report(&self) -> (r: Option<Report>)
        ensures
            r == self.as_report_spec(),
    {
        match self.escalators.try_as_escalators() {
            Some(escalators) => {
                match self.status {
                    Some(status) => Some(Report { escalators, status }),
                    None => None,
                }
            },
            None => None,
        }
    }

    /// Apply one button press: escalator presses and status presses keep the
    /// menu open; submit completes it exactly when both halves are selected,
    /// and otherwise changes nothing.
    pub fn execute(&mut self, command: ComponentAction) -> (r: ComponentStatus<Report>)
        ensures
            match command {
                ComponentAction::Escalator(cmd) => {
                    &&& r is Continue
                    &&& final(self).escalators == old(self).escalators.execute_spec(cmd)
                    &&& final(self).status == old(self).status
                },
                ComponentAction::Status(pressed) => {
                    &&& r is Continue
                    &&& final(self).escalators == old(self).escalators
                    &&& final(self).status == status_select_spec(old(self).status, pressed)
                },
                ComponentAction::Submit => {
                    &&& *final(self) == *old(self)
                    &&& match old(self).as_report_spec() {
                        Some(report) => r == ComponentStatus::Complete(report),
                        None => r is Continue,
                    }
                },
            },
    {
        match command {
            ComponentAction::Escalator(command) => {
                self.escalators.execute(command);
                ComponentStatus::Continue
            },
            ComponentAction::Status(status) => {
                match self.status {
                    Some(old_status) => {
                        if old_status == status {
                            self.status = None;
                        }
                    },
                    None => {
                        self.status = Some(status);
                    },
                }
                ComponentStatus::Continue
            },
            ComponentAction::Submit => {
                match self.try_as_report() {
                    Some(report) => ComponentStatus::Complete(report),
                    None => ComponentStatus::Continue,
                }
            },
        }
    }
}

/// Whether every character is a decimal digit.
pub open spec fn all_digits(s: Seq<char>) -> bool {
    forall|i: int| 0 <= i < s.len() ==> '0' <= #[trigger] s[i] <= '9'
}

/// The numeric value of a digit string.
pub open spec fn digits_val(s: Seq<char>) -> int
    decreases s.len(),
{
    if s.len() == 0 {
        0
    } else {
        digits_val(s.drop_last()) * 10 + (s.last() as int - '0' as int)
    }
}

/// The value of a digit string is never negative.
proof fn lemma_digits_val_nonneg(s: Seq<char>)
    requires
        all_digits(s),
    ensures
        digits_val(s) >= 0,
    decreases s.len(),
{
    if s.len() > 0 {
        assert(forall|i: int| 0 <= i < s.drop_last().len() ==> s.drop_last()[i] == s[i]);
        lemma_digits_val_nonneg(s.drop_last());
    }
}

/// The value of a digit string is at least the value of any prefix.
proof fn lemma_digits_val_prefix(s: Seq<char>, i: int)
    requires
        all_digits(s),
        0 <= i <= s.len(),
    ensures
        digits_val(s) >= digits_val(s.take(i)),
    decreases s.len() - i,
{
    if i < s.len() {
        assert(forall|j: int| 0 <= j < i + 1 ==> s.take(i + 1)[j] == s[j]);
        assert(all_digits(s.take(i)));
        assert(s.take(i + 1).drop_last() =~= s.take(i));
        assert(s.take(i + 1).last() == s[i]);
        lemma_digits_val_nonneg(s.take(i));
        assert(digits_val(s.take(i + 1)) == digits_val(s.take(i)) * 10 + (s[i] as int
            - '0' as int));
        assert(digits_val(s.take(i + 1)) >= digits_val(s.take(i)));
        lemma_digits_val_prefix(s, i + 1);
    } else {
        assert(s.take(i) =~= s);
    }
}

/// Parse a decimal number that fits a `u8`: every character must be a digit
/// and the value at most 255.
pub fn parse_u8_dec(s: &str) -> (r: Option<u8>)
    ensures
        r == (if s@.len() > 0 && all_digits(s@) && digits_val(s@) <= 255 {
            Some(digits_val(s@) as u8)
        } else {
            None::<u8>
        }),
{
    let n = s.unicode_len();
    if n == 0 {
        return None;
    }
    let mut acc: u32 = 0;
    let mut i: usize = 0;
    proof {
        assert(s@.take(0) =~= Seq::<char>::empty());
    }
    while i < n
        invariant
            i <= n,
            n == s@.len(),
            all_digits(s@.take(i as int)),
            acc == digits_val(s@.take(i as int)),
            acc <= 255,
        decreases n - i,
    {
        let c = s.get_char(i);
        if !('0' <= c && c <= '9') {
            proof {
                assert(!all_digits(s@));
            }
            return None;
        }
        let d: u32 = c as u32 - 48;
        proof {
            assert(s@.take(i + 1).drop_last() =~= s@.take(i as int));
            assert(s@.take(i + 1).last() == s@[i as int]);
            assert(forall|j: int| 0 <= j < i + 1 ==> s@.take(i + 1)[j] == s@[j]);
        }
        let next = acc * 10 + d;
        if next > 255 {
            proof {
                if all_digits(s@) {
                    lemma_digits_val_prefix(s@, i + 1);
                }
            }
            return None;
        }
        acc = next;
        i = i + 1;
    }
    proof {
        assert(s@.take(n as int) =~= s@);
    }
    Some(acc as u8)
}

/// Whether `p` is a prefix of `s`.
pub fn has_prefix(s: &str, p: &str) -> (r: bool)
    ensures
        r == (s@.len() >= p@.len() && s@.take(p@.len() as int) == p@),
{
    let sn = s.unicode_len();
    let pn = p.unicode_len();
    if sn < pn {
        return false;
    }
    let mut i: usize = 0;
    while i < pn
        invariant
            i <= pn,
            pn == p@.len(),
            sn == s@.len(),
            sn >= pn,
            forall|j: int| 0 <= j < i ==> s@[j] == p@[j],
        decreases pn - i,
    {
        if s.get_char(i) != p.get_char(i) {
            proof {
                assert(s@.take(pn as int)[i as int] != p@[i as int]);
            }
            return false;
        }
        i = i + 1;
    }
    proof {
        assert(s@.take(pn as int) =~= p@);
    }
    true
}

/// Whether two strings hold the same characters.
pub fn str_eq(s: &str, p: &str) -> (r: bool)
    ensures
        r == (s@ == p@),
{
    let sn = s.unicode_len();
    let pn = p.unicode_len();
    if sn != pn {
        return false;
    }
    let mut i: usize = 0;
    while i < pn
        invariant
            i <= pn,
            pn == p@.len(),
            sn == s@.len(),
            sn == pn,
            forall|j: int| 0 <= j < i ==> s@[j] == p@[j],
        decreases pn - i,
    {
        if s.get_char(i) != p.get_char(i) {
            return false;
        }
        i = i + 1;
    }
    proof {
        assert(s@ =~= p@);
    }
    true
}

/// The escalator action a button id names, if any: the pair button, the all
/// button, or a floor button carrying its number.
pub open spec fn escalator_action_spec(s: Seq<char>) -> Option<EscalatorAction> {
    if s == "REPORT-PAIR"@ {
        Some(EscalatorAction::Pair)
    } else if s == "REPORT-ALL"@ {
        Some(EscalatorAction::All)
    } else if s.len() >= "REPORT-FLOOR-"@.len() && s.take("REPORT-FLOOR-"@.len() as int)
        == "REPORT-FLOOR-"@ {
        let rest = s.skip("REPORT-FLOOR-"@.len() as int);
        if rest.len() > 0 && all_digits(rest) && digits_val(rest) <= 255 {
            Some(EscalatorAction::Floor(digits_val(rest) as u8))
        } else {
            None
        }
    } else {
        None
    }
}

impl EscalatorAction {
    /// Parse an escalator-half button id.
    pub fn parse(s: &str) -> (r: Option<EscalatorAction>)
        ensures
            r == escalator_action_spec(s@),
    {
        if str_eq(s, "REPORT-PAIR") {
            return Some(EscalatorAction::Pair);
        }
        if str_eq(s, "REPORT-ALL") {
            return Some(EscalatorAction::All);
        }
        let prefix = "REPORT-FLOOR-";
        if has_prefix(s, prefix) {
            let rest = s.substring_char(prefix.unicode_len(), s.unicode_len());
            proof {
                assert(rest@ =~= s@.skip(prefix@.len() as int));
            }
            return match parse_u8_dec(rest) {
                Some(floor) => Some(EscalatorAction::Floor(floor)),
                None => None,
            };
        }
        None
    }
}

/// The report-menu action a button id names: an escalator action, the
/// submit button, or a status button whose suffix names a status (ignoring
/// ASCII case).
pub open spec fn component_action_spec(s: Seq<char>) -> Option<ComponentAction> {
    if escalator_action_spec(s) is Some {
        Some(ComponentAction::Escalator(escalator_action_spec(s)->0))
    } else if s == "REPORT-SUBMIT"@ {
        Some(ComponentAction::Submit)
    } else if s.len() >= "REPORT-STATUS-"@.len() && s.take("REPORT-STATUS-"@.len() as int)
        == "REPORT-STATUS-"@ {
        let rest = s.skip("REPORT-STATUS-"@.len() as int);
        if upper_seq(rest) == "OPEN"@ {
            Some(ComponentAction::Status(Status::Open))
        } else if upper_seq(rest) == "DOWN"@ {
            Some(ComponentAction::Status(Status::Down))
        } else if upper_seq(rest) == "BLOCKED"@ {
            Some(ComponentAction::Status(Status::Blocked))
        } else {
            None
        }
    } else {
        None
    }
}

impl ComponentAction {
    /// Parse a report-menu button id.
    pub fn parse(s: &str) -> (r: Option<ComponentAction>)
        ensures
            r == component_action_spec(s@),
    {
        if let Some(action) = EscalatorAction::parse(s) {
            return Some(ComponentAction::Escalator(action));
        }
        if str_eq(s, "REPORT-SUBMIT") {
            return Some(ComponentAction::Submit);
        }
        let prefix = "REPORT-STATUS-";
        if has_prefix(s, prefix) {
            let rest = s.substring_char(prefix.unicode_len(), s.unicode_len());
            proof {
                assert(rest@ =~= s@.skip(prefix@.len() as int));
                reveal_strlit("OPEN");
                reveal_strlit("DOWN");
                reveal_strlit("BLOCKED");
                assert("OPEN"@.len() == 4);
                assert("DOWN"@.len() == 4);
                assert("BLOCKED"@.len() == 7);
                assert("DOWN"@[0] == 'D');
                assert("OPEN"@[0] == 'O');
                assert("DOWN"@ != "OPEN"@);
                assert("BLOCKED"@ != "OPEN"@);
                assert("BLOCKED"@ != "DOWN"@);
            }
            return match Status::parse(rest) {
                Ok(status) => Some(ComponentAction::Status(status)),
                Err(_) => None,
            };
        }
        None
    }
}

} // verus!
