//! A completed user report: who reported, which escalators were targeted,
//! what status they now have, and which records actually changed.

use vstd::prelude::*;

use crate::escalator::EscalatorFloors;
use crate::input::EscalatorInput;
use crate::kind::ReportKind;
use crate::status::Status;

verus! {

/// One completed report interaction. Immutable once built; broadcast once on
/// the bus and consumed by any number of listeners.
#[derive(Clone, Debug)]
pub struct UserReport {
    /// The reporting user's id, when known.
    pub reporter: Option<u64>,
    /// The selection the user made.
    pub escalators: EscalatorInput,
    /// The escalators whose records the report actually changed.
    pub affected_escalators: Vec<EscalatorFloors>,
    /// The status the report sets.
    pub new_status: Status,
}

/// The event published on the fan-out bus: a classified user report, or an
/// escalator whose status went stale. Transient; it exists only on the bus.
#[derive(Clone, Debug)]
pub enum Update {
    /// A user report and the most significant kind among the escalators it
    /// touched.
    Report { report: UserReport, kind: ReportKind },
    /// This escalator's status reverted to unknown.
    Outdated(EscalatorFloors),
}

} // verus!
