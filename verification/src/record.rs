//! Per-escalator mutable state: last-known status and last-update time, with
//! the update and outdated-sweep transitions.

use vstd::prelude::*;

use crate::kind::{classify, classify_spec, ReportKind};
use crate::status::Status;

verus! {

/// The glyph shown for an escalator whose status is unknown.
pub const UNKNOWN_STATUS_EMOJI: char = '🟡';

/// The last-known status of one escalator (`None` = unknown/outdated) and the
/// time, in seconds since the epoch, of the report or forced-outdated
/// transition that set it.
#[derive(Clone, Copy, Debug)]
pub struct Info {
    pub status: Option<Status>,
    pub last_update: u64,
}

/// Whether a record's status has gone stale: it is known, and at least
/// `threshold` seconds have passed since it was last updated.
pub open spec fn outdated_spec(info: Info, now: u64, threshold: u64) -> bool {
    &&& info.status is Some
    &&& now - info.last_update >= threshold
}

/// What a record looks like after a report of `status` at time `now`.
pub open spec fn updated_spec(info: Info, status: Status, now: u64) -> Info {
    Info { status: Some(status), last_update: now }
}

/// What a record looks like after one outdated sweep at time `now`.
pub open spec fn swept_spec(info: Info, now: u64, threshold: u64) -> Info {
    if outdated_spec(info, now, threshold) {
        Info { status: None, last_update: info.last_update }
    } else {
        info
    }
}

impl Info {
    /// The last-known status, `None` when unknown.
    pub fn status(&self) -> (r: Option<Status>)
        ensures
            r == self.status,
    {
        self.status
    }

    /// The glyph for the current status, or the unknown-status glyph.
    pub open spec fn status_emoji_spec(self) -> char {
        match self.status {
            Some(status) => status.emoji_spec(),
            None => UNKNOWN_STATUS_EMOJI,
        }
    }

    /// The glyph for the current status, or the unknown-status glyph.
    pub fn status_emoji(&self) -> (r: char)
        ensures
            r == self.status_emoji_spec(),
    {
        match self.status {
            Some(status) => status.emoji(),
            None => UNKNOWN_STATUS_EMOJI,
        }
    }

    /// Update the known status of this escalator at time `now`, returning
    /// what kind of report it is. The kind is computed against the state
    /// before the mutation.
    pub fn update_status(&mut self, status: Status, now: u64) -> (r: ReportKind)
        ensures
            *final(self) == updated_spec(*old(self), status, now),
            final(self).status == Some(status),
            final(self).last_update == now,
            r == classify_spec(old(self).status, status),
    {
        let previous = self.status;
        self.last_update = now;
        self.status = Some(status);
        classify(previous, status)
    }

    /// Whether this record's status is unknown or stale at time `now`.
    pub fn is_outdated(&self, now: u64, threshold: u64) -> (r: bool)
        ensures
            r == (self.status is None || now - self.last_update >= threshold),
    {
        self.status.is_none() || (now >= self.last_update && now - self.last_update >= threshold)
    }

    /// One outdated sweep: if the status is known but was last updated at
    /// least `threshold` seconds before `now`, revert it to unknown and
    /// report the change.
    pub fn handle_outdated(&mut self, now: u64, threshold: u64) -> (r: bool)
        ensures
            r == outdated_spec(*old(self), now, threshold),
            *final(self) == swept_spec(*old(self), now, threshold),
    {
        if self.status.is_some() && self.is_outdated(now, threshold) {
            self.status = None;
            true
        } else {
            false
        }
    }

    pub fn is_down(&self) -> (r: bool)
        ensures
            r == (self.status == Some(Status::Down)),
    {
        match self.status {
            Some(status) => matches!(status, Status::Down),
            None => false,
        }
    }

    pub fn is_blocked(&self) -> (r: bool)
        ensures
            r == (self.status == Some(Status::Blocked)),
    {
        match self.status {
            Some(status) => matches!(status, Status::Blocked),
            None => false,
        }
    }

    pub fn is_out_of_order(&self) -> (r: bool)
        ensures
            r == (self.status == Some(Status::Down) || self.status == Some(Status::Blocked)),
    {
        self.is_down() || self.is_blocked()
    }
}

impl Default for Info {
    /// A fresh record: status unknown, last updated at the epoch.
    fn default() -> (r: Self)
        ensures
            r.status is None,
            r.last_update == 0,
    {
        Info { status: None, last_update: 0 }
    }
}

/// Outdated transitions are monotone: once a sweep reverts a record to
/// unknown, every later sweep without an intervening report reports no
/// change and leaves the record as it is.
pub proof fn lemma_outdated_monotonic(info: Info, now: u64, threshold: u64, later: u64)
    requires
        outdated_spec(info, now, threshold),
    ensures
        !outdated_spec(swept_spec(info, now, threshold), later, threshold),
        swept_spec(swept_spec(info, now, threshold), later, threshold) == swept_spec(
            info,
            now,
            threshold,
        ),
{
}

/// Redundant reports are idempotent: after a report of some status, a second
/// report of the same status classifies as `Redundant` and leaves the
/// recorded status unchanged.
pub proof fn lemma_redundant_idempotent(info: Info, status: Status, t1: u64, t2: u64)
    ensures
        ({
            let once = updated_spec(info, status, t1);
            &&& classify_spec(once.status, status) == ReportKind::Redundant
            &&& updated_spec(once, status, t2).status == once.status
        }),
{
}

} // verus!
