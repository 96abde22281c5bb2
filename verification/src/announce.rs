//! Accumulating updates into a periodic announcement: the recent reports,
//! the escalators that went stale since the last announcement, and the text
//! of both announcement fields.

use vstd::prelude::*;

use crate::escalator::EscalatorFloors;
use crate::generate::{announcement, announcement_spec, nounify_escalators, nounify_spec};
use crate::input::expansion_spec;
use crate::report::{Update, UserReport};
use crate::status::{upper_char, upper_char_spec};

verus! {

/// How many reports an announcement shows before it truncates the list.
pub const MAX_REPORTS_DISPLAYED: usize = 14;

/// How many redundant reports are buffered before one forces an
/// announcement anyway.
pub const MAX_BUFFERED_REDUNDANT: usize = 15;

/// A sequence without the members of `keys`, order kept.
pub open spec fn without_keys_spec(
    s: Seq<EscalatorFloors>,
    keys: Seq<EscalatorFloors>,
) -> Seq<EscalatorFloors>
    decreases s.len(),
{
    if s.len() == 0 {
        Seq::empty()
    } else {
        without_keys_spec(s.drop_last(), keys) + (if keys.contains(s.last()) {
            Seq::empty()
        } else {
            seq![s.last()]
        })
    }
}

/// A text with its first character uppercased.
pub open spec fn titlecase_spec(s: Seq<char>) -> Seq<char> {
    if s.len() == 0 {
        s
    } else {
        seq![upper_char_spec(s[0])] + s.drop_first()
    }
}

/// The reports and stale escalators gathered since the last announcement.
/// A report on an escalator removes it from the stale list again; stale
/// escalators are kept once each, in the order they went stale.
#[derive(Debug)]
pub struct AnnouncementBuilder {
    pub reports: Vec<UserReport>,
    pub outdated: Vec<EscalatorFloors>,
}

impl Default for AnnouncementBuilder {
    /// An empty accumulation.
    fn default() -> (r: AnnouncementBuilder)
        ensures
            r.reports@ == Seq::<UserReport>::empty(),
            r.outdated@ == Seq::<EscalatorFloors>::empty(),
    {
        AnnouncementBuilder { reports: Vec::new(), outdated: Vec::new() }
    }
}

/// Whether a vector holds a floor pair.
fn contains_floors(v: &Vec<EscalatorFloors>, f: EscalatorFloors) -> (r: bool)
    ensures
        r == v@.contains(f),
{
    let mut i: usize = 0;
    while i < v.len()
        invariant
            i <= v@.len(),
            forall|j: int| 0 <= j < i ==> v@[j] != f,
        decreases v@.len() - i,
    {
        if v[i] == f {
            return true;
        }
        i = i + 1;
    }
    proof {
        if v@.contains(f) {
            let j = choose|j: int| 0 <= j < v@.len() && v@[j] == f;
        }
    }
    false
}

impl AnnouncementBuilder {
    /// Add one report: it joins the report list, and every escalator its
    /// selection expands to leaves the stale list again.
    pub fn add_report(&mut self, report: UserReport)
        ensures
            final(self).reports@ == old(self).reports@.push(report),
            final(self).outdated@ == without_keys_spec(
                old(self).outdated@,
                expansion_spec(report.escalators),
            ),
    {
        let targets = report.escalators.escalators();
        let mut kept: Vec<EscalatorFloors> = Vec::new();
        let mut i: usize = 0;
        proof {
            assert(self.outdated@.take(0) =~= Seq::<EscalatorFloors>::empty());
        }
        while i < self.outdated.len()
            invariant
                i <= self.outdated@.len(),
                targets@ == expansion_spec(report.escalators),
                kept@ == without_keys_spec(self.outdated@.take(i as int), targets@),
            decreases self.outdated@.len() - i,
        {
            let f = self.outdated[i];
            if !contains_floors(&targets, f) {
                kept.push(f);
            }
            proof {
                assert(self.outdated@.take(i + 1).drop_last() =~= self.outdated@.take(i as int));
                assert(self.outdated@.take(i + 1).last() == self.outdated@[i as int]);
                assert(kept@ =~= without_keys_spec(self.outdated@.take(i + 1), targets@));
            }
            i = i + 1;
        }
        proof {
            assert(self.outdated@.take(self.outdated@.len() as int) =~= self.outdated@);
        }
        self.outdated = kept;
        self.reports.push(report);
    }

    /// Add one bus update: a report as above; a stale escalator joins the
    /// stale list once, keeping the order in which escalators went stale.
    pub fn add_update(&mut self, update: Update)
        ensures
            match update {
                Update::Report { report, kind: _ } => {
                    &&& final(self).reports@ == old(self).reports@.push(report)
                    &&& final(self).outdated@ == without_keys_spec(
                        old(self).outdated@,
                        expansion_spec(report.escalators),
                    )
                },
                Update::Outdated(escalator) => {
                    &&& final(self).reports@ == old(self).reports@
                    &&& final(self).outdated@ == (if old(self).outdated@.contains(escalator) {
                        old(self).outdated@
                    } else {
                        old(self).outdated@.push(escalator)
                    })
                },
            },
    {
        match update {
            Update::Outdated(escalator) => {
                if !contains_floors(&self.outdated, escalator) {
                    self.outdated.push(escalator);
                }
            },
            Update::Report { report, .. } => self.add_report(report),
        }
    }

    /// The recent-reports field of the announcement, newest first, when any
    /// report came in. Consumes the report list: attaching it to a message
    /// ends the accumulation window.
    pub fn history_field(self) -> (r: Option<String>)
        ensures
            match r {
                Some(s) => self.reports@.len() > 0 && s@ == announcement_spec(
                    self.reports@.reverse(),
                    MAX_REPORTS_DISPLAYED as nat,
                ),
                None => self.reports@.len() == 0,
            },
    {
        let ghost original = self.reports@;
        if self.reports.len() == 0 {
            return None;
        }
        let mut reports = self.reports;
        let mut newest_first: Vec<UserReport> = Vec::new();
        while reports.len() > 0
            invariant
                newest_first@.len() + reports@.len() == original.len(),
                reports@ == original.take(reports@.len() as int),
                forall|j: int|
                    0 <= j < newest_first@.len() ==> newest_first@[j] == original[original.len()
                        - 1 - j],
            decreases reports@.len(),
        {
            let ghost before = reports@;
            let last = match reports.pop() {
                Some(last) => last,
                None => {
                    proof {
                        assert(false);
                    }
                    continue ;
                },
            };
            proof {
                assert(before == original.take(before.len() as int));
                assert(last == original[before.len() - 1]);
                assert(reports@ =~= original.take(reports@.len() as int));
            }
            newest_first.push(last);
        }
        proof {
            assert(newest_first@ =~= original.reverse());
        }
        Some(announcement(MAX_REPORTS_DISPLAYED, &newest_first))
    }

    /// The stale-escalators field of the announcement, when anything went
    /// stale: the unknown-status glyph, the escalators, and why.
    pub fn outdated_field(&self) -> (r: Option<String>)
        ensures
            match r {
                Some(s) => self.outdated@.len() > 0 && s@ == "`"@ + seq![
                    crate::record::UNKNOWN_STATUS_EMOJI,
                ] + "` "@ + titlecase_spec(nounify_spec(self.outdated@)) + (
                if self.outdated@.len() == 1 {
                    " has "@
                } else {
                    " have "@
                }) + "been marked as `UNKNOWN` due to infrequent reports."@,
                None => self.outdated@.len() == 0,
            },
    {
        if self.outdated.len() == 0 {
            return None;
        }
        let noun = nounify_escalators(&self.outdated);
        let mut s = String::from_str("`");
        s.push(crate::record::UNKNOWN_STATUS_EMOJI);
        s.append("` ");
        let n = noun.as_str().unicode_len();
        if n > 0 {
            s.push(upper_char(noun.as_str().get_char(0)));
            let rest = noun.as_str().substring_char(1, n);
            s.append(rest);
            proof {
                assert(seq![upper_char_spec(noun@[0])] + noun@.subrange(1, noun@.len() as int)
                    =~= titlecase_spec(noun@));
            }
        }
        if self.outdated.len() == 1 {
            s.append(" has ");
        } else {
            s.append(" have ");
        }
        s.append("been marked as `UNKNOWN` due to infrequent reports.");
        proof {
            assert(s@ =~= "`"@ + seq![crate::record::UNKNOWN_STATUS_EMOJI] + "` "@
                + titlecase_spec(nounify_spec(self.outdated@)) + (if self.outdated@.len() == 1 {
                " has "@
            } else {
                " have "@
            }) + "been marked as `UNKNOWN` due to infrequent reports."@);
        }
        Some(s)
    }
}

/// Whether a received update is only buffered rather than triggering an
/// announcement: a redundant report while fewer than the buffering limit
/// are pending.
pub fn is_buffered_redundant(update: &Update, pending: usize) -> (r: bool)
    ensures
        r == (update matches Update::Report { kind: crate::kind::ReportKind::Redundant, .. }
            && pending < MAX_BUFFERED_REDUNDANT),
{
    match update {
        Update::Report { kind: crate::kind::ReportKind::Redundant, .. } => pending
            < MAX_BUFFERED_REDUNDANT,
        _ => false,
    }
}

/// How long to wait before announcing after a significant update arrived:
/// long enough that announcements stay `max_interval` apart, but at least
/// `min_interval`.
pub fn announcement_delay(time_since_last: u64, min_interval: u64, max_interval: u64) -> (r: u64)
    requires
        time_since_last + min_interval <= u64::MAX,
    ensures
        r == (if time_since_last + min_interval < max_interval {
            max_interval - time_since_last
        } else {
            min_interval as int
        }),
{
    if time_since_last + min_interval < max_interval {
        max_interval - time_since_last
    } else {
        min_interval
    }
}

} // verus!
