//! Classification of a single status report against prior state, and the
//! reduction of several classifications to the most significant one.

use vstd::prelude::*;
use vstd::seq_lib::*;

use crate::status::Status;

verus! {

/// How significant a single status update was.
#[derive(Clone, Copy, PartialEq, Eq, Structural, Debug)]
pub enum ReportKind {
    /// The status changed meaningfully.
    Normal,
    /// The status was already what the report says.
    Redundant,
    /// The previous status was unknown and is now set.
    Rejuvenate,
}

/// Total significance order over report kinds:
/// `Normal > Rejuvenate > Redundant`.
pub open spec fn significance(k: ReportKind) -> int {
    match k {
        ReportKind::Normal => 2,
        ReportKind::Rejuvenate => 1,
        ReportKind::Redundant => 0,
    }
}

/// The more significant of two kinds; the left one wins a tie.
pub open spec fn max_kind(a: ReportKind, b: ReportKind) -> ReportKind {
    if significance(a) >= significance(b) {
        a
    } else {
        b
    }
}

impl ReportKind {
    /// The more significant of two kinds; the left one wins a tie.
    pub fn more_significant(self, other: ReportKind) -> (r: ReportKind)
        ensures
            r == max_kind(self, other),
    {
        let a = match self {
            ReportKind::Normal => 2u8,
            ReportKind::Rejuvenate => 1u8,
            ReportKind::Redundant => 0u8,
        };
        let b = match other {
            ReportKind::Normal => 2u8,
            ReportKind::Rejuvenate => 1u8,
            ReportKind::Redundant => 0u8,
        };
        if a >= b {
            self
        } else {
            other
        }
    }
}

/// What kind of report an incoming status makes against the previous one:
/// `Redundant` when nothing changes, `Rejuvenate` when the previous status
/// was unknown, `Normal` otherwise.
pub open spec fn classify_spec(previous: Option<Status>, incoming: Status) -> ReportKind {
    if previous == Some(incoming) {
        ReportKind::Redundant
    } else if previous is None {
        ReportKind::Rejuvenate
    } else {
        ReportKind::Normal
    }
}

/// Classify an incoming status update against the previous status.
/// The result is `Redundant` exactly when the status is unchanged,
/// `Rejuvenate` exactly when the previous status was unknown, and
/// `Normal` in every remaining case.
pub fn classify(previous: Option<Status>, incoming: Status) -> (r: ReportKind)
    ensures
        r == classify_spec(previous, incoming),
        (r == ReportKind::Redundant) <==> previous == Some(incoming),
        (r == ReportKind::Rejuvenate) <==> previous is None,
        (r == ReportKind::Normal) <==> (previous is Some && previous != Some(incoming)),
{
    match previous {
        Some(old_status) => {
            if old_status == incoming {
                ReportKind::Redundant
            } else {
                ReportKind::Normal
            }
        },
        None => ReportKind::Rejuvenate,
    }
}

/// The most significant kind in a sequence; an empty sequence reduces to
/// `Redundant`.
pub open spec fn reduce_spec(kinds: Seq<ReportKind>) -> ReportKind
    decreases kinds.len(),
{
    if kinds.len() == 0 {
        ReportKind::Redundant
    } else {
        max_kind(reduce_spec(kinds.drop_last()), kinds.last())
    }
}

/// Reduce the kinds of one report's per-escalator classifications to the
/// single most significant kind; no classifications reduce to `Redundant`.
pub fn reduce_kinds(kinds: &Vec<ReportKind>) -> (r: ReportKind)
    ensures
        r == reduce_spec(kinds@),
{
    let mut acc = ReportKind::Redundant;
    let mut i: usize = 0;
    while i < kinds.len()
        invariant
            i <= kinds@.len(),
            acc == reduce_spec(kinds@.take(i as int)),
        decreases kinds@.len() - i,
    {
        proof {
            assert(kinds@.take(i + 1).drop_last() =~= kinds@.take(i as int));
            assert(kinds@.take(i + 1).last() == kinds@[i as int]);
        }
        acc = acc.more_significant(kinds[i]);
        i = i + 1;
    }
    proof {
        assert(kinds@.take(kinds@.len() as int) =~= kinds@);
    }
    acc
}

/// The reduction picks the most significant kind present: it is `Normal`
/// exactly when some element is `Normal`; otherwise `Rejuvenate` exactly when
/// some element is `Rejuvenate`; otherwise `Redundant`.
pub proof fn lemma_reduce_membership(kinds: Seq<ReportKind>)
    ensures
        (reduce_spec(kinds) == ReportKind::Normal) <==> kinds.contains(ReportKind::Normal),
        (reduce_spec(kinds) == ReportKind::Rejuvenate) <==> (!kinds.contains(ReportKind::Normal)
            && kinds.contains(ReportKind::Rejuvenate)),
        (reduce_spec(kinds) == ReportKind::Redundant) <==> (!kinds.contains(ReportKind::Normal)
            && !kinds.contains(ReportKind::Rejuvenate)),
    decreases kinds.len(),
{
    if kinds.len() > 0 {
        lemma_reduce_membership(kinds.drop_last());
        assert forall|k: ReportKind| kinds.drop_last().contains(k) implies kinds.contains(k) by {
            let i = choose|i: int| 0 <= i < kinds.drop_last().len() && kinds.drop_last()[i] == k;
            assert(kinds[i] == k);
        }
        assert forall|k: ReportKind| kinds.contains(k) implies kinds.drop_last().contains(k)
            || kinds.last() == k by {
            let i = choose|i: int| 0 <= i < kinds.len() && kinds[i] == k;
            if i < kinds.len() - 1 {
                assert(kinds.drop_last()[i] == k);
            }
        }
        assert(kinds.contains(kinds.last()));
    }
}

/// The reduction depends only on which kinds occur, not on their order:
/// two sequences holding the same multiset of kinds reduce to the same kind.
pub proof fn lemma_reduce_multiset(a: Seq<ReportKind>, b: Seq<ReportKind>)
    requires
        a.to_multiset() == b.to_multiset(),
    ensures
        reduce_spec(a) == reduce_spec(b),
{
    lemma_reduce_membership(a);
    lemma_reduce_membership(b);
    a.to_multiset_ensures();
    b.to_multiset_ensures();
    assert(a.contains(ReportKind::Normal) <==> a.to_multiset().count(ReportKind::Normal) > 0);
    assert(b.contains(ReportKind::Normal) <==> b.to_multiset().count(ReportKind::Normal) > 0);
    assert(a.contains(ReportKind::Rejuvenate) <==> a.to_multiset().count(ReportKind::Rejuvenate)
        > 0);
    assert(b.contains(ReportKind::Rejuvenate) <==> b.to_multiset().count(ReportKind::Rejuvenate)
        > 0);
}

} // verus!
