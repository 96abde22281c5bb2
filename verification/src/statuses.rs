//! The aggregation engine: owns every escalator's status record, applies
//! reports, runs the outdated sweeper, and publishes typed update events on
//! its broadcast bus.

use vstd::prelude::*;

use crate::bus::{Bus, BusReceiver, TryRecvResult};
use crate::escalator::{escalator_list, escalators, EscalatorFloors, ESCALATOR_COUNT};
use crate::generate::{
    chunk2_join, chunk2_lines_spec, floors_label, floors_label_spec, summarize_spec,
    summarize_status,
};
use crate::input::{expansion_spec, EscalatorInput};
use crate::kind::{classify_spec, reduce_spec, ReportKind};
use crate::record::{outdated_spec, swept_spec, updated_spec, Info};
use crate::report::{Update, UserReport};
use crate::status::Status;

verus! {

/// The keys of a record sequence, in order.
pub open spec fn keys_of(recs: Seq<(EscalatorFloors, Info)>) -> Seq<EscalatorFloors> {
    recs.map_values(|p: (EscalatorFloors, Info)| p.0)
}

/// No two records share an escalator.
pub open spec fn unique_keys(recs: Seq<(EscalatorFloors, Info)>) -> bool {
    forall|i: int, j: int| 0 <= i < j < recs.len() ==> recs[i].0 != recs[j].0
}

/// Index of the first record keyed by `key`, or -1 when there is none.
pub open spec fn find_index(recs: Seq<(EscalatorFloors, Info)>, key: EscalatorFloors) -> int
    decreases recs.len(),
{
    if recs.len() == 0 {
        -1
    } else if recs[0].0 == key {
        0
    } else {
        let rest = find_index(recs.drop_first(), key);
        if rest < 0 {
            -1
        } else {
            rest + 1
        }
    }
}

/// `find_index` finds exactly the first matching record: -1 when no record
/// matches, otherwise the least index whose record is keyed by `key`.
pub proof fn lemma_find_index_props(recs: Seq<(EscalatorFloors, Info)>, key: EscalatorFloors)
    ensures
        (find_index(recs, key) == -1) <==> (forall|j: int|
            0 <= j < recs.len() ==> recs[j].0 != key),
        find_index(recs, key) != -1 ==> {
            &&& 0 <= find_index(recs, key) < recs.len()
            &&& recs[find_index(recs, key)].0 == key
            &&& forall|j: int| 0 <= j < find_index(recs, key) ==> recs[j].0 != key
        },
    decreases recs.len(),
{
    if recs.len() > 0 {
        let rest = recs.drop_first();
        lemma_find_index_props(rest, key);
        assert(forall|j: int| 0 <= j < rest.len() ==> rest[j] == recs[j + 1]);
        if recs[0].0 != key {
            let f = find_index(rest, key);
            if f == -1 {
                assert forall|j: int| 0 <= j < recs.len() implies recs[j].0 != key by {
                    if j > 0 {
                        assert(rest[j - 1] == recs[j]);
                    }
                }
            } else {
                assert(recs[f + 1].0 == key);
                assert forall|j: int| 0 <= j < f + 1 implies recs[j].0 != key by {
                    if j > 0 {
                        assert(rest[j - 1] == recs[j]);
                    }
                }
            }
        }
    }
}

/// Two record sequences over the same keys agree on which keys they hold.
pub proof fn lemma_find_index_same_keys(
    a: Seq<(EscalatorFloors, Info)>,
    b: Seq<(EscalatorFloors, Info)>,
    key: EscalatorFloors,
)
    requires
        keys_of(a) == keys_of(b),
    ensures
        (find_index(a, key) == -1) <==> (find_index(b, key) == -1),
{
    lemma_find_index_props(a, key);
    lemma_find_index_props(b, key);
    let ka = keys_of(a);
    let kb = keys_of(b);
    assert(a.len() == ka.len());
    assert(b.len() == kb.len());
    if find_index(a, key) == -1 {
        assert forall|j: int| 0 <= j < b.len() implies b[j].0 != key by {
            assert(kb[j] == b[j].0);
            assert(ka[j] == a[j].0);
            assert(a[j].0 != key);
        }
    }
    if find_index(b, key) == -1 {
        assert forall|j: int| 0 <= j < a.len() implies a[j].0 != key by {
            assert(ka[j] == a[j].0);
            assert(kb[j] == b[j].0);
            assert(b[j].0 != key);
        }
    }
}

/// `find_index` depends only on the keys: two record sequences over the
/// same keys find every key at the same position.
pub proof fn lemma_find_index_keys_equal(
    a: Seq<(EscalatorFloors, Info)>,
    b: Seq<(EscalatorFloors, Info)>,
    key: EscalatorFloors,
)
    requires
        keys_of(a) == keys_of(b),
    ensures
        find_index(a, key) == find_index(b, key),
    decreases a.len(),
{
    assert(a.len() == keys_of(a).len());
    assert(b.len() == keys_of(b).len());
    if a.len() > 0 {
        assert(keys_of(a)[0] == a[0].0);
        assert(keys_of(b)[0] == b[0].0);
        assert forall|j: int|
            0 <= j < a.drop_first().len() implies keys_of(a.drop_first())[j] == keys_of(
            b.drop_first(),
        )[j] by {
            assert(keys_of(a.drop_first())[j] == a.drop_first()[j].0);
            assert(a.drop_first()[j] == a[j + 1]);
            assert(b.drop_first()[j] == b[j + 1]);
            assert(keys_of(a)[j + 1] == a[j + 1].0);
            assert(keys_of(b)[j + 1] == b[j + 1].0);
            assert(keys_of(b.drop_first())[j] == b.drop_first()[j].0);
        }
        assert(keys_of(a.drop_first()) =~= keys_of(b.drop_first()));
        lemma_find_index_keys_equal(a.drop_first(), b.drop_first(), key);
    }
}

/// One report application to one target: when a record keyed by the target
/// exists, its status is set and its classification returned; an unknown
/// target changes nothing and yields no classification.
pub open spec fn apply_target(
    recs: Seq<(EscalatorFloors, Info)>,
    target: EscalatorFloors,
    status: Status,
    now: u64,
) -> (Seq<(EscalatorFloors, Info)>, Option<ReportKind>) {
    let i = find_index(recs, target);
    if i < 0 {
        (recs, None)
    } else {
        (
            recs.update(i, (target, updated_spec(recs[i].1, status, now))),
            Some(classify_spec(recs[i].1.status, status)),
        )
    }
}

/// A report applied to each target from left to right, collecting the
/// per-escalator classifications of the targets that were present.
pub open spec fn apply_targets(
    recs: Seq<(EscalatorFloors, Info)>,
    targets: Seq<EscalatorFloors>,
    status: Status,
    now: u64,
) -> (Seq<(EscalatorFloors, Info)>, Seq<ReportKind>)
    decreases targets.len(),
{
    if targets.len() == 0 {
        (recs, Seq::empty())
    } else {
        let prev = apply_targets(recs, targets.drop_last(), status, now);
        let last = apply_target(prev.0, targets.last(), status, now);
        (
            last.0,
            prev.1 + (match last.1 {
                Some(k) => seq![k],
                None => Seq::empty(),
            }),
        )
    }
}

/// Applying one target never changes which escalators the records cover,
/// nor their order.
pub proof fn lemma_apply_target_keys(
    recs: Seq<(EscalatorFloors, Info)>,
    target: EscalatorFloors,
    status: Status,
    now: u64,
)
    ensures
        keys_of(apply_target(recs, target, status, now).0) == keys_of(recs),
{
    lemma_find_index_props(recs, target);
    assert(keys_of(apply_target(recs, target, status, now).0) =~= keys_of(recs));
}

/// Applying a report never changes which escalators the records cover, nor
/// their order.
pub proof fn lemma_apply_preserves_keys(
    recs: Seq<(EscalatorFloors, Info)>,
    targets: Seq<EscalatorFloors>,
    status: Status,
    now: u64,
)
    ensures
        keys_of(apply_targets(recs, targets, status, now).0) == keys_of(recs),
    decreases targets.len(),
{
    if targets.len() > 0 {
        lemma_apply_preserves_keys(recs, targets.drop_last(), status, now);
        lemma_apply_target_keys(
            apply_targets(recs, targets.drop_last(), status, now).0,
            targets.last(),
            status,
            now,
        );
    }
}

/// Unknown-escalator tolerance: a target no record is keyed by mutates
/// nothing and contributes no classification, however many known targets the
/// same report already applied; those apply exactly as without it.
pub proof fn lemma_unknown_escalator_tolerance(
    recs: Seq<(EscalatorFloors, Info)>,
    prefix: Seq<EscalatorFloors>,
    target: EscalatorFloors,
    status: Status,
    now: u64,
)
    requires
        find_index(recs, target) == -1,
    ensures
        apply_target(recs, target, status, now) == (recs, None::<ReportKind>),
        apply_targets(recs, prefix.push(target), status, now) == apply_targets(
            recs,
            prefix,
            status,
            now,
        ),
{
    let prev = apply_targets(recs, prefix, status, now);
    lemma_apply_preserves_keys(recs, prefix, status, now);
    lemma_find_index_same_keys(recs, prev.0, target);
    assert(prefix.push(target).drop_last() =~= prefix);
    assert(prefix.push(target).last() == target);
    assert(apply_target(prev.0, target, status, now) == (prev.0, None::<ReportKind>));
    assert(apply_targets(recs, prefix.push(target), status, now).1 =~= prev.1);
}

/// Redundant reports are idempotent at the engine level: applying the same
/// `(escalator, status)` report twice in succession classifies the second
/// application as `Redundant` and leaves every recorded status as the first
/// application left it.
pub proof fn lemma_report_idempotent(
    recs: Seq<(EscalatorFloors, Info)>,
    target: EscalatorFloors,
    status: Status,
    t1: u64,
    t2: u64,
)
    requires
        find_index(recs, target) >= 0,
    ensures
        ({
            let once = apply_target(recs, target, status, t1);
            let twice = apply_target(once.0, target, status, t2);
            &&& twice.1 == Some(ReportKind::Redundant)
            &&& twice.0.len() == once.0.len()
            &&& forall|j: int|
                0 <= j < once.0.len() ==> #[trigger] twice.0[j].0 == once.0[j].0 && twice.0[
                    j
                ].1.status == once.0[j].1.status
        }),
{
    let i = find_index(recs, target);
    lemma_find_index_props(recs, target);
    let once = apply_target(recs, target, status, t1);
    lemma_apply_target_keys(recs, target, status, t1);
    lemma_find_index_keys_equal(recs, once.0, target);
    assert(once.0[i].1.status == Some(status));
    assert(classify_spec(once.0[i].1.status, status) == ReportKind::Redundant);
}

/// Every record after one sweep pass at time `now`.
pub open spec fn sweep_all(
    recs: Seq<(EscalatorFloors, Info)>,
    now: u64,
    threshold: u64,
) -> Seq<(EscalatorFloors, Info)> {
    recs.map_values(|p: (EscalatorFloors, Info)| (p.0, swept_spec(p.1, now, threshold)))
}

/// The `Outdated` events one sweep pass publishes: one per record whose
/// status went stale, in record order.
pub open spec fn outdated_updates(
    recs: Seq<(EscalatorFloors, Info)>,
    now: u64,
    threshold: u64,
) -> Seq<Update>
    decreases recs.len(),
{
    if recs.len() == 0 {
        Seq::empty()
    } else {
        outdated_updates(recs.drop_last(), now, threshold) + (if outdated_spec(
            recs.last().1,
            now,
            threshold,
        ) {
            seq![Update::Outdated(recs.last().0)]
        } else {
            Seq::empty()
        })
    }
}

/// A record sequence with nothing stale publishes no `Outdated` events.
proof fn lemma_no_outdated_no_updates(
    recs: Seq<(EscalatorFloors, Info)>,
    now: u64,
    threshold: u64,
)
    requires
        forall|i: int| 0 <= i < recs.len() ==> !outdated_spec(recs[i].1, now, threshold),
    ensures
        outdated_updates(recs, now, threshold) == Seq::<Update>::empty(),
    decreases recs.len(),
{
    if recs.len() > 0 {
        assert(forall|i: int|
            0 <= i < recs.drop_last().len() ==> recs.drop_last()[i] == recs[i]);
        lemma_no_outdated_no_updates(recs.drop_last(), now, threshold);
        assert(outdated_updates(recs, now, threshold) =~= Seq::<Update>::empty());
    }
}

/// A sweep publishes no event for an escalator none of whose records is
/// stale.
proof fn lemma_no_event_for_key(
    recs: Seq<(EscalatorFloors, Info)>,
    now: u64,
    threshold: u64,
    key: EscalatorFloors,
)
    requires
        forall|j: int|
            0 <= j < recs.len() && recs[j].0 == key ==> !outdated_spec(recs[j].1, now, threshold),
    ensures
        !outdated_updates(recs, now, threshold).contains(Update::Outdated(key)),
    decreases recs.len(),
{
    if recs.len() > 0 {
        assert(forall|j: int|
            0 <= j < recs.drop_last().len() ==> recs.drop_last()[j] == recs[j]);
        lemma_no_event_for_key(recs.drop_last(), now, threshold, key);
        let events = outdated_updates(recs, now, threshold);
        let prior = outdated_updates(recs.drop_last(), now, threshold);
        if events.contains(Update::Outdated(key)) {
            let k = choose|k: int| 0 <= k < events.len() && events[k] == Update::Outdated(key);
            if k < prior.len() {
                assert(prior[k] == Update::Outdated(key));
                assert(prior.contains(Update::Outdated(key)));
            } else {
                assert(outdated_spec(recs.last().1, now, threshold));
                assert(events[k] == Update::Outdated(recs.last().0));
                assert(recs.last().0 == key);
                assert(recs[recs.len() - 1].0 == key);
            }
        }
    }
}

/// Outdated transitions are monotone at the engine level: every record a
/// sweep at `now` demoted is unknown afterwards, and a sweep at any `later`
/// time without an intervening report leaves that record as it is and
/// publishes no event for its escalator.
pub proof fn lemma_sweep_monotonic(
    recs: Seq<(EscalatorFloors, Info)>,
    now: u64,
    threshold: u64,
    later: u64,
    i: int,
)
    requires
        unique_keys(recs),
        0 <= i < recs.len(),
        outdated_spec(recs[i].1, now, threshold),
    ensures
        ({
            let once = sweep_all(recs, now, threshold);
            &&& once[i].1.status is None
            &&& !outdated_spec(once[i].1, later, threshold)
            &&& sweep_all(once, later, threshold)[i] == once[i]
            &&& !outdated_updates(once, later, threshold).contains(
                Update::Outdated(recs[i].0),
            )
        }),
{
    let once = sweep_all(recs, now, threshold);
    assert(once[i].1 == swept_spec(recs[i].1, now, threshold));
    assert(sweep_all(once, later, threshold)[i] == (
        once[i].0,
        swept_spec(once[i].1, later, threshold),
    ));
    assert forall|j: int|
        0 <= j < once.len() && once[j].0 == recs[i].0 implies !outdated_spec(
        once[j].1,
        later,
        threshold,
    ) by {
        assert(once[j].0 == recs[j].0);
        assert(j == i);
    }
    lemma_no_event_for_key(once, later, threshold, recs[i].0);
}

/// When nothing has newly gone stale between two sweeps, the second sweep
/// changes no record and publishes nothing, so by `handle_outdated`'s
/// contract it also leaves the dirty flag as it was. (A record that first
/// crosses the threshold between the two sweeps rightly still publishes.)
pub proof fn lemma_repeated_sweep_quiet(
    recs: Seq<(EscalatorFloors, Info)>,
    now: u64,
    threshold: u64,
    later: u64,
)
    requires
        forall|i: int|
            0 <= i < recs.len() && outdated_spec(recs[i].1, later, threshold) ==> outdated_spec(
                recs[i].1,
                now,
                threshold,
            ),
    ensures
        sweep_all(sweep_all(recs, now, threshold), later, threshold) == sweep_all(
            recs,
            now,
            threshold,
        ),
        outdated_updates(sweep_all(recs, now, threshold), later, threshold)
            == Seq::<Update>::empty(),
{
    let once = sweep_all(recs, now, threshold);
    assert forall|i: int|
        0 <= i < once.len() implies !outdated_spec(once[i].1, later, threshold) by {
        assert(once[i].1 == swept_spec(recs[i].1, now, threshold));
    }
    lemma_no_outdated_no_updates(once, later, threshold);
    assert(sweep_all(once, later, threshold) =~= once);
}

/// Sweeping is idempotent at a fixed time: a second pass at the same `now`
/// changes no record and publishes nothing.
pub proof fn lemma_sweep_idempotent(recs: Seq<(EscalatorFloors, Info)>, now: u64, threshold: u64)
    ensures
        sweep_all(sweep_all(recs, now, threshold), now, threshold) == sweep_all(
            recs,
            now,
            threshold,
        ),
        outdated_updates(sweep_all(recs, now, threshold), now, threshold) == Seq::<Update>::empty(),
{
    lemma_repeated_sweep_quiet(recs, now, threshold, now);
}

/// The targets among `targets` that are registered and whose recorded
/// status differs from `status`: the records a report of `status` would
/// actually change.
pub open spec fn affected_spec(
    recs: Seq<(EscalatorFloors, Info)>,
    targets: Seq<EscalatorFloors>,
    status: Status,
) -> Seq<EscalatorFloors>
    decreases targets.len(),
{
    if targets.len() == 0 {
        Seq::empty()
    } else {
        affected_spec(recs, targets.drop_last(), status) + ({
            let i = find_index(recs, targets.last());
            if i >= 0 && recs[i].1.status != Some(status) {
                seq![targets.last()]
            } else {
                Seq::empty()
            }
        })
    }
}

/// The escalators whose records hold the given status, in record order.
pub open spec fn with_status_spec(
    recs: Seq<(EscalatorFloors, Info)>,
    status: Option<Status>,
) -> Seq<EscalatorFloors>
    decreases recs.len(),
{
    if recs.len() == 0 {
        Seq::empty()
    } else {
        with_status_spec(recs.drop_last(), status) + (if recs.last().1.status == status {
            seq![recs.last().0]
        } else {
            Seq::empty()
        })
    }
}

/// One status-menu entry for a record: the status glyph (the unknown glyph
/// for an unknown status) and the floor label.
pub open spec fn record_entry_spec(p: (EscalatorFloors, Info)) -> Seq<char> {
    seq![p.1.status_emoji_spec()] + " "@ + floors_label_spec(p.0)
}

/// The menu entries of a record sequence, walked in the given index order;
/// indices beyond the records are skipped.
pub open spec fn menu_entries_spec(
    recs: Seq<(EscalatorFloors, Info)>,
    order: Seq<usize>,
) -> Seq<Seq<char>>
    decreases order.len(),
{
    if order.len() == 0 {
        Seq::empty()
    } else {
        menu_entries_spec(recs, order.drop_last()) + (if (order.last() as int) < recs.len() {
            seq![record_entry_spec(recs[order.last() as int])]
        } else {
            Seq::empty()
        })
    }
}

/// The status-menu body over the records, in pair order, two per line.
pub open spec fn menu_message_spec(recs: Seq<(EscalatorFloors, Info)>) -> Seq<char> {
    "**Escalator Statuses:**```\n"@ + chunk2_lines_spec(
        menu_entries_spec(recs, crate::escalator::pair_order_list()),
    ) + "```"@
}

/// The description text of the status summary.
pub open spec fn gist_description_spec(recs: Seq<(EscalatorFloors, Info)>) -> Seq<char> {
    let downs = with_status_spec(recs, Some(Status::Down));
    let blockeds = with_status_spec(recs, Some(Status::Blocked));
    if downs.len() > 0 || blockeds.len() > 0 {
        if downs.len() > 0 && blockeds.len() > 0 {
            summarize_spec(Some(Status::Down), downs, ESCALATOR_COUNT as nat) + "\n"@
                + summarize_spec(Some(Status::Blocked), blockeds, ESCALATOR_COUNT as nat)
        } else if downs.len() > 0 {
            summarize_spec(Some(Status::Down), downs, ESCALATOR_COUNT as nat)
        } else {
            summarize_spec(Some(Status::Blocked), blockeds, ESCALATOR_COUNT as nat)
        }
    } else {
        let unknowns = with_status_spec(recs, None);
        if unknowns.len() == 0 {
            "`"@ + seq![Status::Open.emoji_spec()] + "` `ALL` escalators are `OPEN`! 🥳 🎉"@
        } else {
            summarize_spec(None, unknowns, ESCALATOR_COUNT as nat)
        }
    }
}

/// The accent color of the status summary: red when anything is down or
/// blocked, yellow when anything is unknown, green when all is open.
pub open spec fn gist_color_spec(recs: Seq<(EscalatorFloors, Info)>) -> (u8, u8, u8) {
    let downs = with_status_spec(recs, Some(Status::Down));
    let blockeds = with_status_spec(recs, Some(Status::Blocked));
    if downs.len() > 0 || blockeds.len() > 0 {
        (240u8, 60u8, 60u8)
    } else if with_status_spec(recs, None).len() == 0 {
        (55u8, 220u8, 70u8)
    } else {
        (250u8, 190u8, 25u8)
    }
}

/// A structured summary of the statuses, ready to be rendered as an embed:
/// a description text and an accent color.
pub struct Gist {
    pub description: String,
    pub color: (u8, u8, u8),
}

/// The fixed title of the status summary.
pub fn gist_title() -> (r: &'static str)
    ensures
        r@ == "Here's the gist..."@,
{
    "Here's the gist..."
}

/// Find the first record keyed by `key`.
fn find_record(records: &Vec<(EscalatorFloors, Info)>, key: EscalatorFloors) -> (r: Option<usize>)
    ensures
        match r {
            Some(i) => {
                &&& find_index(records@, key) == i
                &&& i < records@.len()
                &&& records@[i as int].0 == key
            },
            None => find_index(records@, key) == -1,
        },
{
    proof {
        lemma_find_index_props(records@, key);
    }
    let mut i: usize = 0;
    while i < records.len()
        invariant
            i <= records@.len(),
            forall|j: int| 0 <= j < i ==> records@[j].0 != key,
            (find_index(records@, key) == -1) <==> (forall|j: int|
                0 <= j < records@.len() ==> records@[j].0 != key),
            find_index(records@, key) != -1 ==> {
                &&& 0 <= find_index(records@, key) < records@.len()
                &&& records@[find_index(records@, key)].0 == key
                &&& forall|j: int| 0 <= j < find_index(records@, key) ==> records@[j].0 != key
            },
        decreases records@.len() - i,
    {
        let p = records[i];
        if p.0 == key {
            proof {
                assert(records@[i as int].0 == key);
                assert(find_index(records@, key) != -1);
                let f = find_index(records@, key);
                if f < i {
                    assert(records@[f].0 != key);
                }
                if f > i {
                    assert(records@[i as int].0 != key);
                }
            }
            return Some(i);
        }
        i = i + 1;
    }
    None
}

/// The engine's full set of status records, its dirty flag, and the sender
/// side of the update bus. The records keep their first-registered order.
pub struct Statuses {
    records: Vec<(EscalatorFloors, Info)>,
    updates: Bus<Update>,
    should_save: bool,
    outdated_threshold: u64,
}

impl Statuses {
    /// The records, in their stable enumeration order.
    pub closed spec fn records_seq(self) -> Seq<(EscalatorFloors, Info)> {
        self.records@
    }

    /// The update bus this engine publishes on.
    pub closed spec fn updates_bus(self) -> Bus<Update> {
        self.updates
    }

    /// Whether the engine holds changes not yet persisted.
    pub closed spec fn dirty(self) -> bool {
        self.should_save
    }

    /// Seconds after which an unrefreshed status goes stale.
    pub closed spec fn threshold_spec(self) -> u64 {
        self.outdated_threshold
    }

    /// Structural invariant: no two records share an escalator, and the bus
    /// is well formed.
    pub open spec fn wf(self) -> bool {
        &&& unique_keys(self.records_seq())
        &&& self.updates_bus().wf()
    }

    /// An engine over the given records. `should_save` marks whether the
    /// records differ from what the persistence collaborator holds.
    pub fn new(
        records: Vec<(EscalatorFloors, Info)>,
        bus_capacity: usize,
        outdated_threshold: u64,
        should_save: bool,
    ) -> (r: Statuses)
        requires
            unique_keys(records@),
            bus_capacity >= 1,
        ensures
            r.wf(),
            r.records_seq() == records@,
            r.dirty() == should_save,
            r.threshold_spec() == outdated_threshold,
            r.updates_bus().history() == Seq::<Update>::empty(),
            r.updates_bus().capacity_spec() == bus_capacity,
            r.updates_bus().receiver_count_spec() == 0,
    {
        Statuses { records, updates: Bus::new(bus_capacity), should_save, outdated_threshold }
    }

    /// One fresh record per registered escalator, in registry order, each
    /// with an unknown status last updated at the epoch.
    pub fn default_escalators() -> (r: Vec<(EscalatorFloors, Info)>)
        ensures
            unique_keys(r@),
            keys_of(r@) == escalator_list(),
            forall|i: int| 0 <= i < r@.len() ==> r@[i].1 == (Info {
                status: None::<Status>,
                last_update: 0u64,
            }),
    {
        let list = escalators();
        let mut v: Vec<(EscalatorFloors, Info)> = Vec::new();
        let mut i: usize = 0;
        while i < list.len()
            invariant
                i <= list@.len(),
                list@ == escalator_list(),
                v@.len() == i,
                forall|j: int| 0 <= j < i ==> v@[j].0 == escalator_list()[j],
                forall|j: int| 0 <= j < i ==> v@[j].1 == (Info {
                    status: None::<Status>,
                    last_update: 0u64,
                }),
            decreases list@.len() - i,
        {
            v.push((list[i], Info::default()));
            i = i + 1;
        }
        proof {
            assert(keys_of(v@) =~= escalator_list());
            assert forall|a: int, b: int| 0 <= a < b < v@.len() implies v@[a].0 != v@[b].0 by {
                assert(escalator_list()[a] != escalator_list()[b]);
            }
        }
        v
    }

    /// Restore an engine from a persisted snapshot. With no snapshot the
    /// engine falls back to the default all-unknown records and marks itself
    /// dirty so the next save re-persists a consistent state.
    pub fn from_snapshot(
        snapshot: Option<Vec<(EscalatorFloors, Info)>>,
        bus_capacity: usize,
        outdated_threshold: u64,
    ) -> (r: Statuses)
        requires
            bus_capacity >= 1,
            snapshot matches Some(v) ==> unique_keys(v@),
        ensures
            r.wf(),
            r.threshold_spec() == outdated_threshold,
            r.updates_bus().history() == Seq::<Update>::empty(),
            r.updates_bus().receiver_count_spec() == 0,
            match snapshot {
                Some(v) => r.records_seq() == v@ && !r.dirty(),
                None => {
                    &&& keys_of(r.records_seq()) == escalator_list()
                    &&& forall|i: int|
                        0 <= i < r.records_seq().len() ==> r.records_seq()[i].1 == (Info {
                            status: None::<Status>,
                            last_update: 0u64,
                        })
                    &&& r.dirty()
                },
            },
    {
        match snapshot {
            Some(records) => Self::new(records, bus_capacity, outdated_threshold, false),
            None => Self::new(Self::default_escalators(), bus_capacity, outdated_threshold, true),
        }
    }

    /// A copy of the full state, for the persistence collaborator.
    pub fn snapshot(&self) -> (r: Vec<(EscalatorFloors, Info)>)
        ensures
            r@ == self.records_seq(),
    {
        let mut v: Vec<(EscalatorFloors, Info)> = Vec::new();
        let mut i: usize = 0;
        while i < self.records.len()
            invariant
                i <= self.records@.len(),
                v@ =~= self.records@.take(i as int),
            decreases self.records@.len() - i,
        {
            v.push(self.records[i]);
            i = i + 1;
        }
        proof {
            assert(self.records@.take(self.records@.len() as int) =~= self.records@);
        }
        v
    }

    /// Whether the engine holds changes not yet persisted.
    pub fn needs_save(&self) -> (r: bool)
        ensures
            r == self.dirty(),
    {
        self.should_save
    }

    /// Note that the current state was persisted.
    pub fn mark_saved(&mut self)
        ensures
            !final(self).dirty(),
            final(self).records_seq() == old(self).records_seq(),
            final(self).updates_bus() == old(self).updates_bus(),
            final(self).threshold_spec() == old(self).threshold_spec(),
    {
        self.should_save = false;
    }

    /// The record of one escalator, when the registry of this engine has it.
    pub fn get_info(&self, escalator: EscalatorFloors) -> (r: Option<Info>)
        ensures
            match r {
                Some(info) => {
                    &&& find_index(self.records_seq(), escalator) >= 0
                    &&& info == self.records_seq()[find_index(self.records_seq(), escalator)].1
                },
                None => find_index(self.records_seq(), escalator) == -1,
            },
    {
        match find_record(&self.records, escalator) {
            Some(i) => Some(self.records[i].1),
            None => None,
        }
    }

    /// A new receiver on the update bus, seeing updates published from now
    /// on.
    pub fn subscribe_updates(&mut self) -> (r: BusReceiver)
        requires
            old(self).wf(),
            old(self).updates_bus().receiver_count_spec() < u64::MAX,
        ensures
            final(self).wf(),
            final(self).records_seq() == old(self).records_seq(),
            final(self).dirty() == old(self).dirty(),
            final(self).threshold_spec() == old(self).threshold_spec(),
            final(self).updates_bus().history() == old(self).updates_bus().history(),
            final(self).updates_bus().capacity_spec() == old(self).updates_bus().capacity_spec(),
            final(self).updates_bus().receiver_count_spec() == old(
                self,
            ).updates_bus().receiver_count_spec() + 1,
            r.next_seq as nat == old(self).updates_bus().history().len(),
    {
        self.updates.subscribe()
    }

    /// Poll a receiver of this engine's update bus.
    pub fn try_recv_update<'a>(&'a self, rx: &mut BusReceiver) -> (r: TryRecvResult<'a, Update>)
        requires
            self.wf(),
        ensures
            ({
                let len = self.updates_bus().history().len();
                let cap = self.updates_bus().capacity_spec();
                let cursor = old(rx).next_seq as nat;
                let oldest = crate::bus::oldest_retained(len, cap);
                if cursor < oldest {
                    &&& r matches TryRecvResult::Lagged(n) && n as nat == crate::bus::lag_of(
                        len,
                        cap,
                        cursor,
                    )
                    &&& final(rx).next_seq as nat == oldest
                } else if cursor >= len {
                    &&& r is Empty
                    &&& *final(rx) == *old(rx)
                } else {
                    &&& r matches TryRecvResult::Message(m) && *m == self.updates_bus().history()[cursor as int]
                    &&& final(rx).next_seq == old(rx).next_seq + 1
                }
            }),
    {
        self.updates.try_recv(rx)
    }

    /// The escalators currently holding the given status, in record order.
    pub fn escalators_with_status(&self, status: Option<Status>) -> (r: Vec<EscalatorFloors>)
        ensures
            r@ == with_status_spec(self.records_seq(), status),
    {
        let mut v: Vec<EscalatorFloors> = Vec::new();
        let mut i: usize = 0;
        proof {
            assert(self.records@.take(0) =~= Seq::<(EscalatorFloors, Info)>::empty());
        }
        while i < self.records.len()
            invariant
                i <= self.records@.len(),
                v@ == with_status_spec(self.records@.take(i as int), status),
            decreases self.records@.len() - i,
        {
            let p = self.records[i];
            let matches_status = match (p.1.status, status) {
                (None, None) => true,
                (Some(a), Some(b)) => a == b,
                _ => false,
            };
            if matches_status {
                v.push(p.0);
            }
            proof {
                assert(self.records@.take(i + 1).drop_last() =~= self.records@.take(i as int));
                assert(self.records@.take(i + 1).last() == self.records@[i as int]);
                assert(v@ =~= with_status_spec(self.records@.take(i + 1), status));
            }
            i = i + 1;
        }
        proof {
            assert(self.records@.take(self.records@.len() as int) =~= self.records@);
        }
        v
    }

    /// The status-menu body: every record's glyph and label, walked in pair
    /// order, two per line.
    pub fn menu_message(&self) -> (s: String)
        ensures
            s@ == menu_message_spec(self.records_seq()),
    {
        let order = crate::escalator::pair_order();
        let mut entries: Vec<String> = Vec::new();
        let ghost order_seq = crate::escalator::pair_order_list();
        let mut i: usize = 0;
        proof {
            assert(order_seq.take(0) =~= Seq::<usize>::empty());
        }
        while i < order.len()
            invariant
                i <= order@.len(),
                order@ == order_seq,
                entries@.map_values(|e: String| e@) == menu_entries_spec(
                    self.records@,
                    order_seq.take(i as int),
                ),
            decreases order@.len() - i,
        {
            let idx = order[i];
            if idx < self.records.len() {
                let p = self.records[idx];
                let mut entry = String::new();
                entry.push(p.1.status_emoji());
                entry.append(" ");
                let label = floors_label(p.0);
                entry.append(label.as_str());
                proof {
                    assert(entry@ =~= record_entry_spec(self.records@[idx as int]));
                }
                entries.push(entry);
            }
            proof {
                assert(order_seq.take(i + 1).drop_last() =~= order_seq.take(i as int));
                assert(order_seq.take(i + 1).last() == order_seq[i as int]);
                assert(entries@.map_values(|e: String| e@) =~= menu_entries_spec(
                    self.records@,
                    order_seq.take(i + 1),
                ));
            }
            i = i + 1;
        }
        proof {
            assert(order_seq.take(order_seq.len() as int) =~= order_seq);
        }
        let body = chunk2_join(&entries);
        let mut s = String::from_str("**Escalator Statuses:**```\n");
        s.append(body.as_str());
        s.append("```");
        proof {
            assert(s@ =~= menu_message_spec(self.records@));
        }
        s
    }

    /// A structured summary of the statuses: down and blocked escalators
    /// grouped and counted when there are any; otherwise the unknown ones;
    /// otherwise that everything is open.
    pub fn gist(&self) -> (g: Gist)
        ensures
            g.description@ == gist_description_spec(self.records_seq()),
            g.color == gist_color_spec(self.records_seq()),
    {
        let downs = self.escalators_with_status(Some(Status::Down));
        let blockeds = self.escalators_with_status(Some(Status::Blocked));
        if downs.len() > 0 || blockeds.len() > 0 {
            let mut description = String::new();
            if downs.len() > 0 {
                let line = summarize_status(Some(Status::Down), &downs, ESCALATOR_COUNT);
                description.append(line.as_str());
            }
            if downs.len() > 0 && blockeds.len() > 0 {
                description.append("\n");
            }
            if blockeds.len() > 0 {
                let line = summarize_status(Some(Status::Blocked), &blockeds, ESCALATOR_COUNT);
                description.append(line.as_str());
            }
            proof {
                assert(description@ =~= gist_description_spec(self.records_seq()));
            }
            Gist { description, color: (240, 60, 60) }
        } else {
            let unknowns = self.escalators_with_status(None);
            if unknowns.len() == 0 {
                let mut description = String::from_str("`");
                description.push(Status::Open.emoji());
                description.append("` `ALL` escalators are `OPEN`! 🥳 🎉");
                proof {
                    assert(description@ =~= gist_description_spec(self.records_seq()));
                }
                Gist { description, color: (55, 220, 70) }
            } else {
                let description = summarize_status(None, &unknowns, ESCALATOR_COUNT);
                Gist { description, color: (250, 190, 25) }
            }
        }
    }

    /// The escalators a report would actually change: the targets of the
    /// selection that this engine has a record for and whose recorded status
    /// is not already the reported one.
    pub fn affected_by(&self, escalators: EscalatorInput, status: Status) -> (r: Vec<
        EscalatorFloors,
    >)
        ensures
            r@ == affected_spec(self.records_seq(), expansion_spec(escalators), status),
    {
        let targets = escalators.escalators();
        let mut affected: Vec<EscalatorFloors> = Vec::new();
        let mut t: usize = 0;
        proof {
            assert(targets@.take(0) =~= Seq::<EscalatorFloors>::empty());
        }
        while t < targets.len()
            invariant
                t <= targets@.len(),
                targets@ == expansion_spec(escalators),
                affected@ == affected_spec(self.records_seq(), targets@.take(t as int), status),
            decreases targets@.len() - t,
        {
            let target = targets[t];
            match find_record(&self.records, target) {
                Some(i) => {
                    let differs = match (self.records[i].1.status, status) {
                        (Some(a), b) => a != b,
                        (None, _) => true,
                    };
                    if differs {
                        affected.push(target);
                    }
                },
                None => {},
            }
            proof {
                assert(targets@.take(t + 1).drop_last() =~= targets@.take(t as int));
                assert(targets@.take(t + 1).last() == target);
                assert(affected@ =~= affected_spec(
                    self.records_seq(),
                    targets@.take(t + 1),
                    status,
                ));
            }
            t = t + 1;
        }
        proof {
            assert(targets@.take(targets@.len() as int) =~= targets@);
        }
        affected
    }

    /// Apply a user report: every targeted escalator the registry knows is
    /// classified and updated in place (unknown targets are silently
    /// skipped), the per-escalator kinds are reduced to the most significant
    /// one, the update is published, and the engine is marked dirty unless
    /// the overall kind is redundant.
    pub fn report(&mut self, report: UserReport, now: u64) -> (kind: ReportKind)
        requires
            old(self).wf(),
            old(self).updates_bus().history().len() < u64::MAX,
        ensures
            final(self).wf(),
            final(self).threshold_spec() == old(self).threshold_spec(),
            final(self).updates_bus().capacity_spec() == old(self).updates_bus().capacity_spec(),
            final(self).updates_bus().receiver_count_spec() == old(
                self,
            ).updates_bus().receiver_count_spec(),
            ({
                let applied = apply_targets(
                    old(self).records_seq(),
                    expansion_spec(report.escalators),
                    report.new_status,
                    now,
                );
                &&& final(self).records_seq() == applied.0
                &&& kind == reduce_spec(applied.1)
                &&& final(self).dirty() == (old(self).dirty() || kind != ReportKind::Redundant)
                &&& if old(self).updates_bus().receiver_count_spec() > 0 {
                    final(self).updates_bus().history() == old(
                        self,
                    ).updates_bus().history().push(Update::Report { report, kind })
                } else {
                    final(self).updates_bus().history() == old(self).updates_bus().history()
                }
            }),
    {
        let status = report.new_status;
        let targets = report.escalators.escalators();
        let ghost original = self.records@;
        let mut kinds: Vec<ReportKind> = Vec::new();
        let mut t: usize = 0;
        proof {
            assert(targets@.take(0) =~= Seq::<EscalatorFloors>::empty());
        }
        while t < targets.len()
            invariant
                t <= targets@.len(),
                targets@ == expansion_spec(report.escalators),
                status == report.new_status,
                (self.records@, kinds@) == apply_targets(
                    original,
                    targets@.take(t as int),
                    status,
                    now,
                ),
                self.updates == old(self).updates,
                self.should_save == old(self).should_save,
                self.outdated_threshold == old(self).outdated_threshold,
            decreases targets@.len() - t,
        {
            let target = targets[t];
            let ghost before = self.records@;
            match find_record(&self.records, target) {
                Some(i) => {
                    let pair = self.records[i];
                    let mut info = pair.1;
                    let k = info.update_status(status, now);
                    self.records[i] = (pair.0, info);
                    kinds.push(k);
                },
                None => {},
            }
            proof {
                assert(targets@.take(t + 1).drop_last() =~= targets@.take(t as int));
                assert(targets@.take(t + 1).last() == target);
                let head = apply_target(before, target, status, now);
                assert(self.records@ =~= head.0);
                assert(kinds@ =~= apply_targets(original, targets@.take(t + 1), status, now).1);
            }
            t = t + 1;
        }
        proof {
            assert(targets@.take(targets@.len() as int) =~= targets@);
            lemma_apply_preserves_keys(original, targets@, status, now);
            assert(keys_of(self.records@) == keys_of(original));
            assert(keys_of(self.records@).len() == self.records@.len());
            assert(keys_of(original).len() == original.len());
            assert forall|a: int, b: int|
                0 <= a < b < self.records@.len() implies self.records@[a].0
                != self.records@[b].0 by {
                assert(keys_of(self.records@)[a] == self.records@[a].0);
                assert(keys_of(self.records@)[b] == self.records@[b].0);
                assert(keys_of(original)[a] == original[a].0);
                assert(keys_of(original)[b] == original[b].0);
                assert(original[a].0 != original[b].0);
            }
        }
        let kind = crate::kind::reduce_kinds(&kinds);
        if !matches!(kind, ReportKind::Redundant) {
            self.should_save = true;
        }
        let _ = self.updates.send(Update::Report { report, kind });
        kind
    }

    /// One outdated sweep over every record at time `now`: each stale status
    /// reverts to unknown, an `Outdated` event is published per change in
    /// record order, and the engine is marked dirty when anything changed.
    pub fn handle_outdated(&mut self, now: u64)
        requires
            old(self).wf(),
            old(self).updates_bus().history().len() + old(self).records_seq().len() <= u64::MAX,
        ensures
            final(self).wf(),
            final(self).threshold_spec() == old(self).threshold_spec(),
            final(self).updates_bus().capacity_spec() == old(self).updates_bus().capacity_spec(),
            final(self).updates_bus().receiver_count_spec() == old(
                self,
            ).updates_bus().receiver_count_spec(),
            final(self).records_seq() == sweep_all(
                old(self).records_seq(),
                now,
                old(self).threshold_spec(),
            ),
            ({
                let events = outdated_updates(
                    old(self).records_seq(),
                    now,
                    old(self).threshold_spec(),
                );
                &&& final(self).dirty() == (old(self).dirty() || events.len() > 0)
                &&& if old(self).updates_bus().receiver_count_spec() > 0 {
                    final(self).updates_bus().history() == old(self).updates_bus().history()
                        + events
                } else {
                    final(self).updates_bus().history() == old(self).updates_bus().history()
                }
            }),
    {
        let threshold = self.outdated_threshold;
        let ghost original = self.records@;
        let mut events: Vec<Update> = Vec::new();
        let mut i: usize = 0;
        proof {
            assert(original.take(0) =~= Seq::<(EscalatorFloors, Info)>::empty());
        }
        while i < self.records.len()
            invariant
                i <= self.records@.len(),
                self.records@.len() == original.len(),
                threshold == self.outdated_threshold,
                forall|j: int|
                    0 <= j < i ==> self.records@[j] == (
                        original[j].0,
                        swept_spec(original[j].1, now, threshold),
                    ),
                forall|j: int| i <= j < original.len() ==> self.records@[j] == original[j],
                events@ == outdated_updates(original.take(i as int), now, threshold),
                events@.len() <= i,
                self.updates == old(self).updates,
                self.should_save == old(self).should_save,
                self.outdated_threshold == old(self).outdated_threshold,
            decreases self.records@.len() - i,
        {
            let pair = self.records[i];
            let mut info = pair.1;
            let changed = info.handle_outdated(now, threshold);
            self.records[i] = (pair.0, info);
            if changed {
                events.push(Update::Outdated(pair.0));
            }
            proof {
                assert(original.take(i + 1).drop_last() =~= original.take(i as int));
                assert(original.take(i + 1).last() == original[i as int]);
                assert(events@ =~= outdated_updates(original.take(i + 1), now, threshold));
            }
            i = i + 1;
        }
        proof {
            assert(original.take(original.len() as int) =~= original);
            assert(events@ == outdated_updates(original, now, threshold));
            assert(self.records@ =~= sweep_all(original, now, threshold));
            assert forall|a: int, b: int|
                0 <= a < b < self.records@.len() implies self.records@[a].0
                != self.records@[b].0 by {
                assert(original[a].0 != original[b].0);
            }
        }
        if events.len() > 0 {
            self.should_save = true;
        }
        let ghost all_events = events@;
        let ghost history_before = self.updates.history();
        let total = events.len();
        let mut k: usize = 0;
        proof {
            assert(all_events.len() == total);
            assert(all_events.skip(0) =~= all_events);
            assert(all_events.take(0) =~= Seq::<Update>::empty());
            assert(history_before + all_events.take(0) =~= history_before);
        }
        while events.len() > 0
            invariant
                all_events.len() <= usize::MAX,
                k + events@.len() == all_events.len(),
                events@ =~= all_events.skip(k as int),
                all_events.len() <= original.len(),
                all_events == outdated_updates(original, now, threshold),
                self.updates.wf(),
                self.updates.capacity_spec() == old(self).updates_bus().capacity_spec(),
                self.updates.receiver_count_spec() == old(self).updates_bus().receiver_count_spec(),
                history_before.len() + all_events.len() <= u64::MAX,
                history_before == old(self).updates_bus().history(),
                if self.updates.receiver_count_spec() > 0 {
                    self.updates.history() == history_before + all_events.take(k as int)
                } else {
                    self.updates.history() == history_before
                },
                self.records@ == sweep_all(original, now, threshold),
                self.should_save == (old(self).should_save || all_events.len() > 0),
                self.outdated_threshold == old(self).outdated_threshold,
            decreases events@.len(),
        {
            let ev = events.remove(0);
            proof {
                assert(ev == all_events[k as int]);
                assert(all_events.take(k + 1) =~= all_events.take(k as int).push(
                    all_events[k as int],
                ));
                assert(history_before + all_events.take(k as int).push(all_events[k as int])
                    =~= (history_before + all_events.take(k as int)).push(all_events[k as int]));
            }
            let _ = self.updates.send(ev);
            k = k + 1;
            proof {
                assert(events@ =~= all_events.skip(k as int));
            }
        }
        proof {
            assert(all_events.take(all_events.len() as int) =~= all_events);
            if self.updates.receiver_count_spec() > 0 {
                assert(self.updates.history() =~= history_before + all_events);
            }
        }
    }
}

} // verus!
