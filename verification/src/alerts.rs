//! Per-user watch lists: which escalators a user wants alert messages for,
//! the interactive editor's state machine, and the lookup of the users
//! watching the escalators of a report.

use vstd::prelude::*;

use crate::component::ComponentStatus;
use crate::escalator::{
    escalator_list, floors, registry_index_spec, EscalatorFloors, ESCALATOR_COUNT,
};
use crate::input::EscalatorInput;

verus! {

/// Whether a user wants alerts for one escalator.
#[derive(Debug, Clone, Copy, PartialEq, Eq, Structural)]
pub enum Subscription {
    Watch,
    Ignore,
}

/// The opposite subscription.
pub open spec fn toggled_spec(sub: Subscription) -> Subscription {
    match sub {
        Subscription::Watch => Subscription::Ignore,
        Subscription::Ignore => Subscription::Watch,
    }
}

impl Subscription {
    /// Flip between watching and ignoring.
    pub fn toggle(&mut self)
        ensures
            *final(self) == toggled_spec(*old(self)),
    {
        match self {
            Subscription::Watch => {
                *self = Subscription::Ignore;
            },
            Subscription::Ignore => {
                *self = Subscription::Watch;
            },
        }
    }

    pub fn is_watching(&self) -> (r: bool)
        ensures
            r == (*self is Watch),
    {
        match self {
            Subscription::Watch => true,
            Subscription::Ignore => false,
        }
    }
}

/// One button press in the watch-list editor.
#[derive(Debug, Clone, Copy, PartialEq, Eq, Structural)]
pub enum WatchlistAction {
    Toggle(EscalatorFloors),
    Submit,
}

/// One editor entry after a toggle press for `floors`: the named entry's
/// subscription flips, every other entry stays.
pub open spec fn toggle_entry_spec(
    entry: (EscalatorFloors, Subscription),
    floors: EscalatorFloors,
) -> (EscalatorFloors, Subscription) {
    if entry.0 == floors {
        (entry.0, toggled_spec(entry.1))
    } else {
        entry
    }
}

/// The watch-list editor: one subscription toggle per escalator, in menu
/// order.
#[derive(Debug, Clone)]
pub struct WatchlistComponent {
    pub watchlist: Vec<(EscalatorFloors, Subscription)>,
}

impl WatchlistComponent {
    /// Apply one editor button press: toggling flips the subscription of the
    /// named escalator (and changes nothing for an unknown one); submit
    /// completes the interaction with the edited list in place.
    pub fn execute(&mut self, command: WatchlistAction) -> (r: ComponentStatus<()>)
        ensures
            match command {
                WatchlistAction::Toggle(floors) => {
                    &&& r is Continue
                    &&& final(self).watchlist@.len() == old(self).watchlist@.len()
                    &&& forall|j: int|
                        0 <= j < old(self).watchlist@.len() ==> final(self).watchlist@[j]
                            == toggle_entry_spec(old(self).watchlist@[j], floors)
                },
                WatchlistAction::Submit => {
                    &&& r == ComponentStatus::Complete(())
                    &&& *final(self) == *old(self)
                },
            },
    {
        match command {
            WatchlistAction::Submit => ComponentStatus::Complete(()),
            WatchlistAction::Toggle(floors) => {
                let mut i: usize = 0;
                while i < self.watchlist.len()
                    invariant
                        i <= self.watchlist@.len(),
                        self.watchlist@.len() == old(self).watchlist@.len(),
                        forall|j: int|
                            0 <= j < i ==> self.watchlist@[j] == toggle_entry_spec(
                                old(self).watchlist@[j],
                                floors,
                            ),
                        forall|j: int|
                            i <= j < self.watchlist@.len() ==> self.watchlist@[j] == old(
                                self,
                            ).watchlist@[j],
                    decreases self.watchlist@.len() - i,
                {
                    let p = self.watchlist[i];
                    if p.0 == floors {
                        let mut sub = p.1;
                        sub.toggle();
                        self.watchlist[i] = (p.0, sub);
                    }
                    i = i + 1;
                }
                ComponentStatus::Continue
            },
        }
    }
}

/// A watch list as persisted: one flag per registry position.
pub type WatchList = [bool; ESCALATOR_COUNT];

/// Error for a selection that names an escalator outside the registry.
#[derive(Debug, Clone, Copy, PartialEq, Eq, Structural)]
pub struct UnknownEscalatorError;

/// A selection resolved to registry positions.
#[derive(Debug, Clone, Copy, PartialEq, Eq, Structural)]
pub enum EscalatorIndex {
    All,
    Direct(usize),
    Pair(usize, usize),
}

/// Positions an `EscalatorIndex` may hold are registry positions.
pub open spec fn index_in_bounds(idx: EscalatorIndex) -> bool {
    match idx {
        EscalatorIndex::All => true,
        EscalatorIndex::Direct(i) => i < ESCALATOR_COUNT,
        EscalatorIndex::Pair(i, j) => i < ESCALATOR_COUNT && j < ESCALATOR_COUNT,
    }
}

/// What a selection resolves to: `All` as it is, a direction or a pair by
/// its registry positions, and `None` where a named floor pair (either
/// direction, for a pair) is not registered.
pub open spec fn resolve_spec(value: EscalatorInput) -> Option<EscalatorIndex> {
    match value {
        EscalatorInput::All => Some(EscalatorIndex::All),
        EscalatorInput::Direct(a, b) => {
            let i = registry_index_spec(floors(a, b));
            if i < 0 {
                None
            } else {
                Some(EscalatorIndex::Direct(i as usize))
            }
        },
        EscalatorInput::Pair(a, b) => {
            let i = registry_index_spec(floors(a, b));
            let j = registry_index_spec(floors(b, a));
            if i < 0 || j < 0 {
                None
            } else {
                Some(EscalatorIndex::Pair(i as usize, j as usize))
            }
        },
    }
}

impl EscalatorIndex {
    /// Resolve a selection to registry positions; a floor pair outside the
    /// registry (either direction, for a pair) is rejected.
    pub fn from_input(value: EscalatorInput) -> (r: Result<EscalatorIndex, UnknownEscalatorError>)
        ensures
            match r {
                Ok(idx) => {
                    &&& resolve_spec(value) == Some(idx)
                    &&& index_in_bounds(idx)
                    &&& match idx {
                        EscalatorIndex::All => value is All,
                        EscalatorIndex::Direct(i) => value matches EscalatorInput::Direct(a, b)
                            && escalator_list()[i as int] == (EscalatorFloors { start: a, end: b }),
                        EscalatorIndex::Pair(i, j) => value matches EscalatorInput::Pair(a, b)
                            && escalator_list()[i as int] == (EscalatorFloors { start: a, end: b })
                            && escalator_list()[j as int] == (EscalatorFloors {
                            start: b,
                            end: a,
                        }),
                    }
                },
                Err(_) => resolve_spec(value) is None,
            },
    {
        match value {
            EscalatorInput::All => Ok(EscalatorIndex::All),
            EscalatorInput::Direct(start, end) => {
                match crate::escalator::escalator_index(EscalatorFloors::new(start, end)) {
                    Some(i) => Ok(EscalatorIndex::Direct(i)),
                    None => Err(UnknownEscalatorError),
                }
            },
            EscalatorInput::Pair(a, b) => {
                let forward = match crate::escalator::escalator_index(
                    EscalatorFloors::new(a, b),
                ) {
                    Some(i) => i,
                    None => {
                        return Err(UnknownEscalatorError);
                    },
                };
                match crate::escalator::escalator_index(EscalatorFloors::new(b, a)) {
                    Some(j) => Ok(EscalatorIndex::Pair(forward, j)),
                    None => Err(UnknownEscalatorError),
                }
            },
        }
    }
}

/// Whether a watch list covers a resolved selection: everything covers
/// `All`, one flag a direction, either flag a pair.
pub open spec fn on_watch_list_spec(wl: Seq<bool>, idx: EscalatorIndex) -> bool {
    match idx {
        EscalatorIndex::All => true,
        EscalatorIndex::Direct(i) => wl[i as int],
        EscalatorIndex::Pair(i, j) => wl[i as int] || wl[j as int],
    }
}

/// Whether a watch list covers a resolved selection.
pub fn is_on_watch_list(watch_list: &WatchList, escalators: EscalatorIndex) -> (r: bool)
    requires
        index_in_bounds(escalators),
    ensures
        r == on_watch_list_spec(watch_list@, escalators),
{
    match escalators {
        EscalatorIndex::All => true,
        EscalatorIndex::Direct(i) => watch_list[i],
        EscalatorIndex::Pair(i, j) => watch_list[i] || watch_list[j],
    }
}

/// Index of the first watch-list entry of `user`, or -1 when there is none.
pub open spec fn find_user(lists: Seq<(u64, WatchList)>, user: u64) -> int
    decreases lists.len(),
{
    if lists.len() == 0 {
        -1
    } else if lists[0].0 == user {
        0
    } else {
        let rest = find_user(lists.drop_first(), user);
        if rest < 0 {
            -1
        } else {
            rest + 1
        }
    }
}

/// `find_user` finds exactly the first entry of the user.
pub proof fn lemma_find_user_props(lists: Seq<(u64, WatchList)>, user: u64)
    ensures
        (find_user(lists, user) == -1) <==> (forall|j: int|
            0 <= j < lists.len() ==> lists[j].0 != user),
        find_user(lists, user) != -1 ==> {
            &&& 0 <= find_user(lists, user) < lists.len()
            &&& lists[find_user(lists, user)].0 == user
            &&& forall|j: int| 0 <= j < find_user(lists, user) ==> lists[j].0 != user
        },
    decreases lists.len(),
{
    if lists.len() > 0 {
        let rest = lists.drop_first();
        lemma_find_user_props(rest, user);
        assert(forall|j: int| 0 <= j < rest.len() ==> rest[j] == lists[j + 1]);
        if lists[0].0 != user {
            let f = find_user(rest, user);
            if f == -1 {
                assert forall|j: int| 0 <= j < lists.len() implies lists[j].0 != user by {
                    if j > 0 {
                        assert(rest[j - 1] == lists[j]);
                    }
                }
            } else {
                assert(lists[f + 1].0 == user);
                assert forall|j: int| 0 <= j < f + 1 implies lists[j].0 != user by {
                    if j > 0 {
                        assert(rest[j - 1] == lists[j]);
                    }
                }
            }
        }
    }
}

/// Whether no escalator is selected.
pub open spec fn all_unselected(wl: Seq<bool>) -> bool {
    forall|i: int| 0 <= i < wl.len() ==> !wl[i]
}

/// The users whose watch lists cover a resolved selection, in list order.
pub open spec fn watchers_spec(lists: Seq<(u64, WatchList)>, idx: EscalatorIndex) -> Seq<u64>
    decreases lists.len(),
{
    if lists.len() == 0 {
        Seq::empty()
    } else {
        watchers_spec(lists.drop_last(), idx) + (if on_watch_list_spec(lists.last().1@, idx) {
            seq![lists.last().0]
        } else {
            Seq::empty()
        })
    }
}

/// Every user's watch list, and whether the set differs from what the
/// persistence collaborator holds.
pub struct Alerts {
    watch_lists: Vec<(u64, WatchList)>,
    should_save: bool,
}

impl Alerts {
    /// The watch lists, one entry per user.
    pub closed spec fn lists_seq(self) -> Seq<(u64, WatchList)> {
        self.watch_lists@
    }

    /// Whether the lists hold changes not yet persisted.
    pub closed spec fn dirty(self) -> bool {
        self.should_save
    }

    /// No two entries belong to the same user.
    pub open spec fn wf(self) -> bool {
        forall|i: int, j: int|
            0 <= i < j < self.lists_seq().len() ==> self.lists_seq()[i].0
                != self.lists_seq()[j].0
    }

    /// Restore the watch lists from persisted entries. With none the set
    /// starts empty and marks itself dirty so the next save re-persists it.
    pub fn from_entries(entries: Option<Vec<(u64, WatchList)>>) -> (r: Alerts)
        requires
            entries matches Some(v) ==> forall|i: int, j: int|
                0 <= i < j < v@.len() ==> v@[i].0 != v@[j].0,
        ensures
            r.wf(),
            match entries {
                Some(v) => r.lists_seq() == v@ && !r.dirty(),
                None => r.lists_seq() == Seq::<(u64, WatchList)>::empty() && r.dirty(),
            },
    {
        match entries {
            Some(watch_lists) => Alerts { watch_lists, should_save: false },
            None => Alerts { watch_lists: Vec::new(), should_save: true },
        }
    }

    /// A copy of every entry, for the persistence collaborator.
    pub fn entries(&self) -> (r: Vec<(u64, WatchList)>)
        ensures
            r@ == self.lists_seq(),
    {
        let mut v: Vec<(u64, WatchList)> = Vec::new();
        let mut i: usize = 0;
        while i < self.watch_lists.len()
            invariant
                i <= self.watch_lists@.len(),
                v@ =~= self.watch_lists@.take(i as int),
            decreases self.watch_lists@.len() - i,
        {
            v.push(self.watch_lists[i]);
            i = i + 1;
        }
        proof {
            assert(self.watch_lists@.take(self.watch_lists@.len() as int)
                =~= self.watch_lists@);
        }
        v
    }

    /// Whether the lists hold changes not yet persisted.
    pub fn needs_save(&self) -> (r: bool)
        ensures
            r == self.dirty(),
    {
        self.should_save
    }

    /// Note that the current lists were persisted.
    pub fn mark_saved(&mut self)
        ensures
            !final(self).dirty(),
            final(self).lists_seq() == old(self).lists_seq(),
    {
        self.should_save = false;
    }

    /// A user's watch list, if they have one.
    pub fn get_watch_list(&self, user: u64) -> (r: Option<WatchList>)
        ensures
            match r {
                Some(wl) => find_user(self.lists_seq(), user) >= 0 && wl == self.lists_seq()[
                    find_user(self.lists_seq(), user)
                ].1,
                None => find_user(self.lists_seq(), user) == -1,
            },
    {
        match self.find_entry(user) {
            Some(i) => Some(self.watch_lists[i].1),
            None => None,
        }
    }

    /// Replace a user's watch list with an updated one: an all-unselected
    /// list removes the user's entry; a new or changed list is stored; only
    /// an actual change marks the set dirty.
    pub fn replace(&mut self, user: u64, watch_list: WatchList)
        requires
            old(self).wf(),
        ensures
            final(self).wf(),
            ({
                let lists = old(self).lists_seq();
                let i = find_user(lists, user);
                if all_unselected(watch_list@) {
                    if i >= 0 {
                        &&& final(self).lists_seq() == lists.remove(i)
                        &&& final(self).dirty()
                    } else {
                        &&& final(self).lists_seq() == lists
                        &&& final(self).dirty() == old(self).dirty()
                    }
                } else {
                    if i < 0 {
                        &&& final(self).lists_seq() == lists.push((user, watch_list))
                        &&& final(self).dirty()
                    } else if lists[i].1@ != watch_list@ {
                        &&& final(self).lists_seq() == lists.update(i, (user, watch_list))
                        &&& final(self).dirty()
                    } else {
                        &&& final(self).lists_seq() == lists
                        &&& final(self).dirty() == old(self).dirty()
                    }
                }
            }),
    {
        let ghost lists = self.watch_lists@;
        let mut unselected = true;
        let mut k: usize = 0;
        while k < watch_list.len()
            invariant
                k <= watch_list@.len(),
                unselected == (forall|i: int| 0 <= i < k ==> !watch_list@[i]),
            decreases watch_list@.len() - k,
        {
            if watch_list[k] {
                unselected = false;
            }
            k = k + 1;
        }
        if unselected {
            match self.find_entry(user) {
                Some(i) => {
                    self.watch_lists.remove(i);
                    self.should_save = true;
                    proof {
                        assert forall|a: int, b: int|
                            0 <= a < b < self.watch_lists@.len() implies self.watch_lists@[a].0
                            != self.watch_lists@[b].0 by {
                            if a < i {
                                if b < i {
                                    assert(lists[a].0 != lists[b].0);
                                } else {
                                    assert(lists[a].0 != lists[b + 1].0);
                                }
                            } else {
                                assert(lists[a + 1].0 != lists[b + 1].0);
                            }
                        }
                    }
                },
                None => {},
            }
            return ;
        }
        match self.find_entry(user) {
            Some(i) => {
                let current = self.watch_lists[i];
                let mut same = true;
                let mut k: usize = 0;
                while k < watch_list.len()
                    invariant
                        k <= watch_list@.len(),
                        current.1@.len() == watch_list@.len(),
                        same == (forall|j: int| 0 <= j < k ==> current.1@[j] == watch_list@[j]),
                    decreases watch_list@.len() - k,
                {
                    if current.1[k] != watch_list[k] {
                        same = false;
                    }
                    k = k + 1;
                }
                if !same {
                    self.watch_lists[i] = (user, watch_list);
                    self.should_save = true;
                } else {
                    proof {
                        assert(current.1@ =~= watch_list@);
                    }
                }
            },
            None => {
                self.watch_lists.push((user, watch_list));
                self.should_save = true;
                proof {
                    lemma_find_user_props(lists, user);
                    assert forall|a: int, b: int|
                        0 <= a < b < self.watch_lists@.len() implies self.watch_lists@[a].0
                        != self.watch_lists@[b].0 by {
                        if b < lists.len() {
                            assert(lists[a].0 != lists[b].0);
                        } else {
                            assert(lists[a].0 != user);
                        }
                    }
                }
            },
        }
    }

    /// The users whose watch lists cover a selection, or an error when the
    /// selection names an escalator outside the registry.
    pub fn users_watching(&self, escalators: EscalatorInput) -> (r: Result<
        Vec<u64>,
        UnknownEscalatorError,
    >)
        ensures
            match r {
                Ok(users) => resolve_spec(escalators) is Some && users@ == watchers_spec(
                    self.lists_seq(),
                    resolve_spec(escalators)->0,
                ),
                Err(_) => resolve_spec(escalators) is None,
            },
    {
        let idx = match EscalatorIndex::from_input(escalators) {
            Ok(idx) => idx,
            Err(e) => {
                return Err(e);
            },
        };
        let mut users: Vec<u64> = Vec::new();
        let mut i: usize = 0;
        proof {
            assert(self.watch_lists@.take(0) =~= Seq::<(u64, WatchList)>::empty());
        }
        while i < self.watch_lists.len()
            invariant
                i <= self.watch_lists@.len(),
                index_in_bounds(idx),
                users@ == watchers_spec(self.watch_lists@.take(i as int), idx),
            decreases self.watch_lists@.len() - i,
        {
            let entry = self.watch_lists[i];
            if is_on_watch_list(&entry.1, idx) {
                users.push(entry.0);
            }
            proof {
                assert(self.watch_lists@.take(i + 1).drop_last() =~= self.watch_lists@.take(
                    i as int,
                ));
                assert(self.watch_lists@.take(i + 1).last() == self.watch_lists@[i as int]);
                assert(users@ =~= watchers_spec(self.watch_lists@.take(i + 1), idx));
            }
            i = i + 1;
        }
        proof {
            assert(self.watch_lists@.take(self.watch_lists@.len() as int)
                =~= self.watch_lists@);
        }
        Ok(users)
    }

    /// Find the position of a user's entry.
    fn find_entry(&self, user: u64) -> (r: Option<usize>)
        ensures
            match r {
                Some(i) => {
                    &&& find_user(self.lists_seq(), user) == i
                    &&& i < self.lists_seq().len()
                    &&& self.lists_seq()[i as int].0 == user
                },
                None => find_user(self.lists_seq(), user) == -1,
            },
    {
        proof {
            lemma_find_user_props(self.watch_lists@, user);
        }
        let mut i: usize = 0;
        while i < self.watch_lists.len()
            invariant
                i <= self.watch_lists@.len(),
                forall|j: int| 0 <= j < i ==> self.watch_lists@[j].0 != user,
                (find_user(self.watch_lists@, user) == -1) <==> (forall|j: int|
                    0 <= j < self.watch_lists@.len() ==> self.watch_lists@[j].0 != user),
                find_user(self.watch_lists@, user) != -1 ==> {
                    &&& 0 <= find_user(self.watch_lists@, user) < self.watch_lists@.len()
                    &&& self.watch_lists@[find_user(self.watch_lists@, user)].0 == user
                    &&& forall|j: int|
                        0 <= j < find_user(self.watch_lists@, user)
                            ==> self.watch_lists@[j].0 != user
                },
            decreases self.watch_lists@.len() - i,
        {
            if self.watch_lists[i].0 == user {
                proof {
                    let f = find_user(self.watch_lists@, user);
                    assert(find_user(self.watch_lists@, user) != -1);
                    if f < i {
                        assert(self.watch_lists@[f].0 != user);
                    }
                    if f > i {
                        assert(self.watch_lists@[i as int].0 != user);
                    }
                }
                return Some(i);
            }
            i = i + 1;
        }
        None
    }
}

} // verus!
