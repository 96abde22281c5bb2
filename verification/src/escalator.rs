//! The fixed registry of valid escalators: which ordered floor pairs are
//! physical escalators, and their stable enumeration order.

use vstd::prelude::*;

use crate::status::Status;

verus! {

/// An ordered pair of floor numbers identifying one direction of travel on a
/// physical escalator.
#[derive(Clone, Copy, PartialEq, Eq, Structural, Debug, Hash)]
pub struct EscalatorFloors {
    pub start: u8,
    pub end: u8,
}

impl EscalatorFloors {
    pub fn new(start: u8, end: u8) -> (r: Self)
        ensures
            r == (EscalatorFloors { start, end }),
    {
        EscalatorFloors { start, end }
    }
}

/// An escalator together with its current status, as listed in menus.
#[derive(Clone, Copy, PartialEq, Eq, Structural, Debug)]
pub struct Escalator {
    pub floors: EscalatorFloors,
    pub status: Status,
}

/// How many escalators the registry holds.
pub const ESCALATOR_COUNT: usize = 14;

/// Shorthand for a floor pair.
pub open spec fn floors(start: u8, end: u8) -> EscalatorFloors {
    EscalatorFloors { start, end }
}

/// The adjacency rule deciding whether a pair of floors makes a valid
/// escalator: both floors lie in 2..=9 and differ by exactly 2, or the pair
/// is the 2/3 exception (in either direction).
pub open spec fn valid_escalator_spec(start: u8, end: u8) -> bool {
    &&& 2 <= start <= 9
    &&& 2 <= end <= 9
    &&& {
        ||| start + 2 == end
        ||| end + 2 == start
        ||| (start == 2 && end == 3)
        ||| (start == 3 && end == 2)
    }
}

/// Checks if a pair of floors makes a valid escalator.
pub fn is_valid_escalator(start: u8, end: u8) -> (r: bool)
    ensures
        r == valid_escalator_spec(start, end),
{
    (2 <= start && start <= 9) && (2 <= end && end <= 9) && (start + 2 == end || end + 2 == start
        || (start == 2 && end == 3) || (start == 3 && end == 2))
}

/// Every valid escalator, in the registry's fixed enumeration order.
pub open spec fn escalator_list() -> Seq<EscalatorFloors> {
    seq![
        floors(2, 3),
        floors(2, 4),
        floors(3, 2),
        floors(3, 5),
        floors(4, 2),
        floors(4, 6),
        floors(5, 3),
        floors(5, 7),
        floors(6, 4),
        floors(6, 8),
        floors(7, 5),
        floors(7, 9),
        floors(8, 6),
        floors(9, 7),
    ]
}

/// Every valid escalator, in the registry's fixed enumeration order.
pub fn escalators() -> (r: Vec<EscalatorFloors>)
    ensures
        r@ == escalator_list(),
{
    let mut v: Vec<EscalatorFloors> = Vec::new();
    v.push(EscalatorFloors::new(2, 3));
    v.push(EscalatorFloors::new(2, 4));
    v.push(EscalatorFloors::new(3, 2));
    v.push(EscalatorFloors::new(3, 5));
    v.push(EscalatorFloors::new(4, 2));
    v.push(EscalatorFloors::new(4, 6));
    v.push(EscalatorFloors::new(5, 3));
    v.push(EscalatorFloors::new(5, 7));
    v.push(EscalatorFloors::new(6, 4));
    v.push(EscalatorFloors::new(6, 8));
    v.push(EscalatorFloors::new(7, 5));
    v.push(EscalatorFloors::new(7, 9));
    v.push(EscalatorFloors::new(8, 6));
    v.push(EscalatorFloors::new(9, 7));
    proof {
        assert(v@ =~= escalator_list());
    }
    v
}

/// The registry indices in "pair order": each escalator is followed by the
/// one going the opposite direction between the same floors.
pub open spec fn pair_order_list() -> Seq<usize> {
    seq![0usize, 2, 1, 4, 3, 6, 5, 8, 7, 10, 9, 12, 11, 13]
}

/// The registry indices in "pair order": each escalator is followed by the
/// one going the opposite direction between the same floors.
pub fn pair_order() -> (r: Vec<usize>)
    ensures
        r@ == pair_order_list(),
{
    let mut v: Vec<usize> = Vec::new();
    v.push(0);
    v.push(2);
    v.push(1);
    v.push(4);
    v.push(3);
    v.push(6);
    v.push(5);
    v.push(8);
    v.push(7);
    v.push(10);
    v.push(9);
    v.push(12);
    v.push(11);
    v.push(13);
    proof {
        assert(v@ =~= pair_order_list());
    }
    v
}

/// Position of the first occurrence of a floor pair in a list, or -1 when
/// the list does not hold it.
pub open spec fn index_in_list(list: Seq<EscalatorFloors>, f: EscalatorFloors) -> int
    decreases list.len(),
{
    if list.len() == 0 {
        -1
    } else if list[0] == f {
        0
    } else {
        let rest = index_in_list(list.drop_first(), f);
        if rest < 0 {
            -1
        } else {
            rest + 1
        }
    }
}

/// The position of an escalator in the registry's enumeration order, or -1
/// when the floor pair is not a registered escalator.
pub open spec fn registry_index_spec(f: EscalatorFloors) -> int {
    index_in_list(escalator_list(), f)
}

/// `index_in_list` finds exactly the first occurrence: -1 when the pair is
/// absent, otherwise the least index holding it.
pub proof fn lemma_index_in_list_props(list: Seq<EscalatorFloors>, f: EscalatorFloors)
    ensures
        (index_in_list(list, f) == -1) <==> !list.contains(f),
        index_in_list(list, f) != -1 ==> {
            &&& 0 <= index_in_list(list, f) < list.len()
            &&& list[index_in_list(list, f)] == f
            &&& forall|j: int| 0 <= j < index_in_list(list, f) ==> list[j] != f
        },
    decreases list.len(),
{
    if list.len() > 0 {
        let rest = list.drop_first();
        lemma_index_in_list_props(rest, f);
        assert(forall|j: int| 0 <= j < rest.len() ==> rest[j] == list[j + 1]);
        if list[0] != f {
            let r = index_in_list(rest, f);
            if r == -1 {
                assert forall|j: int| 0 <= j < list.len() implies list[j] != f by {
                    if j > 0 {
                        assert(rest[j - 1] == list[j]);
                    }
                }
                assert(!list.contains(f));
            } else {
                assert(list[r + 1] == f);
                assert(list.contains(f));
                assert forall|j: int| 0 <= j < r + 1 implies list[j] != f by {
                    if j > 0 {
                        assert(rest[j - 1] == list[j]);
                    }
                }
            }
        } else {
            assert(list.contains(f));
        }
    }
}

/// The position of an escalator in the registry's enumeration order, or
/// `None` when the floor pair is not a registered escalator.
pub fn escalator_index(escalator: EscalatorFloors) -> (r: Option<usize>)
    ensures
        match r {
            Some(i) => {
                &&& registry_index_spec(escalator) == i
                &&& i < escalator_list().len()
                &&& escalator_list()[i as int] == escalator
                &&& forall|j: int| 0 <= j < i ==> escalator_list()[j] != escalator
            },
            None => {
                &&& registry_index_spec(escalator) == -1
                &&& !escalator_list().contains(escalator)
            },
        },
{
    proof {
        lemma_index_in_list_props(escalator_list(), escalator);
    }
    let list = escalators();
    let mut i: usize = 0;
    while i < list.len()
        invariant
            i <= list@.len(),
            list@ == escalator_list(),
            forall|j: int| 0 <= j < i ==> escalator_list()[j] != escalator,
            (index_in_list(escalator_list(), escalator) == -1) <==> !escalator_list().contains(
                escalator,
            ),
            index_in_list(escalator_list(), escalator) != -1 ==> {
                &&& 0 <= index_in_list(escalator_list(), escalator) < escalator_list().len()
                &&& escalator_list()[index_in_list(escalator_list(), escalator)] == escalator
                &&& forall|j: int|
                    0 <= j < index_in_list(escalator_list(), escalator) ==> escalator_list()[j]
                        != escalator
            },
        decreases list@.len() - i,
    {
        if list[i].start == escalator.start && list[i].end == escalator.end {
            proof {
                assert(escalator_list()[i as int] == escalator);
                assert(escalator_list().contains(escalator));
                let f = index_in_list(escalator_list(), escalator);
                if f < i {
                    assert(escalator_list()[f] != escalator);
                }
                if f > i {
                    assert(escalator_list()[i as int] != escalator);
                }
            }
            return Some(i);
        }
        i = i + 1;
    }
    proof {
        assert(forall|j: int|
            0 <= j < escalator_list().len() ==> escalator_list()[j] != escalator);
        if escalator_list().contains(escalator) {
            let j = choose|j: int|
                0 <= j < escalator_list().len() && escalator_list()[j] == escalator;
        }
    }
    None
}

/// The adjacency rule and the registry agree: a floor pair is valid exactly
/// when the registry lists it.
pub proof fn lemma_registry_complete(start: u8, end: u8)
    ensures
        valid_escalator_spec(start, end) <==> escalator_list().contains(floors(start, end)),
{
    let f = floors(start, end);
    if valid_escalator_spec(start, end) {
        if start == 2 && end == 3 {
            assert(escalator_list()[0] == f);
        } else if start == 2 && end == 4 {
            assert(escalator_list()[1] == f);
        } else if start == 3 && end == 2 {
            assert(escalator_list()[2] == f);
        } else if start == 3 && end == 5 {
            assert(escalator_list()[3] == f);
        } else if start == 4 && end == 2 {
            assert(escalator_list()[4] == f);
        } else if start == 4 && end == 6 {
            assert(escalator_list()[5] == f);
        } else if start == 5 && end == 3 {
            assert(escalator_list()[6] == f);
        } else if start == 5 && end == 7 {
            assert(escalator_list()[7] == f);
        } else if start == 6 && end == 4 {
            assert(escalator_list()[8] == f);
        } else if start == 6 && end == 8 {
            assert(escalator_list()[9] == f);
        } else if start == 7 && end == 5 {
            assert(escalator_list()[10] == f);
        } else if start == 7 && end == 9 {
            assert(escalator_list()[11] == f);
        } else if start == 8 && end == 6 {
            assert(escalator_list()[12] == f);
        } else {
            assert(start == 9 && end == 7);
            assert(escalator_list()[13] == f);
        }
    }
    if escalator_list().contains(f) {
        let i = choose|i: int| 0 <= i < escalator_list().len() && escalator_list()[i] == f;
        assert(valid_escalator_spec(escalator_list()[i].start, escalator_list()[i].end));
    }
}

} // verus!
