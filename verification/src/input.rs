//! User-supplied selection of the escalators a report targets, and its
//! expansion to concrete registry entries.

use vstd::prelude::*;

use crate::escalator::{
    escalator_list, escalators, floors, is_valid_escalator, lemma_registry_complete,
    valid_escalator_spec, EscalatorFloors,
};
use crate::generate::dec_spec;
use crate::generate::u64_dec;
use crate::status::{upper_seq, upper_string};

verus! {

/// Which escalators a report or alert query targets.
#[derive(Clone, Copy, PartialEq, Eq, Structural, Debug)]
pub enum EscalatorInput {
    /// Every escalator in the registry.
    All,
    /// Both directions between two floors.
    Pair(u8, u8),
    /// One direction only.
    Direct(u8, u8),
}

/// Why a textual escalator selection was rejected.
#[derive(Clone, Copy, PartialEq, Eq, Structural, Debug)]
pub enum InputError {
    /// The text fits none of the recognized shapes.
    UnknownFormat,
    /// A floor character is not a digit from 1 to 9.
    InvalidFloor(char),
    /// The floors are digits but name no valid escalator.
    InvalidEscalator(u8, u8),
}

/// The numeric value of a floor character from '1' to '9'.
pub open spec fn floor_digit_spec(ch: char) -> u8 {
    if ch == '1' { 1 } else if ch == '2' { 2 } else if ch == '3' { 3 }
    else if ch == '4' { 4 } else if ch == '5' { 5 } else if ch == '6' { 6 }
    else if ch == '7' { 7 } else if ch == '8' { 8 } else { 9 }
}

/// Whether a character is a floor digit, '1' through '9'.
pub open spec fn is_floor_char(ch: char) -> bool {
    '1' <= ch && ch <= '9'
}

/// Parse a single floor character; digits 1-9 are floors, anything else is
/// rejected with the offending character.
pub fn parse_floor(ch: char) -> (r: Result<u8, InputError>)
    ensures
        is_floor_char(ch) ==> r == Ok::<u8, InputError>(floor_digit_spec(ch)),
        !is_floor_char(ch) ==> r == Err::<u8, InputError>(InputError::InvalidFloor(ch)),
{
    match ch {
        '1' => Ok(1),
        '2' => Ok(2),
        '3' => Ok(3),
        '4' => Ok(4),
        '5' => Ok(5),
        '6' => Ok(6),
        '7' => Ok(7),
        '8' => Ok(8),
        '9' => Ok(9),
        _ => Err(InputError::InvalidFloor(ch)),
    }
}

/// The registry entries a selection expands to, in order: `All` is the whole
/// registry, `Pair` both directions, `Direct` the one named pair.
pub open spec fn expansion_spec(input: EscalatorInput) -> Seq<EscalatorFloors> {
    match input {
        EscalatorInput::All => escalator_list(),
        EscalatorInput::Pair(a, b) => seq![floors(a, b), floors(b, a)],
        EscalatorInput::Direct(a, b) => seq![floors(a, b)],
    }
}

impl EscalatorInput {
    /// Expand this selection to the registry entries it targets.
    pub fn escalators(&self) -> (r: Vec<EscalatorFloors>)
        ensures
            r@ == expansion_spec(*self),
    {
        match self {
            EscalatorInput::All => escalators(),
            EscalatorInput::Pair(a, b) => {
                let mut v: Vec<EscalatorFloors> = Vec::new();
                v.push(EscalatorFloors::new(*a, *b));
                v.push(EscalatorFloors::new(*b, *a));
                proof {
                    assert(v@ =~= expansion_spec(*self));
                }
                v
            },
            EscalatorInput::Direct(a, b) => {
                let mut v: Vec<EscalatorFloors> = Vec::new();
                v.push(EscalatorFloors::new(*a, *b));
                proof {
                    assert(v@ =~= expansion_spec(*self));
                }
                v
            },
        }
    }

    /// How this selection reads inside a message, labels backticked.
    pub open spec fn message_noun_spec(self) -> Seq<char> {
        match self {
            EscalatorInput::All => "`ALL` escalators"@,
            EscalatorInput::Pair(a, b) => {
                let lower = if a <= b { a } else { b };
                let upper = if a <= b { b } else { a };
                "the `"@ + dec_spec(lower as nat) + "-"@ + dec_spec(upper as nat) + "` and `"@
                    + dec_spec(upper as nat) + "-"@ + dec_spec(lower as nat) + "` escalators"@
            },
            EscalatorInput::Direct(lower, upper) => "the `"@ + dec_spec(lower as nat) + "-"@
                + dec_spec(upper as nat) + "` escalator"@,
        }
    }

    /// How this selection reads inside a message, labels backticked.
    pub fn message_noun(&self) -> (s: String)
        ensures
            s@ == self.message_noun_spec(),
    {
        match self {
            EscalatorInput::All => String::from_str("`ALL` escalators"),
            EscalatorInput::Pair(a, b) => {
                let lower = if *a <= *b { *a } else { *b };
                let upper = if *a <= *b { *b } else { *a };
                let lower_dec = u64_dec(lower as u64);
                let upper_dec = u64_dec(upper as u64);
                let mut s = String::from_str("the `");
                s.append(lower_dec.as_str());
                s.append("-");
                s.append(upper_dec.as_str());
                s.append("` and `");
                s.append(upper_dec.as_str());
                s.append("-");
                s.append(lower_dec.as_str());
                s.append("` escalators");
                proof {
                    assert(s@ =~= self.message_noun_spec());
                }
                s
            },
            EscalatorInput::Direct(lower, upper) => {
                let lower_dec = u64_dec(*lower as u64);
                let upper_dec = u64_dec(*upper as u64);
                let mut s = String::from_str("the `");
                s.append(lower_dec.as_str());
                s.append("-");
                s.append(upper_dec.as_str());
                s.append("` escalator");
                proof {
                    assert(s@ =~= self.message_noun_spec());
                }
                s
            },
        }
    }

    /// A short form of the selection, without backticks or articles.
    pub open spec fn short_noun_spec(self) -> Seq<char> {
        match self {
            EscalatorInput::All => "ALL escalators"@,
            EscalatorInput::Pair(a, b) => {
                let lower = if a <= b { a } else { b };
                let upper = if a <= b { b } else { a };
                dec_spec(lower as nat) + "-"@ + dec_spec(upper as nat) + " and "@ + dec_spec(
                    upper as nat,
                ) + "-"@ + dec_spec(lower as nat)
            },
            EscalatorInput::Direct(lower, upper) => dec_spec(lower as nat) + "-"@ + dec_spec(
                upper as nat,
            ),
        }
    }

    /// A short form of the selection, without backticks or articles.
    pub fn short_noun(&self) -> (s: String)
        ensures
            s@ == self.short_noun_spec(),
    {
        match self {
            EscalatorInput::All => String::from_str("ALL escalators"),
            EscalatorInput::Pair(a, b) => {
                let lower = if *a <= *b { *a } else { *b };
                let upper = if *a <= *b { *b } else { *a };
                let lower_dec = u64_dec(lower as u64);
                let upper_dec = u64_dec(upper as u64);
                let mut s = lower_dec.clone();
                s.append("-");
                s.append(upper_dec.as_str());
                s.append(" and ");
                s.append(upper_dec.as_str());
                s.append("-");
                s.append(lower_dec.as_str());
                proof {
                    assert(s@ =~= self.short_noun_spec());
                }
                s
            },
            EscalatorInput::Direct(lower, upper) => {
                let mut s = u64_dec(*lower as u64);
                s.append("-");
                let upper_dec = u64_dec(*upper as u64);
                s.append(upper_dec.as_str());
                proof {
                    assert(s@ =~= self.short_noun_spec());
                }
                s
            },
        }
    }

    /// Whether the selection names exactly one escalator.
    pub fn is_singular(&self) -> (r: bool)
        ensures
            r == (self matches EscalatorInput::Direct(_, _)),
    {
        matches!(self, EscalatorInput::Direct(..))
    }

    /// An iterator-style cursor over the selection's expansion.
    pub fn iter(&self) -> (r: Iter)
        ensures
            iter_remaining(r) == expansion_spec(*self),
    {
        match self {
            EscalatorInput::All => Iter::All(0),
            EscalatorInput::Pair(a, b) => Iter::Pair(*a, *b),
            EscalatorInput::Direct(a, b) => Iter::Direct(*a, *b, false),
        }
    }
}

/// What the short textual grammar yields: "all" (in any ASCII case) selects
/// every escalator; "#-#" one direction; "#/#" both directions of a pair.
/// Floor characters outside 1-9 and floor pairs that make no valid escalator
/// are rejected; everything else is an unknown format.
pub open spec fn parse_spec(s: Seq<char>) -> Result<EscalatorInput, InputError> {
    if upper_seq(s) == "ALL"@ {
        Ok(EscalatorInput::All)
    } else if s.len() == 3 && (s[1] == '-' || s[1] == '/') {
        if !is_floor_char(s[0]) {
            Err(InputError::InvalidFloor(s[0]))
        } else if !is_floor_char(s[2]) {
            Err(InputError::InvalidFloor(s[2]))
        } else {
            let a = floor_digit_spec(s[0]);
            let b = floor_digit_spec(s[2]);
            if !valid_escalator_spec(a, b) {
                Err(InputError::InvalidEscalator(a, b))
            } else if s[1] == '-' {
                Ok(EscalatorInput::Direct(a, b))
            } else {
                Ok(EscalatorInput::Pair(a, b))
            }
        }
    } else {
        Err(InputError::UnknownFormat)
    }
}

impl EscalatorInput {
    /// Parse a user's escalator selection from the short textual grammar.
    /// Whatever selection comes back names only registered escalators:
    /// the floor pair of a `Direct`, and both directions of a `Pair`, are in
    /// the registry.
    pub fn parse(s: &str) -> (r: Result<EscalatorInput, InputError>)
        ensures
            r == parse_spec(s@),
            r matches Ok(EscalatorInput::Direct(a, b)) ==> escalator_list().contains(floors(a, b)),
            r matches Ok(EscalatorInput::Pair(a, b)) ==> escalator_list().contains(floors(a, b))
                && escalator_list().contains(floors(b, a)),
    {
        let up = upper_string(s);
        if up == String::from_str("ALL") {
            return Ok(EscalatorInput::All);
        }
        let n = s.unicode_len();
        if n != 3 {
            return Err(InputError::UnknownFormat);
        }
        let sep = s.get_char(1);
        if sep != '-' && sep != '/' {
            return Err(InputError::UnknownFormat);
        }
        let a = match parse_floor(s.get_char(0)) {
            Ok(a) => a,
            Err(e) => {
                return Err(e);
            },
        };
        let b = match parse_floor(s.get_char(2)) {
            Ok(b) => b,
            Err(e) => {
                return Err(e);
            },
        };
        if !is_valid_escalator(a, b) {
            return Err(InputError::InvalidEscalator(a, b));
        }
        proof {
            lemma_registry_complete(a, b);
            lemma_registry_complete(b, a);
        }
        if sep == '-' {
            Ok(EscalatorInput::Direct(a, b))
        } else {
            Ok(EscalatorInput::Pair(a, b))
        }
    }
}

/// A cursor stepping through the escalators an `EscalatorInput` expands to.
#[derive(Clone, Copy, PartialEq, Eq, Structural, Debug)]
pub enum Iter {
    /// Walking the registry, at the given position.
    All(usize),
    /// Both directions still to come.
    Pair(u8, u8),
    /// The single pair; the flag records whether it was already yielded.
    Direct(u8, u8, bool),
}

/// The escalators a cursor has still to yield.
pub open spec fn iter_remaining(it: Iter) -> Seq<EscalatorFloors> {
    match it {
        Iter::All(i) => {
            if i <= escalator_list().len() {
                escalator_list().skip(i as int)
            } else {
                Seq::empty()
            }
        },
        Iter::Pair(a, b) => seq![floors(a, b), floors(b, a)],
        Iter::Direct(a, b, done) => {
            if done {
                Seq::empty()
            } else {
                seq![floors(a, b)]
            }
        },
    }
}

impl Iter {
    /// Yield the next escalator of the selection, or `None` when exhausted.
    pub fn next(&mut self) -> (r: Option<EscalatorFloors>)
        ensures
            iter_remaining(*old(self)).len() == 0 ==> r is None && iter_remaining(*final(self))
                =~= iter_remaining(*old(self)),
            iter_remaining(*old(self)).len() > 0 ==> r == Some(iter_remaining(*old(self)).first())
                && iter_remaining(*final(self)) =~= iter_remaining(*old(self)).drop_first(),
    {
        match self {
            Iter::All(i) => {
                let list = escalators();
                if *i < list.len() {
                    let escalator = list[*i];
                    *i = *i + 1;
                    Some(escalator)
                } else {
                    None
                }
            },
            Iter::Pair(start, end) => {
                let escalator = EscalatorFloors::new(*start, *end);
                *self = Iter::Direct(*end, *start, false);
                Some(escalator)
            },
            Iter::Direct(start, end, done) => {
                if *done {
                    None
                } else {
                    *done = true;
                    Some(EscalatorFloors::new(*start, *end))
                }
            },
        }
    }
}

} // verus!
