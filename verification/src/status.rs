//! The operational status of a single escalator and its textual identifiers.

use vstd::prelude::*;

verus! {

/// Operational state reported for an escalator.
#[derive(Clone, Copy, PartialEq, Eq, Structural, Debug)]
pub enum Status {
    Open,
    Down,
    Blocked,
}

/// Error returned when a textual status id names no status.
/// Holds the uppercased text that was rejected.
#[derive(Debug)]
pub struct UnknownStatusError(pub String);

/// Uppercase an ASCII letter; every other character is left unchanged.
pub open spec fn upper_char_spec(c: char) -> char {
    if c == 'a' { 'A' } else if c == 'b' { 'B' } else if c == 'c' { 'C' }
    else if c == 'd' { 'D' } else if c == 'e' { 'E' } else if c == 'f' { 'F' }
    else if c == 'g' { 'G' } else if c == 'h' { 'H' } else if c == 'i' { 'I' }
    else if c == 'j' { 'J' } else if c == 'k' { 'K' } else if c == 'l' { 'L' }
    else if c == 'm' { 'M' } else if c == 'n' { 'N' } else if c == 'o' { 'O' }
    else if c == 'p' { 'P' } else if c == 'q' { 'Q' } else if c == 'r' { 'R' }
    else if c == 's' { 'S' } else if c == 't' { 'T' } else if c == 'u' { 'U' }
    else if c == 'v' { 'V' } else if c == 'w' { 'W' } else if c == 'x' { 'X' }
    else if c == 'y' { 'Y' } else if c == 'z' { 'Z' } else { c }
}

/// The ASCII-uppercased form of a character sequence.
pub open spec fn upper_seq(s: Seq<char>) -> Seq<char> {
    s.map_values(|c: char| upper_char_spec(c))
}

/// Uppercase an ASCII letter; every other character is left unchanged.
pub fn upper_char(c: char) -> (r: char)
    ensures
        r == upper_char_spec(c),
{
    match c {
        'a' => 'A', 'b' => 'B', 'c' => 'C', 'd' => 'D', 'e' => 'E', 'f' => 'F',
        'g' => 'G', 'h' => 'H', 'i' => 'I', 'j' => 'J', 'k' => 'K', 'l' => 'L',
        'm' => 'M', 'n' => 'N', 'o' => 'O', 'p' => 'P', 'q' => 'Q', 'r' => 'R',
        's' => 'S', 't' => 'T', 'u' => 'U', 'v' => 'V', 'w' => 'W', 'x' => 'X',
        'y' => 'Y', 'z' => 'Z',
        _ => c,
    }
}

/// Relies on `String::push` of std: appends one character to the string.
pub assume_specification[ String::push ](s: &mut String, c: char)
    ensures
        final(s)@ == old(s)@ + seq![c],
;

/// The ASCII-uppercased copy of a string.
pub fn upper_string(s: &str) -> (r: String)
    ensures
        r@ == upper_seq(s@),
{
    let len = s.unicode_len();
    let mut out = String::new();
    let mut i: usize = 0;
    while i < len
        invariant
            i <= len,
            len == s@.len(),
            out@ == upper_seq(s@.take(i as int)),
        decreases len - i,
    {
        let c = s.get_char(i);
        out.push(upper_char(c));
        i = i + 1;
        proof {
            assert(out@ =~= upper_seq(s@.take(i as int)));
        }
    }
    proof {
        assert(s@.take(len as int) =~= s@);
    }
    out
}

impl Status {
    /// The glyph shown beside an escalator with this status.
    pub open spec fn emoji_spec(self) -> char {
        match self {
            Status::Open => '🟢',
            Status::Down => '🔴',
            Status::Blocked => '⛔',
        }
    }

    /// The glyph shown beside an escalator with this status.
    pub fn emoji(self) -> (r: char)
        ensures
            r == self.emoji_spec(),
    {
        match self {
            Status::Open => '🟢',
            Status::Down => '🔴',
            Status::Blocked => '⛔',
        }
    }

    /// The canonical textual id of this status.
    pub open spec fn id_spec(self) -> Seq<char> {
        match self {
            Status::Open => "OPEN"@,
            Status::Down => "DOWN"@,
            Status::Blocked => "BLOCKED"@,
        }
    }

    /// The canonical textual id of this status.
    pub fn as_id_str(&self) -> (r: &'static str)
        ensures
            r@ == self.id_spec(),
    {
        match self {
            Status::Open => "OPEN",
            Status::Down => "DOWN",
            Status::Blocked => "BLOCKED",
        }
    }

    /// Parse a textual status id, ignoring ASCII case.
    /// Returns the status whose id matches, or an error holding the
    /// uppercased text when none does.
    pub fn parse(s: &str) -> (r: Result<Status, UnknownStatusError>)
        ensures
            match r {
                Ok(st) => upper_seq(s@) == st.id_spec(),
                Err(e) => {
                    &&& upper_seq(s@) != Status::Open.id_spec()
                    &&& upper_seq(s@) != Status::Down.id_spec()
                    &&& upper_seq(s@) != Status::Blocked.id_spec()
                    &&& e.0@ == upper_seq(s@)
                },
            },
    {
        let up = upper_string(s);
        if up == String::from_str("OPEN") {
            Ok(Status::Open)
        } else if up == String::from_str("DOWN") {
            Ok(Status::Down)
        } else if up == String::from_str("BLOCKED") {
            Ok(Status::Blocked)
        } else {
            Err(UnknownStatusError(up))
        }
    }
}

} // verus!
