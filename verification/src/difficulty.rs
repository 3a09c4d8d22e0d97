//! Difficulty levels and the rules they switch on or off.
use vstd::prelude::*;
use vstd::string::StrSliceExecFns;

verus! {

/// Difficulty levels for the Minecraft game, controlling mob behavior,
/// hunger mechanics, and environmental hazards.
#[derive(Debug, Clone, Copy, PartialEq, Eq, Structural)]
pub enum Difficulty {
    Peaceful,
    Easy,
    Normal,
    Hard,
}

/// A character with ASCII upper-case letters turned to lower case.
pub open spec fn ascii_lower(c: char) -> char {
    if 'A' <= c <= 'Z' { ((c as u32) + 32) as char } else { c }
}

/// A string with its ASCII upper-case letters turned to lower case.
pub open spec fn lower_str(s: Seq<char>) -> Seq<char> {
    s.map_values(|c: char| ascii_lower(c))
}

/// The difficulty named by a string (ignoring ASCII case), if any.
pub open spec fn difficulty_named(s: Seq<char>) -> Option<Difficulty> {
    if lower_str(s) == "peaceful"@ {
        Some(Difficulty::Peaceful)
    } else if lower_str(s) == "easy"@ {
        Some(Difficulty::Easy)
    } else if lower_str(s) == "normal"@ {
        Some(Difficulty::Normal)
    } else if lower_str(s) == "hard"@ {
        Some(Difficulty::Hard)
    } else {
        None
    }
}

fn to_ascii_lower(c: char) -> (l: char)
    ensures
        l == ascii_lower(c),
{
    if 'A' <= c && c <= 'Z' {
        let code = (c as u32) + 32;
        assert(code < 0xD800);
        code as u8 as char
    } else {
        c
    }
}

/// Whether `s`, with ASCII letters lowered, equals `target`.
fn lower_equals(s: &str, target: &str) -> (b: bool)
    ensures
        b == (lower_str(s@) == target@),
{
    let n = s.unicode_len();
    if n != target.unicode_len() {
        assert(lower_str(s@).len() != target@.len());
        return false;
    }
    let mut i: usize = 0;
    while i < n
        invariant
            n == s@.len(),
            n == target@.len(),
            i <= n,
            forall|j: int| 0 <= j < i ==> ascii_lower(s@[j]) == target@[j],
        decreases n - i,
    {
        let c = to_ascii_lower(s.get_char(i));
        if c != target.get_char(i) {
            assert(lower_str(s@)[i as int] != target@[i as int]);
            return false;
        }
        i = i + 1;
    }
    assert(lower_str(s@) =~= target@);
    true
}

impl Difficulty {
    /// Returns whether the player can starve to death (only on Hard).
    pub fn can_starve_to_death(&self) -> (b: bool)
        ensures
            b == (*self == Difficulty::Hard),
    {
        matches!(self, Difficulty::Hard)
    }

    /// Returns whether zombies can break doors (only on Hard).
    pub fn zombies_break_doors(&self) -> (b: bool)
        ensures
            b == (*self == Difficulty::Hard),
    {
        matches!(self, Difficulty::Hard)
    }

    /// Returns whether hostile mobs can spawn (everything except Peaceful).
    pub fn hostile_mobs_spawn(&self) -> (b: bool)
        ensures
            b == (*self != Difficulty::Peaceful),
    {
        !matches!(self, Difficulty::Peaceful)
    }

    /// Returns whether natural health regeneration is active (always true).
    pub fn natural_regen(&self) -> (b: bool)
        ensures
            b,
    {
        true
    }

    /// Returns whether fire spreads to adjacent blocks (everything except Peaceful).
    pub fn fire_spreads(&self) -> (b: bool)
        ensures
            b == (*self != Difficulty::Peaceful),
    {
        !matches!(self, Difficulty::Peaceful)
    }

    /// Parses a difficulty from a case-insensitive string.
    pub fn from_str(s: &str) -> (d: Option<Self>)
        ensures
            d == difficulty_named(s@),
    {
        if lower_equals(s, "peaceful") {
            Some(Difficulty::Peaceful)
        } else if lower_equals(s, "easy") {
            Some(Difficulty::Easy)
        } else if lower_equals(s, "normal") {
            Some(Difficulty::Normal)
        } else if lower_equals(s, "hard") {
            Some(Difficulty::Hard)
        } else {
            None
        }
    }
}

} // verus!
