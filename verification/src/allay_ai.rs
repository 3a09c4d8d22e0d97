//! Allay item-collection state and duplication rule.
use vstd::prelude::*;

verus! {

/// State for an allay's item-collection AI.
#[derive(Debug, Clone, PartialEq)]
pub struct AllayAiState {
    /// Item ID the allay is searching for, if any.
    pub held_item: Option<u16>,
    /// Position of the note block the allay is bound to.
    pub note_block: Option<(i32, i32, i32)>,
    /// Whether the allay is actively collecting items.
    pub collecting: bool,
}

impl AllayAiState {
    /// Create a new idle allay state.
    pub fn new() -> (s: Self)
        ensures
            s.held_item is None,
            s.note_block is None,
            !s.collecting,
    {
        Self { held_item: None, note_block: None, collecting: false }
    }
}

/// Whether the allay can duplicate. Requires an amethyst shard and dancing state.
pub fn allay_can_duplicate(has_amethyst: bool, dancing: bool) -> (r: bool)
    ensures
        r == (has_amethyst && dancing),
{
    has_amethyst && dancing
}

} // verus!
