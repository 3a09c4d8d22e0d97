//! Anvil wear states.
use vstd::prelude::*;

verus! {

/// Visual / structural state of an anvil.
///
/// Progresses Pristine -> Chipped -> Damaged -> Broken as it absorbs falls.
#[derive(Debug, Clone, Copy, PartialEq, Eq, Hash)]
pub enum AnvilState {
    Pristine,
    Chipped,
    Damaged,
    Broken,
}

/// The state an anvil moves to after one more fall; `Broken` is terminal.
pub open spec fn next_anvil_state(state: AnvilState) -> AnvilState {
    match state {
        AnvilState::Pristine => AnvilState::Chipped,
        AnvilState::Chipped => AnvilState::Damaged,
        AnvilState::Damaged => AnvilState::Broken,
        AnvilState::Broken => AnvilState::Broken,
    }
}

/// Advance the anvil to the next damage state. [`AnvilState::Broken`] is terminal.
pub fn damage_anvil(state: AnvilState) -> (next: AnvilState)
    ensures
        next == next_anvil_state(state),
{
    match state {
        AnvilState::Pristine => AnvilState::Chipped,
        AnvilState::Chipped => AnvilState::Damaged,
        AnvilState::Damaged => AnvilState::Broken,
        AnvilState::Broken => AnvilState::Broken,
    }
}

/// The state after `n` more falls.
pub open spec fn anvil_after(state: AnvilState, n: nat) -> AnvilState
    decreases n,
{
    if n == 0 { state } else { anvil_after(next_anvil_state(state), (n - 1) as nat) }
}

/// Damage only moves forward and ends in `Broken`: a broken anvil stays
/// broken, and any anvil is broken after three or more falls.
pub proof fn lemma_anvil_wear(state: AnvilState, n: nat)
    requires
        n >= 3,
    ensures
        next_anvil_state(AnvilState::Broken) == AnvilState::Broken,
        anvil_after(state, n) == AnvilState::Broken,
    decreases n,
{
    reveal_with_fuel(anvil_after, 4);
    if n > 3 {
        lemma_anvil_wear(next_anvil_state(state), (n - 1) as nat);
    }
}

} // verus!
