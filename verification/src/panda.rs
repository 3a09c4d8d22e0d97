//! Panda genetics: dominant and recessive personalities, and breeding.
use vstd::prelude::*;
use crate::decoration::placement_hash;

verus! {

/// Hash-based pseudo-random number derived from `seed` and `salt`.
pub fn pseudo_random(seed: u64, salt: u32) -> (h: u64)
    ensures
        h == placement_hash(seed, salt as u64),
{
    crate::decoration::pseudo_random(seed, salt as u64)
}

/// The seven panda personalities. Normal, Lazy, Worried and Playful are
/// dominant; Aggressive, Weak and Brown are recessive.
#[derive(Debug, Clone, Copy, PartialEq, Eq, Hash, Structural)]
pub enum PandaPersonality {
    Normal,
    Lazy,
    Worried,
    Playful,
    Aggressive,
    Weak,
    Brown,
}

/// Whether a personality is dominant.
pub open spec fn dominant(p: PandaPersonality) -> bool {
    p == PandaPersonality::Normal || p == PandaPersonality::Lazy
        || p == PandaPersonality::Worried || p == PandaPersonality::Playful
}

/// The personality with index `i % 7`, in declaration order.
pub open spec fn personality_at(i: u64) -> PandaPersonality {
    let k = i % 7;
    if k == 0 { PandaPersonality::Normal }
    else if k == 1 { PandaPersonality::Lazy }
    else if k == 2 { PandaPersonality::Worried }
    else if k == 3 { PandaPersonality::Playful }
    else if k == 4 { PandaPersonality::Aggressive }
    else if k == 5 { PandaPersonality::Weak }
    else { PandaPersonality::Brown }
}

impl PandaPersonality {
    /// Whether the personality shows when the main gene alone carries it.
    pub fn is_dominant(self) -> (b: bool)
        ensures
            b == dominant(self),
    {
        matches!(self, Self::Normal | Self::Lazy | Self::Worried | Self::Playful)
    }

    /// Whether the personality needs both genes to show.
    pub fn is_recessive(self) -> (b: bool)
        ensures
            b == !dominant(self),
    {
        !self.is_dominant()
    }

    /// The personality with index `index % 7`.
    pub fn from_index(index: u64) -> (p: Self)
        ensures
            p == personality_at(index),
    {
        let k = index % 7;
        if k == 0 { Self::Normal }
        else if k == 1 { Self::Lazy }
        else if k == 2 { Self::Worried }
        else if k == 3 { Self::Playful }
        else if k == 4 { Self::Aggressive }
        else if k == 5 { Self::Weak }
        else { Self::Brown }
    }
}

/// A panda's main and hidden genes.
#[derive(Debug, Clone, Copy, PartialEq, Eq, Structural)]
pub struct PandaGenes {
    pub main: PandaPersonality,
    pub hidden: PandaPersonality,
}

impl PandaGenes {
    pub fn new(main: PandaPersonality, hidden: PandaPersonality) -> (g: Self)
        ensures
            g.main == main,
            g.hidden == hidden,
    {
        Self { main, hidden }
    }
}

/// The displayed personality: a dominant main gene shows; a recessive one
/// shows only when the hidden gene is the same, else the panda is Normal.
pub open spec fn displayed(genes: PandaGenes) -> PandaPersonality {
    if dominant(genes.main) || genes.main == genes.hidden {
        genes.main
    } else {
        PandaPersonality::Normal
    }
}

/// Determine the displayed personality from a set of genes.
pub fn personality(genes: &PandaGenes) -> (p: PandaPersonality)
    ensures
        p == displayed(*genes),
{
    if genes.main.is_dominant() {
        return genes.main;
    }
    if genes.main == genes.hidden {
        genes.main
    } else {
        PandaPersonality::Normal
    }
}

/// One inherited gene: a mutation (hash `% 32 == 0`) gives the personality
/// at the mutation index; otherwise an even pick takes the first parent's
/// gene and an odd one the second's.
pub open spec fn inherited(pick: u64, mutate: u64, mutation: u64, a: PandaPersonality, b: PandaPersonality) -> PandaPersonality {
    if mutate % 32 == 0 {
        personality_at(mutation)
    } else if pick % 2 == 0 {
        a
    } else {
        b
    }
}

/// The offspring of two pandas from `seed`: the main gene uses the hashes
/// with salts 0 (pick), 2 (mutation roll) and 4 (mutation); the hidden gene
/// uses salts 1, 3 and 5.
pub open spec fn offspring(p1: PandaGenes, p2: PandaGenes, seed: u64) -> PandaGenes {
    PandaGenes {
        main: inherited(placement_hash(seed, 0), placement_hash(seed, 2), placement_hash(seed, 4), p1.main, p2.main),
        hidden: inherited(placement_hash(seed, 1), placement_hash(seed, 3), placement_hash(seed, 5), p1.hidden, p2.hidden),
    }
}

/// Breed two pandas: each gene of the offspring comes from either parent
/// with a one-in-32 chance of mutation, decided by hashes of `seed`.
pub fn breed(parent1: &PandaGenes, parent2: &PandaGenes, seed: u64) -> (g: PandaGenes)
    ensures
        g == offspring(*parent1, *parent2, seed),
        placement_hash(seed, 2) % 32 != 0 ==> (g.main == parent1.main || g.main == parent2.main),
        placement_hash(seed, 3) % 32 != 0 ==> (g.hidden == parent1.hidden || g.hidden == parent2.hidden),
{
    let pick_main = pseudo_random(seed, 0);
    let pick_hidden = pseudo_random(seed, 1);
    let mutate_main = pseudo_random(seed, 2);
    let mutate_hidden = pseudo_random(seed, 3);

    let main = if mutate_main % 32 == 0 {
        PandaPersonality::from_index(pseudo_random(seed, 4))
    } else if pick_main % 2 == 0 {
        parent1.main
    } else {
        parent2.main
    };

    let hidden = if mutate_hidden % 32 == 0 {
        PandaPersonality::from_index(pseudo_random(seed, 5))
    } else if pick_hidden % 2 == 0 {
        parent1.hidden
    } else {
        parent2.hidden
    };

    PandaGenes { main, hidden }
}

/// A panda whose two genes are the same always displays that personality.
pub proof fn lemma_homozygous_displays(p: PandaPersonality)
    ensures
        displayed(PandaGenes { main: p, hidden: p }) == p,
{
}

} // verus!
