//! Status effects on entities (potions, beacons, etc.).
use vstd::prelude::*;

verus! {

broadcast use vstd::seq_lib::group_seq_properties;

/// All possible status effects matching vanilla Minecraft.
#[derive(Debug, Clone, Copy, PartialEq, Eq, Hash, Structural)]
pub enum StatusEffect {
    Speed,
    Slowness,
    Haste,
    MiningFatigue,
    Strength,
    InstantHealth,
    InstantDamage,
    JumpBoost,
    Nausea,
    Regeneration,
    Resistance,
    FireResistance,
    WaterBreathing,
    Invisibility,
    Blindness,
    NightVision,
    Hunger,
    Weakness,
    Poison,
    Wither,
    Absorption,
    Glowing,
    Levitation,
    SlowFalling,
}

/// An active effect applied to an entity with a remaining duration and potency.
#[derive(Debug, Clone, Copy, PartialEq, Eq, Structural)]
pub struct ActiveEffect {
    pub effect: StatusEffect,
    pub duration_ticks: u32,
    pub amplifier: u8,
}

/// Whether no two effects in the list share a type.
pub open spec fn distinct_types(s: Seq<ActiveEffect>) -> bool {
    forall|i: int, j: int| 0 <= i < s.len() && 0 <= j < s.len() && i != j ==> s[i].effect != s[j].effect
}

/// An effect one tick older: its duration drops by one, not below zero.
pub open spec fn aged(e: ActiveEffect) -> ActiveEffect {
    ActiveEffect { duration_ticks: if e.duration_ticks > 0 { (e.duration_ticks - 1) as u32 } else { 0 }, ..e }
}

/// Whether an effect is of a type other than `t`.
pub open spec fn other_type(t: StatusEffect) -> spec_fn(ActiveEffect) -> bool {
    |e: ActiveEffect| e.effect != t
}

/// Whether an effect still has time left.
pub open spec fn has_time_left() -> spec_fn(ActiveEffect) -> bool {
    |e: ActiveEffect| e.duration_ticks > 0
}

/// The effects after one tick: every duration drops by one and the effects
/// that reach zero are removed; the others keep their order.
pub open spec fn after_tick(s: Seq<ActiveEffect>) -> Seq<ActiveEffect> {
    s.map_values(|e: ActiveEffect| aged(e)).filter(has_time_left())
}

/// The effects after removing every effect of type `t`.
pub open spec fn without_type(s: Seq<ActiveEffect>, t: StatusEffect) -> Seq<ActiveEffect> {
    s.filter(other_type(t))
}

/// The effects after adding `e`: an effect of the same type is replaced when
/// `e` has a strictly higher amplifier and kept otherwise; a new type is
/// appended.
pub open spec fn with_added(s: Seq<ActiveEffect>, e: ActiveEffect) -> Seq<ActiveEffect> {
    if exists|i: int| 0 <= i < s.len() && s[i].effect == e.effect {
        let i = choose|i: int| 0 <= i < s.len() && s[i].effect == e.effect;
        if e.amplifier > s[i].amplifier { s.update(i, e) } else { s }
    } else {
        s.push(e)
    }
}

/// Manages the collection of active status effects on an entity.
#[derive(Debug, Clone)]
pub struct EffectManager {
    effects: Vec<ActiveEffect>,
}

impl EffectManager {
    /// The active effects in the order they were first added.
    pub closed spec fn view(&self) -> Seq<ActiveEffect> {
        self.effects@
    }

    /// Creates an empty effect manager.
    pub fn new() -> (m: Self)
        ensures
            m.view() == Seq::<ActiveEffect>::empty(),
    {
        Self { effects: Vec::new() }
    }

    /// Adds an effect. If the entity already has the same effect type, the new
    /// effect replaces the old one only when its amplifier is strictly higher.
    pub fn add_effect(&mut self, effect: ActiveEffect)
        requires
            distinct_types(old(self).view()),
        ensures
            final(self).view() == with_added(old(self).view(), effect),
            distinct_types(final(self).view()),
    {
        let mut i: usize = 0;
        while i < self.effects.len()
            invariant
                i <= self.effects.len(),
                self.effects@ == old(self).effects@,
                distinct_types(old(self).view()),
                forall|j: int| 0 <= j < i ==> self.effects@[j].effect != effect.effect,
            decreases self.effects.len() - i,
        {
            if self.effects[i].effect == effect.effect {
                proof {
                    let k = choose|k: int| 0 <= k < self.effects@.len() && self.effects@[k].effect == effect.effect;
                    assert(k == i);
                }
                if effect.amplifier > self.effects[i].amplifier {
                    self.effects.set(i, effect);
                }
                return;
            }
            i = i + 1;
        }
        self.effects.push(effect);
    }

    /// Removes the effect of the given type, if present.
    pub fn remove_effect(&mut self, effect_type: StatusEffect)
        requires
            distinct_types(old(self).view()),
        ensures
            final(self).view() == without_type(old(self).view(), effect_type),
            distinct_types(final(self).view()),
    {
        let ghost pred = other_type(effect_type);
        let mut kept: Vec<ActiveEffect> = Vec::new();
        let mut i: usize = 0;
        while i < self.effects.len()
            invariant
                i <= self.effects.len(),
                pred == other_type(effect_type),
                kept@ == self.effects@.take(i as int).filter(pred),
            decreases self.effects.len() - i,
        {
            let ghost old_kept = kept@;
            if self.effects[i].effect != effect_type {
                kept.push(self.effects[i]);
            }
            proof {
                let t1 = self.effects@.take(i + 1);
                assert(t1.drop_last() =~= self.effects@.take(i as int));
                assert(t1.last() == self.effects@[i as int]);
                reveal(Seq::filter);
                assert(t1.filter(pred) == (if pred(t1.last()) { t1.drop_last().filter(pred).push(t1.last()) } else { t1.drop_last().filter(pred) }));
            }
            i = i + 1;
        }
        assert(self.effects@.take(self.effects@.len() as int) =~= self.effects@);
        let ghost before = self.effects@;
        self.effects = kept;
        proof {
            assert forall|a: int, b: int| 0 <= a < self.effects@.len() && 0 <= b < self.effects@.len() && a != b
                implies self.effects@[a].effect != self.effects@[b].effect by {
                lemma_filter_distinct(before, pred);
            }
        }
    }

    /// Advances all effects by one tick: decrements durations and removes any
    /// that have expired (reached zero).
    pub fn tick(&mut self)
        requires
            distinct_types(old(self).view()),
        ensures
            final(self).view() == after_tick(old(self).view()),
            distinct_types(final(self).view()),
    {
        let ghost pred = has_time_left();
        let ghost aged_all = self.effects@.map_values(|e: ActiveEffect| aged(e));
        let mut kept: Vec<ActiveEffect> = Vec::new();
        let mut i: usize = 0;
        while i < self.effects.len()
            invariant
                i <= self.effects.len(),
                aged_all == self.effects@.map_values(|e: ActiveEffect| aged(e)),
                pred == has_time_left(),
                kept@ == aged_all.take(i as int).filter(pred),
            decreases self.effects.len() - i,
        {
            let ghost old_kept = kept@;
            let e = self.effects[i];
            let next = ActiveEffect { duration_ticks: e.duration_ticks.saturating_sub(1), ..e };
            assert(next == aged_all[i as int]);
            if next.duration_ticks > 0 {
                kept.push(next);
            }
            proof {
                let t1 = aged_all.take(i + 1);
                assert(t1.drop_last() =~= aged_all.take(i as int));
                assert(t1.last() == aged_all[i as int]);
                reveal(Seq::filter);
                assert(t1.filter(pred) == (if pred(t1.last()) { t1.drop_last().filter(pred).push(t1.last()) } else { t1.drop_last().filter(pred) }));
            }
            i = i + 1;
        }
        assert(aged_all.take(aged_all.len() as int) =~= aged_all);
        let ghost before = self.effects@;
        self.effects = kept;
        proof {
            assert(distinct_types(aged_all));
            assert forall|a: int, b: int| 0 <= a < self.effects@.len() && 0 <= b < self.effects@.len() && a != b
                implies self.effects@[a].effect != self.effects@[b].effect by {
                lemma_filter_distinct(aged_all, pred);
            }
        }
    }

    /// Returns `true` if the entity currently has the given effect.
    pub fn has_effect(&self, effect_type: StatusEffect) -> (b: bool)
        ensures
            b == exists|i: int| 0 <= i < self.view().len() && self.view()[i].effect == effect_type,
    {
        let mut i: usize = 0;
        while i < self.effects.len()
            invariant
                i <= self.effects.len(),
                forall|j: int| 0 <= j < i ==> self.effects@[j].effect != effect_type,
            decreases self.effects.len() - i,
        {
            if self.effects[i].effect == effect_type {
                return true;
            }
            i = i + 1;
        }
        false
    }

    /// Returns the amplifier of the given effect, or `None` if absent.
    pub fn get_amplifier(&self, effect_type: StatusEffect) -> (r: Option<u8>)
        requires
            distinct_types(self.view()),
        ensures
            match r {
                Some(a) => exists|i: int| 0 <= i < self.view().len() && self.view()[i].effect == effect_type
                    && self.view()[i].amplifier == a,
                None => forall|i: int| 0 <= i < self.view().len() ==> self.view()[i].effect != effect_type,
            },
    {
        let mut i: usize = 0;
        while i < self.effects.len()
            invariant
                i <= self.effects.len(),
                forall|j: int| 0 <= j < i ==> self.effects@[j].effect != effect_type,
            decreases self.effects.len() - i,
        {
            if self.effects[i].effect == effect_type {
                return Some(self.effects[i].amplifier);
            }
            i = i + 1;
        }
        None
    }
}

/// Filtering a list of effects with distinct types keeps the types distinct.
proof fn lemma_filter_distinct(s: Seq<ActiveEffect>, pred: spec_fn(ActiveEffect) -> bool)
    requires
        distinct_types(s),
    ensures
        distinct_types(s.filter(pred)),
    decreases s.len(),
{
    reveal_with_fuel(Seq::<ActiveEffect>::filter, 1);
    if s.len() > 0 {
        let rest = s.drop_last();
        assert(distinct_types(rest));
        lemma_filter_distinct(rest, pred);
        if pred(s.last()) {
            let f = rest.filter(pred);
            assert forall|k: int| 0 <= k < f.len() implies f[k].effect != s.last().effect by {
                assert(f.contains(f[k]));
                rest.lemma_filter_contains_rev(pred, f[k]);
                let j = choose|j: int| 0 <= j < rest.len() && rest[j] == f[k];
                assert(s[j] == rest[j]);
            }
        }
    }
}

impl Default for EffectManager {
    fn default() -> (m: Self)
        ensures
            m.view() == Seq::<ActiveEffect>::empty(),
    {
        Self::new()
    }
}

/// What adding and removing promise: after an effect is added its type is
/// active with the higher of the old and new amplifiers, and after a type
/// is removed no effect of that type is left.
pub proof fn lemma_add_then_has_remove_then_not(s: Seq<ActiveEffect>, e: ActiveEffect, t: StatusEffect)
    requires
        distinct_types(s),
    ensures
        exists|i: int| 0 <= i < with_added(s, e).len() && (#[trigger] with_added(s, e)[i]).effect == e.effect
            && with_added(s, e)[i].amplifier >= e.amplifier,
        forall|i: int| 0 <= i < without_type(s, t).len() ==> (#[trigger] without_type(s, t)[i]).effect != t,
{
    if exists|i: int| 0 <= i < s.len() && s[i].effect == e.effect {
        let i = choose|i: int| 0 <= i < s.len() && s[i].effect == e.effect;
        assert(with_added(s, e)[i].effect == e.effect);
    } else {
        assert(with_added(s, e)[s.len() as int] == e);
    }
    assert forall|i: int| 0 <= i < without_type(s, t).len() implies (#[trigger] without_type(s, t)[i]).effect != t by {
        s.lemma_filter_pred(other_type(t), i);
    }
}

} // verus!
