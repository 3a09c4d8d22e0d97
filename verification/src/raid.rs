//! Village raids: wave tables and the wave-by-wave progression.
use vstd::prelude::*;

verus! {

/// A single wave in a village raid: entries of `(mob_kind, count)`.
#[derive(Debug, Clone, PartialEq, Eq)]
pub struct RaidWave {
    pub wave_number: u8,
    pub mobs: Vec<(u8, u8)>,
}

/// Events of the raid progression.
#[derive(Debug, Clone, PartialEq, Eq, Structural)]
pub enum RaidEvent {
    /// The current wave is still being fought (or was just reported clear
    /// while mobs remain).
    WaveCleared,
    /// The next wave (1-indexed) is about to begin.
    NextWave(u8),
    /// All waves have been cleared; the village won.
    RaidVictory,
    /// The raid timer expired, or the raid is not running.
    RaidDefeat,
}

/// The mobs of wave `i` (0-indexed) of the standard progression. Mob
/// kinds: 0 pillager, 1 vindicator, 2 ravager, 3 evoker, 4 witch.
pub open spec fn default_wave_mobs(i: int) -> Seq<(u8, u8)> {
    if i == 0 {
        seq![(0u8, 4u8), (1, 1)]
    } else if i == 1 {
        seq![(0u8, 3u8), (1, 2), (4, 1)]
    } else if i == 2 {
        seq![(0u8, 4u8), (1, 2), (2, 1)]
    } else if i == 3 {
        seq![(0u8, 5u8), (1, 3), (4, 1), (2, 1)]
    } else if i == 4 {
        seq![(0u8, 5u8), (1, 4), (4, 2), (2, 1), (3, 1)]
    } else if i == 5 {
        seq![(0u8, 5u8), (1, 4), (4, 2), (2, 2), (3, 1)]
    } else {
        seq![(0u8, 6u8), (1, 5), (4, 2), (2, 2), (3, 2)]
    }
}

/// Number of waves in the standard progression.
pub const DEFAULT_WAVE_COUNT: usize = 7;

/// The standard seven-wave raid progression with growing mob counts.
pub fn default_raid_waves() -> (w: Vec<RaidWave>)
    ensures
        w@.len() == DEFAULT_WAVE_COUNT,
        forall|i: int| 0 <= i < 7 ==> (#[trigger] w@[i]).wave_number == i + 1 && w@[i].mobs@ == default_wave_mobs(i),
{
    let w = vec![
        RaidWave { wave_number: 1, mobs: vec![(0, 4), (1, 1)] },
        RaidWave { wave_number: 2, mobs: vec![(0, 3), (1, 2), (4, 1)] },
        RaidWave { wave_number: 3, mobs: vec![(0, 4), (1, 2), (2, 1)] },
        RaidWave { wave_number: 4, mobs: vec![(0, 5), (1, 3), (4, 1), (2, 1)] },
        RaidWave { wave_number: 5, mobs: vec![(0, 5), (1, 4), (4, 2), (2, 1), (3, 1)] },
        RaidWave { wave_number: 6, mobs: vec![(0, 5), (1, 4), (4, 2), (2, 2), (3, 1)] },
        RaidWave { wave_number: 7, mobs: vec![(0, 6), (1, 5), (4, 2), (2, 2), (3, 2)] },
    ];
    proof {
        assert forall|i: int| 0 <= i < 7 implies (#[trigger] w@[i]).wave_number == i + 1 && w@[i].mobs@ == default_wave_mobs(i) by {
            if i == 0 { assert(w@[0].mobs@ =~= default_wave_mobs(0)); }
            else if i == 1 { assert(w@[1].mobs@ =~= default_wave_mobs(1)); }
            else if i == 2 { assert(w@[2].mobs@ =~= default_wave_mobs(2)); }
            else if i == 3 { assert(w@[3].mobs@ =~= default_wave_mobs(3)); }
            else if i == 4 { assert(w@[4].mobs@ =~= default_wave_mobs(4)); }
            else if i == 5 { assert(w@[5].mobs@ =~= default_wave_mobs(5)); }
            else { assert(w@[6].mobs@ =~= default_wave_mobs(6)); }
        }
    }
    w
}

/// The mob kinds of a wave in spawn order: each entry's kind repeated by
/// its count.
pub open spec fn expand_mobs(mobs: Seq<(u8, u8)>) -> Seq<u8>
    decreases mobs.len(),
{
    if mobs.len() == 0 {
        Seq::empty()
    } else {
        let last = mobs.last();
        expand_mobs(mobs.drop_last()) + Seq::new(last.1 as nat, |j: int| last.0)
    }
}

/// The position of the first wave numbered `n`, if any.
pub open spec fn wave_position(waves: Seq<RaidWave>, n: u8) -> Option<int>
    decreases waves.len(),
{
    if waves.len() == 0 {
        None
    } else if waves.last().wave_number == n && wave_position(waves.drop_last(), n) is None {
        Some(waves.len() - 1)
    } else {
        wave_position(waves.drop_last(), n)
    }
}

/// The progression of a raid: its waves, the current wave (0 before the
/// start) and whether it is running. Positions and the raid timer are
/// fractional and kept by the embedding application.
#[derive(Debug, Clone)]
pub struct RaidProgress {
    pub waves: Vec<RaidWave>,
    pub current_wave: u8,
    pub active: bool,
}

impl RaidProgress {
    /// A raid over the standard seven waves, not yet started.
    pub fn new() -> (r: Self)
        ensures
            r.waves@.len() == DEFAULT_WAVE_COUNT,
            forall|i: int| 0 <= i < 7 ==> (#[trigger] r.waves@[i]).wave_number == i + 1 && r.waves@[i].mobs@ == default_wave_mobs(i),
            r.current_wave == 0,
            !r.active,
    {
        Self { waves: default_raid_waves(), current_wave: 0, active: false }
    }

    /// Start the raid at wave 1.
    pub fn start(&mut self)
        ensures
            final(self).active,
            final(self).current_wave == 1,
            final(self).waves@ == old(self).waves@,
    {
        self.active = true;
        self.current_wave = 1;
    }

    /// Report how many raid mobs of the current wave are alive. With mobs
    /// alive nothing changes and `WaveCleared` is returned. Otherwise, when
    /// the current wave is the last (the wave count taken as a `u8`), the
    /// raid ends in victory; else the next wave begins.
    pub fn check_wave_clear(&mut self, alive: u32) -> (e: RaidEvent)
        ensures
            final(self).waves@ == old(self).waves@,
            alive > 0 ==> e == RaidEvent::WaveCleared && final(self).current_wave == old(self).current_wave
                && final(self).active == old(self).active,
            alive == 0 && old(self).current_wave >= (old(self).waves@.len() as u8) ==> e == RaidEvent::RaidVictory
                && !final(self).active && final(self).current_wave == old(self).current_wave,
            alive == 0 && old(self).current_wave < (old(self).waves@.len() as u8) ==>
                final(self).current_wave == old(self).current_wave + 1
                && e == RaidEvent::NextWave(final(self).current_wave)
                && final(self).active == old(self).active,
    {
        if alive > 0 {
            return RaidEvent::WaveCleared;
        }
        let total_waves = self.waves.len() as u8;
        if self.current_wave >= total_waves {
            self.active = false;
            return RaidEvent::RaidVictory;
        }
        self.current_wave = self.current_wave + 1;
        RaidEvent::NextWave(self.current_wave)
    }

    /// One tick of the raid, given whether the raid timer has run out: a
    /// raid that is not running is a defeat; a timeout ends the raid in
    /// defeat; no mobs alive reports the wave cleared as
    /// `check_wave_clear` does; otherwise the wave is still in progress.
    pub fn tick(&mut self, alive: u32, timed_out: bool) -> (e: RaidEvent)
        ensures
            final(self).waves@ == old(self).waves@,
            !old(self).active ==> e == RaidEvent::RaidDefeat && final(self).current_wave == old(self).current_wave
                && !final(self).active,
            old(self).active && timed_out ==> e == RaidEvent::RaidDefeat && !final(self).active
                && final(self).current_wave == old(self).current_wave,
            old(self).active && !timed_out && alive > 0 ==> e == RaidEvent::WaveCleared
                && final(self).current_wave == old(self).current_wave && final(self).active,
            old(self).active && !timed_out && alive == 0 && old(self).current_wave >= (old(self).waves@.len() as u8)
                ==> e == RaidEvent::RaidVictory && !final(self).active,
            old(self).active && !timed_out && alive == 0 && old(self).current_wave < (old(self).waves@.len() as u8)
                ==> final(self).current_wave == old(self).current_wave + 1
                && e == RaidEvent::NextWave(final(self).current_wave) && final(self).active,
    {
        if !self.active {
            return RaidEvent::RaidDefeat;
        }
        if timed_out {
            self.active = false;
            return RaidEvent::RaidDefeat;
        }
        if alive == 0 {
            return self.check_wave_clear(alive);
        }
        RaidEvent::WaveCleared
    }

    /// The mob kinds to spawn for the current wave, in spawn order: the
    /// mobs of the first wave numbered as the current one, each kind
    /// repeated by its count; empty when no wave has that number.
    pub fn next_wave_kinds(&self) -> (kinds: Vec<u8>)
        ensures
            kinds@ == match wave_position(self.waves@, self.current_wave) {
                Some(i) => expand_mobs(self.waves@[i].mobs@),
                None => Seq::<u8>::empty(),
            },
    {
        let mut found: Option<usize> = None;
        let mut i: usize = 0;
        while i < self.waves.len()
            invariant
                i <= self.waves@.len(),
                found == (match wave_position(self.waves@.subrange(0, i as int), self.current_wave) {
                    Some(k) => Some(k as usize),
                    None => None::<usize>,
                }),
            decreases self.waves@.len() - i,
        {
            proof {
                assert(self.waves@.subrange(0, i as int + 1).drop_last() =~= self.waves@.subrange(0, i as int));
                lemma_wave_position_bounds(self.waves@.subrange(0, i as int), self.current_wave);
            }
            if found.is_none() && self.waves[i].wave_number == self.current_wave {
                found = Some(i);
            }
            i = i + 1;
        }
        proof {
            assert(self.waves@.subrange(0, self.waves@.len() as int) =~= self.waves@);
            lemma_wave_position_bounds(self.waves@, self.current_wave);
        }
        let mut kinds: Vec<u8> = Vec::new();
        match found {
            None => kinds,
            Some(w) => {
                let mobs = &self.waves[w].mobs;
                let mut e: usize = 0;
                while e < mobs.len()
                    invariant
                        e <= mobs@.len(),
                        kinds@ == expand_mobs(mobs@.subrange(0, e as int)),
                    decreases mobs@.len() - e,
                {
                    let (kind, count) = mobs[e];
                    let ghost before = kinds@;
                    let mut c: u8 = 0;
                    while c < count
                        invariant
                            c <= count,
                            kinds@ == before + Seq::new(c as nat, |j: int| kind),
                        decreases count - c,
                    {
                        kinds.push(kind);
                        c = c + 1;
                        proof {
                            assert(kinds@ =~= before + Seq::new(c as nat, |j: int| kind));
                        }
                    }
                    proof {
                        let sub = mobs@.subrange(0, e as int + 1);
                        assert(sub.drop_last() =~= mobs@.subrange(0, e as int));
                        assert(sub.last() == (kind, count));
                    }
                    e = e + 1;
                }
                proof {
                    assert(mobs@.subrange(0, mobs@.len() as int) =~= mobs@);
                }
                kinds
            },
        }
    }
}

/// The position of a wave, when there is one, lies inside the sequence.
pub proof fn lemma_wave_position_bounds(waves: Seq<RaidWave>, n: u8)
    ensures
        match wave_position(waves, n) {
            Some(p) => 0 <= p < waves.len() && waves[p].wave_number == n,
            None => true,
        },
    decreases waves.len(),
{
    if waves.len() > 0 {
        lemma_wave_position_bounds(waves.drop_last(), n);
    }
}

} // verus!
