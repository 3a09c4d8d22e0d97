//! Elytra wear: gliding while falling, one durability point per tick.
use vstd::prelude::*;

verus! {

/// The gliding state and durability of an elytra.
#[derive(Debug, Clone, PartialEq, Eq, Structural)]
pub struct ElytraState {
    pub gliding: bool,
    pub durability: u32,
    pub max_durability: u32,
}

impl ElytraState {
    /// A new elytra at full durability, not gliding.
    pub fn new(max_durability: u32) -> (e: Self)
        ensures
            !e.gliding,
            e.durability == max_durability,
            e.max_durability == max_durability,
    {
        Self { gliding: false, durability: max_durability, max_durability }
    }

    /// Start gliding: succeeds (`true`) only while falling with durability
    /// left; otherwise nothing changes.
    pub fn start_glide(&mut self, is_falling: bool) -> (ok: bool)
        ensures
            ok == (is_falling && old(self).durability > 0),
            final(self).gliding == (ok || old(self).gliding),
            final(self).durability == old(self).durability,
            final(self).max_durability == old(self).max_durability,
    {
        if is_falling && self.durability > 0 {
            self.gliding = true;
            true
        } else {
            false
        }
    }

    /// Stop gliding.
    pub fn stop_glide(&mut self)
        ensures
            !final(self).gliding,
            final(self).durability == old(self).durability,
            final(self).max_durability == old(self).max_durability,
    {
        self.gliding = false;
    }

    /// One tick: while gliding, one durability point is used (not below
    /// zero), and gliding stops when none is left.
    pub fn tick(&mut self)
        ensures
            final(self).max_durability == old(self).max_durability,
            !old(self).gliding ==> *final(self) == *old(self),
            old(self).gliding ==> {
                let d = if old(self).durability > 0 { old(self).durability - 1 } else { 0 };
                final(self).durability == d && final(self).gliding == (d != 0)
            },
    {
        if self.gliding {
            if self.durability > 0 {
                self.durability = self.durability - 1;
            }
            if self.durability == 0 {
                self.gliding = false;
            }
        }
    }
}

} // verus!
