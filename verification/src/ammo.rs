//! The ship's blasts: firing, the ammunition bar, and the aiming reticle.
use vstd::prelude::*;

verus! {

/// Blasts left and the number the ship started the level with.
#[derive(Debug, Clone, Copy, PartialEq, Eq, Structural)]
pub struct Ammo {
    pub ammo: u32,
    pub max_ammo: u32,
}

impl Ammo {
    /// Unlit segments at the top of the bar: the blasts used so far.
    pub open spec fn spent(self) -> int {
        if self.max_ammo >= self.ammo {
            self.max_ammo - self.ammo
        } else {
            0
        }
    }

    /// Whether segment `index` of the bar (counted from the top) is lit.
    pub open spec fn lit(self, index: int) -> bool {
        self.spent() <= index < self.max_ammo
    }

    /// The bar, top segment first: `true` for a lit segment.
    pub open spec fn bar(self) -> Seq<bool> {
        Seq::new(self.max_ammo as nat, |i: int| self.lit(i))
    }

    /// The blasts after one attempt to fire: one fewer if any were left.
    pub open spec fn after_fire(self) -> Ammo {
        Ammo {
            ammo: if self.ammo > 0 {
                (self.ammo - 1) as u32
            } else {
                self.ammo
            },
            max_ammo: self.max_ammo,
        }
    }

    /// A full load of `capacity` blasts.
    pub fn full(capacity: u32) -> (a: Ammo)
        ensures
            a.ammo == capacity,
            a.max_ammo == capacity,
    {
        Ammo { ammo: capacity, max_ammo: capacity }
    }

    /// Fires a blast if one is left: returns whether it fired.
    pub fn fire(&mut self) -> (fired: bool)
        ensures
            fired == (old(self).ammo > 0),
            *final(self) == old(self).after_fire(),
    {
        if self.ammo == 0 {
            false
        } else {
            self.ammo = self.ammo - 1;
            true
        }
    }

    /// The number of unlit segments at the top of the bar.
    pub fn empty_segments(&self) -> (n: u32)
        ensures
            n == self.spent(),
    {
        self.max_ammo.saturating_sub(self.ammo)
    }

    /// Whether segment `index` of the bar (counted from the top) is lit.
    pub fn segment_is_full(&self, index: u32) -> (full: bool)
        ensures
            full == self.lit(index as int),
    {
        let empty_count = self.empty_segments();
        index >= empty_count && index < self.max_ammo
    }

    /// Whether the aiming reticle is shown: only while a blast is left.
    pub fn reticle_visible(&self) -> (visible: bool)
        ensures
            visible == (self.ammo != 0),
    {
        self.ammo != 0
    }
}

/// The bar fills from the bottom: unlit segments for the blasts spent, then
/// one lit segment for each blast left (all of them when the count exceeds
/// the bar).
pub proof fn lemma_bar_fills_from_bottom(a: Ammo)
    ensures
        ({
            let left = if a.ammo <= a.max_ammo {
                a.ammo as nat
            } else {
                a.max_ammo as nat
            };
            a.bar() =~= Seq::new((a.max_ammo - left) as nat, |i: int| false) + Seq::new(
                left,
                |i: int| true,
            )
        }),
{
}

/// Firing never takes the count above the bar or below zero: a count within
/// the bar stays within it.
pub proof fn lemma_fire_stays_within_bar(a: Ammo)
    requires
        a.ammo <= a.max_ammo,
    ensures
        a.after_fire().ammo <= a.after_fire().max_ammo,
        a.after_fire().spent() == a.spent() + if a.ammo > 0 {
            1int
        } else {
            0
        },
{
}

} // verus!
