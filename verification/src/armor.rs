//! The armor scheme: thicknesses, extents and weights.

use vstd::prelude::*;
use crate::measure::Metric;
use crate::num::Num;

verus! {

/// What the torpedo bulkheads are.
#[derive(Clone, Copy, Debug, PartialEq, Eq, Structural)]
pub enum BulkheadType {
    /// Part of the structure: their weight adds to the hull's strength.
    Strengthened,
    /// Hung behind the structure to contain damage.
    Additional,
}

/// A belt, a bulkhead or a bulge. Thickness in inches, length and height in
/// feet, weights in tons.
#[derive(Clone, Copy, Debug)]
pub struct Belt {
    pub thick: Num,
    pub len: Num,
    pub hgt: Num,
    /// Weight, reckoned along the waterline length.
    pub wgt: Num,
    /// Weight as the stability figure takes it, reckoned on the displacement.
    pub wgt_d: Num,
}

/// The armored deck. Thicknesses in inches, weight in tons.
#[derive(Clone, Debug)]
pub struct Deck {
    /// Thickness over the forecastle.
    pub fc: Num,
    /// Thickness over the fore and aft decks.
    pub md: Num,
    /// Thickness over the quarterdeck.
    pub qd: Num,
    /// Weight, with no share for the machinery below it.
    pub wgt: Num,
    /// What the deck protects, in words.
    pub kind: String,
}

/// A conning tower. Thickness in inches, weight in tons.
#[derive(Clone, Copy, Debug)]
pub struct ConningTower {
    pub thick: Num,
    pub wgt: Num,
}

/// The armor of the hull.
#[derive(Clone, Debug)]
pub struct Armor {
    pub main: Belt,
    pub end: Belt,
    pub upper: Belt,
    pub bulkhead: Belt,
    pub bulge: Belt,
    pub deck: Deck,
    pub ct_fwd: ConningTower,
    pub ct_aft: ConningTower,
    pub bh_kind: BulkheadType,
    /// Beam between the torpedo bulkheads, in feet.
    pub bh_beam: Num,
    /// Weight of all of the above, in tons.
    pub wgt: Num,
    /// Slope of the main belt in degrees, positive where its top leans inboard.
    pub incline: Num,
    /// What the units in which this is given are worth in metric ones.
    pub units: Metric,
}

impl Armor {
    pub open spec fn spec_belt_coverage(&self, lwl: Num) -> Num {
        self.main.len.over(lwl)
    }

    /// The part of the waterline length `lwl` that the main belt covers.
    #[verifier::when_used_as_spec(spec_belt_coverage)]
    pub fn belt_coverage(&self, lwl: Num) -> (r: Num)
        ensures
            r == self.spec_belt_coverage(lwl),
    {
        self.main.len.over(lwl)
    }

    pub open spec fn spec_belted(&self) -> bool {
        self.main.thick.plus(self.end.thick).plus(self.upper.thick).gt(Num::zero())
    }

    /// Whether the ship has a belt: main, end and upper belt together have a
    /// thickness.
    #[verifier::when_used_as_spec(spec_belted)]
    pub fn belted(&self) -> (r: bool)
        ensures
            r == self.spec_belted(),
    {
        self.main.thick.plus(self.end.thick).plus(self.upper.thick).gt(Num::Micro(0))
    }

    pub open spec fn spec_decked(&self) -> bool {
        self.deck.fc.plus(self.deck.md).plus(self.deck.qd).gt(Num::zero())
    }

    /// Whether the ship has an armored deck: its three parts together have a
    /// thickness.
    #[verifier::when_used_as_spec(spec_decked)]
    pub fn decked(&self) -> (r: bool)
        ensures
            r == self.spec_decked(),
    {
        self.deck.fc.plus(self.deck.md).plus(self.deck.qd).gt(Num::Micro(0))
    }

    pub open spec fn spec_towers(&self) -> u8 {
        if !self.ct_fwd.thick.plus(self.ct_aft.thick).gt(Num::zero()) {
            0
        } else if self.ct_fwd.thick.gt(Num::zero()) && self.ct_aft.thick.gt(Num::zero()) {
            2
        } else {
            1
        }
    }

    /// The number of conning towers: none where the two together have no
    /// thickness, two where each has one, else one.
    #[verifier::when_used_as_spec(spec_towers)]
    pub fn towers(&self) -> (r: u8)
        ensures
            r == self.spec_towers(),
    {
        if !self.ct_fwd.thick.plus(self.ct_aft.thick).gt(Num::Micro(0)) {
            0
        } else if self.ct_fwd.thick.gt(Num::Micro(0)) && self.ct_aft.thick.gt(Num::Micro(0)) {
            2
        } else {
            1
        }
    }

    pub open spec fn spec_belts_wgt(&self) -> Num {
        self.main.wgt.plus(self.end.wgt).plus(self.upper.wgt)
    }

    /// Weight of main, end and upper belt.
    #[verifier::when_used_as_spec(spec_belts_wgt)]
    pub fn belts_wgt(&self) -> (r: Num)
        ensures
            r == self.spec_belts_wgt(),
    {
        self.main.wgt.plus(self.end.wgt).plus(self.upper.wgt)
    }

    pub open spec fn spec_towers_wgt(&self) -> Num {
        self.ct_fwd.wgt.plus(self.ct_aft.wgt)
    }

    /// Weight of the conning towers.
    #[verifier::when_used_as_spec(spec_towers_wgt)]
    pub fn towers_wgt(&self) -> (r: Num)
        ensures
            r == self.spec_towers_wgt(),
    {
        self.ct_fwd.wgt.plus(self.ct_aft.wgt)
    }

    pub open spec fn spec_bulkhead_strength(&self) -> Num {
        match self.bh_kind {
            BulkheadType::Strengthened => self.bulkhead.wgt,
            BulkheadType::Additional => Num::zero(),
        }
    }

    /// The weight that the torpedo bulkheads add to the structure: their own
    /// where they are part of it, none where they are hung behind it.
    #[verifier::when_used_as_spec(spec_bulkhead_strength)]
    pub fn bulkhead_strength(&self) -> (r: Num)
        ensures
            r == self.spec_bulkhead_strength(),
    {
        match self.bh_kind {
            BulkheadType::Strengthened => self.bulkhead.wgt,
            BulkheadType::Additional => Num::Micro(0),
        }
    }
}

impl Belt {
    /// Whether there is no belt.
    pub open spec fn spec_is_default(&self) -> bool {
        &&& self.thick == Num::zero()
        &&& self.len == Num::zero()
        &&& self.hgt == Num::zero()
        &&& self.wgt == Num::zero()
        &&& self.wgt_d == Num::zero()
    }
}

impl Default for Belt {
    /// No belt.
    fn default() -> (r: Belt)
        ensures
            r.spec_is_default(),
    {
        let z = Num::Micro(0);
        Belt {
            thick: z,
            len: z,
            hgt: z,
            wgt: z,
            wgt_d: z,
        }
    }
}

impl ConningTower {
    /// Whether there is no conning tower.
    pub open spec fn spec_is_default(&self) -> bool {
        &&& self.thick == Num::zero()
        &&& self.wgt == Num::zero()
    }
}

impl Default for ConningTower {
    /// No conning tower.
    fn default() -> (r: ConningTower)
        ensures
            r.spec_is_default(),
    {
        let z = Num::Micro(0);
        ConningTower {
            thick: z,
            wgt: z,
        }
    }
}

impl Deck {
    /// Whether there is no armored deck.
    pub open spec fn spec_is_default(&self) -> bool {
        &&& self.fc == Num::zero()
        &&& self.md == Num::zero()
        &&& self.qd == Num::zero()
        &&& self.wgt == Num::zero()
        &&& self.kind@ == ""@
    }
}

impl Default for Deck {
    /// No armored deck.
    fn default() -> (r: Deck)
        ensures
            r.spec_is_default(),
    {
        let z = Num::Micro(0);
        Deck {
            fc: z,
            md: z,
            qd: z,
            wgt: z,
            kind: "".to_owned(),
        }
    }
}

impl Armor {
    /// Whether there is no armor, with bulkheads that would be part of the structure.
    pub open spec fn spec_is_default(&self) -> bool {
        &&& self.main.spec_is_default()
        &&& self.end.spec_is_default()
        &&& self.upper.spec_is_default()
        &&& self.bulkhead.spec_is_default()
        &&& self.bulge.spec_is_default()
        &&& self.deck.spec_is_default()
        &&& self.ct_fwd.spec_is_default()
        &&& self.ct_aft.spec_is_default()
        &&& self.bh_kind == BulkheadType::Strengthened
        &&& self.bh_beam == Num::zero()
        &&& self.wgt == Num::zero()
        &&& self.incline == Num::zero()
        &&& self.units == Metric::spec_imperial()
    }
}

impl Default for Armor {
    /// No armor; bulkheads, were there any, would be part of the structure.
    fn default() -> (r: Armor)
        ensures
            r.spec_is_default(),
    {
        let z = Num::Micro(0);
        Armor {
            main: Belt::default(),
            end: Belt::default(),
            upper: Belt::default(),
            bulkhead: Belt::default(),
            bulge: Belt::default(),
            deck: Deck::default(),
            ct_fwd: ConningTower::default(),
            ct_aft: ConningTower::default(),
            bh_kind: BulkheadType::Strengthened,
            bh_beam: z,
            wgt: z,
            incline: z,
            units: Metric::imperial(),
        }
    }
}

} // verus!
