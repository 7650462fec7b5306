//! Warnings: what the figures of a ship say against her. A design may be
//! bad; it is described all the same.

use vstd::prelude::*;
use crate::num::Num;
use crate::sea::SeaType;
use crate::ship::Ship;
use crate::text::{push_line, views};

verus! {

impl Ship {
    pub open spec fn spec_tender_warn(&self) -> bool {
        self.stability_adj().le(Num::Micro(995_000))
    }

    /// Whether the ship runs an excessive risk of capsizing: her stability
    /// is 0.995 or less.
    #[verifier::when_used_as_spec(spec_tender_warn)]
    pub fn tender_warn(&self) -> (r: bool)
        ensures
            r == self.spec_tender_warn(),
    {
        self.stability_adj().le(Num::Micro(995_000))
    }

    pub open spec fn spec_capsize_warn(&self) -> bool {
        self.metacenter().le(Num::zero())
    }

    /// Whether the ship will capsize: her metacentric height is zero or
    /// less.
    #[verifier::when_used_as_spec(spec_capsize_warn)]
    pub fn capsize_warn(&self) -> (r: bool)
        ensures
            r == self.spec_capsize_warn(),
    {
        self.metacenter().le(Num::Micro(0))
    }

    pub open spec fn spec_hull_strained(&self) -> bool
        recommends
            self.batteries.len() > 0,
    {
        let strength = self.str_comp();
        strength.ge(Num::Micro(500_000)) && strength.lt(Num::Micro(885_000)) && (
        self.engine.vmax.lt(Num::Micro(24_000_000)) || self.hull.d.gt(Num::Micro(4_000_000_000)))
    }

    /// Whether the hull is strained in the open sea: a composite strength
    /// from 0.5 to below 0.885, in a ship slower than 24 knots or of more
    /// than 4,000 tons.
    #[verifier::when_used_as_spec(spec_hull_strained)]
    pub fn hull_strained(&self) -> (r: bool)
        requires
            self.batteries.len() > 0,
        ensures
            r == self.spec_hull_strained(),
    {
        let strength = self.str_comp();
        strength.ge(Num::Micro(500_000)) && strength.lt(Num::Micro(885_000)) && (
        self.engine.vmax.lt(Num::Micro(24_000_000)) || self.hull.d.gt(Num::Micro(4_000_000_000)))
    }

    pub open spec fn spec_is_steady(&self) -> bool
        recommends
            self.batteries.len() > 0,
    {
        self.steadiness().ge(Num::Micro(69_500_000))
    }

    /// Whether the ship is a steady gun platform: a steadiness of 69.5 or
    /// more.
    #[verifier::when_used_as_spec(spec_is_steady)]
    pub fn is_steady(&self) -> (r: bool)
        requires
            self.batteries.len() > 0,
        ensures
            r == self.spec_is_steady(),
    {
        self.steadiness().ge(Num::Micro(69_500_000))
    }

    pub open spec fn spec_is_unsteady(&self) -> bool
        recommends
            self.batteries.len() > 0,
    {
        self.steadiness().lt(Num::Micro(30_000_000))
    }

    /// Whether the ship is an unsteady gun platform: a steadiness below 30.
    #[verifier::when_used_as_spec(spec_is_unsteady)]
    pub fn is_unsteady(&self) -> (r: bool)
        requires
            self.batteries.len() > 0,
        ensures
            r == self.spec_is_unsteady(),
    {
        self.steadiness().lt(Num::Micro(30_000_000))
    }

    pub open spec fn spec_type_sea(&self) -> SeaType
        recommends
            self.batteries.len() > 0,
    {
        SeaType::of(self.seakeeping())
    }

    /// The band of the ship's seakeeping.
    #[verifier::when_used_as_spec(spec_type_sea)]
    pub fn type_sea(&self) -> (r: SeaType)
        requires
            self.batteries.len() > 0,
        ensures
            r == self.spec_type_sea(),
    {
        SeaType::of(self.seakeeping())
    }

    /// What is said of a gun platform; `steady` comes before `unsteady`.
    pub open spec fn spec_roll_advice(steady: bool, unsteady: bool) -> Seq<Seq<char>> {
        if steady {
            seq!["Ship has slow easy roll, a good steady, gun platform"@]
        } else if unsteady {
            seq!["Ship has quick, lively roll, not a steady gun platform"@]
        } else {
            Seq::empty()
        }
    }

    pub open spec fn spec_seakeeping_desc(&self) -> Seq<Seq<char>>
        recommends
            self.batteries.len() > 0,
    {
        Self::spec_roll_advice(self.is_steady(), self.is_unsteady()).push(
            self.type_sea().spec_advice(self.wgt_guns().gt(Num::zero())),
        )
    }

    /// What is said of the ship at sea: of her roll, where she is a steady
    /// or an unsteady gun platform, and of the band of her seakeeping.
    pub fn seakeeping_desc(&self) -> (r: Vec<String>)
        requires
            self.batteries.len() > 0,
        ensures
            views(r@) == self.spec_seakeeping_desc(),
    {
        let mut s: Vec<String> = Vec::new();
        if self.is_steady() {
            push_line(&mut s, "Ship has slow easy roll, a good steady, gun platform".to_owned());
        } else if self.is_unsteady() {
            push_line(&mut s, "Ship has quick, lively roll, not a steady gun platform".to_owned());
        }
        push_line(&mut s, self.type_sea().advice(self.wgt_guns().gt(Num::Micro(0))));
        s
    }

    pub open spec fn spec_displacement_impossible(&self) -> bool {
        self.hull.cb.le(Num::zero()) || self.hull.cb.gt(Num::one())
    }

    /// Whether the dimensions cannot hold the displacement: a block
    /// coefficient of zero or less, or above one.
    #[verifier::when_used_as_spec(spec_displacement_impossible)]
    pub fn displacement_impossible(&self) -> (r: bool)
        ensures
            r == self.spec_displacement_impossible(),
    {
        self.hull.cb.le(Num::Micro(0)) || self.hull.cb.gt(Num::Micro(1_000_000))
    }

    /// Whether a weight of guns is too much for a displacement: it is more
    /// than a quarter of it.
    pub open spec fn spec_guns_exceed(guns: Num, d: Num) -> bool {
        guns.gt(d.over(Num::Micro(4_000_000)))
    }

    /// Whether a weight of armor is too much for a displacement: it is the
    /// greater.
    pub open spec fn spec_armor_exceeds(armor: Num, d: Num) -> bool {
        armor.gt(d)
    }

    pub open spec fn spec_guns_overweight(&self) -> bool {
        Self::spec_guns_exceed(self.wgt_guns(), self.hull.d)
    }

    /// Whether the guns are too heavy for the hull: they weigh more than a
    /// quarter of what the ship displaces.
    #[verifier::when_used_as_spec(spec_guns_overweight)]
    pub fn guns_overweight(&self) -> (r: bool)
        ensures
            r == self.spec_guns_overweight(),
    {
        self.wgt_guns().gt(self.hull.d.over(Num::Micro(4_000_000)))
    }

    pub open spec fn spec_armor_overweight(&self) -> bool {
        Self::spec_armor_exceeds(self.wgt_armor(), self.hull.d)
    }

    /// Whether the armor is too heavy for the hull: it weighs more than the
    /// ship displaces.
    #[verifier::when_used_as_spec(spec_armor_overweight)]
    pub fn armor_overweight(&self) -> (r: bool)
        ensures
            r == self.spec_armor_overweight(),
    {
        self.wgt_armor().gt(self.hull.d)
    }

    pub open spec fn spec_load_overweight(&self) -> bool
        recommends
            self.batteries.len() > 0,
    {
        self.str_comp().lt(Num::Micro(500_000))
    }

    /// Whether the load is too heavy for the hull: a composite strength
    /// below 0.5.
    #[verifier::when_used_as_spec(spec_load_overweight)]
    pub fn load_overweight(&self) -> (r: bool)
        requires
            self.batteries.len() > 0,
        ensures
            r == self.spec_load_overweight(),
    {
        self.str_comp().lt(Num::Micro(500_000))
    }

    pub open spec fn spec_design_failures(&self) -> Seq<DesignFailure>
        recommends
            self.batteries.len() > 0,
    {
        let s0 = Seq::<DesignFailure>::empty();
        let s1 = if self.displacement_impossible() {
            s0.push(DesignFailure::Displacement)
        } else {
            s0
        };
        let s2 = if self.guns_overweight() {
            s1.push(DesignFailure::GunWeight)
        } else {
            s1
        };
        let s3 = if self.armor_overweight() {
            s2.push(DesignFailure::ArmorWeight)
        } else {
            s2
        };
        let s4 = if self.load_overweight() {
            s3.push(DesignFailure::LoadWeight)
        } else {
            s3
        };
        if self.capsize_warn() {
            s4.push(DesignFailure::Capsize)
        } else {
            s4
        }
    }

    /// The failures of the design, each tested by itself, in this order:
    /// displacement, gun weight, armor weight, load, capsizing. A failed
    /// design still has all its figures.
    pub fn design_failures(&self) -> (r: Vec<DesignFailure>)
        requires
            self.batteries.len() > 0,
        ensures
            r@ == self.spec_design_failures(),
    {
        let mut r: Vec<DesignFailure> = Vec::new();
        if self.displacement_impossible() {
            r.push(DesignFailure::Displacement);
        }
        if self.guns_overweight() {
            r.push(DesignFailure::GunWeight);
        }
        if self.armor_overweight() {
            r.push(DesignFailure::ArmorWeight);
        }
        if self.load_overweight() {
            r.push(DesignFailure::LoadWeight);
        }
        if self.capsize_warn() {
            r.push(DesignFailure::Capsize);
        }
        r
    }

    pub open spec fn spec_power_per_shaft(&self) -> Num {
        self.engine.hp_max.over(Num::spec_whole(self.engine.shafts as int))
    }

    /// Horsepower at top speed on each shaft.
    #[verifier::when_used_as_spec(spec_power_per_shaft)]
    pub fn power_per_shaft(&self) -> (r: Num)
        ensures
            r == self.spec_power_per_shaft(),
    {
        self.engine.hp_max.over(Num::from_u32(self.engine.shafts))
    }

    pub open spec fn spec_engines_overpowered(&self) -> bool {
        self.engine.vmax != Num::zero() && self.power_per_shaft().gt(Num::Micro(20_000_000_000))
            && self.engine.reciprocating
    }

    /// Whether a ship that moves has too much power for reciprocating
    /// engines: more than 20,000 horsepower on a shaft.
    #[verifier::when_used_as_spec(spec_engines_overpowered)]
    pub fn engines_overpowered(&self) -> (r: bool)
        ensures
            r == self.spec_engines_overpowered(),
    {
        self.engine.vmax != Num::Micro(0) && self.power_per_shaft().gt(
            Num::Micro(20_000_000_000),
        ) && self.engine.reciprocating
    }

    pub open spec fn spec_shafts_overpowered(&self) -> bool {
        self.engine.vmax != Num::zero() && !self.engines_overpowered()
            && self.power_per_shaft().gt(Num::Micro(75_000_000_000))
    }

    /// Whether a ship that moves has too much power for her shafts: more
    /// than 75,000 horsepower on a shaft. Not said where the engines are
    /// overpowered already.
    #[verifier::when_used_as_spec(spec_shafts_overpowered)]
    pub fn shafts_overpowered(&self) -> (r: bool)
        ensures
            r == self.spec_shafts_overpowered(),
    {
        self.engine.vmax != Num::Micro(0) && !self.engines_overpowered()
            && self.power_per_shaft().gt(Num::Micro(75_000_000_000))
    }

    pub open spec fn spec_machinery_delicate(&self) -> bool {
        self.engine.vmax != Num::zero() && self.wgt_engine().lt(
            self.engine.d_engine.over(Num::Micro(5_000_000)),
        )
    }

    /// Whether a ship that moves has delicate, lightweight machinery: it
    /// weighs less than a fifth of the engine's own figure.
    #[verifier::when_used_as_spec(spec_machinery_delicate)]
    pub fn machinery_delicate(&self) -> (r: bool)
        ensures
            r == self.spec_machinery_delicate(),
    {
        self.engine.vmax != Num::Micro(0) && self.wgt_engine().lt(
            self.engine.d_engine.over(Num::Micro(5_000_000)),
        )
    }

    pub open spec fn spec_belt_short(&self) -> bool {
        self.armor.main.thick.plus(self.armor.end.thick).plus(self.armor.upper.thick).plus(
            self.armor.bulkhead.thick,
        ).gt(Num::zero()) && self.armor.main.thick.gt(Num::zero()) && self.armor.belt_coverage(
            self.hull.lwl,
        ).lt(self.hull_room())
    }

    /// Whether the ship has belts, a main belt among them, and that one
    /// does not cover magazines and engines: its part of the waterline
    /// length is below the room that they need in the hull.
    #[verifier::when_used_as_spec(spec_belt_short)]
    pub fn belt_short(&self) -> (r: bool)
        ensures
            r == self.spec_belt_short(),
    {
        self.armor.main.thick.plus(self.armor.end.thick).plus(self.armor.upper.thick).plus(
            self.armor.bulkhead.thick,
        ).gt(Num::Micro(0)) && self.armor.main.thick.gt(Num::Micro(0)) && self.armor.belt_coverage(
            self.hull.lwl,
        ).lt(self.hull_room())
    }
}

/// A way in which a design fails. Failures are warnings: the figures of a
/// failed design are reckoned all the same.
#[derive(Clone, Copy, Debug, PartialEq, Eq, Structural)]
pub enum DesignFailure {
    /// The dimensions cannot hold the displacement.
    Displacement,
    /// The guns weigh too much for the hull.
    GunWeight,
    /// The armor weighs too much for the hull.
    ArmorWeight,
    /// The load weighs too much for the hull.
    LoadWeight,
    /// The ship will capsize.
    Capsize,
}

impl DesignFailure {
    pub open spec fn spec_message(self) -> Seq<char> {
        match self {
            DesignFailure::Displacement => {
                "DESIGN FAILURE: Displacement impossible with given dimensions"@
            },
            DesignFailure::GunWeight => "DESIGN FAILURE: Gun weight too much for hull"@,
            DesignFailure::ArmorWeight => "DESIGN FAILURE: Armour weight too much for hull"@,
            DesignFailure::LoadWeight => "DESIGN FAILURE: Overall load weight too much for hull"@,
            DesignFailure::Capsize => "DESIGN FAILURE: Ship will capsize"@,
        }
    }

    /// The line that reports the failure.
    pub fn message(self) -> (r: String)
        ensures
            r@ == self.spec_message(),
    {
        match self {
            DesignFailure::Displacement => {
                "DESIGN FAILURE: Displacement impossible with given dimensions".to_owned()
            },
            DesignFailure::GunWeight => "DESIGN FAILURE: Gun weight too much for hull".to_owned(),
            DesignFailure::ArmorWeight => {
                "DESIGN FAILURE: Armour weight too much for hull".to_owned()
            },
            DesignFailure::LoadWeight => {
                "DESIGN FAILURE: Overall load weight too much for hull".to_owned()
            },
            DesignFailure::Capsize => "DESIGN FAILURE: Ship will capsize".to_owned(),
        }
    }
}

} // verus!
