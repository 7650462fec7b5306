//! What the displacement is spent on: the weights of armament, armor, load,
//! machinery and hull, and the room that torpedoes take.

use vstd::prelude::*;
use crate::hull::FT3_PER_TON_SEA;
use crate::num::Num;
use crate::ship::Ship;
use crate::weapons::{
    asw_total, battery_total, spec_asw_total, spec_battery_total, spec_torpedo_total,
    torpedo_total, Part, TorpedoSum,
};

verus! {

/// Pounds in a long ton (2240), in millionths.
pub const POUND2TON: i64 = 2_240_000_000;

impl Ship {
    pub open spec fn spec_wgt_guns(&self) -> Num {
        spec_battery_total(self.batteries@, Part::Guns)
    }

    /// Weight of the guns, without their mounts.
    #[verifier::when_used_as_spec(spec_wgt_guns)]
    pub fn wgt_guns(&self) -> (r: Num)
        ensures
            r == self.spec_wgt_guns(),
    {
        battery_total(&self.batteries, Part::Guns)
    }

    pub open spec fn spec_wgt_gun_mounts(&self) -> Num {
        spec_battery_total(self.batteries@, Part::Mounts)
    }

    /// Weight of the gun mounts.
    #[verifier::when_used_as_spec(spec_wgt_gun_mounts)]
    pub fn wgt_gun_mounts(&self) -> (r: Num)
        ensures
            r == self.spec_wgt_gun_mounts(),
    {
        battery_total(&self.batteries, Part::Mounts)
    }

    pub open spec fn spec_wgt_gun_armor(&self) -> Num {
        spec_battery_total(self.batteries@, Part::Armor)
    }

    /// Weight of the armor on the gun mounts.
    #[verifier::when_used_as_spec(spec_wgt_gun_armor)]
    pub fn wgt_gun_armor(&self) -> (r: Num)
        ensures
            r == self.spec_wgt_gun_armor(),
    {
        battery_total(&self.batteries, Part::Armor)
    }

    pub open spec fn spec_wgt_mag(&self) -> Num {
        spec_battery_total(self.batteries@, Part::Magazine)
    }

    /// Weight of the magazines.
    #[verifier::when_used_as_spec(spec_wgt_mag)]
    pub fn wgt_mag(&self) -> (r: Num)
        ensures
            r == self.spec_wgt_mag(),
    {
        battery_total(&self.batteries, Part::Magazine)
    }

    pub open spec fn spec_wgt_broad(&self) -> Num {
        spec_battery_total(self.batteries@, Part::Broadside)
    }

    /// Weight of the shells that all batteries fire in one broadside.
    #[verifier::when_used_as_spec(spec_wgt_broad)]
    pub fn wgt_broad(&self) -> (r: Num)
        ensures
            r == self.spec_wgt_broad(),
    {
        battery_total(&self.batteries, Part::Broadside)
    }

    pub open spec fn spec_wgt_borne(&self) -> Num {
        spec_battery_total(self.batteries@, Part::Borne).times(Num::Micro(2_000_000))
    }

    /// Weight that trains with the guns, counted twice: the mass that the
    /// ship carries high.
    #[verifier::when_used_as_spec(spec_wgt_borne)]
    pub fn wgt_borne(&self) -> (r: Num)
        ensures
            r == self.spec_wgt_borne(),
    {
        battery_total(&self.batteries, Part::Borne).times(Num::Micro(2_000_000))
    }

    pub open spec fn spec_gun_concentration(&self) -> Num {
        spec_battery_total(self.batteries@, Part::Concentration)
    }

    /// How far the broadside lies in one battery, summed over the batteries.
    #[verifier::when_used_as_spec(spec_gun_concentration)]
    pub fn gun_concentration(&self) -> (r: Num)
        ensures
            r == self.spec_gun_concentration(),
    {
        battery_total(&self.batteries, Part::Concentration)
    }

    pub open spec fn spec_gun_wtf(&self) -> Num {
        spec_battery_total(self.batteries@, Part::Raised)
    }

    /// Weight of guns, mounts and their armor, raised for mounts that fire
    /// over others, over the batteries that have a caliber.
    #[verifier::when_used_as_spec(spec_gun_wtf)]
    pub fn gun_wtf(&self) -> (r: Num)
        ensures
            r == self.spec_gun_wtf(),
    {
        battery_total(&self.batteries, Part::Raised)
    }

    pub open spec fn spec_gun_super_factor(&self) -> Num {
        self.gun_wtf().over(self.wgt_gun_armor().plus(self.wgt_guns()).plus(self.wgt_gun_mounts()))
    }

    /// The raised weight of the armament over its plain weight.
    #[verifier::when_used_as_spec(spec_gun_super_factor)]
    pub fn gun_super_factor(&self) -> (r: Num)
        ensures
            r == self.spec_gun_super_factor(),
    {
        self.gun_wtf().over(self.wgt_gun_armor().plus(self.wgt_guns()).plus(self.wgt_gun_mounts()))
    }

    pub open spec fn spec_wgt_weaps(&self) -> Num {
        spec_torpedo_total(self.torps@, TorpedoSum::Weight).plus(spec_asw_total(self.asw@)).plus(
            self.mines.wgt,
        )
    }

    /// Weight of torpedoes, anti-submarine weapons and mines.
    #[verifier::when_used_as_spec(spec_wgt_weaps)]
    pub fn wgt_weaps(&self) -> (r: Num)
        ensures
            r == self.spec_wgt_weaps(),
    {
        torpedo_total(&self.torps, TorpedoSum::Weight).plus(asw_total(&self.asw)).plus(
            self.mines.wgt,
        )
    }

    pub open spec fn spec_wgt_batteries(&self) -> Num {
        self.wgt_guns().plus(self.wgt_gun_mounts())
    }

    /// Weight of the guns with their mounts.
    #[verifier::when_used_as_spec(spec_wgt_batteries)]
    pub fn wgt_batteries(&self) -> (r: Num)
        ensures
            r == self.spec_wgt_batteries(),
    {
        self.wgt_guns().plus(self.wgt_gun_mounts())
    }

    pub open spec fn spec_wgt_armament(&self) -> Num {
        self.wgt_batteries().plus(self.wgt_weaps())
    }

    /// Weight of the armament: guns, mounts and weapons.
    #[verifier::when_used_as_spec(spec_wgt_armament)]
    pub fn wgt_armament(&self) -> (r: Num)
        ensures
            r == self.spec_wgt_armament(),
    {
        self.wgt_batteries().plus(self.wgt_weaps())
    }

    pub open spec fn spec_wgt_armor(&self) -> Num {
        self.armor.wgt.plus(self.wgt_gun_armor())
    }

    /// Weight of the armor of hull and batteries. The deck's share for the
    /// machinery below it is left at nothing: the machinery's weight leans on
    /// this figure in turn.
    #[verifier::when_used_as_spec(spec_wgt_armor)]
    pub fn wgt_armor(&self) -> (r: Num)
        ensures
            r == self.spec_wgt_armor(),
    {
        self.armor.wgt.plus(self.wgt_gun_armor())
    }

    pub open spec fn spec_wgt_misc(&self) -> Num {
        Num::Micro((self.wgts.spec_wgt() * 1_000_000) as i64)
    }

    /// The miscellaneous weights together.
    #[verifier::when_used_as_spec(spec_wgt_misc)]
    pub fn wgt_misc(&self) -> (r: Num)
        ensures
            r == self.spec_wgt_misc(),
    {
        Num::Micro((self.wgts.wgt() * 1_000_000) as i64)
    }

    pub open spec fn spec_deck_space(&self) -> Num {
        spec_torpedo_total(self.torps@, TorpedoSum::DeckSpace).over(self.hull.wp)
    }

    /// The part of the waterplane that torpedo mounts on deck take.
    #[verifier::when_used_as_spec(spec_deck_space)]
    pub fn deck_space(&self) -> (r: Num)
        ensures
            r == self.spec_deck_space(),
    {
        torpedo_total(&self.torps, TorpedoSum::DeckSpace).over(self.hull.wp)
    }

    pub open spec fn spec_hull_space(&self) -> Num {
        spec_torpedo_total(self.torps@, TorpedoSum::HullSpace).over_product(
            self.hull.d,
            Num::Micro(FT3_PER_TON_SEA),
        )
    }

    /// The part of the displaced volume that torpedo mounts in the hull
    /// take: their room over the displacement and the volume of a ton of sea
    /// water, cut once.
    #[verifier::when_used_as_spec(spec_hull_space)]
    pub fn hull_space(&self) -> (r: Num)
        ensures
            r == self.spec_hull_space(),
    {
        torpedo_total(&self.torps, TorpedoSum::HullSpace).over_product(
            self.hull.d,
            Num::Micro(FT3_PER_TON_SEA),
        )
    }

    pub open spec fn spec_wgt_bunker(&self) -> Num {
        self.engine.bunker
    }

    /// Weight of the fuel at normal displacement.
    #[verifier::when_used_as_spec(spec_wgt_bunker)]
    pub fn wgt_bunker(&self) -> (r: Num)
        ensures
            r == self.spec_wgt_bunker(),
    {
        self.engine.bunker
    }

    pub open spec fn spec_wgt_load(&self) -> Num {
        self.hull.d.times(Num::Micro(20_000)).plus(self.wgt_bunker()).plus(self.wgt_mag())
    }

    /// Weight of stores (a fiftieth of the displacement), fuel and magazines.
    #[verifier::when_used_as_spec(spec_wgt_load)]
    pub fn wgt_load(&self) -> (r: Num)
        ensures
            r == self.spec_wgt_load(),
    {
        self.hull.d.times(Num::Micro(20_000)).plus(self.wgt_bunker()).plus(self.wgt_mag())
    }

    pub open spec fn spec_d_lite(&self) -> Num {
        self.hull.d.minus(self.wgt_load())
    }

    /// Light displacement: without fuel, magazines or stores.
    #[verifier::when_used_as_spec(spec_d_lite)]
    pub fn d_lite(&self) -> (r: Num)
        ensures
            r == self.spec_d_lite(),
    {
        self.hull.d.minus(self.wgt_load())
    }

    pub open spec fn spec_d_std(&self) -> Num {
        self.hull.d.minus(self.wgt_bunker())
    }

    /// Standard displacement, as the naval treaties count it: without the
    /// fuel.
    #[verifier::when_used_as_spec(spec_d_std)]
    pub fn d_std(&self) -> (r: Num)
        ensures
            r == self.spec_d_std(),
    {
        self.hull.d.minus(self.wgt_bunker())
    }

    pub open spec fn spec_d_max(&self) -> Num {
        self.hull.d.plus(Num::Micro(800_000).times(self.engine.bunker_max))
    }

    /// Maximum displacement: the normal one and four fifths of the fuel at
    /// maximum displacement.
    #[verifier::when_used_as_spec(spec_d_max)]
    pub fn d_max(&self) -> (r: Num)
        ensures
            r == self.spec_d_max(),
    {
        self.hull.d.plus(Num::Micro(800_000).times(self.engine.bunker_max))
    }

    pub open spec fn spec_t_max(&self) -> Num {
        self.hull.t_max
    }

    /// Draft at maximum displacement, as the hull gives it.
    #[verifier::when_used_as_spec(spec_t_max)]
    pub fn t_max(&self) -> (r: Num)
        ensures
            r == self.spec_t_max(),
    {
        self.hull.t_max
    }

    pub open spec fn spec_cb_max(&self) -> Num {
        self.hull.cb_max
    }

    /// Block coefficient at maximum displacement, as the hull gives it.
    #[verifier::when_used_as_spec(spec_cb_max)]
    pub fn cb_max(&self) -> (r: Num)
        ensures
            r == self.spec_cb_max(),
    {
        self.hull.cb_max
    }

    #[verifier::opaque]
    pub open spec fn spec_d_factor(&self) -> Num {
        self.hull.d.over(
            self.engine.d_engine.plus(Num::Micro(8_000_000).times(self.wgt_borne())).plus(
                self.wgt_armor(),
            ).plus(self.wgt_misc()),
        ).min(Num::Micro(10_000_000))
    }

    /// Displacement over loading: the displacement divided by the weight of
    /// machinery, eight times the weight borne, armor and miscellaneous
    /// weights; ten at most, and ten where the quotient is undefined.
    #[verifier::when_used_as_spec(spec_d_factor)]
    pub fn d_factor(&self) -> (r: Num)
        ensures
            r == self.spec_d_factor(),
            r.le(Num::Micro(10_000_000)),
    {
        proof {
            reveal(Ship::spec_d_factor);
        }
        self.hull.d.over(
            self.engine.d_engine.plus(Num::Micro(8_000_000).times(self.wgt_borne())).plus(
                self.wgt_armor(),
            ).plus(self.wgt_misc()),
        ).min(Num::Micro(10_000_000))
    }

    pub open spec fn spec_stress_exponent(&self) -> Num {
        let d = self.hull.d;
        let stressed = self.d_factor().lt(Num::one());
        if d.lt(Num::Micro(5_000_000_000)) && d.ge(Num::Micro(600_000_000)) && stressed {
            Num::one().minus(d.over(Num::Micro(5_000_000_000)))
        } else if d.lt(Num::Micro(600_000_000)) && stressed {
            Num::Micro(880_000)
        } else {
            Num::zero()
        }
    }

    /// The exponent by which the displacement factor lightens the machinery
    /// of a highly stressed ship of less than 5,000 tons: none unless the
    /// factor is below one; then `1 - d / 5000` from 600 tons on, and 0.88
    /// below.
    #[verifier::when_used_as_spec(spec_stress_exponent)]
    pub fn stress_exponent(&self) -> (r: Num)
        ensures
            r == self.spec_stress_exponent(),
    {
        let d = self.hull.d;
        let stressed = self.d_factor().lt(Num::Micro(1_000_000));
        if d.lt(Num::Micro(5_000_000_000)) && d.ge(Num::Micro(600_000_000)) && stressed {
            Num::Micro(1_000_000).minus(d.over(Num::Micro(5_000_000_000)))
        } else if d.lt(Num::Micro(600_000_000)) && stressed {
            Num::Micro(880_000)
        } else {
            Num::Micro(0)
        }
    }

    #[verifier::opaque]
    pub open spec fn spec_wgt_engine(&self) -> Num {
        self.engine.d_engine.over(Num::Micro(2_000_000)).times(
            self.d_factor().powf(self.stress_exponent()),
        )
    }

    /// Weight of the machinery: half the engine's own figure, times the
    /// displacement factor raised to the stress exponent.
    #[verifier::when_used_as_spec(spec_wgt_engine)]
    pub fn wgt_engine(&self) -> (r: Num)
        ensures
            r == self.spec_wgt_engine(),
    {
        proof {
            reveal(Ship::spec_wgt_engine);
        }
        self.engine.d_engine.over(Num::Micro(2_000_000)).times(
            self.d_factor().powf(self.stress_exponent()),
        )
    }

    #[verifier::opaque]
    pub open spec fn spec_wgt_hull(&self) -> Num {
        self.hull.d.minus(self.wgt_guns()).minus(self.wgt_gun_mounts()).minus(
            self.wgt_weaps(),
        ).minus(self.wgt_armor()).minus(self.wgt_engine()).minus(self.wgt_load()).minus(
            self.wgt_misc(),
        )
    }

    /// Weight of the hull: what the displacement leaves after guns, mounts,
    /// weapons, armor, machinery, load and miscellaneous weights.
    #[verifier::when_used_as_spec(spec_wgt_hull)]
    pub fn wgt_hull(&self) -> (r: Num)
        ensures
            r == self.spec_wgt_hull(),
    {
        proof {
            reveal(Ship::spec_wgt_hull);
        }
        self.hull.d.minus(self.wgt_guns()).minus(self.wgt_gun_mounts()).minus(
            self.wgt_weaps(),
        ).minus(self.wgt_armor()).minus(self.wgt_engine()).minus(self.wgt_load()).minus(
            self.wgt_misc(),
        )
    }

    pub open spec fn spec_wgt_hull_plus(&self) -> Num {
        self.wgt_hull().plus(self.wgt_guns()).plus(self.wgt_gun_mounts()).minus(self.wgt_borne())
    }

    /// Weight of the hull with guns and mounts, less the weight borne.
    #[verifier::when_used_as_spec(spec_wgt_hull_plus)]
    pub fn wgt_hull_plus(&self) -> (r: Num)
        ensures
            r == self.spec_wgt_hull_plus(),
    {
        self.wgt_hull().plus(self.wgt_guns()).plus(self.wgt_gun_mounts()).minus(self.wgt_borne())
    }

    #[verifier::opaque]
    pub open spec fn spec_wgt_struct(&self) -> Num {
        self.wgt_hull_plus().plus(self.armor.bulkhead_strength()).times(Num::Micro(POUND2TON)).over(
            self.hull.ws.plus(
                Num::Micro(2_000_000).times(self.hull.lwl).times(
                    self.hull.free_cap(self.cap_calc_broadside()),
                ),
            ).plus(self.hull.wp),
        )
    }

    /// Weight of the structure in pounds per square foot of hull: wetted
    /// surface, both sides above the water, and the deck.
    #[verifier::when_used_as_spec(spec_wgt_struct)]
    pub fn wgt_struct(&self) -> (r: Num)
        ensures
            r == self.spec_wgt_struct(),
    {
        proof {
            reveal(Ship::spec_wgt_struct);
        }
        self.wgt_hull_plus().plus(self.armor.bulkhead_strength()).times(Num::Micro(POUND2TON)).over(
            self.hull.ws.plus(
                Num::Micro(2_000_000).times(self.hull.lwl).times(
                    self.hull.free_cap(self.cap_calc_broadside()),
                ),
            ).plus(self.hull.wp),
        )
    }

    pub open spec fn spec_cap_calc_broadside(&self) -> bool {
        forall|i: int|
            0 <= i < self.batteries.len() ==> (#[trigger] self.batteries[i]).broad_and_below
    }

    /// Whether every battery fires through ports in the side, all of them
    /// below the deck. A ship without batteries is such a ship.
    #[verifier::when_used_as_spec(spec_cap_calc_broadside)]
    pub fn cap_calc_broadside(&self) -> (r: bool)
        ensures
            r == self.spec_cap_calc_broadside(),
    {
        let mut i: usize = 0;
        while i < self.batteries.len()
            invariant
                i <= self.batteries.len(),
                forall|j: int| 0 <= j < i ==> (#[trigger] self.batteries[j]).broad_and_below,
            decreases self.batteries.len() - i,
        {
            if !self.batteries[i].broad_and_below {
                return false;
            }
            i += 1;
        }
        true
    }

    pub open spec fn spec_percent_of_displacement(&self, portion: Num) -> Num {
        if self.hull.d.gt(Num::zero()) {
            portion.over(self.hull.d).times(Num::Micro(100_000_000))
        } else {
            Num::zero()
        }
    }

    /// A weight in hundredths of the displacement; zero where the ship
    /// displaces nothing.
    #[verifier::when_used_as_spec(spec_percent_of_displacement)]
    pub fn percent_of_displacement(&self, portion: Num) -> (r: Num)
        ensures
            r == self.spec_percent_of_displacement(portion),
    {
        if self.hull.d.gt(Num::Micro(0)) {
            portion.over(self.hull.d).times(Num::Micro(100_000_000))
        } else {
            Num::Micro(0)
        }
    }
}

} // verus!
