//! What it takes to sink the ship, and how she takes her own fire.

use vstd::prelude::*;
use crate::hull::FT3_PER_TON_SEA;
use crate::num::{Num, Ratio};
use crate::ship::Ship;

verus! {

impl Ship {
    pub open spec fn spec_year_adj(year: u32) -> Ratio {
        if year <= 1890 {
            Ratio { num: (66_666_664 - (1890 - year) * 1_000_000) as i64, den: 66_666_664 }
        } else if year <= 1950 {
            Ratio { num: 1, den: 1 }
        } else {
            Ratio { num: 0, den: 1 }
        }
    }

    /// What the year of a design makes of its survivability, as an exact
    /// fraction: nothing after 1950, all of it from 1891 on, and before that
    /// one less `(1890 - year) / 66.666664`, which is below zero before 1824.
    #[verifier::when_used_as_spec(spec_year_adj)]
    pub fn year_adj(year: u32) -> (r: Ratio)
        ensures
            r == Self::spec_year_adj(year),
            r.den > 0,
            year <= 1890 ==> r.den == 66_666_664 && r.num == r.den - (1890 - year) * 1_000_000,
            1890 < year <= 1950 ==> r.num == r.den,
            year > 1950 ==> r.num == 0,
    {
        if year <= 1890 {
            Ratio { num: 66_666_664 - ((1890 - year) as i64) * 1_000_000, den: 66_666_664 }
        } else if year <= 1950 {
            Ratio { num: 1, den: 1 }
        } else {
            Ratio { num: 0, den: 1 }
        }
    }

    #[verifier::opaque]
    pub open spec fn spec_flotation_base(&self) -> Num {
        let free = if self.cap_calc_broadside() {
            self.hull.free_cap(true)
        } else {
            self.hull.freeboard_dist
        };
        free.times(self.hull.wp).over(Num::Micro(FT3_PER_TON_SEA)).plus(self.hull.d).over(
            Num::Micro(2_000_000),
        )
    }

    /// The volume that keeps the ship afloat, in tons of water: half of the
    /// displacement and of what the sides enclose above the waterplane.
    #[verifier::when_used_as_spec(spec_flotation_base)]
    pub fn flotation_base(&self) -> (r: Num)
        ensures
            r == self.spec_flotation_base(),
    {
        proof {
            reveal(Ship::spec_flotation_base);
        }
        let free = if self.cap_calc_broadside() {
            self.hull.free_cap(true)
        } else {
            self.hull.freeboard_dist
        };
        free.times(self.hull.wp).over(Num::Micro(FT3_PER_TON_SEA)).plus(self.hull.d).over(
            Num::Micro(2_000_000),
        )
    }

    /// The flotation of a ship whose stability is one: `base` times the
    /// composite strength where that is below one, over the room (its
    /// square above one), times the adjustment for the year.
    pub open spec fn spec_flotation_stable(base: Num, str_comp: Num, room: Num, year: u32) -> Num {
        base.times(
            if str_comp.lt(Num::one()) {
                str_comp
            } else {
                Num::one()
            },
        ).over(
            if room.gt(Num::one()) {
                room.times(room)
            } else {
                room
            },
        ).times_ratio(Self::spec_year_adj(year))
    }

    /// The flotation of a ship before the floor at zero: that of a ship
    /// whose stability is one, times the root of the stability above one,
    /// times its fourth power else. For a stability from zero to one the
    /// fourth power is taken as two squares, each product cut once, so that
    /// a ship of little stability keeps what flotation she has.
    pub open spec fn spec_flotation_raw(
        base: Num,
        stability_adj: Num,
        str_comp: Num,
        room: Num,
        year: u32,
    ) -> Num {
        let stable = Self::spec_flotation_stable(base, str_comp, room, year);
        if stability_adj.gt(Num::one()) {
            stable.times(stability_adj.sqrt())
        } else {
            stable.times_square(stability_adj).times_square(stability_adj)
        }
    }

    /// The flotation of a ship of these figures: the raw figure, or zero
    /// where that is below zero or undefined.
    pub open spec fn spec_flotation_from(
        base: Num,
        stability_adj: Num,
        str_comp: Num,
        room: Num,
        year: u32,
    ) -> Num {
        Self::spec_flotation_raw(base, stability_adj, str_comp, room, year).max(Num::zero())
    }

    /// The flotation of a ship of these figures: `base` times the composite
    /// strength where that is below one, over the room (its square above
    /// one), times the adjustment for the year, times the stability (its
    /// root above one, its fourth power else); zero where that is below zero
    /// or undefined.
    pub fn flotation_from(base: Num, stability_adj: Num, str_comp: Num, room: Num, year: u32) -> (r:
        Num)
        ensures
            r == Self::spec_flotation_from(base, stability_adj, str_comp, room, year),
            r.ge(Num::zero()),
    {
        let stable = base.times(
            if str_comp.lt(Num::Micro(1_000_000)) {
                str_comp
            } else {
                Num::Micro(1_000_000)
            },
        ).over(
            if room.gt(Num::Micro(1_000_000)) {
                room.times(room)
            } else {
                room
            },
        ).times_ratio(Self::year_adj(year));
        if stability_adj.gt(Num::Micro(1_000_000)) {
            stable.times(stability_adj.sqrt()).max(Num::Micro(0))
        } else {
            stable.times_square(stability_adj).times_square(stability_adj).max(Num::Micro(0))
        }
    }

    pub open spec fn spec_flotation(&self) -> Num
        recommends
            self.batteries.len() > 0,
    {
        Self::spec_flotation_from(
            self.flotation_base(),
            self.stability_adj(),
            self.str_comp(),
            self.room(),
            self.year,
        )
    }

    /// Pounds of shell that sink the ship, hits on the vitals apart. Never
    /// below zero.
    #[verifier::when_used_as_spec(spec_flotation)]
    pub fn flotation(&self) -> (r: Num)
        requires
            self.batteries.len() > 0,
        ensures
            r == self.spec_flotation(),
            r.ge(Num::zero()),
    {
        Self::flotation_from(
            self.flotation_base(),
            self.stability_adj(),
            self.str_comp(),
            self.room(),
            self.year,
        )
    }

    pub open spec fn spec_damage_shell_size(&self) -> Num
        recommends
            self.batteries.len() > 0,
    {
        if self.batteries[0].diam.gt(Num::zero()) {
            self.batteries[0].diam
        } else {
            Num::Micro(6_000_000)
        }
    }

    /// Caliber of the shells in which the flotation is counted: that of the
    /// main battery, or six inches where the ship has none.
    #[verifier::when_used_as_spec(spec_damage_shell_size)]
    pub fn damage_shell_size(&self) -> (r: Num)
        requires
            self.batteries.len() > 0,
        ensures
            r == self.spec_damage_shell_size(),
    {
        if self.batteries[0].diam.gt(Num::Micro(0)) {
            self.batteries[0].diam
        } else {
            Num::Micro(6_000_000)
        }
    }

    pub open spec fn spec_damage_shell_num(&self) -> Num
        recommends
            self.batteries.len() > 0,
    {
        let size = self.damage_shell_size();
        self.flotation().over(
            size.times(size).times(size).over(Num::Micro(2_000_000)).times_ratio(Self::spec_year_adj(self.year)),
        )
    }

    /// Number of shells of that caliber that sink the ship: the flotation
    /// over half the cube of the caliber, adjusted for the year.
    #[verifier::when_used_as_spec(spec_damage_shell_num)]
    pub fn damage_shell_num(&self) -> (r: Num)
        requires
            self.batteries.len() > 0,
        ensures
            r == self.spec_damage_shell_num(),
    {
        let size = self.damage_shell_size();
        self.flotation().over(
            size.times(size).times(size).over(Num::Micro(2_000_000)).times_ratio(Self::year_adj(self.year)),
        )
    }

    #[verifier::opaque]
    pub open spec fn spec_damage_torp_num(&self) -> Num
        recommends
            self.batteries.len() > 0,
            self.torps.len() > 0,
    {
        let flotation = self.flotation();
        let stability = self.stability_adj();
        let wide = self.hull.bb.over(Num::Micro(75_000_000));
        let square = stability.times(stability);
        flotation.over(Num::Micro(10_000_000_000)).cbrt().plus(wide.times(wide)).plus(
            self.armor.bulkhead.thick.over(Num::Micro(2_000_000)).times(
                self.armor.bulkhead.len,
            ).over(self.hull.lwl).over(Num::Micro(650_000)).times(self.armor.bulkhead.hgt).over(
                self.hull.t,
            ).cbrt().times(flotation).over(Num::Micro(35_000_000_000)).times(
                self.hull.bb,
            ).over(Num::Micro(50_000_000)),
        ).over(self.room()).times(self.hull.lwl).over(self.hull.lwl.plus(self.hull.bb)).times(
            if stability.lt(Num::one()) {
                square.times(square)
            } else {
                Num::one()
            },
        ).times(Num::one().minus(self.hull_space())).times(
            if self.torps[0].wgt_weaps.gt(Num::zero()) {
                Num::Micro(1_313_000).over(
                    self.torps[0].wgt_weaps.over(Num::spec_whole(self.torps[0].num as int)),
                )
            } else {
                Num::one()
            },
        )
    }

    /// Number of torpedoes that sink the ship. The cube root of a
    /// ten-thousandth of the flotation, the square of a 75th of the beam,
    /// and the torpedo bulkheads' share are summed, taken over the room in
    /// the hull and by the length's part in length and beam, lowered by the
    /// fourth power of a stability below one and by the hull space that the
    /// ship's own torpedoes take, and counted in torpedoes of the weight of
    /// her main set, where she has one, against 1.313 tons.
    #[verifier::when_used_as_spec(spec_damage_torp_num)]
    pub fn damage_torp_num(&self) -> (r: Num)
        requires
            self.batteries.len() > 0,
            self.torps.len() > 0,
        ensures
            r == self.spec_damage_torp_num(),
    {
        proof {
            reveal(Ship::spec_damage_torp_num);
        }
        let flotation = self.flotation();
        let stability = self.stability_adj();
        let wide = self.hull.bb.over(Num::Micro(75_000_000));
        let square = stability.times(stability);
        flotation.over(Num::Micro(10_000_000_000)).cbrt().plus(wide.times(wide)).plus(
            self.armor.bulkhead.thick.over(Num::Micro(2_000_000)).times(
                self.armor.bulkhead.len,
            ).over(self.hull.lwl).over(Num::Micro(650_000)).times(self.armor.bulkhead.hgt).over(
                self.hull.t,
            ).cbrt().times(flotation).over(Num::Micro(35_000_000_000)).times(
                self.hull.bb,
            ).over(Num::Micro(50_000_000)),
        ).over(self.room()).times(self.hull.lwl).over(self.hull.lwl.plus(self.hull.bb)).times(
            if stability.lt(Num::Micro(1_000_000)) {
                square.times(square)
            } else {
                Num::Micro(1_000_000)
            },
        ).times(Num::Micro(1_000_000).minus(self.hull_space())).times(
            if self.torps[0].wgt_weaps.gt(Num::Micro(0)) {
                Num::Micro(1_313_000).over(
                    self.torps[0].wgt_weaps.over(Num::from_u32(self.torps[0].num)),
                )
            } else {
                Num::Micro(1_000_000)
            },
        )
    }

    #[verifier::opaque]
    pub open spec fn spec_recoil(&self) -> Num
        recommends
            self.batteries.len() > 0,
    {
        let stability = self.stability_adj();
        let kick = self.hull.d.cbrt().over(self.hull.bb).times(
            Num::Micro(3_000_000),
        );
        self.wgt_broad().over(self.hull.d).times(self.hull.freeboard_dist).times(
            self.gun_super_factor(),
        ).over(self.hull.bb).times(kick.times(kick)).times(Num::Micro(7_000_000)).over(
            if stability.gt(Num::zero()) {
                stability.times(
                    Num::Micro(50_000_000).minus(self.steadiness()).over(
                        Num::Micro(150_000_000),
                    ).plus(Num::one()),
                )
            } else {
                Num::one()
            },
        )
    }

    /// How the ship takes the recoil of her broadside; above one the arcs of
    /// fire are restricted. The broadside relative to displacement and beam,
    /// raised by freeboard and super factor, times seven times the square of
    /// three cube roots of the displacement over the beam, over the
    /// stability as far as that is above zero, weighted by the steadiness.
    #[verifier::when_used_as_spec(spec_recoil)]
    pub fn recoil(&self) -> (r: Num)
        requires
            self.batteries.len() > 0,
        ensures
            r == self.spec_recoil(),
    {
        proof {
            reveal(Ship::spec_recoil);
        }
        let stability = self.stability_adj();
        let kick = self.hull.d.cbrt().over(self.hull.bb).times(
            Num::Micro(3_000_000),
        );
        self.wgt_broad().over(self.hull.d).times(self.hull.freeboard_dist).times(
            self.gun_super_factor(),
        ).over(self.hull.bb).times(kick.times(kick)).times(Num::Micro(7_000_000)).over(
            if stability.gt(Num::Micro(0)) {
                stability.times(
                    Num::Micro(50_000_000).minus(self.steadiness()).over(
                        Num::Micro(150_000_000),
                    ).plus(Num::Micro(1_000_000)),
                )
            } else {
                Num::Micro(1_000_000)
            },
        )
    }
}

} // verus!
