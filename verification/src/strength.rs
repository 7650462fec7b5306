//! The strength of the hull, across its section and along its length.

use vstd::prelude::*;
use crate::num::Num;
use crate::ship::Ship;

verus! {

impl Ship {
    /// The part of its strength that a hull laid down before 1900 keeps,
    /// across its section and along its length: `1 - (1900 - year) / 100`.
    pub open spec fn spec_age_factor(year: u32) -> Num {
        if year < 1900 {
            Num::one().minus(Num::spec_whole(1900 - year).over(Num::Micro(100_000_000)))
        } else {
            Num::one()
        }
    }

    /// The part of its strength that a hull laid down before 1900 keeps,
    /// across its section and along its length: `1 - (1900 - year) / 100`.
    pub fn age_factor(year: u32) -> (r: Num)
        ensures
            r == Self::spec_age_factor(year),
    {
        if year < 1900 {
            Num::Micro(1_000_000).minus(Num::from_u32(1900 - year).over(Num::Micro(100_000_000)))
        } else {
            Num::Micro(1_000_000)
        }
    }

    #[verifier::opaque]
    pub open spec fn spec_str_cross(&self) -> Num {
        let concentration = if self.wgt_broad().gt(Num::zero()) {
            Num::one().plus(self.gun_concentration())
        } else {
            Num::one()
        };
        self.wgt_struct().over(
            self.hull.bb.times(self.hull.t.plus(self.hull.freeboard_dist)).sqrt(),
        ).over(
            self.hull.d.plus(
                self.wgt_broad().plus(self.wgt_borne()).plus(self.wgt_gun_armor()).plus(
                    self.armor.ct_fwd.wgt,
                ).plus(self.armor.ct_aft.wgt).times(
                    concentration.times(self.gun_super_factor()),
                ).plus(self.engine.hp_max.max(Num::zero()).over(Num::Micro(100_000_000))),
            ).over(self.hull.d),
        ).times(Num::Micro(600_000)).times(Self::spec_age_factor(self.year))
    }

    /// Strength across the section: the weight of the structure per square
    /// foot, over the root of beam times depth, over the load of guns, gun
    /// armor, conning towers and power relative to the displacement, times
    /// 0.6; a hull older than 1900 loses a hundredth for each year.
    #[verifier::when_used_as_spec(spec_str_cross)]
    pub fn str_cross(&self) -> (r: Num)
        ensures
            r == self.spec_str_cross(),
    {
        proof {
            reveal(Ship::spec_str_cross);
        }
        let concentration = if self.wgt_broad().gt(Num::Micro(0)) {
            Num::Micro(1_000_000).plus(self.gun_concentration())
        } else {
            Num::Micro(1_000_000)
        };
        self.wgt_struct().over(
            self.hull.bb.times(self.hull.t.plus(self.hull.freeboard_dist)).sqrt(),
        ).over(
            self.hull.d.plus(
                self.wgt_broad().plus(self.wgt_borne()).plus(self.wgt_gun_armor()).plus(
                    self.armor.ct_fwd.wgt,
                ).plus(self.armor.ct_aft.wgt).times(
                    concentration.times(self.gun_super_factor()),
                ).plus(self.engine.hp_max.max(Num::Micro(0)).over(Num::Micro(100_000_000))),
            ).over(self.hull.d),
        ).times(Num::Micro(600_000)).times(Self::age_factor(self.year))
    }

    #[verifier::opaque]
    pub open spec fn spec_str_long(&self) -> Num
        recommends
            self.batteries.len() > 0,
    {
        let slender = self.hull.lwl.over(
            self.hull.t.plus(self.hull.free_cap(self.cap_calc_broadside())),
        );
        self.wgt_hull_plus().plus(self.armor.bulkhead_strength()).times(
            Num::Micro(850_000_000),
        ).over(
            slender.times(slender).times(
                self.hull.d.plus(self.armor.end.wgt.times(Num::Micro(3_000_000))).plus(
                    self.wgt_borne().plus(self.wgt_gun_armor()).times(
                        self.super_factor_long(),
                    ).times(Num::Micro(2_000_000)),
                ),
            ),
        ).times(Self::spec_age_factor(self.year))
    }

    /// Strength along the length: 850 times the weight of hull and
    /// structural bulkheads, over the square of length by depth times the
    /// displacement loaded with the weights at the ends; a hull older than
    /// 1900 loses a hundredth for each year.
    #[verifier::when_used_as_spec(spec_str_long)]
    pub fn str_long(&self) -> (r: Num)
        requires
            self.batteries.len() > 0,
        ensures
            r == self.spec_str_long(),
    {
        proof {
            reveal(Ship::spec_str_long);
        }
        let slender = self.hull.lwl.over(
            self.hull.t.plus(self.hull.free_cap(self.cap_calc_broadside())),
        );
        self.wgt_hull_plus().plus(self.armor.bulkhead_strength()).times(
            Num::Micro(850_000_000),
        ).over(
            slender.times(slender).times(
                self.hull.d.plus(self.armor.end.wgt.times(Num::Micro(3_000_000))).plus(
                    self.wgt_borne().plus(self.wgt_gun_armor()).times(
                        self.super_factor_long(),
                    ).times(Num::Micro(2_000_000)),
                ),
            ),
        ).times(Self::age_factor(self.year))
    }

    /// The two strengths as one: the smaller, times a root of the ratio of
    /// the larger to it, the fourth root where the section is the stronger
    /// and the tenth root where the length is.
    pub open spec fn spec_blend(cross: Num, long: Num) -> Num {
        if cross.gt(long) {
            long.times(cross.over(long).sqrt().sqrt())
        } else {
            cross.times(long.over(cross).sqrt().root5())
        }
    }

    /// The two strengths as one: the smaller, times a root of the ratio of
    /// the larger to it, the fourth root where the section is the stronger
    /// and the tenth root where the length is.
    pub fn blend(cross: Num, long: Num) -> (r: Num)
        ensures
            r == Self::spec_blend(cross, long),
    {
        if cross.gt(long) {
            long.times(cross.over(long).sqrt().sqrt())
        } else {
            cross.times(long.over(cross).sqrt().root5())
        }
    }

    pub open spec fn spec_str_comp(&self) -> Num
        recommends
            self.batteries.len() > 0,
    {
        Self::spec_blend(self.str_cross(), self.str_long())
    }

    /// Composite strength: the blend of the strength across the section and
    /// the strength along the length.
    #[verifier::when_used_as_spec(spec_str_comp)]
    pub fn str_comp(&self) -> (r: Num)
        requires
            self.batteries.len() > 0,
        ensures
            r == self.spec_str_comp(),
    {
        Self::blend(self.str_cross(), self.str_long())
    }
}

} // verus!
