//! Stability, and how the ship behaves at sea.

use vstd::prelude::*;
use crate::num::Num;
use crate::ship::Ship;

verus! {

impl Ship {
    #[verifier::opaque]
    pub open spec fn spec_stability(&self) -> Num {
        let high = self.armor.towers_wgt().times(Num::Micro(5_000_000)).plus(
            self.wgt_borne().plus(self.wgt_gun_armor()).times(
                Num::Micro(2_000_000).times(self.gun_super_factor()).minus(Num::one()),
            ).times(Num::Micro(4_000_000)),
        ).plus(Num::spec_whole(self.wgts.hull as int).times(Num::Micro(2_000_000))).plus(
            Num::spec_whole(self.wgts.on as int).times(Num::Micro(3_000_000)),
        ).plus(Num::spec_whole(self.wgts.above as int).times(Num::Micro(4_000_000))).plus(
            self.armor.upper.wgt_d.times(Num::Micro(2_000_000)),
        ).plus(self.armor.main.wgt_d).plus(self.armor.end.wgt_d).plus(self.armor.deck.wgt).plus(
            self.wgt_hull_plus().plus(self.wgt_guns()).plus(self.wgt_gun_mounts()).minus(
                self.wgt_borne(),
            ).times(Num::Micro(1_500_000)).times(self.hull.freeboard).over(self.hull.t),
        );
        let all = high.plus(
            if self.deck_room().lt(Num::one()) {
                self.wgt_engine().plus(Num::spec_whole(self.wgts.vital as int)).plus(
                    Num::spec_whole(self.wgts.void as int),
                ).times(Num::one().minus(self.deck_room().times(self.deck_room())))
            } else {
                Num::zero()
            },
        );
        if all.gt(Num::zero()) {
            self.hull.d.times(self.hull.bb.over(self.hull.t)).over(all).times(
                Num::Micro(500_000),
            ).sqrt().times(
                Num::Micro(8_767_550).over(self.hull.len2beam).sqrt().sqrt(),
            )
        } else {
            all
        }
    }

    /// Stability before the trim is applied. The weights are summed by how
    /// high they lie: conning towers five times, the weight borne and the
    /// gun armor four times and raised for mounts that fire over others,
    /// miscellaneous weights two to four times, upper belt twice, main belt,
    /// end belt and deck once, and hull, guns and mounts by one and a half
    /// times freeboard over draft; a crowded deck adds machinery and the
    /// weights low in the hull. Where the sum is above zero the figure is
    /// the root of half of `d * (bb / t)` over it, times the fourth root of
    /// 8.76755 over the ratio of length to beam; else it is the sum itself.
    #[verifier::when_used_as_spec(spec_stability)]
    pub fn stability(&self) -> (r: Num)
        ensures
            r == self.spec_stability(),
    {
        proof {
            reveal(Ship::spec_stability);
        }
        let high = self.armor.towers_wgt().times(Num::Micro(5_000_000)).plus(
            self.wgt_borne().plus(self.wgt_gun_armor()).times(
                Num::Micro(2_000_000).times(self.gun_super_factor()).minus(Num::Micro(1_000_000)),
            ).times(Num::Micro(4_000_000)),
        ).plus(Num::from_u32(self.wgts.hull).times(Num::Micro(2_000_000))).plus(
            Num::from_u32(self.wgts.on).times(Num::Micro(3_000_000)),
        ).plus(Num::from_u32(self.wgts.above).times(Num::Micro(4_000_000))).plus(
            self.armor.upper.wgt_d.times(Num::Micro(2_000_000)),
        ).plus(self.armor.main.wgt_d).plus(self.armor.end.wgt_d).plus(self.armor.deck.wgt).plus(
            self.wgt_hull_plus().plus(self.wgt_guns()).plus(self.wgt_gun_mounts()).minus(
                self.wgt_borne(),
            ).times(Num::Micro(1_500_000)).times(self.hull.freeboard).over(self.hull.t),
        );
        let deck_room = self.deck_room();
        let all = high.plus(
            if deck_room.lt(Num::Micro(1_000_000)) {
                self.wgt_engine().plus(Num::from_u32(self.wgts.vital)).plus(
                    Num::from_u32(self.wgts.void),
                ).times(Num::Micro(1_000_000).minus(deck_room.times(deck_room)))
            } else {
                Num::Micro(0)
            },
        );
        if all.gt(Num::Micro(0)) {
            self.hull.d.times(self.hull.bb.over(self.hull.t)).over(all).times(
                Num::Micro(500_000),
            ).sqrt().times(
                Num::Micro(8_767_550).over(self.hull.len2beam).sqrt().sqrt(),
            )
        } else {
            all
        }
    }

    /// The factor that the trim puts on the stability: `(50 - trim) / 150 + 1`.
    pub open spec fn spec_trim_factor(trim: u8) -> Num {
        Num::Micro(50_000_000).minus(Num::spec_whole(trim as int)).over(
            Num::Micro(150_000_000),
        ).plus(Num::one())
    }

    /// The factor that the trim puts on the stability: `(50 - trim) / 150 + 1`.
    pub fn trim_factor(trim: u8) -> (r: Num)
        ensures
            r == Self::spec_trim_factor(trim),
    {
        Num::Micro(50_000_000).minus(Num::from_u32(trim as u32)).over(
            Num::Micro(150_000_000),
        ).plus(Num::Micro(1_000_000))
    }

    pub open spec fn spec_stability_adj(&self) -> Num {
        self.stability().times(Self::spec_trim_factor(self.trim))
    }

    /// Stability with the trim applied; the ship is unstable below one.
    #[verifier::when_used_as_spec(spec_stability_adj)]
    pub fn stability_adj(&self) -> (r: Num)
        ensures
            r == self.spec_stability_adj(),
    {
        self.stability().times(Self::trim_factor(self.trim))
    }

    #[verifier::opaque]
    pub open spec fn spec_metacenter(&self) -> Num {
        self.hull.b.times(self.hull.b.sqrt()).times(
            self.stability_adj().minus(Num::Micro(500_000)),
        ).over(Num::Micro(500_000)).over(Num::Micro(200_000_000))
    }

    /// Metacentric height, in feet: the beam to the power of one and a half,
    /// times what the stability has above one half, over one half and over
    /// 200.
    #[verifier::when_used_as_spec(spec_metacenter)]
    pub fn metacenter(&self) -> (r: Num)
        ensures
            r == self.spec_metacenter(),
    {
        proof {
            reveal(Ship::spec_metacenter);
        }
        self.hull.b.times(self.hull.b.sqrt()).times(
            self.stability_adj().minus(Num::Micro(500_000)),
        ).over(Num::Micro(500_000)).over(Num::Micro(200_000_000))
    }

    pub open spec fn spec_roll_period(&self) -> Num {
        Num::Micro(420_000).times(self.hull.bb).over(self.metacenter().sqrt())
    }

    /// Roll period, in seconds: 0.42 times the beam over the bulges, over
    /// the root of the metacentric height.
    #[verifier::when_used_as_spec(spec_roll_period)]
    pub fn roll_period(&self) -> (r: Num)
        ensures
            r == self.spec_roll_period(),
    {
        Num::Micro(420_000).times(self.hull.bb).over(self.metacenter().sqrt())
    }

    /// The factor that the resistance puts on the seaboat figure: the square
    /// of the frictional part of the resistance at top speed where that part
    /// is below 0.55 and the ship moves, else 0.3025.
    pub open spec fn spec_resistance_factor(rf: Num, rw: Num, vmax: Num) -> Num {
        let ratio = rf.over(rf.plus(rw));
        if ratio.lt(Num::Micro(550_000)) && vmax.gt(Num::zero()) {
            ratio.times(ratio)
        } else {
            Num::Micro(302_500)
        }
    }

    /// The factor that the resistance puts on the seaboat figure: the square
    /// of the frictional part of the resistance at top speed where that part
    /// is below 0.55 and the ship moves, else 0.3025.
    pub fn resistance_factor(rf: Num, rw: Num, vmax: Num) -> (r: Num)
        ensures
            r == Self::spec_resistance_factor(rf, rw, vmax),
    {
        let ratio = rf.over(rf.plus(rw));
        if ratio.lt(Num::Micro(550_000)) && vmax.gt(Num::Micro(0)) {
            ratio.times(ratio)
        } else {
            Num::Micro(302_500)
        }
    }

    #[verifier::opaque]
    pub open spec fn spec_seaboat(&self) -> Num
        recommends
            self.batteries.len() > 0,
    {
        let free = self.hull.free_cap(self.cap_calc_broadside());
        let bulk = Num::Micro(2_400_000).times(self.hull.d.root5());
        let form = free.over(bulk).sqrt().times(
            self.stability().times(Num::Micro(5_000_000)).times(
                self.hull.bb.over(self.hull.lwl),
            ).root5().times(
                free.over(self.hull.lwl).times(Num::Micro(20_000_000)).sqrt(),
            ).times(
                self.hull.d.over(
                    self.hull.d.plus(self.armor.end.wgt.times(Num::Micro(3_000_000))).plus(
                        self.wgt_hull_plus().over(Num::Micro(3_000_000)),
                    ).plus(
                        self.wgt_borne().plus(self.wgt_gun_armor()).times(
                            self.super_factor_long(),
                        ),
                    ),
                ),
            ),
        ).times(Num::Micro(8_000_000));
        let slim = self.hull.t.over(self.hull.bb);
        let draft = form.times(
            if slim.lt(Num::Micro(300_000)) {
                slim.over(Num::Micro(300_000)).sqrt()
            } else {
                Num::one()
            },
        );
        draft.times(
            Self::spec_resistance_factor(self.engine.rf_max, self.engine.rw_max, self.engine.vmax),
        ).min(Num::Micro(2_000_000))
    }

    /// The seaboat figure, from which steadiness and seakeeping come: built
    /// from the free height of the sides, the stability, the shape of the
    /// hull and the weight at its ends, lowered for a draft below three
    /// tenths of the beam, times the resistance factor; two at most, and two
    /// where it is undefined.
    #[verifier::when_used_as_spec(spec_seaboat)]
    pub fn seaboat(&self) -> (r: Num)
        requires
            self.batteries.len() > 0,
        ensures
            r == self.spec_seaboat(),
            r.le(Num::Micro(2_000_000)),
    {
        proof {
            reveal(Ship::spec_seaboat);
        }
        let free = self.hull.free_cap(self.cap_calc_broadside());
        let bulk = Num::Micro(2_400_000).times(self.hull.d.root5());
        let form = free.over(bulk).sqrt().times(
            self.stability().times(Num::Micro(5_000_000)).times(
                self.hull.bb.over(self.hull.lwl),
            ).root5().times(
                free.over(self.hull.lwl).times(Num::Micro(20_000_000)).sqrt(),
            ).times(
                self.hull.d.over(
                    self.hull.d.plus(self.armor.end.wgt.times(Num::Micro(3_000_000))).plus(
                        self.wgt_hull_plus().over(Num::Micro(3_000_000)),
                    ).plus(
                        self.wgt_borne().plus(self.wgt_gun_armor()).times(
                            self.super_factor_long(),
                        ),
                    ),
                ),
            ),
        ).times(Num::Micro(8_000_000));
        let slim = self.hull.t.over(self.hull.bb);
        let draft = form.times(
            if slim.lt(Num::Micro(300_000)) {
                slim.over(Num::Micro(300_000)).sqrt()
            } else {
                Num::Micro(1_000_000)
            },
        );
        draft.times(
            Self::resistance_factor(self.engine.rf_max, self.engine.rw_max, self.engine.vmax),
        ).min(Num::Micro(2_000_000))
    }

    pub open spec fn spec_steadiness(&self) -> Num
        recommends
            self.batteries.len() > 0,
    {
        Num::spec_whole(self.trim as int).times(self.seaboat()).min(Num::Micro(100_000_000))
    }

    /// Steadiness as a gun platform, in hundredths: the trim times the
    /// seaboat figure, 100 at most.
    #[verifier::when_used_as_spec(spec_steadiness)]
    pub fn steadiness(&self) -> (r: Num)
        requires
            self.batteries.len() > 0,
        ensures
            r == self.spec_steadiness(),
            r.le(Num::Micro(100_000_000)),
    {
        Num::from_u32(self.trim as u32).times(self.seaboat()).min(Num::Micro(100_000_000))
    }

    pub open spec fn spec_seakeeping(&self) -> Num
        recommends
            self.batteries.len() > 0,
    {
        self.seaboat().times(self.steadiness().min(Num::Micro(50_000_000))).over(
            Num::Micro(50_000_000),
        )
    }

    /// Seakeeping: the seaboat figure, lowered for a steadiness below 50.
    #[verifier::when_used_as_spec(spec_seakeeping)]
    pub fn seakeeping(&self) -> (r: Num)
        requires
            self.batteries.len() > 0,
        ensures
            r == self.spec_seakeeping(),
    {
        self.seaboat().times(self.steadiness().min(Num::Micro(50_000_000))).over(
            Num::Micro(50_000_000),
        )
    }

    #[verifier::opaque]
    pub open spec fn spec_super_factor_long(&self) -> Num
        recommends
            self.batteries.len() > 0,
    {
        let main = self.batteries[0];
        let fore = main.groups[0];
        let aft = main.groups[1];
        let raised = self.gun_super_factor();
        let spread = self.hull_room().times(
            if (fore.distribution.is_even() || aft.distribution.is_even()) && (main.mount_num == 3
                || main.mount_num == 4) {
                raised
            } else {
                Num::one()
            },
        );
        spread.times(
            if (fore.spec_num_mounts() > 0 && aft.spec_num_mounts() == 0 && fore.super_long) || (
            aft.spec_num_mounts() > 0 && fore.spec_num_mounts() == 0 && aft.super_long) || (
            fore.spec_num_mounts() > 0 && aft.spec_num_mounts() > 0 && fore.position.minus(
                aft.position,
            ).abs().lt(Num::Micro(200_000))) {
                Num::Micro(800_000).times(raised)
            } else {
                Num::Micro(2_000_000).times(raised).minus(Num::one())
            },
        )
    }

    /// How the main battery weighs on the ends of the hull. The room in the
    /// hull is raised by the super factor where one of the two groups is
    /// spread evenly and the battery has three or four mounts. Where only one
    /// group has mounts and its placement weighs on the ends, or where both
    /// have mounts and stand within a fifth of the hull's length of each
    /// other, that is taken times 0.8 of the super factor, else times twice
    /// the super factor less one.
    #[verifier::when_used_as_spec(spec_super_factor_long)]
    pub fn super_factor_long(&self) -> (r: Num)
        requires
            self.batteries.len() > 0,
        ensures
            r == self.spec_super_factor_long(),
    {
        proof {
            reveal(Ship::spec_super_factor_long);
        }
        let main = &self.batteries[0];
        let fore = &main.groups[0];
        let aft = &main.groups[1];
        let raised = self.gun_super_factor();
        let spread = self.hull_room().times(
            if (fore.distribution.is_even() || aft.distribution.is_even()) && (main.mount_num == 3
                || main.mount_num == 4) {
                raised
            } else {
                Num::Micro(1_000_000)
            },
        );
        spread.times(
            if (fore.num_mounts() > 0 && aft.num_mounts() == 0 && fore.super_long) || (
            aft.num_mounts() > 0 && fore.num_mounts() == 0 && aft.super_long) || (
            fore.num_mounts() > 0 && aft.num_mounts() > 0 && fore.position.minus(
                aft.position,
            ).abs().lt(Num::Micro(200_000))) {
                Num::Micro(800_000).times(raised)
            } else {
                Num::Micro(2_000_000).times(raised).minus(Num::Micro(1_000_000))
            },
        )
    }
}

} // verus!
