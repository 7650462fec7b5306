//! Crew, room and cost.

use vstd::prelude::*;
use crate::hull::FT3_PER_TON_SEA;
use crate::num::{floor_sqrt, isqrt, lemma_floor_sqrt_unique, Num};
use crate::ship::Ship;

verus! {

impl Ship {
    /// Whether `crew` is the whole part of 0.65 times the displacement of
    /// `d` millionths of a ton to the power of three quarters: its fourth
    /// power, over that of 0.65, is not above the cube of the displacement,
    /// and that of the next whole number is.
    pub open spec fn spec_is_crew_max(crew: int, d: int) -> bool {
        let one = 1_000_000_000_000_000_000int;
        &&& 0 <= crew
        &&& (20 * crew) * (20 * crew) * (20 * crew) * (20 * crew) * one <= 28_561 * (d * d * d)
        &&& 28_561 * (d * d * d) < (20 * (crew + 1)) * (20 * (crew + 1)) * (20 * (crew + 1)) * (
        20 * (crew + 1)) * one
    }

    #[verifier::opaque]
    pub open spec fn spec_crew_max(&self) -> u32 {
        let d = self.hull.d;
        if d.defined() && 0 <= d.micro() {
            floor_sqrt(
                floor_sqrt(
                    28_561 * (d.micro() * d.micro() * d.micro())
                        / 160_000_000_000_000_000_000_000,
                ),
            ) as u32
        } else {
            0
        }
    }

    /// The largest crew: the whole part of 0.65 times the displacement to
    /// the power of three quarters, exactly, whatever the displacement. None
    /// for a displacement below zero or undefined.
    #[verifier::when_used_as_spec(spec_crew_max)]
    pub fn crew_max(&self) -> (r: u32)
        ensures
            r == self.spec_crew_max(),
            self.hull.d.defined() && 0 <= self.hull.d.micro() ==> Self::spec_is_crew_max(
                r as int,
                self.hull.d.micro(),
            ),
            !self.hull.d.defined() || self.hull.d.micro() < 0 ==> r == 0,
    {
        proof {
            reveal(Ship::spec_crew_max);
        }
        match self.hull.d {
            Num::Micro(m) => {
                if 0 <= m {
                    let z: u128 = Self::crew_power(m as u64);
                    let y: u128 = isqrt(z);
                    let n: u128 = isqrt(y);
                    proof {
                        lemma_floor_sqrt_unique(y as int, z as int);
                        lemma_floor_sqrt_unique(n as int, y as int);
                        let p = 28_561 * (m * m * m);
                        let k = 160_000_000_000_000_000_000_000int;
                        assert(z * k <= p < (z + 1) * k) by (nonlinear_arith)
                            requires
                                z == p / k,
                                k == 160_000_000_000_000_000_000_000,
                                p >= 0,
                        ;
                        let n4 = n * n * n * n;
                        let m4 = (n + 1) * (n + 1) * (n + 1) * (n + 1);
                        assert(y < 0x1_0000_0000_0000_0000) by (nonlinear_arith)
                            requires
                                0 <= y,
                                y * y <= z,
                                z < 0x1_0000_0000_0000_0000_0000_0000_0000_0000,
                        ;
                        assert(n < 0x1_0000_0000) by (nonlinear_arith)
                            requires
                                0 <= n,
                                n * n <= y,
                                y < 0x1_0000_0000_0000_0000,
                        ;
                        assert(n * n * (n * n) <= y * y) by (nonlinear_arith)
                            requires
                                0 <= n * n <= y,
                        ;
                        assert((y + 1) * (y + 1) <= (n + 1) * (n + 1) * ((n + 1) * (n + 1)))
                            by (nonlinear_arith)
                            requires
                                0 <= y + 1 <= (n + 1) * (n + 1),
                        ;
                        assert(n4 == n * n * (n * n) && m4 == (n + 1) * (n + 1) * ((n + 1) * (n
                            + 1))) by (nonlinear_arith)
                            requires
                                n4 == n * n * n * n,
                                m4 == (n + 1) * (n + 1) * (n + 1) * (n + 1),
                        ;
                        assert(n4 * k <= p < m4 * k) by (nonlinear_arith)
                            requires
                                n4 <= z,
                                z + 1 <= m4,
                                z * k <= p < (z + 1) * k,
                                k > 0,
                        ;
                        assert((20 * n) * (20 * n) * (20 * n) * (20 * n)
                            * 1_000_000_000_000_000_000 == n4 * k && (20 * (n + 1)) * (20 * (n
                            + 1)) * (20 * (n + 1)) * (20 * (n + 1)) * 1_000_000_000_000_000_000
                            == m4 * k) by (nonlinear_arith)
                            requires
                                n4 == n * n * n * n,
                                m4 == (n + 1) * (n + 1) * (n + 1) * (n + 1),
                                k == 160_000_000_000_000_000_000_000,
                        ;
                    }
                    n as u32
                } else {
                    0
                }
            },
            Num::Undefined => 0,
        }
    }

    /// The fourth power of the largest crew before its whole part is taken:
    /// 0.65 to the fourth, times the cube of a displacement of `d`
    /// millionths of a ton, in whole numbers. The cube does not fit a
    /// machine word, so the quotient is taken in steps: the square of the
    /// displacement is parted by the divisor, and the displacement into
    /// its upper and lower nine digits.
    pub fn crew_power(d: u64) -> (z: u128)
        requires
            d <= i64::MAX,
        ensures
            z == 28_561 * (d * d * d) / 160_000_000_000_000_000_000_000,
    {
        let a: u128 = d as u128;
        assert(a * a <= 85_070_591_730_234_615_847_396_907_784_232_501_249) by (nonlinear_arith)
            requires
                a <= 9_223_372_036_854_775_807,
        ;
        let square: u128 = a * a;
        let whole: u128 = square / 160_000_000_000_000_000_000_000;
        let rest: u128 = square % 160_000_000_000_000_000_000_000;
        let upper: u128 = a / 1_000_000_000;
        let lower: u128 = a % 1_000_000_000;
        assert(whole <= 531_691_198_313_967);
        assert(whole * a <= 5_000_000_000_000_000_000_000_000_000_000_000) by (nonlinear_arith)
            requires
                whole <= 531_691_198_313_967,
                a <= 9_223_372_036_854_775_807,
        ;
        assert(rest * upper <= 1_475_739_525_920_000_000_000_000_000_000_000 && rest * lower
            <= 160_000_000_000_000_000_000_000_000_000_000) by (nonlinear_arith)
            requires
                rest < 160_000_000_000_000_000_000_000,
                upper <= 9_223_372_037,
                lower < 1_000_000_000,
        ;
        let first: u128 = 28_561 * (whole * a);
        let high: u128 = 28_561 * (rest * upper);
        let low: u128 = 28_561 * (rest * lower);
        let z: u128 = first + (high + low / 1_000_000_000) / 160_000_000_000_000;
        proof {
            let k = 160_000_000_000_000_000_000_000int;
            let p = 28_561 * (d * d * d);
            let carried = low / 1_000_000_000;
            let part = (high + carried) / 160_000_000_000_000;
            let tail = high * 1_000_000_000 + low;
            assert(p == first * k + tail) by (nonlinear_arith)
                requires
                    p == 28_561 * (d * d * d),
                    d * d == whole * k + rest,
                    d == upper * 1_000_000_000 + lower,
                    first == 28_561 * (whole * d),
                    high == 28_561 * (rest * upper),
                    low == 28_561 * (rest * lower),
                    tail == high * 1_000_000_000 + low,
            ;
            assert(part * k <= tail < (part + 1) * k) by (nonlinear_arith)
                requires
                    carried == low / 1_000_000_000,
                    part == (high + carried) / 160_000_000_000_000,
                    tail == high * 1_000_000_000 + low,
                    0 <= low,
                    0 <= high,
                    k == 160_000_000_000_000_000_000_000,
            ;
            assert(z * k <= p < (z + 1) * k) by (nonlinear_arith)
                requires
                    z == first + part,
                    p == first * k + tail,
                    part * k <= tail < (part + 1) * k,
            ;
            vstd::arithmetic::div_mod::lemma_fundamental_div_mod_converse(
                p,
                k,
                z as int,
                p - z * k,
            );
        }
        z
    }

    pub open spec fn spec_crew_min(&self) -> u32 {
        (self.crew_max() * 7692 / 10000) as u32
    }

    /// The smallest crew: 0.7692 times the largest, in whole persons.
    #[verifier::when_used_as_spec(spec_crew_min)]
    pub fn crew_min(&self) -> (r: u32)
        ensures
            r == self.spec_crew_min(),
            r == self.spec_crew_max() * 7692 / 10000,
            r <= self.spec_crew_max(),
    {
        let most: u64 = self.crew_max() as u64;
        (most * 7692 / 10000) as u32
    }

    #[verifier::opaque]
    pub open spec fn spec_room(&self) -> Num {
        self.wgt_mag().plus(self.hull.d.times(Num::Micro(20_000))).plus(
            self.wgt_borne().times(Num::Micro(6_400_000)),
        ).plus(self.wgt_engine().times(Num::Micro(3_000_000))).plus(
            Num::spec_whole(self.wgts.vital as int),
        ).plus(Num::spec_whole(self.wgts.hull as int)).over(
            self.hull.d.times(Num::Micro(940_000)),
        ).over(Num::one().minus(self.hull_space()))
    }

    /// The weights that need room below the water (magazines, stores, 6.4
    /// times the weight borne, three times the machinery, the miscellaneous
    /// weights in the hull) over 94 hundredths of the displacement, and that
    /// over the part of the hull that torpedoes leave free.
    #[verifier::when_used_as_spec(spec_room)]
    pub fn room(&self) -> (r: Num)
        ensures
            r == self.spec_room(),
    {
        proof {
            reveal(Ship::spec_room);
        }
        self.wgt_mag().plus(self.hull.d.times(Num::Micro(20_000))).plus(
            self.wgt_borne().times(Num::Micro(6_400_000)),
        ).plus(self.wgt_engine().times(Num::Micro(3_000_000))).plus(
            Num::from_u32(self.wgts.vital),
        ).plus(Num::from_u32(self.wgts.hull)).over(
            self.hull.d.times(Num::Micro(940_000)),
        ).over(Num::Micro(1_000_000).minus(self.hull_space()))
    }

    #[verifier::opaque]
    pub open spec fn spec_hull_room(&self) -> Num {
        self.room().times(
            if self.armor.bulkhead.wgt.gt(Num::Micro(100_000)) {
                self.hull.b.over(self.armor.bh_beam)
            } else {
                Num::one()
            },
        )
    }

    /// Room that the vitals need below the water, against the room there is.
    /// Torpedo bulkheads of more than a tenth of a ton narrow the hull to
    /// the beam between them.
    #[verifier::when_used_as_spec(spec_hull_room)]
    pub fn hull_room(&self) -> (r: Num)
        ensures
            r == self.spec_hull_room(),
    {
        proof {
            reveal(Ship::spec_hull_room);
        }
        self.room().times(
            if self.armor.bulkhead.wgt.gt(Num::Micro(100_000)) {
                self.hull.b.over(self.armor.bh_beam)
            } else {
                Num::Micro(1_000_000)
            },
        )
    }

    #[verifier::opaque]
    pub open spec fn spec_deck_room(&self) -> Num {
        self.hull.wp.over(Num::Micro(FT3_PER_TON_SEA)).over(Num::Micro(15_000_000)).times(
            Num::one().minus(self.deck_space()),
        ).times(self.hull.freeboard_dist).over(Num::spec_whole(self.crew_min() as int))
    }

    /// Room above the water for each of the smallest crew: the waterplane
    /// that torpedoes leave free, by the freeboard, over 15 times 35 cubic
    /// feet a head.
    #[verifier::when_used_as_spec(spec_deck_room)]
    pub fn deck_room(&self) -> (r: Num)
        ensures
            r == self.spec_deck_room(),
    {
        proof {
            reveal(Ship::spec_deck_room);
        }
        self.hull.wp.over(Num::Micro(FT3_PER_TON_SEA)).over(Num::Micro(15_000_000)).times(
            Num::Micro(1_000_000).minus(self.deck_space()),
        ).times(self.hull.freeboard_dist).over(Num::from_u32(self.crew_min()))
    }

    /// What a figure of room on deck is called.
    pub open spec fn spec_deck_quality(sp: Num) -> Seq<char> {
        if sp.gt(Num::Micro(1_200_000)) {
            "Excellent"@
        } else if sp.gt(Num::Micro(900_000)) {
            "Adequate"@
        } else if sp.ge(Num::Micro(500_000)) {
            "Cramped"@
        } else {
            "Poor"@
        }
    }

    /// What a figure of room in the hull is called.
    pub open spec fn spec_hull_quality(sp: Num) -> Seq<char> {
        if sp.spec_below(5, 6) {
            "Excellent"@
        } else if sp.spec_below(11_111_112, 10_000_000) {
            "Adequate"@
        } else if sp.le(Num::Micro(2_000_000)) {
            "Cramped"@
        } else {
            "Extremely poor"@
        }
    }

    /// The room on deck in a word: `Excellent` above 1.2, `Adequate` above
    /// 0.9, `Cramped` from 0.5 on, else `Poor`.
    pub fn deck_room_quality(&self) -> (r: String)
        ensures
            r@ == Self::spec_deck_quality(self.deck_room()),
    {
        let sp = self.deck_room();
        if sp.gt(Num::Micro(1_200_000)) {
            "Excellent".to_owned()
        } else if sp.gt(Num::Micro(900_000)) {
            "Adequate".to_owned()
        } else if sp.ge(Num::Micro(500_000)) {
            "Cramped".to_owned()
        } else {
            "Poor".to_owned()
        }
    }

    /// The room in the hull in a word: `Excellent` below five sixths,
    /// `Adequate` below 1.1111112, `Cramped` up to 2, else `Extremely poor`.
    pub fn hull_room_quality(&self) -> (r: String)
        ensures
            r@ == Self::spec_hull_quality(self.hull_room()),
    {
        let sp = self.hull_room();
        if sp.below(5, 6) {
            "Excellent".to_owned()
        } else if sp.below(11_111_112, 10_000_000) {
            "Adequate".to_owned()
        } else if sp.le(Num::Micro(2_000_000)) {
            "Cramped".to_owned()
        } else {
            "Extremely poor".to_owned()
        }
    }

    pub open spec fn spec_vitalspace(&self) -> Num {
        Num::one().minus(Num::Micro(650_000).times(self.hull_room())).times(
            Num::Micro(50_000_000),
        ).minus(Num::Micro(10_000))
    }

    /// Length of forecastle and quarterdeck, in hundredths of the waterline
    /// length, that goes with the room of engines and magazines:
    /// `(1 - 0.65 * hull_room) * 50 - 0.01`.
    #[verifier::when_used_as_spec(spec_vitalspace)]
    pub fn vitalspace(&self) -> (r: Num)
        ensures
            r == self.spec_vitalspace(),
    {
        Num::Micro(1_000_000).minus(Num::Micro(650_000).times(self.hull_room())).times(
            Num::Micro(50_000_000),
        ).minus(Num::Micro(10_000))
    }

    pub open spec fn spec_vitalspace_length(&self) -> Num {
        self.hull.lwl.times(Num::Micro(650_000)).times(self.hull_room()).plus(Num::Micro(10_000))
    }

    /// Shortest belt, in feet, that covers engines and magazines:
    /// `lwl * 0.65 * hull_room + 0.01`.
    #[verifier::when_used_as_spec(spec_vitalspace_length)]
    pub fn vitalspace_length(&self) -> (r: Num)
        ensures
            r == self.spec_vitalspace_length(),
    {
        self.hull.lwl.times(Num::Micro(650_000)).times(self.hull_room()).plus(Num::Micro(10_000))
    }

    /// The factor by which prices rose after 1914: one for a ship laid down
    /// by 1912, then `1 + (year + 1.5 - 1914) / 5.5`.
    pub open spec fn spec_escalation(year: u32) -> Num {
        if year + 2 > 1914 {
            Num::one().plus(
                Num::spec_whole(year as int).plus(Num::Micro(1_500_000)).minus(
                    Num::Micro(1_914_000_000),
                ).over(Num::Micro(5_500_000)),
            )
        } else {
            Num::one()
        }
    }

    /// The factor by which prices rose after 1914: one for a ship laid down
    /// by 1912, then `1 + (year + 1.5 - 1914) / 5.5`.
    pub fn escalation(year: u32) -> (r: Num)
        ensures
            r == Self::spec_escalation(year),
    {
        if year > 1912 {
            Num::Micro(1_000_000).plus(
                Num::from_u32(year).plus(Num::Micro(1_500_000)).minus(
                    Num::Micro(1_914_000_000),
                ).over(Num::Micro(5_500_000)),
            )
        } else {
            Num::Micro(1_000_000)
        }
    }

    #[verifier::opaque]
    pub open spec fn spec_cost_dollar(&self) -> Num {
        self.hull.d.minus(self.wgt_load()).times(Num::Micro(140)).plus(
            self.wgt_engine().times(Num::Micro(560)),
        ).plus(self.wgt_borne().times(Num::Micro(8_000_000)).times(Num::Micro(420))).times(
            Self::spec_escalation(self.year),
        )
    }

    /// Cost in millions of dollars: 0.00014 a ton of light ship, 0.00056 a
    /// ton of machinery and 0.00042 a ton of eight times the weight borne,
    /// times the escalation of the year.
    #[verifier::when_used_as_spec(spec_cost_dollar)]
    pub fn cost_dollar(&self) -> (r: Num)
        ensures
            r == self.spec_cost_dollar(),
    {
        proof {
            reveal(Ship::spec_cost_dollar);
        }
        self.hull.d.minus(self.wgt_load()).times(Num::Micro(140)).plus(
            self.wgt_engine().times(Num::Micro(560)),
        ).plus(self.wgt_borne().times(Num::Micro(8_000_000)).times(Num::Micro(420))).times(
            Self::escalation(self.year),
        )
    }

    pub open spec fn spec_cost_lb(&self) -> Num {
        self.cost_dollar().over(Num::Micro(4_000_000))
    }

    /// Cost in millions of pounds sterling: a quarter of that in dollars.
    #[verifier::when_used_as_spec(spec_cost_lb)]
    pub fn cost_lb(&self) -> (r: Num)
        ensures
            r == self.spec_cost_lb(),
    {
        self.cost_dollar().over(Num::Micro(4_000_000))
    }
}

} // verus!
