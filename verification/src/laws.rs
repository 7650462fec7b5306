//! What holds of the figures whatever the ship.

use vstd::prelude::*;
use crate::num::{
    cut, floor_root5, floor_sqrt, is_floor_root5, is_floor_sqrt, lemma_fifth_power_grows,
    lemma_floor_root5_is, lemma_floor_sqrt_is, lemma_over_monotonic, lemma_over_self,
    lemma_root5_one, lemma_sqrt_one, lemma_times_one, Num, SCALE,
};
use crate::sea::SeaType;
use crate::ship::Ship;
use crate::text::{spec_contains, spec_decimal, spec_join, spec_stands_at, views};
use crate::warnings::DesignFailure;
use crate::wording::{
    lemma_joined_clear, lemma_pushed_clear, lemma_start_clear, lemma_start_stays, spec_armor_line,
    spec_other_start,
};
use crate::weapons::{spec_torpedo_total, Torpedoes, TorpedoSum};

verus! {

/// Torpedo mounts are on deck or in the hull, never both. Mounts on deck take
/// their room from the deck and none from the hull; mounts in the hull take
/// theirs from the hull and none from the deck.
pub proof fn law_mounts_take_deck_or_hull(t: Torpedoes)
    ensures
        t.mount_kind.deck_mounted() != t.mount_kind.hull_mounted(),
        t.mount_kind.deck_mounted() ==> t.deck_space() == t.space && t.hull_space() == Num::zero(),
        t.mount_kind.hull_mounted() ==> t.hull_space() == t.space && t.deck_space() == Num::zero(),
{
}

/// Whether every set of mounts in `torps` takes room that is a number and
/// not negative.
pub open spec fn rooms_valid(torps: Seq<Torpedoes>) -> bool {
    forall|i: int| 0 <= i < torps.len() ==> Num::zero().le((#[trigger] torps[i]).space)
}

/// Whether every set of mounts in `torps` is on deck.
pub open spec fn all_on_deck(torps: Seq<Torpedoes>) -> bool {
    forall|i: int| 0 <= i < torps.len() ==> (#[trigger] torps[i]).mount_kind.deck_mounted()
}

/// Whether every set of mounts in `torps` is in the hull.
pub open spec fn all_in_hull(torps: Seq<Torpedoes>) -> bool {
    forall|i: int| 0 <= i < torps.len() ==> (#[trigger] torps[i]).mount_kind.hull_mounted()
}

/// The room that torpedo mounts take, summed, is not negative where it is a
/// number.
pub proof fn law_total_room_not_negative(torps: Seq<Torpedoes>, sum: TorpedoSum)
    requires
        rooms_valid(torps),
        sum != TorpedoSum::Weight,
    ensures
        spec_torpedo_total(torps, sum).defined() ==> Num::zero().le(spec_torpedo_total(torps, sum)),
    decreases torps.len(),
{
    if torps.len() > 0 {
        law_total_room_not_negative(torps.drop_last(), sum);
    }
}

/// Mounts on deck add nothing to the room taken in the hull, and mounts in
/// the hull add nothing to the room taken on deck.
pub proof fn law_total_room_of_other_kind(torps: Seq<Torpedoes>)
    ensures
        all_on_deck(torps) ==> spec_torpedo_total(torps, TorpedoSum::HullSpace) == Num::zero(),
        all_in_hull(torps) ==> spec_torpedo_total(torps, TorpedoSum::DeckSpace) == Num::zero(),
    decreases torps.len(),
{
    if torps.len() > 0 {
        law_total_room_of_other_kind(torps.drop_last());
    }
}

/// Of a ship with a waterplane above zero, whose torpedo mounts take room
/// that is not negative, the deck space is not below zero. A ship whose
/// mounts are all in the hull has no deck space taken.
pub proof fn law_deck_space_not_negative(ship: Ship)
    requires
        rooms_valid(ship.torps@),
        Num::zero().lt(ship.hull.wp),
    ensures
        !ship.deck_space().lt(Num::zero()),
        ship.deck_space().defined() ==> Num::zero().le(ship.deck_space()),
        all_in_hull(ship.torps@) ==> ship.deck_space() == Num::zero(),
{
    law_total_room_not_negative(ship.torps@, TorpedoSum::DeckSpace);
    law_total_room_of_other_kind(ship.torps@);
    let on_deck = spec_torpedo_total(ship.torps@, TorpedoSum::DeckSpace);
    if ship.deck_space().defined() {
        lemma_over_monotonic(Num::zero(), on_deck, ship.hull.wp);
    }
}

/// Of a ship with a displacement above zero, whose torpedo mounts take room
/// that is not negative, the hull space is not below zero. A ship whose
/// mounts are all on deck has no hull space taken, whatever she displaces.
pub proof fn law_hull_space_not_negative(ship: Ship)
    requires
        rooms_valid(ship.torps@),
        Num::zero().lt(ship.hull.d),
    ensures
        !ship.hull_space().lt(Num::zero()),
        ship.hull_space().defined() ==> Num::zero().le(ship.hull_space()),
        all_on_deck(ship.torps@) ==> ship.hull_space() == Num::zero(),
{
    law_total_room_not_negative(ship.torps@, TorpedoSum::HullSpace);
    law_total_room_of_other_kind(ship.torps@);
    let in_hull = spec_torpedo_total(ship.torps@, TorpedoSum::HullSpace);
    if in_hull.defined() {
        let volume = ship.hull.d.micro() * crate::hull::FT3_PER_TON_SEA;
        assert(volume > 0) by (nonlinear_arith)
            requires
                volume == ship.hull.d.micro() * 35_000_000,
                ship.hull.d.micro() > 0,
        ;
        vstd::arithmetic::div_mod::lemma_div_is_ordered(0, in_hull.micro() * (SCALE * SCALE), volume);
        assert(0 <= in_hull.micro() * (SCALE * SCALE)) by (nonlinear_arith)
            requires
                0 <= in_hull.micro(),
                SCALE == 1_000_000,
        ;
        if in_hull == Num::zero() {
            assert(in_hull.micro() * (SCALE * SCALE) == 0) by (nonlinear_arith)
                requires
                    in_hull.micro() == 0,
            ;
            assert(0int / volume == 0) by (nonlinear_arith)
                requires
                    volume > 0,
            ;
        }
    }
}

/// The displacements stand in order: where the ship displaces nothing less
/// than nothing, fuel and magazines weigh nothing less than nothing, and
/// the four displacements are numbers, the light one is not above the
/// standard one, that not above the normal one, and that not above the
/// maximum.
pub proof fn law_displacements_in_order(ship: Ship)
    requires
        Num::zero().le(ship.hull.d),
        Num::zero().le(ship.engine.bunker),
        Num::zero().le(ship.engine.bunker_max),
        Num::zero().le(ship.wgt_mag()),
        ship.d_lite().defined(),
        ship.d_max().defined(),
    ensures
        ship.d_lite().le(ship.d_std()),
        ship.d_std().le(ship.hull.d),
        ship.hull.d.le(ship.d_max()),
{
    let (d, f) = (ship.hull.d.micro(), ship.engine.bunker_max.micro());
    assert(d * 20_000 >= 0 && 800_000 * f >= 0) by (nonlinear_arith)
        requires
            d >= 0,
            f >= 0,
    ;
}

/// Once armor weighs too much for a displacement, more armor on the same
/// displacement still does.
pub proof fn law_armor_failure_stays(lighter: Num, heavier: Num, d: Num)
    requires
        lighter.le(heavier),
        Ship::spec_armor_exceeds(lighter, d),
    ensures
        Ship::spec_armor_exceeds(heavier, d),
{
}

/// Where the strength across the section and the strength along the length
/// are the same number, and not zero, the composite strength is that number.
pub proof fn law_blend_of_equals(strength: Num)
    requires
        strength.defined(),
        strength != Num::zero(),
    ensures
        Ship::spec_blend(strength, strength) == strength,
{
    lemma_over_self(strength);
    lemma_sqrt_one();
    lemma_root5_one();
    lemma_times_one(strength);
}

/// The square root of a number from one on is from one on and not above
/// the number.
proof fn lemma_sqrt_of_one_or_more(q: int, r: int)
    requires
        q >= SCALE,
        is_floor_sqrt(r, q * SCALE),
    ensures
        SCALE <= r <= q,
        q > SCALE ==> r < q,
{
    assert(SCALE <= r <= q && (q > SCALE ==> r < q)) by (nonlinear_arith)
        requires
            q >= SCALE,
            SCALE == 1_000_000,
            0 <= r,
            r * r <= q * SCALE < (r + 1) * (r + 1),
    ;
}

/// The fifth root of a number from one on is from one on and not above the
/// number.
proof fn lemma_root5_of_one_or_more(q: int, r: int)
    requires
        q >= SCALE,
        is_floor_root5(r, q * SCALE * SCALE * SCALE * SCALE),
    ensures
        SCALE <= r <= q,
{
    let n = q * SCALE * SCALE * SCALE * SCALE;
    let s: int = 1_000_000;
    assert(s * s * s * s * s <= n) by (nonlinear_arith)
        requires
            q >= s,
            s == 1_000_000,
            n == q * s * s * s * s,
    ;
    if r < s {
        lemma_fifth_power_grows(r + 1, s);
    }
    assert(q * q * q * q * q >= n) by (nonlinear_arith)
        requires
            q >= s,
            s == 1_000_000,
            n == q * s * s * s * s,
    ;
    if r > q {
        lemma_fifth_power_grows(q + 1, r);
        assert((q + 1) * (q + 1) * (q + 1) * (q + 1) * (q + 1) > q * q * q * q * q)
            by (nonlinear_arith)
            requires
                q >= 0,
        ;
    }
}

/// The composite strength lies between the two strengths: where both are
/// above zero and it is a number, it is not below the smaller and not above
/// the larger.
pub proof fn law_blend_between(cross: Num, long: Num)
    requires
        Num::zero().lt(cross),
        Num::zero().lt(long),
        Ship::spec_blend(cross, long).defined(),
    ensures
        cross.min(long).le(Ship::spec_blend(cross, long)),
        Ship::spec_blend(cross, long).le(cross.max(long)),
{
    let (small, large) = if cross.gt(long) {
        (long, cross)
    } else {
        (cross, long)
    };
    let (l, c) = (small.micro(), large.micro());
    let q = large.over(small).micro();
    assert(q >= SCALE && q * l <= c * SCALE) by (nonlinear_arith)
        requires
            0 < l <= c,
            SCALE == 1_000_000,
            q == (c * SCALE) / l,
    ;
    lemma_floor_sqrt_is(q * SCALE);
    let r1 = floor_sqrt(q * SCALE);
    lemma_sqrt_of_one_or_more(q, r1);
    let r2 = if cross.gt(long) {
        lemma_floor_sqrt_is(r1 * SCALE);
        let r = floor_sqrt(r1 * SCALE);
        lemma_sqrt_of_one_or_more(r1, r);
        r
    } else {
        lemma_floor_root5_is(r1 * SCALE * SCALE * SCALE * SCALE);
        let r = floor_root5(r1 * SCALE * SCALE * SCALE * SCALE);
        lemma_root5_of_one_or_more(r1, r);
        r
    };
    assert(l * SCALE <= l * r2 <= c * SCALE) by (nonlinear_arith)
        requires
            0 < l,
            SCALE <= r2 <= q,
            q * l <= c * SCALE,
    ;
}

/// Where the two strengths are apart, the composite strength lies strictly
/// between them: the larger is at least a hundredth above the smaller, the
/// smaller is two thousandths or more, and the composite strength is a
/// number.
pub proof fn law_blend_strictly_between(cross: Num, long: Num)
    requires
        Num::Micro(2_000).le(cross),
        Num::Micro(2_000).le(long),
        cross.max(long).micro() * 100 >= cross.min(long).micro() * 101,
        Ship::spec_blend(cross, long).defined(),
    ensures
        cross.min(long).lt(Ship::spec_blend(cross, long)),
        Ship::spec_blend(cross, long).lt(cross.max(long)),
{
    let (small, large) = if cross.gt(long) {
        (long, cross)
    } else {
        (cross, long)
    };
    let (l, c) = (small.micro(), large.micro());
    let q = large.over(small).micro();
    assert(q >= 1_010_000 && q * l <= c * SCALE) by (nonlinear_arith)
        requires
            0 < l,
            c * 100 >= l * 101,
            SCALE == 1_000_000,
            q == (c * SCALE) / l,
    ;
    lemma_floor_sqrt_is(q * SCALE);
    let r1 = floor_sqrt(q * SCALE);
    lemma_sqrt_of_one_or_more(q, r1);
    assert(r1 >= 1_004_987) by (nonlinear_arith)
        requires
            q >= 1_010_000,
            SCALE == 1_000_000,
            0 <= r1,
            q * SCALE < (r1 + 1) * (r1 + 1),
    ;
    if cross.gt(long) {
        lemma_floor_sqrt_is(r1 * SCALE);
        let r2 = floor_sqrt(r1 * SCALE);
        lemma_sqrt_of_one_or_more(r1, r2);
        assert(r2 >= 1_002_490) by (nonlinear_arith)
            requires
                r1 >= 1_004_987,
                SCALE == 1_000_000,
                0 <= r2,
                r1 * SCALE < (r2 + 1) * (r2 + 1),
        ;
        assert(l * r2 >= (l + 2) * SCALE && l * r2 < c * SCALE) by (nonlinear_arith)
            requires
                l >= 2_000,
                1_002_490 <= r2 < q,
                q * l <= c * SCALE,
                SCALE == 1_000_000,
        ;
    } else {
        let n = r1 * SCALE * SCALE * SCALE * SCALE;
        lemma_floor_root5_is(n);
        let r2 = floor_root5(n);
        lemma_root5_of_one_or_more(r1, r2);
        let low: int = 1_000_900;
        assert(low * low * low * low * low <= n) by (nonlinear_arith)
            requires
                low == 1_000_900,
                r1 >= 1_004_987,
                SCALE == 1_000_000,
                n == r1 * SCALE * SCALE * SCALE * SCALE,
        ;
        if r2 + 1 <= low {
            lemma_fifth_power_grows(r2 + 1, low);
        }
        assert(l * r2 >= (l + 1) * SCALE && l * r2 < c * SCALE) by (nonlinear_arith)
            requires
                l >= 2_000,
                1_000_900 <= r2 < q,
                q * l <= c * SCALE,
                SCALE == 1_000_000,
        ;
    }
}

/// The flotation is never below zero.
pub proof fn law_flotation_not_negative(
    base: Num,
    stability_adj: Num,
    str_comp: Num,
    room: Num,
    year: u32,
)
    ensures
        Num::zero().le(Ship::spec_flotation_from(base, stability_adj, str_comp, room, year)),
{
}

/// The product of a number that is not negative with the square of a part
/// of one, cut once: it grows with the part and is never more than the
/// number.
proof fn lemma_cut_square_grows(a: int, s1: int, s2: int)
    requires
        0 <= a,
        0 <= s1 <= s2 <= SCALE,
    ensures
        0 <= cut(a * (s1 * s1), SCALE * SCALE) <= cut(a * (s2 * s2), SCALE * SCALE) <= a,
{
    let d = SCALE * SCALE;
    let (sq1, sq2) = (s1 * s1, s2 * s2);
    assert(0 <= sq1 <= sq2 <= d) by (nonlinear_arith)
        requires
            0 <= s1 <= s2 <= SCALE,
            sq1 == s1 * s1,
            sq2 == s2 * s2,
            d == SCALE * SCALE,
    ;
    assert(0 <= a * sq1 <= a * sq2 <= a * d) by (nonlinear_arith)
        requires
            0 <= a,
            0 <= sq1 <= sq2 <= d,
    ;
    assert(0 <= (a * sq1) / d <= (a * sq2) / d <= a) by (nonlinear_arith)
        requires
            0 <= a * sq1 <= a * sq2 <= a * d,
            d == 1_000_000_000_000,
    ;
}

/// The product of a negative number with the square of a part of one, cut
/// once, is not positive and not below the number.
proof fn lemma_cut_square_of_negative(a: int, s: int)
    requires
        a < 0,
        0 <= s <= SCALE,
    ensures
        a <= cut(a * (s * s), SCALE * SCALE) <= 0,
{
    lemma_cut_square_grows(-a, s, s);
    assert(-(a * (s * s)) == (-a) * (s * s)) by (nonlinear_arith);
    assert(a * (s * s) <= 0) by (nonlinear_arith)
        requires
            a < 0,
            0 <= s,
    ;
}

/// From a stability of zero to one, the flotation of a ship whose flotation
/// at a stability of one is not negative is the exact product of that
/// flotation with the fourth power of the stability, less what was cut:
/// never more than the product, and less than two millionths below it.
pub proof fn law_flotation_near_fourth_power(
    base: Num,
    stability_adj: Num,
    str_comp: Num,
    room: Num,
    year: u32,
)
    requires
        Num::zero().le(stability_adj),
        stability_adj.le(Num::one()),
        Num::zero().le(Ship::spec_flotation_stable(base, str_comp, room, year)),
    ensures
        Ship::spec_flotation_from(base, stability_adj, str_comp, room, year).defined(),
        ({
            let exact = Ship::spec_flotation_stable(base, str_comp, room, year).micro() * (
            stability_adj.micro() * stability_adj.micro()) * (stability_adj.micro()
                * stability_adj.micro());
            let got = Ship::spec_flotation_from(base, stability_adj, str_comp, room, year).micro();
            let unit = SCALE * SCALE * (SCALE * SCALE);
            got * unit <= exact < (got + 2) * unit
        }),
{
    let a = Ship::spec_flotation_stable(base, str_comp, room, year).micro();
    let s = stability_adj.micro();
    let d = SCALE * SCALE;
    let p = s * s;
    lemma_cut_square_grows(a, s, s);
    let b = cut(a * p, d);
    lemma_cut_square_grows(b, s, s);
    let r = cut(b * p, d);
    assert(0 <= p <= d) by (nonlinear_arith)
        requires
            0 <= s <= SCALE,
            p == s * s,
            d == SCALE * SCALE,
    ;
    assert(0 <= a * p && 0 <= b * p) by (nonlinear_arith)
        requires
            0 <= a,
            0 <= b,
            0 <= p,
    ;
    assert(b * d <= a * p < b * d + d) by (nonlinear_arith)
        requires
            b == (a * p) / d,
            0 <= a * p,
            d == 1_000_000_000_000,
    ;
    assert(r * d <= b * p < r * d + d) by (nonlinear_arith)
        requires
            r == (b * p) / d,
            0 <= b * p,
            d == 1_000_000_000_000,
    ;
    assert(r * (d * d) <= (a * p) * p) by (nonlinear_arith)
        requires
            r * d <= b * p,
            b * d <= a * p,
            0 <= p,
            0 <= d,
    ;
    assert((a * p) * p < (r + 2) * (d * d)) by (nonlinear_arith)
        requires
            a * p < b * d + d,
            b * p < r * d + d,
            0 <= p <= d,
            0 < d,
    ;
}

/// Below a stability of one, a ship of less stability has no more flotation
/// than one of more stability whose other figures are the same, whatever
/// those are.
pub proof fn law_flotation_falls_with_stability(
    base: Num,
    less: Num,
    more: Num,
    str_comp: Num,
    room: Num,
    year: u32,
)
    requires
        Num::zero().le(less),
        less.le(more),
        more.le(Num::one()),
    ensures
        Ship::spec_flotation_from(base, less, str_comp, room, year).le(
            Ship::spec_flotation_from(base, more, str_comp, room, year),
        ),
{
    let stable = Ship::spec_flotation_stable(base, str_comp, room, year);
    if stable.defined() {
        let (a, s1, s2) = (stable.micro(), less.micro(), more.micro());
        if a >= 0 {
            lemma_cut_square_grows(a, s1, s2);
            let b1 = cut(a * (s1 * s1), SCALE * SCALE);
            let b2 = cut(a * (s2 * s2), SCALE * SCALE);
            lemma_cut_square_grows(b1, s1, s2);
            lemma_cut_square_grows(b2, s2, s2);
            assert(b1 * (s2 * s2) <= b2 * (s2 * s2)) by (nonlinear_arith)
                requires
                    b1 <= b2,
                    0 <= s2,
            ;
            assert((b1 * (s2 * s2)) / (SCALE * SCALE) <= (b2 * (s2 * s2)) / (SCALE * SCALE))
                by (nonlinear_arith)
                requires
                    0 <= b1 * (s2 * s2) <= b2 * (s2 * s2),
                    SCALE == 1_000_000,
            ;
        } else {
            lemma_cut_square_of_negative(a, s1);
            lemma_cut_square_of_negative(a, s2);
            let b1 = cut(a * (s1 * s1), SCALE * SCALE);
            let b2 = cut(a * (s2 * s2), SCALE * SCALE);
            if b1 < 0 {
                lemma_cut_square_of_negative(b1, s1);
            } else {
                lemma_cut_square_grows(b1, s1, s1);
            }
            if b2 < 0 {
                lemma_cut_square_of_negative(b2, s2);
            } else {
                lemma_cut_square_grows(b2, s2, s2);
            }
        }
    }
}

/// Below a stability of one, a ship of less stability has less flotation
/// than one of more stability whose other figures are the same, wherever
/// the difference can be written down: the exact products of the flotation
/// at a stability of one with the fourth powers of the two stabilities lie
/// two millionths of a pound apart or more.
pub proof fn law_flotation_falls_strictly(
    base: Num,
    less: Num,
    more: Num,
    str_comp: Num,
    room: Num,
    year: u32,
)
    requires
        Num::zero().le(less),
        less.le(more),
        more.le(Num::one()),
        Num::zero().le(Ship::spec_flotation_stable(base, str_comp, room, year)),
        ({
            let stable = Ship::spec_flotation_stable(base, str_comp, room, year).micro();
            let unit = SCALE * SCALE * (SCALE * SCALE);
            stable * (more.micro() * more.micro()) * (more.micro() * more.micro()) >= stable * (
            less.micro() * less.micro()) * (less.micro() * less.micro()) + 2 * unit
        }),
    ensures
        Ship::spec_flotation_from(base, less, str_comp, room, year).lt(
            Ship::spec_flotation_from(base, more, str_comp, room, year),
        ),
{
    law_flotation_near_fourth_power(base, less, str_comp, room, year);
    law_flotation_near_fourth_power(base, more, str_comp, room, year);
    let low = Ship::spec_flotation_from(base, less, str_comp, room, year).micro();
    let high = Ship::spec_flotation_from(base, more, str_comp, room, year).micro();
    let unit = SCALE * SCALE * (SCALE * SCALE);
    assert(unit == 1_000_000_000_000_000_000_000_000) by (nonlinear_arith)
        requires
            unit == SCALE * SCALE * (SCALE * SCALE),
            SCALE == 1_000_000,
    ;
    assert(low < high) by (nonlinear_arith)
        requires
            (high + 2) * unit > low * unit + 2 * unit,
            unit > 0,
    ;
}

/// Below a stability of one, a ship of less stability has less flotation
/// than one of more stability whose other figures are the same, where the
/// two stabilities are a hundredth apart or more and the flotation that the
/// ships would have at a stability of one is a thousand pounds or more.
pub proof fn law_flotation_falls_by_hundredths(
    base: Num,
    less: Num,
    more: Num,
    str_comp: Num,
    room: Num,
    year: u32,
)
    requires
        Num::zero().le(less),
        less.plus(Num::Micro(10_000)).le(more),
        more.le(Num::one()),
        Num::Micro(1_000_000_000).le(Ship::spec_flotation_stable(base, str_comp, room, year)),
    ensures
        Ship::spec_flotation_from(base, less, str_comp, room, year).lt(
            Ship::spec_flotation_from(base, more, str_comp, room, year),
        ),
{
    let stable = Ship::spec_flotation_stable(base, str_comp, room, year);
    let (a, s1, s2) = (stable.micro(), less.micro(), more.micro());
    let d = SCALE * SCALE;
    let (sq1, sq2) = (s1 * s1, s2 * s2);
    lemma_cut_square_grows(a, s1, s2);
    let b1 = cut(a * sq1, d);
    let b2 = cut(a * sq2, d);
    lemma_cut_square_grows(b1, s1, s1);
    lemma_cut_square_grows(b2, s2, s2);
    assert(0 <= sq1 && sq2 >= sq1 + 10_000 * s2 && 100_000_000 <= sq2 <= d) by (nonlinear_arith)
        requires
            0 <= s1,
            s1 + 10_000 <= s2 <= SCALE,
            sq1 == s1 * s1,
            sq2 == s2 * s2,
            d == SCALE * SCALE,
            SCALE == 1_000_000,
    ;
    // What is cut from the first product is less than one.
    assert(b1 * d <= a * sq1 && b2 * d > a * sq2 - d) by (nonlinear_arith)
        requires
            b1 == (a * sq1) / d,
            b2 == (a * sq2) / d,
            0 <= a * sq1,
            0 <= a * sq2,
            d == 1_000_000_000_000,
    ;
    assert(sq2 * sq2 - sq1 * sq1 >= 100_000_000 * sq2) by (nonlinear_arith)
        requires
            0 <= sq1,
            sq2 >= sq1 + 10_000 * s2,
            10_000 <= s2,
            sq2 >= 0,
    ;
    assert(a * (sq2 * sq2 - sq1 * sq1) >= 100_000 * d * sq2) by (nonlinear_arith)
        requires
            a >= 1_000_000_000,
            sq2 * sq2 - sq1 * sq1 >= 100_000_000 * sq2,
            sq2 >= 0,
            d == 1_000_000_000_000,
    ;
    assert(d * (b2 * sq2) >= a * (sq2 * sq2) - d * sq2) by (nonlinear_arith)
        requires
            b2 * d > a * sq2 - d,
            sq2 >= 0,
    ;
    assert(d * (b1 * sq1) <= a * (sq1 * sq1)) by (nonlinear_arith)
        requires
            b1 * d <= a * sq1,
            sq1 >= 0,
    ;
    assert(a * (sq2 * sq2) - a * (sq1 * sq1) == a * (sq2 * sq2 - sq1 * sq1)) by (nonlinear_arith);
    assert(100_000 * d * sq2 - d * sq2 >= d * d) by (nonlinear_arith)
        requires
            sq2 >= 100_000_000,
            d == 1_000_000_000_000,
    ;
    assert(d * (b2 * sq2) >= d * (b1 * sq1) + d * d);
    assert(b2 * sq2 >= b1 * sq1 + d) by (nonlinear_arith)
        requires
            d * (b2 * sq2) >= d * (b1 * sq1) + d * d,
            d > 0,
    ;
    assert(0 <= b1 * sq1) by (nonlinear_arith)
        requires
            0 <= b1,
            0 <= sq1,
    ;
    assert((b2 * sq2) / d >= (b1 * sq1) / d + 1) by (nonlinear_arith)
        requires
            b2 * sq2 >= b1 * sq1 + d,
            0 <= b1 * sq1,
            d == 1_000_000_000_000,
    ;
}

/// Of two ships that differ in nothing that the flotation reads but their
/// stability, both from zero to one, the less stable has no more flotation;
/// and she has less wherever the exact products of the flotation at a
/// stability of one with the fourth powers of the two stabilities lie two
/// millionths of a pound apart or more.
pub proof fn law_less_stable_ship_floats_less(tender: Ship, stiff: Ship)
    requires
        tender.flotation_base() == stiff.flotation_base(),
        tender.str_comp() == stiff.str_comp(),
        tender.room() == stiff.room(),
        tender.year == stiff.year,
        Num::zero().le(tender.stability_adj()),
        tender.stability_adj().le(stiff.stability_adj()),
        stiff.stability_adj().le(Num::one()),
    ensures
        tender.flotation().le(stiff.flotation()),
        ({
            let stable = Ship::spec_flotation_stable(
                stiff.flotation_base(),
                stiff.str_comp(),
                stiff.room(),
                stiff.year,
            );
            let less = tender.stability_adj().micro();
            let more = stiff.stability_adj().micro();
            Num::zero().le(stable) && stable.micro() * (more * more) * (more * more)
                >= stable.micro() * (less * less) * (less * less) + 2 * (SCALE * SCALE * (SCALE
                * SCALE))
        }) ==> tender.flotation().lt(stiff.flotation()),
{
    let stable = Ship::spec_flotation_stable(
        stiff.flotation_base(),
        stiff.str_comp(),
        stiff.room(),
        stiff.year,
    );
    law_flotation_falls_with_stability(
        stiff.flotation_base(),
        tender.stability_adj(),
        stiff.stability_adj(),
        stiff.str_comp(),
        stiff.room(),
        stiff.year,
    );
    let less = tender.stability_adj().micro();
    let more = stiff.stability_adj().micro();
    if Num::zero().le(stable) && stable.micro() * (more * more) * (more * more) >= stable.micro()
        * (less * less) * (less * less) + 2 * (SCALE * SCALE * (SCALE * SCALE)) {
        law_flotation_falls_strictly(
            stiff.flotation_base(),
            tender.stability_adj(),
            stiff.stability_adj(),
            stiff.str_comp(),
            stiff.room(),
            stiff.year,
        );
    }
}

/// The bands of seakeeping: below 0.7 it is bad, from there to below 0.995
/// poor, from 1.2 to below 1.5 good, from 1.5 on fine. Between 0.995 and 1.2
/// lies no band: a seakeeping there, like one that is undefined, has the
/// band `Error`.
pub proof fn law_sea_bands(seakeeping: Num)
    ensures
        SeaType::of(seakeeping) == SeaType::BadSea <==> seakeeping.lt(Num::Micro(700_000)),
        SeaType::of(seakeeping) == SeaType::PoorSea <==> seakeeping.ge(Num::Micro(700_000))
            && seakeeping.lt(Num::Micro(995_000)),
        SeaType::of(seakeeping) == SeaType::GoodSea <==> seakeeping.ge(Num::Micro(1_200_000))
            && seakeeping.lt(Num::Micro(1_500_000)),
        SeaType::of(seakeeping) == SeaType::FineSea <==> seakeeping.ge(Num::Micro(1_500_000)),
        SeaType::of(seakeeping) == SeaType::Error <==> !seakeeping.defined() || (
        seakeeping.ge(Num::Micro(995_000)) && seakeeping.lt(Num::Micro(1_200_000))),
{
}

/// Each failure of a design is found by itself: it is among the failures of
/// a ship where its own test fails, whatever the other tests say.
pub proof fn law_failures_found_apart(ship: Ship)
    ensures
        ship.spec_design_failures().contains(DesignFailure::Displacement)
            <==> ship.displacement_impossible(),
        ship.spec_design_failures().contains(DesignFailure::GunWeight) <==> ship.guns_overweight(),
        ship.spec_design_failures().contains(DesignFailure::ArmorWeight)
            <==> ship.armor_overweight(),
        ship.spec_design_failures().contains(DesignFailure::LoadWeight)
            <==> ship.load_overweight(),
        ship.spec_design_failures().contains(DesignFailure::Capsize) <==> ship.capsize_warn(),
{
    let s0 = Seq::<DesignFailure>::empty();
    let s1 = if ship.displacement_impossible() {
        s0.push(DesignFailure::Displacement)
    } else {
        s0
    };
    let s2 = if ship.guns_overweight() {
        s1.push(DesignFailure::GunWeight)
    } else {
        s1
    };
    let s3 = if ship.armor_overweight() {
        s2.push(DesignFailure::ArmorWeight)
    } else {
        s2
    };
    let s4 = if ship.load_overweight() {
        s3.push(DesignFailure::LoadWeight)
    } else {
        s3
    };
    let s5 = ship.spec_design_failures();
    assert forall|f: DesignFailure| s1.contains(f) <==> (f == DesignFailure::Displacement
        && ship.displacement_impossible()) by {
        if ship.displacement_impossible() {
            assert(s1[0] == DesignFailure::Displacement);
        }
    }
    assert forall|f: DesignFailure| s2.contains(f) <==> s1.contains(f) || (f
        == DesignFailure::GunWeight && ship.guns_overweight()) by {
        lemma_pushed(s1, DesignFailure::GunWeight, f);
    }
    assert forall|f: DesignFailure| s3.contains(f) <==> s2.contains(f) || (f
        == DesignFailure::ArmorWeight && ship.armor_overweight()) by {
        lemma_pushed(s2, DesignFailure::ArmorWeight, f);
    }
    assert forall|f: DesignFailure| s4.contains(f) <==> s3.contains(f) || (f
        == DesignFailure::LoadWeight && ship.load_overweight()) by {
        lemma_pushed(s3, DesignFailure::LoadWeight, f);
    }
    assert forall|f: DesignFailure| s5.contains(f) <==> s4.contains(f) || (f
        == DesignFailure::Capsize && ship.capsize_warn()) by {
        lemma_pushed(s4, DesignFailure::Capsize, f);
    }
}

/// A line of a text stands in the text.
pub proof fn lemma_line_stands_in_text(lines: Seq<Seq<char>>, i: int)
    requires
        0 <= i < lines.len(),
    ensures
        spec_contains(spec_join(lines), lines[i]),
    decreases lines.len(),
{
    let whole = spec_join(lines);
    if lines.len() == 1 {
        assert(whole.subrange(0, lines[i].len() as int) =~= lines[i]);
        assert(spec_stands_at(whole, lines[i], 0));
    } else {
        let before = spec_join(lines.drop_last());
        assert(whole == before + "\n"@ + lines.last());
        if i == lines.len() - 1 {
            let at = (before + "\n"@).len() as int;
            assert(whole.subrange(at, at + lines[i].len()) =~= lines[i]);
            assert(spec_stands_at(whole, lines[i], at));
        } else {
            lemma_line_stands_in_text(lines.drop_last(), i);
            let at = choose|at: int| spec_stands_at(before, lines[i], at);
            assert(whole.subrange(at, at + lines[i].len()) =~= before.subrange(
                at,
                at + lines[i].len(),
            ));
            assert(spec_stands_at(whole, lines[i], at));
        }
    }
}

/// What is among some lines is among them and those that follow, and among
/// those that come before and them.
proof fn lemma_among_more(a: Seq<Seq<char>>, b: Seq<Seq<char>>, line: Seq<char>)
    requires
        a.contains(line) || b.contains(line),
    ensures
        (a + b).contains(line),
{
    if a.contains(line) {
        let i = choose|i: int| 0 <= i < a.len() && a[i] == line;
        assert((a + b)[i] == line);
    } else {
        let i = choose|i: int| 0 <= i < b.len() && b[i] == line;
        assert((a + b)[a.len() + i] == line);
    }
}

/// The first line of a report, which holds the ship's name, country and
/// kind.
pub open spec fn spec_title(ship: Ship) -> Seq<char> {
    ship.spec_heading()[0]
}

/// A report that holds the line of armor too heavy for the hull, and not
/// by the ship's own words, is that of a ship whose armor is too heavy; and
/// the report of every ship of the same displacement whose armor weighs no
/// less holds the line too. The ship's own words are her first line, which
/// holds her name, and her notes: a ship that is named as the line reads,
/// or has it among her notes, has it in her report whatever her armor
/// weighs.
pub proof fn law_report_keeps_armor_failure(lighter: Ship, heavier: Ship)
    requires
        lighter.spec_report_lines().contains(spec_armor_line()),
        spec_title(lighter) != spec_armor_line(),
        !views(lighter.notes@).contains(spec_armor_line()),
        lighter.hull.d == heavier.hull.d,
        lighter.wgt_armor().le(heavier.wgt_armor()),
    ensures
        lighter.armor_overweight(),
        heavier.armor_overweight(),
        heavier.spec_report_lines().contains(spec_armor_line()),
        spec_contains(heavier.spec_report(), spec_armor_line()),
{
    lemma_line_is_the_flag(lighter);
    law_armor_failure_stays(lighter.wgt_armor(), heavier.wgt_armor(), lighter.hull.d);
    law_report_shows_armor_failure(heavier);
}

/// The names of the kinds of ship begin with a letter that is no `D`.
proof fn lemma_ship_type_start(ship: Ship)
    requires
        ship.spec_ship_type().len() != 0,
    ensures
        spec_other_start(ship.spec_ship_type()),
{
    reveal_strlit("Barbette Ship");
    reveal_strlit("Central Citadel Ship");
    reveal_strlit("Armoured Casemate Ship");
    reveal_strlit("Armoured Frigate (Broadside Ironclad)");
    reveal_strlit("Armoured Corvette (Broadside Ironclad)");
    reveal_strlit("Armoured Frigate (Central Battery Ironclad)");
    reveal_strlit("Armoured Corvette (Central Battery Ironclad)");
    reveal_strlit("Frigate (Unarmoured)");
    reveal_strlit("Corvette (Unarmoured)");
    let lines = ship.spec_ship_type_lines();
    assert(lines.len() > 0);
    assert forall|i: int| 0 <= i < lines.len() implies spec_other_start(#[trigger] lines[i]) by {}
    lemma_joined_start(lines);
}

/// Lines of which the first begins with no `D`, written as one text, begin
/// with no `D`.
proof fn lemma_joined_start(lines: Seq<Seq<char>>)
    requires
        lines.len() > 0,
        spec_other_start(lines[0]),
    ensures
        spec_other_start(spec_join(lines)),
    decreases lines.len(),
{
    if lines.len() > 1 {
        let before = lines.drop_last();
        lemma_joined_start(before);
        lemma_start_stays(spec_join(before), "\n"@);
        lemma_start_stays(spec_join(before) + "\n"@, lines.last());
    }
}

/// Of a ship whose armor is not too heavy, none of the failures that are
/// found is written as the line of the armor.
proof fn lemma_failure_lines_clear(ship: Ship)
    requires
        !ship.armor_overweight(),
    ensures
        !ship.spec_failure_lines().contains(spec_armor_line()),
{
    law_failures_found_apart(ship);
    reveal_strlit("DESIGN FAILURE: Displacement impossible with given dimensions");
    reveal_strlit("DESIGN FAILURE: Gun weight too much for hull");
    reveal_strlit("DESIGN FAILURE: Armour weight too much for hull");
    reveal_strlit("DESIGN FAILURE: Overall load weight too much for hull");
    reveal_strlit("DESIGN FAILURE: Ship will capsize");
    let failures = ship.spec_design_failures();
    let told = ship.spec_failure_lines();
    assert forall|i: int| 0 <= i < told.len() implies told[i] != spec_armor_line() by {
        assert(told[i] == failures[i].spec_message());
        assert(failures.contains(failures[i]));
    }
}

/// Of a ship whose armor is not too heavy, the head of the report holds the
/// line of the armor in her first line or not at all.
proof fn lemma_heading_clear(ship: Ship)
    requires
        !ship.armor_overweight(),
        spec_title(ship) != spec_armor_line(),
    ensures
        !ship.spec_heading().contains(spec_armor_line()),
{
    lemma_failure_lines_clear(ship);
    reveal_strlit("");
    let told = ship.spec_failure_lines();
    let s0 = Seq::<Seq<char>>::empty();
    let title = ship.name@ + ", "@ + ship.country@ + " "@ + ship.kind@ + " laid down "@
        + spec_decimal(ship.year as nat) + ship.spec_engine_note();
    let first = s0.push(title);
    assert(first[0] == title);
    assert(ship.spec_heading()[0] == title);
    lemma_pushed_clear(s0, title);
    let named = if ship.spec_ship_type().len() != 0 {
        lemma_ship_type_start(ship);
        lemma_start_clear(ship.spec_ship_type());
        lemma_pushed_clear(first, ship.spec_ship_type());
        first.push(ship.spec_ship_type())
    } else {
        first
    };
    lemma_joined_clear(named, told);
    let failed = named + told;
    lemma_pushed_clear(failed, ""@);
    assert(failed.push(""@) == ship.spec_heading());
}

/// A ship whose report holds the line of armor too heavy for the hull, and
/// not by her first line or her notes, has armor too heavy for her hull.
proof fn lemma_line_is_the_flag(ship: Ship)
    requires
        ship.spec_report_lines().contains(spec_armor_line()),
        spec_title(ship) != spec_armor_line(),
        !views(ship.notes@).contains(spec_armor_line()),
    ensures
        ship.armor_overweight(),
{
    if !ship.armor_overweight() {
        lemma_heading_clear(ship);
        ship.lemma_displacement_lines_clear();
        ship.lemma_dimension_lines_clear();
        ship.lemma_armament_lines_clear();
        ship.lemma_armor_lines_clear();
        ship.lemma_machinery_lines_clear();
        ship.lemma_complement_lines_clear();
        ship.lemma_cost_lines_clear();
        ship.lemma_weight_lines_clear();
        ship.lemma_survival_lines_clear();
        ship.lemma_seakeeping_lines_clear();
        ship.lemma_form_lines_clear();
        ship.lemma_freeboard_lines_clear();
        ship.lemma_strength_lines_clear();
        let l0 = ship.spec_heading();
        let l1 = l0 + ship.spec_displacement_lines();
        lemma_joined_clear(l0, ship.spec_displacement_lines());
        let l2 = l1 + ship.spec_dimension_lines();
        lemma_joined_clear(l1, ship.spec_dimension_lines());
        let l3 = l2 + ship.spec_armament_lines();
        lemma_joined_clear(l2, ship.spec_armament_lines());
        let l4 = l3 + ship.spec_armor_lines();
        lemma_joined_clear(l3, ship.spec_armor_lines());
        let l5 = l4 + ship.spec_machinery_lines();
        lemma_joined_clear(l4, ship.spec_machinery_lines());
        let l6 = l5 + ship.spec_complement_lines();
        lemma_joined_clear(l5, ship.spec_complement_lines());
        let l7 = l6 + ship.spec_cost_lines();
        lemma_joined_clear(l6, ship.spec_cost_lines());
        let l8 = l7 + ship.spec_weight_lines();
        lemma_joined_clear(l7, ship.spec_weight_lines());
        let l9 = l8 + ship.spec_survival_lines();
        lemma_joined_clear(l8, ship.spec_survival_lines());
        let l10 = l9 + ship.spec_seakeeping_lines();
        lemma_joined_clear(l9, ship.spec_seakeeping_lines());
        let l11 = l10 + ship.spec_form_lines();
        lemma_joined_clear(l10, ship.spec_form_lines());
        let l12 = l11 + ship.spec_freeboard_lines();
        lemma_joined_clear(l11, ship.spec_freeboard_lines());
        let l13 = l12 + ship.spec_strength_lines();
        lemma_joined_clear(l12, ship.spec_strength_lines());
        let l14 = l13 + views(ship.notes@);
        lemma_joined_clear(l13, views(ship.notes@));
        assert(l14 == ship.spec_report_lines());
    }
}

/// A ship whose armor weighs too much for her displacement says so in her
/// report.
pub proof fn law_report_shows_armor_failure(ship: Ship)
    requires
        ship.armor_overweight(),
    ensures
        ship.spec_report_lines().contains(spec_armor_line()),
        spec_contains(ship.spec_report(), spec_armor_line()),
{
    let line = DesignFailure::ArmorWeight.spec_message();
    law_failures_found_apart(ship);
    let failures = ship.spec_design_failures();
    let at = choose|i: int| 0 <= i < failures.len() && failures[i] == DesignFailure::ArmorWeight;
    assert(ship.spec_failure_lines()[at] == line);
    assert(ship.spec_failure_lines().contains(line));
    // The heading holds the failures, and the report begins with the heading.
    let first = Seq::<Seq<char>>::empty().push(
        ship.name@ + ", "@ + ship.country@ + " "@ + ship.kind@ + " laid down "@ + spec_decimal(
            ship.year as nat,
        ) + ship.spec_engine_note(),
    );
    let named = if ship.spec_ship_type().len() != 0 {
        first.push(ship.spec_ship_type())
    } else {
        first
    };
    lemma_among_more(named, ship.spec_failure_lines(), line);
    let failed = named + ship.spec_failure_lines();
    assert(failed.push(""@) =~= failed + seq![""@]);
    lemma_among_more(failed, seq![""@], line);
    let l0 = ship.spec_heading();
    assert(l0.contains(line));
    let l1 = l0 + ship.spec_displacement_lines();
    lemma_among_more(l0, ship.spec_displacement_lines(), line);
    let l2 = l1 + ship.spec_dimension_lines();
    lemma_among_more(l1, ship.spec_dimension_lines(), line);
    let l3 = l2 + ship.spec_armament_lines();
    lemma_among_more(l2, ship.spec_armament_lines(), line);
    let l4 = l3 + ship.spec_armor_lines();
    lemma_among_more(l3, ship.spec_armor_lines(), line);
    let l5 = l4 + ship.spec_machinery_lines();
    lemma_among_more(l4, ship.spec_machinery_lines(), line);
    let l6 = l5 + ship.spec_complement_lines();
    lemma_among_more(l5, ship.spec_complement_lines(), line);
    let l7 = l6 + ship.spec_cost_lines();
    lemma_among_more(l6, ship.spec_cost_lines(), line);
    let l8 = l7 + ship.spec_weight_lines();
    lemma_among_more(l7, ship.spec_weight_lines(), line);
    let l9 = l8 + ship.spec_survival_lines();
    lemma_among_more(l8, ship.spec_survival_lines(), line);
    let l10 = l9 + ship.spec_seakeeping_lines();
    lemma_among_more(l9, ship.spec_seakeeping_lines(), line);
    let l11 = l10 + ship.spec_form_lines();
    lemma_among_more(l10, ship.spec_form_lines(), line);
    let l12 = l11 + ship.spec_freeboard_lines();
    lemma_among_more(l11, ship.spec_freeboard_lines(), line);
    let l13 = l12 + ship.spec_strength_lines();
    lemma_among_more(l12, ship.spec_strength_lines(), line);
    let l14 = l13 + views(ship.notes@);
    lemma_among_more(l13, views(ship.notes@), line);
    assert(l14 == ship.spec_report_lines());
    let i = choose|i: int| 0 <= i < l14.len() && l14[i] == line;
    lemma_line_stands_in_text(l14, i);
}

/// What a sequence holds once an element is added: what it held, and the
/// element.
proof fn lemma_pushed(s: Seq<DesignFailure>, added: DesignFailure, f: DesignFailure)
    ensures
        s.push(added).contains(f) <==> s.contains(f) || f == added,
{
    let t = s.push(added);
    if s.contains(f) {
        let i = choose|i: int| 0 <= i < s.len() && s[i] == f;
        assert(t[i] == f);
    }
    if f == added {
        assert(t[s.len() as int] == f);
    }
}

/// The machinery of a ship that is not highly stressed, one of 5,000 tons or
/// more or with a displacement factor of one or more, weighs half the
/// engine's own figure.
pub proof fn law_machinery_of_a_sound_ship(ship: Ship)
    requires
        ship.hull.d.ge(Num::Micro(5_000_000_000)) || ship.d_factor().ge(Num::one()),
    ensures
        ship.stress_exponent() == Num::zero(),
        ship.wgt_engine() == ship.engine.d_engine.over(Num::Micro(2_000_000)),
{
    reveal(Ship::spec_wgt_engine);
    lemma_times_one(ship.engine.d_engine.over(Num::Micro(2_000_000)));
}

} // verus!
