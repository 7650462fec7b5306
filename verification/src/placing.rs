//! A design that was read, placed in a ship: every value goes to the part
//! that it belongs to. Two things that no line holds are filled in: the
//! mounts on deck of each battery's first group, and the year of torpedoes,
//! mines and anti-submarine weapons. All else that no line holds is left as
//! a ship without parts has it. That is so of every figure that is reckoned
//! from the values: the ship that comes of a design has no displacement, no
//! waterplane and no weights until they are set. It is so too of the kinds
//! of mounts, their distributions, the kinds of torpedo mounts and the
//! units: the file names them in words, which are kept as words, and the
//! kinds themselves stay as a ship without parts has them.

use vstd::prelude::*;
use crate::armor::BulkheadType;
use crate::import::Design;
use crate::layout::{
    shells_at, spec_shells_at, ARMOR_BH_BEAM, ARMOR_BH_KIND, ARMOR_BULGE_HGT, ARMOR_BULGE_LEN,
    ARMOR_BULGE_THICK, ARMOR_BULKHEAD_HGT, ARMOR_BULKHEAD_LEN, ARMOR_BULKHEAD_THICK,
    ARMOR_CT_AFT_THICK, ARMOR_CT_FWD_THICK, ARMOR_DECK_FC, ARMOR_DECK_KIND, ARMOR_DECK_MD,
    ARMOR_DECK_QD, ARMOR_END_HGT, ARMOR_END_LEN, ARMOR_END_THICK, ARMOR_INCLINE,
    ARMOR_MAIN_HGT, ARMOR_MAIN_LEN, ARMOR_MAIN_THICK, ARMOR_UPPER_HGT, ARMOR_UPPER_LEN,
    ARMOR_UPPER_THICK, ASW2_KIND, ASW2_NUM, ASW2_RELOAD, ASW2_WGT, ASW_KIND, ASW_NUM,
    ASW_RELOAD, ASW_WGT, BATTERIES, BATTERY_AFT_ABOVE_AGAIN, BATTERY_AFT_BELOW_AGAIN,
    BATTERY_AFT_DISTRIBUTION, BATTERY_AFT_LAYOUT, BATTERY_AFT_LOWER_DECK, BATTERY_AFT_ON,
    BATTERY_AFT_TWO_MOUNTS_UP, BATTERY_ARMOR_BACK, BATTERY_ARMOR_BARB, BATTERY_ARMOR_FACE,
    BATTERY_DIAM, BATTERY_FORE_ABOVE_AGAIN, BATTERY_FORE_BELOW_AGAIN,
    BATTERY_FORE_DISTRIBUTION, BATTERY_FORE_LAYOUT, BATTERY_KIND, BATTERY_LEN,
    BATTERY_MOUNT_KIND, BATTERY_MOUNT_NUM, BATTERY_NUM, BATTERY_SHELL_WGT, BATTERY_YEAR,
    BOILER_COMPLEX, BOILER_SIMPLE, BOILER_TURBINE, COUNTRY, DRIVE_DIRECT, DRIVE_ELECTRIC,
    DRIVE_GEARED, DRIVE_HYDRAULIC, ENGINE_PCT_COAL, ENGINE_RANGE, ENGINE_SHAFTS,
    ENGINE_VCRUISE, ENGINE_VMAX, ENGINE_YEAR, FUEL_BATTERY, FUEL_COAL, FUEL_DIESEL,
    FUEL_GASOLINE, FUEL_OIL, HULL_AD_AFT, HULL_AD_FWD, HULL_B, HULL_BB, HULL_BOW_ANGLE,
    HULL_BOW_TYPE, HULL_CB, HULL_FC_AFT, HULL_FC_FWD, HULL_FC_LEN, HULL_FD_AFT, HULL_FD_FWD,
    HULL_FD_LEN, HULL_LWL, HULL_QD_AFT, HULL_QD_FWD, HULL_QD_LEN, HULL_STERN_OVERHANG,
    HULL_STERN_TYPE, HULL_T, KIND, MINES_MOUNT_KIND, MINES_NUM, MINES_RELOAD, MINES_WGT, NAME,
    RAM_LEN, TORPEDO2_DIAM, TORPEDO2_LEN, TORPEDO2_MOUNTS, TORPEDO2_MOUNT_KIND, TORPEDO2_NUM,
    TORPEDO_DIAM, TORPEDO_LEN, TORPEDO_MOUNTS, TORPEDO_MOUNT_KIND, TORPEDO_NUM, TRIM,
    WGTS_ABOVE, WGTS_HULL, WGTS_ON, WGTS_VITAL, WGTS_VOID, YEAR,
};
use crate::measure::Metric;
use crate::num::Num;
use crate::ship::Ship;
use crate::text::{push_lines, views};
use crate::weapons::{
    Battery, Group, GunDistributionType, MountType, TorpedoMountType, Torpedoes, ASW,
};

verus! {

impl Design {
    /// The number at a place of numbers.
    pub open spec fn spec_number(&self, at: int) -> Num {
        self.cells[at]@->Number_0
    }

    /// The flag at a place of flags.
    pub open spec fn spec_flag(&self, at: int) -> bool {
        self.cells[at]@->Flag_0
    }

    /// The text at a place of text.
    pub open spec fn spec_text(&self, at: int) -> Seq<char> {
        self.cells[at]@->Text_0
    }

    /// Whether `x` holds what the design says of the battery `b`, with the
    /// mounts on deck of its first group filled in.
    pub open spec fn battery_placed(&self, b: int, x: &Battery) -> bool {
        &&& x.num == self.spec_count(BATTERY_NUM + 6 * b)
        &&& x.diam == self.spec_number(BATTERY_DIAM + 6 * b)
        &&& x.kind@ == self.spec_text(BATTERY_KIND + 6 * b)
        &&& x.shell_wgt == self.spec_number(BATTERY_SHELL_WGT + 6 * b)
        &&& x.mount_num == self.spec_count(BATTERY_MOUNT_NUM + 3 * b)
        &&& x.mount@ == self.spec_text(BATTERY_MOUNT_KIND + 3 * b)
        &&& x.armor_face == self.spec_number(BATTERY_ARMOR_FACE + 3 * b)
        &&& x.armor_back == self.spec_number(BATTERY_ARMOR_BACK + 3 * b)
        &&& x.armor_barb == self.spec_number(BATTERY_ARMOR_BARB + 3 * b)
        &&& x.year == self.spec_count(BATTERY_YEAR + b)
        &&& x.len == self.spec_number(BATTERY_LEN + b)
        &&& x.shells == self.spec_count(spec_shells_at(b))
        &&& x.groups[0].above == self.spec_count(BATTERY_FORE_ABOVE_AGAIN + b)
        &&& x.groups[0].below == self.spec_count(BATTERY_FORE_BELOW_AGAIN + b)
        &&& x.groups[0].place@ == self.spec_text(BATTERY_FORE_DISTRIBUTION + 3 * b)
        &&& x.groups[0].layout@ == self.spec_text(BATTERY_FORE_LAYOUT + b)
        &&& Some(x.groups[0].on) == self.spec_on_deck(b)
        &&& x.groups[1].above == self.spec_count(BATTERY_AFT_ABOVE_AGAIN + b)
        &&& x.groups[1].on == self.spec_count(BATTERY_AFT_ON + b)
        &&& x.groups[1].below == self.spec_count(BATTERY_AFT_BELOW_AGAIN + b)
        &&& x.groups[1].two_mounts_up == self.spec_flag(BATTERY_AFT_TWO_MOUNTS_UP + b)
        &&& x.groups[1].lower_deck == self.spec_flag(BATTERY_AFT_LOWER_DECK + b)
        &&& x.groups[1].place@ == self.spec_text(BATTERY_AFT_DISTRIBUTION + b)
        &&& x.groups[1].layout@ == self.spec_text(BATTERY_AFT_LAYOUT + b)
    }

    /// Whether all that no line holds of a battery is in `x` as in a battery
    /// without guns: its weights and other figures are zero, its mounts in
    /// broadside, its groups evenly on the centerline, its units feet and
    /// pounds.
    pub open spec fn battery_rest(x: &Battery) -> bool {
        &&& x.mount_kind == MountType::Broadside
        &&& x.gun_wgt == Num::zero()
        &&& x.mount_wgt == Num::zero()
        &&& x.mag_wgt == Num::zero()
        &&& x.armor_wgt == Num::zero()
        &&& x.broadside_wgt == Num::zero()
        &&& x.concentration == Num::zero()
        &&& x.super_factor == Num::zero()
        &&& x.wgt_adj == Num::zero()
        &&& !x.broad_and_below
        &&& x.free == Num::zero()
        &&& x.units == Metric::spec_imperial()
        &&& x.groups[0].distribution == GunDistributionType::CenterlineEven
        &&& !x.groups[0].super_long
        &&& x.groups[0].position == Num::zero()
        &&& !x.groups[0].two_mounts_up
        &&& !x.groups[0].lower_deck
        &&& !x.groups[0].super_aft
        &&& x.groups[1].distribution == GunDistributionType::CenterlineEven
        &&& !x.groups[1].super_long
        &&& x.groups[1].position == Num::zero()
        &&& !x.groups[1].super_aft
    }

    /// The battery `b` of the design: what the lines say of it, the mounts
    /// on deck of its first group filled in, and all else as in a battery
    /// without guns. None where more of its mounts are placed than it has,
    /// so that none are left for the deck of the first group.
    pub fn battery(&self, b: usize) -> (r: Option<Battery>)
        requires
            self.wf(),
            b < BATTERIES,
        ensures
            r is None <==> self.spec_on_deck(b as int) is None,
            r matches Some(x) ==> self.battery_placed(b as int, &x) && Self::battery_rest(&x),
    {
        match self.on_deck(b) {
            None => None,
            Some(on) => {
                let mut fore = Group::default();
                fore.above = self.count(BATTERY_FORE_ABOVE_AGAIN + b);
                fore.below = self.count(BATTERY_FORE_BELOW_AGAIN + b);
                fore.place = self.text(BATTERY_FORE_DISTRIBUTION + 3 * b);
                fore.layout = self.text(BATTERY_FORE_LAYOUT + b);
                fore.on = on;
                let mut aft = Group::default();
                aft.above = self.count(BATTERY_AFT_ABOVE_AGAIN + b);
                aft.on = self.count(BATTERY_AFT_ON + b);
                aft.below = self.count(BATTERY_AFT_BELOW_AGAIN + b);
                aft.two_mounts_up = self.flag(BATTERY_AFT_TWO_MOUNTS_UP + b);
                aft.lower_deck = self.flag(BATTERY_AFT_LOWER_DECK + b);
                aft.place = self.text(BATTERY_AFT_DISTRIBUTION + b);
                aft.layout = self.text(BATTERY_AFT_LAYOUT + b);
                let mut x = Battery::default();
                x.num = self.count(BATTERY_NUM + 6 * b);
                x.diam = self.number(BATTERY_DIAM + 6 * b);
                x.kind = self.text(BATTERY_KIND + 6 * b);
                x.shell_wgt = self.number(BATTERY_SHELL_WGT + 6 * b);
                x.mount_num = self.count(BATTERY_MOUNT_NUM + 3 * b);
                x.mount = self.text(BATTERY_MOUNT_KIND + 3 * b);
                x.armor_face = self.number(BATTERY_ARMOR_FACE + 3 * b);
                x.armor_back = self.number(BATTERY_ARMOR_BACK + 3 * b);
                x.armor_barb = self.number(BATTERY_ARMOR_BARB + 3 * b);
                x.year = self.count(BATTERY_YEAR + b);
                x.len = self.number(BATTERY_LEN + b);
                x.shells = self.count(shells_at(b));
                x.groups = [fore, aft];
                Some(x)
            },
        }
    }

    /// Whether `s` holds what the design says of hull, armor, machinery,
    /// mines and weights, with the year of the mines filled in.
    pub open spec fn parts_placed(&self, s: &Ship) -> bool {
        &&& s.name@ == self.spec_text(NAME as int)
        &&& s.country@ == self.spec_text(COUNTRY as int)
        &&& s.kind@ == self.spec_text(KIND as int)
        &&& s.year == self.spec_count(YEAR as int)
        &&& s.wgts.vital == self.spec_count(WGTS_VITAL as int)
        &&& s.wgts.hull == self.spec_count(WGTS_HULL as int)
        &&& s.wgts.on == self.spec_count(WGTS_ON as int)
        &&& s.wgts.above == self.spec_count(WGTS_ABOVE as int)
        &&& s.wgts.void == self.spec_count(WGTS_VOID as int)
        &&& s.hull.lwl == self.spec_number(HULL_LWL as int)
        &&& s.hull.b == self.spec_number(HULL_B as int)
        &&& s.hull.bb == self.spec_number(HULL_BB as int)
        &&& s.hull.t == self.spec_number(HULL_T as int)
        &&& s.hull.cb == self.spec_number(HULL_CB as int)
        &&& s.hull.stern_type@ == self.spec_text(HULL_STERN_TYPE as int)
        &&& s.hull.bow_type@ == self.spec_text(HULL_BOW_TYPE as int)
        &&& s.hull.stern_overhang == self.spec_number(HULL_STERN_OVERHANG as int)
        &&& s.hull.bow_angle == self.spec_number(HULL_BOW_ANGLE as int)
        &&& s.hull.ram_len == self.spec_number(RAM_LEN as int)
        &&& s.hull.fc_len == self.spec_number(HULL_FC_LEN as int)
        &&& s.hull.fc_fwd == self.spec_number(HULL_FC_FWD as int)
        &&& s.hull.fc_aft == self.spec_number(HULL_FC_AFT as int)
        &&& s.hull.fd_len == self.spec_number(HULL_FD_LEN as int)
        &&& s.hull.fd_fwd == self.spec_number(HULL_FD_FWD as int)
        &&& s.hull.fd_aft == self.spec_number(HULL_FD_AFT as int)
        &&& s.hull.ad_fwd == self.spec_number(HULL_AD_FWD as int)
        &&& s.hull.ad_aft == self.spec_number(HULL_AD_AFT as int)
        &&& s.hull.qd_len == self.spec_number(HULL_QD_LEN as int)
        &&& s.hull.qd_fwd == self.spec_number(HULL_QD_FWD as int)
        &&& s.hull.qd_aft == self.spec_number(HULL_QD_AFT as int)
        &&& s.armor.main.thick == self.spec_number(ARMOR_MAIN_THICK as int)
        &&& s.armor.main.len == self.spec_number(ARMOR_MAIN_LEN as int)
        &&& s.armor.main.hgt == self.spec_number(ARMOR_MAIN_HGT as int)
        &&& s.armor.end.thick == self.spec_number(ARMOR_END_THICK as int)
        &&& s.armor.end.len == self.spec_number(ARMOR_END_LEN as int)
        &&& s.armor.end.hgt == self.spec_number(ARMOR_END_HGT as int)
        &&& s.armor.upper.thick == self.spec_number(ARMOR_UPPER_THICK as int)
        &&& s.armor.upper.len == self.spec_number(ARMOR_UPPER_LEN as int)
        &&& s.armor.upper.hgt == self.spec_number(ARMOR_UPPER_HGT as int)
        &&& s.armor.bulkhead.thick == self.spec_number(ARMOR_BULKHEAD_THICK as int)
        &&& s.armor.bulkhead.len == self.spec_number(ARMOR_BULKHEAD_LEN as int)
        &&& s.armor.bulkhead.hgt == self.spec_number(ARMOR_BULKHEAD_HGT as int)
        &&& s.armor.bulge.thick == self.spec_number(ARMOR_BULGE_THICK as int)
        &&& s.armor.bulge.len == self.spec_number(ARMOR_BULGE_LEN as int)
        &&& s.armor.bulge.hgt == self.spec_number(ARMOR_BULGE_HGT as int)
        &&& s.armor.incline == self.spec_number(ARMOR_INCLINE as int)
        &&& s.armor.bh_beam == self.spec_number(ARMOR_BH_BEAM as int)
        &&& s.armor.deck.fc == self.spec_number(ARMOR_DECK_FC as int)
        &&& s.armor.deck.md == self.spec_number(ARMOR_DECK_MD as int)
        &&& s.armor.deck.qd == self.spec_number(ARMOR_DECK_QD as int)
        &&& s.armor.deck.kind@ == self.spec_text(ARMOR_DECK_KIND as int)
        &&& s.armor.ct_fwd.thick == self.spec_number(ARMOR_CT_FWD_THICK as int)
        &&& s.armor.ct_aft.thick == self.spec_number(ARMOR_CT_AFT_THICK as int)
        &&& s.engine.vmax == self.spec_number(ENGINE_VMAX as int)
        &&& s.engine.vcruise == self.spec_number(ENGINE_VCRUISE as int)
        &&& s.engine.range == self.spec_count(ENGINE_RANGE as int)
        &&& s.engine.shafts == self.spec_count(ENGINE_SHAFTS as int)
        &&& s.engine.pct_coal == self.spec_number(ENGINE_PCT_COAL as int)
        &&& s.engine.year == self.spec_count(ENGINE_YEAR as int)
        &&& s.engine.fuels.coal == self.spec_flag(FUEL_COAL as int)
        &&& s.engine.fuels.oil == self.spec_flag(FUEL_OIL as int)
        &&& s.engine.fuels.diesel == self.spec_flag(FUEL_DIESEL as int)
        &&& s.engine.fuels.gasoline == self.spec_flag(FUEL_GASOLINE as int)
        &&& s.engine.fuels.battery == self.spec_flag(FUEL_BATTERY as int)
        &&& s.engine.boilers.simple == self.spec_flag(BOILER_SIMPLE as int)
        &&& s.engine.boilers.complex == self.spec_flag(BOILER_COMPLEX as int)
        &&& s.engine.boilers.turbine == self.spec_flag(BOILER_TURBINE as int)
        &&& s.engine.drives.direct == self.spec_flag(DRIVE_DIRECT as int)
        &&& s.engine.drives.geared == self.spec_flag(DRIVE_GEARED as int)
        &&& s.engine.drives.electric == self.spec_flag(DRIVE_ELECTRIC as int)
        &&& s.engine.drives.hydraulic == self.spec_flag(DRIVE_HYDRAULIC as int)
        &&& s.mines.num == self.spec_count(MINES_NUM as int)
        &&& s.mines.reload == self.spec_count(MINES_RELOAD as int)
        &&& s.mines.unit_wgt == self.spec_number(MINES_WGT as int)
        &&& s.mines.desc@ == self.spec_text(MINES_MOUNT_KIND as int)
        &&& s.trim == self.spec_count(TRIM as int)
        &&& s.armor.bh_kind == (if self.spec_count(ARMOR_BH_KIND as int) == 0 {
            BulkheadType::Additional
        } else {
            BulkheadType::Strengthened
        })
        &&& s.mines.year == self.spec_count(YEAR as int)
        &&& views(s.notes@) == views(self.notes@)
    }

    /// Whether all that no line holds of hull, armor, machinery and mines
    /// is in `s` as in a ship without parts: every figure that is reckoned
    /// is zero, every word of the report empty, the units feet and pounds.
    pub open spec fn parts_rest(s: &Ship) -> bool {
        &&& s.hull.d == Num::zero()
        &&& s.hull.wp == Num::zero()
        &&& s.hull.ws == Num::zero()
        &&& s.hull.len2beam == Num::zero()
        &&& s.hull.freeboard == Num::zero()
        &&& s.hull.freeboard_dist == Num::zero()
        &&& s.hull.free_cap_broad == Num::zero()
        &&& s.hull.free_cap_deck == Num::zero()
        &&& s.hull.loa == Num::zero()
        &&& s.hull.t_max == Num::zero()
        &&& s.hull.cb_max == Num::zero()
        &&& s.hull.vn == Num::zero()
        &&& s.hull.ad_len == Num::zero()
        &&& !s.hull.wet_fwd
        &&& s.hull.freeboard_desc@ == ""@
        &&& s.hull.cs == Num::zero()
        &&& s.hull.cm == Num::zero()
        &&& s.hull.cp == Num::zero()
        &&& s.hull.cwp == Num::zero()
        &&& s.hull.ts == Num::zero()
        &&& s.hull.stem_len == Num::zero()
        &&& !s.hull.ram
        &&& s.hull.leff == Num::zero()
        &&& s.hull.units == Metric::spec_imperial()
        &&& s.armor.main.wgt == Num::zero()
        &&& s.armor.main.wgt_d == Num::zero()
        &&& s.armor.end.wgt == Num::zero()
        &&& s.armor.end.wgt_d == Num::zero()
        &&& s.armor.upper.wgt == Num::zero()
        &&& s.armor.upper.wgt_d == Num::zero()
        &&& s.armor.bulkhead.wgt == Num::zero()
        &&& s.armor.bulkhead.wgt_d == Num::zero()
        &&& s.armor.bulge.wgt == Num::zero()
        &&& s.armor.bulge.wgt_d == Num::zero()
        &&& s.armor.deck.wgt == Num::zero()
        &&& s.armor.ct_fwd.wgt == Num::zero()
        &&& s.armor.ct_aft.wgt == Num::zero()
        &&& s.armor.wgt == Num::zero()
        &&& s.armor.units == Metric::spec_imperial()
        &&& !s.engine.reciprocating
        &&& s.engine.hp_max == Num::zero()
        &&& s.engine.d_engine == Num::zero()
        &&& s.engine.rf_max == Num::zero()
        &&& s.engine.rw_max == Num::zero()
        &&& s.engine.bunker == Num::zero()
        &&& s.engine.bunker_max == Num::zero()
        &&& s.engine.pw_max == Num::zero()
        &&& s.engine.fuel@ == ""@
        &&& s.engine.boiler@ == ""@
        &&& s.engine.drive@ == ""@
        &&& s.engine.hp_type@ == ""@
        &&& s.engine.rf_cruise == Num::zero()
        &&& s.engine.rw_cruise == Num::zero()
        &&& s.engine.pw_cruise == Num::zero()
        &&& s.engine.hp_cruise == Num::zero()
        &&& s.engine.bunker_factor == Num::zero()
        &&& s.engine.num_engines == 0
        &&& s.mines.wgt == Num::zero()
        &&& s.mines.wgt_weaps == Num::zero()
        &&& s.mines.units == Metric::spec_imperial()
    }

    /// Whether all that no line holds of torpedoes and anti-submarine
    /// weapons is in `s` as in a ship without parts; there are two sets of
    /// each.
    pub open spec fn weapons_rest(s: &Ship) -> bool
        recommends
            s.torps.len() == 2,
            s.asw.len() == 2,
    {
        &&& s.torps[0].mount_kind == TorpedoMountType::FixedTubes
        &&& s.torps[0].wgt == Num::zero()
        &&& s.torps[0].wgt_weaps == Num::zero()
        &&& s.torps[0].space == Num::zero()
        &&& s.torps[0].units == Metric::spec_imperial()
        &&& s.torps[1].mount_kind == TorpedoMountType::FixedTubes
        &&& s.torps[1].wgt == Num::zero()
        &&& s.torps[1].wgt_weaps == Num::zero()
        &&& s.torps[1].space == Num::zero()
        &&& s.torps[1].units == Metric::spec_imperial()
        &&& s.asw[0].wgt == Num::zero()
        &&& s.asw[0].wgt_weaps == Num::zero()
        &&& s.asw[0].desc@ == ""@
        &&& s.asw[0].units == Metric::spec_imperial()
        &&& s.asw[1].wgt == Num::zero()
        &&& s.asw[1].wgt_weaps == Num::zero()
        &&& s.asw[1].desc@ == ""@
        &&& s.asw[1].units == Metric::spec_imperial()
    }

    /// Whether `s` holds what the design says of torpedoes and
    /// anti-submarine weapons, two sets of each, with their years filled
    /// in.
    pub open spec fn weapons_placed(&self, s: &Ship) -> bool {
        &&& s.torps.len() == 2
        &&& s.asw.len() == 2
        &&& s.torps[0].num == self.spec_count(TORPEDO_NUM as int)
        &&& s.torps[0].mounts == self.spec_count(TORPEDO_MOUNTS as int)
        &&& s.torps[0].diam == self.spec_number(TORPEDO_DIAM as int)
        &&& s.torps[0].len == self.spec_number(TORPEDO_LEN as int)
        &&& s.torps[0].desc@ == self.spec_text(TORPEDO_MOUNT_KIND as int)
        &&& s.torps[0].year == self.spec_count(YEAR as int)
        &&& s.torps[1].num == self.spec_count(TORPEDO2_NUM as int)
        &&& s.torps[1].mounts == self.spec_count(TORPEDO2_MOUNTS as int)
        &&& s.torps[1].diam == self.spec_number(TORPEDO2_DIAM as int)
        &&& s.torps[1].len == self.spec_number(TORPEDO2_LEN as int)
        &&& s.torps[1].desc@ == self.spec_text(TORPEDO2_MOUNT_KIND as int)
        &&& s.torps[1].year == self.spec_count(YEAR as int)
        &&& s.asw[0].num == self.spec_count(ASW_NUM as int)
        &&& s.asw[0].reload == self.spec_count(ASW_RELOAD as int)
        &&& s.asw[0].unit_wgt == self.spec_number(ASW_WGT as int)
        &&& s.asw[0].kind@ == self.spec_text(ASW_KIND as int)
        &&& s.asw[0].year == self.spec_count(YEAR as int)
        &&& s.asw[1].num == self.spec_count(ASW2_NUM as int)
        &&& s.asw[1].reload == self.spec_count(ASW2_RELOAD as int)
        &&& s.asw[1].unit_wgt == self.spec_number(ASW2_WGT as int)
        &&& s.asw[1].kind@ == self.spec_text(ASW2_KIND as int)
        &&& s.asw[1].year == self.spec_count(YEAR as int)
    }

    /// Whether `s` is the ship of the design: five batteries, two sets of
    /// torpedoes and two of anti-submarine weapons, every value in its
    /// part, and all that no line holds as in a ship without parts.
    pub open spec fn placed(&self, s: &Ship) -> bool {
        &&& self.parts_placed(s)
        &&& Self::parts_rest(s)
        &&& self.weapons_placed(s)
        &&& Self::weapons_rest(s)
        &&& s.batteries.len() == BATTERIES
        &&& forall|b: int| 0 <= b < BATTERIES ==> self.battery_placed(b, #[trigger] &s.batteries[b])
        &&& forall|b: int| 0 <= b < BATTERIES ==> Self::battery_rest(#[trigger] &s.batteries[b])
    }

    /// Whether some battery has more mounts placed than it has.
    pub open spec fn overplaced(&self) -> bool {
        exists|b: int| 0 <= b < BATTERIES && #[trigger] self.spec_on_deck(b) is None
    }

    /// The ship of the design: five batteries, two sets of torpedoes and two
    /// of anti-submarine weapons, with every value of the design in its
    /// part. The fuels, engines and drives are the sets that the flags of
    /// the design name. The kinds of mounts, the distributions of the
    /// groups, the kinds of torpedo mounts and the units are named by the
    /// design in words: the words are placed, the kinds are not, and stay
    /// as in a ship without parts, as does every figure that is reckoned
    /// from the values. None where some battery has more mounts placed than
    /// it has.
    pub fn ship(&self) -> (r: Option<Ship>)
        requires
            self.wf(),
        ensures
            r is None <==> self.overplaced(),
            r matches Some(s) ==> self.placed(&s),
    {
        let mut batteries: Vec<Battery> = Vec::new();
        let mut b: usize = 0;
        while b < BATTERIES
            invariant
                self.wf(),
                b <= BATTERIES,
                batteries.len() == b,
                forall|i: int| 0 <= i < b ==> self.spec_on_deck(i) is Some,
                forall|i: int| 0 <= i < b ==> self.battery_placed(i, #[trigger] &batteries[i]),
                forall|i: int| 0 <= i < b ==> Self::battery_rest(#[trigger] &batteries[i]),
            decreases BATTERIES - b,
        {
            match self.battery(b) {
                None => {
                    return None;
                },
                Some(x) => {
                    batteries.push(x);
                },
            }
            b += 1;
        }
        let mut t0 = Torpedoes::default();
        t0.num = self.count(TORPEDO_NUM);
        t0.mounts = self.count(TORPEDO_MOUNTS);
        t0.diam = self.number(TORPEDO_DIAM);
        t0.len = self.number(TORPEDO_LEN);
        t0.desc = self.text(TORPEDO_MOUNT_KIND);
        t0.year = self.weapons_year();
        let mut t1 = Torpedoes::default();
        t1.num = self.count(TORPEDO2_NUM);
        t1.mounts = self.count(TORPEDO2_MOUNTS);
        t1.diam = self.number(TORPEDO2_DIAM);
        t1.len = self.number(TORPEDO2_LEN);
        t1.desc = self.text(TORPEDO2_MOUNT_KIND);
        t1.year = self.weapons_year();
        let mut a0 = ASW::default();
        a0.num = self.count(ASW_NUM);
        a0.reload = self.count(ASW_RELOAD);
        a0.unit_wgt = self.number(ASW_WGT);
        a0.kind = self.text(ASW_KIND);
        a0.year = self.weapons_year();
        let mut a1 = ASW::default();
        a1.num = self.count(ASW2_NUM);
        a1.reload = self.count(ASW2_RELOAD);
        a1.unit_wgt = self.number(ASW2_WGT);
        a1.kind = self.text(ASW2_KIND);
        a1.year = self.weapons_year();
        let mut torps: Vec<Torpedoes> = Vec::new();
        torps.push(t0);
        torps.push(t1);
        let mut asw: Vec<ASW> = Vec::new();
        asw.push(a0);
        asw.push(a1);
        let mut s = Ship::default();
        s.name = self.text(NAME);
        s.country = self.text(COUNTRY);
        s.kind = self.text(KIND);
        s.year = self.count(YEAR);
        s.wgts.vital = self.count(WGTS_VITAL);
        s.wgts.hull = self.count(WGTS_HULL);
        s.wgts.on = self.count(WGTS_ON);
        s.wgts.above = self.count(WGTS_ABOVE);
        s.wgts.void = self.count(WGTS_VOID);
        s.hull.lwl = self.number(HULL_LWL);
        s.hull.b = self.number(HULL_B);
        s.hull.bb = self.number(HULL_BB);
        s.hull.t = self.number(HULL_T);
        s.hull.cb = self.number(HULL_CB);
        s.hull.stern_type = self.text(HULL_STERN_TYPE);
        s.hull.bow_type = self.text(HULL_BOW_TYPE);
        s.hull.stern_overhang = self.number(HULL_STERN_OVERHANG);
        s.hull.bow_angle = self.number(HULL_BOW_ANGLE);
        s.hull.ram_len = self.number(RAM_LEN);
        s.hull.fc_len = self.number(HULL_FC_LEN);
        s.hull.fc_fwd = self.number(HULL_FC_FWD);
        s.hull.fc_aft = self.number(HULL_FC_AFT);
        s.hull.fd_len = self.number(HULL_FD_LEN);
        s.hull.fd_fwd = self.number(HULL_FD_FWD);
        s.hull.fd_aft = self.number(HULL_FD_AFT);
        s.hull.ad_fwd = self.number(HULL_AD_FWD);
        s.hull.ad_aft = self.number(HULL_AD_AFT);
        s.hull.qd_len = self.number(HULL_QD_LEN);
        s.hull.qd_fwd = self.number(HULL_QD_FWD);
        s.hull.qd_aft = self.number(HULL_QD_AFT);
        s.armor.main.thick = self.number(ARMOR_MAIN_THICK);
        s.armor.main.len = self.number(ARMOR_MAIN_LEN);
        s.armor.main.hgt = self.number(ARMOR_MAIN_HGT);
        s.armor.end.thick = self.number(ARMOR_END_THICK);
        s.armor.end.len = self.number(ARMOR_END_LEN);
        s.armor.end.hgt = self.number(ARMOR_END_HGT);
        s.armor.upper.thick = self.number(ARMOR_UPPER_THICK);
        s.armor.upper.len = self.number(ARMOR_UPPER_LEN);
        s.armor.upper.hgt = self.number(ARMOR_UPPER_HGT);
        s.armor.bulkhead.thick = self.number(ARMOR_BULKHEAD_THICK);
        s.armor.bulkhead.len = self.number(ARMOR_BULKHEAD_LEN);
        s.armor.bulkhead.hgt = self.number(ARMOR_BULKHEAD_HGT);
        s.armor.bulge.thick = self.number(ARMOR_BULGE_THICK);
        s.armor.bulge.len = self.number(ARMOR_BULGE_LEN);
        s.armor.bulge.hgt = self.number(ARMOR_BULGE_HGT);
        s.armor.incline = self.number(ARMOR_INCLINE);
        s.armor.bh_beam = self.number(ARMOR_BH_BEAM);
        s.armor.deck.fc = self.number(ARMOR_DECK_FC);
        s.armor.deck.md = self.number(ARMOR_DECK_MD);
        s.armor.deck.qd = self.number(ARMOR_DECK_QD);
        s.armor.deck.kind = self.text(ARMOR_DECK_KIND);
        s.armor.ct_fwd.thick = self.number(ARMOR_CT_FWD_THICK);
        s.armor.ct_aft.thick = self.number(ARMOR_CT_AFT_THICK);
        s.engine.vmax = self.number(ENGINE_VMAX);
        s.engine.vcruise = self.number(ENGINE_VCRUISE);
        s.engine.range = self.count(ENGINE_RANGE);
        s.engine.shafts = self.count(ENGINE_SHAFTS);
        s.engine.pct_coal = self.number(ENGINE_PCT_COAL);
        s.engine.year = self.count(ENGINE_YEAR);
        s.engine.fuels.coal = self.flag(FUEL_COAL);
        s.engine.fuels.oil = self.flag(FUEL_OIL);
        s.engine.fuels.diesel = self.flag(FUEL_DIESEL);
        s.engine.fuels.gasoline = self.flag(FUEL_GASOLINE);
        s.engine.fuels.battery = self.flag(FUEL_BATTERY);
        s.engine.boilers.simple = self.flag(BOILER_SIMPLE);
        s.engine.boilers.complex = self.flag(BOILER_COMPLEX);
        s.engine.boilers.turbine = self.flag(BOILER_TURBINE);
        s.engine.drives.direct = self.flag(DRIVE_DIRECT);
        s.engine.drives.geared = self.flag(DRIVE_GEARED);
        s.engine.drives.electric = self.flag(DRIVE_ELECTRIC);
        s.engine.drives.hydraulic = self.flag(DRIVE_HYDRAULIC);
        s.mines.num = self.count(MINES_NUM);
        s.mines.reload = self.count(MINES_RELOAD);
        s.mines.unit_wgt = self.number(MINES_WGT);
        s.mines.desc = self.text(MINES_MOUNT_KIND);
        let trim = self.count(TRIM);
        s.trim = trim as u8;
        s.armor.bh_kind = if self.count(ARMOR_BH_KIND) == 0 {
            BulkheadType::Additional
        } else {
            BulkheadType::Strengthened
        };
        s.mines.year = self.weapons_year();
        let mut notes: Vec<String> = Vec::new();
        push_lines(&mut notes, &self.notes);
        assert(views(notes@) =~= views(self.notes@));
        s.notes = notes;
        s.batteries = batteries;
        s.torps = torps;
        s.asw = asw;
        Some(s)
    }
}

} // verus!
