//! The report: the figures of a ship on paper, section by section.

use vstd::prelude::*;
use crate::armor::{Armor, BulkheadType};
use crate::measure::{Measure, Metric};
use crate::num::Num;
use crate::{plural, spec_plural};
use crate::render::{fixed, grouped, grouped_fixed, spec_fixed, spec_grouped, spec_grouped_fixed};
use crate::ship::Ship;
use crate::text::{
    cat2, cat3, cat4, cat5, cat6, cat7, cat8, cat9, decimal, join, push_line, push_lines,
    spec_decimal, spec_join, views,
};
use crate::weapons::{Battery, MountType, Torpedoes, ASW};

verus! {

pub open spec fn spec_rank(i: usize) -> Seq<char> {
    if i == 0 {
        "Main"@
    } else if i == 1 {
        "2nd"@
    } else {
        "Other"@
    }
}

/// The rank of a set of weapons among its like: the first is the main one,
/// the next the second, and any further one another.
pub fn rank(i: usize) -> (r: String)
    ensures
        r@ == spec_rank(i),
{
    if i == 0 {
        "Main".to_owned()
    } else if i == 1 {
        "2nd".to_owned()
    } else {
        "Other".to_owned()
    }
}

pub open spec fn spec_battery_rank(i: usize) -> Seq<char> {
    if i == 0 {
        "Main"@
    } else if i == 1 {
        "2nd"@
    } else if i == 2 {
        "3rd"@
    } else if i == 3 {
        "4th"@
    } else if i == 4 {
        "5th"@
    } else {
        "Other"@
    }
}

/// The rank of a battery among the batteries, from the main one to the
/// fifth; any further one is another.
pub fn battery_rank(i: usize) -> (r: String)
    ensures
        r@ == spec_battery_rank(i),
{
    if i == 0 {
        "Main".to_owned()
    } else if i == 1 {
        "2nd".to_owned()
    } else if i == 2 {
        "3rd".to_owned()
    } else if i == 3 {
        "4th".to_owned()
    } else if i == 4 {
        "5th".to_owned()
    } else {
        "Other".to_owned()
    }
}

pub open spec fn spec_plate(thick: Num) -> Seq<char> {
    if thick.lt(Num::Micro(10_000_000)) {
        spec_grouped_fixed(thick, 2)
    } else {
        spec_grouped_fixed(thick, 1)
    }
}

/// The thickness of a plate in inches: with two decimals under ten inches,
/// else with one.
pub fn plate(thick: Num) -> (r: String)
    ensures
        r@ == spec_plate(thick),
{
    if thick.lt(Num::Micro(10_000_000)) {
        grouped_fixed(thick, 2)
    } else {
        grouped_fixed(thick, 1)
    }
}

pub open spec fn spec_gun_plate(thick: Num, units: Metric) -> Seq<char> {
    if thick == Num::Micro(0) {
        "-"@
    } else {
        (if thick.ge(Num::Micro(10_000_000)) {
            spec_grouped_fixed(thick, 1)
        } else {
            spec_grouped_fixed(thick, 2)
        }) + "\" / "@ + spec_fixed(units.of(thick, Measure::LengthSmall), 0) + " mm"@
    }
}

/// The thickness of a plate on a gun mount, in inches and in millimeters:
/// a dash for none; the inches with one decimal from ten inches on, else
/// with two.
pub fn gun_plate(thick: Num, units: Metric) -> (r: String)
    ensures
        r@ == spec_gun_plate(thick, units),
{
    if thick == Num::Micro(0) {
        "-".to_owned()
    } else {
        let inches = if thick.ge(Num::Micro(10_000_000)) {
            grouped_fixed(thick, 1)
        } else {
            grouped_fixed(thick, 2)
        };
        cat4(inches.as_str(), "\" / ", fixed(units.of(thick, Measure::LengthSmall), 0).as_str(), " mm")
    }
}

impl Armor {
    pub open spec fn spec_sided(&self) -> bool {
        self.main.thick.plus(self.end.thick).plus(self.upper.thick).plus(self.bulkhead.thick).gt(
            Num::zero(),
        )
    }

    /// Whether the sides are armored: belts and torpedo bulkhead together
    /// have a thickness.
    #[verifier::when_used_as_spec(spec_sided)]
    pub fn sided(&self) -> (r: bool)
        ensures
            r == self.spec_sided(),
    {
        self.main.thick.plus(self.end.thick).plus(self.upper.thick).plus(self.bulkhead.thick).gt(
            Num::Micro(0),
        )
    }
}

impl Battery {
    pub open spec fn spec_caliber_metric(&self) -> Seq<char> {
        let metric = self.units.of(self.diam, Measure::LengthSmall);
        if self.diam.times(Num::Micro(25_400_000)).lt(Num::Micro(100_000_000)) {
            spec_grouped_fixed(metric, 1)
        } else {
            spec_grouped_fixed(metric, 0)
        }
    }

    /// The caliber in millimeters: with one decimal for guns of less than a
    /// hundred millimeters, else with none.
    pub fn caliber_metric(&self) -> (r: String)
        ensures
            r@ == self.spec_caliber_metric(),
    {
        let metric = self.units.of(self.diam, Measure::LengthSmall);
        if self.diam.times(Num::Micro(25_400_000)).lt(Num::Micro(100_000_000)) {
            grouped_fixed(metric, 1)
        } else {
            grouped_fixed(metric, 0)
        }
    }

    pub open spec fn spec_casemate_word(&self, g: usize) -> Seq<char>
        recommends
            g < 2,
    {
        if self.mount_kind == MountType::Broadside {
            if self.groups[g as int].lower_deck {
                "on gundeck"@
            } else {
                "on upperdeck"@
            }
        } else {
            "in "@ + (if self.groups[g as int].lower_deck {
                "lower "@
            } else {
                ""@
            }) + "casemate"@ + spec_plural(self.groups[g as int].below)
        }
    }

    /// Where the mounts of a group lie in the hull: guns in broadside on the
    /// gundeck or the upper deck, others in casemates.
    pub fn casemate_word(&self, g: usize) -> (r: String)
        requires
            g < 2,
        ensures
            r@ == self.spec_casemate_word(g),
    {
        if self.mount_kind == MountType::Broadside {
            if self.groups[g].lower_deck {
                "on gundeck".to_owned()
            } else {
                "on upperdeck".to_owned()
            }
        } else {
            cat4(
                "in ",
                (if self.groups[g].lower_deck {
                    "lower "
                } else {
                    ""
                }),
                "casemate",
                plural(self.groups[g].below).as_str(),
            )
        }
    }

    pub open spec fn spec_group_lines(&self, g: usize, main: bool) -> Seq<Seq<char>>
        recommends
            g < 2,
    {
        let s0 = Seq::<Seq<char>>::empty();
        let s1 = if self.groups[g as int].spec_num_mounts() != 0 {
            let s2 = s0.push(
                "        "@
                    + spec_decimal(self.groups[g as int].spec_num_mounts() as nat)
                    + " x "@
                    + self.groups[g as int].layout@
                    + " mount"@
                    + (if self.groups[g as int].spec_num_mounts() == 1 { ""@ } else { "s"@ })
                    + " on "@
                    + self.groups[g as int].place@,
            );
            let s3 = if self.groups[g as int].above > 0 {
                s2.push(
                    "        "@
                        + spec_decimal(self.groups[g as int].above as nat)
                        + " "@
                        + (if self.groups[g as int].two_mounts_up { "double "@ } else { ""@ })
                        + "raised mount"@
                        + (if self.groups[g as int].above > 1 { "s"@ } else if self.groups[g as int].super_aft && main { " aft"@ } else { ""@ })
                        + (if self.spec_superfiring(g as int, false) { " - superfiring"@ } else { ""@ }),
                )
            } else {
                s2
            };
            let s4 = if self.groups[g as int].below > 0 {
                s3.push(
                    "        "@
                        + spec_decimal(self.groups[g as int].below as nat)
                        + " hull mount"@
                        + (if self.groups[g as int].above > 1 { "s"@ } else if self.groups[g as int].super_aft && main { " aft"@ } else { ""@ })
                        + " "@
                        + self.spec_casemate_word(g)
                        + "- Limited use in "@
                        + (if self.free.lt(Num::Micro(12_000_000)) || (self.free.lt(Num::Micro(19_000_000)) && self.groups[g as int].lower_deck) { "any sea"@ } else if self.free.lt(Num::Micro(16_000_000)) || (self.free.lt(Num::Micro(24_000_000)) && self.groups[g as int].lower_deck) { "all but light seas"@ } else { "heavy seas"@ }),
                )
            } else {
                s3
            };
            s4
        } else {
            s0
        };
        s1
    }

    /// The mounts of one of the two groups: how many there are, of what kind
    /// and where; then those that are raised, and those in the hull with the
    /// sea in which they can be worked. Nothing for a group without mounts.
    pub fn group_lines(&self, g: usize, main: bool) -> (r: Vec<String>)
        requires
            g < 2,
        ensures
            views(r@) == self.spec_group_lines(g, main),
    {
        let mut lines: Vec<String> = Vec::new();
        if self.groups[g].num_mounts() != 0 {
            push_line(
                &mut lines,
                cat8(
                    "        ",
                    decimal(self.groups[g].num_mounts() as u64).as_str(),
                    " x ",
                    self.groups[g].layout.as_str(),
                    " mount",
                    (if self.groups[g].num_mounts() == 1 { "" } else { "s" }),
                    " on ",
                    self.groups[g].place.as_str(),
                ),
            );
            if self.groups[g].above > 0 {
                push_line(
                    &mut lines,
                    cat7(
                        "        ",
                        decimal(self.groups[g].above as u64).as_str(),
                        " ",
                        (if self.groups[g].two_mounts_up { "double " } else { "" }),
                        "raised mount",
                        (if self.groups[g].above > 1 { "s" } else if self.groups[g].super_aft && main { " aft" } else { "" }),
                        (if self.superfiring(g, false) { " - superfiring" } else { "" }),
                    ),
                );
            }
            if self.groups[g].below > 0 {
                push_line(
                    &mut lines,
                    cat8(
                        "        ",
                        decimal(self.groups[g].below as u64).as_str(),
                        " hull mount",
                        (if self.groups[g].above > 1 { "s" } else if self.groups[g].super_aft && main { " aft" } else { "" }),
                        " ",
                        self.casemate_word(g).as_str(),
                        "- Limited use in ",
                        (if self.free.lt(Num::Micro(12_000_000)) || (self.free.lt(Num::Micro(19_000_000)) && self.groups[g].lower_deck) { "any sea" } else if self.free.lt(Num::Micro(16_000_000)) || (self.free.lt(Num::Micro(24_000_000)) && self.groups[g].lower_deck) { "all but light seas" } else { "heavy seas" }),
                    ),
                );
            }
        }
        lines
    }

    pub open spec fn spec_lines(&self, main: bool) -> Seq<Seq<char>> {
        let s0 = Seq::<Seq<char>>::empty();
        let s1 = if self.num != 0 {
            let s2 = s0.push(
                "    "@
                    + spec_decimal(self.num as nat)
                    + " - "@
                    + spec_fixed(self.diam, 2)
                    + "\" / "@
                    + self.spec_caliber_metric()
                    + " mm "@
                    + spec_fixed(self.len, 1)
                    + (" cal gun"@ + spec_plural(self.num) + " - "@ + spec_grouped_fixed(self.shell_wgt, 2) + "lbs / "@ + spec_grouped_fixed(self.units.of(self.shell_wgt, Measure::Weight), 2) + "kg shells, "@ + spec_grouped(self.shells as nat) + " per gun"@),
            );
            let s3 = s2.push(
                "        "@
                    + self.kind@
                    + " gun"@
                    + spec_plural(self.num)
                    + " in "@
                    + self.mount@
                    + " mount"@
                    + spec_plural(self.num)
                    + (", "@ + spec_decimal(self.year as nat) + " Model"@),
            );
            let s4 = s3 + self.spec_group_lines(0, main);
            let s5 = s4 + self.spec_group_lines(1, main);
            s5
        } else {
            s0
        };
        s1
    }

    /// The battery in the list of the armament: the guns and their shells,
    /// kind, mounts and year, then the two groups of mounts. Nothing for a
    /// battery without guns. `main` says whether this is the main battery.
    pub fn lines(&self, main: bool) -> (r: Vec<String>)
        ensures
            views(r@) == self.spec_lines(main),
    {
        let mut lines: Vec<String> = Vec::new();
        if self.num != 0 {
            push_line(
                &mut lines,
                cat9(
                    "    ",
                    decimal(self.num as u64).as_str(),
                    " - ",
                    fixed(self.diam, 2).as_str(),
                    "\" / ",
                    self.caliber_metric().as_str(),
                    " mm ",
                    fixed(self.len, 1).as_str(),
                    cat9(" cal gun", plural(self.num).as_str(), " - ", grouped_fixed(self.shell_wgt, 2).as_str(), "lbs / ", grouped_fixed(self.units.of(self.shell_wgt, Measure::Weight), 2).as_str(), "kg shells, ", grouped(self.shells as u64).as_str(), " per gun").as_str(),
                ),
            );
            push_line(
                &mut lines,
                cat9(
                    "        ",
                    self.kind.as_str(),
                    " gun",
                    plural(self.num).as_str(),
                    " in ",
                    self.mount.as_str(),
                    " mount",
                    plural(self.num).as_str(),
                    cat3(", ", decimal(self.year as u64).as_str(), " Model").as_str(),
                ),
            );
            push_lines(&mut lines, &self.group_lines(0, main));
            push_lines(&mut lines, &self.group_lines(1, main));
        }
        lines
    }

    pub open spec fn spec_armor_lines(&self, i: usize) -> Seq<Seq<char>> {
        let s0 = Seq::<Seq<char>>::empty();
        let s1 = if !(self.armor_face == Num::Micro(0) && self.armor_back == Num::Micro(0) && self.armor_barb == Num::Micro(0)) {
            s0.push(
                "    "@
                    + spec_battery_rank(i)
                    + ":    "@
                    + spec_gun_plate(self.armor_face, self.units)
                    + "        "@
                    + spec_gun_plate(self.armor_back, self.units)
                    + "            "@
                    + spec_gun_plate(self.armor_barb, self.units),
            )
        } else {
            s0
        };
        s1
    }

    /// The armor of the guns in the list of the armor: face, rest of the
    /// gunhouse and barbette, a dash for what has none. Nothing for a battery
    /// without armor. `i` is the place of the battery among the batteries.
    pub fn armor_lines(&self, i: usize) -> (r: Vec<String>)
        ensures
            views(r@) == self.spec_armor_lines(i),
    {
        let mut lines: Vec<String> = Vec::new();
        if !(self.armor_face == Num::Micro(0) && self.armor_back == Num::Micro(0) && self.armor_barb == Num::Micro(0)) {
            push_line(
                &mut lines,
                cat8(
                    "    ",
                    battery_rank(i).as_str(),
                    ":    ",
                    gun_plate(self.armor_face, self.units).as_str(),
                    "        ",
                    gun_plate(self.armor_back, self.units).as_str(),
                    "            ",
                    gun_plate(self.armor_barb, self.units).as_str(),
                ),
            );
        }
        lines
    }
}

impl Torpedoes {
    pub open spec fn spec_each_word(&self) -> Seq<char> {
        if self.num == 1 {
            " -"@
        } else {
            "es - "@ + spec_fixed(self.wgt_weaps.over(Num::spec_whole(self.num as int)), 3)
                + " t each,"@
        }
    }

    /// The ending of `torpedo` and the weight of one, where there are
    /// several.
    pub fn each_word(&self) -> (r: String)
        ensures
            r@ == self.spec_each_word(),
    {
        if self.num == 1 {
            " -".to_owned()
        } else {
            cat3("es - ", fixed(self.wgt_weaps.over(Num::from_u32(self.num)), 3).as_str(), " t each,")
        }
    }

    pub open spec fn spec_lines(&self, i: usize) -> Seq<Seq<char>> {
        let s0 = Seq::<Seq<char>>::empty();
        let s1 = if self.num != 0 {
            let s2 = s0.push(spec_rank(i) + " Torpedoes"@);
            let s3 = s2.push(
                spec_decimal(self.num as nat)
                    + " - "@
                    + spec_fixed(self.diam, 1)
                    + "\" / "@
                    + spec_fixed(self.units.of(self.diam, Measure::LengthSmall), 0)
                    + " mm, "@
                    + spec_fixed(self.len, 2)
                    + " ft / "@
                    + (spec_fixed(self.units.of(self.len, Measure::LengthLong), 2) + " m torpedo"@ + self.spec_each_word() + " "@ + spec_fixed(self.wgt_weaps, 3) + " t total"@),
            );
            let s4 = s3.push("    "@ + self.desc@);
            s4
        } else {
            s0
        };
        s1
    }

    /// The torpedoes in the list of the armament: their rank, number, size
    /// and weight, and how they are mounted. Nothing where there are none.
    /// `i` is the place of the set among the sets.
    pub fn lines(&self, i: usize) -> (r: Vec<String>)
        ensures
            views(r@) == self.spec_lines(i),
    {
        let mut lines: Vec<String> = Vec::new();
        if self.num != 0 {
            push_line(&mut lines, cat2(rank(i).as_str(), " Torpedoes"));
            push_line(
                &mut lines,
                cat9(
                    decimal(self.num as u64).as_str(),
                    " - ",
                    fixed(self.diam, 1).as_str(),
                    "\" / ",
                    fixed(self.units.of(self.diam, Measure::LengthSmall), 0).as_str(),
                    " mm, ",
                    fixed(self.len, 2).as_str(),
                    " ft / ",
                    cat6(fixed(self.units.of(self.len, Measure::LengthLong), 2).as_str(), " m torpedo", self.each_word().as_str(), " ", fixed(self.wgt_weaps, 3).as_str(), " t total").as_str(),
                ),
            );
            push_line(&mut lines, cat2("    ", self.desc.as_str()));
        }
        lines
    }
}

impl ASW {
    pub open spec fn spec_lines(&self, i: usize) -> Seq<Seq<char>> {
        let s0 = Seq::<Seq<char>>::empty();
        let s1 = if self.num != 0 {
            let s2 = s0.push(spec_rank(i) + " DC/AS Mortars"@);
            let s3 = s2.push(
                spec_decimal(self.num as nat)
                    + " - "@
                    + spec_fixed(self.unit_wgt, 2)
                    + " lbs / "@
                    + spec_fixed(self.units.of(self.unit_wgt, Measure::Weight), 2)
                    + " kg "@
                    + self.kind@
                    + (if self.reload > 0 { " + "@ + spec_decimal(self.reload as nat) + " reloads"@ } else { ""@ })
                    + (" - "@ + spec_fixed(self.wgt_weaps, 3) + " t total"@),
            );
            let s4 = if self.desc@.len() != 0 {
                s3.push("    "@ + self.desc@)
            } else {
                s3
            };
            s4
        } else {
            s0
        };
        s1
    }

    /// The anti-submarine weapons in the list of the armament: their rank,
    /// number, weight and kind, the reloads where there are any, and how the
    /// charges are dropped where that is said. Nothing where there are none.
    /// `i` is the place of the set among the sets.
    pub fn lines(&self, i: usize) -> (r: Vec<String>)
        ensures
            views(r@) == self.spec_lines(i),
    {
        let mut lines: Vec<String> = Vec::new();
        if self.num != 0 {
            push_line(&mut lines, cat2(rank(i).as_str(), " DC/AS Mortars"));
            push_line(
                &mut lines,
                cat9(
                    decimal(self.num as u64).as_str(),
                    " - ",
                    fixed(self.unit_wgt, 2).as_str(),
                    " lbs / ",
                    fixed(self.units.of(self.unit_wgt, Measure::Weight), 2).as_str(),
                    " kg ",
                    self.kind.as_str(),
                    (if self.reload > 0 { cat3(" + ", decimal(self.reload as u64).as_str(), " reloads") } else { "".to_owned() }).as_str(),
                    cat3(" - ", fixed(self.wgt_weaps, 3).as_str(), " t total").as_str(),
                ),
            );
            if self.desc.as_str().unicode_len() != 0 {
                push_line(&mut lines, cat2("    ", self.desc.as_str()));
            }
        }
        lines
    }
}

impl Ship {
    pub open spec fn spec_engine_note(&self) -> Seq<char> {
        if self.year != self.engine.year {
            " (Engine "@ + spec_decimal(self.engine.year as nat) + ")"@
        } else {
            ""@
        }
    }

    /// The year of the machinery's design in brackets, where it is another
    /// than the ship's.
    pub fn engine_note(&self) -> (r: String)
        ensures
            r@ == self.spec_engine_note(),
    {
        if self.year != self.engine.year {
            cat3(" (Engine ", decimal(self.engine.year as u64).as_str(), ")")
        } else {
            "".to_owned()
        }
    }

    pub open spec fn spec_percent_calc(&self, portion: Num) -> Seq<char> {
        spec_grouped_fixed(portion, 0) + " tons, "@ + spec_fixed(
            self.percent_of_displacement(portion),
            1,
        ) + " %"@
    }

    /// A weight in whole tons and in hundredths of the displacement, as in
    /// `1,310 tons, 10.9 %`.
    pub fn percent_calc(&self, portion: Num) -> (r: String)
        ensures
            r@ == self.spec_percent_calc(portion),
    {
        cat4(
            grouped_fixed(portion, 0).as_str(),
            " tons, ",
            fixed(self.percent_of_displacement(portion), 1).as_str(),
            " %",
        )
    }

    pub open spec fn spec_heading(&self) -> Seq<Seq<char>>
        recommends
            self.batteries.len() >= 3,
    {
        let s0 = Seq::<Seq<char>>::empty();
        let s1 = s0.push(
            self.name@
                + ", "@
                + self.country@
                + " "@
                + self.kind@
                + " laid down "@
                + spec_decimal(self.year as nat)
                + self.spec_engine_note(),
        );
        let s2 = if self.spec_ship_type().len() != 0 {
            s1.push(self.spec_ship_type())
        } else {
            s1
        };
        let s3 = s2 + self.spec_failure_lines();
        let s4 = s3.push(""@);
        s4
    }

    /// The head of the report: who she is and when she was laid down, with
    /// the year of her engines where that is another; then her type, where
    /// she has one; then the failures of her design.
    pub fn heading(&self) -> (r: Vec<String>)
        requires
            self.batteries.len() >= 3,
        ensures
            views(r@) == self.spec_heading(),
    {
        let mut lines: Vec<String> = Vec::new();
        push_line(
            &mut lines,
            cat8(
                self.name.as_str(),
                ", ",
                self.country.as_str(),
                " ",
                self.kind.as_str(),
                " laid down ",
                decimal(self.year as u64).as_str(),
                self.engine_note().as_str(),
            ),
        );
        if self.ship_type().as_str().unicode_len() != 0 {
            push_line(&mut lines, self.ship_type());
        }
        push_lines(&mut lines, &self.failure_lines());
        push_line(&mut lines, "".to_owned());
        lines
    }

    pub open spec fn spec_displacement_lines(&self) -> Seq<Seq<char>> {
        seq![
            "Displacement:"@,
            "    "@
                + spec_grouped_fixed(self.d_lite(), 0)
                + " t light; "@
                + spec_grouped_fixed(self.d_std(), 0)
                + " t standard; "@
                + spec_grouped_fixed(self.hull.d, 0)
                + " t normal; "@
                + spec_grouped_fixed(self.d_max(), 0)
                + " t full load"@,
            ""@,
        ]
    }

    /// The displacements: light, standard, normal and at full load.
    pub fn displacement_lines(&self) -> (r: Vec<String>)
        ensures
            views(r@) == self.spec_displacement_lines(),
    {
        let mut lines: Vec<String> = Vec::new();
        push_line(&mut lines, "Displacement:".to_owned());
        push_line(
            &mut lines,
            cat9(
                "    ",
                grouped_fixed(self.d_lite(), 0).as_str(),
                " t light; ",
                grouped_fixed(self.d_std(), 0).as_str(),
                " t standard; ",
                grouped_fixed(self.hull.d, 0).as_str(),
                " t normal; ",
                grouped_fixed(self.d_max(), 0).as_str(),
                " t full load",
            ),
        );
        push_line(&mut lines, "".to_owned());
        lines
    }

    pub open spec fn spec_dimension_lines(&self) -> Seq<Seq<char>> {
        seq![
            "Dimensions: Length (overall / waterline) x beam x draught (normal/deep)"@,
            "    ("@
                + spec_fixed(self.hull.loa, 2)
                + " ft / "@
                + spec_fixed(self.hull.lwl, 2)
                + " ft) x "@
                + spec_fixed(self.hull.b, 2)
                + " ft "@
                + (if self.hull.bb.gt(self.hull.b) { "(Bulges "@ + spec_fixed(self.hull.bb, 2) + " ft) "@ } else { ""@ })
                + ("x ("@ + spec_fixed(self.hull.t, 2) + " / "@ + spec_fixed(self.t_max(), 2) + " ft)"@),
            "    ("@
                + spec_fixed(self.hull.units.of(self.hull.loa, Measure::LengthLong), 2)
                + " m / "@
                + spec_fixed(self.hull.units.of(self.hull.lwl, Measure::LengthLong), 2)
                + " m) x "@
                + spec_fixed(self.hull.units.of(self.hull.b, Measure::LengthLong), 2)
                + " m "@
                + (if self.hull.bb.gt(self.hull.b) { "(Bulges "@ + spec_fixed(self.hull.units.of(self.hull.bb, Measure::LengthLong), 2) + " m) "@ } else { ""@ })
                + ("x ("@ + spec_fixed(self.hull.units.of(self.hull.t, Measure::LengthLong), 2) + " / "@ + spec_fixed(self.hull.units.of(self.t_max(), Measure::LengthLong), 2) + " m)"@),
            ""@,
        ]
    }

    /// The dimensions: length over all and at the waterline, beam, the beam
    /// over the bulges where there are any, and the draft at normal and at
    /// maximum displacement.
    pub fn dimension_lines(&self) -> (r: Vec<String>)
        ensures
            views(r@) == self.spec_dimension_lines(),
    {
        let mut lines: Vec<String> = Vec::new();
        push_line(
            &mut lines,
            "Dimensions: Length (overall / waterline) x beam x draught (normal/deep)".to_owned(),
        );
        push_line(
            &mut lines,
            cat9(
                "    (",
                fixed(self.hull.loa, 2).as_str(),
                " ft / ",
                fixed(self.hull.lwl, 2).as_str(),
                " ft) x ",
                fixed(self.hull.b, 2).as_str(),
                " ft ",
                (if self.hull.bb.gt(self.hull.b) { cat3("(Bulges ", fixed(self.hull.bb, 2).as_str(), " ft) ") } else { "".to_owned() }).as_str(),
                cat5("x (", fixed(self.hull.t, 2).as_str(), " / ", fixed(self.t_max(), 2).as_str(), " ft)").as_str(),
            ),
        );
        push_line(
            &mut lines,
            cat9(
                "    (",
                fixed(self.hull.units.of(self.hull.loa, Measure::LengthLong), 2).as_str(),
                " m / ",
                fixed(self.hull.units.of(self.hull.lwl, Measure::LengthLong), 2).as_str(),
                " m) x ",
                fixed(self.hull.units.of(self.hull.b, Measure::LengthLong), 2).as_str(),
                " m ",
                (if self.hull.bb.gt(self.hull.b) { cat3("(Bulges ", fixed(self.hull.units.of(self.hull.bb, Measure::LengthLong), 2).as_str(), " m) ") } else { "".to_owned() }).as_str(),
                cat5("x (", fixed(self.hull.units.of(self.hull.t, Measure::LengthLong), 2).as_str(), " / ", fixed(self.hull.units.of(self.t_max(), Measure::LengthLong), 2).as_str(), " m)").as_str(),
            ),
        );
        push_line(&mut lines, "".to_owned());
        lines
    }

    pub open spec fn spec_battery_lines_upto(&self, n: int) -> Seq<Seq<char>>
        decreases n,
    {
        if n <= 0 {
            Seq::<Seq<char>>::empty()
        } else {
            self.spec_battery_lines_upto(n - 1) + self.batteries[n - 1].spec_lines(n == 1)
        }
    }

    pub open spec fn spec_battery_lines(&self) -> Seq<Seq<char>> {
        self.spec_battery_lines_upto(self.batteries.len() as int)
    }

    /// The batteries in the list of the armament, from the main battery on.
    pub fn battery_lines(&self) -> (r: Vec<String>)
        ensures
            views(r@) == self.spec_battery_lines(),
    {
        let mut lines: Vec<String> = Vec::new();
        let mut i: usize = 0;
        assert(views(lines@) =~= self.spec_battery_lines_upto(0));
        while i < self.batteries.len()
            invariant
                i <= self.batteries.len(),
                views(lines@) == self.spec_battery_lines_upto(i as int),
            decreases self.batteries.len() - i,
        {
            push_lines(&mut lines, &self.batteries[i].lines(i == 0));
            i += 1;
        }
        lines
    }

    pub open spec fn spec_torpedo_lines_upto(&self, n: int) -> Seq<Seq<char>>
        decreases n,
    {
        if n <= 0 {
            Seq::<Seq<char>>::empty()
        } else {
            self.spec_torpedo_lines_upto(n - 1) + self.torps[n - 1].spec_lines((n - 1) as usize)
        }
    }

    pub open spec fn spec_torpedo_lines(&self) -> Seq<Seq<char>> {
        self.spec_torpedo_lines_upto(self.torps.len() as int)
    }

    /// The sets of torpedoes in the list of the armament, from the main set
    /// on.
    pub fn torpedo_lines(&self) -> (r: Vec<String>)
        ensures
            views(r@) == self.spec_torpedo_lines(),
    {
        let mut lines: Vec<String> = Vec::new();
        let mut i: usize = 0;
        assert(views(lines@) =~= self.spec_torpedo_lines_upto(0));
        while i < self.torps.len()
            invariant
                i <= self.torps.len(),
                views(lines@) == self.spec_torpedo_lines_upto(i as int),
            decreases self.torps.len() - i,
        {
            push_lines(&mut lines, &self.torps[i].lines(i));
            i += 1;
        }
        lines
    }

    pub open spec fn spec_asw_lines_upto(&self, n: int) -> Seq<Seq<char>>
        decreases n,
    {
        if n <= 0 {
            Seq::<Seq<char>>::empty()
        } else {
            self.spec_asw_lines_upto(n - 1) + self.asw[n - 1].spec_lines((n - 1) as usize)
        }
    }

    pub open spec fn spec_asw_lines(&self) -> Seq<Seq<char>> {
        self.spec_asw_lines_upto(self.asw.len() as int)
    }

    /// The sets of anti-submarine weapons in the list of the armament, from
    /// the main set on.
    pub fn asw_lines(&self) -> (r: Vec<String>)
        ensures
            views(r@) == self.spec_asw_lines(),
    {
        let mut lines: Vec<String> = Vec::new();
        let mut i: usize = 0;
        assert(views(lines@) =~= self.spec_asw_lines_upto(0));
        while i < self.asw.len()
            invariant
                i <= self.asw.len(),
                views(lines@) == self.spec_asw_lines_upto(i as int),
            decreases self.asw.len() - i,
        {
            push_lines(&mut lines, &self.asw[i].lines(i));
            i += 1;
        }
        lines
    }

    pub open spec fn spec_gun_plate_lines_upto(&self, n: int) -> Seq<Seq<char>>
        decreases n,
    {
        if n <= 0 {
            Seq::<Seq<char>>::empty()
        } else {
            self.spec_gun_plate_lines_upto(n - 1) + self.batteries[n - 1].spec_armor_lines((n - 1) as usize)
        }
    }

    pub open spec fn spec_gun_plate_lines(&self) -> Seq<Seq<char>> {
        self.spec_gun_plate_lines_upto(self.batteries.len() as int)
    }

    /// The armor of the guns, battery by battery.
    pub fn gun_plate_lines(&self) -> (r: Vec<String>)
        ensures
            views(r@) == self.spec_gun_plate_lines(),
    {
        let mut lines: Vec<String> = Vec::new();
        let mut i: usize = 0;
        assert(views(lines@) =~= self.spec_gun_plate_lines_upto(0));
        while i < self.batteries.len()
            invariant
                i <= self.batteries.len(),
                views(lines@) == self.spec_gun_plate_lines_upto(i as int),
            decreases self.batteries.len() - i,
        {
            push_lines(&mut lines, &self.batteries[i].armor_lines(i));
            i += 1;
        }
        lines
    }

    pub open spec fn spec_mine_lines(&self) -> Seq<Seq<char>> {
        let s0 = Seq::<Seq<char>>::empty();
        let s1 = if self.mines.num != 0 {
            let s2 = s0.push("Mines"@);
            let s3 = s2.push(
                spec_decimal(self.mines.num as nat)
                    + " - "@
                    + spec_fixed(self.mines.unit_wgt, 2)
                    + " lbs / "@
                    + spec_fixed(self.mines.units.of(self.mines.unit_wgt, Measure::Weight), 2)
                    + " kg mines"@
                    + (if self.mines.reload > 0 { " + "@ + spec_decimal(self.mines.reload as nat) + " reloads"@ } else { ""@ })
                    + " - "@
                    + (spec_fixed(self.mines.wgt_weaps, 3) + " t total"@),
            );
            let s4 = s3.push("    "@ + self.mines.desc@);
            s4
        } else {
            s0
        };
        s1
    }

    /// The mines in the list of the armament: number, weight, the reloads
    /// where there are any, and how they are laid. Nothing where there are
    /// none.
    pub fn mine_lines(&self) -> (r: Vec<String>)
        ensures
            views(r@) == self.spec_mine_lines(),
    {
        let mut lines: Vec<String> = Vec::new();
        if self.mines.num != 0 {
            push_line(&mut lines, "Mines".to_owned());
            push_line(
                &mut lines,
                cat9(
                    decimal(self.mines.num as u64).as_str(),
                    " - ",
                    fixed(self.mines.unit_wgt, 2).as_str(),
                    " lbs / ",
                    fixed(self.mines.units.of(self.mines.unit_wgt, Measure::Weight), 2).as_str(),
                    " kg mines",
                    (if self.mines.reload > 0 { cat3(" + ", decimal(self.mines.reload as u64).as_str(), " reloads") } else { "".to_owned() }).as_str(),
                    " - ",
                    cat2(fixed(self.mines.wgt_weaps, 3).as_str(), " t total").as_str(),
                ),
            );
            push_line(&mut lines, cat2("    ", self.mines.desc.as_str()));
        }
        lines
    }

    pub open spec fn spec_armament_lines(&self) -> Seq<Seq<char>> {
        let s0 = Seq::<Seq<char>>::empty();
        let s1 = s0.push("Armament:"@);
        let s2 = s1 + self.spec_battery_lines();
        let s3 = s2.push(
            "    Weight of broadside "@
                + spec_grouped_fixed(self.wgt_broad(), 0)
                + " lbs / "@
                + spec_grouped_fixed(Metric::imperial().of(self.wgt_broad(), Measure::Weight), 0)
                + " kg"@,
        );
        let s4 = s3 + self.spec_torpedo_lines();
        let s5 = s4 + self.spec_mine_lines();
        let s6 = s5 + self.spec_asw_lines();
        s6
    }

    /// The armament: the batteries, the weight of the broadside, the
    /// torpedoes, the mines and the anti-submarine weapons.
    pub fn armament_lines(&self) -> (r: Vec<String>)
        ensures
            views(r@) == self.spec_armament_lines(),
    {
        let mut lines: Vec<String> = Vec::new();
        push_line(&mut lines, "Armament:".to_owned());
        push_lines(&mut lines, &self.battery_lines());
        push_line(
            &mut lines,
            cat5(
                "    Weight of broadside ",
                grouped_fixed(self.wgt_broad(), 0).as_str(),
                " lbs / ",
                grouped_fixed(Metric::imperial().of(self.wgt_broad(), Measure::Weight), 0).as_str(),
                " kg",
            ),
        );
        push_lines(&mut lines, &self.torpedo_lines());
        push_lines(&mut lines, &self.mine_lines());
        push_lines(&mut lines, &self.asw_lines());
        lines
    }

    pub open spec fn spec_belt_lines(&self) -> Seq<Seq<char>>
        recommends
            self.batteries.len() > 0,
    {
        let s0 = Seq::<Seq<char>>::empty();
        let s1 = s0.push(" - Belts:    Width (max)    Length (avg)    Height (avg)"@);
        let s2 = if self.armor.main.thick.gt(Num::Micro(0)) {
            s1.push(
                "    Main:    "@
                    + spec_plate(self.armor.main.thick)
                    + "\" / "@
                    + spec_fixed(self.armor.units.of(self.armor.main.thick, Measure::LengthSmall), 0)
                    + " mm    "@
                    + spec_fixed(self.armor.main.len, 2)
                    + " ft / "@
                    + spec_fixed(self.armor.units.of(self.armor.main.len, Measure::LengthLong), 2)
                    + (" m    "@ + spec_fixed(self.armor.main.hgt, 2) + " ft / "@ + spec_fixed(self.armor.units.of(self.armor.main.hgt, Measure::LengthLong), 2) + " m"@),
            )
        } else {
            s1
        };
        let s3 = if self.armor.end.thick.gt(Num::Micro(0)) {
            let s4 = s2.push(
                "    Ends:    "@
                    + spec_plate(self.armor.end.thick)
                    + "\" / "@
                    + spec_fixed(self.armor.units.of(self.armor.end.thick, Measure::LengthSmall), 0)
                    + " mm    "@
                    + spec_fixed(self.armor.end.len, 2)
                    + " ft / "@
                    + spec_fixed(self.armor.units.of(self.armor.end.len, Measure::LengthLong), 2)
                    + (" m    "@ + spec_fixed(self.armor.end.hgt, 2) + " ft / "@ + spec_fixed(self.armor.units.of(self.armor.end.hgt, Measure::LengthLong), 2) + " m"@),
            );
            let s5 = if self.armor.main.len.plus(self.armor.end.len).lt(self.hull.lwl) {
                s4.push(
                    "    "@
                        + spec_fixed(self.hull.lwl.minus(self.armor.main.len).minus(self.armor.end.len), 2)
                        + " ft / "@
                        + spec_fixed(self.armor.units.of(self.hull.lwl.minus(self.armor.main.len).minus(self.armor.end.len), Measure::LengthLong), 2)
                        + " m Unarmoured ends"@,
                )
            } else {
                s4
            };
            s5
        } else {
            s2
        };
        let s6 = if !self.armor.end.thick.gt(Num::Micro(0)) && self.armor.main.len.lt(self.hull.lwl) {
            s3.push("    Ends:    Unarmoured"@)
        } else {
            s3
        };
        let s7 = if self.armor.upper.thick.gt(Num::Micro(0)) {
            s6.push(
                "    Upper:    "@
                    + spec_plate(self.armor.upper.thick)
                    + "\" / "@
                    + spec_fixed(self.armor.units.of(self.armor.upper.thick, Measure::LengthSmall), 0)
                    + " mm    "@
                    + spec_fixed(self.armor.upper.len, 2)
                    + " ft / "@
                    + spec_fixed(self.armor.units.of(self.armor.upper.len, Measure::LengthLong), 2)
                    + (" m    "@ + spec_fixed(self.armor.upper.hgt, 2) + " ft / "@ + spec_fixed(self.armor.units.of(self.armor.upper.hgt, Measure::LengthLong), 2) + " m"@),
            )
        } else {
            s6
        };
        let s8 = if self.armor.main.thick.gt(Num::Micro(0)) {
            let s9 = s7.push(
                "    Main Belt covers "@
                    + spec_fixed(self.armor.belt_coverage(self.hull.lwl).times(Num::Micro(100_000_000)), 0)
                    + " % of normal length"@,
            );
            let s10 = if self.armor.belt_coverage(self.hull.lwl).lt(self.hull_room()) {
                s9.push("    Main belt does not fully cover magazines and engineering spaces"@)
            } else {
                s9
            };
            s10
        } else {
            s7
        };
        let s11 = if self.armor.incline != Num::Micro(0) {
            s8.push(
                "    Main Belt inclined "@
                    + spec_fixed(self.armor.incline, 2)
                    + " degrees (positive = in)"@,
            )
        } else {
            s8
        };
        s11
    }

    /// The belts: main, end and upper belt, each with its thickness, length
    /// and height; what the ends lack; how much of the length the main belt
    /// covers, and whether that is less than magazines and engines take; the
    /// slope of the main belt.
    pub fn belt_lines(&self) -> (r: Vec<String>)
        requires
            self.batteries.len() > 0,
        ensures
            views(r@) == self.spec_belt_lines(),
    {
        let mut lines: Vec<String> = Vec::new();
        push_line(
            &mut lines,
            " - Belts:    Width (max)    Length (avg)    Height (avg)".to_owned(),
        );
        if self.armor.main.thick.gt(Num::Micro(0)) {
            push_line(
                &mut lines,
                cat9(
                    "    Main:    ",
                    plate(self.armor.main.thick).as_str(),
                    "\" / ",
                    fixed(self.armor.units.of(self.armor.main.thick, Measure::LengthSmall), 0).as_str(),
                    " mm    ",
                    fixed(self.armor.main.len, 2).as_str(),
                    " ft / ",
                    fixed(self.armor.units.of(self.armor.main.len, Measure::LengthLong), 2).as_str(),
                    cat5(" m    ", fixed(self.armor.main.hgt, 2).as_str(), " ft / ", fixed(self.armor.units.of(self.armor.main.hgt, Measure::LengthLong), 2).as_str(), " m").as_str(),
                ),
            );
        }
        if self.armor.end.thick.gt(Num::Micro(0)) {
            push_line(
                &mut lines,
                cat9(
                    "    Ends:    ",
                    plate(self.armor.end.thick).as_str(),
                    "\" / ",
                    fixed(self.armor.units.of(self.armor.end.thick, Measure::LengthSmall), 0).as_str(),
                    " mm    ",
                    fixed(self.armor.end.len, 2).as_str(),
                    " ft / ",
                    fixed(self.armor.units.of(self.armor.end.len, Measure::LengthLong), 2).as_str(),
                    cat5(" m    ", fixed(self.armor.end.hgt, 2).as_str(), " ft / ", fixed(self.armor.units.of(self.armor.end.hgt, Measure::LengthLong), 2).as_str(), " m").as_str(),
                ),
            );
            if self.armor.main.len.plus(self.armor.end.len).lt(self.hull.lwl) {
                push_line(
                    &mut lines,
                    cat5(
                        "    ",
                        fixed(self.hull.lwl.minus(self.armor.main.len).minus(self.armor.end.len), 2).as_str(),
                        " ft / ",
                        fixed(self.armor.units.of(self.hull.lwl.minus(self.armor.main.len).minus(self.armor.end.len), Measure::LengthLong), 2).as_str(),
                        " m Unarmoured ends",
                    ),
                );
            }
        }
        if !self.armor.end.thick.gt(Num::Micro(0)) && self.armor.main.len.lt(self.hull.lwl) {
            push_line(&mut lines, "    Ends:    Unarmoured".to_owned());
        }
        if self.armor.upper.thick.gt(Num::Micro(0)) {
            push_line(
                &mut lines,
                cat9(
                    "    Upper:    ",
                    plate(self.armor.upper.thick).as_str(),
                    "\" / ",
                    fixed(self.armor.units.of(self.armor.upper.thick, Measure::LengthSmall), 0).as_str(),
                    " mm    ",
                    fixed(self.armor.upper.len, 2).as_str(),
                    " ft / ",
                    fixed(self.armor.units.of(self.armor.upper.len, Measure::LengthLong), 2).as_str(),
                    cat5(" m    ", fixed(self.armor.upper.hgt, 2).as_str(), " ft / ", fixed(self.armor.units.of(self.armor.upper.hgt, Measure::LengthLong), 2).as_str(), " m").as_str(),
                ),
            );
        }
        if self.armor.main.thick.gt(Num::Micro(0)) {
            push_line(
                &mut lines,
                cat3(
                    "    Main Belt covers ",
                    fixed(self.armor.belt_coverage(self.hull.lwl).times(Num::Micro(100_000_000)), 0).as_str(),
                    " % of normal length",
                ),
            );
            if self.armor.belt_coverage(self.hull.lwl).lt(self.hull_room()) {
                push_line(
                    &mut lines,
                    "    Main belt does not fully cover magazines and engineering spaces".to_owned(),
                );
            }
        }
        if self.armor.incline != Num::Micro(0) {
            push_line(
                &mut lines,
                cat3(
                    "    Main Belt inclined ",
                    fixed(self.armor.incline, 2).as_str(),
                    " degrees (positive = in)",
                ),
            );
        }
        lines
    }

    pub open spec fn spec_bulkhead_lines(&self) -> Seq<Seq<char>> {
        let s0 = Seq::<Seq<char>>::empty();
        let s1 = if self.armor.bulkhead.thick.gt(Num::Micro(0)) {
            let s2 = s0.push(""@);
            let s3 = s2.push(
                "- Torpedo Bulkhead - "@
                    + (if self.armor.bh_kind == BulkheadType::Strengthened { "Strengthened structural"@ } else { "Additional damage containing"@ })
                    + " bulkheads:"@,
            );
            let s4 = s3.push(
                "        "@
                    + spec_plate(self.armor.bulkhead.thick)
                    + "\" / "@
                    + spec_fixed(self.armor.units.of(self.armor.bulkhead.thick, Measure::LengthSmall), 0)
                    + " mm    "@
                    + spec_fixed(self.armor.bulkhead.len, 2)
                    + " ft / "@
                    + spec_fixed(self.armor.units.of(self.armor.bulkhead.len, Measure::LengthLong), 2)
                    + (" m    "@ + spec_fixed(self.armor.bulkhead.hgt, 2) + " ft / "@ + spec_fixed(self.armor.units.of(self.armor.bulkhead.hgt, Measure::LengthLong), 2) + " m"@),
            );
            let s5 = s4.push(
                "    Beam between torpedo bulkheads "@
                    + spec_fixed(self.armor.bh_beam, 2)
                    + " ft / "@
                    + spec_fixed(self.armor.units.of(self.armor.bh_beam, Measure::LengthLong), 2)
                    + " m"@,
            );
            let s6 = s5.push(""@);
            s6
        } else {
            s0
        };
        let s7 = if self.armor.bulge.thick.gt(Num::Micro(0)) || self.wgts.void > 0 {
            let s8 = s1.push(
                "- Hull "@
                    + (if self.hull.b == self.hull.bb { "void"@ } else { "Bulges"@ })
                    + ":"@,
            );
            let s9 = s8.push(
                "        "@
                    + spec_plate(self.armor.bulge.thick)
                    + "\" / "@
                    + spec_fixed(self.armor.units.of(self.armor.bulge.thick, Measure::LengthSmall), 0)
                    + " mm    "@
                    + spec_fixed(self.armor.bulge.len, 2)
                    + " ft / "@
                    + spec_fixed(self.armor.units.of(self.armor.bulge.len, Measure::LengthLong), 2)
                    + (" m    "@ + spec_fixed(self.armor.bulge.hgt, 2) + " ft / "@ + spec_fixed(self.armor.units.of(self.armor.bulge.hgt, Measure::LengthLong), 2) + " m"@),
            );
            let s10 = s9.push(""@);
            s10
        } else {
            s1
        };
        s7
    }

    /// The torpedo bulkheads, where they have a thickness, and the bulges or
    /// the void in the hull, where there are any.
    pub fn bulkhead_lines(&self) -> (r: Vec<String>)
        ensures
            views(r@) == self.spec_bulkhead_lines(),
    {
        let mut lines: Vec<String> = Vec::new();
        if self.armor.bulkhead.thick.gt(Num::Micro(0)) {
            push_line(&mut lines, "".to_owned());
            push_line(
                &mut lines,
                cat3(
                    "- Torpedo Bulkhead - ",
                    (if self.armor.bh_kind == BulkheadType::Strengthened { "Strengthened structural" } else { "Additional damage containing" }),
                    " bulkheads:",
                ),
            );
            push_line(
                &mut lines,
                cat9(
                    "        ",
                    plate(self.armor.bulkhead.thick).as_str(),
                    "\" / ",
                    fixed(self.armor.units.of(self.armor.bulkhead.thick, Measure::LengthSmall), 0).as_str(),
                    " mm    ",
                    fixed(self.armor.bulkhead.len, 2).as_str(),
                    " ft / ",
                    fixed(self.armor.units.of(self.armor.bulkhead.len, Measure::LengthLong), 2).as_str(),
                    cat5(" m    ", fixed(self.armor.bulkhead.hgt, 2).as_str(), " ft / ", fixed(self.armor.units.of(self.armor.bulkhead.hgt, Measure::LengthLong), 2).as_str(), " m").as_str(),
                ),
            );
            push_line(
                &mut lines,
                cat5(
                    "    Beam between torpedo bulkheads ",
                    fixed(self.armor.bh_beam, 2).as_str(),
                    " ft / ",
                    fixed(self.armor.units.of(self.armor.bh_beam, Measure::LengthLong), 2).as_str(),
                    " m",
                ),
            );
            push_line(&mut lines, "".to_owned());
        }
        if self.armor.bulge.thick.gt(Num::Micro(0)) || self.wgts.void > 0 {
            push_line(
                &mut lines,
                cat3(
                    "- Hull ",
                    (if self.hull.b == self.hull.bb { "void" } else { "Bulges" }),
                    ":",
                ),
            );
            push_line(
                &mut lines,
                cat9(
                    "        ",
                    plate(self.armor.bulge.thick).as_str(),
                    "\" / ",
                    fixed(self.armor.units.of(self.armor.bulge.thick, Measure::LengthSmall), 0).as_str(),
                    " mm    ",
                    fixed(self.armor.bulge.len, 2).as_str(),
                    " ft / ",
                    fixed(self.armor.units.of(self.armor.bulge.len, Measure::LengthLong), 2).as_str(),
                    cat5(" m    ", fixed(self.armor.bulge.hgt, 2).as_str(), " ft / ", fixed(self.armor.units.of(self.armor.bulge.hgt, Measure::LengthLong), 2).as_str(), " m").as_str(),
                ),
            );
            push_line(&mut lines, "".to_owned());
        }
        lines
    }

    pub open spec fn spec_armor_lines(&self) -> Seq<Seq<char>>
        recommends
            self.batteries.len() > 0,
    {
        let s0 = Seq::<Seq<char>>::empty();
        let s1 = s0.push(""@);
        let s2 = s1.push("Armour:"@);
        let s3 = if self.armor.sided() {
            let s4 = s2 + self.spec_belt_lines();
            let s5 = s4 + self.spec_bulkhead_lines();
            s5
        } else {
            s2
        };
        let s6 = if self.wgt_gun_armor().gt(Num::Micro(0)) {
            let s7 = s3.push(
                "- Gun armour:    Face (max)    Other gunhouse (avg)    Barbette/hoist (max)"@,
            );
            let s8 = s7 + self.spec_gun_plate_lines();
            let s9 = s8.push(""@);
            s9
        } else {
            s3
        };
        let s10 = if self.armor.decked() {
            let s11 = s6.push("- "@ + self.armor.deck.kind@ + ":"@);
            let s12 = s11.push(
                "    For and Aft decks: "@
                    + spec_fixed(self.armor.deck.md, 2)
                    + "\" / "@
                    + spec_fixed(self.armor.units.of(self.armor.deck.md, Measure::LengthSmall), 0)
                    + " mm"@,
            );
            let s13 = s12.push(
                "    Forecastle: "@
                    + spec_fixed(self.armor.deck.fc, 2)
                    + "\" / "@
                    + spec_fixed(self.armor.units.of(self.armor.deck.fc, Measure::LengthSmall), 0)
                    + " mm    Quarter deck: "@
                    + spec_fixed(self.armor.deck.qd, 2)
                    + "\" / "@
                    + spec_fixed(self.armor.units.of(self.armor.deck.qd, Measure::LengthSmall), 0)
                    + " mm"@,
            );
            let s14 = s13.push(""@);
            s14
        } else {
            s6
        };
        let s15 = if self.armor.ct_fwd.thick.plus(self.armor.ct_aft.thick).gt(Num::Micro(0)) {
            let s16 = s10.push(
                "- Conning towers: Forward "@
                    + spec_fixed(self.armor.ct_fwd.thick, 2)
                    + "\" / "@
                    + spec_fixed(self.armor.units.of(self.armor.ct_fwd.thick, Measure::LengthSmall), 0)
                    + " mm, Aft "@
                    + spec_fixed(self.armor.ct_aft.thick, 2)
                    + "\" / "@
                    + spec_fixed(self.armor.units.of(self.armor.ct_aft.thick, Measure::LengthSmall), 0)
                    + " mm"@,
            );
            let s17 = s16.push(""@);
            s17
        } else {
            s10
        };
        s15
    }

    /// The armor: belts, bulkheads and bulges of a ship that has a belt or
    /// bulkheads; the armor of the guns; the armored deck; the conning
    /// towers. A ship without armor has the heading alone.
    pub fn armor_lines(&self) -> (r: Vec<String>)
        requires
            self.batteries.len() > 0,
        ensures
            views(r@) == self.spec_armor_lines(),
    {
        let mut lines: Vec<String> = Vec::new();
        push_line(&mut lines, "".to_owned());
        push_line(&mut lines, "Armour:".to_owned());
        if self.armor.sided() {
            push_lines(&mut lines, &self.belt_lines());
            push_lines(&mut lines, &self.bulkhead_lines());
        }
        if self.wgt_gun_armor().gt(Num::Micro(0)) {
            push_line(
                &mut lines,
                "- Gun armour:    Face (max)    Other gunhouse (avg)    Barbette/hoist (max)".to_owned(),
            );
            push_lines(&mut lines, &self.gun_plate_lines());
            push_line(&mut lines, "".to_owned());
        }
        if self.armor.decked() {
            push_line(&mut lines, cat3("- ", self.armor.deck.kind.as_str(), ":"));
            push_line(
                &mut lines,
                cat5(
                    "    For and Aft decks: ",
                    fixed(self.armor.deck.md, 2).as_str(),
                    "\" / ",
                    fixed(self.armor.units.of(self.armor.deck.md, Measure::LengthSmall), 0).as_str(),
                    " mm",
                ),
            );
            push_line(
                &mut lines,
                cat9(
                    "    Forecastle: ",
                    fixed(self.armor.deck.fc, 2).as_str(),
                    "\" / ",
                    fixed(self.armor.units.of(self.armor.deck.fc, Measure::LengthSmall), 0).as_str(),
                    " mm    Quarter deck: ",
                    fixed(self.armor.deck.qd, 2).as_str(),
                    "\" / ",
                    fixed(self.armor.units.of(self.armor.deck.qd, Measure::LengthSmall), 0).as_str(),
                    " mm",
                ),
            );
            push_line(&mut lines, "".to_owned());
        }
        if self.armor.ct_fwd.thick.plus(self.armor.ct_aft.thick).gt(Num::Micro(0)) {
            push_line(
                &mut lines,
                cat9(
                    "- Conning towers: Forward ",
                    fixed(self.armor.ct_fwd.thick, 2).as_str(),
                    "\" / ",
                    fixed(self.armor.units.of(self.armor.ct_fwd.thick, Measure::LengthSmall), 0).as_str(),
                    " mm, Aft ",
                    fixed(self.armor.ct_aft.thick, 2).as_str(),
                    "\" / ",
                    fixed(self.armor.units.of(self.armor.ct_aft.thick, Measure::LengthSmall), 0).as_str(),
                    " mm",
                ),
            );
            push_line(&mut lines, "".to_owned());
        }
        lines
    }

    pub open spec fn spec_machinery_lines(&self) -> Seq<Seq<char>> {
        let s0 = Seq::<Seq<char>>::empty();
        let s1 = s0.push("Machinery:"@);
        let s2 = if self.engine.vmax != Num::Micro(0) {
            let s3 = s1.push("    "@ + self.engine.fuel@ + ", "@ + self.engine.boiler@ + ","@);
            let s4 = s3.push(
                "    "@
                    + self.engine.drive@
                    + ", "@
                    + spec_decimal(self.engine.shafts as nat)
                    + " shaft"@
                    + spec_plural(self.engine.shafts)
                    + ", "@
                    + spec_grouped_fixed(self.engine.hp_max, 0)
                    + (" "@ + self.engine.hp_type@ + " / "@ + spec_grouped_fixed(Metric::imperial().of(self.engine.hp_max, Measure::Power), 0) + " Kw = "@ + spec_fixed(self.engine.vmax, 2) + " kts"@),
            );
            let s5 = s4.push(
                "    Range "@
                    + spec_grouped(self.engine.range as nat)
                    + "nm at "@
                    + spec_fixed(self.engine.vcruise, 2)
                    + " kts"@,
            );
            let s6 = s5.push(
                "    Bunker at max displacement = "@
                    + spec_grouped_fixed(self.engine.bunker_max, 0)
                    + " tons"@
                    + (if self.engine.pct_coal.gt(Num::Micro(0)) { " ("@ + spec_fixed(self.engine.pct_coal.times(Num::Micro(100_000_000)), 0) + "% coal)"@ } else { ""@ }),
            );
            s6
        } else {
            s1
        };
        let s7 = s2 + self.spec_machinery_cautions();
        let s8 = s7.push(""@);
        s8
    }

    /// The machinery of a ship that moves: fuel and engines, drive, shafts,
    /// power and speed, range and bunker; then what is to be said of it.
    pub fn machinery_lines(&self) -> (r: Vec<String>)
        ensures
            views(r@) == self.spec_machinery_lines(),
    {
        let mut lines: Vec<String> = Vec::new();
        push_line(&mut lines, "Machinery:".to_owned());
        if self.engine.vmax != Num::Micro(0) {
            push_line(
                &mut lines,
                cat5(
                    "    ",
                    self.engine.fuel.as_str(),
                    ", ",
                    self.engine.boiler.as_str(),
                    ",",
                ),
            );
            push_line(
                &mut lines,
                cat9(
                    "    ",
                    self.engine.drive.as_str(),
                    ", ",
                    decimal(self.engine.shafts as u64).as_str(),
                    " shaft",
                    plural(self.engine.shafts).as_str(),
                    ", ",
                    grouped_fixed(self.engine.hp_max, 0).as_str(),
                    cat7(" ", self.engine.hp_type.as_str(), " / ", grouped_fixed(Metric::imperial().of(self.engine.hp_max, Measure::Power), 0).as_str(), " Kw = ", fixed(self.engine.vmax, 2).as_str(), " kts").as_str(),
                ),
            );
            push_line(
                &mut lines,
                cat5(
                    "    Range ",
                    grouped(self.engine.range as u64).as_str(),
                    "nm at ",
                    fixed(self.engine.vcruise, 2).as_str(),
                    " kts",
                ),
            );
            push_line(
                &mut lines,
                cat4(
                    "    Bunker at max displacement = ",
                    grouped_fixed(self.engine.bunker_max, 0).as_str(),
                    " tons",
                    (if self.engine.pct_coal.gt(Num::Micro(0)) { cat3(" (", fixed(self.engine.pct_coal.times(Num::Micro(100_000_000)), 0).as_str(), "% coal)") } else { "".to_owned() }).as_str(),
                ),
            );
        }
        push_lines(&mut lines, &self.machinery_cautions());
        push_line(&mut lines, "".to_owned());
        lines
    }

    pub open spec fn spec_complement_lines(&self) -> Seq<Seq<char>> {
        seq![
            "Complement:"@,
            "    "@
                + spec_decimal(self.crew_min() as nat)
                + " - "@
                + spec_decimal(self.crew_max() as nat),
            ""@,
        ]
    }

    /// The crew, from the smallest to the largest.
    pub fn complement_lines(&self) -> (r: Vec<String>)
        ensures
            views(r@) == self.spec_complement_lines(),
    {
        let mut lines: Vec<String> = Vec::new();
        push_line(&mut lines, "Complement:".to_owned());
        push_line(
            &mut lines,
            cat4(
                "    ",
                decimal(self.crew_min() as u64).as_str(),
                " - ",
                decimal(self.crew_max() as u64).as_str(),
            ),
        );
        push_line(&mut lines, "".to_owned());
        lines
    }

    pub open spec fn spec_cost_lines(&self) -> Seq<Seq<char>> {
        seq![
            "Cost:"@,
            "    £"@
                + spec_fixed(self.cost_lb(), 3)
                + " million / $"@
                + spec_fixed(self.cost_dollar(), 3)
                + " million"@,
            ""@,
        ]
    }

    /// The cost in pounds and in dollars.
    pub fn cost_lines(&self) -> (r: Vec<String>)
        ensures
            views(r@) == self.spec_cost_lines(),
    {
        let mut lines: Vec<String> = Vec::new();
        push_line(&mut lines, "Cost:".to_owned());
        push_line(
            &mut lines,
            cat5(
                "    £",
                fixed(self.cost_lb(), 3).as_str(),
                " million / $",
                fixed(self.cost_dollar(), 3).as_str(),
                " million",
            ),
        );
        push_line(&mut lines, "".to_owned());
        lines
    }

    pub open spec fn spec_armor_weight_lines(&self) -> Seq<Seq<char>> {
        let s0 = Seq::<Seq<char>>::empty();
        let s1 = if self.wgt_armor().gt(Num::Micro(0)) {
            let s2 = s0.push("    Armour: "@ + self.spec_percent_calc(self.wgt_armor()));
            let s3 = if self.armor.belted() {
                s2.push("    - Belts: "@ + self.spec_percent_calc(self.armor.belts_wgt()))
            } else {
                s2
            };
            let s4 = if self.armor.bulkhead.thick.gt(Num::Micro(0)) {
                s3.push(
                    "    - Torpedo bulkhead: "@
                        + self.spec_percent_calc(self.armor.bulkhead.wgt),
                )
            } else {
                s3
            };
            let s5 = if self.armor.bulge.wgt.gt(Num::Micro(0)) {
                s4.push(
                    "    - "@
                        + (if self.hull.b == self.hull.bb { "Void"@ } else { "Bulges"@ })
                        + ": "@
                        + self.spec_percent_calc(self.armor.bulge.wgt),
                )
            } else {
                s4
            };
            let s6 = if self.wgt_gun_armor().gt(Num::Micro(0)) {
                s5.push("    - Armament: "@ + self.spec_percent_calc(self.wgt_gun_armor()))
            } else {
                s5
            };
            let s7 = if self.armor.decked() {
                s6.push("    - Armour Deck: "@ + self.spec_percent_calc(self.armor.deck.wgt))
            } else {
                s6
            };
            let s8 = if self.armor.towers() > 0 {
                s7.push(
                    "    - Conning Tower"@
                        + (if self.armor.towers() > 1 { "s"@ } else { ""@ })
                        + ": "@
                        + self.spec_percent_calc(self.armor.towers_wgt()),
                )
            } else {
                s7
            };
            s8
        } else {
            s0
        };
        s1
    }

    /// The weight of the armor and of each part of it that the ship has;
    /// nothing where she has no armor.
    pub fn armor_weight_lines(&self) -> (r: Vec<String>)
        ensures
            views(r@) == self.spec_armor_weight_lines(),
    {
        let mut lines: Vec<String> = Vec::new();
        if self.wgt_armor().gt(Num::Micro(0)) {
            push_line(
                &mut lines,
                cat2(
                    "    Armour: ",
                    self.percent_calc(self.wgt_armor()).as_str(),
                ),
            );
            if self.armor.belted() {
                push_line(
                    &mut lines,
                    cat2(
                        "    - Belts: ",
                        self.percent_calc(self.armor.belts_wgt()).as_str(),
                    ),
                );
            }
            if self.armor.bulkhead.thick.gt(Num::Micro(0)) {
                push_line(
                    &mut lines,
                    cat2(
                        "    - Torpedo bulkhead: ",
                        self.percent_calc(self.armor.bulkhead.wgt).as_str(),
                    ),
                );
            }
            if self.armor.bulge.wgt.gt(Num::Micro(0)) {
                push_line(
                    &mut lines,
                    cat4(
                        "    - ",
                        (if self.hull.b == self.hull.bb { "Void" } else { "Bulges" }),
                        ": ",
                        self.percent_calc(self.armor.bulge.wgt).as_str(),
                    ),
                );
            }
            if self.wgt_gun_armor().gt(Num::Micro(0)) {
                push_line(
                    &mut lines,
                    cat2(
                        "    - Armament: ",
                        self.percent_calc(self.wgt_gun_armor()).as_str(),
                    ),
                );
            }
            if self.armor.decked() {
                push_line(
                    &mut lines,
                    cat2(
                        "    - Armour Deck: ",
                        self.percent_calc(self.armor.deck.wgt).as_str(),
                    ),
                );
            }
            if self.armor.towers() > 0 {
                push_line(
                    &mut lines,
                    cat4(
                        "    - Conning Tower",
                        (if self.armor.towers() > 1 { "s" } else { "" }),
                        ": ",
                        self.percent_calc(self.armor.towers_wgt()).as_str(),
                    ),
                );
            }
        }
        lines
    }

    pub open spec fn spec_misc_weight_lines(&self) -> Seq<Seq<char>> {
        let s0 = Seq::<Seq<char>>::empty();
        let s1 = if self.wgt_misc().gt(Num::Micro(0)) {
            let s2 = s0.push(
                "    Miscellaneous weights: "@
                    + self.spec_percent_calc(self.wgt_misc()),
            );
            let s3 = if self.wgts.vital > 0 {
                s2.push(
                    "    - Hull below water: "@
                        + spec_grouped(self.wgts.vital as nat)
                        + " tons"@,
                )
            } else {
                s2
            };
            let s4 = if self.wgts.void > 0 {
                s3.push(
                    "    - "@
                        + (if self.hull.bb.gt(self.hull.b) { "Bulge"@ } else { "Hull"@ })
                        + " void weights: "@
                        + spec_grouped(self.wgts.void as nat)
                        + " tons"@,
                )
            } else {
                s3
            };
            let s5 = if self.wgts.hull > 0 {
                s4.push(
                    "    - Hull above water: "@
                        + spec_decimal(self.wgts.hull as nat)
                        + " tons"@,
                )
            } else {
                s4
            };
            let s6 = if self.wgts.on > 0 {
                s5.push(
                    "    - On freeboard deck: "@
                        + spec_decimal(self.wgts.on as nat)
                        + " tons"@,
                )
            } else {
                s5
            };
            let s7 = if self.wgts.above > 0 {
                s6.push("    - Above deck: "@ + spec_decimal(self.wgts.above as nat) + " tons"@)
            } else {
                s6
            };
            s7
        } else {
            s0
        };
        s1
    }

    /// The miscellaneous weights together and each one that is set; nothing
    /// where none is.
    pub fn misc_weight_lines(&self) -> (r: Vec<String>)
        ensures
            views(r@) == self.spec_misc_weight_lines(),
    {
        let mut lines: Vec<String> = Vec::new();
        if self.wgt_misc().gt(Num::Micro(0)) {
            push_line(
                &mut lines,
                cat2(
                    "    Miscellaneous weights: ",
                    self.percent_calc(self.wgt_misc()).as_str(),
                ),
            );
            if self.wgts.vital > 0 {
                push_line(
                    &mut lines,
                    cat3(
                        "    - Hull below water: ",
                        grouped(self.wgts.vital as u64).as_str(),
                        " tons",
                    ),
                );
            }
            if self.wgts.void > 0 {
                push_line(
                    &mut lines,
                    cat5(
                        "    - ",
                        (if self.hull.bb.gt(self.hull.b) { "Bulge" } else { "Hull" }),
                        " void weights: ",
                        grouped(self.wgts.void as u64).as_str(),
                        " tons",
                    ),
                );
            }
            if self.wgts.hull > 0 {
                push_line(
                    &mut lines,
                    cat3(
                        "    - Hull above water: ",
                        decimal(self.wgts.hull as u64).as_str(),
                        " tons",
                    ),
                );
            }
            if self.wgts.on > 0 {
                push_line(
                    &mut lines,
                    cat3(
                        "    - On freeboard deck: ",
                        decimal(self.wgts.on as u64).as_str(),
                        " tons",
                    ),
                );
            }
            if self.wgts.above > 0 {
                push_line(
                    &mut lines,
                    cat3(
                        "    - Above deck: ",
                        decimal(self.wgts.above as u64).as_str(),
                        " tons",
                    ),
                );
            }
        }
        lines
    }

    pub open spec fn spec_weight_lines(&self) -> Seq<Seq<char>> {
        let s0 = Seq::<Seq<char>>::empty();
        let s1 = s0.push("Distribution of weights at normal displacement:"@);
        let s2 = s1.push("    Armament: "@ + self.spec_percent_calc(self.wgt_armament()));
        let s3 = if self.wgt_guns().gt(Num::Micro(0)) {
            s2.push("    - Guns: "@ + self.spec_percent_calc(self.wgt_batteries()))
        } else {
            s2
        };
        let s4 = if self.wgt_weaps().gt(Num::Micro(0)) {
            s3.push("    - Weapons: "@ + self.spec_percent_calc(self.wgt_weaps()))
        } else {
            s3
        };
        let s5 = s4 + self.spec_armor_weight_lines();
        let s6 = s5.push("    Machinery: "@ + self.spec_percent_calc(self.wgt_engine()));
        let s7 = s6.push(
            "    Hull, fittings & equipment: "@
                + self.spec_percent_calc(self.wgt_hull()),
        );
        let s8 = s7.push(
            "    Fuel, ammunition & stores: "@
                + self.spec_percent_calc(self.wgt_load()),
        );
        let s9 = s8 + self.spec_misc_weight_lines();
        let s10 = s9.push(""@);
        s10
    }

    /// How the displacement is spent: each weight in tons and in hundredths
    /// of the displacement. Weights of nothing are passed over, but for
    /// machinery, hull and load.
    pub fn weight_lines(&self) -> (r: Vec<String>)
        ensures
            views(r@) == self.spec_weight_lines(),
    {
        let mut lines: Vec<String> = Vec::new();
        push_line(&mut lines, "Distribution of weights at normal displacement:".to_owned());
        push_line(
            &mut lines,
            cat2(
                "    Armament: ",
                self.percent_calc(self.wgt_armament()).as_str(),
            ),
        );
        if self.wgt_guns().gt(Num::Micro(0)) {
            push_line(
                &mut lines,
                cat2(
                    "    - Guns: ",
                    self.percent_calc(self.wgt_batteries()).as_str(),
                ),
            );
        }
        if self.wgt_weaps().gt(Num::Micro(0)) {
            push_line(
                &mut lines,
                cat2(
                    "    - Weapons: ",
                    self.percent_calc(self.wgt_weaps()).as_str(),
                ),
            );
        }
        push_lines(&mut lines, &self.armor_weight_lines());
        push_line(
            &mut lines,
            cat2(
                "    Machinery: ",
                self.percent_calc(self.wgt_engine()).as_str(),
            ),
        );
        push_line(
            &mut lines,
            cat2(
                "    Hull, fittings & equipment: ",
                self.percent_calc(self.wgt_hull()).as_str(),
            ),
        );
        push_line(
            &mut lines,
            cat2(
                "    Fuel, ammunition & stores: ",
                self.percent_calc(self.wgt_load()).as_str(),
            ),
        );
        push_lines(&mut lines, &self.misc_weight_lines());
        push_line(&mut lines, "".to_owned());
        lines
    }

    pub open spec fn spec_survival_lines(&self) -> Seq<Seq<char>>
        recommends
            self.batteries.len() > 0,
            self.torps.len() > 0,
    {
        seq![
            "Overall survivability and seakeeping ability:"@,
            "    Survivability (Non-critical penetrating hits needed to sink ship):"@,
            "    "@
                + spec_fixed(self.flotation(), 0)
                + " lbs / "@
                + spec_fixed(Metric::imperial().of(self.flotation(), Measure::Weight), 0)
                + " Kg = "@
                + spec_fixed(self.damage_shell_num(), 1)
                + " x "@
                + spec_fixed(self.damage_shell_size(), 1)
                + (" \" / "@ + spec_fixed(Metric::imperial().of(self.damage_shell_size(), Measure::LengthSmall), 0) + " mm shells or "@ + spec_fixed(self.damage_torp_num(), 1) + " torpedoes"@),
        ]
    }

    /// What sinks her: the flotation in pounds of shell, in shells of her
    /// main caliber and in torpedoes.
    pub fn survival_lines(&self) -> (r: Vec<String>)
        requires
            self.batteries.len() > 0,
            self.torps.len() > 0,
        ensures
            views(r@) == self.spec_survival_lines(),
    {
        let mut lines: Vec<String> = Vec::new();
        push_line(&mut lines, "Overall survivability and seakeeping ability:".to_owned());
        push_line(
            &mut lines,
            "    Survivability (Non-critical penetrating hits needed to sink ship):".to_owned(),
        );
        push_line(
            &mut lines,
            cat9(
                "    ",
                fixed(self.flotation(), 0).as_str(),
                " lbs / ",
                fixed(Metric::imperial().of(self.flotation(), Measure::Weight), 0).as_str(),
                " Kg = ",
                fixed(self.damage_shell_num(), 1).as_str(),
                " x ",
                fixed(self.damage_shell_size(), 1).as_str(),
                cat5(" \" / ", fixed(Metric::imperial().of(self.damage_shell_size(), Measure::LengthSmall), 0).as_str(), " mm shells or ", fixed(self.damage_torp_num(), 1).as_str(), " torpedoes").as_str(),
            ),
        );
        lines
    }

    pub open spec fn spec_seakeeping_lines(&self) -> Seq<Seq<char>>
        recommends
            self.batteries.len() > 0,
    {
        seq![
            "    Stability (Unstable if below 1.00): "@
                + spec_fixed(self.stability_adj(), 2),
            "    Metacentric height "@
                + spec_fixed(self.metacenter(), 1)
                + " ft / "@
                + spec_fixed(Metric::imperial().of(self.metacenter(), Measure::LengthLong), 1)
                + " m"@,
            "    Roll period: "@ + spec_fixed(self.roll_period(), 1) + " seconds"@,
            "    Steadiness    - As gun platform (Average = 50 %): "@
                + spec_fixed(self.steadiness(), 0)
                + " %"@,
            "        - Recoil effect (Restricted arc if above 1.00): "@
                + spec_fixed(self.recoil(), 2),
            "    Seaboat quality (Average = 1.00): "@ + spec_fixed(self.seakeeping(), 2),
            ""@,
        ]
    }

    /// How she behaves at sea: stability, metacentric height, roll period,
    /// steadiness, recoil and seakeeping.
    pub fn seakeeping_lines(&self) -> (r: Vec<String>)
        requires
            self.batteries.len() > 0,
        ensures
            views(r@) == self.spec_seakeeping_lines(),
    {
        let mut lines: Vec<String> = Vec::new();
        push_line(
            &mut lines,
            cat2(
                "    Stability (Unstable if below 1.00): ",
                fixed(self.stability_adj(), 2).as_str(),
            ),
        );
        push_line(
            &mut lines,
            cat5(
                "    Metacentric height ",
                fixed(self.metacenter(), 1).as_str(),
                " ft / ",
                fixed(Metric::imperial().of(self.metacenter(), Measure::LengthLong), 1).as_str(),
                " m",
            ),
        );
        push_line(
            &mut lines,
            cat3(
                "    Roll period: ",
                fixed(self.roll_period(), 1).as_str(),
                " seconds",
            ),
        );
        push_line(
            &mut lines,
            cat3(
                "    Steadiness    - As gun platform (Average = 50 %): ",
                fixed(self.steadiness(), 0).as_str(),
                " %",
            ),
        );
        push_line(
            &mut lines,
            cat2(
                "        - Recoil effect (Restricted arc if above 1.00): ",
                fixed(self.recoil(), 2).as_str(),
            ),
        );
        push_line(
            &mut lines,
            cat2(
                "    Seaboat quality (Average = 1.00): ",
                fixed(self.seakeeping(), 2).as_str(),
            ),
        );
        push_line(&mut lines, "".to_owned());
        lines
    }

    pub open spec fn spec_form_lines(&self) -> Seq<Seq<char>> {
        seq![
            "Hull form characteristics:"@,
            "    Hull has "@ + self.hull.freeboard_desc@ + ","@,
            "    "@ + self.hull.bow_type@ + " and "@ + self.hull.stern_type@,
            "    Block coefficient (normal/deep): "@
                + spec_fixed(self.hull.cb, 3)
                + " / "@
                + spec_fixed(self.cb_max(), 3),
            "    Length to Beam Ratio: "@ + spec_fixed(self.hull.len2beam, 2) + " : 1"@,
            "    'Natural speed' for length: "@ + spec_fixed(self.hull.vn, 2) + " kts"@,
            "    Power going to wave formation at top speed: "@
                + spec_fixed(self.engine.pw_max.times(Num::Micro(100_000_000)), 0)
                + " %"@,
            "    Trim (Max stability = 0, Max steadiness = 100): "@
                + spec_decimal(self.trim as nat),
            "    Bow angle (Positive = bow angles forward): "@
                + spec_fixed(self.hull.bow_angle, 2)
                + " degrees"@,
            "    Stern overhang: "@
                + spec_fixed(self.hull.stern_overhang, 2)
                + " ft / "@
                + spec_fixed(self.hull.units.of(self.hull.stern_overhang, Measure::LengthLong), 2)
                + " m"@,
        ]
    }

    /// The form of the hull: the run of the decks, bow and stern, block
    /// coefficients, ratio of length to beam, natural speed, the power that
    /// goes to waves, trim, bow angle and overhang of the stern.
    pub fn form_lines(&self) -> (r: Vec<String>)
        ensures
            views(r@) == self.spec_form_lines(),
    {
        let mut lines: Vec<String> = Vec::new();
        push_line(&mut lines, "Hull form characteristics:".to_owned());
        push_line(&mut lines, cat3("    Hull has ", self.hull.freeboard_desc.as_str(), ","));
        push_line(
            &mut lines,
            cat4(
                "    ",
                self.hull.bow_type.as_str(),
                " and ",
                self.hull.stern_type.as_str(),
            ),
        );
        push_line(
            &mut lines,
            cat4(
                "    Block coefficient (normal/deep): ",
                fixed(self.hull.cb, 3).as_str(),
                " / ",
                fixed(self.cb_max(), 3).as_str(),
            ),
        );
        push_line(
            &mut lines,
            cat3(
                "    Length to Beam Ratio: ",
                fixed(self.hull.len2beam, 2).as_str(),
                " : 1",
            ),
        );
        push_line(
            &mut lines,
            cat3(
                "    'Natural speed' for length: ",
                fixed(self.hull.vn, 2).as_str(),
                " kts",
            ),
        );
        push_line(
            &mut lines,
            cat3(
                "    Power going to wave formation at top speed: ",
                fixed(self.engine.pw_max.times(Num::Micro(100_000_000)), 0).as_str(),
                " %",
            ),
        );
        push_line(
            &mut lines,
            cat2(
                "    Trim (Max stability = 0, Max steadiness = 100): ",
                decimal(self.trim as u64).as_str(),
            ),
        );
        push_line(
            &mut lines,
            cat3(
                "    Bow angle (Positive = bow angles forward): ",
                fixed(self.hull.bow_angle, 2).as_str(),
                " degrees",
            ),
        );
        push_line(
            &mut lines,
            cat5(
                "    Stern overhang: ",
                fixed(self.hull.stern_overhang, 2).as_str(),
                " ft / ",
                fixed(self.hull.units.of(self.hull.stern_overhang, Measure::LengthLong), 2).as_str(),
                " m",
            ),
        );
        lines
    }

    pub open spec fn spec_freeboard_lines(&self) -> Seq<Seq<char>> {
        let s0 = Seq::<Seq<char>>::empty();
        let s1 = s0.push(
            "    Freeboard (% = length of deck as a percentage of waterline length):"@,
        );
        let s2 = s1.push("            Fore end, Aft end"@);
        let s3 = s2.push(
            "    - Forecastle:    "@
                + spec_fixed(self.hull.fc_len.times(Num::Micro(100_000_000)), 2)
                + " %, "@
                + spec_fixed(self.hull.fc_fwd, 2)
                + " ft / "@
                + spec_fixed(self.hull.units.of(self.hull.fc_fwd, Measure::LengthLong), 2)
                + " m, "@
                + spec_fixed(self.hull.fc_aft, 2)
                + (" ft / "@ + spec_fixed(self.hull.units.of(self.hull.fc_aft, Measure::LengthLong), 2) + " m"@),
        );
        let s4 = s3.push(
            "    - Forward deck:    "@
                + spec_fixed(self.hull.fd_len.times(Num::Micro(100_000_000)), 2)
                + " %, "@
                + spec_fixed(self.hull.fd_fwd, 2)
                + " ft / "@
                + spec_fixed(self.hull.units.of(self.hull.fd_fwd, Measure::LengthLong), 2)
                + " m, "@
                + spec_fixed(self.hull.fd_aft, 2)
                + (" ft / "@ + spec_fixed(self.hull.units.of(self.hull.fd_aft, Measure::LengthLong), 2) + " m"@),
        );
        let s5 = s4.push(
            "    - Aft deck:    "@
                + spec_fixed(self.hull.ad_len.times(Num::Micro(100_000_000)), 2)
                + " %, "@
                + spec_fixed(self.hull.ad_fwd, 2)
                + " ft / "@
                + spec_fixed(self.hull.units.of(self.hull.ad_fwd, Measure::LengthLong), 2)
                + " m, "@
                + spec_fixed(self.hull.ad_aft, 2)
                + (" ft / "@ + spec_fixed(self.hull.units.of(self.hull.ad_aft, Measure::LengthLong), 2) + " m"@),
        );
        let s6 = s5.push(
            "    - Quarter deck:    "@
                + spec_fixed(self.hull.qd_len.times(Num::Micro(100_000_000)), 2)
                + " %, "@
                + spec_fixed(self.hull.qd_fwd, 2)
                + " ft / "@
                + spec_fixed(self.hull.units.of(self.hull.qd_fwd, Measure::LengthLong), 2)
                + " m, "@
                + spec_fixed(self.hull.qd_aft, 2)
                + (" ft / "@ + spec_fixed(self.hull.units.of(self.hull.qd_aft, Measure::LengthLong), 2) + " m"@),
        );
        let s7 = s6.push(
            "    - Average freeboard:        "@
                + spec_fixed(self.hull.freeboard, 2)
                + " ft / "@
                + spec_fixed(self.hull.units.of(self.hull.freeboard, Measure::LengthLong), 2)
                + " m"@,
        );
        let s8 = if self.hull.wet_fwd {
            s7.push("    Ship tends to be wet forward"@)
        } else {
            s7
        };
        let s9 = s8.push(""@);
        s9
    }

    /// The freeboard: for each of the four decks its length in hundredths of
    /// the waterline length and its height at either end; the average; and a
    /// word where the ship is wet forward.
    pub fn freeboard_lines(&self) -> (r: Vec<String>)
        ensures
            views(r@) == self.spec_freeboard_lines(),
    {
        let mut lines: Vec<String> = Vec::new();
        push_line(
            &mut lines,
            "    Freeboard (% = length of deck as a percentage of waterline length):".to_owned(),
        );
        push_line(&mut lines, "            Fore end, Aft end".to_owned());
        push_line(
            &mut lines,
            cat9(
                "    - Forecastle:    ",
                fixed(self.hull.fc_len.times(Num::Micro(100_000_000)), 2).as_str(),
                " %, ",
                fixed(self.hull.fc_fwd, 2).as_str(),
                " ft / ",
                fixed(self.hull.units.of(self.hull.fc_fwd, Measure::LengthLong), 2).as_str(),
                " m, ",
                fixed(self.hull.fc_aft, 2).as_str(),
                cat3(" ft / ", fixed(self.hull.units.of(self.hull.fc_aft, Measure::LengthLong), 2).as_str(), " m").as_str(),
            ),
        );
        push_line(
            &mut lines,
            cat9(
                "    - Forward deck:    ",
                fixed(self.hull.fd_len.times(Num::Micro(100_000_000)), 2).as_str(),
                " %, ",
                fixed(self.hull.fd_fwd, 2).as_str(),
                " ft / ",
                fixed(self.hull.units.of(self.hull.fd_fwd, Measure::LengthLong), 2).as_str(),
                " m, ",
                fixed(self.hull.fd_aft, 2).as_str(),
                cat3(" ft / ", fixed(self.hull.units.of(self.hull.fd_aft, Measure::LengthLong), 2).as_str(), " m").as_str(),
            ),
        );
        push_line(
            &mut lines,
            cat9(
                "    - Aft deck:    ",
                fixed(self.hull.ad_len.times(Num::Micro(100_000_000)), 2).as_str(),
                " %, ",
                fixed(self.hull.ad_fwd, 2).as_str(),
                " ft / ",
                fixed(self.hull.units.of(self.hull.ad_fwd, Measure::LengthLong), 2).as_str(),
                " m, ",
                fixed(self.hull.ad_aft, 2).as_str(),
                cat3(" ft / ", fixed(self.hull.units.of(self.hull.ad_aft, Measure::LengthLong), 2).as_str(), " m").as_str(),
            ),
        );
        push_line(
            &mut lines,
            cat9(
                "    - Quarter deck:    ",
                fixed(self.hull.qd_len.times(Num::Micro(100_000_000)), 2).as_str(),
                " %, ",
                fixed(self.hull.qd_fwd, 2).as_str(),
                " ft / ",
                fixed(self.hull.units.of(self.hull.qd_fwd, Measure::LengthLong), 2).as_str(),
                " m, ",
                fixed(self.hull.qd_aft, 2).as_str(),
                cat3(" ft / ", fixed(self.hull.units.of(self.hull.qd_aft, Measure::LengthLong), 2).as_str(), " m").as_str(),
            ),
        );
        push_line(
            &mut lines,
            cat5(
                "    - Average freeboard:        ",
                fixed(self.hull.freeboard, 2).as_str(),
                " ft / ",
                fixed(self.hull.units.of(self.hull.freeboard, Measure::LengthLong), 2).as_str(),
                " m",
            ),
        );
        if self.hull.wet_fwd {
            push_line(&mut lines, "    Ship tends to be wet forward".to_owned());
        }
        push_line(&mut lines, "".to_owned());
        lines
    }

    pub open spec fn spec_strength_lines(&self) -> Seq<Seq<char>>
        recommends
            self.batteries.len() > 0,
    {
        let s0 = Seq::<Seq<char>>::empty();
        let s1 = s0.push("Ship space, strength and comments:"@);
        let s2 = s1.push(
            "    Space    - Hull below water (magazines/engines, low = better): "@
                + spec_fixed(self.hull_room().times(Num::Micro(100_000_000)), 1)
                + " %"@,
        );
        let s3 = s2.push(
            "        - Above water (accommodation/working, high = better): "@
                + spec_fixed(self.deck_room().times(Num::Micro(100_000_000)), 1)
                + " %"@,
        );
        let s4 = s3.push(
            "    Waterplane Area: "@
                + spec_grouped_fixed(self.hull.wp, 0)
                + " Square feet or "@
                + spec_grouped_fixed(Metric::imperial().of(self.hull.wp, Measure::Area), 0)
                + " Square metres"@,
        );
        let s5 = s4.push(
            "    Displacement factor (Displacement / loading): "@
                + spec_fixed(self.d_factor().times(Num::Micro(100_000_000)), 0)
                + " %"@,
        );
        let s6 = s5.push(
            "    Structure weight / hull surface area: "@
                + spec_fixed(self.wgt_struct(), 0)
                + " lbs/sq ft or "@
                + spec_fixed(Metric::imperial().of(self.wgt_struct(), Measure::WeightPerArea), 0)
                + " Kg/sq metre"@,
        );
        let s7 = s6.push("Hull strength (Relative):"@);
        let s8 = s7.push("        - Cross-sectional: "@ + spec_fixed(self.str_cross(), 2));
        let s9 = s8.push("        - Longitudinal: "@ + spec_fixed(self.str_long(), 2));
        let s10 = s9.push("        - Overall: "@ + spec_fixed(self.str_comp(), 2));
        let s11 = s10 + self.spec_comments();
        let s12 = s11.push(""@);
        s12
    }

    /// Room, strength and comments: the room below and above the water in
    /// hundredths, waterplane, displacement factor, weight of the structure,
    /// the three strengths, and the comments that close the report.
    pub fn strength_lines(&self) -> (r: Vec<String>)
        requires
            self.batteries.len() > 0,
        ensures
            views(r@) == self.spec_strength_lines(),
    {
        let mut lines: Vec<String> = Vec::new();
        push_line(&mut lines, "Ship space, strength and comments:".to_owned());
        push_line(
            &mut lines,
            cat3(
                "    Space    - Hull below water (magazines/engines, low = better): ",
                fixed(self.hull_room().times(Num::Micro(100_000_000)), 1).as_str(),
                " %",
            ),
        );
        push_line(
            &mut lines,
            cat3(
                "        - Above water (accommodation/working, high = better): ",
                fixed(self.deck_room().times(Num::Micro(100_000_000)), 1).as_str(),
                " %",
            ),
        );
        push_line(
            &mut lines,
            cat5(
                "    Waterplane Area: ",
                grouped_fixed(self.hull.wp, 0).as_str(),
                " Square feet or ",
                grouped_fixed(Metric::imperial().of(self.hull.wp, Measure::Area), 0).as_str(),
                " Square metres",
            ),
        );
        push_line(
            &mut lines,
            cat3(
                "    Displacement factor (Displacement / loading): ",
                fixed(self.d_factor().times(Num::Micro(100_000_000)), 0).as_str(),
                " %",
            ),
        );
        push_line(
            &mut lines,
            cat5(
                "    Structure weight / hull surface area: ",
                fixed(self.wgt_struct(), 0).as_str(),
                " lbs/sq ft or ",
                fixed(Metric::imperial().of(self.wgt_struct(), Measure::WeightPerArea), 0).as_str(),
                " Kg/sq metre",
            ),
        );
        push_line(&mut lines, "Hull strength (Relative):".to_owned());
        push_line(
            &mut lines,
            cat2(
                "        - Cross-sectional: ",
                fixed(self.str_cross(), 2).as_str(),
            ),
        );
        push_line(
            &mut lines,
            cat2(
                "        - Longitudinal: ",
                fixed(self.str_long(), 2).as_str(),
            ),
        );
        push_line(&mut lines, cat2("        - Overall: ", fixed(self.str_comp(), 2).as_str()));
        push_lines(&mut lines, &self.comments());
        push_line(&mut lines, "".to_owned());
        lines
    }

    pub open spec fn spec_gun_internals(&self) -> Seq<Seq<char>> {
        seq![
            "Gun Batteries"@,
            "------------"@,
            "wgt_guns = "@ + spec_fixed(self.wgt_guns(), 6),
            "wgt_gun_mounts = "@ + spec_fixed(self.wgt_gun_mounts(), 6),
            "wgt_mag = "@ + spec_fixed(self.wgt_mag(), 6),
            "wgt_gun_armor = "@ + spec_fixed(self.wgt_gun_armor(), 6),
            "wgt_borne = "@ + spec_fixed(self.wgt_borne(), 6),
            "super_factor = "@ + spec_fixed(self.gun_super_factor(), 6),
            "gun_wtf = "@ + spec_fixed(self.gun_wtf(), 6),
            ""@,
        ]
    }

    /// The sums over the batteries.
    pub fn gun_internals(&self) -> (r: Vec<String>)
        ensures
            views(r@) == self.spec_gun_internals(),
    {
        let mut lines: Vec<String> = Vec::new();
        push_line(&mut lines, "Gun Batteries".to_owned());
        push_line(&mut lines, "------------".to_owned());
        push_line(&mut lines, cat2("wgt_guns = ", fixed(self.wgt_guns(), 6).as_str()));
        push_line(
            &mut lines,
            cat2(
                "wgt_gun_mounts = ",
                fixed(self.wgt_gun_mounts(), 6).as_str(),
            ),
        );
        push_line(&mut lines, cat2("wgt_mag = ", fixed(self.wgt_mag(), 6).as_str()));
        push_line(
            &mut lines,
            cat2(
                "wgt_gun_armor = ",
                fixed(self.wgt_gun_armor(), 6).as_str(),
            ),
        );
        push_line(&mut lines, cat2("wgt_borne = ", fixed(self.wgt_borne(), 6).as_str()));
        push_line(
            &mut lines,
            cat2(
                "super_factor = ",
                fixed(self.gun_super_factor(), 6).as_str(),
            ),
        );
        push_line(&mut lines, cat2("gun_wtf = ", fixed(self.gun_wtf(), 6).as_str()));
        push_line(&mut lines, "".to_owned());
        lines
    }

    pub open spec fn spec_battery_heading(&self, i: usize) -> Seq<Seq<char>> {
        seq![
            "battery["@ + spec_decimal(i as nat) + "]"@,
            "-----------"@,
            ""@,
        ]
    }

    /// The heading of a battery among the internal values; `i` is its place
    /// among the batteries.
    pub fn battery_heading(&self, i: usize) -> (r: Vec<String>)
        ensures
            views(r@) == self.spec_battery_heading(i),
    {
        let mut lines: Vec<String> = Vec::new();
        push_line(&mut lines, cat3("battery[", decimal(i as u64).as_str(), "]"));
        push_line(&mut lines, "-----------".to_owned());
        push_line(&mut lines, "".to_owned());
        lines
    }

    pub open spec fn spec_battery_internals_upto(&self, n: int) -> Seq<Seq<char>>
        decreases n,
    {
        if n <= 0 {
            Seq::<Seq<char>>::empty()
        } else {
            self.spec_battery_internals_upto(n - 1) + self.spec_battery_heading((n - 1) as usize)
        }
    }

    pub open spec fn spec_battery_internals(&self) -> Seq<Seq<char>> {
        self.spec_battery_internals_upto(self.batteries.len() as int)
    }

    /// A heading for each battery, from the main battery on.
    pub fn battery_internals(&self) -> (r: Vec<String>)
        ensures
            views(r@) == self.spec_battery_internals(),
    {
        let mut lines: Vec<String> = Vec::new();
        let mut i: usize = 0;
        assert(views(lines@) =~= self.spec_battery_internals_upto(0));
        while i < self.batteries.len()
            invariant
                i <= self.batteries.len(),
                views(lines@) == self.spec_battery_internals_upto(i as int),
            decreases self.batteries.len() - i,
        {
            push_lines(&mut lines, &self.battery_heading(i));
            i += 1;
        }
        lines
    }

    pub open spec fn spec_hull_internals(&self) -> Seq<Seq<char>> {
        let s0 = Seq::<Seq<char>>::empty();
        let s1 = s0.push("Cs = "@ + spec_fixed(self.hull.cs, 6));
        let s2 = s1.push("Cm = "@ + spec_fixed(self.hull.cm, 6));
        let s3 = s2.push("Cp = "@ + spec_fixed(self.hull.cp, 6));
        let s4 = s3.push("Cwp = "@ + spec_fixed(self.hull.cwp, 6));
        let s5 = s4.push("WP = "@ + spec_fixed(self.hull.wp, 6));
        let s6 = s5.push("WS = "@ + spec_fixed(self.hull.ws, 6));
        let s7 = s6.push("Ts = "@ + spec_fixed(self.hull.ts, 6));
        let s8 = s7.push(""@);
        let s9 = s8.push("Stem length = "@ + spec_fixed(self.hull.stem_len, 6));
        let s10 = if self.hull.ram {
            s9.push("Ram length = "@ + spec_fixed(self.hull.ram_len, 6))
        } else {
            s9
        };
        let s11 = s10.push("Freeboard dist = "@ + spec_fixed(self.hull.freeboard_dist, 6));
        let s12 = s11.push("Leff = "@ + spec_fixed(self.hull.leff, 6));
        let s13 = s12.push(""@);
        let s14 = s13.push("Rf max = "@ + spec_fixed(self.engine.rf_max, 6));
        let s15 = s14.push("Rf cruise = "@ + spec_fixed(self.engine.rf_cruise, 6));
        let s16 = s15.push("Rw max = "@ + spec_fixed(self.engine.rw_max, 6));
        let s17 = s16.push("Rw cruise = "@ + spec_fixed(self.engine.rw_cruise, 6));
        let s18 = s17.push("Pw max = "@ + spec_fixed(self.engine.pw_max, 6));
        let s19 = s18.push("Pw cruise = "@ + spec_fixed(self.engine.pw_cruise, 6));
        let s20 = s19.push(""@);
        let s21 = s20.push("hp max = "@ + spec_fixed(self.engine.hp_max, 6));
        let s22 = s21.push("hp cruise = "@ + spec_fixed(self.engine.hp_cruise, 6));
        let s23 = s22.push(""@);
        s23
    }

    /// The figures of hull and machinery that the ship was given.
    pub fn hull_internals(&self) -> (r: Vec<String>)
        ensures
            views(r@) == self.spec_hull_internals(),
    {
        let mut lines: Vec<String> = Vec::new();
        push_line(&mut lines, cat2("Cs = ", fixed(self.hull.cs, 6).as_str()));
        push_line(&mut lines, cat2("Cm = ", fixed(self.hull.cm, 6).as_str()));
        push_line(&mut lines, cat2("Cp = ", fixed(self.hull.cp, 6).as_str()));
        push_line(&mut lines, cat2("Cwp = ", fixed(self.hull.cwp, 6).as_str()));
        push_line(&mut lines, cat2("WP = ", fixed(self.hull.wp, 6).as_str()));
        push_line(&mut lines, cat2("WS = ", fixed(self.hull.ws, 6).as_str()));
        push_line(&mut lines, cat2("Ts = ", fixed(self.hull.ts, 6).as_str()));
        push_line(&mut lines, "".to_owned());
        push_line(&mut lines, cat2("Stem length = ", fixed(self.hull.stem_len, 6).as_str()));
        if self.hull.ram {
            push_line(&mut lines, cat2("Ram length = ", fixed(self.hull.ram_len, 6).as_str()));
        }
        push_line(
            &mut lines,
            cat2(
                "Freeboard dist = ",
                fixed(self.hull.freeboard_dist, 6).as_str(),
            ),
        );
        push_line(&mut lines, cat2("Leff = ", fixed(self.hull.leff, 6).as_str()));
        push_line(&mut lines, "".to_owned());
        push_line(&mut lines, cat2("Rf max = ", fixed(self.engine.rf_max, 6).as_str()));
        push_line(&mut lines, cat2("Rf cruise = ", fixed(self.engine.rf_cruise, 6).as_str()));
        push_line(&mut lines, cat2("Rw max = ", fixed(self.engine.rw_max, 6).as_str()));
        push_line(&mut lines, cat2("Rw cruise = ", fixed(self.engine.rw_cruise, 6).as_str()));
        push_line(&mut lines, cat2("Pw max = ", fixed(self.engine.pw_max, 6).as_str()));
        push_line(&mut lines, cat2("Pw cruise = ", fixed(self.engine.pw_cruise, 6).as_str()));
        push_line(&mut lines, "".to_owned());
        push_line(&mut lines, cat2("hp max = ", fixed(self.engine.hp_max, 6).as_str()));
        push_line(&mut lines, cat2("hp cruise = ", fixed(self.engine.hp_cruise, 6).as_str()));
        push_line(&mut lines, "".to_owned());
        lines
    }

    pub open spec fn spec_weight_internals(&self) -> Seq<Seq<char>> {
        seq![
            "wgt_load = "@ + spec_fixed(self.wgt_load(), 6),
            "wgt_hull = "@ + spec_fixed(self.wgt_hull(), 6),
            "wgt_hull_plus = "@ + spec_fixed(self.wgt_hull_plus(), 6),
            "wgt_misc = "@ + spec_decimal(self.wgts.wgt() as nat),
            "wgt_armor = "@ + spec_fixed(self.wgt_armor(), 6),
            ""@,
            "main belt = "@ + spec_fixed(self.armor.main.wgt_d, 6),
            "upper belt = "@ + spec_fixed(self.armor.upper.wgt_d, 6),
            "end belt = "@ + spec_fixed(self.armor.end.wgt_d, 6),
            "deck = "@ + spec_fixed(self.armor.deck.wgt, 6),
            ""@,
            "wgt_engine = "@ + spec_fixed(self.wgt_engine(), 6),
            "d_engine = "@ + spec_fixed(self.engine.d_engine, 6),
            "d_factor = "@ + spec_fixed(self.d_factor(), 6),
            "bunker (normal) = "@ + spec_fixed(self.engine.bunker, 6),
            "bunker_factor = "@ + spec_fixed(self.engine.bunker_factor, 6),
            ""@,
        ]
    }

    /// The weights of load, hull, armor and machinery.
    pub fn weight_internals(&self) -> (r: Vec<String>)
        ensures
            views(r@) == self.spec_weight_internals(),
    {
        let mut lines: Vec<String> = Vec::new();
        push_line(&mut lines, cat2("wgt_load = ", fixed(self.wgt_load(), 6).as_str()));
        push_line(&mut lines, cat2("wgt_hull = ", fixed(self.wgt_hull(), 6).as_str()));
        push_line(
            &mut lines,
            cat2(
                "wgt_hull_plus = ",
                fixed(self.wgt_hull_plus(), 6).as_str(),
            ),
        );
        push_line(&mut lines, cat2("wgt_misc = ", decimal(self.wgts.wgt() as u64).as_str()));
        push_line(&mut lines, cat2("wgt_armor = ", fixed(self.wgt_armor(), 6).as_str()));
        push_line(&mut lines, "".to_owned());
        push_line(&mut lines, cat2("main belt = ", fixed(self.armor.main.wgt_d, 6).as_str()));
        push_line(&mut lines, cat2("upper belt = ", fixed(self.armor.upper.wgt_d, 6).as_str()));
        push_line(&mut lines, cat2("end belt = ", fixed(self.armor.end.wgt_d, 6).as_str()));
        push_line(&mut lines, cat2("deck = ", fixed(self.armor.deck.wgt, 6).as_str()));
        push_line(&mut lines, "".to_owned());
        push_line(&mut lines, cat2("wgt_engine = ", fixed(self.wgt_engine(), 6).as_str()));
        push_line(&mut lines, cat2("d_engine = ", fixed(self.engine.d_engine, 6).as_str()));
        push_line(&mut lines, cat2("d_factor = ", fixed(self.d_factor(), 6).as_str()));
        push_line(
            &mut lines,
            cat2(
                "bunker (normal) = ",
                fixed(self.engine.bunker, 6).as_str(),
            ),
        );
        push_line(
            &mut lines,
            cat2(
                "bunker_factor = ",
                fixed(self.engine.bunker_factor, 6).as_str(),
            ),
        );
        push_line(&mut lines, "".to_owned());
        lines
    }

    pub open spec fn spec_engine_internals(&self) -> Seq<Seq<char>>
        recommends
            self.batteries.len() > 0,
    {
        seq![
            "stability = "@ + spec_fixed(self.stability(), 6),
            "seaboat = "@ + spec_fixed(self.seaboat(), 6),
            ""@,
            self.engine.fuels.spec_names(),
            self.engine.boilers.spec_names(),
            self.engine.drives.spec_names(),
            "num_engines = "@ + spec_decimal(self.engine.num_engines as nat),
            ""@,
        ]
    }

    /// Stability and seaboat, then the machinery: its fuels, engines and
    /// drives, and the number of engines.
    pub fn engine_internals(&self) -> (r: Vec<String>)
        requires
            self.batteries.len() > 0,
        ensures
            views(r@) == self.spec_engine_internals(),
    {
        let mut lines: Vec<String> = Vec::new();
        push_line(&mut lines, cat2("stability = ", fixed(self.stability(), 6).as_str()));
        push_line(&mut lines, cat2("seaboat = ", fixed(self.seaboat(), 6).as_str()));
        push_line(&mut lines, "".to_owned());
        push_line(&mut lines, self.engine.fuels.names());
        push_line(&mut lines, self.engine.boilers.names());
        push_line(&mut lines, self.engine.drives.names());
        push_line(
            &mut lines,
            cat2(
                "num_engines = ",
                decimal(self.engine.num_engines as u64).as_str(),
            ),
        );
        push_line(&mut lines, "".to_owned());
        lines
    }

    pub open spec fn spec_strength_internals(&self) -> Seq<Seq<char>>
        recommends
            self.batteries.len() > 0,
    {
        seq![
            "gun_concentration = "@ + spec_fixed(self.gun_concentration(), 6),
            "str_cross = "@ + spec_fixed(self.str_cross(), 6),
            "str_long = "@ + spec_fixed(self.str_long(), 6),
            "str_comp = "@ + spec_fixed(self.str_comp(), 6),
            "flotation = "@ + spec_fixed(self.flotation(), 6),
        ]
    }

    /// Concentration of the guns, strengths and flotation.
    pub fn strength_internals(&self) -> (r: Vec<String>)
        requires
            self.batteries.len() > 0,
        ensures
            views(r@) == self.spec_strength_internals(),
    {
        let mut lines: Vec<String> = Vec::new();
        push_line(
            &mut lines,
            cat2(
                "gun_concentration = ",
                fixed(self.gun_concentration(), 6).as_str(),
            ),
        );
        push_line(&mut lines, cat2("str_cross = ", fixed(self.str_cross(), 6).as_str()));
        push_line(&mut lines, cat2("str_long = ", fixed(self.str_long(), 6).as_str()));
        push_line(&mut lines, cat2("str_comp = ", fixed(self.str_comp(), 6).as_str()));
        push_line(&mut lines, cat2("flotation = ", fixed(self.flotation(), 6).as_str()));
        lines
    }

    pub open spec fn spec_report_lines(&self) -> Seq<Seq<char>>
        recommends
            self.batteries.len() >= 3,
            self.torps.len() > 0,
    {
        self.spec_heading() + self.spec_displacement_lines() + self.spec_dimension_lines()
            + self.spec_armament_lines() + self.spec_armor_lines() + self.spec_machinery_lines()
            + self.spec_complement_lines() + self.spec_cost_lines() + self.spec_weight_lines()
            + self.spec_survival_lines() + self.spec_seakeeping_lines() + self.spec_form_lines()
            + self.spec_freeboard_lines() + self.spec_strength_lines() + views(self.notes@)
    }

    pub open spec fn spec_report(&self) -> Seq<char>
        recommends
            self.batteries.len() >= 3,
            self.torps.len() > 0,
    {
        spec_join(self.spec_report_lines())
    }

    /// The report of the ship: heading and failures, displacement,
    /// dimensions, armament, armor, machinery, complement, cost, weights,
    /// survivability and seakeeping, hull form and freeboard, room and
    /// strength with the comments, and the designer's notes; the lines
    /// joined by line feeds. Every figure in it is one of the ship's, written
    /// as it is, lengths, weights and power with their metric equivalents.
    pub fn report(&self) -> (r: String)
        requires
            self.batteries.len() >= 3,
            self.torps.len() > 0,
        ensures
            r@ == self.spec_report(),
    {
        let mut lines = self.heading();
        push_lines(&mut lines, &self.displacement_lines());
        push_lines(&mut lines, &self.dimension_lines());
        push_lines(&mut lines, &self.armament_lines());
        push_lines(&mut lines, &self.armor_lines());
        push_lines(&mut lines, &self.machinery_lines());
        push_lines(&mut lines, &self.complement_lines());
        push_lines(&mut lines, &self.cost_lines());
        push_lines(&mut lines, &self.weight_lines());
        push_lines(&mut lines, &self.survival_lines());
        push_lines(&mut lines, &self.seakeeping_lines());
        push_lines(&mut lines, &self.form_lines());
        push_lines(&mut lines, &self.freeboard_lines());
        push_lines(&mut lines, &self.strength_lines());
        push_lines(&mut lines, &self.notes);
        join(&lines)
    }

    pub open spec fn spec_internals(&self) -> Seq<char>
        recommends
            self.batteries.len() > 0,
    {
        spec_join(
            seq!["Internal values"@, "==============="@, ""@] + self.spec_gun_internals()
                + self.spec_battery_internals() + self.spec_hull_internals() + self.spec_weight_internals()
                + self.spec_engine_internals() + self.spec_strength_internals(),
        )
    }

    /// The figures that a report does not show, each under its name and with
    /// six decimals, one to a line, with a heading for each battery.
    pub fn internals(&self) -> (r: String)
        requires
            self.batteries.len() > 0,
        ensures
            r@ == self.spec_internals(),
    {
        let mut lines: Vec<String> = Vec::new();
        push_line(&mut lines, "Internal values".to_owned());
        push_line(&mut lines, "===============".to_owned());
        push_line(&mut lines, "".to_owned());
        assert(views(lines@) =~= seq!["Internal values"@, "==============="@, ""@]);
        push_lines(&mut lines, &self.gun_internals());
        push_lines(&mut lines, &self.battery_internals());
        push_lines(&mut lines, &self.hull_internals());
        push_lines(&mut lines, &self.weight_internals());
        push_lines(&mut lines, &self.engine_internals());
        push_lines(&mut lines, &self.strength_internals());
        join(&lines)
    }
}

} // verus!
