//! What the lines of a report begin with. The line that reports armor too
//! heavy for the hull begins with a `D`; every line that a report makes of
//! the figures begins otherwise, or is of another length. So that line
//! stands in a report only where the failure is found, or where the ship's
//! own words hold it: her name and her notes.

use vstd::prelude::*;
use crate::armor::BulkheadType;
use crate::measure::{Measure, Metric};
use crate::num::Num;
use crate::spec_plural;
use crate::render::{spec_fixed, spec_grouped, spec_grouped_fixed};
use crate::report::{spec_battery_rank, spec_gun_plate, spec_plate, spec_rank};
use crate::ship::Ship;
use crate::text::spec_decimal;
use crate::warnings::DesignFailure;
use crate::weapons::{Battery, Torpedoes, ASW};

verus! {

/// The line that reports armor too heavy for the hull.
pub open spec fn spec_armor_line() -> Seq<char> {
    DesignFailure::ArmorWeight.spec_message()
}

/// Whether a line has a first character, and that is not a `D`.
pub open spec fn spec_other_start(line: Seq<char>) -> bool {
    line.len() > 0 && line[0] != 'D'
}

/// A line keeps its first character when more is written after it.
pub proof fn lemma_start_stays(line: Seq<char>, more: Seq<char>)
    requires
        spec_other_start(line),
    ensures
        spec_other_start(line + more),
{
    assert((line + more)[0] == line[0]);
}

/// A line that begins otherwise is not the line of the armor.
pub proof fn lemma_start_clear(line: Seq<char>)
    requires
        spec_other_start(line),
    ensures
        line != spec_armor_line(),
{
    reveal_strlit("DESIGN FAILURE: Armour weight too much for hull");
}

/// Lines without the line of the armor have none with one more that is not
/// that line.
pub proof fn lemma_pushed_clear(lines: Seq<Seq<char>>, line: Seq<char>)
    requires
        !lines.contains(spec_armor_line()),
        line.len() != 47 || line != spec_armor_line(),
    ensures
        !lines.push(line).contains(spec_armor_line()),
{
    reveal_strlit("DESIGN FAILURE: Armour weight too much for hull");
    let all = lines.push(line);
    assert forall|i: int| 0 <= i < all.len() implies all[i] != spec_armor_line() by {
        if i < lines.len() {
            assert(all[i] == lines[i]);
            assert(lines.contains(lines[i]));
        }
    }
}

/// Lines without the line of the armor, and more such lines after them,
/// have none together.
pub proof fn lemma_joined_clear(lines: Seq<Seq<char>>, more: Seq<Seq<char>>)
    requires
        !lines.contains(spec_armor_line()),
        !more.contains(spec_armor_line()),
    ensures
        !(lines + more).contains(spec_armor_line()),
{
    let all = lines + more;
    assert forall|i: int| 0 <= i < all.len() implies all[i] != spec_armor_line() by {
        if i < lines.len() {
            assert(all[i] == lines[i]);
            assert(lines.contains(lines[i]));
        } else {
            assert(all[i] == more[i - lines.len()]);
            assert(more.contains(more[i - lines.len()]));
        }
    }
}

/// A number in digits begins with a digit.
pub proof fn lemma_decimal_start(n: nat)
    ensures
        spec_other_start(spec_decimal(n)),
    decreases n,
{
    reveal_strlit("0");
    reveal_strlit("1");
    reveal_strlit("2");
    reveal_strlit("3");
    reveal_strlit("4");
    reveal_strlit("5");
    reveal_strlit("6");
    reveal_strlit("7");
    reveal_strlit("8");
    reveal_strlit("9");
    if n >= 10 {
        lemma_decimal_start(n / 10);
        lemma_start_stays(spec_decimal(n / 10), crate::text::spec_digit((n % 10) as int));
    }
}

/// The rank of a set of weapons begins with `M`, `2` or `O`.
pub proof fn lemma_rank_start(i: usize)
    ensures
        spec_other_start(spec_rank(i)),
{
    reveal_strlit("Main");
    reveal_strlit("2nd");
    reveal_strlit("Other");
}

/// The rank of a battery begins with `M`, a digit or `O`.
pub proof fn lemma_battery_rank_start(i: usize)
    ensures
        spec_other_start(spec_battery_rank(i)),
{
    reveal_strlit("Main");
    reveal_strlit("2nd");
    reveal_strlit("3rd");
    reveal_strlit("4th");
    reveal_strlit("5th");
    reveal_strlit("Other");
}

impl Ship {
    /// None of these lines is the line of the armor that is too heavy.
    pub proof fn lemma_machinery_cautions_clear(&self)
        ensures
            !self.spec_machinery_cautions().contains(spec_armor_line()),
    {
        reveal_strlit("    Immobile floating battery");
        reveal_strlit("    Caution: Too much power for reciprocating engines.");
        reveal_strlit("    Caution: Too much power for number of propellor shafts.");
        reveal_strlit("    Caution: Delicate, lightweight machinery.");
        let s0 = Seq::<Seq<char>>::empty();
        lemma_start_clear("    Immobile floating battery"@);
        lemma_start_clear("    Caution: Too much power for reciprocating engines."@);
        lemma_start_clear("    Caution: Too much power for number of propellor shafts."@);
        lemma_start_clear("    Caution: Delicate, lightweight machinery."@);
        lemma_pushed_clear(s0, "    Immobile floating battery"@);
        lemma_pushed_clear(s0, "    Caution: Too much power for reciprocating engines."@);
        lemma_pushed_clear(s0, "    Caution: Too much power for number of propellor shafts."@);
        lemma_pushed_clear(s0, "    Caution: Delicate, lightweight machinery."@);
        lemma_pushed_clear(
            s0.push("    Caution: Too much power for reciprocating engines."@),
            "    Caution: Delicate, lightweight machinery."@,
        );
        lemma_pushed_clear(
            s0.push("    Caution: Too much power for number of propellor shafts."@),
            "    Caution: Delicate, lightweight machinery."@,
        );
        assert(seq!["    Immobile floating battery"@] =~= s0.push("    Immobile floating battery"@));
        assert(seq!["    Caution: Too much power for reciprocating engines."@] =~= s0.push(
            "    Caution: Too much power for reciprocating engines."@,
        ));
        assert(seq!["    Caution: Too much power for number of propellor shafts."@] =~= s0.push(
            "    Caution: Too much power for number of propellor shafts."@,
        ));
    }

    /// None of these lines is the line of the armor that is too heavy.
    pub proof fn lemma_comments_clear(&self)
        ensures
            !self.spec_comments().contains(spec_armor_line()),
    {
        reveal_strlit("Caution: Poor stability - excessive risk of capsizing");
        reveal_strlit("Caution: Hull subject to strain in open-sea");
        reveal_strlit("    ");
        let s0 = Seq::<Seq<char>>::empty();
        let tender = "Caution: Poor stability - excessive risk of capsizing"@;
        let strained = "Caution: Hull subject to strain in open-sea"@;
        lemma_start_clear(tender);
        lemma_start_clear(strained);
        let s1 = if self.tender_warn() && !self.capsize_warn() {
            lemma_pushed_clear(s0, tender);
            s0.push(tender)
        } else {
            s0
        };
        let s2 = if self.hull_strained() {
            lemma_pushed_clear(s1, strained);
            s1.push(strained)
        } else {
            s1
        };
        let a1 = "    "@ + Self::spec_hull_quality(self.hull_room());
        lemma_start_stays("    "@, Self::spec_hull_quality(self.hull_room()));
        let a2 = a1 + " machinery, storage, compartmentation space"@;
        lemma_start_stays(a1, " machinery, storage, compartmentation space"@);
        lemma_start_clear(a2);
        lemma_pushed_clear(s2, a2);
        let s3 = s2.push(a2);
        let b1 = "    "@ + Self::spec_deck_quality(self.deck_room());
        lemma_start_stays("    "@, Self::spec_deck_quality(self.deck_room()));
        let b2 = b1 + " accommodation and workspace room"@;
        lemma_start_stays(b1, " accommodation and workspace room"@);
        lemma_start_clear(b2);
        lemma_pushed_clear(s3, b2);
        let s4 = s3.push(b2);
        let sea = self.spec_seakeeping_desc().map_values(|line: Seq<char>| "    "@ + line);
        assert forall|i: int| 0 <= i < sea.len() implies sea[i] != spec_armor_line() by {
            lemma_start_stays("    "@, self.spec_seakeeping_desc()[i]);
            lemma_start_clear("    "@ + self.spec_seakeeping_desc()[i]);
        }
        lemma_joined_clear(s4, sea);
        assert(s4 + sea =~= self.spec_comments());
    }
}

impl Battery {
    /// None of these lines is the line of the armor that is too heavy.
    pub proof fn lemma_group_lines_clear(&self, g: usize, main: bool)
        ensures
            !self.spec_group_lines(g, main).contains(spec_armor_line()),
    {
        reveal_strlit("DESIGN FAILURE: Armour weight too much for hull");
        let s0 = Seq::<Seq<char>>::empty();
        let s1 = if self.groups[g as int].spec_num_mounts() != 0 {
            reveal_strlit("        ");
            let a1 = "        "@;
            lemma_start_stays(a1, spec_decimal(self.groups[g as int].spec_num_mounts() as nat));
            let a2 = a1 + spec_decimal(self.groups[g as int].spec_num_mounts() as nat);
            lemma_start_stays(a2, " x "@);
            let a3 = a2 + " x "@;
            lemma_start_stays(a3, self.groups[g as int].layout@);
            let a4 = a3 + self.groups[g as int].layout@;
            lemma_start_stays(a4, " mount"@);
            let a5 = a4 + " mount"@;
            lemma_start_stays(a5, (if self.groups[g as int].spec_num_mounts() == 1 { ""@ } else { "s"@ }));
            let a6 = a5 + (if self.groups[g as int].spec_num_mounts() == 1 { ""@ } else { "s"@ });
            lemma_start_stays(a6, " on "@);
            let a7 = a6 + " on "@;
            lemma_start_stays(a7, self.groups[g as int].place@);
            let a8 = a7 + self.groups[g as int].place@;
            lemma_start_clear(a8);
            lemma_pushed_clear(s0, a8);
            let s2 = s0.push(a8);
            let s3 = if self.groups[g as int].above > 0 {
                reveal_strlit("        ");
                let a9 = "        "@;
                lemma_start_stays(a9, spec_decimal(self.groups[g as int].above as nat));
                let a10 = a9 + spec_decimal(self.groups[g as int].above as nat);
                lemma_start_stays(a10, " "@);
                let a11 = a10 + " "@;
                lemma_start_stays(a11, (if self.groups[g as int].two_mounts_up { "double "@ } else { ""@ }));
                let a12 = a11 + (if self.groups[g as int].two_mounts_up { "double "@ } else { ""@ });
                lemma_start_stays(a12, "raised mount"@);
                let a13 = a12 + "raised mount"@;
                lemma_start_stays(a13, (if self.groups[g as int].above > 1 { "s"@ } else if self.groups[g as int].super_aft && main { " aft"@ } else { ""@ }));
                let a14 = a13 + (if self.groups[g as int].above > 1 { "s"@ } else if self.groups[g as int].super_aft && main { " aft"@ } else { ""@ });
                lemma_start_stays(a14, (if self.spec_superfiring(g as int, false) { " - superfiring"@ } else { ""@ }));
                let a15 = a14 + (if self.spec_superfiring(g as int, false) { " - superfiring"@ } else { ""@ });
                lemma_start_clear(a15);
                lemma_pushed_clear(s2, a15);
                let s4 = s2.push(a15);
                s4
            } else {
                s2
            };
            let s5 = if self.groups[g as int].below > 0 {
                reveal_strlit("        ");
                let a16 = "        "@;
                lemma_start_stays(a16, spec_decimal(self.groups[g as int].below as nat));
                let a17 = a16 + spec_decimal(self.groups[g as int].below as nat);
                lemma_start_stays(a17, " hull mount"@);
                let a18 = a17 + " hull mount"@;
                lemma_start_stays(a18, (if self.groups[g as int].above > 1 { "s"@ } else if self.groups[g as int].super_aft && main { " aft"@ } else { ""@ }));
                let a19 = a18 + (if self.groups[g as int].above > 1 { "s"@ } else if self.groups[g as int].super_aft && main { " aft"@ } else { ""@ });
                lemma_start_stays(a19, " "@);
                let a20 = a19 + " "@;
                lemma_start_stays(a20, self.spec_casemate_word(g));
                let a21 = a20 + self.spec_casemate_word(g);
                lemma_start_stays(a21, "- Limited use in "@);
                let a22 = a21 + "- Limited use in "@;
                lemma_start_stays(a22, (if self.free.lt(Num::Micro(12_000_000)) || (self.free.lt(Num::Micro(19_000_000)) && self.groups[g as int].lower_deck) { "any sea"@ } else if self.free.lt(Num::Micro(16_000_000)) || (self.free.lt(Num::Micro(24_000_000)) && self.groups[g as int].lower_deck) { "all but light seas"@ } else { "heavy seas"@ }));
                let a23 = a22 + (if self.free.lt(Num::Micro(12_000_000)) || (self.free.lt(Num::Micro(19_000_000)) && self.groups[g as int].lower_deck) { "any sea"@ } else if self.free.lt(Num::Micro(16_000_000)) || (self.free.lt(Num::Micro(24_000_000)) && self.groups[g as int].lower_deck) { "all but light seas"@ } else { "heavy seas"@ });
                lemma_start_clear(a23);
                lemma_pushed_clear(s3, a23);
                let s6 = s3.push(a23);
                s6
            } else {
                s3
            };
            s5
        } else {
            s0
        };
        assert(s1 =~= self.spec_group_lines(g, main));
    }

    /// None of these lines is the line of the armor that is too heavy.
    pub proof fn lemma_lines_clear(&self, main: bool)
        ensures
            !self.spec_lines(main).contains(spec_armor_line()),
    {
        reveal_strlit("DESIGN FAILURE: Armour weight too much for hull");
        let s0 = Seq::<Seq<char>>::empty();
        let s1 = if self.num != 0 {
            reveal_strlit("    ");
            let a1 = "    "@;
            lemma_start_stays(a1, spec_decimal(self.num as nat));
            let a2 = a1 + spec_decimal(self.num as nat);
            lemma_start_stays(a2, " - "@);
            let a3 = a2 + " - "@;
            lemma_start_stays(a3, spec_fixed(self.diam, 2));
            let a4 = a3 + spec_fixed(self.diam, 2);
            lemma_start_stays(a4, "\" / "@);
            let a5 = a4 + "\" / "@;
            lemma_start_stays(a5, self.spec_caliber_metric());
            let a6 = a5 + self.spec_caliber_metric();
            lemma_start_stays(a6, " mm "@);
            let a7 = a6 + " mm "@;
            lemma_start_stays(a7, spec_fixed(self.len, 1));
            let a8 = a7 + spec_fixed(self.len, 1);
            lemma_start_stays(a8, (" cal gun"@ + spec_plural(self.num) + " - "@ + spec_grouped_fixed(self.shell_wgt, 2) + "lbs / "@ + spec_grouped_fixed(self.units.of(self.shell_wgt, Measure::Weight), 2) + "kg shells, "@ + spec_grouped(self.shells as nat) + " per gun"@));
            let a9 = a8 + (" cal gun"@ + spec_plural(self.num) + " - "@ + spec_grouped_fixed(self.shell_wgt, 2) + "lbs / "@ + spec_grouped_fixed(self.units.of(self.shell_wgt, Measure::Weight), 2) + "kg shells, "@ + spec_grouped(self.shells as nat) + " per gun"@);
            lemma_start_clear(a9);
            lemma_pushed_clear(s0, a9);
            let s2 = s0.push(a9);
            reveal_strlit("        ");
            let a10 = "        "@;
            lemma_start_stays(a10, self.kind@);
            let a11 = a10 + self.kind@;
            lemma_start_stays(a11, " gun"@);
            let a12 = a11 + " gun"@;
            lemma_start_stays(a12, spec_plural(self.num));
            let a13 = a12 + spec_plural(self.num);
            lemma_start_stays(a13, " in "@);
            let a14 = a13 + " in "@;
            lemma_start_stays(a14, self.mount@);
            let a15 = a14 + self.mount@;
            lemma_start_stays(a15, " mount"@);
            let a16 = a15 + " mount"@;
            lemma_start_stays(a16, spec_plural(self.num));
            let a17 = a16 + spec_plural(self.num);
            lemma_start_stays(a17, (", "@ + spec_decimal(self.year as nat) + " Model"@));
            let a18 = a17 + (", "@ + spec_decimal(self.year as nat) + " Model"@);
            lemma_start_clear(a18);
            lemma_pushed_clear(s2, a18);
            let s3 = s2.push(a18);
            self.lemma_group_lines_clear(0, main);
            lemma_joined_clear(s3, self.spec_group_lines(0, main));
            let s4 = s3 + self.spec_group_lines(0, main);
            self.lemma_group_lines_clear(1, main);
            lemma_joined_clear(s4, self.spec_group_lines(1, main));
            let s5 = s4 + self.spec_group_lines(1, main);
            s5
        } else {
            s0
        };
        assert(s1 =~= self.spec_lines(main));
    }

    /// None of these lines is the line of the armor that is too heavy.
    pub proof fn lemma_armor_lines_clear(&self, i: usize)
        ensures
            !self.spec_armor_lines(i).contains(spec_armor_line()),
    {
        reveal_strlit("DESIGN FAILURE: Armour weight too much for hull");
        let s0 = Seq::<Seq<char>>::empty();
        let s1 = if !(self.armor_face == Num::Micro(0) && self.armor_back == Num::Micro(0) && self.armor_barb == Num::Micro(0)) {
            reveal_strlit("    ");
            let a1 = "    "@;
            lemma_start_stays(a1, spec_battery_rank(i));
            let a2 = a1 + spec_battery_rank(i);
            lemma_start_stays(a2, ":    "@);
            let a3 = a2 + ":    "@;
            lemma_start_stays(a3, spec_gun_plate(self.armor_face, self.units));
            let a4 = a3 + spec_gun_plate(self.armor_face, self.units);
            lemma_start_stays(a4, "        "@);
            let a5 = a4 + "        "@;
            lemma_start_stays(a5, spec_gun_plate(self.armor_back, self.units));
            let a6 = a5 + spec_gun_plate(self.armor_back, self.units);
            lemma_start_stays(a6, "            "@);
            let a7 = a6 + "            "@;
            lemma_start_stays(a7, spec_gun_plate(self.armor_barb, self.units));
            let a8 = a7 + spec_gun_plate(self.armor_barb, self.units);
            lemma_start_clear(a8);
            lemma_pushed_clear(s0, a8);
            let s2 = s0.push(a8);
            s2
        } else {
            s0
        };
        assert(s1 =~= self.spec_armor_lines(i));
    }
}

impl Torpedoes {
    /// None of these lines is the line of the armor that is too heavy.
    pub proof fn lemma_lines_clear(&self, i: usize)
        ensures
            !self.spec_lines(i).contains(spec_armor_line()),
    {
        reveal_strlit("DESIGN FAILURE: Armour weight too much for hull");
        let s0 = Seq::<Seq<char>>::empty();
        let s1 = if self.num != 0 {
            lemma_rank_start(i);
            let a1 = spec_rank(i);
            lemma_start_stays(a1, " Torpedoes"@);
            let a2 = a1 + " Torpedoes"@;
            lemma_start_clear(a2);
            lemma_pushed_clear(s0, a2);
            let s2 = s0.push(a2);
            lemma_decimal_start(self.num as nat);
            let a3 = spec_decimal(self.num as nat);
            lemma_start_stays(a3, " - "@);
            let a4 = a3 + " - "@;
            lemma_start_stays(a4, spec_fixed(self.diam, 1));
            let a5 = a4 + spec_fixed(self.diam, 1);
            lemma_start_stays(a5, "\" / "@);
            let a6 = a5 + "\" / "@;
            lemma_start_stays(a6, spec_fixed(self.units.of(self.diam, Measure::LengthSmall), 0));
            let a7 = a6 + spec_fixed(self.units.of(self.diam, Measure::LengthSmall), 0);
            lemma_start_stays(a7, " mm, "@);
            let a8 = a7 + " mm, "@;
            lemma_start_stays(a8, spec_fixed(self.len, 2));
            let a9 = a8 + spec_fixed(self.len, 2);
            lemma_start_stays(a9, " ft / "@);
            let a10 = a9 + " ft / "@;
            lemma_start_stays(a10, (spec_fixed(self.units.of(self.len, Measure::LengthLong), 2) + " m torpedo"@ + self.spec_each_word() + " "@ + spec_fixed(self.wgt_weaps, 3) + " t total"@));
            let a11 = a10 + (spec_fixed(self.units.of(self.len, Measure::LengthLong), 2) + " m torpedo"@ + self.spec_each_word() + " "@ + spec_fixed(self.wgt_weaps, 3) + " t total"@);
            lemma_start_clear(a11);
            lemma_pushed_clear(s2, a11);
            let s3 = s2.push(a11);
            reveal_strlit("    ");
            let a12 = "    "@;
            lemma_start_stays(a12, self.desc@);
            let a13 = a12 + self.desc@;
            lemma_start_clear(a13);
            lemma_pushed_clear(s3, a13);
            let s4 = s3.push(a13);
            s4
        } else {
            s0
        };
        assert(s1 =~= self.spec_lines(i));
    }
}

impl ASW {
    /// None of these lines is the line of the armor that is too heavy.
    pub proof fn lemma_lines_clear(&self, i: usize)
        ensures
            !self.spec_lines(i).contains(spec_armor_line()),
    {
        reveal_strlit("DESIGN FAILURE: Armour weight too much for hull");
        let s0 = Seq::<Seq<char>>::empty();
        let s1 = if self.num != 0 {
            lemma_rank_start(i);
            let a1 = spec_rank(i);
            lemma_start_stays(a1, " DC/AS Mortars"@);
            let a2 = a1 + " DC/AS Mortars"@;
            lemma_start_clear(a2);
            lemma_pushed_clear(s0, a2);
            let s2 = s0.push(a2);
            lemma_decimal_start(self.num as nat);
            let a3 = spec_decimal(self.num as nat);
            lemma_start_stays(a3, " - "@);
            let a4 = a3 + " - "@;
            lemma_start_stays(a4, spec_fixed(self.unit_wgt, 2));
            let a5 = a4 + spec_fixed(self.unit_wgt, 2);
            lemma_start_stays(a5, " lbs / "@);
            let a6 = a5 + " lbs / "@;
            lemma_start_stays(a6, spec_fixed(self.units.of(self.unit_wgt, Measure::Weight), 2));
            let a7 = a6 + spec_fixed(self.units.of(self.unit_wgt, Measure::Weight), 2);
            lemma_start_stays(a7, " kg "@);
            let a8 = a7 + " kg "@;
            lemma_start_stays(a8, self.kind@);
            let a9 = a8 + self.kind@;
            lemma_start_stays(a9, (if self.reload > 0 { " + "@ + spec_decimal(self.reload as nat) + " reloads"@ } else { ""@ }));
            let a10 = a9 + (if self.reload > 0 { " + "@ + spec_decimal(self.reload as nat) + " reloads"@ } else { ""@ });
            lemma_start_stays(a10, (" - "@ + spec_fixed(self.wgt_weaps, 3) + " t total"@));
            let a11 = a10 + (" - "@ + spec_fixed(self.wgt_weaps, 3) + " t total"@);
            lemma_start_clear(a11);
            lemma_pushed_clear(s2, a11);
            let s3 = s2.push(a11);
            let s4 = if self.desc@.len() != 0 {
                reveal_strlit("    ");
                let a12 = "    "@;
                lemma_start_stays(a12, self.desc@);
                let a13 = a12 + self.desc@;
                lemma_start_clear(a13);
                lemma_pushed_clear(s3, a13);
                let s5 = s3.push(a13);
                s5
            } else {
                s3
            };
            s4
        } else {
            s0
        };
        assert(s1 =~= self.spec_lines(i));
    }
}

impl Ship {
    /// None of these lines is the line of the armor that is too heavy.
    pub proof fn lemma_displacement_lines_clear(&self)
        ensures
            !self.spec_displacement_lines().contains(spec_armor_line()),
    {
        reveal_strlit("DESIGN FAILURE: Armour weight too much for hull");
        let s0 = Seq::<Seq<char>>::empty();
        reveal_strlit("Displacement:");
        let a1 = "Displacement:"@;
        assert(a1[1] != spec_armor_line()[1]);
        lemma_pushed_clear(s0, a1);
        let s1 = s0.push(a1);
        reveal_strlit("    ");
        let a2 = "    "@;
        lemma_start_stays(a2, spec_grouped_fixed(self.d_lite(), 0));
        let a3 = a2 + spec_grouped_fixed(self.d_lite(), 0);
        lemma_start_stays(a3, " t light; "@);
        let a4 = a3 + " t light; "@;
        lemma_start_stays(a4, spec_grouped_fixed(self.d_std(), 0));
        let a5 = a4 + spec_grouped_fixed(self.d_std(), 0);
        lemma_start_stays(a5, " t standard; "@);
        let a6 = a5 + " t standard; "@;
        lemma_start_stays(a6, spec_grouped_fixed(self.hull.d, 0));
        let a7 = a6 + spec_grouped_fixed(self.hull.d, 0);
        lemma_start_stays(a7, " t normal; "@);
        let a8 = a7 + " t normal; "@;
        lemma_start_stays(a8, spec_grouped_fixed(self.d_max(), 0));
        let a9 = a8 + spec_grouped_fixed(self.d_max(), 0);
        lemma_start_stays(a9, " t full load"@);
        let a10 = a9 + " t full load"@;
        lemma_start_clear(a10);
        lemma_pushed_clear(s1, a10);
        let s2 = s1.push(a10);
        reveal_strlit("");
        let a11 = ""@;
        lemma_pushed_clear(s2, a11);
        let s3 = s2.push(a11);
        assert(s3 =~= self.spec_displacement_lines());
    }

    /// None of these lines is the line of the armor that is too heavy.
    pub proof fn lemma_dimension_lines_clear(&self)
        ensures
            !self.spec_dimension_lines().contains(spec_armor_line()),
    {
        reveal_strlit("DESIGN FAILURE: Armour weight too much for hull");
        let s0 = Seq::<Seq<char>>::empty();
        reveal_strlit("Dimensions: Length (overall / waterline) x beam x draught (normal/deep)");
        let a1 = "Dimensions: Length (overall / waterline) x beam x draught (normal/deep)"@;
        assert(a1[1] != spec_armor_line()[1]);
        lemma_pushed_clear(s0, a1);
        let s1 = s0.push(a1);
        reveal_strlit("    (");
        let a2 = "    ("@;
        lemma_start_stays(a2, spec_fixed(self.hull.loa, 2));
        let a3 = a2 + spec_fixed(self.hull.loa, 2);
        lemma_start_stays(a3, " ft / "@);
        let a4 = a3 + " ft / "@;
        lemma_start_stays(a4, spec_fixed(self.hull.lwl, 2));
        let a5 = a4 + spec_fixed(self.hull.lwl, 2);
        lemma_start_stays(a5, " ft) x "@);
        let a6 = a5 + " ft) x "@;
        lemma_start_stays(a6, spec_fixed(self.hull.b, 2));
        let a7 = a6 + spec_fixed(self.hull.b, 2);
        lemma_start_stays(a7, " ft "@);
        let a8 = a7 + " ft "@;
        lemma_start_stays(a8, (if self.hull.bb.gt(self.hull.b) { "(Bulges "@ + spec_fixed(self.hull.bb, 2) + " ft) "@ } else { ""@ }));
        let a9 = a8 + (if self.hull.bb.gt(self.hull.b) { "(Bulges "@ + spec_fixed(self.hull.bb, 2) + " ft) "@ } else { ""@ });
        lemma_start_stays(a9, ("x ("@ + spec_fixed(self.hull.t, 2) + " / "@ + spec_fixed(self.t_max(), 2) + " ft)"@));
        let a10 = a9 + ("x ("@ + spec_fixed(self.hull.t, 2) + " / "@ + spec_fixed(self.t_max(), 2) + " ft)"@);
        lemma_start_clear(a10);
        lemma_pushed_clear(s1, a10);
        let s2 = s1.push(a10);
        reveal_strlit("    (");
        let a11 = "    ("@;
        lemma_start_stays(a11, spec_fixed(self.hull.units.of(self.hull.loa, Measure::LengthLong), 2));
        let a12 = a11 + spec_fixed(self.hull.units.of(self.hull.loa, Measure::LengthLong), 2);
        lemma_start_stays(a12, " m / "@);
        let a13 = a12 + " m / "@;
        lemma_start_stays(a13, spec_fixed(self.hull.units.of(self.hull.lwl, Measure::LengthLong), 2));
        let a14 = a13 + spec_fixed(self.hull.units.of(self.hull.lwl, Measure::LengthLong), 2);
        lemma_start_stays(a14, " m) x "@);
        let a15 = a14 + " m) x "@;
        lemma_start_stays(a15, spec_fixed(self.hull.units.of(self.hull.b, Measure::LengthLong), 2));
        let a16 = a15 + spec_fixed(self.hull.units.of(self.hull.b, Measure::LengthLong), 2);
        lemma_start_stays(a16, " m "@);
        let a17 = a16 + " m "@;
        lemma_start_stays(a17, (if self.hull.bb.gt(self.hull.b) { "(Bulges "@ + spec_fixed(self.hull.units.of(self.hull.bb, Measure::LengthLong), 2) + " m) "@ } else { ""@ }));
        let a18 = a17 + (if self.hull.bb.gt(self.hull.b) { "(Bulges "@ + spec_fixed(self.hull.units.of(self.hull.bb, Measure::LengthLong), 2) + " m) "@ } else { ""@ });
        lemma_start_stays(a18, ("x ("@ + spec_fixed(self.hull.units.of(self.hull.t, Measure::LengthLong), 2) + " / "@ + spec_fixed(self.hull.units.of(self.t_max(), Measure::LengthLong), 2) + " m)"@));
        let a19 = a18 + ("x ("@ + spec_fixed(self.hull.units.of(self.hull.t, Measure::LengthLong), 2) + " / "@ + spec_fixed(self.hull.units.of(self.t_max(), Measure::LengthLong), 2) + " m)"@);
        lemma_start_clear(a19);
        lemma_pushed_clear(s2, a19);
        let s3 = s2.push(a19);
        reveal_strlit("");
        let a20 = ""@;
        lemma_pushed_clear(s3, a20);
        let s4 = s3.push(a20);
        assert(s4 =~= self.spec_dimension_lines());
    }

    /// None of these lines is the line of the armor that is too heavy.
    pub proof fn lemma_battery_lines_upto_clear(&self, n: int)
        ensures
            !self.spec_battery_lines_upto(n).contains(spec_armor_line()),
        decreases n,
    {
        if n > 0 {
            self.lemma_battery_lines_upto_clear(n - 1);
            self.batteries[n - 1].lemma_lines_clear(n == 1);
            lemma_joined_clear(self.spec_battery_lines_upto(n - 1), self.batteries[n - 1].spec_lines(n == 1));
        }
    }

    /// None of these lines is the line of the armor that is too heavy.
    pub proof fn lemma_battery_lines_clear(&self)
        ensures
            !self.spec_battery_lines().contains(spec_armor_line()),
    {
        self.lemma_battery_lines_upto_clear(self.batteries.len() as int);
    }

    /// None of these lines is the line of the armor that is too heavy.
    pub proof fn lemma_torpedo_lines_upto_clear(&self, n: int)
        ensures
            !self.spec_torpedo_lines_upto(n).contains(spec_armor_line()),
        decreases n,
    {
        if n > 0 {
            self.lemma_torpedo_lines_upto_clear(n - 1);
            self.torps[n - 1].lemma_lines_clear((n - 1) as usize);
            lemma_joined_clear(self.spec_torpedo_lines_upto(n - 1), self.torps[n - 1].spec_lines((n - 1) as usize));
        }
    }

    /// None of these lines is the line of the armor that is too heavy.
    pub proof fn lemma_torpedo_lines_clear(&self)
        ensures
            !self.spec_torpedo_lines().contains(spec_armor_line()),
    {
        self.lemma_torpedo_lines_upto_clear(self.torps.len() as int);
    }

    /// None of these lines is the line of the armor that is too heavy.
    pub proof fn lemma_asw_lines_upto_clear(&self, n: int)
        ensures
            !self.spec_asw_lines_upto(n).contains(spec_armor_line()),
        decreases n,
    {
        if n > 0 {
            self.lemma_asw_lines_upto_clear(n - 1);
            self.asw[n - 1].lemma_lines_clear((n - 1) as usize);
            lemma_joined_clear(self.spec_asw_lines_upto(n - 1), self.asw[n - 1].spec_lines((n - 1) as usize));
        }
    }

    /// None of these lines is the line of the armor that is too heavy.
    pub proof fn lemma_asw_lines_clear(&self)
        ensures
            !self.spec_asw_lines().contains(spec_armor_line()),
    {
        self.lemma_asw_lines_upto_clear(self.asw.len() as int);
    }

    /// None of these lines is the line of the armor that is too heavy.
    pub proof fn lemma_gun_plate_lines_upto_clear(&self, n: int)
        ensures
            !self.spec_gun_plate_lines_upto(n).contains(spec_armor_line()),
        decreases n,
    {
        if n > 0 {
            self.lemma_gun_plate_lines_upto_clear(n - 1);
            self.batteries[n - 1].lemma_armor_lines_clear((n - 1) as usize);
            lemma_joined_clear(self.spec_gun_plate_lines_upto(n - 1), self.batteries[n - 1].spec_armor_lines((n - 1) as usize));
        }
    }

    /// None of these lines is the line of the armor that is too heavy.
    pub proof fn lemma_gun_plate_lines_clear(&self)
        ensures
            !self.spec_gun_plate_lines().contains(spec_armor_line()),
    {
        self.lemma_gun_plate_lines_upto_clear(self.batteries.len() as int);
    }

    /// None of these lines is the line of the armor that is too heavy.
    pub proof fn lemma_mine_lines_clear(&self)
        ensures
            !self.spec_mine_lines().contains(spec_armor_line()),
    {
        reveal_strlit("DESIGN FAILURE: Armour weight too much for hull");
        let s0 = Seq::<Seq<char>>::empty();
        let s1 = if self.mines.num != 0 {
            reveal_strlit("Mines");
            let a1 = "Mines"@;
            lemma_start_clear(a1);
            lemma_pushed_clear(s0, a1);
            let s2 = s0.push(a1);
            lemma_decimal_start(self.mines.num as nat);
            let a2 = spec_decimal(self.mines.num as nat);
            lemma_start_stays(a2, " - "@);
            let a3 = a2 + " - "@;
            lemma_start_stays(a3, spec_fixed(self.mines.unit_wgt, 2));
            let a4 = a3 + spec_fixed(self.mines.unit_wgt, 2);
            lemma_start_stays(a4, " lbs / "@);
            let a5 = a4 + " lbs / "@;
            lemma_start_stays(a5, spec_fixed(self.mines.units.of(self.mines.unit_wgt, Measure::Weight), 2));
            let a6 = a5 + spec_fixed(self.mines.units.of(self.mines.unit_wgt, Measure::Weight), 2);
            lemma_start_stays(a6, " kg mines"@);
            let a7 = a6 + " kg mines"@;
            lemma_start_stays(a7, (if self.mines.reload > 0 { " + "@ + spec_decimal(self.mines.reload as nat) + " reloads"@ } else { ""@ }));
            let a8 = a7 + (if self.mines.reload > 0 { " + "@ + spec_decimal(self.mines.reload as nat) + " reloads"@ } else { ""@ });
            lemma_start_stays(a8, " - "@);
            let a9 = a8 + " - "@;
            lemma_start_stays(a9, (spec_fixed(self.mines.wgt_weaps, 3) + " t total"@));
            let a10 = a9 + (spec_fixed(self.mines.wgt_weaps, 3) + " t total"@);
            lemma_start_clear(a10);
            lemma_pushed_clear(s2, a10);
            let s3 = s2.push(a10);
            reveal_strlit("    ");
            let a11 = "    "@;
            lemma_start_stays(a11, self.mines.desc@);
            let a12 = a11 + self.mines.desc@;
            lemma_start_clear(a12);
            lemma_pushed_clear(s3, a12);
            let s4 = s3.push(a12);
            s4
        } else {
            s0
        };
        assert(s1 =~= self.spec_mine_lines());
    }

    /// None of these lines is the line of the armor that is too heavy.
    pub proof fn lemma_armament_lines_clear(&self)
        ensures
            !self.spec_armament_lines().contains(spec_armor_line()),
    {
        reveal_strlit("DESIGN FAILURE: Armour weight too much for hull");
        let s0 = Seq::<Seq<char>>::empty();
        reveal_strlit("Armament:");
        let a1 = "Armament:"@;
        lemma_start_clear(a1);
        lemma_pushed_clear(s0, a1);
        let s1 = s0.push(a1);
        self.lemma_battery_lines_clear();
        lemma_joined_clear(s1, self.spec_battery_lines());
        let s2 = s1 + self.spec_battery_lines();
        reveal_strlit("    Weight of broadside ");
        let a2 = "    Weight of broadside "@;
        lemma_start_stays(a2, spec_grouped_fixed(self.wgt_broad(), 0));
        let a3 = a2 + spec_grouped_fixed(self.wgt_broad(), 0);
        lemma_start_stays(a3, " lbs / "@);
        let a4 = a3 + " lbs / "@;
        lemma_start_stays(a4, spec_grouped_fixed(Metric::imperial().of(self.wgt_broad(), Measure::Weight), 0));
        let a5 = a4 + spec_grouped_fixed(Metric::imperial().of(self.wgt_broad(), Measure::Weight), 0);
        lemma_start_stays(a5, " kg"@);
        let a6 = a5 + " kg"@;
        lemma_start_clear(a6);
        lemma_pushed_clear(s2, a6);
        let s3 = s2.push(a6);
        self.lemma_torpedo_lines_clear();
        lemma_joined_clear(s3, self.spec_torpedo_lines());
        let s4 = s3 + self.spec_torpedo_lines();
        self.lemma_mine_lines_clear();
        lemma_joined_clear(s4, self.spec_mine_lines());
        let s5 = s4 + self.spec_mine_lines();
        self.lemma_asw_lines_clear();
        lemma_joined_clear(s5, self.spec_asw_lines());
        let s6 = s5 + self.spec_asw_lines();
        assert(s6 =~= self.spec_armament_lines());
    }

    /// None of these lines is the line of the armor that is too heavy.
    pub proof fn lemma_belt_lines_clear(&self)
        ensures
            !self.spec_belt_lines().contains(spec_armor_line()),
    {
        reveal_strlit("DESIGN FAILURE: Armour weight too much for hull");
        let s0 = Seq::<Seq<char>>::empty();
        reveal_strlit(" - Belts:    Width (max)    Length (avg)    Height (avg)");
        let a1 = " - Belts:    Width (max)    Length (avg)    Height (avg)"@;
        lemma_start_clear(a1);
        lemma_pushed_clear(s0, a1);
        let s1 = s0.push(a1);
        let s2 = if self.armor.main.thick.gt(Num::Micro(0)) {
            reveal_strlit("    Main:    ");
            let a2 = "    Main:    "@;
            lemma_start_stays(a2, spec_plate(self.armor.main.thick));
            let a3 = a2 + spec_plate(self.armor.main.thick);
            lemma_start_stays(a3, "\" / "@);
            let a4 = a3 + "\" / "@;
            lemma_start_stays(a4, spec_fixed(self.armor.units.of(self.armor.main.thick, Measure::LengthSmall), 0));
            let a5 = a4 + spec_fixed(self.armor.units.of(self.armor.main.thick, Measure::LengthSmall), 0);
            lemma_start_stays(a5, " mm    "@);
            let a6 = a5 + " mm    "@;
            lemma_start_stays(a6, spec_fixed(self.armor.main.len, 2));
            let a7 = a6 + spec_fixed(self.armor.main.len, 2);
            lemma_start_stays(a7, " ft / "@);
            let a8 = a7 + " ft / "@;
            lemma_start_stays(a8, spec_fixed(self.armor.units.of(self.armor.main.len, Measure::LengthLong), 2));
            let a9 = a8 + spec_fixed(self.armor.units.of(self.armor.main.len, Measure::LengthLong), 2);
            lemma_start_stays(a9, (" m    "@ + spec_fixed(self.armor.main.hgt, 2) + " ft / "@ + spec_fixed(self.armor.units.of(self.armor.main.hgt, Measure::LengthLong), 2) + " m"@));
            let a10 = a9 + (" m    "@ + spec_fixed(self.armor.main.hgt, 2) + " ft / "@ + spec_fixed(self.armor.units.of(self.armor.main.hgt, Measure::LengthLong), 2) + " m"@);
            lemma_start_clear(a10);
            lemma_pushed_clear(s1, a10);
            let s3 = s1.push(a10);
            s3
        } else {
            s1
        };
        let s4 = if self.armor.end.thick.gt(Num::Micro(0)) {
            reveal_strlit("    Ends:    ");
            let a11 = "    Ends:    "@;
            lemma_start_stays(a11, spec_plate(self.armor.end.thick));
            let a12 = a11 + spec_plate(self.armor.end.thick);
            lemma_start_stays(a12, "\" / "@);
            let a13 = a12 + "\" / "@;
            lemma_start_stays(a13, spec_fixed(self.armor.units.of(self.armor.end.thick, Measure::LengthSmall), 0));
            let a14 = a13 + spec_fixed(self.armor.units.of(self.armor.end.thick, Measure::LengthSmall), 0);
            lemma_start_stays(a14, " mm    "@);
            let a15 = a14 + " mm    "@;
            lemma_start_stays(a15, spec_fixed(self.armor.end.len, 2));
            let a16 = a15 + spec_fixed(self.armor.end.len, 2);
            lemma_start_stays(a16, " ft / "@);
            let a17 = a16 + " ft / "@;
            lemma_start_stays(a17, spec_fixed(self.armor.units.of(self.armor.end.len, Measure::LengthLong), 2));
            let a18 = a17 + spec_fixed(self.armor.units.of(self.armor.end.len, Measure::LengthLong), 2);
            lemma_start_stays(a18, (" m    "@ + spec_fixed(self.armor.end.hgt, 2) + " ft / "@ + spec_fixed(self.armor.units.of(self.armor.end.hgt, Measure::LengthLong), 2) + " m"@));
            let a19 = a18 + (" m    "@ + spec_fixed(self.armor.end.hgt, 2) + " ft / "@ + spec_fixed(self.armor.units.of(self.armor.end.hgt, Measure::LengthLong), 2) + " m"@);
            lemma_start_clear(a19);
            lemma_pushed_clear(s2, a19);
            let s5 = s2.push(a19);
            let s6 = if self.armor.main.len.plus(self.armor.end.len).lt(self.hull.lwl) {
                reveal_strlit("    ");
                let a20 = "    "@;
                lemma_start_stays(a20, spec_fixed(self.hull.lwl.minus(self.armor.main.len).minus(self.armor.end.len), 2));
                let a21 = a20 + spec_fixed(self.hull.lwl.minus(self.armor.main.len).minus(self.armor.end.len), 2);
                lemma_start_stays(a21, " ft / "@);
                let a22 = a21 + " ft / "@;
                lemma_start_stays(a22, spec_fixed(self.armor.units.of(self.hull.lwl.minus(self.armor.main.len).minus(self.armor.end.len), Measure::LengthLong), 2));
                let a23 = a22 + spec_fixed(self.armor.units.of(self.hull.lwl.minus(self.armor.main.len).minus(self.armor.end.len), Measure::LengthLong), 2);
                lemma_start_stays(a23, " m Unarmoured ends"@);
                let a24 = a23 + " m Unarmoured ends"@;
                lemma_start_clear(a24);
                lemma_pushed_clear(s5, a24);
                let s7 = s5.push(a24);
                s7
            } else {
                s5
            };
            s6
        } else {
            s2
        };
        let s8 = if !self.armor.end.thick.gt(Num::Micro(0)) && self.armor.main.len.lt(self.hull.lwl) {
            reveal_strlit("    Ends:    Unarmoured");
            let a25 = "    Ends:    Unarmoured"@;
            lemma_start_clear(a25);
            lemma_pushed_clear(s4, a25);
            let s9 = s4.push(a25);
            s9
        } else {
            s4
        };
        let s10 = if self.armor.upper.thick.gt(Num::Micro(0)) {
            reveal_strlit("    Upper:    ");
            let a26 = "    Upper:    "@;
            lemma_start_stays(a26, spec_plate(self.armor.upper.thick));
            let a27 = a26 + spec_plate(self.armor.upper.thick);
            lemma_start_stays(a27, "\" / "@);
            let a28 = a27 + "\" / "@;
            lemma_start_stays(a28, spec_fixed(self.armor.units.of(self.armor.upper.thick, Measure::LengthSmall), 0));
            let a29 = a28 + spec_fixed(self.armor.units.of(self.armor.upper.thick, Measure::LengthSmall), 0);
            lemma_start_stays(a29, " mm    "@);
            let a30 = a29 + " mm    "@;
            lemma_start_stays(a30, spec_fixed(self.armor.upper.len, 2));
            let a31 = a30 + spec_fixed(self.armor.upper.len, 2);
            lemma_start_stays(a31, " ft / "@);
            let a32 = a31 + " ft / "@;
            lemma_start_stays(a32, spec_fixed(self.armor.units.of(self.armor.upper.len, Measure::LengthLong), 2));
            let a33 = a32 + spec_fixed(self.armor.units.of(self.armor.upper.len, Measure::LengthLong), 2);
            lemma_start_stays(a33, (" m    "@ + spec_fixed(self.armor.upper.hgt, 2) + " ft / "@ + spec_fixed(self.armor.units.of(self.armor.upper.hgt, Measure::LengthLong), 2) + " m"@));
            let a34 = a33 + (" m    "@ + spec_fixed(self.armor.upper.hgt, 2) + " ft / "@ + spec_fixed(self.armor.units.of(self.armor.upper.hgt, Measure::LengthLong), 2) + " m"@);
            lemma_start_clear(a34);
            lemma_pushed_clear(s8, a34);
            let s11 = s8.push(a34);
            s11
        } else {
            s8
        };
        let s12 = if self.armor.main.thick.gt(Num::Micro(0)) {
            reveal_strlit("    Main Belt covers ");
            let a35 = "    Main Belt covers "@;
            lemma_start_stays(a35, spec_fixed(self.armor.belt_coverage(self.hull.lwl).times(Num::Micro(100_000_000)), 0));
            let a36 = a35 + spec_fixed(self.armor.belt_coverage(self.hull.lwl).times(Num::Micro(100_000_000)), 0);
            lemma_start_stays(a36, " % of normal length"@);
            let a37 = a36 + " % of normal length"@;
            lemma_start_clear(a37);
            lemma_pushed_clear(s10, a37);
            let s13 = s10.push(a37);
            let s14 = if self.armor.belt_coverage(self.hull.lwl).lt(self.hull_room()) {
                reveal_strlit("    Main belt does not fully cover magazines and engineering spaces");
                let a38 = "    Main belt does not fully cover magazines and engineering spaces"@;
                lemma_start_clear(a38);
                lemma_pushed_clear(s13, a38);
                let s15 = s13.push(a38);
                s15
            } else {
                s13
            };
            s14
        } else {
            s10
        };
        let s16 = if self.armor.incline != Num::Micro(0) {
            reveal_strlit("    Main Belt inclined ");
            let a39 = "    Main Belt inclined "@;
            lemma_start_stays(a39, spec_fixed(self.armor.incline, 2));
            let a40 = a39 + spec_fixed(self.armor.incline, 2);
            lemma_start_stays(a40, " degrees (positive = in)"@);
            let a41 = a40 + " degrees (positive = in)"@;
            lemma_start_clear(a41);
            lemma_pushed_clear(s12, a41);
            let s17 = s12.push(a41);
            s17
        } else {
            s12
        };
        assert(s16 =~= self.spec_belt_lines());
    }

    /// None of these lines is the line of the armor that is too heavy.
    pub proof fn lemma_bulkhead_lines_clear(&self)
        ensures
            !self.spec_bulkhead_lines().contains(spec_armor_line()),
    {
        reveal_strlit("DESIGN FAILURE: Armour weight too much for hull");
        let s0 = Seq::<Seq<char>>::empty();
        let s1 = if self.armor.bulkhead.thick.gt(Num::Micro(0)) {
            reveal_strlit("");
            let a1 = ""@;
            lemma_pushed_clear(s0, a1);
            let s2 = s0.push(a1);
            reveal_strlit("- Torpedo Bulkhead - ");
            let a2 = "- Torpedo Bulkhead - "@;
            lemma_start_stays(a2, (if self.armor.bh_kind == BulkheadType::Strengthened { "Strengthened structural"@ } else { "Additional damage containing"@ }));
            let a3 = a2 + (if self.armor.bh_kind == BulkheadType::Strengthened { "Strengthened structural"@ } else { "Additional damage containing"@ });
            lemma_start_stays(a3, " bulkheads:"@);
            let a4 = a3 + " bulkheads:"@;
            lemma_start_clear(a4);
            lemma_pushed_clear(s2, a4);
            let s3 = s2.push(a4);
            reveal_strlit("        ");
            let a5 = "        "@;
            lemma_start_stays(a5, spec_plate(self.armor.bulkhead.thick));
            let a6 = a5 + spec_plate(self.armor.bulkhead.thick);
            lemma_start_stays(a6, "\" / "@);
            let a7 = a6 + "\" / "@;
            lemma_start_stays(a7, spec_fixed(self.armor.units.of(self.armor.bulkhead.thick, Measure::LengthSmall), 0));
            let a8 = a7 + spec_fixed(self.armor.units.of(self.armor.bulkhead.thick, Measure::LengthSmall), 0);
            lemma_start_stays(a8, " mm    "@);
            let a9 = a8 + " mm    "@;
            lemma_start_stays(a9, spec_fixed(self.armor.bulkhead.len, 2));
            let a10 = a9 + spec_fixed(self.armor.bulkhead.len, 2);
            lemma_start_stays(a10, " ft / "@);
            let a11 = a10 + " ft / "@;
            lemma_start_stays(a11, spec_fixed(self.armor.units.of(self.armor.bulkhead.len, Measure::LengthLong), 2));
            let a12 = a11 + spec_fixed(self.armor.units.of(self.armor.bulkhead.len, Measure::LengthLong), 2);
            lemma_start_stays(a12, (" m    "@ + spec_fixed(self.armor.bulkhead.hgt, 2) + " ft / "@ + spec_fixed(self.armor.units.of(self.armor.bulkhead.hgt, Measure::LengthLong), 2) + " m"@));
            let a13 = a12 + (" m    "@ + spec_fixed(self.armor.bulkhead.hgt, 2) + " ft / "@ + spec_fixed(self.armor.units.of(self.armor.bulkhead.hgt, Measure::LengthLong), 2) + " m"@);
            lemma_start_clear(a13);
            lemma_pushed_clear(s3, a13);
            let s4 = s3.push(a13);
            reveal_strlit("    Beam between torpedo bulkheads ");
            let a14 = "    Beam between torpedo bulkheads "@;
            lemma_start_stays(a14, spec_fixed(self.armor.bh_beam, 2));
            let a15 = a14 + spec_fixed(self.armor.bh_beam, 2);
            lemma_start_stays(a15, " ft / "@);
            let a16 = a15 + " ft / "@;
            lemma_start_stays(a16, spec_fixed(self.armor.units.of(self.armor.bh_beam, Measure::LengthLong), 2));
            let a17 = a16 + spec_fixed(self.armor.units.of(self.armor.bh_beam, Measure::LengthLong), 2);
            lemma_start_stays(a17, " m"@);
            let a18 = a17 + " m"@;
            lemma_start_clear(a18);
            lemma_pushed_clear(s4, a18);
            let s5 = s4.push(a18);
            reveal_strlit("");
            let a19 = ""@;
            lemma_pushed_clear(s5, a19);
            let s6 = s5.push(a19);
            s6
        } else {
            s0
        };
        let s7 = if self.armor.bulge.thick.gt(Num::Micro(0)) || self.wgts.void > 0 {
            reveal_strlit("- Hull ");
            let a20 = "- Hull "@;
            lemma_start_stays(a20, (if self.hull.b == self.hull.bb { "void"@ } else { "Bulges"@ }));
            let a21 = a20 + (if self.hull.b == self.hull.bb { "void"@ } else { "Bulges"@ });
            lemma_start_stays(a21, ":"@);
            let a22 = a21 + ":"@;
            lemma_start_clear(a22);
            lemma_pushed_clear(s1, a22);
            let s8 = s1.push(a22);
            reveal_strlit("        ");
            let a23 = "        "@;
            lemma_start_stays(a23, spec_plate(self.armor.bulge.thick));
            let a24 = a23 + spec_plate(self.armor.bulge.thick);
            lemma_start_stays(a24, "\" / "@);
            let a25 = a24 + "\" / "@;
            lemma_start_stays(a25, spec_fixed(self.armor.units.of(self.armor.bulge.thick, Measure::LengthSmall), 0));
            let a26 = a25 + spec_fixed(self.armor.units.of(self.armor.bulge.thick, Measure::LengthSmall), 0);
            lemma_start_stays(a26, " mm    "@);
            let a27 = a26 + " mm    "@;
            lemma_start_stays(a27, spec_fixed(self.armor.bulge.len, 2));
            let a28 = a27 + spec_fixed(self.armor.bulge.len, 2);
            lemma_start_stays(a28, " ft / "@);
            let a29 = a28 + " ft / "@;
            lemma_start_stays(a29, spec_fixed(self.armor.units.of(self.armor.bulge.len, Measure::LengthLong), 2));
            let a30 = a29 + spec_fixed(self.armor.units.of(self.armor.bulge.len, Measure::LengthLong), 2);
            lemma_start_stays(a30, (" m    "@ + spec_fixed(self.armor.bulge.hgt, 2) + " ft / "@ + spec_fixed(self.armor.units.of(self.armor.bulge.hgt, Measure::LengthLong), 2) + " m"@));
            let a31 = a30 + (" m    "@ + spec_fixed(self.armor.bulge.hgt, 2) + " ft / "@ + spec_fixed(self.armor.units.of(self.armor.bulge.hgt, Measure::LengthLong), 2) + " m"@);
            lemma_start_clear(a31);
            lemma_pushed_clear(s8, a31);
            let s9 = s8.push(a31);
            reveal_strlit("");
            let a32 = ""@;
            lemma_pushed_clear(s9, a32);
            let s10 = s9.push(a32);
            s10
        } else {
            s1
        };
        assert(s7 =~= self.spec_bulkhead_lines());
    }

    /// None of these lines is the line of the armor that is too heavy.
    pub proof fn lemma_armor_lines_clear(&self)
        ensures
            !self.spec_armor_lines().contains(spec_armor_line()),
    {
        reveal_strlit("DESIGN FAILURE: Armour weight too much for hull");
        let s0 = Seq::<Seq<char>>::empty();
        reveal_strlit("");
        let a1 = ""@;
        lemma_pushed_clear(s0, a1);
        let s1 = s0.push(a1);
        reveal_strlit("Armour:");
        let a2 = "Armour:"@;
        lemma_start_clear(a2);
        lemma_pushed_clear(s1, a2);
        let s2 = s1.push(a2);
        let s3 = if self.armor.sided() {
            self.lemma_belt_lines_clear();
            lemma_joined_clear(s2, self.spec_belt_lines());
            let s4 = s2 + self.spec_belt_lines();
            self.lemma_bulkhead_lines_clear();
            lemma_joined_clear(s4, self.spec_bulkhead_lines());
            let s5 = s4 + self.spec_bulkhead_lines();
            s5
        } else {
            s2
        };
        let s6 = if self.wgt_gun_armor().gt(Num::Micro(0)) {
            reveal_strlit("- Gun armour:    Face (max)    Other gunhouse (avg)    Barbette/hoist (max)");
            let a3 = "- Gun armour:    Face (max)    Other gunhouse (avg)    Barbette/hoist (max)"@;
            lemma_start_clear(a3);
            lemma_pushed_clear(s3, a3);
            let s7 = s3.push(a3);
            self.lemma_gun_plate_lines_clear();
            lemma_joined_clear(s7, self.spec_gun_plate_lines());
            let s8 = s7 + self.spec_gun_plate_lines();
            reveal_strlit("");
            let a4 = ""@;
            lemma_pushed_clear(s8, a4);
            let s9 = s8.push(a4);
            s9
        } else {
            s3
        };
        let s10 = if self.armor.decked() {
            reveal_strlit("- ");
            let a5 = "- "@;
            lemma_start_stays(a5, self.armor.deck.kind@);
            let a6 = a5 + self.armor.deck.kind@;
            lemma_start_stays(a6, ":"@);
            let a7 = a6 + ":"@;
            lemma_start_clear(a7);
            lemma_pushed_clear(s6, a7);
            let s11 = s6.push(a7);
            reveal_strlit("    For and Aft decks: ");
            let a8 = "    For and Aft decks: "@;
            lemma_start_stays(a8, spec_fixed(self.armor.deck.md, 2));
            let a9 = a8 + spec_fixed(self.armor.deck.md, 2);
            lemma_start_stays(a9, "\" / "@);
            let a10 = a9 + "\" / "@;
            lemma_start_stays(a10, spec_fixed(self.armor.units.of(self.armor.deck.md, Measure::LengthSmall), 0));
            let a11 = a10 + spec_fixed(self.armor.units.of(self.armor.deck.md, Measure::LengthSmall), 0);
            lemma_start_stays(a11, " mm"@);
            let a12 = a11 + " mm"@;
            lemma_start_clear(a12);
            lemma_pushed_clear(s11, a12);
            let s12 = s11.push(a12);
            reveal_strlit("    Forecastle: ");
            let a13 = "    Forecastle: "@;
            lemma_start_stays(a13, spec_fixed(self.armor.deck.fc, 2));
            let a14 = a13 + spec_fixed(self.armor.deck.fc, 2);
            lemma_start_stays(a14, "\" / "@);
            let a15 = a14 + "\" / "@;
            lemma_start_stays(a15, spec_fixed(self.armor.units.of(self.armor.deck.fc, Measure::LengthSmall), 0));
            let a16 = a15 + spec_fixed(self.armor.units.of(self.armor.deck.fc, Measure::LengthSmall), 0);
            lemma_start_stays(a16, " mm    Quarter deck: "@);
            let a17 = a16 + " mm    Quarter deck: "@;
            lemma_start_stays(a17, spec_fixed(self.armor.deck.qd, 2));
            let a18 = a17 + spec_fixed(self.armor.deck.qd, 2);
            lemma_start_stays(a18, "\" / "@);
            let a19 = a18 + "\" / "@;
            lemma_start_stays(a19, spec_fixed(self.armor.units.of(self.armor.deck.qd, Measure::LengthSmall), 0));
            let a20 = a19 + spec_fixed(self.armor.units.of(self.armor.deck.qd, Measure::LengthSmall), 0);
            lemma_start_stays(a20, " mm"@);
            let a21 = a20 + " mm"@;
            lemma_start_clear(a21);
            lemma_pushed_clear(s12, a21);
            let s13 = s12.push(a21);
            reveal_strlit("");
            let a22 = ""@;
            lemma_pushed_clear(s13, a22);
            let s14 = s13.push(a22);
            s14
        } else {
            s6
        };
        let s15 = if self.armor.ct_fwd.thick.plus(self.armor.ct_aft.thick).gt(Num::Micro(0)) {
            reveal_strlit("- Conning towers: Forward ");
            let a23 = "- Conning towers: Forward "@;
            lemma_start_stays(a23, spec_fixed(self.armor.ct_fwd.thick, 2));
            let a24 = a23 + spec_fixed(self.armor.ct_fwd.thick, 2);
            lemma_start_stays(a24, "\" / "@);
            let a25 = a24 + "\" / "@;
            lemma_start_stays(a25, spec_fixed(self.armor.units.of(self.armor.ct_fwd.thick, Measure::LengthSmall), 0));
            let a26 = a25 + spec_fixed(self.armor.units.of(self.armor.ct_fwd.thick, Measure::LengthSmall), 0);
            lemma_start_stays(a26, " mm, Aft "@);
            let a27 = a26 + " mm, Aft "@;
            lemma_start_stays(a27, spec_fixed(self.armor.ct_aft.thick, 2));
            let a28 = a27 + spec_fixed(self.armor.ct_aft.thick, 2);
            lemma_start_stays(a28, "\" / "@);
            let a29 = a28 + "\" / "@;
            lemma_start_stays(a29, spec_fixed(self.armor.units.of(self.armor.ct_aft.thick, Measure::LengthSmall), 0));
            let a30 = a29 + spec_fixed(self.armor.units.of(self.armor.ct_aft.thick, Measure::LengthSmall), 0);
            lemma_start_stays(a30, " mm"@);
            let a31 = a30 + " mm"@;
            lemma_start_clear(a31);
            lemma_pushed_clear(s10, a31);
            let s16 = s10.push(a31);
            reveal_strlit("");
            let a32 = ""@;
            lemma_pushed_clear(s16, a32);
            let s17 = s16.push(a32);
            s17
        } else {
            s10
        };
        assert(s15 =~= self.spec_armor_lines());
    }

    /// None of these lines is the line of the armor that is too heavy.
    pub proof fn lemma_machinery_lines_clear(&self)
        ensures
            !self.spec_machinery_lines().contains(spec_armor_line()),
    {
        reveal_strlit("DESIGN FAILURE: Armour weight too much for hull");
        let s0 = Seq::<Seq<char>>::empty();
        reveal_strlit("Machinery:");
        let a1 = "Machinery:"@;
        lemma_start_clear(a1);
        lemma_pushed_clear(s0, a1);
        let s1 = s0.push(a1);
        let s2 = if self.engine.vmax != Num::Micro(0) {
            reveal_strlit("    ");
            let a2 = "    "@;
            lemma_start_stays(a2, self.engine.fuel@);
            let a3 = a2 + self.engine.fuel@;
            lemma_start_stays(a3, ", "@);
            let a4 = a3 + ", "@;
            lemma_start_stays(a4, self.engine.boiler@);
            let a5 = a4 + self.engine.boiler@;
            lemma_start_stays(a5, ","@);
            let a6 = a5 + ","@;
            lemma_start_clear(a6);
            lemma_pushed_clear(s1, a6);
            let s3 = s1.push(a6);
            reveal_strlit("    ");
            let a7 = "    "@;
            lemma_start_stays(a7, self.engine.drive@);
            let a8 = a7 + self.engine.drive@;
            lemma_start_stays(a8, ", "@);
            let a9 = a8 + ", "@;
            lemma_start_stays(a9, spec_decimal(self.engine.shafts as nat));
            let a10 = a9 + spec_decimal(self.engine.shafts as nat);
            lemma_start_stays(a10, " shaft"@);
            let a11 = a10 + " shaft"@;
            lemma_start_stays(a11, spec_plural(self.engine.shafts));
            let a12 = a11 + spec_plural(self.engine.shafts);
            lemma_start_stays(a12, ", "@);
            let a13 = a12 + ", "@;
            lemma_start_stays(a13, spec_grouped_fixed(self.engine.hp_max, 0));
            let a14 = a13 + spec_grouped_fixed(self.engine.hp_max, 0);
            lemma_start_stays(a14, (" "@ + self.engine.hp_type@ + " / "@ + spec_grouped_fixed(Metric::imperial().of(self.engine.hp_max, Measure::Power), 0) + " Kw = "@ + spec_fixed(self.engine.vmax, 2) + " kts"@));
            let a15 = a14 + (" "@ + self.engine.hp_type@ + " / "@ + spec_grouped_fixed(Metric::imperial().of(self.engine.hp_max, Measure::Power), 0) + " Kw = "@ + spec_fixed(self.engine.vmax, 2) + " kts"@);
            lemma_start_clear(a15);
            lemma_pushed_clear(s3, a15);
            let s4 = s3.push(a15);
            reveal_strlit("    Range ");
            let a16 = "    Range "@;
            lemma_start_stays(a16, spec_grouped(self.engine.range as nat));
            let a17 = a16 + spec_grouped(self.engine.range as nat);
            lemma_start_stays(a17, "nm at "@);
            let a18 = a17 + "nm at "@;
            lemma_start_stays(a18, spec_fixed(self.engine.vcruise, 2));
            let a19 = a18 + spec_fixed(self.engine.vcruise, 2);
            lemma_start_stays(a19, " kts"@);
            let a20 = a19 + " kts"@;
            lemma_start_clear(a20);
            lemma_pushed_clear(s4, a20);
            let s5 = s4.push(a20);
            reveal_strlit("    Bunker at max displacement = ");
            let a21 = "    Bunker at max displacement = "@;
            lemma_start_stays(a21, spec_grouped_fixed(self.engine.bunker_max, 0));
            let a22 = a21 + spec_grouped_fixed(self.engine.bunker_max, 0);
            lemma_start_stays(a22, " tons"@);
            let a23 = a22 + " tons"@;
            lemma_start_stays(a23, (if self.engine.pct_coal.gt(Num::Micro(0)) { " ("@ + spec_fixed(self.engine.pct_coal.times(Num::Micro(100_000_000)), 0) + "% coal)"@ } else { ""@ }));
            let a24 = a23 + (if self.engine.pct_coal.gt(Num::Micro(0)) { " ("@ + spec_fixed(self.engine.pct_coal.times(Num::Micro(100_000_000)), 0) + "% coal)"@ } else { ""@ });
            lemma_start_clear(a24);
            lemma_pushed_clear(s5, a24);
            let s6 = s5.push(a24);
            s6
        } else {
            s1
        };
        self.lemma_machinery_cautions_clear();
        lemma_joined_clear(s2, self.spec_machinery_cautions());
        let s7 = s2 + self.spec_machinery_cautions();
        reveal_strlit("");
        let a25 = ""@;
        lemma_pushed_clear(s7, a25);
        let s8 = s7.push(a25);
        assert(s8 =~= self.spec_machinery_lines());
    }

    /// None of these lines is the line of the armor that is too heavy.
    pub proof fn lemma_complement_lines_clear(&self)
        ensures
            !self.spec_complement_lines().contains(spec_armor_line()),
    {
        reveal_strlit("DESIGN FAILURE: Armour weight too much for hull");
        let s0 = Seq::<Seq<char>>::empty();
        reveal_strlit("Complement:");
        let a1 = "Complement:"@;
        lemma_start_clear(a1);
        lemma_pushed_clear(s0, a1);
        let s1 = s0.push(a1);
        reveal_strlit("    ");
        let a2 = "    "@;
        lemma_start_stays(a2, spec_decimal(self.crew_min() as nat));
        let a3 = a2 + spec_decimal(self.crew_min() as nat);
        lemma_start_stays(a3, " - "@);
        let a4 = a3 + " - "@;
        lemma_start_stays(a4, spec_decimal(self.crew_max() as nat));
        let a5 = a4 + spec_decimal(self.crew_max() as nat);
        lemma_start_clear(a5);
        lemma_pushed_clear(s1, a5);
        let s2 = s1.push(a5);
        reveal_strlit("");
        let a6 = ""@;
        lemma_pushed_clear(s2, a6);
        let s3 = s2.push(a6);
        assert(s3 =~= self.spec_complement_lines());
    }

    /// None of these lines is the line of the armor that is too heavy.
    pub proof fn lemma_cost_lines_clear(&self)
        ensures
            !self.spec_cost_lines().contains(spec_armor_line()),
    {
        reveal_strlit("DESIGN FAILURE: Armour weight too much for hull");
        let s0 = Seq::<Seq<char>>::empty();
        reveal_strlit("Cost:");
        let a1 = "Cost:"@;
        lemma_start_clear(a1);
        lemma_pushed_clear(s0, a1);
        let s1 = s0.push(a1);
        reveal_strlit("    £");
        let a2 = "    £"@;
        lemma_start_stays(a2, spec_fixed(self.cost_lb(), 3));
        let a3 = a2 + spec_fixed(self.cost_lb(), 3);
        lemma_start_stays(a3, " million / $"@);
        let a4 = a3 + " million / $"@;
        lemma_start_stays(a4, spec_fixed(self.cost_dollar(), 3));
        let a5 = a4 + spec_fixed(self.cost_dollar(), 3);
        lemma_start_stays(a5, " million"@);
        let a6 = a5 + " million"@;
        lemma_start_clear(a6);
        lemma_pushed_clear(s1, a6);
        let s2 = s1.push(a6);
        reveal_strlit("");
        let a7 = ""@;
        lemma_pushed_clear(s2, a7);
        let s3 = s2.push(a7);
        assert(s3 =~= self.spec_cost_lines());
    }

    /// None of these lines is the line of the armor that is too heavy.
    pub proof fn lemma_armor_weight_lines_clear(&self)
        ensures
            !self.spec_armor_weight_lines().contains(spec_armor_line()),
    {
        reveal_strlit("DESIGN FAILURE: Armour weight too much for hull");
        let s0 = Seq::<Seq<char>>::empty();
        let s1 = if self.wgt_armor().gt(Num::Micro(0)) {
            reveal_strlit("    Armour: ");
            let a1 = "    Armour: "@;
            lemma_start_stays(a1, self.spec_percent_calc(self.wgt_armor()));
            let a2 = a1 + self.spec_percent_calc(self.wgt_armor());
            lemma_start_clear(a2);
            lemma_pushed_clear(s0, a2);
            let s2 = s0.push(a2);
            let s3 = if self.armor.belted() {
                reveal_strlit("    - Belts: ");
                let a3 = "    - Belts: "@;
                lemma_start_stays(a3, self.spec_percent_calc(self.armor.belts_wgt()));
                let a4 = a3 + self.spec_percent_calc(self.armor.belts_wgt());
                lemma_start_clear(a4);
                lemma_pushed_clear(s2, a4);
                let s4 = s2.push(a4);
                s4
            } else {
                s2
            };
            let s5 = if self.armor.bulkhead.thick.gt(Num::Micro(0)) {
                reveal_strlit("    - Torpedo bulkhead: ");
                let a5 = "    - Torpedo bulkhead: "@;
                lemma_start_stays(a5, self.spec_percent_calc(self.armor.bulkhead.wgt));
                let a6 = a5 + self.spec_percent_calc(self.armor.bulkhead.wgt);
                lemma_start_clear(a6);
                lemma_pushed_clear(s3, a6);
                let s6 = s3.push(a6);
                s6
            } else {
                s3
            };
            let s7 = if self.armor.bulge.wgt.gt(Num::Micro(0)) {
                reveal_strlit("    - ");
                let a7 = "    - "@;
                lemma_start_stays(a7, (if self.hull.b == self.hull.bb { "Void"@ } else { "Bulges"@ }));
                let a8 = a7 + (if self.hull.b == self.hull.bb { "Void"@ } else { "Bulges"@ });
                lemma_start_stays(a8, ": "@);
                let a9 = a8 + ": "@;
                lemma_start_stays(a9, self.spec_percent_calc(self.armor.bulge.wgt));
                let a10 = a9 + self.spec_percent_calc(self.armor.bulge.wgt);
                lemma_start_clear(a10);
                lemma_pushed_clear(s5, a10);
                let s8 = s5.push(a10);
                s8
            } else {
                s5
            };
            let s9 = if self.wgt_gun_armor().gt(Num::Micro(0)) {
                reveal_strlit("    - Armament: ");
                let a11 = "    - Armament: "@;
                lemma_start_stays(a11, self.spec_percent_calc(self.wgt_gun_armor()));
                let a12 = a11 + self.spec_percent_calc(self.wgt_gun_armor());
                lemma_start_clear(a12);
                lemma_pushed_clear(s7, a12);
                let s10 = s7.push(a12);
                s10
            } else {
                s7
            };
            let s11 = if self.armor.decked() {
                reveal_strlit("    - Armour Deck: ");
                let a13 = "    - Armour Deck: "@;
                lemma_start_stays(a13, self.spec_percent_calc(self.armor.deck.wgt));
                let a14 = a13 + self.spec_percent_calc(self.armor.deck.wgt);
                lemma_start_clear(a14);
                lemma_pushed_clear(s9, a14);
                let s12 = s9.push(a14);
                s12
            } else {
                s9
            };
            let s13 = if self.armor.towers() > 0 {
                reveal_strlit("    - Conning Tower");
                let a15 = "    - Conning Tower"@;
                lemma_start_stays(a15, (if self.armor.towers() > 1 { "s"@ } else { ""@ }));
                let a16 = a15 + (if self.armor.towers() > 1 { "s"@ } else { ""@ });
                lemma_start_stays(a16, ": "@);
                let a17 = a16 + ": "@;
                lemma_start_stays(a17, self.spec_percent_calc(self.armor.towers_wgt()));
                let a18 = a17 + self.spec_percent_calc(self.armor.towers_wgt());
                lemma_start_clear(a18);
                lemma_pushed_clear(s11, a18);
                let s14 = s11.push(a18);
                s14
            } else {
                s11
            };
            s13
        } else {
            s0
        };
        assert(s1 =~= self.spec_armor_weight_lines());
    }

    /// None of these lines is the line of the armor that is too heavy.
    pub proof fn lemma_misc_weight_lines_clear(&self)
        ensures
            !self.spec_misc_weight_lines().contains(spec_armor_line()),
    {
        reveal_strlit("DESIGN FAILURE: Armour weight too much for hull");
        let s0 = Seq::<Seq<char>>::empty();
        let s1 = if self.wgt_misc().gt(Num::Micro(0)) {
            reveal_strlit("    Miscellaneous weights: ");
            let a1 = "    Miscellaneous weights: "@;
            lemma_start_stays(a1, self.spec_percent_calc(self.wgt_misc()));
            let a2 = a1 + self.spec_percent_calc(self.wgt_misc());
            lemma_start_clear(a2);
            lemma_pushed_clear(s0, a2);
            let s2 = s0.push(a2);
            let s3 = if self.wgts.vital > 0 {
                reveal_strlit("    - Hull below water: ");
                let a3 = "    - Hull below water: "@;
                lemma_start_stays(a3, spec_grouped(self.wgts.vital as nat));
                let a4 = a3 + spec_grouped(self.wgts.vital as nat);
                lemma_start_stays(a4, " tons"@);
                let a5 = a4 + " tons"@;
                lemma_start_clear(a5);
                lemma_pushed_clear(s2, a5);
                let s4 = s2.push(a5);
                s4
            } else {
                s2
            };
            let s5 = if self.wgts.void > 0 {
                reveal_strlit("    - ");
                let a6 = "    - "@;
                lemma_start_stays(a6, (if self.hull.bb.gt(self.hull.b) { "Bulge"@ } else { "Hull"@ }));
                let a7 = a6 + (if self.hull.bb.gt(self.hull.b) { "Bulge"@ } else { "Hull"@ });
                lemma_start_stays(a7, " void weights: "@);
                let a8 = a7 + " void weights: "@;
                lemma_start_stays(a8, spec_grouped(self.wgts.void as nat));
                let a9 = a8 + spec_grouped(self.wgts.void as nat);
                lemma_start_stays(a9, " tons"@);
                let a10 = a9 + " tons"@;
                lemma_start_clear(a10);
                lemma_pushed_clear(s3, a10);
                let s6 = s3.push(a10);
                s6
            } else {
                s3
            };
            let s7 = if self.wgts.hull > 0 {
                reveal_strlit("    - Hull above water: ");
                let a11 = "    - Hull above water: "@;
                lemma_start_stays(a11, spec_decimal(self.wgts.hull as nat));
                let a12 = a11 + spec_decimal(self.wgts.hull as nat);
                lemma_start_stays(a12, " tons"@);
                let a13 = a12 + " tons"@;
                lemma_start_clear(a13);
                lemma_pushed_clear(s5, a13);
                let s8 = s5.push(a13);
                s8
            } else {
                s5
            };
            let s9 = if self.wgts.on > 0 {
                reveal_strlit("    - On freeboard deck: ");
                let a14 = "    - On freeboard deck: "@;
                lemma_start_stays(a14, spec_decimal(self.wgts.on as nat));
                let a15 = a14 + spec_decimal(self.wgts.on as nat);
                lemma_start_stays(a15, " tons"@);
                let a16 = a15 + " tons"@;
                lemma_start_clear(a16);
                lemma_pushed_clear(s7, a16);
                let s10 = s7.push(a16);
                s10
            } else {
                s7
            };
            let s11 = if self.wgts.above > 0 {
                reveal_strlit("    - Above deck: ");
                let a17 = "    - Above deck: "@;
                lemma_start_stays(a17, spec_decimal(self.wgts.above as nat));
                let a18 = a17 + spec_decimal(self.wgts.above as nat);
                lemma_start_stays(a18, " tons"@);
                let a19 = a18 + " tons"@;
                lemma_start_clear(a19);
                lemma_pushed_clear(s9, a19);
                let s12 = s9.push(a19);
                s12
            } else {
                s9
            };
            s11
        } else {
            s0
        };
        assert(s1 =~= self.spec_misc_weight_lines());
    }

    /// None of these lines is the line of the armor that is too heavy.
    pub proof fn lemma_weight_lines_clear(&self)
        ensures
            !self.spec_weight_lines().contains(spec_armor_line()),
    {
        reveal_strlit("DESIGN FAILURE: Armour weight too much for hull");
        let s0 = Seq::<Seq<char>>::empty();
        reveal_strlit("Distribution of weights at normal displacement:");
        let a1 = "Distribution of weights at normal displacement:"@;
        assert(a1[1] != spec_armor_line()[1]);
        lemma_pushed_clear(s0, a1);
        let s1 = s0.push(a1);
        reveal_strlit("    Armament: ");
        let a2 = "    Armament: "@;
        lemma_start_stays(a2, self.spec_percent_calc(self.wgt_armament()));
        let a3 = a2 + self.spec_percent_calc(self.wgt_armament());
        lemma_start_clear(a3);
        lemma_pushed_clear(s1, a3);
        let s2 = s1.push(a3);
        let s3 = if self.wgt_guns().gt(Num::Micro(0)) {
            reveal_strlit("    - Guns: ");
            let a4 = "    - Guns: "@;
            lemma_start_stays(a4, self.spec_percent_calc(self.wgt_batteries()));
            let a5 = a4 + self.spec_percent_calc(self.wgt_batteries());
            lemma_start_clear(a5);
            lemma_pushed_clear(s2, a5);
            let s4 = s2.push(a5);
            s4
        } else {
            s2
        };
        let s5 = if self.wgt_weaps().gt(Num::Micro(0)) {
            reveal_strlit("    - Weapons: ");
            let a6 = "    - Weapons: "@;
            lemma_start_stays(a6, self.spec_percent_calc(self.wgt_weaps()));
            let a7 = a6 + self.spec_percent_calc(self.wgt_weaps());
            lemma_start_clear(a7);
            lemma_pushed_clear(s3, a7);
            let s6 = s3.push(a7);
            s6
        } else {
            s3
        };
        self.lemma_armor_weight_lines_clear();
        lemma_joined_clear(s5, self.spec_armor_weight_lines());
        let s7 = s5 + self.spec_armor_weight_lines();
        reveal_strlit("    Machinery: ");
        let a8 = "    Machinery: "@;
        lemma_start_stays(a8, self.spec_percent_calc(self.wgt_engine()));
        let a9 = a8 + self.spec_percent_calc(self.wgt_engine());
        lemma_start_clear(a9);
        lemma_pushed_clear(s7, a9);
        let s8 = s7.push(a9);
        reveal_strlit("    Hull, fittings & equipment: ");
        let a10 = "    Hull, fittings & equipment: "@;
        lemma_start_stays(a10, self.spec_percent_calc(self.wgt_hull()));
        let a11 = a10 + self.spec_percent_calc(self.wgt_hull());
        lemma_start_clear(a11);
        lemma_pushed_clear(s8, a11);
        let s9 = s8.push(a11);
        reveal_strlit("    Fuel, ammunition & stores: ");
        let a12 = "    Fuel, ammunition & stores: "@;
        lemma_start_stays(a12, self.spec_percent_calc(self.wgt_load()));
        let a13 = a12 + self.spec_percent_calc(self.wgt_load());
        lemma_start_clear(a13);
        lemma_pushed_clear(s9, a13);
        let s10 = s9.push(a13);
        self.lemma_misc_weight_lines_clear();
        lemma_joined_clear(s10, self.spec_misc_weight_lines());
        let s11 = s10 + self.spec_misc_weight_lines();
        reveal_strlit("");
        let a14 = ""@;
        lemma_pushed_clear(s11, a14);
        let s12 = s11.push(a14);
        assert(s12 =~= self.spec_weight_lines());
    }

    /// None of these lines is the line of the armor that is too heavy.
    pub proof fn lemma_survival_lines_clear(&self)
        ensures
            !self.spec_survival_lines().contains(spec_armor_line()),
    {
        reveal_strlit("DESIGN FAILURE: Armour weight too much for hull");
        let s0 = Seq::<Seq<char>>::empty();
        reveal_strlit("Overall survivability and seakeeping ability:");
        let a1 = "Overall survivability and seakeeping ability:"@;
        lemma_start_clear(a1);
        lemma_pushed_clear(s0, a1);
        let s1 = s0.push(a1);
        reveal_strlit("    Survivability (Non-critical penetrating hits needed to sink ship):");
        let a2 = "    Survivability (Non-critical penetrating hits needed to sink ship):"@;
        lemma_start_clear(a2);
        lemma_pushed_clear(s1, a2);
        let s2 = s1.push(a2);
        reveal_strlit("    ");
        let a3 = "    "@;
        lemma_start_stays(a3, spec_fixed(self.flotation(), 0));
        let a4 = a3 + spec_fixed(self.flotation(), 0);
        lemma_start_stays(a4, " lbs / "@);
        let a5 = a4 + " lbs / "@;
        lemma_start_stays(a5, spec_fixed(Metric::imperial().of(self.flotation(), Measure::Weight), 0));
        let a6 = a5 + spec_fixed(Metric::imperial().of(self.flotation(), Measure::Weight), 0);
        lemma_start_stays(a6, " Kg = "@);
        let a7 = a6 + " Kg = "@;
        lemma_start_stays(a7, spec_fixed(self.damage_shell_num(), 1));
        let a8 = a7 + spec_fixed(self.damage_shell_num(), 1);
        lemma_start_stays(a8, " x "@);
        let a9 = a8 + " x "@;
        lemma_start_stays(a9, spec_fixed(self.damage_shell_size(), 1));
        let a10 = a9 + spec_fixed(self.damage_shell_size(), 1);
        lemma_start_stays(a10, (" \" / "@ + spec_fixed(Metric::imperial().of(self.damage_shell_size(), Measure::LengthSmall), 0) + " mm shells or "@ + spec_fixed(self.damage_torp_num(), 1) + " torpedoes"@));
        let a11 = a10 + (" \" / "@ + spec_fixed(Metric::imperial().of(self.damage_shell_size(), Measure::LengthSmall), 0) + " mm shells or "@ + spec_fixed(self.damage_torp_num(), 1) + " torpedoes"@);
        lemma_start_clear(a11);
        lemma_pushed_clear(s2, a11);
        let s3 = s2.push(a11);
        assert(s3 =~= self.spec_survival_lines());
    }

    /// None of these lines is the line of the armor that is too heavy.
    pub proof fn lemma_seakeeping_lines_clear(&self)
        ensures
            !self.spec_seakeeping_lines().contains(spec_armor_line()),
    {
        reveal_strlit("DESIGN FAILURE: Armour weight too much for hull");
        let s0 = Seq::<Seq<char>>::empty();
        reveal_strlit("    Stability (Unstable if below 1.00): ");
        let a1 = "    Stability (Unstable if below 1.00): "@;
        lemma_start_stays(a1, spec_fixed(self.stability_adj(), 2));
        let a2 = a1 + spec_fixed(self.stability_adj(), 2);
        lemma_start_clear(a2);
        lemma_pushed_clear(s0, a2);
        let s1 = s0.push(a2);
        reveal_strlit("    Metacentric height ");
        let a3 = "    Metacentric height "@;
        lemma_start_stays(a3, spec_fixed(self.metacenter(), 1));
        let a4 = a3 + spec_fixed(self.metacenter(), 1);
        lemma_start_stays(a4, " ft / "@);
        let a5 = a4 + " ft / "@;
        lemma_start_stays(a5, spec_fixed(Metric::imperial().of(self.metacenter(), Measure::LengthLong), 1));
        let a6 = a5 + spec_fixed(Metric::imperial().of(self.metacenter(), Measure::LengthLong), 1);
        lemma_start_stays(a6, " m"@);
        let a7 = a6 + " m"@;
        lemma_start_clear(a7);
        lemma_pushed_clear(s1, a7);
        let s2 = s1.push(a7);
        reveal_strlit("    Roll period: ");
        let a8 = "    Roll period: "@;
        lemma_start_stays(a8, spec_fixed(self.roll_period(), 1));
        let a9 = a8 + spec_fixed(self.roll_period(), 1);
        lemma_start_stays(a9, " seconds"@);
        let a10 = a9 + " seconds"@;
        lemma_start_clear(a10);
        lemma_pushed_clear(s2, a10);
        let s3 = s2.push(a10);
        reveal_strlit("    Steadiness    - As gun platform (Average = 50 %): ");
        let a11 = "    Steadiness    - As gun platform (Average = 50 %): "@;
        lemma_start_stays(a11, spec_fixed(self.steadiness(), 0));
        let a12 = a11 + spec_fixed(self.steadiness(), 0);
        lemma_start_stays(a12, " %"@);
        let a13 = a12 + " %"@;
        lemma_start_clear(a13);
        lemma_pushed_clear(s3, a13);
        let s4 = s3.push(a13);
        reveal_strlit("        - Recoil effect (Restricted arc if above 1.00): ");
        let a14 = "        - Recoil effect (Restricted arc if above 1.00): "@;
        lemma_start_stays(a14, spec_fixed(self.recoil(), 2));
        let a15 = a14 + spec_fixed(self.recoil(), 2);
        lemma_start_clear(a15);
        lemma_pushed_clear(s4, a15);
        let s5 = s4.push(a15);
        reveal_strlit("    Seaboat quality (Average = 1.00): ");
        let a16 = "    Seaboat quality (Average = 1.00): "@;
        lemma_start_stays(a16, spec_fixed(self.seakeeping(), 2));
        let a17 = a16 + spec_fixed(self.seakeeping(), 2);
        lemma_start_clear(a17);
        lemma_pushed_clear(s5, a17);
        let s6 = s5.push(a17);
        reveal_strlit("");
        let a18 = ""@;
        lemma_pushed_clear(s6, a18);
        let s7 = s6.push(a18);
        assert(s7 =~= self.spec_seakeeping_lines());
    }

    /// None of these lines is the line of the armor that is too heavy.
    pub proof fn lemma_form_lines_clear(&self)
        ensures
            !self.spec_form_lines().contains(spec_armor_line()),
    {
        reveal_strlit("DESIGN FAILURE: Armour weight too much for hull");
        let s0 = Seq::<Seq<char>>::empty();
        reveal_strlit("Hull form characteristics:");
        let a1 = "Hull form characteristics:"@;
        lemma_start_clear(a1);
        lemma_pushed_clear(s0, a1);
        let s1 = s0.push(a1);
        reveal_strlit("    Hull has ");
        let a2 = "    Hull has "@;
        lemma_start_stays(a2, self.hull.freeboard_desc@);
        let a3 = a2 + self.hull.freeboard_desc@;
        lemma_start_stays(a3, ","@);
        let a4 = a3 + ","@;
        lemma_start_clear(a4);
        lemma_pushed_clear(s1, a4);
        let s2 = s1.push(a4);
        reveal_strlit("    ");
        let a5 = "    "@;
        lemma_start_stays(a5, self.hull.bow_type@);
        let a6 = a5 + self.hull.bow_type@;
        lemma_start_stays(a6, " and "@);
        let a7 = a6 + " and "@;
        lemma_start_stays(a7, self.hull.stern_type@);
        let a8 = a7 + self.hull.stern_type@;
        lemma_start_clear(a8);
        lemma_pushed_clear(s2, a8);
        let s3 = s2.push(a8);
        reveal_strlit("    Block coefficient (normal/deep): ");
        let a9 = "    Block coefficient (normal/deep): "@;
        lemma_start_stays(a9, spec_fixed(self.hull.cb, 3));
        let a10 = a9 + spec_fixed(self.hull.cb, 3);
        lemma_start_stays(a10, " / "@);
        let a11 = a10 + " / "@;
        lemma_start_stays(a11, spec_fixed(self.cb_max(), 3));
        let a12 = a11 + spec_fixed(self.cb_max(), 3);
        lemma_start_clear(a12);
        lemma_pushed_clear(s3, a12);
        let s4 = s3.push(a12);
        reveal_strlit("    Length to Beam Ratio: ");
        let a13 = "    Length to Beam Ratio: "@;
        lemma_start_stays(a13, spec_fixed(self.hull.len2beam, 2));
        let a14 = a13 + spec_fixed(self.hull.len2beam, 2);
        lemma_start_stays(a14, " : 1"@);
        let a15 = a14 + " : 1"@;
        lemma_start_clear(a15);
        lemma_pushed_clear(s4, a15);
        let s5 = s4.push(a15);
        reveal_strlit("    'Natural speed' for length: ");
        let a16 = "    'Natural speed' for length: "@;
        lemma_start_stays(a16, spec_fixed(self.hull.vn, 2));
        let a17 = a16 + spec_fixed(self.hull.vn, 2);
        lemma_start_stays(a17, " kts"@);
        let a18 = a17 + " kts"@;
        lemma_start_clear(a18);
        lemma_pushed_clear(s5, a18);
        let s6 = s5.push(a18);
        reveal_strlit("    Power going to wave formation at top speed: ");
        let a19 = "    Power going to wave formation at top speed: "@;
        lemma_start_stays(a19, spec_fixed(self.engine.pw_max.times(Num::Micro(100_000_000)), 0));
        let a20 = a19 + spec_fixed(self.engine.pw_max.times(Num::Micro(100_000_000)), 0);
        lemma_start_stays(a20, " %"@);
        let a21 = a20 + " %"@;
        lemma_start_clear(a21);
        lemma_pushed_clear(s6, a21);
        let s7 = s6.push(a21);
        reveal_strlit("    Trim (Max stability = 0, Max steadiness = 100): ");
        let a22 = "    Trim (Max stability = 0, Max steadiness = 100): "@;
        lemma_start_stays(a22, spec_decimal(self.trim as nat));
        let a23 = a22 + spec_decimal(self.trim as nat);
        lemma_start_clear(a23);
        lemma_pushed_clear(s7, a23);
        let s8 = s7.push(a23);
        reveal_strlit("    Bow angle (Positive = bow angles forward): ");
        let a24 = "    Bow angle (Positive = bow angles forward): "@;
        lemma_start_stays(a24, spec_fixed(self.hull.bow_angle, 2));
        let a25 = a24 + spec_fixed(self.hull.bow_angle, 2);
        lemma_start_stays(a25, " degrees"@);
        let a26 = a25 + " degrees"@;
        lemma_start_clear(a26);
        lemma_pushed_clear(s8, a26);
        let s9 = s8.push(a26);
        reveal_strlit("    Stern overhang: ");
        let a27 = "    Stern overhang: "@;
        lemma_start_stays(a27, spec_fixed(self.hull.stern_overhang, 2));
        let a28 = a27 + spec_fixed(self.hull.stern_overhang, 2);
        lemma_start_stays(a28, " ft / "@);
        let a29 = a28 + " ft / "@;
        lemma_start_stays(a29, spec_fixed(self.hull.units.of(self.hull.stern_overhang, Measure::LengthLong), 2));
        let a30 = a29 + spec_fixed(self.hull.units.of(self.hull.stern_overhang, Measure::LengthLong), 2);
        lemma_start_stays(a30, " m"@);
        let a31 = a30 + " m"@;
        lemma_start_clear(a31);
        lemma_pushed_clear(s9, a31);
        let s10 = s9.push(a31);
        assert(s10 =~= self.spec_form_lines());
    }

    /// None of these lines is the line of the armor that is too heavy.
    pub proof fn lemma_freeboard_lines_clear(&self)
        ensures
            !self.spec_freeboard_lines().contains(spec_armor_line()),
    {
        reveal_strlit("DESIGN FAILURE: Armour weight too much for hull");
        let s0 = Seq::<Seq<char>>::empty();
        reveal_strlit("    Freeboard (% = length of deck as a percentage of waterline length):");
        let a1 = "    Freeboard (% = length of deck as a percentage of waterline length):"@;
        lemma_start_clear(a1);
        lemma_pushed_clear(s0, a1);
        let s1 = s0.push(a1);
        reveal_strlit("            Fore end, Aft end");
        let a2 = "            Fore end, Aft end"@;
        lemma_start_clear(a2);
        lemma_pushed_clear(s1, a2);
        let s2 = s1.push(a2);
        reveal_strlit("    - Forecastle:    ");
        let a3 = "    - Forecastle:    "@;
        lemma_start_stays(a3, spec_fixed(self.hull.fc_len.times(Num::Micro(100_000_000)), 2));
        let a4 = a3 + spec_fixed(self.hull.fc_len.times(Num::Micro(100_000_000)), 2);
        lemma_start_stays(a4, " %, "@);
        let a5 = a4 + " %, "@;
        lemma_start_stays(a5, spec_fixed(self.hull.fc_fwd, 2));
        let a6 = a5 + spec_fixed(self.hull.fc_fwd, 2);
        lemma_start_stays(a6, " ft / "@);
        let a7 = a6 + " ft / "@;
        lemma_start_stays(a7, spec_fixed(self.hull.units.of(self.hull.fc_fwd, Measure::LengthLong), 2));
        let a8 = a7 + spec_fixed(self.hull.units.of(self.hull.fc_fwd, Measure::LengthLong), 2);
        lemma_start_stays(a8, " m, "@);
        let a9 = a8 + " m, "@;
        lemma_start_stays(a9, spec_fixed(self.hull.fc_aft, 2));
        let a10 = a9 + spec_fixed(self.hull.fc_aft, 2);
        lemma_start_stays(a10, (" ft / "@ + spec_fixed(self.hull.units.of(self.hull.fc_aft, Measure::LengthLong), 2) + " m"@));
        let a11 = a10 + (" ft / "@ + spec_fixed(self.hull.units.of(self.hull.fc_aft, Measure::LengthLong), 2) + " m"@);
        lemma_start_clear(a11);
        lemma_pushed_clear(s2, a11);
        let s3 = s2.push(a11);
        reveal_strlit("    - Forward deck:    ");
        let a12 = "    - Forward deck:    "@;
        lemma_start_stays(a12, spec_fixed(self.hull.fd_len.times(Num::Micro(100_000_000)), 2));
        let a13 = a12 + spec_fixed(self.hull.fd_len.times(Num::Micro(100_000_000)), 2);
        lemma_start_stays(a13, " %, "@);
        let a14 = a13 + " %, "@;
        lemma_start_stays(a14, spec_fixed(self.hull.fd_fwd, 2));
        let a15 = a14 + spec_fixed(self.hull.fd_fwd, 2);
        lemma_start_stays(a15, " ft / "@);
        let a16 = a15 + " ft / "@;
        lemma_start_stays(a16, spec_fixed(self.hull.units.of(self.hull.fd_fwd, Measure::LengthLong), 2));
        let a17 = a16 + spec_fixed(self.hull.units.of(self.hull.fd_fwd, Measure::LengthLong), 2);
        lemma_start_stays(a17, " m, "@);
        let a18 = a17 + " m, "@;
        lemma_start_stays(a18, spec_fixed(self.hull.fd_aft, 2));
        let a19 = a18 + spec_fixed(self.hull.fd_aft, 2);
        lemma_start_stays(a19, (" ft / "@ + spec_fixed(self.hull.units.of(self.hull.fd_aft, Measure::LengthLong), 2) + " m"@));
        let a20 = a19 + (" ft / "@ + spec_fixed(self.hull.units.of(self.hull.fd_aft, Measure::LengthLong), 2) + " m"@);
        lemma_start_clear(a20);
        lemma_pushed_clear(s3, a20);
        let s4 = s3.push(a20);
        reveal_strlit("    - Aft deck:    ");
        let a21 = "    - Aft deck:    "@;
        lemma_start_stays(a21, spec_fixed(self.hull.ad_len.times(Num::Micro(100_000_000)), 2));
        let a22 = a21 + spec_fixed(self.hull.ad_len.times(Num::Micro(100_000_000)), 2);
        lemma_start_stays(a22, " %, "@);
        let a23 = a22 + " %, "@;
        lemma_start_stays(a23, spec_fixed(self.hull.ad_fwd, 2));
        let a24 = a23 + spec_fixed(self.hull.ad_fwd, 2);
        lemma_start_stays(a24, " ft / "@);
        let a25 = a24 + " ft / "@;
        lemma_start_stays(a25, spec_fixed(self.hull.units.of(self.hull.ad_fwd, Measure::LengthLong), 2));
        let a26 = a25 + spec_fixed(self.hull.units.of(self.hull.ad_fwd, Measure::LengthLong), 2);
        lemma_start_stays(a26, " m, "@);
        let a27 = a26 + " m, "@;
        lemma_start_stays(a27, spec_fixed(self.hull.ad_aft, 2));
        let a28 = a27 + spec_fixed(self.hull.ad_aft, 2);
        lemma_start_stays(a28, (" ft / "@ + spec_fixed(self.hull.units.of(self.hull.ad_aft, Measure::LengthLong), 2) + " m"@));
        let a29 = a28 + (" ft / "@ + spec_fixed(self.hull.units.of(self.hull.ad_aft, Measure::LengthLong), 2) + " m"@);
        lemma_start_clear(a29);
        lemma_pushed_clear(s4, a29);
        let s5 = s4.push(a29);
        reveal_strlit("    - Quarter deck:    ");
        let a30 = "    - Quarter deck:    "@;
        lemma_start_stays(a30, spec_fixed(self.hull.qd_len.times(Num::Micro(100_000_000)), 2));
        let a31 = a30 + spec_fixed(self.hull.qd_len.times(Num::Micro(100_000_000)), 2);
        lemma_start_stays(a31, " %, "@);
        let a32 = a31 + " %, "@;
        lemma_start_stays(a32, spec_fixed(self.hull.qd_fwd, 2));
        let a33 = a32 + spec_fixed(self.hull.qd_fwd, 2);
        lemma_start_stays(a33, " ft / "@);
        let a34 = a33 + " ft / "@;
        lemma_start_stays(a34, spec_fixed(self.hull.units.of(self.hull.qd_fwd, Measure::LengthLong), 2));
        let a35 = a34 + spec_fixed(self.hull.units.of(self.hull.qd_fwd, Measure::LengthLong), 2);
        lemma_start_stays(a35, " m, "@);
        let a36 = a35 + " m, "@;
        lemma_start_stays(a36, spec_fixed(self.hull.qd_aft, 2));
        let a37 = a36 + spec_fixed(self.hull.qd_aft, 2);
        lemma_start_stays(a37, (" ft / "@ + spec_fixed(self.hull.units.of(self.hull.qd_aft, Measure::LengthLong), 2) + " m"@));
        let a38 = a37 + (" ft / "@ + spec_fixed(self.hull.units.of(self.hull.qd_aft, Measure::LengthLong), 2) + " m"@);
        lemma_start_clear(a38);
        lemma_pushed_clear(s5, a38);
        let s6 = s5.push(a38);
        reveal_strlit("    - Average freeboard:        ");
        let a39 = "    - Average freeboard:        "@;
        lemma_start_stays(a39, spec_fixed(self.hull.freeboard, 2));
        let a40 = a39 + spec_fixed(self.hull.freeboard, 2);
        lemma_start_stays(a40, " ft / "@);
        let a41 = a40 + " ft / "@;
        lemma_start_stays(a41, spec_fixed(self.hull.units.of(self.hull.freeboard, Measure::LengthLong), 2));
        let a42 = a41 + spec_fixed(self.hull.units.of(self.hull.freeboard, Measure::LengthLong), 2);
        lemma_start_stays(a42, " m"@);
        let a43 = a42 + " m"@;
        lemma_start_clear(a43);
        lemma_pushed_clear(s6, a43);
        let s7 = s6.push(a43);
        let s8 = if self.hull.wet_fwd {
            reveal_strlit("    Ship tends to be wet forward");
            let a44 = "    Ship tends to be wet forward"@;
            lemma_start_clear(a44);
            lemma_pushed_clear(s7, a44);
            let s9 = s7.push(a44);
            s9
        } else {
            s7
        };
        reveal_strlit("");
        let a45 = ""@;
        lemma_pushed_clear(s8, a45);
        let s10 = s8.push(a45);
        assert(s10 =~= self.spec_freeboard_lines());
    }

    /// None of these lines is the line of the armor that is too heavy.
    pub proof fn lemma_strength_lines_clear(&self)
        ensures
            !self.spec_strength_lines().contains(spec_armor_line()),
    {
        reveal_strlit("DESIGN FAILURE: Armour weight too much for hull");
        let s0 = Seq::<Seq<char>>::empty();
        reveal_strlit("Ship space, strength and comments:");
        let a1 = "Ship space, strength and comments:"@;
        lemma_start_clear(a1);
        lemma_pushed_clear(s0, a1);
        let s1 = s0.push(a1);
        reveal_strlit("    Space    - Hull below water (magazines/engines, low = better): ");
        let a2 = "    Space    - Hull below water (magazines/engines, low = better): "@;
        lemma_start_stays(a2, spec_fixed(self.hull_room().times(Num::Micro(100_000_000)), 1));
        let a3 = a2 + spec_fixed(self.hull_room().times(Num::Micro(100_000_000)), 1);
        lemma_start_stays(a3, " %"@);
        let a4 = a3 + " %"@;
        lemma_start_clear(a4);
        lemma_pushed_clear(s1, a4);
        let s2 = s1.push(a4);
        reveal_strlit("        - Above water (accommodation/working, high = better): ");
        let a5 = "        - Above water (accommodation/working, high = better): "@;
        lemma_start_stays(a5, spec_fixed(self.deck_room().times(Num::Micro(100_000_000)), 1));
        let a6 = a5 + spec_fixed(self.deck_room().times(Num::Micro(100_000_000)), 1);
        lemma_start_stays(a6, " %"@);
        let a7 = a6 + " %"@;
        lemma_start_clear(a7);
        lemma_pushed_clear(s2, a7);
        let s3 = s2.push(a7);
        reveal_strlit("    Waterplane Area: ");
        let a8 = "    Waterplane Area: "@;
        lemma_start_stays(a8, spec_grouped_fixed(self.hull.wp, 0));
        let a9 = a8 + spec_grouped_fixed(self.hull.wp, 0);
        lemma_start_stays(a9, " Square feet or "@);
        let a10 = a9 + " Square feet or "@;
        lemma_start_stays(a10, spec_grouped_fixed(Metric::imperial().of(self.hull.wp, Measure::Area), 0));
        let a11 = a10 + spec_grouped_fixed(Metric::imperial().of(self.hull.wp, Measure::Area), 0);
        lemma_start_stays(a11, " Square metres"@);
        let a12 = a11 + " Square metres"@;
        lemma_start_clear(a12);
        lemma_pushed_clear(s3, a12);
        let s4 = s3.push(a12);
        reveal_strlit("    Displacement factor (Displacement / loading): ");
        let a13 = "    Displacement factor (Displacement / loading): "@;
        lemma_start_stays(a13, spec_fixed(self.d_factor().times(Num::Micro(100_000_000)), 0));
        let a14 = a13 + spec_fixed(self.d_factor().times(Num::Micro(100_000_000)), 0);
        lemma_start_stays(a14, " %"@);
        let a15 = a14 + " %"@;
        lemma_start_clear(a15);
        lemma_pushed_clear(s4, a15);
        let s5 = s4.push(a15);
        reveal_strlit("    Structure weight / hull surface area: ");
        let a16 = "    Structure weight / hull surface area: "@;
        lemma_start_stays(a16, spec_fixed(self.wgt_struct(), 0));
        let a17 = a16 + spec_fixed(self.wgt_struct(), 0);
        lemma_start_stays(a17, " lbs/sq ft or "@);
        let a18 = a17 + " lbs/sq ft or "@;
        lemma_start_stays(a18, spec_fixed(Metric::imperial().of(self.wgt_struct(), Measure::WeightPerArea), 0));
        let a19 = a18 + spec_fixed(Metric::imperial().of(self.wgt_struct(), Measure::WeightPerArea), 0);
        lemma_start_stays(a19, " Kg/sq metre"@);
        let a20 = a19 + " Kg/sq metre"@;
        lemma_start_clear(a20);
        lemma_pushed_clear(s5, a20);
        let s6 = s5.push(a20);
        reveal_strlit("Hull strength (Relative):");
        let a21 = "Hull strength (Relative):"@;
        lemma_start_clear(a21);
        lemma_pushed_clear(s6, a21);
        let s7 = s6.push(a21);
        reveal_strlit("        - Cross-sectional: ");
        let a22 = "        - Cross-sectional: "@;
        lemma_start_stays(a22, spec_fixed(self.str_cross(), 2));
        let a23 = a22 + spec_fixed(self.str_cross(), 2);
        lemma_start_clear(a23);
        lemma_pushed_clear(s7, a23);
        let s8 = s7.push(a23);
        reveal_strlit("        - Longitudinal: ");
        let a24 = "        - Longitudinal: "@;
        lemma_start_stays(a24, spec_fixed(self.str_long(), 2));
        let a25 = a24 + spec_fixed(self.str_long(), 2);
        lemma_start_clear(a25);
        lemma_pushed_clear(s8, a25);
        let s9 = s8.push(a25);
        reveal_strlit("        - Overall: ");
        let a26 = "        - Overall: "@;
        lemma_start_stays(a26, spec_fixed(self.str_comp(), 2));
        let a27 = a26 + spec_fixed(self.str_comp(), 2);
        lemma_start_clear(a27);
        lemma_pushed_clear(s9, a27);
        let s10 = s9.push(a27);
        self.lemma_comments_clear();
        lemma_joined_clear(s10, self.spec_comments());
        let s11 = s10 + self.spec_comments();
        reveal_strlit("");
        let a28 = ""@;
        lemma_pushed_clear(s11, a28);
        let s12 = s11.push(a28);
        assert(s12 =~= self.spec_strength_lines());
    }
}

} // verus!
