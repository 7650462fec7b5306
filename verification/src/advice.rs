//! What the figures of a ship mean for her, in the lines that a report
//! prints. A design may be bad: these lines say so, and stop nothing.

use vstd::prelude::*;
use crate::num::Num;
use crate::ship::Ship;
use crate::text::{cat2, cat3, push_line, views};
use crate::warnings::DesignFailure;

verus! {

impl Ship {
    pub open spec fn spec_failure_lines(&self) -> Seq<Seq<char>>
        recommends
            self.batteries.len() > 0,
    {
        self.spec_design_failures().map_values(|f: DesignFailure| f.spec_message())
    }

    /// The lines that report the failures of the design, in their order.
    pub fn failure_lines(&self) -> (r: Vec<String>)
        requires
            self.batteries.len() > 0,
        ensures
            views(r@) == self.spec_failure_lines(),
    {
        let failures = self.design_failures();
        let mut lines: Vec<String> = Vec::new();
        let mut i: usize = 0;
        while i < failures.len()
            invariant
                i <= failures.len(),
                failures@ == self.spec_design_failures(),
                views(lines@) == failures@.take(i as int).map_values(
                    |f: DesignFailure| f.spec_message(),
                ),
            decreases failures.len() - i,
        {
            push_line(&mut lines, failures[i].message());
            assert(failures@.take(i + 1).map_values(|f: DesignFailure| f.spec_message())
                =~= failures@.take(i as int).map_values(|f: DesignFailure| f.spec_message()).push(
                failures[i as int].spec_message(),
            ));
            i += 1;
        }
        lines
    }

    pub open spec fn spec_machinery_cautions(&self) -> Seq<Seq<char>> {
        if self.engine.vmax == Num::zero() {
            seq!["    Immobile floating battery"@]
        } else {
            let power = if self.engines_overpowered() {
                seq!["    Caution: Too much power for reciprocating engines."@]
            } else if self.shafts_overpowered() {
                seq!["    Caution: Too much power for number of propellor shafts."@]
            } else {
                Seq::<Seq<char>>::empty()
            };
            if self.machinery_delicate() {
                power.push("    Caution: Delicate, lightweight machinery."@)
            } else {
                power
            }
        }
    }

    /// What is to be said of the machinery: that the ship is a floating
    /// battery where she does not move; else a caution where the engines or
    /// the shafts are overpowered, and one where the machinery is delicate.
    pub fn machinery_cautions(&self) -> (r: Vec<String>)
        ensures
            views(r@) == self.spec_machinery_cautions(),
    {
        let mut lines: Vec<String> = Vec::new();
        if self.engine.vmax == Num::Micro(0) {
            push_line(&mut lines, "    Immobile floating battery".to_owned());
        } else {
            if self.engines_overpowered() {
                push_line(
                    &mut lines,
                    "    Caution: Too much power for reciprocating engines.".to_owned(),
                );
            } else if self.shafts_overpowered() {
                push_line(
                    &mut lines,
                    "    Caution: Too much power for number of propellor shafts.".to_owned(),
                );
            }
            if self.machinery_delicate() {
                push_line(&mut lines, "    Caution: Delicate, lightweight machinery.".to_owned());
            }
        }
        assert(views(lines@) =~= self.spec_machinery_cautions());
        lines
    }

    pub open spec fn spec_comments(&self) -> Seq<Seq<char>>
        recommends
            self.batteries.len() > 0,
    {
        let s0 = Seq::<Seq<char>>::empty();
        let s1 = if self.tender_warn() && !self.capsize_warn() {
            s0.push("Caution: Poor stability - excessive risk of capsizing"@)
        } else {
            s0
        };
        let s2 = if self.hull_strained() {
            s1.push("Caution: Hull subject to strain in open-sea"@)
        } else {
            s1
        };
        s2.push(
            "    "@ + Self::spec_hull_quality(self.hull_room())
                + " machinery, storage, compartmentation space"@,
        ).push(
            "    "@ + Self::spec_deck_quality(self.deck_room())
                + " accommodation and workspace room"@,
        ) + self.spec_seakeeping_desc().map_values(|line: Seq<char>| "    "@ + line)
    }

    /// The comments that close a report: a caution where the ship is tender
    /// and yet will not capsize, one where her hull is strained, the room in
    /// the hull and on deck in a word each, and what is said of her at sea.
    pub fn comments(&self) -> (r: Vec<String>)
        requires
            self.batteries.len() > 0,
        ensures
            views(r@) == self.spec_comments(),
    {
        let mut lines: Vec<String> = Vec::new();
        if self.tender_warn() && !self.capsize_warn() {
            push_line(
                &mut lines,
                "Caution: Poor stability - excessive risk of capsizing".to_owned(),
            );
        }
        if self.hull_strained() {
            push_line(&mut lines, "Caution: Hull subject to strain in open-sea".to_owned());
        }
        push_line(
            &mut lines,
            cat3(
                "    ",
                self.hull_room_quality().as_str(),
                " machinery, storage, compartmentation space",
            ),
        );
        push_line(
            &mut lines,
            cat3("    ", self.deck_room_quality().as_str(), " accommodation and workspace room"),
        );
        let ghost head = views(lines@);
        let ghost indent = |line: Seq<char>| "    "@ + line;
        let sea = self.seakeeping_desc();
        let mut i: usize = 0;
        assert(views(sea@).take(0).map_values(indent) =~= Seq::<Seq<char>>::empty());
        while i < sea.len()
            invariant
                i <= sea.len(),
                views(sea@) == self.spec_seakeeping_desc(),
                indent == (|line: Seq<char>| "    "@ + line),
                views(lines@) == head + views(sea@).take(i as int).map_values(indent),
            decreases sea.len() - i,
        {
            push_line(&mut lines, cat2("    ", sea[i].as_str()));
            assert(views(sea@).take(i + 1).map_values(indent) =~= views(sea@).take(
                i as int,
            ).map_values(indent).push(indent(sea[i as int]@)));
            i += 1;
        }
        assert(views(sea@).take(sea.len() as int) =~= views(sea@));
        lines
    }
}

} // verus!
