//! The ship: a record of her parts, from whose figures those of the whole
//! are drawn.
//!
//! Nothing is kept between calls: each figure is reckoned anew from the
//! record, in the order in which the figures lean on one another.

use vstd::prelude::*;
use crate::armor::Armor;
use crate::engine::Engine;
use crate::hull::Hull;
use crate::num::Num;
use crate::weapons::{Battery, Mines, Torpedoes, ASW};
use crate::weights::MiscWgts;

verus! {

/// All the parts of a ship.
#[derive(Clone, Debug)]
pub struct Ship {
    /// Name of the ship.
    pub name: String,
    /// Country of the ship.
    pub country: String,
    /// Type of ship, as the designer calls it; no figure reads it.
    pub kind: String,
    /// Year in which the ship is laid down.
    pub year: u32,
    /// Balance between stability (0) and steadiness (100).
    pub trim: u8,
    /// The hull.
    pub hull: Hull,
    /// The armor.
    pub armor: Armor,
    /// The machinery.
    pub engine: Engine,
    /// The gun batteries; the first is the main battery.
    pub batteries: Vec<Battery>,
    /// The torpedo mounts; the first is the main set.
    pub torps: Vec<Torpedoes>,
    /// The mines.
    pub mines: Mines,
    /// The anti-submarine weapons; the first is the main set.
    pub asw: Vec<ASW>,
    /// Miscellaneous weights.
    pub wgts: MiscWgts,
    /// The designer's notes.
    pub notes: Vec<String>,
}

impl Ship {
    pub open spec fn spec_complete(&self) -> bool {
        self.batteries.len() >= 3 && self.torps.len() >= 1
    }

    /// Whether the ship has the parts that her figures and her report read:
    /// three batteries or more, and a set of torpedoes or more.
    #[verifier::when_used_as_spec(spec_complete)]
    pub fn complete(&self) -> (r: bool)
        ensures
            r == self.spec_complete(),
    {
        self.batteries.len() >= 3 && self.torps.len() >= 1
    }
}

impl Default for Ship {
    /// A ship without a name, laid down in the year 0, trimmed evenly, with
    /// five batteries, two sets of torpedo mounts and two of anti-submarine
    /// weapons, all of them empty.
    fn default() -> (r: Ship)
        ensures
            r.name@ == ""@ && r.country@ == ""@ && r.kind@ == ""@,
            r.year == 0,
            r.trim == 50,
            r.hull.spec_is_default(),
            r.armor.spec_is_default(),
            r.engine.spec_is_default(),
            r.batteries.len() == 5,
            forall|i: int| 0 <= i < 5 ==> (#[trigger] r.batteries[i]).spec_is_default(),
            r.torps.len() == 2,
            forall|i: int| 0 <= i < 2 ==> (#[trigger] r.torps[i]).spec_is_default(),
            r.mines.spec_is_default(),
            r.asw.len() == 2,
            forall|i: int| 0 <= i < 2 ==> (#[trigger] r.asw[i]).spec_is_default(),
            r.wgts == (MiscWgts { vital: 0, hull: 0, on: 0, above: 0, void: 0 }),
            r.notes.len() == 0,
            r.spec_complete(),
    {
        let mut batteries: Vec<Battery> = Vec::new();
        batteries.push(Battery::default());
        batteries.push(Battery::default());
        batteries.push(Battery::default());
        batteries.push(Battery::default());
        batteries.push(Battery::default());
        let mut torps: Vec<Torpedoes> = Vec::new();
        torps.push(Torpedoes::default());
        torps.push(Torpedoes::default());
        let mut asw: Vec<ASW> = Vec::new();
        asw.push(ASW::default());
        asw.push(ASW::default());
        Ship {
            name: "".to_owned(),
            country: "".to_owned(),
            kind: "".to_owned(),
            year: 0,
            trim: 50,
            hull: Hull::default(),
            armor: Armor::default(),
            engine: Engine::default(),
            batteries,
            torps,
            mines: Mines::default(),
            asw,
            wgts: MiscWgts::default(),
            notes: Vec::new(),
        }
    }
}

} // verus!
