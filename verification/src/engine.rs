//! The machinery: speed, power, resistance and the weights that follow.

use vstd::prelude::*;
use crate::num::Num;
use crate::text::cat3;

verus! {

/// The fuels that the machinery burns, any number of them.
#[derive(Clone, Copy, Debug, PartialEq, Eq, Structural)]
pub struct FuelSet {
    pub coal: bool,
    pub oil: bool,
    pub diesel: bool,
    pub gasoline: bool,
    pub battery: bool,
}

/// The engines of the machinery, any number of kinds.
#[derive(Clone, Copy, Debug, PartialEq, Eq, Structural)]
pub struct BoilerSet {
    pub simple: bool,
    pub complex: bool,
    pub turbine: bool,
}

/// The drives to the shafts, any number of kinds.
#[derive(Clone, Copy, Debug, PartialEq, Eq, Structural)]
pub struct DriveSet {
    pub direct: bool,
    pub geared: bool,
    pub electric: bool,
    pub hydraulic: bool,
}

/// The names of a set with one more, where that is held: the names are
/// parted by a stroke.
pub open spec fn spec_with_name(names: Seq<char>, held: bool, name: Seq<char>) -> Seq<char> {
    if !held {
        names
    } else if names.len() == 0 {
        name
    } else {
        names + " | "@ + name
    }
}

/// The names of a set with one more, where that is held: the names are
/// parted by a stroke.
pub fn with_name(names: String, held: bool, name: &str) -> (r: String)
    ensures
        r@ == spec_with_name(names@, held, name@),
{
    if !held {
        names
    } else if names.as_str().unicode_len() == 0 {
        name.to_owned()
    } else {
        cat3(names.as_str(), " | ", name)
    }
}

impl FuelSet {
    pub open spec fn spec_names(&self) -> Seq<char> {
        spec_with_name(
            spec_with_name(
                spec_with_name(
                    spec_with_name(spec_with_name(""@, self.coal, "Coal"@), self.oil, "Oil"@),
                    self.diesel,
                    "Diesel"@,
                ),
                self.gasoline,
                "Gasoline"@,
            ),
            self.battery,
            "Battery"@,
        )
    }

    /// The fuels of the set by name, as in `Coal | Oil`; nothing for a set
    /// without fuels.
    pub fn names(&self) -> (r: String)
        ensures
            r@ == self.spec_names(),
    {
        let a = with_name("".to_owned(), self.coal, "Coal");
        let b = with_name(a, self.oil, "Oil");
        let c = with_name(b, self.diesel, "Diesel");
        let d = with_name(c, self.gasoline, "Gasoline");
        with_name(d, self.battery, "Battery")
    }
}

impl BoilerSet {
    pub open spec fn spec_names(&self) -> Seq<char> {
        spec_with_name(
            spec_with_name(spec_with_name(""@, self.simple, "Simple"@), self.complex, "Complex"@),
            self.turbine,
            "Turbine"@,
        )
    }

    /// The engines of the set by name, as in `Complex | Turbine`; nothing
    /// for a set without engines.
    pub fn names(&self) -> (r: String)
        ensures
            r@ == self.spec_names(),
    {
        let a = with_name("".to_owned(), self.simple, "Simple");
        let b = with_name(a, self.complex, "Complex");
        with_name(b, self.turbine, "Turbine")
    }
}

impl DriveSet {
    pub open spec fn spec_names(&self) -> Seq<char> {
        spec_with_name(
            spec_with_name(
                spec_with_name(spec_with_name(""@, self.direct, "Direct"@), self.geared, "Geared"@),
                self.electric,
                "Electric"@,
            ),
            self.hydraulic,
            "Hydraulic"@,
        )
    }

    /// The drives of the set by name, as in `Geared | Electric`; nothing for
    /// a set without drives.
    pub fn names(&self) -> (r: String)
        ensures
            r@ == self.spec_names(),
    {
        let a = with_name("".to_owned(), self.direct, "Direct");
        let b = with_name(a, self.geared, "Geared");
        let c = with_name(b, self.electric, "Electric");
        with_name(c, self.hydraulic, "Hydraulic")
    }
}

/// The propulsion as the ship's figures read it. Speeds in knots, weights in
/// tons.
#[derive(Clone, Debug)]
pub struct Engine {
    /// Top speed; zero for a floating battery that does not move.
    pub vmax: Num,
    /// Year of the machinery's design.
    pub year: u32,
    /// Number of propeller shafts.
    pub shafts: u32,
    /// Whether the engines are reciprocating.
    pub reciprocating: bool,
    /// Horsepower at top speed.
    pub hp_max: Num,
    /// Weight of the machinery before the ship's loading is reckoned in.
    pub d_engine: Num,
    /// Frictional resistance at top speed.
    pub rf_max: Num,
    /// Wave-making resistance at top speed.
    pub rw_max: Num,
    /// Weight of the fuel at normal displacement.
    pub bunker: Num,
    /// Weight of the fuel at maximum displacement.
    pub bunker_max: Num,
    /// Cruising speed.
    pub vcruise: Num,
    /// Range at cruising speed, in nautical miles.
    pub range: u32,
    /// The part of the fuel that is coal, from zero to one.
    pub pct_coal: Num,
    /// The part of the power that goes to making waves at top speed.
    pub pw_max: Num,
    /// The fuel in words.
    pub fuel: String,
    /// The engines in words.
    pub boiler: String,
    /// The drive to the shafts in words.
    pub drive: String,
    /// The unit in which the power is given, as in `shp`.
    pub hp_type: String,
    /// Frictional resistance at cruising speed.
    pub rf_cruise: Num,
    /// Wave-making resistance at cruising speed.
    pub rw_cruise: Num,
    /// The part of the power that goes to making waves at cruising speed.
    pub pw_cruise: Num,
    /// Horsepower at cruising speed.
    pub hp_cruise: Num,
    /// How much fuel the engines of their year burn, against the best.
    pub bunker_factor: Num,
    /// Number of engines.
    pub num_engines: u32,
    /// The fuels.
    pub fuels: FuelSet,
    /// The engines.
    pub boilers: BoilerSet,
    /// The drives.
    pub drives: DriveSet,
}

impl FuelSet {
    /// Whether no fuel is named.
    pub open spec fn spec_is_default(&self) -> bool {
        &&& !self.coal
        &&& !self.oil
        &&& !self.diesel
        &&& !self.gasoline
        &&& !self.battery
    }
}

impl Default for FuelSet {
    /// No fuel.
    fn default() -> (r: FuelSet)
        ensures
            r.spec_is_default(),
    {
        FuelSet {
            coal: false,
            oil: false,
            diesel: false,
            gasoline: false,
            battery: false,
        }
    }
}

impl BoilerSet {
    /// Whether no engine is named.
    pub open spec fn spec_is_default(&self) -> bool {
        &&& !self.simple
        &&& !self.complex
        &&& !self.turbine
    }
}

impl Default for BoilerSet {
    /// No engines.
    fn default() -> (r: BoilerSet)
        ensures
            r.spec_is_default(),
    {
        BoilerSet {
            simple: false,
            complex: false,
            turbine: false,
        }
    }
}

impl DriveSet {
    /// Whether no drive is named.
    pub open spec fn spec_is_default(&self) -> bool {
        &&& !self.direct
        &&& !self.geared
        &&& !self.electric
        &&& !self.hydraulic
    }
}

impl Default for DriveSet {
    /// No drive.
    fn default() -> (r: DriveSet)
        ensures
            r.spec_is_default(),
    {
        DriveSet {
            direct: false,
            geared: false,
            electric: false,
            hydraulic: false,
        }
    }
}

impl Engine {
    /// Whether there is no machinery: every figure zero, every set and every
    /// word empty.
    pub open spec fn spec_is_default(&self) -> bool {
        &&& self.vmax == Num::zero()
        &&& self.year == 0
        &&& self.shafts == 0
        &&& !self.reciprocating
        &&& self.hp_max == Num::zero()
        &&& self.d_engine == Num::zero()
        &&& self.rf_max == Num::zero()
        &&& self.rw_max == Num::zero()
        &&& self.bunker == Num::zero()
        &&& self.bunker_max == Num::zero()
        &&& self.vcruise == Num::zero()
        &&& self.range == 0
        &&& self.pct_coal == Num::zero()
        &&& self.pw_max == Num::zero()
        &&& self.fuel@ == ""@
        &&& self.boiler@ == ""@
        &&& self.drive@ == ""@
        &&& self.hp_type@ == ""@
        &&& self.rf_cruise == Num::zero()
        &&& self.rw_cruise == Num::zero()
        &&& self.pw_cruise == Num::zero()
        &&& self.hp_cruise == Num::zero()
        &&& self.bunker_factor == Num::zero()
        &&& self.num_engines == 0
        &&& self.fuels.spec_is_default()
        &&& self.boilers.spec_is_default()
        &&& self.drives.spec_is_default()
    }
}

impl Default for Engine {
    /// No machinery.
    fn default() -> (r: Engine)
        ensures
            r.spec_is_default(),
    {
        let z = Num::Micro(0);
        Engine {
            vmax: z,
            year: 0,
            shafts: 0,
            reciprocating: false,
            hp_max: z,
            d_engine: z,
            rf_max: z,
            rw_max: z,
            bunker: z,
            bunker_max: z,
            vcruise: z,
            range: 0,
            pct_coal: z,
            pw_max: z,
            fuel: "".to_owned(),
            boiler: "".to_owned(),
            drive: "".to_owned(),
            hp_type: "".to_owned(),
            rf_cruise: z,
            rw_cruise: z,
            pw_cruise: z,
            hp_cruise: z,
            bunker_factor: z,
            num_engines: 0,
            fuels: FuelSet::default(),
            boilers: BoilerSet::default(),
            drives: DriveSet::default(),
        }
    }
}

} // verus!
