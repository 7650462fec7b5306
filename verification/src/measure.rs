//! Metric equivalents: what the feet, inches, pounds and horsepower of a
//! part are worth in meters, millimeters, kilograms and kilowatts.

use vstd::prelude::*;
use crate::num::Num;

verus! {

/// What is measured.
#[derive(Clone, Copy, Debug, PartialEq, Eq, Structural)]
pub enum Measure {
    /// A length in feet, given in meters.
    LengthLong,
    /// A length in inches, given in millimeters.
    LengthSmall,
    /// A weight in pounds, given in kilograms.
    Weight,
    /// An area in square feet, given in square meters.
    Area,
    /// A weight on an area in pounds to the square foot, given in kilograms
    /// to the square meter.
    WeightPerArea,
    /// A power in horsepower, given in kilowatts.
    Power,
}

/// What one of each unit of a part is worth in its metric unit. A part that
/// is given in metric units has ones.
#[derive(Clone, Copy, Debug, PartialEq, Eq, Structural)]
pub struct Metric {
    /// Meters to the unit of long lengths.
    pub long: Num,
    /// Millimeters to the unit of small lengths.
    pub small: Num,
    /// Kilograms to the unit of weight.
    pub weight: Num,
    /// Square meters to the unit of area.
    pub area: Num,
    /// Kilograms to the square meter, to the unit of weight on an area.
    pub weight_per_area: Num,
    /// Kilowatts to the unit of power.
    pub power: Num,
}

impl Metric {
    /// Feet, inches, pounds and horsepower: 0.3048 m, 25.4 mm, 0.453592 kg,
    /// 0.092903 square meters, 4.882428 kg to the square meter, 0.7457 kW.
    pub open spec fn spec_imperial() -> Metric {
        Metric {
            long: Num::Micro(304_800),
            small: Num::Micro(25_400_000),
            weight: Num::Micro(453_592),
            area: Num::Micro(92_903),
            weight_per_area: Num::Micro(4_882_428),
            power: Num::Micro(745_700),
        }
    }

    /// Feet, inches, pounds and horsepower: 0.3048 m, 25.4 mm, 0.453592 kg,
    /// 0.092903 square meters, 4.882428 kg to the square meter, 0.7457 kW.
    #[verifier::when_used_as_spec(spec_imperial)]
    pub fn imperial() -> (r: Metric)
        ensures
            r == Metric::spec_imperial(),
    {
        Metric {
            long: Num::Micro(304_800),
            small: Num::Micro(25_400_000),
            weight: Num::Micro(453_592),
            area: Num::Micro(92_903),
            weight_per_area: Num::Micro(4_882_428),
            power: Num::Micro(745_700),
        }
    }

    pub open spec fn spec_worth(&self, measure: Measure) -> Num {
        match measure {
            Measure::LengthLong => self.long,
            Measure::LengthSmall => self.small,
            Measure::Weight => self.weight,
            Measure::Area => self.area,
            Measure::WeightPerArea => self.weight_per_area,
            Measure::Power => self.power,
        }
    }

    /// What one unit of a measure is worth in its metric unit.
    #[verifier::when_used_as_spec(spec_worth)]
    pub fn worth(&self, measure: Measure) -> (r: Num)
        ensures
            r == self.spec_worth(measure),
    {
        match measure {
            Measure::LengthLong => self.long,
            Measure::LengthSmall => self.small,
            Measure::Weight => self.weight,
            Measure::Area => self.area,
            Measure::WeightPerArea => self.weight_per_area,
            Measure::Power => self.power,
        }
    }

    pub open spec fn spec_of(&self, value: Num, measure: Measure) -> Num {
        value.times(self.spec_worth(measure))
    }

    /// The metric equivalent of `value`: the value times what its unit is
    /// worth.
    #[verifier::when_used_as_spec(spec_of)]
    pub fn of(&self, value: Num, measure: Measure) -> (r: Num)
        ensures
            r == self.spec_of(value, measure),
    {
        value.times(self.worth(measure))
    }
}

impl Default for Metric {
    /// Feet, inches, pounds and horsepower.
    fn default() -> (r: Metric)
        ensures
            r == Metric::spec_imperial(),
    {
        Metric::imperial()
    }
}

} // verus!
