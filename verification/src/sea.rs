//! Bands of seakeeping.

use vstd::prelude::*;
use crate::num::Num;

verus! {

/// Levels of seakeeping ability.
#[derive(Clone, Copy, Debug, PartialEq, Eq, Structural)]
pub enum SeaType {
    /// Below 0.7.
    BadSea,
    /// From 0.7 to below 0.995.
    PoorSea,
    /// From 1.5 on.
    FineSea,
    /// From 1.2 to below 1.5.
    GoodSea,
    /// From 0.995 to below 1.2, for which no band is laid down, and a
    /// seakeeping that is undefined.
    Error,
}

impl SeaType {
    pub open spec fn spec_of(seakeeping: Num) -> SeaType {
        if seakeeping.lt(Num::Micro(700_000)) {
            SeaType::BadSea
        } else if seakeeping.lt(Num::Micro(995_000)) {
            SeaType::PoorSea
        } else if seakeeping.ge(Num::Micro(1_500_000)) {
            SeaType::FineSea
        } else if seakeeping.ge(Num::Micro(1_200_000)) {
            SeaType::GoodSea
        } else {
            SeaType::Error
        }
    }

    /// The band in which a seakeeping lies.
    #[verifier::when_used_as_spec(spec_of)]
    pub fn of(seakeeping: Num) -> (r: SeaType)
        ensures
            r == Self::spec_of(seakeeping),
    {
        if seakeeping.lt(Num::Micro(700_000)) {
            SeaType::BadSea
        } else if seakeeping.lt(Num::Micro(995_000)) {
            SeaType::PoorSea
        } else if seakeeping.ge(Num::Micro(1_500_000)) {
            SeaType::FineSea
        } else if seakeeping.ge(Num::Micro(1_200_000)) {
            SeaType::GoodSea
        } else {
            SeaType::Error
        }
    }

    /// What is said of a ship in this band; `armed` says whether she has
    /// guns.
    pub open spec fn spec_advice(self, armed: bool) -> Seq<char> {
        match self {
            SeaType::BadSea => "Caution: Lacks seaworthiness - very limited seakeeping ability"@,
            SeaType::PoorSea => {
                "Poor seaboat, wet and uncomfortable, reduced performance in heavy weather"@
            },
            SeaType::GoodSea => "Good seaboat, rides out heavy weather easily"@,
            SeaType::FineSea => if armed {
                "Excellent seaboat, comfortable, can fire her guns in the heaviest weather"@
            } else {
                "Excellent seaboat, comfortable, rides out heavy weather easily"@
            },
            SeaType::Error => "Invalid SeaType"@,
        }
    }

    /// What is said of a ship in this band; `armed` says whether she has
    /// guns.
    pub fn advice(self, armed: bool) -> (r: String)
        ensures
            r@ == self.spec_advice(armed),
    {
        match self {
            SeaType::BadSea => {
                "Caution: Lacks seaworthiness - very limited seakeeping ability".to_owned()
            },
            SeaType::PoorSea => {
                "Poor seaboat, wet and uncomfortable, reduced performance in heavy weather".to_owned()
            },
            SeaType::GoodSea => "Good seaboat, rides out heavy weather easily".to_owned(),
            SeaType::FineSea => if armed {
                "Excellent seaboat, comfortable, can fire her guns in the heaviest weather"
                    .to_owned()
            } else {
                "Excellent seaboat, comfortable, rides out heavy weather easily".to_owned()
            },
            SeaType::Error => "Invalid SeaType".to_owned(),
        }
    }
}

impl Default for SeaType {
    /// The lowest band.
    fn default() -> (r: SeaType)
        ensures
            r == SeaType::BadSea,
    {
        SeaType::BadSea
    }
}

} // verus!
