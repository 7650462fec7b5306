//! Weights that the designer sets aside by hand.

use vstd::prelude::*;

verus! {

/// Miscellaneous weights, in whole tons.
#[derive(Clone, Copy, Debug)]
pub struct MiscWgts {
    /// In the hull below the waterline, among the vitals.
    pub vital: u32,
    /// In the hull above the waterline.
    pub hull: u32,
    /// On the freeboard deck.
    pub on: u32,
    /// Above the freeboard deck.
    pub above: u32,
    /// In voids or bulges.
    pub void: u32,
}

impl MiscWgts {
    pub open spec fn spec_wgt(&self) -> u64 {
        (self.vital + self.hull + self.on + self.above + self.void) as u64
    }

    /// The sum of the five weights.
    #[verifier::when_used_as_spec(spec_wgt)]
    pub fn wgt(&self) -> (r: u64)
        ensures
            r == self.spec_wgt(),
    {
        self.vital as u64 + self.hull as u64 + self.on as u64 + self.above as u64
            + self.void as u64
    }
}

impl Default for MiscWgts {
    /// No weight set aside.
    fn default() -> (r: MiscWgts)
        ensures
            r == (MiscWgts { vital: 0, hull: 0, on: 0, above: 0, void: 0 }),
    {
        MiscWgts { vital: 0, hull: 0, on: 0, above: 0, void: 0 }
    }
}

} // verus!
