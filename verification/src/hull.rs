//! The hull: its main dimensions and the figures of its geometry.

use vstd::prelude::*;
use crate::measure::Metric;
use crate::num::Num;

verus! {

/// Cubic feet of sea water in a ton (35), in millionths.
pub const FT3_PER_TON_SEA: i64 = 35_000_000;

/// A hull as the ship's figures read it. Lengths are in feet, areas in square
/// feet, the displacement in tons; deck lengths are fractions of the
/// waterline length.
#[derive(Clone, Debug)]
pub struct Hull {
    /// Beam at the waterline.
    pub b: Num,
    /// Beam over the bulges.
    pub bb: Num,
    /// Draft.
    pub t: Num,
    /// Length of the forecastle.
    pub fc_len: Num,
    /// Length of the forward deck.
    pub fd_len: Num,
    /// Displacement at normal load.
    pub d: Num,
    /// Length at the waterline.
    pub lwl: Num,
    /// Block coefficient.
    pub cb: Num,
    /// Area of the waterplane.
    pub wp: Num,
    /// Wetted surface.
    pub ws: Num,
    /// Ratio of length to beam.
    pub len2beam: Num,
    /// Freeboard, averaged over the decks.
    pub freeboard: Num,
    /// Freeboard, each deck weighted by its length.
    pub freeboard_dist: Num,
    /// Free height of the sides where every battery fires through ports in
    /// the side below the deck.
    pub free_cap_broad: Num,
    /// Free height of the sides of any other ship.
    pub free_cap_deck: Num,
    /// Length over all.
    pub loa: Num,
    /// Draft at maximum displacement.
    pub t_max: Num,
    /// Block coefficient at maximum displacement.
    pub cb_max: Num,
    /// The speed that suits the length of the hull, in knots.
    pub vn: Num,
    /// Length of the aft deck.
    pub ad_len: Num,
    /// Length of the quarterdeck.
    pub qd_len: Num,
    /// Freeboard at the fore end of the forecastle.
    pub fc_fwd: Num,
    /// Freeboard at the aft end of the forecastle.
    pub fc_aft: Num,
    /// Freeboard at the fore end of the forward deck.
    pub fd_fwd: Num,
    /// Freeboard at the aft end of the forward deck.
    pub fd_aft: Num,
    /// Freeboard at the fore end of the aft deck.
    pub ad_fwd: Num,
    /// Freeboard at the aft end of the aft deck.
    pub ad_aft: Num,
    /// Freeboard at the fore end of the quarterdeck.
    pub qd_fwd: Num,
    /// Freeboard at the aft end of the quarterdeck.
    pub qd_aft: Num,
    /// Angle of the stem in degrees, positive where it rakes forward.
    pub bow_angle: Num,
    /// Overhang of the stern.
    pub stern_overhang: Num,
    /// Whether the ship tends to be wet forward.
    pub wet_fwd: bool,
    /// The run of the decks in words, as in `a flush deck`.
    pub freeboard_desc: String,
    /// The bow in words.
    pub bow_type: String,
    /// The stern in words.
    pub stern_type: String,
    /// Coefficient of sharpness.
    pub cs: Num,
    /// Midship section coefficient.
    pub cm: Num,
    /// Prismatic coefficient.
    pub cp: Num,
    /// Waterplane coefficient.
    pub cwp: Num,
    /// Draft at the side.
    pub ts: Num,
    /// Length of the stem.
    pub stem_len: Num,
    /// Whether the bow is a ram.
    pub ram: bool,
    /// Length of the ram.
    pub ram_len: Num,
    /// Effective length.
    pub leff: Num,
    /// What the units in which this is given are worth in metric ones.
    pub units: Metric,
}

impl Hull {
    pub open spec fn spec_free_cap(&self, broadside: bool) -> Num {
        if broadside {
            self.free_cap_broad
        } else {
            self.free_cap_deck
        }
    }

    /// Free height of the sides; `broadside` says whether every battery fires
    /// through ports in the side below the deck.
    #[verifier::when_used_as_spec(spec_free_cap)]
    pub fn free_cap(&self, broadside: bool) -> (r: Num)
        ensures
            r == self.spec_free_cap(broadside),
    {
        if broadside {
            self.free_cap_broad
        } else {
            self.free_cap_deck
        }
    }
}

impl Hull {
    /// Whether every figure of the hull is zero and every word empty, the units
    /// being feet.
    pub open spec fn spec_is_default(&self) -> bool {
        &&& self.b == Num::zero()
        &&& self.bb == Num::zero()
        &&& self.t == Num::zero()
        &&& self.fc_len == Num::zero()
        &&& self.fd_len == Num::zero()
        &&& self.d == Num::zero()
        &&& self.lwl == Num::zero()
        &&& self.cb == Num::zero()
        &&& self.wp == Num::zero()
        &&& self.ws == Num::zero()
        &&& self.len2beam == Num::zero()
        &&& self.freeboard == Num::zero()
        &&& self.freeboard_dist == Num::zero()
        &&& self.free_cap_broad == Num::zero()
        &&& self.free_cap_deck == Num::zero()
        &&& self.loa == Num::zero()
        &&& self.t_max == Num::zero()
        &&& self.cb_max == Num::zero()
        &&& self.vn == Num::zero()
        &&& self.ad_len == Num::zero()
        &&& self.qd_len == Num::zero()
        &&& self.fc_fwd == Num::zero()
        &&& self.fc_aft == Num::zero()
        &&& self.fd_fwd == Num::zero()
        &&& self.fd_aft == Num::zero()
        &&& self.ad_fwd == Num::zero()
        &&& self.ad_aft == Num::zero()
        &&& self.qd_fwd == Num::zero()
        &&& self.qd_aft == Num::zero()
        &&& self.bow_angle == Num::zero()
        &&& self.stern_overhang == Num::zero()
        &&& !self.wet_fwd
        &&& self.freeboard_desc@ == ""@
        &&& self.bow_type@ == ""@
        &&& self.stern_type@ == ""@
        &&& self.cs == Num::zero()
        &&& self.cm == Num::zero()
        &&& self.cp == Num::zero()
        &&& self.cwp == Num::zero()
        &&& self.ts == Num::zero()
        &&& self.stem_len == Num::zero()
        &&& !self.ram
        &&& self.ram_len == Num::zero()
        &&& self.leff == Num::zero()
        &&& self.units == Metric::spec_imperial()
    }
}

impl Default for Hull {
    /// A hull with every figure at zero.
    fn default() -> (r: Hull)
        ensures
            r.spec_is_default(),
    {
        let z = Num::Micro(0);
        Hull {
            b: z,
            bb: z,
            t: z,
            fc_len: z,
            fd_len: z,
            d: z,
            lwl: z,
            cb: z,
            wp: z,
            ws: z,
            len2beam: z,
            freeboard: z,
            freeboard_dist: z,
            free_cap_broad: z,
            free_cap_deck: z,
            loa: z,
            t_max: z,
            cb_max: z,
            vn: z,
            ad_len: z,
            qd_len: z,
            fc_fwd: z,
            fc_aft: z,
            fd_fwd: z,
            fd_aft: z,
            ad_fwd: z,
            ad_aft: z,
            qd_fwd: z,
            qd_aft: z,
            bow_angle: z,
            stern_overhang: z,
            wet_fwd: false,
            freeboard_desc: "".to_owned(),
            bow_type: "".to_owned(),
            stern_type: "".to_owned(),
            cs: z,
            cm: z,
            cp: z,
            cwp: z,
            ts: z,
            stem_len: z,
            ram: false,
            ram_len: z,
            leff: z,
            units: Metric::imperial(),
        }
    }
}

} // verus!
