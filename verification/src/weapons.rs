//! Guns, torpedoes, mines and anti-submarine gear.

use vstd::prelude::*;
use crate::measure::Metric;
use crate::num::Num;

verus! {

/// How a gun is mounted.
#[derive(Clone, Copy, Debug, PartialEq, Eq, Structural)]
pub enum MountType {
    Broadside,
    ColesTurret,
    OpenBarbette,
    ClosedBarbette,
    DeckAndHoist,
    Deck,
    Casemate,
}

/// Where along the hull the mounts of a group stand.
#[derive(Clone, Copy, Debug, PartialEq, Eq, Structural)]
pub enum GunDistributionType {
    CenterlineEven,
    CenterlineEndsFD,
    CenterlineEndsAD,
    CenterlineFDFwd,
    CenterlineFD,
    CenterlineFDAft,
    CenterlineADFwd,
    CenterlineAD,
    CenterlineADAft,
    SidesEven,
    SidesEndsFD,
    SidesEndsAD,
    SidesFDFwd,
    SidesFD,
    SidesFDAft,
    SidesADFwd,
    SidesAD,
    SidesADAft,
}

impl GunDistributionType {
    pub open spec fn spec_is_even(&self) -> bool {
        *self == GunDistributionType::CenterlineEven || *self == GunDistributionType::SidesEven
    }

    /// Whether the mounts are spread evenly along the hull.
    #[verifier::when_used_as_spec(spec_is_even)]
    pub fn is_even(&self) -> (r: bool)
        ensures
            r == self.spec_is_even(),
    {
        match self {
            GunDistributionType::CenterlineEven => true,
            GunDistributionType::SidesEven => true,
            _ => false,
        }
    }

    pub open spec fn spec_fires_over(&self) -> bool {
        !(*self == GunDistributionType::CenterlineEven || *self
            == GunDistributionType::CenterlineFD || *self == GunDistributionType::CenterlineAD
            || *self == GunDistributionType::SidesEven || *self == GunDistributionType::SidesFD
            || *self == GunDistributionType::SidesAD)
    }

    /// Whether raised mounts so placed fire over the mounts below them:
    /// those at the ends of the hull or at one end of a deck do, those spread
    /// evenly or over the middle of a deck do not.
    #[verifier::when_used_as_spec(spec_fires_over)]
    pub fn fires_over(&self) -> (r: bool)
        ensures
            r == self.spec_fires_over(),
    {
        match self {
            GunDistributionType::CenterlineEven => false,
            GunDistributionType::CenterlineFD => false,
            GunDistributionType::CenterlineAD => false,
            GunDistributionType::SidesEven => false,
            GunDistributionType::SidesFD => false,
            GunDistributionType::SidesAD => false,
            _ => true,
        }
    }
}

/// Some mounts of a battery that stand together.
#[derive(Clone, Debug)]
pub struct Group {
    /// Mounts above the main deck.
    pub above: u32,
    /// Mounts on the main deck.
    pub on: u32,
    /// Mounts below the main deck.
    pub below: u32,
    /// Where the mounts stand.
    pub distribution: GunDistributionType,
    /// Whether mounts so placed, firing over one another, weigh on the ends.
    pub super_long: bool,
    /// Where the group stands, as a fraction of the hull's length.
    pub position: Num,
    /// Whether the raised mounts stand two high.
    pub two_mounts_up: bool,
    /// Whether the mounts in the hull lie on the lower deck.
    pub lower_deck: bool,
    /// Whether a single raised mount of this distribution stands aft.
    pub super_aft: bool,
    /// How many guns a mount holds, in words.
    pub layout: String,
    /// Where the mounts stand, in words.
    pub place: String,
}

impl Group {
    pub open spec fn spec_num_mounts(&self) -> int {
        self.above + self.on + self.below
    }

    /// The number of mounts in the group.
    pub fn num_mounts(&self) -> (r: u64)
        ensures
            r == self.spec_num_mounts(),
    {
        self.above as u64 + self.on as u64 + self.below as u64
    }
}

/// One of the sums that the ship takes over its batteries.
#[derive(Clone, Copy, Debug, PartialEq, Eq, Structural)]
pub enum Part {
    /// The guns.
    Guns,
    /// The mounts.
    Mounts,
    /// The armor of the mounts.
    Armor,
    /// Shells and charges.
    Magazine,
    /// The shells of one broadside.
    Broadside,
    /// How much of the broadside lies in this one battery.
    Concentration,
    /// The guns, adjusted for the kind of mount: the weight that trains.
    Borne,
    /// Guns, mounts and armor, raised for mounts that fire over others and
    /// adjusted for the kind of mount; nothing for a battery without caliber.
    Raised,
}

/// A battery of guns of one caliber. The caliber is in inches, thicknesses in
/// inches, the broadside in pounds, other weights in tons.
#[derive(Clone, Debug)]
pub struct Battery {
    /// Caliber.
    pub diam: Num,
    /// How the guns are mounted.
    pub mount_kind: MountType,
    /// Number of mounts.
    pub mount_num: u32,
    /// The two groups of mounts.
    pub groups: [Group; 2],
    /// Thickness of the armor on the face of the mounts.
    pub armor_face: Num,
    /// Weight of the guns.
    pub gun_wgt: Num,
    /// Weight of the mounts.
    pub mount_wgt: Num,
    /// Weight of the magazine.
    pub mag_wgt: Num,
    /// Weight of the armor on the mounts.
    pub armor_wgt: Num,
    /// Weight of the shells that one broadside fires.
    pub broadside_wgt: Num,
    /// Share of the battery in the concentration of the ship's broadside.
    pub concentration: Num,
    /// Factor for mounts that fire over others.
    pub super_factor: Num,
    /// Factor by which the kind of mount adjusts the weight that trains.
    pub wgt_adj: Num,
    /// Whether the guns fire through ports in the side, all below the deck.
    pub broad_and_below: bool,
    /// Number of guns.
    pub num: u32,
    /// Length of the barrel in calibers.
    pub len: Num,
    /// Weight of a shell, in pounds.
    pub shell_wgt: Num,
    /// Shells carried for each gun.
    pub shells: u32,
    /// Year of the gun's design.
    pub year: u32,
    /// Thickness of the rest of the gunhouse, in inches.
    pub armor_back: Num,
    /// Thickness of the barbette or hoist, in inches.
    pub armor_barb: Num,
    /// Height of the guns in the hull above the water, in feet.
    pub free: Num,
    /// The guns in words.
    pub kind: String,
    /// The mounts in words.
    pub mount: String,
    /// What the units in which this is given are worth in metric ones.
    pub units: Metric,
}

impl Battery {
    pub open spec fn spec_part(&self, part: Part) -> Num {
        match part {
            Part::Guns => self.gun_wgt,
            Part::Mounts => self.mount_wgt,
            Part::Armor => self.armor_wgt,
            Part::Magazine => self.mag_wgt,
            Part::Broadside => self.broadside_wgt,
            Part::Concentration => self.concentration,
            Part::Borne => self.gun_wgt.times(self.wgt_adj),
            Part::Raised => if self.diam == Num::zero() {
                Num::zero()
            } else {
                self.gun_wgt.plus(self.mount_wgt).plus(self.armor_wgt).times(
                    self.super_factor,
                ).times(self.wgt_adj)
            },
        }
    }

    /// What this battery adds to the sum `part`.
    #[verifier::when_used_as_spec(spec_part)]
    pub fn part(&self, part: Part) -> (r: Num)
        ensures
            r == self.spec_part(part),
    {
        match part {
            Part::Guns => self.gun_wgt,
            Part::Mounts => self.mount_wgt,
            Part::Armor => self.armor_wgt,
            Part::Magazine => self.mag_wgt,
            Part::Broadside => self.broadside_wgt,
            Part::Concentration => self.concentration,
            Part::Borne => self.gun_wgt.times(self.wgt_adj),
            Part::Raised => if self.diam == Num::Micro(0) {
                Num::Micro(0)
            } else {
                self.gun_wgt.plus(self.mount_wgt).plus(self.armor_wgt).times(
                    self.super_factor,
                ).times(self.wgt_adj)
            },
        }
    }

    pub open spec fn spec_raised_over(&self, group: int, corrected: bool) -> bool
        recommends
            0 <= group < 2,
    {
        let above = self.groups[group].above;
        if group == 0 {
            above < self.mount_num - self.groups[1].above
        } else if corrected {
            above < self.mount_num - self.groups[0].above
        } else {
            above < 2 * self.groups[group].spec_num_mounts() - above
        }
    }

    /// Whether the raised mounts of a group stand over others. In the first
    /// group they do where they are fewer than the battery's mounts less the
    /// raised mounts of the second group. In the second group they do where
    /// they are fewer than twice the mounts of that group less themselves:
    /// that is the rule as it is reported. With `corrected` the second group
    /// goes by the rule of the first, the groups changing places.
    pub fn raised_over(&self, group: usize, corrected: bool) -> (r: bool)
        requires
            group < 2,
        ensures
            r == self.spec_raised_over(group as int, corrected),
    {
        let above: i64 = self.groups[group].above as i64;
        if group == 0 {
            above < self.mount_num as i64 - self.groups[1].above as i64
        } else if corrected {
            above < self.mount_num as i64 - self.groups[0].above as i64
        } else {
            above < 2 * (self.groups[group].num_mounts() as i64) - above
        }
    }

    pub open spec fn spec_superfiring(&self, group: int, corrected: bool) -> bool
        recommends
            0 <= group < 2,
    {
        self.spec_raised_over(group, corrected) && self.groups[group].distribution.fires_over()
            && self.mount_kind != MountType::Broadside && self.mount_kind
            != MountType::ColesTurret
    }

    /// Whether the raised mounts of a group are superfiring: they stand over
    /// others, placed so that they fire over them, and are neither guns in
    /// broadside nor Coles turrets.
    pub fn superfiring(&self, group: usize, corrected: bool) -> (r: bool)
        requires
            group < 2,
        ensures
            r == self.spec_superfiring(group as int, corrected),
    {
        self.raised_over(group, corrected) && self.groups[group].distribution.fires_over() && (
        match self.mount_kind {
            MountType::Broadside => false,
            MountType::ColesTurret => false,
            _ => true,
        })
    }
}

/// How torpedoes are mounted.
#[derive(Clone, Copy, Debug, PartialEq, Eq, Structural)]
pub enum TorpedoMountType {
    FixedTubes,
    DeckSideTubes,
    CenterTubes,
    DeckReloads,
    BowTubes,
    SternTubes,
    BowAndSternTubes,
    SubmergedSideTubes,
    SubmergedReloads,
}

impl TorpedoMountType {
    pub open spec fn spec_deck_mounted(&self) -> bool {
        match self {
            TorpedoMountType::FixedTubes => true,
            TorpedoMountType::DeckSideTubes => true,
            TorpedoMountType::CenterTubes => true,
            TorpedoMountType::DeckReloads => true,
            _ => false,
        }
    }

    pub open spec fn spec_hull_mounted(&self) -> bool {
        match self {
            TorpedoMountType::BowTubes => true,
            TorpedoMountType::SternTubes => true,
            TorpedoMountType::BowAndSternTubes => true,
            TorpedoMountType::SubmergedSideTubes => true,
            TorpedoMountType::SubmergedReloads => true,
            _ => false,
        }
    }

    /// Whether the mounts stand on deck.
    #[verifier::when_used_as_spec(spec_deck_mounted)]
    pub fn deck_mounted(&self) -> (r: bool)
        ensures
            r == self.spec_deck_mounted(),
    {
        match self {
            TorpedoMountType::FixedTubes => true,
            TorpedoMountType::DeckSideTubes => true,
            TorpedoMountType::CenterTubes => true,
            TorpedoMountType::DeckReloads => true,
            _ => false,
        }
    }

    /// Whether the mounts lie in the hull.
    #[verifier::when_used_as_spec(spec_hull_mounted)]
    pub fn hull_mounted(&self) -> (r: bool)
        ensures
            r == self.spec_hull_mounted(),
            r == !self.spec_deck_mounted(),
    {
        !self.deck_mounted()
    }
}

/// A set of torpedo mounts.
#[derive(Clone, Debug)]
pub struct Torpedoes {
    /// Number of torpedoes.
    pub num: u32,
    /// Number of mounts.
    pub mounts: u32,
    /// How they are mounted.
    pub mount_kind: TorpedoMountType,
    /// Weight of torpedoes and mounts, in tons.
    pub wgt: Num,
    /// Weight of the torpedoes alone, in tons.
    pub wgt_weaps: Num,
    /// Room that the mounts take: square feet of deck for mounts on deck,
    /// cubic feet of hull for mounts in the hull.
    pub space: Num,
    /// Diameter of a torpedo, in inches.
    pub diam: Num,
    /// Length of a torpedo, in feet.
    pub len: Num,
    /// Year of the torpedoes' design.
    pub year: u32,
    /// The mounts in words.
    pub desc: String,
    /// What the units in which this is given are worth in metric ones.
    pub units: Metric,
}

/// One of the sums that the ship takes over its torpedo mounts.
#[derive(Clone, Copy, Debug, PartialEq, Eq, Structural)]
pub enum TorpedoSum {
    /// Deck area.
    DeckSpace,
    /// Hull volume.
    HullSpace,
    /// Weight of torpedoes and mounts.
    Weight,
}

impl Torpedoes {
    pub open spec fn spec_deck_space(&self) -> Num {
        if self.mount_kind.deck_mounted() {
            self.space
        } else {
            Num::zero()
        }
    }

    pub open spec fn spec_hull_space(&self) -> Num {
        if self.mount_kind.hull_mounted() {
            self.space
        } else {
            Num::zero()
        }
    }

    pub open spec fn spec_share(&self, sum: TorpedoSum) -> Num {
        match sum {
            TorpedoSum::DeckSpace => self.spec_deck_space(),
            TorpedoSum::HullSpace => self.spec_hull_space(),
            TorpedoSum::Weight => self.wgt,
        }
    }

    /// Deck area that the mounts take; none for mounts in the hull.
    #[verifier::when_used_as_spec(spec_deck_space)]
    pub fn deck_space(&self) -> (r: Num)
        ensures
            r == self.spec_deck_space(),
    {
        if self.mount_kind.deck_mounted() {
            self.space
        } else {
            Num::Micro(0)
        }
    }

    /// Hull volume that the mounts take; none for mounts on deck.
    #[verifier::when_used_as_spec(spec_hull_space)]
    pub fn hull_space(&self) -> (r: Num)
        ensures
            r == self.spec_hull_space(),
    {
        if self.mount_kind.hull_mounted() {
            self.space
        } else {
            Num::Micro(0)
        }
    }

    /// What these mounts add to the sum `sum`.
    #[verifier::when_used_as_spec(spec_share)]
    pub fn share(&self, sum: TorpedoSum) -> (r: Num)
        ensures
            r == self.spec_share(sum),
    {
        match sum {
            TorpedoSum::DeckSpace => self.deck_space(),
            TorpedoSum::HullSpace => self.hull_space(),
            TorpedoSum::Weight => self.wgt,
        }
    }
}

/// The mines aboard.
#[derive(Clone, Debug)]
pub struct Mines {
    /// Number of mines.
    pub num: u32,
    /// Weight of mines and rails, in tons.
    pub wgt: Num,
    /// Weight of a mine, in pounds.
    pub unit_wgt: Num,
    /// Number of reloads.
    pub reload: u32,
    /// Weight of the mines alone, in tons.
    pub wgt_weaps: Num,
    /// Year of the mines' design.
    pub year: u32,
    /// How they are laid, in words.
    pub desc: String,
    /// What the units in which this is given are worth in metric ones.
    pub units: Metric,
}

/// A set of anti-submarine weapons.
#[derive(Clone, Debug)]
pub struct ASW {
    /// Number of weapons.
    pub num: u32,
    /// Weight of weapons and throwers, in tons.
    pub wgt: Num,
    /// Weight of a charge, in pounds.
    pub unit_wgt: Num,
    /// Number of reloads.
    pub reload: u32,
    /// Weight of the weapons alone, in tons.
    pub wgt_weaps: Num,
    /// Year of the weapons' design.
    pub year: u32,
    /// The weapons in words.
    pub kind: String,
    /// How the charges are dropped, in words; empty for weapons that are thrown.
    pub desc: String,
    /// What the units in which this is given are worth in metric ones.
    pub units: Metric,
}

/// The sum `part` over `batteries`, taken from the first on.
pub open spec fn spec_battery_total(batteries: Seq<Battery>, part: Part) -> Num
    decreases batteries.len(),
{
    if batteries.len() == 0 {
        Num::zero()
    } else {
        spec_battery_total(batteries.drop_last(), part).plus(batteries.last().part(part))
    }
}

/// The sum `sum` over `torps`, taken from the first on.
pub open spec fn spec_torpedo_total(torps: Seq<Torpedoes>, sum: TorpedoSum) -> Num
    decreases torps.len(),
{
    if torps.len() == 0 {
        Num::zero()
    } else {
        spec_torpedo_total(torps.drop_last(), sum).plus(torps.last().share(sum))
    }
}

/// The weight of `asw`, summed from the first on.
pub open spec fn spec_asw_total(asw: Seq<ASW>) -> Num
    decreases asw.len(),
{
    if asw.len() == 0 {
        Num::zero()
    } else {
        spec_asw_total(asw.drop_last()).plus(asw.last().wgt)
    }
}

/// The sum `part` over `batteries`.
pub fn battery_total(batteries: &Vec<Battery>, part: Part) -> (r: Num)
    ensures
        r == spec_battery_total(batteries@, part),
{
    let mut acc = Num::Micro(0);
    let mut i: usize = 0;
    while i < batteries.len()
        invariant
            i <= batteries.len(),
            acc == spec_battery_total(batteries@.take(i as int), part),
        decreases batteries.len() - i,
    {
        assert(batteries@.take(i + 1).drop_last() == batteries@.take(i as int));
        acc = acc.plus(batteries[i].part(part));
        i += 1;
    }
    assert(batteries@.take(batteries.len() as int) == batteries@);
    acc
}

/// The sum `sum` over `torps`.
pub fn torpedo_total(torps: &Vec<Torpedoes>, sum: TorpedoSum) -> (r: Num)
    ensures
        r == spec_torpedo_total(torps@, sum),
{
    let mut acc = Num::Micro(0);
    let mut i: usize = 0;
    while i < torps.len()
        invariant
            i <= torps.len(),
            acc == spec_torpedo_total(torps@.take(i as int), sum),
        decreases torps.len() - i,
    {
        assert(torps@.take(i + 1).drop_last() == torps@.take(i as int));
        acc = acc.plus(torps[i].share(sum));
        i += 1;
    }
    assert(torps@.take(torps.len() as int) == torps@);
    acc
}

/// The weight of `asw`.
pub fn asw_total(asw: &Vec<ASW>) -> (r: Num)
    ensures
        r == spec_asw_total(asw@),
{
    let mut acc = Num::Micro(0);
    let mut i: usize = 0;
    while i < asw.len()
        invariant
            i <= asw.len(),
            acc == spec_asw_total(asw@.take(i as int)),
        decreases asw.len() - i,
    {
        assert(asw@.take(i + 1).drop_last() == asw@.take(i as int));
        acc = acc.plus(asw[i].wgt);
        i += 1;
    }
    assert(asw@.take(asw.len() as int) == asw@);
    acc
}

impl Group {
    /// Whether this is a group without mounts, on the centerline, at the bow.
    pub open spec fn spec_is_default(&self) -> bool {
        &&& self.above == 0
        &&& self.on == 0
        &&& self.below == 0
        &&& self.distribution == GunDistributionType::CenterlineEven
        &&& !self.super_long
        &&& self.position == Num::zero()
        &&& !self.two_mounts_up
        &&& !self.lower_deck
        &&& !self.super_aft
        &&& self.layout@ == ""@
        &&& self.place@ == ""@
    }
}

impl Default for Group {
    /// No mounts.
    fn default() -> (r: Group)
        ensures
            r.spec_is_default(),
    {
        let z = Num::Micro(0);
        Group {
            above: 0,
            on: 0,
            below: 0,
            distribution: GunDistributionType::CenterlineEven,
            super_long: false,
            position: z,
            two_mounts_up: false,
            lower_deck: false,
            super_aft: false,
            layout: "".to_owned(),
            place: "".to_owned(),
        }
    }
}

impl Battery {
    /// Whether this is a battery without guns: in broadside, with no mounts
    /// in its two groups, every figure at zero and every word empty.
    pub open spec fn spec_is_default(&self) -> bool {
        &&& self.diam == Num::zero()
        &&& self.mount_kind == MountType::Broadside
        &&& self.mount_num == 0
        &&& self.groups[0].spec_is_default()
        &&& self.groups[1].spec_is_default()
        &&& self.armor_face == Num::zero()
        &&& self.gun_wgt == Num::zero()
        &&& self.mount_wgt == Num::zero()
        &&& self.mag_wgt == Num::zero()
        &&& self.armor_wgt == Num::zero()
        &&& self.broadside_wgt == Num::zero()
        &&& self.concentration == Num::zero()
        &&& self.super_factor == Num::zero()
        &&& self.wgt_adj == Num::zero()
        &&& !self.broad_and_below
        &&& self.num == 0
        &&& self.len == Num::zero()
        &&& self.shell_wgt == Num::zero()
        &&& self.shells == 0
        &&& self.year == 0
        &&& self.armor_back == Num::zero()
        &&& self.armor_barb == Num::zero()
        &&& self.free == Num::zero()
        &&& self.kind@ == ""@
        &&& self.mount@ == ""@
        &&& self.units == Metric::spec_imperial()
    }
}

impl Default for Battery {
    /// No guns.
    fn default() -> (r: Battery)
        ensures
            r.spec_is_default(),
    {
        let z = Num::Micro(0);
        Battery {
            diam: z,
            mount_kind: MountType::Broadside,
            mount_num: 0,
            groups: [Group::default(), Group::default()],
            armor_face: z,
            gun_wgt: z,
            mount_wgt: z,
            mag_wgt: z,
            armor_wgt: z,
            broadside_wgt: z,
            concentration: z,
            super_factor: z,
            wgt_adj: z,
            broad_and_below: false,
            num: 0,
            len: z,
            shell_wgt: z,
            shells: 0,
            year: 0,
            armor_back: z,
            armor_barb: z,
            free: z,
            kind: "".to_owned(),
            mount: "".to_owned(),
            units: Metric::imperial(),
        }
    }
}

impl Torpedoes {
    /// Whether there are no torpedoes, the mounts being fixed tubes.
    pub open spec fn spec_is_default(&self) -> bool {
        &&& self.num == 0
        &&& self.mounts == 0
        &&& self.mount_kind == TorpedoMountType::FixedTubes
        &&& self.wgt == Num::zero()
        &&& self.wgt_weaps == Num::zero()
        &&& self.space == Num::zero()
        &&& self.diam == Num::zero()
        &&& self.len == Num::zero()
        &&& self.year == 0
        &&& self.desc@ == ""@
        &&& self.units == Metric::spec_imperial()
    }
}

impl Default for Torpedoes {
    /// No torpedoes.
    fn default() -> (r: Torpedoes)
        ensures
            r.spec_is_default(),
    {
        let z = Num::Micro(0);
        Torpedoes {
            num: 0,
            mounts: 0,
            mount_kind: TorpedoMountType::FixedTubes,
            wgt: z,
            wgt_weaps: z,
            space: z,
            diam: z,
            len: z,
            year: 0,
            desc: "".to_owned(),
            units: Metric::imperial(),
        }
    }
}

impl Mines {
    /// Whether there are no mines.
    pub open spec fn spec_is_default(&self) -> bool {
        &&& self.num == 0
        &&& self.wgt == Num::zero()
        &&& self.unit_wgt == Num::zero()
        &&& self.reload == 0
        &&& self.wgt_weaps == Num::zero()
        &&& self.year == 0
        &&& self.desc@ == ""@
        &&& self.units == Metric::spec_imperial()
    }
}

impl Default for Mines {
    /// No mines.
    fn default() -> (r: Mines)
        ensures
            r.spec_is_default(),
    {
        let z = Num::Micro(0);
        Mines {
            num: 0,
            wgt: z,
            unit_wgt: z,
            reload: 0,
            wgt_weaps: z,
            year: 0,
            desc: "".to_owned(),
            units: Metric::imperial(),
        }
    }
}

impl ASW {
    /// Whether there are no anti-submarine weapons.
    pub open spec fn spec_is_default(&self) -> bool {
        &&& self.num == 0
        &&& self.wgt == Num::zero()
        &&& self.unit_wgt == Num::zero()
        &&& self.reload == 0
        &&& self.wgt_weaps == Num::zero()
        &&& self.year == 0
        &&& self.kind@ == ""@
        &&& self.desc@ == ""@
        &&& self.units == Metric::spec_imperial()
    }
}

impl Default for ASW {
    /// No anti-submarine weapons.
    fn default() -> (r: ASW)
        ensures
            r.spec_is_default(),
    {
        let z = Num::Micro(0);
        ASW {
            num: 0,
            wgt: z,
            unit_wgt: z,
            reload: 0,
            wgt_weaps: z,
            year: 0,
            kind: "".to_owned(),
            desc: "".to_owned(),
            units: Metric::imperial(),
        }
    }
}

} // verus!
