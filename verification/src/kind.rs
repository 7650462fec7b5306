//! The kind of ship that her guns and armor make her.

use vstd::prelude::*;
use crate::num::Num;
use crate::ship::Ship;
use crate::text::{join, push_line, spec_join, views};
use crate::weapons::{GunDistributionType, MountType};

verus! {

impl Ship {
    /// What a ship with guns in broadside is called. `belted` says whether
    /// she has a belt, `faced` whether a battery in broadside has armor on
    /// the face of its mounts, `short` whether forecastle and forward deck
    /// take less than half her length, `below` whether a battery in
    /// broadside has mounts below the deck.
    pub open spec fn spec_broadside_class(
        belted: bool,
        faced: bool,
        short: bool,
        below: bool,
    ) -> Seq<char> {
        if belted {
            if faced {
                "Armoured Casemate Ship"@
            } else if short {
                if below {
                    "Armoured Frigate (Broadside Ironclad)"@
                } else {
                    "Armoured Corvette (Broadside Ironclad)"@
                }
            } else if below {
                "Armoured Frigate (Central Battery Ironclad)"@
            } else {
                "Armoured Corvette (Central Battery Ironclad)"@
            }
        } else if below {
            "Frigate (Unarmoured)"@
        } else {
            "Corvette (Unarmoured)"@
        }
    }

    /// What a ship with guns in broadside is called. `belted` says whether
    /// she has a belt, `faced` whether a battery in broadside has armor on
    /// the face of its mounts, `short` whether forecastle and forward deck
    /// take less than half her length, `below` whether a battery in
    /// broadside has mounts below the deck.
    pub fn broadside_class(belted: bool, faced: bool, short: bool, below: bool) -> (r: String)
        ensures
            r@ == Self::spec_broadside_class(belted, faced, short, below),
    {
        if belted {
            if faced {
                "Armoured Casemate Ship".to_owned()
            } else if short {
                if below {
                    "Armoured Frigate (Broadside Ironclad)".to_owned()
                } else {
                    "Armoured Corvette (Broadside Ironclad)".to_owned()
                }
            } else if below {
                "Armoured Frigate (Central Battery Ironclad)".to_owned()
            } else {
                "Armoured Corvette (Central Battery Ironclad)".to_owned()
            }
        } else if below {
            "Frigate (Unarmoured)".to_owned()
        } else {
            "Corvette (Unarmoured)".to_owned()
        }
    }

    /// Whether the first three batteries include one in broadside.
    pub open spec fn spec_has_broadside(&self) -> bool
        recommends
            self.batteries.len() >= 3,
    {
        self.batteries[0].mount_kind == MountType::Broadside || self.batteries[1].mount_kind
            == MountType::Broadside || self.batteries[2].mount_kind == MountType::Broadside
    }

    /// Whether one of the first three batteries is in broadside and has
    /// armor on the face of its mounts.
    pub open spec fn spec_broadside_faced(&self) -> bool
        recommends
            self.batteries.len() >= 3,
    {
        (self.batteries[0].mount_kind == MountType::Broadside && self.batteries[0].armor_face.gt(
            Num::zero(),
        )) || (self.batteries[1].mount_kind == MountType::Broadside
            && self.batteries[1].armor_face.gt(Num::zero())) || (self.batteries[2].mount_kind
            == MountType::Broadside && self.batteries[2].armor_face.gt(Num::zero()))
    }

    /// Whether one of the first three batteries is in broadside and counts
    /// as mounted below the deck. The main battery counts by the mounts
    /// below deck of both its groups; the second and third count by those of
    /// their own first group and of the main battery's second.
    pub open spec fn spec_broadside_below(&self) -> bool
        recommends
            self.batteries.len() >= 3,
    {
        let main_aft = self.batteries[0].groups[1].below;
        (self.batteries[0].mount_kind == MountType::Broadside && self.batteries[0].groups[0].below
            + main_aft > 0) || (self.batteries[1].mount_kind == MountType::Broadside
            && self.batteries[1].groups[0].below + main_aft > 0) || (self.batteries[2].mount_kind
            == MountType::Broadside && self.batteries[2].groups[0].below + main_aft > 0)
    }

    /// Whether the ship has a belt: main, end and upper belt together weigh
    /// more than nothing.
    pub open spec fn spec_has_belt(&self) -> bool {
        self.armor.belts_wgt().gt(Num::zero())
    }

    pub open spec fn spec_ship_type_lines(&self) -> Seq<Seq<char>>
        recommends
            self.batteries.len() >= 3,
    {
        let s0 = Seq::<Seq<char>>::empty();
        let s1 = if self.batteries[0].mount_kind == MountType::OpenBarbette
            || self.batteries[1].mount_kind == MountType::OpenBarbette {
            s0.push("Barbette Ship"@)
        } else {
            s0
        };
        let s2 = if self.batteries[0].groups[0].distribution == GunDistributionType::CenterlineFD
            || self.batteries[0].groups[0].distribution == GunDistributionType::SidesEndsFD {
            s1.push("Central Citadel Ship"@)
        } else {
            s1
        };
        if self.spec_has_broadside() {
            s2.push(
                Self::spec_broadside_class(
                    self.spec_has_belt(),
                    self.spec_broadside_faced(),
                    self.hull.fc_len.plus(self.hull.fd_len).lt(Num::Micro(500_000)),
                    self.spec_broadside_below(),
                ),
            )
        } else {
            s2
        }
    }

    pub open spec fn spec_ship_type(&self) -> Seq<char>
        recommends
            self.batteries.len() >= 3,
    {
        spec_join(self.spec_ship_type_lines())
    }

    /// What kind of ship her guns and armor make her, one kind to a line: a
    /// barbette ship where the first or second battery stands in open
    /// barbettes; a central citadel ship where the first group of the main
    /// battery stands on the centerline or at the sides' ends of the forward
    /// deck; and, where one of the first three batteries is in broadside,
    /// her class among the broadside ships. Empty where none applies.
    pub fn ship_type(&self) -> (r: String)
        requires
            self.batteries.len() >= 3,
        ensures
            r@ == self.spec_ship_type(),
    {
        let main = &self.batteries[0];
        let sec = &self.batteries[1];
        let ter = &self.batteries[2];
        let mut s: Vec<String> = Vec::new();

        if main.mount_kind == MountType::OpenBarbette || sec.mount_kind == MountType::OpenBarbette {
            push_line(&mut s, "Barbette Ship".to_owned());
        }
        if main.groups[0].distribution == GunDistributionType::CenterlineFD
            || main.groups[0].distribution == GunDistributionType::SidesEndsFD {
            push_line(&mut s, "Central Citadel Ship".to_owned());
        }

        let main_broad = main.mount_kind == MountType::Broadside;
        let sec_broad = sec.mount_kind == MountType::Broadside;
        let ter_broad = ter.mount_kind == MountType::Broadside;
        if main_broad || sec_broad || ter_broad {
            let main_aft: u64 = main.groups[1].below as u64;
            let below = (main_broad && main.groups[0].below as u64 + main_aft > 0) || (sec_broad
                && sec.groups[0].below as u64 + main_aft > 0) || (ter_broad
                && ter.groups[0].below as u64 + main_aft > 0);
            let faced = (main_broad && main.armor_face.gt(Num::Micro(0))) || (sec_broad
                && sec.armor_face.gt(Num::Micro(0))) || (ter_broad && ter.armor_face.gt(
                Num::Micro(0),
            ));
            let belted = self.armor.belts_wgt().gt(Num::Micro(0));
            let short = self.hull.fc_len.plus(self.hull.fd_len).lt(Num::Micro(500_000));
            push_line(&mut s, Self::broadside_class(belted, faced, short, below));
        }
        assert(views(s@) =~= self.spec_ship_type_lines());
        join(&s)
    }
}

} // verus!
