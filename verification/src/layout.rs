//! The layout of the positional text format: what stands on which line.

use vstd::prelude::*;

verus! {

/// What a line holds.
#[derive(Clone, Copy, Debug, PartialEq, Eq, Structural)]
pub enum Kind {
    /// Any text.
    Text,
    /// A decimal number.
    Number,
    /// A decimal number of hundredths.
    Percent,
    /// A whole number that a `u32` holds.
    Count,
    /// A whole number up to 255.
    Byte,
    /// `True` or anything else.
    Flag,
    /// Nothing that is read.
    Skip,
}

/// The number of lines that are laid out; the designer's notes follow them.
pub const LINES: usize = 281;

/// The number of lines that a file must have: all that are read.
pub const NEEDED: usize = 248;

/// The number of batteries.
pub const BATTERIES: usize = 5;

/// What the line at `at` holds.
pub open spec fn spec_kind(at: int) -> Kind {
    if at < 0 {
        Kind::Skip
    } else if at < 12 {
        Kind::Text
    } else if at < 14 {
        Kind::Count
    } else if at < 17 {
        Kind::Number
    } else if at < 18 {
        Kind::Text
    } else if at < 21 {
        Kind::Number
    } else if at < 22 {
        Kind::Percent
    } else if at < 24 {
        Kind::Number
    } else if at < 25 {
        Kind::Percent
    } else if at < 27 {
        Kind::Number
    } else if at < 28 {
        Kind::Percent
    } else if at < 32 {
        Kind::Number
    } else if at < 62 {
        // Six values to a battery: guns, caliber, kind of gun, mounts above
        // and below deck in the first group, weight of a shell.
        if (at - 32) % 6 == 1 || (at - 32) % 6 == 5 {
            Kind::Number
        } else if (at - 32) % 6 == 2 {
            Kind::Text
        } else {
            Kind::Count
        }
    } else if at < 63 {
        Kind::Count
    } else if at < 78 {
        // Three values to a battery: mounts, kind of mount, placement of the
        // first group.
        if (at - 63) % 3 == 0 {
            Kind::Count
        } else {
            Kind::Text
        }
    } else if at < 80 {
        Kind::Count
    } else if at < 112 {
        Kind::Number
    } else if at < 114 {
        Kind::Count
    } else if at < 115 {
        Kind::Percent
    } else if at < 127 {
        Kind::Flag
    } else if at < 128 {
        Kind::Byte
    } else if at < 129 {
        Kind::Number
    } else if at < 135 {
        Kind::Count
    } else if at < 136 {
        Kind::Text
    } else if at < 137 {
        Kind::Number
    } else if at < 141 {
        Kind::Text
    } else if at < 146 {
        Kind::Number
    } else if at < 150 {
        Kind::Count
    } else if at < 155 {
        Kind::Text
    } else if at < 160 {
        Kind::Count
    } else if at < 165 {
        Kind::Flag
    } else if at < 175 {
        Kind::Count
    } else if at < 180 {
        Kind::Flag
    } else if at < 182 {
        Kind::Count
    } else if at < 185 {
        Kind::Number
    } else if at < 187 {
        Kind::Text
    } else if at < 189 {
        Kind::Count
    } else if at < 190 {
        Kind::Number
    } else if at < 191 {
        Kind::Text
    } else if at < 195 {
        Kind::Count
    } else if at < 197 {
        Kind::Number
    } else if at < 199 {
        Kind::Text
    } else if at < 202 {
        Kind::Count
    } else if at < 206 {
        Kind::Number
    } else if at < 207 {
        Kind::Count
    } else if at < 210 {
        Kind::Number
    } else if at < 211 {
        Kind::Text
    } else if at < 212 {
        Kind::Number
    } else if at < 227 {
        Kind::Count
    } else if at < 232 {
        Kind::Skip
    } else if at < 237 {
        Kind::Count
    } else if at < 247 {
        Kind::Text
    } else if at < 248 {
        Kind::Count
    } else if at < 281 {
        Kind::Skip
    } else {
        Kind::Skip
    }
}

/// What the line at `at` holds.
pub fn kind(at: usize) -> (r: Kind)
    ensures
        r == spec_kind(at as int),
{
    if at < 12 {
        Kind::Text
    } else if at < 14 {
        Kind::Count
    } else if at < 17 {
        Kind::Number
    } else if at < 18 {
        Kind::Text
    } else if at < 21 {
        Kind::Number
    } else if at < 22 {
        Kind::Percent
    } else if at < 24 {
        Kind::Number
    } else if at < 25 {
        Kind::Percent
    } else if at < 27 {
        Kind::Number
    } else if at < 28 {
        Kind::Percent
    } else if at < 32 {
        Kind::Number
    } else if at < 62 {
        // Six values to a battery: guns, caliber, kind of gun, mounts above
        // and below deck in the first group, weight of a shell.
        if (at - 32) % 6 == 1 || (at - 32) % 6 == 5 {
            Kind::Number
        } else if (at - 32) % 6 == 2 {
            Kind::Text
        } else {
            Kind::Count
        }
    } else if at < 63 {
        Kind::Count
    } else if at < 78 {
        // Three values to a battery: mounts, kind of mount, placement of the
        // first group.
        if (at - 63) % 3 == 0 {
            Kind::Count
        } else {
            Kind::Text
        }
    } else if at < 80 {
        Kind::Count
    } else if at < 112 {
        Kind::Number
    } else if at < 114 {
        Kind::Count
    } else if at < 115 {
        Kind::Percent
    } else if at < 127 {
        Kind::Flag
    } else if at < 128 {
        Kind::Byte
    } else if at < 129 {
        Kind::Number
    } else if at < 135 {
        Kind::Count
    } else if at < 136 {
        Kind::Text
    } else if at < 137 {
        Kind::Number
    } else if at < 141 {
        Kind::Text
    } else if at < 146 {
        Kind::Number
    } else if at < 150 {
        Kind::Count
    } else if at < 155 {
        Kind::Text
    } else if at < 160 {
        Kind::Count
    } else if at < 165 {
        Kind::Flag
    } else if at < 175 {
        Kind::Count
    } else if at < 180 {
        Kind::Flag
    } else if at < 182 {
        Kind::Count
    } else if at < 185 {
        Kind::Number
    } else if at < 187 {
        Kind::Text
    } else if at < 189 {
        Kind::Count
    } else if at < 190 {
        Kind::Number
    } else if at < 191 {
        Kind::Text
    } else if at < 195 {
        Kind::Count
    } else if at < 197 {
        Kind::Number
    } else if at < 199 {
        Kind::Text
    } else if at < 202 {
        Kind::Count
    } else if at < 206 {
        Kind::Number
    } else if at < 207 {
        Kind::Count
    } else if at < 210 {
        Kind::Number
    } else if at < 211 {
        Kind::Text
    } else if at < 212 {
        Kind::Number
    } else if at < 227 {
        Kind::Count
    } else if at < 232 {
        Kind::Skip
    } else if at < 237 {
        Kind::Count
    } else if at < 247 {
        Kind::Text
    } else if at < 248 {
        Kind::Count
    } else if at < 281 {
        Kind::Skip
    } else {
        Kind::Skip
    }
}

/// The header, which names the product that wrote the file.
pub const HEADER: usize = 0;

/// The ship's name.
pub const NAME: usize = 1;

/// Her country.
pub const COUNTRY: usize = 2;

/// Her type, as the designer calls it.
pub const KIND: usize = 3;

/// Units of the hull.
pub const HULL_UNITS: usize = 4;

/// Units of the first battery; those of the others follow.
pub const BATTERY_UNITS: usize = 5;

/// Units of the main torpedoes.
pub const TORPEDO_UNITS: usize = 10;

/// Units of the armor.
pub const ARMOR_UNITS: usize = 11;

/// Year laid down.
pub const YEAR: usize = 12;

/// Miscellaneous weight among the vitals.
pub const WGTS_VITAL: usize = 13;

/// Length at the waterline.
pub const HULL_LWL: usize = 14;

/// Beam.
pub const HULL_B: usize = 15;

/// Draft.
pub const HULL_T: usize = 16;

/// Kind of stern.
pub const HULL_STERN_TYPE: usize = 17;

/// Block coefficient.
pub const HULL_CB: usize = 18;

/// Freeboard of the quarterdeck, aft.
pub const HULL_QD_AFT: usize = 19;

/// Overhang of the stern.
pub const HULL_STERN_OVERHANG: usize = 20;

/// Length of the quarterdeck, in hundredths.
pub const HULL_QD_LEN: usize = 21;

/// Freeboard of the quarterdeck, forward.
pub const HULL_QD_FWD: usize = 22;

/// Freeboard of the aft deck, aft.
pub const HULL_AD_AFT: usize = 23;

/// Length of the forward deck, in hundredths.
pub const HULL_FD_LEN: usize = 24;

/// Freeboard of the aft deck, forward.
pub const HULL_AD_FWD: usize = 25;

/// Freeboard of the forward deck, aft.
pub const HULL_FD_AFT: usize = 26;

/// Length of the forecastle, in hundredths.
pub const HULL_FC_LEN: usize = 27;

/// Freeboard of the forward deck, forward.
pub const HULL_FD_FWD: usize = 28;

/// Freeboard of the forecastle, aft.
pub const HULL_FC_AFT: usize = 29;

/// Freeboard of the forecastle, forward.
pub const HULL_FC_FWD: usize = 30;

/// Angle of the bow.
pub const HULL_BOW_ANGLE: usize = 31;

/// Number of guns of the first battery. The first six values of each battery
/// stand together, battery after battery.
pub const BATTERY_NUM: usize = 32;

/// Caliber of the first battery.
pub const BATTERY_DIAM: usize = 33;

/// Kind of gun of the first battery.
pub const BATTERY_KIND: usize = 34;

/// Mounts above deck in the first group of the first battery; read again
/// further down.
pub const BATTERY_FORE_ABOVE: usize = 35;

/// Mounts below deck in the first group of the first battery; read again
/// further down.
pub const BATTERY_FORE_BELOW: usize = 36;

/// Weight of a shell of the first battery.
pub const BATTERY_SHELL_WGT: usize = 37;

/// Shells to a gun of the first battery; those of the other batteries stand
/// apart.
pub const BATTERY_SHELLS: usize = 62;

/// Number of mounts of the first battery. These three values of each battery
/// stand together, battery after battery.
pub const BATTERY_MOUNT_NUM: usize = 63;

/// Kind of mount of the first battery.
pub const BATTERY_MOUNT_KIND: usize = 64;

/// Placement of the first group of the first battery.
pub const BATTERY_FORE_DISTRIBUTION: usize = 65;

/// Number of main torpedoes.
pub const TORPEDO_NUM: usize = 78;

/// Number of second torpedoes.
pub const TORPEDO2_NUM: usize = 79;

/// Diameter of the main torpedoes.
pub const TORPEDO_DIAM: usize = 80;

/// Thickness of the main belt.
pub const ARMOR_MAIN_THICK: usize = 81;

/// Length of the main belt.
pub const ARMOR_MAIN_LEN: usize = 82;

/// Height of the main belt.
pub const ARMOR_MAIN_HGT: usize = 83;

/// Thickness of the end belt.
pub const ARMOR_END_THICK: usize = 84;

/// Length of the end belt.
pub const ARMOR_END_LEN: usize = 85;

/// Height of the end belt.
pub const ARMOR_END_HGT: usize = 86;

/// Thickness of the upper belt.
pub const ARMOR_UPPER_THICK: usize = 87;

/// Length of the upper belt.
pub const ARMOR_UPPER_LEN: usize = 88;

/// Height of the upper belt.
pub const ARMOR_UPPER_HGT: usize = 89;

/// Thickness of the torpedo bulkhead.
pub const ARMOR_BULKHEAD_THICK: usize = 90;

/// Length of the torpedo bulkhead.
pub const ARMOR_BULKHEAD_LEN: usize = 91;

/// Height of the torpedo bulkhead.
pub const ARMOR_BULKHEAD_HGT: usize = 92;

/// Armor on the face of the mounts of the first battery. The three
/// thicknesses of each battery stand together, battery after battery.
pub const BATTERY_ARMOR_FACE: usize = 93;

/// Armor on the rest of the mounts of the first battery.
pub const BATTERY_ARMOR_BACK: usize = 94;

/// Armor on the barbettes of the first battery.
pub const BATTERY_ARMOR_BARB: usize = 95;

/// Thickness of the deck over the fore and aft decks.
pub const ARMOR_DECK_MD: usize = 108;

/// Thickness of the forward conning tower.
pub const ARMOR_CT_FWD_THICK: usize = 109;

/// Top speed.
pub const ENGINE_VMAX: usize = 110;

/// Cruising speed.
pub const ENGINE_VCRUISE: usize = 111;

/// Range.
pub const ENGINE_RANGE: usize = 112;

/// Number of shafts.
pub const ENGINE_SHAFTS: usize = 113;

/// Part of the fuel that is coal, in hundredths.
pub const ENGINE_PCT_COAL: usize = 114;

/// Whether the fuel is coal.
pub const FUEL_COAL: usize = 115;

/// Whether the fuel is oil.
pub const FUEL_OIL: usize = 116;

/// Whether the fuel is diesel.
pub const FUEL_DIESEL: usize = 117;

/// Whether the fuel is gasoline.
pub const FUEL_GASOLINE: usize = 118;

/// Whether the fuel is a battery.
pub const FUEL_BATTERY: usize = 119;

/// Whether the engines are simple reciprocating engines.
pub const BOILER_SIMPLE: usize = 120;

/// Whether the engines are complex reciprocating engines.
pub const BOILER_COMPLEX: usize = 121;

/// Whether the engines are turbines.
pub const BOILER_TURBINE: usize = 122;

/// Whether the drive is direct.
pub const DRIVE_DIRECT: usize = 123;

/// Whether the drive is geared.
pub const DRIVE_GEARED: usize = 124;

/// Whether the drive is electric.
pub const DRIVE_ELECTRIC: usize = 125;

/// Whether the drive is hydraulic.
pub const DRIVE_HYDRAULIC: usize = 126;

/// Trim.
pub const TRIM: usize = 127;

/// Beam over the bulges.
pub const HULL_BB: usize = 128;

/// Year of the machinery.
pub const ENGINE_YEAR: usize = 129;

/// Year of the guns of the first battery; those of the others follow.
pub const BATTERY_YEAR: usize = 130;

/// Kind of bow.
pub const HULL_BOW_TYPE: usize = 135;

/// Length of the ram.
pub const RAM_LEN: usize = 136;

/// Units of the second torpedoes.
pub const TORPEDO2_UNITS: usize = 137;

/// Units of the mines.
pub const MINES_UNITS: usize = 138;

/// Units of the main anti-submarine weapons.
pub const ASW_UNITS: usize = 139;

/// Units of the second anti-submarine weapons.
pub const ASW2_UNITS: usize = 140;

/// Length of the guns of the first battery, in calibers; those of the others
/// follow.
pub const BATTERY_LEN: usize = 141;

/// Placement of the second group of the first battery; that of the others
/// follows.
pub const BATTERY_AFT_DISTRIBUTION: usize = 150;

/// Mounts above deck in the second group of the first battery; those of the
/// others follow. Read again further down.
pub const BATTERY_AFT_ABOVE: usize = 155;

/// Whether the raised mounts of the second group of the first battery are
/// double; the others follow.
pub const BATTERY_AFT_TWO_MOUNTS_UP: usize = 160;

/// Mounts on deck in the second group of the first battery; those of the
/// others follow.
pub const BATTERY_AFT_ON: usize = 165;

/// Mounts below deck in the second group of the first battery; those of the
/// others follow. Read again further down.
pub const BATTERY_AFT_BELOW: usize = 170;

/// Whether the mounts below deck of the second group of the first battery are
/// on a lower deck; the others follow.
pub const BATTERY_AFT_LOWER_DECK: usize = 175;

/// Mounts of the main torpedoes.
pub const TORPEDO_MOUNTS: usize = 180;

/// Mounts of the second torpedoes.
pub const TORPEDO2_MOUNTS: usize = 181;

/// Diameter of the second torpedoes.
pub const TORPEDO2_DIAM: usize = 182;

/// Length of the main torpedoes.
pub const TORPEDO_LEN: usize = 183;

/// Length of the second torpedoes.
pub const TORPEDO2_LEN: usize = 184;

/// Kind of mount of the main torpedoes.
pub const TORPEDO_MOUNT_KIND: usize = 185;

/// Kind of mount of the second torpedoes.
pub const TORPEDO2_MOUNT_KIND: usize = 186;

/// Number of mines.
pub const MINES_NUM: usize = 187;

/// Reloads of mines.
pub const MINES_RELOAD: usize = 188;

/// Weight of a mine.
pub const MINES_WGT: usize = 189;

/// How the mines are laid.
pub const MINES_MOUNT_KIND: usize = 190;

/// Number of main anti-submarine weapons.
pub const ASW_NUM: usize = 191;

/// Number of second anti-submarine weapons.
pub const ASW2_NUM: usize = 192;

/// Reloads of the main anti-submarine weapons.
pub const ASW_RELOAD: usize = 193;

/// Reloads of the second anti-submarine weapons.
pub const ASW2_RELOAD: usize = 194;

/// Weight of a main anti-submarine weapon.
pub const ASW_WGT: usize = 195;

/// Weight of a second anti-submarine weapon.
pub const ASW2_WGT: usize = 196;

/// Kind of the main anti-submarine weapons.
pub const ASW_KIND: usize = 197;

/// Kind of the second anti-submarine weapons.
pub const ASW2_KIND: usize = 198;

/// Miscellaneous weight in the hull above water.
pub const WGTS_HULL: usize = 199;

/// Miscellaneous weight on deck.
pub const WGTS_ON: usize = 200;

/// Miscellaneous weight above deck.
pub const WGTS_ABOVE: usize = 201;

/// Incline of the main belt.
pub const ARMOR_INCLINE: usize = 202;

/// Thickness of the bulge.
pub const ARMOR_BULGE_THICK: usize = 203;

/// Length of the bulge.
pub const ARMOR_BULGE_LEN: usize = 204;

/// Height of the bulge.
pub const ARMOR_BULGE_HGT: usize = 205;

/// Kind of torpedo bulkhead: zero for one hung behind the structure, any
/// other number for one that is part of it.
pub const ARMOR_BH_KIND: usize = 206;

/// Beam between the torpedo bulkheads.
pub const ARMOR_BH_BEAM: usize = 207;

/// Thickness of the deck over the forecastle.
pub const ARMOR_DECK_FC: usize = 208;

/// Thickness of the deck over the quarterdeck.
pub const ARMOR_DECK_QD: usize = 209;

/// Kind of armored deck.
pub const ARMOR_DECK_KIND: usize = 210;

/// Thickness of the aft conning tower.
pub const ARMOR_CT_AFT_THICK: usize = 211;

/// Mounts above deck in the first group of the first battery; those of the
/// others follow. This reading stands.
pub const BATTERY_FORE_ABOVE_AGAIN: usize = 212;

/// Mounts below deck in the first group of the first battery; those of the
/// others follow. This reading stands.
pub const BATTERY_FORE_BELOW_AGAIN: usize = 217;

/// Mounts above deck in the second group of the first battery; those of the
/// others follow. This reading stands.
pub const BATTERY_AFT_ABOVE_AGAIN: usize = 222;

/// Mounts below deck in the second group of the first battery; those of the
/// others follow. This reading stands.
pub const BATTERY_AFT_BELOW_AGAIN: usize = 232;

/// Layout of the mounts in the first group of the first battery; that of the
/// others follows.
pub const BATTERY_FORE_LAYOUT: usize = 237;

/// Layout of the mounts in the second group of the first battery; that of the
/// others follows.
pub const BATTERY_AFT_LAYOUT: usize = 242;

/// Miscellaneous weight in voids.
pub const WGTS_VOID: usize = 247;

/// Where the shells to a gun of a battery stand.
pub open spec fn spec_shells_at(battery: int) -> int {
    if battery == 0 {
        BATTERY_SHELLS as int
    } else {
        145 + battery
    }
}

/// Where the shells to a gun of a battery stand.
pub fn shells_at(battery: usize) -> (r: usize)
    requires
        battery < BATTERIES,
    ensures
        r == spec_shells_at(battery as int),
        r < NEEDED,
        spec_kind(r as int) == Kind::Count,
{
    if battery == 0 {
        BATTERY_SHELLS
    } else {
        145 + battery
    }
}

/// What each value of the layout is: the kind of the line on which it
/// stands. Where the values of the batteries follow one another, the kind is
/// that of all five. Five lines after the mounts of the second groups, and
/// all lines from the last value on, are passed over.
pub proof fn law_kinds()
    ensures
        spec_kind(HEADER as int) == Kind::Text,
        spec_kind(NAME as int) == Kind::Text,
        spec_kind(COUNTRY as int) == Kind::Text,
        spec_kind(KIND as int) == Kind::Text,
        spec_kind(HULL_UNITS as int) == Kind::Text,
        forall|b: int| 0 <= b < BATTERIES
            ==> #[trigger] spec_kind(BATTERY_UNITS + b) == Kind::Text,
        spec_kind(TORPEDO_UNITS as int) == Kind::Text,
        spec_kind(ARMOR_UNITS as int) == Kind::Text,
        spec_kind(YEAR as int) == Kind::Count,
        spec_kind(WGTS_VITAL as int) == Kind::Count,
        spec_kind(HULL_LWL as int) == Kind::Number,
        spec_kind(HULL_B as int) == Kind::Number,
        spec_kind(HULL_T as int) == Kind::Number,
        spec_kind(HULL_STERN_TYPE as int) == Kind::Text,
        spec_kind(HULL_CB as int) == Kind::Number,
        spec_kind(HULL_QD_AFT as int) == Kind::Number,
        spec_kind(HULL_STERN_OVERHANG as int) == Kind::Number,
        spec_kind(HULL_QD_LEN as int) == Kind::Percent,
        spec_kind(HULL_QD_FWD as int) == Kind::Number,
        spec_kind(HULL_AD_AFT as int) == Kind::Number,
        spec_kind(HULL_FD_LEN as int) == Kind::Percent,
        spec_kind(HULL_AD_FWD as int) == Kind::Number,
        spec_kind(HULL_FD_AFT as int) == Kind::Number,
        spec_kind(HULL_FC_LEN as int) == Kind::Percent,
        spec_kind(HULL_FD_FWD as int) == Kind::Number,
        spec_kind(HULL_FC_AFT as int) == Kind::Number,
        spec_kind(HULL_FC_FWD as int) == Kind::Number,
        spec_kind(HULL_BOW_ANGLE as int) == Kind::Number,
        forall|b: int| 0 <= b < BATTERIES
            ==> #[trigger] spec_kind(BATTERY_NUM + 6 * b) == Kind::Count,
        forall|b: int| 0 <= b < BATTERIES
            ==> #[trigger] spec_kind(BATTERY_DIAM + 6 * b) == Kind::Number,
        forall|b: int| 0 <= b < BATTERIES
            ==> #[trigger] spec_kind(BATTERY_KIND + 6 * b) == Kind::Text,
        forall|b: int| 0 <= b < BATTERIES
            ==> #[trigger] spec_kind(BATTERY_FORE_ABOVE + 6 * b) == Kind::Count,
        forall|b: int| 0 <= b < BATTERIES
            ==> #[trigger] spec_kind(BATTERY_FORE_BELOW + 6 * b) == Kind::Count,
        forall|b: int| 0 <= b < BATTERIES
            ==> #[trigger] spec_kind(BATTERY_SHELL_WGT + 6 * b) == Kind::Number,
        spec_kind(BATTERY_SHELLS as int) == Kind::Count,
        forall|b: int| 0 <= b < BATTERIES
            ==> #[trigger] spec_kind(BATTERY_MOUNT_NUM + 3 * b) == Kind::Count,
        forall|b: int| 0 <= b < BATTERIES
            ==> #[trigger] spec_kind(BATTERY_MOUNT_KIND + 3 * b) == Kind::Text,
        forall|b: int| 0 <= b < BATTERIES
            ==> #[trigger] spec_kind(BATTERY_FORE_DISTRIBUTION + 3 * b) == Kind::Text,
        spec_kind(TORPEDO_NUM as int) == Kind::Count,
        spec_kind(TORPEDO2_NUM as int) == Kind::Count,
        spec_kind(TORPEDO_DIAM as int) == Kind::Number,
        spec_kind(ARMOR_MAIN_THICK as int) == Kind::Number,
        spec_kind(ARMOR_MAIN_LEN as int) == Kind::Number,
        spec_kind(ARMOR_MAIN_HGT as int) == Kind::Number,
        spec_kind(ARMOR_END_THICK as int) == Kind::Number,
        spec_kind(ARMOR_END_LEN as int) == Kind::Number,
        spec_kind(ARMOR_END_HGT as int) == Kind::Number,
        spec_kind(ARMOR_UPPER_THICK as int) == Kind::Number,
        spec_kind(ARMOR_UPPER_LEN as int) == Kind::Number,
        spec_kind(ARMOR_UPPER_HGT as int) == Kind::Number,
        spec_kind(ARMOR_BULKHEAD_THICK as int) == Kind::Number,
        spec_kind(ARMOR_BULKHEAD_LEN as int) == Kind::Number,
        spec_kind(ARMOR_BULKHEAD_HGT as int) == Kind::Number,
        forall|b: int| 0 <= b < BATTERIES
            ==> #[trigger] spec_kind(BATTERY_ARMOR_FACE + 3 * b) == Kind::Number,
        forall|b: int| 0 <= b < BATTERIES
            ==> #[trigger] spec_kind(BATTERY_ARMOR_BACK + 3 * b) == Kind::Number,
        forall|b: int| 0 <= b < BATTERIES
            ==> #[trigger] spec_kind(BATTERY_ARMOR_BARB + 3 * b) == Kind::Number,
        spec_kind(ARMOR_DECK_MD as int) == Kind::Number,
        spec_kind(ARMOR_CT_FWD_THICK as int) == Kind::Number,
        spec_kind(ENGINE_VMAX as int) == Kind::Number,
        spec_kind(ENGINE_VCRUISE as int) == Kind::Number,
        spec_kind(ENGINE_RANGE as int) == Kind::Count,
        spec_kind(ENGINE_SHAFTS as int) == Kind::Count,
        spec_kind(ENGINE_PCT_COAL as int) == Kind::Percent,
        spec_kind(FUEL_COAL as int) == Kind::Flag,
        spec_kind(FUEL_OIL as int) == Kind::Flag,
        spec_kind(FUEL_DIESEL as int) == Kind::Flag,
        spec_kind(FUEL_GASOLINE as int) == Kind::Flag,
        spec_kind(FUEL_BATTERY as int) == Kind::Flag,
        spec_kind(BOILER_SIMPLE as int) == Kind::Flag,
        spec_kind(BOILER_COMPLEX as int) == Kind::Flag,
        spec_kind(BOILER_TURBINE as int) == Kind::Flag,
        spec_kind(DRIVE_DIRECT as int) == Kind::Flag,
        spec_kind(DRIVE_GEARED as int) == Kind::Flag,
        spec_kind(DRIVE_ELECTRIC as int) == Kind::Flag,
        spec_kind(DRIVE_HYDRAULIC as int) == Kind::Flag,
        spec_kind(TRIM as int) == Kind::Byte,
        spec_kind(HULL_BB as int) == Kind::Number,
        spec_kind(ENGINE_YEAR as int) == Kind::Count,
        forall|b: int| 0 <= b < BATTERIES
            ==> #[trigger] spec_kind(BATTERY_YEAR + b) == Kind::Count,
        spec_kind(HULL_BOW_TYPE as int) == Kind::Text,
        spec_kind(RAM_LEN as int) == Kind::Number,
        spec_kind(TORPEDO2_UNITS as int) == Kind::Text,
        spec_kind(MINES_UNITS as int) == Kind::Text,
        spec_kind(ASW_UNITS as int) == Kind::Text,
        spec_kind(ASW2_UNITS as int) == Kind::Text,
        forall|b: int| 0 <= b < BATTERIES
            ==> #[trigger] spec_kind(BATTERY_LEN + b) == Kind::Number,
        forall|b: int| 0 <= b < BATTERIES
            ==> #[trigger] spec_kind(BATTERY_AFT_DISTRIBUTION + b) == Kind::Text,
        forall|b: int| 0 <= b < BATTERIES
            ==> #[trigger] spec_kind(BATTERY_AFT_ABOVE + b) == Kind::Count,
        forall|b: int| 0 <= b < BATTERIES
            ==> #[trigger] spec_kind(BATTERY_AFT_TWO_MOUNTS_UP + b) == Kind::Flag,
        forall|b: int| 0 <= b < BATTERIES
            ==> #[trigger] spec_kind(BATTERY_AFT_ON + b) == Kind::Count,
        forall|b: int| 0 <= b < BATTERIES
            ==> #[trigger] spec_kind(BATTERY_AFT_BELOW + b) == Kind::Count,
        forall|b: int| 0 <= b < BATTERIES
            ==> #[trigger] spec_kind(BATTERY_AFT_LOWER_DECK + b) == Kind::Flag,
        spec_kind(TORPEDO_MOUNTS as int) == Kind::Count,
        spec_kind(TORPEDO2_MOUNTS as int) == Kind::Count,
        spec_kind(TORPEDO2_DIAM as int) == Kind::Number,
        spec_kind(TORPEDO_LEN as int) == Kind::Number,
        spec_kind(TORPEDO2_LEN as int) == Kind::Number,
        spec_kind(TORPEDO_MOUNT_KIND as int) == Kind::Text,
        spec_kind(TORPEDO2_MOUNT_KIND as int) == Kind::Text,
        spec_kind(MINES_NUM as int) == Kind::Count,
        spec_kind(MINES_RELOAD as int) == Kind::Count,
        spec_kind(MINES_WGT as int) == Kind::Number,
        spec_kind(MINES_MOUNT_KIND as int) == Kind::Text,
        spec_kind(ASW_NUM as int) == Kind::Count,
        spec_kind(ASW2_NUM as int) == Kind::Count,
        spec_kind(ASW_RELOAD as int) == Kind::Count,
        spec_kind(ASW2_RELOAD as int) == Kind::Count,
        spec_kind(ASW_WGT as int) == Kind::Number,
        spec_kind(ASW2_WGT as int) == Kind::Number,
        spec_kind(ASW_KIND as int) == Kind::Text,
        spec_kind(ASW2_KIND as int) == Kind::Text,
        spec_kind(WGTS_HULL as int) == Kind::Count,
        spec_kind(WGTS_ON as int) == Kind::Count,
        spec_kind(WGTS_ABOVE as int) == Kind::Count,
        spec_kind(ARMOR_INCLINE as int) == Kind::Number,
        spec_kind(ARMOR_BULGE_THICK as int) == Kind::Number,
        spec_kind(ARMOR_BULGE_LEN as int) == Kind::Number,
        spec_kind(ARMOR_BULGE_HGT as int) == Kind::Number,
        spec_kind(ARMOR_BH_KIND as int) == Kind::Count,
        spec_kind(ARMOR_BH_BEAM as int) == Kind::Number,
        spec_kind(ARMOR_DECK_FC as int) == Kind::Number,
        spec_kind(ARMOR_DECK_QD as int) == Kind::Number,
        spec_kind(ARMOR_DECK_KIND as int) == Kind::Text,
        spec_kind(ARMOR_CT_AFT_THICK as int) == Kind::Number,
        forall|b: int| 0 <= b < BATTERIES
            ==> #[trigger] spec_kind(BATTERY_FORE_ABOVE_AGAIN + b) == Kind::Count,
        forall|b: int| 0 <= b < BATTERIES
            ==> #[trigger] spec_kind(BATTERY_FORE_BELOW_AGAIN + b) == Kind::Count,
        forall|b: int| 0 <= b < BATTERIES
            ==> #[trigger] spec_kind(BATTERY_AFT_ABOVE_AGAIN + b) == Kind::Count,
        forall|b: int| 0 <= b < BATTERIES
            ==> #[trigger] spec_kind(BATTERY_AFT_BELOW_AGAIN + b) == Kind::Count,
        forall|b: int| 0 <= b < BATTERIES
            ==> #[trigger] spec_kind(BATTERY_FORE_LAYOUT + b) == Kind::Text,
        forall|b: int| 0 <= b < BATTERIES
            ==> #[trigger] spec_kind(BATTERY_AFT_LAYOUT + b) == Kind::Text,
        spec_kind(WGTS_VOID as int) == Kind::Count,
        forall|b: int| 0 <= b < BATTERIES
            ==> #[trigger] spec_kind(spec_shells_at(b)) == Kind::Count,
        forall|at: int| 227 <= at < 232 ==> #[trigger] spec_kind(at) == Kind::Skip,
        forall|at: int| NEEDED <= at ==> #[trigger] spec_kind(at) == Kind::Skip,
{
}

} // verus!
