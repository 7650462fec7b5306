//! A worksheet for the design of steel warships of the age before missiles.
//!
//! From the figures of hull, armor, machinery and weapons the [`ship::Ship`]
//! draws those of the whole: displacement, room, stability, seakeeping,
//! strength, survivability, cost and crew, and the warnings that they give.
//! A bad design is not refused: it is described, with its failures.
//!
//! All numbers are [`num::Num`]: decimals of six places, exact in sums and
//! cut in products, quotients and roots, with an undefined number for what
//! does not exist: a quotient by zero, the root of a negative number, and
//! whatever leaves the range. The figures that are drawn in
//! [`displacement`], [`room`], [`stability`], [`strength`] and [`survival`]
//! are each stated as the formula that they are, over these numbers; what
//! [`warnings`] and [`kind`] say of a ship is stated over the figures. [`laws`] holds what is proved of them
//! whatever the ship, and [`wording`] what is proved of the lines of her
//! report.
//!
//! The parts hold, beside what the formulas read, the figures and words
//! that only the report shows. [`report`] writes all of it on paper, each
//! length, weight and power with its metric equivalent by [`measure`].
//! [`persist`] puts the saved document together.
//! [`import`] reads files in the older positional format by the [`layout`]
//! of their lines, each value with [`parse`], and [`placing`] puts what was
//! read into a ship.

use vstd::prelude::*;

pub mod advice;
pub mod armor;
pub mod displacement;
pub mod engine;
pub mod hull;
pub mod import;
pub mod kind;
pub mod laws;
pub mod layout;
pub mod measure;
pub mod num;
pub mod parse;
pub mod persist;
pub mod placing;
pub mod render;
pub mod report;
pub mod room;
pub mod sea;
pub mod ship;
pub mod stability;
pub mod strength;
pub mod survival;
pub mod text;
pub mod warnings;
pub mod weapons;
pub mod weights;
pub mod wording;

verus! {

/// The plural ending of a counted noun: `s` unless the count is one.
pub open spec fn spec_plural(num: u32) -> Seq<char> {
    if num == 1 {
        ""@
    } else {
        "s"@
    }
}

/// The plural ending of a counted noun: `s` unless the count is one.
pub fn plural(num: u32) -> (s: String)
    ensures
        s@ == spec_plural(num),
{
    if num == 1 {
        "".to_owned()
    } else {
        "s".to_owned()
    }
}

} // verus!
