//! The saved document: a version record, then the ship record, each on a
//! line of its own. The records themselves are written and read by the
//! caller; here the document is put together and the version tested.

use vstd::prelude::*;
use crate::text::{decimal, spec_decimal};

verus! {

/// File extension of saved ships.
pub const SHIP_FILE_EXT: &'static str = "ship";

/// File extension of ships in the older positional format.
pub const SS_SHIP_FILE_EXT: &'static str = "sship";

/// The version of the saved document that is written, and the only one that
/// is read.
pub const SHIP_FILE_VERSION: u32 = 1;

/// Why a saved document is not loaded.
#[derive(Debug)]
pub enum LoadError {
    /// A record could not be decoded; the decoder's words.
    ParseError(String),
    /// The version record holds this version, which is not read.
    IncompatibleVersion(u32),
}

impl LoadError {
    pub open spec fn spec_message(&self) -> Seq<char> {
        match self {
            LoadError::ParseError(words) => words@,
            LoadError::IncompatibleVersion(version) => "Cannot open ship files of this version: "@
                + spec_decimal(*version as nat) + "!"@,
        }
    }

    /// The error in words; an incompatible version is named.
    pub fn message(&self) -> (r: String)
        ensures
            r@ == self.spec_message(),
    {
        match self {
            LoadError::ParseError(words) => words.clone(),
            LoadError::IncompatibleVersion(version) => {
                let mut out = "Cannot open ship files of this version: ".to_owned();
                let number = decimal(*version as u64);
                out.append(number.as_str());
                out.append("!");
                out
            },
        }
    }
}

/// Admits the version that a document's version record holds: the one
/// version that is read, and no other.
pub fn check_version(version: u32) -> (r: Result<(), LoadError>)
    ensures
        version == SHIP_FILE_VERSION ==> r is Ok,
        version != SHIP_FILE_VERSION ==> r == Err::<(), LoadError>(
            LoadError::IncompatibleVersion(version),
        ),
{
    if version == SHIP_FILE_VERSION {
        Ok(())
    } else {
        Err(LoadError::IncompatibleVersion(version))
    }
}

/// The document of two records as it is saved.
pub open spec fn spec_frame(version_record: Seq<char>, ship_record: Seq<char>) -> Seq<char> {
    version_record + "\n"@ + ship_record + "\n"@
}

/// The document to save: the version record, then the ship record, each
/// ended by a line feed.
pub fn frame(version_record: &str, ship_record: &str) -> (r: String)
    ensures
        r@ == spec_frame(version_record@, ship_record@),
{
    let mut out = version_record.to_owned();
    out.append("\n");
    out.append(ship_record);
    out.append("\n");
    out
}

} // verus!
