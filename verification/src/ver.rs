//! The eNet protocol version tag.

use crate::text::str_eq;
use vstd::prelude::*;

verus! {

/// The protocol version carried in every envelope. The core speaks `0.03`;
/// anything else is carried verbatim.
#[derive(Debug, Clone, PartialEq, Eq)]
pub enum ProtocolVersion {
    ZeroZeroThree,
    Unknown(String),
}

impl ProtocolVersion {
    /// The version's wire text.
    pub open spec fn chars(self) -> Seq<char> {
        match self {
            ProtocolVersion::ZeroZeroThree => "0.03"@,
            ProtocolVersion::Unknown(s) => s@,
        }
    }

    /// Parse a version string: `"0.03"` is the known version, all else is
    /// kept verbatim.
    pub fn from_str(s: &str) -> (r: ProtocolVersion)
        ensures
            match r {
                ProtocolVersion::ZeroZeroThree => s@ == "0.03"@,
                ProtocolVersion::Unknown(v) => s@ != "0.03"@ && v@ == s@,
            },
    {
        if str_eq(s, "0.03") {
            ProtocolVersion::ZeroZeroThree
        } else {
            ProtocolVersion::Unknown(s.to_owned())
        }
    }

    /// The version's wire text as an owned string.
    pub fn to_str(&self) -> (r: String)
        ensures
            r@ == self.chars(),
    {
        match self {
            ProtocolVersion::ZeroZeroThree => "0.03".to_owned(),
            ProtocolVersion::Unknown(s) => s.as_str().to_owned(),
        }
    }
}

} // verus!
