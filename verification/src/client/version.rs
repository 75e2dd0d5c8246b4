use vstd::prelude::*;

use crate::codec::string::str_equal;

verus! {

/// The protocol version of a Minecraft version; an unknown version gets that of 1.21.11.
pub open spec fn spec_protocol_from_version(version: Seq<char>) -> i32 {
    if version == "1.21.11"@ {
        774
    } else if version == "1.21.10"@ {
        773
    } else if version == "1.21.9"@ {
        772
    } else if version == "1.21.8"@ {
        771
    } else {
        774
    }
}

/// The protocol version of a Minecraft version; an unknown version gets that of 1.21.11.
pub fn get_protocol_from_version(version: &str) -> (res: i32)
    ensures
        res == spec_protocol_from_version(version@),
{
    if str_equal(version, "1.21.11") {
        774
    } else if str_equal(version, "1.21.10") {
        773
    } else if str_equal(version, "1.21.9") {
        772
    } else if str_equal(version, "1.21.8") {
        771
    } else {
        774
    }
}

} // verus!
