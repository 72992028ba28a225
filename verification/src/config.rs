//! Process constants of the gateway.

use vstd::prelude::*;

verus! {

/// Vendor tag carried in the second field of every frame.
pub const VENDOR: &'static str = "LZ";

/// Operator identity stamped into unlock and lock requests.
pub const USER_ID: u32 = 1234;

/// Seconds for which a key issued by the scooter stays valid.
pub const KEY_DURATION: u8 = 20;

/// The vendor tag as a sequence of characters.
pub open spec fn vendor_tag() -> Seq<char> {
    seq!['L', 'Z']
}

/// Hands out [`VENDOR`] together with the fact that it spells [`vendor_tag`].
pub fn vendor() -> (tag: &'static str)
    ensures
        tag@ == vendor_tag(),
{
    proof {
        reveal_strlit("LZ");
    }
    VENDOR
}

} // verus!
