//! The tags of the container format itself, as the raw values of their codes.

use crate::fourcc::Fourcc;
use vstd::prelude::*;

verus! {

/// `RIFF`, the magic of the outer header.
pub const RIFF: u32 = 0x4646_4952;

/// `LIST`, the tag that opens a group node.
pub const LIST: u32 = 0x5453_494c;

/// The two constants are the codes of the ASCII bytes that they are named after.
pub proof fn lemma_container_tags()
    ensures
        Fourcc(RIFF).spec_bytes() == seq![0x52u8, 0x49u8, 0x46u8, 0x46u8],
        Fourcc(LIST).spec_bytes() == seq![0x4cu8, 0x49u8, 0x53u8, 0x54u8],
{
}

} // verus!
