//! Encoded packets.
//!
//! A packet is one compressed access unit, as the codec wrote it. This
//! library hands its bytes on unread. An H.264 byte stream in Annex-B form
//! begins every unit with a start code, which is all that is told of a
//! packet here.

use vstd::prelude::*;

verus! {

/// The bytes begin with an Annex-B start code: `00 00 00 01` or `00 00 01`.
pub open spec fn has_start_code(bytes: Seq<u8>) -> bool {
    ||| bytes.len() >= 4 && bytes[0] == 0 && bytes[1] == 0 && bytes[2] == 0 && bytes[3] == 1
    ||| bytes.len() >= 3 && bytes[0] == 0 && bytes[1] == 0 && bytes[2] == 1
}

/// Tells whether a packet begins with an Annex-B start code.
pub fn starts_with_start_code(packet: &[u8]) -> (b: bool)
    ensures
        b == has_start_code(packet@),
{
    let n: usize = packet.len();
    if n >= 3 && packet[0] == 0 && packet[1] == 0 {
        packet[2] == 1 || (n >= 4 && packet[2] == 0 && packet[3] == 1)
    } else {
        false
    }
}

} // verus!
