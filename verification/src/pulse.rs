//! The pulse payload: the single byte that a run writes to the opened port.

use vstd::prelude::*;

verus! {

/// The byte value that triggers the TTL pulse: all bits set.
pub const PULSE_BYTE: u8 = 0xFF;

/// The payload of one pulse, as a sequence of bytes.
pub open spec fn pulse_payload_spec() -> Seq<u8> {
    seq![0xFFu8]
}

/// The exact bytes a run writes: one byte, value 0xFF. The sender hands
/// this whole vector to a single write call, so no further byte can follow.
pub fn pulse_payload() -> (r: Vec<u8>)
    ensures
        r@ == pulse_payload_spec(),
        r@.len() == 1,
        r@[0] == 0xFF,
{
    let mut v: Vec<u8> = Vec::new();
    v.push(PULSE_BYTE);
    proof {
        assert(v@ =~= pulse_payload_spec());
    }
    v
}

} // verus!
