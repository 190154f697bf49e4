//! The control flags in the header of a request.

use vstd::prelude::*;

verus! {

/// Marks a message as a request to the kernel.
pub const NLM_F_REQUEST: u16 = 1;

/// Obliges the kernel to answer the request, at least with an acknowledgment.
pub const NLM_F_ACK: u16 = 4;

/// Lets the request fail rather than pass over a target that is not in the
/// state the request expects.
pub const NLM_F_EXCL: u16 = 512;

/// Whether every bit of `flag` is set in `flags`.
pub open spec fn has_flag(flags: u16, flag: u16) -> bool {
    flags & flag == flag
}

/// The flags of a deletion request: a request that asks for an acknowledgment,
/// and with exclusive semantics where `exclusive` holds.
pub open spec fn deletion_flags(exclusive: bool) -> u16 {
    if exclusive {
        NLM_F_REQUEST | NLM_F_ACK | NLM_F_EXCL
    } else {
        NLM_F_REQUEST | NLM_F_ACK
    }
}

/// Computes [`deletion_flags`]. The result always has the request and the
/// acknowledgment bit, has the exclusive bit exactly where `exclusive` holds,
/// and has no other bit.
pub fn request_flags(exclusive: bool) -> (flags: u16)
    ensures
        flags == deletion_flags(exclusive),
        has_flag(flags, NLM_F_REQUEST),
        has_flag(flags, NLM_F_ACK),
        has_flag(flags, NLM_F_EXCL) == exclusive,
        flags & !(NLM_F_REQUEST | NLM_F_ACK | NLM_F_EXCL) == 0,
{
    proof {
        lemma_deletion_flags(exclusive);
    }
    if exclusive {
        NLM_F_REQUEST | NLM_F_ACK | NLM_F_EXCL
    } else {
        NLM_F_REQUEST | NLM_F_ACK
    }
}

/// Every deletion request carries the request and the acknowledgment bit; it
/// carries the exclusive bit if and only if it has exclusive semantics; and it
/// carries nothing else.
pub proof fn lemma_deletion_flags(exclusive: bool)
    ensures
        has_flag(deletion_flags(exclusive), NLM_F_REQUEST),
        has_flag(deletion_flags(exclusive), NLM_F_ACK),
        has_flag(deletion_flags(exclusive), NLM_F_EXCL) == exclusive,
        deletion_flags(exclusive) & !(NLM_F_REQUEST | NLM_F_ACK | NLM_F_EXCL) == 0,
        deletion_flags(exclusive) == if exclusive { 0x205u16 } else { 0x5u16 },
{
    assert({
        &&& (1u16 | 4u16) == 0x5u16
        &&& (1u16 | 4u16) & 1u16 == 1u16
        &&& (1u16 | 4u16) & 4u16 == 4u16
        &&& (1u16 | 4u16) & 512u16 != 512u16
        &&& (1u16 | 4u16) & !(1u16 | 4u16 | 512u16) == 0u16
    }) by (bit_vector);
    assert({
        &&& (1u16 | 4u16 | 512u16) == 0x205u16
        &&& (1u16 | 4u16 | 512u16) & 1u16 == 1u16
        &&& (1u16 | 4u16 | 512u16) & 4u16 == 4u16
        &&& (1u16 | 4u16 | 512u16) & 512u16 == 512u16
        &&& (1u16 | 4u16 | 512u16) & !(1u16 | 4u16 | 512u16) == 0u16
    }) by (bit_vector);
}

} // verus!
