//! Decoding and encoding of the persisted tip height.
//!
//! The tip height is stored as four little-endian bytes under the reserved
//! tip-height key. An absent or empty record means the store has never
//! committed a height, and a configured start height is used instead. A
//! present record of any other length than four is store corruption; such an
//! input is excluded by precondition and the caller fails loudly before the
//! call.

use vstd::prelude::*;
use vstd::bytes::{spec_u32_from_le_bytes, spec_u32_to_le_bytes, u32_from_le_bytes, u32_to_le_bytes, lemma_auto_spec_u32_to_from_le_bytes};

verus! {

/// A stored tip record is well formed when it is absent, empty, or exactly
/// four bytes long.
pub open spec fn tip_value_wf(v: Option<Seq<u8>>) -> bool {
    match v {
        None => true,
        Some(b) => b.len() == 0 || b.len() == 4,
    }
}

/// The height a well-formed stored tip record decodes to: the default when
/// the record is absent or empty, else the little-endian value of its four
/// bytes.
pub open spec fn decoded_tip(v: Option<Seq<u8>>, default: u32) -> u32 {
    match v {
        None => default,
        Some(b) => if b.len() == 4 {
            spec_u32_from_le_bytes(b)
        } else {
            default
        },
    }
}

/// Decodes a tip record read from the store, falling back to `default` when
/// the record is absent or empty.
pub fn tip_height_from_bytes(bytes: &Option<Vec<u8>>, default: u32) -> (r: u32)
    requires
        tip_value_wf(opt_bytes_view(*bytes)),
    ensures
        r == decoded_tip(opt_bytes_view(*bytes), default),
{
    match bytes {
        None => default,
        Some(b) => {
            if b.len() == 0 {
                default
            } else {
                u32_from_le_bytes(b.as_slice())
            }
        }
    }
}

/// The view of an optional byte vector.
pub open spec fn opt_bytes_view(v: Option<Vec<u8>>) -> Option<Seq<u8>> {
    match v {
        Some(b) => Some(b@),
        None => None,
    }
}

/// Law (tip record round trip): an encoded height is a well-formed tip
/// record, and reading it back decodes to that height whatever default the
/// reader supplies — so the tip a commit persists is exactly the tip the
/// next run resumes from.
pub proof fn lemma_tip_round_trip(height: u32, default: u32)
    ensures
        tip_value_wf(Some(spec_u32_to_le_bytes(height))),
        decoded_tip(Some(spec_u32_to_le_bytes(height)), default) == height,
{
    lemma_auto_spec_u32_to_from_le_bytes();
}

/// Encodes a height as the four little-endian bytes the store holds.
pub fn tip_height_to_bytes(height: u32) -> (r: Vec<u8>)
    ensures
        r@ == spec_u32_to_le_bytes(height),
        r@.len() == 4,
        decoded_tip(Some(r@), 0) == height,
{
    let r = u32_to_le_bytes(height);
    proof {
        lemma_auto_spec_u32_to_from_le_bytes();
    }
    r
}

} // verus!
