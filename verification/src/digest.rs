//! The digest of the allocation proof carried by the finalization event.

use vstd::prelude::*;

verus! {

/// The 32-byte SHA-256 digest of a byte string, a function of the bytes
/// alone. The engine never states what the digest is on given bytes; it only
/// records it in the finalization event for external audit.
pub uninterp spec fn digest_of(data: Seq<u8>) -> Seq<u8>;

/// Relies on solana_program::hash::hash: the 32-byte SHA-256 digest of the
/// given bytes, a pure function of the bytes alone.
#[verifier::external_body]
pub(crate) fn proof_digest(data: &Vec<u8>) -> (r: [u8; 32])
    ensures
        r@ == digest_of(data@),
{
    solana_program::hash::hash(data.as_slice()).to_bytes()
}

} // verus!
