//! The checksum by which modules are told apart.

use vstd::prelude::*;

verus! {

/// The CRC-32 (IEEE) checksum of a sequence of bytes, as the `crc32fast`
/// crate computes it.
pub uninterp spec fn crc32(bytes: Seq<u8>) -> u32;

/// `crc32fast::hash` computes the CRC-32 checksum of a byte slice. The
/// result depends on the bytes alone. Not proved.
#[verifier::external_body]
pub(crate) fn crc32_of(bytes: &[u8]) -> (sum: u32)
    ensures
        sum == crc32(bytes@),
{
    crc32fast::hash(bytes)
}

} // verus!
