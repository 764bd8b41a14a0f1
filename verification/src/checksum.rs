//! The checksum of a frame.
use vstd::prelude::*;

verus! {

/// The CRC-16/KERMIT checksum of `data`.
pub uninterp spec fn crc16_kermit(data: Seq<u8>) -> u16;

/// `crc::Crc::checksum` with the catalogue's CRC-16/KERMIT algorithm: the
/// checksum of `bytes`.
#[verifier::external_body]
pub(crate) fn kermit_checksum(bytes: &[u8]) -> (r: u16)
    ensures
        r == crc16_kermit(bytes@),
{
    crc::Crc::<u16>::new(&crc::CRC_16_KERMIT).checksum(bytes)
}

} // verus!
