//! The 32-bit integrity checksum of the chunk format.
//!
//! Every chunk carries a CRC-32 (ISO-HDLC polynomial) computed over its
//! type tag followed by its payload bytes. The checksum itself comes from
//! the `crc` crate; its value is named by [`crc32_of`] and every contract
//! of this library speaks of that name.

use vstd::prelude::*;

verus! {

/// The CRC-32 (ISO-HDLC) checksum of a byte sequence. The value is a pure
/// function of the bytes; no contract of this crate states what it is on
/// given bytes.
pub uninterp spec fn crc32_of(bytes: Seq<u8>) -> u32;

/// Relies on `crc::Crc::<u32>::checksum` with the `CRC_32_ISO_HDLC`
/// algorithm: a table-driven CRC whose result depends on the input bytes
/// alone.
#[verifier::external_body]
pub(crate) fn crc32_checksum(bytes: &Vec<u8>) -> (r: u32)
    ensures
        r == crc32_of(bytes@),
{
    crc::Crc::<u32>::new(&crc::CRC_32_ISO_HDLC).checksum(bytes.as_slice())
}

} // verus!
