//! Little-endian serialization helpers shared by the table decoders.

use vstd::prelude::*;

verus! {

/// Sum, as a mathematical integer, of the first 16 bytes of a sequence.
/// This is the quantity that the floating pointer checksum rule inspects.
pub open spec fn sum16(s: Seq<u8>) -> int
    recommends
        s.len() >= 16,
{
    s[0] + s[1] + s[2] + s[3] + s[4] + s[5] + s[6] + s[7] + s[8] + s[9] + s[10] + s[11] + s[12]
        + s[13] + s[14] + s[15]
}

/// Relies on `byteorder::LittleEndian::write_u32`, which stores the
/// integer's four bytes into the buffer in little-endian order
/// (least significant byte first).
#[verifier::external_body]
pub(crate) fn u32_to_le_bytes(v: u32) -> (r: [u8; 4])
    ensures
        r@ == vstd::bytes::spec_u32_to_le_bytes(v),
{
    let mut buf = [0u8; 4];
    <byteorder::LittleEndian as byteorder::ByteOrder>::write_u32(&mut buf, v);
    buf
}

} // verus!
