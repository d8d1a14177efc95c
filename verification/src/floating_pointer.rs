//! The MP Floating Pointer Structure: a 16-byte record placed by the
//! firmware in low physical memory, locating the configuration table.

use vstd::bytes::{spec_u32_from_le_bytes, spec_u32_to_le_bytes};
use vstd::prelude::*;

use crate::wire::{sum16, u32_to_le_bytes};

verus! {

/// Number of bytes the floating pointer structure occupies.
pub const FLOATING_POINTER_LENGTH: usize = 16;

/// The signature that should match MPFloatingPointer's signature field.
/// The value is the ASCII representation of "_MP_" (excluding quotes).
pub const MPFLOATINGPOINTER_SIGNATURE: [u8; 4] = [95u8, 77u8, 80u8, 95u8];

/// The four signature bytes "_MP_" as a sequence.
pub open spec fn floating_pointer_signature() -> Seq<u8> {
    seq![95u8, 77u8, 80u8, 95u8]
}

/// The MP Floating Pointer Structure.
#[derive(Clone, Copy, Debug)]
pub struct MPFloatingPointer {
    pub signature: u32,
    pub physical_address_pointer: u32,
    pub length: u8,
    pub spec_rev: u8,
    pub checksum: u8,
    pub mp_feature_info_bytes: [u8; 5],
}

/// Holds iff `fp` is the decoding of the first 16 bytes of `data`:
/// every field equals the corresponding bytes, multi-byte fields read
/// in little-endian order.
pub open spec fn floating_pointer_decodes(fp: MPFloatingPointer, data: Seq<u8>) -> bool
    recommends
        data.len() >= 16,
{
    &&& fp.signature == spec_u32_from_le_bytes(data.subrange(0, 4))
    &&& fp.physical_address_pointer == spec_u32_from_le_bytes(data.subrange(4, 8))
    &&& fp.length == data[8]
    &&& fp.spec_rev == data[9]
    &&& fp.checksum == data[10]
    &&& fp.mp_feature_info_bytes@ == data.subrange(11, 16)
}

impl MPFloatingPointer {
    /// The structure's own 16 bytes, re-serialized in field order.
    pub open spec fn spec_bytes(self) -> Seq<u8> {
        spec_u32_to_le_bytes(self.signature) + spec_u32_to_le_bytes(self.physical_address_pointer)
            + seq![self.length, self.spec_rev, self.checksum] + self.mp_feature_info_bytes@
    }

    /// The sum, over the mathematical integers, of the structure's 16 bytes.
    pub open spec fn spec_byte_sum(self) -> int {
        sum16(self.spec_bytes())
    }

    /// The checksum rule this decoder implements. The MP specification asks
    /// for the full byte sum to be zero modulo 256; this decoder deliberately
    /// keeps the weaker historical test that only requires the low four bits
    /// of the sum to be zero, so some tables an exact check would reject are
    /// reported as valid.
    pub open spec fn spec_checksum_ok(self) -> bool {
        self.spec_byte_sum() % 16 == 0
    }

    /// True iff the signature field's little-endian bytes read "_MP_".
    pub open spec fn spec_signature_ok(self) -> bool {
        spec_u32_to_le_bytes(self.signature) == floating_pointer_signature()
    }

    pub open spec fn spec_valid(self) -> bool {
        self.spec_checksum_ok() && self.spec_signature_ok()
    }

    /// Decode a floating pointer from the start of `data`; reports `None`
    /// iff the buffer is too short to hold the 16-byte structure.
    pub fn from_bytes(data: &[u8]) -> (r: Option<MPFloatingPointer>)
        ensures
            (match r {
                Some(fp) => data@.len() >= 16 && floating_pointer_decodes(fp, data@),
                None => data@.len() < 16,
            }),
    {
        if data.len() < FLOATING_POINTER_LENGTH {
            return None;
        }
        let fp = MPFloatingPointer {
            signature: vstd::bytes::u32_from_le_bytes(&data[0..4]),
            physical_address_pointer: vstd::bytes::u32_from_le_bytes(&data[4..8]),
            length: data[8],
            spec_rev: data[9],
            checksum: data[10],
            mp_feature_info_bytes: [data[11], data[12], data[13], data[14], data[15]],
        };
        proof {
            assert(fp.mp_feature_info_bytes@ =~= data@.subrange(11, 16));
        }
        Some(fp)
    }

    /// Sum the structure's 16 bytes and test the low nibble of the sum,
    /// reproducing the weak historical checksum rule (see `spec_checksum_ok`).
    pub fn verify_checksum(&self) -> (r: bool)
        ensures
            r == self.spec_checksum_ok(),
    {
        let sig = u32_to_le_bytes(self.signature);
        let ptr = u32_to_le_bytes(self.physical_address_pointer);

        let mut checksum: u32 = 0;
        checksum += sig[0] as u32 + sig[1] as u32 + sig[2] as u32 + sig[3] as u32;
        checksum += ptr[0] as u32 + ptr[1] as u32 + ptr[2] as u32 + ptr[3] as u32;
        checksum += self.length as u32;
        checksum += self.spec_rev as u32;
        checksum += self.checksum as u32;
        checksum += self.mp_feature_info_bytes[0] as u32 + self.mp_feature_info_bytes[1] as u32
            + self.mp_feature_info_bytes[2] as u32 + self.mp_feature_info_bytes[3] as u32
            + self.mp_feature_info_bytes[4] as u32;

        proof {
            assert(checksum == self.spec_byte_sum());
            assert(checksum & 0x0f == checksum % 16) by (bit_vector);
        }
        (checksum & 0x0f) == 0
    }

    /// True iff the signature field's little-endian bytes read "_MP_".
    pub fn verify_signature(&self) -> (r: bool)
        ensures
            r == self.spec_signature_ok(),
    {
        let ascii = u32_to_le_bytes(self.signature);
        let r = ascii[0] == 95 && ascii[1] == 77 && ascii[2] == 80 && ascii[3] == 95;
        proof {
            if r {
                assert(spec_u32_to_le_bytes(self.signature) =~= floating_pointer_signature());
            }
        }
        r
    }

    /// True iff both the checksum rule and the signature test pass.
    pub fn is_valid(&self) -> (r: bool)
        ensures
            r == self.spec_valid(),
    {
        self.verify_checksum() && self.verify_signature()
    }
}

/// A buffer whose first four bytes read "_MP_" and whose first 16 bytes
/// sum to zero modulo 16 decodes to a floating pointer that reports valid.
pub proof fn lemma_valid_buffer_decodes_valid(fp: MPFloatingPointer, data: Seq<u8>)
    requires
        data.len() >= 16,
        floating_pointer_decodes(fp, data),
        data.subrange(0, 4) == floating_pointer_signature(),
        sum16(data) % 16 == 0,
    ensures
        fp.spec_valid(),
{
    vstd::bytes::lemma_auto_spec_u32_to_from_le_bytes();
    assert(spec_u32_to_le_bytes(fp.signature) == data.subrange(0, 4));
    assert(spec_u32_to_le_bytes(fp.physical_address_pointer) == data.subrange(4, 8));
    assert(fp.spec_bytes() =~= data.subrange(0, 16));
    assert(sum16(data.subrange(0, 16)) == sum16(data));
}

/// Any single signature byte that differs from "_MP_" makes the decoded
/// structure fail the signature test.
pub proof fn lemma_signature_byte_flip(fp: MPFloatingPointer, data: Seq<u8>, i: int)
    requires
        data.len() >= 16,
        floating_pointer_decodes(fp, data),
        0 <= i < 4,
        data[i] != floating_pointer_signature()[i],
    ensures
        !fp.spec_signature_ok(),
{
    vstd::bytes::lemma_auto_spec_u32_to_from_le_bytes();
    assert(spec_u32_to_le_bytes(fp.signature) == data.subrange(0, 4));
    assert(data.subrange(0, 4)[i] == data[i]);
}

} // verus!
