//! The MP Configuration Table's 44-byte header, which announces the entry
//! stream that follows it in memory.

use vstd::bytes::{spec_u16_from_le_bytes, spec_u32_from_le_bytes, spec_u32_to_le_bytes};
use vstd::prelude::*;

use crate::stream::EntryIterator;
use crate::wire::u32_to_le_bytes;

verus! {

/// Number of bytes the configuration table header occupies; the entry
/// stream begins this far into the table.
pub const CONFIGURATION_TABLE_HEADER_LENGTH: usize = 44;

/// The signature that should match MPConfigurationTableHeader's signature
/// field. The value is the ASCII representation of "PCMP" (excluding
/// quotes).
pub const MPCONFIGURATIONTABLEHEADER_SIGNATURE: [u8; 4] = [80u8, 67u8, 77u8, 80u8];

/// The four signature bytes "PCMP" as a sequence.
pub open spec fn configuration_table_signature() -> Seq<u8> {
    seq![80u8, 67u8, 77u8, 80u8]
}

/// The MP Configuration Table header.
#[derive(Clone, Copy, Debug)]
pub struct MPConfigurationTableHeader {
    pub signature: u32,
    pub base_table_length: u16,
    pub spec_rev: u8,
    pub checksum: u8,
    pub oem_id: [u8; 8],
    pub product_id: [u8; 12],
    pub oem_table_pointer: u32,
    pub oem_table_size: u16,
    pub entry_count: u16,
    pub local_apic_addr: u32,
    pub extended_table_length: u16,
    pub extended_table_checksum: u8,
}

/// Holds iff `h` is the decoding of the first 44 bytes of `data`: every
/// field equals the corresponding bytes, multi-byte fields read in
/// little-endian order.
pub open spec fn configuration_table_header_decodes(
    h: MPConfigurationTableHeader,
    data: Seq<u8>,
) -> bool
    recommends
        data.len() >= 44,
{
    &&& h.signature == spec_u32_from_le_bytes(data.subrange(0, 4))
    &&& h.base_table_length == spec_u16_from_le_bytes(data.subrange(4, 6))
    &&& h.spec_rev == data[6]
    &&& h.checksum == data[7]
    &&& h.oem_id@ == data.subrange(8, 16)
    &&& h.product_id@ == data.subrange(16, 28)
    &&& h.oem_table_pointer == spec_u32_from_le_bytes(data.subrange(28, 32))
    &&& h.oem_table_size == spec_u16_from_le_bytes(data.subrange(32, 34))
    &&& h.entry_count == spec_u16_from_le_bytes(data.subrange(34, 36))
    &&& h.local_apic_addr == spec_u32_from_le_bytes(data.subrange(36, 40))
    &&& h.extended_table_length == spec_u16_from_le_bytes(data.subrange(40, 42))
    &&& h.extended_table_checksum == data[42]
}

impl MPConfigurationTableHeader {
    /// The base-table checksum is never inspected: every header passes this
    /// test. The MP specification asks for the table's bytes to sum to zero
    /// modulo 256; this decoder deliberately keeps the permissive behaviour
    /// of reporting every table's checksum as valid, so `is_valid` rests on
    /// the signature alone.
    pub open spec fn spec_checksum_ok(self) -> bool {
        true
    }

    /// True iff the signature field's little-endian bytes read "PCMP".
    pub open spec fn spec_signature_ok(self) -> bool {
        spec_u32_to_le_bytes(self.signature) == configuration_table_signature()
    }

    pub open spec fn spec_valid(self) -> bool {
        self.spec_checksum_ok() && self.spec_signature_ok()
    }

    /// Decode a header from the start of `data`; reports `None` iff the
    /// buffer is too short to hold the 44-byte header.
    pub fn from_bytes(data: &[u8]) -> (r: Option<MPConfigurationTableHeader>)
        ensures
            (match r {
                Some(h) => data@.len() >= 44 && configuration_table_header_decodes(h, data@),
                None => data@.len() < 44,
            }),
    {
        if data.len() < CONFIGURATION_TABLE_HEADER_LENGTH {
            return None;
        }
        let h = MPConfigurationTableHeader {
            signature: vstd::bytes::u32_from_le_bytes(&data[0..4]),
            base_table_length: vstd::bytes::u16_from_le_bytes(&data[4..6]),
            spec_rev: data[6],
            checksum: data[7],
            oem_id: [
                data[8],
                data[9],
                data[10],
                data[11],
                data[12],
                data[13],
                data[14],
                data[15],
            ],
            product_id: [
                data[16],
                data[17],
                data[18],
                data[19],
                data[20],
                data[21],
                data[22],
                data[23],
                data[24],
                data[25],
                data[26],
                data[27],
            ],
            oem_table_pointer: vstd::bytes::u32_from_le_bytes(&data[28..32]),
            oem_table_size: vstd::bytes::u16_from_le_bytes(&data[32..34]),
            entry_count: vstd::bytes::u16_from_le_bytes(&data[34..36]),
            local_apic_addr: vstd::bytes::u32_from_le_bytes(&data[36..40]),
            extended_table_length: vstd::bytes::u16_from_le_bytes(&data[40..42]),
            extended_table_checksum: data[42],
        };
        proof {
            assert(h.oem_id@ =~= data@.subrange(8, 16));
            assert(h.product_id@ =~= data@.subrange(16, 28));
        }
        Some(h)
    }

    /// Reports the checksum as valid without looking at it (see
    /// `spec_checksum_ok`).
    pub fn verify_checksum(&self) -> (r: bool)
        ensures
            r == self.spec_checksum_ok(),
    {
        true
    }

    /// True iff the signature field's little-endian bytes read "PCMP".
    pub fn verify_signature(&self) -> (r: bool)
        ensures
            r == self.spec_signature_ok(),
    {
        let ascii = u32_to_le_bytes(self.signature);
        let r = ascii[0] == 80 && ascii[1] == 67 && ascii[2] == 77 && ascii[3] == 80;
        proof {
            if r {
                assert(spec_u32_to_le_bytes(self.signature) =~= configuration_table_signature());
            }
        }
        r
    }

    /// True iff both the (permissive) checksum test and the signature test
    /// pass; with the checksum never inspected, this is the signature test.
    pub fn is_valid(&self) -> (r: bool)
        ensures
            r == self.spec_valid(),
    {
        self.verify_checksum() && self.verify_signature()
    }

    /// An iterator over the entry stream that follows this header,
    /// positioned at the first entry with none consumed, promising the
    /// header's count of entries.
    pub fn iter(&self) -> (r: EntryIterator)
        ensures
            r.current_offset == 0,
            r.entries_sofar == 0,
            r.total_entries == self.entry_count,
            r.wf(),
    {
        EntryIterator { current_offset: 0, entries_sofar: 0, total_entries: self.entry_count as usize }
    }
}

} // verus!
