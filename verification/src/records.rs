//! The five fixed-layout entry records of the configuration table's entry
//! stream. Each decoder is a byte-exact projection: every field equals the
//! corresponding bytes of its window, multi-byte fields read little-endian.

use vstd::bytes::spec_u32_from_le_bytes;
use vstd::prelude::*;

verus! {

/// A processor entry. Its stream record is 20 bytes wide; the named fields
/// cover the first 12 bytes, the rest of the window is reserved.
#[derive(Clone, Copy, Debug)]
pub struct ProcessorEntry {
    pub entry_type: u8,
    pub lapic_id: u8,
    pub lapic_version: u8,
    pub cpu_flags: u8,
    pub cpu_signature: [u8; 2],
    pub unused: [u8; 2],
    pub feature_flags: u32,
}

/// Holds iff `e` is the decoding of the first bytes of `data`.
pub open spec fn processor_entry_decodes(e: ProcessorEntry, data: Seq<u8>) -> bool
    recommends
        data.len() >= 20,
{
    &&& e.entry_type == data[0]
    &&& e.lapic_id == data[1]
    &&& e.lapic_version == data[2]
    &&& e.cpu_flags == data[3]
    &&& e.cpu_signature@ == data.subrange(4, 6)
    &&& e.unused@ == data.subrange(6, 8)
    &&& e.feature_flags == spec_u32_from_le_bytes(data.subrange(8, 12))
}

impl ProcessorEntry {
    /// Decode a processor entry from the start of its 20-byte window.
    pub fn from_bytes(data: &[u8]) -> (r: ProcessorEntry)
        requires
            data@.len() >= 20,
        ensures
            processor_entry_decodes(r, data@),
    {
        let e = ProcessorEntry {
            entry_type: data[0],
            lapic_id: data[1],
            lapic_version: data[2],
            cpu_flags: data[3],
            cpu_signature: [data[4], data[5]],
            unused: [data[6], data[7]],
            feature_flags: vstd::bytes::u32_from_le_bytes(&data[8..12]),
        };
        proof {
            assert(e.cpu_signature@ =~= data@.subrange(4, 6));
            assert(e.unused@ =~= data@.subrange(6, 8));
        }
        e
    }
}

/// A bus entry: 8 bytes.
#[derive(Clone, Copy, Debug)]
pub struct BusEntry {
    pub entry_type: u8,
    pub bus_id: u8,
    pub bus_type_string: [u8; 6],
}

/// Holds iff `e` is the decoding of the first bytes of `data`.
pub open spec fn bus_entry_decodes(e: BusEntry, data: Seq<u8>) -> bool
    recommends
        data.len() >= 8,
{
    &&& e.entry_type == data[0]
    &&& e.bus_id == data[1]
    &&& e.bus_type_string@ == data.subrange(2, 8)
}

impl BusEntry {
    /// Decode a bus entry from the start of its 8-byte window.
    pub fn from_bytes(data: &[u8]) -> (r: BusEntry)
        requires
            data@.len() >= 8,
        ensures
            bus_entry_decodes(r, data@),
    {
        let e = BusEntry {
            entry_type: data[0],
            bus_id: data[1],
            bus_type_string: [data[2], data[3], data[4], data[5], data[6], data[7]],
        };
        proof {
            assert(e.bus_type_string@ =~= data@.subrange(2, 8));
        }
        e
    }
}

/// An I/O APIC entry: 8 bytes.
#[derive(Clone, Copy, Debug)]
pub struct IOAPICEntry {
    pub entry_type: u8,
    pub ioapic_id: u8,
    pub ioapic_version: u8,
    pub ioapic_flags: u8,
    pub ioapic_address: u32,
}

/// Holds iff `e` is the decoding of the first bytes of `data`.
pub open spec fn ioapic_entry_decodes(e: IOAPICEntry, data: Seq<u8>) -> bool
    recommends
        data.len() >= 8,
{
    &&& e.entry_type == data[0]
    &&& e.ioapic_id == data[1]
    &&& e.ioapic_version == data[2]
    &&& e.ioapic_flags == data[3]
    &&& e.ioapic_address == spec_u32_from_le_bytes(data.subrange(4, 8))
}

impl IOAPICEntry {
    /// Decode an I/O APIC entry from the start of its 8-byte window.
    pub fn from_bytes(data: &[u8]) -> (r: IOAPICEntry)
        requires
            data@.len() >= 8,
        ensures
            ioapic_entry_decodes(r, data@),
    {
        IOAPICEntry {
            entry_type: data[0],
            ioapic_id: data[1],
            ioapic_version: data[2],
            ioapic_flags: data[3],
            ioapic_address: vstd::bytes::u32_from_le_bytes(&data[4..8]),
        }
    }
}

/// An I/O interrupt assignment entry: 8 bytes.
#[derive(Clone, Copy, Debug)]
pub struct IOInterruptAssignmentEntry {
    pub entry_type: u8,
    pub interrupt_type: u8,
    pub interrupt_mode: u8,
    pub unused: u8,
    pub source_bus_id: u8,
    pub source_bus_irq: u8,
    pub dest_ioapic_id: u8,
    pub dest_ioapic_int: u8,
}

/// Holds iff `e` is the decoding of the first bytes of `data`.
pub open spec fn io_interrupt_assignment_entry_decodes(
    e: IOInterruptAssignmentEntry,
    data: Seq<u8>,
) -> bool
    recommends
        data.len() >= 8,
{
    &&& e.entry_type == data[0]
    &&& e.interrupt_type == data[1]
    &&& e.interrupt_mode == data[2]
    &&& e.unused == data[3]
    &&& e.source_bus_id == data[4]
    &&& e.source_bus_irq == data[5]
    &&& e.dest_ioapic_id == data[6]
    &&& e.dest_ioapic_int == data[7]
}

impl IOInterruptAssignmentEntry {
    /// Decode an I/O interrupt assignment entry from its 8-byte window.
    pub fn from_bytes(data: &[u8]) -> (r: IOInterruptAssignmentEntry)
        requires
            data@.len() >= 8,
        ensures
            io_interrupt_assignment_entry_decodes(r, data@),
    {
        IOInterruptAssignmentEntry {
            entry_type: data[0],
            interrupt_type: data[1],
            interrupt_mode: data[2],
            unused: data[3],
            source_bus_id: data[4],
            source_bus_irq: data[5],
            dest_ioapic_id: data[6],
            dest_ioapic_int: data[7],
        }
    }
}

/// A local interrupt assignment entry: 8 bytes.
#[derive(Clone, Copy, Debug)]
pub struct LocalInterruptAssignmentEntry {
    pub entry_type: u8,
    pub interrupt_type: u8,
    pub interrupt_mode: u8,
    pub unused: u8,
    pub source_bus_id: u8,
    pub source_bus_irq: u8,
    pub dest_ioapic_id: u8,
    pub dest_ioapic_int: u8,
}

/// Holds iff `e` is the decoding of the first bytes of `data`.
pub open spec fn local_interrupt_assignment_entry_decodes(
    e: LocalInterruptAssignmentEntry,
    data: Seq<u8>,
) -> bool
    recommends
        data.len() >= 8,
{
    &&& e.entry_type == data[0]
    &&& e.interrupt_type == data[1]
    &&& e.interrupt_mode == data[2]
    &&& e.unused == data[3]
    &&& e.source_bus_id == data[4]
    &&& e.source_bus_irq == data[5]
    &&& e.dest_ioapic_id == data[6]
    &&& e.dest_ioapic_int == data[7]
}

impl LocalInterruptAssignmentEntry {
    /// Decode a local interrupt assignment entry from its 8-byte window.
    pub fn from_bytes(data: &[u8]) -> (r: LocalInterruptAssignmentEntry)
        requires
            data@.len() >= 8,
        ensures
            local_interrupt_assignment_entry_decodes(r, data@),
    {
        LocalInterruptAssignmentEntry {
            entry_type: data[0],
            interrupt_type: data[1],
            interrupt_mode: data[2],
            unused: data[3],
            source_bus_id: data[4],
            source_bus_irq: data[5],
            dest_ioapic_id: data[6],
            dest_ioapic_int: data[7],
        }
    }
}

} // verus!
