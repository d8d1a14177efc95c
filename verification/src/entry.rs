//! Entry classification: the type code that leads every record of the
//! entry stream, and a tagged view of one decoded record.

use vstd::prelude::*;

use crate::records::{
    bus_entry_decodes, io_interrupt_assignment_entry_decodes, ioapic_entry_decodes,
    local_interrupt_assignment_entry_decodes, processor_entry_decodes, BusEntry, IOAPICEntry,
    IOInterruptAssignmentEntry, LocalInterruptAssignmentEntry, ProcessorEntry,
};

verus! {

/// The closed set of entry type codes, with `Unknown` standing for every
/// byte value outside the five the specification defines.
#[derive(Clone, Copy, Debug, PartialEq, Eq, Structural)]
pub enum MPEntryCode {
    Processor,
    Bus,
    IOAPIC,
    IOInterruptAssignment,
    LocalInterruptAssignment,
    Unknown,
}

/// The classification of one type-code byte.
pub open spec fn code_of(num: u8) -> MPEntryCode {
    if num == 0 {
        MPEntryCode::Processor
    } else if num == 1 {
        MPEntryCode::Bus
    } else if num == 2 {
        MPEntryCode::IOAPIC
    } else if num == 3 {
        MPEntryCode::IOInterruptAssignment
    } else if num == 4 {
        MPEntryCode::LocalInterruptAssignment
    } else {
        MPEntryCode::Unknown
    }
}

/// The fixed byte length of each sized entry kind. An `Unknown` entry has
/// no defined length; this function maps it to zero only so that it is
/// total, and nothing may rely on that value.
pub open spec fn entry_length(code: MPEntryCode) -> usize {
    match code {
        MPEntryCode::Processor => 20,
        MPEntryCode::Bus => 8,
        MPEntryCode::IOAPIC => 8,
        MPEntryCode::IOInterruptAssignment => 8,
        MPEntryCode::LocalInterruptAssignment => 8,
        MPEntryCode::Unknown => 0,
    }
}

impl MPEntryCode {
    /// The fixed byte length of this entry kind. The specification leaves
    /// the length of an unknown entry undefined, so `Unknown` is excluded:
    /// guessing a length would desynchronize every later read of the stream.
    pub fn length(&self) -> (r: usize)
        requires
            *self != MPEntryCode::Unknown,
        ensures
            r == entry_length(*self),
    {
        match self {
            MPEntryCode::Processor => 20,
            MPEntryCode::Bus => 8,
            MPEntryCode::IOAPIC => 8,
            MPEntryCode::IOInterruptAssignment => 8,
            MPEntryCode::LocalInterruptAssignment => 8,
            MPEntryCode::Unknown => 0,
        }
    }

    /// Classify a type-code byte.
    pub fn from_u8(num: u8) -> (r: Self)
        ensures
            r == code_of(num),
    {
        match num {
            0 => MPEntryCode::Processor,
            1 => MPEntryCode::Bus,
            2 => MPEntryCode::IOAPIC,
            3 => MPEntryCode::IOInterruptAssignment,
            4 => MPEntryCode::LocalInterruptAssignment,
            _ => MPEntryCode::Unknown,
        }
    }
}

/// Why a decode of the entry stream stopped.
#[derive(Clone, Copy, Debug, PartialEq, Eq, Structural)]
pub enum EntryError {
    /// A type-code byte outside the five defined kinds was met. Its length
    /// is undefined, so the stream cannot be walked past it.
    UnknownEntryCode(u8),
    /// An entry would read past the end of the supplied buffer.
    OutOfBounds,
}

/// The concrete record of one entry, keyed by its kind.
#[derive(Clone, Copy, Debug)]
pub enum MPEntryData {
    Processor(ProcessorEntry),
    Bus(BusEntry),
    IOAPIC(IOAPICEntry),
    IOInterruptAssignment(IOInterruptAssignmentEntry),
    LocalInterruptAssignment(LocalInterruptAssignmentEntry),
}

/// One classified entry together with its decoded record.
#[derive(Clone, Copy, Debug)]
pub struct MPEntry {
    pub code: MPEntryCode,
    pub payload: MPEntryData,
}

/// The processor record of a payload, if it carries one.
pub open spec fn payload_processor(d: MPEntryData) -> Option<ProcessorEntry> {
    match d {
        MPEntryData::Processor(e) => Some(e),
        _ => None,
    }
}

/// The bus record of a payload, if it carries one.
pub open spec fn payload_bus(d: MPEntryData) -> Option<BusEntry> {
    match d {
        MPEntryData::Bus(e) => Some(e),
        _ => None,
    }
}

/// The I/O APIC record of a payload, if it carries one.
pub open spec fn payload_ioapic(d: MPEntryData) -> Option<IOAPICEntry> {
    match d {
        MPEntryData::IOAPIC(e) => Some(e),
        _ => None,
    }
}

/// The I/O interrupt assignment record of a payload, if it carries one.
pub open spec fn payload_io_interrupt_assignment(d: MPEntryData) -> Option<
    IOInterruptAssignmentEntry,
> {
    match d {
        MPEntryData::IOInterruptAssignment(e) => Some(e),
        _ => None,
    }
}

/// The local interrupt assignment record of a payload, if it carries one.
pub open spec fn payload_local_interrupt_assignment(d: MPEntryData) -> Option<
    LocalInterruptAssignmentEntry,
> {
    match d {
        MPEntryData::LocalInterruptAssignment(e) => Some(e),
        _ => None,
    }
}

/// Holds iff `e` is the decoding of the record at the start of `data`:
/// the code classifies the leading byte and the payload is the byte-exact
/// projection of the record's window.
pub open spec fn entry_decodes(e: MPEntry, data: Seq<u8>) -> bool
    recommends
        data.len() >= 1,
{
    &&& e.code == code_of(data[0])
    &&& match e.payload {
        MPEntryData::Processor(p) => e.code == MPEntryCode::Processor && processor_entry_decodes(
            p,
            data,
        ),
        MPEntryData::Bus(b) => e.code == MPEntryCode::Bus && bus_entry_decodes(b, data),
        MPEntryData::IOAPIC(a) => e.code == MPEntryCode::IOAPIC && ioapic_entry_decodes(a, data),
        MPEntryData::IOInterruptAssignment(a) => e.code == MPEntryCode::IOInterruptAssignment
            && io_interrupt_assignment_entry_decodes(a, data),
        MPEntryData::LocalInterruptAssignment(a) => e.code == MPEntryCode::LocalInterruptAssignment
            && local_interrupt_assignment_entry_decodes(a, data),
    }
}

/// An entry decoded from a bus record is classified as one, hands out the
/// bus view populated byte-exactly from its window, and reports absence,
/// not a miscast record, for every other kind.
pub proof fn lemma_bus_classified_views(e: MPEntry, b: BusEntry, data: Seq<u8>)
    requires
        data.len() >= 1,
        entry_decodes(e, data),
        e.payload == MPEntryData::Bus(b),
    ensures
        e.code == MPEntryCode::Bus,
        bus_entry_decodes(b, data),
        payload_bus(e.payload) == Some(b),
        payload_processor(e.payload) == None::<ProcessorEntry>,
        payload_ioapic(e.payload) == None::<IOAPICEntry>,
        payload_io_interrupt_assignment(e.payload) == None::<IOInterruptAssignmentEntry>,
        payload_local_interrupt_assignment(e.payload) == None::<LocalInterruptAssignmentEntry>,
{
}

impl MPEntry {
    /// The entry's code agrees with the kind of record its payload carries.
    pub open spec fn wf(self) -> bool {
        match self.payload {
            MPEntryData::Processor(_) => self.code == MPEntryCode::Processor,
            MPEntryData::Bus(_) => self.code == MPEntryCode::Bus,
            MPEntryData::IOAPIC(_) => self.code == MPEntryCode::IOAPIC,
            MPEntryData::IOInterruptAssignment(_) => self.code
                == MPEntryCode::IOInterruptAssignment,
            MPEntryData::LocalInterruptAssignment(_) => self.code
                == MPEntryCode::LocalInterruptAssignment,
        }
    }

    /// Decode one entry from the start of `data`. Fails with
    /// `UnknownEntryCode` iff the leading byte classifies as `Unknown`, and
    /// with `OutOfBounds` iff the buffer is empty or shorter than the
    /// classified kind's fixed record length.
    pub fn from_bytes(data: &[u8]) -> (r: Result<MPEntry, EntryError>)
        ensures
            (match r {
                Ok(e) => data@.len() >= 1 && code_of(data@[0]) != MPEntryCode::Unknown
                    && data@.len() >= entry_length(code_of(data@[0])) && entry_decodes(e, data@)
                    && e.wf(),
                Err(EntryError::UnknownEntryCode(b)) => data@.len() >= 1 && b == data@[0]
                    && code_of(b) == MPEntryCode::Unknown,
                Err(EntryError::OutOfBounds) => data@.len() == 0 || (code_of(data@[0])
                    != MPEntryCode::Unknown && data@.len() < entry_length(code_of(data@[0]))),
            }),
    {
        if data.len() == 0 {
            return Err(EntryError::OutOfBounds);
        }
        let code = MPEntryCode::from_u8(data[0]);
        if code == MPEntryCode::Unknown {
            return Err(EntryError::UnknownEntryCode(data[0]));
        }
        if data.len() < code.length() {
            return Err(EntryError::OutOfBounds);
        }
        let payload = match code {
            MPEntryCode::Processor => MPEntryData::Processor(ProcessorEntry::from_bytes(data)),
            MPEntryCode::Bus => MPEntryData::Bus(BusEntry::from_bytes(data)),
            MPEntryCode::IOAPIC => MPEntryData::IOAPIC(IOAPICEntry::from_bytes(data)),
            MPEntryCode::IOInterruptAssignment => MPEntryData::IOInterruptAssignment(
                IOInterruptAssignmentEntry::from_bytes(data),
            ),
            MPEntryCode::LocalInterruptAssignment => MPEntryData::LocalInterruptAssignment(
                LocalInterruptAssignmentEntry::from_bytes(data),
            ),
            MPEntryCode::Unknown => {
                return Err(EntryError::UnknownEntryCode(data[0]));
            },
        };
        Ok(MPEntry { code, payload })
    }

    /// The processor record, present iff the entry is classified as one.
    pub fn get_processor_entry(&self) -> (r: Option<ProcessorEntry>)
        ensures
            (r == if self.code == MPEntryCode::Processor {
                payload_processor(self.payload)
            } else {
                None::<ProcessorEntry>
            }),
            self.wf() ==> (r is Some <==> self.code == MPEntryCode::Processor),
    {
        if self.code == MPEntryCode::Processor {
            match self.payload {
                MPEntryData::Processor(e) => Some(e),
                _ => None,
            }
        } else {
            None
        }
    }

    /// The bus record, present iff the entry is classified as one.
    pub fn get_bus_entry(&self) -> (r: Option<BusEntry>)
        ensures
            (r == if self.code == MPEntryCode::Bus {
                payload_bus(self.payload)
            } else {
                None::<BusEntry>
            }),
            self.wf() ==> (r is Some <==> self.code == MPEntryCode::Bus),
    {
        if self.code == MPEntryCode::Bus {
            match self.payload {
                MPEntryData::Bus(e) => Some(e),
                _ => None,
            }
        } else {
            None
        }
    }

    /// The I/O APIC record, present iff the entry is classified as one.
    pub fn get_ioapic_entry(&self) -> (r: Option<IOAPICEntry>)
        ensures
            (r == if self.code == MPEntryCode::IOAPIC {
                payload_ioapic(self.payload)
            } else {
                None::<IOAPICEntry>
            }),
            self.wf() ==> (r is Some <==> self.code == MPEntryCode::IOAPIC),
    {
        if self.code == MPEntryCode::IOAPIC {
            match self.payload {
                MPEntryData::IOAPIC(e) => Some(e),
                _ => None,
            }
        } else {
            None
        }
    }

    /// The I/O interrupt assignment record, present iff the entry is
    /// classified as one.
    pub fn get_io_interrupt_assignment_entry(&self) -> (r: Option<IOInterruptAssignmentEntry>)
        ensures
            (r == if self.code == MPEntryCode::IOInterruptAssignment {
                payload_io_interrupt_assignment(self.payload)
            } else {
                None::<IOInterruptAssignmentEntry>
            }),
            self.wf() ==> (r is Some <==> self.code == MPEntryCode::IOInterruptAssignment),
    {
        if self.code == MPEntryCode::IOInterruptAssignment {
            match self.payload {
                MPEntryData::IOInterruptAssignment(e) => Some(e),
                _ => None,
            }
        } else {
            None
        }
    }

    /// The local interrupt assignment record, present iff the entry is
    /// classified as one.
    pub fn get_local_interrupt_assignment_entry(&self) -> (r: Option<
        LocalInterruptAssignmentEntry,
    >)
        ensures
            (r == if self.code == MPEntryCode::LocalInterruptAssignment {
                payload_local_interrupt_assignment(self.payload)
            } else {
                None::<LocalInterruptAssignmentEntry>
            }),
            self.wf() ==> (r is Some <==> self.code == MPEntryCode::LocalInterruptAssignment),
    {
        if self.code == MPEntryCode::LocalInterruptAssignment {
            match self.payload {
                MPEntryData::LocalInterruptAssignment(e) => Some(e),
                _ => None,
            }
        } else {
            None
        }
    }
}

} // verus!
