//! Decoder for the Intel MultiProcessor Specification's firmware tables:
//! the 16-byte floating pointer structure, the 44-byte configuration table
//! header, and the heterogeneous entry stream that follows the header.
//!
//! All reads go through bounds-checked byte buffers supplied by the caller;
//! the caller is responsible for mapping the physical memory region that
//! holds the tables and handing it over as a slice.

pub mod config_table;
pub mod entry;
pub mod floating_pointer;
pub mod records;
pub mod stream;
pub mod wire;

pub use config_table::MPConfigurationTableHeader;
pub use config_table::MPCONFIGURATIONTABLEHEADER_SIGNATURE;
pub use entry::EntryError;
pub use entry::MPEntry;
pub use entry::MPEntryCode;
pub use entry::MPEntryData;
pub use floating_pointer::MPFloatingPointer;
pub use floating_pointer::MPFLOATINGPOINTER_SIGNATURE;
pub use records::BusEntry;
pub use records::IOAPICEntry;
pub use records::IOInterruptAssignmentEntry;
pub use records::LocalInterruptAssignmentEntry;
pub use records::ProcessorEntry;
pub use stream::EntryIterator;
pub use wire::sum16;
