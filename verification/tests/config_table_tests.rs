use mptable::{
    EntryError, MPConfigurationTableHeader, MPEntryCode, MPCONFIGURATIONTABLEHEADER_SIGNATURE,
};

/// A 44-byte header announcing `entry_count` entries, followed by nothing.
fn header_bytes(entry_count: u16) -> Vec<u8> {
    let mut data = vec![0u8; 44];
    data[0..4].copy_from_slice(b"PCMP");
    data[4..6].copy_from_slice(&(44u16 + entry_count * 8).to_le_bytes());
    data[6] = 4; // spec revision
    data[7] = 0x55; // checksum byte (never inspected)
    data[8..16].copy_from_slice(b"OEM00000");
    data[16..28].copy_from_slice(b"PRODUCT00000");
    data[28..32].copy_from_slice(&0xCAFE_F00Du32.to_le_bytes());
    data[32..34].copy_from_slice(&24u16.to_le_bytes());
    data[34..36].copy_from_slice(&entry_count.to_le_bytes());
    data[36..40].copy_from_slice(&0xFEE0_0000u32.to_le_bytes());
    data[40..42].copy_from_slice(&12u16.to_le_bytes());
    data[42] = 0x77;
    data
}

/// A full table: header plus `n` consecutive bus entries.
fn bus_table(n: u16) -> Vec<u8> {
    let mut data = header_bytes(n);
    for i in 0..n {
        data.extend_from_slice(&[1, i as u8, b'P', b'C', b'I', b' ', b' ', b' ']);
    }
    data
}

fn decode(data: &[u8]) -> MPConfigurationTableHeader {
    MPConfigurationTableHeader::from_bytes(data).unwrap()
}

#[test]
fn header_decodes_every_field() {
    let h = decode(&header_bytes(3));
    assert_eq!(h.signature, u32::from_le_bytes(*b"PCMP"));
    assert_eq!(h.base_table_length, 44 + 3 * 8);
    assert_eq!(h.spec_rev, 4);
    assert_eq!(h.checksum, 0x55);
    assert_eq!(&h.oem_id, b"OEM00000");
    assert_eq!(&h.product_id, b"PRODUCT00000");
    assert_eq!(h.oem_table_pointer, 0xCAFE_F00D);
    assert_eq!(h.oem_table_size, 24);
    assert_eq!(h.entry_count, 3);
    assert_eq!(h.local_apic_addr, 0xFEE0_0000);
    assert_eq!(h.extended_table_length, 12);
    assert_eq!(h.extended_table_checksum, 0x77);
}

#[test]
fn header_too_short_buffer_is_rejected() {
    assert!(MPConfigurationTableHeader::from_bytes(&header_bytes(0)[0..43]).is_none());
    assert!(MPConfigurationTableHeader::from_bytes(&[]).is_none());
}

#[test]
fn signature_and_validity() {
    let h = decode(&header_bytes(0));
    assert!(h.verify_signature());
    assert!(h.verify_checksum());
    assert!(h.is_valid());

    let mut bad = header_bytes(0);
    bad[0] = b'X';
    let hb = decode(&bad);
    assert!(!hb.verify_signature());
    assert!(!hb.is_valid());
    // The checksum test never fails, whatever the bytes hold.
    assert!(hb.verify_checksum());
}

#[test]
fn signature_constant_reads_pcmp() {
    assert_eq!(MPCONFIGURATIONTABLEHEADER_SIGNATURE, *b"PCMP");
}

#[test]
fn iterator_yields_each_bus_entry_then_stops() {
    let table = bus_table(5);
    let h = decode(&table);
    let mut it = h.iter();
    for _ in 0..5 {
        assert_eq!(it.next(&table), Ok(Some(MPEntryCode::Bus)));
    }
    // Exhausted: every further call keeps reporting the end.
    assert_eq!(it.next(&table), Ok(None));
    assert_eq!(it.next(&table), Ok(None));
}

#[test]
fn iterator_on_empty_stream_stops_immediately() {
    let table = bus_table(0);
    let h = decode(&table);
    let mut it = h.iter();
    assert_eq!(it.next(&table), Ok(None));
}

#[test]
fn unknown_entry_is_a_terminal_error() {
    let mut table = bus_table(2);
    table.extend_from_slice(&[5, 0, 0, 0, 0, 0, 0, 0]);
    table[34..36].copy_from_slice(&3u16.to_le_bytes());
    let h = decode(&table);
    let mut it = h.iter();
    assert_eq!(it.next(&table), Ok(Some(MPEntryCode::Bus)));
    assert_eq!(it.next(&table), Ok(Some(MPEntryCode::Bus)));
    // The third promised entry carries type code 5: its length is
    // undefined, so the walk stops with an error instead of yielding it.
    assert_eq!(it.next(&table), Err(EntryError::UnknownEntryCode(5)));
    // The error is terminal: the iterator does not move past the record.
    assert_eq!(it.next(&table), Err(EntryError::UnknownEntryCode(5)));
}

#[test]
fn promised_entries_past_the_buffer_are_out_of_bounds() {
    // The header promises one entry but the buffer ends with the header.
    let table = header_bytes(1);
    let h = decode(&table);
    let mut it = h.iter();
    assert_eq!(it.next(&table), Err(EntryError::OutOfBounds));
    assert_eq!(it.next(&table), Err(EntryError::OutOfBounds));
}

#[test]
fn iterator_advances_by_each_kind_length() {
    // A processor entry (20 bytes) followed by an I/O APIC entry: the
    // iterator must step over the full 20-byte record to find the second.
    let mut table = header_bytes(2);
    table.extend_from_slice(&[0; 20]);
    table.extend_from_slice(&[2, 1, 0x11, 1, 0, 0, 0xC0, 0xFE]);
    let h = decode(&table);
    let mut it = h.iter();
    assert_eq!(it.next(&table), Ok(Some(MPEntryCode::Processor)));
    assert_eq!(it.next(&table), Ok(Some(MPEntryCode::IOAPIC)));
    assert_eq!(it.next(&table), Ok(None));
}
