use mptable::{MPFloatingPointer, MPFLOATINGPOINTER_SIGNATURE};

/// The 16-byte buffer of the concrete scenario: signature "_MP_", table
/// pointer 0x00100000, length 1, spec revision 4, a chosen checksum byte,
/// feature bytes all zero.
fn scenario_bytes(checksum: u8) -> [u8; 16] {
    [
        0x5F, 0x4D, 0x50, 0x5F, // "_MP_"
        0x00, 0x00, 0x10, 0x00, // table pointer 0x00100000
        1,    // length in 16-byte units
        4,    // spec revision
        checksum, 0, 0, 0, 0, 0, // feature bytes
    ]
}

fn decode(data: &[u8]) -> MPFloatingPointer {
    MPFloatingPointer::from_bytes(data).unwrap()
}

#[test]
fn decodes_every_field() {
    let fp = decode(&scenario_bytes(0));
    assert_eq!(fp.signature, 0x5F504D5F);
    assert_eq!(fp.physical_address_pointer, 0x00100000);
    assert_eq!(fp.length, 1);
    assert_eq!(fp.spec_rev, 4);
    assert_eq!(fp.checksum, 0);
    assert_eq!(fp.mp_feature_info_bytes, [0, 0, 0, 0, 0]);
}

#[test]
fn too_short_buffer_is_rejected() {
    assert!(MPFloatingPointer::from_bytes(&scenario_bytes(0)[0..15]).is_none());
    assert!(MPFloatingPointer::from_bytes(&[]).is_none());
}

#[test]
fn scenario_is_valid() {
    // Byte sum is 368, a multiple of 16, so the implemented rule passes.
    let fp = decode(&scenario_bytes(0));
    assert!(fp.verify_signature());
    assert!(fp.verify_checksum());
    assert!(fp.is_valid());
}

#[test]
fn scenario_checksum_off_by_one_is_invalid() {
    // Bumping the checksum byte by 1 moves the low nibble of the sum off
    // zero, so the weak rule now fails.
    let fp = decode(&scenario_bytes(1));
    assert!(fp.verify_signature());
    assert!(!fp.verify_checksum());
    assert!(!fp.is_valid());
}

#[test]
fn weak_rule_ignores_high_nibble_of_sum() {
    // The byte sum of the base scenario is 368, which is not a multiple of
    // 256: the specification's full-sum rule would reject this table, but
    // the implemented rule only inspects the low four bits and passes it.
    let fp = decode(&scenario_bytes(0));
    let full_sum: u32 = scenario_bytes(0).iter().map(|&b| u32::from(b)).sum();
    assert_eq!(full_sum, 368);
    assert_ne!(full_sum % 256, 0);
    assert!(fp.verify_checksum());

    // Adding 16 to the checksum byte changes the full sum but not its low
    // nibble, so the weak rule still passes.
    let fp16 = decode(&scenario_bytes(16));
    assert!(fp16.verify_checksum());
}

#[test]
fn flipping_each_signature_byte_invalidates_it() {
    for i in 0..4 {
        let mut data = scenario_bytes(0);
        data[i] ^= 0xFF;
        let fp = decode(&data);
        assert!(!fp.verify_signature());
        assert!(!fp.is_valid());
    }
}

#[test]
fn signature_constant_reads_mp() {
    assert_eq!(MPFLOATINGPOINTER_SIGNATURE, *b"_MP_");
}

#[test]
fn signature_check_reads_bytes_little_endian() {
    // Built directly rather than decoded: the check must serialize the
    // field least-significant byte first to see "_MP_".
    let fp = MPFloatingPointer {
        signature: u32::from_le_bytes(*b"_MP_"),
        physical_address_pointer: 0,
        length: 1,
        spec_rev: 4,
        checksum: 0,
        mp_feature_info_bytes: [0; 5],
    };
    assert!(fp.verify_signature());
    let swapped = MPFloatingPointer { signature: fp.signature.swap_bytes(), ..fp };
    assert!(!swapped.verify_signature());
}
