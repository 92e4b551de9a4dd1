use passport_prover::circuit::{
    are_all_below, find_header, read_declared_wires, read_long, read_word, CircuitShape,
    WitnessLayout,
};

fn shape(wires: u32, public_outputs: u32, public_inputs: u32) -> CircuitShape {
    CircuitShape {
        wires,
        public_outputs,
        public_inputs,
        private_inputs: 0,
        labels: wires as u64,
        constraints: 0,
    }
}

#[test]
fn a_header_is_consistent_where_the_public_wires_are_among_the_wires() {
    assert!(shape(18, 3, 0).is_consistent());
    assert!(shape(4, 3, 0).is_consistent());
    assert!(shape(4, 1, 2).is_consistent());
    assert!(shape(1, 0, 0).is_consistent());
    assert!(shape(u32::MAX, u32::MAX - 1, 0).is_consistent());
}

#[test]
fn a_header_with_too_few_wires_is_not_consistent() {
    assert!(!shape(0, 0, 0).is_consistent());
    assert!(!shape(3, 3, 0).is_consistent());
    assert!(!shape(3, 1, 2).is_consistent());
    assert!(!shape(18, 18, 0).is_consistent());
    assert!(!shape(u32::MAX, u32::MAX, 0).is_consistent());
    assert!(!shape(u32::MAX, u32::MAX, u32::MAX).is_consistent());
    assert!(!shape(5, u32::MAX, 7).is_consistent());
}

fn layout(public_wires: usize, private_wires: usize, witness: Option<usize>) -> WitnessLayout {
    WitnessLayout { public_wires, private_wires, witness, relabelled: false }
}

#[test]
fn a_witness_with_a_value_for_every_wire_covers_them() {
    assert!(layout(4, 14, Some(18)).is_covered());
    assert!(layout(4, 14, Some(19)).is_covered());
    assert!(layout(1, 0, Some(1)).is_covered());
}

#[test]
fn a_short_witness_does_not_cover_the_wires() {
    assert!(!layout(4, 14, Some(17)).is_covered());
    assert!(!layout(4, 14, Some(0)).is_covered());
    assert!(!layout(4, 16, Some(18)).is_covered());
    assert!(!layout(usize::MAX, 1, Some(usize::MAX)).is_covered());
    assert!(!layout(usize::MAX, usize::MAX, Some(usize::MAX)).is_covered());
}

#[test]
fn an_instance_without_witness_is_not_covered() {
    assert!(!layout(4, 14, None).is_covered());
    assert!(!layout(1, 0, None).is_covered());
}

#[test]
fn an_instance_without_the_constant_wire_is_not_covered() {
    assert!(!layout(0, 0, Some(0)).is_covered());
    assert!(!layout(0, 5, Some(10)).is_covered());
}

#[test]
fn a_relabelled_instance_is_not_covered() {
    let relabelled = WitnessLayout {
        public_wires: 4,
        private_wires: 14,
        witness: Some(18),
        relabelled: true,
    };
    assert!(!relabelled.is_covered());
}


#[test]
fn numbers_below_the_bound_are_found_so() {
    assert!(are_all_below(&vec![], 0));
    assert!(are_all_below(&vec![0, 4, 17], 18));
    assert!(!are_all_below(&vec![0, 18, 4], 18));
    assert!(!are_all_below(&vec![0], 0));
    assert!(!are_all_below(&vec![1, 2, usize::MAX], usize::MAX));
}

fn table(sections: &[(u32, u64)]) -> Vec<u8> {
    let mut bytes = Vec::new();
    bytes.extend_from_slice(b"r1cs");
    bytes.extend_from_slice(&1u32.to_le_bytes());
    bytes.extend_from_slice(&(sections.len() as u32).to_le_bytes());
    for (kind, size) in sections {
        bytes.extend_from_slice(&kind.to_le_bytes());
        bytes.extend_from_slice(&size.to_le_bytes());
        if *size < 1000 {
            bytes.extend_from_slice(&vec![0xaau8; *size as usize]);
        }
    }
    bytes
}

#[test]
fn numbers_are_read_least_significant_byte_first() {
    let bytes = [0x78, 0x56, 0x34, 0x12, 0xf0, 0xde, 0xbc, 0x9a, 0xff];
    assert_eq!(read_word(&bytes, 0), Some(0x1234_5678));
    assert_eq!(read_word(&bytes, 4), Some(0x9abc_def0));
    assert_eq!(read_word(&bytes, 5), Some(0xff9a_bcde));
    assert_eq!(read_word(&bytes, 6), None);
    assert_eq!(read_word(&bytes, u64::MAX), None);
    assert_eq!(read_word(&[], 0), None);
    assert_eq!(read_long(&bytes, 0), Some(0x9abc_def0_1234_5678));
    assert_eq!(read_long(&bytes, 1), Some(0xff9a_bcde_f012_3456));
    assert_eq!(read_long(&bytes, 2), None);
    assert_eq!(read_long(&bytes, u64::MAX - 3), None);
}

#[test]
fn the_header_is_the_content_of_the_section_of_kind_one() {
    assert_eq!(find_header(&table(&[(1, 64), (2, 10), (3, 8)])), Some(24));
    assert_eq!(find_header(&table(&[(2, 10), (1, 64), (3, 8)])), Some(46));
    assert_eq!(find_header(&table(&[(2, 10), (3, 8), (1, 64)])), Some(66));
    assert_eq!(find_header(&table(&[(1, 0)])), Some(24));
}

#[test]
fn the_last_section_of_kind_one_counts() {
    assert_eq!(find_header(&table(&[(1, 64), (2, 10), (1, 64)])), Some(122));
    assert_eq!(find_header(&table(&[(1, 5), (1, 6), (1, 7), (7, 1)])), Some(59));
}

#[test]
fn a_file_without_a_header_has_none() {
    assert_eq!(find_header(&table(&[])), None);
    assert_eq!(find_header(&table(&[(2, 10), (3, 8)])), None);
    assert_eq!(find_header(&[]), None);
    assert_eq!(find_header(b"r1cs"), None);
}

#[test]
fn a_file_that_begins_otherwise_has_no_header() {
    let mut bytes = table(&[(1, 64)]);
    bytes[0] = b'x';
    assert_eq!(find_header(&bytes), None);
    let mut bytes = table(&[(1, 64)]);
    bytes[4] = 2;
    assert_eq!(find_header(&bytes), None);
}

#[test]
fn a_table_that_is_cut_short_has_no_header() {
    let bytes = table(&[(1, 64), (2, 10)]);
    assert_eq!(find_header(&bytes[..bytes.len() - 11]), None);
    assert_eq!(find_header(&bytes[..30]), None);
    let mut more = table(&[(1, 64)]);
    more[8] = 2;
    assert_eq!(find_header(&more), None);
    // The content of the last section need not be there.
    assert_eq!(find_header(&bytes[..bytes.len() - 10]), Some(24));
    assert_eq!(find_header(&table(&[(1, 5000)])), Some(24));
}

#[test]
fn a_size_is_a_signed_step() {
    // A step back over the own section: the walk reads it again.
    let mut bytes = table(&[(1, 0), (2, 0)]);
    bytes[16..24].copy_from_slice(&(-12i64).to_le_bytes());
    assert_eq!(find_header(&bytes), Some(24));
    // A step back to the version, which is read as a section of kind 1.
    bytes[16..24].copy_from_slice(&(-20i64).to_le_bytes());
    assert_eq!(find_header(&bytes), Some(16));
    // A step to before the file.
    bytes[16..24].copy_from_slice(&(-25i64).to_le_bytes());
    assert_eq!(find_header(&bytes), None);
    // A step beyond what 64 bits hold.
    bytes[16..24].copy_from_slice(&i64::MAX.to_le_bytes());
    let mut far = table(&[(1, 0), (2, 0), (3, 0)]);
    far[16..24].copy_from_slice(&(i64::MAX as u64).to_le_bytes());
    assert_eq!(find_header(&far), None);
}

#[test]
fn the_wires_are_declared_behind_the_order_of_the_field() {
    let mut bytes = table(&[(2, 10), (1, 64)]);
    assert_eq!(read_declared_wires(&bytes), Some(0xaaaa_aaaa));
    bytes[46 + 36..46 + 40].copy_from_slice(&18u32.to_le_bytes());
    assert_eq!(read_declared_wires(&bytes), Some(18));
    bytes[46 + 36..46 + 40].copy_from_slice(&0u32.to_le_bytes());
    assert_eq!(read_declared_wires(&bytes), Some(0));
    assert_eq!(read_declared_wires(&bytes[..46 + 39]), None);
    assert_eq!(read_declared_wires(&table(&[(2, 10)])), None);
    assert_eq!(read_declared_wires(&[]), None);
}
