use elf_header::fields::{Endianness, CLASS_32, CLASS_64, MAGIC_BYTES};
use elf_header::header::ElfHeader;

const BOTH_CLASSES: [u8; 2] = [CLASS_32, CLASS_64];

const BOTH_ORDERS: [Endianness; 2] = [Endianness::Little, Endianness::Big];

#[test]
fn serialized_64bit_header_is_exact() {
    let bytes = ElfHeader::new(2, Endianness::Big).serialize();
    let expected: Vec<u8> = vec![
        0x7f, 0x45, 0x4c, 0x46, 0x02, 0x02, 0x01, 0x03, 0x00, 0x00, 0x00, 0x00, 0x00, 0x00, 0x00,
        0x00, // identification block
        0x00, 0x00, // file type
        0x00, 0x00, // machine
        0x00, 0x00, 0x00, 0x00, // version
        0x00, 0x00, 0x00, 0x00, 0x00, 0x00, 0x00, 0x00, // entry point
        0x00, 0x00, 0x00, 0x00, 0x00, 0x00, 0x00, 0x00, // program header offset
        0x00, 0x00, 0x00, 0x00, 0x00, 0x00, 0x00, 0x00, // section header offset
        0x00, 0x00, 0x00, 0x00, // flags
        0x00, 0x40, // header size
        0x00, 0x00, // program header entry size
        0x00, 0x00, // program header count
        0x00, 0x00, // section header entry size
        0x00, 0x00, // section header count
        0x00, 0x00, // section name string table index
    ];
    assert_eq!(bytes, expected);
}

#[test]
fn serialized_64bit_header_scenario() {
    let bytes = ElfHeader::new(2, Endianness::Big).serialize();
    assert_eq!(bytes.len(), 64);
    assert_eq!(&bytes[0..4], &[0x7f, 0x45, 0x4c, 0x46]);
    assert_eq!(bytes[4], 0x02);
    assert_eq!(&bytes[52..54], &[0x00, 0x40]);
    assert_eq!(&bytes[62..64], &[0x00, 0x00]);
}

#[test]
fn serialized_32bit_header_is_exact() {
    let bytes = ElfHeader::new(1, Endianness::Big).serialize();
    let expected: Vec<u8> = vec![
        0x7f, 0x45, 0x4c, 0x46, 0x01, 0x02, 0x01, 0x03, 0x00, 0x00, 0x00, 0x00, 0x00, 0x00, 0x00,
        0x00, // identification block
        0x00, 0x00, // file type
        0x00, 0x00, // machine
        0x00, 0x00, 0x00, 0x00, // version
        0x00, 0x00, 0x00, 0x00, // entry point
        0x00, 0x00, 0x00, 0x00, // program header offset
        0x00, 0x00, 0x00, 0x00, // section header offset
        0x00, 0x00, 0x00, 0x00, // flags
        0x00, 0x34, // header size
        0x00, 0x00, // program header entry size
        0x00, 0x00, // program header count
        0x00, 0x00, // section header entry size
        0x00, 0x00, // section header count
        0x00, 0x00, // section name string table index
    ];
    assert_eq!(bytes, expected);
}

#[test]
fn serialized_32bit_header_scenario() {
    let bytes = ElfHeader::new(1, Endianness::Big).serialize();
    assert_eq!(bytes.len(), 52);
    assert_eq!(bytes[4], 0x01);
    assert_eq!(&bytes[40..42], &[0x00, 52]);
    assert_eq!(u16::from_be_bytes([bytes[40], bytes[41]]), 52);
}

#[test]
fn serialized_header_starts_with_magic() {
    for class in BOTH_CLASSES {
        for order in BOTH_ORDERS {
            let bytes = ElfHeader::new(class, order).serialize();
            assert_eq!(&bytes[0..4], &[0x7f, b'E', b'L', b'F']);
            assert_eq!(&bytes[0..4], &MAGIC_BYTES);
        }
    }
}

#[test]
fn serialized_length_is_fixed_by_class() {
    for order in BOTH_ORDERS {
        assert_eq!(ElfHeader::new(CLASS_64, order).serialize().len(), 64);
        assert_eq!(ElfHeader::new(CLASS_32, order).serialize().len(), 52);
    }
}

#[test]
fn header_size_field_equals_serialized_length() {
    for order in BOTH_ORDERS {
        let wide = ElfHeader::new(CLASS_64, order).serialize();
        assert_eq!(u16::from_be_bytes([wide[52], wide[53]]), 64);
        assert_eq!(u16::from_be_bytes([wide[52], wide[53]]) as usize, wide.len());

        let narrow = ElfHeader::new(CLASS_32, order).serialize();
        assert_eq!(u16::from_be_bytes([narrow[40], narrow[41]]), 52);
        assert_eq!(u16::from_be_bytes([narrow[40], narrow[41]]) as usize, narrow.len());
    }
}

#[test]
fn serialized_length_equals_recorded_header_size() {
    for class in BOTH_CLASSES {
        for order in BOTH_ORDERS {
            let header = ElfHeader::new(class, order);
            assert_eq!(header.serialize().len(), header.header_size() as usize);
        }
    }
}

#[test]
fn address_fields_are_all_zero() {
    for order in BOTH_ORDERS {
        let wide = ElfHeader::new(CLASS_64, order).serialize();
        assert_eq!(&wide[24..48], &[0u8; 24]);

        let narrow = ElfHeader::new(CLASS_32, order).serialize();
        assert_eq!(&narrow[24..36], &[0u8; 12]);
    }
}

#[test]
fn declared_byte_order_sets_only_the_data_encoding_byte() {
    for class in BOTH_CLASSES {
        let little = ElfHeader::new(class, Endianness::Little).serialize();
        let big = ElfHeader::new(class, Endianness::Big).serialize();
        assert_eq!(little.len(), big.len());
        assert_eq!(little[5], 1);
        assert_eq!(big[5], 2);
        for i in 0..little.len() {
            if i != 5 {
                assert_eq!(little[i], big[i]);
            }
        }
    }
}

#[test]
fn header_size_is_big_endian_under_little_declaration() {
    let wide = ElfHeader::new(CLASS_64, Endianness::Little).serialize();
    assert_eq!(&wide[52..54], &[0x00, 0x40]);
    let narrow = ElfHeader::new(CLASS_32, Endianness::Little).serialize();
    assert_eq!(&narrow[40..42], &[0x00, 0x34]);
}

#[test]
fn identification_block_is_sixteen_bytes() {
    let bytes = ElfHeader::new(CLASS_32, Endianness::Little).serialize();
    assert_eq!(
        &bytes[0..16],
        &[0x7f, 0x45, 0x4c, 0x46, 0x01, 0x01, 0x01, 0x03, 0, 0, 0, 0, 0, 0, 0, 0]
    );
}

#[test]
fn serializing_twice_gives_the_same_bytes() {
    let header = ElfHeader::new(CLASS_64, Endianness::Big);
    assert_eq!(header.serialize(), header.serialize());
}
