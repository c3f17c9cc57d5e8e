use elf_header::big_endian::push_be;

fn encode(value: u64, width: usize) -> Vec<u8> {
    let mut out = Vec::new();
    push_be(&mut out, value, width);
    out
}

#[test]
fn full_width_is_most_significant_byte_first() {
    assert_eq!(
        encode(0x1122_3344_5566_7788, 8),
        vec![0x11, 0x22, 0x33, 0x44, 0x55, 0x66, 0x77, 0x88]
    );
    assert_eq!(encode(0x1122_3344_5566_7788, 8), 0x1122_3344_5566_7788u64.to_be_bytes().to_vec());
}

#[test]
fn narrow_width_keeps_the_low_bytes() {
    assert_eq!(encode(0x1122_3344_5566_7788, 4), vec![0x55, 0x66, 0x77, 0x88]);
    assert_eq!(encode(0x1122_3344_5566_7788, 2), vec![0x77, 0x88]);
    assert_eq!(encode(0x1122_3344_5566_7788, 1), vec![0x88]);
}

#[test]
fn narrow_encoding_is_the_tail_of_the_wide_one() {
    for value in [0u64, 1, 0xff, 0x100, 0xdead_beef, 0x1_0000_0000, u64::MAX] {
        let wide = encode(value, 8);
        for width in 0..=8usize {
            assert_eq!(encode(value, width), wide[8 - width..].to_vec());
        }
    }
}

#[test]
fn width_zero_appends_nothing() {
    assert_eq!(encode(0x1234, 0), Vec::<u8>::new());
}

#[test]
fn width_beyond_eight_pads_with_leading_zeros() {
    assert_eq!(
        encode(0x1122_3344_5566_7788, 10),
        vec![0x00, 0x00, 0x11, 0x22, 0x33, 0x44, 0x55, 0x66, 0x77, 0x88]
    );
    assert_eq!(encode(u64::MAX, 9), vec![0x00, 0xff, 0xff, 0xff, 0xff, 0xff, 0xff, 0xff, 0xff]);
}

#[test]
fn zero_encodes_as_zero_bytes() {
    assert_eq!(encode(0, 4), vec![0, 0, 0, 0]);
    assert_eq!(encode(0, 8), vec![0u8; 8]);
}

#[test]
fn header_sizes_in_two_bytes() {
    assert_eq!(encode(64, 2), vec![0x00, 0x40]);
    assert_eq!(encode(52, 2), vec![0x00, 0x34]);
    assert_eq!(encode(0x0102, 2), vec![0x01, 0x02]);
}

#[test]
fn extremes() {
    assert_eq!(encode(u64::MAX, 8), vec![0xff; 8]);
    assert_eq!(encode(u64::MAX, 4), vec![0xff; 4]);
    assert_eq!(encode(0xffff_ffff, 8), vec![0, 0, 0, 0, 0xff, 0xff, 0xff, 0xff]);
    assert_eq!(encode(0x8000_0000_0000_0000, 8), vec![0x80, 0, 0, 0, 0, 0, 0, 0]);
}

#[test]
fn appends_after_what_is_already_there() {
    let mut out = vec![0xaa, 0xbb];
    push_be(&mut out, 0x0102_0304, 4);
    assert_eq!(out, vec![0xaa, 0xbb, 0x01, 0x02, 0x03, 0x04]);
    push_be(&mut out, 0x0506, 2);
    assert_eq!(out, vec![0xaa, 0xbb, 0x01, 0x02, 0x03, 0x04, 0x05, 0x06]);
}
