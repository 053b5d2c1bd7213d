use witness_gate::serial::{decode_varint, varint_tail};

#[test]
fn small_values_take_one_byte() {
    assert_eq!(varint_tail(0), 0);
    assert_eq!(varint_tail(0xfc), 0);
    assert_eq!(decode_varint(0, &vec![]), Some(0));
    assert_eq!(decode_varint(0xfc, &vec![]), Some(0xfc));
}

#[test]
fn marker_bytes_announce_the_tail() {
    assert_eq!(varint_tail(0xfd), 2);
    assert_eq!(varint_tail(0xfe), 4);
    assert_eq!(varint_tail(0xff), 8);
}

#[test]
fn tails_are_read_least_significant_first() {
    assert_eq!(decode_varint(0xfd, &vec![0xfd, 0x00]), Some(0xfd));
    assert_eq!(decode_varint(0xfd, &vec![0x34, 0x12]), Some(0x1234));
    assert_eq!(decode_varint(0xfd, &vec![0xff, 0xff]), Some(0xffff));
    assert_eq!(decode_varint(0xfe, &vec![0x00, 0x00, 0x01, 0x00]), Some(0x1_0000));
    assert_eq!(decode_varint(0xfe, &vec![0x78, 0x56, 0x34, 0x12]), Some(0x1234_5678));
    assert_eq!(decode_varint(0xff, &vec![0, 0, 0, 0, 1, 0, 0, 0]), Some(0x1_0000_0000));
    assert_eq!(
        decode_varint(0xff, &vec![0xef, 0xcd, 0xab, 0x89, 0x67, 0x45, 0x23, 0x01]),
        Some(0x0123_4567_89ab_cdef)
    );
    assert_eq!(decode_varint(0xff, &vec![0xff; 8]), Some(u64::MAX));
}

#[test]
fn longer_forms_than_needed_are_refused() {
    assert_eq!(decode_varint(0xfd, &vec![0xfc, 0x00]), None);
    assert_eq!(decode_varint(0xfe, &vec![0xff, 0xff, 0x00, 0x00]), None);
    assert_eq!(decode_varint(0xff, &vec![0xff, 0xff, 0xff, 0xff, 0, 0, 0, 0]), None);
}
