use packet_builder::checksum::checksum;

#[test]
fn checksum_of_empty_input_is_all_ones() {
    assert_eq!(0xFFFF, checksum(&[]));
}

#[test]
fn checksum_of_zeros_is_all_ones() {
    assert_eq!(0xFFFF, checksum(&[0, 0]));
    assert_eq!(0xFFFF, checksum(&[0u8; 20]));
    assert_eq!(0xFFFF, checksum(&[0u8; 1500]));
}

#[test]
fn checksum_pads_an_odd_byte_on_the_right() {
    assert_eq!(0x00FF, checksum(&[0xFF]));
    assert_eq!(0xFBFD, checksum(&[1, 2, 3]));
}

#[test]
fn checksum_folds_carries() {
    // 0xFFFF + 0x0001 = 0x10000, folded to 0x0001, complemented to 0xFFFE
    assert_eq!(0xFFFE, checksum(&[0xFF, 0xFF, 0x00, 0x01]));
    assert_eq!(0x0000, checksum(&[0xFF, 0xFF]));
}

#[test]
fn checksum_of_known_ipv4_header() {
    let header = [
        0x45, 0x00, 0x00, 0x18, 0x00, 0x00, 0x00, 0x00, 0x40, 0x11, 0x00, 0x00, 0x0a, 0x00,
        0x00, 0x01, 0x0a, 0x00, 0x00, 0x02,
    ];
    assert_eq!(0x66D3, checksum(&header));
}
