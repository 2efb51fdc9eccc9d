use packet_builder::address::{Ipv4Addr, MacAddr, MacAddress};

#[test]
fn ipv4_addr_test_new() {
    let expect = Ipv4Addr::new(127, 0, 0, 1);
    let actual = Ipv4Addr::new(127, 0, 0, 1);
    assert_eq!(expect, actual);
}

#[test]
fn test_to_bytes() {
    let ipv4_addr = Ipv4Addr::new(192, 168, 1, 1);
    let expect = [192, 168, 1, 1];
    let actual = ipv4_addr.to_bytes();
    assert_eq!(expect, actual);
}

#[test]
fn mac_addr_test_new() {
    let expect = MacAddr(1, 2, 3, 4, 5, 6);
    let actual = MacAddr::new(1, 2, 3, 4, 5, 6);
    assert_eq!(expect, actual);
}

#[test]
fn mac_addr_test_broadcast() {
    let expect = MacAddr(0xff, 0xff, 0xff, 0xff, 0xff, 0xff);
    let actual = MacAddr::broadcast();
    assert_eq!(expect, actual);
}

#[test]
fn mac_addr_test_octets() {
    let mac = MacAddr::new(1, 2, 3, 4, 5, 6);
    let expect = [1, 2, 3, 4, 5, 6];
    let actual = mac.octets();
    assert_eq!(expect, actual);
}

#[test]
fn mac_addr_test_is_broadcast() {
    let mac = MacAddr::broadcast();
    assert!(mac.is_broadcast());

    let mac = MacAddr::new(1, 2, 3, 4, 5, 6);
    assert!(!mac.is_broadcast());
}

#[test]
fn mac_addr_test_is_multicast() {
    let mac = MacAddr::new(0x01, 0x02, 0x03, 0x04, 0x05, 0x06);
    assert!(mac.is_multicast());

    let mac = MacAddr::new(0x00, 0x02, 0x03, 0x04, 0x05, 0x06);
    assert!(!mac.is_multicast());
}

#[test]
fn mac_addr_test_is_unicast() {
    let mac = MacAddr::new(0x02, 0x02, 0x03, 0x04, 0x05, 0x06);
    assert!(mac.is_unicast());

    let mac = MacAddr::new(0x01, 0x02, 0x03, 0x04, 0x05, 0x06);
    assert!(!mac.is_unicast());
}

#[test]
fn mac_addr_test_is_local() {
    let mac = MacAddr::new(0x02, 0x02, 0x03, 0x04, 0x05, 0x06);
    assert!(mac.is_local());

    let mac = MacAddr::new(0x01, 0x02, 0x03, 0x04, 0x05, 0x06);
    assert!(!mac.is_local());
}

#[test]
fn mac_addr_test_is_universal() {
    let mac = MacAddr::new(0x01, 0x02, 0x03, 0x04, 0x05, 0x06);
    assert!(mac.is_universal());

    let mac = MacAddr::new(0x02, 0x02, 0x03, 0x04, 0x05, 0x06);
    assert!(!mac.is_universal());
}

#[test]
fn test_display() {
    let mac = MacAddr::new(0x00, 0x01, 0x02, 0x03, 0x04, 0x05);
    let expect = "00:01:02:03:04:05";
    let actual = mac.to_string();
    assert_eq!(expect, actual);
}

#[test]
fn mac_address_test_new() {
    let expect = MacAddress(1, 2, 3, 4, 5, 6);
    let actual = MacAddress::new(1, 2, 3, 4, 5, 6);
    assert_eq!(expect, actual);
}

#[test]
fn mac_address_test_broadcast() {
    let expect = MacAddress(0xff, 0xff, 0xff, 0xff, 0xff, 0xff);
    let actual = MacAddress::broadcast();
    assert_eq!(expect, actual);
}

#[test]
fn mac_address_test_octets() {
    let mac = MacAddress::new(1, 2, 3, 4, 5, 6);
    let expect = [1, 2, 3, 4, 5, 6];
    let actual = mac.octets();
    assert_eq!(expect, actual);
}

#[test]
fn mac_address_test_is_broadcast() {
    let mac = MacAddress::broadcast();
    assert!(mac.is_broadcast());

    let mac = MacAddress::new(1, 2, 3, 4, 5, 6);
    assert!(!mac.is_broadcast());
}

#[test]
fn mac_address_test_is_multicast() {
    let mac = MacAddress::new(0x01, 0x02, 0x03, 0x04, 0x05, 0x06);
    assert!(mac.is_multicast());

    let mac = MacAddress::new(0x00, 0x02, 0x03, 0x04, 0x05, 0x06);
    assert!(!mac.is_multicast());
}

#[test]
fn mac_address_test_is_unicast() {
    let mac = MacAddress::new(0x02, 0x02, 0x03, 0x04, 0x05, 0x06);
    assert!(mac.is_unicast());

    let mac = MacAddress::new(0x01, 0x02, 0x03, 0x04, 0x05, 0x06);
    assert!(!mac.is_unicast());
}

#[test]
fn mac_address_test_is_local() {
    let mac = MacAddress::new(0x02, 0x02, 0x03, 0x04, 0x05, 0x06);
    assert!(mac.is_local());

    let mac = MacAddress::new(0x01, 0x02, 0x03, 0x04, 0x05, 0x06);
    assert!(!mac.is_local());
}

#[test]
fn mac_address_test_is_universal() {
    let mac = MacAddress::new(0x01, 0x02, 0x03, 0x04, 0x05, 0x06);
    assert!(mac.is_universal());

    let mac = MacAddress::new(0x02, 0x02, 0x03, 0x04, 0x05, 0x06);
    assert!(!mac.is_universal());
}

#[test]
fn mac_addr_text_uses_lower_case_hex() {
    let mac = MacAddr::new(0xab, 0xcd, 0xef, 0x10, 0x9a, 0xff);
    assert_eq!("ab:cd:ef:10:9a:ff", mac.to_string());
}

#[test]
fn mac_addr_local_multicast_bits_are_independent() {
    let mac = MacAddr::new(0x03, 0, 0, 0, 0, 0);
    assert!(mac.is_multicast());
    assert!(mac.is_local());
    assert!(!mac.is_unicast());
    assert!(!mac.is_universal());
    assert!(!mac.is_broadcast());
}
