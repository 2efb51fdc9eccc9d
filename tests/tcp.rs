use packet_builder::error::DecodeError;
use packet_builder::tcp_header::{TcpFlags, TcpHeader};
use packet_builder::tcp_options::{TcpOption, TcpOptions};
use packet_builder::tcp_packet::TcpPacket;

#[test]
fn test_tcp_flags_new() {
    let flags = TcpFlags::new();
    assert!(!flags.cwr);
    assert!(!flags.ece);
    assert!(!flags.urg);
    assert!(!flags.ack);
    assert!(!flags.psh);
    assert!(!flags.rst);
    assert!(!flags.syn);
    assert!(!flags.fin);
}

#[test]
fn test_tcp_flags_to_u16() {
    let mut flags = TcpFlags::new();
    flags.syn = true;
    flags.ack = true;

    let expect = 0x12;
    let actual = flags.to_u16();
    assert_eq!(expect, actual);
}

#[test]
fn test_tcp_flags_from_u16() {
    let flags_value = 0x12;
    let actual = TcpFlags::from_u16(flags_value);

    assert!(!actual.cwr);
    assert!(!actual.ece);
    assert!(!actual.urg);
    assert!(actual.ack);
    assert!(!actual.psh);
    assert!(!actual.rst);
    assert!(actual.syn);
    assert!(!actual.fin);
}

#[test]
fn test_tcp_header_new() {
    let actual = TcpHeader::new(80, 8080);

    assert_eq!(80, actual.source_port);
    assert_eq!(8080, actual.destination_port);
    assert_eq!(0, actual.sequence_number);
    assert_eq!(0, actual.acknowledgment_number);
    assert_eq!(5, actual.data_offset);
    assert_eq!(0, actual.reserved);
    assert_eq!(TcpFlags::new(), actual.flags);
    assert_eq!(0, actual.window);
    assert_eq!(0, actual.checksum);
    assert_eq!(0, actual.urgent_pointer);
}

#[test]
fn test_tcp_header_to_bytes() {
    let mut header = TcpHeader::new(80, 8080);
    header.sequence_number = 0x12345678;
    header.acknowledgment_number = 0x87654321;
    header.flags.syn = true;
    header.window = 65535;

    let actual = header.to_bytes();
    let expect = vec![
        0x00, 0x50, // Source port: 80
        0x1f, 0x90, // Destination port: 8080
        0x12, 0x34, 0x56, 0x78, // Sequence number
        0x87, 0x65, 0x43, 0x21, // Acknowledgment number
        0x50, // Data offset (5) + Reserved (0)
        0x02, // Flags: SYN
        0xff, 0xff, // Window: 65535
        0x00, 0x00, // Checksum: 0
        0x00, 0x00, // Urgent pointer: 0
    ];
    assert_eq!(expect, actual);
}

#[test]
fn test_tcp_header_from_bytes() {
    let bytes = vec![
        0x00, 0x50, // Source port: 80
        0x1f, 0x90, // Destination port: 8080
        0x12, 0x34, 0x56, 0x78, // Sequence number
        0x87, 0x65, 0x43, 0x21, // Acknowledgment number
        0x50, // Data offset (5) + Reserved (0)
        0x02, // Flags: SYN
        0xff, 0xff, // Window: 65535
        0x12, 0x34, // Checksum
        0x00, 0x00, // Urgent pointer: 0
    ];

    let actual = TcpHeader::from_bytes(&bytes).unwrap();

    assert_eq!(80, actual.source_port);
    assert_eq!(8080, actual.destination_port);
    assert_eq!(0x12345678, actual.sequence_number);
    assert_eq!(0x87654321, actual.acknowledgment_number);
    assert_eq!(5, actual.data_offset);
    assert_eq!(0, actual.reserved);
    assert!(actual.flags.syn);
    assert!(!actual.flags.ack);
    assert_eq!(65535, actual.window);
    assert_eq!(0x1234, actual.checksum);
    assert_eq!(0, actual.urgent_pointer);
}

#[test]
fn test_tcp_packet_new() {
    let payload = b"Hello";
    let actual = TcpPacket::new(80, 8080, payload);

    assert_eq!(80, actual.header.source_port);
    assert_eq!(8080, actual.header.destination_port);
    assert_eq!(0, actual.options.options.len());
    assert_eq!(payload, actual.payload);
}

#[test]
fn test_tcp_packet_update_data_offset() {
    let payload = b"Hello";
    let mut packet = TcpPacket::new(80, 8080, payload);

    packet.update_data_offset();
    assert_eq!(5, packet.header.data_offset);

    packet.options.add(TcpOption::MaximumSegmentSize(1460));
    packet.update_data_offset();
    assert_eq!(6, packet.header.data_offset);
}

#[test]
fn test_tcp_packet_syn_with_mss() {
    let payload = b"";
    let mut packet = TcpPacket::new(12345, 80, payload);

    packet.header.flags.syn = true;
    packet.header.sequence_number = 0x12345678;
    packet.header.window = 65535;

    packet.options.add(TcpOption::MaximumSegmentSize(1460));

    let src_ip = [192, 168, 1, 100];
    let dst_ip = [192, 168, 1, 1];
    let actual = packet.to_bytes_ipv4(src_ip, dst_ip);

    assert_eq!(24, actual.len());

    assert_eq!(0x30, actual[0]);
    assert_eq!(0x39, actual[1]);
    assert_eq!(0x00, actual[2]);
    assert_eq!(0x50, actual[3]);

    assert_eq!(0x02, actual[13]);

    assert_eq!(0x60, actual[12]);

    assert_eq!(0x02, actual[20]);
    assert_eq!(0x04, actual[21]);
    assert_eq!(0x05, actual[22]);
    assert_eq!(0xb4, actual[23]);
}

#[test]
fn test_tcp_checksum_ipv4() {
    let payload = b"";
    let mut packet = TcpPacket::new(80, 8080, payload);
    packet.header.sequence_number = 0x12345678;
    packet.header.flags.syn = true;

    let src_ip = [192, 168, 1, 1];
    let dst_ip = [192, 168, 1, 100];

    let actual = packet.calculate_checksum_ipv4(src_ip, dst_ip);
    assert_ne!(0, actual);
}

#[test]
fn test_tcp_checksum_ipv6() {
    let payload = b"";
    let mut packet = TcpPacket::new(80, 8080, payload);
    packet.header.sequence_number = 0x12345678;
    packet.header.flags.syn = true;

    let src_ip = [
        0x20, 0x01, 0x0d, 0xb8, 0x00, 0x00, 0x00, 0x00, 0x00, 0x00, 0x00, 0x00, 0x00, 0x00,
        0x00, 0x01,
    ];
    let dst_ip = [
        0x20, 0x01, 0x0d, 0xb8, 0x00, 0x00, 0x00, 0x00, 0x00, 0x00, 0x00, 0x00, 0x00, 0x00,
        0x00, 0x02,
    ];

    let actual = packet.calculate_checksum_ipv6(src_ip, dst_ip);
    assert_ne!(0, actual);
}

#[test]
fn test_tcp_option_end_of_list() {
    let option = TcpOption::EndOfOptionList;
    assert_eq!(0, option.kind());
    assert_eq!(1, option.length());

    let expect = vec![0];
    let actual = option.to_bytes();
    assert_eq!(expect, actual);
}

#[test]
fn test_tcp_option_no_operation() {
    let option = TcpOption::NoOperation;
    assert_eq!(1, option.kind());
    assert_eq!(1, option.length());

    let expect = vec![1];
    let actual = option.to_bytes();
    assert_eq!(expect, actual);
}

#[test]
fn test_tcp_option_mss() {
    let option = TcpOption::MaximumSegmentSize(1460);
    assert_eq!(2, option.kind());
    assert_eq!(4, option.length());

    let expect = vec![2, 4, 0x05, 0xb4];
    let actual = option.to_bytes();
    assert_eq!(expect, actual);
}

#[test]
fn test_tcp_option_from_bytes_eol() {
    let bytes = vec![0];
    let (actual, consumed) = TcpOption::from_bytes(&bytes).unwrap();

    assert_eq!(TcpOption::EndOfOptionList, actual);
    assert_eq!(1, consumed);
}

#[test]
fn test_tcp_option_from_bytes_nop() {
    let bytes = vec![1];
    let (actual, consumed) = TcpOption::from_bytes(&bytes).unwrap();

    assert_eq!(TcpOption::NoOperation, actual);
    assert_eq!(1, consumed);
}

#[test]
fn test_tcp_option_from_bytes_mss() {
    let bytes = vec![2, 4, 0x05, 0xb4];
    let (actual, consumed) = TcpOption::from_bytes(&bytes).unwrap();

    assert_eq!(TcpOption::MaximumSegmentSize(1460), actual);
    assert_eq!(4, consumed);
}

#[test]
fn test_tcp_options_new() {
    let options = TcpOptions::new();
    assert!(options.options.is_empty());
    assert_eq!(0, options.total_length());
    assert_eq!(0, options.words_needed());
}

#[test]
fn test_tcp_options_add_mss() {
    let mut options = TcpOptions::new();
    options.add(TcpOption::MaximumSegmentSize(1460));

    assert_eq!(1, options.options.len());
    assert_eq!(4, options.total_length());
    assert_eq!(1, options.words_needed());
}

#[test]
fn test_tcp_options_padding() {
    let mut options = TcpOptions::new();
    options.add(TcpOption::NoOperation);
    options.add(TcpOption::MaximumSegmentSize(1460));

    assert_eq!(5, options.total_length());
    assert_eq!(2, options.words_needed());

    let actual = options.to_bytes();
    let expect = vec![1, 2, 4, 0x05, 0xb4, 0, 0, 0];
    assert_eq!(expect, actual);
}

#[test]
fn test_tcp_options_syn_with_mss() {
    let mut options = TcpOptions::new();
    options.add(TcpOption::MaximumSegmentSize(1460));

    let actual = options.to_bytes();
    let expect = vec![2, 4, 0x05, 0xb4];
    assert_eq!(expect, actual);
}

#[test]
fn test_tcp_options_from_bytes() {
    let bytes = vec![1, 2, 4, 0x05, 0xb4, 0, 0, 0];

    let actual = TcpOptions::from_bytes(&bytes).unwrap();

    assert_eq!(2, actual.options.len());
    assert_eq!(TcpOption::NoOperation, actual.options[0]);
    assert_eq!(TcpOption::MaximumSegmentSize(1460), actual.options[1]);
}

#[test]
fn tcp_header_from_short_input_fails() {
    let bytes = [0u8; 19];
    assert_eq!(Err(DecodeError::InsufficientLength), TcpHeader::from_bytes(&bytes));
}

#[test]
fn tcp_header_round_trip() {
    let mut header = TcpHeader::new(0xABCD, 0x0102);
    header.sequence_number = 0xDEADBEEF;
    header.acknowledgment_number = 0x01020304;
    header.data_offset = 15;
    header.reserved = 5;
    header.flags = TcpFlags::from_u16(0xA5);
    header.window = 0x7FFF;
    header.checksum = 0x4242;
    header.urgent_pointer = 9;
    let bytes = header.to_bytes();
    assert_eq!(0xF5, bytes[12]);
    assert_eq!(0xA5, bytes[13]);
    assert_eq!(header, TcpHeader::from_bytes(&bytes).unwrap());
}

#[test]
fn tcp_flags_every_bit() {
    for v in 0u16..256 {
        assert_eq!(v, TcpFlags::from_u16(v).to_u16());
    }
    assert_eq!(0xFF, TcpFlags::from_u16(0x1FF).to_u16());
}

#[test]
fn tcp_options_decode_errors() {
    assert_eq!(Err(DecodeError::UnknownOption), TcpOptions::from_bytes(&[255]));
    assert_eq!(Err(DecodeError::TruncatedOption), TcpOptions::from_bytes(&[2, 5, 0x05, 0xb4]));
    assert_eq!(Err(DecodeError::TruncatedOption), TcpOptions::from_bytes(&[2, 4, 0x05]));
    assert_eq!(Err(DecodeError::InsufficientLength), TcpOption::from_bytes(&[]));
    assert_eq!(Err(DecodeError::UnknownOption), TcpOption::from_bytes(&[255]));
    assert_eq!(Err(DecodeError::TruncatedOption), TcpOption::from_bytes(&[2, 3, 0, 0]));
}

#[test]
fn tcp_options_zero_byte_is_padding() {
    let decoded = TcpOptions::from_bytes(&[0, 0, 0, 0]).unwrap();
    assert!(decoded.options.is_empty());
    let decoded = TcpOptions::from_bytes(&[1, 0, 255, 255]).unwrap();
    assert_eq!(vec![TcpOption::NoOperation], decoded.options);
}

#[test]
fn tcp_options_round_trip_without_end_marker() {
    let mut options = TcpOptions::new();
    options.add(TcpOption::MaximumSegmentSize(0xFFFF));
    options.add(TcpOption::NoOperation);
    options.add(TcpOption::MaximumSegmentSize(0));
    let bytes = options.to_bytes();
    assert_eq!(vec![2, 4, 0xFF, 0xFF, 1, 2, 4, 0, 0, 0, 0, 0], bytes);
    assert_eq!(9, options.total_length());
    assert_eq!(3, options.words_needed());
    assert_eq!(options, TcpOptions::from_bytes(&bytes).unwrap());
}

#[test]
fn tcp_syn_with_mss_checksum_value() {
    let mut packet = TcpPacket::new(12345, 80, b"");
    packet.header.flags.syn = true;
    packet.header.sequence_number = 0x12345678;
    packet.header.window = 65535;
    packet.options.add(TcpOption::MaximumSegmentSize(1460));
    let bytes = packet.to_bytes_ipv4([192, 168, 1, 100], [192, 168, 1, 1]);
    assert_eq!(0x7b3b, packet.header.checksum);
    assert_eq!([0x7b, 0x3b], [bytes[16], bytes[17]]);
    assert_eq!(0x7b3b, packet.calculate_checksum_ipv4([192, 168, 1, 100], [192, 168, 1, 1]));
}

#[test]
fn tcp_ipv6_checksum_value() {
    let mut packet = TcpPacket::new(80, 443, b"test");
    packet.header.flags.syn = true;
    let mut src = [0u8; 16];
    let mut dst = [0u8; 16];
    src[0] = 0x20;
    src[1] = 0x01;
    src[15] = 0x01;
    dst[0] = 0x20;
    dst[1] = 0x01;
    dst[15] = 0x02;
    let bytes = packet.to_bytes_ipv6(src, dst);
    assert_eq!(24, bytes.len());
    assert_eq!(0x50, bytes[12]);
    assert_eq!(b"test", &bytes[20..24]);
    assert_eq!(0x85f5, packet.header.checksum);
}
