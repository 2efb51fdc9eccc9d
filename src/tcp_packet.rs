//! A TCP segment: header, options and a borrowed payload, with the
//! checksum over an IPv4 or IPv6 pseudo-header.
use crate::checksum::{checksum, internet_checksum};
use crate::tcp_header::{tcp_flags_none, tcp_header_bytes, TcpHeader};
use crate::tcp_options::{tcp_options_bytes, tcp_options_len, tcp_options_words, TcpOptions};
use crate::wire::{be16, be32, extend_bytes, push_be16, push_be32};
use vstd::arithmetic::div_mod::lemma_add_mod_noop_right;
use vstd::prelude::*;

verus! {

/// The protocol number of TCP, as the pseudo-header carries it.
pub const TCP_PROTOCOL: u8 = 6;

/// A TCP segment whose payload is borrowed from the caller.
#[derive(Debug, PartialEq)]
pub struct TcpPacket<'a> {
    pub header: TcpHeader,
    pub options: TcpOptions,
    pub payload: &'a [u8],
}

/// The segment length that the pseudo-header states: the header length that
/// `data_offset` gives, plus the payload.
pub open spec fn tcp_segment_len(p: TcpPacket) -> int {
    p.header.data_offset * 4 + p.payload@.len()
}

/// The pseudo-header for addresses `src` and `dst`. With 4-byte addresses
/// (IPv4): the addresses, a zero byte, the protocol, and the segment length
/// in 16 bits. With 16-byte addresses (IPv6): the addresses, the segment
/// length in 32 bits, three zero bytes and the next-header value.
pub open spec fn tcp_pseudo_header(src: Seq<u8>, dst: Seq<u8>, len: int) -> Seq<u8> {
    if src.len() == 4 {
        src + dst + seq![0u8, TCP_PROTOCOL] + be16((len % 0x1_0000) as u16)
    } else {
        src + dst + be32((len % 0x1_0000_0000) as u32) + seq![0u8, 0u8, 0u8, TCP_PROTOCOL]
    }
}

/// The header bytes with the checksum field zeroed.
pub open spec fn tcp_header_bytes_unsummed(h: TcpHeader) -> Seq<u8> {
    tcp_header_bytes(h).update(16, 0).update(17, 0)
}

/// The checksum of `p` under `pseudo`: over the pseudo-header, the header
/// with its checksum field zeroed, the options and the payload.
pub open spec fn tcp_segment_checksum(p: TcpPacket, pseudo: Seq<u8>) -> u16 {
    internet_checksum(
        pseudo + tcp_header_bytes_unsummed(p.header) + tcp_options_bytes(p.options.options@)
            + p.payload@,
    )
}

/// The checksum of `p` carried between two network addresses.
pub open spec fn tcp_checksum_between(p: TcpPacket, src: Seq<u8>, dst: Seq<u8>) -> u16 {
    tcp_segment_checksum(p, tcp_pseudo_header(src, dst, tcp_segment_len(p)))
}

/// The segment on the wire: header, options, payload.
pub open spec fn tcp_packet_bytes(p: TcpPacket) -> Seq<u8> {
    tcp_header_bytes(p.header) + tcp_options_bytes(p.options.options@) + p.payload@
}

/// Options whose word count fits the arithmetic of the data offset.
pub open spec fn tcp_options_fit(o: TcpOptions) -> bool {
    tcp_options_len(o.options@) + 3 <= usize::MAX && tcp_options_words(o.options@) <= 250
}

proof fn lemma_unsummed_ignores_checksum(h: TcpHeader, c: u16)
    ensures
        tcp_header_bytes_unsummed(TcpHeader { checksum: c, ..h }) == tcp_header_bytes_unsummed(
            h,
        ),
{
    assert(tcp_header_bytes_unsummed(TcpHeader { checksum: c, ..h }) =~= tcp_header_bytes_unsummed(
        h,
    ));
}

impl<'a> TcpPacket<'a> {
    /// A segment between two ports, with no options and no flag set.
    pub fn new(source_port: u16, destination_port: u16, payload: &'a [u8]) -> (r: Self)
        ensures
            r.header == (TcpHeader {
                source_port,
                destination_port,
                sequence_number: 0,
                acknowledgment_number: 0,
                data_offset: 5,
                reserved: 0,
                flags: tcp_flags_none(),
                window: 0,
                checksum: 0,
                urgent_pointer: 0,
            }),
            r.options.options@ == Seq::<crate::tcp_options::TcpOption>::empty(),
            r.payload@ == payload@,
    {
        TcpPacket { header: TcpHeader::new(source_port, destination_port), options: TcpOptions::new(), payload }
    }

    /// Sets the data offset to the five words of the fixed header plus the
    /// words the options take.
    pub fn update_data_offset(&mut self)
        requires
            tcp_options_fit(old(self).options),
        ensures
            final(self).header == (TcpHeader {
                data_offset: (5 + tcp_options_words(old(self).options.options@)) as u8,
                ..old(self).header
            }),
            final(self).options == old(self).options,
            final(self).payload == old(self).payload,
    {
        let header_words: u8 = 5;
        let option_words = self.options.words_needed();
        self.header.data_offset = header_words + option_words;
    }

    /// The pseudo-header for this segment between `src` and `dst`, which are
    /// both IPv4 or both IPv6 addresses.
    fn pseudo_header(&self, src: &[u8], dst: &[u8]) -> (r: Vec<u8>)
        requires
            src@.len() == dst@.len(),
            src@.len() == 4 || src@.len() == 16,
        ensures
            r@ == tcp_pseudo_header(src@, dst@, tcp_segment_len(*self)),
    {
        let mut bytes: Vec<u8> = Vec::new();
        extend_bytes(&mut bytes, src);
        extend_bytes(&mut bytes, dst);
        let header_len = (self.header.data_offset as u64) * 4;
        let payload_len = self.payload.len() as u64;
        if src.len() == 4 {
            let len = ((header_len + payload_len % 0x1_0000) % 0x1_0000) as u16;
            proof {
                lemma_add_mod_noop_right(header_len as int, payload_len as int, 0x1_0000);
            }
            bytes.push(0);
            bytes.push(TCP_PROTOCOL);
            push_be16(&mut bytes, len);
        } else {
            let len = ((header_len + payload_len % 0x1_0000_0000) % 0x1_0000_0000) as u32;
            proof {
                lemma_add_mod_noop_right(header_len as int, payload_len as int, 0x1_0000_0000);
            }
            push_be32(&mut bytes, len);
            bytes.push(0);
            bytes.push(0);
            bytes.push(0);
            bytes.push(TCP_PROTOCOL);
        }
        assert(bytes@ =~= tcp_pseudo_header(src@, dst@, tcp_segment_len(*self)));
        bytes
    }

    /// The checksum of this segment under the pseudo-header `pseudo`.
    fn segment_checksum(&self, pseudo: Vec<u8>) -> (r: u16)
        ensures
            r == tcp_segment_checksum(*self, pseudo@),
    {
        let mut bytes = pseudo;
        let mut header_bytes = self.header.to_bytes();
        header_bytes[16] = 0;
        header_bytes[17] = 0;
        bytes.append(&mut header_bytes);
        let mut option_bytes = self.options.to_bytes();
        bytes.append(&mut option_bytes);
        extend_bytes(&mut bytes, self.payload);
        checksum(bytes.as_slice())
    }

    /// The checksum of this segment carried over IPv4 from `src_ip` to
    /// `dst_ip`.
    pub fn calculate_checksum_ipv4(&self, src_ip: [u8; 4], dst_ip: [u8; 4]) -> (r: u16)
        ensures
            r == tcp_checksum_between(*self, src_ip@, dst_ip@),
    {
        let pseudo = self.pseudo_header(src_ip.as_slice(), dst_ip.as_slice());
        self.segment_checksum(pseudo)
    }

    /// The checksum of this segment carried over IPv6 from `src_ip` to
    /// `dst_ip`.
    pub fn calculate_checksum_ipv6(&self, src_ip: [u8; 16], dst_ip: [u8; 16]) -> (r: u16)
        ensures
            r == tcp_checksum_between(*self, src_ip@, dst_ip@),
    {
        let pseudo = self.pseudo_header(src_ip.as_slice(), dst_ip.as_slice());
        self.segment_checksum(pseudo)
    }

    /// Header, options and payload, one after the other.
    fn assemble(&self) -> (r: Vec<u8>)
        ensures
            r@ == tcp_packet_bytes(*self),
    {
        let mut bytes = self.header.to_bytes();
        let mut option_bytes = self.options.to_bytes();
        bytes.append(&mut option_bytes);
        extend_bytes(&mut bytes, self.payload);
        bytes
    }

    /// Sets the data offset and then the checksum for IPv4 addresses
    /// `src_ip` and `dst_ip`, and returns the segment's bytes.
    pub fn to_bytes_ipv4(&mut self, src_ip: [u8; 4], dst_ip: [u8; 4]) -> (r: Vec<u8>)
        requires
            tcp_options_fit(old(self).options),
        ensures
            final(self).header == (TcpHeader {
                data_offset: (5 + tcp_options_words(old(self).options.options@)) as u8,
                checksum: final(self).header.checksum,
                ..old(self).header
            }),
            final(self).header.checksum == tcp_checksum_between(*final(self), src_ip@, dst_ip@),
            final(self).options == old(self).options,
            final(self).payload == old(self).payload,
            r@ == tcp_packet_bytes(*final(self)),
    {
        self.update_data_offset();
        let sum = self.calculate_checksum_ipv4(src_ip, dst_ip);
        proof {
            lemma_unsummed_ignores_checksum(self.header, sum);
        }
        self.header.checksum = sum;
        self.assemble()
    }

    /// Sets the data offset and then the checksum for IPv6 addresses
    /// `src_ip` and `dst_ip`, and returns the segment's bytes.
    pub fn to_bytes_ipv6(&mut self, src_ip: [u8; 16], dst_ip: [u8; 16]) -> (r: Vec<u8>)
        requires
            tcp_options_fit(old(self).options),
        ensures
            final(self).header == (TcpHeader {
                data_offset: (5 + tcp_options_words(old(self).options.options@)) as u8,
                checksum: final(self).header.checksum,
                ..old(self).header
            }),
            final(self).header.checksum == tcp_checksum_between(*final(self), src_ip@, dst_ip@),
            final(self).options == old(self).options,
            final(self).payload == old(self).payload,
            r@ == tcp_packet_bytes(*final(self)),
    {
        self.update_data_offset();
        let sum = self.calculate_checksum_ipv6(src_ip, dst_ip);
        proof {
            lemma_unsummed_ignores_checksum(self.header, sum);
        }
        self.header.checksum = sum;
        self.assemble()
    }
}

} // verus!
