//! An IPv4 packet: header, options and a borrowed payload, with the header
//! checksum.
use crate::checksum::{checksum, internet_checksum};
use crate::ipv4_header::{ipv4_flags_none, ipv4_header_bytes, Ipv4Header};
use crate::ipv4_options::{ipv4_options_bytes, ipv4_options_total, Ipv4Option, Ipv4Options};
use crate::wire::extend_bytes;
use vstd::prelude::*;

verus! {

/// An IPv4 packet whose payload is borrowed from the caller.
#[derive(Debug, PartialEq)]
pub struct Ipv4Packet<'a> {
    pub header: Ipv4Header,
    pub options: Ipv4Options,
    pub payload: &'a [u8],
}

/// The number of 32-bit words the padded options take.
pub open spec fn ipv4_options_words(o: Ipv4Options) -> nat {
    ipv4_options_total(o.options@) / 4
}

/// Options whose word count fits the arithmetic of the header length.
pub open spec fn ipv4_options_fit(o: Ipv4Options) -> bool {
    o.options@.len() + 3 <= usize::MAX && ipv4_options_words(o) <= 250
}

/// The header bytes with the checksum field zeroed.
pub open spec fn ipv4_header_bytes_unsummed(h: Ipv4Header) -> Seq<u8> {
    ipv4_header_bytes(h).update(10, 0).update(11, 0)
}

/// The header checksum of `p`: over the header with its checksum field
/// zeroed, followed by the options.
pub open spec fn ipv4_header_checksum(p: Ipv4Packet) -> u16 {
    internet_checksum(ipv4_header_bytes_unsummed(p.header) + ipv4_options_bytes(p.options.options@))
}

/// The packet on the wire: header, options, payload.
pub open spec fn ipv4_packet_bytes(p: Ipv4Packet) -> Seq<u8> {
    ipv4_header_bytes(p.header) + ipv4_options_bytes(p.options.options@) + p.payload@
}

proof fn lemma_unsummed_ignores_checksum(h: Ipv4Header, c: u16)
    ensures
        ipv4_header_bytes_unsummed(Ipv4Header { header_checksum: c, ..h })
            == ipv4_header_bytes_unsummed(h),
{
    assert(ipv4_header_bytes_unsummed(Ipv4Header { header_checksum: c, ..h })
        =~= ipv4_header_bytes_unsummed(h));
}

impl<'a> Ipv4Packet<'a> {
    /// A packet from `src_ip` to `dst_ip` for `protocol`, with no options.
    pub fn new(src_ip: [u8; 4], dst_ip: [u8; 4], protocol: u8, payload: &'a [u8]) -> (r: Self)
        ensures
            r.header == (Ipv4Header {
                version: 4,
                ihl: 5,
                type_of_service: 0,
                total_length: 0,
                identification: 0,
                flags: ipv4_flags_none(),
                fragment_offset: 0,
                time_to_live: 64,
                protocol,
                header_checksum: 0,
                source_address: src_ip,
                destination_address: dst_ip,
            }),
            r.options.options@ == Seq::<Ipv4Option>::empty(),
            r.payload@ == payload@,
    {
        Ipv4Packet {
            header: Ipv4Header::new(src_ip, dst_ip, protocol),
            options: Ipv4Options::new(),
            payload,
        }
    }

    /// Sets the header length to the five words of the fixed header plus the
    /// words the options take.
    pub fn update_ihl(&mut self)
        requires
            ipv4_options_fit(old(self).options),
        ensures
            final(self).header == (Ipv4Header {
                ihl: (5 + ipv4_options_words(old(self).options)) as u8,
                ..old(self).header
            }),
            final(self).options == old(self).options,
            final(self).payload == old(self).payload,
    {
        let header_words: u8 = 5;
        let option_words = self.options.words_needed();
        self.header.ihl = header_words + option_words;
    }

    /// Sets the total length to the header length in bytes plus the payload.
    pub fn update_total_length(&mut self)
        requires
            old(self).header.ihl * 4 + old(self).payload@.len() <= 0xFFFF,
        ensures
            final(self).header == (Ipv4Header {
                total_length: (old(self).header.ihl * 4 + old(self).payload@.len()) as u16,
                ..old(self).header
            }),
            final(self).options == old(self).options,
            final(self).payload == old(self).payload,
    {
        let header_len = (self.header.ihl as u16) * 4;
        let total_len = header_len + self.payload.len() as u16;
        self.header.total_length = total_len;
    }

    /// The header checksum: over the header with its checksum field zeroed,
    /// followed by the options. The payload is not covered.
    pub fn calculate_header_checksum(&self) -> (r: u16)
        ensures
            r == ipv4_header_checksum(*self),
    {
        let mut header_bytes = self.header.to_bytes();
        header_bytes[10] = 0;
        header_bytes[11] = 0;
        let mut option_bytes = self.options.to_bytes();
        header_bytes.append(&mut option_bytes);
        checksum(header_bytes.as_slice())
    }

    /// Sets the header length, the total length and the checksum, and
    /// returns the packet's bytes.
    pub fn to_bytes(&mut self) -> (r: Vec<u8>)
        requires
            ipv4_options_fit(old(self).options),
            (5 + ipv4_options_words(old(self).options)) * 4 + old(self).payload@.len() <= 0xFFFF,
        ensures
            final(self).header == (Ipv4Header {
                ihl: (5 + ipv4_options_words(old(self).options)) as u8,
                total_length: ((5 + ipv4_options_words(old(self).options)) * 4
                    + old(self).payload@.len()) as u16,
                header_checksum: ipv4_header_checksum(*final(self)),
                ..old(self).header
            }),
            final(self).options == old(self).options,
            final(self).payload == old(self).payload,
            r@ == ipv4_packet_bytes(*final(self)),
    {
        self.update_ihl();
        self.update_total_length();
        let sum = self.calculate_header_checksum();
        proof {
            lemma_unsummed_ignores_checksum(self.header, sum);
        }
        self.header.header_checksum = sum;
        let mut bytes = self.header.to_bytes();
        let mut option_bytes = self.options.to_bytes();
        bytes.append(&mut option_bytes);
        extend_bytes(&mut bytes, self.payload);
        bytes
    }
}

} // verus!
