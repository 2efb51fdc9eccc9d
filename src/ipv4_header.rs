//! The fixed 20-byte IPv4 header (RFC 791).
use crate::error::DecodeError;
use crate::wire::{
    be16, bit_if, from_be16, lemma_be16_round_trip, lemma_bit_tests, lemma_byte_fields,
    lemma_or_higher_bit, lemma_pack_byte, push_be16, read_be16,
};
use vstd::prelude::*;

verus! {

/// The reserved flag, bit 15 of the flags and fragment offset field.
pub const RESERVED: u16 = 0x8000;

/// The don't-fragment flag, bit 14.
pub const DONT_FRAGMENT: u16 = 0x4000;

/// The more-fragments flag, bit 13.
pub const MORE_FRAGMENTS: u16 = 0x2000;

/// The fragment offset, the low 13 bits.
pub const FRAGMENT_OFFSET_MASK: u16 = 0x1FFF;

/// An IPv4 header. `version` and `ihl` are 4-bit fields and
/// `fragment_offset` a 13-bit one; the other fields fill their whole type.
#[derive(Debug, PartialEq)]
pub struct Ipv4Header {
    pub version: u8,
    pub ihl: u8,
    pub type_of_service: u8,
    pub total_length: u16,
    pub identification: u16,
    pub flags: Ipv4Flags,
    pub fragment_offset: u16,
    pub time_to_live: u8,
    pub protocol: u8,
    pub header_checksum: u16,
    pub source_address: [u8; 4],
    pub destination_address: [u8; 4],
}

/// The three IPv4 control flags.
#[derive(Debug, PartialEq)]
pub struct Ipv4Flags {
    pub reserved: bool,
    pub dont_fragment: bool,
    pub more_fragments: bool,
}

/// The flags in the top three bits and the fragment offset in the low 13.
pub open spec fn ipv4_flags_word(f: Ipv4Flags, fragment_offset: u16) -> u16 {
    (bit_if(f.reserved, RESERVED) + bit_if(f.dont_fragment, DONT_FRAGMENT) + bit_if(
        f.more_fragments,
        MORE_FRAGMENTS,
    ) + fragment_offset % 0x2000) as u16
}

/// The flags and the fragment offset that `v` holds.
pub open spec fn ipv4_flags_of_word(v: u16) -> (Ipv4Flags, u16) {
    (
        Ipv4Flags {
            reserved: (v / 0x8000) % 2 == 1,
            dont_fragment: (v / 0x4000) % 2 == 1,
            more_fragments: (v / 0x2000) % 2 == 1,
        },
        v % 0x2000,
    )
}

/// No flag set.
pub open spec fn ipv4_flags_none() -> Ipv4Flags {
    Ipv4Flags { reserved: false, dont_fragment: false, more_fragments: false }
}

/// The 20 bytes of `h` on the wire.
pub open spec fn ipv4_header_bytes(h: Ipv4Header) -> Seq<u8> {
    seq![((h.version % 16) * 16 + h.ihl % 16) as u8, h.type_of_service] + be16(h.total_length)
        + be16(h.identification) + be16(ipv4_flags_word(h.flags, h.fragment_offset)) + seq![
        h.time_to_live,
        h.protocol,
    ] + be16(h.header_checksum) + h.source_address@ + h.destination_address@
}

/// The header that the first 20 bytes of `b` hold, or why there is none.
pub open spec fn ipv4_header_decode(b: Seq<u8>) -> Result<Ipv4Header, DecodeError> {
    if b.len() < 20 {
        Err(DecodeError::InsufficientLength)
    } else if b[0] / 16 != 4 {
        Err(DecodeError::InvalidVersion)
    } else if b[0] % 16 < 5 {
        Err(DecodeError::InvalidHeaderLength)
    } else {
        let (flags, fragment_offset) = ipv4_flags_of_word(from_be16(b[6], b[7]));
        Ok(
            Ipv4Header {
                version: b[0] / 16,
                ihl: b[0] % 16,
                type_of_service: b[1],
                total_length: from_be16(b[2], b[3]),
                identification: from_be16(b[4], b[5]),
                flags,
                fragment_offset,
                time_to_live: b[8],
                protocol: b[9],
                header_checksum: from_be16(b[10], b[11]),
                source_address: [b[12], b[13], b[14], b[15]],
                destination_address: [b[16], b[17], b[18], b[19]],
            },
        )
    }
}

/// A header that decodes: version 4, a header length of at least five words
/// that fits its nibble, and a fragment offset that fits its 13 bits.
pub open spec fn ipv4_header_valid(h: Ipv4Header) -> bool {
    h.version == 4 && 5 <= h.ihl < 16 && h.fragment_offset < 0x2000
}

proof fn lemma_flags_word(a: u16, b: u16, c: u16, off: u16)
    by (bit_vector)
    requires
        a == 0 || a == 0x8000,
        b == 0 || b == 0x4000,
        c == 0 || c == 0x2000,
        off < 0x2000,
    ensures
        ({
            let v = (a + b + c + off) as u16;
            &&& ((v / 0x8000) % 2 == 1) == (a != 0)
            &&& ((v / 0x4000) % 2 == 1) == (b != 0)
            &&& ((v / 0x2000) % 2 == 1) == (c != 0)
            &&& v % 0x2000 == off
        }),
{
}

/// Reading the flags word back gives the flags and the offset.
pub proof fn lemma_ipv4_flags_round_trip(f: Ipv4Flags, fragment_offset: u16)
    requires
        fragment_offset < 0x2000,
    ensures
        ipv4_flags_of_word(ipv4_flags_word(f, fragment_offset)) == (f, fragment_offset),
{
    lemma_flags_word(
        bit_if(f.reserved, RESERVED),
        bit_if(f.dont_fragment, DONT_FRAGMENT),
        bit_if(f.more_fragments, MORE_FRAGMENTS),
        fragment_offset,
    );
}

/// Decoding the bytes of a valid header gives the header back.
pub proof fn lemma_ipv4_header_round_trip(h: Ipv4Header)
    requires
        ipv4_header_valid(h),
    ensures
        ipv4_header_decode(ipv4_header_bytes(h)) == Ok::<Ipv4Header, DecodeError>(h),
{
    let b = ipv4_header_bytes(h);
    lemma_be16_round_trip(h.total_length);
    lemma_be16_round_trip(h.identification);
    lemma_be16_round_trip(ipv4_flags_word(h.flags, h.fragment_offset));
    lemma_be16_round_trip(h.header_checksum);
    lemma_ipv4_flags_round_trip(h.flags, h.fragment_offset);
    assert(b.len() == 20);
    assert(b[0] / 16 == 4);
    assert(b[0] % 16 == h.ihl);
    let s = h.source_address;
    let d = h.destination_address;
    assert(s =~= [b[12], b[13], b[14], b[15]]);
    assert(d =~= [b[16], b[17], b[18], b[19]]);
}

impl Ipv4Flags {
    /// No flag set.
    pub fn new() -> (r: Self)
        ensures
            r == ipv4_flags_none(),
    {
        Ipv4Flags { reserved: false, dont_fragment: false, more_fragments: false }
    }

    /// The flags in the top three bits, and the low 13 bits of
    /// `fragment_offset` below them.
    pub fn to_u16(&self, fragment_offset: u16) -> (r: u16)
        ensures
            r == ipv4_flags_word(*self, fragment_offset),
    {
        proof {
            lemma_bit_tests(fragment_offset);
        }
        let mut flags: u16 = fragment_offset & FRAGMENT_OFFSET_MASK;
        if self.more_fragments {
            proof {
                lemma_or_higher_bit(flags, MORE_FRAGMENTS);
            }
            flags = flags | MORE_FRAGMENTS;
        }
        if self.dont_fragment {
            proof {
                lemma_or_higher_bit(flags, DONT_FRAGMENT);
            }
            flags = flags | DONT_FRAGMENT;
        }
        if self.reserved {
            proof {
                lemma_or_higher_bit(flags, RESERVED);
            }
            flags = flags | RESERVED;
        }
        flags
    }

    /// The flags in the top three bits of `value`, and the fragment offset
    /// in its low 13 bits.
    pub fn from_u16(value: u16) -> (r: (Self, u16))
        ensures
            r == ipv4_flags_of_word(value),
    {
        proof {
            lemma_bit_tests(value);
        }
        let flags = Ipv4Flags {
            reserved: (value & RESERVED) != 0,
            dont_fragment: (value & DONT_FRAGMENT) != 0,
            more_fragments: (value & MORE_FRAGMENTS) != 0,
        };
        let fragment_offset = value & FRAGMENT_OFFSET_MASK;
        (flags, fragment_offset)
    }
}

impl Default for Ipv4Flags {
    fn default() -> (r: Self)
        ensures
            r == ipv4_flags_none(),
    {
        Self::new()
    }
}

impl Ipv4Header {
    /// A header from `source_address` to `destination_address` for
    /// `protocol`: version 4, five words, time to live 64, everything else
    /// zero.
    pub fn new(source_address: [u8; 4], destination_address: [u8; 4], protocol: u8) -> (r: Self)
        ensures
            r == (Ipv4Header {
                version: 4,
                ihl: 5,
                type_of_service: 0,
                total_length: 0,
                identification: 0,
                flags: ipv4_flags_none(),
                fragment_offset: 0,
                time_to_live: 64,
                protocol,
                header_checksum: 0,
                source_address,
                destination_address,
            }),
    {
        Ipv4Header {
            version: 4,
            ihl: 5,
            type_of_service: 0,
            total_length: 0,
            identification: 0,
            flags: Ipv4Flags::new(),
            fragment_offset: 0,
            time_to_live: 64,
            protocol,
            header_checksum: 0,
            source_address,
            destination_address,
        }
    }

    /// The 20 bytes of this header on the wire.
    pub fn to_bytes(&self) -> (r: Vec<u8>)
        ensures
            r@ == ipv4_header_bytes(*self),
    {
        let mut bytes: Vec<u8> = Vec::with_capacity(20);
        proof {
            lemma_pack_byte(self.version, self.ihl);
        }
        bytes.push((self.version << 4) | (self.ihl & 0x0F));
        bytes.push(self.type_of_service);
        push_be16(&mut bytes, self.total_length);
        push_be16(&mut bytes, self.identification);
        let flags_and_fragment = self.flags.to_u16(self.fragment_offset);
        push_be16(&mut bytes, flags_and_fragment);
        bytes.push(self.time_to_live);
        bytes.push(self.protocol);
        push_be16(&mut bytes, self.header_checksum);
        bytes.push(self.source_address[0]);
        bytes.push(self.source_address[1]);
        bytes.push(self.source_address[2]);
        bytes.push(self.source_address[3]);
        bytes.push(self.destination_address[0]);
        bytes.push(self.destination_address[1]);
        bytes.push(self.destination_address[2]);
        bytes.push(self.destination_address[3]);
        assert(bytes@ =~= ipv4_header_bytes(*self));
        bytes
    }

    /// The header that the first 20 bytes of `bytes` hold. Fails when there
    /// are fewer than 20, when the version is not 4, or when the header
    /// length is below five words.
    pub fn from_bytes(bytes: &[u8]) -> (r: Result<Self, DecodeError>)
        ensures
            r == ipv4_header_decode(bytes@),
    {
        if bytes.len() < 20 {
            return Err(DecodeError::InsufficientLength);
        }
        let version_ihl = bytes[0];
        proof {
            lemma_byte_fields(version_ihl);
        }
        let version = (version_ihl >> 4) & 0x0F;
        let ihl = version_ihl & 0x0F;
        if version != 4 {
            return Err(DecodeError::InvalidVersion);
        }
        if ihl < 5 {
            return Err(DecodeError::InvalidHeaderLength);
        }
        let type_of_service = bytes[1];
        let total_length = read_be16(bytes, 2);
        let identification = read_be16(bytes, 4);
        let flags_and_fragment = read_be16(bytes, 6);
        let (flags, fragment_offset) = Ipv4Flags::from_u16(flags_and_fragment);
        let time_to_live = bytes[8];
        let protocol = bytes[9];
        let header_checksum = read_be16(bytes, 10);
        let source_address = [bytes[12], bytes[13], bytes[14], bytes[15]];
        let destination_address = [bytes[16], bytes[17], bytes[18], bytes[19]];
        Ok(
            Ipv4Header {
                version,
                ihl,
                type_of_service,
                total_length,
                identification,
                flags,
                fragment_offset,
                time_to_live,
                protocol,
                header_checksum,
                source_address,
                destination_address,
            },
        )
    }
}

} // verus!
