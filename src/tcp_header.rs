//! The fixed 20-byte TCP header (RFC 9293).
use crate::error::DecodeError;
use crate::wire::{
    be16, bit_if, be32, from_be16, from_be32, lemma_be16_round_trip, lemma_be32_round_trip,
    lemma_bit_tests, lemma_byte_fields, lemma_or_higher_bit, lemma_pack_byte, push_be16,
    push_be32, read_be16, read_be32,
};
use vstd::prelude::*;

verus! {

/// FIN: no more data from the sender.
pub const FIN: u16 = 0x01;

/// SYN: synchronise sequence numbers.
pub const SYN: u16 = 0x02;

/// RST: reset the connection.
pub const RST: u16 = 0x04;

/// PSH: push function.
pub const PSH: u16 = 0x08;

/// ACK: the acknowledgment field is significant.
pub const ACK: u16 = 0x10;

/// URG: the urgent pointer is significant.
pub const URG: u16 = 0x20;

/// ECE: ECN echo.
pub const ECE: u16 = 0x40;

/// CWR: congestion window reduced.
pub const CWR: u16 = 0x80;

/// A TCP header. `data_offset` is a 4-bit count of 32-bit words and
/// `reserved` a 3-bit field; the other fields fill their whole type.
#[derive(Debug, PartialEq)]
pub struct TcpHeader {
    pub source_port: u16,
    pub destination_port: u16,
    pub sequence_number: u32,
    pub acknowledgment_number: u32,
    pub data_offset: u8,
    pub reserved: u8,
    pub flags: TcpFlags,
    pub window: u16,
    pub checksum: u16,
    pub urgent_pointer: u16,
}

/// The eight TCP control flags.
#[derive(Debug, PartialEq)]
pub struct TcpFlags {
    pub cwr: bool,
    pub ece: bool,
    pub urg: bool,
    pub ack: bool,
    pub psh: bool,
    pub rst: bool,
    pub syn: bool,
    pub fin: bool,
}

/// The flags as bits: FIN is bit 0, SYN bit 1, up to CWR at bit 7.
pub open spec fn tcp_flags_bits(f: TcpFlags) -> u16 {
    (bit_if(f.fin, FIN) + bit_if(f.syn, SYN) + bit_if(f.rst, RST) + bit_if(f.psh, PSH) + bit_if(
        f.ack,
        ACK,
    ) + bit_if(f.urg, URG) + bit_if(f.ece, ECE) + bit_if(f.cwr, CWR)) as u16
}

/// The flags that the bits of `v` set.
pub open spec fn tcp_flags_of_bits(v: u16) -> TcpFlags {
    TcpFlags {
        fin: v % 2 == 1,
        syn: (v / 0x2) % 2 == 1,
        rst: (v / 0x4) % 2 == 1,
        psh: (v / 0x8) % 2 == 1,
        ack: (v / 0x10) % 2 == 1,
        urg: (v / 0x20) % 2 == 1,
        ece: (v / 0x40) % 2 == 1,
        cwr: (v / 0x80) % 2 == 1,
    }
}

/// No flag set.
pub open spec fn tcp_flags_none() -> TcpFlags {
    TcpFlags {
        cwr: false,
        ece: false,
        urg: false,
        ack: false,
        psh: false,
        rst: false,
        syn: false,
        fin: false,
    }
}

/// The 20 bytes of `h` on the wire.
pub open spec fn tcp_header_bytes(h: TcpHeader) -> Seq<u8> {
    be16(h.source_port) + be16(h.destination_port) + be32(h.sequence_number) + be32(
        h.acknowledgment_number,
    ) + seq![
        ((h.data_offset % 16) * 16 + h.reserved % 8) as u8,
        tcp_flags_bits(h.flags) as u8,
    ] + be16(h.window) + be16(h.checksum) + be16(h.urgent_pointer)
}

/// The header that the first 20 bytes of `b` hold, or why there is none.
pub open spec fn tcp_header_decode(b: Seq<u8>) -> Result<TcpHeader, DecodeError> {
    if b.len() < 20 {
        Err(DecodeError::InsufficientLength)
    } else {
        Ok(
            TcpHeader {
                source_port: from_be16(b[0], b[1]),
                destination_port: from_be16(b[2], b[3]),
                sequence_number: from_be32(b[4], b[5], b[6], b[7]),
                acknowledgment_number: from_be32(b[8], b[9], b[10], b[11]),
                data_offset: b[12] / 16,
                reserved: b[12] % 8,
                flags: tcp_flags_of_bits(b[13] as u16),
                window: from_be16(b[14], b[15]),
                checksum: from_be16(b[16], b[17]),
                urgent_pointer: from_be16(b[18], b[19]),
            },
        )
    }
}

/// A header whose fields fit their widths on the wire.
pub open spec fn tcp_header_valid(h: TcpHeader) -> bool {
    h.data_offset < 16 && h.reserved < 8
}

proof fn lemma_flag_bits(a0: u16, a1: u16, a2: u16, a3: u16, a4: u16, a5: u16, a6: u16, a7: u16)
    by (bit_vector)
    requires
        a0 == 0 || a0 == 0x1,
        a1 == 0 || a1 == 0x2,
        a2 == 0 || a2 == 0x4,
        a3 == 0 || a3 == 0x8,
        a4 == 0 || a4 == 0x10,
        a5 == 0 || a5 == 0x20,
        a6 == 0 || a6 == 0x40,
        a7 == 0 || a7 == 0x80,
    ensures
        ({
            let s = (a0 + a1 + a2 + a3 + a4 + a5 + a6 + a7) as u16;
            &&& s < 0x100
            &&& (s % 2 == 1) == (a0 != 0)
            &&& ((s / 0x2) % 2 == 1) == (a1 != 0)
            &&& ((s / 0x4) % 2 == 1) == (a2 != 0)
            &&& ((s / 0x8) % 2 == 1) == (a3 != 0)
            &&& ((s / 0x10) % 2 == 1) == (a4 != 0)
            &&& ((s / 0x20) % 2 == 1) == (a5 != 0)
            &&& ((s / 0x40) % 2 == 1) == (a6 != 0)
            &&& ((s / 0x80) % 2 == 1) == (a7 != 0)
        }),
{
}

/// Reading the flag bits back gives the flags.
pub proof fn lemma_tcp_flags_round_trip(f: TcpFlags)
    ensures
        tcp_flags_bits(f) < 0x100,
        tcp_flags_of_bits(tcp_flags_bits(f)) == f,
{
    lemma_flag_bits(
        bit_if(f.fin, FIN),
        bit_if(f.syn, SYN),
        bit_if(f.rst, RST),
        bit_if(f.psh, PSH),
        bit_if(f.ack, ACK),
        bit_if(f.urg, URG),
        bit_if(f.ece, ECE),
        bit_if(f.cwr, CWR),
    );
}

/// Decoding the bytes of a header whose fields fit their widths gives the
/// header back.
pub proof fn lemma_tcp_header_round_trip(h: TcpHeader)
    requires
        tcp_header_valid(h),
    ensures
        tcp_header_decode(tcp_header_bytes(h)) == Ok::<TcpHeader, DecodeError>(h),
{
    let b = tcp_header_bytes(h);
    lemma_be16_round_trip(h.source_port);
    lemma_be16_round_trip(h.destination_port);
    lemma_be32_round_trip(h.sequence_number);
    lemma_be32_round_trip(h.acknowledgment_number);
    lemma_be16_round_trip(h.window);
    lemma_be16_round_trip(h.checksum);
    lemma_be16_round_trip(h.urgent_pointer);
    lemma_tcp_flags_round_trip(h.flags);
    assert(b.len() == 20);
    assert(b[12] / 16 == h.data_offset);
    assert(b[12] % 8 == h.reserved);
    assert(b[13] as u16 == tcp_flags_bits(h.flags));
}

impl TcpFlags {
    /// No flag set.
    pub fn new() -> (r: Self)
        ensures
            r == tcp_flags_none(),
    {
        TcpFlags {
            cwr: false,
            ece: false,
            urg: false,
            ack: false,
            psh: false,
            rst: false,
            syn: false,
            fin: false,
        }
    }

    /// The flags as bits, FIN lowest and CWR at bit 7.
    pub fn to_u16(&self) -> (r: u16)
        ensures
            r == tcp_flags_bits(*self),
            r < 0x100,
    {
        let mut flags: u16 = 0;
        if self.fin {
            proof {
                lemma_or_higher_bit(flags, FIN);
            }
            flags = flags | FIN;
        }
        if self.syn {
            proof {
                lemma_or_higher_bit(flags, SYN);
            }
            flags = flags | SYN;
        }
        if self.rst {
            proof {
                lemma_or_higher_bit(flags, RST);
            }
            flags = flags | RST;
        }
        if self.psh {
            proof {
                lemma_or_higher_bit(flags, PSH);
            }
            flags = flags | PSH;
        }
        if self.ack {
            proof {
                lemma_or_higher_bit(flags, ACK);
            }
            flags = flags | ACK;
        }
        if self.urg {
            proof {
                lemma_or_higher_bit(flags, URG);
            }
            flags = flags | URG;
        }
        if self.ece {
            proof {
                lemma_or_higher_bit(flags, ECE);
            }
            flags = flags | ECE;
        }
        if self.cwr {
            proof {
                lemma_or_higher_bit(flags, CWR);
            }
            flags = flags | CWR;
        }
        flags
    }

    /// The flags that the bits of `value` set; bits above 7 are ignored.
    pub fn from_u16(value: u16) -> (r: Self)
        ensures
            r == tcp_flags_of_bits(value),
    {
        proof {
            lemma_bit_tests(value);
        }
        TcpFlags {
            fin: (value & FIN) != 0,
            syn: (value & SYN) != 0,
            rst: (value & RST) != 0,
            psh: (value & PSH) != 0,
            ack: (value & ACK) != 0,
            urg: (value & URG) != 0,
            ece: (value & ECE) != 0,
            cwr: (value & CWR) != 0,
        }
    }
}

impl Default for TcpFlags {
    fn default() -> (r: Self)
        ensures
            r == tcp_flags_none(),
    {
        Self::new()
    }
}

impl TcpHeader {
    /// A header between two ports: five words long, everything else zero.
    pub fn new(source_port: u16, destination_port: u16) -> (r: Self)
        ensures
            r == (TcpHeader {
                source_port,
                destination_port,
                sequence_number: 0,
                acknowledgment_number: 0,
                data_offset: 5,
                reserved: 0,
                flags: tcp_flags_none(),
                window: 0,
                checksum: 0,
                urgent_pointer: 0,
            }),
    {
        TcpHeader {
            source_port,
            destination_port,
            sequence_number: 0,
            acknowledgment_number: 0,
            data_offset: 5,
            reserved: 0,
            flags: TcpFlags::new(),
            window: 0,
            checksum: 0,
            urgent_pointer: 0,
        }
    }

    /// The 20 bytes of this header on the wire.
    pub fn to_bytes(&self) -> (r: Vec<u8>)
        ensures
            r@ == tcp_header_bytes(*self),
    {
        let mut bytes: Vec<u8> = Vec::with_capacity(20);
        push_be16(&mut bytes, self.source_port);
        push_be16(&mut bytes, self.destination_port);
        push_be32(&mut bytes, self.sequence_number);
        push_be32(&mut bytes, self.acknowledgment_number);
        proof {
            lemma_pack_byte(self.data_offset, self.reserved);
        }
        bytes.push((self.data_offset << 4) | (self.reserved & 0x07));
        bytes.push(self.flags.to_u16() as u8);
        push_be16(&mut bytes, self.window);
        push_be16(&mut bytes, self.checksum);
        push_be16(&mut bytes, self.urgent_pointer);
        assert(bytes@ =~= tcp_header_bytes(*self));
        bytes
    }

    /// The header that the first 20 bytes of `bytes` hold; fails when there
    /// are fewer than 20.
    pub fn from_bytes(bytes: &[u8]) -> (r: Result<Self, DecodeError>)
        ensures
            r == tcp_header_decode(bytes@),
    {
        if bytes.len() < 20 {
            return Err(DecodeError::InsufficientLength);
        }
        proof {
            lemma_byte_fields(bytes@[12]);
        }
        let source_port = read_be16(bytes, 0);
        let destination_port = read_be16(bytes, 2);
        let sequence_number = read_be32(bytes, 4);
        let acknowledgment_number = read_be32(bytes, 8);
        let data_offset = (bytes[12] & 0xF0) >> 4;
        let reserved = bytes[12] & 0x07;
        let flags = TcpFlags::from_u16(bytes[13] as u16);
        let window = read_be16(bytes, 14);
        let checksum = read_be16(bytes, 16);
        let urgent_pointer = read_be16(bytes, 18);
        Ok(
            TcpHeader {
                source_port,
                destination_port,
                sequence_number,
                acknowledgment_number,
                data_offset,
                reserved,
                flags,
                window,
                checksum,
                urgent_pointer,
            },
        )
    }
}

} // verus!
