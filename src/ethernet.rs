//! The 14-byte Ethernet header, the payload-type tag, and frames.
use crate::address::{mac_octets, MacAddr};
use crate::error::DecodeError;
use crate::wire::extend_bytes;
use vstd::prelude::*;
use vstd::slice::slice_subrange;

verus! {

/// The payload-type tags this codec names.
#[derive(Debug, PartialEq)]
pub enum EtherType {
    Ipv4,
    Ipv6,
    Arp,
    Unknown,
}

/// The tag that two bytes name.
pub open spec fn ethertype_of(hi: u8, lo: u8) -> EtherType {
    if hi == 0x08 && lo == 0x00 {
        EtherType::Ipv4
    } else if hi == 0x86 && lo == 0xDD {
        EtherType::Ipv6
    } else if hi == 0x08 && lo == 0x06 {
        EtherType::Arp
    } else {
        EtherType::Unknown
    }
}

/// The two bytes of a tag; zero for an unknown one.
pub open spec fn ethertype_bytes(t: EtherType) -> Seq<u8> {
    match t {
        EtherType::Ipv4 => seq![0x08u8, 0x00u8],
        EtherType::Ipv6 => seq![0x86u8, 0xDDu8],
        EtherType::Arp => seq![0x08u8, 0x06u8],
        EtherType::Unknown => seq![0x00u8, 0x00u8],
    }
}

/// The tag that a slice names: only a slice of exactly two bytes names one.
pub open spec fn ethertype_of_slice(b: Seq<u8>) -> Result<EtherType, ()> {
    if b.len() != 2 {
        Err(())
    } else {
        Ok(ethertype_of(b[0], b[1]))
    }
}

impl EtherType {
    /// The tag that `bytes` names; unknown when it is not exactly two bytes
    /// or names no tag this codec knows.
    pub fn from_bytes(bytes: &[u8]) -> (r: Self)
        ensures
            r == (if bytes@.len() == 2 {
                ethertype_of(bytes@[0], bytes@[1])
            } else {
                EtherType::Unknown
            }),
    {
        match Self::from_slice(bytes) {
            Ok(ethertype) => ethertype,
            Err(()) => EtherType::Unknown,
        }
    }

    /// The two bytes of this tag; zero for an unknown one.
    pub fn to_bytes(&self) -> (r: [u8; 2])
        ensures
            r@ == ethertype_bytes(*self),
    {
        let r = match self {
            EtherType::Ipv4 => [0x08, 0x00],
            EtherType::Ipv6 => [0x86, 0xDD],
            EtherType::Arp => [0x08, 0x06],
            EtherType::Unknown => [0x00, 0x00],
        };
        assert(r@ =~= ethertype_bytes(*self));
        r
    }

    fn from_pair(bytes: [u8; 2]) -> (r: Self)
        ensures
            r == ethertype_of(bytes@[0], bytes@[1]),
    {
        match (bytes[0], bytes[1]) {
            (0x08, 0x00) => EtherType::Ipv4,
            (0x86, 0xDD) => EtherType::Ipv6,
            (0x08, 0x06) => EtherType::Arp,
            _ => EtherType::Unknown,
        }
    }

    fn from_slice(bytes: &[u8]) -> (r: Result<Self, ()>)
        ensures
            r == ethertype_of_slice(bytes@),
    {
        if bytes.len() != 2 {
            return Err(());
        }
        let pair: [u8; 2] = [bytes[0], bytes[1]];
        Ok(Self::from_pair(pair))
    }
}

impl TryFrom<[u8; 2]> for EtherType {
    type Error = ();

    fn try_from(bytes: [u8; 2]) -> (r: Result<Self, Self::Error>) {
        Ok(Self::from_pair(bytes))
    }
}

impl vstd::std_specs::convert::TryFromSpecImpl<[u8; 2]> for EtherType {
    open spec fn obeys_try_from_spec() -> bool {
        true
    }

    open spec fn try_from_spec(bytes: [u8; 2]) -> Result<Self, ()> {
        Ok(ethertype_of(bytes@[0], bytes@[1]))
    }
}

impl<'a> TryFrom<&'a [u8]> for EtherType {
    type Error = ();

    fn try_from(bytes: &'a [u8]) -> (r: Result<Self, Self::Error>) {
        Self::from_slice(bytes)
    }
}

impl<'a> vstd::std_specs::convert::TryFromSpecImpl<&'a [u8]> for EtherType {
    open spec fn obeys_try_from_spec() -> bool {
        true
    }

    open spec fn try_from_spec(bytes: &'a [u8]) -> Result<Self, ()> {
        ethertype_of_slice(bytes@)
    }
}

/// An Ethernet header.
#[derive(Debug, PartialEq)]
pub struct EthernetHeader {
    pub dst: MacAddr,
    pub src: MacAddr,
    pub ethertype: [u8; 2],
}

/// An Ethernet frame whose payload is borrowed from the caller.
#[derive(Debug, PartialEq)]
pub struct EthernetFrame<'a> {
    pub header: EthernetHeader,
    pub payload: &'a [u8],
}

/// The 14 bytes of `h` on the wire: destination, source, type tag.
pub open spec fn ethernet_header_bytes(h: EthernetHeader) -> Seq<u8> {
    mac_octets(h.dst) + mac_octets(h.src) + h.ethertype@
}

/// The header that the first 14 bytes of `b` hold, or why there is none.
pub open spec fn ethernet_header_decode(b: Seq<u8>) -> Result<EthernetHeader, DecodeError> {
    if b.len() < 14 {
        Err(DecodeError::InsufficientLength)
    } else {
        Ok(
            EthernetHeader {
                dst: MacAddr(b[0], b[1], b[2], b[3], b[4], b[5]),
                src: MacAddr(b[6], b[7], b[8], b[9], b[10], b[11]),
                ethertype: [b[12], b[13]],
            },
        )
    }
}

/// Decoding the bytes of a header gives the header back.
pub proof fn lemma_ethernet_header_round_trip(h: EthernetHeader)
    ensures
        ethernet_header_decode(ethernet_header_bytes(h)) == Ok::<EthernetHeader, DecodeError>(h),
{
    let b = ethernet_header_bytes(h);
    assert(b.len() == 14);
    let t = h.ethertype;
    assert(t =~= [b[12], b[13]]);
}

impl EthernetHeader {
    /// The header that the first 14 bytes of `bytes` hold; fails when there
    /// are fewer than 14.
    pub fn from_bytes(bytes: &[u8]) -> (r: Result<Self, DecodeError>)
        ensures
            r == ethernet_header_decode(bytes@),
    {
        if bytes.len() < 14 {
            return Err(DecodeError::InsufficientLength);
        }
        Ok(
            EthernetHeader {
                dst: MacAddr::new(bytes[0], bytes[1], bytes[2], bytes[3], bytes[4], bytes[5]),
                src: MacAddr::new(bytes[6], bytes[7], bytes[8], bytes[9], bytes[10], bytes[11]),
                ethertype: [bytes[12], bytes[13]],
            },
        )
    }

    /// The 14 bytes of this header on the wire.
    pub fn to_bytes(&self) -> (r: Vec<u8>)
        ensures
            r@ == ethernet_header_bytes(*self),
    {
        let mut bytes: Vec<u8> = Vec::with_capacity(14);
        let dst = self.dst.octets();
        let src = self.src.octets();
        extend_bytes(&mut bytes, dst.as_slice());
        extend_bytes(&mut bytes, src.as_slice());
        extend_bytes(&mut bytes, self.ethertype.as_slice());
        bytes
    }
}

impl<'a> EthernetFrame<'a> {
    /// The frame that `bytes` holds: a 14-byte header and, after it, the
    /// payload of whatever length remains. Fails when there are fewer than
    /// 14 bytes.
    pub fn from_bytes(bytes: &'a [u8]) -> (r: Result<Self, DecodeError>)
        ensures
            match r {
                Ok(f) => ethernet_header_decode(bytes@) == Ok::<_, DecodeError>(f.header)
                    && f.payload@ == bytes@.subrange(14, bytes@.len() as int),
                Err(e) => ethernet_header_decode(bytes@) == Err::<EthernetHeader, _>(e),
            },
    {
        if bytes.len() < 14 {
            return Err(DecodeError::InsufficientLength);
        }
        let header = match EthernetHeader::from_bytes(slice_subrange(bytes, 0, 14)) {
            Ok(header) => header,
            Err(e) => {
                return Err(e);
            },
        };
        let payload = slice_subrange(bytes, 14, bytes.len());
        Ok(EthernetFrame { header, payload })
    }
}

} // verus!
