//! Encoding and decoding of Ethernet, IPv4 and TCP headers, with the
//! Internet checksum that IPv4 and TCP carry.
use vstd::prelude::*;

pub mod address;
pub mod checksum;
pub mod error;
pub mod ethernet;
pub mod ipv4_header;
pub mod ipv4_options;
pub mod ipv4_packet;
pub mod tcp_header;
pub mod tcp_options;
pub mod tcp_packet;
pub mod wire;

use crate::address::MacAddr;
use crate::ethernet::{EthernetFrame, EthernetHeader};

verus! {

/// Assembles frames from field values and borrowed payloads.
pub struct PacketBuilder;

impl Default for PacketBuilder {
    fn default() -> (r: Self)
        ensures
            r == PacketBuilder,
    {
        Self::new()
    }
}

impl PacketBuilder {
    /// A builder.
    pub fn new() -> (r: Self)
        ensures
            r == PacketBuilder,
    {
        PacketBuilder
    }

    /// An Ethernet frame from `source` to `destination` with type tag
    /// `ethertype`, carrying `payload`.
    pub fn ethernet<'a>(
        &self,
        destination: MacAddr,
        source: MacAddr,
        ethertype: [u8; 2],
        payload: &'a [u8],
    ) -> (r: EthernetFrame<'a>)
        ensures
            r.header == (EthernetHeader { dst: destination, src: source, ethertype }),
            r.payload == payload,
    {
        EthernetFrame { header: EthernetHeader { dst: destination, src: source, ethertype }, payload }
    }
}

} // verus!
