//! Link and network address values.
use vstd::prelude::*;

verus! {

/// The bit of the first octet that marks a group (multicast) address.
pub const MULTICAST_BIT: u8 = 0x01;

/// The bit of the first octet that marks a locally administered address.
pub const LOCAL_BIT: u8 = 0x02;

/// An IPv4 address as four octets, most significant first.
#[derive(Debug, PartialEq, Eq)]
pub struct Ipv4Addr {
    pub octet1: u8,
    pub octet2: u8,
    pub octet3: u8,
    pub octet4: u8,
}

/// A 6-byte link-layer (MAC) address.
#[derive(Debug, PartialEq)]
pub struct MacAddr(pub u8, pub u8, pub u8, pub u8, pub u8, pub u8);

/// A 6-byte link-layer (MAC) address.
#[derive(Debug, PartialEq)]
pub struct MacAddress(pub u8, pub u8, pub u8, pub u8, pub u8, pub u8);

/// The six octets of a MAC address.
pub open spec fn mac_octets(m: MacAddr) -> Seq<u8> {
    seq![m.0, m.1, m.2, m.3, m.4, m.5]
}

/// The character of a hexadecimal digit below 16, in lower case.
pub open spec fn hex_digit(d: int) -> char {
    "0123456789abcdef"@[d]
}

/// A byte as two lower-case hexadecimal digits.
pub open spec fn hex_byte(b: u8) -> Seq<char> {
    seq![hex_digit(b as int / 16), hex_digit(b as int % 16)]
}

/// The usual text form of a MAC address: six pairs of lower-case hexadecimal
/// digits joined by colons.
pub open spec fn mac_text(m: MacAddr) -> Seq<char> {
    hex_byte(m.0) + seq![':'] + hex_byte(m.1) + seq![':'] + hex_byte(m.2) + seq![':'] + hex_byte(
        m.3,
    ) + seq![':'] + hex_byte(m.4) + seq![':'] + hex_byte(m.5)
}

/// Bit 0 of the first octet: a group address.
pub open spec fn first_octet_multicast(o: u8) -> bool {
    o % 2 == 1
}

/// Bit 1 of the first octet: a locally administered address.
pub open spec fn first_octet_local(o: u8) -> bool {
    (o / 2) % 2 == 1
}

proof fn lemma_first_octet_bits(o: u8)
    by (bit_vector)
    ensures
        ((o & 0x01) == 0x01) == (o % 2 == 1),
        ((o & 0x02) == 0x02) == ((o / 2) % 2 == 1),
{
}

/// Appends the two hexadecimal digits of `b` to `s`.
fn push_hex_byte(s: &mut String, b: u8)
    ensures
        final(s)@ == old(s)@ + hex_byte(b),
{
    let digits = "0123456789abcdef";
    proof {
        reveal_strlit("0123456789abcdef");
    }
    let hi = (b / 16) as usize;
    let lo = (b % 16) as usize;
    s.append(digits.substring_char(hi, hi + 1));
    s.append(digits.substring_char(lo, lo + 1));
    assert(s@ =~= old(s)@ + hex_byte(b));
}

impl Ipv4Addr {
    /// The address with the given octets, most significant first.
    pub fn new(octet1: u8, octet2: u8, octet3: u8, octet4: u8) -> (r: Self)
        ensures
            r == (Ipv4Addr { octet1, octet2, octet3, octet4 }),
    {
        Self { octet1, octet2, octet3, octet4 }
    }

    /// The four octets, most significant first.
    pub fn to_bytes(&self) -> (r: [u8; 4])
        ensures
            r@ == seq![self.octet1, self.octet2, self.octet3, self.octet4],
    {
        let r = [self.octet1, self.octet2, self.octet3, self.octet4];
        assert(r@ =~= seq![self.octet1, self.octet2, self.octet3, self.octet4]);
        r
    }
}

impl MacAddr {
    /// The address with the given octets, in wire order.
    pub fn new(o1: u8, o2: u8, o3: u8, o4: u8, o5: u8, o6: u8) -> (r: MacAddr)
        ensures
            r == MacAddr(o1, o2, o3, o4, o5, o6),
    {
        MacAddr(o1, o2, o3, o4, o5, o6)
    }

    /// The broadcast address ff:ff:ff:ff:ff:ff.
    pub fn broadcast() -> (r: MacAddr)
        ensures
            r == MacAddr(0xff, 0xff, 0xff, 0xff, 0xff, 0xff),
    {
        MacAddr(0xff, 0xff, 0xff, 0xff, 0xff, 0xff)
    }

    /// The six octets, in wire order.
    pub fn octets(&self) -> (r: [u8; 6])
        ensures
            r@ == mac_octets(*self),
    {
        let r = [self.0, self.1, self.2, self.3, self.4, self.5];
        assert(r@ =~= mac_octets(*self));
        r
    }

    /// Whether this is the broadcast address.
    pub fn is_broadcast(&self) -> (r: bool)
        ensures
            r == (*self == MacAddr(0xff, 0xff, 0xff, 0xff, 0xff, 0xff)),
    {
        self.0 == 0xff && self.1 == 0xff && self.2 == 0xff && self.3 == 0xff && self.4 == 0xff
            && self.5 == 0xff
    }

    /// Whether this is a group address.
    pub fn is_multicast(&self) -> (r: bool)
        ensures
            r == first_octet_multicast(self.0),
    {
        proof {
            lemma_first_octet_bits(self.0);
        }
        (self.0 & MULTICAST_BIT) == MULTICAST_BIT
    }

    /// Whether this is an individual address.
    pub fn is_unicast(&self) -> (r: bool)
        ensures
            r == !first_octet_multicast(self.0),
    {
        !self.is_multicast()
    }

    /// Whether this address is locally administered.
    pub fn is_local(&self) -> (r: bool)
        ensures
            r == first_octet_local(self.0),
    {
        proof {
            lemma_first_octet_bits(self.0);
        }
        (self.0 & LOCAL_BIT) == LOCAL_BIT
    }

    /// Whether this address is universally administered.
    pub fn is_universal(&self) -> (r: bool)
        ensures
            r == !first_octet_local(self.0),
    {
        !self.is_local()
    }

    /// The text form, six pairs of lower-case hexadecimal digits joined by
    /// colons.
    pub fn to_string(&self) -> (r: String)
        ensures
            r@ == mac_text(*self),
    {
        let mut s = String::new();
        push_hex_byte(&mut s, self.0);
        s.append(":");
        push_hex_byte(&mut s, self.1);
        s.append(":");
        push_hex_byte(&mut s, self.2);
        s.append(":");
        push_hex_byte(&mut s, self.3);
        s.append(":");
        push_hex_byte(&mut s, self.4);
        s.append(":");
        push_hex_byte(&mut s, self.5);
        proof {
            reveal_strlit(":");
        }
        assert(s@ =~= mac_text(*self));
        s
    }
}

impl MacAddress {
    /// The address with the given octets, in wire order.
    pub fn new(o1: u8, o2: u8, o3: u8, o4: u8, o5: u8, o6: u8) -> (r: MacAddress)
        ensures
            r == MacAddress(o1, o2, o3, o4, o5, o6),
    {
        MacAddress(o1, o2, o3, o4, o5, o6)
    }

    /// The broadcast address ff:ff:ff:ff:ff:ff.
    pub fn broadcast() -> (r: MacAddress)
        ensures
            r == MacAddress(0xff, 0xff, 0xff, 0xff, 0xff, 0xff),
    {
        MacAddress(0xff, 0xff, 0xff, 0xff, 0xff, 0xff)
    }

    /// The six octets, in wire order.
    pub fn octets(&self) -> (r: [u8; 6])
        ensures
            r@ == seq![self.0, self.1, self.2, self.3, self.4, self.5],
    {
        let r = [self.0, self.1, self.2, self.3, self.4, self.5];
        assert(r@ =~= seq![self.0, self.1, self.2, self.3, self.4, self.5]);
        r
    }

    /// Whether this is the broadcast address.
    pub fn is_broadcast(&self) -> (r: bool)
        ensures
            r == (*self == MacAddress(0xff, 0xff, 0xff, 0xff, 0xff, 0xff)),
    {
        self.0 == 0xff && self.1 == 0xff && self.2 == 0xff && self.3 == 0xff && self.4 == 0xff
            && self.5 == 0xff
    }

    /// Whether this is a group address.
    pub fn is_multicast(&self) -> (r: bool)
        ensures
            r == first_octet_multicast(self.0),
    {
        proof {
            lemma_first_octet_bits(self.0);
        }
        (self.0 & MULTICAST_BIT) == MULTICAST_BIT
    }

    /// Whether this is an individual address.
    pub fn is_unicast(&self) -> (r: bool)
        ensures
            r == !first_octet_multicast(self.0),
    {
        !self.is_multicast()
    }

    /// Whether this address is locally administered.
    pub fn is_local(&self) -> (r: bool)
        ensures
            r == first_octet_local(self.0),
    {
        proof {
            lemma_first_octet_bits(self.0);
        }
        (self.0 & LOCAL_BIT) == LOCAL_BIT
    }

    /// Whether this address is universally administered.
    pub fn is_universal(&self) -> (r: bool)
        ensures
            r == !first_octet_local(self.0),
    {
        !self.is_local()
    }
}

} // verus!
