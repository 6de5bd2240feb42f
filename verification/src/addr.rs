//! Link-layer and IPv4 addresses as plain octets.

use vstd::arithmetic::div_mod::lemma_fundamental_div_mod_converse;
use vstd::prelude::*;

verus! {

/// A 48-bit Ethernet hardware address, first transmitted octet first.
#[derive(Clone, Copy, Debug, PartialEq, Eq, Structural, Hash)]
pub struct MacAddr(pub u8, pub u8, pub u8, pub u8, pub u8, pub u8);

impl View for MacAddr {
    type V = Seq<u8>;

    /// The six octets in transmission order.
    open spec fn view(&self) -> Seq<u8> {
        seq![self.0, self.1, self.2, self.3, self.4, self.5]
    }
}

impl MacAddr {
    /// The address that no station owns: six zero octets.
    pub open spec fn spec_zero() -> MacAddr {
        MacAddr(0, 0, 0, 0, 0, 0)
    }

    /// The address every station listens to: six octets of all ones.
    pub open spec fn spec_broadcast() -> MacAddr {
        MacAddr(0xff, 0xff, 0xff, 0xff, 0xff, 0xff)
    }

    /// The address made of six octets read in order from `octets`.
    pub open spec fn spec_from_octets(octets: Seq<u8>) -> MacAddr
        recommends
            octets.len() == 6,
    {
        MacAddr(octets[0], octets[1], octets[2], octets[3], octets[4], octets[5])
    }

    pub fn new(a: u8, b: u8, c: u8, d: u8, e: u8, f: u8) -> (mac: MacAddr)
        ensures
            mac == MacAddr(a, b, c, d, e, f),
    {
        MacAddr(a, b, c, d, e, f)
    }

    #[verifier::when_used_as_spec(spec_zero)]
    pub fn zero() -> (mac: MacAddr)
        ensures
            mac == Self::spec_zero(),
    {
        MacAddr(0, 0, 0, 0, 0, 0)
    }

    #[verifier::when_used_as_spec(spec_broadcast)]
    pub fn broadcast() -> (mac: MacAddr)
        ensures
            mac == Self::spec_broadcast(),
    {
        MacAddr(0xff, 0xff, 0xff, 0xff, 0xff, 0xff)
    }

    pub fn octets(&self) -> (octets: [u8; 6])
        ensures
            octets@ == self@,
    {
        [self.0, self.1, self.2, self.3, self.4, self.5]
    }

    pub fn from_octets(octets: [u8; 6]) -> (mac: MacAddr)
        ensures
            mac == Self::spec_from_octets(octets@),
            mac@ == octets@,
    {
        MacAddr(octets[0], octets[1], octets[2], octets[3], octets[4], octets[5])
    }
}

/// An IPv4 address, most significant octet first.
#[derive(Clone, Copy, Debug, PartialEq, Eq, Structural, Hash)]
pub struct Ipv4Addr(pub u8, pub u8, pub u8, pub u8);

impl View for Ipv4Addr {
    type V = Seq<u8>;

    /// The four octets in transmission order.
    open spec fn view(&self) -> Seq<u8> {
        seq![self.0, self.1, self.2, self.3]
    }
}

impl Ipv4Addr {
    /// The address read as one big-endian number below 2^32.
    pub open spec fn spec_to_bits(self) -> nat {
        (self.0 as nat) * 0x100_0000 + (self.1 as nat) * 0x1_0000 + (self.2 as nat) * 0x100 + (
        self.3 as nat)
    }

    /// The address whose big-endian value is `bits`.
    pub open spec fn spec_from_bits(bits: nat) -> Ipv4Addr
        recommends
            bits < 0x1_0000_0000,
    {
        Ipv4Addr(
            (bits / 0x100_0000) as u8,
            (bits / 0x1_0000 % 0x100) as u8,
            (bits / 0x100 % 0x100) as u8,
            (bits % 0x100) as u8,
        )
    }

    /// The address made of four octets read in order from `octets`.
    pub open spec fn spec_from_octets(octets: Seq<u8>) -> Ipv4Addr
        recommends
            octets.len() == 4,
    {
        Ipv4Addr(octets[0], octets[1], octets[2], octets[3])
    }

    pub fn new(a: u8, b: u8, c: u8, d: u8) -> (ip: Ipv4Addr)
        ensures
            ip == Ipv4Addr(a, b, c, d),
    {
        Ipv4Addr(a, b, c, d)
    }

    pub fn octets(&self) -> (octets: [u8; 4])
        ensures
            octets@ == self@,
    {
        [self.0, self.1, self.2, self.3]
    }

    pub fn from_octets(octets: [u8; 4]) -> (ip: Ipv4Addr)
        ensures
            ip == Self::spec_from_octets(octets@),
            ip@ == octets@,
    {
        Ipv4Addr(octets[0], octets[1], octets[2], octets[3])
    }

    pub fn to_bits(self) -> (bits: u32)
        ensures
            bits == self.spec_to_bits(),
    {
        (self.0 as u32) * 0x100_0000 + (self.1 as u32) * 0x1_0000 + (self.2 as u32) * 0x100 + (
        self.3 as u32)
    }

    pub fn from_bits(bits: u32) -> (ip: Ipv4Addr)
        ensures
            ip == Self::spec_from_bits(bits as nat),
            ip.spec_to_bits() == bits,
    {
        Ipv4Addr(
            (bits / 0x100_0000) as u8,
            (bits / 0x1_0000 % 0x100) as u8,
            (bits / 0x100 % 0x100) as u8,
            (bits % 0x100) as u8,
        )
    }

    /// The number of an address is below 2^32, and the address can be read
    /// back from it.
    pub proof fn lemma_bits_roundtrip(self)
        ensures
            self.spec_to_bits() < 0x1_0000_0000,
            Self::spec_from_bits(self.spec_to_bits()) == self,
    {
        let bits = self.spec_to_bits() as int;
        let (a, b, c, d) = (self.0 as int, self.1 as int, self.2 as int, self.3 as int);
        lemma_fundamental_div_mod_converse(bits, 0x100_0000, a, b * 0x1_0000 + c * 0x100 + d);
        lemma_fundamental_div_mod_converse(bits, 0x1_0000, a * 0x100 + b, c * 0x100 + d);
        lemma_fundamental_div_mod_converse(bits, 0x100, a * 0x1_0000 + b * 0x100 + c, d);
        lemma_fundamental_div_mod_converse(a * 0x100 + b, 0x100, a, b);
        lemma_fundamental_div_mod_converse(a * 0x1_0000 + b * 0x100 + c, 0x100, a * 0x100 + b, c);
    }

    /// Every number below 2^32 is the number of the address built from it.
    pub proof fn lemma_from_bits_roundtrip(bits: nat)
        requires
            bits < 0x1_0000_0000,
        ensures
            Self::spec_from_bits(bits).spec_to_bits() == bits,
    {
    }
}

} // verus!
