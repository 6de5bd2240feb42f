//! IPv4 subnets in prefix notation, and the addresses they hold.

use crate::addr::Ipv4Addr;
use vstd::arithmetic::power2::{lemma2_to64, lemma_pow2_adds, lemma_pow2_pos, pow2};
use vstd::arithmetic::power2::lemma_pow2_strictly_increases;
use vstd::bits::lemma_u64_shl_is_mul;
use vstd::prelude::*;

verus! {

/// The mathematical content of a subnet: an address inside it and the number
/// of leading bits that all its addresses share.
pub struct Cidr {
    pub addr: Ipv4Addr,
    pub prefix: nat,
}

impl Cidr {
    /// A prefix cannot be longer than an address.
    pub open spec fn wf(self) -> bool {
        self.prefix <= 32
    }

    /// How many addresses the subnet holds: 2 to the number of host bits.
    pub open spec fn size(self) -> nat {
        pow2((32 - self.prefix) as nat)
    }

    /// The number of the lowest address: the address with its host bits
    /// cleared.
    pub open spec fn base(self) -> nat {
        self.addr.spec_to_bits() / self.size() * self.size()
    }

    /// The lowest address of the subnet.
    pub open spec fn network(self) -> Ipv4Addr {
        Ipv4Addr::spec_from_bits(self.base())
    }

    /// The address `n` places above the lowest one, if the subnet is that
    /// large.
    pub open spec fn nth(self, n: nat) -> Option<Ipv4Addr> {
        if n < self.size() {
            Some(Ipv4Addr::spec_from_bits(self.base() + n))
        } else {
            None
        }
    }

    /// Whether `ip` lies between the lowest and the highest address.
    pub open spec fn contains(self, ip: Ipv4Addr) -> bool {
        self.base() <= ip.spec_to_bits() < self.base() + self.size()
    }

    /// The subnet is a non-empty block of addresses that ends no later than
    /// the address space does and holds the address it was named by.
    pub proof fn lemma_bounds(self)
        requires
            self.wf(),
        ensures
            0 < self.size() <= 0x1_0000_0000,
            self.base() + self.size() <= 0x1_0000_0000,
            self.contains(self.addr),
    {
        let host_bits = (32 - self.prefix) as nat;
        let size = self.size() as int;
        let bits = self.addr.spec_to_bits() as int;
        self.addr.lemma_bits_roundtrip();
        lemma_pow2_pos(host_bits);
        lemma2_to64();
        if host_bits < 32 {
            lemma_pow2_strictly_increases(host_bits, 32);
        }
        lemma_pow2_adds(self.prefix, host_bits);
        let blocks = pow2(self.prefix) as int;
        assert(blocks * size == 0x1_0000_0000);
        let q = bits / size;
        assert(q * size <= bits < q * size + size) by (nonlinear_arith)
            requires
                q == bits / size,
                size > 0,
        ;
        assert(q + 1 <= blocks) by (nonlinear_arith)
            requires
                q * size <= bits,
                bits < blocks * size,
                size > 0,
        ;
        assert((q + 1) * size <= blocks * size) by (nonlinear_arith)
            requires
                q + 1 <= blocks,
                size > 0,
        ;
        assert((q + 1) * size == q * size + size) by (nonlinear_arith);
    }

    /// Every address handed out by `nth` lies in the subnet.
    pub proof fn lemma_nth_contained(self, n: nat)
        requires
            self.wf(),
            n < self.size(),
        ensures
            self.nth(n) is Some,
            self.contains(self.nth(n).unwrap()),
            self.nth(n).unwrap().spec_to_bits() == self.base() + n,
    {
        self.lemma_bounds();
        Ipv4Addr::lemma_from_bits_roundtrip(self.base() + n);
    }

    /// Every address of the subnet is handed out by `nth`, at the place given
    /// by its distance from the lowest address.
    pub proof fn lemma_contained_is_nth(self, ip: Ipv4Addr)
        requires
            self.wf(),
            self.contains(ip),
        ensures
            self.nth((ip.spec_to_bits() - self.base()) as nat) == Some(ip),
    {
        ip.lemma_bits_roundtrip();
    }

    /// Two places hold the same address only if they are the same place.
    pub proof fn lemma_nth_injective(self, i: nat, j: nat)
        requires
            self.wf(),
            i < self.size(),
            j < self.size(),
            self.nth(i) == self.nth(j),
        ensures
            i == j,
    {
        self.lemma_nth_contained(i);
        self.lemma_nth_contained(j);
    }
}

/// An IPv4 subnet: an address and a prefix length of at most 32 bits.
#[derive(Clone, Copy, Debug, PartialEq, Eq, Hash)]
pub struct Ipv4Network {
    addr: Ipv4Addr,
    prefix: u8,
}

impl View for Ipv4Network {
    type V = Cidr;

    closed spec fn view(&self) -> Cidr {
        Cidr { addr: self.addr, prefix: self.prefix as nat }
    }
}

impl Ipv4Network {
    #[verifier::type_invariant]
    closed spec fn inv(self) -> bool {
        self.prefix <= 32
    }

    /// The subnet of `addr` with `prefix` leading network bits, or `None`
    /// when the prefix is longer than 32 bits.
    pub fn new(addr: Ipv4Addr, prefix: u8) -> (net: Option<Ipv4Network>)
        ensures
            net is Some <==> prefix <= 32,
            net matches Some(n) ==> n@ == (Cidr { addr, prefix: prefix as nat }),
    {
        if prefix > 32 {
            None
        } else {
            Some(Ipv4Network { addr, prefix })
        }
    }

    /// The address the subnet was named by.
    pub fn ip(&self) -> (addr: Ipv4Addr)
        ensures
            addr == self@.addr,
            self@.wf(),
    {
        proof {
            use_type_invariant(self);
        }
        self.addr
    }

    /// The number of leading bits shared by all addresses of the subnet.
    pub fn prefix(&self) -> (prefix: u8)
        ensures
            prefix == self@.prefix,
            self@.wf(),
    {
        proof {
            use_type_invariant(self);
        }
        self.prefix
    }

    /// The number of addresses in the subnet, from 1 for a single host to
    /// 2^32 for the whole address space.
    pub fn size(&self) -> (size: u64)
        ensures
            size == self@.size(),
            0 < size <= 0x1_0000_0000,
            self@.wf(),
    {
        proof {
            use_type_invariant(self);
            self@.lemma_bounds();
        }
        let host_bits: u64 = 32 - self.prefix as u64;
        proof {
            lemma_u64_shl_is_mul(1, host_bits);
        }
        1u64 << host_bits
    }

    /// The number of the lowest address.
    fn base(&self) -> (base: u64)
        ensures
            base == self@.base(),
            base + self@.size() <= 0x1_0000_0000,
            self@.wf(),
    {
        let size: u64 = self.size();
        let bits: u64 = self.addr.to_bits() as u64;
        proof {
            self@.lemma_bounds();
            assert(bits / size * size <= bits) by (nonlinear_arith)
                requires
                    size > 0,
            ;
        }
        bits / size * size
    }

    /// The lowest address of the subnet.
    pub fn network(&self) -> (addr: Ipv4Addr)
        ensures
            addr == self@.network(),
            self@.nth(0) == Some(addr),
            self@.wf(),
    {
        let base: u64 = self.base();
        proof {
            self@.lemma_bounds();
        }
        Ipv4Addr::from_bits(base as u32)
    }

    /// The address `n` places above the lowest one, or `None` when the subnet
    /// has `n` addresses or fewer.
    pub fn nth(&self, n: u32) -> (addr: Option<Ipv4Addr>)
        ensures
            addr == self@.nth(n as nat),
            addr is Some <==> n < self@.size(),
            addr matches Some(ip) ==> self@.contains(ip),
            self@.wf(),
    {
        let size: u64 = self.size();
        if (n as u64) < size {
            let base: u64 = self.base();
            proof {
                self@.lemma_nth_contained(n as nat);
            }
            Some(Ipv4Addr::from_bits((base + n as u64) as u32))
        } else {
            None
        }
    }

    /// Whether `ip` is one of the addresses of the subnet.
    pub fn contains(&self, ip: Ipv4Addr) -> (inside: bool)
        ensures
            inside == self@.contains(ip),
            self@.wf(),
    {
        let size: u64 = self.size();
        let base: u64 = self.base();
        let bits: u64 = ip.to_bits() as u64;
        base <= bits && bits < base + size
    }
}

/// A subnet of either address family, as an interface reports it. Only the
/// IPv4 ones take part in address resolution.
#[derive(Clone, Copy, Debug, PartialEq, Eq, Hash)]
pub enum IpNetwork {
    V4(Ipv4Network),
    V6 { addr: u128, prefix: u8 },
}

/// The first IPv4 subnet in a list of subnets, if there is one.
pub open spec fn first_ipv4(ips: Seq<IpNetwork>) -> Option<Ipv4Network>
    decreases ips.len(),
{
    if ips.len() == 0 {
        None
    } else {
        match ips[0] {
            IpNetwork::V4(net) => Some(net),
            IpNetwork::V6 { .. } => first_ipv4(ips.drop_first()),
        }
    }
}

/// The subnet found by `first_ipv4` stands in the list with only IPv6 subnets
/// before it, and a list without an IPv4 subnet yields none.
pub proof fn lemma_first_ipv4(ips: Seq<IpNetwork>)
    ensures
        match first_ipv4(ips) {
            Some(net) => exists|i: int|
                0 <= i < ips.len() && ips[i] == IpNetwork::V4(net) && forall|j: int|
                    0 <= j < i ==> !(#[trigger] ips[j] is V4),
            None => forall|j: int| 0 <= j < ips.len() ==> !(#[trigger] ips[j] is V4),
        },
    decreases ips.len(),
{
    if ips.len() > 0 {
        match ips[0] {
            IpNetwork::V4(net) => {
                assert(ips[0] == IpNetwork::V4(net));
            },
            IpNetwork::V6 { .. } => {
                let rest = ips.drop_first();
                lemma_first_ipv4(rest);
                assert forall|j: int| 0 <= j < rest.len() implies rest[j] == ips[j + 1] by {}
                match first_ipv4(rest) {
                    Some(net) => {
                        let i = choose|i: int|
                            0 <= i < rest.len() && rest[i] == IpNetwork::V4(net) && forall|j: int|
                                0 <= j < i ==> !(#[trigger] rest[j] is V4);
                        assert(ips[i + 1] == IpNetwork::V4(net));
                        assert forall|j: int| 0 <= j < i + 1 implies !(#[trigger] ips[j] is V4) by {
                            if j > 0 {
                                assert(rest[j - 1] == ips[j]);
                            }
                        }
                    },
                    None => {
                        assert forall|j: int| 0 <= j < ips.len() implies !(#[trigger] ips[j]
                            is V4) by {
                            if j > 0 {
                                assert(rest[j - 1] == ips[j]);
                            }
                        }
                    },
                }
            },
        }
    }
}

} // verus!
