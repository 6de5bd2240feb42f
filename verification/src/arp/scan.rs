//! Discovery of the hosts of a subnet.
//!
//! A scan asks for every address of the interface's subnet in turn, from the
//! lowest to the highest, and records each host whose message is addressed to
//! the interface. `ScanPlan` yields the requests; `scan_reply` reads one
//! received frame; `collect_hosts` reads a whole capture.

use crate::addr::{Ipv4Addr, MacAddr};
use crate::arp::frame::{decode, encode_request, parse, reply_frame, request_frame, Frame};
use crate::arp::frame::{lemma_reply_roundtrip, lemma_request_roundtrip};
use crate::arp::nic::{InterfaceError, NetworkInterface};
use crate::network::Ipv4Network;
use vstd::prelude::*;

verus! {

/// What a scan needs from its interface: the hardware address and the subnet,
/// whose named address is the interface's own.
pub struct ScanPlanView {
    pub mac: MacAddr,
    pub network: Ipv4Network,
}

impl ScanPlanView {
    /// The address asked for by request number `index`.
    pub open spec fn target(self, index: nat) -> Option<Ipv4Addr> {
        self.network@.nth(index)
    }

    /// Request number `index`: sent from the interface's own addresses.
    pub open spec fn request(self, index: nat) -> Option<Seq<u8>> {
        match self.target(index) {
            Some(target) => Some(request_frame(self.mac, self.network@.addr, target)),
            None => None,
        }
    }
}

/// The requests of one scan.
#[derive(Clone, Copy, Debug)]
pub struct ScanPlan {
    mac: MacAddr,
    network: Ipv4Network,
}

impl View for ScanPlan {
    type V = ScanPlanView;

    closed spec fn view(&self) -> ScanPlanView {
        ScanPlanView { mac: self.mac, network: self.network }
    }
}

impl ScanPlan {
    /// Plans the scan of the interface's subnet. An interface without an IPv4
    /// subnet gives `MissingIP`; one with a subnet but without a hardware
    /// address gives `MissingMAC`.
    pub fn new(interface: &NetworkInterface) -> (plan: Result<ScanPlan, InterfaceError>)
        ensures
            match (interface@.network, interface@.mac) {
                (None, _) => plan matches Err(e) && e == InterfaceError::MissingIP,
                (Some(_), None) => plan matches Err(e) && e == InterfaceError::MissingMAC,
                (Some(network), Some(mac)) => plan matches Ok(p) && p@ == (ScanPlanView {
                    mac,
                    network,
                }),
            },
    {
        let network = match interface.network() {
            Some(network) => network,
            None => {
                return Err(InterfaceError::MissingIP);
            },
        };
        let mac = match interface.mac() {
            Some(mac) => mac,
            None => {
                return Err(InterfaceError::MissingMAC);
            },
        };
        Ok(ScanPlan { mac, network })
    }

    /// The hardware address that answers are addressed to.
    pub fn mac(&self) -> (mac: MacAddr)
        ensures
            mac == self@.mac,
    {
        self.mac
    }

    /// How many requests the scan sends: one for each address of the subnet.
    pub fn len(&self) -> (count: u64)
        ensures
            count == self@.network@.size(),
            count > 0,
    {
        self.network.size()
    }

    /// Request number `index`, or `None` once `index` has reached `len()`.
    pub fn request(&self, index: u64) -> (request: Option<Frame>)
        ensures
            match self@.request(index as nat) {
                Some(bytes) => request matches Some(frame) && frame@ == bytes,
                None => request is None,
            },
            request is Some <==> index < self@.network@.size(),
    {
        if index >= self.network.size() {
            return None;
        }
        match self.network.nth(index as u32) {
            Some(target) => Some(encode_request(self.mac, self.network.ip(), target)),
            None => None,
        }
    }

    /// Every address of the subnet is asked for by one of the requests.
    pub proof fn lemma_covers_subnet(self, ip: Ipv4Addr)
        requires
            self@.network@.wf(),
            self@.network@.contains(ip),
        ensures
            exists|index: nat|
                index < self@.network@.size() && #[trigger] self@.target(index) == Some(ip),
    {
        self@.network@.lemma_contained_is_nth(ip);
        let index = (ip.spec_to_bits() - self@.network@.base()) as nat;
        assert(self@.target(index) == Some(ip));
    }
}

/// The host that `buffer` reveals to a scanner whose hardware address is
/// `mac`: the sender of any ARP message addressed to `mac`.
pub open spec fn host_in(mac: MacAddr, buffer: Seq<u8>) -> Option<(Ipv4Addr, MacAddr)> {
    match parse(buffer) {
        Some(arp) => if arp.target_hw_addr == mac {
            Some((arp.sender_proto_addr, arp.sender_hw_addr))
        } else {
            None
        },
        None => None,
    }
}

/// The hosts that a capture reveals, one entry for each revealing frame, in
/// the order of the frames. A host that answers twice is listed twice.
pub open spec fn hosts_in(mac: MacAddr, frames: Seq<Seq<u8>>) -> Seq<(Ipv4Addr, MacAddr)>
    decreases frames.len(),
{
    if frames.len() == 0 {
        Seq::empty()
    } else {
        let earlier = hosts_in(mac, frames.drop_last());
        match host_in(mac, frames.last()) {
            Some(host) => earlier.push(host),
            None => earlier,
        }
    }
}

/// Reads one received frame during a scan. Returns the sender's protocol and
/// hardware address if the frame holds an ARP message addressed to `mac`, and
/// `None` for every other frame.
pub fn scan_reply(mac: MacAddr, buffer: &[u8]) -> (host: Option<(Ipv4Addr, MacAddr)>)
    ensures
        host == host_in(mac, buffer@),
{
    match decode(buffer) {
        Some(arp) => if arp.target_hw_addr == mac {
            Some((arp.sender_proto_addr, arp.sender_hw_addr))
        } else {
            None
        },
        None => None,
    }
}

/// The frames of a capture as sequences of octets.
pub open spec fn capture_octets(frames: Seq<Vec<u8>>) -> Seq<Seq<u8>> {
    frames.map_values(|frame: Vec<u8>| frame@)
}

/// Reads a whole capture: the hosts revealed by the frames, in order.
pub fn collect_hosts(mac: MacAddr, frames: &[Vec<u8>]) -> (hosts: Vec<(Ipv4Addr, MacAddr)>)
    ensures
        hosts@ == hosts_in(mac, capture_octets(frames@)),
{
    let mut hosts: Vec<(Ipv4Addr, MacAddr)> = Vec::new();
    let mut i: usize = 0;
    while i < frames.len()
        invariant
            i <= frames.len(),
            hosts@ == hosts_in(mac, capture_octets(frames@).take(i as int)),
        decreases frames.len() - i,
    {
        proof {
            let seen = capture_octets(frames@).take(i + 1);
            assert(seen.drop_last() =~= capture_octets(frames@).take(i as int));
            assert(seen.last() == frames@[i as int]@);
        }
        match scan_reply(mac, frames[i].as_slice()) {
            Some(host) => {
                hosts.push(host);
            },
            None => {},
        }
        i += 1;
    }
    proof {
        assert(capture_octets(frames@).take(frames@.len() as int) =~= capture_octets(frames@));
    }
    hosts
}

/// A capture in which no frame is addressed to the scanner reveals no host.
pub proof fn lemma_silence_reveals_nothing(mac: MacAddr, frames: Seq<Seq<u8>>)
    requires
        forall|i: int| 0 <= i < frames.len() ==> host_in(mac, #[trigger] frames[i]) is None,
    ensures
        hosts_in(mac, frames) == Seq::<(Ipv4Addr, MacAddr)>::empty(),
    decreases frames.len(),
{
    if frames.len() > 0 {
        lemma_silence_reveals_nothing(mac, frames.drop_last());
    }
}

/// A capture in which exactly one frame is addressed to the scanner reveals
/// exactly the host of that frame.
pub proof fn lemma_one_answer_reveals_one_host(mac: MacAddr, frames: Seq<Seq<u8>>, answer: int)
    requires
        0 <= answer < frames.len(),
        host_in(mac, frames[answer]) is Some,
        forall|i: int|
            0 <= i < frames.len() && i != answer ==> host_in(mac, #[trigger] frames[i]) is None,
    ensures
        hosts_in(mac, frames) == seq![host_in(mac, frames[answer]).unwrap()],
    decreases frames.len(),
{
    let earlier = frames.drop_last();
    if answer == frames.len() - 1 {
        lemma_silence_reveals_nothing(mac, earlier);
    } else {
        lemma_one_answer_reveals_one_host(mac, earlier, answer);
    }
}

/// A reply that a host addresses to the scanner reveals that host.
pub proof fn lemma_reply_reveals_host(
    mac: MacAddr,
    ip: Ipv4Addr,
    host_mac: MacAddr,
    host_ip: Ipv4Addr,
)
    ensures
        host_in(mac, reply_frame(host_mac, host_ip, mac, ip)) == Some((host_ip, host_mac)),
{
    lemma_reply_roundtrip(host_mac, host_ip, mac, ip);
}

/// The requests of a scan reveal no host to the scanner itself, unless its
/// hardware address is zero: they are addressed to nobody.
pub proof fn lemma_requests_reveal_nothing(
    mac: MacAddr,
    source_mac: MacAddr,
    source_ip: Ipv4Addr,
    target_ip: Ipv4Addr,
)
    requires
        mac != MacAddr::spec_zero(),
    ensures
        host_in(mac, request_frame(source_mac, source_ip, target_ip)) is None,
{
    lemma_request_roundtrip(source_mac, source_ip, target_ip);
}

} // verus!
