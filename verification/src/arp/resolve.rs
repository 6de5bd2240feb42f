//! Resolution of one IPv4 address: which received frame answers the request,
//! and what the caller does after each frame.
//!
//! The caller transmits one request built by `arp_request`, then hands every
//! frame it receives to `resolve_reply` or `resolve_step` until one of them
//! names the owner or the time is up. Frames that do not answer are dropped.
//! A caller that watches the clock itself asks `is_timeout_expired` after
//! each frame and hands the answer to `resolve_step`.

use crate::addr::{Ipv4Addr, MacAddr};
use crate::arp::frame::{decode, lemma_reply_roundtrip, parse, reply_frame};
use crate::arp::nic::{InterfaceError, NetworkInterface};
use crate::utils::TimeoutError;
use std::time::{Duration, Instant};
use vstd::prelude::*;

verus! {

/// The hardware address that `buffer` reports for `target_ip`, if `buffer`
/// answers the interface's question: it must be long enough to hold an ARP
/// message, be sent from `target_ip`, and be addressed to the interface's own
/// hardware address. An interface without a hardware address is answered by
/// nothing.
pub open spec fn answer_in(interface: NetworkInterface, target_ip: Ipv4Addr, buffer: Seq<u8>) -> Option<
    MacAddr,
> {
    match parse(buffer) {
        Some(arp) => if arp.sender_proto_addr == target_ip && interface@.mac == Some(
            arp.target_hw_addr,
        ) {
            Some(arp.sender_hw_addr)
        } else {
            None
        },
        None => None,
    }
}

/// Reads one received frame during a resolution of `target_ip`.
///
/// Returns the owner's hardware address if the frame answers the request, and
/// `None` for every other frame: one that is too short, that comes from
/// another address, or that is addressed to another hardware address than the
/// interface's own.
pub fn resolve_reply(interface: &NetworkInterface, target_ip: Ipv4Addr, buffer: &[u8]) -> (owner:
    Option<MacAddr>)
    ensures
        owner == answer_in(*interface, target_ip, buffer@),
        parse(buffer@) matches Some(arp) && interface@.mac != Some(arp.target_hw_addr)
            ==> owner is None,
{
    match decode(buffer) {
        Some(arp) => match interface.mac() {
            Some(mac) => if arp.sender_proto_addr == target_ip && arp.target_hw_addr == mac {
                Some(arp.sender_hw_addr)
            } else {
                None
            },
            None => None,
        },
        None => None,
    }
}

/// The reply that the owner of `target_ip` sends to the interface's own
/// hardware address resolves `target_ip` to the owner's hardware address.
pub proof fn lemma_reply_answers(
    interface: NetworkInterface,
    own_ip: Ipv4Addr,
    owner: MacAddr,
    target_ip: Ipv4Addr,
)
    requires
        interface@.mac is Some,
    ensures
        answer_in(
            interface,
            target_ip,
            reply_frame(owner, target_ip, interface@.mac.unwrap(), own_ip),
        ) == Some(owner),
{
    lemma_reply_roundtrip(owner, target_ip, interface@.mac.unwrap(), own_ip);
}

/// Whether the timeout of a resolution is over once `elapsed_nanos` have
/// passed: it is when strictly more time has passed than the timeout allows,
/// so a frame read at the very end of the timeout is still in time.
pub fn timeout_expired_after(elapsed_nanos: u128, timeout_nanos: u128) -> (expired: bool)
    ensures
        expired == (elapsed_nanos > timeout_nanos),
{
    elapsed_nanos > timeout_nanos
}

/// Whether more than `timeout` has passed since `start`, going by the clock
/// at the moment of the call. What the clock reads decides; the comparison is
/// that of `timeout_expired_after`.
pub fn is_timeout_expired(start: Instant, timeout: Duration) -> (expired: bool) {
    let elapsed = Instant::now().duration_since(start);
    timeout_expired_after(elapsed.as_nanos(), timeout.as_nanos())
}

/// What to do after a received frame.
#[derive(Clone, Copy, Debug, PartialEq, Eq, Structural)]
pub enum ResolveStep {
    /// The frame answered: the address is owned by this hardware address.
    Resolved(MacAddr),
    /// The frame did not answer and the time is up: stop without an owner.
    TimedOut,
    /// The frame did not answer and there is time left: wait for the next.
    Listen,
}

/// The step that follows a frame, given whether the time was up when the
/// frame had been read. An answer counts even if it arrives late.
pub open spec fn step_after(
    interface: NetworkInterface,
    target_ip: Ipv4Addr,
    buffer: Seq<u8>,
    expired: bool,
) -> ResolveStep {
    match answer_in(interface, target_ip, buffer) {
        Some(owner) => ResolveStep::Resolved(owner),
        None => if expired {
            ResolveStep::TimedOut
        } else {
            ResolveStep::Listen
        },
    }
}

/// Decides what a resolution that checks its own clock does after a frame.
///
/// `expired` says whether the timeout had passed once the frame was read. A
/// frame that is addressed to another hardware address than the interface's
/// own never resolves: the caller keeps listening until the time is up.
pub fn resolve_step(
    interface: &NetworkInterface,
    target_ip: Ipv4Addr,
    buffer: &[u8],
    expired: bool,
) -> (step: ResolveStep)
    ensures
        step == step_after(*interface, target_ip, buffer@, expired),
        parse(buffer@) matches Some(arp) && interface@.mac != Some(arp.target_hw_addr) ==> step
            == if expired {
            ResolveStep::TimedOut
        } else {
            ResolveStep::Listen
        },
{
    match resolve_reply(interface, target_ip, buffer) {
        Some(owner) => ResolveStep::Resolved(owner),
        None => if expired {
            ResolveStep::TimedOut
        } else {
            ResolveStep::Listen
        },
    }
}

/// The result of a resolution whose wait was bounded from outside: the owner
/// if an answer arrived in time, and no owner, which is not an error, if the
/// wait timed out.
pub fn resolve_outcome(waited: Result<MacAddr, TimeoutError>) -> (resolved: Result<
    Option<MacAddr>,
    InterfaceError,
>)
    ensures
        resolved == match waited {
            Ok(owner) => Ok::<Option<MacAddr>, InterfaceError>(Some(owner)),
            Err(_) => Ok::<Option<MacAddr>, InterfaceError>(None),
        },
{
    match waited {
        Ok(owner) => Ok(Some(owner)),
        Err(_) => Ok(None),
    }
}

} // verus!
