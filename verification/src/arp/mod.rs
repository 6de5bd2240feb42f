//! ARP over Ethernet: frames, interfaces, resolution and scanning.
//!
//! The functions here choose the addresses a message is sent from and build
//! the message. A caller may name the sender's hardware or protocol address
//! itself, to speak for another host; where it does not, the interface's own
//! address is used, and the interface must have one.

use crate::addr::{Ipv4Addr, MacAddr};
use crate::arp::frame::{encode_reply, encode_request, reply_frame, request_frame, Frame};
use crate::arp::nic::{InterfaceError, NetworkInterface};
use vstd::prelude::*;

pub mod frame;
pub mod nic;
pub mod resolve;
pub mod scan;

verus! {

/// The sender addresses of a message: each one is the caller's choice if
/// there is one, else the interface's own. A missing hardware address is
/// reported before a missing protocol address.
pub open spec fn source_of(
    interface: NetworkInterface,
    sender_hw_addr: Option<MacAddr>,
    sender_proto_addr: Option<Ipv4Addr>,
) -> Result<(MacAddr, Ipv4Addr), InterfaceError> {
    let mac = if sender_hw_addr is Some {
        sender_hw_addr
    } else {
        interface@.mac
    };
    let ip = if sender_proto_addr is Some {
        sender_proto_addr
    } else {
        interface.spec_ipv4_address()
    };
    match (mac, ip) {
        (None, _) => Err(InterfaceError::MissingMAC),
        (Some(_), None) => Err(InterfaceError::MissingIP),
        (Some(mac), Some(ip)) => Ok((mac, ip)),
    }
}

/// Chooses the sender addresses of a message.
pub fn source_addresses(
    interface: &NetworkInterface,
    sender_hw_addr: Option<MacAddr>,
    sender_proto_addr: Option<Ipv4Addr>,
) -> (source: Result<(MacAddr, Ipv4Addr), InterfaceError>)
    ensures
        source == source_of(*interface, sender_hw_addr, sender_proto_addr),
{
    let source_mac = match sender_hw_addr {
        Some(mac) => mac,
        None => match interface.mac() {
            Some(mac) => mac,
            None => {
                return Err(InterfaceError::MissingMAC);
            },
        },
    };
    let source_ip = match sender_proto_addr {
        Some(ip) => ip,
        None => match interface.ipv4_address() {
            Some(ip) => ip,
            None => {
                return Err(InterfaceError::MissingIP);
            },
        },
    };
    Ok((source_mac, source_ip))
}

/// Builds the request that asks the segment who owns `target_proto_addr`.
///
/// The frame is broadcast, names the chosen sender addresses, and leaves the
/// target hardware address zero. It fails with `MissingMAC` or `MissingIP`
/// exactly when the sender address of that kind is neither given nor held by
/// the interface.
pub fn arp_request(
    interface: &NetworkInterface,
    target_proto_addr: Ipv4Addr,
    sender_hw_addr: Option<MacAddr>,
    sender_proto_addr: Option<Ipv4Addr>,
) -> (request: Result<Frame, InterfaceError>)
    ensures
        match source_of(*interface, sender_hw_addr, sender_proto_addr) {
            Ok((mac, ip)) => request matches Ok(frame) && frame@ == request_frame(
                mac,
                ip,
                target_proto_addr,
            ),
            Err(error) => request matches Err(e) && e == error,
        },
{
    match source_addresses(interface, sender_hw_addr, sender_proto_addr) {
        Ok((source_mac, source_ip)) => Ok(encode_request(source_mac, source_ip, target_proto_addr)),
        Err(error) => Err(error),
    }
}

/// Builds the reply that tells the host at `target_hw_addr` and
/// `target_proto_addr` where the sender's protocol address is to be found.
///
/// The frame is broadcast and names the chosen sender addresses. It fails as
/// `arp_request` does.
pub fn arp_reply(
    interface: &NetworkInterface,
    target_hw_addr: MacAddr,
    target_proto_addr: Ipv4Addr,
    sender_hw_addr: Option<MacAddr>,
    sender_proto_addr: Option<Ipv4Addr>,
) -> (reply: Result<Frame, InterfaceError>)
    ensures
        match source_of(*interface, sender_hw_addr, sender_proto_addr) {
            Ok((mac, ip)) => reply matches Ok(frame) && frame@ == reply_frame(
                mac,
                ip,
                target_hw_addr,
                target_proto_addr,
            ),
            Err(error) => reply matches Err(e) && e == error,
        },
{
    match source_addresses(interface, sender_hw_addr, sender_proto_addr) {
        Ok((source_mac, source_ip)) => Ok(
            encode_reply(source_mac, source_ip, target_hw_addr, target_proto_addr),
        ),
        Err(error) => Err(error),
    }
}

} // verus!
