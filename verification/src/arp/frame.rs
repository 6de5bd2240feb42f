//! The wire layout of an ARP message inside an Ethernet frame.
//!
//! A frame is 42 octets: a 14-octet Ethernet header followed by the 28-octet
//! ARP message for IPv4 over Ethernet. Multi-octet fields are big-endian.

use crate::addr::{Ipv4Addr, MacAddr};
use vstd::prelude::*;

verus! {

/// Octets in an Ethernet header: destination, source, ethertype.
pub const ETHERNET_SIZE: usize = 14;

/// Where the ARP message starts inside a frame.
pub const ARP_OFFSET: usize = ETHERNET_SIZE;

/// Octets in an ARP message that maps IPv4 addresses to Ethernet addresses.
pub const ARP_SIZE: usize = 28;

/// Octets in a whole frame.
pub const FRAME_SIZE: usize = ETHERNET_SIZE + ARP_SIZE;

/// Ethertype of IPv4, also the protocol type inside the ARP message.
pub const ETHERTYPE_IPV4: u16 = 0x0800;

/// Ethertype of ARP.
pub const ETHERTYPE_ARP: u16 = 0x0806;

/// Hardware type of Ethernet inside the ARP message.
pub const HARDWARE_ETHERNET: u16 = 1;

/// Length of a hardware address inside the ARP message.
pub const HARDWARE_ADDR_LEN: u8 = 6;

/// Length of a protocol address inside the ARP message.
pub const PROTOCOL_ADDR_LEN: u8 = 4;

/// Opcode of a request.
pub const ARP_REQUEST: u16 = 1;

/// Opcode of a reply.
pub const ARP_REPLY: u16 = 2;

/// The address fields and the opcode read from an ARP message.
#[derive(Clone, Copy, Debug, PartialEq, Eq, Structural)]
pub struct ParsedArp {
    pub operation: u16,
    pub sender_hw_addr: MacAddr,
    pub sender_proto_addr: Ipv4Addr,
    pub target_hw_addr: MacAddr,
    pub target_proto_addr: Ipv4Addr,
}

/// The two octets of `value`, high octet first.
pub open spec fn be16(value: u16) -> Seq<u8> {
    seq![(value / 0x100) as u8, (value % 0x100) as u8]
}

/// The number whose two octets, high octet first, are `octets`.
pub open spec fn from_be16(octets: Seq<u8>) -> u16
    recommends
        octets.len() == 2,
{
    (octets[0] * 0x100 + octets[1]) as u16
}

/// An Ethernet header.
pub open spec fn ethernet_header(destination: MacAddr, source: MacAddr, ethertype: u16) -> Seq<u8> {
    destination@ + source@ + be16(ethertype)
}

/// An ARP message for IPv4 over Ethernet.
pub open spec fn arp_message(
    operation: u16,
    sender_hw_addr: MacAddr,
    sender_proto_addr: Ipv4Addr,
    target_hw_addr: MacAddr,
    target_proto_addr: Ipv4Addr,
) -> Seq<u8> {
    be16(HARDWARE_ETHERNET) + be16(ETHERTYPE_IPV4) + seq![HARDWARE_ADDR_LEN, PROTOCOL_ADDR_LEN]
        + be16(operation) + sender_hw_addr@ + sender_proto_addr@ + target_hw_addr@
        + target_proto_addr@
}

/// A broadcast frame that carries one ARP message sent by `source_mac`.
pub open spec fn arp_frame(
    operation: u16,
    source_mac: MacAddr,
    source_ip: Ipv4Addr,
    target_mac: MacAddr,
    target_ip: Ipv4Addr,
) -> Seq<u8> {
    ethernet_header(MacAddr::spec_broadcast(), source_mac, ETHERTYPE_ARP) + arp_message(
        operation,
        source_mac,
        source_ip,
        target_mac,
        target_ip,
    )
}

/// The frame that asks who owns `target_ip`: the target hardware address is
/// unknown and written as zero.
pub open spec fn request_frame(source_mac: MacAddr, source_ip: Ipv4Addr, target_ip: Ipv4Addr) -> Seq<
    u8,
> {
    arp_frame(ARP_REQUEST, source_mac, source_ip, MacAddr::spec_zero(), target_ip)
}

/// The frame that tells `target_mac`, which owns `target_ip`, that
/// `source_ip` is at `source_mac`.
pub open spec fn reply_frame(
    source_mac: MacAddr,
    source_ip: Ipv4Addr,
    target_mac: MacAddr,
    target_ip: Ipv4Addr,
) -> Seq<u8> {
    arp_frame(ARP_REPLY, source_mac, source_ip, target_mac, target_ip)
}

/// What a buffer holds, read at the fixed offsets of the layout. A buffer
/// shorter than a frame holds nothing; nothing else is checked, and octets
/// after the frame are ignored.
pub open spec fn parse(buffer: Seq<u8>) -> Option<ParsedArp> {
    if buffer.len() < FRAME_SIZE {
        None
    } else {
        let arp = buffer.subrange(ARP_OFFSET as int, FRAME_SIZE as int);
        Some(
            ParsedArp {
                operation: from_be16(arp.subrange(6, 8)),
                sender_hw_addr: MacAddr::spec_from_octets(arp.subrange(8, 14)),
                sender_proto_addr: Ipv4Addr::spec_from_octets(arp.subrange(14, 18)),
                target_hw_addr: MacAddr::spec_from_octets(arp.subrange(18, 24)),
                target_proto_addr: Ipv4Addr::spec_from_octets(arp.subrange(24, 28)),
            },
        )
    }
}

/// What every frame built here satisfies: the fixed fields say ARP for IPv4
/// over Ethernet, and the opcode is a request or a reply.
pub open spec fn well_formed(bytes: Seq<u8>) -> bool {
    &&& bytes.len() == FRAME_SIZE
    &&& bytes.subrange(12, 14) == be16(ETHERTYPE_ARP)
    &&& bytes.subrange(14, 16) == be16(HARDWARE_ETHERNET)
    &&& bytes.subrange(16, 18) == be16(ETHERTYPE_IPV4)
    &&& bytes[18] == HARDWARE_ADDR_LEN
    &&& bytes[19] == PROTOCOL_ADDR_LEN
    &&& (bytes.subrange(20, 22) == be16(ARP_REQUEST) || bytes.subrange(20, 22) == be16(ARP_REPLY))
}

/// A frame ready to be transmitted.
#[derive(Clone, Copy, Debug, PartialEq, Eq)]
pub struct Frame {
    bytes: [u8; FRAME_SIZE],
}

impl View for Frame {
    type V = Seq<u8>;

    closed spec fn view(&self) -> Seq<u8> {
        self.bytes@
    }
}

impl Frame {
    #[verifier::type_invariant]
    closed spec fn inv(self) -> bool {
        well_formed(self.bytes@)
    }

    /// The octets to put on the wire.
    pub fn as_bytes(&self) -> (bytes: &[u8; FRAME_SIZE])
        ensures
            bytes@ == self@,
            well_formed(self@),
    {
        proof {
            use_type_invariant(self);
        }
        &self.bytes
    }
}

/// Lays out one message. Both public builders go through here.
fn encode(
    operation: u16,
    source_mac: MacAddr,
    source_ip: Ipv4Addr,
    target_mac: MacAddr,
    target_ip: Ipv4Addr,
) -> (frame: Frame)
    requires
        operation == ARP_REQUEST || operation == ARP_REPLY,
    ensures
        frame@ == arp_frame(operation, source_mac, source_ip, target_mac, target_ip),
{
    let bytes: [u8; FRAME_SIZE] = [
        0xff,
        0xff,
        0xff,
        0xff,
        0xff,
        0xff,
        source_mac.0,
        source_mac.1,
        source_mac.2,
        source_mac.3,
        source_mac.4,
        source_mac.5,
        (ETHERTYPE_ARP / 0x100) as u8,
        (ETHERTYPE_ARP % 0x100) as u8,
        (HARDWARE_ETHERNET / 0x100) as u8,
        (HARDWARE_ETHERNET % 0x100) as u8,
        (ETHERTYPE_IPV4 / 0x100) as u8,
        (ETHERTYPE_IPV4 % 0x100) as u8,
        HARDWARE_ADDR_LEN,
        PROTOCOL_ADDR_LEN,
        (operation / 0x100) as u8,
        (operation % 0x100) as u8,
        source_mac.0,
        source_mac.1,
        source_mac.2,
        source_mac.3,
        source_mac.4,
        source_mac.5,
        source_ip.0,
        source_ip.1,
        source_ip.2,
        source_ip.3,
        target_mac.0,
        target_mac.1,
        target_mac.2,
        target_mac.3,
        target_mac.4,
        target_mac.5,
        target_ip.0,
        target_ip.1,
        target_ip.2,
        target_ip.3,
    ];
    proof {
        assert(bytes@ =~= arp_frame(operation, source_mac, source_ip, target_mac, target_ip));
        lemma_frame_well_formed(operation, source_mac, source_ip, target_mac, target_ip);
    }
    Frame { bytes }
}

/// Builds the broadcast request "who has `target_ip`? tell `source_ip` at
/// `source_mac`".
pub fn encode_request(source_mac: MacAddr, source_ip: Ipv4Addr, target_ip: Ipv4Addr) -> (frame:
    Frame)
    ensures
        frame@ == request_frame(source_mac, source_ip, target_ip),
        well_formed(frame@),
        parse(frame@) == Some(
            ParsedArp {
                operation: ARP_REQUEST,
                sender_hw_addr: source_mac,
                sender_proto_addr: source_ip,
                target_hw_addr: MacAddr::spec_zero(),
                target_proto_addr: target_ip,
            },
        ),
{
    proof {
        lemma_frame_well_formed(ARP_REQUEST, source_mac, source_ip, MacAddr::spec_zero(), target_ip);
        lemma_request_roundtrip(source_mac, source_ip, target_ip);
    }
    encode(ARP_REQUEST, source_mac, source_ip, MacAddr::zero(), target_ip)
}

/// Builds the broadcast reply "`source_ip` is at `source_mac`", addressed
/// inside the ARP message to `target_mac` and `target_ip`.
pub fn encode_reply(
    source_mac: MacAddr,
    source_ip: Ipv4Addr,
    target_mac: MacAddr,
    target_ip: Ipv4Addr,
) -> (frame: Frame)
    ensures
        frame@ == reply_frame(source_mac, source_ip, target_mac, target_ip),
        well_formed(frame@),
        parse(frame@) == Some(
            ParsedArp {
                operation: ARP_REPLY,
                sender_hw_addr: source_mac,
                sender_proto_addr: source_ip,
                target_hw_addr: target_mac,
                target_proto_addr: target_ip,
            },
        ),
{
    proof {
        lemma_frame_well_formed(ARP_REPLY, source_mac, source_ip, target_mac, target_ip);
        lemma_reply_roundtrip(source_mac, source_ip, target_mac, target_ip);
    }
    encode(ARP_REPLY, source_mac, source_ip, target_mac, target_ip)
}

/// Reads the ARP fields of a received buffer. A buffer shorter than a frame
/// yields `None`; any other buffer yields the fields found at the fixed
/// offsets, whatever the rest of it holds.
pub fn decode(buffer: &[u8]) -> (parsed: Option<ParsedArp>)
    ensures
        parsed == parse(buffer@),
        parsed is None <==> buffer@.len() < FRAME_SIZE,
{
    if buffer.len() < FRAME_SIZE {
        return None;
    }
    let parsed = ParsedArp {
        operation: (buffer[20] as u16) * 0x100 + (buffer[21] as u16),
        sender_hw_addr: MacAddr(
            buffer[22],
            buffer[23],
            buffer[24],
            buffer[25],
            buffer[26],
            buffer[27],
        ),
        sender_proto_addr: Ipv4Addr(buffer[28], buffer[29], buffer[30], buffer[31]),
        target_hw_addr: MacAddr(
            buffer[32],
            buffer[33],
            buffer[34],
            buffer[35],
            buffer[36],
            buffer[37],
        ),
        target_proto_addr: Ipv4Addr(buffer[38], buffer[39], buffer[40], buffer[41]),
    };
    Some(parsed)
}

/// A message laid out for a request or a reply is a well-formed frame.
pub proof fn lemma_frame_well_formed(
    operation: u16,
    source_mac: MacAddr,
    source_ip: Ipv4Addr,
    target_mac: MacAddr,
    target_ip: Ipv4Addr,
)
    requires
        operation == ARP_REQUEST || operation == ARP_REPLY,
    ensures
        well_formed(arp_frame(operation, source_mac, source_ip, target_mac, target_ip)),
{
    let bytes = arp_frame(operation, source_mac, source_ip, target_mac, target_ip);
    assert(bytes.subrange(12, 14) =~= be16(ETHERTYPE_ARP));
    assert(bytes.subrange(14, 16) =~= be16(HARDWARE_ETHERNET));
    assert(bytes.subrange(16, 18) =~= be16(ETHERTYPE_IPV4));
    assert(bytes.subrange(20, 22) =~= be16(operation));
}

/// Reading back a laid-out message gives the opcode and the four addresses
/// that went in, for every opcode and all addresses.
pub proof fn lemma_parse_arp_frame(
    operation: u16,
    source_mac: MacAddr,
    source_ip: Ipv4Addr,
    target_mac: MacAddr,
    target_ip: Ipv4Addr,
)
    ensures
        parse(arp_frame(operation, source_mac, source_ip, target_mac, target_ip)) == Some(
            ParsedArp {
                operation,
                sender_hw_addr: source_mac,
                sender_proto_addr: source_ip,
                target_hw_addr: target_mac,
                target_proto_addr: target_ip,
            },
        ),
{
    let bytes = arp_frame(operation, source_mac, source_ip, target_mac, target_ip);
    assert(bytes.len() == FRAME_SIZE);
    let arp = bytes.subrange(ARP_OFFSET as int, FRAME_SIZE as int);
    assert(arp =~= arp_message(operation, source_mac, source_ip, target_mac, target_ip));
    assert(arp.subrange(6, 8) =~= be16(operation));
    assert(from_be16(be16(operation)) == operation);
    assert(arp.subrange(8, 14) =~= source_mac@);
    assert(arp.subrange(14, 18) =~= source_ip@);
    assert(arp.subrange(18, 24) =~= target_mac@);
    assert(arp.subrange(24, 28) =~= target_ip@);
}

/// Decoding an encoded request recovers the sender's hardware and protocol
/// address, the target's protocol address and the request opcode; the target
/// hardware address reads as zero.
pub proof fn lemma_request_roundtrip(source_mac: MacAddr, source_ip: Ipv4Addr, target_ip: Ipv4Addr)
    ensures
        parse(request_frame(source_mac, source_ip, target_ip)) == Some(
            ParsedArp {
                operation: ARP_REQUEST,
                sender_hw_addr: source_mac,
                sender_proto_addr: source_ip,
                target_hw_addr: MacAddr::spec_zero(),
                target_proto_addr: target_ip,
            },
        ),
{
    lemma_parse_arp_frame(ARP_REQUEST, source_mac, source_ip, MacAddr::spec_zero(), target_ip);
}

/// Decoding an encoded reply recovers the reply opcode and the target's
/// hardware address, along with the other three addresses.
pub proof fn lemma_reply_roundtrip(
    source_mac: MacAddr,
    source_ip: Ipv4Addr,
    target_mac: MacAddr,
    target_ip: Ipv4Addr,
)
    ensures
        parse(reply_frame(source_mac, source_ip, target_mac, target_ip)) == Some(
            ParsedArp {
                operation: ARP_REPLY,
                sender_hw_addr: source_mac,
                sender_proto_addr: source_ip,
                target_hw_addr: target_mac,
                target_proto_addr: target_ip,
            },
        ),
{
    lemma_parse_arp_frame(ARP_REPLY, source_mac, source_ip, target_mac, target_ip);
}

} // verus!
