use arprender::addr::{Ipv4Addr, MacAddr};
use arprender::arp::frame::{decode, encode_reply, encode_request, ARP_REPLY, ARP_REQUEST};
use arprender::arp::nic::{InterfaceError, NetworkInterface};
use arprender::arp::{arp_reply, arp_request, source_addresses};
use arprender::network::{IpNetwork, Ipv4Network};

const OWN_MAC: MacAddr = MacAddr(2, 0, 0, 0, 0, 1);
const OWN_IP: Ipv4Addr = Ipv4Addr(192, 168, 1, 7);
const FAKE_MAC: MacAddr = MacAddr(2, 0, 0, 0, 0, 0x99);
const FAKE_IP: Ipv4Addr = Ipv4Addr(192, 168, 1, 1);
const TARGET_IP: Ipv4Addr = Ipv4Addr(192, 168, 1, 20);
const TARGET_MAC: MacAddr = MacAddr(2, 0, 0, 0, 0, 0x20);

fn full() -> NetworkInterface {
    let ips = [IpNetwork::V4(Ipv4Network::new(OWN_IP, 24).unwrap())];
    NetworkInterface::new("eth0".to_string(), String::new(), Some(OWN_MAC), &ips)
}

fn without_mac() -> NetworkInterface {
    let ips = [IpNetwork::V4(Ipv4Network::new(OWN_IP, 24).unwrap())];
    NetworkInterface::new("tun0".to_string(), String::new(), None, &ips)
}

fn without_ip() -> NetworkInterface {
    NetworkInterface::new("eth1".to_string(), String::new(), Some(OWN_MAC), &[])
}

fn bare() -> NetworkInterface {
    NetworkInterface::new("dummy0".to_string(), String::new(), None, &[])
}

#[test]
fn own_addresses_are_used_when_none_is_given() {
    assert_eq!(source_addresses(&full(), None, None), Ok((OWN_MAC, OWN_IP)));
}

#[test]
fn given_addresses_take_the_place_of_the_interfaces_own() {
    assert_eq!(source_addresses(&full(), Some(FAKE_MAC), None), Ok((FAKE_MAC, OWN_IP)));
    assert_eq!(source_addresses(&full(), None, Some(FAKE_IP)), Ok((OWN_MAC, FAKE_IP)));
    assert_eq!(
        source_addresses(&full(), Some(FAKE_MAC), Some(FAKE_IP)),
        Ok((FAKE_MAC, FAKE_IP))
    );
    assert_eq!(
        source_addresses(&bare(), Some(FAKE_MAC), Some(FAKE_IP)),
        Ok((FAKE_MAC, FAKE_IP))
    );
}

#[test]
fn missing_hardware_address_is_reported() {
    assert_eq!(source_addresses(&without_mac(), None, None), Err(InterfaceError::MissingMAC));
    assert_eq!(
        source_addresses(&without_mac(), None, Some(FAKE_IP)),
        Err(InterfaceError::MissingMAC)
    );
    assert_eq!(source_addresses(&without_mac(), Some(FAKE_MAC), None), Ok((FAKE_MAC, OWN_IP)));
}

#[test]
fn missing_protocol_address_is_reported() {
    assert_eq!(source_addresses(&without_ip(), None, None), Err(InterfaceError::MissingIP));
    assert_eq!(
        source_addresses(&without_ip(), Some(FAKE_MAC), None),
        Err(InterfaceError::MissingIP)
    );
    assert_eq!(source_addresses(&without_ip(), None, Some(FAKE_IP)), Ok((OWN_MAC, FAKE_IP)));
}

#[test]
fn missing_hardware_address_is_reported_first() {
    assert_eq!(source_addresses(&bare(), None, None), Err(InterfaceError::MissingMAC));
    assert_eq!(source_addresses(&bare(), Some(FAKE_MAC), None), Err(InterfaceError::MissingIP));
}

#[test]
fn request_is_sent_from_the_chosen_addresses() {
    let own = arp_request(&full(), TARGET_IP, None, None).unwrap();
    assert_eq!(own.as_bytes(), encode_request(OWN_MAC, OWN_IP, TARGET_IP).as_bytes());
    let spoofed = arp_request(&full(), TARGET_IP, None, Some(FAKE_IP)).unwrap();
    assert_eq!(spoofed.as_bytes(), encode_request(OWN_MAC, FAKE_IP, TARGET_IP).as_bytes());
    let parsed = decode(spoofed.as_bytes()).unwrap();
    assert_eq!(parsed.operation, ARP_REQUEST);
    assert_eq!(parsed.sender_hw_addr, OWN_MAC);
    assert_eq!(parsed.sender_proto_addr, FAKE_IP);
    assert_eq!(parsed.target_hw_addr, MacAddr::zero());
    assert_eq!(parsed.target_proto_addr, TARGET_IP);
}

#[test]
fn request_fails_without_a_sender_address() {
    assert_eq!(
        arp_request(&without_mac(), TARGET_IP, None, None).map(|f| *f.as_bytes()),
        Err(InterfaceError::MissingMAC)
    );
    assert_eq!(
        arp_request(&without_ip(), TARGET_IP, None, None).map(|f| *f.as_bytes()),
        Err(InterfaceError::MissingIP)
    );
}

#[test]
fn reply_is_sent_from_the_chosen_addresses() {
    let reply = arp_reply(&full(), TARGET_MAC, TARGET_IP, Some(FAKE_MAC), Some(FAKE_IP)).unwrap();
    assert_eq!(
        reply.as_bytes(),
        encode_reply(FAKE_MAC, FAKE_IP, TARGET_MAC, TARGET_IP).as_bytes()
    );
    let parsed = decode(reply.as_bytes()).unwrap();
    assert_eq!(parsed.operation, ARP_REPLY);
    assert_eq!(parsed.target_hw_addr, TARGET_MAC);
    assert_eq!(parsed.target_proto_addr, TARGET_IP);
}

#[test]
fn reply_fails_without_a_sender_address() {
    assert_eq!(
        arp_reply(&without_mac(), TARGET_MAC, TARGET_IP, None, None).map(|f| *f.as_bytes()),
        Err(InterfaceError::MissingMAC)
    );
    assert_eq!(
        arp_reply(&without_ip(), TARGET_MAC, TARGET_IP, None, None).map(|f| *f.as_bytes()),
        Err(InterfaceError::MissingIP)
    );
}
