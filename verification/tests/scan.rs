use arprender::addr::{Ipv4Addr, MacAddr};
use arprender::arp::frame::{decode, encode_reply, encode_request, ARP_REQUEST};
use arprender::arp::nic::{InterfaceError, NetworkInterface};
use arprender::arp::scan::{collect_hosts, scan_reply, ScanPlan};
use arprender::network::{IpNetwork, Ipv4Network};

const OWN_MAC: MacAddr = MacAddr(2, 0, 0, 0, 0, 1);
const OWN_IP: Ipv4Addr = Ipv4Addr(192, 168, 1, 7);
const OTHER_MAC: MacAddr = MacAddr(2, 0, 0, 0, 0, 2);

fn interface(mac: Option<MacAddr>, prefix: Option<u8>) -> NetworkInterface {
    let ips: Vec<IpNetwork> = prefix
        .map(|p| IpNetwork::V4(Ipv4Network::new(OWN_IP, p).unwrap()))
        .into_iter()
        .collect();
    NetworkInterface::new("eth0".to_string(), String::new(), mac, &ips)
}

/// Everything the scanner itself puts on the wire.
fn own_requests(plan: &ScanPlan) -> Vec<Vec<u8>> {
    (0..plan.len()).map(|i| plan.request(i).unwrap().as_bytes().to_vec()).collect()
}

#[test]
fn scan_needs_a_subnet() {
    assert_eq!(ScanPlan::new(&interface(Some(OWN_MAC), None)).err(), Some(InterfaceError::MissingIP));
    assert_eq!(ScanPlan::new(&interface(None, None)).err(), Some(InterfaceError::MissingIP));
}

#[test]
fn scan_needs_a_hardware_address() {
    assert_eq!(ScanPlan::new(&interface(None, Some(24))).err(), Some(InterfaceError::MissingMAC));
}

#[test]
fn scan_asks_for_every_address_of_the_subnet_in_order() {
    let plan = ScanPlan::new(&interface(Some(OWN_MAC), Some(24))).unwrap();
    assert_eq!(plan.mac(), OWN_MAC);
    assert_eq!(plan.len(), 256);
    for index in 0..256u64 {
        let frame = plan.request(index).unwrap();
        let expected = encode_request(OWN_MAC, OWN_IP, Ipv4Addr(192, 168, 1, index as u8));
        assert_eq!(frame.as_bytes(), expected.as_bytes());
        let parsed = decode(frame.as_bytes()).unwrap();
        assert_eq!(parsed.operation, ARP_REQUEST);
        assert_eq!(parsed.target_proto_addr, Ipv4Addr(192, 168, 1, index as u8));
    }
    assert!(plan.request(256).is_none());
    assert!(plan.request(u64::MAX).is_none());
}

#[test]
fn scan_of_a_single_host_subnet_asks_once() {
    let plan = ScanPlan::new(&interface(Some(OWN_MAC), Some(32))).unwrap();
    assert_eq!(plan.len(), 1);
    let only = plan.request(0).unwrap();
    assert_eq!(only.as_bytes(), encode_request(OWN_MAC, OWN_IP, OWN_IP).as_bytes());
    assert!(plan.request(1).is_none());
}

#[test]
fn scan_of_the_whole_address_space_reaches_the_last_address() {
    let plan = ScanPlan::new(&interface(Some(OWN_MAC), Some(0))).unwrap();
    assert_eq!(plan.len(), 1 << 32);
    let last = plan.request((1 << 32) - 1).unwrap();
    assert_eq!(
        decode(last.as_bytes()).unwrap().target_proto_addr,
        Ipv4Addr(255, 255, 255, 255)
    );
    assert!(plan.request(1 << 32).is_none());
}

#[test]
fn frame_addressed_to_us_reveals_its_sender() {
    let host_ip = Ipv4Addr(192, 168, 1, 20);
    let host_mac = MacAddr(2, 0, 0, 0, 0, 0x20);
    let reply = encode_reply(host_mac, host_ip, OWN_MAC, OWN_IP);
    assert_eq!(scan_reply(OWN_MAC, reply.as_bytes()), Some((host_ip, host_mac)));
}

#[test]
fn frame_addressed_to_another_station_reveals_nothing() {
    let reply = encode_reply(MacAddr(2, 0, 0, 0, 0, 0x20), Ipv4Addr(192, 168, 1, 20), OTHER_MAC, OWN_IP);
    assert_eq!(scan_reply(OWN_MAC, reply.as_bytes()), None);
    assert_eq!(scan_reply(OWN_MAC, &[0u8; 41]), None);
    assert_eq!(scan_reply(OWN_MAC, &[]), None);
}

#[test]
fn scan_without_responders_finds_nothing() {
    let plan = ScanPlan::new(&interface(Some(OWN_MAC), Some(24))).unwrap();
    let capture = own_requests(&plan);
    assert_eq!(capture.len(), 256);
    assert_eq!(collect_hosts(plan.mac(), &capture), vec![]);
    assert_eq!(collect_hosts(plan.mac(), &[]), vec![]);
}

#[test]
fn scan_with_one_responder_finds_exactly_that_host() {
    let plan = ScanPlan::new(&interface(Some(OWN_MAC), Some(24))).unwrap();
    let host_ip = Ipv4Addr(192, 168, 1, 77);
    let host_mac = MacAddr(2, 0, 0, 0, 0, 0x77);
    let mut capture = own_requests(&plan);
    capture.insert(100, encode_reply(host_mac, host_ip, OWN_MAC, OWN_IP).as_bytes().to_vec());
    capture.push(vec![0u8; 20]);
    capture.push(encode_reply(host_mac, host_ip, OTHER_MAC, OWN_IP).as_bytes().to_vec());
    assert_eq!(collect_hosts(plan.mac(), &capture), vec![(host_ip, host_mac)]);
}

#[test]
fn host_that_answers_twice_is_listed_twice() {
    let a = (Ipv4Addr(192, 168, 1, 20), MacAddr(2, 0, 0, 0, 0, 0x20));
    let b = (Ipv4Addr(192, 168, 1, 30), MacAddr(2, 0, 0, 0, 0, 0x30));
    let capture = vec![
        encode_reply(a.1, a.0, OWN_MAC, OWN_IP).as_bytes().to_vec(),
        encode_reply(b.1, b.0, OWN_MAC, OWN_IP).as_bytes().to_vec(),
        encode_reply(a.1, a.0, OWN_MAC, OWN_IP).as_bytes().to_vec(),
    ];
    assert_eq!(collect_hosts(OWN_MAC, &capture), vec![a, b, a]);
}
