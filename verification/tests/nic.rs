use arprender::addr::{Ipv4Addr, MacAddr};
use arprender::arp::nic::{find_first_ipv4, get_interface_by_name, InterfaceError, NetworkInterface};
use arprender::network::{IpNetwork, Ipv4Network};

fn v4(a: u8, b: u8, c: u8, d: u8, prefix: u8) -> IpNetwork {
    IpNetwork::V4(Ipv4Network::new(Ipv4Addr(a, b, c, d), prefix).unwrap())
}

fn v6() -> IpNetwork {
    IpNetwork::V6 { addr: 0xfe80_0000_0000_0000_0000_0000_0000_0001, prefix: 64 }
}

fn interface(name: &str, mac: Option<MacAddr>, ips: &[IpNetwork]) -> NetworkInterface {
    NetworkInterface::new(name.to_string(), format!("{name} adapter"), mac, ips)
}

#[test]
fn error_messages() {
    assert_eq!(InterfaceError::InterfaceNotFound.to_string(), "Could not find interface.");
    assert_eq!(
        InterfaceError::NameAmbiguity.to_string(),
        "There is more than one interface with this name."
    );
    assert_eq!(
        InterfaceError::MissingIP.to_string(),
        "This interface has no valid IPv4 address assigned."
    );
    assert_eq!(
        InterfaceError::MissingMAC.to_string(),
        "This interface has no valid MAC address assigned."
    );
    assert_eq!(
        InterfaceError::ChannelError.to_string(),
        "Failed to open transmission channels on the interface."
    );
}

#[test]
fn first_ipv4_subnet_is_kept() {
    let ips = [v6(), v4(192, 168, 1, 7, 24), v4(10, 0, 0, 1, 8)];
    assert_eq!(
        find_first_ipv4(&ips),
        Some(Ipv4Network::new(Ipv4Addr(192, 168, 1, 7), 24).unwrap())
    );
    assert_eq!(find_first_ipv4(&[v6(), v6()]), None);
    assert_eq!(find_first_ipv4(&[]), None);
}

#[test]
fn interface_reports_what_it_was_given() {
    let mac = MacAddr(2, 0, 0, 0, 0, 1);
    let eth = interface("eth0", Some(mac), &[v6(), v4(192, 168, 1, 7, 24), v4(10, 0, 0, 1, 8)]);
    assert_eq!(eth.name(), "eth0");
    assert_eq!(eth.description(), "eth0 adapter");
    assert_eq!(eth.mac(), Some(mac));
    assert_eq!(eth.ipv4_address(), Some(Ipv4Addr(192, 168, 1, 7)));
    assert_eq!(eth.network_address(), Some(Ipv4Addr(192, 168, 1, 0)));
    assert_eq!(eth.network(), Ipv4Network::new(Ipv4Addr(192, 168, 1, 7), 24));
    assert_eq!(eth.clone(), eth);
}

#[test]
fn ipv6_only_interface_has_no_address() {
    let tun = interface("tun0", None, &[v6()]);
    assert_eq!(tun.mac(), None);
    assert_eq!(tun.ipv4_address(), None);
    assert_eq!(tun.network_address(), None);
    assert_eq!(tun.network(), None);
}

#[test]
fn lookup_by_name_finds_the_interface() {
    let all = [
        interface("lo", None, &[v4(127, 0, 0, 1, 8)]),
        interface("eth0", Some(MacAddr(2, 0, 0, 0, 0, 1)), &[v4(192, 168, 1, 7, 24)]),
        interface("wlan0", Some(MacAddr(2, 0, 0, 0, 0, 2)), &[]),
    ];
    assert_eq!(get_interface_by_name(&all, "eth0"), Ok(&all[1]));
    assert_eq!(get_interface_by_name(&all, "lo"), Ok(&all[0]));
    assert_eq!(get_interface_by_name(&all, "wlan0"), Ok(&all[2]));
}

#[test]
fn lookup_by_name_fails_when_no_interface_has_the_name() {
    let all = [interface("lo", None, &[]), interface("eth0", None, &[])];
    assert_eq!(get_interface_by_name(&all, "eth1"), Err(InterfaceError::InterfaceNotFound));
    assert_eq!(get_interface_by_name(&all, "eth"), Err(InterfaceError::InterfaceNotFound));
    assert_eq!(get_interface_by_name(&all, ""), Err(InterfaceError::InterfaceNotFound));
    assert_eq!(get_interface_by_name(&[], "eth0"), Err(InterfaceError::InterfaceNotFound));
}

#[test]
fn lookup_by_name_returns_the_first_of_two_namesakes() {
    let all = [
        interface("eth0", Some(MacAddr(2, 0, 0, 0, 0, 1)), &[]),
        interface("eth0", Some(MacAddr(2, 0, 0, 0, 0, 2)), &[]),
    ];
    let found = get_interface_by_name(&all, "eth0").unwrap();
    assert_eq!(found.mac(), Some(MacAddr(2, 0, 0, 0, 0, 1)));
}
