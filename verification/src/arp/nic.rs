//! Network interfaces as snapshots of the addresses they carry.

use crate::addr::{Ipv4Addr, MacAddr};
use crate::network::{first_ipv4, IpNetwork, Ipv4Network};
use vstd::prelude::*;

verus! {

/// Why an interface cannot be used.
#[derive(Debug, Copy, Clone, PartialEq, Eq, Structural)]
pub enum InterfaceError {
    InterfaceNotFound,
    MissingIP,
    MissingMAC,
    NameAmbiguity,
    ChannelError,
}

impl InterfaceError {
    /// The sentence shown to the user for each error.
    pub open spec fn message(self) -> Seq<char> {
        match self {
            InterfaceError::InterfaceNotFound => "Could not find interface."@,
            InterfaceError::NameAmbiguity => "There is more than one interface with this name."@,
            InterfaceError::MissingIP => "This interface has no valid IPv4 address assigned."@,
            InterfaceError::MissingMAC => "This interface has no valid MAC address assigned."@,
            InterfaceError::ChannelError => "Failed to open transmission channels on the interface."@,
        }
    }

    pub fn to_string(&self) -> (text: String)
        ensures
            text@ == self.message(),
    {
        match self {
            InterfaceError::InterfaceNotFound => "Could not find interface.".to_owned(),
            InterfaceError::NameAmbiguity => "There is more than one interface with this name.".to_owned(),
            InterfaceError::MissingIP => "This interface has no valid IPv4 address assigned.".to_owned(),
            InterfaceError::MissingMAC => "This interface has no valid MAC address assigned.".to_owned(),
            InterfaceError::ChannelError => "Failed to open transmission channels on the interface.".to_owned(),
        }
    }
}

/// What an interface is, seen from outside.
pub struct InterfaceView {
    pub name: Seq<char>,
    pub description: Seq<char>,
    pub mac: Option<MacAddr>,
    pub network: Option<Ipv4Network>,
}

/// A snapshot of one interface of the host: its name, its hardware address
/// if it has one, and its first IPv4 subnet if it has one. It does not follow
/// later changes of the interface.
#[derive(Debug, PartialEq, Eq)]
pub struct NetworkInterface {
    name: String,
    description: String,
    mac: Option<MacAddr>,
    ipv4_net: Option<Ipv4Network>,
}

impl View for NetworkInterface {
    type V = InterfaceView;

    closed spec fn view(&self) -> InterfaceView {
        InterfaceView {
            name: self.name@,
            description: self.description@,
            mac: self.mac,
            network: self.ipv4_net,
        }
    }
}

impl Clone for NetworkInterface {
    fn clone(&self) -> (copy: NetworkInterface)
        ensures
            copy@ == self@,
    {
        NetworkInterface {
            name: self.name.clone(),
            description: self.description.clone(),
            mac: self.mac,
            ipv4_net: self.ipv4_net,
        }
    }
}

/// Finds the first IPv4 subnet among the subnets of an interface.
pub fn find_first_ipv4(ips: &[IpNetwork]) -> (net: Option<Ipv4Network>)
    ensures
        net == first_ipv4(ips@),
{
    let mut i: usize = 0;
    assert(ips@.skip(0) =~= ips@);
    while i < ips.len()
        invariant
            i <= ips.len(),
            first_ipv4(ips@) == first_ipv4(ips@.skip(i as int)),
        decreases ips.len() - i,
    {
        match ips[i] {
            IpNetwork::V4(net) => {
                return Some(net);
            },
            IpNetwork::V6 { .. } => {
                assert(ips@.skip(i as int).drop_first() =~= ips@.skip(i + 1));
            },
        }
        i += 1;
    }
    None
}

impl NetworkInterface {
    /// Takes the snapshot. Of the subnets the interface reports, the first
    /// IPv4 one is kept; an interface with none has no IPv4 address.
    pub fn new(name: String, description: String, mac: Option<MacAddr>, ips: &[IpNetwork]) -> (interface:
        NetworkInterface)
        ensures
            interface@ == (InterfaceView {
                name: name@,
                description: description@,
                mac,
                network: first_ipv4(ips@),
            }),
    {
        let ipv4_net = find_first_ipv4(ips);
        NetworkInterface { name, description, mac, ipv4_net }
    }

    pub fn name(&self) -> (name: &str)
        ensures
            name@ == self@.name,
    {
        self.name.as_str()
    }

    pub fn description(&self) -> (description: &str)
        ensures
            description@ == self@.description,
    {
        self.description.as_str()
    }

    pub fn mac(&self) -> (mac: Option<MacAddr>)
        ensures
            mac == self@.mac,
    {
        self.mac
    }

    /// The interface's own IPv4 address.
    pub fn ipv4_address(&self) -> (addr: Option<Ipv4Addr>)
        ensures
            addr == self.spec_ipv4_address(),
    {
        match &self.ipv4_net {
            Some(network) => Some(network.ip()),
            None => None,
        }
    }

    /// The lowest address of the interface's subnet.
    pub fn network_address(&self) -> (addr: Option<Ipv4Addr>)
        ensures
            addr == match self@.network {
                Some(network) => Some(network@.network()),
                None => None,
            },
    {
        match &self.ipv4_net {
            Some(network) => Some(network.network()),
            None => None,
        }
    }

    pub fn network(&self) -> (network: Option<Ipv4Network>)
        ensures
            network == self@.network,
    {
        self.ipv4_net
    }

    /// The address inside the interface's subnet that the interface itself
    /// holds.
    pub open spec fn spec_ipv4_address(&self) -> Option<Ipv4Addr> {
        match self@.network {
            Some(network) => Some(network@.addr),
            None => None,
        }
    }
}

/// Whether `interfaces[index]` is the first interface called `name`.
pub open spec fn is_first_named(interfaces: Seq<NetworkInterface>, name: Seq<char>, index: int) -> bool {
    &&& 0 <= index < interfaces.len()
    &&& interfaces[index]@.name == name
    &&& forall|j: int| 0 <= j < index ==> interfaces[j]@.name != name
}

/// Looks an interface up by name. Of several interfaces with the same name
/// the first one is returned; `InterfaceNotFound` means that none has it.
pub fn get_interface_by_name<'a>(interfaces: &'a [NetworkInterface], name: &str) -> (found: Result<
    &'a NetworkInterface,
    InterfaceError,
>)
    ensures
        match found {
            Ok(interface) => exists|i: int|
                is_first_named(interfaces@, name@, i) && interfaces@[i] == *interface,
            Err(error) => error == InterfaceError::InterfaceNotFound && forall|j: int|
                0 <= j < interfaces@.len() ==> interfaces@[j]@.name != name@,
        },
{
    let wanted = name.to_owned();
    let mut i: usize = 0;
    while i < interfaces.len()
        invariant
            i <= interfaces.len(),
            wanted@ == name@,
            forall|j: int| 0 <= j < i ==> interfaces@[j]@.name != name@,
        decreases interfaces.len() - i,
    {
        if interfaces[i].name == wanted {
            assert(is_first_named(interfaces@, name@, i as int));
            return Ok(&interfaces[i]);
        }
        i += 1;
    }
    Err(InterfaceError::InterfaceNotFound)
}

} // verus!
