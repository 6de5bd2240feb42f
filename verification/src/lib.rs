//! Address resolution on a local Ethernet segment, without the wire.
//!
//! The crate builds and reads ARP frames, picks the addresses a request is
//! sent from, decides which inbound frames answer a resolution or a scan, and
//! plans the frames of an impersonation. It never touches a socket: callers
//! transmit the frames it hands out and feed it the frames they receive.
//!
//! * [`addr`]: hardware and IPv4 addresses.
//! * [`network`]: IPv4 subnets and the addresses they hold.
//! * [`arp`]: frames, interfaces, requests and replies, resolution, scanning.
//! * [`attack`]: the two impersonation strategies and the pace of their loop.
//! * [`utils`]: timers, bounded waits, random addresses.

pub mod addr;
pub mod arp;
pub mod attack;
pub mod network;
pub mod utils;
