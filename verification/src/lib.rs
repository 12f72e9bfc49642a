//! Decoding of raw link-layer octets into a layered packet: an Ethernet II
//! frame, the IPv4, IPv6 or ARP message it carries, and the TCP, UDP or ICMP
//! message inside an IPv4 packet.
//!
//! Every decoder is a function of the bytes alone. Its contract names the
//! buffers on which it fails, with the failure, and fixes every field of what
//! it returns on the others.

pub mod address;
pub mod cursor;
pub mod datalink;
pub mod endian;
pub mod error;
pub mod network;
pub mod transport;
pub mod util;
