//! Hardware and IPv4 addresses. The hardware address is pnet's `MacAddr`,
//! whose six public octets Verus reads from pnet itself; the IPv4 address is
//! a type of this library.

use pnet::packet::ethernet::EtherType;
use pnet::packet::PrimitiveValues;
use pnet::util::MacAddr;
use vstd::prelude::*;

verus! {

/// pnet's `MacAddr`, a tuple of six public octets.
#[verifier::external_type_specification]
pub struct ExMacAddr(MacAddr);

/// pnet's `EtherType`, a wrapper of one public `u16`.
#[verifier::external_type_specification]
pub struct ExEtherType(EtherType);

/// `MacAddr::new` of pnet stores its six arguments in order. Not proved here:
/// it is what pnet's source shows.
pub assume_specification[ MacAddr::new ](a: u8, b: u8, c: u8, d: u8, e: u8, f: u8) -> (address:
    MacAddr)
    ensures
        address == MacAddr(a, b, c, d, e, f),
;

/// The default `MacAddr` of pnet is the all-zero address: its `Default` is
/// derived, and the default of each octet is zero.
#[verifier::external_body]
pub(crate) fn zero_mac_addr() -> (address: MacAddr)
    ensures
        address == MacAddr(0, 0, 0, 0, 0, 0),
{
    MacAddr::default()
}

/// `PrimitiveValues::to_primitive_values` of pnet on an `EtherType` gives the
/// number that the type wraps, in a tuple of one.
#[verifier::external_body]
pub(crate) fn ether_type_code(ether_type: &EtherType) -> (code: u16)
    ensures
        code == ether_type.0,
{
    ether_type.to_primitive_values().0
}

/// The hardware address spelled by the six bytes of `bytes` from `start` on.
pub open spec fn mac_at(bytes: Seq<u8>, start: int) -> MacAddr {
    MacAddr(
        bytes[start],
        bytes[start + 1],
        bytes[start + 2],
        bytes[start + 3],
        bytes[start + 4],
        bytes[start + 5],
    )
}

/// An IPv4 address: four octets, in the order in which they are written.
#[derive(Debug, Clone, Copy, PartialEq, Eq, Structural)]
pub struct Ipv4Address(pub u8, pub u8, pub u8, pub u8);

impl Ipv4Address {
    /// The four octets, first to last.
    pub open spec fn spec_octets(&self) -> Seq<u8> {
        seq![self.0, self.1, self.2, self.3]
    }

    /// The four octets, first to last.
    pub fn octets(&self) -> (octets: [u8; 4])
        ensures
            octets@ == self.spec_octets(),
    {
        let octets = [self.0, self.1, self.2, self.3];
        assert(octets@ =~= self.spec_octets());
        octets
    }
}

/// The IPv4 address spelled by the four bytes of `bytes` from `start` on.
pub open spec fn ipv4_at(bytes: Seq<u8>, start: int) -> Ipv4Address {
    Ipv4Address(bytes[start], bytes[start + 1], bytes[start + 2], bytes[start + 3])
}

} // verus!
