//! The link layer: Ethernet II frames.

use crate::address::{ether_type_code, ipv4_at, mac_at};
use crate::cursor::ByteCursor;
use crate::endian::be_field;
use crate::error::DecodeError;
use crate::network::{IPv4Packet, PacketType};
use crate::util::{assemble_byte, mapping_mac_addr};
use pnet::packet::ethernet::EtherType;
use pnet::util::MacAddr;
use vstd::prelude::*;
use vstd::slice::slice_to_vec;

verus! {

/// An Ethernet II frame: the two addresses, the type field and what the
/// frame carries.
#[derive(Debug, PartialEq, Eq)]
pub struct EthernetIIFrame {
    pub destination: MacAddr,
    pub sender: MacAddr,
    pub ether_type: EtherType,
    pub payload: PacketType,
}

impl EthernetIIFrame {
    /// Why `bytes` are no Ethernet II frame, or `None` where they are one:
    /// the header takes fourteen bytes.
    pub open spec fn failure(bytes: Seq<u8>) -> Option<DecodeError> {
        if bytes.len() < 14 {
            Some(DecodeError::Truncated)
        } else {
            None
        }
    }

    /// `bytes` are a frame whose type field announces IPv4 and whose payload
    /// is an IPv4 packet.
    pub open spec fn carries_ipv4(bytes: Seq<u8>) -> bool {
        &&& bytes.len() >= 14
        &&& be_field(bytes, 12, 2) == 0x0800
        &&& IPv4Packet::failure(bytes.subrange(14, bytes.len() as int)) is None
    }

    /// Every field of `self` is what the Ethernet II layout reads from
    /// `bytes`, and the payload is what the bytes after the header decode
    /// to under the type field.
    pub open spec fn decodes(&self, bytes: Seq<u8>) -> bool {
        &&& self.destination == mac_at(bytes, 0)
        &&& self.sender == mac_at(bytes, 6)
        &&& self.ether_type.0 == be_field(bytes, 12, 2)
        &&& self.payload.decodes(self.ether_type.0, bytes.subrange(14, bytes.len() as int))
    }

    /// Decodes an Ethernet II frame from `byte_array`. A buffer shorter than
    /// the header gives no frame at all; a payload that cannot be decoded
    /// gives a frame whose payload is `UNDEFINED`.
    pub fn new(byte_array: &[u8]) -> (decoded: Result<Self, DecodeError>)
        ensures
            match decoded {
                Ok(frame) => Self::failure(byte_array@) is None && frame.decodes(byte_array@),
                Err(failure) => Self::failure(byte_array@) == Some(failure),
            },
            byte_array@.len() < 14 ==> decoded == Err::<Self, DecodeError>(DecodeError::Truncated),
            byte_array@.len() >= 14 ==> decoded is Ok,
            Self::carries_ipv4(byte_array@) ==> {
                &&& decoded matches Ok(frame)
                &&& frame.payload matches PacketType::IPv4(packet)
                &&& packet.sender_ip == ipv4_at(byte_array@, 26)
                &&& packet.receiver_ip == ipv4_at(byte_array@, 30)
            },
    {
        proof {
            if Self::carries_ipv4(byte_array@) {
                let inner = byte_array@.subrange(14, byte_array@.len() as int);
                assert(ipv4_at(inner, 12) == ipv4_at(byte_array@, 26));
                assert(ipv4_at(inner, 16) == ipv4_at(byte_array@, 30));
            }
        }
        let mut iter = ByteCursor::new(byte_array);

        let destination = mapping_mac_addr(slice_to_vec(iter.take(6)?));
        let sender = mapping_mac_addr(slice_to_vec(iter.take(6)?));
        let ether_type = EtherType(assemble_byte(&mut iter, 2)?);

        let payload = PacketType::new(ether_type_code(&ether_type), iter.rest());

        Ok(EthernetIIFrame { destination, sender, ether_type, payload })
    }

    /// The address that the frame was sent from.
    pub fn get_source(&self) -> (source: MacAddr)
        ensures
            source == self.sender,
    {
        self.sender
    }

    /// What the frame carries.
    pub fn get_network_packet(&self) -> (packet: &PacketType)
        ensures
            packet == &self.payload,
    {
        &self.payload
    }
}

} // verus!
