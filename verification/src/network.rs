//! The network layer inside an Ethernet frame: IPv4, IPv6 and ARP.

use crate::address::{ipv4_at, mac_at, Ipv4Address};
use crate::cursor::ByteCursor;
use crate::endian::{be_field, lemma_be_field_short};
use crate::error::DecodeError;
use crate::transport::{ProtocolType, TransportSegment};
use crate::util::{assemble_byte, mapping_ip4_addr, mapping_mac_addr, splice_byte};
use pnet::util::MacAddr;
use vstd::arithmetic::power2::lemma2_to64;
use vstd::prelude::*;
use vstd::slice::slice_to_vec;

verus! {

/// An IPv4 packet: the fixed header, its options and the message it carries.
#[derive(Debug, PartialEq, Eq)]
pub struct IPv4Packet {
    /// Always four.
    pub version: u8,
    /// The length of the header in 32-bit words, at least five.
    pub header_length: u8,
    pub diff_serv: u8,
    /// Stored as read; the payload is all that follows the header.
    pub total_length: u16,
    pub identification: u16,
    /// The three flag bits.
    pub flag: u8,
    /// The fragment offset, thirteen bits.
    pub fragment: u16,
    pub ttl: u8,
    pub protocol_type: ProtocolType,
    /// Stored as read; it is not held against the bytes it covers.
    pub header_checksum: u16,
    pub sender_ip: Ipv4Address,
    pub receiver_ip: Ipv4Address,
    pub option: Vec<u8>,
    pub payload: TransportSegment,
}

impl IPv4Packet {
    /// Why `bytes` are no IPv4 packet, or `None` where they are one. The
    /// first byte holds the version and the header length. The header
    /// length is judged first: it must cover the fixed twenty bytes. Then
    /// the version must be four, and the header must lie within the buffer.
    pub open spec fn failure(bytes: Seq<u8>) -> Option<DecodeError> {
        if bytes.len() < 1 {
            Some(DecodeError::Truncated)
        } else if bytes[0] % 16 < 5 {
            Some(DecodeError::HeaderLengthTooSmall)
        } else if bytes[0] / 16 != 4 {
            Some(DecodeError::VersionMismatch)
        } else if bytes.len() < (bytes[0] % 16) * 4 {
            Some(DecodeError::Truncated)
        } else {
            None
        }
    }

    /// Every field of `self` is what the IPv4 layout reads from `bytes`, and
    /// the payload is what the bytes after the header decode to.
    pub open spec fn decodes(&self, bytes: Seq<u8>) -> bool {
        let header = (bytes[0] % 16) * 4;
        &&& self.version == bytes[0] / 16
        &&& self.header_length == bytes[0] % 16
        &&& self.diff_serv == bytes[1]
        &&& self.total_length == be_field(bytes, 2, 2)
        &&& self.identification == be_field(bytes, 4, 2)
        &&& self.flag == bytes[6] / 32
        &&& self.fragment == (bytes[6] % 32) * 256 + bytes[7]
        &&& self.ttl == bytes[8]
        &&& self.protocol_type == ProtocolType::of(bytes[9])
        &&& self.header_checksum == be_field(bytes, 10, 2)
        &&& self.sender_ip == ipv4_at(bytes, 12)
        &&& self.receiver_ip == ipv4_at(bytes, 16)
        &&& self.option@ == bytes.subrange(20, header)
        &&& self.payload.decodes(
            ProtocolType::of(bytes[9]),
            bytes.subrange(header, bytes.len() as int),
        )
    }

    /// What holds of every decoded packet: the version is four, the header
    /// length covers the fixed header, and the options fill the header.
    pub open spec fn well_formed(&self) -> bool {
        &&& self.version == 4
        &&& 5 <= self.header_length <= 15
        &&& self.flag <= 7
        &&& self.fragment <= 0x1fff
        &&& self.option@.len() == self.header_length * 4 - 20
    }

    /// Decodes an IPv4 packet from the front of `byte_array`. The bytes
    /// after the header go to the decoder of the protocol that the header
    /// announces.
    pub fn new(byte_array: &[u8]) -> (decoded: Result<Self, DecodeError>)
        ensures
            match decoded {
                Ok(packet) => {
                    &&& Self::failure(byte_array@) is None
                    &&& packet.decodes(byte_array@)
                    &&& packet.well_formed()
                },
                Err(failure) => Self::failure(byte_array@) == Some(failure),
            },
            byte_array@.len() > 0 && byte_array@[0] % 16 < 5 ==> {
                &&& decoded matches Err(failure)
                &&& failure == DecodeError::HeaderLengthTooSmall
                &&& failure.is_structural()
            },
    {
        let mut iter = ByteCursor::new(byte_array);
        proof {
            lemma2_to64();
        }

        let (version, header_length) = splice_byte(4, iter.next_byte()?);
        if header_length < 5 {
            return Err(DecodeError::HeaderLengthTooSmall);
        }
        if version != 4 {
            return Err(DecodeError::VersionMismatch);
        }
        let diff_serv = iter.next_byte()?;
        let total_length: u16 = assemble_byte(&mut iter, 2)?;
        let identification: u16 = assemble_byte(&mut iter, 2)?;

        let (flag, other) = splice_byte(3, iter.next_byte()?);
        let pieces = [other, iter.next_byte()?];
        proof {
            lemma_be_field_short(pieces@, 0);
        }
        let fragment: u16 = assemble_byte(&mut ByteCursor::new(pieces.as_slice()), 2)?;

        let ttl = iter.next_byte()?;
        let protocol_type = ProtocolType::new(iter.next_byte()?);
        let header_checksum: u16 = assemble_byte(&mut iter, 2)?;
        let sender_ip = mapping_ip4_addr(&mut iter)?;
        let receiver_ip = mapping_ip4_addr(&mut iter)?;

        let option = slice_to_vec(iter.take(header_length as usize * 4 - 20)?);
        let payload = TransportSegment::new(&protocol_type, iter.rest());

        Ok(
            IPv4Packet {
                version,
                header_length,
                diff_serv,
                total_length,
                identification,
                flag,
                fragment,
                ttl,
                protocol_type,
                header_checksum,
                sender_ip,
                receiver_ip,
                option,
                payload,
            },
        )
    }
}

/// An ARP message for IPv4 over Ethernet. The two address lengths are
/// stored as read; the addresses are always read as six and four bytes.
#[derive(Debug, Clone, Copy, PartialEq, Eq)]
pub struct ARPPacket {
    pub hardware_type: u16,
    pub protocol_type: u16,
    pub hardware_address_length: u8,
    pub protocol_address_length: u8,
    pub operation: u16,
    pub sender_hardware_address: MacAddr,
    pub sender_protocol_address: u32,
    pub target_hardware_address: MacAddr,
    pub target_protocol_address: u32,
}

impl ARPPacket {
    /// Why `bytes` are no ARP message, or `None` where they are one.
    pub open spec fn failure(bytes: Seq<u8>) -> Option<DecodeError> {
        if bytes.len() < 28 {
            Some(DecodeError::Truncated)
        } else {
            None
        }
    }

    /// Every field of `self` is what the ARP layout reads from `bytes`.
    pub open spec fn decodes(&self, bytes: Seq<u8>) -> bool {
        &&& self.hardware_type == be_field(bytes, 0, 2)
        &&& self.protocol_type == be_field(bytes, 2, 2)
        &&& self.hardware_address_length == bytes[4]
        &&& self.protocol_address_length == bytes[5]
        &&& self.operation == be_field(bytes, 6, 2)
        &&& self.sender_hardware_address == mac_at(bytes, 8)
        &&& self.sender_protocol_address == be_field(bytes, 14, 4)
        &&& self.target_hardware_address == mac_at(bytes, 18)
        &&& self.target_protocol_address == be_field(bytes, 24, 4)
    }

    /// Decodes an ARP message from the first 28 bytes of `byte_array`.
    pub fn new(byte_array: &[u8]) -> (decoded: Result<Self, DecodeError>)
        ensures
            match decoded {
                Ok(packet) => Self::failure(byte_array@) is None && packet.decodes(byte_array@),
                Err(failure) => Self::failure(byte_array@) == Some(failure),
            },
            byte_array@.len() >= 28 ==> {
                &&& decoded matches Ok(packet)
                &&& packet.operation == byte_array@[6] * 0x100 + byte_array@[7]
                &&& packet.sender_hardware_address == mac_at(byte_array@, 8)
                &&& packet.sender_protocol_address == byte_array@[14] * 0x100_0000
                    + byte_array@[15] * 0x1_0000 + byte_array@[16] * 0x100 + byte_array@[17]
                &&& packet.target_hardware_address == mac_at(byte_array@, 18)
                &&& packet.target_protocol_address == byte_array@[24] * 0x100_0000
                    + byte_array@[25] * 0x1_0000 + byte_array@[26] * 0x100 + byte_array@[27]
            },
    {
        proof {
            lemma_be_field_short(byte_array@, 6);
            lemma_be_field_short(byte_array@, 14);
            lemma_be_field_short(byte_array@, 24);
        }
        let mut iter = ByteCursor::new(byte_array);

        let hardware_type: u16 = assemble_byte(&mut iter, 2)?;
        let protocol_type: u16 = assemble_byte(&mut iter, 2)?;
        let hardware_address_length = iter.next_byte()?;
        let protocol_address_length = iter.next_byte()?;
        let operation: u16 = assemble_byte(&mut iter, 2)?;
        let sender_hardware_address = mapping_mac_addr(slice_to_vec(iter.take(6)?));
        let sender_protocol_address: u32 = assemble_byte(&mut iter, 4)?;
        let target_hardware_address = mapping_mac_addr(slice_to_vec(iter.take(6)?));
        let target_protocol_address: u32 = assemble_byte(&mut iter, 4)?;

        Ok(
            ARPPacket {
                hardware_type,
                protocol_type,
                hardware_address_length,
                protocol_address_length,
                operation,
                sender_hardware_address,
                sender_protocol_address,
                target_hardware_address,
                target_protocol_address,
            },
        )
    }
}

/// An IPv6 packet: the fixed header of forty bytes and all that follows it.
/// Extension headers are not walked; they are part of the payload.
#[derive(Debug, PartialEq, Eq)]
pub struct IPv6Packet {
    /// Always six.
    pub version: u8,
    pub traffic_class: u8,
    /// The flow label, twenty bits.
    pub flow_label: u32,
    pub payload_length: u16,
    pub next_header: u8,
    pub hop_limit: u8,
    pub source_address: u128,
    pub destination_address: u128,
    pub payload: Vec<u8>,
}

impl IPv6Packet {
    /// Why `bytes` are no IPv6 packet, or `None` where they are one.
    pub open spec fn failure(bytes: Seq<u8>) -> Option<DecodeError> {
        if bytes.len() < 1 {
            Some(DecodeError::Truncated)
        } else if bytes[0] / 16 != 6 {
            Some(DecodeError::VersionMismatch)
        } else if bytes.len() < 40 {
            Some(DecodeError::Truncated)
        } else {
            None
        }
    }

    /// Every field of `self` is what the IPv6 layout reads from `bytes`:
    /// four bits of version, eight of traffic class and twenty of flow
    /// label in the first four bytes.
    pub open spec fn decodes(&self, bytes: Seq<u8>) -> bool {
        &&& self.version == bytes[0] / 16
        &&& self.traffic_class == (bytes[0] % 16) * 16 + bytes[1] / 16
        &&& self.flow_label == (bytes[1] % 16) * 0x1_0000 + bytes[2] * 0x100 + bytes[3]
        &&& self.payload_length == be_field(bytes, 4, 2)
        &&& self.next_header == bytes[6]
        &&& self.hop_limit == bytes[7]
        &&& self.source_address == be_field(bytes, 8, 16)
        &&& self.destination_address == be_field(bytes, 24, 16)
        &&& self.payload@ == bytes.subrange(40, bytes.len() as int)
    }

    /// What holds of every decoded packet: the version is six and the flow
    /// label has twenty bits.
    pub open spec fn well_formed(&self) -> bool {
        &&& self.version == 6
        &&& self.flow_label <= 0xf_ffff
    }

    /// Decodes an IPv6 packet from the front of `byte_array`.
    pub fn new(byte_array: &[u8]) -> (decoded: Result<Self, DecodeError>)
        ensures
            match decoded {
                Ok(packet) => {
                    &&& Self::failure(byte_array@) is None
                    &&& packet.decodes(byte_array@)
                    &&& packet.well_formed()
                },
                Err(failure) => Self::failure(byte_array@) == Some(failure),
            },
    {
        let mut iter = ByteCursor::new(byte_array);
        proof {
            lemma2_to64();
        }

        let (version, rest) = splice_byte(4, iter.next_byte()?);
        if version != 6 {
            return Err(DecodeError::VersionMismatch);
        }
        let (first, last) = splice_byte(4, iter.next_byte()?);

        let traffic_class: u8 = rest * 16 + first;

        let low = iter.take(2)?;
        let pieces = [last, low[0], low[1]];
        proof {
            lemma_be_field_short(pieces@, 0);
        }
        let flow_label: u32 = assemble_byte(&mut ByteCursor::new(pieces.as_slice()), 3)?;
        let payload_length: u16 = assemble_byte(&mut iter, 2)?;
        let next_header = iter.next_byte()?;
        let hop_limit = iter.next_byte()?;
        let source_address: u128 = assemble_byte(&mut iter, 16)?;
        let destination_address: u128 = assemble_byte(&mut iter, 16)?;
        let payload = slice_to_vec(iter.rest());

        Ok(
            IPv6Packet {
                version,
                traffic_class,
                flow_label,
                payload_length,
                next_header,
                hop_limit,
                source_address,
                destination_address,
                payload,
            },
        )
    }
}

/// What an Ethernet frame carries, as told by the number in its type field.
#[derive(Debug, PartialEq, Eq)]
pub enum PacketType {
    /// A number below 0x0600 is the length of the payload, not a protocol.
    Length(u16),
    XNSIDP,
    IPv4(IPv4Packet),
    X25PLP,
    ARP(ARPPacket),
    RARP,
    NetwareIPX,
    NetBIOS,
    IPv6(IPv6Packet),
    /// A protocol that is not known here, or a payload that is not a
    /// message of the protocol announced, with the number as it was read.
    UNDEFINED(u16),
}

impl PacketType {
    /// `self` is what the payload `bytes` of a frame with the type field
    /// `ether_type` decodes to. IPv4, ARP and IPv6 are decoded; where the
    /// bytes are no message of the protocol, the result is `UNDEFINED` with
    /// the number. The other known numbers are only named.
    pub open spec fn decodes(&self, ether_type: u16, bytes: Seq<u8>) -> bool {
        if ether_type < 0x0600 {
            self matches PacketType::Length(length) && length == ether_type
        } else if ether_type == 0x0600 {
            self is XNSIDP
        } else if ether_type == 0x0800 && IPv4Packet::failure(bytes) is None {
            &&& self matches PacketType::IPv4(packet)
            &&& packet.decodes(bytes)
            &&& packet.well_formed()
        } else if ether_type == 0x0805 {
            self is X25PLP
        } else if ether_type == 0x0806 && ARPPacket::failure(bytes) is None {
            self matches PacketType::ARP(packet) && packet.decodes(bytes)
        } else if ether_type == 0x8035 {
            self is RARP
        } else if ether_type == 0x8137 {
            self is NetwareIPX
        } else if ether_type == 0x8191 {
            self is NetBIOS
        } else if ether_type == 0x86DD && IPv6Packet::failure(bytes) is None {
            &&& self matches PacketType::IPv6(packet)
            &&& packet.decodes(bytes)
            &&& packet.well_formed()
        } else {
            self matches PacketType::UNDEFINED(code) && code == ether_type
        }
    }

    /// Decodes `data` as the payload of a frame whose type field holds
    /// `ether_type`. A payload that cannot be decoded ends this branch, not
    /// the frame around it.
    pub fn new(ether_type: u16, data: &[u8]) -> (payload: Self)
        ensures
            payload.decodes(ether_type, data@),
    {
        match ether_type {
            x if x < 0x0600 => PacketType::Length(x),
            0x0600 => PacketType::XNSIDP,
            0x0800 => match IPv4Packet::new(data) {
                Ok(packet) => PacketType::IPv4(packet),
                Err(_) => PacketType::UNDEFINED(ether_type),
            },
            0x0805 => PacketType::X25PLP,
            0x0806 => match ARPPacket::new(data) {
                Ok(packet) => PacketType::ARP(packet),
                Err(_) => PacketType::UNDEFINED(ether_type),
            },
            0x8035 => PacketType::RARP,
            0x8137 => PacketType::NetwareIPX,
            0x8191 => PacketType::NetBIOS,
            0x86DD => match IPv6Packet::new(data) {
                Ok(packet) => PacketType::IPv6(packet),
                Err(_) => PacketType::UNDEFINED(ether_type),
            },
            other => PacketType::UNDEFINED(other),
        }
    }
}

} // verus!
