//! The transport layer inside an IPv4 packet: TCP, UDP and ICMP.

use crate::cursor::ByteCursor;
use crate::endian::be_field;
use crate::error::DecodeError;
use crate::util::{assemble_byte, splice_byte};
use vstd::arithmetic::power2::lemma2_to64;
use vstd::prelude::*;
use vstd::slice::slice_to_vec;

verus! {

/// The protocol that an IPv4 packet announces for its payload.
#[derive(Debug, Clone, Copy, PartialEq, Eq, Structural)]
pub enum ProtocolType {
    ICMP,
    TCP,
    UDP,
    /// Any other protocol number, kept as it was read.
    UNDEFINED(u8),
}

impl ProtocolType {
    /// The protocol that the number `code` stands for.
    pub open spec fn of(code: u8) -> ProtocolType {
        if code == 1 {
            ProtocolType::ICMP
        } else if code == 6 {
            ProtocolType::TCP
        } else if code == 17 {
            ProtocolType::UDP
        } else {
            ProtocolType::UNDEFINED(code)
        }
    }

    /// The number that stands for the protocol.
    pub open spec fn spec_code(&self) -> u8 {
        match *self {
            ProtocolType::ICMP => 1,
            ProtocolType::TCP => 6,
            ProtocolType::UDP => 17,
            ProtocolType::UNDEFINED(code) => code,
        }
    }

    /// The protocol that the number `code` stands for. No number is lost:
    /// the protocol gives it back.
    pub fn new(code: u8) -> (protocol: Self)
        ensures
            protocol == Self::of(code),
            protocol.spec_code() == code,
    {
        match code {
            1 => ProtocolType::ICMP,
            6 => ProtocolType::TCP,
            17 => ProtocolType::UDP,
            other => ProtocolType::UNDEFINED(other),
        }
    }

    /// The number that stands for the protocol.
    #[verifier::when_used_as_spec(spec_code)]
    pub fn code(&self) -> (code: u8)
        ensures
            code == self.spec_code(),
    {
        match self {
            ProtocolType::ICMP => 1,
            ProtocolType::TCP => 6,
            ProtocolType::UDP => 17,
            ProtocolType::UNDEFINED(code) => *code,
        }
    }
}

/// Taking the flags of a byte off one by one from the top, each time out of
/// what the earlier ones left, gives the byte's bits.
proof fn lemma_flag_bits(byte: u8)
    by (bit_vector)
    ensures
        byte % 128 / 64 == byte / 64 % 2,
        byte % 128 % 64 / 32 == byte / 32 % 2,
        byte % 128 % 64 % 32 / 16 == byte / 16 % 2,
        byte % 128 % 64 % 32 % 16 / 8 == byte / 8 % 2,
        byte % 128 % 64 % 32 % 16 % 8 / 4 == byte / 4 % 2,
        byte % 128 % 64 % 32 % 16 % 8 % 4 / 2 == byte / 2 % 2,
        byte % 128 % 64 % 32 % 16 % 8 % 4 % 2 == byte % 2,
{
}

/// A TCP segment: the fixed header, its options and the payload.
#[derive(Debug, PartialEq, Eq)]
pub struct TCPSegment {
    pub source_port: u16,
    pub destination_port: u16,
    pub sequence_number: u32,
    pub acknowledgement_number: u32,
    /// The length of the header in 32-bit words, at least five.
    pub data_offset: u8,
    /// The four bits between the data offset and the flags.
    pub reserved: u8,
    pub cwr: u8,
    pub ece: u8,
    pub urg: u8,
    pub ack: u8,
    pub psh: u8,
    pub rst: u8,
    pub syn: u8,
    pub fin: u8,
    pub window_size: u16,
    /// Stored as read; it is not held against the bytes it covers.
    pub checksum: u16,
    pub urgent_pointer: u16,
    pub option: Vec<u8>,
    pub data: Vec<u8>,
}

impl TCPSegment {
    /// Why `bytes` are no TCP segment, or `None` where they are one. The
    /// data offset lies in the thirteenth byte; the header it announces must
    /// cover the fixed twenty bytes and lie within the buffer.
    pub open spec fn failure(bytes: Seq<u8>) -> Option<DecodeError> {
        if bytes.len() < 13 {
            Some(DecodeError::Truncated)
        } else if bytes[12] / 16 < 5 {
            Some(DecodeError::HeaderLengthTooSmall)
        } else if bytes.len() < (bytes[12] / 16) * 4 {
            Some(DecodeError::Truncated)
        } else {
            None
        }
    }

    /// Every field of `self` is what the TCP layout reads from `bytes`.
    pub open spec fn decodes(&self, bytes: Seq<u8>) -> bool {
        let header = (bytes[12] / 16) * 4;
        &&& self.source_port == be_field(bytes, 0, 2)
        &&& self.destination_port == be_field(bytes, 2, 2)
        &&& self.sequence_number == be_field(bytes, 4, 4)
        &&& self.acknowledgement_number == be_field(bytes, 8, 4)
        &&& self.data_offset == bytes[12] / 16
        &&& self.reserved == bytes[12] % 16
        &&& self.cwr == bytes[13] / 128
        &&& self.ece == bytes[13] / 64 % 2
        &&& self.urg == bytes[13] / 32 % 2
        &&& self.ack == bytes[13] / 16 % 2
        &&& self.psh == bytes[13] / 8 % 2
        &&& self.rst == bytes[13] / 4 % 2
        &&& self.syn == bytes[13] / 2 % 2
        &&& self.fin == bytes[13] % 2
        &&& self.window_size == be_field(bytes, 14, 2)
        &&& self.checksum == be_field(bytes, 16, 2)
        &&& self.urgent_pointer == be_field(bytes, 18, 2)
        &&& self.option@ == bytes.subrange(20, header)
        &&& self.data@ == bytes.subrange(header, bytes.len() as int)
    }

    /// What holds of every decoded segment: the data offset covers the fixed
    /// header, each flag is one bit, and the options fill the header.
    pub open spec fn well_formed(&self) -> bool {
        &&& 5 <= self.data_offset <= 15
        &&& self.reserved <= 15
        &&& self.cwr <= 1 && self.ece <= 1 && self.urg <= 1 && self.ack <= 1
        &&& self.psh <= 1 && self.rst <= 1 && self.syn <= 1 && self.fin <= 1
        &&& self.option@.len() == self.data_offset * 4 - 20
    }

    /// Decodes a TCP segment from the front of `byte_array`; the payload is
    /// all that follows the header.
    pub fn new(byte_array: &[u8]) -> (decoded: Result<Self, DecodeError>)
        ensures
            match decoded {
                Ok(segment) => {
                    &&& Self::failure(byte_array@) is None
                    &&& segment.decodes(byte_array@)
                    &&& segment.well_formed()
                },
                Err(failure) => Self::failure(byte_array@) == Some(failure),
            },
            byte_array@.len() >= 20 && byte_array@[12] / 16 == 5 ==> {
                &&& decoded matches Ok(segment)
                &&& segment.option@ == Seq::<u8>::empty()
                &&& segment.data@ == byte_array@.subrange(20, byte_array@.len() as int)
            },
    {
        let mut iter = ByteCursor::new(byte_array);

        let source_port: u16 = assemble_byte(&mut iter, 2)?;
        let destination_port: u16 = assemble_byte(&mut iter, 2)?;
        let sequence_number: u32 = assemble_byte(&mut iter, 4)?;
        let acknowledgement_number: u32 = assemble_byte(&mut iter, 4)?;
        let (data_offset, reserved) = splice_byte(4, iter.next_byte()?);
        proof {
            lemma2_to64();
        }
        if data_offset < 5 {
            return Err(DecodeError::HeaderLengthTooSmall);
        }
        let flags = iter.next_byte()?;
        proof {
            lemma_flag_bits(flags);
        }
        let (cwr, other) = splice_byte(1, flags);
        let (ece, other) = splice_byte(2, other);
        let (urg, other) = splice_byte(3, other);
        let (ack, other) = splice_byte(4, other);
        let (psh, other) = splice_byte(5, other);
        let (rst, other) = splice_byte(6, other);
        let (syn, fin) = splice_byte(7, other);
        let window_size: u16 = assemble_byte(&mut iter, 2)?;
        let checksum: u16 = assemble_byte(&mut iter, 2)?;
        let urgent_pointer: u16 = assemble_byte(&mut iter, 2)?;
        let option = slice_to_vec(iter.take(data_offset as usize * 4 - 20)?);
        let data = slice_to_vec(iter.rest());

        Ok(
            TCPSegment {
                source_port,
                destination_port,
                sequence_number,
                acknowledgement_number,
                data_offset,
                reserved,
                cwr,
                ece,
                urg,
                ack,
                psh,
                rst,
                syn,
                fin,
                window_size,
                checksum,
                urgent_pointer,
                option,
                data,
            },
        )
    }
}

/// A UDP datagram: the header of eight bytes and the payload.
#[derive(Debug, PartialEq, Eq)]
pub struct UDPSegment {
    pub source_port: u16,
    pub destination_port: u16,
    /// The length that the header announces. It is stored as read and not
    /// held against the number of bytes that follow.
    pub length: u16,
    /// Stored as read; it is not held against the bytes it covers.
    pub checksum: u16,
    pub data: Vec<u8>,
}

impl UDPSegment {
    /// Why `bytes` are no UDP datagram, or `None` where they are one.
    pub open spec fn failure(bytes: Seq<u8>) -> Option<DecodeError> {
        if bytes.len() < 8 {
            Some(DecodeError::Truncated)
        } else {
            None
        }
    }

    /// Every field of `self` is what the UDP layout reads from `bytes`.
    pub open spec fn decodes(&self, bytes: Seq<u8>) -> bool {
        &&& self.source_port == be_field(bytes, 0, 2)
        &&& self.destination_port == be_field(bytes, 2, 2)
        &&& self.length == be_field(bytes, 4, 2)
        &&& self.checksum == be_field(bytes, 6, 2)
        &&& self.data@ == bytes.subrange(8, bytes.len() as int)
    }

    /// Decodes a UDP datagram from the front of `byte_array`; the payload is
    /// all that follows the header, whatever length the header announces.
    pub fn new(byte_array: &[u8]) -> (decoded: Result<Self, DecodeError>)
        ensures
            match decoded {
                Ok(segment) => Self::failure(byte_array@) is None && segment.decodes(byte_array@),
                Err(failure) => Self::failure(byte_array@) == Some(failure),
            },
    {
        let mut iter = ByteCursor::new(byte_array);

        let source_port: u16 = assemble_byte(&mut iter, 2)?;
        let destination_port: u16 = assemble_byte(&mut iter, 2)?;
        let length: u16 = assemble_byte(&mut iter, 2)?;
        let checksum: u16 = assemble_byte(&mut iter, 2)?;
        let data = slice_to_vec(iter.rest());

        Ok(UDPSegment { source_port, destination_port, length, checksum, data })
    }
}

/// The header of an ICMP message. What follows the eight bytes of the
/// header is not kept.
#[derive(Debug, Clone, Copy, PartialEq, Eq, Structural)]
pub struct ICMPSegment {
    pub message_type: u8,
    pub code: u8,
    /// Stored as read; it is not held against the bytes it covers.
    pub checksum: u16,
    /// The four bytes whose meaning depends on the type and the code.
    pub rest_of_header: u32,
}

impl ICMPSegment {
    /// Why `bytes` are no ICMP message, or `None` where they are one.
    pub open spec fn failure(bytes: Seq<u8>) -> Option<DecodeError> {
        if bytes.len() < 8 {
            Some(DecodeError::Truncated)
        } else {
            None
        }
    }

    /// Every field of `self` is what the ICMP layout reads from `bytes`.
    pub open spec fn decodes(&self, bytes: Seq<u8>) -> bool {
        &&& self.message_type == bytes[0]
        &&& self.code == bytes[1]
        &&& self.checksum == be_field(bytes, 2, 2)
        &&& self.rest_of_header == be_field(bytes, 4, 4)
    }

    /// Decodes the header of an ICMP message from the front of `byte_array`.
    pub fn new(byte_array: &[u8]) -> (decoded: Result<Self, DecodeError>)
        ensures
            match decoded {
                Ok(segment) => Self::failure(byte_array@) is None && segment.decodes(byte_array@),
                Err(failure) => Self::failure(byte_array@) == Some(failure),
            },
    {
        let mut iter = ByteCursor::new(byte_array);

        let message_type = iter.next_byte()?;
        let code = iter.next_byte()?;
        let checksum: u16 = assemble_byte(&mut iter, 2)?;
        let rest_of_header: u32 = assemble_byte(&mut iter, 4)?;

        Ok(ICMPSegment { message_type, code, checksum, rest_of_header })
    }
}

/// What an IPv4 packet carries.
#[derive(Debug, PartialEq, Eq)]
pub enum TransportSegment {
    TCP(TCPSegment),
    UDP(UDPSegment),
    ICMP(ICMPSegment),
    /// A protocol that is not decoded, or a payload that is not a message of
    /// the protocol announced. The bytes are not kept.
    UNDEFINED,
}

impl TransportSegment {
    /// `self` is what the payload `bytes` of a packet that announces
    /// `protocol` decodes to: the message of that protocol where the bytes
    /// are one, `UNDEFINED` in every other case.
    pub open spec fn decodes(&self, protocol: ProtocolType, bytes: Seq<u8>) -> bool {
        match protocol {
            ProtocolType::ICMP => if ICMPSegment::failure(bytes) is None {
                self matches TransportSegment::ICMP(segment) && segment.decodes(bytes)
            } else {
                self is UNDEFINED
            },
            ProtocolType::TCP => if TCPSegment::failure(bytes) is None {
                &&& self matches TransportSegment::TCP(segment)
                &&& segment.decodes(bytes)
                &&& segment.well_formed()
            } else {
                self is UNDEFINED
            },
            ProtocolType::UDP => if UDPSegment::failure(bytes) is None {
                self matches TransportSegment::UDP(segment) && segment.decodes(bytes)
            } else {
                self is UNDEFINED
            },
            ProtocolType::UNDEFINED(_) => self is UNDEFINED,
        }
    }

    /// Decodes `data` as a message of the protocol `protocol_type`. A
    /// payload that cannot be decoded ends this branch, not the packet
    /// around it.
    pub fn new(protocol_type: &ProtocolType, data: &[u8]) -> (payload: Self)
        ensures
            payload.decodes(*protocol_type, data@),
    {
        match protocol_type {
            ProtocolType::ICMP => match ICMPSegment::new(data) {
                Ok(segment) => TransportSegment::ICMP(segment),
                Err(_) => TransportSegment::UNDEFINED,
            },
            ProtocolType::TCP => match TCPSegment::new(data) {
                Ok(segment) => TransportSegment::TCP(segment),
                Err(_) => TransportSegment::UNDEFINED,
            },
            ProtocolType::UDP => match UDPSegment::new(data) {
                Ok(segment) => TransportSegment::UDP(segment),
                Err(_) => TransportSegment::UNDEFINED,
            },
            ProtocolType::UNDEFINED(_) => TransportSegment::UNDEFINED,
        }
    }
}

} // verus!
