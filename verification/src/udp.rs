//! UDP header.
use vstd::prelude::*;
use crate::bytes::{be16, read_be16};
use crate::error::ParserError;

verus! {

/// UDP header.
#[derive(Debug, Clone)]
pub struct UdpHeader {
    pub src_port: u16,
    pub dst_port: u16,
    pub length: u16,
    pub checksum: u16,
}

/// `h` is the UDP header that the first 8 bytes of `d` encode.
pub open spec fn udp_decodes(d: Seq<u8>, h: UdpHeader) -> bool {
    &&& h.src_port == be16(d[0], d[1])
    &&& h.dst_port == be16(d[2], d[3])
    &&& h.length == be16(d[4], d[5])
    &&& h.checksum == be16(d[6], d[7])
}

impl UdpHeader {
    /// Parses a UDP header from raw bytes.
    pub fn parse(data: &[u8]) -> (r: Result<Self, ParserError>)
        ensures
            data@.len() < 8 ==> r == Err::<Self, ParserError>(
                ParserError::PacketTooShort(8, data@.len() as usize),
            ),
            data@.len() >= 8 ==> (r matches Ok(h) && udp_decodes(data@, h)),
    {
        if data.len() < 8 {
            return Err(ParserError::PacketTooShort(8, data.len()));
        }
        let src_port = read_be16(data[0], data[1]);
        let dst_port = read_be16(data[2], data[3]);
        let length = read_be16(data[4], data[5]);
        let checksum = read_be16(data[6], data[7]);
        Ok(UdpHeader { src_port, dst_port, length, checksum })
    }

    /// Header length in bytes (fixed).
    pub fn header_len(&self) -> (n: usize)
        ensures
            n == 8,
    {
        8
    }

    /// Source and destination ports.
    pub fn ports(&self) -> (p: (u16, u16))
        ensures
            p == (self.src_port, self.dst_port),
    {
        (self.src_port, self.dst_port)
    }

    /// Payload length: the length field less the 8 header bytes.
    pub fn payload_len(&self) -> (n: u16)
        requires
            self.length >= 8,
        ensures
            n == self.length - 8,
    {
        self.length - 8
    }
}

/// A parsed UDP header holds the four 16-bit fields of its first 8 bytes in network
/// (big-endian) byte order: source port, destination port, length and checksum.
pub proof fn udp_fields_from_bytes(d: Seq<u8>, h: UdpHeader)
    requires
        d.len() >= 8,
        udp_decodes(d, h),
    ensures
        h.src_port as int == d[0] as int * 256 + d[1] as int,
        h.dst_port as int == d[2] as int * 256 + d[3] as int,
        h.length as int == d[4] as int * 256 + d[5] as int,
        h.checksum as int == d[6] as int * 256 + d[7] as int,
{
}

} // verus!
