//! TCP header.
use vstd::prelude::*;
use crate::bytes::{be16, be32, read_be16, read_be32};
use crate::error::ParserError;

verus! {

/// TCP header.
#[derive(Debug, Clone)]
pub struct TcpHeader {
    pub src_port: u16,
    pub dst_port: u16,
    pub seq_num: u32,
    pub ack_num: u32,
    pub data_offset: u8,
    pub reserved: u8,
    pub flags: u8,
    pub window: u16,
    pub checksum: u16,
    pub urgent_ptr: u16,
}

/// `h` is the TCP header that the first 20 bytes of `d` encode.
pub open spec fn tcp_decodes(d: Seq<u8>, h: TcpHeader) -> bool {
    &&& h.src_port == be16(d[0], d[1])
    &&& h.dst_port == be16(d[2], d[3])
    &&& h.seq_num == be32(d[4], d[5], d[6], d[7])
    &&& h.ack_num == be32(d[8], d[9], d[10], d[11])
    &&& h.data_offset == d[12] / 16
    &&& h.reserved == d[12] & 0x0e
    &&& h.flags == d[13]
    &&& h.window == be16(d[14], d[15])
    &&& h.checksum == be16(d[16], d[17])
    &&& h.urgent_ptr == be16(d[18], d[19])
}

/// Parsing `d` as a TCP header fails.
pub open spec fn tcp_fails(d: Seq<u8>) -> bool {
    d.len() < 20 || d[12] / 16 < 5
}

/// The result of parsing `d` as a TCP header, as `r` describes it.
pub open spec fn tcp_parse_result(d: Seq<u8>, r: Result<TcpHeader, ParserError>) -> bool {
    if d.len() < 20 {
        r == Err::<TcpHeader, ParserError>(ParserError::PacketTooShort(20, d.len() as usize))
    } else if d[12] / 16 < 5 {
        r == Err::<TcpHeader, ParserError>(ParserError::InvalidTcpDataOffset(d[12] / 16))
    } else {
        r matches Ok(h) && tcp_decodes(d, h)
    }
}

/// The names of the flags set in a TCP flags byte, in the order FIN, SYN, RST, PSH, ACK, URG.
pub open spec fn tcp_flag_names(flags: u8) -> Seq<Seq<char>> {
    (if flags & 0x01 != 0 { seq!["FIN"@] } else { Seq::empty() })
    + (if flags & 0x02 != 0 { seq!["SYN"@] } else { Seq::empty() })
    + (if flags & 0x04 != 0 { seq!["RST"@] } else { Seq::empty() })
    + (if flags & 0x08 != 0 { seq!["PSH"@] } else { Seq::empty() })
    + (if flags & 0x10 != 0 { seq!["ACK"@] } else { Seq::empty() })
    + (if flags & 0x20 != 0 { seq!["URG"@] } else { Seq::empty() })
}

/// The texts of a vector of string slices.
pub open spec fn str_views(v: Seq<&str>) -> Seq<Seq<char>> {
    v.map_values(|s: &str| s@)
}

impl TcpHeader {
    /// Parses a TCP header from raw bytes.
    pub fn parse(data: &[u8]) -> (r: Result<Self, ParserError>)
        ensures
            tcp_parse_result(data@, r),
    {
        if data.len() < 20 {
            return Err(ParserError::PacketTooShort(20, data.len()));
        }
        let src_port = read_be16(data[0], data[1]);
        let dst_port = read_be16(data[2], data[3]);
        let seq_num = read_be32(data[4], data[5], data[6], data[7]);
        let ack_num = read_be32(data[8], data[9], data[10], data[11]);
        let data_offset = data[12] / 16;
        let reserved = data[12] & 0x0e;
        let flags = data[13];
        let window = read_be16(data[14], data[15]);
        let checksum = read_be16(data[16], data[17]);
        let urgent_ptr = read_be16(data[18], data[19]);
        if data_offset < 5 {
            return Err(ParserError::InvalidTcpDataOffset(data_offset));
        }
        Ok(TcpHeader {
            src_port,
            dst_port,
            seq_num,
            ack_num,
            data_offset,
            reserved,
            flags,
            window,
            checksum,
            urgent_ptr,
        })
    }

    /// Header length in bytes (data offset words of four bytes).
    pub fn header_len(&self) -> (n: usize)
        ensures
            n == self.data_offset as int * 4,
    {
        self.data_offset as usize * 4
    }

    /// Source and destination ports.
    pub fn ports(&self) -> (p: (u16, u16))
        ensures
            p == (self.src_port, self.dst_port),
    {
        (self.src_port, self.dst_port)
    }

    /// Whether the SYN flag is set.
    pub fn is_syn(&self) -> (b: bool)
        ensures
            b == (self.flags & 0x02 != 0),
    {
        self.flags & 0x02 != 0
    }

    /// Whether the ACK flag is set.
    pub fn is_ack(&self) -> (b: bool)
        ensures
            b == (self.flags & 0x10 != 0),
    {
        self.flags & 0x10 != 0
    }

    /// Whether the FIN flag is set.
    pub fn is_fin(&self) -> (b: bool)
        ensures
            b == (self.flags & 0x01 != 0),
    {
        self.flags & 0x01 != 0
    }

    /// Whether the RST flag is set.
    pub fn is_rst(&self) -> (b: bool)
        ensures
            b == (self.flags & 0x04 != 0),
    {
        self.flags & 0x04 != 0
    }

    /// Whether the PSH flag is set.
    pub fn is_psh(&self) -> (b: bool)
        ensures
            b == (self.flags & 0x08 != 0),
    {
        self.flags & 0x08 != 0
    }

    /// Whether the URG flag is set.
    pub fn is_urg(&self) -> (b: bool)
        ensures
            b == (self.flags & 0x20 != 0),
    {
        self.flags & 0x20 != 0
    }

    /// Names of the flags that are set.
    pub fn flag_names(&self) -> (names: Vec<&'static str>)
        ensures
            str_views(names@) == tcp_flag_names(self.flags),
    {
        let mut names: Vec<&'static str> = Vec::new();
        let ghost f = self.flags;
        if self.is_fin() {
            names.push("FIN");
        }
        assert(str_views(names@) =~= (if f & 0x01 != 0 { seq!["FIN"@] } else { Seq::<Seq<char>>::empty() }));
        let ghost n1 = str_views(names@);
        if self.is_syn() {
            names.push("SYN");
        }
        assert(str_views(names@) =~= n1 + (if f & 0x02 != 0 { seq!["SYN"@] } else { Seq::<Seq<char>>::empty() }));
        let ghost n2 = str_views(names@);
        if self.is_rst() {
            names.push("RST");
        }
        assert(str_views(names@) =~= n2 + (if f & 0x04 != 0 { seq!["RST"@] } else { Seq::<Seq<char>>::empty() }));
        let ghost n3 = str_views(names@);
        if self.is_psh() {
            names.push("PSH");
        }
        assert(str_views(names@) =~= n3 + (if f & 0x08 != 0 { seq!["PSH"@] } else { Seq::<Seq<char>>::empty() }));
        let ghost n4 = str_views(names@);
        if self.is_ack() {
            names.push("ACK");
        }
        assert(str_views(names@) =~= n4 + (if f & 0x10 != 0 { seq!["ACK"@] } else { Seq::<Seq<char>>::empty() }));
        let ghost n5 = str_views(names@);
        if self.is_urg() {
            names.push("URG");
        }
        assert(str_views(names@) =~= n5 + (if f & 0x20 != 0 { seq!["URG"@] } else { Seq::<Seq<char>>::empty() }));
        names
    }
}

/// A parsed TCP header holds the fields of its first 20 bytes, multi-byte fields in
/// network (big-endian) byte order: ports (0-1, 2-3), sequence (4-7) and acknowledgement
/// (8-11) numbers, the data offset in the top four bits of byte 12 (at least five
/// words), the flags byte 13, then window (14-15), checksum (16-17) and urgent pointer
/// (18-19).
pub proof fn tcp_fields_from_bytes(d: Seq<u8>, h: TcpHeader)
    requires
        tcp_parse_result(d, Ok(h)),
    ensures
        d.len() >= 20,
        h.src_port as int == d[0] as int * 256 + d[1] as int,
        h.dst_port as int == d[2] as int * 256 + d[3] as int,
        h.seq_num as int == d[4] as int * 16777216 + d[5] as int * 65536 + d[6] as int * 256 + d[7] as int,
        h.ack_num as int == d[8] as int * 16777216 + d[9] as int * 65536 + d[10] as int * 256 + d[11] as int,
        h.data_offset as int == d[12] as int / 16 && h.data_offset >= 5,
        h.reserved == d[12] & 0x0e,
        h.flags == d[13],
        h.window as int == d[14] as int * 256 + d[15] as int,
        h.checksum as int == d[16] as int * 256 + d[17] as int,
        h.urgent_ptr as int == d[18] as int * 256 + d[19] as int,
{
}

} // verus!
