//! IPv4 and IPv6 headers.
use vstd::prelude::*;
use crate::bytes::{be16, be32, read_be16, read_be32};
use crate::error::ParserError;
use crate::text::{ip_text, ipv4_string, ipv4_text, ipv6_string, ipv6_text, is_ipv4_mapped};

verus! {

/// IP version.
#[derive(Debug, Clone, Copy, PartialEq, Eq, Structural)]
pub enum IpVersion {
    V4,
    V6,
}

/// IPv4 header.
#[derive(Debug, Clone)]
pub struct Ipv4Header {
    pub version: u8,
    pub ihl: u8,
    pub dscp: u8,
    pub ecn: u8,
    pub total_length: u16,
    pub identification: u16,
    pub flags: u8,
    pub fragment_offset: u16,
    pub ttl: u8,
    pub protocol: u8,
    pub checksum: u16,
    pub src_ip: [u8; 4],
    pub dst_ip: [u8; 4],
}

/// The message of the error for an IHL below five words.
pub open spec fn ihl_too_small_message() -> Seq<char> {
    "IHL too small"@
}

/// `h` is the IPv4 header that the first 20 bytes of `d` encode.
pub open spec fn ipv4_decodes(d: Seq<u8>, h: Ipv4Header) -> bool {
    &&& h.version == d[0] / 16
    &&& h.ihl == d[0] % 16
    &&& h.dscp == d[1] / 4
    &&& h.ecn == d[1] % 4
    &&& h.total_length == be16(d[2], d[3])
    &&& h.identification == be16(d[4], d[5])
    &&& h.flags == d[6] / 32
    &&& h.fragment_offset == be16(d[6], d[7]) % 8192
    &&& h.ttl == d[8]
    &&& h.protocol == d[9]
    &&& h.checksum == be16(d[10], d[11])
    &&& h.src_ip@ == d.subrange(12, 16)
    &&& h.dst_ip@ == d.subrange(16, 20)
}

/// The result of parsing `d` as an IPv4 header, as `r` describes it.
pub open spec fn ipv4_parse_result(d: Seq<u8>, r: Result<Ipv4Header, ParserError>) -> bool {
    if d.len() < 20 {
        r == Err::<Ipv4Header, ParserError>(ParserError::PacketTooShort(20, d.len() as usize))
    } else if d[0] / 16 != 4 {
        r == Err::<Ipv4Header, ParserError>(ParserError::InvalidIpVersion(d[0] / 16))
    } else if d[0] % 16 < 5 {
        r matches Err(ParserError::ParseError(m)) && m@ == ihl_too_small_message()
    } else {
        r matches Ok(h) && ipv4_decodes(d, h)
    }
}

/// The IPv4-mapped IPv6 form (`::ffff:a.b.c.d`) of a 4-byte address.
pub open spec fn ipv4_mapped(a: Seq<u8>) -> Seq<u8> {
    seq![0u8, 0, 0, 0, 0, 0, 0, 0, 0, 0, 0xff, 0xff] + a
}

fn mapped_bytes(a: &[u8; 4]) -> (r: [u8; 16])
    ensures
        r@ == ipv4_mapped(a@),
{
    let r: [u8; 16] = [0, 0, 0, 0, 0, 0, 0, 0, 0, 0, 0xff, 0xff, a[0], a[1], a[2], a[3]];
    assert(r@ =~= ipv4_mapped(a@));
    r
}

impl Ipv4Header {
    /// Parses an IPv4 header from raw bytes.
    pub fn parse(data: &[u8]) -> (r: Result<Self, ParserError>)
        ensures
            ipv4_parse_result(data@, r),
    {
        if data.len() < 20 {
            return Err(ParserError::PacketTooShort(20, data.len()));
        }
        let version = data[0] / 16;
        if version != 4 {
            return Err(ParserError::InvalidIpVersion(version));
        }
        let ihl = data[0] % 16;
        if ihl < 5 {
            proof { reveal_strlit("IHL too small"); }
            return Err(ParserError::ParseError(String::from_str("IHL too small")));
        }
        let dscp = data[1] / 4;
        let ecn = data[1] % 4;
        let total_length = read_be16(data[2], data[3]);
        let identification = read_be16(data[4], data[5]);
        let flags = data[6] / 32;
        let fragment_offset = read_be16(data[6], data[7]) % 8192;
        let ttl = data[8];
        let protocol = data[9];
        let checksum = read_be16(data[10], data[11]);
        let src_ip: [u8; 4] = [data[12], data[13], data[14], data[15]];
        let dst_ip: [u8; 4] = [data[16], data[17], data[18], data[19]];
        assert(src_ip@ =~= data@.subrange(12, 16));
        assert(dst_ip@ =~= data@.subrange(16, 20));
        Ok(Ipv4Header {
            version,
            ihl,
            dscp,
            ecn,
            total_length,
            identification,
            flags,
            fragment_offset,
            ttl,
            protocol,
            checksum,
            src_ip,
            dst_ip,
        })
    }

    /// Header length in bytes (IHL words of four bytes).
    pub fn header_len(&self) -> (n: usize)
        ensures
            n == self.ihl as int * 4,
    {
        self.ihl as usize * 4
    }

    /// Source address in dotted decimal notation.
    pub fn src_ip_str(&self) -> (s: String)
        ensures
            s@ == ipv4_text(self.src_ip@),
    {
        ipv4_string(&self.src_ip)
    }

    /// Destination address in dotted decimal notation.
    pub fn dst_ip_str(&self) -> (s: String)
        ensures
            s@ == ipv4_text(self.dst_ip@),
    {
        ipv4_string(&self.dst_ip)
    }

    /// Source address as an IPv4-mapped IPv6 address.
    pub fn src_ip_to_ipv6(&self) -> (r: [u8; 16])
        ensures
            r@ == ipv4_mapped(self.src_ip@),
    {
        mapped_bytes(&self.src_ip)
    }

    /// Destination address as an IPv4-mapped IPv6 address.
    pub fn dst_ip_to_ipv6(&self) -> (r: [u8; 16])
        ensures
            r@ == ipv4_mapped(self.dst_ip@),
    {
        mapped_bytes(&self.dst_ip)
    }
}

/// IPv6 header.
#[derive(Debug, Clone)]
pub struct Ipv6Header {
    pub version: u8,
    pub traffic_class: u8,
    pub flow_label: u32,
    pub payload_length: u16,
    pub next_header: u8,
    pub hop_limit: u8,
    pub src_ip: [u8; 16],
    pub dst_ip: [u8; 16],
}

/// `h` is the IPv6 header that the first 40 bytes of `d` encode.
pub open spec fn ipv6_decodes(d: Seq<u8>, h: Ipv6Header) -> bool {
    &&& h.version == d[0] / 16
    &&& h.traffic_class == (d[0] % 16) * 16 + d[1] / 16
    &&& h.flow_label == be32(0, d[1] % 16, d[2], d[3])
    &&& h.payload_length == be16(d[4], d[5])
    &&& h.next_header == d[6]
    &&& h.hop_limit == d[7]
    &&& h.src_ip@ == d.subrange(8, 24)
    &&& h.dst_ip@ == d.subrange(24, 40)
}

/// The result of parsing `d` as an IPv6 header, as `r` describes it.
pub open spec fn ipv6_parse_result(d: Seq<u8>, r: Result<Ipv6Header, ParserError>) -> bool {
    if d.len() < 40 {
        r == Err::<Ipv6Header, ParserError>(ParserError::PacketTooShort(40, d.len() as usize))
    } else if d[0] / 16 != 6 {
        r == Err::<Ipv6Header, ParserError>(ParserError::InvalidIpVersion(d[0] / 16))
    } else {
        r matches Ok(h) && ipv6_decodes(d, h)
    }
}

fn sixteen_at(data: &[u8], off: usize) -> (r: [u8; 16])
    requires
        off + 16 <= data@.len(),
    ensures
        r@ == data@.subrange(off as int, off + 16),
{
    let r: [u8; 16] = [
        data[off], data[off + 1], data[off + 2], data[off + 3],
        data[off + 4], data[off + 5], data[off + 6], data[off + 7],
        data[off + 8], data[off + 9], data[off + 10], data[off + 11],
        data[off + 12], data[off + 13], data[off + 14], data[off + 15],
    ];
    assert(r@ =~= data@.subrange(off as int, off + 16));
    r
}

impl Ipv6Header {
    /// Parses an IPv6 header from raw bytes.
    pub fn parse(data: &[u8]) -> (r: Result<Self, ParserError>)
        ensures
            ipv6_parse_result(data@, r),
    {
        if data.len() < 40 {
            return Err(ParserError::PacketTooShort(40, data.len()));
        }
        let version = data[0] / 16;
        if version != 6 {
            return Err(ParserError::InvalidIpVersion(version));
        }
        let traffic_class = (data[0] % 16) * 16 + data[1] / 16;
        let flow_label = read_be32(0, data[1] % 16, data[2], data[3]);
        let payload_length = read_be16(data[4], data[5]);
        let next_header = data[6];
        let hop_limit = data[7];
        let src_ip = sixteen_at(data, 8);
        let dst_ip = sixteen_at(data, 24);
        Ok(Ipv6Header {
            version,
            traffic_class,
            flow_label,
            payload_length,
            next_header,
            hop_limit,
            src_ip,
            dst_ip,
        })
    }

    /// Header length in bytes (fixed).
    pub fn header_len(&self) -> (n: usize)
        ensures
            n == 40,
    {
        40
    }

    /// Source address as eight groups of four hex digits.
    pub fn src_ip_str(&self) -> (s: String)
        ensures
            s@ == ipv6_text(self.src_ip@),
    {
        ipv6_string(&self.src_ip)
    }

    /// Destination address as eight groups of four hex digits.
    pub fn dst_ip_str(&self) -> (s: String)
        ensures
            s@ == ipv6_text(self.dst_ip@),
    {
        ipv6_string(&self.dst_ip)
    }
}

/// IP header (either v4 or v6).
#[derive(Debug, Clone)]
pub enum IpHeader {
    V4(Ipv4Header),
    V6(Ipv6Header),
}

/// The text of the source address of `h`.
pub open spec fn ip_header_src_text(h: IpHeader) -> Seq<char> {
    match h {
        IpHeader::V4(v4) => ipv4_text(v4.src_ip@),
        IpHeader::V6(v6) => ipv6_text(v6.src_ip@),
    }
}

/// The text of the destination address of `h`.
pub open spec fn ip_header_dst_text(h: IpHeader) -> Seq<char> {
    match h {
        IpHeader::V4(v4) => ipv4_text(v4.dst_ip@),
        IpHeader::V6(v6) => ipv6_text(v6.dst_ip@),
    }
}

/// The source address of `h` as 16 bytes (IPv4 addresses mapped).
pub open spec fn ip_header_src_bytes(h: IpHeader) -> Seq<u8> {
    match h {
        IpHeader::V4(v4) => ipv4_mapped(v4.src_ip@),
        IpHeader::V6(v6) => v6.src_ip@,
    }
}

/// The destination address of `h` as 16 bytes (IPv4 addresses mapped).
pub open spec fn ip_header_dst_bytes(h: IpHeader) -> Seq<u8> {
    match h {
        IpHeader::V4(v4) => ipv4_mapped(v4.dst_ip@),
        IpHeader::V6(v6) => v6.dst_ip@,
    }
}

/// The header length of `h` in bytes.
pub open spec fn ip_header_len(h: IpHeader) -> int {
    match h {
        IpHeader::V4(v4) => v4.ihl as int * 4,
        IpHeader::V6(_) => 40,
    }
}

impl IpHeader {
    /// Parses an IPv4 header.
    pub fn parse_ipv4(data: &[u8]) -> (r: Result<Self, ParserError>)
        ensures
            match r {
                Ok(IpHeader::V4(h)) => ipv4_parse_result(data@, Ok(h)),
                Ok(IpHeader::V6(_)) => false,
                Err(e) => ipv4_parse_result(data@, Err(e)),
            },
    {
        match Ipv4Header::parse(data) {
            Ok(h) => Ok(IpHeader::V4(h)),
            Err(e) => Err(e),
        }
    }

    /// Parses an IPv6 header.
    pub fn parse_ipv6(data: &[u8]) -> (r: Result<Self, ParserError>)
        ensures
            match r {
                Ok(IpHeader::V6(h)) => ipv6_parse_result(data@, Ok(h)),
                Ok(IpHeader::V4(_)) => false,
                Err(e) => ipv6_parse_result(data@, Err(e)),
            },
    {
        match Ipv6Header::parse(data) {
            Ok(h) => Ok(IpHeader::V6(h)),
            Err(e) => Err(e),
        }
    }

    /// IP version of the header.
    pub fn version(&self) -> (v: IpVersion)
        ensures
            v == (if self is V4 { IpVersion::V4 } else { IpVersion::V6 }),
    {
        match self {
            IpHeader::V4(_) => IpVersion::V4,
            IpHeader::V6(_) => IpVersion::V6,
        }
    }

    /// Source address as text.
    pub fn src_ip_str(&self) -> (s: String)
        ensures
            s@ == ip_header_src_text(*self),
    {
        match self {
            IpHeader::V4(h) => h.src_ip_str(),
            IpHeader::V6(h) => h.src_ip_str(),
        }
    }

    /// Destination address as text.
    pub fn dst_ip_str(&self) -> (s: String)
        ensures
            s@ == ip_header_dst_text(*self),
    {
        match self {
            IpHeader::V4(h) => h.dst_ip_str(),
            IpHeader::V6(h) => h.dst_ip_str(),
        }
    }

    /// Source address as a 16-byte IPv6 address.
    pub fn src_ip_bytes(&self) -> (r: [u8; 16])
        ensures
            r@ == ip_header_src_bytes(*self),
    {
        match self {
            IpHeader::V4(h) => h.src_ip_to_ipv6(),
            IpHeader::V6(h) => h.src_ip,
        }
    }

    /// Destination address as a 16-byte IPv6 address.
    pub fn dst_ip_bytes(&self) -> (r: [u8; 16])
        ensures
            r@ == ip_header_dst_bytes(*self),
    {
        match self {
            IpHeader::V4(h) => h.dst_ip_to_ipv6(),
            IpHeader::V6(h) => h.dst_ip,
        }
    }

    /// TTL (IPv4) or hop limit (IPv6).
    pub fn ttl(&self) -> (t: u8)
        ensures
            t == match *self {
                IpHeader::V4(h) => h.ttl,
                IpHeader::V6(h) => h.hop_limit,
            },
    {
        match self {
            IpHeader::V4(h) => h.ttl,
            IpHeader::V6(h) => h.hop_limit,
        }
    }
}

/// An IPv4 address reads the same in dotted form once mapped into IPv6.
pub proof fn mapped_text_is_dotted(a: Seq<u8>)
    requires
        a.len() == 4,
    ensures
        ip_text(ipv4_mapped(a)) == ipv4_text(a),
{
    let m = ipv4_mapped(a);
    assert(is_ipv4_mapped(m));
    assert(m.subrange(12, 16) =~= a);
}

/// The text of a header's 16-byte source and destination addresses is the text the
/// header gives them, unless an IPv6 header carries an IPv4-mapped address (which the
/// 16-byte text renders in dotted form and the header in hex groups).
pub proof fn address_bytes_text_agrees(h: IpHeader)
    requires
        h matches IpHeader::V6(v6) ==> !is_ipv4_mapped(v6.src_ip@) && !is_ipv4_mapped(v6.dst_ip@),
    ensures
        ip_text(ip_header_src_bytes(h)) == ip_header_src_text(h),
        ip_text(ip_header_dst_bytes(h)) == ip_header_dst_text(h),
{
    match h {
        IpHeader::V4(v4) => {
            mapped_text_is_dotted(v4.src_ip@);
            mapped_text_is_dotted(v4.dst_ip@);
        },
        IpHeader::V6(_) => {},
    }
}

/// A parsed IPv4 header holds the fields of its first 20 bytes, multi-byte fields in
/// network (big-endian) byte order: version and IHL share byte 0, DSCP and ECN byte 1,
/// the total length is bytes 2-3, the identification 4-5, the flags the top three bits
/// of byte 6 and the fragment offset the other thirteen bits of bytes 6-7, then TTL,
/// protocol, checksum (10-11), source (12-15) and destination (16-19) addresses.
pub proof fn ipv4_fields_from_bytes(d: Seq<u8>, h: Ipv4Header)
    requires
        ipv4_parse_result(d, Ok(h)),
    ensures
        d.len() >= 20,
        h.version == 4 && d[0] as int / 16 == 4,
        h.ihl as int == d[0] as int % 16 && h.ihl >= 5,
        h.dscp as int == d[1] as int / 4,
        h.ecn as int == d[1] as int % 4,
        h.total_length as int == d[2] as int * 256 + d[3] as int,
        h.identification as int == d[4] as int * 256 + d[5] as int,
        h.flags as int == d[6] as int / 32,
        h.fragment_offset as int == (d[6] as int % 32) * 256 + d[7] as int,
        h.ttl == d[8],
        h.protocol == d[9],
        h.checksum as int == d[10] as int * 256 + d[11] as int,
        forall|i: int| 0 <= i < 4 ==> h.src_ip@[i] == d[12 + i] && h.dst_ip@[i] == d[16 + i],
{
    let hi = d[6] as int;
    let lo = d[7] as int;
    assert((hi * 256 + lo) % 8192 == (hi % 32) * 256 + lo) by (nonlinear_arith)
        requires
            0 <= hi < 256,
            0 <= lo < 256,
    ;
}

/// A parsed IPv6 header holds the fields of its fixed 40 bytes, multi-byte fields in
/// network (big-endian) byte order: the version is the top four bits, the traffic class
/// the next eight and the flow label the last twenty of bytes 0-3, then the payload
/// length (bytes 4-5), next header, hop limit, source (8-23) and destination (24-39).
pub proof fn ipv6_fields_from_bytes(d: Seq<u8>, h: Ipv6Header)
    requires
        ipv6_parse_result(d, Ok(h)),
    ensures
        d.len() >= 40,
        h.version == 6 && d[0] as int / 16 == 6,
        h.traffic_class as int == (d[0] as int % 16) * 16 + d[1] as int / 16,
        h.flow_label as int == (d[1] as int % 16) * 65536 + d[2] as int * 256 + d[3] as int,
        h.payload_length as int == d[4] as int * 256 + d[5] as int,
        h.next_header == d[6],
        h.hop_limit == d[7],
        forall|i: int| 0 <= i < 16 ==> h.src_ip@[i] == d[8 + i] && h.dst_ip@[i] == d[24 + i],
{
}

} // verus!
