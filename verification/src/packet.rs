//! A parsed packet and the parser that assembles it from the layer parsers.
use vstd::prelude::*;
use crate::bytes::{be16, read_be16};
use crate::error::ParserError;
use crate::ethernet::{EthernetFrame, ethernet_decodes, ethernet_needed, is_vlan_tagged};
use crate::ip::{
    IpHeader, ipv4_decodes, ipv4_parse_result, ipv6_decodes, ipv6_parse_result,
    ip_header_src_text, ip_header_dst_text, ip_header_src_bytes, ip_header_dst_bytes,
    ip_header_len,
};
use crate::tcp::{TcpHeader, tcp_fails, tcp_parse_result};
use crate::text::{dec, dec_u8, mac_text, push_dec, push_dec_u8};
use crate::udp::UdpHeader;

verus! {

/// Transport protocol of a packet.
#[derive(Debug, Clone, Copy, PartialEq, Eq, Structural)]
pub enum Protocol {
    Tcp,
    Udp,
    Icmp,
    Other(u8),
}

/// The display text of a protocol.
pub open spec fn protocol_text(p: Protocol) -> Seq<char> {
    match p {
        Protocol::Tcp => "TCP"@,
        Protocol::Udp => "UDP"@,
        Protocol::Icmp => "ICMP"@,
        Protocol::Other(n) => "OTHER("@ + dec_u8(n) + ")"@,
    }
}

impl Protocol {
    /// The display text: `TCP`, `UDP`, `ICMP` or `OTHER(n)`.
    pub fn to_string(&self) -> (s: String)
        ensures
            s@ == protocol_text(*self),
    {
        match self {
            Protocol::Tcp => String::from_str("TCP"),
            Protocol::Udp => String::from_str("UDP"),
            Protocol::Icmp => String::from_str("ICMP"),
            Protocol::Other(n) => {
                let mut s = String::from_str("OTHER(");
                push_dec_u8(&mut s, *n);
                s.append(")");
                s
            },
        }
    }
}

/// Parsed packet with all extracted fields.
#[derive(Debug, Clone)]
pub struct ParsedPacket {
    pub ethernet: EthernetFrame,
    pub ip: IpHeader,
    pub src_port: u16,
    pub dst_port: u16,
    pub protocol: Protocol,
    /// Bytes of the transport header that `payload_len` leaves out: the TCP or UDP
    /// header over IPv4; zero for other protocols and over IPv6, whose payload length
    /// counts every byte after the fixed IPv6 header.
    pub transport_header_len: usize,
    /// Over IPv4, the bytes after the TCP or UDP header (after the IPv4 header for other
    /// protocols); over IPv6, the bytes after the fixed IPv6 header.
    pub payload_len: usize,
}

/// The Ethernet type that a frame header announces (behind a VLAN tag if there is one).
pub open spec fn ethertype_of(d: Seq<u8>) -> u16 {
    if is_vlan_tagged(d) { be16(d[16], d[17]) } else { be16(d[12], d[13]) }
}

/// Parsing `d` as an IPv4 header fails.
pub open spec fn ipv4_fails(d: Seq<u8>) -> bool {
    d.len() < 20 || d[0] / 16 != 4 || d[0] % 16 < 5
}

/// Parsing `d` as an IPv6 header fails.
pub open spec fn ipv6_fails(d: Seq<u8>) -> bool {
    d.len() < 40 || d[0] / 16 != 6
}

/// The bytes after the link-layer header.
pub open spec fn network_bytes(d: Seq<u8>) -> Seq<u8> {
    d.skip(ethernet_needed(d) as int)
}

/// The bytes after the IPv4 header that starts `n`.
pub open spec fn ipv4_payload(n: Seq<u8>) -> Seq<u8> {
    n.skip((n[0] % 16) as int * 4)
}

/// The number of bytes that the TCP header starting `t` announces.
pub open spec fn tcp_header_bytes(t: Seq<u8>) -> int {
    (t[12] / 16) as int * 4
}

/// The part of a TCP header that lies within `t`: the announced header length, cut at
/// the end of `t` when the data offset points past it.
pub open spec fn tcp_header_within(t: Seq<u8>) -> int {
    if tcp_header_bytes(t) <= t.len() { tcp_header_bytes(t) } else { t.len() as int }
}

/// The length of the transport header that `p` reports for the transport bytes `t`
/// with protocol number `proto`.
pub open spec fn transport_header_of(t: Seq<u8>, proto: u8) -> int {
    if proto == 6 { tcp_header_within(t) } else if proto == 17 { 8 } else { 0 }
}

/// The protocol and port fields of `p` for the transport bytes `t` after an IPv4 (`v4`)
/// or IPv6 header whose protocol number is `proto`.
pub open spec fn transport_fields(t: Seq<u8>, proto: u8, v4: bool, p: ParsedPacket) -> bool {
    &&& p.protocol == (if proto == 6 { Protocol::Tcp } else if proto == 17 { Protocol::Udp }
        else if proto == 1 && v4 { Protocol::Icmp } else { Protocol::Other(proto) })
    &&& p.src_port == (if proto == 6 || proto == 17 { be16(t[0], t[1]) } else { 0 })
    &&& p.dst_port == (if proto == 6 || proto == 17 { be16(t[2], t[3]) } else { 0 })
}

/// The length fields of `p` for the bytes `t` after an IPv4 header with protocol `proto`:
/// the transport header and the payload after it together make up `t`.
pub open spec fn ipv4_length_fields(t: Seq<u8>, proto: u8, p: ParsedPacket) -> bool {
    &&& p.transport_header_len == transport_header_of(t, proto)
    &&& p.payload_len == t.len() - transport_header_of(t, proto)
}

/// The length fields of `p` for the IPv6 packet `n`: the payload is everything after
/// the fixed header.
pub open spec fn ipv6_length_fields(n: Seq<u8>, p: ParsedPacket) -> bool {
    &&& p.transport_header_len == 0
    &&& p.payload_len == n.len() - 40
}

/// The fields of `p` after a Fragment header that carries a later fragment (nonzero
/// offset) of a packet whose transport protocol is `proto`: no transport header is
/// present, so no ports are read.
pub open spec fn later_fragment_fields(proto: u8, p: ParsedPacket) -> bool {
    &&& p.protocol == Protocol::Other(proto)
    &&& p.src_port == 0
    &&& p.dst_port == 0
}

/// The IPv6 extension headers that the parser walks through to find the transport
/// header: Hop-by-Hop Options (0), Routing (43), Fragment (44), Destination Options (60).
pub open spec fn is_extension_header(nh: u8) -> bool {
    nh == 0 || nh == 43 || nh == 44 || nh == 60
}

/// The length of the extension header of kind `nh` at `off` in `n`: a Fragment header
/// has eight bytes, the others announce their length in 8-byte units after the first.
pub open spec fn extension_header_len(n: Seq<u8>, nh: u8, off: int) -> int {
    if nh == 44 { 8 } else { (n[off + 1] as int + 1) * 8 }
}

/// The Fragment header at `off` in `n` carries a later fragment (nonzero fragment offset).
pub open spec fn later_fragment(n: Seq<u8>, off: int) -> bool {
    be16(n[off + 2], n[off + 3]) / 8 != 0
}

/// The end of the IPv6 extension-header chain in the IPv6 packet `n`, starting at `off`
/// with next-header value `nh`: the protocol number after the chain, the offset where
/// the chain ends, and whether a later fragment ends it; or the error for a header cut short.
pub open spec fn ipv6_chain(n: Seq<u8>, nh: u8, off: int) -> Result<(u8, usize, bool), ParserError>
    decreases n.len() - off,
{
    if !is_extension_header(nh) {
        Ok((nh, off as usize, false))
    } else if n.len() - off < 8 {
        Err(ParserError::PacketTooShort(8, (n.len() - off) as usize))
    } else if n.len() - off < extension_header_len(n, nh, off) {
        Err(ParserError::PacketTooShort(extension_header_len(n, nh, off) as usize, (n.len() - off) as usize))
    } else if nh == 44 && later_fragment(n, off) {
        Ok((n[off], (off + 8) as usize, true))
    } else {
        ipv6_chain(n, n[off], off + extension_header_len(n, nh, off))
    }
}

/// Parsing the transport bytes `t` for protocol number `proto` fails.
pub open spec fn transport_fails(t: Seq<u8>, proto: u8) -> bool {
    (proto == 6 && tcp_fails(t)) || (proto == 17 && t.len() < 8)
}

/// `e` is the error for a UDP header cut short in `t`.
pub open spec fn udp_too_short(t: Seq<u8>, e: ParserError) -> bool {
    e == ParserError::PacketTooShort(8, t.len() as usize)
}

/// The error that parsing the transport bytes `t` for protocol `proto` gives, as `e` describes it.
pub open spec fn transport_error(t: Seq<u8>, proto: u8, e: ParserError) -> bool {
    if proto == 6 {
        tcp_parse_result(t, Err(e))
    } else {
        udp_too_short(t, e)
    }
}

/// The packet parser slices the frame only within its bounds on `d`: an IPv4 header
/// length that exceeds the bytes after the link layer, or a TCP data offset that
/// exceeds the bytes after an IPv4 header, would cut outside the frame.
pub open spec fn packet_within_bounds(d: Seq<u8>) -> bool {
    let n = network_bytes(d);
    let t = ipv4_payload(n);
    (d.len() >= ethernet_needed(d) && ethertype_of(d) == 0x0800 && !ipv4_fails(n)) ==> {
        &&& (n[0] % 16) as int * 4 <= n.len()
        &&& (n[9] == 6 && !tcp_fails(t)) ==> tcp_header_bytes(t) <= t.len()
    }
}

/// The result of parsing the frame `d`, as `r` describes it.
pub open spec fn parse_packet_result(d: Seq<u8>, r: Result<ParsedPacket, ParserError>) -> bool {
    if d.len() < ethernet_needed(d) {
        r == Err::<ParsedPacket, ParserError>(
            ParserError::PacketTooShort(ethernet_needed(d) as usize, d.len() as usize),
        )
    } else {
        let n = network_bytes(d);
        if ethertype_of(d) == 0x0800 {
            if ipv4_fails(n) {
                r matches Err(e) && ipv4_parse_result(n, Err(e))
            } else {
                let t = ipv4_payload(n);
                if transport_fails(t, n[9]) {
                    r matches Err(e) && transport_error(t, n[9], e)
                } else {
                    &&& r matches Ok(p)
                    &&& ethernet_decodes(d, p.ethernet)
                    &&& p.ip matches IpHeader::V4(h) && ipv4_decodes(n, h)
                    &&& transport_fields(t, n[9], true, p)
                    &&& ipv4_length_fields(t, n[9], p)
                }
            }
        } else if ethertype_of(d) == 0x86DD {
            if ipv6_fails(n) {
                r matches Err(e) && ipv6_parse_result(n, Err(e))
            } else {
                match ipv6_chain(n, n[6], 40) {
                    Err(e) => r == Err::<ParsedPacket, ParserError>(e),
                    Ok(c) => {
                        let t = n.skip(c.1 as int);
                        if !c.2 && transport_fails(t, c.0) {
                            r matches Err(e) && transport_error(t, c.0, e)
                        } else {
                            &&& r matches Ok(p)
                            &&& ethernet_decodes(d, p.ethernet)
                            &&& p.ip matches IpHeader::V6(h) && ipv6_decodes(n, h)
                            &&& ipv6_length_fields(n, p)
                            &&& if c.2 { later_fragment_fields(c.0, p) } else { transport_fields(t, c.0, false, p) }
                        }
                    },
                }
            }
        } else {
            r == Err::<ParsedPacket, ParserError>(ParserError::UnsupportedEtherType(ethertype_of(d)))
        }
    }
}

/// Parses the transport header of `t` after an IP header with protocol number `proto`:
/// protocol, ports, transport header length and payload length.
fn parse_transport(t: &[u8], proto: u8, v4: bool) -> (r: Result<(Protocol, u16, u16, usize, usize), ParserError>)
    ensures
        transport_fails(t@, proto) ==> (r matches Err(e) && transport_error(t@, proto, e)),
        !transport_fails(t@, proto) ==> (r matches Ok(q) && {
            let (protocol, src_port, dst_port, header_len, payload_len) = q;
            &&& protocol == (if proto == 6 { Protocol::Tcp } else if proto == 17 { Protocol::Udp }
                else if proto == 1 && v4 { Protocol::Icmp } else { Protocol::Other(proto) })
            &&& src_port == (if proto == 6 || proto == 17 { be16(t@[0], t@[1]) } else { 0 })
            &&& dst_port == (if proto == 6 || proto == 17 { be16(t@[2], t@[3]) } else { 0 })
            &&& header_len == transport_header_of(t@, proto)
            &&& payload_len == t@.len() - transport_header_of(t@, proto)
        }),
{
    if proto == 6 {
        match TcpHeader::parse(t) {
            Ok(tcp) => {
                let announced = tcp.header_len();
                let header_len = if announced <= t.len() { announced } else { t.len() };
                Ok((Protocol::Tcp, tcp.src_port, tcp.dst_port, header_len, t.len() - header_len))
            },
            Err(e) => Err(e),
        }
    } else if proto == 17 {
        match UdpHeader::parse(t) {
            Ok(udp) => Ok((Protocol::Udp, udp.src_port, udp.dst_port, 8, t.len() - 8)),
            Err(e) => Err(e),
        }
    } else if proto == 1 && v4 {
        Ok((Protocol::Icmp, 0, 0, 0, t.len()))
    } else {
        Ok((Protocol::Other(proto), 0, 0, 0, t.len()))
    }
}

/// Walks the IPv6 extension headers of the IPv6 packet `n` whose fixed header announces
/// `first` as its next header.
fn walk_extension_headers(n: &[u8], first: u8) -> (r: Result<(u8, usize, bool), ParserError>)
    requires
        n@.len() >= 40,
    ensures
        r == ipv6_chain(n@, first, 40),
{
    let mut nh = first;
    let mut off: usize = 40;
    loop
        invariant
            40 <= off <= n@.len(),
            ipv6_chain(n@, nh, off as int) == ipv6_chain(n@, first, 40),
        decreases n@.len() - off,
    {
        if !(nh == 0 || nh == 43 || nh == 44 || nh == 60) {
            return Ok((nh, off, false));
        }
        let rest = n.len() - off;
        if rest < 8 {
            return Err(ParserError::PacketTooShort(8, rest));
        }
        let len: usize = if nh == 44 { 8 } else { (n[off + 1] as usize + 1) * 8 };
        if rest < len {
            return Err(ParserError::PacketTooShort(len, rest));
        }
        if nh == 44 && read_be16(n[off + 2], n[off + 3]) / 8 != 0 {
            return Ok((n[off], off + 8, true));
        }
        nh = n[off];
        off = off + len;
    }
}

/// Parses a raw Ethernet frame into a `ParsedPacket`. For IPv6 the chain of extension
/// headers is followed to the transport header.
pub fn parse_packet(data: &[u8]) -> (r: Result<ParsedPacket, ParserError>)
    requires
        packet_within_bounds(data@),
    ensures
        parse_packet_result(data@, r),
{
    let ethernet = match EthernetFrame::parse(data) {
        Ok(f) => f,
        Err(e) => return Err(e),
    };
    let payload_offset = ethernet.header_len();
    assert(payload_offset == ethernet_needed(data@));
    let network = vstd::slice::slice_subrange(data, payload_offset, data.len());
    assert(network@ =~= network_bytes(data@));
    if ethernet.ethertype == 0x0800 {
        let ip = match IpHeader::parse_ipv4(network) {
            Ok(ip) => ip,
            Err(e) => return Err(e),
        };
        let hdr = match &ip {
            IpHeader::V4(hdr) => hdr,
            IpHeader::V6(_) => {
                assert(false);
                return Err(ParserError::UnsupportedEtherType(0x0800));
            },
        };
        let ip_header_len = hdr.header_len();
        let remaining = vstd::slice::slice_subrange(network, ip_header_len, network.len());
        assert(remaining@ =~= ipv4_payload(network@));
        match parse_transport(remaining, hdr.protocol, true) {
            Ok((protocol, src_port, dst_port, transport_header_len, payload_len)) => Ok(
                ParsedPacket {
                    ethernet,
                    ip,
                    src_port,
                    dst_port,
                    protocol,
                    transport_header_len,
                    payload_len,
                },
            ),
            Err(e) => Err(e),
        }
    } else if ethernet.ethertype == 0x86DD {
        let ip = match IpHeader::parse_ipv6(network) {
            Ok(ip) => ip,
            Err(e) => return Err(e),
        };
        let next_header = match &ip {
            IpHeader::V6(hdr) => hdr.next_header,
            IpHeader::V4(_) => {
                assert(false);
                return Err(ParserError::UnsupportedEtherType(0x86DD));
            },
        };
        let (last, off, later) = match walk_extension_headers(network, next_header) {
            Ok(c) => c,
            Err(e) => return Err(e),
        };
        proof {
            lemma_chain_bounds(network@, network@[6], 40);
        }
        let remaining = vstd::slice::slice_subrange(network, off, network.len());
        assert(remaining@ =~= network@.skip(off as int));
        if later {
            return Ok(ParsedPacket {
                ethernet,
                ip,
                src_port: 0,
                dst_port: 0,
                protocol: Protocol::Other(last),
                transport_header_len: 0,
                payload_len: network.len() - 40,
            });
        }
        match parse_transport(remaining, last, false) {
            Ok((protocol, src_port, dst_port, _, _)) => Ok(
                ParsedPacket {
                    ethernet,
                    ip,
                    src_port,
                    dst_port,
                    protocol,
                    transport_header_len: 0,
                    payload_len: network.len() - 40,
                },
            ),
            Err(e) => Err(e),
        }
    } else {
        Err(ParserError::UnsupportedEtherType(ethernet.ethertype))
    }
}

/// Where the extension-header chain of `n` ends: never before `off`, never past `n`'s end.
proof fn lemma_chain_bounds(n: Seq<u8>, nh: u8, off: int)
    requires
        0 <= off <= n.len(),
        n.len() <= usize::MAX,
    ensures
        ipv6_chain(n, nh, off) matches Ok(c) ==> off <= c.1 <= n.len(),
    decreases n.len() - off,
{
    if is_extension_header(nh) && n.len() - off >= 8 && n.len() - off >= extension_header_len(n, nh, off)
        && !(nh == 44 && later_fragment(n, off)) {
        lemma_chain_bounds(n, n[off], off + extension_header_len(n, nh, off));
    }
}

/// Tells whether `parse_packet` stays within the frame `data` (see `packet_within_bounds`).
pub fn parse_packet_within_bounds(data: &[u8]) -> (b: bool)
    ensures
        b == packet_within_bounds(data@),
{
    if data.len() < 14 {
        return true;
    }
    let ethernet = match EthernetFrame::parse(data) {
        Ok(f) => f,
        Err(_) => return true,
    };
    if ethernet.ethertype != 0x0800 {
        return true;
    }
    let network = vstd::slice::slice_subrange(data, ethernet.header_len(), data.len());
    assert(network@ =~= network_bytes(data@));
    let hdr = match ipv4_probe(network) {
        Some(h) => h,
        None => return true,
    };
    if (hdr.0 as usize) * 4 > network.len() {
        return false;
    }
    let remaining = vstd::slice::slice_subrange(network, (hdr.0 as usize) * 4, network.len());
    assert(remaining@ =~= ipv4_payload(network@));
    if hdr.1 != 6 || remaining.len() < 20 || remaining[12] / 16 < 5 {
        return true;
    }
    (remaining[12] / 16) as usize * 4 <= remaining.len()
}

/// The IHL and protocol of a well-formed IPv4 header starting `n`.
fn ipv4_probe(n: &[u8]) -> (r: Option<(u8, u8)>)
    ensures
        r is None <==> ipv4_fails(n@),
        r matches Some(p) ==> p.0 == n@[0] % 16 && p.1 == n@[9],
{
    if n.len() < 20 || n[0] / 16 != 4 || n[0] % 16 < 5 {
        None
    } else {
        Some((n[0] % 16, n[9]))
    }
}

/// The total length that `total_len` reports for `p`: link-layer header, IP header,
/// the transport header that the payload length leaves out, and payload.
pub open spec fn packet_total_len(p: ParsedPacket) -> int {
    (if p.ethernet.vlan_id is Some { 18int } else { 14int }) + ip_header_len(p.ip)
        + p.transport_header_len + p.payload_len
}

/// The display text of a parsed packet.
pub open spec fn packet_text(p: ParsedPacket) -> Seq<char> {
    protocol_text(p.protocol) + " "@ + ip_header_src_text(p.ip) + ":"@ + dec(p.src_port as nat)
        + " -> "@ + ip_header_dst_text(p.ip) + ":"@ + dec(p.dst_port as nat) + " ("@
        + mac_text(p.ethernet.src_mac@) + ") len="@ + dec(packet_total_len(p) as nat)
}

impl ParsedPacket {
    /// Source address as text.
    pub fn src_ip(&self) -> (s: String)
        ensures
            s@ == ip_header_src_text(self.ip),
    {
        self.ip.src_ip_str()
    }

    /// Destination address as text.
    pub fn dst_ip(&self) -> (s: String)
        ensures
            s@ == ip_header_dst_text(self.ip),
    {
        self.ip.dst_ip_str()
    }

    /// Source address as a 16-byte array.
    pub fn src_ip_bytes(&self) -> (r: [u8; 16])
        ensures
            r@ == ip_header_src_bytes(self.ip),
    {
        self.ip.src_ip_bytes()
    }

    /// Destination address as a 16-byte array.
    pub fn dst_ip_bytes(&self) -> (r: [u8; 16])
        ensures
            r@ == ip_header_dst_bytes(self.ip),
    {
        self.ip.dst_ip_bytes()
    }

    /// Total packet length: link-layer header, IP header, the transport header that the
    /// payload length leaves out, and payload.
    pub fn total_len(&self) -> (n: usize)
        requires
            packet_total_len(*self) <= usize::MAX,
        ensures
            n == packet_total_len(*self),
    {
        self.ethernet.header_len() + self.ip_header_len() + self.transport_header_len + self.payload_len
    }

    /// The total packet length, or `None` where it does not fit in a `usize`.
    pub fn checked_total_len(&self) -> (r: Option<usize>)
        ensures
            r is Some <==> packet_total_len(*self) <= usize::MAX,
            r matches Some(n) ==> n == packet_total_len(*self),
    {
        let link = self.ethernet.header_len();
        let ip = self.ip_header_len();
        match link.checked_add(ip) {
            None => None,
            Some(a) => match a.checked_add(self.transport_header_len) {
                None => None,
                Some(b) => b.checked_add(self.payload_len),
            },
        }
    }

    /// The display text: protocol, both endpoints, source MAC and total length.
    pub fn to_string(&self) -> (s: String)
        requires
            packet_total_len(*self) <= usize::MAX,
        ensures
            s@ == packet_text(*self),
    {
        let mut s = self.protocol.to_string();
        s.append(" ");
        let src = self.src_ip();
        s.append(src.as_str());
        s.append(":");
        push_dec(&mut s, self.src_port as u64);
        s.append(" -> ");
        let dst = self.dst_ip();
        s.append(dst.as_str());
        s.append(":");
        push_dec(&mut s, self.dst_port as u64);
        s.append(" (");
        let mac = self.ethernet.src_mac_str();
        s.append(mac.as_str());
        s.append(") len=");
        push_dec(&mut s, self.total_len() as u64);
        s
    }

    /// IP header length in bytes.
    fn ip_header_len(&self) -> (n: usize)
        ensures
            n == ip_header_len(self.ip),
    {
        match &self.ip {
            IpHeader::V4(hdr) => hdr.header_len(),
            IpHeader::V6(hdr) => hdr.header_len(),
        }
    }
}

/// The total length of a parsed packet is the length of its frame.
pub proof fn parsed_length_is_frame_length(d: Seq<u8>, p: ParsedPacket)
    requires
        d.len() <= usize::MAX,
        packet_within_bounds(d),
        parse_packet_result(d, Ok(p)),
    ensures
        packet_total_len(p) == d.len(),
{
    let n = network_bytes(d);
    if ethertype_of(d) == 0x0800 {
        let t = ipv4_payload(n);
        assert(t.len() == n.len() - (n[0] % 16) as int * 4);
    } else {
        lemma_chain_bounds(n, n[6], 40);
    }
}

/// The packet parser hands on the errors of the layer parsers unchanged: a short frame
/// gives the Ethernet parser's error, an unknown Ethernet type its own error, and a bad
/// IPv4, IPv6, TCP or UDP header the error that the parser of that header gives.
pub proof fn layer_errors_pass_through(d: Seq<u8>, r: Result<ParsedPacket, ParserError>)
    requires
        parse_packet_result(d, r),
    ensures
        d.len() < ethernet_needed(d) ==> r == Err::<ParsedPacket, ParserError>(
            ParserError::PacketTooShort(ethernet_needed(d) as usize, d.len() as usize),
        ),
        d.len() >= ethernet_needed(d) ==> {
            let n = network_bytes(d);
            let t = ipv4_payload(n);
            &&& ethertype_of(d) != 0x0800 && ethertype_of(d) != 0x86DD
                ==> r == Err::<ParsedPacket, ParserError>(ParserError::UnsupportedEtherType(ethertype_of(d)))
            &&& ethertype_of(d) == 0x0800 && ipv4_fails(n) ==> (r matches Err(e) && ipv4_parse_result(n, Err(e)))
            &&& ethertype_of(d) == 0x0800 && !ipv4_fails(n) && n[9] == 6 && tcp_fails(t)
                ==> (r matches Err(e) && tcp_parse_result(t, Err(e)))
            &&& ethertype_of(d) == 0x0800 && !ipv4_fails(n) && n[9] == 17 && t.len() < 8
                ==> r == Err::<ParsedPacket, ParserError>(ParserError::PacketTooShort(8, t.len() as usize))
            &&& ethertype_of(d) == 0x86DD && ipv6_fails(n) ==> (r matches Err(e) && ipv6_parse_result(n, Err(e)))
            &&& ethertype_of(d) == 0x86DD && !ipv6_fails(n) ==> match ipv6_chain(n, n[6], 40) {
                Err(e) => r == Err::<ParsedPacket, ParserError>(e),
                Ok(c) => {
                    let u = n.skip(c.1 as int);
                    &&& !c.2 && c.0 == 6 && tcp_fails(u) ==> (r matches Err(e) && tcp_parse_result(u, Err(e)))
                    &&& !c.2 && c.0 == 17 && u.len() < 8
                        ==> r == Err::<ParsedPacket, ParserError>(ParserError::PacketTooShort(8, u.len() as usize))
                },
            }
        },
{
}

/// A parsed packet holds the Ethernet header of its frame, an IP header of the version
/// that the Ethernet type announces, and the protocol and ports of the transport header
/// found after the IP header (and, for IPv6, after its extension headers).
pub proof fn packet_fields_follow_headers(d: Seq<u8>, p: ParsedPacket)
    requires
        parse_packet_result(d, Ok(p)),
    ensures
        d.len() >= ethernet_needed(d),
        ethernet_decodes(d, p.ethernet),
        ethertype_of(d) == 0x0800 || ethertype_of(d) == 0x86DD,
        (p.ip is V4) <==> ethertype_of(d) == 0x0800,
        ethertype_of(d) == 0x0800 ==> {
            let n = network_bytes(d);
            &&& p.ip matches IpHeader::V4(h) && ipv4_decodes(n, h)
            &&& transport_fields(ipv4_payload(n), n[9], true, p)
            &&& ipv4_length_fields(ipv4_payload(n), n[9], p)
        },
        ethertype_of(d) == 0x86DD ==> {
            let n = network_bytes(d);
            &&& p.ip matches IpHeader::V6(h) && ipv6_decodes(n, h)
            &&& ipv6_chain(n, n[6], 40) matches Ok(c) && {
                let u = n.skip(c.1 as int);
                &&& ipv6_length_fields(n, p)
                &&& if c.2 { later_fragment_fields(c.0, p) } else { transport_fields(u, c.0, false, p) }
            }
        },
{
}

/// Over IPv4, a parsed packet's ports and lengths come from the bytes after the IPv4
/// header, which starts right after the link-layer header `e` and is `(d[e] % 16) * 4`
/// bytes long: for TCP (protocol 6) the ports are its first two big-endian words and the
/// transport header is the `(d[o + 12] / 16) * 4` bytes that its data offset announces,
/// options included; for UDP (17) the header is 8 bytes; otherwise there are no ports
/// and no transport header. The payload is what follows. Over IPv6 the payload length
/// counts every byte after the 40-byte fixed header.
pub proof fn packet_lengths_from_headers(d: Seq<u8>, p: ParsedPacket)
    requires
        packet_within_bounds(d),
        parse_packet_result(d, Ok(p)),
    ensures
        ethertype_of(d) == 0x0800 ==> {
            let e = ethernet_needed(d) as int;
            let o = e + (d[e] as int % 16) * 4;
            &&& d[e + 9] == 6 ==> {
                &&& p.protocol == Protocol::Tcp
                &&& p.src_port as int == d[o] as int * 256 + d[o + 1] as int
                &&& p.dst_port as int == d[o + 2] as int * 256 + d[o + 3] as int
                &&& p.transport_header_len == (d[o + 12] as int / 16) * 4
                &&& p.payload_len == d.len() - o - (d[o + 12] as int / 16) * 4
            }
            &&& d[e + 9] == 17 ==> {
                &&& p.protocol == Protocol::Udp
                &&& p.src_port as int == d[o] as int * 256 + d[o + 1] as int
                &&& p.dst_port as int == d[o + 2] as int * 256 + d[o + 3] as int
                &&& p.transport_header_len == 8
                &&& p.payload_len == d.len() - o - 8
            }
            &&& d[e + 9] != 6 && d[e + 9] != 17 ==> {
                &&& p.src_port == 0 && p.dst_port == 0
                &&& p.transport_header_len == 0
                &&& p.payload_len == d.len() - o
            }
        },
        ethertype_of(d) == 0x86DD ==> {
            &&& p.transport_header_len == 0
            &&& p.payload_len == d.len() - ethernet_needed(d) - 40
        },
{
    let n = network_bytes(d);
    if ethertype_of(d) == 0x0800 {
        let t = ipv4_payload(n);
        assert(t.len() == n.len() - (n[0] % 16) as int * 4);
    }
}

} // verus!
