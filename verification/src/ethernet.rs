//! Ethernet II frame header, with an optional 802.1Q VLAN tag.
use vstd::prelude::*;
use crate::bytes::{be16, read_be16};
use crate::error::ParserError;
use crate::text::{mac_string, mac_text};

verus! {

/// Ethernet frame header.
#[derive(Debug, Clone)]
pub struct EthernetFrame {
    pub dst_mac: [u8; 6],
    pub src_mac: [u8; 6],
    pub ethertype: u16,
    pub vlan_id: Option<u16>,
}

/// The Ethernet type that announces an 802.1Q VLAN tag.
pub open spec fn is_vlan_tagged(data: Seq<u8>) -> bool {
    be16(data[12], data[13]) == 0x8100
}

/// The number of bytes that a frame header starting `data` needs.
pub open spec fn ethernet_needed(data: Seq<u8>) -> nat {
    if data.len() >= 14 && is_vlan_tagged(data) { 18 } else { 14 }
}

/// `f` is the header that `data` encodes (assuming enough bytes).
pub open spec fn ethernet_decodes(data: Seq<u8>, f: EthernetFrame) -> bool {
    &&& f.dst_mac@ == data.subrange(0, 6)
    &&& f.src_mac@ == data.subrange(6, 12)
    &&& if is_vlan_tagged(data) {
        f.ethertype == be16(data[16], data[17]) && f.vlan_id == Some(be16(data[14], data[15]))
    } else {
        f.ethertype == be16(data[12], data[13]) && f.vlan_id.is_none()
    }
}

impl EthernetFrame {
    /// Parses an Ethernet frame header from raw bytes.
    pub fn parse(data: &[u8]) -> (r: Result<Self, ParserError>)
        ensures
            data@.len() < ethernet_needed(data@) ==> r == Err::<Self, ParserError>(
                ParserError::PacketTooShort(ethernet_needed(data@) as usize, data@.len() as usize),
            ),
            data@.len() >= ethernet_needed(data@) ==> (r matches Ok(f) && ethernet_decodes(data@, f)),
    {
        if data.len() < 14 {
            return Err(ParserError::PacketTooShort(14, data.len()));
        }
        let dst_mac: [u8; 6] = [data[0], data[1], data[2], data[3], data[4], data[5]];
        let src_mac: [u8; 6] = [data[6], data[7], data[8], data[9], data[10], data[11]];
        assert(dst_mac@ =~= data@.subrange(0, 6));
        assert(src_mac@ =~= data@.subrange(6, 12));
        let ethertype = read_be16(data[12], data[13]);
        if ethertype == 0x8100 {
            if data.len() < 18 {
                return Err(ParserError::PacketTooShort(18, data.len()));
            }
            let vlan_id = read_be16(data[14], data[15]);
            let real_ethertype = read_be16(data[16], data[17]);
            Ok(EthernetFrame { dst_mac, src_mac, ethertype: real_ethertype, vlan_id: Some(vlan_id) })
        } else {
            Ok(EthernetFrame { dst_mac, src_mac, ethertype, vlan_id: None })
        }
    }

    /// Header length in bytes: 14, or 18 with a VLAN tag.
    pub fn header_len(&self) -> (n: usize)
        ensures
            n == (if self.vlan_id.is_some() { 18usize } else { 14usize }),
    {
        14 + if self.vlan_id.is_some() { 4 } else { 0 }
    }

    /// Destination MAC address as six colon-separated hex pairs.
    pub fn dst_mac_str(&self) -> (s: String)
        ensures
            s@ == mac_text(self.dst_mac@),
    {
        mac_string(&self.dst_mac)
    }

    /// Source MAC address as six colon-separated hex pairs.
    pub fn src_mac_str(&self) -> (s: String)
        ensures
            s@ == mac_text(self.src_mac@),
    {
        mac_string(&self.src_mac)
    }
}

/// A parsed Ethernet header holds the destination MAC (bytes 0-5), the source MAC
/// (6-11) and the big-endian type at 12-13; where that type is 0x8100 (bytes 0x81 0x00)
/// an 802.1Q tag follows, whose VLAN ID is bytes 14-15 and whose inner type 16-17.
pub proof fn ethernet_fields_from_bytes(d: Seq<u8>, f: EthernetFrame)
    requires
        d.len() >= ethernet_needed(d),
        ethernet_decodes(d, f),
    ensures
        forall|i: int| 0 <= i < 6 ==> f.dst_mac@[i] == d[i] && f.src_mac@[i] == d[6 + i],
        (d[12] == 0x81 && d[13] == 0) ==> {
            &&& d.len() >= 18
            &&& f.vlan_id matches Some(v) && v as int == d[14] as int * 256 + d[15] as int
            &&& f.ethertype as int == d[16] as int * 256 + d[17] as int
        },
        !(d[12] == 0x81 && d[13] == 0) ==> {
            &&& f.vlan_id is None
            &&& f.ethertype as int == d[12] as int * 256 + d[13] as int
        },
{
}

} // verus!
