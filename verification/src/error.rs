//! Errors of the packet parsers and of the flow table.
use vstd::prelude::*;
use crate::text::{dec, hex4, push_dec, push_hex4};

verus! {

/// Why a packet could not be parsed.
#[derive(Debug)]
pub enum ParserError {
    /// The input holds fewer bytes than needed: (needed, available).
    PacketTooShort(usize, usize),
    /// The Ethernet type is neither IPv4 nor IPv6.
    UnsupportedEtherType(u16),
    /// The version nibble of an IP header is not the expected one.
    InvalidIpVersion(u8),
    /// The data offset of a TCP header is below five words.
    InvalidTcpDataOffset(u8),
    /// Any other malformation, with a description.
    ParseError(String),
}

/// The message that describes a parser error.
pub open spec fn parser_error_text(e: ParserError) -> Seq<char> {
    match e {
        ParserError::PacketTooShort(need, got) => "Packet too short: need at least "@ + dec(need as nat)
            + " bytes, got "@ + dec(got as nat),
        ParserError::UnsupportedEtherType(t) => "Unsupported Ethernet type: 0x"@ + hex4(t),
        ParserError::InvalidIpVersion(v) => "Invalid IP version: "@ + dec(v as nat),
        ParserError::InvalidTcpDataOffset(o) => "Invalid TCP data offset: "@ + dec(o as nat),
        ParserError::ParseError(m) => "Parse error: "@ + m@,
    }
}

impl ParserError {
    /// The message that describes the error.
    pub fn to_string(&self) -> (s: String)
        ensures
            s@ == parser_error_text(*self),
    {
        match self {
            ParserError::PacketTooShort(need, got) => {
                let mut s = String::from_str("Packet too short: need at least ");
                push_dec(&mut s, *need as u64);
                s.append(" bytes, got ");
                push_dec(&mut s, *got as u64);
                s
            },
            ParserError::UnsupportedEtherType(t) => {
                let mut s = String::from_str("Unsupported Ethernet type: 0x");
                push_hex4(&mut s, *t);
                s
            },
            ParserError::InvalidIpVersion(v) => {
                let mut s = String::from_str("Invalid IP version: ");
                push_dec(&mut s, *v as u64);
                s
            },
            ParserError::InvalidTcpDataOffset(o) => {
                let mut s = String::from_str("Invalid TCP data offset: ");
                push_dec(&mut s, *o as u64);
                s
            },
            ParserError::ParseError(m) => {
                let mut s = String::from_str("Parse error: ");
                s.append(m.as_str());
                s
            },
        }
    }
}

/// Why a flow operation failed.
#[derive(Debug)]
pub enum FlowError {
    /// The table holds its maximum number of flows.
    TableFull(usize),
    /// No flow with this description exists.
    NotFound(String),
    /// A flow could not be exported.
    ExportError(String),
}

/// The message that describes a flow error.
pub open spec fn flow_error_text(e: FlowError) -> Seq<char> {
    match e {
        FlowError::TableFull(n) => "Flow table full: max capacity "@ + dec(n as nat),
        FlowError::NotFound(m) => "Flow not found: "@ + m@,
        FlowError::ExportError(m) => "Export error: "@ + m@,
    }
}

impl FlowError {
    /// The message that describes the error.
    pub fn to_string(&self) -> (s: String)
        ensures
            s@ == flow_error_text(*self),
    {
        match self {
            FlowError::TableFull(n) => {
                let mut s = String::from_str("Flow table full: max capacity ");
                push_dec(&mut s, *n as u64);
                s
            },
            FlowError::NotFound(m) => {
                let mut s = String::from_str("Flow not found: ");
                s.append(m.as_str());
                s
            },
            FlowError::ExportError(m) => {
                let mut s = String::from_str("Export error: ");
                s.append(m.as_str());
                s
            },
        }
    }
}

} // verus!
