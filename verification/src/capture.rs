//! The capture settings of a sensor and the bookkeeping of its capture and
//! processing loops: what happens to each frame read, when statistics are due,
//! which packets are logged.
use vstd::prelude::*;
use crate::config::CaptureConfig;
use crate::error::ParserError;
use crate::packet::{ParsedPacket, packet_total_len, packet_within_bounds, parse_packet, parse_packet_result};
use crate::text::{dec, push_dec};

verus! {

/// Packet capture on one network interface.
pub struct PacketCapture {
    interface: String,
    buffer_size: usize,
    snap_len: u32,
}

/// The display text of a capture's settings.
pub open spec fn packet_capture_text(interface: Seq<char>, buffer_size: nat, snap_len: nat) -> Seq<char> {
    "PacketCapture(interface="@ + interface + ", buffer="@ + dec(buffer_size) + ", snap_len="@
        + dec(snap_len) + ")"@
}

impl PacketCapture {
    /// The interface to capture on.
    pub closed spec fn spec_interface(&self) -> Seq<char> {
        self.interface@
    }

    /// The read buffer size.
    pub closed spec fn spec_buffer_size(&self) -> usize {
        self.buffer_size
    }

    /// The maximum length of a captured packet.
    pub closed spec fn spec_snap_len(&self) -> u32 {
        self.snap_len
    }

    /// Creates a capture with the settings of `config`.
    pub fn new(config: &CaptureConfig) -> (c: Self)
        ensures
            c.spec_interface() == config.interface@,
            c.spec_buffer_size() == config.buffer_size,
            c.spec_snap_len() == config.snap_len,
    {
        PacketCapture {
            interface: config.interface.clone(),
            buffer_size: config.buffer_size,
            snap_len: config.snap_len,
        }
    }

    /// The interface to capture on.
    pub fn interface(&self) -> (s: &str)
        ensures
            s@ == self.spec_interface(),
    {
        self.interface.as_str()
    }

    /// The read buffer size.
    pub fn buffer_size(&self) -> (n: usize)
        ensures
            n == self.spec_buffer_size(),
    {
        self.buffer_size
    }

    /// The display text: `PacketCapture(interface=I, buffer=B, snap_len=S)`.
    pub fn to_string(&self) -> (s: String)
        ensures
            s@ == packet_capture_text(self.spec_interface(), self.spec_buffer_size() as nat, self.spec_snap_len() as nat),
    {
        let mut s = String::from_str("PacketCapture(interface=");
        s.append(self.interface.as_str());
        s.append(", buffer=");
        push_dec(&mut s, self.buffer_size as u64);
        s.append(", snap_len=");
        push_dec(&mut s, self.snap_len as u64);
        s.append(")");
        s
    }
}

/// What the capture loop does with a frame it has read.
pub enum FrameOutcome {
    /// Hand the parsed packet on.
    Forward(ParsedPacket),
    /// The frame did not parse; `report` tells whether to log it (the first ten failures).
    Rejected { packet_number: u64, error: ParserError, report: bool },
}

/// The counters of the capture loop.
pub struct CaptureCounters {
    /// Frames read.
    pub packet_count: u64,
    /// Frames that did not parse.
    pub error_count: u64,
}

/// How many parse failures the capture loop logs.
pub const REPORTED_PARSE_FAILURES: u64 = 10;

/// The capture loop logs statistics every this many frames.
pub const STATS_INTERVAL: u64 = 10_000;

impl CaptureCounters {
    /// Counters before the first frame.
    pub fn new() -> (c: Self)
        ensures
            c.packet_count == 0,
            c.error_count == 0,
    {
        CaptureCounters { packet_count: 0, error_count: 0 }
    }

    /// Counts and parses a frame that was read, and tells what to do with it.
    pub fn on_frame(&mut self, frame: &[u8]) -> (o: FrameOutcome)
        requires
            packet_within_bounds(frame@),
            old(self).packet_count < u64::MAX,
            old(self).error_count < u64::MAX,
        ensures
            final(self).packet_count == old(self).packet_count + 1,
            old(self).error_count <= old(self).packet_count ==> final(self).error_count <= final(self).packet_count,
            match o {
                FrameOutcome::Forward(p) => {
                    &&& parse_packet_result(frame@, Ok(p))
                    &&& final(self).error_count == old(self).error_count
                },
                FrameOutcome::Rejected { packet_number, error, report } => {
                    &&& parse_packet_result(frame@, Err(error))
                    &&& final(self).error_count == old(self).error_count + 1
                    &&& packet_number == final(self).packet_count
                    &&& report == (final(self).error_count <= REPORTED_PARSE_FAILURES)
                },
            },
    {
        self.packet_count = self.packet_count + 1;
        match parse_packet(frame) {
            Ok(parsed) => FrameOutcome::Forward(parsed),
            Err(e) => {
                self.error_count = self.error_count + 1;
                FrameOutcome::Rejected {
                    packet_number: self.packet_count,
                    error: e,
                    report: self.error_count <= REPORTED_PARSE_FAILURES,
                }
            },
        }
    }

    /// Whether statistics are due after this turn of the loop.
    pub fn stats_due(&self) -> (b: bool)
        ensures
            b == (self.packet_count % STATS_INTERVAL == 0),
    {
        self.packet_count % STATS_INTERVAL == 0
    }
}

/// The counters of the processing loop.
pub struct PacketTally {
    /// Packets processed.
    pub packet_count: u64,
    /// Bytes processed (total lengths of the packets).
    pub byte_count: u64,
}

/// How many packets the processing loop logs.
pub const LOGGED_PACKETS: u64 = 10;

impl PacketTally {
    /// Counters before the first packet.
    pub fn new() -> (t: Self)
        ensures
            t.packet_count == 0,
            t.byte_count == 0,
    {
        PacketTally { packet_count: 0, byte_count: 0 }
    }

    /// Counts a packet; tells whether to log it (the first ten).
    pub fn record(&mut self, p: &ParsedPacket) -> (log: bool)
        requires
            packet_total_len(*p) <= usize::MAX,
            old(self).packet_count < u64::MAX,
            old(self).byte_count + packet_total_len(*p) <= u64::MAX,
        ensures
            final(self).packet_count == old(self).packet_count + 1,
            final(self).byte_count == old(self).byte_count + packet_total_len(*p),
            log == (final(self).packet_count <= LOGGED_PACKETS),
    {
        self.packet_count = self.packet_count + 1;
        self.byte_count = self.byte_count + p.total_len() as u64;
        self.packet_count <= LOGGED_PACKETS
    }
}

} // verus!
