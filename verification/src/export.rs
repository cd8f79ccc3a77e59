//! Flow records in the exported format.
use vstd::prelude::*;
use crate::clock::{Timestamp, millis_between, rfc3339, rfc3339_text};
use crate::entry::{FlowEntry, FlowEntryView, entry_times_wf, flag_list};
use crate::key::{FlowKey, protocol_name};
use crate::text::{ip_string, ip_text};

verus! {

/// Exported flow record.
#[derive(Debug, Clone)]
pub struct ExportedFlow {
    pub flow_id: String,
    pub timestamp_start: String,
    pub timestamp_end: String,
    pub source_ip: String,
    pub destination_ip: String,
    pub source_port: u16,
    pub destination_port: u16,
    pub protocol: String,
    pub packets_forward: u32,
    pub packets_reverse: u32,
    pub bytes_forward: u64,
    pub bytes_reverse: u64,
    pub duration_ms: u64,
    pub tcp_flags: Vec<String>,
    pub sensor_node: String,
}

/// The texts of a vector of strings.
pub open spec fn string_views(v: Seq<String>) -> Seq<Seq<char>> {
    v.map_values(|s: String| s@)
}

/// `x` carries the key `k` and the entry `e`, observed by `node`, except for
/// the two timestamp texts.
pub open spec fn exported_fields(k: FlowKey, e: FlowEntryView, node: Seq<char>, x: ExportedFlow) -> bool {
    &&& x.flow_id@ == e.flow_id
    &&& x.source_ip@ == ip_text(k.src_ip@)
    &&& x.destination_ip@ == ip_text(k.dst_ip@)
    &&& x.source_port == k.src_port
    &&& x.destination_port == k.dst_port
    &&& x.protocol@ == protocol_name(k.protocol)
    &&& x.packets_forward == e.packets_forward
    &&& x.packets_reverse == e.packets_reverse
    &&& x.bytes_forward == e.bytes_forward
    &&& x.bytes_reverse == e.bytes_reverse
    &&& x.duration_ms == millis_between(e.timestamp_end, e.timestamp_start) as u64
    &&& string_views(x.tcp_flags@) == flag_list(e.tcp_flags)
    &&& x.sensor_node@ == node
}

/// `x` is the record of the key `k` and the entry `e`, observed by `node`.
pub open spec fn exported_from(k: FlowKey, e: FlowEntryView, node: Seq<char>, x: ExportedFlow) -> bool {
    &&& exported_fields(k, e, node, x)
    &&& x.timestamp_start@ == rfc3339_text(e.timestamp_start.secs, e.timestamp_start.nanos)
    &&& x.timestamp_end@ == rfc3339_text(e.timestamp_end.secs, e.timestamp_end.nanos)
}

impl ExportedFlow {
    /// Creates the record of a flow key and entry, observed by `sensor_node`.
    pub fn from_flow(key: &FlowKey, entry: &FlowEntry, sensor_node: &str) -> (x: Self)
        requires
            entry_times_wf(entry@),
        ensures
            exported_from(*key, entry@, sensor_node@, x),
    {
        let start = rfc3339(entry.timestamp_start);
        let end = rfc3339(entry.timestamp_end);
        Self::with_timestamps(key, entry, sensor_node, start, end)
    }

    /// Creates the record of a flow key and entry, observed by `sensor_node`, with the
    /// given texts of its start and end times.
    pub fn with_timestamps(
        key: &FlowKey,
        entry: &FlowEntry,
        sensor_node: &str,
        timestamp_start: String,
        timestamp_end: String,
    ) -> (x: Self)
        requires
            entry_times_wf(entry@),
        ensures
            exported_fields(*key, entry@, sensor_node@, x),
            x.timestamp_start@ == timestamp_start@,
            x.timestamp_end@ == timestamp_end@,
    {
        let names = entry.tcp_flags.to_vec();
        let mut tcp_flags: Vec<String> = Vec::new();
        let mut i: usize = 0;
        while i < names.len()
            invariant
                0 <= i <= names@.len(),
                string_views(tcp_flags@) == crate::tcp::str_views(names@).take(i as int),
            decreases names@.len() - i,
        {
            let ghost before = tcp_flags@;
            let name = String::from_str(names[i]);
            tcp_flags.push(name);
            assert(tcp_flags@ == before.push(name));
            assert(string_views(tcp_flags@) =~= string_views(before).push(name@));
            assert(crate::tcp::str_views(names@)[i as int] == names@[i as int]@);
            assert(crate::tcp::str_views(names@).take(i + 1) =~= crate::tcp::str_views(names@).take(i as int).push(names@[i as int]@));
            assert(string_views(tcp_flags@) =~= crate::tcp::str_views(names@).take(i + 1));
            i = i + 1;
        }
        assert(crate::tcp::str_views(names@).take(names@.len() as int) =~= crate::tcp::str_views(names@));
        ExportedFlow {
            flow_id: entry.flow_id.clone(),
            timestamp_start,
            timestamp_end,
            source_ip: ip_string(&key.src_ip),
            destination_ip: ip_string(&key.dst_ip),
            source_port: key.src_port,
            destination_port: key.dst_port,
            protocol: String::from_str(key.protocol_str()),
            packets_forward: entry.packets_forward,
            packets_reverse: entry.packets_reverse,
            bytes_forward: entry.bytes_forward,
            bytes_reverse: entry.bytes_reverse,
            duration_ms: entry.duration_ms(),
            tcp_flags,
            sensor_node: String::from_str(sensor_node),
        }
    }
}

/// Flow exporter that converts flow entries to the exported format.
pub struct FlowExporter {
    sensor_node: String,
}

impl FlowExporter {
    /// The node name that the exporter writes into each record.
    pub closed spec fn node(&self) -> Seq<char> {
        self.sensor_node@
    }

    /// Creates a flow exporter for the sensor node `sensor_node`.
    pub fn new(sensor_node: String) -> (x: Self)
        ensures
            x.node() == sensor_node@,
    {
        FlowExporter { sensor_node }
    }

    /// Exports a single flow.
    pub fn export_flow(&self, key: &FlowKey, entry: &FlowEntry) -> (x: ExportedFlow)
        requires
            entry_times_wf(entry@),
        ensures
            exported_from(*key, entry@, self.node(), x),
    {
        ExportedFlow::from_flow(key, entry, self.sensor_node.as_str())
    }

    /// Exports several flows, in order.
    pub fn export_flows(&self, flows: &[(FlowKey, FlowEntry)]) -> (xs: Vec<ExportedFlow>)
        requires
            forall|i: int| 0 <= i < flows@.len() ==> entry_times_wf(#[trigger] flows@[i].1@),
        ensures
            xs@.len() == flows@.len(),
            forall|i: int| 0 <= i < flows@.len() ==>
                exported_from(flows@[i].0, flows@[i].1@, self.node(), #[trigger] xs@[i]),
    {
        let mut xs: Vec<ExportedFlow> = Vec::new();
        let mut i: usize = 0;
        while i < flows.len()
            invariant
                0 <= i <= flows@.len(),
                xs@.len() == i,
                forall|j: int| 0 <= j < flows@.len() ==> entry_times_wf(#[trigger] flows@[j].1@),
                forall|j: int| 0 <= j < i ==>
                    exported_from(flows@[j].0, flows@[j].1@, self.node(), #[trigger] xs@[j]),
            decreases flows@.len() - i,
        {
            let x = self.export_flow(&flows[i].0, &flows[i].1);
            xs.push(x);
            i = i + 1;
        }
        xs
    }
}

} // verus!
