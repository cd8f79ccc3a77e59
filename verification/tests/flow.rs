use std::collections::hash_map::DefaultHasher;
use std::hash::{Hash, Hasher};
use sentinel::clock::Timestamp;
use sentinel::detect::{DetectionEngine, Rule, RuleConfig};
use sentinel::entry::{FlowEntry, TcpFlags};
use sentinel::error::FlowError;
use sentinel::export::{ExportedFlow, FlowExporter};
use sentinel::key::FlowKey;
use sentinel::table::{FlowTable, FlowTableConfig};

const IP1: [u8; 16] = [0, 0, 0, 0, 0, 0, 0, 0, 0, 0, 0xff, 0xff, 10, 0, 0, 1];
const IP2: [u8; 16] = [0, 0, 0, 0, 0, 0, 0, 0, 0, 0, 0xff, 0xff, 10, 0, 0, 2];
const IP3: [u8; 16] = [0, 0, 0, 0, 0, 0, 0, 0, 0, 0, 0xff, 0xff, 10, 0, 0, 3];

#[test]
fn test_flow_key_canonical() {
    let ip1 = IP1;
    let ip2 = IP2;

    let key1 = FlowKey::canonical(ip1, ip2, 12345, 80, 6);
    let key2 = FlowKey::canonical(ip2, ip1, 80, 12345, 6);

    assert_eq!(key1, key2);
}

#[test]
fn test_flow_key_display() {
    let ip = [0, 0, 0, 0, 0, 0, 0, 0, 0, 0, 0xff, 0xff, 192, 168, 1, 1];
    let key = FlowKey::new(ip, ip, 12345, 80, 6);
    assert_eq!(key.to_string(), "192.168.1.1:12345 -> 192.168.1.1:80 (TCP)");
}

#[test]
fn test_flow_entry_new() {
    let entry = FlowEntry::new(true);
    assert_eq!(entry.packets_forward, 0);
    assert_eq!(entry.bytes_forward, 0);
    assert!(entry.is_forward);
}

#[test]
fn test_flow_entry_update() {
    let mut entry = FlowEntry::new(true);
    entry.update(100, Some(0x02));

    assert_eq!(entry.packets_forward, 1);
    assert_eq!(entry.bytes_forward, 100);
    assert!(entry.tcp_flags.syn);
}

#[test]
fn test_flow_entry_duration() {
    let entry = FlowEntry::new(true);
    let _ = entry.duration_ms();
}

#[test]
fn test_export_flow() {
    let key = FlowKey::new(IP1, IP2, 12345, 80, 6);
    let mut entry = FlowEntry::new(true);
    entry.update(100, Some(0x02));

    let exporter = FlowExporter::new("node-1".to_string());
    let exported = exporter.export_flow(&key, &entry);

    assert_eq!(exported.source_ip, "10.0.0.1");
    assert_eq!(exported.destination_ip, "10.0.0.2");
    assert_eq!(exported.protocol, "TCP");
    assert_eq!(exported.sensor_node, "node-1");
}

#[test]
fn test_flow_table_new() {
    let config = FlowTableConfig::default();
    let table = FlowTable::new(config);
    assert_eq!(table.len(), 0);
    assert!(table.is_empty());
}

#[test]
fn test_flow_table_update() {
    let config = FlowTableConfig::default();
    let mut table = FlowTable::new(config);
    let key = FlowKey::new(IP1, IP2, 12345, 80, 6);

    table.update_flow(key.clone(), 100, Some(0x02)).unwrap();
    assert_eq!(table.len(), 1);
}

#[test]
fn test_flow_table_full() {
    let config = FlowTableConfig { max_flows: 2, ..Default::default() };
    let mut table = FlowTable::new(config);

    let key1 = FlowKey::new(IP1, IP2, 12345, 80, 6);
    let key2 = FlowKey::new(IP1, IP3, 12346, 80, 6);
    let key3 = FlowKey::new(IP1, IP2, 12347, 80, 6);

    table.update_flow(key1, 100, None).unwrap();
    table.update_flow(key2, 100, None).unwrap();
    assert!(table.update_flow(key3, 100, None).is_err());
}

fn at(secs: i64, nanos: u32) -> Timestamp {
    Timestamp { secs, nanos }
}

#[test]
fn canonical_orders_by_address_then_port() {
    let k = FlowKey::canonical(IP2, IP1, 80, 12345, 17);
    assert_eq!((k.src_ip, k.dst_ip, k.src_port, k.dst_port, k.protocol), (IP1, IP2, 12345, 80, 17));
    let same = FlowKey::canonical(IP1, IP1, 9000, 53, 17);
    assert_eq!((same.src_port, same.dst_port), (53, 9000));
    let again = FlowKey::canonical(k.src_ip, k.dst_ip, k.src_port, k.dst_port, k.protocol);
    assert_eq!(again, k);
}

#[test]
fn key_protocol_names_and_v6_display() {
    let v6 = [0x20, 0x01, 0x0d, 0xb8, 0, 0, 0, 0, 0, 0, 0, 0, 0, 0, 0, 0x42];
    assert_eq!(FlowKey::new(v6, IP1, 1, 2, 17).to_string(), "2001:0db8:0000:0000:0000:0000:0000:0042:1 -> 10.0.0.1:2 (UDP)");
    assert_eq!(FlowKey::new(IP1, IP2, 0, 0, 1).protocol_str(), "ICMP");
    assert_eq!(FlowKey::new(IP1, IP2, 0, 0, 47).protocol_str(), "OTHER");
}

#[test]
fn key_hash_is_xxh3_of_key_bytes() {
    let k = FlowKey::new(IP1, IP2, 0x3039, 0x0050, 6);
    let mut bytes = Vec::new();
    bytes.extend_from_slice(&IP1);
    bytes.extend_from_slice(&IP2);
    bytes.extend_from_slice(&[0x30, 0x39, 0x00, 0x50, 6]);
    assert_eq!(k.hash64(), xxhash_rust::xxh3::xxh3_64(&bytes));
    let fwd = FlowKey::canonical(IP1, IP2, 1000, 80, 6);
    let rev = FlowKey::canonical(IP2, IP1, 80, 1000, 6);
    assert_eq!(fwd.hash64(), rev.hash64());
    assert_ne!(k.hash64(), FlowKey::new(IP2, IP1, 0x3039, 0x0050, 6).hash64());
}

#[test]
fn tcp_flags_accumulate() {
    let mut f = TcpFlags::default();
    assert!(f.to_vec().is_empty());
    f.update(0x02);
    f.update(0x11);
    f.update(0x02);
    assert_eq!(f.to_vec(), vec!["SYN", "ACK", "FIN"]);
    let mut g = TcpFlags::default();
    g.update(0x11);
    g.update(0x02);
    assert_eq!(f, g);
    g.update(0x2c);
    assert_eq!(g.to_vec(), vec!["SYN", "ACK", "FIN", "RST", "PSH", "URG"]);
}

#[test]
fn entry_counting_and_display() {
    let mut e = FlowEntry::started_at("0123456789abcdef".to_string(), at(100, 500_000_000), false);
    e.update_at(at(102, 250_000_000), 1500, None);
    e.update_at(at(103, 0), 40, Some(0x04));
    assert_eq!((e.packets_forward, e.packets_reverse), (0, 2));
    assert_eq!((e.bytes_forward, e.bytes_reverse), (0, 1540));
    assert_eq!(e.total_packets(), 2);
    assert_eq!(e.total_bytes(), 1540);
    assert!(e.tcp_flags.rst && !e.tcp_flags.syn);
    assert_eq!(e.duration_ms(), 2500);
    assert_eq!(e.last_activity, at(103, 0));
    assert_eq!(e.to_string(), "Flow(01234567: 2 packets, 1540 bytes, 2500ms)");
}

#[test]
fn entry_duration_rounds_toward_zero() {
    let mut e = FlowEntry::started_at("abcdefgh".to_string(), at(10, 999_999), true);
    e.timestamp_end = at(10, 1_999_998);
    assert_eq!(e.duration_ms(), 0);
    e.timestamp_end = at(9, 0);
    assert_eq!(e.duration_ms(), (-1000i64) as u64);
    e.timestamp_end = at(10, 0);
    assert_eq!(e.duration_ms(), 0);
}

#[test]
fn new_entry_has_uuid_and_clock_time() {
    let e = FlowEntry::new(false);
    assert_eq!(e.flow_id.len(), 36);
    assert_eq!(e.flow_id.as_bytes()[8], b'-');
    assert!(e.timestamp_start.secs > 1_600_000_000);
    assert_eq!(e.timestamp_start, e.last_activity);
    assert!(!e.is_forward);
}

#[test]
fn exported_record_fields() {
    let key = FlowKey::new(IP1, IP2, 12345, 80, 6);
    let mut entry = FlowEntry::started_at("flow-0001".to_string(), at(0, 0), true);
    entry.update_at(at(1, 500_000_000), 64, Some(0x12));
    let x = ExportedFlow::from_flow(&key, &entry, "node-9");
    assert_eq!(x.flow_id, "flow-0001");
    assert_eq!(x.timestamp_start, "1970-01-01T00:00:00+00:00");
    assert_eq!(x.timestamp_end, "1970-01-01T00:00:01.500+00:00");
    assert_eq!((x.source_port, x.destination_port), (12345, 80));
    assert_eq!((x.packets_forward, x.packets_reverse, x.bytes_forward, x.bytes_reverse), (1, 0, 64, 0));
    assert_eq!(x.duration_ms, 1500);
    assert_eq!(x.tcp_flags, vec!["SYN".to_string(), "ACK".to_string()]);
    assert_eq!(x.sensor_node, "node-9");
    let exporter = FlowExporter::new("edge".to_string());
    let all = exporter.export_flows(&[(key, entry.clone()), (FlowKey::new(IP2, IP3, 1, 2, 17), entry)]);
    assert_eq!(all.len(), 2);
    assert_eq!(all[1].protocol, "UDP");
    assert_eq!(all[1].destination_ip, "10.0.0.3");
    assert_eq!(all[0].sensor_node, "edge");
}

#[test]
fn table_counts_into_existing_flow() {
    let mut table = FlowTable::new(FlowTableConfig { max_flows: 1, ..Default::default() });
    let key = FlowKey::new(IP1, IP2, 1, 2, 6);
    table.update_flow(key, 10, Some(0x02)).unwrap();
    table.update_flow(key, 20, Some(0x10)).unwrap();
    let flows = table.get_active_flows();
    assert_eq!(flows.len(), 1);
    assert_eq!(flows[0].0, key);
    assert_eq!(flows[0].1.packets_forward, 2);
    assert_eq!(flows[0].1.bytes_forward, 30);
    assert!(flows[0].1.tcp_flags.syn && flows[0].1.tcp_flags.ack);
    match table.update_flow(FlowKey::new(IP1, IP3, 1, 2, 6), 1, None) {
        Err(FlowError::TableFull(1)) => {}
        other => panic!("unexpected {:?}", other),
    }
    assert_eq!(table.to_string(), "FlowTable(active=1, max=1)");
    table.clear();
    assert!(table.is_empty());
}

#[test]
fn table_expires_by_inactivity_and_age() {
    let mut table = FlowTable::new(FlowTableConfig { max_flows: 10, inactive_timeout_secs: 30, active_timeout_secs: 300 });
    let a = FlowKey::new(IP1, IP2, 1, 2, 6);
    let b = FlowKey::new(IP1, IP3, 1, 2, 6);
    table.update_flow(a, 1, None).unwrap();
    table.update_flow(b, 1, None).unwrap();
    let start = table.get_active_flows()[0].1.timestamp_start;
    let soon = Timestamp { secs: start.secs + 5, nanos: 0 };
    assert!(table.expire_at(soon).is_empty());
    assert_eq!(table.len(), 2);
    let later = Timestamp { secs: start.secs + 400, nanos: 0 };
    let gone = table.expire_at(later);
    assert_eq!(gone.len(), 2);
    assert!(table.is_empty());
    table.update_flow(a, 1, None).unwrap();
    assert!(table.get_expired_flows().is_empty());
    assert_eq!(table.len(), 1);
}

#[test]
fn flow_error_messages() {
    assert_eq!(FlowError::TableFull(2).to_string(), "Flow table full: max capacity 2");
    assert_eq!(FlowError::NotFound("x".to_string()).to_string(), "Flow not found: x");
    assert_eq!(FlowError::ExportError("y".to_string()).to_string(), "Export error: y");
}

#[test]
fn recorded_flags_name_the_header_flags() {
    let mut data = vec![0u8; 20];
    data[12] = 0x50;
    for b in [0x00u8, 0x02, 0x12, 0x19, 0x3f, 0xc4] {
        data[13] = b;
        let hdr = sentinel::tcp::TcpHeader::parse(&data).unwrap();
        let mut f = TcpFlags::default();
        f.update(b);
        let mut a = hdr.flag_names();
        let mut c = f.to_vec();
        a.sort();
        c.sort();
        assert_eq!(a, c);
    }
}

#[test]
fn mapped_address_reads_as_dotted() {
    let mut v4 = vec![0u8; 20];
    v4[0] = 0x45;
    v4[12..16].copy_from_slice(&[172, 16, 254, 3]);
    let h = sentinel::ip::Ipv4Header::parse(&v4).unwrap();
    let key = FlowKey::new(h.src_ip_to_ipv6(), h.dst_ip_to_ipv6(), 1, 2, 17);
    assert_eq!(key.to_string(), format!("{}:1 -> {}:2 (UDP)", h.src_ip_str(), h.dst_ip_str()));
}

#[test]
fn new_entry_displays() {
    let e = FlowEntry::new(true);
    let text = e.to_string();
    assert_eq!(text, format!("Flow({}: 0 packets, 0 bytes, 0ms)", &e.flow_id[..8]));
}

#[test]
fn table_exports_ended_connections_before_timeouts() {
    let mut table = FlowTable::new(FlowTableConfig { max_flows: 10, inactive_timeout_secs: 30, active_timeout_secs: 300 });
    let a = FlowKey::new(IP1, IP2, 1, 2, 6);
    let b = FlowKey::new(IP1, IP3, 1, 2, 6);
    let c = FlowKey::new(IP2, IP3, 1, 2, 6);
    table.update_flow(a, 1, Some(0x02)).unwrap();
    table.update_flow(a, 1, Some(0x01)).unwrap();
    table.update_flow(b, 1, Some(0x04)).unwrap();
    table.update_flow(c, 1, Some(0x10)).unwrap();
    let start = table.get_active_flows()[0].1.timestamp_start;
    let soon = Timestamp { secs: start.secs + 1, nanos: 0 };
    let gone = table.expire_at(soon);
    assert_eq!(gone.len(), 2);
    assert!(gone.iter().any(|(k, e)| *k == a && e.tcp_flags.fin));
    assert!(gone.iter().any(|(k, e)| *k == b && e.tcp_flags.rst));
    assert_eq!(table.len(), 1);
    assert_eq!(table.get_active_flows()[0].0, c);
}

#[test]
fn entry_display_needs_only_an_ascii_prefix() {
    let e = FlowEntry::started_at("abcdefgh-\u{e9}t\u{e9}".to_string(), at(5, 0), true);
    assert_eq!(e.to_string(), "Flow(abcdefgh: 0 packets, 0 bytes, 0ms)");
}

#[test]
fn exported_record_before_the_epoch() {
    let key = FlowKey::new(IP1, IP2, 1, 2, 17);
    let mut entry = FlowEntry::started_at("early".to_string(), at(-86_400, 0), true);
    entry.update_at(at(-86_399, 250_000_000), 10, None);
    let x = ExportedFlow::from_flow(&key, &entry, "n");
    assert_eq!(x.timestamp_start, "1969-12-31T00:00:00+00:00");
    assert_eq!(x.timestamp_end, "1969-12-31T00:00:01.250+00:00");
    assert_eq!(x.duration_ms, 1250);
    let first = FlowEntry::started_at("first".to_string(), at(-8_334_601_228_800, 0), true);
    let y = ExportedFlow::from_flow(&key, &first, "n");
    assert_eq!(y.timestamp_start, "-262143-01-01T00:00:00+00:00");
}

#[test]
fn key_hash_feeds_the_xxh3_digest() {
    let key = FlowKey::canonical(IP2, IP1, 443, 5000, 6);
    let mut by_key = DefaultHasher::new();
    key.hash(&mut by_key);
    let mut by_digest = DefaultHasher::new();
    by_digest.write_u64(key.hash64());
    assert_eq!(by_key.finish(), by_digest.finish());
    let back = FlowKey::canonical(IP1, IP2, 5000, 443, 6);
    let mut h2 = DefaultHasher::new();
    back.hash(&mut h2);
    assert_eq!(h2.finish(), by_digest.finish());
}

fn sample_export() -> ExportedFlow {
    let key = FlowKey::new(IP1, IP2, 1000, 22, 6);
    let entry = FlowEntry::started_at("flow-rules".to_string(), at(50, 0), true);
    ExportedFlow::from_flow(&key, &entry, "node")
}

fn rule(id: &str) -> Rule {
    Rule::new(RuleConfig {
        id: id.to_string(),
        name: "Port scan".to_string(),
        rule_type: "threshold".to_string(),
        condition: "distinct ports > 100".to_string(),
        severity: "high".to_string(),
    })
}

#[test]
fn detection_engine_holds_rules_and_reports_no_match() {
    let flow = sample_export();
    let empty = DetectionEngine::default();
    assert!(empty.check_flow(&flow).is_empty());
    let mut engine = DetectionEngine::new();
    engine.add_rule(rule("SCAN-001"));
    engine.add_rule(rule("CONN-001"));
    let r = rule("VOL-001");
    assert_eq!(r.config.id, "VOL-001");
    assert!(!r.check(&flow));
    assert!(engine.check_flow(&flow).is_empty());
}
