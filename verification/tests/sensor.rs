use sentinel::capture::{CaptureCounters, FrameOutcome, PacketCapture, PacketTally};
use sentinel::config::{CaptureConfig, SensorConfig};
use sentinel::enrichment::{KubernetesEnricher, PodMetadata};
use std::collections::HashMap;

#[test]
fn test_default_config() {
    let config = SensorConfig::default();
    assert_eq!(config.capture.interface, "eth0");
    assert_eq!(config.flow.max_flows, 100_000);
}

#[test]
fn default_config_values() {
    let c = SensorConfig::default();
    assert_eq!((c.capture.buffer_size, c.capture.snap_len), (4096, 65535));
    assert_eq!((c.flow.inactive_timeout_secs, c.flow.active_timeout_secs), (30, 300));
    assert_eq!(c.output.clickhouse_url, "http://localhost:8123");
    assert_eq!(c.output.clickhouse_database, "sentinel");
    assert_eq!((c.output.batch_size, c.output.batch_timeout_ms), (1000, 1000));
    assert!(c.detection.enabled);
    assert!(c.detection.rules_path.is_none());
    assert!(c.metrics.enabled);
    assert_eq!(c.metrics.port, 9090);
}

#[test]
fn capture_settings_and_display() {
    let cfg = CaptureConfig { interface: "ens5".to_string(), buffer_size: 2048, snap_len: 1500 };
    let cap = PacketCapture::new(&cfg);
    assert_eq!(cap.interface(), "ens5");
    assert_eq!(cap.buffer_size(), 2048);
    assert_eq!(cap.to_string(), "PacketCapture(interface=ens5, buffer=2048, snap_len=1500)");
}

fn udp_frame() -> Vec<u8> {
    let mut data = vec![0u8; 14 + 20 + 8];
    data[12..14].copy_from_slice(&0x0800u16.to_be_bytes());
    data[14] = 0x45;
    data[23] = 17;
    data
}

#[test]
fn capture_counters_forward_and_reject() {
    let mut c = CaptureCounters::new();
    assert!(c.stats_due());
    match c.on_frame(&udp_frame()) {
        FrameOutcome::Forward(p) => assert_eq!(p.payload_len, 0),
        FrameOutcome::Rejected { .. } => panic!("expected a packet"),
    }
    assert_eq!((c.packet_count, c.error_count), (1, 0));
    assert!(!c.stats_due());
    for n in 0..11u64 {
        match c.on_frame(&[0u8; 5]) {
            FrameOutcome::Rejected { packet_number, report, .. } => {
                assert_eq!(packet_number, n + 2);
                assert_eq!(report, n < 10);
            }
            FrameOutcome::Forward(_) => panic!("expected a rejection"),
        }
    }
    assert_eq!((c.packet_count, c.error_count), (12, 11));
    c.packet_count = 10_000;
    assert!(c.stats_due());
}

#[test]
fn packet_tally_counts_bytes_and_logs_first_ten() {
    let mut c = CaptureCounters::new();
    let p = match c.on_frame(&udp_frame()) {
        FrameOutcome::Forward(p) => p,
        FrameOutcome::Rejected { .. } => panic!("expected a packet"),
    };
    let mut t = PacketTally::new();
    for i in 0..12u64 {
        assert_eq!(t.record(&p), i < 10);
    }
    assert_eq!(t.packet_count, 12);
    assert_eq!(t.byte_count, 12 * 42);
}

#[test]
fn enricher_caches_by_address() {
    let mut k = KubernetesEnricher::new();
    assert_eq!(k.cache_size(), 0);
    assert!(k.enrich("10.0.0.1").is_none());
    let mut labels = HashMap::new();
    labels.insert("app".to_string(), "api".to_string());
    let md = PodMetadata {
        name: "api-1".to_string(),
        namespace: "prod".to_string(),
        deployment: Some("api".to_string()),
        service: None,
        labels,
    };
    k.update("10.0.0.1".to_string(), md);
    let got = k.enrich("10.0.0.1").unwrap();
    assert_eq!(got.name, "api-1");
    assert_eq!(got.labels.get("app").map(|s| s.as_str()), Some("api"));
    assert_eq!(k.cache_size(), 1);
    let mut other = got.clone();
    other.name = "api-2".to_string();
    k.update("10.0.0.1".to_string(), other);
    assert_eq!(k.enrich("10.0.0.1").unwrap().name, "api-2");
    assert_eq!(k.cache_size(), 1);
}
