//! Sensor configuration, with the defaults that apply when a setting is not given.
use vstd::prelude::*;

verus! {

/// Capture configuration.
#[derive(Debug, Clone)]
pub struct CaptureConfig {
    /// Network interface to capture.
    pub interface: String,
    /// Ring buffer size in frames.
    pub buffer_size: usize,
    /// Maximum packet length to capture.
    pub snap_len: u32,
}

impl Default for CaptureConfig {
    fn default() -> (c: Self)
        ensures
            c.interface@ == "eth0"@,
            c.buffer_size == 4096,
            c.snap_len == 65535,
    {
        CaptureConfig { interface: String::from_str("eth0"), buffer_size: 4096, snap_len: 65535 }
    }
}

/// Flow engine configuration.
#[derive(Debug, Clone, Copy, PartialEq, Eq, Structural)]
pub struct FlowConfig {
    /// Inactive timeout in seconds.
    pub inactive_timeout_secs: u64,
    /// Active timeout in seconds.
    pub active_timeout_secs: u64,
    /// Maximum concurrent flows.
    pub max_flows: usize,
}

impl Default for FlowConfig {
    fn default() -> (c: Self)
        ensures
            c == (FlowConfig { inactive_timeout_secs: 30, active_timeout_secs: 300, max_flows: 100_000 }),
    {
        FlowConfig { inactive_timeout_secs: 30, active_timeout_secs: 300, max_flows: 100_000 }
    }
}

/// Output configuration.
#[derive(Debug, Clone)]
pub struct OutputConfig {
    /// ClickHouse URL.
    pub clickhouse_url: String,
    /// ClickHouse database.
    pub clickhouse_database: String,
    /// Batch size for writes.
    pub batch_size: usize,
    /// Batch timeout in milliseconds.
    pub batch_timeout_ms: u64,
}

impl Default for OutputConfig {
    fn default() -> (c: Self)
        ensures
            c.clickhouse_url@ == "http://localhost:8123"@,
            c.clickhouse_database@ == "sentinel"@,
            c.batch_size == 1000,
            c.batch_timeout_ms == 1000,
    {
        OutputConfig {
            clickhouse_url: String::from_str("http://localhost:8123"),
            clickhouse_database: String::from_str("sentinel"),
            batch_size: 1000,
            batch_timeout_ms: 1000,
        }
    }
}

/// Detection configuration.
#[derive(Debug, Clone)]
pub struct DetectionConfig {
    /// Whether the detection engine runs.
    pub enabled: bool,
    /// Path to detection rules.
    pub rules_path: Option<String>,
}

impl Default for DetectionConfig {
    fn default() -> (c: Self)
        ensures
            c.enabled,
            c.rules_path is None,
    {
        DetectionConfig { enabled: true, rules_path: None }
    }
}

/// Metrics configuration.
#[derive(Debug, Clone, Copy, PartialEq, Eq, Structural)]
pub struct MetricsConfig {
    /// Whether Prometheus metrics are served.
    pub enabled: bool,
    /// Metrics port.
    pub port: u16,
}

impl Default for MetricsConfig {
    fn default() -> (c: Self)
        ensures
            c == (MetricsConfig { enabled: true, port: 9090 }),
    {
        MetricsConfig { enabled: true, port: 9090 }
    }
}

/// Main sensor configuration.
#[derive(Debug, Clone)]
pub struct SensorConfig {
    /// Capture settings.
    pub capture: CaptureConfig,
    /// Flow engine settings.
    pub flow: FlowConfig,
    /// Output settings.
    pub output: OutputConfig,
    /// Detection settings.
    pub detection: DetectionConfig,
    /// Metrics settings.
    pub metrics: MetricsConfig,
}

impl Default for SensorConfig {
    fn default() -> (c: Self)
        ensures
            c.capture.interface@ == "eth0"@,
            c.capture.buffer_size == 4096,
            c.capture.snap_len == 65535,
            c.flow == (FlowConfig { inactive_timeout_secs: 30, active_timeout_secs: 300, max_flows: 100_000 }),
            c.output.clickhouse_url@ == "http://localhost:8123"@,
            c.output.clickhouse_database@ == "sentinel"@,
            c.output.batch_size == 1000,
            c.output.batch_timeout_ms == 1000,
            c.detection.enabled,
            c.detection.rules_path is None,
            c.metrics == (MetricsConfig { enabled: true, port: 9090 }),
    {
        SensorConfig {
            capture: CaptureConfig::default(),
            flow: FlowConfig::default(),
            output: OutputConfig::default(),
            detection: DetectionConfig::default(),
            metrics: MetricsConfig::default(),
        }
    }
}

} // verus!
