use nvidia_gpu_exporter::encoder::{encode, EncodingError};
use nvidia_gpu_exporter::exporter::Exporter;
use nvidia_gpu_exporter::metrics::{CollectionError, Device, MandatoryField, Metrics, MetricsCollector};
use prometheus::proto::{MetricFamily, MetricType};

const NAMESPACE: &str = "nvidia";

struct FixedCollector {
    outcome: Result<Metrics, CollectionError>,
}

impl MetricsCollector for FixedCollector {
    fn collect(&self) -> Result<Metrics, CollectionError> {
        self.outcome.clone()
    }
}

fn gpu(index: &str, minor: &str, uuid: &str, name: &str) -> Device {
    Device {
        index: index.to_string(),
        minor_number: minor.to_string(),
        name: name.to_string(),
        uuid: uuid.to_string(),
        temperature: 65,
        fan_speed: 75,
        power_usage: 250000,
        power_usage_average: 250000,
        power_limit: Some(320000),
        power_limit_default: Some(320000),
        memory_total: 10737418240,
        memory_used: 5368709120,
        utilization_memory: 50,
        utilization_gpu: 85,
        utilization_gpu_average: 85,
        clock_graphics: Some(1710),
        clock_sm: Some(1710),
        clock_memory: Some(9501),
        clock_graphics_max: Some(1905),
        clock_sm_max: Some(1905),
        clock_memory_max: Some(9501),
        performance_state: Some(2),
        pcie_link_gen: Some(4),
        pcie_link_width: Some(16),
        pcie_tx_throughput: Some(5000),
        pcie_rx_throughput: Some(5000),
        encoder_utilization: Some(15),
        decoder_utilization: Some(10),
        ecc_errors_corrected: None,
        ecc_errors_uncorrected: None,
        compute_processes: Some(3),
        graphics_processes: Some(1),
    }
}

fn snapshot(version: &str, devices: Vec<Device>) -> Result<Metrics, CollectionError> {
    Ok(Metrics { version: version.to_string(), devices })
}

fn names(mfs: &[MetricFamily]) -> Vec<String> {
    mfs.iter().map(|mf| mf.get_name().to_string()).collect()
}

fn family<'a>(mfs: &'a [MetricFamily], suffix: &str) -> &'a MetricFamily {
    let name = format!("{}_{}", NAMESPACE, suffix);
    mfs.iter().find(|mf| mf.get_name() == name).unwrap()
}

/// The samples of a family as (labels, value), sorted.
fn samples(mf: &MetricFamily) -> Vec<(Vec<(String, String)>, f64)> {
    let mut all: Vec<(Vec<(String, String)>, f64)> = mf
        .get_metric()
        .iter()
        .map(|m| {
            let mut labels: Vec<(String, String)> = m
                .get_label()
                .iter()
                .map(|l| (l.get_name().to_string(), l.get_value().to_string()))
                .collect();
            labels.sort();
            (labels, m.get_gauge().get_value())
        })
        .collect();
    all.sort_by(|a, b| a.0.cmp(&b.0));
    all
}

fn minor(value: &str) -> Vec<(String, String)> {
    vec![("minor".to_string(), value.to_string())]
}

const READING_FAMILIES: [&str; 28] = [
    "fanspeed",
    "memory_total",
    "memory_used",
    "power_usage",
    "power_usage_average",
    "temperatures",
    "utilization_gpu",
    "utilization_gpu_average",
    "utilization_memory",
    "clock_graphics_mhz",
    "clock_sm_mhz",
    "clock_memory_mhz",
    "clock_graphics_max_mhz",
    "clock_sm_max_mhz",
    "clock_memory_max_mhz",
    "power_limit_milliwatts",
    "power_limit_default_milliwatts",
    "performance_state",
    "pcie_link_generation",
    "pcie_link_width",
    "pcie_tx_throughput_kb",
    "pcie_rx_throughput_kb",
    "encoder_utilization",
    "decoder_utilization",
    "ecc_errors_corrected_total",
    "ecc_errors_uncorrected_total",
    "compute_processes",
    "graphics_processes",
];

#[test]
fn test_exporter_creation() {
    let mut exporter = Exporter::new();
    let mfs = exporter.gather();
    // Should always have at least the 'up' metric
    assert!(!mfs.is_empty());
}

#[test]
fn test_exporter_default_trait() {
    let mut exporter = Exporter::default();
    let mfs = exporter.gather();
    // Should work the same as new()
    assert!(!mfs.is_empty());
}

#[test]
fn test_exporter_metrics_structure() {
    let mut exporter = Exporter::new();
    let mfs = exporter.gather();

    // Check that we have the expected metric families
    let metric_names: Vec<String> = mfs.iter().map(|mf| mf.get_name().to_string()).collect();

    assert!(metric_names.contains(&format!("{}_up", NAMESPACE)));
    assert!(metric_names.contains(&format!("{}_device_count", NAMESPACE)));
    assert!(metric_names.contains(&format!("{}_driver_info", NAMESPACE)));
}

#[test]
fn test_all_expected_metrics_present() {
    let mut exporter = Exporter::new();
    let mfs = exporter.gather();

    let metric_names: Vec<String> = mfs.iter().map(|mf| mf.get_name().to_string()).collect();

    // Core metrics that should always be present
    let core_metrics = vec![
        format!("{}_up", NAMESPACE),
        format!("{}_device_count", NAMESPACE),
        format!("{}_driver_info", NAMESPACE),
    ];

    for expected in core_metrics {
        assert!(
            metric_names.contains(&expected),
            "Missing core metric: {}",
            expected
        );
    }

    // Get device count to determine if device-specific metrics should be present
    let device_count_metric = mfs
        .iter()
        .find(|mf| mf.get_name() == format!("{}_device_count", NAMESPACE))
        .expect("device_count metric should be present");
    let device_count = if let Some(metric) = device_count_metric.get_metric().first() {
        metric.get_gauge().get_value() as u64
    } else {
        0
    };

    // Device-specific metrics should only be present if there are devices
    if device_count > 0 {
        let device_metrics = vec![
            format!("{}_info", NAMESPACE),
            format!("{}_temperatures", NAMESPACE),
            format!("{}_fanspeed", NAMESPACE),
            format!("{}_memory_total", NAMESPACE),
            format!("{}_memory_used", NAMESPACE),
            format!("{}_utilization_memory", NAMESPACE),
            format!("{}_utilization_gpu", NAMESPACE),
            format!("{}_utilization_gpu_average", NAMESPACE),
            format!("{}_power_usage", NAMESPACE),
            format!("{}_power_usage_average", NAMESPACE),
            format!("{}_power_limit_milliwatts", NAMESPACE),
            format!("{}_power_limit_default_milliwatts", NAMESPACE),
            format!("{}_clock_graphics_mhz", NAMESPACE),
            format!("{}_clock_sm_mhz", NAMESPACE),
            format!("{}_clock_memory_mhz", NAMESPACE),
            format!("{}_clock_graphics_max_mhz", NAMESPACE),
            format!("{}_clock_sm_max_mhz", NAMESPACE),
            format!("{}_clock_memory_max_mhz", NAMESPACE),
            format!("{}_performance_state", NAMESPACE),
            format!("{}_pcie_link_generation", NAMESPACE),
            format!("{}_pcie_link_width", NAMESPACE),
            format!("{}_pcie_tx_throughput_kb", NAMESPACE),
            format!("{}_pcie_rx_throughput_kb", NAMESPACE),
            format!("{}_encoder_utilization", NAMESPACE),
            format!("{}_decoder_utilization", NAMESPACE),
            format!("{}_ecc_errors_corrected_total", NAMESPACE),
            format!("{}_ecc_errors_uncorrected_total", NAMESPACE),
            format!("{}_compute_processes", NAMESPACE),
            format!("{}_graphics_processes", NAMESPACE),
        ];

        for expected in device_metrics {
            assert!(
                metric_names.contains(&expected),
                "Missing device metric: {} (device_count={})",
                expected,
                device_count
            );
        }
    }
}

#[test]
fn test_exporter_clone() {
    let mut exporter1 = Exporter::new();
    let mut exporter2 = exporter1.clone();

    let mfs1 = exporter1.gather();
    let mfs2 = exporter2.gather();

    // Both should produce metrics
    assert!(!mfs1.is_empty());
    assert!(!mfs2.is_empty());

    // Should have the same number of metric families
    assert_eq!(mfs1.len(), mfs2.len());
}

#[test]
fn test_up_metric_on_error() {
    let mut exporter = Exporter::new();

    // First gather - if NVML is not available, up should be 0
    let mfs = exporter.gather();

    // Find the up metric
    let up_metric = mfs.iter().find(|mf| mf.get_name() == format!("{}_up", NAMESPACE));
    assert!(up_metric.is_some(), "up metric should always be present");
}

#[test]
fn test_device_count_metric_always_present() {
    let mut exporter = Exporter::new();
    let mfs = exporter.gather();

    // Find the device_count metric
    let device_count_metric = mfs
        .iter()
        .find(|mf| mf.get_name() == format!("{}_device_count", NAMESPACE));
    assert!(device_count_metric.is_some(), "device_count metric should always be present");

    // Verify it has at least one metric value
    let mf = device_count_metric.unwrap();
    assert!(!mf.get_metric().is_empty(), "device_count should have at least one metric value");

    // Get the actual value
    let metric = &mf.get_metric()[0];
    let value = metric.get_gauge().get_value();

    // Value should be >= 0 (0 if no GPUs or error, positive if GPUs found)
    assert!(value >= 0.0, "device_count should be >= 0, got {}", value);
}

#[test]
fn test_device_count_set_to_zero_on_error() {
    let mut exporter = Exporter::new();
    let mfs = exporter.gather();

    // Find the device_count metric
    let device_count_metric = mfs
        .iter()
        .find(|mf| mf.get_name() == format!("{}_device_count", NAMESPACE))
        .expect("device_count metric should always be present");

    // Find the up metric to determine if there was an error
    let up_metric = mfs
        .iter()
        .find(|mf| mf.get_name() == format!("{}_up", NAMESPACE))
        .expect("up metric should always be present");

    let up_value = up_metric.get_metric()[0].get_gauge().get_value();
    let device_count_value = device_count_metric.get_metric()[0].get_gauge().get_value();

    // If up is 0 (error case), device_count should also be 0
    if up_value == 0.0 {
        assert_eq!(
            device_count_value, 0.0,
            "When up metric is 0 (error), device_count should be 0, got {}",
            device_count_value
        );
    }

    // device_count should always be >= 0 regardless
    assert!(device_count_value >= 0.0, "device_count should always be >= 0");
}

#[test]
fn test_namespace_consistency() {
    let mut exporter = Exporter::new();
    let mfs = exporter.gather();

    // All metrics should have the correct namespace
    for mf in mfs {
        let name = mf.get_name();
        if !name.is_empty() {
            assert!(
                name.starts_with(&format!("{}_", NAMESPACE)),
                "Metric {} doesn't have correct namespace",
                name
            );
        }
    }
}

#[test]
fn test_metric_labels() {
    let mut exporter = Exporter::new();
    let mfs = exporter.gather();

    // Check that device-specific metrics have the expected labels
    let device_metrics = vec![
        "temperatures",
        "power_usage",
        "fanspeed",
        "memory_total",
        "memory_used",
        "utilization_gpu",
        "utilization_memory",
    ];

    for metric_suffix in device_metrics {
        let metric_name = format!("{}_{}", NAMESPACE, metric_suffix);
        if let Some(mf) = mfs.iter().find(|m| m.get_name() == metric_name) {
            // If there are any metrics, they should have the 'minor' label
            for metric in mf.get_metric() {
                let labels: Vec<String> =
                    metric.get_label().iter().map(|l| l.get_name().to_string()).collect();

                if !labels.is_empty() {
                    assert!(
                        labels.contains(&"minor".to_string()),
                        "Metric {} should have 'minor' label",
                        metric_name
                    );
                }
            }
        }
    }
}

#[test]
fn test_new_metrics_structure() {
    let mut exporter = Exporter::new();
    let mfs = exporter.gather();
    let metric_names: Vec<String> = mfs.iter().map(|mf| mf.get_name().to_string()).collect();

    // Get device count to determine if device-specific metrics should be present
    let device_count_metric = mfs
        .iter()
        .find(|mf| mf.get_name() == format!("{}_device_count", NAMESPACE))
        .expect("device_count metric should be present");
    let device_count = if let Some(metric) = device_count_metric.get_metric().first() {
        metric.get_gauge().get_value() as u64
    } else {
        0
    };

    // Device-specific metrics should only be present if there are devices
    if device_count > 0 {
        // Test clock metrics are present
        assert!(metric_names.contains(&format!("{}_clock_graphics_mhz", NAMESPACE)));
        assert!(metric_names.contains(&format!("{}_clock_memory_mhz", NAMESPACE)));

        // Test power limit metrics
        assert!(metric_names.contains(&format!("{}_power_limit_milliwatts", NAMESPACE)));

        // Test PCIe metrics
        assert!(metric_names.contains(&format!("{}_pcie_link_generation", NAMESPACE)));
        assert!(metric_names.contains(&format!("{}_pcie_link_width", NAMESPACE)));

        // Test encoder/decoder metrics
        assert!(metric_names.contains(&format!("{}_encoder_utilization", NAMESPACE)));
        assert!(metric_names.contains(&format!("{}_decoder_utilization", NAMESPACE)));

        // Test ECC metrics
        assert!(metric_names.contains(&format!("{}_ecc_errors_corrected_total", NAMESPACE)));

        // Test process metrics
        assert!(metric_names.contains(&format!("{}_compute_processes", NAMESPACE)));
        assert!(metric_names.contains(&format!("{}_graphics_processes", NAMESPACE)));
    } else {
        // When no devices, these metrics may be filtered out (which is expected)
        // Just verify core metrics are present
        assert!(metric_names.contains(&format!("{}_up", NAMESPACE)));
        assert!(metric_names.contains(&format!("{}_device_count", NAMESPACE)));
        assert!(metric_names.contains(&format!("{}_driver_info", NAMESPACE)));
    }
}

#[test]
fn one_device_is_exported_under_its_labels() {
    let mut exporter = Exporter::new();
    let mut device = gpu("0", "0", "GPU-1", "X");
    device.temperature = 65;
    device.power_usage = 250000;
    let mfs = exporter.export(&snapshot("525.116.04", vec![device]));

    assert_eq!(samples(family(&mfs, "up")), vec![(vec![], 1.0)]);
    assert_eq!(samples(family(&mfs, "device_count")), vec![(vec![], 1.0)]);
    assert_eq!(
        samples(family(&mfs, "driver_info")),
        vec![(vec![("version".to_string(), "525.116.04".to_string())], 1.0)]
    );
    assert_eq!(
        samples(family(&mfs, "info")),
        vec![(
            vec![
                ("index".to_string(), "0".to_string()),
                ("minor".to_string(), "0".to_string()),
                ("name".to_string(), "X".to_string()),
                ("uuid".to_string(), "GPU-1".to_string()),
            ],
            1.0
        )]
    );
    assert_eq!(samples(family(&mfs, "temperatures")), vec![(minor("0"), 65.0)]);
    assert_eq!(samples(family(&mfs, "power_usage")), vec![(minor("0"), 250000.0)]);

    let text = encode(&mfs).unwrap();
    let lines: Vec<&str> = text.lines().collect();
    assert!(lines.contains(&"nvidia_up 1"));
    assert!(lines.contains(&"nvidia_device_count 1"));
    assert!(lines.contains(&"nvidia_driver_info{version=\"525.116.04\"} 1"));
    assert!(lines.contains(&"nvidia_info{index=\"0\",minor=\"0\",name=\"X\",uuid=\"GPU-1\"} 1"));
    assert!(lines.contains(&"nvidia_temperatures{minor=\"0\"} 65"));
    assert!(lines.contains(&"nvidia_power_usage{minor=\"0\"} 250000"));
}

#[test]
fn every_reading_is_exported_with_its_value() {
    let mut exporter = Exporter::new();
    let device = Device {
        index: "0".to_string(),
        minor_number: "7".to_string(),
        name: "n".to_string(),
        uuid: "u".to_string(),
        temperature: 1,
        fan_speed: 2,
        power_usage: 3,
        power_usage_average: 4,
        power_limit: Some(5),
        power_limit_default: Some(6),
        memory_total: 7,
        memory_used: 8,
        utilization_memory: 9,
        utilization_gpu: 10,
        utilization_gpu_average: 11,
        clock_graphics: Some(12),
        clock_sm: Some(13),
        clock_memory: Some(14),
        clock_graphics_max: Some(15),
        clock_sm_max: Some(16),
        clock_memory_max: Some(17),
        performance_state: Some(18),
        pcie_link_gen: Some(19),
        pcie_link_width: Some(20),
        pcie_tx_throughput: Some(21),
        pcie_rx_throughput: Some(22),
        encoder_utilization: Some(23),
        decoder_utilization: Some(24),
        ecc_errors_corrected: Some(25),
        ecc_errors_uncorrected: Some(26),
        compute_processes: Some(27),
        graphics_processes: Some(28),
    };
    let mfs = exporter.export(&snapshot("1", vec![device]));
    let expected = [
        ("temperatures", 1.0),
        ("fanspeed", 2.0),
        ("power_usage", 3.0),
        ("power_usage_average", 4.0),
        ("power_limit_milliwatts", 5.0),
        ("power_limit_default_milliwatts", 6.0),
        ("memory_total", 7.0),
        ("memory_used", 8.0),
        ("utilization_memory", 9.0),
        ("utilization_gpu", 10.0),
        ("utilization_gpu_average", 11.0),
        ("clock_graphics_mhz", 12.0),
        ("clock_sm_mhz", 13.0),
        ("clock_memory_mhz", 14.0),
        ("clock_graphics_max_mhz", 15.0),
        ("clock_sm_max_mhz", 16.0),
        ("clock_memory_max_mhz", 17.0),
        ("performance_state", 18.0),
        ("pcie_link_generation", 19.0),
        ("pcie_link_width", 20.0),
        ("pcie_tx_throughput_kb", 21.0),
        ("pcie_rx_throughput_kb", 22.0),
        ("encoder_utilization", 23.0),
        ("decoder_utilization", 24.0),
        ("ecc_errors_corrected_total", 25.0),
        ("ecc_errors_uncorrected_total", 26.0),
        ("compute_processes", 27.0),
        ("graphics_processes", 28.0),
    ];
    for (suffix, value) in expected {
        assert_eq!(samples(family(&mfs, suffix)), vec![(minor("7"), value)], "{}", suffix);
    }
}

#[test]
fn families_come_in_catalogue_order_with_their_help() {
    let mut exporter = Exporter::new();
    let mfs = exporter.export(&snapshot("1", vec![gpu("0", "0", "u", "n")]));
    let expected = [
        "nvidia_device_count",
        "nvidia_info",
        "nvidia_fanspeed",
        "nvidia_driver_info",
        "nvidia_memory_total",
        "nvidia_memory_used",
        "nvidia_power_usage",
        "nvidia_power_usage_average",
        "nvidia_temperatures",
        "nvidia_up",
        "nvidia_utilization_gpu",
        "nvidia_utilization_gpu_average",
        "nvidia_utilization_memory",
        "nvidia_clock_graphics_mhz",
        "nvidia_clock_sm_mhz",
        "nvidia_clock_memory_mhz",
        "nvidia_clock_graphics_max_mhz",
        "nvidia_clock_sm_max_mhz",
        "nvidia_clock_memory_max_mhz",
        "nvidia_power_limit_milliwatts",
        "nvidia_power_limit_default_milliwatts",
        "nvidia_performance_state",
        "nvidia_pcie_link_generation",
        "nvidia_pcie_link_width",
        "nvidia_pcie_tx_throughput_kb",
        "nvidia_pcie_rx_throughput_kb",
        "nvidia_encoder_utilization",
        "nvidia_decoder_utilization",
        "nvidia_ecc_errors_corrected_total",
        "nvidia_ecc_errors_uncorrected_total",
        "nvidia_compute_processes",
        "nvidia_graphics_processes",
    ];
    assert_eq!(names(&mfs), expected);
    for mf in &mfs {
        assert_eq!(mf.get_field_type(), MetricType::GAUGE);
    }
    assert_eq!(family(&mfs, "up").get_help(), "NVML Metric Collection Operational");
    assert_eq!(family(&mfs, "device_count").get_help(), "Count of found nvidia devices");
    assert_eq!(family(&mfs, "driver_info").get_help(), "NVML Info");
    assert_eq!(family(&mfs, "info").get_help(), "Info as reported by the device");
    assert_eq!(family(&mfs, "temperatures").get_help(), "Temperature as reported by the device");
    assert_eq!(
        family(&mfs, "performance_state").get_help(),
        "Current performance state (P-State: 0-15, lower is better)"
    );
    assert_eq!(
        family(&mfs, "power_usage_average").get_help(),
        "Power usage as reported by the device averaged over 10s"
    );
}

#[test]
fn a_failed_scrape_exports_the_three_process_wide_families_only() {
    let mut exporter = Exporter::new();
    let mfs = exporter.export(&Err(CollectionError::SourceUnavailable));

    assert_eq!(names(&mfs), ["nvidia_device_count", "nvidia_driver_info", "nvidia_up"]);
    assert_eq!(samples(family(&mfs, "up")), vec![(vec![], 0.0)]);
    assert_eq!(samples(family(&mfs, "device_count")), vec![(vec![], 0.0)]);
    assert_eq!(
        samples(family(&mfs, "driver_info")),
        vec![(vec![("version".to_string(), "unavailable".to_string())], 1.0)]
    );

    let text = encode(&mfs).unwrap();
    assert_eq!(
        text,
        "# HELP nvidia_device_count Count of found nvidia devices\n\
         # TYPE nvidia_device_count gauge\n\
         nvidia_device_count 0\n\
         # HELP nvidia_driver_info NVML Info\n\
         # TYPE nvidia_driver_info gauge\n\
         nvidia_driver_info{version=\"unavailable\"} 1\n\
         # HELP nvidia_up NVML Metric Collection Operational\n\
         # TYPE nvidia_up gauge\n\
         nvidia_up 0\n"
    );
}

#[test]
fn a_missing_mandatory_measurement_degrades_the_scrape_like_any_failure() {
    let mut exporter = Exporter::new();
    let failure =
        Err(CollectionError::MandatoryField { device: 1, field: MandatoryField::Temperature });
    let mfs = exporter.export(&failure);
    assert_eq!(names(&mfs), ["nvidia_device_count", "nvidia_driver_info", "nvidia_up"]);
    assert_eq!(samples(family(&mfs, "up")), vec![(vec![], 0.0)]);
}

#[test]
fn a_failed_scrape_after_a_good_one_shows_no_device_series() {
    let mut exporter = Exporter::new();
    let good = exporter.export(&snapshot("525.116.04", vec![gpu("0", "0", "u", "n")]));
    assert_eq!(good.len(), 32);

    let bad = exporter.export(&Err(CollectionError::SourceUnavailable));
    assert_eq!(names(&bad), ["nvidia_device_count", "nvidia_driver_info", "nvidia_up"]);
    assert_eq!(
        samples(family(&bad, "driver_info")),
        vec![(vec![("version".to_string(), "unavailable".to_string())], 1.0)]
    );

    let again = exporter.export(&snapshot("530.30.02", vec![gpu("0", "1", "u", "n")]));
    assert_eq!(again.len(), 32);
    assert_eq!(
        samples(family(&again, "driver_info")),
        vec![(vec![("version".to_string(), "530.30.02".to_string())], 1.0)]
    );
    assert_eq!(samples(family(&again, "temperatures")), vec![(minor("1"), 65.0)]);
}

#[test]
fn a_snapshot_without_devices_exports_the_process_wide_families_only() {
    let mut exporter = Exporter::new();
    let mfs = exporter.export(&snapshot("525.116.04", vec![]));
    assert_eq!(names(&mfs), ["nvidia_device_count", "nvidia_driver_info", "nvidia_up"]);
    assert_eq!(samples(family(&mfs, "up")), vec![(vec![], 1.0)]);
    assert_eq!(samples(family(&mfs, "device_count")), vec![(vec![], 0.0)]);
    assert_eq!(
        samples(family(&mfs, "driver_info")),
        vec![(vec![("version".to_string(), "525.116.04".to_string())], 1.0)]
    );
}

#[test]
fn two_devices_give_two_series_in_every_device_family() {
    let mut exporter = Exporter::new();
    let mut second = gpu("1", "1", "GPU-2", "Y");
    second.memory_used = 1024;
    let mfs = exporter.export(&snapshot("1", vec![gpu("0", "0", "GPU-1", "X"), second]));

    assert_eq!(samples(family(&mfs, "device_count")), vec![(vec![], 2.0)]);
    assert_eq!(
        samples(family(&mfs, "memory_used")),
        vec![(minor("0"), 5368709120.0), (minor("1"), 1024.0)]
    );
    for suffix in READING_FAMILIES {
        let all = samples(family(&mfs, suffix));
        assert_eq!(all.len(), 2, "{}", suffix);
        assert_eq!(all[0].0, minor("0"), "{}", suffix);
        assert_eq!(all[1].0, minor("1"), "{}", suffix);
    }
    assert_eq!(samples(family(&mfs, "info")).len(), 2);
}

#[test]
fn three_devices_give_three_series() {
    let mut exporter = Exporter::new();
    let devices =
        vec![gpu("0", "4", "a", "n"), gpu("1", "2", "b", "n"), gpu("2", "9", "c", "n")];
    let mfs = exporter.export(&snapshot("1", devices));
    assert_eq!(samples(family(&mfs, "device_count")), vec![(vec![], 3.0)]);
    for suffix in READING_FAMILIES {
        let labels: Vec<Vec<(String, String)>> =
            samples(family(&mfs, suffix)).into_iter().map(|s| s.0).collect();
        assert_eq!(labels, vec![minor("2"), minor("4"), minor("9")], "{}", suffix);
    }
}

#[test]
fn an_absent_measurement_is_exported_as_zero() {
    let mut exporter = Exporter::new();
    let mut device = gpu("0", "3", "u", "n");
    device.clock_graphics = None;
    let mfs = exporter.export(&snapshot("1", vec![device]));
    assert_eq!(samples(family(&mfs, "clock_graphics_mhz")), vec![(minor("3"), 0.0)]);
    assert_eq!(samples(family(&mfs, "ecc_errors_corrected_total")), vec![(minor("3"), 0.0)]);
    assert_eq!(samples(family(&mfs, "clock_sm_mhz")), vec![(minor("3"), 1710.0)]);
    let text = encode(&mfs).unwrap();
    assert!(text.lines().any(|l| l == "nvidia_clock_graphics_mhz{minor=\"3\"} 0"));
}

#[test]
fn repeating_a_scrape_gives_the_same_families_and_values() {
    let collector = FixedCollector {
        outcome: snapshot("1", vec![gpu("0", "0", "a", "n"), gpu("1", "1", "b", "n")]),
    };
    let mut exporter = Exporter::new();
    let first = exporter.gather_with(&collector);
    let second = exporter.gather_with(&collector);
    assert_eq!(names(&first), names(&second));
    for (a, b) in first.iter().zip(second.iter()) {
        assert_eq!(a.get_help(), b.get_help());
        assert_eq!(samples(a), samples(b));
    }

    let failing = FixedCollector { outcome: Err(CollectionError::SourceUnavailable) };
    let first = exporter.gather_with(&failing);
    let second = exporter.gather_with(&failing);
    assert_eq!(names(&first), names(&second));
    for (a, b) in first.iter().zip(second.iter()) {
        assert_eq!(samples(a), samples(b));
    }
}

#[test]
fn gather_with_exports_what_the_collector_returns() {
    let collector = FixedCollector { outcome: snapshot("9.9", vec![gpu("0", "5", "a", "n")]) };
    let mut exporter = Exporter::new();
    let mfs = exporter.gather_with(&collector);
    assert_eq!(mfs.len(), 32);
    assert_eq!(samples(family(&mfs, "up")), vec![(vec![], 1.0)]);
    assert_eq!(samples(family(&mfs, "fanspeed")), vec![(minor("5"), 75.0)]);
}

#[test]
fn up_is_always_exported() {
    let mut exporter = Exporter::new();
    let outcomes = vec![
        Err(CollectionError::SourceUnavailable),
        snapshot("1", vec![]),
        snapshot("1", vec![gpu("0", "0", "a", "n")]),
    ];
    for outcome in outcomes {
        let mfs = exporter.export(&outcome);
        assert!(!mfs.is_empty());
        assert!(names(&mfs).contains(&"nvidia_up".to_string()));
    }
}

#[test]
fn a_reading_above_two_to_the_53_is_exported_as_two_to_the_53() {
    let mut exporter = Exporter::new();
    let mut device = gpu("0", "0", "u", "n");
    device.memory_total = u64::MAX;
    device.memory_used = 9007199254740992;
    device.ecc_errors_corrected = Some(9007199254740993);
    device.ecc_errors_uncorrected = Some(9007199254740991);
    let mfs = exporter.export(&snapshot("1", vec![device]));
    assert_eq!(samples(family(&mfs, "memory_total")), vec![(minor("0"), 9007199254740992.0)]);
    assert_eq!(samples(family(&mfs, "memory_used")), vec![(minor("0"), 9007199254740992.0)]);
    assert_eq!(
        samples(family(&mfs, "ecc_errors_corrected_total")),
        vec![(minor("0"), 9007199254740992.0)]
    );
    assert_eq!(
        samples(family(&mfs, "ecc_errors_uncorrected_total")),
        vec![(minor("0"), 9007199254740991.0)]
    );
}

#[test]
fn a_new_registry_and_a_clone_export_alike() {
    let mut first = Exporter::new();
    let mut second = first.clone();
    let outcome = snapshot("1", vec![gpu("0", "0", "a", "n")]);
    let a = first.export(&outcome);
    let b = second.export(&Err(CollectionError::SourceUnavailable));
    // The clone keeps series of its own.
    assert_eq!(a.len(), 32);
    assert_eq!(b.len(), 3);
    let c = second.export(&outcome);
    assert_eq!(names(&a), names(&c));
}

#[test]
fn encoding_refuses_a_family_without_samples() {
    let mut empty = MetricFamily::default();
    empty.set_name("nvidia_temperatures".to_string());
    empty.set_help("Temperature as reported by the device".to_string());
    empty.set_field_type(MetricType::GAUGE);
    let result = encode(&vec![empty]);
    assert!(matches!(result, Err(EncodingError::Serialization { .. })));
}

#[test]
fn encoding_refuses_a_family_without_a_name() {
    let mut exporter = Exporter::new();
    let mut mfs = exporter.export(&Err(CollectionError::SourceUnavailable));
    mfs[1].clear_name();
    let result = encode(&mfs);
    assert!(matches!(result, Err(EncodingError::Serialization { .. })));
}

#[test]
fn encoding_nothing_gives_an_empty_text() {
    assert_eq!(encode(&vec![]).unwrap(), "");
}

#[test]
fn label_values_are_escaped_and_kept_as_utf8() {
    let mut exporter = Exporter::new();
    let mfs = exporter.export(&snapshot("5\"2\\5", vec![gpu("0", "0", "u", "Größe\n")]));
    let text = encode(&mfs).unwrap();
    assert!(text.contains("nvidia_driver_info{version=\"5\\\"2\\\\5\"} 1\n"));
    assert!(text.contains("name=\"Größe\\n\""));
}

#[test]
fn devices_with_the_same_minor_number_share_one_series() {
    let mut exporter = Exporter::new();
    let mut second = gpu("1", "0", "GPU-2", "Y");
    second.temperature = 40;
    let mfs = exporter.export(&snapshot("1", vec![gpu("0", "0", "GPU-1", "X"), second]));
    // The count is that of the devices; the series is the one of the minor
    // number, with the reading of the device recorded last.
    assert_eq!(samples(family(&mfs, "device_count")), vec![(vec![], 2.0)]);
    assert_eq!(samples(family(&mfs, "temperatures")), vec![(minor("0"), 40.0)]);
    assert_eq!(samples(family(&mfs, "info")).len(), 2);
}

#[test]
fn label_values_that_run_together_alike_share_one_series() {
    let mut exporter = Exporter::new();
    let devices = vec![gpu("1", "23", "u", "n"), gpu("12", "3", "u", "n")];
    let mfs = exporter.export(&snapshot("1", devices));
    // "1" then "23" and "12" then "3" are the same bytes in a row, so the
    // identity family files both devices under one key, with the labels of
    // the first.
    assert_eq!(
        samples(family(&mfs, "info")),
        vec![(
            vec![
                ("index".to_string(), "1".to_string()),
                ("minor".to_string(), "23".to_string()),
                ("name".to_string(), "n".to_string()),
                ("uuid".to_string(), "u".to_string()),
            ],
            1.0
        )]
    );
    assert_eq!(samples(family(&mfs, "fanspeed")).len(), 2);
}

#[test]
fn ten_devices_with_minor_numbers_0_to_9_have_a_series_each() {
    let mut exporter = Exporter::new();
    let mut devices = Vec::new();
    for i in 0..10u64 {
        let mut device = gpu(&i.to_string(), &i.to_string(), &format!("GPU-{}", i), "n");
        device.temperature = 30 + i;
        devices.push(device);
    }
    let mfs = exporter.export(&snapshot("1", devices));
    assert_eq!(samples(family(&mfs, "device_count")), vec![(vec![], 10.0)]);
    for suffix in READING_FAMILIES {
        assert_eq!(samples(family(&mfs, suffix)).len(), 10, "{}", suffix);
    }
    let temperatures = samples(family(&mfs, "temperatures"));
    for i in 0..10usize {
        assert_eq!(temperatures[i], (minor(&i.to_string()), 30.0 + i as f64));
    }
    assert_eq!(samples(family(&mfs, "info")).len(), 10);
}

#[test]
fn a_device_keeps_its_series_while_two_others_share_one() {
    let mut exporter = Exporter::new();
    let mut third = gpu("2", "5", "GPU-3", "Z");
    third.clock_graphics = None;
    third.temperature = 41;
    let devices = vec![gpu("0", "0", "GPU-1", "X"), gpu("1", "0", "GPU-2", "Y"), third];
    let mfs = exporter.export(&snapshot("1", devices));
    let temperatures = samples(family(&mfs, "temperatures"));
    assert_eq!(temperatures, vec![(minor("0"), 65.0), (minor("5"), 41.0)]);
    let clocks = samples(family(&mfs, "clock_graphics_mhz"));
    assert!(clocks.contains(&(minor("5"), 0.0)));
}
