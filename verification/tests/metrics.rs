use nvidia_gpu_exporter::metrics::{
    collect_metrics, CollectionError, Device, MandatoryField, Metrics, MetricsCollector,
    NvmlCollector, Quantity, QUANTITY_COUNT,
};
use nvidia_gpu_exporter::readings::{
    decimal_string, DeviceReadings, MemoryReading, UtilizationReading,
};

struct MockMetricsCollector {
    outcome: Result<Metrics, CollectionError>,
}

impl MetricsCollector for MockMetricsCollector {
    fn collect(&self) -> Result<Metrics, CollectionError> {
        self.outcome.clone()
    }
}

fn test_gpu() -> Device {
    Device {
        index: "0".to_string(),
        minor_number: "0".to_string(),
        name: "Test GPU".to_string(),
        uuid: "GPU-12345".to_string(),
        temperature: 50,
        power_usage: 100,
        power_usage_average: 100,
        fan_speed: 50,
        memory_total: 8589934592,
        memory_used: 4294967296,
        utilization_memory: 50,
        utilization_gpu: 75,
        utilization_gpu_average: 75,
        clock_graphics: Some(1500),
        clock_sm: Some(1500),
        clock_memory: Some(7000),
        clock_graphics_max: Some(1800),
        clock_sm_max: Some(1800),
        clock_memory_max: Some(8000),
        power_limit: Some(250000),
        power_limit_default: Some(250000),
        performance_state: Some(0),
        pcie_link_gen: Some(4),
        pcie_link_width: Some(16),
        pcie_tx_throughput: Some(1000),
        pcie_rx_throughput: Some(1000),
        encoder_utilization: Some(0),
        decoder_utilization: Some(0),
        ecc_errors_corrected: Some(0),
        ecc_errors_uncorrected: Some(0),
        compute_processes: Some(2),
        graphics_processes: Some(1),
    }
}

fn full_readings() -> DeviceReadings {
    DeviceReadings {
        uuid: Some("GPU-1".to_string()),
        name: Some("X".to_string()),
        minor_number: Some(3),
        temperature: Some(65),
        power_usage: Some(250000),
        fan_speed: Some(40),
        memory: Some(MemoryReading { total: 10737418240, used: 5368709120 }),
        utilization: Some(UtilizationReading { gpu: 85, memory: 50 }),
        clock_graphics: Some(1710),
        clock_sm: Some(1711),
        clock_memory: Some(9501),
        clock_graphics_max: Some(1905),
        clock_sm_max: Some(1906),
        clock_memory_max: Some(9502),
        power_limit: Some(320000),
        power_limit_default: Some(330000),
        performance_state: Some(2),
        pcie_link_gen: Some(4),
        pcie_link_width: Some(16),
        pcie_tx_throughput: Some(5000),
        pcie_rx_throughput: Some(6000),
        encoder_utilization: Some(15),
        decoder_utilization: Some(10),
        ecc_errors_corrected: Some(7),
        ecc_errors_uncorrected: Some(1),
        compute_processes: Some(3),
        graphics_processes: Some(1),
    }
}

#[test]
#[allow(unused_comparisons)]
fn test_collect_metrics_structure() {
    // This test will only pass if NVML is available
    // It is fine for this to fail on machines without GPUs
    match collect_metrics() {
        Ok(metrics) => {
            assert!(!metrics.version.is_empty());
            // If we have devices, verify their structure
            for device in &metrics.devices {
                assert!(!device.index.is_empty());
                assert!(!device.minor_number.is_empty());
                assert!(!device.name.is_empty());
                assert!(!device.uuid.is_empty());
                // Verify numeric fields are non-negative
                assert!(device.temperature >= 0);
                assert!(device.power_usage >= 0);
                assert!(device.fan_speed >= 0);
                assert!(device.memory_total >= 0);
                assert!(device.memory_used >= 0);
                assert!(device.memory_used <= device.memory_total);
            }
        }
        Err(_) => {
            // NVML not available, skip test
            // This is expected on machines without NVIDIA GPUs
        }
    }
}

#[test]
fn test_device_structure() {
    let device = test_gpu();

    assert_eq!(device.index, "0");
    assert_eq!(device.name, "Test GPU");
    assert!(device.memory_used <= device.memory_total);

    // Verify optional fields
    assert!(device.clock_graphics.is_some());
    assert!(device.power_limit.is_some());
    assert!(device.performance_state.is_some());

    // Verify clock values are reasonable
    if let Some(clock) = device.clock_graphics {
        assert!(clock > 0);
    }
}

#[test]
fn test_metrics_structure() {
    let metrics = Metrics {
        version: "525.116.04".to_string(),
        devices: vec![],
    };

    assert_eq!(metrics.version, "525.116.04");
    assert_eq!(metrics.devices.len(), 0);
}

#[test]
fn test_mock_collector() {
    let mock_collector = MockMetricsCollector {
        outcome: Ok(Metrics {
            version: "525.116.04".to_string(),
            devices: vec![Device {
                index: "0".to_string(),
                minor_number: "0".to_string(),
                name: "NVIDIA GeForce RTX 3080".to_string(),
                uuid: "GPU-12345678-1234-1234-1234-123456789012".to_string(),
                temperature: 65,
                power_usage: 250000,
                power_usage_average: 250000,
                fan_speed: 75,
                memory_total: 10737418240,
                memory_used: 5368709120,
                utilization_memory: 50,
                utilization_gpu: 85,
                utilization_gpu_average: 85,
                clock_graphics: Some(1710),
                clock_sm: Some(1710),
                clock_memory: Some(9501),
                clock_graphics_max: Some(1905),
                clock_sm_max: Some(1905),
                clock_memory_max: Some(9501),
                power_limit: Some(320000),
                power_limit_default: Some(320000),
                performance_state: Some(2),
                pcie_link_gen: Some(4),
                pcie_link_width: Some(16),
                pcie_tx_throughput: Some(5000),
                pcie_rx_throughput: Some(5000),
                encoder_utilization: Some(15),
                decoder_utilization: Some(10),
                ecc_errors_corrected: None,
                ecc_errors_uncorrected: None,
                compute_processes: Some(3),
                graphics_processes: Some(1),
            }],
        }),
    };

    let result = mock_collector.collect();
    assert!(result.is_ok());
    let metrics = result.unwrap();
    assert_eq!(metrics.version, "525.116.04");
    assert_eq!(metrics.devices.len(), 1);
    assert_eq!(metrics.devices[0].name, "NVIDIA GeForce RTX 3080");

    // Verify new metrics are present
    let device = &metrics.devices[0];
    assert!(device.clock_graphics.is_some());
    assert!(device.power_limit.is_some());
    assert!(device.pcie_link_gen.is_some());
    assert_eq!(device.pcie_link_gen, Some(4));
}

#[test]
fn mock_collector_can_fail() {
    let mock_collector = MockMetricsCollector { outcome: Err(CollectionError::SourceUnavailable) };
    assert_eq!(mock_collector.collect().unwrap_err(), CollectionError::SourceUnavailable);
}

#[test]
fn nvml_collector_new_and_default_agree() {
    let a = NvmlCollector::new();
    let b = NvmlCollector::default();
    // Without a driver both fail the same way; with one both succeed.
    assert_eq!(a.collect().is_ok(), b.collect().is_ok());
}

#[test]
fn collecting_without_a_driver_reports_the_source_unavailable() {
    if let Err(e) = collect_metrics() {
        assert!(matches!(
            e,
            CollectionError::SourceUnavailable | CollectionError::MandatoryField { .. }
        ));
    }
}

#[test]
fn well_formed_snapshot_keeps_used_memory_within_total() {
    let mut second = test_gpu();
    second.minor_number = "1".to_string();
    let metrics = Metrics { version: "1".to_string(), devices: vec![test_gpu(), second] };
    assert!(metrics.is_well_formed());
    for device in &metrics.devices {
        assert!(device.memory_used <= device.memory_total);
    }
}

#[test]
fn snapshot_with_more_used_than_total_memory_is_not_well_formed() {
    let mut device = test_gpu();
    device.memory_used = device.memory_total + 1;
    let metrics = Metrics { version: "1".to_string(), devices: vec![device] };
    assert!(!metrics.is_well_formed());
}

#[test]
fn snapshot_with_equal_used_and_total_memory_is_well_formed() {
    let mut device = test_gpu();
    device.memory_used = device.memory_total;
    let metrics = Metrics { version: "1".to_string(), devices: vec![device] };
    assert!(metrics.is_well_formed());
}

#[test]
fn snapshot_with_a_repeated_minor_number_is_not_well_formed() {
    let mut third = test_gpu();
    third.minor_number = "2".to_string();
    let metrics =
        Metrics { version: "1".to_string(), devices: vec![test_gpu(), third, test_gpu()] };
    assert!(!metrics.is_well_formed());
}

#[test]
fn empty_snapshot_is_well_formed() {
    let metrics = Metrics { version: "1".to_string(), devices: vec![] };
    assert!(metrics.is_well_formed());
}

#[test]
fn quantities_are_numbered_in_catalogue_order() {
    assert_eq!(QUANTITY_COUNT, 28);
    assert_eq!(Quantity::from_position(0), Quantity::FanSpeed);
    assert_eq!(Quantity::from_position(5), Quantity::Temperature);
    assert_eq!(Quantity::from_position(6), Quantity::UtilizationGpu);
    assert_eq!(Quantity::from_position(9), Quantity::ClockGraphics);
    assert_eq!(Quantity::from_position(17), Quantity::PerformanceState);
    assert_eq!(Quantity::from_position(27), Quantity::GraphicsProcesses);
    let mut seen = Vec::new();
    for i in 0..QUANTITY_COUNT {
        let q = Quantity::from_position(i);
        assert!(!seen.contains(&q));
        seen.push(q);
    }
}

#[test]
fn value_of_reads_each_quantity() {
    let device = Device {
        index: "0".to_string(),
        minor_number: "0".to_string(),
        name: "n".to_string(),
        uuid: "u".to_string(),
        temperature: 1,
        fan_speed: 2,
        power_usage: 3,
        power_usage_average: 4,
        power_limit: Some(5),
        power_limit_default: Some(6),
        memory_total: 7,
        memory_used: 8,
        utilization_memory: 9,
        utilization_gpu: 10,
        utilization_gpu_average: 11,
        clock_graphics: Some(12),
        clock_sm: Some(13),
        clock_memory: Some(14),
        clock_graphics_max: Some(15),
        clock_sm_max: Some(16),
        clock_memory_max: Some(17),
        performance_state: Some(18),
        pcie_link_gen: Some(19),
        pcie_link_width: Some(20),
        pcie_tx_throughput: Some(21),
        pcie_rx_throughput: Some(22),
        encoder_utilization: Some(23),
        decoder_utilization: Some(24),
        ecc_errors_corrected: Some(25),
        ecc_errors_uncorrected: Some(26),
        compute_processes: Some(27),
        graphics_processes: Some(28),
    };
    assert_eq!(device.value_of(Quantity::Temperature), 1);
    assert_eq!(device.value_of(Quantity::FanSpeed), 2);
    assert_eq!(device.value_of(Quantity::PowerUsage), 3);
    assert_eq!(device.value_of(Quantity::PowerUsageAverage), 4);
    assert_eq!(device.value_of(Quantity::PowerLimit), 5);
    assert_eq!(device.value_of(Quantity::PowerLimitDefault), 6);
    assert_eq!(device.value_of(Quantity::MemoryTotal), 7);
    assert_eq!(device.value_of(Quantity::MemoryUsed), 8);
    assert_eq!(device.value_of(Quantity::UtilizationMemory), 9);
    assert_eq!(device.value_of(Quantity::UtilizationGpu), 10);
    assert_eq!(device.value_of(Quantity::UtilizationGpuAverage), 11);
    assert_eq!(device.value_of(Quantity::ClockGraphics), 12);
    assert_eq!(device.value_of(Quantity::ClockSm), 13);
    assert_eq!(device.value_of(Quantity::ClockMemory), 14);
    assert_eq!(device.value_of(Quantity::ClockGraphicsMax), 15);
    assert_eq!(device.value_of(Quantity::ClockSmMax), 16);
    assert_eq!(device.value_of(Quantity::ClockMemoryMax), 17);
    assert_eq!(device.value_of(Quantity::PerformanceState), 18);
    assert_eq!(device.value_of(Quantity::PcieLinkGen), 19);
    assert_eq!(device.value_of(Quantity::PcieLinkWidth), 20);
    assert_eq!(device.value_of(Quantity::PcieTxThroughput), 21);
    assert_eq!(device.value_of(Quantity::PcieRxThroughput), 22);
    assert_eq!(device.value_of(Quantity::EncoderUtilization), 23);
    assert_eq!(device.value_of(Quantity::DecoderUtilization), 24);
    assert_eq!(device.value_of(Quantity::EccErrorsCorrected), 25);
    assert_eq!(device.value_of(Quantity::EccErrorsUncorrected), 26);
    assert_eq!(device.value_of(Quantity::ComputeProcesses), 27);
    assert_eq!(device.value_of(Quantity::GraphicsProcesses), 28);
}

#[test]
fn value_of_reads_an_absent_measurement_as_zero() {
    let mut device = test_gpu();
    device.clock_graphics = None;
    device.ecc_errors_corrected = None;
    assert_eq!(device.value_of(Quantity::ClockGraphics), 0);
    assert_eq!(device.value_of(Quantity::EccErrorsCorrected), 0);
    assert_eq!(device.value_of(Quantity::ClockSm), 1500);
}

#[test]
fn decimal_string_writes_numbers_without_leading_zeros() {
    assert_eq!(decimal_string(0), "0");
    assert_eq!(decimal_string(7), "7");
    assert_eq!(decimal_string(10), "10");
    assert_eq!(decimal_string(109), "109");
    assert_eq!(decimal_string(4294967295), "4294967295");
}

#[test]
fn complete_readings_make_a_record() {
    let device = Device::from_readings(12, full_readings()).unwrap();
    assert_eq!(device.index, "12");
    assert_eq!(device.minor_number, "3");
    assert_eq!(device.uuid, "GPU-1");
    assert_eq!(device.name, "X");
    assert_eq!(device.temperature, 65);
    assert_eq!(device.fan_speed, 40);
    assert_eq!(device.power_usage, 250000);
    assert_eq!(device.power_usage_average, 250000);
    assert_eq!(device.memory_total, 10737418240);
    assert_eq!(device.memory_used, 5368709120);
    assert_eq!(device.utilization_gpu, 85);
    assert_eq!(device.utilization_gpu_average, 85);
    assert_eq!(device.utilization_memory, 50);
    assert_eq!(device.clock_graphics, Some(1710));
    assert_eq!(device.clock_sm, Some(1711));
    assert_eq!(device.clock_memory, Some(9501));
    assert_eq!(device.clock_graphics_max, Some(1905));
    assert_eq!(device.clock_sm_max, Some(1906));
    assert_eq!(device.clock_memory_max, Some(9502));
    assert_eq!(device.power_limit, Some(320000));
    assert_eq!(device.power_limit_default, Some(330000));
    assert_eq!(device.performance_state, Some(2));
    assert_eq!(device.pcie_link_gen, Some(4));
    assert_eq!(device.pcie_link_width, Some(16));
    assert_eq!(device.pcie_tx_throughput, Some(5000));
    assert_eq!(device.pcie_rx_throughput, Some(6000));
    assert_eq!(device.encoder_utilization, Some(15));
    assert_eq!(device.decoder_utilization, Some(10));
    assert_eq!(device.ecc_errors_corrected, Some(7));
    assert_eq!(device.ecc_errors_uncorrected, Some(1));
    assert_eq!(device.compute_processes, Some(3));
    assert_eq!(device.graphics_processes, Some(1));
}

#[test]
fn failed_optional_queries_leave_measurements_absent() {
    let mut readings = full_readings();
    readings.clock_graphics = None;
    readings.power_limit = None;
    readings.ecc_errors_corrected = None;
    readings.compute_processes = None;
    let device = Device::from_readings(0, readings).unwrap();
    assert_eq!(device.clock_graphics, None);
    assert_eq!(device.power_limit, None);
    assert_eq!(device.ecc_errors_corrected, None);
    assert_eq!(device.compute_processes, None);
    assert_eq!(device.clock_sm, Some(1711));
}

#[test]
fn each_missing_mandatory_measurement_fails_the_record() {
    let missing = |field: MandatoryField| CollectionError::MandatoryField { device: 4, field };

    let mut r = full_readings();
    r.uuid = None;
    assert_eq!(Device::from_readings(4, r).unwrap_err(), missing(MandatoryField::Uuid));

    let mut r = full_readings();
    r.name = None;
    assert_eq!(Device::from_readings(4, r).unwrap_err(), missing(MandatoryField::Name));

    let mut r = full_readings();
    r.minor_number = None;
    assert_eq!(Device::from_readings(4, r).unwrap_err(), missing(MandatoryField::MinorNumber));

    let mut r = full_readings();
    r.temperature = None;
    assert_eq!(Device::from_readings(4, r).unwrap_err(), missing(MandatoryField::Temperature));

    let mut r = full_readings();
    r.power_usage = None;
    assert_eq!(Device::from_readings(4, r).unwrap_err(), missing(MandatoryField::PowerUsage));

    let mut r = full_readings();
    r.fan_speed = None;
    assert_eq!(Device::from_readings(4, r).unwrap_err(), missing(MandatoryField::FanSpeed));

    let mut r = full_readings();
    r.memory = None;
    assert_eq!(Device::from_readings(4, r).unwrap_err(), missing(MandatoryField::Memory));

    let mut r = full_readings();
    r.utilization = None;
    assert_eq!(Device::from_readings(4, r).unwrap_err(), missing(MandatoryField::Utilization));
}

#[test]
fn the_first_missing_mandatory_measurement_is_reported() {
    let mut r = full_readings();
    r.utilization = None;
    r.temperature = None;
    r.memory = None;
    assert_eq!(
        Device::from_readings(0, r).unwrap_err(),
        CollectionError::MandatoryField { device: 0, field: MandatoryField::Temperature }
    );
}

#[test]
fn collection_errors_are_put_in_words() {
    assert_eq!(CollectionError::SourceUnavailable.message(), "NVML unavailable");
    let e = CollectionError::MandatoryField { device: 12, field: MandatoryField::Temperature };
    assert_eq!(e.message(), "device 12: temperature could not be read");
    let e = CollectionError::MandatoryField { device: 0, field: MandatoryField::Memory };
    assert_eq!(e.message(), "device 0: memory_info could not be read");
    assert_eq!(MandatoryField::Uuid.name(), "uuid");
    assert_eq!(MandatoryField::Name.name(), "name");
    assert_eq!(MandatoryField::MinorNumber.name(), "minor_number");
    assert_eq!(MandatoryField::PowerUsage.name(), "power_usage");
    assert_eq!(MandatoryField::FanSpeed.name(), "fan_speed");
    assert_eq!(MandatoryField::Utilization.name(), "utilization_rates");
}

#[test]
fn complete_readings_of_every_device_make_a_snapshot() {
    let mut second = full_readings();
    second.minor_number = Some(9);
    second.uuid = Some("GPU-2".to_string());
    let metrics =
        Metrics::from_readings("525.116.04".to_string(), vec![full_readings(), second]).unwrap();
    assert_eq!(metrics.version, "525.116.04");
    assert_eq!(metrics.devices.len(), 2);
    assert_eq!(metrics.devices[0].index, "0");
    assert_eq!(metrics.devices[0].minor_number, "3");
    assert_eq!(metrics.devices[0].uuid, "GPU-1");
    assert_eq!(metrics.devices[1].index, "1");
    assert_eq!(metrics.devices[1].minor_number, "9");
    assert_eq!(metrics.devices[1].uuid, "GPU-2");
    assert_eq!(metrics.devices[1].temperature, 65);
}

#[test]
fn no_devices_make_an_empty_snapshot() {
    let metrics = Metrics::from_readings("1".to_string(), vec![]).unwrap();
    assert_eq!(metrics.version, "1");
    assert!(metrics.devices.is_empty());
}

#[test]
fn one_device_without_a_mandatory_measurement_abandons_the_scrape() {
    let mut second = full_readings();
    second.temperature = None;
    let outcome =
        Metrics::from_readings("1".to_string(), vec![full_readings(), second, full_readings()]);
    assert_eq!(
        outcome.unwrap_err(),
        CollectionError::MandatoryField { device: 1, field: MandatoryField::Temperature }
    );
}

#[test]
fn the_first_device_that_fails_is_the_one_reported() {
    let mut first = full_readings();
    first.utilization = None;
    let mut last = full_readings();
    last.uuid = None;
    let outcome = Metrics::from_readings("1".to_string(), vec![first, full_readings(), last]);
    assert_eq!(
        outcome.unwrap_err(),
        CollectionError::MandatoryField { device: 0, field: MandatoryField::Utilization }
    );
}

#[test]
fn a_device_without_optional_measurements_stays_in_the_snapshot() {
    let mut second = full_readings();
    second.clock_graphics = None;
    second.ecc_errors_corrected = None;
    second.graphics_processes = None;
    let metrics = Metrics::from_readings("1".to_string(), vec![full_readings(), second]).unwrap();
    assert_eq!(metrics.devices.len(), 2);
    assert_eq!(metrics.devices[1].clock_graphics, None);
    assert_eq!(metrics.devices[1].graphics_processes, None);
    assert_eq!(metrics.devices[1].clock_sm, Some(1711));
}

#[test]
fn readings_are_complete_when_no_mandatory_measurement_is_missing() {
    assert!(full_readings().is_complete());
    let mut r = full_readings();
    r.clock_graphics = None;
    r.power_limit = None;
    assert!(r.is_complete());
    let mut r = full_readings();
    r.fan_speed = None;
    assert!(!r.is_complete());
    let mut r = full_readings();
    r.uuid = None;
    assert!(!r.is_complete());
    let mut r = full_readings();
    r.utilization = None;
    assert!(!r.is_complete());
}

#[test]
fn a_failed_query_that_a_scrape_needs_makes_the_source_unavailable() {
    assert_eq!(CollectionError::require(Some(4u32)), Ok(4));
    assert_eq!(
        CollectionError::require(Some("525.116.04".to_string())),
        Ok("525.116.04".to_string())
    );
    assert_eq!(CollectionError::require(None::<u32>), Err(CollectionError::SourceUnavailable));
}
