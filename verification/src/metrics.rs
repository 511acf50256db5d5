//! The telemetry data model: one snapshot per scrape, one record per GPU.
//!
//! Readings are whole numbers in the units the hardware reports them in
//! (degrees Celsius, milliwatts, bytes, percent, MHz, KB/s, counts).

use crate::nvml;
use crate::readings::{decimal, decimal_string, DeviceReadings};
use vstd::prelude::*;

verus! {

/// Everything read from one GPU during one scrape.
///
/// The four identity fields label the exported series. Measurements that every
/// enumerated device has are plain numbers; measurements that depend on a
/// capability of the device or driver are `None` where the capability is
/// missing, which is not the same thing as a reading of zero.
#[derive(Debug, Clone)]
pub struct Device {
    /// Position in the enumeration, in decimal ("0", "1", ...).
    pub index: String,
    /// Minor device number, as in `/dev/nvidia{minor}`; the label of every per-device series.
    pub minor_number: String,
    /// Model name, for example "NVIDIA GeForce RTX 3080".
    pub name: String,
    /// Unique identifier of the GPU.
    pub uuid: String,
    /// Temperature in degrees Celsius.
    pub temperature: u64,
    /// Fan speed in percent.
    pub fan_speed: u64,
    /// Power draw in milliwatts.
    pub power_usage: u64,
    /// Power draw in milliwatts; the same instantaneous reading as `power_usage`.
    pub power_usage_average: u64,
    /// Power management limit in milliwatts.
    pub power_limit: Option<u64>,
    /// Default power management limit in milliwatts.
    pub power_limit_default: Option<u64>,
    /// Total memory in bytes.
    pub memory_total: u64,
    /// Used memory in bytes.
    pub memory_used: u64,
    /// Memory utilization in percent.
    pub utilization_memory: u64,
    /// GPU utilization in percent.
    pub utilization_gpu: u64,
    /// GPU utilization in percent; the same instantaneous reading as `utilization_gpu`.
    pub utilization_gpu_average: u64,
    /// Graphics clock in MHz.
    pub clock_graphics: Option<u64>,
    /// Streaming multiprocessor clock in MHz.
    pub clock_sm: Option<u64>,
    /// Memory clock in MHz.
    pub clock_memory: Option<u64>,
    /// Highest graphics clock in MHz.
    pub clock_graphics_max: Option<u64>,
    /// Highest streaming multiprocessor clock in MHz.
    pub clock_sm_max: Option<u64>,
    /// Highest memory clock in MHz.
    pub clock_memory_max: Option<u64>,
    /// P-state, 0 (highest performance) to 15.
    pub performance_state: Option<u64>,
    /// PCIe link generation.
    pub pcie_link_gen: Option<u64>,
    /// PCIe link width in lanes.
    pub pcie_link_width: Option<u64>,
    /// PCIe transmit throughput in KB/s.
    pub pcie_tx_throughput: Option<u64>,
    /// PCIe receive throughput in KB/s.
    pub pcie_rx_throughput: Option<u64>,
    /// Video encoder utilization in percent.
    pub encoder_utilization: Option<u64>,
    /// Video decoder utilization in percent.
    pub decoder_utilization: Option<u64>,
    /// Corrected ECC errors over the lifetime of the GPU.
    pub ecc_errors_corrected: Option<u64>,
    /// Uncorrected ECC errors over the lifetime of the GPU.
    pub ecc_errors_uncorrected: Option<u64>,
    /// Number of compute processes running on the GPU.
    pub compute_processes: Option<u64>,
    /// Number of graphics processes running on the GPU.
    pub graphics_processes: Option<u64>,
}

/// One complete scrape: the driver version and the devices in enumeration order.
#[derive(Debug, Clone)]
pub struct Metrics {
    /// Version of the NVIDIA driver.
    pub version: String,
    /// The GPUs, in the order the driver enumerates them.
    pub devices: Vec<Device>,
}

/// A measurement that every enumerated device must deliver.
#[derive(Debug, Clone, Copy, PartialEq, Eq, Structural)]
pub enum MandatoryField {
    Uuid,
    Name,
    MinorNumber,
    Temperature,
    PowerUsage,
    FanSpeed,
    Memory,
    Utilization,
}

/// Why a scrape produced no snapshot.
#[derive(Debug, Clone, Copy, PartialEq, Eq, Structural)]
pub enum CollectionError {
    /// The driver library could not be initialised, or the driver version,
    /// the number of devices or a device handle could not be had.
    SourceUnavailable,
    /// A device did not deliver a mandatory measurement. One such failure
    /// abandons the whole scrape.
    MandatoryField { device: u32, field: MandatoryField },
}

impl MandatoryField {
    /// The name of the measurement, as in the device record.
    pub open spec fn label(self) -> Seq<char> {
        match self {
            MandatoryField::Uuid => "uuid"@,
            MandatoryField::Name => "name"@,
            MandatoryField::MinorNumber => "minor_number"@,
            MandatoryField::Temperature => "temperature"@,
            MandatoryField::PowerUsage => "power_usage"@,
            MandatoryField::FanSpeed => "fan_speed"@,
            MandatoryField::Memory => "memory_info"@,
            MandatoryField::Utilization => "utilization_rates"@,
        }
    }

    /// The name of the measurement, as in the device record.
    pub fn name(self) -> (r: &'static str)
        ensures
            r@ == self.label(),
    {
        match self {
            MandatoryField::Uuid => "uuid",
            MandatoryField::Name => "name",
            MandatoryField::MinorNumber => "minor_number",
            MandatoryField::Temperature => "temperature",
            MandatoryField::PowerUsage => "power_usage",
            MandatoryField::FanSpeed => "fan_speed",
            MandatoryField::Memory => "memory_info",
            MandatoryField::Utilization => "utilization_rates",
        }
    }
}

impl CollectionError {
    /// The error in words.
    pub open spec fn text(self) -> Seq<char> {
        match self {
            CollectionError::SourceUnavailable => "NVML unavailable"@,
            CollectionError::MandatoryField { device, field } => "device "@ + decimal(
                device as nat,
            ) + ": "@ + field.label() + " could not be read"@,
        }
    }

    /// The answer to a query that a scrape cannot go on without, or
    /// `SourceUnavailable` where the query failed.
    pub fn require<T>(answer: Option<T>) -> (r: Result<T, CollectionError>)
        ensures
            match answer {
                Some(value) => r matches Ok(v) && v == value,
                None => r matches Err(e) && e == CollectionError::SourceUnavailable,
            },
    {
        match answer {
            Some(value) => Ok(value),
            None => Err(CollectionError::SourceUnavailable),
        }
    }

    /// The error in words, for a log line.
    pub fn message(&self) -> (r: String)
        ensures
            r@ == self.text(),
    {
        match self {
            CollectionError::SourceUnavailable => String::from_str("NVML unavailable"),
            CollectionError::MandatoryField { device, field } => {
                let mut r = String::from_str("device ");
                r.append(decimal_string(*device).as_str());
                r.append(": ");
                r.append(field.name());
                r.append(" could not be read");
                r
            },
        }
    }
}

/// A measured quantity that is exported as one series per device.
#[derive(Debug, Clone, Copy, PartialEq, Eq, Structural)]
pub enum Quantity {
    FanSpeed,
    MemoryTotal,
    MemoryUsed,
    PowerUsage,
    PowerUsageAverage,
    Temperature,
    UtilizationGpu,
    UtilizationGpuAverage,
    UtilizationMemory,
    ClockGraphics,
    ClockSm,
    ClockMemory,
    ClockGraphicsMax,
    ClockSmMax,
    ClockMemoryMax,
    PowerLimit,
    PowerLimitDefault,
    PerformanceState,
    PcieLinkGen,
    PcieLinkWidth,
    PcieTxThroughput,
    PcieRxThroughput,
    EncoderUtilization,
    DecoderUtilization,
    EccErrorsCorrected,
    EccErrorsUncorrected,
    ComputeProcesses,
    GraphicsProcesses,
}

/// The number of quantities.
pub const QUANTITY_COUNT: usize = 28;

/// What an absent optional measurement counts as when it is exported.
pub open spec fn or_zero(reading: Option<u64>) -> int {
    match reading {
        Some(v) => v as int,
        None => 0,
    }
}

fn present_or_zero(reading: Option<u64>) -> (r: u64)
    ensures
        r == or_zero(reading),
{
    match reading {
        Some(v) => v,
        None => 0,
    }
}

impl Quantity {
    /// The quantity at position `i` of the catalogue, for `i` below `QUANTITY_COUNT`.
    pub open spec fn at(i: int) -> Quantity {
        if i == 0 {
            Quantity::FanSpeed
        } else if i == 1 {
            Quantity::MemoryTotal
        } else if i == 2 {
            Quantity::MemoryUsed
        } else if i == 3 {
            Quantity::PowerUsage
        } else if i == 4 {
            Quantity::PowerUsageAverage
        } else if i == 5 {
            Quantity::Temperature
        } else if i == 6 {
            Quantity::UtilizationGpu
        } else if i == 7 {
            Quantity::UtilizationGpuAverage
        } else if i == 8 {
            Quantity::UtilizationMemory
        } else if i == 9 {
            Quantity::ClockGraphics
        } else if i == 10 {
            Quantity::ClockSm
        } else if i == 11 {
            Quantity::ClockMemory
        } else if i == 12 {
            Quantity::ClockGraphicsMax
        } else if i == 13 {
            Quantity::ClockSmMax
        } else if i == 14 {
            Quantity::ClockMemoryMax
        } else if i == 15 {
            Quantity::PowerLimit
        } else if i == 16 {
            Quantity::PowerLimitDefault
        } else if i == 17 {
            Quantity::PerformanceState
        } else if i == 18 {
            Quantity::PcieLinkGen
        } else if i == 19 {
            Quantity::PcieLinkWidth
        } else if i == 20 {
            Quantity::PcieTxThroughput
        } else if i == 21 {
            Quantity::PcieRxThroughput
        } else if i == 22 {
            Quantity::EncoderUtilization
        } else if i == 23 {
            Quantity::DecoderUtilization
        } else if i == 24 {
            Quantity::EccErrorsCorrected
        } else if i == 25 {
            Quantity::EccErrorsUncorrected
        } else if i == 26 {
            Quantity::ComputeProcesses
        } else {
            Quantity::GraphicsProcesses
        }
    }

    /// The position of this quantity in the catalogue.
    pub open spec fn position(self) -> int {
        match self {
            Quantity::FanSpeed => 0,
            Quantity::MemoryTotal => 1,
            Quantity::MemoryUsed => 2,
            Quantity::PowerUsage => 3,
            Quantity::PowerUsageAverage => 4,
            Quantity::Temperature => 5,
            Quantity::UtilizationGpu => 6,
            Quantity::UtilizationGpuAverage => 7,
            Quantity::UtilizationMemory => 8,
            Quantity::ClockGraphics => 9,
            Quantity::ClockSm => 10,
            Quantity::ClockMemory => 11,
            Quantity::ClockGraphicsMax => 12,
            Quantity::ClockSmMax => 13,
            Quantity::ClockMemoryMax => 14,
            Quantity::PowerLimit => 15,
            Quantity::PowerLimitDefault => 16,
            Quantity::PerformanceState => 17,
            Quantity::PcieLinkGen => 18,
            Quantity::PcieLinkWidth => 19,
            Quantity::PcieTxThroughput => 20,
            Quantity::PcieRxThroughput => 21,
            Quantity::EncoderUtilization => 22,
            Quantity::DecoderUtilization => 23,
            Quantity::EccErrorsCorrected => 24,
            Quantity::EccErrorsUncorrected => 25,
            Quantity::ComputeProcesses => 26,
            Quantity::GraphicsProcesses => 27,
        }
    }

    /// The quantity at position `i` of the catalogue.
    pub fn from_position(i: usize) -> (q: Quantity)
        requires
            i < QUANTITY_COUNT,
        ensures
            q == Quantity::at(i as int),
            q.position() == i,
    {
        if i == 0 {
            Quantity::FanSpeed
        } else if i == 1 {
            Quantity::MemoryTotal
        } else if i == 2 {
            Quantity::MemoryUsed
        } else if i == 3 {
            Quantity::PowerUsage
        } else if i == 4 {
            Quantity::PowerUsageAverage
        } else if i == 5 {
            Quantity::Temperature
        } else if i == 6 {
            Quantity::UtilizationGpu
        } else if i == 7 {
            Quantity::UtilizationGpuAverage
        } else if i == 8 {
            Quantity::UtilizationMemory
        } else if i == 9 {
            Quantity::ClockGraphics
        } else if i == 10 {
            Quantity::ClockSm
        } else if i == 11 {
            Quantity::ClockMemory
        } else if i == 12 {
            Quantity::ClockGraphicsMax
        } else if i == 13 {
            Quantity::ClockSmMax
        } else if i == 14 {
            Quantity::ClockMemoryMax
        } else if i == 15 {
            Quantity::PowerLimit
        } else if i == 16 {
            Quantity::PowerLimitDefault
        } else if i == 17 {
            Quantity::PerformanceState
        } else if i == 18 {
            Quantity::PcieLinkGen
        } else if i == 19 {
            Quantity::PcieLinkWidth
        } else if i == 20 {
            Quantity::PcieTxThroughput
        } else if i == 21 {
            Quantity::PcieRxThroughput
        } else if i == 22 {
            Quantity::EncoderUtilization
        } else if i == 23 {
            Quantity::DecoderUtilization
        } else if i == 24 {
            Quantity::EccErrorsCorrected
        } else if i == 25 {
            Quantity::EccErrorsUncorrected
        } else if i == 26 {
            Quantity::ComputeProcesses
        } else {
            Quantity::GraphicsProcesses
        }
    }
}

impl Device {
    /// The reading of quantity `q`, with an absent optional measurement counted as zero.
    pub open spec fn reading(&self, q: Quantity) -> int {
        match q {
            Quantity::FanSpeed => self.fan_speed as int,
            Quantity::MemoryTotal => self.memory_total as int,
            Quantity::MemoryUsed => self.memory_used as int,
            Quantity::PowerUsage => self.power_usage as int,
            Quantity::PowerUsageAverage => self.power_usage_average as int,
            Quantity::Temperature => self.temperature as int,
            Quantity::UtilizationGpu => self.utilization_gpu as int,
            Quantity::UtilizationGpuAverage => self.utilization_gpu_average as int,
            Quantity::UtilizationMemory => self.utilization_memory as int,
            Quantity::ClockGraphics => or_zero(self.clock_graphics),
            Quantity::ClockSm => or_zero(self.clock_sm),
            Quantity::ClockMemory => or_zero(self.clock_memory),
            Quantity::ClockGraphicsMax => or_zero(self.clock_graphics_max),
            Quantity::ClockSmMax => or_zero(self.clock_sm_max),
            Quantity::ClockMemoryMax => or_zero(self.clock_memory_max),
            Quantity::PowerLimit => or_zero(self.power_limit),
            Quantity::PowerLimitDefault => or_zero(self.power_limit_default),
            Quantity::PerformanceState => or_zero(self.performance_state),
            Quantity::PcieLinkGen => or_zero(self.pcie_link_gen),
            Quantity::PcieLinkWidth => or_zero(self.pcie_link_width),
            Quantity::PcieTxThroughput => or_zero(self.pcie_tx_throughput),
            Quantity::PcieRxThroughput => or_zero(self.pcie_rx_throughput),
            Quantity::EncoderUtilization => or_zero(self.encoder_utilization),
            Quantity::DecoderUtilization => or_zero(self.decoder_utilization),
            Quantity::EccErrorsCorrected => or_zero(self.ecc_errors_corrected),
            Quantity::EccErrorsUncorrected => or_zero(self.ecc_errors_uncorrected),
            Quantity::ComputeProcesses => or_zero(self.compute_processes),
            Quantity::GraphicsProcesses => or_zero(self.graphics_processes),
        }
    }

    /// The record lacks the measurement of quantity `q`. Only optional
    /// measurements can be lacking.
    pub open spec fn lacks(&self, q: Quantity) -> bool {
        match q {
            Quantity::ClockGraphics => self.clock_graphics is None,
            Quantity::ClockSm => self.clock_sm is None,
            Quantity::ClockMemory => self.clock_memory is None,
            Quantity::ClockGraphicsMax => self.clock_graphics_max is None,
            Quantity::ClockSmMax => self.clock_sm_max is None,
            Quantity::ClockMemoryMax => self.clock_memory_max is None,
            Quantity::PowerLimit => self.power_limit is None,
            Quantity::PowerLimitDefault => self.power_limit_default is None,
            Quantity::PerformanceState => self.performance_state is None,
            Quantity::PcieLinkGen => self.pcie_link_gen is None,
            Quantity::PcieLinkWidth => self.pcie_link_width is None,
            Quantity::PcieTxThroughput => self.pcie_tx_throughput is None,
            Quantity::PcieRxThroughput => self.pcie_rx_throughput is None,
            Quantity::EncoderUtilization => self.encoder_utilization is None,
            Quantity::DecoderUtilization => self.decoder_utilization is None,
            Quantity::EccErrorsCorrected => self.ecc_errors_corrected is None,
            Quantity::EccErrorsUncorrected => self.ecc_errors_uncorrected is None,
            Quantity::ComputeProcesses => self.compute_processes is None,
            Quantity::GraphicsProcesses => self.graphics_processes is None,
            _ => false,
        }
    }

    /// Reads quantity `q` off this record; an absent optional measurement reads as zero.
    pub fn value_of(&self, q: Quantity) -> (v: u64)
        ensures
            v == self.reading(q),
    {
        match q {
            Quantity::FanSpeed => self.fan_speed,
            Quantity::MemoryTotal => self.memory_total,
            Quantity::MemoryUsed => self.memory_used,
            Quantity::PowerUsage => self.power_usage,
            Quantity::PowerUsageAverage => self.power_usage_average,
            Quantity::Temperature => self.temperature,
            Quantity::UtilizationGpu => self.utilization_gpu,
            Quantity::UtilizationGpuAverage => self.utilization_gpu_average,
            Quantity::UtilizationMemory => self.utilization_memory,
            Quantity::ClockGraphics => present_or_zero(self.clock_graphics),
            Quantity::ClockSm => present_or_zero(self.clock_sm),
            Quantity::ClockMemory => present_or_zero(self.clock_memory),
            Quantity::ClockGraphicsMax => present_or_zero(self.clock_graphics_max),
            Quantity::ClockSmMax => present_or_zero(self.clock_sm_max),
            Quantity::ClockMemoryMax => present_or_zero(self.clock_memory_max),
            Quantity::PowerLimit => present_or_zero(self.power_limit),
            Quantity::PowerLimitDefault => present_or_zero(self.power_limit_default),
            Quantity::PerformanceState => present_or_zero(self.performance_state),
            Quantity::PcieLinkGen => present_or_zero(self.pcie_link_gen),
            Quantity::PcieLinkWidth => present_or_zero(self.pcie_link_width),
            Quantity::PcieTxThroughput => present_or_zero(self.pcie_tx_throughput),
            Quantity::PcieRxThroughput => present_or_zero(self.pcie_rx_throughput),
            Quantity::EncoderUtilization => present_or_zero(self.encoder_utilization),
            Quantity::DecoderUtilization => present_or_zero(self.decoder_utilization),
            Quantity::EccErrorsCorrected => present_or_zero(self.ecc_errors_corrected),
            Quantity::EccErrorsUncorrected => present_or_zero(self.ecc_errors_uncorrected),
            Quantity::ComputeProcesses => present_or_zero(self.compute_processes),
            Quantity::GraphicsProcesses => present_or_zero(self.graphics_processes),
        }
    }
}

/// Every device delivered every mandatory measurement.
pub open spec fn all_complete(readings: Seq<DeviceReadings>) -> bool {
    forall|i: int| 0 <= i < readings.len() ==> (#[trigger] readings[i]).first_missing() is None
}

/// The scrape whose devices returned `readings`, in enumeration order, is
/// abandoned with `error`: the error of the first device that lacks a
/// mandatory measurement.
pub open spec fn abandoned_with(readings: Seq<DeviceReadings>, error: CollectionError) -> bool {
    exists|i: int|
        {
            &&& 0 <= i < readings.len()
            &&& (#[trigger] readings[i]).first_missing() is Some
            &&& forall|j: int| 0 <= j < i ==> (#[trigger] readings[j]).first_missing() is None
            &&& error == (CollectionError::MandatoryField {
                device: i as u32,
                field: readings[i].first_missing()->0,
            })
        }
}

impl Metrics {
    /// This snapshot is the one made of a driver version and of what the
    /// devices returned, in enumeration order: one record per device, at its
    /// position.
    pub open spec fn is_snapshot_of(
        &self,
        version: Seq<char>,
        readings: Seq<DeviceReadings>,
    ) -> bool {
        &&& self.version@ == version
        &&& self.devices@.len() == readings.len()
        &&& forall|i: int|
            0 <= i < readings.len() ==> (#[trigger] self.devices@[i]).is_record_of(
                i as u32,
                readings[i],
            )
    }

    /// Makes the snapshot of one scrape from the driver version and from what
    /// the queries of each device returned, in enumeration order.
    ///
    /// All or nothing: the snapshot exists exactly if every device delivered
    /// every mandatory measurement. Otherwise the whole scrape is abandoned
    /// with the error of the first device that did not; no device is skipped.
    pub fn from_readings(version: String, readings: Vec<DeviceReadings>) -> (r: Result<
        Metrics,
        CollectionError,
    >)
        requires
            readings@.len() <= u32::MAX,
        ensures
            r is Ok <==> all_complete(readings@),
            match r {
                Ok(m) => m.is_snapshot_of(version@, readings@),
                Err(e) => abandoned_with(readings@, e),
            },
    {
        let ghost all = readings@;
        let mut devices: Vec<Device> = Vec::new();
        let mut index: u32 = 0;
        for one in it: readings
            invariant
                all.len() <= u32::MAX,
                it.seq() == all,
                index == it.index(),
                devices@.len() == index,
                forall|i: int|
                    0 <= i < index ==> (#[trigger] devices@[i]).is_record_of(i as u32, all[i]),
                forall|j: int| 0 <= j < index ==> (#[trigger] all[j]).first_missing() is None,
        {
            match Device::from_readings(index, one) {
                Ok(device) => {
                    devices.push(device);
                },
                Err(e) => {
                    assert(all[index as int].first_missing() is Some);
                    return Err(e);
                },
            }
            index += 1;
        }
        Ok(Metrics { version, devices })
    }

    /// A snapshot is well formed when no device uses more memory than it has and
    /// no two devices share a minor number.
    pub open spec fn well_formed(&self) -> bool {
        &&& forall|i: int|
            0 <= i < self.devices@.len() ==> (#[trigger] self.devices@[i]).memory_used
                <= self.devices@[i].memory_total
        &&& forall|i: int, j: int|
            0 <= i < j < self.devices@.len() ==> (#[trigger] self.devices@[i]).minor_number@ != (
            #[trigger] self.devices@[j]).minor_number@
    }

    /// Tells whether the snapshot is well formed.
    pub fn is_well_formed(&self) -> (ok: bool)
        ensures
            ok == self.well_formed(),
    {
        let n = self.devices.len();
        let mut i: usize = 0;
        while i < n
            invariant
                n == self.devices@.len(),
                i <= n,
                forall|a: int|
                    0 <= a < i ==> (#[trigger] self.devices@[a]).memory_used
                        <= self.devices@[a].memory_total,
                forall|a: int, b: int|
                    0 <= a < b < self.devices@.len() && a < i ==> (
                    #[trigger] self.devices@[a]).minor_number@ != (
                    #[trigger] self.devices@[b]).minor_number@,
            decreases n - i,
        {
            if self.devices[i].memory_used > self.devices[i].memory_total {
                return false;
            }
            let mut j: usize = i + 1;
            while j < n
                invariant
                    n == self.devices@.len(),
                    i < j <= n,
                    forall|b: int|
                        i < b < j ==> self.devices@[i as int].minor_number@ != (
                        #[trigger] self.devices@[b]).minor_number@,
                decreases n - j,
            {
                if self.devices[i].minor_number == self.devices[j].minor_number {
                    return false;
                }
                j += 1;
            }
            i += 1;
        }
        true
    }
}

/// In a well-formed snapshot no device uses more memory than it has.
pub proof fn lemma_memory_within_total(m: Metrics, i: int)
    requires
        m.well_formed(),
        0 <= i < m.devices@.len(),
    ensures
        m.devices@[i].memory_used <= m.devices@[i].memory_total,
{
}

/// What every snapshot read from the hardware satisfies: each device is the
/// record of a complete set of readings, made at its position.
pub open spec fn is_enumeration(m: Metrics) -> bool {
    forall|i: int| 0 <= i < m.devices@.len() ==> (#[trigger] m.devices@[i]).is_enumerated_at(i)
}

/// A source of snapshots: the hardware, or a stand-in for it.
pub trait MetricsCollector {
    /// Makes one attempt at a snapshot.
    fn collect(&self) -> Result<Metrics, CollectionError>;
}

/// The collector that reads the GPUs of this machine through NVML.
pub struct NvmlCollector;

impl MetricsCollector for NvmlCollector {
    fn collect(&self) -> (r: Result<Metrics, CollectionError>)
        ensures
            r matches Ok(m) ==> is_enumeration(m),
    {
        collect_metrics_impl()
    }
}

impl NvmlCollector {
    pub fn new() -> (collector: Self)
        ensures
            collector == NvmlCollector,
    {
        Self
    }
}

impl Default for NvmlCollector {
    fn default() -> (collector: Self)
        ensures
            collector == NvmlCollector,
    {
        Self::new()
    }
}

/// Reads one snapshot from the GPUs of this machine.
///
/// The hardware decides whether this succeeds. A snapshot that comes back
/// holds the devices in enumeration order, each the record of its readings.
pub fn collect_metrics() -> (r: Result<Metrics, CollectionError>)
    ensures
        r matches Ok(m) ==> is_enumeration(m),
{
    NvmlCollector::new().collect()
}

/// What asking `count` devices in turn gives: the readings of the devices
/// asked, first to last. Every device is asked unless one before it lacks a
/// mandatory measurement, which is then the last one asked.
pub open spec fn asked_in_turn(readings: Seq<DeviceReadings>, count: u32) -> bool {
    &&& readings.len() <= count
    &&& forall|i: int|
        0 <= i < readings.len() - 1 ==> (#[trigger] readings[i]).first_missing() is None
    &&& readings.len() < count ==> readings.len() > 0 && readings.last().first_missing() is Some
}

/// Where `count` devices were asked in turn and a snapshot was made of their
/// readings, the snapshot holds all `count` devices: none was passed over.
pub proof fn lemma_every_counted_device_is_in_the_snapshot(
    m: Metrics,
    version: Seq<char>,
    readings: Seq<DeviceReadings>,
    count: u32,
)
    requires
        asked_in_turn(readings, count),
        m.is_snapshot_of(version, readings),
    ensures
        m.devices@.len() == count,
        forall|i: int|
            0 <= i < count ==> (#[trigger] m.devices@[i]).is_record_of(i as u32, readings[i]),
{
    if readings.len() < count {
        let last = readings.len() - 1;
        assert(m.devices@[last].is_record_of(last as u32, readings[last]));
    }
}

/// Asks the devices at positions 0 to `count` in turn, each for its handle
/// and then for every measurement, up to the first that lacks a mandatory one.
///
/// Fails, with `SourceUnavailable`, only where the handle of a device cannot
/// be had. Where every device asked is complete, all `count` devices were
/// asked.
fn read_devices(library: &nvml_wrapper::Nvml, count: u32) -> (r: Result<
    Vec<DeviceReadings>,
    CollectionError,
>)
    ensures
        match r {
            Ok(readings) => asked_in_turn(readings@, count),
            Err(e) => e == CollectionError::SourceUnavailable && count > 0,
        },
{
    let mut readings: Vec<DeviceReadings> = Vec::new();
    let mut complete = true;
    let mut index: u32 = 0;
    while index < count && complete
        invariant
            index <= count,
            readings@.len() == index,
            forall|i: int|
                0 <= i < readings@.len() - 1 ==> (#[trigger] readings@[i]).first_missing() is None,
            complete ==> forall|i: int|
                0 <= i < readings@.len() ==> (#[trigger] readings@[i]).first_missing() is None,
            !complete ==> readings@.len() > 0 && readings@.last().first_missing() is Some,
        decreases count - index,
    {
        let gpu = match CollectionError::require(nvml::device_by_index(library, index).ok()) {
            Ok(gpu) => gpu,
            Err(e) => {
                return Err(e);
            },
        };
        let one = DeviceReadings::probe(&gpu);
        complete = one.is_complete();
        readings.push(one);
        index += 1;
    }
    Ok(readings)
}

/// One scrape of the hardware: initialise the library, read the driver
/// version and the number of devices, then every device in turn.
///
/// Fails with `SourceUnavailable` if the library, the version, the count or a
/// device handle cannot be had. The snapshot is made of what the devices
/// returned, or the scrape abandoned with the error of the first device that
/// lacks a mandatory measurement.
fn collect_metrics_impl() -> (r: Result<Metrics, CollectionError>)
    ensures
        r matches Ok(m) ==> is_enumeration(m),
{
    let library = match CollectionError::require(nvml::init().ok()) {
        Ok(library) => library,
        Err(e) => {
            return Err(e);
        },
    };
    let version = match CollectionError::require(nvml::driver_version(&library).ok()) {
        Ok(version) => version,
        Err(e) => {
            return Err(e);
        },
    };
    let device_count = match CollectionError::require(nvml::device_count(&library).ok()) {
        Ok(n) => n,
        Err(e) => {
            return Err(e);
        },
    };
    let readings = match read_devices(&library, device_count) {
        Ok(readings) => readings,
        Err(e) => {
            return Err(e);
        },
    };
    let ghost all = readings@;
    let r = Metrics::from_readings(version, readings);
    proof {
        if r is Ok {
            let m = r->Ok_0;
            assert forall|i: int| 0 <= i < m.devices@.len() implies (
            #[trigger] m.devices@[i]).is_enumerated_at(i) by {
                assert(m.devices@[i].is_record_of(i as u32, all[i]));
            }
        }
    }
    r
}

} // verus!
