//! The catalogue: the families that the exporter serves, with their names,
//! help texts and labels, in the order in which they are written.

use crate::metrics::Quantity;
use crate::registry::{fq_name, is_word_char, is_word_start, valid_metric_name};
use vstd::prelude::*;

verus! {

/// The number of families in the catalogue.
pub const FAMILY_COUNT: usize = 32;

/// A family of the catalogue.
#[derive(Debug, Clone, Copy, PartialEq, Eq, Structural)]
pub enum Slot {
    /// `up`: 1 after a scrape that read the hardware, 0 after one that failed.
    Up,
    /// `device_count`: the number of devices found.
    DeviceCount,
    /// `driver_info{version}`: constant 1, labelled with the driver version.
    DriverInfo,
    /// `info{index, minor, uuid, name}`: constant 1, one series per device.
    DeviceInfo,
    /// One measured quantity, one series per device, labelled `minor`.
    Reading(Quantity),
}

/// The namespace that every family name starts with.
pub open spec fn namespace() -> Seq<char> {
    "nvidia"@
}

pub(crate) fn namespace_str() -> (r: &'static str)
    ensures
        r@ == namespace(),
        r@.len() > 0,
        is_word_start(r@[0]),
        forall|i: int| 0 <= i < r@.len() ==> is_word_char(#[trigger] r@[i]),
{
    proof {
        reveal_strlit("nvidia");
    }
    "nvidia"
}

/// A text made of word characters only, and at least one.
pub open spec fn is_word(s: Seq<char>) -> bool {
    &&& s.len() > 0
    &&& forall|i: int| 0 <= i < s.len() ==> is_word_char(#[trigger] s[i])
}

impl Quantity {
    /// The family name of the quantity, without the namespace.
    pub open spec fn metric_name(self) -> Seq<char> {
        match self {
            Quantity::FanSpeed => "fanspeed"@,
            Quantity::MemoryTotal => "memory_total"@,
            Quantity::MemoryUsed => "memory_used"@,
            Quantity::PowerUsage => "power_usage"@,
            Quantity::PowerUsageAverage => "power_usage_average"@,
            Quantity::Temperature => "temperatures"@,
            Quantity::UtilizationGpu => "utilization_gpu"@,
            Quantity::UtilizationGpuAverage => "utilization_gpu_average"@,
            Quantity::UtilizationMemory => "utilization_memory"@,
            Quantity::ClockGraphics => "clock_graphics_mhz"@,
            Quantity::ClockSm => "clock_sm_mhz"@,
            Quantity::ClockMemory => "clock_memory_mhz"@,
            Quantity::ClockGraphicsMax => "clock_graphics_max_mhz"@,
            Quantity::ClockSmMax => "clock_sm_max_mhz"@,
            Quantity::ClockMemoryMax => "clock_memory_max_mhz"@,
            Quantity::PowerLimit => "power_limit_milliwatts"@,
            Quantity::PowerLimitDefault => "power_limit_default_milliwatts"@,
            Quantity::PerformanceState => "performance_state"@,
            Quantity::PcieLinkGen => "pcie_link_generation"@,
            Quantity::PcieLinkWidth => "pcie_link_width"@,
            Quantity::PcieTxThroughput => "pcie_tx_throughput_kb"@,
            Quantity::PcieRxThroughput => "pcie_rx_throughput_kb"@,
            Quantity::EncoderUtilization => "encoder_utilization"@,
            Quantity::DecoderUtilization => "decoder_utilization"@,
            Quantity::EccErrorsCorrected => "ecc_errors_corrected_total"@,
            Quantity::EccErrorsUncorrected => "ecc_errors_uncorrected_total"@,
            Quantity::ComputeProcesses => "compute_processes"@,
            Quantity::GraphicsProcesses => "graphics_processes"@,
        }
    }

    /// The help text of the quantity's family.
    pub open spec fn metric_help(self) -> Seq<char> {
        match self {
            Quantity::FanSpeed => "Fan speed as reported by the device"@,
            Quantity::MemoryTotal => "Total memory as reported by the device"@,
            Quantity::MemoryUsed => "Used memory as reported by the device"@,
            Quantity::PowerUsage => "Power usage as reported by the device"@,
            Quantity::PowerUsageAverage => "Power usage as reported by the device averaged over 10s"@,
            Quantity::Temperature => "Temperature as reported by the device"@,
            Quantity::UtilizationGpu => "GPU utilization as reported by the device"@,
            Quantity::UtilizationGpuAverage => "GPU utilization as reported by the device averaged over 10s"@,
            Quantity::UtilizationMemory => "Memory Utilization as reported by the device"@,
            Quantity::ClockGraphics => "Graphics clock speed in MHz"@,
            Quantity::ClockSm => "SM clock speed in MHz"@,
            Quantity::ClockMemory => "Memory clock speed in MHz"@,
            Quantity::ClockGraphicsMax => "Maximum graphics clock speed in MHz"@,
            Quantity::ClockSmMax => "Maximum SM clock speed in MHz"@,
            Quantity::ClockMemoryMax => "Maximum memory clock speed in MHz"@,
            Quantity::PowerLimit => "Power management limit in milliwatts"@,
            Quantity::PowerLimitDefault => "Default power management limit in milliwatts"@,
            Quantity::PerformanceState => "Current performance state (P-State: 0-15, lower is better)"@,
            Quantity::PcieLinkGen => "PCIe link generation"@,
            Quantity::PcieLinkWidth => "PCIe link width"@,
            Quantity::PcieTxThroughput => "PCIe transmit throughput in KB/s"@,
            Quantity::PcieRxThroughput => "PCIe receive throughput in KB/s"@,
            Quantity::EncoderUtilization => "Encoder utilization percentage (0-100)"@,
            Quantity::DecoderUtilization => "Decoder utilization percentage (0-100)"@,
            Quantity::EccErrorsCorrected => "Total corrected ECC errors"@,
            Quantity::EccErrorsUncorrected => "Total uncorrected ECC errors"@,
            Quantity::ComputeProcesses => "Number of compute processes running"@,
            Quantity::GraphicsProcesses => "Number of graphics processes running"@,
        }
    }

    /// The family name of the quantity, without the namespace.
    pub fn name(self) -> (r: &'static str)
        ensures
            r@ == self.metric_name(),
            is_word(r@),
    {
        proof {
            lemma_metric_name_is_word(self);
        }
        match self {
            Quantity::FanSpeed => "fanspeed",
            Quantity::MemoryTotal => "memory_total",
            Quantity::MemoryUsed => "memory_used",
            Quantity::PowerUsage => "power_usage",
            Quantity::PowerUsageAverage => "power_usage_average",
            Quantity::Temperature => "temperatures",
            Quantity::UtilizationGpu => "utilization_gpu",
            Quantity::UtilizationGpuAverage => "utilization_gpu_average",
            Quantity::UtilizationMemory => "utilization_memory",
            Quantity::ClockGraphics => "clock_graphics_mhz",
            Quantity::ClockSm => "clock_sm_mhz",
            Quantity::ClockMemory => "clock_memory_mhz",
            Quantity::ClockGraphicsMax => "clock_graphics_max_mhz",
            Quantity::ClockSmMax => "clock_sm_max_mhz",
            Quantity::ClockMemoryMax => "clock_memory_max_mhz",
            Quantity::PowerLimit => "power_limit_milliwatts",
            Quantity::PowerLimitDefault => "power_limit_default_milliwatts",
            Quantity::PerformanceState => "performance_state",
            Quantity::PcieLinkGen => "pcie_link_generation",
            Quantity::PcieLinkWidth => "pcie_link_width",
            Quantity::PcieTxThroughput => "pcie_tx_throughput_kb",
            Quantity::PcieRxThroughput => "pcie_rx_throughput_kb",
            Quantity::EncoderUtilization => "encoder_utilization",
            Quantity::DecoderUtilization => "decoder_utilization",
            Quantity::EccErrorsCorrected => "ecc_errors_corrected_total",
            Quantity::EccErrorsUncorrected => "ecc_errors_uncorrected_total",
            Quantity::ComputeProcesses => "compute_processes",
            Quantity::GraphicsProcesses => "graphics_processes",
        }
    }

    /// The help text of the quantity's family.
    pub fn help(self) -> (r: &'static str)
        ensures
            r@ == self.metric_help(),
            r@.len() > 0,
    {
        proof {
            lemma_metric_help_is_text(self);
        }
        match self {
            Quantity::FanSpeed => "Fan speed as reported by the device",
            Quantity::MemoryTotal => "Total memory as reported by the device",
            Quantity::MemoryUsed => "Used memory as reported by the device",
            Quantity::PowerUsage => "Power usage as reported by the device",
            Quantity::PowerUsageAverage => "Power usage as reported by the device averaged over 10s",
            Quantity::Temperature => "Temperature as reported by the device",
            Quantity::UtilizationGpu => "GPU utilization as reported by the device",
            Quantity::UtilizationGpuAverage => "GPU utilization as reported by the device averaged over 10s",
            Quantity::UtilizationMemory => "Memory Utilization as reported by the device",
            Quantity::ClockGraphics => "Graphics clock speed in MHz",
            Quantity::ClockSm => "SM clock speed in MHz",
            Quantity::ClockMemory => "Memory clock speed in MHz",
            Quantity::ClockGraphicsMax => "Maximum graphics clock speed in MHz",
            Quantity::ClockSmMax => "Maximum SM clock speed in MHz",
            Quantity::ClockMemoryMax => "Maximum memory clock speed in MHz",
            Quantity::PowerLimit => "Power management limit in milliwatts",
            Quantity::PowerLimitDefault => "Default power management limit in milliwatts",
            Quantity::PerformanceState => "Current performance state (P-State: 0-15, lower is better)",
            Quantity::PcieLinkGen => "PCIe link generation",
            Quantity::PcieLinkWidth => "PCIe link width",
            Quantity::PcieTxThroughput => "PCIe transmit throughput in KB/s",
            Quantity::PcieRxThroughput => "PCIe receive throughput in KB/s",
            Quantity::EncoderUtilization => "Encoder utilization percentage (0-100)",
            Quantity::DecoderUtilization => "Decoder utilization percentage (0-100)",
            Quantity::EccErrorsCorrected => "Total corrected ECC errors",
            Quantity::EccErrorsUncorrected => "Total uncorrected ECC errors",
            Quantity::ComputeProcesses => "Number of compute processes running",
            Quantity::GraphicsProcesses => "Number of graphics processes running",
        }
    }
}

/// The family name of every quantity is made of word characters.
pub proof fn lemma_metric_name_is_word(q: Quantity)
    ensures
        is_word(q.metric_name()),
{
    reveal_strlit("fanspeed");
    reveal_strlit("memory_total");
    reveal_strlit("memory_used");
    reveal_strlit("power_usage");
    reveal_strlit("power_usage_average");
    reveal_strlit("temperatures");
    reveal_strlit("utilization_gpu");
    reveal_strlit("utilization_gpu_average");
    reveal_strlit("utilization_memory");
    reveal_strlit("clock_graphics_mhz");
    reveal_strlit("clock_sm_mhz");
    reveal_strlit("clock_memory_mhz");
    reveal_strlit("clock_graphics_max_mhz");
    reveal_strlit("clock_sm_max_mhz");
    reveal_strlit("clock_memory_max_mhz");
    reveal_strlit("power_limit_milliwatts");
    reveal_strlit("power_limit_default_milliwatts");
    reveal_strlit("performance_state");
    reveal_strlit("pcie_link_generation");
    reveal_strlit("pcie_link_width");
    reveal_strlit("pcie_tx_throughput_kb");
    reveal_strlit("pcie_rx_throughput_kb");
    reveal_strlit("encoder_utilization");
    reveal_strlit("decoder_utilization");
    reveal_strlit("ecc_errors_corrected_total");
    reveal_strlit("ecc_errors_uncorrected_total");
    reveal_strlit("compute_processes");
    reveal_strlit("graphics_processes");
}

/// The help text of every quantity is not empty.
pub proof fn lemma_metric_help_is_text(q: Quantity)
    ensures
        q.metric_help().len() > 0,
{
    reveal_strlit("Fan speed as reported by the device");
    reveal_strlit("Total memory as reported by the device");
    reveal_strlit("Used memory as reported by the device");
    reveal_strlit("Power usage as reported by the device");
    reveal_strlit("Power usage as reported by the device averaged over 10s");
    reveal_strlit("Temperature as reported by the device");
    reveal_strlit("GPU utilization as reported by the device");
    reveal_strlit("GPU utilization as reported by the device averaged over 10s");
    reveal_strlit("Memory Utilization as reported by the device");
    reveal_strlit("Graphics clock speed in MHz");
    reveal_strlit("SM clock speed in MHz");
    reveal_strlit("Memory clock speed in MHz");
    reveal_strlit("Maximum graphics clock speed in MHz");
    reveal_strlit("Maximum SM clock speed in MHz");
    reveal_strlit("Maximum memory clock speed in MHz");
    reveal_strlit("Power management limit in milliwatts");
    reveal_strlit("Default power management limit in milliwatts");
    reveal_strlit("Current performance state (P-State: 0-15, lower is better)");
    reveal_strlit("PCIe link generation");
    reveal_strlit("PCIe link width");
    reveal_strlit("PCIe transmit throughput in KB/s");
    reveal_strlit("PCIe receive throughput in KB/s");
    reveal_strlit("Encoder utilization percentage (0-100)");
    reveal_strlit("Decoder utilization percentage (0-100)");
    reveal_strlit("Total corrected ECC errors");
    reveal_strlit("Total uncorrected ECC errors");
    reveal_strlit("Number of compute processes running");
    reveal_strlit("Number of graphics processes running");
}

/// The family name of a slot, without the namespace.
pub open spec fn slot_name(slot: Slot) -> Seq<char> {
    match slot {
        Slot::Up => "up"@,
        Slot::DeviceCount => "device_count"@,
        Slot::DriverInfo => "driver_info"@,
        Slot::DeviceInfo => "info"@,
        Slot::Reading(q) => q.metric_name(),
    }
}

/// The help text of a slot.
pub open spec fn slot_help(slot: Slot) -> Seq<char> {
    match slot {
        Slot::Up => "NVML Metric Collection Operational"@,
        Slot::DeviceCount => "Count of found nvidia devices"@,
        Slot::DriverInfo => "NVML Info"@,
        Slot::DeviceInfo => "Info as reported by the device"@,
        Slot::Reading(q) => q.metric_help(),
    }
}

/// The label names of a slot.
pub open spec fn slot_labels(slot: Slot) -> Seq<Seq<char>> {
    match slot {
        Slot::Up => Seq::empty(),
        Slot::DeviceCount => Seq::empty(),
        Slot::DriverInfo => seq!["version"@],
        Slot::DeviceInfo => seq!["index"@, "minor"@, "uuid"@, "name"@],
        Slot::Reading(_) => seq!["minor"@],
    }
}

/// The slot at position `j` of the catalogue, for `j` below `FAMILY_COUNT`.
/// Families are collected, and written, in this order.
pub open spec fn slot_at(j: int) -> Slot {
    if j == 0 {
        Slot::DeviceCount
    } else if j == 1 {
        Slot::DeviceInfo
    } else if j == 2 {
        Slot::Reading(Quantity::at(0))
    } else if j == 3 {
        Slot::DriverInfo
    } else if j <= 8 {
        Slot::Reading(Quantity::at(j - 3))
    } else if j == 9 {
        Slot::Up
    } else {
        Slot::Reading(Quantity::at(j - 4))
    }
}

/// In a namespace that is a word starting with a letter or an underscore,
/// a name that is a word gives a valid metric name.
pub proof fn lemma_qualified_name_valid(ns: Seq<char>, name: Seq<char>)
    requires
        is_word(ns),
        is_word_start(ns[0]),
        is_word(name),
    ensures
        valid_metric_name(fq_name(ns, name)),
{
    let full = fq_name(ns, name);
    assert(full == ns + seq!['_'] + name);
    assert(full[0] == ns[0]);
    assert forall|i: int| 0 <= i < full.len() implies is_word_char(#[trigger] full[i]) || full[i]
        == ':' by {
        if i < ns.len() {
            assert(full[i] == ns[i]);
        } else if i == ns.len() {
            assert(full[i] == '_');
        } else {
            assert(full[i] == name[i - ns.len() - 1]);
        }
    }
}

/// The name of every slot is made of word characters, and its help text is
/// not empty.
pub proof fn lemma_slot_texts(slot: Slot)
    ensures
        is_word(slot_name(slot)),
        slot_help(slot).len() > 0,
{
    reveal_strlit("up");
    reveal_strlit("device_count");
    reveal_strlit("driver_info");
    reveal_strlit("info");
    reveal_strlit("NVML Metric Collection Operational");
    reveal_strlit("Count of found nvidia devices");
    reveal_strlit("NVML Info");
    reveal_strlit("Info as reported by the device");
    if let Slot::Reading(q) = slot {
        lemma_metric_name_is_word(q);
        lemma_metric_help_is_text(q);
    }
}

} // verus!
