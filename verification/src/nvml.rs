//! The queries made of the NVIDIA Management Library, through `nvml_wrapper`.
//!
//! Every query reads the hardware or the driver, so nothing is claimed of what
//! it returns: each may succeed or fail at any call, with any value.

use crate::readings::{MemoryReading, UtilizationReading};
use nvml_wrapper::enum_wrappers::device::{
    Clock, EccCounter, MemoryError, PcieUtilCounter, TemperatureSensor,
};
use vstd::prelude::*;

verus! {

/// `nvml_wrapper::Nvml`: the initialised library.
#[verifier::external_type_specification]
#[verifier::external_body]
pub struct ExNvml(nvml_wrapper::Nvml);

/// The handle of one GPU (`nvml_wrapper::Device`), valid while the library
/// stays initialised. It is only ever handed to the queries below.
#[verifier::external_body]
pub(crate) struct Gpu<'nvml> {
    handle: nvml_wrapper::Device<'nvml>,
}

/// `nvml_wrapper::error::NvmlError`: why a query failed. It is never looked into.
#[verifier::external_type_specification]
#[verifier::external_body]
pub struct ExNvmlError(nvml_wrapper::error::NvmlError);

/// `nvml_wrapper::struct_wrappers::device::ProcessInfo`: one process on a
/// GPU. Processes are counted, never looked into.
#[verifier::external_type_specification]
#[verifier::external_body]
pub struct ExProcessInfo(nvml_wrapper::struct_wrappers::device::ProcessInfo);

/// A clock domain of a GPU.
#[derive(Debug, Clone, Copy, PartialEq, Eq, Structural)]
pub(crate) enum ClockDomain {
    Graphics,
    Sm,
    Memory,
}

/// A direction of traffic on the PCIe link.
#[derive(Debug, Clone, Copy, PartialEq, Eq, Structural)]
pub(crate) enum PcieDirection {
    Transmit,
    Receive,
}

/// A class of ECC memory errors.
#[derive(Debug, Clone, Copy, PartialEq, Eq, Structural)]
pub(crate) enum EccClass {
    Corrected,
    Uncorrected,
}

/// The span over which ECC errors are counted: since the driver was loaded,
/// or over the lifetime of the GPU.
#[derive(Debug, Clone, Copy, PartialEq, Eq, Structural)]
pub(crate) enum EccSpan {
    SinceDriverLoad,
    Lifetime,
}

/// `Nvml::init`: loads the library and initialises it.
#[verifier::external_body]
pub(crate) fn init() -> (r: Result<nvml_wrapper::Nvml, nvml_wrapper::error::NvmlError>) {
    nvml_wrapper::Nvml::init()
}

/// `Nvml::sys_driver_version`: the version of the graphics driver.
#[verifier::external_body]
pub(crate) fn driver_version(nvml: &nvml_wrapper::Nvml) -> (r: Result<String, nvml_wrapper::error::NvmlError>) {
    nvml.sys_driver_version()
}

/// `Nvml::device_count`: the number of GPUs in the system.
#[verifier::external_body]
pub(crate) fn device_count(nvml: &nvml_wrapper::Nvml) -> (r: Result<u32, nvml_wrapper::error::NvmlError>) {
    nvml.device_count()
}

/// `Nvml::device_by_index`: the handle of the GPU at an index.
#[verifier::external_body]
pub(crate) fn device_by_index<'nvml>(nvml: &'nvml nvml_wrapper::Nvml, index: u32) -> (r: Result<
    Gpu<'nvml>,
    nvml_wrapper::error::NvmlError,
>) {
    nvml.device_by_index(index).map(|handle| Gpu { handle })
}

/// `Device::uuid`: the unique identifier of the GPU.
#[verifier::external_body]
pub(crate) fn uuid(device: &Gpu) -> (r: Result<String, nvml_wrapper::error::NvmlError>) {
    device.handle.uuid()
}

/// `Device::name`: the product name of the GPU.
#[verifier::external_body]
pub(crate) fn name(device: &Gpu) -> (r: Result<String, nvml_wrapper::error::NvmlError>) {
    device.handle.name()
}

/// `Device::minor_number`: the minor number of the GPU's device file.
#[verifier::external_body]
pub(crate) fn minor_number(device: &Gpu) -> (r: Result<u32, nvml_wrapper::error::NvmlError>) {
    device.handle.minor_number()
}

/// `Device::temperature` of the sensor on the GPU die, in degrees Celsius.
#[verifier::external_body]
pub(crate) fn temperature(device: &Gpu) -> (r: Result<u32, nvml_wrapper::error::NvmlError>) {
    device.handle.temperature(TemperatureSensor::Gpu)
}

/// `Device::power_usage`: the power draw in milliwatts.
#[verifier::external_body]
pub(crate) fn power_usage(device: &Gpu) -> (r: Result<u32, nvml_wrapper::error::NvmlError>) {
    device.handle.power_usage()
}

/// `Device::fan_speed`: the speed of one fan in percent.
#[verifier::external_body]
pub(crate) fn fan_speed(device: &Gpu, fan: u32) -> (r: Result<u32, nvml_wrapper::error::NvmlError>) {
    device.handle.fan_speed(fan)
}

/// `Device::memory_info`: total and used memory in bytes.
#[verifier::external_body]
pub(crate) fn memory_info(device: &Gpu) -> (r: Result<MemoryReading, nvml_wrapper::error::NvmlError>) {
    device.handle.memory_info().map(|info| MemoryReading { total: info.total, used: info.used })
}

/// `Device::utilization_rates`: GPU and memory utilization in percent.
#[verifier::external_body]
pub(crate) fn utilization_rates(device: &Gpu) -> (r: Result<UtilizationReading, nvml_wrapper::error::NvmlError>) {
    device.handle.utilization_rates().map(|u| UtilizationReading { gpu: u.gpu, memory: u.memory })
}

/// `Device::clock_info`: the current clock of a domain in MHz.
#[verifier::external_body]
pub(crate) fn clock_info(device: &Gpu, domain: ClockDomain) -> (r: Result<u32, nvml_wrapper::error::NvmlError>) {
    device.handle.clock_info(
        match domain {
            ClockDomain::Graphics => Clock::Graphics,
            ClockDomain::Sm => Clock::SM,
            ClockDomain::Memory => Clock::Memory,
        },
    )
}

/// `Device::max_clock_info`: the highest clock of a domain in MHz.
#[verifier::external_body]
pub(crate) fn max_clock_info(device: &Gpu, domain: ClockDomain) -> (r: Result<u32, nvml_wrapper::error::NvmlError>) {
    device.handle.max_clock_info(
        match domain {
            ClockDomain::Graphics => Clock::Graphics,
            ClockDomain::Sm => Clock::SM,
            ClockDomain::Memory => Clock::Memory,
        },
    )
}

/// `Device::power_management_limit`: the power limit in milliwatts.
#[verifier::external_body]
pub(crate) fn power_management_limit(device: &Gpu) -> (r: Result<u32, nvml_wrapper::error::NvmlError>) {
    device.handle.power_management_limit()
}

/// `Device::power_management_limit_default`: the default power limit in milliwatts.
#[verifier::external_body]
pub(crate) fn power_management_limit_default(device: &Gpu) -> (r: Result<u32, nvml_wrapper::error::NvmlError>) {
    device.handle.power_management_limit_default()
}

/// `Device::performance_state`: the P-state, as the position of its variant
/// (0 to 15, and 16 for an unknown state).
#[verifier::external_body]
pub(crate) fn performance_state(device: &Gpu) -> (r: Result<u32, nvml_wrapper::error::NvmlError>) {
    device.handle.performance_state().map(|state| state as u32)
}

/// `Device::current_pcie_link_gen`: the PCIe link generation.
#[verifier::external_body]
pub(crate) fn current_pcie_link_gen(device: &Gpu) -> (r: Result<u32, nvml_wrapper::error::NvmlError>) {
    device.handle.current_pcie_link_gen()
}

/// `Device::current_pcie_link_width`: the PCIe link width in lanes.
#[verifier::external_body]
pub(crate) fn current_pcie_link_width(device: &Gpu) -> (r: Result<u32, nvml_wrapper::error::NvmlError>) {
    device.handle.current_pcie_link_width()
}

/// `Device::pcie_throughput`: the PCIe throughput in one direction, in KB/s.
#[verifier::external_body]
pub(crate) fn pcie_throughput(device: &Gpu, direction: PcieDirection) -> (r: Result<
    u32,
    nvml_wrapper::error::NvmlError,
>) {
    device.handle.pcie_throughput(
        match direction {
            PcieDirection::Transmit => PcieUtilCounter::Send,
            PcieDirection::Receive => PcieUtilCounter::Receive,
        },
    )
}

/// `Device::encoder_utilization`: the utilization of the video encoder in percent.
#[verifier::external_body]
pub(crate) fn encoder_utilization(device: &Gpu) -> (r: Result<u32, nvml_wrapper::error::NvmlError>) {
    device.handle.encoder_utilization().map(|info| info.utilization)
}

/// `Device::decoder_utilization`: the utilization of the video decoder in percent.
#[verifier::external_body]
pub(crate) fn decoder_utilization(device: &Gpu) -> (r: Result<u32, nvml_wrapper::error::NvmlError>) {
    device.handle.decoder_utilization().map(|info| info.utilization)
}

/// `Device::total_ecc_errors`: the errors of one class counted over one span.
#[verifier::external_body]
pub(crate) fn total_ecc_errors(device: &Gpu, class: EccClass, span: EccSpan) -> (r: Result<
    u64,
    nvml_wrapper::error::NvmlError,
>) {
    device.handle.total_ecc_errors(
        match class {
            EccClass::Corrected => MemoryError::Corrected,
            EccClass::Uncorrected => MemoryError::Uncorrected,
        },
        match span {
            EccSpan::SinceDriverLoad => EccCounter::Volatile,
            EccSpan::Lifetime => EccCounter::Aggregate,
        },
    )
}

/// `Device::running_compute_processes`: the compute processes on the GPU.
#[verifier::external_body]
pub(crate) fn running_compute_processes(device: &Gpu) -> (r: Result<
    Vec<nvml_wrapper::struct_wrappers::device::ProcessInfo>,
    nvml_wrapper::error::NvmlError,
>) {
    device.handle.running_compute_processes()
}

/// `Device::running_graphics_processes`: the graphics processes on the GPU.
#[verifier::external_body]
pub(crate) fn running_graphics_processes(device: &Gpu) -> (r: Result<
    Vec<nvml_wrapper::struct_wrappers::device::ProcessInfo>,
    nvml_wrapper::error::NvmlError,
>) {
    device.handle.running_graphics_processes()
}

} // verus!
