//! What the queries of one GPU returned, and the record that is made of it.
//!
//! A device record exists only if every mandatory query succeeded. A failed
//! optional query leaves its measurement absent.

use crate::metrics::{CollectionError, Device, MandatoryField};
use crate::nvml;
use crate::nvml::{ClockDomain, EccClass, EccSpan, Gpu, PcieDirection};
use vstd::prelude::*;

verus! {

/// The memory of a GPU in bytes, from one query.
#[derive(Debug, Clone, Copy, PartialEq, Eq, Structural)]
pub struct MemoryReading {
    pub total: u64,
    pub used: u64,
}

/// The utilization rates of a GPU in percent, from one query.
#[derive(Debug, Clone, Copy, PartialEq, Eq, Structural)]
pub struct UtilizationReading {
    pub gpu: u32,
    pub memory: u32,
}

/// The outcome of every query made of one GPU: `Some` with the value where
/// the query succeeded, `None` where it failed.
#[derive(Debug, Clone)]
pub struct DeviceReadings {
    pub uuid: Option<String>,
    pub name: Option<String>,
    pub minor_number: Option<u32>,
    pub temperature: Option<u32>,
    pub power_usage: Option<u32>,
    pub fan_speed: Option<u32>,
    pub memory: Option<MemoryReading>,
    pub utilization: Option<UtilizationReading>,
    pub clock_graphics: Option<u32>,
    pub clock_sm: Option<u32>,
    pub clock_memory: Option<u32>,
    pub clock_graphics_max: Option<u32>,
    pub clock_sm_max: Option<u32>,
    pub clock_memory_max: Option<u32>,
    pub power_limit: Option<u32>,
    pub power_limit_default: Option<u32>,
    pub performance_state: Option<u32>,
    pub pcie_link_gen: Option<u32>,
    pub pcie_link_width: Option<u32>,
    pub pcie_tx_throughput: Option<u32>,
    pub pcie_rx_throughput: Option<u32>,
    pub encoder_utilization: Option<u32>,
    pub decoder_utilization: Option<u32>,
    pub ecc_errors_corrected: Option<u64>,
    pub ecc_errors_uncorrected: Option<u64>,
    pub compute_processes: Option<usize>,
    pub graphics_processes: Option<usize>,
}

/// The decimal digit for `d`, which is below ten.
pub open spec fn digit(d: int) -> char {
    if d == 0 {
        '0'
    } else if d == 1 {
        '1'
    } else if d == 2 {
        '2'
    } else if d == 3 {
        '3'
    } else if d == 4 {
        '4'
    } else if d == 5 {
        '5'
    } else if d == 6 {
        '6'
    } else if d == 7 {
        '7'
    } else if d == 8 {
        '8'
    } else {
        '9'
    }
}

/// The decimal numeral of `n`, without leading zeros.
pub open spec fn decimal(n: nat) -> Seq<char>
    decreases n,
{
    if n < 10 {
        seq![digit(n as int)]
    } else {
        decimal(n / 10).push(digit((n % 10) as int))
    }
}

fn digit_text(d: u32) -> (s: &'static str)
    requires
        d < 10,
    ensures
        s@ == seq![digit(d as int)],
{
    proof {
        reveal_strlit("0");
        reveal_strlit("1");
        reveal_strlit("2");
        reveal_strlit("3");
        reveal_strlit("4");
        reveal_strlit("5");
        reveal_strlit("6");
        reveal_strlit("7");
        reveal_strlit("8");
        reveal_strlit("9");
    }
    let s = if d == 0 {
        "0"
    } else if d == 1 {
        "1"
    } else if d == 2 {
        "2"
    } else if d == 3 {
        "3"
    } else if d == 4 {
        "4"
    } else if d == 5 {
        "5"
    } else if d == 6 {
        "6"
    } else if d == 7 {
        "7"
    } else if d == 8 {
        "8"
    } else {
        "9"
    };
    assert(s@ =~= seq![digit(d as int)]);
    s
}

/// Writes `n` in decimal, without leading zeros.
pub fn decimal_string(n: u32) -> (s: String)
    ensures
        s@ == decimal(n as nat),
    decreases n,
{
    if n < 10 {
        String::from_str(digit_text(n))
    } else {
        let mut s = decimal_string(n / 10);
        s.append(digit_text(n % 10));
        s
    }
}

/// A reading of 32 bits as one of 64.
pub open spec fn widened(reading: Option<u32>) -> Option<u64> {
    match reading {
        Some(v) => Some(v as u64),
        None => None,
    }
}

/// A count as a reading of 64 bits.
pub open spec fn counted(reading: Option<usize>) -> Option<u64> {
    match reading {
        Some(v) => Some(v as u64),
        None => None,
    }
}

fn widen(reading: Option<u32>) -> (r: Option<u64>)
    ensures
        r == widened(reading),
{
    match reading {
        Some(v) => Some(v as u64),
        None => None,
    }
}

fn count(reading: Option<usize>) -> (r: Option<u64>)
    ensures
        r == counted(reading),
{
    match reading {
        Some(v) => Some(v as u64),
        None => None,
    }
}

fn length(processes: Option<Vec<nvml_wrapper::struct_wrappers::device::ProcessInfo>>) -> (r: Option<
    usize,
>)
    ensures
        r is Some == processes is Some,
        r is Some ==> r->0 == processes->0@.len(),
{
    match processes {
        Some(list) => Some(list.len()),
        None => None,
    }
}

impl DeviceReadings {
    /// Makes every query of one GPU, each once, and keeps what succeeded.
    /// The speed read is that of the first fan; ECC errors are those counted
    /// over the lifetime of the GPU.
    pub(crate) fn probe(gpu: &Gpu) -> DeviceReadings {
        DeviceReadings {
            uuid: nvml::uuid(gpu).ok(),
            name: nvml::name(gpu).ok(),
            minor_number: nvml::minor_number(gpu).ok(),
            temperature: nvml::temperature(gpu).ok(),
            power_usage: nvml::power_usage(gpu).ok(),
            fan_speed: nvml::fan_speed(gpu, 0).ok(),
            memory: nvml::memory_info(gpu).ok(),
            utilization: nvml::utilization_rates(gpu).ok(),
            clock_graphics: nvml::clock_info(gpu, ClockDomain::Graphics).ok(),
            clock_sm: nvml::clock_info(gpu, ClockDomain::Sm).ok(),
            clock_memory: nvml::clock_info(gpu, ClockDomain::Memory).ok(),
            clock_graphics_max: nvml::max_clock_info(gpu, ClockDomain::Graphics).ok(),
            clock_sm_max: nvml::max_clock_info(gpu, ClockDomain::Sm).ok(),
            clock_memory_max: nvml::max_clock_info(gpu, ClockDomain::Memory).ok(),
            power_limit: nvml::power_management_limit(gpu).ok(),
            power_limit_default: nvml::power_management_limit_default(gpu).ok(),
            performance_state: nvml::performance_state(gpu).ok(),
            pcie_link_gen: nvml::current_pcie_link_gen(gpu).ok(),
            pcie_link_width: nvml::current_pcie_link_width(gpu).ok(),
            pcie_tx_throughput: nvml::pcie_throughput(gpu, PcieDirection::Transmit).ok(),
            pcie_rx_throughput: nvml::pcie_throughput(gpu, PcieDirection::Receive).ok(),
            encoder_utilization: nvml::encoder_utilization(gpu).ok(),
            decoder_utilization: nvml::decoder_utilization(gpu).ok(),
            ecc_errors_corrected: nvml::total_ecc_errors(
                gpu,
                EccClass::Corrected,
                EccSpan::Lifetime,
            ).ok(),
            ecc_errors_uncorrected: nvml::total_ecc_errors(
                gpu,
                EccClass::Uncorrected,
                EccSpan::Lifetime,
            ).ok(),
            compute_processes: length(nvml::running_compute_processes(gpu).ok()),
            graphics_processes: length(nvml::running_graphics_processes(gpu).ok()),
        }
    }

    /// Tells whether every mandatory measurement is there.
    pub fn is_complete(&self) -> (complete: bool)
        ensures
            complete == (self.first_missing() is None),
    {
        self.uuid.is_some() && self.name.is_some() && self.minor_number.is_some()
            && self.temperature.is_some() && self.power_usage.is_some()
            && self.fan_speed.is_some() && self.memory.is_some() && self.utilization.is_some()
    }

    /// The first mandatory measurement that is missing, in the order in which
    /// the measurements are queried; `None` if all are there.
    pub open spec fn first_missing(&self) -> Option<MandatoryField> {
        if self.uuid is None {
            Some(MandatoryField::Uuid)
        } else if self.name is None {
            Some(MandatoryField::Name)
        } else if self.minor_number is None {
            Some(MandatoryField::MinorNumber)
        } else if self.temperature is None {
            Some(MandatoryField::Temperature)
        } else if self.power_usage is None {
            Some(MandatoryField::PowerUsage)
        } else if self.fan_speed is None {
            Some(MandatoryField::FanSpeed)
        } else if self.memory is None {
            Some(MandatoryField::Memory)
        } else if self.utilization is None {
            Some(MandatoryField::Utilization)
        } else {
            None
        }
    }
}

impl Device {
    /// This record is the one made of `readings` for the device at `index`:
    /// index and minor number in decimal, the mandatory measurements as read,
    /// the two averages equal to the instantaneous readings, and each optional
    /// measurement present exactly if its query succeeded.
    pub open spec fn is_record_of(&self, index: u32, readings: DeviceReadings) -> bool {
        &&& readings.first_missing() is None
        &&& self.index@ == decimal(index as nat)
        &&& self.minor_number@ == decimal(readings.minor_number->0 as nat)
        &&& self.name@ == readings.name->0@
        &&& self.uuid@ == readings.uuid->0@
        &&& self.temperature == readings.temperature->0
        &&& self.fan_speed == readings.fan_speed->0
        &&& self.power_usage == readings.power_usage->0
        &&& self.power_usage_average == readings.power_usage->0
        &&& self.memory_total == readings.memory->0.total
        &&& self.memory_used == readings.memory->0.used
        &&& self.utilization_gpu == readings.utilization->0.gpu
        &&& self.utilization_gpu_average == readings.utilization->0.gpu
        &&& self.utilization_memory == readings.utilization->0.memory
        &&& self.clock_graphics == widened(readings.clock_graphics)
        &&& self.clock_sm == widened(readings.clock_sm)
        &&& self.clock_memory == widened(readings.clock_memory)
        &&& self.clock_graphics_max == widened(readings.clock_graphics_max)
        &&& self.clock_sm_max == widened(readings.clock_sm_max)
        &&& self.clock_memory_max == widened(readings.clock_memory_max)
        &&& self.power_limit == widened(readings.power_limit)
        &&& self.power_limit_default == widened(readings.power_limit_default)
        &&& self.performance_state == widened(readings.performance_state)
        &&& self.pcie_link_gen == widened(readings.pcie_link_gen)
        &&& self.pcie_link_width == widened(readings.pcie_link_width)
        &&& self.pcie_tx_throughput == widened(readings.pcie_tx_throughput)
        &&& self.pcie_rx_throughput == widened(readings.pcie_rx_throughput)
        &&& self.encoder_utilization == widened(readings.encoder_utilization)
        &&& self.decoder_utilization == widened(readings.decoder_utilization)
        &&& self.ecc_errors_corrected == readings.ecc_errors_corrected
        &&& self.ecc_errors_uncorrected == readings.ecc_errors_uncorrected
        &&& self.compute_processes == counted(readings.compute_processes)
        &&& self.graphics_processes == counted(readings.graphics_processes)
    }

    /// This record is one that the device at position `index` of an
    /// enumeration can have: the record of some complete set of readings.
    pub open spec fn is_enumerated_at(&self, index: int) -> bool {
        exists|position: u32, readings: DeviceReadings|
            position == index && #[trigger] self.is_record_of(position, readings)
    }

    /// Makes the record of the device at `index` from what its queries returned.
    ///
    /// Succeeds exactly if every mandatory measurement was read; otherwise the
    /// error names the device and the first measurement that is missing.
    pub fn from_readings(index: u32, readings: DeviceReadings) -> (r: Result<
        Device,
        CollectionError,
    >)
        ensures
            match r {
                Ok(device) => device.is_record_of(index, readings),
                Err(e) => readings.first_missing() is Some && e == (CollectionError::MandatoryField {
                    device: index,
                    field: readings.first_missing()->0,
                }),
            },
    {
        let uuid = match readings.uuid {
            Some(v) => v,
            None => {
                return Err(
                    CollectionError::MandatoryField { device: index, field: MandatoryField::Uuid },
                );
            },
        };
        let name = match readings.name {
            Some(v) => v,
            None => {
                return Err(
                    CollectionError::MandatoryField { device: index, field: MandatoryField::Name },
                );
            },
        };
        let minor_number = match readings.minor_number {
            Some(v) => v,
            None => {
                return Err(
                    CollectionError::MandatoryField {
                        device: index,
                        field: MandatoryField::MinorNumber,
                    },
                );
            },
        };
        let temperature = match readings.temperature {
            Some(v) => v,
            None => {
                return Err(
                    CollectionError::MandatoryField {
                        device: index,
                        field: MandatoryField::Temperature,
                    },
                );
            },
        };
        let power_usage = match readings.power_usage {
            Some(v) => v,
            None => {
                return Err(
                    CollectionError::MandatoryField {
                        device: index,
                        field: MandatoryField::PowerUsage,
                    },
                );
            },
        };
        let fan_speed = match readings.fan_speed {
            Some(v) => v,
            None => {
                return Err(
                    CollectionError::MandatoryField {
                        device: index,
                        field: MandatoryField::FanSpeed,
                    },
                );
            },
        };
        let memory = match readings.memory {
            Some(v) => v,
            None => {
                return Err(
                    CollectionError::MandatoryField {
                        device: index,
                        field: MandatoryField::Memory,
                    },
                );
            },
        };
        let utilization = match readings.utilization {
            Some(v) => v,
            None => {
                return Err(
                    CollectionError::MandatoryField {
                        device: index,
                        field: MandatoryField::Utilization,
                    },
                );
            },
        };
        Ok(
            Device {
                index: decimal_string(index),
                minor_number: decimal_string(minor_number),
                name,
                uuid,
                temperature: temperature as u64,
                fan_speed: fan_speed as u64,
                power_usage: power_usage as u64,
                power_usage_average: power_usage as u64,
                power_limit: widen(readings.power_limit),
                power_limit_default: widen(readings.power_limit_default),
                memory_total: memory.total,
                memory_used: memory.used,
                utilization_memory: utilization.memory as u64,
                utilization_gpu: utilization.gpu as u64,
                utilization_gpu_average: utilization.gpu as u64,
                clock_graphics: widen(readings.clock_graphics),
                clock_sm: widen(readings.clock_sm),
                clock_memory: widen(readings.clock_memory),
                clock_graphics_max: widen(readings.clock_graphics_max),
                clock_sm_max: widen(readings.clock_sm_max),
                clock_memory_max: widen(readings.clock_memory_max),
                performance_state: widen(readings.performance_state),
                pcie_link_gen: widen(readings.pcie_link_gen),
                pcie_link_width: widen(readings.pcie_link_width),
                pcie_tx_throughput: widen(readings.pcie_tx_throughput),
                pcie_rx_throughput: widen(readings.pcie_rx_throughput),
                encoder_utilization: widen(readings.encoder_utilization),
                decoder_utilization: widen(readings.decoder_utilization),
                ecc_errors_corrected: readings.ecc_errors_corrected,
                ecc_errors_uncorrected: readings.ecc_errors_uncorrected,
                compute_processes: count(readings.compute_processes),
                graphics_processes: count(readings.graphics_processes),
            },
        )
    }
}

} // verus!
