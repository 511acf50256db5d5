//! Prometheus exporter core for NVIDIA GPU telemetry.
//!
//! A scrape reads every GPU through NVML, maps the readings onto a fixed
//! catalogue of gauge families, and encodes the families that have series in
//! the text exposition format. When the hardware cannot be read the scrape
//! degrades to the three process-wide families.

pub mod catalogue;
pub mod config;
pub mod encoder;
pub mod endpoint;
pub mod exporter;
pub mod guarantees;
pub mod metrics;
mod nvml;
pub mod readings;
pub mod registry;
