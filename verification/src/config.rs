//! The two settings of the exporter.

use vstd::prelude::*;

verus! {

/// Where the exporter listens and under which path it serves the metrics.
#[derive(Debug, Clone)]
pub struct Args {
    /// Address to listen on for web interface and telemetry.
    pub web_listen_address: String,
    /// Path under which to expose metrics.
    pub web_telemetry_path: String,
}

/// The address the exporter listens on unless told otherwise.
pub open spec fn default_listen_address() -> Seq<char> {
    "0.0.0.0:9445"@
}

/// The path the metrics are served under unless told otherwise.
pub open spec fn default_telemetry_path() -> Seq<char> {
    "/metrics"@
}

impl Default for Args {
    fn default() -> (args: Args)
        ensures
            args.web_listen_address@ == default_listen_address(),
            args.web_telemetry_path@ == default_telemetry_path(),
    {
        Args {
            web_listen_address: String::from_str("0.0.0.0:9445"),
            web_telemetry_path: String::from_str("/metrics"),
        }
    }
}

} // verus!
