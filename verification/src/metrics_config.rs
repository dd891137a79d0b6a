//! Configuration for the sink and the exporter.
use vstd::prelude::*;

verus! {

/// Pacing period used when the configuration names none, in milliseconds.
pub const DEFAULT_INTERVAL_MS: u64 = 5000;

/// Available sink types.
///
/// `Influx` formats metrics as InfluxDB line protocol; `Graphite` formats
/// them as Graphite plaintext.
#[derive(Clone, Copy, Debug, PartialEq, Eq, Structural)]
pub enum SinkType {
    Influx,
    Graphite,
}

/// Config to initialize a metrics exporter.
#[derive(Clone, Debug)]
pub struct MetricsConfig {
    /// The `<ip:port>` to which the metrics will be shipped.
    pub endpoint: String,
    /// The sink type that should be used to receive and format the metrics.
    pub sink_type: SinkType,
    /// A prefix that will be prepended to all metric names.
    pub prefix: Option<String>,
    /// How often the exporter flushes, in milliseconds. Default is 5000.
    pub interval: Option<u64>,
}

impl MetricsConfig {
    /// The configured prefix, or empty when none was given.
    pub open spec fn spec_prefix(&self) -> Seq<char> {
        match self.prefix {
            Some(p) => p@,
            None => Seq::empty(),
        }
    }

    /// The configured pacing interval, or the default when none was given.
    pub open spec fn spec_interval_ms(&self) -> u64 {
        match self.interval {
            Some(ms) => ms,
            None => DEFAULT_INTERVAL_MS,
        }
    }

    /// The prefix to prepend to every sample.
    pub fn prefix_or_default(&self) -> (r: String)
        ensures
            r@ == self.spec_prefix(),
    {
        match &self.prefix {
            Some(p) => p.clone(),
            None => String::new(),
        }
    }

    /// The pacing interval in milliseconds.
    pub fn interval_or_default(&self) -> (r: u64)
        ensures
            r == self.spec_interval_ms(),
    {
        match self.interval {
            Some(ms) => ms,
            None => DEFAULT_INTERVAL_MS,
        }
    }
}

} // verus!
