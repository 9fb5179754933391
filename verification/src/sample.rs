//! Point-in-time values of the metrics.

use vstd::prelude::*;
use crate::cpu::{is_percentage, CpuUsage};
use crate::kind::MetricKind;

verus! {

/// One value of one metric.
#[derive(Clone, Copy, Debug, PartialEq, Eq)]
pub enum Sample {
    /// CPU load, a percentage.
    Cpu(CpuUsage),
    /// Memory in use, in bytes.
    Memory(u64),
    /// Time since boot, in seconds.
    Uptime(u64),
}

impl Sample {
    /// The metric that this is a value of.
    pub open spec fn spec_kind(self) -> MetricKind {
        match self {
            Sample::Cpu(_) => MetricKind::Cpu,
            Sample::Memory(_) => MetricKind::Memory,
            Sample::Uptime(_) => MetricKind::Uptime,
        }
    }

    /// Whether the value has the shape that its kind asks for: a CPU load
    /// is a percentage; every count of bytes or seconds will do.
    pub open spec fn valid(self) -> bool {
        match self {
            Sample::Cpu(usage) => is_percentage(usage.spec_bits()),
            Sample::Memory(_) => true,
            Sample::Uptime(_) => true,
        }
    }

    /// The metric that this is a value of.
    #[verifier::when_used_as_spec(spec_kind)]
    pub fn kind(self) -> (kind: MetricKind)
        ensures
            kind == self.spec_kind(),
    {
        match self {
            Sample::Cpu(_) => MetricKind::Cpu,
            Sample::Memory(_) => MetricKind::Memory,
            Sample::Uptime(_) => MetricKind::Uptime,
        }
    }
}

} // verus!
