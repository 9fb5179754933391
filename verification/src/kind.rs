//! The metric kinds and the identifiers under which the host knows them.

use vstd::prelude::*;

verus! {

/// Identifier of the CPU load action.
pub const CPU_ID: &'static str = "me.amankhanna.oasystem.cpu";

/// Identifier of the memory use action.
pub const MEMORY_ID: &'static str = "me.amankhanna.oasystem.ram";

/// Identifier of the uptime action.
pub const UPTIME_ID: &'static str = "me.amankhanna.oasystem.uptime";

/// Identifier of the operating system action, which is shown once when an
/// instance appears and takes no part in the periodic cycle.
pub const OS_ID: &'static str = "me.amankhanna.oasystem.os";

/// A metric that is reported periodically.
#[derive(Clone, Copy, Debug, PartialEq, Eq, Structural)]
pub enum MetricKind {
    Cpu,
    Memory,
    Uptime,
}

impl MetricKind {
    /// The identifier of this kind, as a sequence of characters.
    pub open spec fn spec_id(self) -> Seq<char> {
        match self {
            MetricKind::Cpu => CPU_ID@,
            MetricKind::Memory => MEMORY_ID@,
            MetricKind::Uptime => UPTIME_ID@,
        }
    }

    /// The identifier under which the instance directory is asked for the
    /// visible instances of this kind.
    pub fn id(self) -> (id: &'static str)
        ensures
            id@ == self.spec_id(),
    {
        match self {
            MetricKind::Cpu => CPU_ID,
            MetricKind::Memory => MEMORY_ID,
            MetricKind::Uptime => UPTIME_ID,
        }
    }
}

/// No two kinds share an identifier, and none has that of the operating
/// system action: a lookup by identifier finds the instances of one kind
/// only.
pub proof fn lemma_ids_distinct(first: MetricKind, second: MetricKind)
    ensures
        first.spec_id() == second.spec_id() ==> first == second,
        first.spec_id() != OS_ID@,
{
    reveal_strlit("me.amankhanna.oasystem.cpu");
    reveal_strlit("me.amankhanna.oasystem.ram");
    reveal_strlit("me.amankhanna.oasystem.uptime");
    reveal_strlit("me.amankhanna.oasystem.os");
    assert(CPU_ID@.len() == 26 && CPU_ID@[23] == 'c');
    assert(MEMORY_ID@.len() == 26 && MEMORY_ID@[23] == 'r');
    assert(UPTIME_ID@.len() == 29);
    assert(OS_ID@.len() == 25);
}

} // verus!
