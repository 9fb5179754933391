//! Sampling of the host's state through the `sysinfo` crate.

use vstd::prelude::*;
use crate::cpu::{is_percentage, CpuUsage};
use crate::format::{os_title, os_title_text};
use crate::kind::MetricKind;
use crate::sample::Sample;

verus! {

/// `sysinfo::System`, which holds what was last read of the host, and among
/// it the CPU counters of the refresh before. Nothing is known of what is in
/// it.
#[verifier::external_type_specification]
#[verifier::external_body]
pub struct ExSystem(sysinfo::System);

/// The load over all CPUs that the handle holds: what
/// `System::global_cpu_usage` returns of it, a single-precision number, as
/// its bit pattern.
pub uninterp spec fn cpu_usage_bits_of(system: sysinfo::System) -> u32;

/// The bytes of memory of the host that the handle holds: what
/// `System::total_memory` returns of it.
pub uninterp spec fn total_memory_of(system: sysinfo::System) -> u64;

/// The bytes of memory free for use that the handle holds: what
/// `System::available_memory` returns of it.
pub uninterp spec fn available_memory_of(system: sysinfo::System) -> u64;

/// The bytes of memory in use that the handle holds: what
/// `System::used_memory` returns of it.
pub uninterp spec fn used_memory_of(system: sysinfo::System) -> u64;

/// `System::new_all` reads everything once and hands out the handle.
/// Nothing is claimed of what it read.
#[verifier::external_body]
fn system_new_all() -> (system: sysinfo::System) {
    sysinfo::System::new_all()
}

/// `System::refresh_cpu_usage` reads the CPU counters anew and computes the
/// load from their difference to those of the call before. Nothing is
/// claimed of the handle afterwards.
#[verifier::external_body]
fn system_refresh_cpu_usage(system: &mut sysinfo::System) {
    system.refresh_cpu_usage()
}

/// `System::global_cpu_usage` returns the load over all CPUs as computed at
/// the last refresh, a single-precision number; it is handed on as its bit
/// pattern. The call reads what the handle holds and nothing else, so the
/// pattern is the one that the handle has; nothing is claimed of which
/// pattern that is.
#[verifier::external_body]
fn system_global_cpu_usage_bits(system: &sysinfo::System) -> (bits: u32)
    ensures
        bits == cpu_usage_bits_of(*system),
{
    system.global_cpu_usage().to_bits()
}

/// `System::refresh_memory` reads the memory and swap figures anew. It
/// touches nothing else in the handle: the CPU load that the handle holds
/// stays. Nothing is claimed of the memory figures afterwards.
#[verifier::external_body]
fn system_refresh_memory(system: &mut sysinfo::System)
    ensures
        cpu_usage_bits_of(*final(system)) == cpu_usage_bits_of(*old(system)),
{
    system.refresh_memory()
}

/// `System::total_memory` returns the bytes of memory that the host has, as
/// of the last refresh. The call reads what the handle holds and nothing
/// else; nothing is claimed of the number itself.
#[verifier::external_body]
fn system_total_memory(system: &sysinfo::System) -> (bytes: u64)
    ensures
        bytes == total_memory_of(*system),
{
    system.total_memory()
}

/// `System::available_memory` returns the bytes of memory that are free for
/// use, as of the last refresh. The call reads what the handle holds and
/// nothing else; nothing is claimed of the number itself.
#[verifier::external_body]
fn system_available_memory(system: &sysinfo::System) -> (bytes: u64)
    ensures
        bytes == available_memory_of(*system),
{
    system.available_memory()
}

/// `System::used_memory` returns the bytes of memory in use as of the last
/// refresh. On most hosts the crate computes it as the total less the
/// available memory that the handle holds, with nothing to keep the
/// difference from overflowing: a handle that holds more available than
/// total memory is left out. The call reads what the handle holds and
/// nothing else; nothing is claimed of the number itself.
#[verifier::external_body]
fn system_used_memory(system: &sysinfo::System) -> (bytes: u64)
    requires
        available_memory_of(*system) <= total_memory_of(*system),
    ensures
        bytes == used_memory_of(*system),
{
    system.used_memory()
}

/// `System::uptime` returns the seconds since the host booted. Nothing is
/// claimed of the number.
#[verifier::external_body]
fn system_uptime() -> (secs: u64) {
    sysinfo::System::uptime()
}

/// `System::long_os_version` returns the long name of the operating
/// system, where the host tells it. Nothing is claimed of the text.
#[verifier::external_body]
fn system_long_os_version() -> (version: Option<String>) {
    sysinfo::System::long_os_version()
}

/// Reads the metrics from the host. It owns the only state that outlives a
/// cycle: the CPU counters of the refresh before, from which the next load
/// is computed.
pub struct MetricSampler {
    system: sysinfo::System,
}

impl MetricSampler {
    /// The CPU load that the sampler holds as of its last reading of the
    /// counters, as a bit pattern.
    pub closed spec fn cpu_bits(self) -> u32 {
        cpu_usage_bits_of(self.system)
    }

    /// The bytes of memory of the host, as of the last reading.
    pub closed spec fn memory_total(self) -> u64 {
        total_memory_of(self.system)
    }

    /// The bytes of memory free for use, as of the last reading.
    pub closed spec fn memory_available(self) -> u64 {
        available_memory_of(self.system)
    }

    /// The bytes of memory in use, as of the last reading.
    pub closed spec fn memory_used(self) -> u64 {
        used_memory_of(self.system)
    }

    /// Whether what the sampler holds makes a sample of `kind`: the CPU load
    /// is a percentage; no more memory is available than there is in all.
    /// The uptime is not held but asked for each time, and every answer
    /// makes a sample.
    pub open spec fn has_sample(self, kind: MetricKind) -> bool {
        match kind {
            MetricKind::Cpu => is_percentage(self.cpu_bits()),
            MetricKind::Memory => self.memory_available() <= self.memory_total(),
            MetricKind::Uptime => true,
        }
    }

    /// Whether `sample` is what the sampler holds for its kind. Of an uptime
    /// this says nothing.
    pub open spec fn holds(self, sample: Sample) -> bool {
        match sample {
            Sample::Cpu(usage) => usage.spec_bits() == self.cpu_bits(),
            Sample::Memory(bytes) => bytes == self.memory_used(),
            Sample::Uptime(_) => true,
        }
    }

    /// A sampler with everything read once.
    pub fn new() -> (sampler: MetricSampler) {
        MetricSampler { system: system_new_all() }
    }

    /// Reads the CPU counters, so that the load sampled next is that of the
    /// time from this call on.
    pub fn open_cpu_window(&mut self) {
        system_refresh_cpu_usage(&mut self.system);
    }

    /// The CPU load since the counters were last read, where the host
    /// reports a percentage for it. The counters are read anew, so this call
    /// also opens the next window.
    pub fn sample_cpu(&mut self) -> (usage: Option<CpuUsage>)
        ensures
            usage is Some <==> final(self).has_sample(MetricKind::Cpu),
            usage matches Some(u) ==> u.spec_bits() == final(self).cpu_bits(),
    {
        system_refresh_cpu_usage(&mut self.system);
        let bits = system_global_cpu_usage_bits(&self.system);
        CpuUsage::from_bits(bits)
    }

    /// The bytes of memory in use now, or nothing where the figures that
    /// the host reports cannot both be right: more memory available than
    /// there is in all.
    pub fn sample_memory_bytes(&mut self) -> (bytes: Option<u64>)
        ensures
            bytes is Some <==> final(self).has_sample(MetricKind::Memory),
            bytes matches Some(b) ==> b == final(self).memory_used(),
            final(self).cpu_bits() == old(self).cpu_bits(),
    {
        system_refresh_memory(&mut self.system);
        let total = system_total_memory(&self.system);
        let available = system_available_memory(&self.system);
        if available > total {
            None
        } else {
            Some(system_used_memory(&self.system))
        }
    }

    /// The seconds since the host booted.
    pub fn sample_uptime_seconds(&self) -> (secs: u64) {
        system_uptime()
    }

    /// A sample of the metric `kind`, or nothing where the host reports no
    /// usable value. Uptime always has one. What is read anew is what the
    /// kind needs: for the CPU the counters, for memory the memory figures,
    /// which leaves the CPU load as it was, and for the uptime nothing.
    pub fn sample(&mut self, kind: MetricKind) -> (sample: Option<Sample>)
        ensures
            sample is Some <==> final(self).has_sample(kind),
            sample matches Some(s) ==> s.spec_kind() == kind && s.valid() && final(self).holds(s),
            kind == MetricKind::Memory ==> final(self).cpu_bits() == old(self).cpu_bits(),
            kind == MetricKind::Uptime ==> *final(self) == *old(self),
    {
        match kind {
            MetricKind::Cpu => match self.sample_cpu() {
                Some(usage) => Some(Sample::Cpu(usage)),
                None => None,
            },
            MetricKind::Memory => match self.sample_memory_bytes() {
                Some(bytes) => Some(Sample::Memory(bytes)),
                None => None,
            },
            MetricKind::Uptime => Some(Sample::Uptime(self.sample_uptime_seconds())),
        }
    }
}

/// The title of the operating system action: the long version that the host
/// reports, one word on each line, or `Unknown`.
pub fn os_version_title() -> (title: String)
    ensures
        exists|version: Option<Seq<char>>| title@ == #[trigger] os_title_text(version),
{
    let version = system_long_os_version();
    let title = match &version {
        None => os_title(None),
        Some(name) => os_title(Some(name.as_str())),
    };
    proof {
        let seen: Option<Seq<char>> = match version {
            None => None,
            Some(name) => Some(name@),
        };
        assert(title@ == os_title_text(seen));
    }
    title
}

} // verus!
