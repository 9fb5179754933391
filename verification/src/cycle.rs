//! The broadcast cycle as a state machine.
//!
//! A cycle waits one cadence interval, then takes the kinds in the order
//! CPU, memory, uptime. For each kind it asks for a sample; where one was
//! produced it asks which instances are visible and pushes to each of them
//! in turn, whatever became of the pushes before. Then the next cycle
//! begins. The machine only decides; waiting, sampling, the lookup and the
//! pushes are done by whoever runs it, who reports each outcome as an event.

use vstd::prelude::*;
use crate::kind::MetricKind;

verus! {

/// Where the cycle stands: what was asked for last and is not yet answered.
#[derive(Clone, Copy, Debug, PartialEq, Eq, Structural)]
pub enum Phase {
    /// The cadence interval is running.
    Waiting,
    /// A sample of the kind was asked for.
    Sampling(MetricKind),
    /// The visible instances of the kind were asked for.
    Listing(MetricKind),
    /// A push to the instance at `index` of the `count` visible ones was
    /// asked for.
    Pushing { kind: MetricKind, index: usize, count: usize },
}

/// What whoever runs the cycle reports back.
#[derive(Clone, Copy, Debug, PartialEq, Eq, Structural)]
pub enum Event {
    /// The cadence interval has passed.
    WaitElapsed,
    /// Sampling is done; the flag says whether it produced a valid sample.
    Sampled(bool),
    /// The lookup is done; so many instances are visible.
    Visible(usize),
    /// The push was attempted; the flag says whether it went well, as far
    /// as that is known. Nothing depends on it.
    Pushed(bool),
}

/// What the cycle asks for next.
#[derive(Clone, Copy, Debug, PartialEq, Eq, Structural)]
pub enum Command {
    /// Wait one cadence interval.
    Wait,
    /// Take a sample of the kind.
    Sample(MetricKind),
    /// Look up the visible instances of the kind.
    Lookup(MetricKind),
    /// Push the text of the kind to the instance at `index` of those that
    /// the last lookup returned.
    Push { kind: MetricKind, index: usize },
}

/// The length of the cadence interval in seconds.
pub const CADENCE_SECONDS: u64 = 1;

/// The place of a kind in the order in which a cycle takes the kinds.
pub open spec fn place(kind: MetricKind) -> nat {
    match kind {
        MetricKind::Cpu => 0,
        MetricKind::Memory => 1,
        MetricKind::Uptime => 2,
    }
}

/// The phase that follows when a kind is done: the next kind is sampled, or,
/// after the last, the cycle waits again.
pub open spec fn after(kind: MetricKind) -> Phase {
    match kind {
        MetricKind::Cpu => Phase::Sampling(MetricKind::Memory),
        MetricKind::Memory => Phase::Sampling(MetricKind::Uptime),
        MetricKind::Uptime => Phase::Waiting,
    }
}

/// The phase that follows `phase` on `event`. An event that does not answer
/// what the phase asked for changes nothing.
pub open spec fn transition(phase: Phase, event: Event) -> Phase {
    match (phase, event) {
        (Phase::Waiting, Event::WaitElapsed) => Phase::Sampling(MetricKind::Cpu),
        (Phase::Sampling(kind), Event::Sampled(produced)) => if produced {
            Phase::Listing(kind)
        } else {
            after(kind)
        },
        (Phase::Listing(kind), Event::Visible(count)) => if count == 0 {
            after(kind)
        } else {
            Phase::Pushing { kind, index: 0, count }
        },
        (Phase::Pushing { kind, index, count }, Event::Pushed(_)) => if index + 1 < count {
            Phase::Pushing { kind, index: (index + 1) as usize, count }
        } else {
            after(kind)
        },
        _ => phase,
    }
}

/// What is asked for in `phase`.
pub open spec fn command(phase: Phase) -> Command {
    match phase {
        Phase::Waiting => Command::Wait,
        Phase::Sampling(kind) => Command::Sample(kind),
        Phase::Listing(kind) => Command::Lookup(kind),
        Phase::Pushing { kind, index, count } => Command::Push { kind, index },
    }
}

/// The phase reached from `phase` by a sequence of events.
pub open spec fn run(phase: Phase, events: Seq<Event>) -> Phase
    decreases events.len(),
{
    if events.len() == 0 {
        phase
    } else {
        transition(run(phase, events.drop_last()), events.last())
    }
}

/// The commands given from `phase` on a sequence of events, one after each
/// event.
pub open spec fn trace(phase: Phase, events: Seq<Event>) -> Seq<Command>
    decreases events.len(),
{
    if events.len() == 0 {
        Seq::empty()
    } else {
        trace(phase, events.drop_last()).push(command(run(phase, events)))
    }
}

impl Phase {
    /// Whether the phase can occur: a push goes to one of the visible
    /// instances.
    pub open spec fn valid(self) -> bool {
        self matches Phase::Pushing { index, count, .. } ==> index < count
    }

    /// The phase after `event`.
    pub fn step(self, event: Event) -> (next: Phase)
        ensures
            next == transition(self, event),
            self.valid() ==> next.valid(),
    {
        match (self, event) {
            (Phase::Waiting, Event::WaitElapsed) => Phase::Sampling(MetricKind::Cpu),
            (Phase::Sampling(kind), Event::Sampled(produced)) => if produced {
                Phase::Listing(kind)
            } else {
                Phase::done_with(kind)
            },
            (Phase::Listing(kind), Event::Visible(count)) => if count == 0 {
                Phase::done_with(kind)
            } else {
                Phase::Pushing { kind, index: 0, count }
            },
            (Phase::Pushing { kind, index, count }, Event::Pushed(_)) => if count > 0 && index
                < count - 1 {
                Phase::Pushing { kind, index: index + 1, count }
            } else {
                Phase::done_with(kind)
            },
            _ => self,
        }
    }

    /// The phase that follows when `kind` is done.
    pub fn done_with(kind: MetricKind) -> (next: Phase)
        ensures
            next == after(kind),
            next.valid(),
    {
        match kind {
            MetricKind::Cpu => Phase::Sampling(MetricKind::Memory),
            MetricKind::Memory => Phase::Sampling(MetricKind::Uptime),
            MetricKind::Uptime => Phase::Waiting,
        }
    }

    /// What is asked for in this phase.
    pub fn command(self) -> (cmd: Command)
        ensures
            cmd == command(self),
    {
        match self {
            Phase::Waiting => Command::Wait,
            Phase::Sampling(kind) => Command::Sample(kind),
            Phase::Listing(kind) => Command::Lookup(kind),
            Phase::Pushing { kind, index, count } => Command::Push { kind, index },
        }
    }
}

} // verus!
