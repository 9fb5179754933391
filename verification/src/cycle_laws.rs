//! What holds of every run of the broadcast cycle.

use vstd::prelude::*;
use crate::cycle::{after, command, run, trace, transition, Command, Event, Phase};
use crate::kind::MetricKind;

verus! {

/// The events that report the outcomes of as many pushes.
pub open spec fn pushed(outcomes: Seq<bool>) -> Seq<Event> {
    outcomes.map_values(|ok: bool| Event::Pushed(ok))
}

/// What happens for one kind in one cycle: whether a sample was produced,
/// how many instances the lookup found visible, and how each push went.
pub struct Round {
    pub produced: bool,
    pub visible: usize,
    pub outcomes: Seq<bool>,
}

impl Round {
    /// Whether every push of the round has been answered.
    pub open spec fn complete(self) -> bool {
        self.produced ==> self.outcomes.len() == self.visible
    }

    /// The events of the round, in order.
    pub open spec fn events(self) -> Seq<Event> {
        if self.produced {
            seq![Event::Sampled(true), Event::Visible(self.visible)] + pushed(self.outcomes)
        } else {
            seq![Event::Sampled(false)]
        }
    }

    /// The commands that the round is owed, one after each of its events:
    /// with a sample, the lookup, a push to each visible instance in the
    /// order of the lookup, and the first command of what follows the kind;
    /// without a sample, the last of these alone.
    pub open spec fn commands(self, kind: MetricKind) -> Seq<Command> {
        if self.produced {
            seq![Command::Lookup(kind)] + Seq::new(
                self.visible as nat,
                |i: int| Command::Push { kind, index: i as usize },
            ) + seq![command(after(kind))]
        } else {
            seq![command(after(kind))]
        }
    }
}

/// What happens in one cycle: a round for each kind.
pub struct Cycle {
    pub cpu: Round,
    pub memory: Round,
    pub uptime: Round,
}

impl Cycle {
    /// Whether every push of the cycle has been answered.
    pub open spec fn complete(self) -> bool {
        self.cpu.complete() && self.memory.complete() && self.uptime.complete()
    }

    /// The round of `kind`.
    pub open spec fn round(self, kind: MetricKind) -> Round {
        match kind {
            MetricKind::Cpu => self.cpu,
            MetricKind::Memory => self.memory,
            MetricKind::Uptime => self.uptime,
        }
    }

    /// The events of the cycle, in order: the end of the wait, then the
    /// rounds of CPU, memory and uptime.
    pub open spec fn events(self) -> Seq<Event> {
        seq![Event::WaitElapsed] + self.cpu.events() + self.memory.events() + self.uptime.events()
    }

    /// The commands that the cycle is owed, one after each of its events.
    pub open spec fn commands(self) -> Seq<Command> {
        seq![Command::Sample(MetricKind::Cpu)] + self.cpu.commands(MetricKind::Cpu)
            + self.memory.commands(MetricKind::Memory) + self.uptime.commands(MetricKind::Uptime)
    }
}

/// A phase that can occur is followed by one that can.
pub proof fn lemma_valid_preserved(phase: Phase, event: Event)
    requires
        phase.valid(),
    ensures
        transition(phase, event).valid(),
{
}

/// Whether a push succeeded or failed makes no difference to what the cycle
/// does next.
pub proof fn lemma_push_outcome_ignored(phase: Phase, first: bool, second: bool)
    ensures
        transition(phase, Event::Pushed(first)) == transition(phase, Event::Pushed(second)),
{
}

/// Running on two sequences of events one after the other is running on
/// their concatenation, and gives the commands of both.
pub proof fn lemma_run_concat(phase: Phase, first: Seq<Event>, second: Seq<Event>)
    ensures
        run(phase, first + second) == run(run(phase, first), second),
        trace(phase, first + second) == trace(phase, first) + trace(run(phase, first), second),
    decreases second.len(),
{
    if second.len() == 0 {
        assert(first + second =~= first);
        assert(trace(phase, first) + trace(run(phase, first), second) =~= trace(phase, first));
    } else {
        lemma_run_concat(phase, first, second.drop_last());
        assert((first + second).drop_last() =~= first + second.drop_last());
        assert(trace(phase, first + second) =~= trace(phase, first) + trace(
            run(phase, first),
            second,
        ));
    }
}

/// From the first push on, every outcome is followed by the push to the
/// next instance, and the last by what follows the kind, whatever the
/// outcomes are.
pub proof fn lemma_pushes(kind: MetricKind, count: usize, outcomes: Seq<bool>)
    requires
        0 < count,
        outcomes.len() <= count,
    ensures
        run(Phase::Pushing { kind, index: 0, count }, pushed(outcomes)) == (if outcomes.len()
            < count {
            Phase::Pushing { kind, index: outcomes.len() as usize, count }
        } else {
            after(kind)
        }),
        trace(Phase::Pushing { kind, index: 0, count }, pushed(outcomes)) == Seq::new(
            outcomes.len(),
            |i: int|
                if i + 1 < count {
                    Command::Push { kind, index: (i + 1) as usize }
                } else {
                    command(after(kind))
                },
        ),
    decreases outcomes.len(),
{
    let start = Phase::Pushing { kind, index: 0, count };
    let owed = Seq::new(
        outcomes.len(),
        |i: int|
            if i + 1 < count {
                Command::Push { kind, index: (i + 1) as usize }
            } else {
                command(after(kind))
            },
    );
    if outcomes.len() == 0 {
        assert(trace(start, pushed(outcomes)) =~= owed);
    } else {
        lemma_pushes(kind, count, outcomes.drop_last());
        assert(pushed(outcomes).drop_last() =~= pushed(outcomes.drop_last()));
        assert(trace(start, pushed(outcomes)) =~= owed);
    }
}

/// A round takes the cycle from the sampling of its kind to what follows
/// the kind, and on the way the cycle gives exactly the commands that the
/// round is owed: every visible instance gets its push, in order, whether
/// or not the pushes before it succeeded.
pub proof fn lemma_round(kind: MetricKind, round: Round)
    requires
        round.complete(),
    ensures
        run(Phase::Sampling(kind), round.events()) == after(kind),
        trace(Phase::Sampling(kind), round.events()) == round.commands(kind),
{
    let start = Phase::Sampling(kind);
    if !round.produced {
        let events = seq![Event::Sampled(false)];
        assert(events.drop_last() =~= Seq::<Event>::empty());
        assert(run(start, events.drop_last()) == start);
        assert(trace(start, events.drop_last()) =~= Seq::<Command>::empty());
        assert(trace(start, events) =~= round.commands(kind));
    } else {
        let sampled = seq![Event::Sampled(true)];
        let listed = seq![Event::Sampled(true), Event::Visible(round.visible)];
        assert(sampled.drop_last() =~= Seq::<Event>::empty());
        assert(run(start, sampled.drop_last()) == start);
        assert(trace(start, sampled.drop_last()) =~= Seq::<Command>::empty());
        assert(listed.drop_last() =~= sampled);
        assert(run(start, sampled) == Phase::Listing(kind));
        assert(trace(start, sampled) =~= seq![Command::Lookup(kind)]);
        lemma_run_concat(start, listed, pushed(round.outcomes));
        if round.visible == 0 {
            assert(run(start, listed) == after(kind));
            assert(pushed(round.outcomes) =~= Seq::<Event>::empty());
            assert(trace(start, round.events()) =~= round.commands(kind));
        } else {
            let first = Phase::Pushing { kind, index: 0, count: round.visible };
            assert(run(start, listed) == first);
            lemma_pushes(kind, round.visible, round.outcomes);
            assert(trace(start, round.events()) =~= round.commands(kind));
        }
    }
}

/// A cycle takes the machine from waiting back to waiting, and on the way
/// the machine gives exactly the commands that the cycle is owed.
pub proof fn lemma_cycle(cycle: Cycle)
    requires
        cycle.complete(),
    ensures
        run(Phase::Waiting, cycle.events()) == Phase::Waiting,
        trace(Phase::Waiting, cycle.events()) == cycle.commands(),
{
    let woken = seq![Event::WaitElapsed];
    assert(woken.drop_last() =~= Seq::<Event>::empty());
    assert(run(Phase::Waiting, woken.drop_last()) == Phase::Waiting);
    assert(trace(Phase::Waiting, woken.drop_last()) =~= Seq::<Command>::empty());
    assert(run(Phase::Waiting, woken) == Phase::Sampling(MetricKind::Cpu));
    assert(trace(Phase::Waiting, woken) =~= seq![Command::Sample(MetricKind::Cpu)]);
    lemma_round(MetricKind::Cpu, cycle.cpu);
    lemma_round(MetricKind::Memory, cycle.memory);
    lemma_round(MetricKind::Uptime, cycle.uptime);
    lemma_run_concat(Phase::Waiting, woken, cycle.cpu.events());
    lemma_run_concat(Phase::Waiting, woken + cycle.cpu.events(), cycle.memory.events());
    lemma_run_concat(
        Phase::Waiting,
        woken + cycle.cpu.events() + cycle.memory.events(),
        cycle.uptime.events(),
    );
}

/// In a cycle an instance gets a push exactly if a sample of its kind was
/// produced and the instance is among those that the lookup of this cycle
/// found visible.
pub proof fn lemma_pushes_of_cycle(cycle: Cycle, kind: MetricKind, index: usize)
    ensures
        cycle.commands().contains(Command::Push { kind, index }) <==> cycle.round(kind).produced
            && index < cycle.round(kind).visible,
{
    let push = Command::Push { kind, index };
    let head = seq![Command::Sample(MetricKind::Cpu)];
    let cpu = cycle.cpu.commands(MetricKind::Cpu);
    let memory = cycle.memory.commands(MetricKind::Memory);
    let uptime = cycle.uptime.commands(MetricKind::Uptime);
    lemma_pushes_of_round(cycle.cpu, MetricKind::Cpu, kind, index);
    lemma_pushes_of_round(cycle.memory, MetricKind::Memory, kind, index);
    lemma_pushes_of_round(cycle.uptime, MetricKind::Uptime, kind, index);
    lemma_contains_concat(head, cpu, push);
    lemma_contains_concat(head + cpu, memory, push);
    lemma_contains_concat(head + cpu + memory, uptime, push);
    assert(!head.contains(push)) by {
        assert(head.len() == 1 && head[0] != push);
    }
}

/// Over two cycles in a row the machine gives the commands that the first
/// is owed and then those that the second is owed: what is pushed in a
/// cycle goes by the lookups of that cycle and by nothing before it.
pub proof fn lemma_two_cycles(first: Cycle, second: Cycle)
    requires
        first.complete(),
        second.complete(),
    ensures
        run(Phase::Waiting, first.events() + second.events()) == Phase::Waiting,
        trace(Phase::Waiting, first.events() + second.events()) == first.commands()
            + second.commands(),
{
    lemma_cycle(first);
    lemma_cycle(second);
    lemma_run_concat(Phase::Waiting, first.events(), second.events());
}

/// The pushes among the commands that a round of `kind` is owed.
proof fn lemma_pushes_of_round(round: Round, kind: MetricKind, other: MetricKind, index: usize)
    ensures
        round.commands(kind).contains(Command::Push { kind: other, index }) <==> other == kind
            && round.produced && index < round.visible,
{
    let push = Command::Push { kind: other, index };
    let owed = round.commands(kind);
    if owed.contains(push) {
        let i = choose|i: int| 0 <= i < owed.len() && owed[i] == push;
        assert(owed[i] == push);
        if round.produced {
            assert(1 <= i <= round.visible);
            assert(owed[i] == Command::Push { kind, index: (i - 1) as usize });
        }
    }
    if other == kind && round.produced && index < round.visible {
        assert(owed[index + 1] == push);
    }
}

/// An element is in a concatenation exactly if it is in one of the parts.
proof fn lemma_contains_concat(first: Seq<Command>, second: Seq<Command>, item: Command)
    ensures
        (first + second).contains(item) <==> first.contains(item) || second.contains(item),
{
    let both = first + second;
    if both.contains(item) {
        let i = choose|i: int| 0 <= i < both.len() && both[i] == item;
        if i < first.len() {
            assert(first[i] == item);
        } else {
            assert(second[i - first.len()] == item);
        }
    }
    if first.contains(item) {
        let i = choose|i: int| 0 <= i < first.len() && first[i] == item;
        assert(both[i] == item);
    }
    if second.contains(item) {
        let i = choose|i: int| 0 <= i < second.len() && second[i] == item;
        assert(both[first.len() + i] == item);
    }
}

} // verus!
