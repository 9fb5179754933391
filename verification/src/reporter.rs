//! The broadcast loop: the cycle, together with the sampler that feeds it
//! and the text that is being pushed.
//!
//! Whoever runs the loop does what cannot be done here: it waits, asks the
//! instance directory, and pushes. It learns what to do from an [`Action`]
//! and reports the outcome as an [`Event`]. Sampling and rendering happen
//! inside, between one action and the next.

use vstd::prelude::*;
use vstd::pervasive::unreached;
use crate::cycle::{command, place, transition, Command, Event, Phase};
use crate::format::{display_of, DisplayLines, DisplayText};
use crate::kind::MetricKind;
use crate::sample::Sample;
use crate::sampler::MetricSampler;

verus! {

/// What the loop asks of whoever runs it.
#[derive(Clone, Debug, PartialEq, Eq)]
pub enum Action {
    /// Wait one cadence interval, then report `Event::WaitElapsed`.
    Wait,
    /// Ask the directory for the visible instances of the kind, keep them
    /// for the pushes that follow, and report their number as
    /// `Event::Visible`.
    Lookup(MetricKind),
    /// Push `text` to the instance at `index` of those kept, and report the
    /// attempt as `Event::Pushed`. The push need not have completed by then:
    /// a slow instance must not hold up the others.
    Push { kind: MetricKind, index: usize, text: DisplayText },
}

impl Action {
    /// The command of the cycle that this action carries out.
    pub open spec fn command(self) -> Command {
        match self {
            Action::Wait => Command::Wait,
            Action::Lookup(kind) => Command::Lookup(kind),
            Action::Push { kind, index, text } => Command::Push { kind, index },
        }
    }
}

/// Whether `sample` is a valid sample of `kind` and `lines` is its rendering.
pub open spec fn shows(sample: Option<Sample>, lines: DisplayLines, kind: MetricKind) -> bool {
    &&& sample matches Some(taken)
    &&& taken.spec_kind() == kind
    &&& taken.valid()
    &&& lines == display_of(taken)
}

/// What holds between any two actions of a loop that stands in `phase` with
/// `sample` taken last and `lines` rendered last: it does not stand at a
/// sampling, a push goes to one of the visible instances, and while the loop
/// looks up or pushes for a kind, the sample is a valid one of that kind and
/// the lines are the rendering of this sample.
pub open spec fn settled(phase: Phase, sample: Option<Sample>, lines: DisplayLines) -> bool {
    &&& phase.valid()
    &&& !(phase is Sampling)
    &&& (phase matches Phase::Listing(kind) ==> shows(sample, lines, kind))
    &&& (phase matches Phase::Pushing { kind, .. } ==> shows(sample, lines, kind))
}

/// Where the loop stands between two actions.
struct Progress {
    phase: Phase,
    sample: Option<Sample>,
    text: DisplayText,
}

impl Progress {
    #[verifier::type_invariant]
    spec fn well_formed(self) -> bool {
        settled(self.phase, self.sample, self.text@)
    }
}

/// The perpetual sampling and fan-out loop, one action at a time.
pub struct BroadcastLoop {
    sampler: MetricSampler,
    progress: Progress,
}

impl BroadcastLoop {
    /// The sampler that feeds the loop.
    pub closed spec fn sampler(self) -> MetricSampler {
        self.sampler
    }

    /// The phase in which the loop stands.
    pub closed spec fn phase(self) -> Phase {
        self.progress.phase
    }

    /// The sample that was taken last, if any was.
    pub closed spec fn sample(self) -> Option<Sample> {
        self.progress.sample
    }

    /// The lines of the text that was rendered last.
    pub closed spec fn lines(self) -> DisplayLines {
        self.progress.text@
    }

    /// What holds of the loop between any two actions.
    pub open spec fn settled(self) -> bool {
        settled(self.phase(), self.sample(), self.lines())
    }

    /// What holds of the loop when the kinds from `kind` on were sampled in
    /// turn until one had a sample: the loop stands at the lookup for a kind
    /// at or after `kind`; its sample is the one that the sampler holds for
    /// that kind; and for each kind that was passed over the sampler holds
    /// nothing that makes a sample.
    pub open spec fn sampled_from(self, kind: MetricKind) -> bool {
        &&& self.phase() matches Phase::Listing(taken)
        &&& place(kind) <= place(taken)
        &&& self.sampler().has_sample(taken)
        &&& self.sample() matches Some(sample)
        &&& self.sampler().holds(sample)
        &&& forall|passed: MetricKind|
            place(kind) <= place(passed) < place(taken)
                ==> !(#[trigger] self.sampler().has_sample(passed))
    }

    /// A loop at the start of its first wait. The sampler is made and the
    /// CPU counters are read, so that the first load is that of the first
    /// interval.
    pub fn new() -> (this: BroadcastLoop)
        ensures
            this.phase() == Phase::Waiting,
            this.sample() is None,
            this.settled(),
    {
        let mut sampler = MetricSampler::new();
        sampler.open_cpu_window();
        let text = DisplayText { primary: String::new(), secondary: None };
        BroadcastLoop { sampler, progress: Progress { phase: Phase::Waiting, sample: None, text } }
    }

    /// The action that the loop is waiting for: the one it asked for last.
    pub fn pending(&self) -> (action: Action)
        ensures
            self.settled(),
            action.command() == command(self.phase()),
            action matches Action::Push { text, .. } ==> text@ == self.lines(),
    {
        proof {
            use_type_invariant(&self.progress);
        }
        match self.progress.phase {
            Phase::Waiting => Action::Wait,
            Phase::Listing(kind) => Action::Lookup(kind),
            Phase::Pushing { kind, index, count } => Action::Push {
                kind,
                index,
                text: self.progress.text.duplicate(),
            },
            Phase::Sampling(_) => unreached(),
        }
    }

    /// Takes in the outcome of the pending action and says what to do next.
    ///
    /// The cycle moves as its transitions say. An event that does not
    /// answer the pending action changes nothing, and the action is asked
    /// for again. Where the cycle comes to a sampling, the sample is taken
    /// here: the loop goes on to the lookup for that kind with a fresh
    /// sample and its rendering, or, where the sampler holds nothing that
    /// makes a sample of the kind, passes it over and does the same for the
    /// kind after it. Otherwise sample and text stay as they are: every push
    /// for a kind carries the one text rendered for it in this cycle.
    pub fn advance(&mut self, event: Event) -> (action: Action)
        ensures
            final(self).settled(),
            match transition(old(self).phase(), event) {
                Phase::Sampling(kind) => final(self).sampled_from(kind),
                next => final(self).phase() == next && final(self).sample() == old(self).sample()
                    && final(self).lines() == old(self).lines(),
            },
            action.command() == command(final(self).phase()),
            action matches Action::Push { text, .. } ==> text@ == final(self).lines(),
    {
        proof {
            use_type_invariant(&self.progress);
        }
        let before = self.progress.phase;
        let next = before.step(event);
        match next {
            Phase::Sampling(kind) => {
                self.sample_from(kind);
            },
            Phase::Waiting => {
                if before != Phase::Waiting {
                    self.sampler.open_cpu_window();
                }
                self.progress.phase = next;
            },
            _ => {
                self.progress.phase = next;
            },
        }
        self.pending()
    }

    /// Takes in what sampling gave. A sample is kept and rendered, and the
    /// loop stands at the lookup for the kind of the sample; the result says
    /// so. Where there is no sample, nothing changes. The sampler is left as
    /// it is either way.
    pub fn take(&mut self, sample: Option<Sample>) -> (taken: bool)
        ensures
            taken == (sample is Some),
            final(self).settled(),
            final(self).sampler() == old(self).sampler(),
            sample matches Some(s) ==> final(self).phase() == Phase::Listing(s.spec_kind())
                && final(self).sample() == sample && final(self).lines() == display_of(s),
            sample is None ==> final(self).phase() == old(self).phase() && final(self).sample()
                == old(self).sample() && final(self).lines() == old(self).lines(),
    {
        proof {
            use_type_invariant(&self.progress);
        }
        match sample {
            Some(taken) => {
                match taken {
                    Sample::Cpu(usage) => {
                        proof {
                            use_type_invariant(&usage);
                        }
                    },
                    _ => {},
                }
                let text = crate::format::format(taken);
                self.progress = Progress {
                    phase: Phase::Listing(taken.kind()),
                    sample: Some(taken),
                    text,
                };
                true
            },
            None => false,
        }
    }

    /// Samples `kind` and takes the sample in; where the host reports no
    /// usable value, goes on to the kind after it.
    fn sample_from(&mut self, kind: MetricKind)
        ensures
            final(self).settled(),
            final(self).sampled_from(kind),
            kind != MetricKind::Cpu ==> final(self).sampler().cpu_bits()
                == old(self).sampler().cpu_bits(),
            kind == MetricKind::Uptime ==> final(self).sampler() == old(self).sampler(),
        decreases 2 - place(kind),
    {
        let sample = self.sampler.sample(kind);
        if !self.take(sample) {
            if let Phase::Sampling(next) = Phase::done_with(kind) {
                self.sample_from(next);
            }
        }
    }
}

} // verus!
