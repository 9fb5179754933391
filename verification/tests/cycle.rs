use oasystem::cycle::{Command, Event, Phase, CADENCE_SECONDS};
use oasystem::kind::{MetricKind, CPU_ID, MEMORY_ID, OS_ID, UPTIME_ID};

/// Runs the machine over the events and returns the command given after each.
fn commands(start: Phase, events: &[Event]) -> (Phase, Vec<Command>) {
    let mut phase = start;
    let mut given = Vec::new();
    for event in events {
        phase = phase.step(*event);
        given.push(phase.command());
    }
    (phase, given)
}

fn push(kind: MetricKind, index: usize) -> Command {
    Command::Push { kind, index }
}

#[test]
fn kinds_have_their_identifiers() {
    assert_eq!(MetricKind::Cpu.id(), "me.amankhanna.oasystem.cpu");
    assert_eq!(MetricKind::Memory.id(), "me.amankhanna.oasystem.ram");
    assert_eq!(MetricKind::Uptime.id(), "me.amankhanna.oasystem.uptime");
    assert_eq!(CPU_ID, MetricKind::Cpu.id());
    assert_eq!(MEMORY_ID, MetricKind::Memory.id());
    assert_eq!(UPTIME_ID, MetricKind::Uptime.id());
    assert_eq!(OS_ID, "me.amankhanna.oasystem.os");
}

#[test]
fn cadence_is_one_second() {
    assert_eq!(CADENCE_SECONDS, 1);
}

#[test]
fn a_cycle_samples_cpu_first() {
    assert_eq!(Phase::Waiting.command(), Command::Wait);
    let next = Phase::Waiting.step(Event::WaitElapsed);
    assert_eq!(next, Phase::Sampling(MetricKind::Cpu));
    assert_eq!(next.command(), Command::Sample(MetricKind::Cpu));
}

#[test]
fn the_kinds_follow_in_fixed_order() {
    assert_eq!(Phase::done_with(MetricKind::Cpu), Phase::Sampling(MetricKind::Memory));
    assert_eq!(Phase::done_with(MetricKind::Memory), Phase::Sampling(MetricKind::Uptime));
    assert_eq!(Phase::done_with(MetricKind::Uptime), Phase::Waiting);
}

#[test]
fn a_sample_is_followed_by_the_lookup() {
    let next = Phase::Sampling(MetricKind::Memory).step(Event::Sampled(true));
    assert_eq!(next, Phase::Listing(MetricKind::Memory));
    assert_eq!(next.command(), Command::Lookup(MetricKind::Memory));
}

#[test]
fn a_kind_without_a_sample_is_passed_over() {
    let next = Phase::Sampling(MetricKind::Cpu).step(Event::Sampled(false));
    assert_eq!(next, Phase::Sampling(MetricKind::Memory));
    let next = Phase::Sampling(MetricKind::Uptime).step(Event::Sampled(false));
    assert_eq!(next, Phase::Waiting);
}

#[test]
fn no_visible_instance_means_no_push() {
    let next = Phase::Listing(MetricKind::Cpu).step(Event::Visible(0));
    assert_eq!(next, Phase::Sampling(MetricKind::Memory));
    let (end, given) = commands(
        Phase::Waiting,
        &[
            Event::WaitElapsed,
            Event::Sampled(true),
            Event::Visible(0),
            Event::Sampled(true),
            Event::Visible(0),
            Event::Sampled(true),
            Event::Visible(0),
        ],
    );
    assert_eq!(end, Phase::Waiting);
    assert!(given.iter().all(|c| !matches!(c, Command::Push { .. })));
    assert_eq!(given.last(), Some(&Command::Wait));
}

#[test]
fn every_visible_instance_gets_a_push_in_order() {
    let (end, given) = commands(
        Phase::Listing(MetricKind::Cpu),
        &[Event::Visible(3), Event::Pushed(true), Event::Pushed(true), Event::Pushed(true)],
    );
    assert_eq!(end, Phase::Sampling(MetricKind::Memory));
    assert_eq!(
        given,
        vec![
            push(MetricKind::Cpu, 0),
            push(MetricKind::Cpu, 1),
            push(MetricKind::Cpu, 2),
            Command::Sample(MetricKind::Memory),
        ]
    );
}

#[test]
fn a_failed_push_does_not_stop_the_others() {
    let succeeded = commands(
        Phase::Listing(MetricKind::Uptime),
        &[Event::Visible(3), Event::Pushed(true), Event::Pushed(true), Event::Pushed(true)],
    );
    for outcomes in [[false, true, true], [true, false, true], [false, false, false]] {
        let failed = commands(
            Phase::Listing(MetricKind::Uptime),
            &[
                Event::Visible(3),
                Event::Pushed(outcomes[0]),
                Event::Pushed(outcomes[1]),
                Event::Pushed(outcomes[2]),
            ],
        );
        assert_eq!(failed, succeeded);
    }
    assert_eq!(succeeded.0, Phase::Waiting);
    assert_eq!(succeeded.1.last(), Some(&Command::Wait));
}

#[test]
fn a_failed_push_for_one_kind_does_not_stop_the_other_kinds() {
    let (end, given) = commands(
        Phase::Waiting,
        &[
            Event::WaitElapsed,
            Event::Sampled(true),
            Event::Visible(1),
            Event::Pushed(false),
            Event::Sampled(true),
            Event::Visible(2),
            Event::Pushed(false),
            Event::Pushed(false),
            Event::Sampled(true),
            Event::Visible(1),
            Event::Pushed(false),
        ],
    );
    assert_eq!(end, Phase::Waiting);
    assert_eq!(
        given,
        vec![
            Command::Sample(MetricKind::Cpu),
            Command::Lookup(MetricKind::Cpu),
            push(MetricKind::Cpu, 0),
            Command::Sample(MetricKind::Memory),
            Command::Lookup(MetricKind::Memory),
            push(MetricKind::Memory, 0),
            push(MetricKind::Memory, 1),
            Command::Sample(MetricKind::Uptime),
            Command::Lookup(MetricKind::Uptime),
            push(MetricKind::Uptime, 0),
            Command::Wait,
        ]
    );
}

#[test]
fn an_instance_that_becomes_visible_is_pushed_to_from_that_cycle_on() {
    let cycle = |visible: usize| {
        let mut events = vec![Event::WaitElapsed, Event::Sampled(true), Event::Visible(visible)];
        for _ in 0..visible {
            events.push(Event::Pushed(true));
        }
        events.extend([Event::Sampled(false), Event::Sampled(false)]);
        events
    };
    let (end, first) = commands(Phase::Waiting, &cycle(1));
    assert_eq!(end, Phase::Waiting);
    assert!(first.contains(&push(MetricKind::Cpu, 0)));
    assert!(!first.contains(&push(MetricKind::Cpu, 1)));
    let (end, second) = commands(end, &cycle(2));
    assert_eq!(end, Phase::Waiting);
    assert!(second.contains(&push(MetricKind::Cpu, 0)));
    assert!(second.contains(&push(MetricKind::Cpu, 1)));
    let (_, third) = commands(end, &cycle(1));
    assert_eq!(third, first);
}

#[test]
fn an_event_that_answers_nothing_changes_nothing() {
    let pushing = Phase::Pushing { kind: MetricKind::Cpu, index: 1, count: 3 };
    assert_eq!(Phase::Waiting.step(Event::Pushed(true)), Phase::Waiting);
    assert_eq!(Phase::Waiting.step(Event::Visible(4)), Phase::Waiting);
    assert_eq!(Phase::Waiting.step(Event::Sampled(true)), Phase::Waiting);
    assert_eq!(
        Phase::Sampling(MetricKind::Cpu).step(Event::WaitElapsed),
        Phase::Sampling(MetricKind::Cpu)
    );
    assert_eq!(
        Phase::Listing(MetricKind::Cpu).step(Event::Pushed(true)),
        Phase::Listing(MetricKind::Cpu)
    );
    assert_eq!(pushing.step(Event::Visible(9)), pushing);
    assert_eq!(pushing.step(Event::WaitElapsed), pushing);
    assert_eq!(pushing.step(Event::Sampled(false)), pushing);
}

#[test]
fn the_last_push_ends_the_kind() {
    let last = Phase::Pushing { kind: MetricKind::Memory, index: 2, count: 3 };
    assert_eq!(last.step(Event::Pushed(false)), Phase::Sampling(MetricKind::Uptime));
    let most = Phase::Pushing { kind: MetricKind::Memory, index: usize::MAX - 1, count: usize::MAX };
    assert_eq!(most.step(Event::Pushed(true)), Phase::Sampling(MetricKind::Uptime));
    let one = Phase::Pushing { kind: MetricKind::Uptime, index: 0, count: 1 };
    assert_eq!(one.step(Event::Pushed(true)), Phase::Waiting);
}
