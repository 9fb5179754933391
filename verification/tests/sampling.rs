use oasystem::cpu::CpuUsage;
use oasystem::{Action, BroadcastLoop};
use oasystem::cycle::Event;
use oasystem::format::DisplayText;
use oasystem::kind::MetricKind;
use oasystem::sample::Sample;
use oasystem::sampler::{os_version_title, MetricSampler};

/// Answers lookups with `visible` instances and pushes with `outcome`, until
/// the loop waits again; returns the actions on the way, the wait included.
fn run_cycle(looped: &mut BroadcastLoop, visible: usize, outcome: bool) -> Vec<Action> {
    let mut actions = Vec::new();
    let mut action = looped.advance(Event::WaitElapsed);
    loop {
        actions.push(action.clone());
        assert!(actions.len() <= 3 * (visible + 1) + 1);
        action = match action {
            Action::Wait => return actions,
            Action::Lookup(_) => looped.advance(Event::Visible(visible)),
            Action::Push { .. } => looped.advance(Event::Pushed(outcome)),
        };
    }
}

fn kinds_looked_up(actions: &[Action]) -> Vec<MetricKind> {
    let mut kinds = Vec::new();
    for action in actions {
        if let Action::Lookup(kind) = action {
            kinds.push(*kind);
        }
    }
    kinds
}

fn pushes(actions: &[Action], of: MetricKind) -> Vec<(usize, DisplayText)> {
    let mut found = Vec::new();
    for action in actions {
        if let Action::Push { kind, index, text } = action {
            if *kind == of {
                found.push((*index, text.clone()));
            }
        }
    }
    found
}

#[test]
fn a_sample_has_the_kind_that_was_asked_for() {
    let mut sampler = MetricSampler::new();
    sampler.open_cpu_window();
    for kind in [MetricKind::Cpu, MetricKind::Memory, MetricKind::Uptime] {
        if let Some(sample) = sampler.sample(kind) {
            assert_eq!(sample.kind(), kind);
        }
    }
}

#[test]
fn uptime_always_has_a_sample() {
    let mut sampler = MetricSampler::new();
    assert!(matches!(sampler.sample(MetricKind::Uptime), Some(Sample::Uptime(_))));
    let _secs: u64 = sampler.sample_uptime_seconds();
}

#[test]
fn a_memory_sample_is_a_count_of_bytes() {
    let mut sampler = MetricSampler::new();
    let bytes: Option<u64> = sampler.sample_memory_bytes();
    let sample = sampler.sample(MetricKind::Memory);
    assert_eq!(sample.is_some(), bytes.is_some());
    assert!(matches!(sample, None | Some(Sample::Memory(_))));
}

#[test]
fn a_cpu_sample_is_a_percentage() {
    let mut sampler = MetricSampler::new();
    sampler.open_cpu_window();
    if let Some(usage) = sampler.sample_cpu() {
        let load = f32::from_bits(usage.bits());
        assert!((0.0..=100.0).contains(&load));
        assert!(usage.percent() <= 100);
    }
}

#[test]
fn the_os_title_has_no_space() {
    let title = os_version_title();
    assert!(!title.is_empty());
    assert!(!title.contains(' '));
}

#[test]
fn a_new_loop_waits() {
    let looped = BroadcastLoop::new();
    assert_eq!(looped.pending(), Action::Wait);
}

#[test]
fn the_loop_asks_again_after_an_event_that_answers_nothing() {
    let mut looped = BroadcastLoop::new();
    assert_eq!(looped.advance(Event::Pushed(true)), Action::Wait);
    assert_eq!(looped.advance(Event::Visible(3)), Action::Wait);
    assert_eq!(looped.advance(Event::Sampled(true)), Action::Wait);
    let lookup = looped.advance(Event::WaitElapsed);
    assert!(matches!(lookup, Action::Lookup(_)));
    assert_eq!(looped.advance(Event::WaitElapsed), lookup);
    assert_eq!(looped.advance(Event::Pushed(false)), lookup);
    assert_eq!(looped.pending(), lookup);
}

#[test]
fn a_cycle_takes_the_kinds_in_order_and_waits_again() {
    let mut looped = BroadcastLoop::new();
    for _ in 0..2 {
        let actions = run_cycle(&mut looped, 0, true);
        let kinds = kinds_looked_up(&actions);
        let order = [MetricKind::Cpu, MetricKind::Memory, MetricKind::Uptime];
        let expected: Vec<MetricKind> =
            order.iter().copied().filter(|kind| kinds.contains(kind)).collect();
        assert_eq!(kinds, expected);
        assert_eq!(kinds.last(), Some(&MetricKind::Uptime));
        assert_eq!(actions.last(), Some(&Action::Wait));
        assert_eq!(actions.len(), kinds.len() + 1);
        assert_eq!(looped.pending(), Action::Wait);
    }
}

#[test]
fn every_visible_instance_is_pushed_the_same_text() {
    let mut looped = BroadcastLoop::new();
    let actions = run_cycle(&mut looped, 3, true);
    for kind in kinds_looked_up(&actions) {
        let found = pushes(&actions, kind);
        let indices: Vec<usize> = found.iter().map(|(index, _)| *index).collect();
        assert_eq!(indices, vec![0, 1, 2]);
        assert_eq!(found[0].1, found[1].1);
        assert_eq!(found[1].1, found[2].1);
    }
    for (_, text) in pushes(&actions, MetricKind::Memory) {
        assert!(text.primary.ends_with("GB"));
        assert_eq!(text.secondary, None);
    }
    let uptime = pushes(&actions, MetricKind::Uptime);
    assert!(uptime[0].1.primary.ends_with('h'));
    assert!(uptime[0].1.secondary.as_deref().expect("a second line").ends_with('s'));
    for (_, text) in pushes(&actions, MetricKind::Cpu) {
        assert!(text.primary.ends_with('%'));
    }
}

#[test]
fn failed_pushes_leave_the_cycle_as_it_is() {
    let mut looped = BroadcastLoop::new();
    let failed = run_cycle(&mut looped, 2, false);
    for kind in kinds_looked_up(&failed) {
        let indices: Vec<usize> = pushes(&failed, kind).iter().map(|(index, _)| *index).collect();
        assert_eq!(indices, vec![0, 1]);
    }
    assert_eq!(failed.last(), Some(&Action::Wait));
    assert!(pushes(&failed, MetricKind::Uptime).len() == 2);
}

#[test]
fn pushes_go_by_the_lookup_of_the_cycle() {
    let mut looped = BroadcastLoop::new();
    let first = run_cycle(&mut looped, 1, true);
    assert_eq!(pushes(&first, MetricKind::Uptime).len(), 1);
    let second = run_cycle(&mut looped, 2, true);
    let indices: Vec<usize> =
        pushes(&second, MetricKind::Uptime).iter().map(|(index, _)| *index).collect();
    assert_eq!(indices, vec![0, 1]);
    let third = run_cycle(&mut looped, 0, true);
    assert!(pushes(&third, MetricKind::Uptime).is_empty());
    assert!(pushes(&third, MetricKind::Memory).is_empty());
}

#[test]
fn a_sample_taken_in_is_rendered_and_looked_up_for() {
    let mut looped = BroadcastLoop::new();
    assert!(looped.take(Some(Sample::Memory(2147483648))));
    assert_eq!(looped.pending(), Action::Lookup(MetricKind::Memory));
    let push = looped.advance(Event::Visible(2));
    let text = DisplayText { primary: "2.0GB".to_string(), secondary: None };
    assert_eq!(push, Action::Push { kind: MetricKind::Memory, index: 0, text: text.clone() });
    let push = looped.advance(Event::Pushed(false));
    assert_eq!(push, Action::Push { kind: MetricKind::Memory, index: 1, text });
}

#[test]
fn each_kind_of_sample_is_taken_in_by_its_own_rule() {
    let mut looped = BroadcastLoop::new();
    let usage = CpuUsage::from_bits(37.4f32.to_bits()).expect("a percentage");
    assert!(looped.take(Some(Sample::Cpu(usage))));
    assert_eq!(looped.pending(), Action::Lookup(MetricKind::Cpu));
    match looped.advance(Event::Visible(1)) {
        Action::Push { kind, index, text } => {
            assert_eq!((kind, index), (MetricKind::Cpu, 0));
            assert_eq!(text.title(), "37%");
        }
        other => panic!("no push: {:?}", other),
    }
    assert!(looped.take(Some(Sample::Uptime(90000))));
    assert_eq!(looped.pending(), Action::Lookup(MetricKind::Uptime));
    match looped.advance(Event::Visible(1)) {
        Action::Push { kind, index, text } => {
            assert_eq!((kind, index), (MetricKind::Uptime, 0));
            assert_eq!(text.title(), "1d 01h\n00m 00s");
        }
        other => panic!("no push: {:?}", other),
    }
    assert_eq!(looped.advance(Event::Pushed(true)), Action::Wait);
}

#[test]
fn no_sample_taken_in_changes_nothing() {
    let mut looped = BroadcastLoop::new();
    assert!(!looped.take(None));
    assert_eq!(looped.pending(), Action::Wait);
    assert!(looped.take(Some(Sample::Memory(0))));
    let push = looped.advance(Event::Visible(1));
    assert!(!looped.take(None));
    assert_eq!(looped.pending(), push);
}
