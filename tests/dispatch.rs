use iris_dispatch::dispatch::{Action, Dispatcher, Event, ExitStatus};
use iris_dispatch::variant::{DeviceKind, Features, Variant};

/// Drives a dispatcher the way a process does: starts it, then answers each
/// request with the next outcome from `outcomes`, and records every action.
fn drive(features: Features, outcomes: &[Event]) -> Vec<Action> {
    let mut d = Dispatcher::new(features);
    let mut actions = vec![d.step(Event::Start)];
    for e in outcomes {
        actions.push(d.step(*e));
    }
    actions
}

fn clean(features: Features) -> Vec<Action> {
    let n = features.variants().len();
    let mut outcomes = Vec::new();
    for _ in 0..n {
        outcomes.push(Event::DeviceReady);
        outcomes.push(Event::TrainingReturned);
    }
    drive(features, &outcomes)
}

#[test]
fn empty_build_exits_at_once() {
    let f = Features::none();
    assert!(f.variants().is_empty());
    let mut d = Dispatcher::new(f);
    let a = d.step(Event::Start);
    assert_eq!(a, Action::Exit(ExitStatus::Success));
    assert!(d.is_finished());
    assert_eq!(ExitStatus::Success.code(), 0);
    for e in [Event::DeviceReady, Event::TrainingReturned, Event::Start, Event::DeviceFailed] {
        assert_eq!(d.step(e), Action::Idle);
    }
}

#[test]
fn array_only_build_runs_once_on_cpu() {
    let f = Features::new(true, false);
    assert_eq!(
        clean(f),
        vec![
            Action::ConstructDevice(Variant::Array),
            Action::InvokeTraining(Variant::Array),
            Action::Exit(ExitStatus::Success),
        ]
    );
    assert_eq!(Variant::Array.device_kind(), DeviceKind::Cpu);
    assert!(!Variant::Array.device_may_fail());
}

#[test]
fn gpu_only_build_runs_once_on_default_gpu() {
    let f = Features::new(false, true);
    assert_eq!(
        clean(f),
        vec![
            Action::ConstructDevice(Variant::Gpu),
            Action::InvokeTraining(Variant::Gpu),
            Action::Exit(ExitStatus::Success),
        ]
    );
    assert_eq!(Variant::Gpu.device_kind(), DeviceKind::DefaultGpu);
    assert!(Variant::Gpu.device_may_fail());
}

#[test]
fn both_variants_run_array_first() {
    let f = Features::new(true, true);
    assert_eq!(f.variants(), vec![Variant::Array, Variant::Gpu]);
    assert_eq!(
        clean(f),
        vec![
            Action::ConstructDevice(Variant::Array),
            Action::InvokeTraining(Variant::Array),
            Action::ConstructDevice(Variant::Gpu),
            Action::InvokeTraining(Variant::Gpu),
            Action::Exit(ExitStatus::Success),
        ]
    );
}

#[test]
fn gpu_waits_while_array_trains() {
    let f = Features::new(true, true);
    let mut d = Dispatcher::new(f);
    assert_eq!(d.step(Event::Start), Action::ConstructDevice(Variant::Array));
    assert_eq!(d.step(Event::DeviceReady), Action::InvokeTraining(Variant::Array));
    // Reports that do not apply while the array backend trains change nothing.
    assert_eq!(d.step(Event::DeviceReady), Action::Idle);
    assert_eq!(d.step(Event::Start), Action::Idle);
    assert_eq!(d.step(Event::TrainingReturned), Action::ConstructDevice(Variant::Gpu));
}

#[test]
fn array_training_failure_stops_before_gpu() {
    let actions = drive(
        Features::new(true, true),
        &[Event::DeviceReady, Event::TrainingFailed, Event::DeviceReady, Event::TrainingReturned],
    );
    assert_eq!(
        actions,
        vec![
            Action::ConstructDevice(Variant::Array),
            Action::InvokeTraining(Variant::Array),
            Action::Exit(ExitStatus::Failure),
            Action::Idle,
            Action::Idle,
        ]
    );
}

#[test]
fn gpu_device_failure_is_fatal() {
    let actions = drive(
        Features::new(false, true),
        &[Event::DeviceFailed, Event::DeviceReady, Event::TrainingReturned],
    );
    assert_eq!(
        actions,
        vec![
            Action::ConstructDevice(Variant::Gpu),
            Action::Exit(ExitStatus::Failure),
            Action::Idle,
            Action::Idle,
        ]
    );
    assert_ne!(ExitStatus::Failure.code(), 0);
    assert!(!actions.contains(&Action::InvokeTraining(Variant::Gpu)));
}

#[test]
fn gpu_device_failure_after_array_keeps_array_run() {
    let actions = drive(
        Features::new(true, true),
        &[Event::DeviceReady, Event::TrainingReturned, Event::DeviceFailed],
    );
    assert_eq!(
        actions,
        vec![
            Action::ConstructDevice(Variant::Array),
            Action::InvokeTraining(Variant::Array),
            Action::ConstructDevice(Variant::Gpu),
            Action::Exit(ExitStatus::Failure),
        ]
    );
}

#[test]
fn two_runs_of_one_build_agree() {
    for (a, g) in [(false, false), (true, false), (false, true), (true, true)] {
        let f = Features::new(a, g);
        assert_eq!(clean(f), clean(f));
        let outcomes = [Event::DeviceReady, Event::TrainingFailed];
        assert_eq!(drive(f, &outcomes), drive(f, &outcomes));
    }
}

#[test]
fn switches_read_back() {
    let f = Features::new(false, true);
    assert!(!f.is_enabled(Variant::Array));
    assert!(f.is_enabled(Variant::Gpu));
    assert_eq!(f.variants(), vec![Variant::Gpu]);
    assert_eq!(Features::new(true, false).variants(), vec![Variant::Array]);
}
