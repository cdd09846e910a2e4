use vstd::prelude::*;

use crate::dispatch::{
    begin_at, exit_code_of, run_from, step_spec, Action, Dispatcher, Event, ExitStatus, Phase,
};
use crate::variant::{device_kind_of, DeviceKind, Features, Variant};

verus! {

/// The actions of a whole process run of a build, given what the surrounding
/// program reports in turn.
pub open spec fn process_run(f: Features, events: Seq<Event>) -> Seq<Action> {
    run_from(Dispatcher::initial(f), events)
}

/// `n` rounds of a device that resolves followed by a training that returns.
pub open spec fn clean_rounds(n: nat) -> Seq<Event>
    decreases n,
{
    if n == 0 {
        seq![]
    } else {
        seq![Event::DeviceReady, Event::TrainingReturned] + clean_rounds((n - 1) as nat)
    }
}

/// What a process reports when nothing fails and `n` variants are enabled.
pub open spec fn clean_events(n: nat) -> Seq<Event> {
    seq![Event::Start] + clean_rounds(n)
}

/// For each variant of `plan` from index `p` on, construct its device and then
/// invoke its training; then exit successfully.
pub open spec fn clean_trace_from(plan: Seq<Variant>, p: nat) -> Seq<Action>
    decreases plan.len() - p,
{
    if p < plan.len() {
        seq![Action::ConstructDevice(plan[p as int]), Action::InvokeTraining(plan[p as int])]
            + clean_trace_from(plan, p + 1)
    } else {
        seq![Action::Exit(ExitStatus::Success)]
    }
}

/// The actions of a run in which nothing fails.
pub open spec fn clean_trace(plan: Seq<Variant>) -> Seq<Action> {
    clean_trace_from(plan, 0)
}

/// The plan of each of the four builds.
pub proof fn lemma_plan_shape(f: Features)
    ensures
        f.array_backend && f.gpu_backend ==> f.plan() == seq![Variant::Array, Variant::Gpu],
        f.array_backend && !f.gpu_backend ==> f.plan() == seq![Variant::Array],
        !f.array_backend && f.gpu_backend ==> f.plan() == seq![Variant::Gpu],
        !f.array_backend && !f.gpu_backend ==> f.plan() == Seq::<Variant>::empty(),
        forall|k: int| 0 <= k < f.plan().len() ==> #[trigger] f.enabled(f.plan()[k]),
{
    if f.array_backend && f.gpu_backend {
        assert(f.plan() =~= seq![Variant::Array, Variant::Gpu]);
    } else if f.array_backend {
        assert(f.plan() =~= seq![Variant::Array]);
    } else if f.gpu_backend {
        assert(f.plan() =~= seq![Variant::Gpu]);
    } else {
        assert(f.plan() =~= Seq::<Variant>::empty());
    }
}

/// A step from a well-formed state reaches a well-formed state.
pub proof fn lemma_step_wf(s: Dispatcher, e: Event)
    requires
        s.wf(),
    ensures
        step_spec(s, e).0.wf(),
        step_spec(s, e).0.features == s.features,
{
}

/// Unfold a run by its first event.
proof fn lemma_run_cons(s: Dispatcher, e: Event, rest: Seq<Event>)
    ensures
        run_from(s, seq![e] + rest) == seq![step_spec(s, e).1] + run_from(step_spec(s, e).0, rest),
{
    assert((seq![e] + rest).drop_first() =~= rest);
}

/// Once the process is done, every further event is ignored.
pub proof fn lemma_finished_is_final(s: Dispatcher, events: Seq<Event>)
    requires
        s.phase is Finished,
    ensures
        forall|i: int| 0 <= i < run_from(s, events).len() ==> #[trigger] run_from(s, events)[i] == Action::Idle,
    decreases events.len(),
{
    if events.len() > 0 {
        let t = step_spec(s, events[0]).0;
        lemma_finished_is_final(t, events.drop_first());
        assert forall|i: int| 0 <= i < run_from(s, events).len() implies #[trigger] run_from(s, events)[i] == Action::Idle by {
            if i > 0 {
                assert(run_from(s, events)[i] == run_from(t, events.drop_first())[i - 1]);
            }
        }
    }
}

/// From any well-formed state, only enabled variants have their device
/// constructed or their training invoked.
proof fn lemma_only_enabled_from(s: Dispatcher, events: Seq<Event>)
    requires
        s.wf(),
    ensures
        forall|i: int| 0 <= i < run_from(s, events).len() ==> match #[trigger] run_from(s, events)[i] {
            Action::ConstructDevice(w) => s.features.enabled(w),
            Action::InvokeTraining(w) => s.features.enabled(w),
            _ => true,
        },
    decreases events.len(),
{
    lemma_plan_shape(s.features);
    if events.len() > 0 {
        let t = step_spec(s, events[0]).0;
        lemma_step_wf(s, events[0]);
        lemma_only_enabled_from(t, events.drop_first());
        assert forall|i: int| 0 <= i < run_from(s, events).len() implies match #[trigger] run_from(s, events)[i] {
            Action::ConstructDevice(w) => s.features.enabled(w),
            Action::InvokeTraining(w) => s.features.enabled(w),
            _ => true,
        } by {
            if i > 0 {
                assert(run_from(s, events)[i] == run_from(t, events.drop_first())[i - 1]);
            }
        }
    }
}

/// Only the variants a build enables ever have a device constructed or a
/// training invoked, whatever the surrounding program reports.
pub proof fn lemma_only_enabled_variants_run(f: Features, events: Seq<Event>)
    ensures
        forall|i: int| 0 <= i < process_run(f, events).len() ==> match #[trigger] process_run(f, events)[i] {
            Action::ConstructDevice(w) => f.enabled(w),
            Action::InvokeTraining(w) => f.enabled(w),
            _ => true,
        },
{
    lemma_only_enabled_from(Dispatcher::initial(f), events);
}

/// A run in which nothing fails, from the start of the variant at index `p`.
proof fn lemma_clean_from(f: Features, p: usize)
    requires
        p <= f.plan().len(),
    ensures
        seq![begin_at(f, p).1] + run_from(begin_at(f, p).0, clean_rounds((f.plan().len() - p) as nat))
            == clean_trace_from(f.plan(), p as nat),
    decreases f.plan().len() - p,
{
    let n = (f.plan().len() - p) as nat;
    let (s, a) = begin_at(f, p);
    if p < f.plan().len() {
        let v = f.plan()[p as int];
        let s1 = step_spec(s, Event::DeviceReady).0;
        let s2 = step_spec(s1, Event::TrainingReturned).0;
        let rest = clean_rounds((n - 1) as nat);
        assert(clean_rounds(n) =~= seq![Event::DeviceReady] + (seq![Event::TrainingReturned] + rest));
        lemma_run_cons(s, Event::DeviceReady, seq![Event::TrainingReturned] + rest);
        lemma_run_cons(s1, Event::TrainingReturned, rest);
        assert(s2 == begin_at(f, (p + 1) as usize).0);
        lemma_clean_from(f, (p + 1) as usize);
        assert(seq![a] + run_from(s, clean_rounds(n)) =~= seq![
            Action::ConstructDevice(v),
            Action::InvokeTraining(v),
        ] + clean_trace_from(f.plan(), (p + 1) as nat));
    } else {
        assert(seq![a] + run_from(s, clean_rounds(n)) =~= seq![Action::Exit(ExitStatus::Success)]);
    }
}

/// When every device resolves and every training returns, the process runs
/// each enabled variant in plan order, device first, and then exits with
/// status zero.
pub proof fn lemma_clean_run(f: Features)
    ensures
        process_run(f, clean_events(f.plan().len())) == clean_trace(f.plan()),
{
    lemma_run_cons(Dispatcher::initial(f), Event::Start, clean_rounds(f.plan().len()));
    lemma_clean_from(f, 0);
}

/// From a state of a build with nothing enabled that has not started or has
/// finished cleanly, the only actions are a clean exit or nothing.
proof fn lemma_empty_from(s: Dispatcher, events: Seq<Event>)
    requires
        s.wf(),
        s.features.plan().len() == 0,
        s.phase == Phase::NotStarted || s.phase == Phase::Finished(ExitStatus::Success),
    ensures
        forall|i: int| 0 <= i < run_from(s, events).len() ==> #[trigger] run_from(s, events)[i]
            == Action::Exit(ExitStatus::Success) || run_from(s, events)[i] == Action::Idle,
    decreases events.len(),
{
    if events.len() > 0 {
        let t = step_spec(s, events[0]).0;
        lemma_empty_from(t, events.drop_first());
        assert forall|i: int| 0 <= i < run_from(s, events).len() implies #[trigger] run_from(s, events)[i]
            == Action::Exit(ExitStatus::Success) || run_from(s, events)[i] == Action::Idle by {
            if i > 0 {
                assert(run_from(s, events)[i] == run_from(t, events.drop_first())[i - 1]);
            }
        }
    }
}

/// A build with no variant enabled constructs no device, invokes no training,
/// and exits with status zero as soon as it starts.
pub proof fn lemma_empty_build_does_no_work(f: Features, events: Seq<Event>)
    requires
        !f.array_backend,
        !f.gpu_backend,
    ensures
        forall|i: int| 0 <= i < process_run(f, events).len() ==> #[trigger] process_run(f, events)[i]
            == Action::Exit(ExitStatus::Success) || process_run(f, events)[i] == Action::Idle,
        events.len() > 0 && events[0] == Event::Start ==> process_run(f, events)[0] == Action::Exit(
            ExitStatus::Success,
        ),
        exit_code_of(ExitStatus::Success) == 0,
{
    lemma_plan_shape(f);
    lemma_empty_from(Dispatcher::initial(f), events);
}

/// With one variant enabled, once its device is requested no device is
/// requested again.
proof fn lemma_single_no_construct_after_start(s: Dispatcher, events: Seq<Event>)
    requires
        s.wf(),
        s.features.plan().len() == 1,
        s.phase != Phase::NotStarted,
    ensures
        forall|i: int| 0 <= i < run_from(s, events).len() ==> !(#[trigger] run_from(s, events)[i] is ConstructDevice),
    decreases events.len(),
{
    if events.len() > 0 {
        let t = step_spec(s, events[0]).0;
        lemma_step_wf(s, events[0]);
        lemma_single_no_construct_after_start(t, events.drop_first());
        assert forall|i: int| 0 <= i < run_from(s, events).len() implies !(#[trigger] run_from(s, events)[i] is ConstructDevice) by {
            if i > 0 {
                assert(run_from(s, events)[i] == run_from(t, events.drop_first())[i - 1]);
            }
        }
    }
}

/// With one variant enabled, once its training is invoked no training is
/// invoked again.
proof fn lemma_single_no_invoke_after_invoke(s: Dispatcher, events: Seq<Event>)
    requires
        s.wf(),
        s.features.plan().len() == 1,
        s.phase is Training || s.phase is Finished,
    ensures
        forall|i: int| 0 <= i < run_from(s, events).len() ==> !(#[trigger] run_from(s, events)[i] is InvokeTraining),
    decreases events.len(),
{
    if events.len() > 0 {
        let t = step_spec(s, events[0]).0;
        lemma_step_wf(s, events[0]);
        lemma_single_no_invoke_after_invoke(t, events.drop_first());
        assert forall|i: int| 0 <= i < run_from(s, events).len() implies !(#[trigger] run_from(s, events)[i] is InvokeTraining) by {
            if i > 0 {
                assert(run_from(s, events)[i] == run_from(t, events.drop_first())[i - 1]);
            }
        }
    }
}

/// With one variant enabled, no two actions of a run both construct a device,
/// and no two both invoke the training.
proof fn lemma_single_at_most_once_from(s: Dispatcher, events: Seq<Event>)
    requires
        s.wf(),
        s.features.plan().len() == 1,
    ensures
        forall|i: int, j: int|
            0 <= i < j < run_from(s, events).len() ==> !(#[trigger] run_from(s, events)[i] is ConstructDevice
                && #[trigger] run_from(s, events)[j] is ConstructDevice) && !(run_from(s, events)[i] is InvokeTraining
                && run_from(s, events)[j] is InvokeTraining),
    decreases events.len(),
{
    if events.len() > 0 {
        let (t, a) = step_spec(s, events[0]);
        let run = run_from(s, events);
        let rest = run_from(t, events.drop_first());
        lemma_step_wf(s, events[0]);
        lemma_single_at_most_once_from(t, events.drop_first());
        if a is ConstructDevice {
            lemma_single_no_construct_after_start(t, events.drop_first());
        }
        if a is InvokeTraining {
            lemma_single_no_invoke_after_invoke(t, events.drop_first());
        }
        assert forall|i: int, j: int| 0 <= i < j < run.len() implies !(#[trigger] run[i] is ConstructDevice
            && #[trigger] run[j] is ConstructDevice) && !(run[i] is InvokeTraining && run[j] is InvokeTraining) by {
            assert(run[j] == rest[j - 1]);
            if i > 0 {
                assert(run[i] == rest[i - 1]);
            }
        }
    }
}

/// A build with exactly one variant enabled constructs at most one device
/// handle and invokes the training at most once, both for that variant; when
/// nothing fails it does each exactly once, on that variant's device kind,
/// and exits with status zero.
pub proof fn lemma_single_variant_runs_once(f: Features, events: Seq<Event>)
    requires
        f.array_backend != f.gpu_backend,
    ensures
        f.plan().len() == 1,
        f.enabled(f.plan()[0]),
        forall|i: int| 0 <= i < process_run(f, events).len() ==> match #[trigger] process_run(f, events)[i] {
            Action::ConstructDevice(w) => w == f.plan()[0],
            Action::InvokeTraining(w) => w == f.plan()[0],
            _ => true,
        },
        forall|i: int, j: int|
            0 <= i < j < process_run(f, events).len() ==> !(#[trigger] process_run(f, events)[i] is ConstructDevice
                && #[trigger] process_run(f, events)[j] is ConstructDevice) && !(process_run(f, events)[i] is InvokeTraining
                && process_run(f, events)[j] is InvokeTraining),
        process_run(f, seq![Event::Start, Event::DeviceReady, Event::TrainingReturned]) == seq![
            Action::ConstructDevice(f.plan()[0]),
            Action::InvokeTraining(f.plan()[0]),
            Action::Exit(ExitStatus::Success),
        ],
        device_kind_of(f.plan()[0]) == (if f.array_backend {
            DeviceKind::Cpu
        } else {
            DeviceKind::DefaultGpu
        }),
{
    lemma_plan_shape(f);
    lemma_only_enabled_from(Dispatcher::initial(f), events);
    lemma_single_at_most_once_from(Dispatcher::initial(f), events);
    lemma_clean_run(f);
    let v = f.plan()[0];
    assert(clean_events(1) =~= seq![Event::Start, Event::DeviceReady, Event::TrainingReturned]) by {
        assert(clean_rounds(0) =~= Seq::<Event>::empty());
    }
    assert(clean_trace_from(f.plan(), 1) == seq![Action::Exit(ExitStatus::Success)]);
    assert(clean_trace(f.plan()) =~= seq![
        Action::ConstructDevice(v),
        Action::InvokeTraining(v),
        Action::Exit(ExitStatus::Success),
    ]);
}

/// With both variants enabled, the GPU device is requested only when the
/// array backend's training has just returned: never before it, never while
/// it runs, and never after it failed.
pub proof fn lemma_gpu_waits_for_array(s: Dispatcher, e: Event)
    requires
        s.wf(),
        s.features.array_backend,
        step_spec(s, e).1 == Action::ConstructDevice(Variant::Gpu),
    ensures
        e == Event::TrainingReturned,
        s.phase == Phase::Training,
        s.current() == Variant::Array,
{
    lemma_plan_shape(s.features);
}

/// A variant's training phase is entered only by invoking its training, right
/// after its device was constructed.
pub proof fn lemma_training_starts_by_invocation(s: Dispatcher, e: Event)
    requires
        s.wf(),
        s.phase != Phase::Training,
        step_spec(s, e).0.phase == Phase::Training,
    ensures
        s.phase == Phase::AwaitingDevice,
        e == Event::DeviceReady,
        step_spec(s, e).1 == Action::InvokeTraining(s.current()),
        step_spec(s, e).0.current() == s.current(),
{
    lemma_plan_shape(s.features);
}

/// With both variants enabled and nothing failing, the array backend is
/// constructed and trained before the GPU backend is, and the process then
/// exits with status zero.
pub proof fn lemma_both_run_in_order(f: Features)
    requires
        f.array_backend,
        f.gpu_backend,
    ensures
        process_run(f, clean_events(2)) == seq![
            Action::ConstructDevice(Variant::Array),
            Action::InvokeTraining(Variant::Array),
            Action::ConstructDevice(Variant::Gpu),
            Action::InvokeTraining(Variant::Gpu),
            Action::Exit(ExitStatus::Success),
        ],
{
    lemma_plan_shape(f);
    lemma_clean_run(f);
    assert(clean_trace_from(f.plan(), 2) == seq![Action::Exit(ExitStatus::Success)]);
    assert(clean_trace_from(f.plan(), 1) =~= seq![
        Action::ConstructDevice(Variant::Gpu),
        Action::InvokeTraining(Variant::Gpu),
        Action::Exit(ExitStatus::Success),
    ]);
    assert(clean_trace(f.plan()) =~= seq![
        Action::ConstructDevice(Variant::Array),
        Action::InvokeTraining(Variant::Array),
        Action::ConstructDevice(Variant::Gpu),
        Action::InvokeTraining(Variant::Gpu),
        Action::Exit(ExitStatus::Success),
    ]);
}

/// When a device cannot be resolved the process exits with a non-zero
/// status, and that variant's training is never invoked: every later event
/// is ignored.
pub proof fn lemma_device_failure_is_fatal(s: Dispatcher, events: Seq<Event>)
    requires
        s.wf(),
        s.phase == Phase::AwaitingDevice,
    ensures
        step_spec(s, Event::DeviceFailed).1 == Action::Exit(ExitStatus::Failure),
        exit_code_of(ExitStatus::Failure) != 0,
        forall|i: int|
            0 <= i < run_from(step_spec(s, Event::DeviceFailed).0, events).len() ==> #[trigger] run_from(
                step_spec(s, Event::DeviceFailed).0,
                events,
            )[i] == Action::Idle,
{
    lemma_finished_is_final(step_spec(s, Event::DeviceFailed).0, events);
}

/// Two runs of the same build, given the same reports, take the same actions:
/// the same device kinds in the same order and the same training invocations.
pub proof fn lemma_dispatch_is_repeatable(f1: Features, f2: Features, events: Seq<Event>)
    requires
        f1 == f2,
    ensures
        process_run(f1, events) == process_run(f2, events),
{
}

} // verus!
