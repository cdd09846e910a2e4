use vstd::prelude::*;

use crate::variant::{Features, Variant};

verus! {

/// How the process ends.
#[derive(Clone, Copy, Debug, PartialEq, Eq, Structural)]
pub enum ExitStatus {
    /// Every enabled variant trained to completion, or none was enabled.
    Success,
    /// A device could not be resolved or a training run failed.
    Failure,
}

/// The process exit code of a status.
pub open spec fn exit_code_of(s: ExitStatus) -> i32 {
    match s {
        ExitStatus::Success => 0,
        ExitStatus::Failure => 1,
    }
}

impl ExitStatus {
    /// The process exit code: zero on success, non-zero on failure.
    pub fn code(self) -> (r: i32)
        ensures
            r == exit_code_of(self),
            (r == 0) == (self == ExitStatus::Success),
    {
        match self {
            ExitStatus::Success => 0,
            ExitStatus::Failure => 1,
        }
    }
}

/// What the surrounding program reports to the dispatcher.
#[derive(Clone, Copy, Debug, PartialEq, Eq, Structural)]
pub enum Event {
    /// The process has started.
    Start,
    /// The requested device handle was constructed.
    DeviceReady,
    /// The requested device could not be resolved.
    DeviceFailed,
    /// The training routine returned normally.
    TrainingReturned,
    /// The training routine failed.
    TrainingFailed,
}

/// What the dispatcher asks the surrounding program to do next.
#[derive(Clone, Copy, Debug, PartialEq, Eq, Structural)]
pub enum Action {
    /// Construct the device handle of this variant.
    ConstructDevice(Variant),
    /// Invoke the training routine for this variant's differentiable backend
    /// on the device handle just constructed.
    InvokeTraining(Variant),
    /// Terminate the process with this status.
    Exit(ExitStatus),
    /// The event does not apply in the current phase: nothing to do.
    Idle,
}

/// Where the dispatcher stands.
#[derive(Clone, Copy, Debug, PartialEq, Eq, Structural)]
pub enum Phase {
    /// No variant has been started.
    NotStarted,
    /// The current variant's device handle is being constructed.
    AwaitingDevice,
    /// The training routine runs for the current variant.
    Training,
    /// The process is done, with this status.
    Finished(ExitStatus),
}

/// The dispatch state machine: runs each enabled variant in turn, one at a
/// time, and stops at the first failure.
#[derive(Clone, Copy, Debug)]
pub struct Dispatcher {
    pub features: Features,
    /// Index, in the build's plan, of the variant being run.
    pub position: usize,
    pub phase: Phase,
}

/// Begin the variant at index `p` of the plan, or finish when none is left.
pub open spec fn begin_at(f: Features, p: usize) -> (Dispatcher, Action) {
    if p < f.plan().len() {
        (
            Dispatcher { features: f, position: p, phase: Phase::AwaitingDevice },
            Action::ConstructDevice(f.plan()[p as int]),
        )
    } else {
        (
            Dispatcher { features: f, position: p, phase: Phase::Finished(ExitStatus::Success) },
            Action::Exit(ExitStatus::Success),
        )
    }
}

/// The state `s` moved to `phase`, keeping the rest.
pub open spec fn with_phase(s: Dispatcher, phase: Phase) -> Dispatcher {
    Dispatcher { features: s.features, position: s.position, phase }
}

/// One transition: the next state and the action to perform.
pub open spec fn step_spec(s: Dispatcher, e: Event) -> (Dispatcher, Action) {
    match (s.phase, e) {
        (Phase::NotStarted, Event::Start) => begin_at(s.features, 0),
        (Phase::AwaitingDevice, Event::DeviceReady) => (
            with_phase(s, Phase::Training),
            Action::InvokeTraining(s.current()),
        ),
        (Phase::AwaitingDevice, Event::DeviceFailed) => (
            with_phase(s, Phase::Finished(ExitStatus::Failure)),
            Action::Exit(ExitStatus::Failure),
        ),
        (Phase::Training, Event::TrainingReturned) => begin_at(s.features, (s.position + 1) as usize),
        (Phase::Training, Event::TrainingFailed) => (
            with_phase(s, Phase::Finished(ExitStatus::Failure)),
            Action::Exit(ExitStatus::Failure),
        ),
        _ => (s, Action::Idle),
    }
}

/// The actions a dispatcher in state `s` takes on the events in turn.
pub open spec fn run_from(s: Dispatcher, events: Seq<Event>) -> Seq<Action>
    decreases events.len(),
{
    if events.len() == 0 {
        seq![]
    } else {
        let (t, a) = step_spec(s, events[0]);
        seq![a] + run_from(t, events.drop_first())
    }
}

impl Dispatcher {
    /// The state a process starts in.
    pub open spec fn initial(f: Features) -> Dispatcher {
        Dispatcher { features: f, position: 0, phase: Phase::NotStarted }
    }

    /// The variant being run.
    pub open spec fn current(self) -> Variant {
        self.features.plan()[self.position as int]
    }

    /// The state invariant: the position stays within the plan, and points at
    /// a variant while one runs.
    pub open spec fn wf(self) -> bool {
        &&& self.position <= self.features.plan().len()
        &&& match self.phase {
            Phase::NotStarted => self.position == 0,
            Phase::AwaitingDevice => self.position < self.features.plan().len(),
            Phase::Training => self.position < self.features.plan().len(),
            Phase::Finished(ExitStatus::Success) => self.position == self.features.plan().len(),
            Phase::Finished(ExitStatus::Failure) => true,
        }
    }

    /// A dispatcher for a build with the given switches, before any work.
    pub fn new(features: Features) -> (r: Dispatcher)
        ensures
            r == Dispatcher::initial(features),
            r.wf(),
    {
        Dispatcher { features, position: 0, phase: Phase::NotStarted }
    }

    /// Whether the process is done.
    pub fn is_finished(&self) -> (r: bool)
        ensures
            r == (self.phase is Finished),
    {
        match self.phase {
            Phase::Finished(_) => true,
            _ => false,
        }
    }

    /// The variant at index `p` of the plan, if there is one.
    fn variant_at(&self, p: usize) -> (r: Option<Variant>)
        ensures
            r == (if p < self.features.plan().len() {
                Some(self.features.plan()[p as int])
            } else {
                None::<Variant>
            }),
    {
        let plan = self.features.variants();
        if p < plan.len() {
            Some(plan[p])
        } else {
            None
        }
    }

    /// Begin the variant at index `p`, or finish when none is left.
    fn begin(&mut self, p: usize) -> (r: Action)
        requires
            p <= old(self).features.plan().len(),
        ensures
            (*final(self), r) == begin_at(old(self).features, p),
    {
        self.position = p;
        match self.variant_at(p) {
            Some(v) => {
                self.phase = Phase::AwaitingDevice;
                Action::ConstructDevice(v)
            },
            None => {
                self.phase = Phase::Finished(ExitStatus::Success);
                Action::Exit(ExitStatus::Success)
            },
        }
    }

    /// Take one event and return the action it calls for.
    ///
    /// The variants run one at a time in plan order; a variant's device is
    /// constructed before its training is invoked, the next variant begins
    /// only after the previous training returned, and any failure ends the
    /// process with a non-zero status. Events that do not apply in the
    /// current phase change nothing.
    pub fn step(&mut self, event: Event) -> (r: Action)
        requires
            old(self).wf(),
        ensures
            final(self).wf(),
            (*final(self), r) == step_spec(*old(self), event),
    {
        match (self.phase, event) {
            (Phase::NotStarted, Event::Start) => self.begin(0),
            (Phase::AwaitingDevice, Event::DeviceReady) => {
                self.phase = Phase::Training;
                match self.variant_at(self.position) {
                    Some(v) => Action::InvokeTraining(v),
                    None => Action::Idle,
                }
            },
            (Phase::AwaitingDevice, Event::DeviceFailed) => {
                self.phase = Phase::Finished(ExitStatus::Failure);
                Action::Exit(ExitStatus::Failure)
            },
            (Phase::Training, Event::TrainingReturned) => {
                let next = self.position + 1;
                self.begin(next)
            },
            (Phase::Training, Event::TrainingFailed) => {
                self.phase = Phase::Finished(ExitStatus::Failure);
                Action::Exit(ExitStatus::Failure)
            },
            _ => Action::Idle,
        }
    }
}

} // verus!
