use vstd::prelude::*;

verus! {

/// A backend variant that a build can enable.
#[derive(Clone, Copy, Debug, PartialEq, Eq, Structural)]
pub enum Variant {
    /// The CPU array backend, wrapped for automatic differentiation.
    Array,
    /// The GPU compute-shader backend, wrapped for automatic differentiation.
    Gpu,
}

/// The kind of device handle a variant's training runs on.
#[derive(Clone, Copy, Debug, PartialEq, Eq, Structural)]
pub enum DeviceKind {
    /// The CPU; built without parameters and never fails.
    Cpu,
    /// The platform's default GPU, as device enumeration resolves it.
    DefaultGpu,
}

/// The device kind each variant constructs.
pub open spec fn device_kind_of(v: Variant) -> DeviceKind {
    match v {
        Variant::Array => DeviceKind::Cpu,
        Variant::Gpu => DeviceKind::DefaultGpu,
    }
}

impl Variant {
    /// The kind of device handle this variant constructs.
    pub fn device_kind(self) -> (r: DeviceKind)
        ensures
            r == device_kind_of(self),
    {
        match self {
            Variant::Array => DeviceKind::Cpu,
            Variant::Gpu => DeviceKind::DefaultGpu,
        }
    }

    /// Whether constructing this variant's device can fail at run time.
    pub fn device_may_fail(self) -> (r: bool)
        ensures
            r == (self == Variant::Gpu),
    {
        match self {
            Variant::Array => false,
            Variant::Gpu => true,
        }
    }
}

/// The variants a build enables: one switch per variant, in any combination.
#[derive(Clone, Copy, Debug, PartialEq, Eq, Structural)]
pub struct Features {
    pub array_backend: bool,
    pub gpu_backend: bool,
}

impl Features {
    /// Whether the switch of `v` is on.
    pub open spec fn enabled(self, v: Variant) -> bool {
        match v {
            Variant::Array => self.array_backend,
            Variant::Gpu => self.gpu_backend,
        }
    }

    /// The enabled variants in the order they run: the array backend before
    /// the GPU backend.
    pub open spec fn plan(self) -> Seq<Variant> {
        (if self.array_backend { seq![Variant::Array] } else { seq![] }) + (if self.gpu_backend {
            seq![Variant::Gpu]
        } else {
            seq![]
        })
    }

    /// A build with every switch off.
    pub fn none() -> (r: Features)
        ensures
            !r.array_backend,
            !r.gpu_backend,
            r.plan().len() == 0,
    {
        Features { array_backend: false, gpu_backend: false }
    }

    /// A build with the given switches.
    pub fn new(array_backend: bool, gpu_backend: bool) -> (r: Features)
        ensures
            r.array_backend == array_backend,
            r.gpu_backend == gpu_backend,
    {
        Features { array_backend, gpu_backend }
    }

    /// Whether the switch of `v` is on.
    pub fn is_enabled(&self, v: Variant) -> (r: bool)
        ensures
            r == self.enabled(v),
    {
        match v {
            Variant::Array => self.array_backend,
            Variant::Gpu => self.gpu_backend,
        }
    }

    /// The enabled variants in the order they run.
    pub fn variants(&self) -> (r: Vec<Variant>)
        ensures
            r@ == self.plan(),
    {
        let mut r: Vec<Variant> = Vec::new();
        if self.array_backend {
            r.push(Variant::Array);
        }
        if self.gpu_backend {
            r.push(Variant::Gpu);
        }
        assert(r@ =~= self.plan());
        r
    }
}

} // verus!
