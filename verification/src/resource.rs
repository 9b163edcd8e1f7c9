//! What a probe acquires, what the driver asks its caller to do, and how a
//! probe can fail.

use vstd::prelude::*;

verus! {

/// Index of the base address register behind which the register window lies.
pub const BAR0_INDEX: u32 = 0;

/// Size of the register window: 16 MiB, fixed at compile time.
pub const BAR0_SIZE: usize = 0x100_0000;

/// Width of the DMA addresses that the supported hardware generation can use.
pub const GPU_DMA_BITS: u32 = 47;

/// Name under which the register window is claimed.
pub fn bar0_region_name() -> (name: &'static str)
    ensures
        name@ == "nova-core/bar0"@,
{
    "nova-core/bar0"
}

/// Display name of the auxiliary device.
pub fn auxiliary_display_name() -> (name: &'static str)
    ensures
        name@ == "nova-drm"@,
{
    "nova-drm"
}

/// Module name under which the auxiliary device is registered.
pub fn module_name() -> (name: &'static str)
    ensures
        name@ == "NovaCore"@,
{
    "NovaCore"
}

/// Stands for one device on the bus. The caller chooses the number and finds
/// the device again by it.
#[derive(Clone, Copy, Debug, PartialEq, Eq, Structural)]
pub struct BusHandle {
    pub addr: u64,
}

/// One thing that a probe acquires and that has to be given back.
///
/// A device has at most one of each, so the device and the variant together
/// say which object is meant.
#[derive(Clone, Copy, Debug, PartialEq, Eq, Structural)]
pub enum Resource {
    /// Memory-decoded access to the device is enabled.
    DeviceMem,
    /// The device may act as bus master.
    BusMaster,
    /// The DMA address width is set.
    DmaMask { bits: u32 },
    /// The register window is mapped. The mapping is shared: the GPU subsystem
    /// holds a second handle to it, and it is unmapped when the last goes.
    RegisterWindow { bar: u32, size: usize },
    /// The GPU subsystem, built from the bus handle and the register window.
    Gpu,
    /// The registration of the auxiliary device, under the fixed names.
    AuxRegistration { id: u32 },
}

impl Resource {
    /// The place of a resource in the order of acquisition, from zero.
    pub open spec fn rank(self) -> int {
        match self {
            Resource::DeviceMem => 0,
            Resource::BusMaster => 1,
            Resource::DmaMask { .. } => 2,
            Resource::RegisterWindow { .. } => 3,
            Resource::Gpu => 4,
            Resource::AuxRegistration { .. } => 5,
        }
    }

    /// The hardware resources, as opposed to the two parts of the device
    /// state object.
    pub open spec fn is_hardware(self) -> bool {
        !(self is Gpu) && !(self is AuxRegistration)
    }

    pub fn hardware(&self) -> (yes: bool)
        ensures
            yes == self.is_hardware(),
    {
        match self {
            Resource::Gpu => false,
            Resource::AuxRegistration { .. } => false,
            _ => true,
        }
    }
}

/// Handle to the GPU subsystem of one device.
#[derive(Clone, Copy, Debug, PartialEq, Eq, Structural)]
pub struct Gpu {
    pub bus: BusHandle,
}

/// Handle to the registration of one auxiliary device.
#[derive(Clone, Copy, Debug, PartialEq, Eq, Structural)]
pub struct AuxRegistration {
    pub parent: BusHandle,
    pub id: u32,
}

/// How a probe fails. Either way the device is left unclaimed and holds
/// nothing; `code` is what the failed operation reported.
#[derive(Clone, Copy, Debug, PartialEq, Eq, Structural)]
pub enum ProbeError {
    /// Enabling the device, bus mastering, the DMA mask or the mapping failed.
    ResourceAcquisition { what: Resource, code: i32 },
    /// Building the device state object failed after the hardware resources
    /// were there.
    ConstructionAbort { what: Resource, code: i32 },
}

/// The error for a failure to acquire `what`.
pub open spec fn classify(what: Resource, code: i32) -> ProbeError {
    if what.is_hardware() {
        ProbeError::ResourceAcquisition { what, code }
    } else {
        ProbeError::ConstructionAbort { what, code }
    }
}

pub fn classify_failure(what: Resource, code: i32) -> (error: ProbeError)
    ensures
        error == classify(what, code),
{
    if what.hardware() {
        ProbeError::ResourceAcquisition { what, code }
    } else {
        ProbeError::ConstructionAbort { what, code }
    }
}

/// The device state object: one GPU subsystem handle and one auxiliary
/// registration. It exists while the device is bound.
#[derive(Clone, Copy, Debug, PartialEq, Eq, Structural)]
pub struct NovaCore {
    pub gpu: Gpu,
    pub reg: AuxRegistration,
}

/// What the caller is to do next. Acquiring can fail, and its outcome comes
/// back as an event; the others cannot.
#[derive(Clone, Copy, Debug, PartialEq, Eq, Structural)]
pub enum Action {
    /// Acquire `what` for the device and report how it went.
    Acquire { bus: BusHandle, what: Resource },
    /// Give `what` back.
    Release { bus: BusHandle, what: Resource },
    /// Tell the GPU subsystem to quiesce the hardware.
    Quiesce { bus: BusHandle },
    /// The probe succeeded: `state` is the device's bound state.
    Publish { bus: BusHandle, state: NovaCore },
    /// The probe failed: tell the bus.
    Fail { bus: BusHandle, error: ProbeError },
}

/// Giving back all of `held`, last acquired first.
pub open spec fn unwind(bus: BusHandle, held: Seq<Resource>) -> Seq<Action> {
    Seq::new(held.len(), |k: int| Action::Release { bus, what: held[held.len() - 1 - k] })
}

pub fn unwind_actions(bus: BusHandle, held: &Vec<Resource>) -> (actions: Vec<Action>)
    ensures
        actions@ == unwind(bus, held@),
{
    let mut actions: Vec<Action> = Vec::new();
    let mut i: usize = held.len();
    while i > 0
        invariant
            i <= held.len(),
            actions.len() == held.len() - i,
            forall|k: int|
                0 <= k < actions.len() ==> actions[k] == (Action::Release {
                    bus,
                    what: held[held.len() - 1 - k],
                }),
        decreases i,
    {
        i = i - 1;
        actions.push(Action::Release { bus, what: held[i] });
    }
    assert(actions@ =~= unwind(bus, held@));
    actions
}

} // verus!
