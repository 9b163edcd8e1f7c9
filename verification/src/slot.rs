//! The probe/unbind state machine of one device.
//!
//! `Unbound -> Probing -> Bound -> Unbinding -> Unbound`. While probing, the
//! machine asks for one acquisition at a time, in a fixed order, and keeps what
//! was acquired on a stack. A failure empties the stack, last acquired first.

use crate::counter::{id_of_serial, AuxiliaryIdCounter};
use crate::resource::{
    classify, classify_failure, unwind, unwind_actions, Action, AuxRegistration, BusHandle, Gpu,
    NovaCore, Resource, BAR0_INDEX, BAR0_SIZE, GPU_DMA_BITS,
};
use vstd::prelude::*;

verus! {

#[derive(Clone, Copy, Debug, PartialEq, Eq, Structural)]
pub enum Phase {
    /// Not claimed by the driver. Nothing is held.
    Unbound,
    /// Bring-up is under way: one acquisition is out with the caller.
    Probing,
    /// The device state object is published.
    Bound,
    /// The GPU subsystem has been told to quiesce; nothing is given back yet.
    Unbinding,
}

/// What the caller reports to a probe.
#[derive(Clone, Copy, Debug, PartialEq, Eq, Structural)]
pub enum ProbeEvent {
    /// The bus matched the device to this driver.
    Start,
    /// The acquisition that was asked for succeeded.
    Acquired,
    /// The acquisition that was asked for failed.
    Failed { code: i32 },
}

/// What the caller reports to an unbind.
#[derive(Clone, Copy, Debug, PartialEq, Eq, Structural)]
pub enum UnbindEvent {
    /// The device goes away, or the module is unloaded.
    Detach,
    /// The GPU subsystem has quiesced the hardware.
    Quiesced,
}

/// How many acquisitions a probe makes.
pub const PLAN_LEN: usize = 6;

/// The acquisition number `i` of a probe whose auxiliary id is `id`: enable
/// memory access, bus mastering, DMA mask, register window, then the GPU
/// subsystem and the auxiliary registration.
pub open spec fn plan(i: int, id: u32) -> Resource {
    if i == 0 {
        Resource::DeviceMem
    } else if i == 1 {
        Resource::BusMaster
    } else if i == 2 {
        Resource::DmaMask { bits: GPU_DMA_BITS }
    } else if i == 3 {
        Resource::RegisterWindow { bar: BAR0_INDEX, size: BAR0_SIZE }
    } else if i == 4 {
        Resource::Gpu
    } else {
        Resource::AuxRegistration { id }
    }
}

/// What is acquired after `done`, if anything; `fresh` is the id that the
/// counter would hand out now.
pub open spec fn follows(done: Resource, fresh: u32) -> Option<Resource> {
    match done {
        Resource::DeviceMem => Some(Resource::BusMaster),
        Resource::BusMaster => Some(Resource::DmaMask { bits: GPU_DMA_BITS }),
        Resource::DmaMask { .. } => Some(
            Resource::RegisterWindow { bar: BAR0_INDEX, size: BAR0_SIZE },
        ),
        Resource::RegisterWindow { .. } => Some(Resource::Gpu),
        Resource::Gpu => Some(Resource::AuxRegistration { id: fresh }),
        Resource::AuxRegistration { .. } => None,
    }
}

/// The state of one device, as mathematics.
pub struct SlotModel {
    pub bus: BusHandle,
    pub phase: Phase,
    /// What has been acquired and not given back, in the order of acquisition.
    pub held: Seq<Resource>,
    /// The acquisition that is out with the caller.
    pub pending: Option<Resource>,
    /// The published device state object.
    pub state: Option<NovaCore>,
}

impl SlotModel {
    /// A device that the driver has not claimed.
    pub open spec fn unbound(bus: BusHandle) -> SlotModel {
        SlotModel { bus, phase: Phase::Unbound, held: Seq::empty(), pending: None, state: None }
    }

    /// The auxiliary id that this device has taken from the counter and still
    /// uses: that of its registration, made or being made.
    pub open spec fn aux_id(self) -> Option<u32> {
        match self.pending {
            Some(Resource::AuxRegistration { id }) => Some(id),
            _ => match self.state {
                Some(state) => Some(state.reg.id),
                None => None,
            },
        }
    }

    /// What is held is always the first so many steps of the plan; a device
    /// holds nothing unless it is being probed or is bound, and has a device
    /// state object exactly when every step is done.
    pub open spec fn wf(self) -> bool {
        match self.phase {
            Phase::Unbound => self.held.len() == 0 && self.pending is None && self.state is None,
            Phase::Probing => {
                &&& self.state is None
                &&& self.held.len() < PLAN_LEN
                &&& self.pending is Some
                &&& self.aux_id() is Some ==> self.held.len() == PLAN_LEN - 1
                &&& self.pending == Some(
                    plan(
                        self.held.len() as int,
                        match self.aux_id() {
                            Some(id) => id,
                            None => 0,
                        },
                    ),
                )
                &&& forall|i: int| 0 <= i < self.held.len() ==> self.held[i] == plan(i, 0)
            },
            _ => {
                &&& self.pending is None
                &&& self.held.len() == PLAN_LEN
                &&& self.state matches Some(state)
                &&& state.gpu.bus == self.bus
                &&& state.reg.parent == self.bus
                &&& forall|i: int| 0 <= i < PLAN_LEN ==> self.held[i] == plan(i, state.reg.id)
            },
        }
    }
}

/// The outcome of one step: the device afterwards, and what the caller is to
/// do, in this order.
pub struct Step {
    pub slot: SlotModel,
    pub actions: Seq<Action>,
}

/// Which events a probe takes in which state: `Start` on an unbound device,
/// the outcome of an acquisition while one is out. The bus calls probe and
/// unbind of one device one after another, never at once.
pub open spec fn probe_enabled(m: SlotModel, event: ProbeEvent) -> bool {
    match event {
        ProbeEvent::Start => m.phase is Unbound,
        _ => m.phase is Probing,
    }
}

/// Whether the step takes an id from the counter: it does when the GPU
/// subsystem has just been built, and at no other time.
pub open spec fn takes_id(m: SlotModel, event: ProbeEvent) -> bool {
    event is Acquired && m.pending == Some(Resource::Gpu)
}

/// One step of a probe; `fresh` is the id that the counter would hand out now.
///
/// - `Start` asks for the first acquisition.
/// - `Acquired` puts what was acquired on the stack and asks for the next; the
///   auxiliary id is taken from the counter when the GPU subsystem stands, not
///   before. After the last acquisition the device state object is published.
/// - `Failed` gives back all that is held, last acquired first, then reports
///   the error. The device is unbound again, as if never probed; an id that
///   was taken stays taken.
pub open spec fn probe_spec(m: SlotModel, fresh: u32, event: ProbeEvent) -> Step {
    match event {
        ProbeEvent::Start => Step {
            slot: SlotModel {
                phase: Phase::Probing,
                pending: Some(Resource::DeviceMem),
                held: Seq::empty(),
                state: None,
                bus: m.bus,
            },
            actions: seq![Action::Acquire { bus: m.bus, what: Resource::DeviceMem }],
        },
        ProbeEvent::Acquired => {
            let done = m.pending->0;
            let held = m.held.push(done);
            match done {
                Resource::AuxRegistration { id } => {
                    let state = NovaCore {
                        gpu: Gpu { bus: m.bus },
                        reg: AuxRegistration { parent: m.bus, id },
                    };
                    Step {
                        slot: SlotModel {
                            phase: Phase::Bound,
                            pending: None,
                            held,
                            state: Some(state),
                            bus: m.bus,
                        },
                        actions: seq![Action::Publish { bus: m.bus, state }],
                    }
                },
                _ => {
                    let next = follows(done, fresh)->0;
                    Step {
                        slot: SlotModel {
                            phase: Phase::Probing,
                            pending: Some(next),
                            held,
                            state: None,
                            bus: m.bus,
                        },
                        actions: seq![Action::Acquire { bus: m.bus, what: next }],
                    }
                },
            }
        },
        ProbeEvent::Failed { code } => Step {
            slot: SlotModel::unbound(m.bus),
            actions: unwind(m.bus, m.held).push(
                Action::Fail { bus: m.bus, error: classify(m.pending->0, code) },
            ),
        },
    }
}

/// Which events an unbind takes in which state.
pub open spec fn unbind_enabled(m: SlotModel, event: UnbindEvent) -> bool {
    match event {
        UnbindEvent::Detach => m.phase is Bound,
        UnbindEvent::Quiesced => m.phase is Unbinding,
    }
}

/// One step of an unbind. `Detach` tells the GPU subsystem to quiesce the
/// hardware and touches nothing else; `Quiesced` gives back all that is held,
/// last acquired first. Neither can fail.
pub open spec fn unbind_spec(m: SlotModel, event: UnbindEvent) -> Step {
    match event {
        UnbindEvent::Detach => Step {
            slot: SlotModel { phase: Phase::Unbinding, ..m },
            actions: seq![Action::Quiesce { bus: m.bus }],
        },
        UnbindEvent::Quiesced => Step {
            slot: SlotModel::unbound(m.bus),
            actions: unwind(m.bus, m.held),
        },
    }
}

/// The state of one device.
pub struct DeviceSlot {
    bus: BusHandle,
    phase: Phase,
    held: Vec<Resource>,
    pending: Option<Resource>,
    state: Option<NovaCore>,
}

impl View for DeviceSlot {
    type V = SlotModel;

    closed spec fn view(&self) -> SlotModel {
        SlotModel {
            bus: self.bus,
            phase: self.phase,
            held: self.held@,
            pending: self.pending,
            state: self.state,
        }
    }
}

impl DeviceSlot {
    /// A device that the driver has not claimed.
    pub fn new(bus: BusHandle) -> (slot: Self)
        ensures
            slot@ == SlotModel::unbound(bus),
            slot@.wf(),
    {
        let slot = DeviceSlot { bus, phase: Phase::Unbound, held: Vec::new(), pending: None, state: None };
        assert(slot@.held =~= Seq::empty());
        slot
    }

    pub fn bus(&self) -> (bus: BusHandle)
        ensures
            bus == self@.bus,
    {
        self.bus
    }

    pub fn phase(&self) -> (phase: Phase)
        ensures
            phase == self@.phase,
    {
        self.phase
    }

    /// What is held, in the order of acquisition.
    pub fn held(&self) -> (held: &Vec<Resource>)
        ensures
            held@ == self@.held,
    {
        &self.held
    }

    /// The acquisition that is out with the caller.
    pub fn pending(&self) -> (pending: Option<Resource>)
        ensures
            pending == self@.pending,
    {
        self.pending
    }

    /// The published device state object.
    pub fn state(&self) -> (state: Option<NovaCore>)
        ensures
            state == self@.state,
    {
        self.state
    }

    /// Whether a probe of this device takes `event` now. Callers that nothing
    /// verifies ask before they call `NovaCore::probe`.
    pub fn accepts_probe(&self, event: ProbeEvent) -> (yes: bool)
        ensures
            yes == probe_enabled(self@, event),
    {
        match event {
            ProbeEvent::Start => matches!(self.phase, Phase::Unbound),
            _ => matches!(self.phase, Phase::Probing),
        }
    }

    /// Whether an unbind of this device takes `event` now.
    pub fn accepts_unbind(&self, event: UnbindEvent) -> (yes: bool)
        ensures
            yes == unbind_enabled(self@, event),
    {
        match event {
            UnbindEvent::Detach => matches!(self.phase, Phase::Bound),
            UnbindEvent::Quiesced => matches!(self.phase, Phase::Unbinding),
        }
    }

    /// The auxiliary id that the device has taken and still uses.
    pub fn aux_id(&self) -> (id: Option<u32>)
        ensures
            id == self@.aux_id(),
    {
        match self.pending {
            Some(Resource::AuxRegistration { id }) => Some(id),
            _ => match self.state {
                Some(state) => Some(state.reg.id),
                None => None,
            },
        }
    }
}

/// What to acquire after `done`. Taking the auxiliary id is part of this
/// step, so the counter moves exactly when the GPU subsystem has been built.
fn next_acquisition(done: Resource, ids: &mut AuxiliaryIdCounter) -> (next: Option<Resource>)
    requires
        old(ids).wf(),
    ensures
        final(ids).wf(),
        next == follows(done, id_of_serial(old(ids).issued())),
        final(ids).issued() == if done is Gpu {
            old(ids).issued() + 1
        } else {
            old(ids).issued()
        },
{
    match done {
        Resource::DeviceMem => Some(Resource::BusMaster),
        Resource::BusMaster => Some(Resource::DmaMask { bits: GPU_DMA_BITS }),
        Resource::DmaMask { .. } => Some(
            Resource::RegisterWindow { bar: BAR0_INDEX, size: BAR0_SIZE },
        ),
        Resource::RegisterWindow { .. } => Some(Resource::Gpu),
        Resource::Gpu => {
            let id = ids.next_id();
            Some(Resource::AuxRegistration { id })
        },
        Resource::AuxRegistration { .. } => None,
    }
}

impl NovaCore {
    /// Takes a probe of `slot` one step further and says what to do next.
    pub fn probe(slot: &mut DeviceSlot, ids: &mut AuxiliaryIdCounter, event: ProbeEvent) -> (actions:
        Vec<Action>)
        requires
            old(slot)@.wf(),
            old(ids).wf(),
            probe_enabled(old(slot)@, event),
        ensures
            final(slot)@.wf(),
            final(ids).wf(),
            final(slot)@ == probe_spec(old(slot)@, id_of_serial(old(ids).issued()), event).slot,
            actions@ == probe_spec(old(slot)@, id_of_serial(old(ids).issued()), event).actions,
            final(ids).issued() == old(ids).issued() + if takes_id(old(slot)@, event) {
                1nat
            } else {
                0nat
            },
    {
        let ghost before = slot@;
        let ghost step = probe_spec(slot@, id_of_serial(ids.issued()), event);
        let bus = slot.bus;
        match event {
            ProbeEvent::Start => {
                slot.phase = Phase::Probing;
                slot.pending = Some(Resource::DeviceMem);
                let actions = vec![Action::Acquire { bus, what: Resource::DeviceMem }];
                assert(slot@.held =~= step.slot.held);
                assert(actions@ =~= step.actions);
                actions
            },
            ProbeEvent::Acquired => {
                let done = slot.pending.unwrap();
                slot.held.push(done);
                match next_acquisition(done, ids) {
                    Some(next) => {
                        slot.pending = Some(next);
                        let actions = vec![Action::Acquire { bus, what: next }];
                        assert(actions@ =~= step.actions);
                        actions
                    },
                    None => {
                        let id = match done {
                            Resource::AuxRegistration { id } => id,
                            _ => 0,
                        };
                        let state = NovaCore {
                            gpu: Gpu { bus },
                            reg: AuxRegistration { parent: bus, id },
                        };
                        slot.pending = None;
                        slot.state = Some(state);
                        slot.phase = Phase::Bound;
                        assert forall|i: int| 0 <= i < PLAN_LEN implies slot@.held[i] == plan(
                            i,
                            id,
                        ) by {
                            if i < PLAN_LEN - 1 {
                                assert(before.held[i] == plan(i, 0));
                            }
                        }
                        let actions = vec![Action::Publish { bus, state }];
                        assert(actions@ =~= step.actions);
                        actions
                    },
                }
            },
            ProbeEvent::Failed { code } => {
                let failed = slot.pending.unwrap();
                let mut actions = unwind_actions(bus, &slot.held);
                actions.push(Action::Fail { bus, error: classify_failure(failed, code) });
                slot.held = Vec::new();
                slot.pending = None;
                slot.phase = Phase::Unbound;
                assert(slot@.held =~= step.slot.held);
                actions
            },
        }
    }

    /// Takes an unbind of `slot` one step further and says what to do next.
    pub fn unbind(slot: &mut DeviceSlot, event: UnbindEvent) -> (actions: Vec<Action>)
        requires
            old(slot)@.wf(),
            unbind_enabled(old(slot)@, event),
        ensures
            final(slot)@.wf(),
            final(slot)@ == unbind_spec(old(slot)@, event).slot,
            actions@ == unbind_spec(old(slot)@, event).actions,
    {
        let bus = slot.bus;
        match event {
            UnbindEvent::Detach => {
                slot.phase = Phase::Unbinding;
                let actions = vec![Action::Quiesce { bus }];
                assert(actions@ =~= seq![Action::Quiesce { bus }]);
                actions
            },
            UnbindEvent::Quiesced => {
                let actions = unwind_actions(bus, &slot.held);
                slot.held = Vec::new();
                slot.state = None;
                slot.phase = Phase::Unbound;
                assert(slot@.held =~= Seq::empty());
                actions
            },
        }
    }
}

} // verus!
