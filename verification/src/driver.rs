//! The driver: every device it has been offered, and the one id counter that
//! their probes share.

use crate::counter::{id_of_serial, id_space, AuxiliaryIdCounter};
use crate::identity::{match_device, supported};
use crate::resource::{Action, BusHandle, NovaCore};
use crate::slot::{
    plan, probe_enabled, probe_spec, takes_id, unbind_enabled, unbind_spec, DeviceSlot,
    ProbeEvent, SlotModel, UnbindEvent,
};
use vstd::prelude::*;

verus! {

/// The driver, as mathematics.
pub struct DriverModel {
    /// How many auxiliary ids have been handed out.
    pub issued: nat,
    /// The devices, in the order in which the bus first offered them.
    pub slots: Seq<SlotModel>,
}

impl DriverModel {
    pub open spec fn knows(self, bus: BusHandle) -> bool {
        exists|i: int| 0 <= i < self.slots.len() && (#[trigger] self.slots[i]).bus == bus
    }

    /// Every device is well-formed and has one slot. Until the id space is
    /// used up, every auxiliary id in use came from the counter, and no two
    /// devices use the same.
    pub open spec fn wf(self) -> bool {
        &&& forall|i: int| 0 <= i < self.slots.len() ==> (#[trigger] self.slots[i]).wf()
        &&& forall|i: int, j: int|
            0 <= i < self.slots.len() && 0 <= j < self.slots.len() && i != j ==> (
            #[trigger] self.slots[i]).bus != (#[trigger] self.slots[j]).bus
        &&& self.issued <= id_space() ==> forall|i: int|
            0 <= i < self.slots.len() ==> ((#[trigger] self.slots[i]).aux_id() matches Some(id)
                ==> (id as nat) < self.issued)
        &&& self.issued <= id_space() ==> forall|i: int, j: int|
            0 <= i < self.slots.len() && 0 <= j < self.slots.len() && i != j && (
            #[trigger] self.slots[i]).aux_id() is Some ==> self.slots[i].aux_id() != (
            #[trigger] self.slots[j]).aux_id()
    }

    /// The driver after device `slot` has taken one step of a probe.
    pub open spec fn after_probe(self, slot: int, event: ProbeEvent) -> DriverModel {
        DriverModel {
            issued: if takes_id(self.slots[slot], event) {
                self.issued + 1
            } else {
                self.issued
            },
            slots: self.slots.update(
                slot,
                probe_spec(self.slots[slot], id_of_serial(self.issued), event).slot,
            ),
        }
    }

    /// The driver after device `slot` has taken one step of an unbind.
    pub open spec fn after_unbind(self, slot: int, event: UnbindEvent) -> DriverModel {
        DriverModel {
            issued: self.issued,
            slots: self.slots.update(slot, unbind_spec(self.slots[slot], event).slot),
        }
    }
}

/// One thing that happens to the driver.
pub enum DriverStep {
    /// The bus offers a device that the identity table claims.
    Attach { bus: BusHandle },
    /// Device `slot` takes a step of its probe.
    Probe { slot: int, event: ProbeEvent },
    /// Device `slot` takes a step of its unbind.
    Unbind { slot: int, event: UnbindEvent },
}

impl DriverModel {
    /// Whether `step` can happen now.
    pub open spec fn enabled(self, step: DriverStep) -> bool {
        match step {
            DriverStep::Attach { .. } => true,
            DriverStep::Probe { slot, event } => 0 <= slot < self.slots.len() && probe_enabled(
                self.slots[slot],
                event,
            ),
            DriverStep::Unbind { slot, event } => 0 <= slot < self.slots.len() && unbind_enabled(
                self.slots[slot],
                event,
            ),
        }
    }

    /// The driver after `step`.
    pub open spec fn after(self, step: DriverStep) -> DriverModel {
        match step {
            DriverStep::Attach { bus } => if self.knows(bus) {
                self
            } else {
                DriverModel { slots: self.slots.push(SlotModel::unbound(bus)), ..self }
            },
            DriverStep::Probe { slot, event } => self.after_probe(slot, event),
            DriverStep::Unbind { slot, event } => self.after_unbind(slot, event),
        }
    }

    /// Whether the steps can happen one after another, starting now.
    pub open spec fn all_enabled(self, steps: Seq<DriverStep>) -> bool
        decreases steps.len(),
    {
        steps.len() > 0 ==> self.all_enabled(steps.drop_last()) && self.after_all(
            steps.drop_last(),
        ).enabled(steps.last())
    }

    /// The driver after the steps, one after another. Steps of different
    /// devices may come in any order: probes that run in parallel are such a
    /// sequence.
    pub open spec fn after_all(self, steps: Seq<DriverStep>) -> DriverModel
        decreases steps.len(),
    {
        if steps.len() == 0 {
            self
        } else {
            self.after_all(steps.drop_last()).after(steps.last())
        }
    }
}

/// A step of a probe keeps a device well-formed.
pub proof fn law_probe_keeps_slot(m: SlotModel, fresh: u32, event: ProbeEvent)
    requires
        m.wf(),
        probe_enabled(m, event),
    ensures
        probe_spec(m, fresh, event).slot.wf(),
        probe_spec(m, fresh, event).slot.bus == m.bus,
{
    let after = probe_spec(m, fresh, event).slot;
    if event is Acquired {
        if m.pending->0 is AuxRegistration {
            let id = m.pending->0->id;
            assert forall|i: int| 0 <= i < 6 implies after.held[i] == plan(i, id) by {
                if i < 5 {
                    assert(m.held[i] == plan(i, 0));
                }
            }
        } else {
            assert forall|i: int| 0 <= i < after.held.len() implies after.held[i]
                == plan(i, 0) by {
                if i < m.held.len() {
                    assert(m.held[i] == plan(i, 0));
                }
            }
        }
    }
}

/// A step of an unbind keeps a device well-formed.
pub proof fn law_unbind_keeps_slot(m: SlotModel, event: UnbindEvent)
    requires
        m.wf(),
        unbind_enabled(m, event),
    ensures
        unbind_spec(m, event).slot.wf(),
        unbind_spec(m, event).slot.bus == m.bus,
{
}

/// A step of a probe of any device keeps the driver well-formed: in
/// particular the id that a probe takes is in use nowhere else.
pub proof fn law_probe_keeps_driver(d: DriverModel, slot: int, event: ProbeEvent)
    requires
        d.wf(),
        0 <= slot < d.slots.len(),
        probe_enabled(d.slots[slot], event),
    ensures
        d.after_probe(slot, event).wf(),
{
    let after = d.after_probe(slot, event);
    let m = d.slots[slot];
    law_probe_keeps_slot(m, id_of_serial(d.issued), event);
    assert forall|i: int| 0 <= i < after.slots.len() implies (#[trigger] after.slots[i]).wf() by {
        if i != slot {
            assert(d.slots[i].wf());
        }
    }
    assert forall|i: int, j: int|
        0 <= i < after.slots.len() && 0 <= j < after.slots.len() && i != j implies (
    #[trigger] after.slots[i]).bus != (#[trigger] after.slots[j]).bus by {
        assert(d.slots[i].bus != d.slots[j].bus);
    }
    // What the step does to the id that the device uses.
    assert(m.wf());
    if takes_id(m, event) {
        assert(after.slots[slot].aux_id() == Some(id_of_serial(d.issued)));
    } else if event is Acquired {
        assert(after.slots[slot].aux_id() == m.aux_id());
    } else {
        assert(after.slots[slot].aux_id() is None);
    }
    if after.issued <= id_space() {
        assert forall|i: int| 0 <= i < after.slots.len() implies ((
        #[trigger] after.slots[i]).aux_id() matches Some(id) ==> (id as nat) < after.issued) by {
            if i != slot {
                assert(d.slots[i].aux_id() == after.slots[i].aux_id());
            } else {
                assert(d.slots[slot].aux_id() is Some ==> (d.slots[slot].aux_id()->0 as nat)
                    < d.issued);
            }
        }
        assert forall|i: int, j: int|
            0 <= i < after.slots.len() && 0 <= j < after.slots.len() && i != j && (
            #[trigger] after.slots[i]).aux_id() is Some implies after.slots[i].aux_id() != (
        #[trigger] after.slots[j]).aux_id() by {
            assert(d.slots[i].aux_id() is Some ==> d.slots[i].aux_id() != d.slots[j].aux_id());
            assert(d.slots[j].aux_id() is Some ==> d.slots[j].aux_id() != d.slots[i].aux_id());
            assert(d.slots[i].aux_id() is Some ==> (d.slots[i].aux_id()->0 as nat) < d.issued);
            assert(d.slots[j].aux_id() is Some ==> (d.slots[j].aux_id()->0 as nat) < d.issued);
        }
    }
}

/// A step of an unbind of any device keeps the driver well-formed.
pub proof fn law_unbind_keeps_driver(d: DriverModel, slot: int, event: UnbindEvent)
    requires
        d.wf(),
        0 <= slot < d.slots.len(),
        unbind_enabled(d.slots[slot], event),
    ensures
        d.after_unbind(slot, event).wf(),
{
    let after = d.after_unbind(slot, event);
    let m = d.slots[slot];
    assert(m.wf());
    assert forall|i: int| 0 <= i < after.slots.len() implies (#[trigger] after.slots[i]).wf() by {
        if i != slot {
            assert(d.slots[i].wf());
        }
    }
    assert forall|i: int, j: int|
        0 <= i < after.slots.len() && 0 <= j < after.slots.len() && i != j implies (
    #[trigger] after.slots[i]).bus != (#[trigger] after.slots[j]).bus by {
        assert(d.slots[i].bus != d.slots[j].bus);
    }
    assert(after.slots[slot].aux_id() is Some ==> after.slots[slot].aux_id() == m.aux_id());
    if after.issued <= id_space() {
        assert forall|i: int| 0 <= i < after.slots.len() implies ((
        #[trigger] after.slots[i]).aux_id() matches Some(id) ==> (id as nat) < after.issued) by {
            assert(d.slots[i].aux_id() is Some ==> (d.slots[i].aux_id()->0 as nat) < d.issued);
        }
        assert forall|i: int, j: int|
            0 <= i < after.slots.len() && 0 <= j < after.slots.len() && i != j && (
            #[trigger] after.slots[i]).aux_id() is Some implies after.slots[i].aux_id() != (
        #[trigger] after.slots[j]).aux_id() by {
            assert(d.slots[i].aux_id() is Some ==> d.slots[i].aux_id() != d.slots[j].aux_id());
            assert(d.slots[j].aux_id() is Some ==> d.slots[j].aux_id() != d.slots[i].aux_id());
        }
    }
}

/// Offering a device keeps the driver well-formed.
pub proof fn law_attach_keeps_driver(d: DriverModel, bus: BusHandle)
    requires
        d.wf(),
    ensures
        d.after(DriverStep::Attach { bus }).wf(),
{
    let after = d.after(DriverStep::Attach { bus });
    if !d.knows(bus) {
        assert forall|k: int| 0 <= k < after.slots.len() implies (#[trigger] after.slots[k]).wf() by {
            if k < d.slots.len() {
                assert(d.slots[k].wf());
            }
        }
        assert forall|k: int, j: int|
            0 <= k < after.slots.len() && 0 <= j < after.slots.len() && k != j implies (
        #[trigger] after.slots[k]).bus != (#[trigger] after.slots[j]).bus by {
            if k < d.slots.len() && j < d.slots.len() {
                assert(d.slots[k].bus != d.slots[j].bus);
            } else if k < d.slots.len() {
                assert(d.slots[k].bus != bus);
            } else {
                assert(d.slots[j].bus != bus);
            }
        }
        if after.issued <= id_space() {
            assert forall|k: int| 0 <= k < after.slots.len() implies ((
            #[trigger] after.slots[k]).aux_id() matches Some(id) ==> (id as nat)
                < after.issued) by {
                if k < d.slots.len() {
                    assert(d.slots[k].aux_id() is Some ==> (d.slots[k].aux_id()->0 as nat)
                        < d.issued);
                }
            }
            assert forall|k: int, j: int|
                0 <= k < after.slots.len() && 0 <= j < after.slots.len() && k != j && (
                #[trigger] after.slots[k]).aux_id() is Some implies after.slots[k].aux_id() != (
            #[trigger] after.slots[j]).aux_id() by {
                if k < d.slots.len() && j < d.slots.len() {
                    assert(d.slots[k].aux_id() != d.slots[j].aux_id());
                }
            }
        }
    }
}

/// Whatever happens to the driver, in whatever order, it stays well-formed:
/// the invariant holds in every state that can be reached.
pub proof fn law_steps_keep_driver(d: DriverModel, steps: Seq<DriverStep>)
    requires
        d.wf(),
        d.all_enabled(steps),
    ensures
        d.after_all(steps).wf(),
    decreases steps.len(),
{
    if steps.len() > 0 {
        law_steps_keep_driver(d, steps.drop_last());
        let before = d.after_all(steps.drop_last());
        match steps.last() {
            DriverStep::Attach { bus } => law_attach_keeps_driver(before, bus),
            DriverStep::Probe { slot, event } => law_probe_keeps_driver(before, slot, event),
            DriverStep::Unbind { slot, event } => law_unbind_keeps_driver(before, slot, event),
        }
    }
}

/// Until the id space is used up, no two bound devices have the same
/// auxiliary id, and each of them has one that the counter handed out.
pub proof fn law_bound_ids_differ(d: DriverModel, i: int, j: int)
    requires
        d.wf(),
        d.issued <= id_space(),
        0 <= i < d.slots.len(),
        0 <= j < d.slots.len(),
        i != j,
        d.slots[i].phase is Bound,
        d.slots[j].phase is Bound,
    ensures
        d.slots[i].state is Some,
        d.slots[j].state is Some,
        d.slots[i].state->0.reg.id != d.slots[j].state->0.reg.id,
        (d.slots[i].state->0.reg.id as nat) < d.issued,
        (d.slots[j].state->0.reg.id as nat) < d.issued,
{
    assert(d.slots[i].wf() && d.slots[j].wf());
    assert(d.slots[i].aux_id() == Some(d.slots[i].state->0.reg.id));
    assert(d.slots[j].aux_id() == Some(d.slots[j].state->0.reg.id));
}

/// The driver.
pub struct Driver {
    ids: AuxiliaryIdCounter,
    slots: Vec<DeviceSlot>,
}

impl View for Driver {
    type V = DriverModel;

    closed spec fn view(&self) -> DriverModel {
        DriverModel {
            issued: self.ids.issued(),
            slots: self.slots@.map_values(|s: DeviceSlot| s@),
        }
    }
}

impl Driver {
    pub closed spec fn wf(&self) -> bool {
        self.ids.wf() && self@.wf()
    }

    /// What holds of the driver's state holds of its model.
    pub proof fn law_wf_model(&self)
        requires
            self.wf(),
        ensures
            self@.wf(),
    {
    }

    /// A driver that has seen no device and handed out no id.
    pub fn new() -> (driver: Self)
        ensures
            driver.wf(),
            driver@.issued == 0,
            driver@.slots.len() == 0,
    {
        Driver { ids: AuxiliaryIdCounter::new(), slots: Vec::new() }
    }

    /// How many devices the driver has a slot for.
    pub fn len(&self) -> (n: usize)
        ensures
            n == self@.slots.len(),
    {
        self.slots.len()
    }

    pub fn slot(&self, slot: usize) -> (found: &DeviceSlot)
        requires
            slot < self@.slots.len(),
        ensures
            found@ == self@.slots[slot as int],
    {
        &self.slots[slot]
    }

    /// The id that the next probe to need one will get.
    pub fn peek_id(&self) -> (id: u32)
        requires
            self.wf(),
        ensures
            id == id_of_serial(self@.issued),
    {
        self.ids.peek()
    }

    /// The bus offers a device. A device that the identity table does not
    /// claim is turned down. One that it claims gets a slot, the one it had
    /// before if the driver has seen the device already.
    pub fn attach(&mut self, bus: BusHandle, class: u32, vendor: u32) -> (slot: Option<usize>)
        requires
            old(self).wf(),
        ensures
            final(self).wf(),
            final(self)@.issued == old(self)@.issued,
            slot is Some <==> supported(class, vendor),
            slot is None ==> final(self)@ == old(self)@,
            slot matches Some(i) ==> {
                &&& i < final(self)@.slots.len()
                &&& final(self)@.slots[i as int].bus == bus
                &&& final(self)@ == old(self)@.after(DriverStep::Attach { bus })
            },
    {
        if match_device(class, vendor).is_none() {
            return None;
        }
        let mut i: usize = 0;
        while i < self.slots.len()
            invariant
                i <= self.slots.len(),
                *self == *old(self),
                self.wf(),
                supported(class, vendor),
                forall|k: int| 0 <= k < i ==> (#[trigger] self@.slots[k]).bus != bus,
            decreases self.slots.len() - i,
        {
            if self.slots[i].bus().addr == bus.addr {
                assert(self@.slots[i as int].bus == bus);
                assert(self@.knows(bus));
                return Some(i);
            }
            i = i + 1;
        }
        let ghost before = self@;
        assert(!before.knows(bus));
        self.slots.push(DeviceSlot::new(bus));
        assert(self@.slots =~= before.slots.push(SlotModel::unbound(bus)));
        proof {
            law_attach_keeps_driver(before, bus);
        }
        Some(self.slots.len() - 1)
    }

    /// Takes the probe of device `slot` one step further.
    pub fn probe(&mut self, slot: usize, event: ProbeEvent) -> (actions: Vec<Action>)
        requires
            old(self).wf(),
            slot < old(self)@.slots.len(),
            probe_enabled(old(self)@.slots[slot as int], event),
        ensures
            final(self).wf(),
            final(self)@ == old(self)@.after_probe(slot as int, event),
            actions@ == probe_spec(
                old(self)@.slots[slot as int],
                id_of_serial(old(self)@.issued),
                event,
            ).actions,
    {
        let ghost before = self@;
        proof {
            law_probe_keeps_driver(before, slot as int, event);
        }
        let actions = NovaCore::probe(&mut self.slots[slot], &mut self.ids, event);
        assert(self@.slots =~= before.after_probe(slot as int, event).slots);
        actions
    }

    /// Takes the unbind of device `slot` one step further.
    pub fn unbind(&mut self, slot: usize, event: UnbindEvent) -> (actions: Vec<Action>)
        requires
            old(self).wf(),
            slot < old(self)@.slots.len(),
            unbind_enabled(old(self)@.slots[slot as int], event),
        ensures
            final(self).wf(),
            final(self)@ == old(self)@.after_unbind(slot as int, event),
            actions@ == unbind_spec(old(self)@.slots[slot as int], event).actions,
    {
        let ghost before = self@;
        proof {
            law_unbind_keeps_driver(before, slot as int, event);
        }
        let actions = NovaCore::unbind(&mut self.slots[slot], event);
        assert(self@.slots =~= before.after_unbind(slot as int, event).slots);
        actions
    }
}

} // verus!
