//! What a whole probe and a whole unbind ask of the caller, from the first
//! event to the last.

use crate::counter::{id_of_serial, id_space};
use crate::driver::law_probe_keeps_slot;
use crate::resource::{
    classify, unwind, Action, AuxRegistration, BusHandle, Gpu, NovaCore, ProbeError, Resource,
    GPU_DMA_BITS,
};
use crate::slot::{
    plan, probe_enabled, probe_spec, takes_id, unbind_spec, Phase, ProbeEvent, SlotModel,
    UnbindEvent, PLAN_LEN,
};
use vstd::prelude::*;

verus! {

/// Where a sequence of events has led: the device, how many ids the counter
/// has handed out, and everything the caller was asked to do, in order.
pub struct Run {
    pub slot: SlotModel,
    pub issued: nat,
    pub actions: Seq<Action>,
}

/// The probe steps for `events`, one after another, on a device that starts
/// as `m` with a counter that has handed out `issued` ids.
pub open spec fn probe_run(m: SlotModel, issued: nat, events: Seq<ProbeEvent>) -> Run
    decreases events.len(),
{
    if events.len() == 0 {
        Run { slot: m, issued, actions: Seq::empty() }
    } else {
        let before = probe_run(m, issued, events.drop_last());
        let step = probe_spec(before.slot, id_of_serial(before.issued), events.last());
        Run {
            slot: step.slot,
            issued: if takes_id(before.slot, events.last()) {
                before.issued + 1
            } else {
                before.issued
            },
            actions: before.actions + step.actions,
        }
    }
}

/// The events of a probe up to the point where `k` acquisitions have
/// succeeded.
pub open spec fn acquired(k: nat) -> Seq<ProbeEvent> {
    seq![ProbeEvent::Start] + Seq::new(k, |i: int| ProbeEvent::Acquired)
}

/// The first `n` steps of the plan.
pub open spec fn plan_prefix(n: nat, id: u32) -> Seq<Resource> {
    Seq::new(n, |i: int| plan(i, id))
}

/// Asking for the first `n` steps of the plan, in order.
pub open spec fn requests(bus: BusHandle, n: nat, id: u32) -> Seq<Action> {
    Seq::new(n, |i: int| Action::Acquire { bus, what: plan(i, id) })
}

/// A device in the middle of a probe: `k` steps done, the next one out.
pub open spec fn probing(bus: BusHandle, k: nat, id: u32) -> SlotModel {
    SlotModel {
        bus,
        phase: Phase::Probing,
        held: plan_prefix(k, id),
        pending: Some(plan(k as int, id)),
        state: None,
    }
}

/// A bound device.
pub open spec fn bound(bus: BusHandle, id: u32) -> SlotModel {
    SlotModel {
        bus,
        phase: Phase::Bound,
        held: plan_prefix(PLAN_LEN as nat, id),
        pending: None,
        state: Some(NovaCore { gpu: Gpu { bus }, reg: AuxRegistration { parent: bus, id } }),
    }
}

/// Events that follow one another continue where the first ones ended.
pub proof fn law_run_continues(m: SlotModel, issued: nat, a: Seq<ProbeEvent>, b: Seq<ProbeEvent>)
    ensures
        ({
            let first = probe_run(m, issued, a);
            let second = probe_run(first.slot, first.issued, b);
            let whole = probe_run(m, issued, a + b);
            &&& whole.slot == second.slot
            &&& whole.issued == second.issued
            &&& whole.actions == first.actions + second.actions
        }),
    decreases b.len(),
{
    let first = probe_run(m, issued, a);
    if b.len() == 0 {
        assert(a + b =~= a);
        assert(first.actions + Seq::<Action>::empty() =~= first.actions);
    } else {
        law_run_continues(m, issued, a, b.drop_last());
        assert((a + b).drop_last() =~= a + b.drop_last());
        assert((a + b).last() == b.last());
        let second_before = probe_run(first.slot, first.issued, b.drop_last());
        let step = probe_spec(second_before.slot, id_of_serial(second_before.issued), b.last());
        assert((first.actions + second_before.actions) + step.actions =~= first.actions + (
        second_before.actions + step.actions));
    }
}

/// A probe asks for its acquisitions in the order of the plan, one at a
/// time, and holds exactly what it has acquired. It takes its auxiliary id
/// when the GPU subsystem has been built: the counter does not move before.
pub proof fn law_acquisitions_in_order(bus: BusHandle, issued: nat, k: nat)
    requires
        k < PLAN_LEN,
    ensures
        ({
            let run = probe_run(SlotModel::unbound(bus), issued, acquired(k));
            let id = id_of_serial(issued);
            &&& run.slot == probing(bus, k, id)
            &&& run.slot.wf()
            &&& run.issued == if k == PLAN_LEN - 1 {
                issued + 1
            } else {
                issued
            }
            &&& run.actions == requests(bus, k + 1, id)
        }),
    decreases k,
{
    let id = id_of_serial(issued);
    let events = acquired(k);
    let run = probe_run(SlotModel::unbound(bus), issued, events);
    if k == 0 {
        assert(events.drop_last() =~= Seq::<ProbeEvent>::empty());
        assert(events.last() == ProbeEvent::Start);
        assert(probe_run(SlotModel::unbound(bus), issued, events.drop_last()).slot
            == SlotModel::unbound(bus));
        assert(run.slot.held =~= plan_prefix(0, id));
        assert(run.actions =~= requests(bus, 1, id));
    } else {
        let j = (k - 1) as nat;
        law_acquisitions_in_order(bus, issued, j);
        assert(events.drop_last() =~= acquired(j));
        assert(events.last() == ProbeEvent::Acquired);
        let before = probe_run(SlotModel::unbound(bus), issued, acquired(j));
        assert(before.slot == probing(bus, j, id));
        assert(before.issued == issued);
        assert(run.slot.held =~= plan_prefix(k, id));
        assert(run.slot.pending == Some(plan(k as int, id)));
        assert(run.actions =~= requests(bus, k + 1, id));
        law_probe_keeps_slot(before.slot, id, ProbeEvent::Acquired);
    }
}

/// A probe in which every acquisition succeeds ends bound, with a device
/// state object of one GPU subsystem and one auxiliary registration under the
/// id it took, and has moved the counter by one.
pub proof fn law_successful_probe(bus: BusHandle, issued: nat)
    ensures
        ({
            let run = probe_run(SlotModel::unbound(bus), issued, acquired(PLAN_LEN as nat));
            let id = id_of_serial(issued);
            &&& run.slot == bound(bus, id)
            &&& run.slot.wf()
            &&& run.issued == issued + 1
            &&& run.actions == requests(bus, PLAN_LEN as nat, id).push(
                Action::Publish { bus, state: bound(bus, id).state->0 },
            )
        }),
{
    let id = id_of_serial(issued);
    let events = acquired(PLAN_LEN as nat);
    let run = probe_run(SlotModel::unbound(bus), issued, events);
    law_acquisitions_in_order(bus, issued, 5);
    assert(events.drop_last() =~= acquired(5));
    assert(events.last() == ProbeEvent::Acquired);
    let before = probe_run(SlotModel::unbound(bus), issued, acquired(5));
    assert(before.slot == probing(bus, 5, id));
    assert(run.slot.held =~= plan_prefix(PLAN_LEN as nat, id));
    assert(run.actions =~= requests(bus, PLAN_LEN as nat, id).push(
        Action::Publish { bus, state: bound(bus, id).state->0 },
    ));
    law_probe_keeps_slot(before.slot, id, ProbeEvent::Acquired);
}

/// Wherever a probe fails, it gives back everything it had acquired, last
/// acquired first, reports the error after that, and leaves the device as it
/// was before the probe. Unless the GPU subsystem had been built, the counter
/// has not moved.
pub proof fn law_injected_failure(bus: BusHandle, issued: nat, k: nat, code: i32)
    requires
        k < PLAN_LEN,
    ensures
        ({
            let run = probe_run(
                SlotModel::unbound(bus),
                issued,
                acquired(k).push(ProbeEvent::Failed { code }),
            );
            let id = id_of_serial(issued);
            &&& run.slot == SlotModel::unbound(bus)
            &&& run.issued == if k == PLAN_LEN - 1 {
                issued + 1
            } else {
                issued
            }
            &&& run.actions == requests(bus, k + 1, id) + unwind(bus, plan_prefix(k, id)).push(
                Action::Fail { bus, error: classify(plan(k as int, id), code) },
            )
            &&& classify(plan(k as int, id), code) is ResourceAcquisition <==> k < 4
        }),
{
    let id = id_of_serial(issued);
    let events = acquired(k).push(ProbeEvent::Failed { code });
    law_acquisitions_in_order(bus, issued, k);
    assert(events.drop_last() =~= acquired(k));
    assert(events.last() == ProbeEvent::Failed { code });
}

/// When the auxiliary registration fails, the GPU subsystem is torn down
/// first of all, and the error is reported last, as a construction abort.
pub proof fn law_gpu_torn_down_before_error(bus: BusHandle, issued: nat, code: i32)
    ensures
        ({
            let run = probe_run(
                SlotModel::unbound(bus),
                issued,
                acquired(5).push(ProbeEvent::Failed { code }),
            );
            let id = id_of_serial(issued);
            &&& run.actions.len() == 12
            &&& run.actions[5] == Action::Acquire { bus, what: Resource::AuxRegistration { id } }
            &&& run.actions[6] == Action::Release { bus, what: Resource::Gpu }
            &&& run.actions[11] == Action::Fail {
                bus,
                error: ProbeError::ConstructionAbort {
                    what: Resource::AuxRegistration { id },
                    code,
                },
            }
            &&& forall|i: int| 0 <= i < 11 ==> !(#[trigger] run.actions[i] is Fail)
        }),
{
    law_injected_failure(bus, issued, 5, code);
}

/// A failed probe leaves nothing behind: whatever follows goes as it would
/// on a device that was never probed. And until the id space is used up, the
/// id that the failed probe took, if it took one, is not handed out again.
pub proof fn law_retry_starts_fresh(
    bus: BusHandle,
    issued: nat,
    k: nat,
    code: i32,
    later: Seq<ProbeEvent>,
)
    requires
        k < PLAN_LEN,
    ensures
        ({
            let failed = probe_run(
                SlotModel::unbound(bus),
                issued,
                acquired(k).push(ProbeEvent::Failed { code }),
            );
            let whole = probe_run(
                SlotModel::unbound(bus),
                issued,
                acquired(k).push(ProbeEvent::Failed { code }) + later,
            );
            let again = probe_run(SlotModel::unbound(bus), failed.issued, later);
            &&& whole.slot == again.slot
            &&& whole.issued == again.issued
            &&& whole.actions == failed.actions + again.actions
            &&& failed.issued < id_space() && failed.issued > issued ==> id_of_serial(
                failed.issued,
            ) != id_of_serial(issued)
        }),
{
    law_injected_failure(bus, issued, k, code);
    law_run_continues(
        SlotModel::unbound(bus),
        issued,
        acquired(k).push(ProbeEvent::Failed { code }),
        later,
    );
}

/// What is bound holds the six steps of the plan, once each: one GPU
/// subsystem, and one auxiliary registration, under the id of the device
/// state object.
pub proof fn law_bound_holds_one_of_each(m: SlotModel)
    requires
        m.wf(),
        m.phase is Bound || m.phase is Unbinding,
    ensures
        m.state is Some,
        m.held == plan_prefix(PLAN_LEN as nat, m.state->0.reg.id),
        forall|i: int| 0 <= i < m.held.len() ==> (m.held[i] is Gpu <==> i == 4),
        forall|i: int| 0 <= i < m.held.len() ==> (m.held[i] is AuxRegistration <==> i == 5),
        m.held[5] == (Resource::AuxRegistration { id: m.state->0.reg.id }),
{
    assert(m.held =~= plan_prefix(PLAN_LEN as nat, m.state->0.reg.id));
}

/// What a device holds, it holds in the order of the plan, each thing once.
/// So whoever holds the GPU subsystem holds the register window, and whoever
/// holds the auxiliary registration holds the GPU subsystem.
pub proof fn law_held_in_plan_order(m: SlotModel)
    requires
        m.wf(),
    ensures
        m.held.len() <= PLAN_LEN,
        forall|i: int| 0 <= i < m.held.len() ==> (#[trigger] m.held[i]).rank() == i,
        m.held.no_duplicates(),
        m.phase is Unbound ==> m.held.len() == 0,
{
    assert forall|i: int| 0 <= i < m.held.len() implies (#[trigger] m.held[i]).rank() == i by {
        if m.phase is Probing {
            assert(m.held[i] == plan(i, 0));
        } else {
            assert(m.held[i] == plan(i, m.state->0.reg.id));
        }
    }
}

/// Giving back goes against the order of acquisition: each thing held is
/// given back once, and what was acquired later goes first. The register
/// window is never unmapped while the GPU subsystem, which shares it, is
/// there; the auxiliary registration never outlives the GPU subsystem.
pub proof fn law_unwind_order(m: SlotModel)
    requires
        m.wf(),
    ensures
        unwind(m.bus, m.held).len() == m.held.len(),
        forall|k: int|
            0 <= k < m.held.len() ==> #[trigger] unwind(m.bus, m.held)[k] == (Action::Release {
                bus: m.bus,
                what: m.held[m.held.len() - 1 - k],
            }) && m.held[m.held.len() - 1 - k].rank() == m.held.len() - 1 - k,
{
    law_held_in_plan_order(m);
}

/// The DMA address width is set during bring-up and at no other time: a step
/// asks for it only of a device that is being probed, that has nothing
/// published and no GPU subsystem yet, and always with the one fixed width.
pub proof fn law_dma_mask_only_during_bring_up(
    m: SlotModel,
    fresh: u32,
    event: ProbeEvent,
    i: int,
)
    requires
        m.wf(),
        probe_enabled(m, event),
        0 <= i < probe_spec(m, fresh, event).actions.len(),
        probe_spec(m, fresh, event).actions[i] is Acquire,
        probe_spec(m, fresh, event).actions[i]->Acquire_what is DmaMask,
    ensures
        m.phase is Probing,
        event is Acquired,
        m.held == seq![Resource::DeviceMem],
        m.pending == Some(Resource::BusMaster),
        probe_spec(m, fresh, event).slot.state is None,
        probe_spec(m, fresh, event).actions[i] == (Action::Acquire {
            bus: m.bus,
            what: Resource::DmaMask { bits: GPU_DMA_BITS },
        }),
{
    if event is Failed {
        assert(i < m.held.len() ==> unwind(m.bus, m.held)[i] is Release);
    } else if event is Acquired {
        assert(m.held.len() == 1);
        assert(m.held[0] == plan(0, 0));
        assert(m.held =~= seq![Resource::DeviceMem]);
    }
}

/// An unbind tells the GPU subsystem of this device to quiesce, once and
/// before anything else; then it gives back all that is held, the auxiliary
/// registration first and the GPU subsystem next, and leaves the device
/// unbound.
pub proof fn law_unbind_reclaims(m: SlotModel)
    requires
        m.wf(),
        m.phase is Bound,
    ensures
        ({
            let detach = unbind_spec(m, UnbindEvent::Detach);
            let quiesced = unbind_spec(detach.slot, UnbindEvent::Quiesced);
            let actions = detach.actions + quiesced.actions;
            &&& detach.slot.phase is Unbinding
            &&& detach.slot.held == m.held
            &&& quiesced.slot == SlotModel::unbound(m.bus)
            &&& actions.len() == 7
            &&& actions[0] == Action::Quiesce { bus: m.bus }
            &&& forall|i: int| 1 <= i < 7 ==> actions[i] == Action::Release {
                bus: m.bus,
                what: plan(6 - i, m.state->0.reg.id),
            }
        }),
{
}

} // verus!
