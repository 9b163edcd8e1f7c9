use nova_core::driver::Driver;
use nova_core::resource::{Action, BusHandle, ProbeError, Resource};
use nova_core::slot::{Phase, ProbeEvent, UnbindEvent};

const VGA: u32 = 0x03_00_00;
const THREE_D: u32 = 0x03_02_00;
const NVIDIA: u32 = 0x10de;

fn bus(addr: u64) -> BusHandle {
    BusHandle { addr }
}

fn bind(driver: &mut Driver, slot: usize) {
    driver.probe(slot, ProbeEvent::Start);
    for _ in 0..6 {
        driver.probe(slot, ProbeEvent::Acquired);
    }
    assert_eq!(driver.slot(slot).phase(), Phase::Bound);
}

#[test]
fn new_driver_knows_no_device() {
    let driver = Driver::new();
    assert_eq!(driver.len(), 0);
    assert_eq!(driver.peek_id(), 0);
}

#[test]
fn attach_turns_down_what_the_table_does_not_claim() {
    let mut driver = Driver::new();
    assert_eq!(driver.attach(bus(1), VGA, 0x8086), None);
    assert_eq!(driver.attach(bus(1), 0x02_00_00, NVIDIA), None);
    assert_eq!(driver.len(), 0);
}

#[test]
fn attach_gives_each_device_one_slot() {
    let mut driver = Driver::new();
    assert_eq!(driver.attach(bus(10), VGA, NVIDIA), Some(0));
    assert_eq!(driver.attach(bus(20), THREE_D, NVIDIA), Some(1));
    assert_eq!(driver.attach(bus(10), VGA, NVIDIA), Some(0));
    assert_eq!(driver.len(), 2);
    assert_eq!(driver.slot(0).bus(), bus(10));
    assert_eq!(driver.slot(1).bus(), bus(20));
    assert_eq!(driver.slot(0).phase(), Phase::Unbound);
    assert_eq!(driver.slot(1).phase(), Phase::Unbound);
}

#[test]
fn two_devices_probing_in_parallel_get_ids_zero_and_one() {
    let mut driver = Driver::new();
    let a = driver.attach(bus(10), VGA, NVIDIA).unwrap();
    let b = driver.attach(bus(20), THREE_D, NVIDIA).unwrap();
    // Step by step in turn, b one step behind a...
    driver.probe(a, ProbeEvent::Start);
    for _ in 0..6 {
        if driver.slot(b).phase() == Phase::Unbound {
            driver.probe(b, ProbeEvent::Start);
        } else {
            driver.probe(b, ProbeEvent::Acquired);
        }
        driver.probe(a, ProbeEvent::Acquired);
    }
    driver.probe(b, ProbeEvent::Acquired);
    assert_eq!(driver.slot(a).phase(), Phase::Bound);
    assert_eq!(driver.slot(b).phase(), Phase::Bound);
    let mut ids = vec![driver.slot(a).aux_id().unwrap(), driver.slot(b).aux_id().unwrap()];
    assert_ne!(ids[0], ids[1]);
    ids.sort();
    assert_eq!(ids, vec![0, 1]);
}

#[test]
fn the_device_whose_gpu_stands_first_gets_the_lower_id() {
    let mut driver = Driver::new();
    let a = driver.attach(bus(10), VGA, NVIDIA).unwrap();
    let b = driver.attach(bus(20), VGA, NVIDIA).unwrap();
    driver.probe(a, ProbeEvent::Start);
    driver.probe(b, ProbeEvent::Start);
    for _ in 0..4 {
        driver.probe(a, ProbeEvent::Acquired);
        driver.probe(b, ProbeEvent::Acquired);
    }
    // Both wait for their GPU subsystem; b's is ready first.
    let asked_b = driver.probe(b, ProbeEvent::Acquired);
    let asked_a = driver.probe(a, ProbeEvent::Acquired);
    assert_eq!(
        asked_b,
        vec![Action::Acquire { bus: bus(20), what: Resource::AuxRegistration { id: 0 } }]
    );
    assert_eq!(
        asked_a,
        vec![Action::Acquire { bus: bus(10), what: Resource::AuxRegistration { id: 1 } }]
    );
    driver.probe(a, ProbeEvent::Acquired);
    driver.probe(b, ProbeEvent::Acquired);
    assert_eq!(driver.slot(a).state().unwrap().reg.id, 1);
    assert_eq!(driver.slot(b).state().unwrap().reg.id, 0);
}

#[test]
fn bound_devices_never_share_an_id() {
    let mut driver = Driver::new();
    let mut slots = Vec::new();
    for n in 0..8u64 {
        let slot = driver.attach(bus(100 + n), if n % 2 == 0 { VGA } else { THREE_D }, NVIDIA);
        slots.push(slot.unwrap());
    }
    // Bind, with an unbind and a failed probe in between.
    bind(&mut driver, slots[3]);
    bind(&mut driver, slots[0]);
    driver.unbind(slots[3], UnbindEvent::Detach);
    driver.unbind(slots[3], UnbindEvent::Quiesced);
    driver.probe(slots[5], ProbeEvent::Start);
    for _ in 0..5 {
        driver.probe(slots[5], ProbeEvent::Acquired);
    }
    driver.probe(slots[5], ProbeEvent::Failed { code: -12 });
    for slot in [1usize, 2, 3, 4, 5, 6, 7] {
        bind(&mut driver, slots[slot]);
    }
    let mut ids: Vec<u32> =
        slots.iter().map(|s| driver.slot(*s).state().unwrap().reg.id).collect();
    ids.sort();
    let before = ids.len();
    ids.dedup();
    assert_eq!(ids.len(), before);
    // Ten ids went out: eight are in use, two are gone for good.
    assert_eq!(driver.peek_id(), 10);
    assert!(ids.iter().all(|id| *id < 10));
}

#[test]
fn failed_probe_leaves_the_device_unclaimed_and_other_devices_alone() {
    let mut driver = Driver::new();
    let a = driver.attach(bus(10), VGA, NVIDIA).unwrap();
    let b = driver.attach(bus(20), VGA, NVIDIA).unwrap();
    bind(&mut driver, a);
    driver.probe(b, ProbeEvent::Start);
    driver.probe(b, ProbeEvent::Acquired);
    let asked = driver.probe(b, ProbeEvent::Failed { code: -16 });
    assert_eq!(
        asked,
        vec![
            Action::Release { bus: bus(20), what: Resource::DeviceMem },
            Action::Fail {
                bus: bus(20),
                error: ProbeError::ResourceAcquisition { what: Resource::BusMaster, code: -16 },
            },
        ]
    );
    assert_eq!(driver.slot(b).phase(), Phase::Unbound);
    assert!(driver.slot(b).held().is_empty());
    assert_eq!(driver.slot(a).phase(), Phase::Bound);
    assert_eq!(driver.slot(a).held().len(), 6);
    assert_eq!(driver.peek_id(), 1);
    // Retry is permitted.
    assert_eq!(driver.attach(bus(20), VGA, NVIDIA), Some(b));
    bind(&mut driver, b);
    assert_eq!(driver.slot(b).aux_id(), Some(1));
}

#[test]
fn driver_unbind_reclaims_one_device_only() {
    let mut driver = Driver::new();
    let a = driver.attach(bus(10), VGA, NVIDIA).unwrap();
    let b = driver.attach(bus(20), VGA, NVIDIA).unwrap();
    bind(&mut driver, a);
    bind(&mut driver, b);
    assert_eq!(driver.unbind(a, UnbindEvent::Detach), vec![Action::Quiesce { bus: bus(10) }]);
    assert_eq!(driver.slot(a).phase(), Phase::Unbinding);
    let released = driver.unbind(a, UnbindEvent::Quiesced);
    assert_eq!(released.len(), 6);
    assert!(released.iter().all(|r| matches!(r, Action::Release { bus, .. } if *bus == bus_of_a())));
    assert_eq!(driver.slot(a).phase(), Phase::Unbound);
    assert_eq!(driver.slot(b).phase(), Phase::Bound);
    assert_eq!(driver.slot(b).aux_id(), Some(1));
}

fn bus_of_a() -> BusHandle {
    bus(10)
}
