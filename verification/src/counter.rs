//! Auxiliary device ids: a counter that starts at zero, goes up by one with
//! every id it hands out, and never takes an id back.

use vstd::prelude::*;

verus! {

/// How many different 32-bit ids there are.
pub open spec fn id_space() -> nat {
    0x1_0000_0000
}

/// The id handed out by the call number `serial` (counted from zero). Once
/// `id_space()` ids have gone out the values start again at zero.
pub open spec fn id_of_serial(serial: nat) -> u32 {
    (serial % id_space()) as u32
}

/// The ids handed out by `n` calls in a row, the first of them being call
/// number `start`.
pub open spec fn issued_ids(start: nat, n: nat) -> Seq<u32> {
    Seq::new(n, |k: int| id_of_serial((start + k) as nat))
}

/// The source of auxiliary device ids.
///
/// Exclusive access stands for atomicity: whoever shares one counter among
/// probes that run in parallel puts it where each call has it alone.
pub struct AuxiliaryIdCounter {
    next: u32,
    issued: Ghost<nat>,
}

impl AuxiliaryIdCounter {
    /// How many ids this counter has handed out since it was made.
    pub closed spec fn issued(&self) -> nat {
        self.issued@
    }

    /// The stored value is the id of the next call.
    pub closed spec fn wf(&self) -> bool {
        self.next == id_of_serial(self.issued@)
    }

    /// A counter that has handed out nothing yet.
    pub fn new() -> (counter: Self)
        ensures
            counter.wf(),
            counter.issued() == 0,
    {
        AuxiliaryIdCounter { next: 0, issued: Ghost(0) }
    }

    /// The id that the next call of `next_id` will return.
    pub fn peek(&self) -> (id: u32)
        requires
            self.wf(),
        ensures
            id == id_of_serial(self.issued()),
    {
        self.next
    }

    /// Hands out one id: fetch, then add one, wrapping at the end of the id
    /// space.
    pub fn next_id(&mut self) -> (id: u32)
        requires
            old(self).wf(),
        ensures
            final(self).wf(),
            id == id_of_serial(old(self).issued()),
            final(self).issued() == old(self).issued() + 1,
    {
        let id: u32 = self.next;
        self.next = id.wrapping_add(1);
        self.issued = Ghost((self.issued@ + 1) as nat);
        id
    }
}

/// Before the id space is used up, the ids are the serial numbers themselves.
pub proof fn law_id_is_serial(serial: nat)
    requires
        serial < id_space(),
    ensures
        id_of_serial(serial) == serial,
{
}

/// Any two different calls among the first `id_space()` get different ids.
pub proof fn law_ids_distinct(i: nat, j: nat)
    requires
        i < id_space(),
        j < id_space(),
        i != j,
    ensures
        id_of_serial(i) != id_of_serial(j),
{
}

/// `n` calls on a fresh counter hand out each value of `[0, n)` exactly once,
/// as long as `n` does not exceed the id space.
pub proof fn law_first_ids_are_a_range(n: nat)
    requires
        n <= id_space(),
    ensures
        issued_ids(0, n).len() == n,
        issued_ids(0, n).no_duplicates(),
        forall|v: u32| issued_ids(0, n).contains(v) <==> (v as nat) < n,
{
    let ids = issued_ids(0, n);
    assert forall|v: u32| ids.contains(v) <==> (v as nat) < n by {
        if (v as nat) < n {
            assert(ids[v as int] == v);
        }
    }
}

} // verus!
