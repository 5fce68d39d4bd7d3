//! The per-core list-register pool.
//!
//! Each core owns a small fixed pool of list registers (four to sixteen,
//! reported by the capability register) through which virtual interrupts are
//! presented to the guest running on that core. [`VGicCore`] mirrors that
//! banked state: the capability register as read at init, and the current
//! value of each list register. The pool is a real resource: injection
//! allocates the first empty slot, refuses a duplicate ID, and reports
//! exhaustion instead of stalling the core.
use vstd::prelude::*;

use crate::regs::{
    lr_count, lr_encode, lr_encode_exec, lr_count_exec, lr_occupied, lr_vid, GicError,
};

verus! {

/// Outcome of presenting a virtual interrupt to the current core's guest.
#[derive(Clone, Copy, Debug, PartialEq, Eq, Structural)]
pub enum InjectOutcome {
    /// The ID was written, pending, into the list register at this index.
    Injected { slot: usize },
    /// A slot already holds this ID pending or active; nothing was changed.
    AlreadyPresent,
}

/// No two occupied slots present the same virtual interrupt ID.
pub open spec fn no_duplicate_vids(s: Seq<u64>) -> bool {
    forall|i: int, j: int|
        0 <= i < s.len() && 0 <= j < s.len() && i != j && lr_occupied(#[trigger] s[i])
            && lr_occupied(#[trigger] s[j]) ==> lr_vid(s[i]) != lr_vid(s[j])
}

/// Some occupied slot presents `id`.
pub open spec fn has_vid(s: Seq<u64>, id: u64) -> bool {
    exists|i: int| 0 <= i < s.len() && lr_occupied(#[trigger] s[i]) && lr_vid(s[i]) == id
}

/// Some slot is empty.
pub open spec fn has_empty(s: Seq<u64>) -> bool {
    exists|i: int| 0 <= i < s.len() && !lr_occupied(#[trigger] s[i])
}

/// Index of the first empty slot at or after `i`; the length when none is.
pub open spec fn first_empty_from(s: Seq<u64>, i: int) -> int
    decreases s.len() - i,
{
    if i < 0 || i >= s.len() {
        s.len() as int
    } else if !lr_occupied(s[i]) {
        i
    } else {
        first_empty_from(s, i + 1)
    }
}

/// Index of the first empty slot; the length when the pool is exhausted.
pub open spec fn first_empty(s: Seq<u64>) -> int {
    first_empty_from(s, 0)
}

/// The slots after injecting `id`: unchanged on a duplicate or on
/// exhaustion, otherwise the first empty slot now presents `id`.
pub open spec fn inject_post(s: Seq<u64>, id: u64) -> Seq<u64> {
    if has_vid(s, id) || !has_empty(s) {
        s
    } else {
        s.update(first_empty(s), lr_encode(id))
    }
}

/// The reported outcome of injecting `id` into slots `s`.
pub open spec fn inject_outcome(s: Seq<u64>, id: u64) -> Result<InjectOutcome, GicError> {
    if has_vid(s, id) {
        Ok(InjectOutcome::AlreadyPresent)
    } else if !has_empty(s) {
        Err(GicError::Exhausted)
    } else {
        Ok(InjectOutcome::Injected { slot: first_empty(s) as usize })
    }
}

/// One core's banked virtual-interface state: the capability register read
/// at init and a mirror of the implemented list registers.
///
/// Hardware moves a slot underneath this mirror when the guest acknowledges
/// or deactivates the presented interrupt, so `lrs` must hold the current
/// hardware list-register values — re-read, not remembered — whenever an
/// operation on the pool runs; a stale mirror would report a retired ID as
/// still present and silently lose its next delivery.
pub struct VGicCore {
    /// Capability register (`ICH_VTR_EL2`) as read at per-core init.
    pub vtr: u64,
    /// The implemented list registers, mirroring the hardware at entry to
    /// each operation.
    pub lrs: Vec<u64>,
}

impl VGicCore {
    /// The pool holds exactly the reported number of slots and never
    /// presents one ID from two slots at once.
    pub open spec fn wf(&self) -> bool {
        &&& self.lrs@.len() == lr_count(self.vtr)
        &&& no_duplicate_vids(self.lrs@)
    }

    /// Fresh per-core state: every reported list register empty.
    pub fn new(vtr: u64) -> (c: VGicCore)
        ensures
            c.vtr == vtr,
            c.lrs@.len() == lr_count(vtr),
            forall|i: int| 0 <= i < c.lrs@.len() ==> !lr_occupied(#[trigger] c.lrs@[i]),
            c.wf(),
    {
        let n = lr_count_exec(vtr);
        let mut lrs: Vec<u64> = Vec::new();
        let mut i: usize = 0;
        while i < n
            invariant
                i <= n,
                lrs@.len() == i,
                forall|k: int| 0 <= k < i ==> lrs@[k] == 0u64,
            decreases n - i,
        {
            lrs.push(0);
            i = i + 1;
        }
        proof {
            assert(forall|k: int| 0 <= k < lrs@.len() ==> !lr_occupied(#[trigger] lrs@[k]))
                by {
                assert(0u64 >> 62 == 0) by (bit_vector);
            }
        }
        VGicCore { vtr, lrs }
    }
}

/// Read the list register at `slot`; an index at or above the reported
/// count is a programming fault, surfaced as an error.
pub fn read_lr(core: &VGicCore, slot: usize) -> (r: Result<u64, GicError>)
    ensures
        r == (if slot < core.lrs@.len() {
            Ok::<u64, GicError>(core.lrs@[slot as int])
        } else {
            Err::<u64, GicError>(GicError::SlotOutOfRange)
        }),
{
    if slot < core.lrs.len() {
        Ok(core.lrs[slot])
    } else {
        Err(GicError::SlotOutOfRange)
    }
}

/// Write the list register at `slot`; an index at or above the reported
/// count is a programming fault, surfaced as an error.
pub fn write_lr(core: &mut VGicCore, slot: usize, val: u64) -> (r: Result<(), GicError>)
    ensures
        final(core).vtr == old(core).vtr,
        r == (if slot < old(core).lrs@.len() {
            Ok::<(), GicError>(())
        } else {
            Err::<(), GicError>(GicError::SlotOutOfRange)
        }),
        final(core).lrs@ == (if slot < old(core).lrs@.len() {
            old(core).lrs@.update(slot as int, val)
        } else {
            old(core).lrs@
        }),
{
    if slot < core.lrs.len() {
        core.lrs[slot] = val;
        Ok(())
    } else {
        Err(GicError::SlotOutOfRange)
    }
}

/// The first empty index is an empty slot, everything before it is
/// occupied, and it lies within the slots exactly when one is empty.
pub proof fn lemma_first_empty_from(s: Seq<u64>, i: int)
    requires
        0 <= i <= s.len(),
    ensures
        i <= first_empty_from(s, i) <= s.len(),
        first_empty_from(s, i) < s.len() ==> !lr_occupied(s[first_empty_from(s, i)]),
        forall|k: int| i <= k < first_empty_from(s, i) ==> lr_occupied(#[trigger] s[k]),
        first_empty_from(s, i) == s.len() ==> forall|k: int|
            i <= k < s.len() ==> lr_occupied(#[trigger] s[k]),
    decreases s.len() - i,
{
    if i < s.len() && lr_occupied(s[i]) {
        lemma_first_empty_from(s, i + 1);
    }
}

/// Present a virtual interrupt to the guest on this core.
///
/// Scans the pool: an occupied slot already presenting `id` makes the call
/// a no-op; otherwise the first empty slot receives the pass-through
/// encoding of `id`, pending; with no empty slot the pool is exhausted and
/// the state is left unchanged.
pub fn inject_irq(core: &mut VGicCore, irq_id: u64) -> (r: Result<InjectOutcome, GicError>)
    requires
        old(core).wf(),
        irq_id < 0x3fe,
    ensures
        final(core).vtr == old(core).vtr,
        final(core).wf(),
        final(core).lrs@ == inject_post(old(core).lrs@, irq_id),
        r == inject_outcome(old(core).lrs@, irq_id),
{
    let ghost s = core.lrs@;
    let n = core.lrs.len();

    // Refuse a duplicate: at most one slot may present an ID at a time.
    let mut i: usize = 0;
    while i < n
        invariant
            core.vtr == old(core).vtr,
            core.lrs@ == s,
            s == old(core).lrs@,
            old(core).wf(),
            n == s.len(),
            i <= n,
            forall|k: int| 0 <= k < i ==> !(lr_occupied(#[trigger] s[k]) && lr_vid(s[k]) == irq_id),
        decreases n - i,
    {
        let v = core.lrs[i];
        if lr_state_exec(v) != 0 && lr_vid_exec(v) == irq_id {
            assert(has_vid(s, irq_id));
            return Ok(InjectOutcome::AlreadyPresent);
        }
        i = i + 1;
    }
    assert(!has_vid(s, irq_id));

    // Allocate the first empty slot.
    proof {
        lemma_first_empty_from(s, 0);
    }
    let mut idx: usize = 0;
    while idx < n
        invariant
            core.vtr == old(core).vtr,
            core.lrs@ == s,
            s == old(core).lrs@,
            old(core).wf(),
            irq_id < 0x3fe,
            !has_vid(s, irq_id),
            n == s.len(),
            idx <= n,
            forall|k: int| 0 <= k < idx ==> lr_occupied(#[trigger] s[k]),
            first_empty(s) >= idx,
        decreases n - idx,
    {
        let v = core.lrs[idx];
        if lr_state_exec(v) == 0 {
            proof {
                lemma_first_empty_from(s, 0);
                assert(first_empty(s) == idx);
            }
            let enc = lr_encode_exec(irq_id);
            core.lrs[idx] = enc;
            proof {
                crate::regs::lemma_lr_encode_fields(irq_id);
                assert(no_duplicate_vids(core.lrs@)) by {
                    assert(forall|k: int|
                        0 <= k < s.len() && k != idx ==> core.lrs@[k] == s[k]);
                }
            }
            return Ok(InjectOutcome::Injected { slot: idx });
        }
        proof {
            lemma_first_empty_from(s, 0);
        }
        idx = idx + 1;
    }

    // Every slot is occupied: the pool is exhausted.
    assert(!has_empty(s));
    Err(GicError::Exhausted)
}

/// State field of a list-register value: zero means invalid/empty.
pub fn lr_state_exec(v: u64) -> (s: u64)
    ensures
        s == crate::regs::lr_state(v),
        (s == 0) == !lr_occupied(v),
{
    v >> 62
}

/// Virtual interrupt ID held in a list-register value.
pub fn lr_vid_exec(v: u64) -> (id: u64)
    ensures
        id == lr_vid(v),
{
    v & 0x3ff
}

/// Distinct un-retired IDs occupy distinct slots: a pool that never holds
/// duplicates presents each ID from at most one slot.
pub proof fn lemma_distinct_ids_distinct_slots(s: Seq<u64>, i: int, j: int)
    requires
        no_duplicate_vids(s),
        0 <= i < s.len(),
        0 <= j < s.len(),
        lr_occupied(s[i]),
        lr_occupied(s[j]),
        lr_vid(s[i]) == lr_vid(s[j]),
    ensures
        i == j,
{
}

/// Injecting an ID a second time before it is retired is a no-op: the slots
/// after two injections equal the slots after one, and whenever the first
/// call placed or found the ID, the second call reports it already present.
pub proof fn lemma_inject_idempotent(s: Seq<u64>, id: u64)
    requires
        id < 0x3fe,
    ensures
        inject_post(inject_post(s, id), id) == inject_post(s, id),
        has_vid(s, id) || has_empty(s) ==> inject_outcome(inject_post(s, id), id) == Ok::<
            InjectOutcome,
            GicError,
        >(InjectOutcome::AlreadyPresent),
{
    if !has_vid(s, id) && has_empty(s) {
        let t = inject_post(s, id);
        lemma_first_empty_from(s, 0);
        crate::regs::lemma_lr_encode_fields(id);
        assert(lr_occupied(t[first_empty(s)]) && lr_vid(t[first_empty(s)]) == id);
        assert(has_vid(t, id));
    }
}

} // verus!
