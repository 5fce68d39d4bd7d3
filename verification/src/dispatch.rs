//! The acknowledge/deactivate protocol and the per-interrupt dispatcher.
//!
//! On every hardware interrupt the core reads its acknowledge register and,
//! unless the value is spurious, classifies the ID: guest-directed
//! inter-core signals (0-7) and peripheral interrupts (16 and up) are
//! retired and re-presented to the guest; the two reserved hypervisor
//! signals drain cross-core events or resume the core; the remaining
//! software-generated IDs are dropped. Retirement under split EOI mode is a
//! two-step write sequence: the priority drop always, the explicit
//! deactivation only for IDs below 16 (hardware-mapped peripheral
//! interrupts retire through the physical EOI path instead). Every
//! re-injection path orders the retirement writes before the list-register
//! write, else the physical source would re-fire without ever being
//! retired.
use vstd::prelude::*;

use crate::pool::{
    first_empty, has_empty, has_vid, inject_irq, inject_outcome, inject_post, InjectOutcome,
    VGicCore,
};
use crate::regs::{
    lr_encode, GicError, GicWrite, SGI_EVENT_ID, SGI_LIMIT, SGI_RESUME_ID, SPURIOUS_FLOOR,
};

verus! {

/// What the dispatcher did with one acknowledged interrupt.
#[derive(Clone, Copy, Debug, PartialEq, Eq, Structural)]
pub enum Disposition {
    /// No real interrupt was pending; nothing was done.
    Spurious,
    /// The ID was retired and re-presented to the guest in this slot.
    Reinjected { id: u64, slot: usize },
    /// The ID was retired; a slot already presented it, so no new slot was
    /// written.
    AlreadyPresent { id: u64 },
    /// The ID was retired but every list register was occupied; the guest
    /// does not see this delivery.
    Exhausted { id: u64 },
    /// The reserved event signal: retired, and the embedding must drain
    /// pending cross-core events.
    EventDrain { id: u64 },
    /// The reserved resume signal: the embedding must mark this core as no
    /// longer suspended; no retirement write is issued.
    Resume { id: u64 },
    /// An unclassified software-generated ID, dropped without retirement.
    Dropped { id: u64 },
}

/// The ID now in service, read from the raw acknowledge value: values at or
/// above the spurious floor mean nothing is pending.
pub open spec fn acknowledged(iar: u64) -> Option<u64> {
    if iar >= SPURIOUS_FLOOR {
        None
    } else {
        Some(iar)
    }
}

/// Decide from the raw acknowledge register value whether a real interrupt
/// is in service, and which.
pub fn pending_irq(iar: u64) -> (r: Option<u64>)
    ensures
        r == acknowledged(iar),
{
    if iar >= SPURIOUS_FLOOR {
        None
    } else {
        Some(iar)
    }
}

/// The retirement writes for `id`: the priority drop always; for a
/// software-generated or private ID below 16 also the explicit
/// deactivation, which split EOI mode makes mandatory there — omitting it
/// would leave the ID permanently active.
pub open spec fn deactivate_writes(id: u64) -> Seq<GicWrite> {
    if id < SGI_LIMIT {
        seq![GicWrite::PriorityDrop(id), GicWrite::Deactivate(id)]
    } else {
        seq![GicWrite::PriorityDrop(id)]
    }
}

/// Retire an acknowledged interrupt: returns the mandated write sequence,
/// both halves for IDs below 16, the priority drop alone for the rest.
pub fn deactivate_irq(irq_id: u64) -> (w: Vec<GicWrite>)
    ensures
        w@ == deactivate_writes(irq_id),
{
    let mut w: Vec<GicWrite> = Vec::new();
    w.push(GicWrite::PriorityDrop(irq_id));
    if irq_id < SGI_LIMIT {
        w.push(GicWrite::Deactivate(irq_id));
    }
    proof {
        assert(w@ =~= deactivate_writes(irq_id));
    }
    w
}

/// Whether an acknowledged ID is retired and re-presented to the guest:
/// guest-directed inter-core signals and all peripheral interrupts.
pub open spec fn is_pass_through(id: u64) -> bool {
    id < 8 || SGI_LIMIT <= id
}

/// The slots after the dispatcher handles one raw acknowledge value.
pub open spec fn handle_post(s: Seq<u64>, iar: u64) -> Seq<u64> {
    if acknowledged(iar) is Some && is_pass_through(iar) {
        inject_post(s, iar)
    } else {
        s
    }
}

/// The disposition the dispatcher reports for one raw acknowledge value.
pub open spec fn handle_disposition(s: Seq<u64>, iar: u64) -> Disposition {
    if iar >= SPURIOUS_FLOOR {
        Disposition::Spurious
    } else if is_pass_through(iar) {
        if has_vid(s, iar) {
            Disposition::AlreadyPresent { id: iar }
        } else if !has_empty(s) {
            Disposition::Exhausted { id: iar }
        } else {
            Disposition::Reinjected { id: iar, slot: first_empty(s) as usize }
        }
    } else if iar == SGI_EVENT_ID {
        Disposition::EventDrain { id: iar }
    } else if iar == SGI_RESUME_ID {
        Disposition::Resume { id: iar }
    } else {
        Disposition::Dropped { id: iar }
    }
}

/// The hardware writes the dispatcher issues for one raw acknowledge
/// value, in order: retirement first, then any re-injection.
pub open spec fn handle_writes(s: Seq<u64>, iar: u64) -> Seq<GicWrite> {
    if iar >= SPURIOUS_FLOOR {
        Seq::empty()
    } else if is_pass_through(iar) {
        if !has_vid(s, iar) && has_empty(s) {
            deactivate_writes(iar) + seq![
                GicWrite::ListRegister(first_empty(s) as usize, lr_encode(iar)),
            ]
        } else {
            deactivate_writes(iar)
        }
    } else if iar == SGI_EVENT_ID {
        deactivate_writes(iar)
    } else {
        Seq::empty()
    }
}

/// Handle one hardware interrupt on this core, from the raw acknowledge
/// value: classify the ID, retire it where mandated, and re-present it to
/// the guest on the pass-through paths. At entry `core.lrs` must mirror the
/// current hardware list registers (the guest retires entries underneath a
/// remembered copy). The returned writes must be issued in order; the
/// disposition tells the embedding what else the ID asks of it (drain
/// cross-core events, or mark the core resumed).
pub fn gicv3_handle_irq_el1(core: &mut VGicCore, iar: u64) -> (r: (Disposition, Vec<GicWrite>))
    requires
        old(core).wf(),
    ensures
        final(core).vtr == old(core).vtr,
        final(core).wf(),
        final(core).lrs@ == handle_post(old(core).lrs@, iar),
        r.0 == handle_disposition(old(core).lrs@, iar),
        r.1@ == handle_writes(old(core).lrs@, iar),
{
    match pending_irq(iar) {
        None => (Disposition::Spurious, Vec::new()),
        Some(irq_id) => {
            if irq_id < 8 || SGI_LIMIT <= irq_id {
                // Pass-through: retire first, then re-present, else the
                // physical source re-fires without ever being retired.
                let mut w = deactivate_irq(irq_id);
                let disp = match inject_irq(core, irq_id) {
                    Ok(InjectOutcome::Injected { slot }) => {
                        let enc = crate::regs::lr_encode_exec(irq_id);
                        w.push(GicWrite::ListRegister(slot, enc));
                        Disposition::Reinjected { id: irq_id, slot }
                    },
                    Ok(InjectOutcome::AlreadyPresent) => Disposition::AlreadyPresent {
                        id: irq_id,
                    },
                    Err(_) => Disposition::Exhausted { id: irq_id },
                };
                proof {
                    assert(w@ =~= handle_writes(old(core).lrs@, iar));
                }
                (disp, w)
            } else if irq_id == SGI_EVENT_ID {
                let w = deactivate_irq(irq_id);
                (Disposition::EventDrain { id: irq_id }, w)
            } else if irq_id == SGI_RESUME_ID {
                (Disposition::Resume { id: irq_id }, Vec::new())
            } else {
                (Disposition::Dropped { id: irq_id }, Vec::new())
            }
        },
    }
}

/// On every path that re-presents an interrupt, deactivation precedes
/// re-injection: in the dispatcher's write sequence a list-register write
/// never stands before a retirement write.
pub proof fn lemma_deactivation_precedes_reinjection(s: Seq<u64>, iar: u64)
    ensures
        ({
            let w = handle_writes(s, iar);
            forall|i: int, j: int|
                0 <= i < w.len() && 0 <= j < w.len() && (#[trigger] w[i]) is ListRegister && (
                #[trigger] w[j]) is PriorityDrop ==> j < i
        }),
{
}

} // verus!
