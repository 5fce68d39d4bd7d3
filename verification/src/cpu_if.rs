//! Per-core CPU-interface programming and shutdown.
//!
//! At init each core selects split EOI mode (priority drop and deactivation
//! become two independent operations), opens the priority mask to the
//! permissive threshold, enables Group-1 signaling, and programs the
//! virtual interface, copying that same priority mask into the virtual
//! priority field. None of that can fail: a degraded capability is
//! accepted. At shutdown every reported list register and active-priority
//! group register is cleared so the physical core can be repurposed without
//! stale entries.
//!
//! Both operations are computed here as plain register values; the
//! embedding performs the privileged writes and the optional firmware
//! runtime-service probe, which is best-effort and carries no decision.
use vstd::prelude::*;

use crate::pool::{no_duplicate_vids, VGicCore};
use crate::regs::{ap1r_count, ap1r_count_exec, lr_count, lr_occupied, GicWrite};

verus! {

/// One CPU-interface or virtual-interface register write of the per-core
/// init sequence.
#[derive(Clone, Copy, Debug, PartialEq, Eq, Structural)]
pub enum CpuIfWrite {
    /// Write `ICC_CTLR_EL1`: EOI-mode bit set, so priority drop and
    /// deactivation are split into two operations.
    Control(u64),
    /// Write `ICC_PMR_EL1`: the permissive threshold admitting essentially
    /// all priorities.
    PriorityMask(u64),
    /// Write `ICC_IGRPEN1_EL1`: Group-1 signaling enabled.
    GroupEnable(u64),
    /// Write `ICH_VMCR_EL2`: the priority mask copied into the virtual
    /// priority field, virtual Group-1 enabled, split EOI selected.
    VirtControl(u64),
    /// Write `ICH_HCR_EL2`: virtual-interrupt presentation enabled.
    HypControl(u64),
}

/// What the capability register reports, decoded once at init.
#[derive(Clone, Copy, Debug, PartialEq, Eq, Structural)]
pub struct CpuInitPlan {
    /// Number of list registers the capability register reports.
    pub lr_slots: usize,
    /// Number of priority bits the capability register reports.
    pub prio_bits: u64,
}

/// The virtual control value: the priority mask of the physical interface
/// copied into the virtual priority field (bits 31:24), virtual Group-1
/// enable (bit 1) and virtual split EOI (bit 9).
pub const VMCR_INIT: u64 = 0xf000_0202;

/// The per-core init write sequence, in the mandated order: split EOI mode
/// first, then the priority mask, Group-1 enable and the virtual control,
/// and the global virtual-presentation enable strictly last.
pub open spec fn init_writes() -> Seq<CpuIfWrite> {
    seq![
        CpuIfWrite::Control(2),
        CpuIfWrite::PriorityMask(0xf0),
        CpuIfWrite::GroupEnable(1),
        CpuIfWrite::VirtControl(VMCR_INIT),
        CpuIfWrite::HypControl(1),
    ]
}

/// Compute the once-per-core init programming from the capability register
/// value read on that core: the decoded capability and the ordered register
/// writes, whose last write - and only that one - enables virtual
/// presentation. No input is rejected: a degraded capability only lowers
/// the reported slot count.
pub fn irqchip_cpu_init(vtr: u64) -> (r: (CpuInitPlan, Vec<CpuIfWrite>))
    ensures
        r.0.lr_slots == lr_count(vtr),
        r.0.prio_bits == crate::regs::priority_bits(vtr),
        r.1@ == init_writes(),
        r.1@.last() == CpuIfWrite::HypControl(1),
        forall|i: int| 0 <= i < r.1@.len() - 1 ==> !((#[trigger] r.1@[i]) is HypControl),
{
    let plan = CpuInitPlan {
        lr_slots: crate::regs::lr_count_exec(vtr),
        prio_bits: crate::regs::priority_bits_exec(vtr),
    };
    let mut w: Vec<CpuIfWrite> = Vec::new();
    w.push(CpuIfWrite::Control(2));
    w.push(CpuIfWrite::PriorityMask(0xf0));
    w.push(CpuIfWrite::GroupEnable(1));
    w.push(CpuIfWrite::VirtControl(VMCR_INIT));
    w.push(CpuIfWrite::HypControl(1));
    proof {
        assert(w@ =~= init_writes());
    }
    (plan, w)
}

/// The writes that clear a core's virtual-interrupt state: one per reported
/// list register, then one per active-priority group register, the count of
/// the latter sized by the reported priority-bit width.
pub open spec fn clear_writes(vtr: u64) -> Seq<GicWrite> {
    Seq::new(lr_count(vtr) as nat, |i: int| GicWrite::ListRegister(i as usize, 0)) + Seq::new(
        ap1r_count(vtr) as nat,
        |i: int| GicWrite::ActivePriority(i as usize),
    )
}

/// Clear every reported list register to invalid and every active-priority
/// group register to zero, returning the hardware writes that do the same.
pub fn gicv3_clear_pending_irqs(core: &mut VGicCore) -> (w: Vec<GicWrite>)
    requires
        old(core).lrs@.len() == lr_count(old(core).vtr),
    ensures
        final(core).vtr == old(core).vtr,
        final(core).lrs@.len() == old(core).lrs@.len(),
        forall|i: int|
            0 <= i < final(core).lrs@.len() ==> !lr_occupied(#[trigger] final(core).lrs@[i]),
        final(core).wf(),
        w@ == clear_writes(old(core).vtr),
{
    let n = core.lrs.len();
    let mut w: Vec<GicWrite> = Vec::new();
    let mut i: usize = 0;
    while i < n
        invariant
            core.vtr == old(core).vtr,
            n == core.lrs@.len(),
            core.lrs@.len() == old(core).lrs@.len(),
            i <= n,
            forall|k: int| 0 <= k < i ==> core.lrs@[k] == 0u64,
            w@.len() == i,
            forall|k: int| 0 <= k < i ==> w@[k] == GicWrite::ListRegister(k as usize, 0u64),
        decreases n - i,
    {
        core.lrs[i] = 0;
        w.push(GicWrite::ListRegister(i, 0));
        i = i + 1;
    }
    let m = ap1r_count_exec(core.vtr);
    let mut j: usize = 0;
    while j < m
        invariant
            core.vtr == old(core).vtr,
            n == core.lrs@.len(),
            core.lrs@.len() == old(core).lrs@.len(),
            m == ap1r_count(core.vtr),
            forall|k: int| 0 <= k < n ==> core.lrs@[k] == 0u64,
            j <= m,
            w@.len() == n + j,
            forall|k: int| 0 <= k < n ==> w@[k] == GicWrite::ListRegister(k as usize, 0u64),
            forall|k: int|
                n <= k < n + j ==> w@[k] == GicWrite::ActivePriority((k - n) as usize),
        decreases m - j,
    {
        w.push(GicWrite::ActivePriority(j));
        j = j + 1;
    }
    proof {
        assert(0u64 >> 62 == 0) by (bit_vector);
        assert(no_duplicate_vids(core.lrs@));
        assert(w@ =~= clear_writes(old(core).vtr));
    }
    w
}

/// Shut the core's virtual-interrupt state down before the physical core is
/// powered down or repurposed: every reported list-register slot becomes
/// invalid and the active-priority group registers read zero afterwards.
pub fn gicv3_cpu_shutdown(core: &mut VGicCore) -> (w: Vec<GicWrite>)
    requires
        old(core).lrs@.len() == lr_count(old(core).vtr),
    ensures
        final(core).vtr == old(core).vtr,
        final(core).lrs@.len() == old(core).lrs@.len(),
        forall|i: int|
            0 <= i < final(core).lrs@.len() ==> !lr_occupied(#[trigger] final(core).lrs@[i]),
        final(core).wf(),
        w@ == clear_writes(old(core).vtr),
{
    gicv3_clear_pending_irqs(core)
}

} // verus!
