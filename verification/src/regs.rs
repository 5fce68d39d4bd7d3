//! Bit-level encodings of the GICv3 virtualization registers.
//!
//! A list register (`ICH_LR<n>_EL2`) carries a virtual interrupt in the low
//! ten bits, the mapped physical interrupt in bits 41:32, the group bit at
//! bit 60, the hardware-mapped flag at bit 61 and the two state bits at
//! 63:62 (`00` invalid, `01` pending, `10` active). The capability register
//! (`ICH_VTR_EL2`) reports the number of implemented list registers in its
//! low four bits (minus one) and the implemented priority bits in bits 31:29
//! (minus one).
use vstd::prelude::*;

verus! {

/// Lowest raw acknowledge value that means "no real interrupt pending".
pub const SPURIOUS_FLOOR: u64 = 0x3fe;

/// First interrupt ID that is not a software-generated interrupt.
pub const SGI_LIMIT: u64 = 16;

/// Reserved software-generated ID that drains pending cross-core events.
pub const SGI_EVENT_ID: u64 = 15;

/// Reserved software-generated ID that resumes a suspended core.
pub const SGI_RESUME_ID: u64 = 14;

/// Group bit, hardware-mapped bit and pending-state bit of a list register.
pub const LR_PENDING_GROUP_HW: u64 = 0x7000_0000_0000_0000;

/// Error conditions of the virtualization engine. Pool exhaustion is a
/// resource condition the caller may ride out; the others are configuration
/// or programming faults.
#[derive(Clone, Copy, Debug, PartialEq, Eq, Structural)]
pub enum GicError {
    /// Every list register of this core is occupied.
    Exhausted,
    /// A list-register index at or above the hardware-reported count.
    SlotOutOfRange,
    /// The firmware tree has no interrupt-controller node under either
    /// accepted name.
    MissingControllerNode,
    /// The controller node reports fewer than two sized register regions.
    MissingRegisterRegion,
}

/// One hardware register write that the embedding must issue, in the order
/// returned.
#[derive(Clone, Copy, Debug, PartialEq, Eq, Structural)]
pub enum GicWrite {
    /// Write the ID to `ICC_EOIR1_EL1`: the priority-drop half of retirement.
    PriorityDrop(u64),
    /// Write the ID to `ICC_DIR_EL1`: the explicit deactivation half.
    Deactivate(u64),
    /// Write the value to list register `ICH_LR<n>_EL2`.
    ListRegister(usize, u64),
    /// Write zero to active-priority register `ICH_AP1R<n>_EL2`.
    ActivePriority(usize),
}

/// Virtual interrupt ID held in a list-register value.
pub open spec fn lr_vid(v: u64) -> u64 {
    v & 0x3ff
}

/// Physical interrupt ID held in a list-register value.
pub open spec fn lr_pid(v: u64) -> u64 {
    (v >> 32) & 0x3ff
}

/// State field of a list-register value: zero means invalid/empty.
pub open spec fn lr_state(v: u64) -> u64 {
    v >> 62
}

/// A slot is occupied while its state is pending, active, or both.
pub open spec fn lr_occupied(v: u64) -> bool {
    lr_state(v) != 0
}

/// Group bit of a list-register value.
pub open spec fn lr_group(v: u64) -> u64 {
    (v >> 60) & 1
}

/// Hardware-mapped bit of a list-register value.
pub open spec fn lr_hw(v: u64) -> u64 {
    (v >> 61) & 1
}

/// List-register value that presents `id` to the guest: virtual and physical
/// ID both `id` (direct pass-through), group 1, hardware-mapped, pending.
pub open spec fn lr_encode(id: u64) -> u64 {
    (id | (id << 32)) | LR_PENDING_GROUP_HW
}

/// Number of list registers the capability register reports.
pub open spec fn lr_count(vtr: u64) -> int {
    (vtr & 0xf) + 1
}

/// Number of priority bits the capability register reports.
pub open spec fn priority_bits(vtr: u64) -> int {
    ((vtr >> 29) & 7) + 1
}

/// Number of active-priority group registers that must be cleared for a
/// given priority-bit width: one up to four bits, two for five, four beyond.
pub open spec fn ap1r_count(vtr: u64) -> int {
    if priority_bits(vtr) <= 4 {
        1
    } else if priority_bits(vtr) == 5 {
        2
    } else {
        4
    }
}

/// The pass-through encoding presents exactly the requested ID: both ID
/// fields read back as `id`, the slot is pending, group 1, hardware-mapped.
pub proof fn lemma_lr_encode_fields(id: u64)
    by (bit_vector)
    requires
        id < 0x3fe,
    ensures
        lr_vid(lr_encode(id)) == id,
        lr_pid(lr_encode(id)) == id,
        lr_state(lr_encode(id)) == 1,
        lr_occupied(lr_encode(id)),
        lr_group(lr_encode(id)) == 1,
        lr_hw(lr_encode(id)) == 1,
{
}

/// Compute the list-register value that presents `id` to the guest.
pub fn lr_encode_exec(id: u64) -> (v: u64)
    requires
        id < 0x3fe,
    ensures
        v == lr_encode(id),
{
    (id | (id << 32)) | LR_PENDING_GROUP_HW
}

/// Decode the list-register count from the capability register.
pub fn lr_count_exec(vtr: u64) -> (n: usize)
    ensures
        n == lr_count(vtr),
        1 <= n <= 16,
{
    proof {
        assert(vtr & 0xf < 16) by (bit_vector);
    }
    ((vtr & 0xf) as usize) + 1
}

/// Decode the priority-bit width from the capability register.
pub fn priority_bits_exec(vtr: u64) -> (n: u64)
    ensures
        n == priority_bits(vtr),
        1 <= n <= 8,
{
    proof {
        assert((vtr >> 29) & 7 < 8) by (bit_vector);
    }
    ((vtr >> 29) & 7) + 1
}

/// Decode how many active-priority group registers a shutdown must clear.
pub fn ap1r_count_exec(vtr: u64) -> (n: usize)
    ensures
        n == ap1r_count(vtr),
        1 <= n <= 4,
{
    let bits = priority_bits_exec(vtr);
    if bits <= 4 {
        1
    } else if bits == 5 {
        2
    } else {
        4
    }
}

} // verus!
