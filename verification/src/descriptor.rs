//! The controller descriptor: where the distributor and redistributor
//! register blocks live in physical memory.
//!
//! Discovered once at early boot from the firmware device tree: the
//! interrupt-controller node (under its primary name, with one fallback
//! alias) supplies the distributor region first and the first redistributor
//! frame second. The embedding parses the tree and hands in each candidate
//! node's register ranges as plain (address, size) pairs; every decision
//! about them — fallback order, what counts as a usable range, which error
//! a bad configuration is — is made here. A missing node or fewer than two
//! sized regions is an unrecoverable configuration error. The descriptor is
//! immutable after discovery; the embedding keeps the single process-wide
//! instance.
use vstd::prelude::*;

use crate::regs::GicError;

verus! {

/// Bytes of redistributor register space banked to each core: each core's
/// frame lies at this fixed stride from the base.
pub const PER_GICR_SIZE: usize = 0x20000;

/// Highest number of cores the redistributor window is sized for.
pub const MAX_CPU_NUM: usize = 4;

/// Physical base addresses and sizes of the controller's register blocks.
#[derive(Clone, Copy, Debug, PartialEq, Eq, Structural)]
pub struct Gic {
    /// Base address of the global distributor block.
    pub gicd_base: usize,
    /// Base address of the first per-core redistributor frame.
    pub gicr_base: usize,
    /// Size of the distributor block.
    pub gicd_size: usize,
    /// Size of the redistributor window.
    pub gicr_size: usize,
}

/// The descriptor read from a node's register ranges: the first range is
/// the distributor, the second the redistributor window; fewer than two
/// sized ranges is an unrecoverable configuration error.
pub open spec fn descriptor_of_regions(regs: Seq<(usize, Option<usize>)>) -> Result<
    Gic,
    GicError,
> {
    if regs.len() < 2 || regs[0].1 is None || regs[1].1 is None {
        Err(GicError::MissingRegisterRegion)
    } else {
        Ok(
            Gic {
                gicd_base: regs[0].0,
                gicr_base: regs[1].0,
                gicd_size: regs[0].1.unwrap(),
                gicr_size: regs[1].1.unwrap(),
            },
        )
    }
}

/// The discovery outcome: the primary node's ranges where that node exists,
/// else the fallback alias node's, else the fatal missing-node error.
pub open spec fn discovered(
    primary: Option<Seq<(usize, Option<usize>)>>,
    fallback: Option<Seq<(usize, Option<usize>)>>,
) -> Result<Gic, GicError> {
    match primary {
        Some(regs) => descriptor_of_regions(regs),
        None => match fallback {
            Some(regs) => descriptor_of_regions(regs),
            None => Err(GicError::MissingControllerNode),
        },
    }
}

impl Gic {
    /// Build the descriptor from a node's register ranges: distributor
    /// first, redistributor window second.
    pub fn from_regions(regs: &Vec<(usize, Option<usize>)>) -> (r: Result<Gic, GicError>)
        ensures
            r == descriptor_of_regions(regs@),
    {
        if regs.len() < 2 {
            return Err(GicError::MissingRegisterRegion);
        }
        let (gicd_base, gicd_size_opt) = regs[0];
        let (gicr_base, gicr_size_opt) = regs[1];
        match (gicd_size_opt, gicr_size_opt) {
            (Some(gicd_size), Some(gicr_size)) => Ok(
                Gic { gicd_base, gicr_base, gicd_size, gicr_size },
            ),
            _ => Err(GicError::MissingRegisterRegion),
        }
    }

    /// Discover the controller from the firmware tree's candidate nodes:
    /// `primary` holds the register ranges of the node under the primary
    /// name if the tree has it, `fallback` those of the alias node. The
    /// primary node wins when both exist; an absent node or missing range
    /// is reported as the configuration error it is, and boot cannot
    /// proceed past either.
    pub fn new(
        primary: Option<&Vec<(usize, Option<usize>)>>,
        fallback: Option<&Vec<(usize, Option<usize>)>>,
    ) -> (r: Result<Gic, GicError>)
        ensures
            r == discovered(
                match primary {
                    Some(regs) => Some(regs@),
                    None => None,
                },
                match fallback {
                    Some(regs) => Some(regs@),
                    None => None,
                },
            ),
    {
        match primary {
            Some(regs) => Gic::from_regions(regs),
            None => match fallback {
                Some(regs) => Gic::from_regions(regs),
                None => Err(GicError::MissingControllerNode),
            },
        }
    }
}

/// Base address of the global distributor block.
pub fn host_gicd_base(gic: &Gic) -> (r: usize)
    ensures
        r == gic.gicd_base,
{
    gic.gicd_base
}

/// Size of the global distributor block.
pub fn host_gicd_size(gic: &Gic) -> (r: usize)
    ensures
        r == gic.gicd_size,
{
    gic.gicd_size
}

/// Size of the redistributor window.
pub fn host_gicr_size(gic: &Gic) -> (r: usize)
    ensures
        r == gic.gicr_size,
{
    gic.gicr_size
}

/// Base address of the redistributor frame banked to core `id`: the window
/// base plus the fixed per-core stride, valid only below the supported core
/// count.
pub fn host_gicr_base(gic: &Gic, id: usize) -> (r: usize)
    requires
        id < MAX_CPU_NUM,
        gic.gicr_base + id * PER_GICR_SIZE <= usize::MAX,
    ensures
        r == gic.gicr_base + id * PER_GICR_SIZE,
{
    gic.gicr_base + id * PER_GICR_SIZE
}

/// The redistributor frame address for core `id`, when there is one: the
/// window base plus the fixed per-core stride for a supported index whose
/// address fits, and nothing otherwise.
pub open spec fn gicr_frame(gic: Gic, id: usize) -> Option<usize> {
    if id < MAX_CPU_NUM && gic.gicr_base + id * PER_GICR_SIZE <= usize::MAX {
        Some((gic.gicr_base + id * PER_GICR_SIZE) as usize)
    } else {
        None
    }
}

/// Checked form of [`host_gicr_base`]: fails fast, with nothing computed,
/// on a core index at or beyond the supported count, or on an address
/// computation that would not fit.
pub fn gicr_base_for(gic: &Gic, id: usize) -> (r: Option<usize>)
    ensures
        r == gicr_frame(*gic, id),
{
    if id < MAX_CPU_NUM {
        let off = id * PER_GICR_SIZE;
        if gic.gicr_base <= usize::MAX - off {
            Some(gic.gicr_base + off)
        } else {
            None
        }
    } else {
        None
    }
}

/// No redistributor address exists for an out-of-range core index: for any
/// descriptor, a core index at or beyond the supported count yields
/// nothing.
pub proof fn lemma_out_of_range_core_has_no_frame(gic: Gic, id: usize)
    requires
        id >= MAX_CPU_NUM,
    ensures
        gicr_frame(gic, id) is None,
{
}

/// Whether an interrupt ID is a shared peripheral interrupt, routable to
/// any core.
pub fn is_spi(irqn: u32) -> (r: bool)
    ensures
        r == (31 < irqn < 1020),
{
    irqn > 31 && irqn < 1020
}

/// The one late-init step: routing in the global distributor is switched on
/// by the distributor collaborator, not by this subsystem.
#[derive(Clone, Copy, Debug, PartialEq, Eq, Structural)]
pub enum CollaboratorCall {
    /// Enable global distributor routing for non-secure Group-1 delivery.
    EnableDistributorRouting,
}

/// Late init, once the primary core is up: reports the collaborator action
/// that enables global distributor routing.
pub fn init_late() -> (r: CollaboratorCall)
    ensures
        r == CollaboratorCall::EnableDistributorRouting,
{
    CollaboratorCall::EnableDistributorRouting
}

} // verus!
