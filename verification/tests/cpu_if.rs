//! Per-core init programming and shutdown clearing.
use gicv3::cpu_if::{gicv3_clear_pending_irqs, gicv3_cpu_shutdown, irqchip_cpu_init, CpuIfWrite};
use gicv3::pool::{inject_irq, read_lr, VGicCore};
use gicv3::regs::GicWrite;

/// Capability value reporting `slots` list registers and `bits` priority
/// bits.
fn vtr(slots: u64, bits: u64) -> u64 {
    ((bits - 1) << 29) | (slots - 1)
}

#[test]
fn init_programs_split_eoi_and_virtual_interface_in_order() {
    let (plan, writes) = irqchip_cpu_init(vtr(6, 5));
    assert_eq!(plan.lr_slots, 6);
    assert_eq!(plan.prio_bits, 5);
    assert_eq!(
        writes,
        vec![
            CpuIfWrite::Control(0x2),          // split EOI mode
            CpuIfWrite::PriorityMask(0xf0),    // permissive threshold
            CpuIfWrite::GroupEnable(0x1),      // Group-1 signaling on
            // The priority mask copied into the virtual field, virtual
            // Group-1 enable and virtual split EOI.
            CpuIfWrite::VirtControl((0xf0 << 24) | (1 << 1) | (1 << 9)),
            CpuIfWrite::HypControl(0x1),       // virtual presentation on
        ]
    );
}

#[test]
fn virtual_presentation_is_enabled_last() {
    let (_, writes) = irqchip_cpu_init(vtr(4, 5));
    assert!(matches!(writes.last(), Some(CpuIfWrite::HypControl(1))));
    for w in &writes[..writes.len() - 1] {
        assert!(!matches!(w, CpuIfWrite::HypControl(_)));
    }
}

#[test]
fn init_accepts_a_degraded_capability() {
    let (plan, _) = irqchip_cpu_init(vtr(1, 1));
    assert_eq!(plan.lr_slots, 1);
    assert_eq!(plan.prio_bits, 1);
}

#[test]
fn shutdown_invalidates_every_slot_after_injections() {
    let mut core = VGicCore::new(vtr(6, 5));
    for id in [2u64, 33, 34, 100] {
        inject_irq(&mut core, id).unwrap();
    }
    let writes = gicv3_cpu_shutdown(&mut core);
    for i in 0..6 {
        assert_eq!(read_lr(&core, i).unwrap(), 0);
    }
    let expected: Vec<GicWrite> = (0..6)
        .map(|i| GicWrite::ListRegister(i, 0))
        .chain((0..2).map(GicWrite::ActivePriority))
        .collect();
    assert_eq!(writes, expected);
}

#[test]
fn active_priority_registers_cleared_by_priority_width() {
    // One register up to four priority bits, two for five, four beyond.
    for (bits, expect) in [(1u64, 1usize), (4, 1), (5, 2), (6, 4), (8, 4)] {
        let mut core = VGicCore::new(vtr(4, bits));
        let writes = gicv3_clear_pending_irqs(&mut core);
        let ap1r = writes
            .iter()
            .filter(|w| matches!(w, GicWrite::ActivePriority(_)))
            .count();
        assert_eq!(ap1r, expect, "priority bits {bits}");
        assert_eq!(writes.len(), 4 + expect);
    }
}
