//! Virtualization engine for an ARM GICv3 interrupt controller.
//!
//! The library models the per-core banked state that a hypervisor programs
//! when it multiplexes the physical interrupt controller across itself and
//! its guests: the fixed pool of list registers that present virtual
//! interrupts, the acknowledge/deactivate retirement protocol, the dispatch
//! rules that classify an acknowledged interrupt, and the controller
//! descriptor discovered from the firmware device tree.
//!
//! Every decision is a verified function from plain register values to plain
//! register values; the privileged system-register reads and writes that
//! carry those values to the hardware are left to the embedding, which
//! applies the returned [`regs::GicWrite`] actions in order.
pub mod cpu_if;
pub mod descriptor;
pub mod dispatch;
pub mod pool;
pub mod regs;
