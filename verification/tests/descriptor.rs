//! Controller discovery from a flattened device tree and the address
//! accessors.
use gicv3::descriptor::{
    gicr_base_for, host_gicd_base, host_gicd_size, host_gicr_base, host_gicr_size, init_late,
    is_spi, CollaboratorCall, Gic, MAX_CPU_NUM, PER_GICR_SIZE,
};
use gicv3::regs::GicError;

fn push_str_padded(buf: &mut Vec<u8>, s: &str) {
    buf.extend_from_slice(s.as_bytes());
    buf.push(0);
    while buf.len() % 4 != 0 {
        buf.push(0);
    }
}

/// Build a minimal flattened device tree: a root with two-cell addresses
/// and sizes, and one child node carrying the given `reg` ranges.
fn build_dtb(node_name: &str, regs: &[(u64, u64)]) -> Vec<u8> {
    let mut strings: Vec<u8> = Vec::new();
    let addr_cells_off = strings.len() as u32;
    strings.extend_from_slice(b"#address-cells\0");
    let size_cells_off = strings.len() as u32;
    strings.extend_from_slice(b"#size-cells\0");
    let reg_off = strings.len() as u32;
    strings.extend_from_slice(b"reg\0");

    const BEGIN_NODE: u32 = 1;
    const END_NODE: u32 = 2;
    const PROP: u32 = 3;
    const END: u32 = 9;

    let mut s: Vec<u8> = Vec::new();
    s.extend_from_slice(&BEGIN_NODE.to_be_bytes());
    push_str_padded(&mut s, ""); // the root's empty name
    for (off, cells) in [(addr_cells_off, 2u32), (size_cells_off, 2u32)] {
        s.extend_from_slice(&PROP.to_be_bytes());
        s.extend_from_slice(&4u32.to_be_bytes());
        s.extend_from_slice(&off.to_be_bytes());
        s.extend_from_slice(&cells.to_be_bytes());
    }
    s.extend_from_slice(&BEGIN_NODE.to_be_bytes());
    push_str_padded(&mut s, node_name);
    let mut val: Vec<u8> = Vec::new();
    for (base, size) in regs {
        val.extend_from_slice(&base.to_be_bytes());
        val.extend_from_slice(&size.to_be_bytes());
    }
    s.extend_from_slice(&PROP.to_be_bytes());
    s.extend_from_slice(&(val.len() as u32).to_be_bytes());
    s.extend_from_slice(&reg_off.to_be_bytes());
    s.extend_from_slice(&val);
    s.extend_from_slice(&END_NODE.to_be_bytes());
    s.extend_from_slice(&END_NODE.to_be_bytes());
    s.extend_from_slice(&END.to_be_bytes());

    let off_struct = 56u32; // 40-byte header + 16-byte empty reservation map
    let off_strings = off_struct + s.len() as u32;
    let total = off_strings + strings.len() as u32;
    let mut dtb: Vec<u8> = Vec::new();
    let header = [
        0xd00dfeedu32,
        total,
        off_struct,
        off_strings,
        40,
        17,
        16,
        0,
        strings.len() as u32,
        s.len() as u32,
    ];
    for v in header {
        dtb.extend_from_slice(&v.to_be_bytes());
    }
    dtb.extend_from_slice(&[0u8; 16]);
    dtb.extend_from_slice(&s);
    dtb.extend_from_slice(&strings);
    dtb
}

const GICD: (u64, u64) = (0x0800_0000, 0x1_0000);
const GICR: (u64, u64) = (0x080a_0000, 0xf6_0000);

/// Read a node's register ranges out of the tree as the plain pairs the
/// library takes: `None` when the node is absent.
fn node_regions(tree: &fdt::Fdt, path: &str) -> Option<Vec<(usize, Option<usize>)>> {
    let node = tree.find_node(path)?;
    Some(match node.reg() {
        Some(ranges) => ranges.map(|r| (r.starting_address as usize, r.size)).collect(),
        None => Vec::new(),
    })
}

/// Early-boot discovery as the embedding performs it: look the two node
/// names up, hand their ranges to the library's verified decision.
fn discover(tree: &fdt::Fdt) -> Result<Gic, GicError> {
    let primary = node_regions(tree, "/gic");
    let fallback = node_regions(tree, "/intc");
    Gic::new(primary.as_ref(), fallback.as_ref())
}

#[test]
fn discovers_controller_under_primary_name() {
    let dtb = build_dtb("gic", &[GICD, GICR]);
    let tree = fdt::Fdt::new(&dtb).unwrap();
    let gic = discover(&tree).unwrap();
    assert_eq!(gic.gicd_base, 0x0800_0000);
    assert_eq!(gic.gicd_size, 0x1_0000);
    assert_eq!(gic.gicr_base, 0x080a_0000);
    assert_eq!(gic.gicr_size, 0xf6_0000);
}

#[test]
fn falls_back_to_the_alias_node_name() {
    let dtb = build_dtb("intc", &[GICD, GICR]);
    let tree = fdt::Fdt::new(&dtb).unwrap();
    let gic = discover(&tree).unwrap();
    assert_eq!(gic.gicd_base, 0x0800_0000);
    assert_eq!(gic.gicr_base, 0x080a_0000);
}

#[test]
fn missing_controller_node_is_fatal() {
    let dtb = build_dtb("uart", &[GICD, GICR]);
    let tree = fdt::Fdt::new(&dtb).unwrap();
    assert_eq!(discover(&tree), Err(GicError::MissingControllerNode));
}

#[test]
fn fewer_than_two_ranges_is_fatal() {
    let dtb = build_dtb("gic", &[GICD]);
    let tree = fdt::Fdt::new(&dtb).unwrap();
    assert_eq!(discover(&tree), Err(GicError::MissingRegisterRegion));
}

#[test]
fn primary_node_wins_and_absence_of_both_is_fatal() {
    let good = vec![(0x1000usize, Some(0x100usize)), (0x2000, Some(0x200))];
    let bad = vec![(0x1000usize, Some(0x100usize))];
    // A present primary node decides, even when only the alias is usable.
    assert_eq!(Gic::new(Some(&bad), Some(&good)), Err(GicError::MissingRegisterRegion));
    let gic = Gic::new(None, Some(&good)).unwrap();
    assert_eq!(gic.gicr_base, 0x2000);
    assert_eq!(Gic::new(None, None), Err(GicError::MissingControllerNode));
}

#[test]
fn regions_map_to_descriptor_fields() {
    let regs = vec![(0x1000usize, Some(0x100usize)), (0x2000, Some(0x200)), (0x9000, Some(0x10))];
    let gic = Gic::from_regions(&regs).unwrap();
    assert_eq!(gic.gicd_base, 0x1000);
    assert_eq!(gic.gicd_size, 0x100);
    assert_eq!(gic.gicr_base, 0x2000);
    assert_eq!(gic.gicr_size, 0x200);

    assert_eq!(Gic::from_regions(&vec![(0x1000, Some(0x100))]), Err(GicError::MissingRegisterRegion));
    assert_eq!(
        Gic::from_regions(&vec![(0x1000, Some(0x100)), (0x2000, None)]),
        Err(GicError::MissingRegisterRegion)
    );
}

#[test]
fn accessors_expose_the_discovered_regions() {
    let gic = Gic { gicd_base: 0x1000, gicr_base: 0x2000, gicd_size: 0x100, gicr_size: 0x80000 };
    assert_eq!(host_gicd_base(&gic), 0x1000);
    assert_eq!(host_gicd_size(&gic), 0x100);
    assert_eq!(host_gicr_size(&gic), 0x80000);
}

#[test]
fn redistributor_frames_lie_at_the_fixed_stride() {
    let gic = Gic { gicd_base: 0x1000, gicr_base: 0x2000, gicd_size: 0x100, gicr_size: 0x80000 };
    for id in 0..MAX_CPU_NUM {
        assert_eq!(host_gicr_base(&gic, id), 0x2000 + id * PER_GICR_SIZE);
        assert_eq!(gicr_base_for(&gic, id), Some(0x2000 + id * PER_GICR_SIZE));
    }
    // An out-of-range core index fails fast, with nothing computed.
    assert_eq!(gicr_base_for(&gic, MAX_CPU_NUM), None);
}

#[test]
fn shared_peripheral_range_is_32_to_1019() {
    assert!(!is_spi(0));
    assert!(!is_spi(31));
    assert!(is_spi(32));
    assert!(is_spi(1019));
    assert!(!is_spi(1020));
}

#[test]
fn late_init_is_the_distributor_collaborator_action() {
    assert_eq!(init_late(), CollaboratorCall::EnableDistributorRouting);
}
