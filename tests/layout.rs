use rpi_kernel::bsp::{
    addr_space_size, board_name, virt_mem_layout, MMIO_BASE, MMIO_END_INCLUSIVE,
};
use rpi_kernel::memory::{
    AccessPermissions, AttributeFields, KernelVirtualLayout, MemAttributes, RangeDescriptor,
    Translation, VirtualRange,
};

fn kernel_ro() -> RangeDescriptor {
    RangeDescriptor {
        name: "Kernel RO",
        virtual_range: VirtualRange { start: 0x80000, end_inclusive: 0x8FFFF },
        translation: Translation::Identity,
        attribute_fields: AttributeFields {
            mem_attributes: MemAttributes::CacheableDRAM,
            acc_perms: AccessPermissions::ReadOnly,
            execute_never: false,
        },
    }
}

fn ro_bundle() -> AttributeFields {
    AttributeFields {
        mem_attributes: MemAttributes::CacheableDRAM,
        acc_perms: AccessPermissions::ReadOnly,
        execute_never: false,
    }
}

fn device_bundle() -> AttributeFields {
    AttributeFields {
        mem_attributes: MemAttributes::Device,
        acc_perms: AccessPermissions::ReadWrite,
        execute_never: true,
    }
}

#[test]
fn lookup_scenario_one_identity_range() {
    let layout = KernelVirtualLayout::new(0xFF_FFFF, [kernel_ro()]);
    assert_eq!(layout.get_virtual_addr_properties(0x85000), Ok((0x85000, ro_bundle())));
    assert_eq!(
        layout.get_virtual_addr_properties(0x95000),
        Ok((0x95000, AttributeFields::default()))
    );
    assert_eq!(layout.get_virtual_addr_properties(0x100_0000), Err("Address out of bound"));
}

#[test]
fn default_bundle_is_cacheable_read_write_execute_never() {
    let d = AttributeFields::default();
    assert_eq!(d.mem_attributes, MemAttributes::CacheableDRAM);
    assert_eq!(d.acc_perms, AccessPermissions::ReadWrite);
    assert!(d.execute_never);
}

#[test]
fn lookup_offset_range_translates_from_its_base() {
    let remap = RangeDescriptor {
        name: "Remap",
        virtual_range: VirtualRange { start: 0x1000, end_inclusive: 0x1FFF },
        translation: Translation::Offset(0x9000),
        attribute_fields: device_bundle(),
    };
    let layout = KernelVirtualLayout::new(0xFFFF, [kernel_ro(), remap]);
    assert_eq!(layout.get_virtual_addr_properties(0x1000), Ok((0x9000, device_bundle())));
    assert_eq!(layout.get_virtual_addr_properties(0x1234), Ok((0x9234, device_bundle())));
    assert_eq!(layout.get_virtual_addr_properties(0x1FFF), Ok((0x9FFF, device_bundle())));
    assert_eq!(
        layout.get_virtual_addr_properties(0x2000),
        Ok((0x2000, AttributeFields::default()))
    );
}

#[test]
fn lookup_bounds_are_inclusive() {
    let layout = KernelVirtualLayout::new(0x8FFFF, [kernel_ro()]);
    assert_eq!(layout.get_virtual_addr_properties(0x80000), Ok((0x80000, ro_bundle())));
    assert_eq!(layout.get_virtual_addr_properties(0x8FFFF), Ok((0x8FFFF, ro_bundle())));
    assert_eq!(
        layout.get_virtual_addr_properties(0x7FFFF),
        Ok((0x7FFFF, AttributeFields::default()))
    );
    assert!(layout.get_virtual_addr_properties(0x90000).is_err());
}

#[test]
fn lookup_overlapping_ranges_first_wins() {
    let wide = RangeDescriptor {
        name: "Wide",
        virtual_range: VirtualRange { start: 0x0, end_inclusive: 0xFFFFF },
        translation: Translation::Offset(0x100000),
        attribute_fields: device_bundle(),
    };
    let layout = KernelVirtualLayout::new(0xFFFFF, [kernel_ro(), wide]);
    assert_eq!(layout.get_virtual_addr_properties(0x85000), Ok((0x85000, ro_bundle())));
    assert_eq!(layout.get_virtual_addr_properties(0x10), Ok((0x100010, device_bundle())));
}

#[test]
fn lookup_in_empty_layout_is_identity_up_to_max() {
    let layout: KernelVirtualLayout<0> = KernelVirtualLayout::new(0x1000, []);
    assert_eq!(layout.get_virtual_addr_properties(0), Ok((0, AttributeFields::default())));
    assert_eq!(
        layout.get_virtual_addr_properties(0x1000),
        Ok((0x1000, AttributeFields::default()))
    );
    assert!(layout.get_virtual_addr_properties(0x1001).is_err());
    assert!(layout.get_virtual_addr_properties(usize::MAX).is_err());
}

#[test]
fn report_line_of_kib_range() {
    assert_eq!(
        kernel_ro().to_string(),
        "      0x00080000 - 0x0008ffff |  64 KiB | C   RO PX  | Kernel RO"
    );
}

#[test]
fn report_line_of_mib_and_byte_ranges() {
    let mmio = RangeDescriptor {
        name: "Device MMIO",
        virtual_range: VirtualRange { start: 0x3F00_0000, end_inclusive: 0x3FFF_FFFF },
        translation: Translation::Identity,
        attribute_fields: device_bundle(),
    };
    assert_eq!(
        mmio.to_string(),
        "      0x3f000000 - 0x3fffffff |  16 MiB | Dev RW PXN | Device MMIO"
    );
    let small = RangeDescriptor {
        name: "Tiny",
        virtual_range: VirtualRange { start: 0x10, end_inclusive: 0x10 },
        translation: Translation::Identity,
        attribute_fields: device_bundle(),
    };
    assert_eq!(small.to_string(), "      0x00000010 - 0x00000010 |   1 Byte | Dev RW PXN | Tiny");
    let kib_edge = RangeDescriptor {
        name: "Edge",
        virtual_range: VirtualRange { start: 0, end_inclusive: 1022 },
        translation: Translation::Identity,
        attribute_fields: ro_bundle(),
    };
    assert_eq!(
        kib_edge.to_string(),
        "      0x00000000 - 0x000003fe | 1023 Byte | C   RO PX  | Edge"
    );
}

#[test]
fn report_line_of_wide_addresses() {
    let high = RangeDescriptor {
        name: "High",
        virtual_range: VirtualRange { start: 0x1_0000_0000, end_inclusive: 0x1_3FFF_FFFF },
        translation: Translation::Identity,
        attribute_fields: device_bundle(),
    };
    assert_eq!(
        high.to_string(),
        "      0x100000000 - 0x13fffffff | 1024 MiB | Dev RW PXN | High"
    );
}

#[test]
fn layout_report_lines_and_text() {
    let layout = KernelVirtualLayout::new(0xFF_FFFF, [kernel_ro()]);
    let lines = layout.print_layout();
    assert_eq!(lines.len(), 1);
    assert_eq!(lines[0], "      0x00080000 - 0x0008ffff |  64 KiB | C   RO PX  | Kernel RO");
    assert_eq!(
        layout.to_string(),
        "Max Virtual Address: 16777215\n      0x00080000 - 0x0008ffff |  64 KiB | C   RO PX  | Kernel RO\n"
    );
}

#[test]
fn board_layout_ranges() {
    let layout = virt_mem_layout(0x80000, 0x90000);
    assert_eq!(layout.get_virtual_addr_properties(0x80000), Ok((0x80000, ro_bundle())));
    assert_eq!(layout.get_virtual_addr_properties(0x8FFFF), Ok((0x8FFFF, ro_bundle())));
    assert_eq!(
        layout.get_virtual_addr_properties(0x90000),
        Ok((0x90000, AttributeFields::default()))
    );
    assert_eq!(
        layout.get_virtual_addr_properties(0x1FFF_0000),
        Ok((MMIO_BASE + 0x20_0000, device_bundle()))
    );
    assert_eq!(
        layout.get_virtual_addr_properties(0x1FFF_1000),
        Ok((0x3F20_1000, device_bundle()))
    );
    assert_eq!(
        layout.get_virtual_addr_properties(0x3F20_0000),
        Ok((0x3F20_0000, device_bundle()))
    );
    assert_eq!(
        layout.get_virtual_addr_properties(MMIO_END_INCLUSIVE),
        Ok((MMIO_END_INCLUSIVE, device_bundle()))
    );
    assert!(layout.get_virtual_addr_properties(MMIO_END_INCLUSIVE + 1).is_err());
    let lines = layout.print_layout();
    assert_eq!(lines.len(), 3);
    assert_eq!(lines[0], "      0x00080000 - 0x0008ffff |  64 KiB | C   RO PX  | Kernel code and RO data");
    assert_eq!(lines[1], "      0x1fff0000 - 0x1fffffff |  64 KiB | Dev RW PXN | Remapped Device MMIO");
    assert_eq!(lines[2], "      0x3f000000 - 0x3fffffff |  16 MiB | Dev RW PXN | Device MMIO");
}

#[test]
fn board_constants() {
    assert_eq!(board_name(), "Raspberry Pi 3");
    assert_eq!(addr_space_size(), 0x4000_0000);
}

#[test]
fn report_line_of_whole_address_space() {
    let all = RangeDescriptor {
        name: "All",
        virtual_range: VirtualRange { start: 0, end_inclusive: usize::MAX },
        translation: Translation::Identity,
        attribute_fields: AttributeFields::default(),
    };
    assert_eq!(
        all.to_string(),
        "      0x00000000 - 0xffffffffffffffff | 17592186044416 MiB | C   RW PXN | All"
    );
}

#[test]
fn lookup_at_the_top_of_the_address_space() {
    let top = RangeDescriptor {
        name: "Top",
        virtual_range: VirtualRange { start: 0x1000, end_inclusive: 0x1FFF },
        translation: Translation::Offset(usize::MAX - 0xFFF),
        attribute_fields: device_bundle(),
    };
    let layout = KernelVirtualLayout::new(usize::MAX, [top]);
    assert_eq!(layout.get_virtual_addr_properties(0x1FFF), Ok((usize::MAX, device_bundle())));
    assert_eq!(
        layout.get_virtual_addr_properties(usize::MAX),
        Ok((usize::MAX, AttributeFields::default()))
    );
}

#[test]
fn disjointness_of_ranges() {
    assert!(virt_mem_layout(0x80000, 0x90000).ranges_disjoint());
    let wide = RangeDescriptor {
        name: "Wide",
        virtual_range: VirtualRange { start: 0x8FFFF, end_inclusive: 0xFFFFF },
        translation: Translation::Identity,
        attribute_fields: device_bundle(),
    };
    let layout = KernelVirtualLayout::new(0xFFFFF, [kernel_ro(), wide]);
    assert!(!layout.ranges_disjoint());
    let next = RangeDescriptor {
        name: "Next",
        virtual_range: VirtualRange { start: 0x90000, end_inclusive: 0xFFFFF },
        translation: Translation::Identity,
        attribute_fields: device_bundle(),
    };
    let layout = KernelVirtualLayout::new(0xFFFFF, [kernel_ro(), next]);
    assert!(layout.ranges_disjoint());
}

#[test]
fn report_line_of_range_whose_offset_runs_past_the_top() {
    let d = RangeDescriptor {
        name: "Far",
        virtual_range: VirtualRange { start: 0x1000, end_inclusive: 0x1FFF },
        translation: Translation::Offset(usize::MAX),
        attribute_fields: device_bundle(),
    };
    assert_eq!(d.to_string(), "      0x00001000 - 0x00001fff |   4 KiB | Dev RW PXN | Far");
}
