//! The board: a Raspberry Pi 3 with four cores, its memory map and its virtual
//! address layout.
use crate::memory::{
    AccessPermissions, AttributeFields, KernelVirtualLayout, MemAttributes, RangeDescriptor,
    Translation, VirtualRange, all_ranges_valid,
};
use vstd::prelude::*;

verus! {

/// The number of cores.
pub const NUM_CORES: usize = 4;

pub const CORE_0_ID: u64 = 0;

pub const CORE_1_ID: u64 = 1;

pub const CORE_2_ID: u64 = 2;

pub const CORE_3_ID: u64 = 3;

/// The mailbox that the master core polls while parked.
pub const MASTER_CORE_WAKEUP_ADDR: u64 = 0xd8;

/// The mailboxes of cores 1, 2 and 3: a parked core jumps to the address written
/// there once it is woken.
pub const SLAVE_CORES_WAKEUP_ADDR: [u64; 3] = [0xe0, 0xe8, 0xf0];

/// The top of the master core's boot stack, where the firmware loads the kernel.
pub const BOOT_CORE_STACK_START: u64 = 0x80000;

/// log2 of the stack size of every core: 16 KiB.
pub const SLAVE_STACK_SHIFT: u64 = 14;

/// The high bits of a secondary core's stack top, before the shift; the core id
/// fills the low two. Cores 1, 2 and 3 get 0xB4000, 0xB8000 and 0xBC000.
pub const SECONDARY_STACK_PATTERN: u64 = 0b101100;

/// A second stack area of the board, above the one that the cores are routed to;
/// the routing of cores does not use it, nor the three addresses below.
pub const SLAVE_STACK_PREAMBLE: u64 = 0b110100;

pub const CORE_1_STACK_START: u64 = 0xD4000;

pub const CORE_2_STACK_START: u64 = 0xD8000;

pub const CORE_3_STACK_START: u64 = 0xDB000;

/// Start of the peripherals' MMIO window.
pub const MMIO_BASE: usize = 0x3F00_0000;

/// Last byte of the peripherals' MMIO window.
pub const MMIO_END_INCLUSIVE: usize = 0x3FFF_FFFF;

pub const GPIO_BASE: usize = MMIO_BASE + 0x20_0000;

pub const PL011_UART_BASE: usize = MMIO_BASE + 0x20_1000;

/// First byte of the 64 KiB window at the end of the first 512 MiB that maps the
/// GPIO and UART registers a second time.
pub const REMAPPED_MMIO_START: usize = 0x1FFF_0000;

pub const REMAPPED_MMIO_END_INCLUSIVE: usize = 0x1FFF_FFFF;

/// The mailbox that secondary core `core_id` polls while parked; the master core
/// has none to be woken through.
pub fn wakeup_mailbox(core_id: u64) -> (r: Option<u64>)
    ensures
        1 <= core_id < NUM_CORES ==> r == Some(SLAVE_CORES_WAKEUP_ADDR[core_id - 1]),
        !(1 <= core_id < NUM_CORES) ==> r is None,
{
    if 1 <= core_id && core_id < NUM_CORES as u64 {
        Some(SLAVE_CORES_WAKEUP_ADDR[(core_id - 1) as usize])
    } else {
        None
    }
}

pub fn board_name() -> (r: &'static str)
    ensures
        r@ == "Raspberry Pi 3"@,
{
    "Raspberry Pi 3"
}

/// The address space size in bytes.
pub fn addr_space_size() -> (r: usize)
    ensures
        r == MMIO_END_INCLUSIVE + 1,
{
    MMIO_END_INCLUSIVE + 1
}

/// The special ranges of the board, given the kernel's read-only section
/// `ro_start..ro_end` that the linker placed.
pub open spec fn board_ranges(ro_start: usize, ro_end: usize) -> Seq<RangeDescriptor> {
    seq![
        RangeDescriptor {
            name: "Kernel code and RO data",
            virtual_range: VirtualRange { start: ro_start, end_inclusive: (ro_end - 1) as usize },
            translation: Translation::Identity,
            attribute_fields: AttributeFields {
                mem_attributes: MemAttributes::CacheableDRAM,
                acc_perms: AccessPermissions::ReadOnly,
                execute_never: false,
            },
        },
        RangeDescriptor {
            name: "Remapped Device MMIO",
            virtual_range: VirtualRange {
                start: REMAPPED_MMIO_START,
                end_inclusive: REMAPPED_MMIO_END_INCLUSIVE,
            },
            translation: Translation::Offset((MMIO_BASE + 0x20_0000) as usize),
            attribute_fields: AttributeFields {
                mem_attributes: MemAttributes::Device,
                acc_perms: AccessPermissions::ReadWrite,
                execute_never: true,
            },
        },
        RangeDescriptor {
            name: "Device MMIO",
            virtual_range: VirtualRange { start: MMIO_BASE, end_inclusive: MMIO_END_INCLUSIVE },
            translation: Translation::Identity,
            attribute_fields: AttributeFields {
                mem_attributes: MemAttributes::Device,
                acc_perms: AccessPermissions::ReadWrite,
                execute_never: true,
            },
        },
    ]
}

/// The board's virtual memory layout, for a kernel whose code and read-only
/// data occupy `ro_start..ro_end`.
pub fn virt_mem_layout(ro_start: usize, ro_end: usize) -> (r: KernelVirtualLayout<3>)
    requires
        ro_start < ro_end,
    ensures
        r.max() == MMIO_END_INCLUSIVE,
        r.ranges() == board_ranges(ro_start, ro_end),
{
    let layout = [
        RangeDescriptor {
            name: "Kernel code and RO data",
            virtual_range: VirtualRange { start: ro_start, end_inclusive: ro_end - 1 },
            translation: Translation::Identity,
            attribute_fields: AttributeFields {
                mem_attributes: MemAttributes::CacheableDRAM,
                acc_perms: AccessPermissions::ReadOnly,
                execute_never: false,
            },
        },
        RangeDescriptor {
            name: "Remapped Device MMIO",
            virtual_range: VirtualRange {
                start: REMAPPED_MMIO_START,
                end_inclusive: REMAPPED_MMIO_END_INCLUSIVE,
            },
            translation: Translation::Offset(MMIO_BASE + 0x20_0000),
            attribute_fields: AttributeFields {
                mem_attributes: MemAttributes::Device,
                acc_perms: AccessPermissions::ReadWrite,
                execute_never: true,
            },
        },
        RangeDescriptor {
            name: "Device MMIO",
            virtual_range: VirtualRange { start: MMIO_BASE, end_inclusive: MMIO_END_INCLUSIVE },
            translation: Translation::Identity,
            attribute_fields: AttributeFields {
                mem_attributes: MemAttributes::Device,
                acc_perms: AccessPermissions::ReadWrite,
                execute_never: true,
            },
        },
    ];
    assert(layout@ =~= board_ranges(ro_start, ro_end));
    assert(all_ranges_valid(layout@));
    KernelVirtualLayout::new(MMIO_END_INCLUSIVE, layout)
}

} // verus!
