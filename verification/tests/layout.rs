use em_kernel::board::memory::virtual_memory_layout;
use em_kernel::board::Board;
use em_kernel::memory::{
    KernelVirtualMemoryLayout, MemoryAccess, MemoryAttributes, MemoryType, PhysicalAddress,
    Translation, TranslationDescriptor,
};

fn region(
    name: &'static str,
    start: u64,
    end: u64,
    translation: Translation,
    attributes: MemoryAttributes,
) -> TranslationDescriptor {
    TranslationDescriptor {
        name,
        virtual_start: start,
        virtual_end_inclusive: end,
        translation,
        attributes,
    }
}

const DEVICE: MemoryAttributes = MemoryAttributes {
    memory_type: MemoryType::Device,
    access: MemoryAccess::ReadWrite,
    executable: false,
};

const CODE: MemoryAttributes = MemoryAttributes {
    memory_type: MemoryType::Normal,
    access: MemoryAccess::ReadOnly,
    executable: true,
};

#[test]
fn first_matching_region_wins() {
    let layout = KernelVirtualMemoryLayout::new(
        0xFFFF_FFFF,
        [
            region("first", 0x1000, 0x2FFF, Translation::Identity, CODE),
            region("second", 0x2000, 0x3FFF, Translation::Offset(0x8000_0000), DEVICE),
        ],
    );
    assert_eq!(
        layout.virt_addr_properties(0x2800),
        Ok((PhysicalAddress(0x2800), CODE))
    );
    assert_eq!(
        layout.virt_addr_properties(0x3000),
        Ok((PhysicalAddress(0x8000_1000), DEVICE))
    );
}

#[test]
fn unmatched_address_is_ordinary_memory() {
    let layout = KernelVirtualMemoryLayout::new(
        0xFFFF_FFFF,
        [region("only", 0x1000, 0x1FFF, Translation::Identity, DEVICE)],
    );
    assert_eq!(
        layout.virt_addr_properties(0x2000),
        Ok((PhysicalAddress(0x2000), MemoryAttributes::default()))
    );
    assert_eq!(
        MemoryAttributes::default(),
        MemoryAttributes {
            memory_type: MemoryType::Normal,
            access: MemoryAccess::ReadWrite,
            executable: false,
        }
    );
}

#[test]
fn address_past_the_end_is_refused() {
    let layout = KernelVirtualMemoryLayout::new(
        0xFFFF,
        [region("only", 0x1000, 0xFFFF_FFFF, Translation::Identity, DEVICE)],
    );
    assert_eq!(layout.virt_addr_properties(0xFFFF), Ok((PhysicalAddress(0xFFFF), DEVICE)));
    assert_eq!(layout.virt_addr_properties(0x1_0000), Err("Address out of range"));
    assert_eq!(layout.virt_addr_properties(u64::MAX), Err("Address out of range"));
}

#[test]
fn board_layout_remaps_the_devices() {
    let layout = virtual_memory_layout(Board::Raspi3, 0x8_0000, 0x9_0000);
    assert_eq!(
        layout.virt_addr_properties(0x1FFF_1000),
        Ok((PhysicalAddress(0x3F20_1000), DEVICE))
    );
    assert_eq!(
        layout.virt_addr_properties(0x3F00_0000),
        Ok((PhysicalAddress(0x3F00_0000), DEVICE))
    );
    assert_eq!(
        layout.virt_addr_properties(0x8_8000),
        Ok((
            PhysicalAddress(0x8_8000),
            MemoryAttributes {
                memory_type: MemoryType::Normal,
                access: MemoryAccess::ReadOnly,
                executable: false,
            }
        ))
    );
    let layout = virtual_memory_layout(Board::Raspi4, 0x8_0000, 0x9_0000);
    assert_eq!(
        layout.virt_addr_properties(0x1FFF_0000),
        Ok((PhysicalAddress(0xFE20_0000), DEVICE))
    );
    assert_eq!(
        layout.virt_addr_properties(0x3F00_0000),
        Ok((PhysicalAddress(0x3F00_0000), MemoryAttributes::default()))
    );
}

#[test]
fn offset_translation_counts_from_the_region_start() {
    let layout = KernelVirtualMemoryLayout::new(
        u64::MAX,
        [region("window", 0x1000, 0x1FFF, Translation::Offset(0x50_0000), CODE)],
    );
    assert_eq!(
        layout.virt_addr_properties(0x1000),
        Ok((PhysicalAddress(0x50_0000), CODE))
    );
    assert_eq!(
        layout.virt_addr_properties(0x1FFF),
        Ok((PhysicalAddress(0x50_0FFF), CODE))
    );
    assert_eq!(
        layout.virt_addr_properties(0xFFF),
        Ok((PhysicalAddress(0xFFF), MemoryAttributes::default()))
    );
}

#[test]
fn layout_without_regions_maps_everything_to_itself() {
    let layout = KernelVirtualMemoryLayout::<0>::new(0x1000, []);
    assert_eq!(
        layout.virt_addr_properties(0),
        Ok((PhysicalAddress(0), MemoryAttributes::default()))
    );
    assert_eq!(
        layout.virt_addr_properties(0x1000),
        Ok((PhysicalAddress(0x1000), MemoryAttributes::default()))
    );
    assert_eq!(layout.virt_addr_properties(0x1001), Err("Address out of range"));
    assert!(layout.print_layout().is_empty());
}

#[test]
fn report_shows_each_region_in_order() {
    let layout = virtual_memory_layout(Board::Raspi3, 0x8_0000, 0x8_FFFF);
    let lines = layout.print_layout();
    assert_eq!(
        lines,
        vec![
            "      0x00080000 - 0x0008ffff |  64 KiB | N   RO PXN | Kernel code and RO data",
            "      0x1fff0000 - 0x1fffffff |  64 KiB | D   RW PXN | Remapped Device MMIO",
            "      0x3f000000 - 0xffffffff |   4 GiB | D   RW PXN | Device MMIO",
        ]
    );
}

#[test]
fn report_line_of_an_executable_region() {
    let line = region("text", 0, 0x1_2345_6788, Translation::Identity, CODE).to_string();
    assert_eq!(line, "      0x00000000 - 0x123456788 |   5 GiB | N   RO PX  | text");
    let line = region("tiny", 0x10, 0x10, Translation::Identity, DEVICE).to_string();
    assert_eq!(line, "      0x00000010 - 0x00000010 |   1 Byte | D   RW PXN | tiny");
    let line = region("wide", 0, 1023 * 1024 - 1, Translation::Identity, DEVICE).to_string();
    assert_eq!(line, "      0x00000000 - 0x000ffbff | 1023 KiB | D   RW PXN | wide");
}
