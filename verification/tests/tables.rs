use em_kernel::arch::memory::translation_table::{
    FixedSizeTranslationTable, KernelTranslationTable, PageDescriptor, NUM_LVL2_TABLES,
    PAGES_PER_TABLE,
};
use em_kernel::board::memory::virtual_memory_layout;
use em_kernel::board::Board;
use em_kernel::memory::{
    KernelVirtualMemoryLayout, MemoryAccess, MemoryAttributes, MemoryType, PhysicalAddress,
    Translation, TranslationDescriptor,
};

const DEVICE_WORD: u64 = 0x0060_0000_0000_0603;
const ORDINARY_WORD: u64 = 0x0060_0000_0000_0707;
const START: u64 = 0x10_0000;

fn page(tables: &KernelTranslationTable, table: usize, page: usize) -> u64 {
    tables.page_descriptor(table, page).unwrap().value()
}

fn device_region(start: u64, end: u64, translation: Translation) -> TranslationDescriptor {
    TranslationDescriptor {
        name: "device",
        virtual_start: start,
        virtual_end_inclusive: end,
        translation,
        attributes: MemoryAttributes {
            memory_type: MemoryType::Device,
            access: MemoryAccess::ReadWrite,
            executable: false,
        },
    }
}

#[test]
fn new_tables_are_zeroed() {
    let tables = KernelTranslationTable::new(PhysicalAddress(START));
    for table in 0..NUM_LVL2_TABLES {
        assert_eq!(tables.table_descriptor(table).unwrap().value(), 0);
        for index in [0, 1, 4095, PAGES_PER_TABLE - 1] {
            assert_eq!(page(&tables, table, index), 0);
        }
    }
    assert!(tables.table_descriptor(NUM_LVL2_TABLES).is_none());
    assert!(tables.page_descriptor(NUM_LVL2_TABLES, 0).is_none());
    assert!(tables.page_descriptor(0, PAGES_PER_TABLE).is_none());
}

#[test]
fn base_address_is_that_of_the_level_2_table() {
    let tables = KernelTranslationTable::new(PhysicalAddress(START));
    assert_eq!(tables.base_address(), PhysicalAddress(START + 8 * 0x1_0000));
    let tables = FixedSizeTranslationTable::<1>::new(PhysicalAddress(0));
    assert_eq!(tables.base_address(), PhysicalAddress(0x1_0000));
}

#[test]
fn one_small_device_region_in_four_gibibytes() {
    let layout = KernelVirtualMemoryLayout::new(
        0xFFFF_FFFF,
        [device_region(0x0, 0xFFF, Translation::Identity)],
    );
    let mut tables = KernelTranslationTable::new(PhysicalAddress(START));
    assert_eq!(tables.populate_tt_entries(&layout), Ok(()));
    let mut device_pages = 0;
    for table in 0..NUM_LVL2_TABLES {
        assert_eq!(
            tables.table_descriptor(table).unwrap().value(),
            (START + table as u64 * 0x1_0000) | 0b11
        );
        for index in 0..PAGES_PER_TABLE {
            let word = page(&tables, table, index);
            let address = ((table as u64) << 29) + ((index as u64) << 16);
            if word & !0xFFFF_FFFF_0000 == DEVICE_WORD {
                device_pages += 1;
                assert_eq!((table, index), (0, 0));
            } else {
                assert_eq!(word, ORDINARY_WORD | address);
            }
            assert_ne!(word, 0);
        }
    }
    assert_eq!(device_pages, 1);
    assert_eq!(page(&tables, 0, 0), DEVICE_WORD);
    assert_eq!(page(&tables, 0, 1), ORDINARY_WORD | 0x1_0000);
}

#[test]
fn device_region_of_eight_pages() {
    let layout = KernelVirtualMemoryLayout::new(
        0xFFFF_FFFF,
        [device_region(0x0, 0x7_FFFF, Translation::Identity)],
    );
    let mut tables = KernelTranslationTable::new(PhysicalAddress(START));
    assert_eq!(tables.populate_tt_entries(&layout), Ok(()));
    for index in 0..8 {
        assert_eq!(page(&tables, 0, index), DEVICE_WORD | ((index as u64) << 16));
    }
    assert_eq!(page(&tables, 0, 8), ORDINARY_WORD | 0x8_0000);
    assert_eq!(page(&tables, 7, 8191), ORDINARY_WORD | 0xFFFF_0000);
}

#[test]
fn board_layout_fills_the_kernel_tables() {
    let layout = virtual_memory_layout(Board::Raspi3, 0x8_0000, 0x9_0000);
    let mut tables = KernelTranslationTable::new(PhysicalAddress(START));
    assert_eq!(tables.populate_tt_entries(&layout), Ok(()));
    // Kernel code: read-only, never executed.
    assert_eq!(page(&tables, 0, 8), 0x0060_0000_0008_0787);
    assert_eq!(page(&tables, 0, 9), 0x0060_0000_0009_0787);
    assert_eq!(page(&tables, 0, 10), ORDINARY_WORD | 0xA_0000);
    // The window onto the devices is the last page of the first table.
    assert_eq!(page(&tables, 0, 8191), DEVICE_WORD | 0x3F20_0000);
    // The devices themselves.
    assert_eq!(page(&tables, 1, 0x1EFF), ORDINARY_WORD | 0x3EFF_0000);
    assert_eq!(page(&tables, 1, 0x1F00), DEVICE_WORD | 0x3F00_0000);
    assert_eq!(page(&tables, 7, 8191), DEVICE_WORD | 0xFFFF_0000);
}

#[test]
fn populated_pages_decode_to_the_resolved_address() {
    let layout = virtual_memory_layout(Board::Raspi4, 0x8_0000, 0x9_0000);
    let mut tables = KernelTranslationTable::new(PhysicalAddress(START));
    assert_eq!(tables.populate_tt_entries(&layout), Ok(()));
    for table in 0..NUM_LVL2_TABLES {
        for index in (0..PAGES_PER_TABLE).step_by(97).chain([8191]) {
            let address = ((table as u64) << 29) + ((index as u64) << 16);
            let (resolved, attributes) = layout.virt_addr_properties(address).unwrap();
            let descriptor = tables.page_descriptor(table, index).unwrap();
            assert_eq!(descriptor.output_address(), resolved);
            assert_eq!(descriptor, PageDescriptor::from_output_address(resolved, &attributes));
        }
    }
}

#[test]
fn population_stops_at_the_first_refused_address() {
    // The layout ends within the second table, at its page 2.
    let layout = KernelVirtualMemoryLayout::new(
        0x2002_FFFF,
        [device_region(0x2000_0000, 0x2000_FFFF, Translation::Offset(0x4000_0000))],
    );
    let mut tables = KernelTranslationTable::new(PhysicalAddress(START));
    assert_eq!(tables.populate_tt_entries(&layout), Err("Address out of range"));
    assert_eq!(page(&tables, 0, 0), ORDINARY_WORD);
    assert_eq!(page(&tables, 0, 8191), ORDINARY_WORD | 0x1FFF_0000);
    assert_eq!(page(&tables, 1, 0), DEVICE_WORD | 0x4000_0000);
    assert_eq!(page(&tables, 1, 2), ORDINARY_WORD | 0x2002_0000);
    assert_eq!(page(&tables, 1, 3), 0);
    assert_eq!(page(&tables, 7, 8191), 0);
    assert_eq!(tables.table_descriptor(0).unwrap().value(), START | 0b11);
    assert_eq!(tables.table_descriptor(1).unwrap().value(), (START + 0x1_0000) | 0b11);
    assert_eq!(tables.table_descriptor(2).unwrap().value(), 0);
}

#[test]
fn population_reaches_a_table_whose_first_address_is_refused() {
    let layout = KernelVirtualMemoryLayout::<0>::new(0x1FFF_FFFF, []);
    let mut tables = KernelTranslationTable::new(PhysicalAddress(START));
    assert_eq!(tables.populate_tt_entries(&layout), Err("Address out of range"));
    assert_eq!(page(&tables, 0, 8191), ORDINARY_WORD | 0x1FFF_0000);
    assert_eq!(page(&tables, 1, 0), 0);
    assert_eq!(tables.table_descriptor(1).unwrap().value(), (START + 0x1_0000) | 0b11);
    assert_eq!(tables.table_descriptor(2).unwrap().value(), 0);
}

#[test]
fn layout_that_ends_on_the_last_page_is_enough() {
    let layout = KernelVirtualMemoryLayout::<0>::new(0xFFFF_0000, []);
    let mut tables = KernelTranslationTable::new(PhysicalAddress(START));
    assert_eq!(tables.populate_tt_entries(&layout), Ok(()));
    let layout = KernelVirtualMemoryLayout::<0>::new(0xFFFE_FFFF, []);
    let mut tables = KernelTranslationTable::new(PhysicalAddress(START));
    assert_eq!(tables.populate_tt_entries(&layout), Err("Address out of range"));
    assert_eq!(page(&tables, 7, 8190), ORDINARY_WORD | 0xFFFE_0000);
    assert_eq!(page(&tables, 7, 8191), 0);
}

#[test]
fn unaligned_offset_is_cut_to_the_page() {
    let layout = KernelVirtualMemoryLayout::new(
        0xFFFF_FFFF,
        [device_region(0x1000, 0x1_FFFF, Translation::Offset(0))],
    );
    let mut tables = KernelTranslationTable::new(PhysicalAddress(START));
    assert_eq!(tables.populate_tt_entries(&layout), Ok(()));
    assert_eq!(
        layout.virt_addr_properties(0x1_0000).unwrap().0,
        PhysicalAddress(0xF000)
    );
    assert_eq!(page(&tables, 0, 1), DEVICE_WORD);
    assert_eq!(
        tables.page_descriptor(0, 1).unwrap().output_address(),
        PhysicalAddress(0)
    );
}
