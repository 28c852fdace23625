use em_kernel::arch::memory::translation_table::KernelTranslationTable;
use em_kernel::arch::memory::{mmu, AArch64MemoryManagementUnit, MmuOperation, MmuRegisters};
use em_kernel::board::memory::virtual_memory_layout;
use em_kernel::board::Board;
use em_kernel::memory::{
    EnableError, KernelVirtualMemoryLayout, MemoryAccess, MemoryAttributes, MemoryManagementUnit,
    MemoryType, PhysicalAddress, Translation, TranslationDescriptor,
};

const START: u64 = 0x10_0000;
const BASE: u64 = START + 8 * 0x1_0000;
const MAIR: u64 = 0xFF04;
const TCR: u64 = 0x22_0080_7520;

fn registers(sctlr_el1: u64, id_aa64mmfr0_el1: u64) -> MmuRegisters {
    MmuRegisters {
        sctlr_el1,
        id_aa64mmfr0_el1,
        mair_el1: 0x1111,
        ttbr0_el1: 0x2222,
        tcr_el1: 0x3333,
    }
}

fn unit(sctlr_el1: u64, id_aa64mmfr0_el1: u64) -> AArch64MemoryManagementUnit {
    mmu(
        registers(sctlr_el1, id_aa64mmfr0_el1),
        KernelTranslationTable::new(PhysicalAddress(START)),
        virtual_memory_layout(Board::Raspi3, 0x8_0000, 0x9_0000),
    )
}

fn short_layout() -> KernelVirtualMemoryLayout<3> {
    let region = TranslationDescriptor {
        name: "nothing",
        virtual_start: 1,
        virtual_end_inclusive: 0,
        translation: Translation::Identity,
        attributes: MemoryAttributes {
            memory_type: MemoryType::Device,
            access: MemoryAccess::ReadOnly,
            executable: false,
        },
    };
    KernelVirtualMemoryLayout::new(0x7FFF_FFFF, [region, region, region])
}

#[test]
fn fresh_unit_is_disabled_however_often_it_is_asked() {
    let unit = unit(0, 0);
    for _ in 0..5 {
        assert!(!unit.is_enabled());
    }
    assert!(unit.operations().is_empty());
    assert_eq!(unit.registers(), registers(0, 0));
}

#[test]
fn enable_programs_the_registers_in_order() {
    let mut unit = unit(0x0080_0800, 0x0000_0000_0000_1122);
    assert_eq!(unit.enable(), Ok(()));
    assert_eq!(
        unit.registers(),
        MmuRegisters {
            sctlr_el1: 0x0080_1805,
            id_aa64mmfr0_el1: 0x1122,
            mair_el1: MAIR,
            ttbr0_el1: BASE,
            tcr_el1: TCR,
        }
    );
    assert_eq!(
        unit.operations(),
        &vec![
            MmuOperation::WriteMairEl1(MAIR),
            MmuOperation::WriteTtbr0El1(BASE),
            MmuOperation::WriteTcrEl1(TCR),
            MmuOperation::InstructionBarrier,
            MmuOperation::WriteSctlrEl1(0x0080_1805),
            MmuOperation::InstructionBarrier,
        ]
    );
    for _ in 0..5 {
        assert!(unit.is_enabled());
    }
    let tables = unit.tables();
    assert_eq!(tables.table_descriptor(0).unwrap().value(), START | 0b11);
    assert_eq!(tables.table_descriptor(7).unwrap().value(), (START + 0x7_0000) | 0b11);
    assert_eq!(tables.page_descriptor(0, 0).unwrap().value(), 0x0060_0000_0000_0707);
    assert_eq!(
        tables.page_descriptor(0, 8191).unwrap().value(),
        0x0060_0000_3F20_0603
    );
}

#[test]
fn second_enable_is_refused_and_changes_nothing() {
    let mut unit = unit(0, 0);
    assert_eq!(unit.enable(), Ok(()));
    let registers = unit.registers();
    let operations = unit.operations().clone();
    let first_page = unit.tables().page_descriptor(3, 17).unwrap();
    assert_eq!(unit.enable(), Err(EnableError::AlreadyEnabled));
    assert_eq!(unit.enable(), Err(EnableError::AlreadyEnabled));
    assert_eq!(unit.registers(), registers);
    assert_eq!(unit.operations(), &operations);
    assert_eq!(unit.tables().page_descriptor(3, 17).unwrap(), first_page);
    assert!(unit.is_enabled());
}

#[test]
fn enabled_core_is_left_alone() {
    // Translation is on; the granule would not even be supported.
    let mut unit = unit(0x1, 0x0F00_0000);
    assert!(unit.is_enabled());
    assert_eq!(unit.enable(), Err(EnableError::AlreadyEnabled));
    assert_eq!(unit.registers(), registers(0x1, 0x0F00_0000));
    assert!(unit.operations().is_empty());
    assert_eq!(unit.tables().page_descriptor(0, 0).unwrap().value(), 0);
}

#[test]
fn unsupported_granule_touches_nothing() {
    let mut unit = unit(0, 0x0F00_0000);
    assert_eq!(unit.enable(), Err(EnableError::UnsupportedGranule));
    assert_eq!(unit.registers(), registers(0, 0x0F00_0000));
    assert!(unit.operations().is_empty());
    assert!(!unit.is_enabled());
    assert_eq!(unit.tables().page_descriptor(0, 0).unwrap().value(), 0);
    assert_eq!(unit.tables().table_descriptor(0).unwrap().value(), 0);
    // Any value of the field but zero means that the granule is missing.
    let mut unit = self::unit(0, 0x0100_0000);
    assert_eq!(unit.enable(), Err(EnableError::UnsupportedGranule));
    // The neighbouring fields do not count.
    let mut unit = self::unit(0, 0xF0FF_FFFF);
    assert_eq!(unit.enable(), Ok(()));
}

#[test]
fn failure_to_fill_the_tables_leaves_translation_off() {
    let mut unit = mmu(
        registers(0x0800, 0),
        KernelTranslationTable::new(PhysicalAddress(START)),
        short_layout(),
    );
    assert_eq!(unit.enable(), Err(EnableError::Other("Address out of range")));
    assert!(!unit.is_enabled());
    assert_eq!(
        unit.registers(),
        MmuRegisters {
            sctlr_el1: 0x0800,
            id_aa64mmfr0_el1: 0,
            mair_el1: MAIR,
            ttbr0_el1: 0x2222,
            tcr_el1: 0x3333,
        }
    );
    assert_eq!(unit.operations(), &vec![MmuOperation::WriteMairEl1(MAIR)]);
    let tables = unit.tables();
    assert_eq!(
        tables.page_descriptor(3, 8191).unwrap().value(),
        0x0060_0000_7FFF_0707
    );
    assert_eq!(tables.page_descriptor(4, 0).unwrap().value(), 0);
    // Translation is still off, so that the next call tries again.
    assert_eq!(unit.enable(), Err(EnableError::Other("Address out of range")));
}

#[test]
fn enable_errors_in_words() {
    assert_eq!(EnableError::AlreadyEnabled.to_string(), "MMU is already enabled");
    assert_eq!(
        EnableError::UnsupportedGranule.to_string(),
        "MMU does not support translation granule"
    );
    assert_eq!(EnableError::Other("no tables").to_string(), "no tables");
}

#[test]
fn table_base_keeps_48_bits_and_drops_bit_0() {
    let mut unit = mmu(
        registers(0, 0),
        KernelTranslationTable::new(PhysicalAddress(0xABCD_0000_0000_0000)),
        virtual_memory_layout(Board::Raspi4, 0, 0),
    );
    assert_eq!(unit.enable(), Ok(()));
    assert_eq!(unit.registers().ttbr0_el1, 0x8_0000);
}
