//! The memory management unit of the AArch64 execution state.

use crate::arch::memory::translation_table::{
    attribute_bits, page_descriptor_word, virtual_address, KernelTranslationTable, NUM_LVL2_TABLES,
};
use crate::arch::registers::{
    bitmask, combine, field_bits, id_aa64mmfr0_tgran64_supported, lemma_bitmasks,
    lemma_field_bits_well_formed, lemma_plus_well_formed, lemma_word_well_formed,
    mair_attr0_device_ngnre, mair_attr1_normal_inner_write_back,
    mair_attr1_normal_outer_write_back, register_matches_all,
    register_modify, register_write, sctlr_c_cacheable, sctlr_i_cacheable, sctlr_m_enable,
    tcr_a1_ttbr0, tcr_epd0_enable_walks, tcr_epd1_disable_walks, tcr_ips_bits_40,
    tcr_irgn0_write_back, tcr_orgn0_write_back, tcr_sh0_inner, tcr_t0sz, tcr_tbi0_ignored,
    tcr_tg0_kib_64, ttbr0_baddr,
};
use crate::board::memory::{lemma_kernel_address_space, KernelAddressSpace};
use crate::memory::{
    log2, AddressSpace, EnableError, KernelVirtualMemoryLayout, MemoryAttributes,
    MemoryManagementUnit, MemoryType, TranslationGranule,
};
use vstd::arithmetic::power2::is_pow2;
use vstd::prelude::*;

pub mod mair;
pub mod translation_table;

verus! {

/// The granule that one entry of the level 2 table covers.
pub type Granule512MiB = TranslationGranule<0x2000_0000>;

/// The granule of a page.
pub type Granule64KiB = TranslationGranule<0x1_0000>;

/// The page granule is a power of two, and its shift is 16.
pub proof fn lemma_granule_64kib()
    ensures
        Granule64KiB::valid(),
        log2(0x1_0000) == 16,
{
    reveal_with_fuel(is_pow2, 18);
    reveal_with_fuel(log2, 18);
}

/// The table granule is a power of two, and its shift is 29.
pub proof fn lemma_granule_512mib()
    ensures
        Granule512MiB::valid(),
        log2(0x2000_0000) == 29,
{
    reveal_with_fuel(is_pow2, 31);
    reveal_with_fuel(log2, 31);
}

impl<const AS_SIZE: u64> AddressSpace<AS_SIZE> {
    /// What the architecture asks of an address space: it is made of whole
    /// 512 MiB tables, and no wider than 48 bits.
    pub open spec fn arch_valid() -> bool {
        AS_SIZE % 0x2000_0000 == 0 && AS_SIZE <= 0x1_0000_0000_0000
    }

    /// Checks for architectural restrictions.
    pub fn arch_check_address_space_size() -> (holds: bool)
        ensures
            holds == Self::arch_valid(),
    {
        proof {
            lemma_granule_512mib();
        }
        // Size must be at least one full 512 MiB table, and at most what 48
        // bits of virtual address reach, which any ARMv8 version supports.
        AS_SIZE % Granule512MiB::size_checked() == 0 && AS_SIZE <= 0x1_0000_0000_0000
    }
}

/// The system registers that the memory management unit is driven by, each
/// as the word that it holds.
#[derive(Clone, Copy, Debug, PartialEq, Eq, Structural)]
pub struct MmuRegisters {
    /// System control.
    pub sctlr_el1: u64,
    /// Memory model features of the core. The kernel only reads it.
    pub id_aa64mmfr0_el1: u64,
    /// Memory attribute indirection.
    pub mair_el1: u64,
    /// Translation table base of the low range of addresses.
    pub ttbr0_el1: u64,
    /// Translation control.
    pub tcr_el1: u64,
}

/// What the unit does to the processor, one step at a time.
#[derive(Clone, Copy, Debug, PartialEq, Eq, Structural)]
pub enum MmuOperation {
    /// The word goes to the memory attribute indirection register.
    WriteMairEl1(u64),
    /// The word goes to the translation table base register.
    WriteTtbr0El1(u64),
    /// The word goes to the translation control register.
    WriteTcrEl1(u64),
    /// The word goes to the system control register.
    WriteSctlrEl1(u64),
    /// What stands before this step is complete before the next
    /// instruction is fetched.
    InstructionBarrier,
}

/// Whether a system control register with this word has translation on.
pub open spec fn translation_enabled(sctlr_el1: u64) -> bool {
    sctlr_el1 & 1 == 1
}

/// Whether a core whose memory model feature register holds this word
/// translates with a granule of 64 KiB.
pub open spec fn granule_64kib_supported(id_aa64mmfr0_el1: u64) -> bool {
    (id_aa64mmfr0_el1 >> 24) & 0xf == 0
}

/// The encoding of device memory that is neither gathered nor reordered,
/// with early acknowledgement of writes.
pub const MAIR_DEVICE_NGNRE: u64 = 0x04;

/// The encoding of normal memory that is write-back, non-transient, and
/// allocates on reads and writes, in the inner and in the outer cache domain.
pub const MAIR_NORMAL_WRITE_BACK: u64 = 0xff;

/// The memory attributes of the kernel, each in the slot of eight bits that
/// the page descriptors name it by.
pub open spec fn mair_el1_word() -> u64 {
    (MAIR_NORMAL_WRITE_BACK << ((8 * mair::NORMAL) as u64)) | (MAIR_DEVICE_NGNRE << ((8
        * mair::DEVICE) as u64))
}

/// The translation control of the kernel for `t0sz` unused address bits: the
/// top byte of low addresses is ignored, 40 bits of physical address, pages
/// of 64 KiB, table walks of the low range that are inner shareable and
/// write-back cacheable, and no walks of the high range.
pub open spec fn tcr_el1_word(t0sz: u64) -> u64 {
    (1u64 << 37) | (0b010u64 << 32) | (1u64 << 23) | (0b01u64 << 14) | (0b11u64 << 12) | (0b01u64
        << 10) | (0b01u64 << 8) | (t0sz & 0x3f)
}

/// The translation table base register that points to `base_address`.
pub open spec fn ttbr0_el1_word(base_address: u64) -> u64 {
    base_address & 0x0000_ffff_ffff_fffe
}

/// The system control register `sctlr_el1` after translation and the caches
/// of data and of instructions are switched on.
pub open spec fn sctlr_el1_enabled(sctlr_el1: u64) -> u64 {
    sctlr_el1 | (1u64 << 12) | (1u64 << 2) | 1u64
}

/// The number of address bits that the kernel's address space leaves unused:
/// 64 less the shift of the address space.
pub open spec fn t0sz() -> u64 {
    (64 - log2(0x1_0000_0000)) as u64
}

/// The kernel's address space leaves 32 address bits unused, and eight
/// level 2 entries cover it to its last page.
pub proof fn lemma_kernel_geometry()
    ensures
        t0sz() == 32,
        NUM_LVL2_TABLES * 0x2000_0000 == 0x1_0000_0000,
        virtual_address(NUM_LVL2_TABLES - 1, 8191) + 0x1_0000 == 0x1_0000_0000,
{
    lemma_kernel_address_space();
}

/// The state of a unit, as contracts see it.
pub struct MmuModel {
    /// The words of the system registers.
    pub registers: MmuRegisters,
    /// What the unit has done to the processor, oldest first.
    pub operations: Seq<MmuOperation>,
    /// The translation tables.
    pub tables: KernelTranslationTable,
    /// The layout that the tables are filled from.
    pub layout: KernelVirtualMemoryLayout<3>,
}

impl MmuModel {
    /// Whether the unit translates addresses.
    pub open spec fn enabled(self) -> bool {
        translation_enabled(self.registers.sctlr_el1)
    }

    /// Whether the unit's core can work with the kernel's page granule.
    pub open spec fn granule_supported(self) -> bool {
        granule_64kib_supported(self.registers.id_aa64mmfr0_el1)
    }

    /// Whether the layout accepts every address that the tables cover.
    pub open spec fn layout_covers_tables(self) -> bool {
        virtual_address(NUM_LVL2_TABLES - 1, 8191) <= self.layout.max_virtual_address()
    }

    /// The word that the translation table base register gets.
    pub open spec fn table_base(self) -> u64 {
        ttbr0_el1_word(self.tables.table_address(NUM_LVL2_TABLES as int) as u64)
    }

    /// What a call of `enable` makes of the state `self`: the state `after`
    /// and the result `enabled`.
    ///
    /// A unit that translates already, or whose core lacks the granule, is
    /// left as it is. Else the memory attributes are set and the tables are
    /// filled. If the layout refuses an address, nothing more happens. Else
    /// the table base and the translation control are set, and, between two
    /// barriers, translation is switched on.
    pub open spec fn enables(self, after: MmuModel, enabled: Result<(), EnableError>) -> bool {
        if self.enabled() {
            enabled == Err::<(), _>(EnableError::AlreadyEnabled) && after == self
        } else if !self.granule_supported() {
            enabled == Err::<(), _>(EnableError::UnsupportedGranule) && after == self
        } else if !self.layout_covers_tables() {
            &&& enabled matches Err(EnableError::Other(reason))
            &&& reason@ == "Address out of range"@
            &&& after.registers == MmuRegisters { mair_el1: mair_el1_word(), ..self.registers }
            &&& after.operations == self.operations.push(
                MmuOperation::WriteMairEl1(mair_el1_word()),
            )
            &&& after.tables.populated_from(&self.tables, &self.layout)
            &&& after.layout == self.layout
        } else {
            &&& enabled is Ok
            &&& after.registers == MmuRegisters {
                sctlr_el1: sctlr_el1_enabled(self.registers.sctlr_el1),
                id_aa64mmfr0_el1: self.registers.id_aa64mmfr0_el1,
                mair_el1: mair_el1_word(),
                ttbr0_el1: self.table_base(),
                tcr_el1: tcr_el1_word(t0sz()),
            }
            &&& after.operations == self.operations + seq![
                MmuOperation::WriteMairEl1(mair_el1_word()),
                MmuOperation::WriteTtbr0El1(self.table_base()),
                MmuOperation::WriteTcrEl1(tcr_el1_word(t0sz())),
                MmuOperation::InstructionBarrier,
                MmuOperation::WriteSctlrEl1(sctlr_el1_enabled(self.registers.sctlr_el1)),
                MmuOperation::InstructionBarrier,
            ]
            &&& after.tables.populated_from(&self.tables, &self.layout)
            &&& after.layout == self.layout
        }
    }
}

/// A layout that reaches to the end of the kernel's address space, as that of
/// every board does, accepts every address that the tables cover: with it,
/// `enable` does not fail for an address out of range.
pub proof fn lemma_full_layout_covers_tables(model: MmuModel)
    requires
        model.layout.max_virtual_address() == 0xFFFF_FFFF,
    ensures
        model.layout_covers_tables(),
{
}

/// Once `enable` has succeeded, the unit translates.
pub proof fn lemma_enabled_after_success(before: MmuModel, after: MmuModel)
    requires
        before.enables(after, Ok(())),
    ensures
        !before.enabled(),
        after.enabled(),
{
    let control = before.registers.sctlr_el1;
    assert((control | (1u64 << 12) | (1u64 << 2) | 1u64) & 1 == 1) by (bit_vector);
}

/// A call of `enable` that fails leaves translation as it was.
pub proof fn lemma_failure_leaves_translation(
    before: MmuModel,
    after: MmuModel,
    enabled: Result<(), EnableError>,
)
    requires
        before.enables(after, enabled),
        enabled is Err,
    ensures
        after.enabled() == before.enabled(),
{
}

/// After `enable` has succeeded, a second call fails with `AlreadyEnabled`
/// and leaves the registers, the record and the tables as the first call
/// left them.
pub proof fn lemma_second_enable_refused(
    before: MmuModel,
    between: MmuModel,
    after: MmuModel,
    second: Result<(), EnableError>,
)
    requires
        before.enables(between, Ok(())),
        between.enables(after, second),
    ensures
        second == Err::<(), _>(EnableError::AlreadyEnabled),
        after == between,
{
    lemma_enabled_after_success(before, between);
}

/// On a core without the granule of 64 KiB, `enable` fails with
/// `UnsupportedGranule` and touches nothing.
pub proof fn lemma_unsupported_granule_touches_nothing(
    before: MmuModel,
    after: MmuModel,
    enabled: Result<(), EnableError>,
)
    requires
        before.enables(after, enabled),
        !before.enabled(),
        !before.granule_supported(),
    ensures
        enabled == Err::<(), _>(EnableError::UnsupportedGranule),
        after == before,
{
}

/// The slot of the memory attribute register that a page descriptor names
/// holds the encoding of the descriptor's type of memory.
pub proof fn lemma_attribute_index_selects_encoding(
    output_address: u64,
    attributes: MemoryAttributes,
)
    ensures
        (mair_el1_word() >> ((8 * ((page_descriptor_word(output_address, attributes) >> 2)
            & 0b111)) as u64)) & 0xff == match attributes.memory_type {
            MemoryType::Normal => MAIR_NORMAL_WRITE_BACK,
            MemoryType::Device => MAIR_DEVICE_NGNRE,
        },
{
    let bits = attribute_bits(attributes);
    let word = page_descriptor_word(output_address, attributes);
    let index: u64 = match attributes.memory_type {
        MemoryType::Normal => 1,
        MemoryType::Device => 0,
    };
    assert(forall|address: u64, rest: u64, slot: u64|
        slot <= 1 && rest & 0b11100 == 0 ==> #[trigger] (((((address >> 16) & 0xffff_ffff) << 16) | (
        1u64 << 10) | (1u64 << 1) | 1u64 | (rest | (slot << 2))) >> 2) & 0b111 == slot)
        by (bit_vector);
    let rest: u64 = bits & !0b11100u64;
    assert(bits == rest | (index << 2) && rest & 0b11100 == 0) by {
        assert(forall|pxn: u64, sh: u64, ap: u64, slot: u64|
            pxn <= 1 && sh <= 3 && ap <= 3 && slot <= 1 ==> ({
                let all = #[trigger] ((1u64 << 54) | (pxn << 53) | (sh << 8) | (ap << 6) | (slot << 2));
                all == (all & !0b11100u64) | (slot << 2) && (all & !0b11100u64) & 0b11100 == 0
            })) by (bit_vector);
    }
    assert((word >> 2) & 0b111 == index);
    assert(((0xffu64 << 8) | (0x04u64 << 0)) >> 8 & 0xff == 0xff && ((0xffu64 << 8) | (0x04u64 << 0))
        >> 0 & 0xff == 0x04) by (bit_vector);
}

/// The memory management unit of an AArch64 core, with the translation
/// tables that it walks and the layout that they are filled from.
///
/// The unit works on the words of the system registers and keeps a record of
/// what it does to them. To drive a processor, hand it the words that the
/// processor's registers hold, and carry out the record in its order.
pub struct AArch64MemoryManagementUnit {
    registers: MmuRegisters,
    operations: Vec<MmuOperation>,
    tables: KernelTranslationTable,
    layout: KernelVirtualMemoryLayout<3>,
}

impl View for AArch64MemoryManagementUnit {
    type V = MmuModel;

    closed spec fn view(&self) -> MmuModel {
        MmuModel {
            registers: self.registers,
            operations: self.operations@,
            tables: self.tables,
            layout: self.layout,
        }
    }
}

impl AArch64MemoryManagementUnit {
    /// The words of the system registers.
    pub fn registers(&self) -> (registers: MmuRegisters)
        ensures
            registers == self@.registers,
    {
        self.registers
    }

    /// What the unit has done to the processor, oldest first.
    pub fn operations(&self) -> (operations: &Vec<MmuOperation>)
        ensures
            operations@ == self@.operations,
    {
        &self.operations
    }

    /// The translation tables.
    pub fn tables(&self) -> (tables: &KernelTranslationTable)
        ensures
            *tables == self@.tables,
    {
        &self.tables
    }

    /// Sets up the MAIR_EL1 register.
    fn set_up_mair(&mut self)
        ensures
            final(self)@.registers == (MmuRegisters {
                mair_el1: mair_el1_word(),
                ..old(self)@.registers
            }),
            final(self)@.operations == old(self)@.operations.push(
                MmuOperation::WriteMairEl1(mair_el1_word()),
            ),
            final(self)@.tables == old(self)@.tables,
            final(self)@.layout == old(self)@.layout,
    {
        // Define the memory types being mapped.
        // Attribute 1 - Cacheable normal DRAM.
        let outer = mair_attr1_normal_outer_write_back();
        let inner = mair_attr1_normal_inner_write_back();
        // Attribute 0 - Device.
        let device = mair_attr0_device_ngnre();
        let word = register_write(self.registers.mair_el1, combine(combine(outer, inner), device));
        proof {
            lemma_bitmasks();
            lemma_field_bits_well_formed(bitmask(4), 12, 0b1111);
            lemma_field_bits_well_formed(bitmask(4), 8, 0b1111);
            lemma_field_bits_well_formed(bitmask(8), 0, 0b0000_0100);
            lemma_plus_well_formed(outer, inner);
            lemma_plus_well_formed(outer.plus(inner), device);
            lemma_word_well_formed(outer.plus(inner).plus(device), 0);
            let (o, i, d) = (outer.value, inner.value, device.value);
            assert(o | i | d == (0xffu64 << 8) | (0x04u64 << 0)) by (bit_vector)
                requires
                    o == (0b1111u64 & 0xf) << 12,
                    i == (0b1111u64 & 0xf) << 8,
                    d == (0b0000_0100u64 & 0xff) << 0,
            ;
        }
        self.registers.mair_el1 = word;
        self.operations.push(MmuOperation::WriteMairEl1(word));
    }

    /// Configure various settings of stage 1 of the EL1 translation regime.
    fn configure_translation_control(&mut self)
        ensures
            final(self)@.registers == (MmuRegisters {
                tcr_el1: tcr_el1_word(t0sz()),
                ..old(self)@.registers
            }),
            final(self)@.operations == old(self)@.operations.push(
                MmuOperation::WriteTcrEl1(tcr_el1_word(t0sz())),
            ),
            final(self)@.tables == old(self)@.tables,
            final(self)@.layout == old(self)@.layout,
    {
        proof {
            lemma_kernel_address_space();
        }
        let unused_bits = (64 - KernelAddressSpace::shift()) as u64;
        let tbi0 = tcr_tbi0_ignored();
        let ips = tcr_ips_bits_40();
        let tg0 = tcr_tg0_kib_64();
        let sh0 = tcr_sh0_inner();
        let orgn0 = tcr_orgn0_write_back();
        let irgn0 = tcr_irgn0_write_back();
        let epd0 = tcr_epd0_enable_walks();
        let a1 = tcr_a1_ttbr0();
        let size = tcr_t0sz(unused_bits);
        let epd1 = tcr_epd1_disable_walks();
        let fields = combine(
            combine(
                combine(
                    combine(
                        combine(
                            combine(combine(combine(combine(tbi0, ips), tg0), sh0), orgn0),
                            irgn0,
                        ),
                        epd0,
                    ),
                    a1,
                ),
                size,
            ),
            epd1,
        );
        let word = register_write(self.registers.tcr_el1, fields);
        proof {
            lemma_bitmasks();
            lemma_field_bits_well_formed(bitmask(1), 37, 1);
            lemma_field_bits_well_formed(bitmask(3), 32, 0b010);
            lemma_field_bits_well_formed(bitmask(2), 14, 0b01);
            lemma_field_bits_well_formed(bitmask(2), 12, 0b11);
            lemma_field_bits_well_formed(bitmask(2), 10, 0b01);
            lemma_field_bits_well_formed(bitmask(2), 8, 0b01);
            lemma_field_bits_well_formed(bitmask(1), 7, 0);
            lemma_field_bits_well_formed(bitmask(1), 22, 0);
            lemma_field_bits_well_formed(bitmask(6), 0, unused_bits);
            lemma_field_bits_well_formed(bitmask(1), 23, 1);
            let two = tbi0.plus(ips);
            let three = two.plus(tg0);
            let four = three.plus(sh0);
            let five = four.plus(orgn0);
            let six = five.plus(irgn0);
            let seven = six.plus(epd0);
            let eight = seven.plus(a1);
            let nine = eight.plus(size);
            lemma_plus_well_formed(tbi0, ips);
            lemma_plus_well_formed(two, tg0);
            lemma_plus_well_formed(three, sh0);
            lemma_plus_well_formed(four, orgn0);
            lemma_plus_well_formed(five, irgn0);
            lemma_plus_well_formed(six, epd0);
            lemma_plus_well_formed(seven, a1);
            lemma_plus_well_formed(eight, size);
            lemma_plus_well_formed(nine, epd1);
            lemma_word_well_formed(fields, 0);
            let (v0, v1, v2, v3, v4) = (tbi0.value, ips.value, tg0.value, sh0.value, orgn0.value);
            let (v5, v6, v7, v8, v9) = (irgn0.value, epd0.value, a1.value, size.value, epd1.value);
            let unused = t0sz();
            assert(v0 | v1 | v2 | v3 | v4 | v5 | v6 | v7 | v8 | v9 == (1u64 << 37) | (0b010u64 << 32)
                | (1u64 << 23) | (0b01u64 << 14) | (0b11u64 << 12) | (0b01u64 << 10) | (0b01u64 << 8)
                | (unused & 0x3f)) by (bit_vector)
                requires
                    unused == 32,
                    v0 == (1u64 & 0x1) << 37,
                    v1 == (0b010u64 & 0x7) << 32,
                    v2 == (0b01u64 & 0x3) << 14,
                    v3 == (0b11u64 & 0x3) << 12,
                    v4 == (0b01u64 & 0x3) << 10,
                    v5 == (0b01u64 & 0x3) << 8,
                    v6 == (0u64 & 0x1) << 7,
                    v7 == (0u64 & 0x1) << 22,
                    v8 == (32u64 & 0x3f) << 0,
                    v9 == (1u64 & 0x1) << 23,
            ;
        }
        self.registers.tcr_el1 = word;
        self.operations.push(MmuOperation::WriteTcrEl1(word));
    }
}

impl MemoryManagementUnit for AArch64MemoryManagementUnit {
    open spec fn well_formed(&self) -> bool {
        self@.tables.well_formed()
    }

    open spec fn enabled(&self) -> bool {
        self@.enabled()
    }

    fn enable(&mut self) -> (enabled: Result<(), EnableError>)
        ensures
            old(self)@.enables(final(self)@, enabled),
    {
        if self.is_enabled() {
            return Err(EnableError::AlreadyEnabled);
        }
        // Fail early if the translation granule is not supported

        let supported = register_matches_all(
            self.registers.id_aa64mmfr0_el1,
            id_aa64mmfr0_tgran64_supported(),
        );
        proof {
            lemma_bitmasks();
            lemma_field_bits_well_formed(bitmask(4), 24, 0b0000);
            let word = self.registers.id_aa64mmfr0_el1;
            lemma_word_well_formed(field_bits(bitmask(4), 24, 0b0000), word);
            assert((word & (0xfu64 << 24) == (0u64 & 0xf) << 24) == ((word >> 24) & 0xf == 0))
                by (bit_vector);
        }
        if !supported {
            return Err(EnableError::UnsupportedGranule);
        }
        // Configure memory attributes

        self.set_up_mair();
        // Load translation tables
        match self.tables.populate_tt_entries(&self.layout) {
            Ok(()) => {},
            Err(reason) => {
                return Err(EnableError::Other(reason));
            },
        }
        // Set the Translation Table Base Register (TTBR)
        let base_address = self.tables.base_address().0;
        let base = register_write(self.registers.ttbr0_el1, ttbr0_baddr(base_address >> 1));
        proof {
            lemma_bitmasks();
            lemma_field_bits_well_formed(bitmask(47), 1, base_address >> 1);
            lemma_word_well_formed(field_bits(bitmask(47), 1, base_address >> 1), 0);
            assert(((base_address >> 1) & 0x7fff_ffff_ffff) << 1 == base_address
                & 0x0000_ffff_ffff_fffe) by (bit_vector);
        }
        self.registers.ttbr0_el1 = base;
        self.operations.push(MmuOperation::WriteTtbr0El1(base));
        self.configure_translation_control();
        // Enable the MMU!
        // First, establish an Instruction barrier, to force all previous changes to be seen before processing further instructions
        self.operations.push(MmuOperation::InstructionBarrier);
        // Enable the MMU by setting the bit in the System Control Register.
        // We're also marking data and instructions as cachable.
        let translation = sctlr_m_enable();
        let data = sctlr_c_cacheable();
        let instructions = sctlr_i_cacheable();
        let control = register_modify(
            self.registers.sctlr_el1,
            combine(combine(translation, data), instructions),
        );
        proof {
            lemma_field_bits_well_formed(bitmask(1), 0, 1);
            lemma_field_bits_well_formed(bitmask(1), 2, 1);
            lemma_field_bits_well_formed(bitmask(1), 12, 1);
            lemma_plus_well_formed(translation, data);
            lemma_plus_well_formed(translation.plus(data), instructions);
            let before = self.registers.sctlr_el1;
            lemma_word_well_formed(translation.plus(data).plus(instructions), before);
            let (tm, dm, im) = (translation.mask, data.mask, instructions.mask);
            let (tv, dv, iv) = (translation.value, data.value, instructions.value);
            assert((before & !(tm | dm | im)) | (tv | dv | iv) == before | (1u64 << 12) | (1u64 << 2)
                | 1u64) by (bit_vector)
                requires
                    tm == 0x1u64 << 0,
                    tv == (1u64 & 0x1) << 0,
                    dm == 0x1u64 << 2,
                    dv == (1u64 & 0x1) << 2,
                    im == 0x1u64 << 12,
                    iv == (1u64 & 0x1) << 12,
            ;
            assert((before | (1u64 << 12) | (1u64 << 2) | 1u64) & 1 == 1) by (bit_vector);
        }
        self.registers.sctlr_el1 = control;
        self.operations.push(MmuOperation::WriteSctlrEl1(control));
        // Another instruction barrier, so that the MMU is active before further instructions are executed
        self.operations.push(MmuOperation::InstructionBarrier);
        proof {
            assert(final(self)@.operations =~= old(self)@.operations + seq![
                MmuOperation::WriteMairEl1(mair_el1_word()),
                MmuOperation::WriteTtbr0El1(old(self)@.table_base()),
                MmuOperation::WriteTcrEl1(tcr_el1_word(t0sz())),
                MmuOperation::InstructionBarrier,
                MmuOperation::WriteSctlrEl1(sctlr_el1_enabled(old(self)@.registers.sctlr_el1)),
                MmuOperation::InstructionBarrier,
            ]);
        }
        Ok(())
    }

    fn is_enabled(&self) -> (enabled: bool) {
        let enabled = register_matches_all(self.registers.sctlr_el1, sctlr_m_enable());
        proof {
            lemma_bitmasks();
            lemma_field_bits_well_formed(bitmask(1), 0, 1);
            let word = self.registers.sctlr_el1;
            lemma_word_well_formed(field_bits(bitmask(1), 0, 1), word);
            assert((word & (0x1u64 << 0) == (1u64 & 0x1) << 0) == (word & 1 == 1)) by (bit_vector);
        }
        enabled
    }
}

/// The memory management unit of a core whose system registers hold
/// `registers`, with the tables and the layout of the kernel. The unit has
/// done nothing yet.
pub fn mmu(
    registers: MmuRegisters,
    tables: KernelTranslationTable,
    layout: KernelVirtualMemoryLayout<3>,
) -> (unit: AArch64MemoryManagementUnit)
    requires
        tables.well_formed(),
    ensures
        unit.well_formed(),
        unit@.registers == registers,
        unit@.operations == Seq::<MmuOperation>::empty(),
        unit@.tables == tables,
        unit@.layout == layout,
{
    AArch64MemoryManagementUnit { registers, operations: Vec::new(), tables, layout }
}

} // verus!
