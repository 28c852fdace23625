//! The stage 1 translation tables of the kernel: one level 2 table whose
//! entries each point to a level 3 table of 64 KiB pages.

use crate::arch::memory::mair;
use crate::arch::memory::{lemma_granule_512mib, lemma_granule_64kib, Granule512MiB, Granule64KiB};
use crate::arch::registers::{
    combine, field_value, lemma_field_bits_well_formed, lemma_plus_well_formed,
    lemma_word_well_formed, register_write, FieldBits,
};
use crate::memory::{
    KernelVirtualMemoryLayout, MemoryAccess, MemoryAttributes, MemoryType, PhysicalAddress,
};
use vstd::prelude::*;

verus! {

// A table descriptor, as per ARMv8-A Architecture Reference Manual Figure D5-15.
/// Physical address of the next descriptor, bits [47:16].
pub const TABLE_NEXT_LEVEL_TABLE_ADDR_64KIB_SHIFT: usize = 16;

pub const TABLE_NEXT_LEVEL_TABLE_ADDR_64KIB_MASK: u64 = 0xffff_ffff;

pub const TABLE_TYPE_SHIFT: usize = 1;

pub const TABLE_TYPE_TABLE: u64 = 1;

pub const TABLE_VALID_SHIFT: usize = 0;

pub const TABLE_VALID_TRUE: u64 = 1;

// A level 3 page descriptor, as per ARMv8-A Architecture Reference Manual Figure D5-17.
/// Unprivileged execute-never.
pub const PAGE_UXN_SHIFT: usize = 54;

/// Privileged execute-never.
pub const PAGE_PXN_SHIFT: usize = 53;

/// Physical address of the page, bits [47:16].
pub const PAGE_OUTPUT_ADDR_64KIB_SHIFT: usize = 16;

pub const PAGE_OUTPUT_ADDR_64KIB_MASK: u64 = 0xffff_ffff;

/// Access flag.
pub const PAGE_AF_SHIFT: usize = 10;

/// Shareability field.
pub const PAGE_SH_SHIFT: usize = 8;

pub const PAGE_SH_MASK: u64 = 0b11;

pub const PAGE_SH_OUTER_SHAREABLE: u64 = 0b10;

pub const PAGE_SH_INNER_SHAREABLE: u64 = 0b11;

/// Access Permissions.
pub const PAGE_AP_SHIFT: usize = 6;

pub const PAGE_AP_MASK: u64 = 0b11;

pub const PAGE_AP_RW_EL1: u64 = 0b00;

pub const PAGE_AP_RO_EL1: u64 = 0b10;

/// Memory attributes index into the MAIR_EL1 register.
pub const PAGE_ATTR_INDX_SHIFT: usize = 2;

pub const PAGE_ATTR_INDX_MASK: u64 = 0b111;

pub const PAGE_TYPE_SHIFT: usize = 1;

pub const PAGE_TYPE_PAGE: u64 = 1;

pub const PAGE_VALID_SHIFT: usize = 0;

pub const PAGE_VALID_TRUE: u64 = 1;

/// The number of page descriptors in one level 3 table.
pub const PAGES_PER_TABLE: usize = 8192;

/// The word of a level 2 entry that points to the level 3 table at
/// `next_level_table_address`: valid, a table, and bits 47 to 16 of the
/// address in place.
pub open spec fn table_descriptor_word(next_level_table_address: u64) -> u64 {
    (((next_level_table_address >> 16) & 0xffff_ffff) << 16) | (1u64 << 1) | 1u64
}

/// The bits of a page descriptor that follow from the attributes of the
/// memory behind it.
pub open spec fn attribute_bits(attributes: MemoryAttributes) -> u64 {
    let (shareability, index) = match attributes.memory_type {
        MemoryType::Normal => (PAGE_SH_INNER_SHAREABLE, mair::NORMAL),
        MemoryType::Device => (PAGE_SH_OUTER_SHAREABLE, mair::DEVICE),
    };
    let permission = match attributes.access {
        MemoryAccess::ReadOnly => PAGE_AP_RO_EL1,
        MemoryAccess::ReadWrite => PAGE_AP_RW_EL1,
    };
    let privileged_execute_never: u64 = if attributes.executable {
        0
    } else {
        1
    };
    (1u64 << 54) | (privileged_execute_never << 53) | (shareability << 8) | (permission << 6) | (
    index << 2)
}

/// The bit positions that `attribute_bits` decides.
pub open spec fn attribute_mask() -> u64 {
    (1u64 << 54) | (1u64 << 53) | (0b11u64 << 8) | (0b11u64 << 6) | (0b111u64 << 2)
}

/// The word of a level 3 entry for the page at `output_address` with the
/// given attributes: valid, a page, already accessed, with bits 47 to 16 of
/// the address in place.
pub open spec fn page_descriptor_word(output_address: u64, attributes: MemoryAttributes) -> u64 {
    (((output_address >> 16) & 0xffff_ffff) << 16) | (1u64 << 10) | (1u64 << 1) | 1u64 | attribute_bits(
        attributes,
    )
}

/// The physical address that a descriptor's address field stands for.
pub open spec fn descriptor_address(word: u64) -> u64 {
    ((word >> 16) & 0xffff_ffff) << 16
}

/// A table descriptor for 64KiB granules.
#[derive(Copy, Clone, Debug, PartialEq, Eq)]
pub struct TableDescriptor {
    value: u64,
}

impl TableDescriptor {
    /// The descriptor's word, as the table walker reads it.
    pub closed spec fn view(&self) -> u64 {
        self.value
    }

    /// Creates a new zeroed instance.
    pub fn new_zeroed() -> (descriptor: Self)
        ensures
            descriptor@ == 0,
    {
        Self { value: 0 }
    }

    /// Create an instance pointing to the supplied address.
    pub fn from_next_level_table_address(next_level_table_address: PhysicalAddress) -> (descriptor:
        Self)
        ensures
            descriptor@ == table_descriptor_word(next_level_table_address.0),
    {
        proof {
            lemma_granule_64kib();
        }
        let shifted = next_level_table_address.0 >> Granule64KiB::shift();
        let address = field_value(
            TABLE_NEXT_LEVEL_TABLE_ADDR_64KIB_MASK,
            TABLE_NEXT_LEVEL_TABLE_ADDR_64KIB_SHIFT,
            shifted,
        );
        let kind = field_value(1, TABLE_TYPE_SHIFT, TABLE_TYPE_TABLE);
        let valid = field_value(1, TABLE_VALID_SHIFT, TABLE_VALID_TRUE);
        let fields = combine(combine(address, kind), valid);
        let value = register_write(0, fields);
        proof {
            lemma_field_bits_well_formed(0xffff_ffff, 16, shifted);
            lemma_field_bits_well_formed(1, 1, 1);
            lemma_field_bits_well_formed(1, 0, 1);
            lemma_plus_well_formed(address, kind);
            lemma_plus_well_formed(address.plus(kind), valid);
            lemma_word_well_formed(fields, 0);
            let input = next_level_table_address.0;
            let (a, k, v) = (address.value, kind.value, valid.value);
            assert(a | k | v == (((input >> 16) & 0xffff_ffff) << 16) | (1u64 << 1) | 1u64)
                by (bit_vector)
                requires
                    a == ((input >> 16) & 0xffff_ffff) << 16,
                    k == (1u64 & 1) << 1,
                    v == (1u64 & 1) << 0,
            ;
        }
        TableDescriptor { value }
    }

    /// The descriptor's word, as the table walker reads it.
    pub fn value(&self) -> (word: u64)
        ensures
            word == self@,
    {
        self.value
    }
}

/// A page descriptor for 64KiB granules.
#[derive(Copy, Clone, Debug, PartialEq, Eq)]
pub struct PageDescriptor {
    value: u64,
}

impl PageDescriptor {
    /// The descriptor's word, as the table walker reads it.
    pub closed spec fn view(&self) -> u64 {
        self.value
    }

    /// Create a new zeroed instance.
    pub fn new_zeroed() -> (descriptor: Self)
        ensures
            descriptor@ == 0,
    {
        Self { value: 0 }
    }

    /// Create an instance
    pub fn from_output_address(
        output_address: PhysicalAddress,
        attributes: &MemoryAttributes,
    ) -> (descriptor: Self)
        ensures
            descriptor@ == page_descriptor_word(output_address.0, *attributes),
    {
        proof {
            lemma_granule_64kib();
        }
        let shifted = output_address.0 >> Granule64KiB::shift();
        let address = field_value(
            PAGE_OUTPUT_ADDR_64KIB_MASK,
            PAGE_OUTPUT_ADDR_64KIB_SHIFT,
            shifted,
        );
        let accessed = field_value(1, PAGE_AF_SHIFT, 1);
        let kind = field_value(1, PAGE_TYPE_SHIFT, PAGE_TYPE_PAGE);
        let valid = field_value(1, PAGE_VALID_SHIFT, PAGE_VALID_TRUE);
        let described = FieldBits::from(attributes);
        let fields = combine(combine(combine(combine(address, accessed), kind), valid), described);
        let value = register_write(0, fields);
        proof {
            lemma_field_bits_well_formed(0xffff_ffff, 16, shifted);
            lemma_field_bits_well_formed(1, 10, 1);
            lemma_field_bits_well_formed(1, 1, 1);
            lemma_field_bits_well_formed(1, 0, 1);
            lemma_attribute_bits_in_mask(*attributes);
            lemma_plus_well_formed(address, accessed);
            lemma_plus_well_formed(address.plus(accessed), kind);
            lemma_plus_well_formed(address.plus(accessed).plus(kind), valid);
            lemma_plus_well_formed(address.plus(accessed).plus(kind).plus(valid), described);
            lemma_word_well_formed(fields, 0);
            let input = output_address.0;
            let (a, f, k, v) = (address.value, accessed.value, kind.value, valid.value);
            let bits = attribute_bits(*attributes);
            assert(a | f | k | v | bits == (((input >> 16) & 0xffff_ffff) << 16) | (1u64 << 10) | (
            1u64 << 1) | 1u64 | bits) by (bit_vector)
                requires
                    a == ((input >> 16) & 0xffff_ffff) << 16,
                    f == (1u64 & 1) << 10,
                    k == (1u64 & 1) << 1,
                    v == (1u64 & 1) << 0,
            ;
        }
        PageDescriptor { value }
    }

    /// The descriptor's word, as the table walker reads it.
    pub fn value(&self) -> (word: u64)
        ensures
            word == self@,
    {
        self.value
    }

    /// The physical address of the page that the descriptor points to.
    pub fn output_address(&self) -> (output_address: PhysicalAddress)
        ensures
            output_address.0 == descriptor_address(self@),
    {
        proof {
            lemma_granule_64kib();
        }
        let shift = Granule64KiB::shift();
        PhysicalAddress(((self.value >> shift) & PAGE_OUTPUT_ADDR_64KIB_MASK) << shift)
    }
}

/// No filled entry reads as unmapped: a page descriptor is valid and a page,
/// and a level 2 entry is valid and a table.
pub proof fn lemma_descriptors_are_valid(address: u64, attributes: MemoryAttributes)
    ensures
        page_descriptor_word(address, attributes) & 0b11 == 0b11,
        table_descriptor_word(address) & 0b11 == 0b11,
{
    let bits = attribute_bits(attributes);
    assert(((((address >> 16) & 0xffff_ffff) << 16) | (1u64 << 10) | (1u64 << 1) | 1u64 | bits)
        & 0b11 == 0b11) by (bit_vector);
    assert(((((address >> 16) & 0xffff_ffff) << 16) | (1u64 << 1) | 1u64) & 0b11 == 0b11)
        by (bit_vector);
}

/// Round trip: the address field of a page descriptor gives back the
/// physical address of the page, for every page that lies at a multiple of
/// the page granule within 48 bits of physical address.
pub proof fn lemma_output_address_round_trip(output_address: u64, attributes: MemoryAttributes)
    requires
        output_address % 0x1_0000 == 0,
        output_address < 0x1_0000_0000_0000,
    ensures
        descriptor_address(page_descriptor_word(output_address, attributes)) == output_address,
{
    let bits = attribute_bits(attributes);
    lemma_attribute_bits_in_mask(attributes);
    let word = page_descriptor_word(output_address, attributes);
    assert(((word >> 16) & 0xffff_ffff) << 16 == output_address) by (bit_vector)
        requires
            output_address % 0x1_0000 == 0,
            output_address < 0x1_0000_0000_0000,
            bits & !((1u64 << 54) | (1u64 << 53) | (0b11u64 << 8) | (0b11u64 << 6) | (0b111u64 << 2))
                == 0,
            word == (((output_address >> 16) & 0xffff_ffff) << 16) | (1u64 << 10) | (1u64 << 1)
                | 1u64 | bits,
    ;
}

/// Round trip: the address field of a level 2 entry gives back the physical
/// address of its level 3 table, for every table that lies at a multiple of
/// the page granule within 48 bits of physical address.
pub proof fn lemma_table_address_round_trip(next_level_table_address: u64)
    requires
        next_level_table_address % 0x1_0000 == 0,
        next_level_table_address < 0x1_0000_0000_0000,
    ensures
        descriptor_address(table_descriptor_word(next_level_table_address))
            == next_level_table_address,
{
    let word = table_descriptor_word(next_level_table_address);
    assert(((word >> 16) & 0xffff_ffff) << 16 == next_level_table_address) by (bit_vector)
        requires
            next_level_table_address % 0x1_0000 == 0,
            next_level_table_address < 0x1_0000_0000_0000,
            word == (((next_level_table_address >> 16) & 0xffff_ffff) << 16) | (1u64 << 1) | 1u64,
    ;
}

/// The attribute bits stay within the positions of their fields.
pub proof fn lemma_attribute_bits_in_mask(attributes: MemoryAttributes)
    ensures
        attribute_bits(attributes) & !attribute_mask() == 0,
{
    let bits = attribute_bits(attributes);
    let mask = attribute_mask();
    assert(forall|pxn: u64, sh: u64, ap: u64, index: u64|
        pxn <= 1 && sh <= 3 && ap <= 3 && index <= 7 ==> #[trigger] ((1u64 << 54) | (pxn << 53) | (sh
            << 8) | (ap << 6) | (index << 2)) & !((1u64 << 54) | (1u64 << 53) | (0b11u64 << 8) | (
        0b11u64 << 6) | (0b111u64 << 2)) == 0) by (bit_vector);
}

// Allows conversion from the generic MemoryAttributes struct into the fields of a page descriptor.
impl From<&MemoryAttributes> for FieldBits {
    fn from(attributes: &MemoryAttributes) -> (fields: FieldBits) {
        // Memory attributes.
        let (shareability, index) = match attributes.memory_type {
            MemoryType::Normal => (PAGE_SH_INNER_SHAREABLE, mair::NORMAL),
            MemoryType::Device => (PAGE_SH_OUTER_SHAREABLE, mair::DEVICE),
        };
        let shared = field_value(PAGE_SH_MASK, PAGE_SH_SHIFT, shareability);
        let indexed = field_value(PAGE_ATTR_INDX_MASK, PAGE_ATTR_INDX_SHIFT, index);
        // Access Permissions.
        let permission = match attributes.access {
            MemoryAccess::ReadOnly => PAGE_AP_RO_EL1,
            MemoryAccess::ReadWrite => PAGE_AP_RW_EL1,
        };
        let permitted = field_value(PAGE_AP_MASK, PAGE_AP_SHIFT, permission);
        // The execute-never attribute is mapped to PXN in AArch64.
        let never: u64 = if attributes.executable {
            0
        } else {
            1
        };
        let privileged = field_value(1, PAGE_PXN_SHIFT, never);
        // Always set unprivileged execute-never as long as userspace is not implemented yet.
        let unprivileged = field_value(1, PAGE_UXN_SHIFT, 1);
        let fields = combine(
            combine(combine(combine(shared, indexed), permitted), privileged),
            unprivileged,
        );
        proof {
            lemma_field_bits_well_formed(0b11, 8, shareability);
            lemma_field_bits_well_formed(0b111, 2, index);
            lemma_field_bits_well_formed(0b11, 6, permission);
            lemma_field_bits_well_formed(1, 53, never);
            lemma_field_bits_well_formed(1, 54, 1);
            lemma_plus_well_formed(shared, indexed);
            lemma_plus_well_formed(shared.plus(indexed), permitted);
            lemma_plus_well_formed(shared.plus(indexed).plus(permitted), privileged);
            lemma_plus_well_formed(
                shared.plus(indexed).plus(permitted).plus(privileged),
                unprivileged,
            );
            let (sm, im, pm, xm, um) = (
                shared.mask,
                indexed.mask,
                permitted.mask,
                privileged.mask,
                unprivileged.mask,
            );
            let (sv, iv, pv, xv, uv) = (
                shared.value,
                indexed.value,
                permitted.value,
                privileged.value,
                unprivileged.value,
            );
            assert(sm | im | pm | xm | um == (1u64 << 54) | (1u64 << 53) | (0b11u64 << 8) | (0b11u64
                << 6) | (0b111u64 << 2) && sv | iv | pv | xv | uv == (1u64 << 54) | (never << 53) | (
            shareability << 8) | (permission << 6) | (index << 2)) by (bit_vector)
                requires
                    never <= 1,
                    shareability <= 3,
                    permission <= 3,
                    index <= 7,
                    sm == 0b11u64 << 8,
                    sv == (shareability & 0b11) << 8,
                    im == 0b111u64 << 2,
                    iv == (index & 0b111) << 2,
                    pm == 0b11u64 << 6,
                    pv == (permission & 0b11) << 6,
                    xm == 1u64 << 53,
                    xv == (never & 1) << 53,
                    um == 1u64 << 54,
                    uv == (1u64 & 1) << 54,
            ;
        }
        fields
    }
}

impl vstd::std_specs::convert::FromSpecImpl<&MemoryAttributes> for FieldBits {
    open spec fn obeys_from_spec() -> bool {
        true
    }

    open spec fn from_spec(attributes: &MemoryAttributes) -> FieldBits {
        FieldBits { mask: attribute_mask(), value: attribute_bits(*attributes) }
    }
}

/// The place of a page descriptor among all of them: the level 3 tables
/// lie one after the other.
pub open spec fn flat_index(table: int, page: int) -> int {
    table * 8192 + page
}

/// The first virtual address that the page descriptor `page` of the level 3
/// table `table` translates.
pub open spec fn virtual_address(table: int, page: int) -> int {
    table * 0x2000_0000 + page * 0x1_0000
}

/// The word of the page descriptor `page` of the level 3 table `table` when
/// it is filled from `layout`: the descriptor of the physical address and the
/// attributes that `layout` gives to the descriptor's virtual address.
pub open spec fn layout_page_word<const NUM_SPECIAL_RANGES: usize>(
    layout: &KernelVirtualMemoryLayout<NUM_SPECIAL_RANGES>,
    table: int,
    page: int,
) -> u64 {
    let (output_address, attributes) = layout.resolve(virtual_address(table, page) as u64);
    page_descriptor_word(output_address as u64, attributes)
}

/// The page descriptor that holds `layout_page_word`.
spec fn layout_page<const NUM_SPECIAL_RANGES: usize>(
    layout: &KernelVirtualMemoryLayout<NUM_SPECIAL_RANGES>,
    table: int,
    page: int,
) -> PageDescriptor {
    PageDescriptor { value: layout_page_word::<NUM_SPECIAL_RANGES>(layout, table, page) }
}

/// The level 2 entry for the level 3 table `table` of tables that start at
/// `start`.
spec fn level_3_table(start: u64, table: int) -> TableDescriptor {
    TableDescriptor { value: table_descriptor_word((start + table * 0x1_0000) as u64) }
}

/// The number of level 2 entries that cover the kernel's address space.
pub const NUM_LVL2_TABLES: usize = 8;

/// The translation tables of the kernel.
pub type KernelTranslationTable = FixedSizeTranslationTable<NUM_LVL2_TABLES>;

/// Represents all the translation tables for the kernel.
pub struct FixedSizeTranslationTable<const NUM_TABLES: usize> {
    /// The level 3 tables (page descriptors), one after the other.
    lvl3: Vec<PageDescriptor>,
    /// The single level 2 table (table descriptors).
    lvl2: Vec<TableDescriptor>,
    /// The physical address of the first level 3 table. The level 2 table
    /// follows the last level 3 table.
    start: u64,
}

impl<const NUM_TABLES: usize> FixedSizeTranslationTable<NUM_TABLES> {
    /// The geometry that the tables are made for: at least one level 2 entry,
    /// no more than 48 bits of virtual address, in memory at a multiple of
    /// the page granule, and all of it within reach of the machine's
    /// integers.
    pub open spec fn fits(start: u64) -> bool {
        &&& 0 < NUM_TABLES <= 0x8_0000
        &&& NUM_TABLES * 8192 <= usize::MAX
        &&& start % 0x1_0000 == 0
        &&& start + NUM_TABLES * 0x1_0000 + NUM_TABLES * 8 <= u64::MAX
    }

    /// The tables are complete and lie where their geometry allows. This
    /// holds of every value that `new` has made.
    pub closed spec fn well_formed(&self) -> bool {
        &&& Self::fits(self.start)
        &&& self.lvl3@.len() == NUM_TABLES * 8192
        &&& self.lvl2@.len() == NUM_TABLES
    }

    /// The physical address of the first level 3 table.
    pub closed spec fn start(&self) -> u64 {
        self.start
    }

    /// The word of the page descriptor `page` of the level 3 table `table`.
    pub closed spec fn page_word(&self, table: int, page: int) -> u64 {
        self.lvl3@[flat_index(table, page)]@
    }

    /// The word of the entry `table` of the level 2 table.
    pub closed spec fn table_word(&self, table: int) -> u64 {
        self.lvl2@[table]@
    }

    /// The physical address of the level 3 table `table`.
    pub open spec fn table_address(&self, table: int) -> int {
        self.start() + table * 0x1_0000
    }

    /// What becomes of the tables `before` when they are filled from
    /// `layout`. Every page descriptor whose virtual address `layout` accepts
    /// holds what `layout` gives to that address; the others are as they
    /// were. A level 2 entry points to its level 3 table if the filling
    /// reached that table, which it does when `layout` accepts every
    /// address before the table's first; the others are as they were.
    pub open spec fn populated_from<const NUM_SPECIAL_RANGES: usize>(
        &self,
        before: &Self,
        layout: &KernelVirtualMemoryLayout<NUM_SPECIAL_RANGES>,
    ) -> bool {
        &&& self.well_formed()
        &&& self.start() == before.start()
        &&& forall|table: int, page: int|
            0 <= table < NUM_TABLES && 0 <= page < 8192 ==> #[trigger] self.page_word(table, page)
                == if virtual_address(table, page) <= layout.max_virtual_address() {
                layout_page_word::<NUM_SPECIAL_RANGES>(layout, table, page)
            } else {
                before.page_word(table, page)
            }
        &&& forall|table: int|
            0 <= table < NUM_TABLES ==> #[trigger] self.table_word(table) == if table == 0
                || virtual_address(table - 1, 8191) <= layout.max_virtual_address() {
                table_descriptor_word(before.table_address(table) as u64)
            } else {
                before.table_word(table)
            }
    }

    /// Round trip: in tables that were filled from `layout`, the address
    /// field of a page descriptor gives back the physical address that
    /// `layout` gives to the descriptor's virtual address, where that
    /// physical address is a multiple of the page granule within 48 bits.
    pub proof fn lemma_populated_page_round_trip<const NUM_SPECIAL_RANGES: usize>(
        &self,
        before: &Self,
        layout: &KernelVirtualMemoryLayout<NUM_SPECIAL_RANGES>,
        table: int,
        page: int,
    )
        requires
            self.populated_from(before, layout),
            0 <= table < NUM_TABLES,
            0 <= page < 8192,
            virtual_address(table, page) <= layout.max_virtual_address(),
            layout.resolve(virtual_address(table, page) as u64).0 % 0x1_0000 == 0,
            0 <= layout.resolve(virtual_address(table, page) as u64).0 < 0x1_0000_0000_0000,
        ensures
            descriptor_address(self.page_word(table, page)) == layout.resolve(
                virtual_address(table, page) as u64,
            ).0,
    {
        let (output_address, attributes) = layout.resolve(virtual_address(table, page) as u64);
        lemma_output_address_round_trip(output_address as u64, attributes);
    }

    /// The page descriptor `page` of the level 3 table `table`, if there is
    /// one.
    pub fn page_descriptor(&self, table: usize, page: usize) -> (descriptor: Option<PageDescriptor>)
        requires
            self.well_formed(),
        ensures
            descriptor is Some <==> table < NUM_TABLES && page < 8192,
            descriptor matches Some(found) ==> found@ == self.page_word(table as int, page as int),
    {
        if table < NUM_TABLES && page < PAGES_PER_TABLE {
            Some(self.lvl3[table * PAGES_PER_TABLE + page])
        } else {
            None
        }
    }

    /// The entry `table` of the level 2 table, if there is one.
    pub fn table_descriptor(&self, table: usize) -> (descriptor: Option<TableDescriptor>)
        requires
            self.well_formed(),
        ensures
            descriptor is Some <==> table < NUM_TABLES,
            descriptor matches Some(found) ==> found@ == self.table_word(table as int),
    {
        if table < NUM_TABLES {
            Some(self.lvl2[table])
        } else {
            None
        }
    }

    /// Create an instance whose first level 3 table lies at `start`.
    pub fn new(start: PhysicalAddress) -> (created: Self)
        requires
            Self::fits(start.0),
        ensures
            created.well_formed(),
            created.start() == start.0,
            forall|table: int, page: int|
                0 <= table < NUM_TABLES && 0 <= page < 8192 ==> #[trigger] created.page_word(table, page)
                    == 0,
            forall|table: int| 0 <= table < NUM_TABLES ==> #[trigger] created.table_word(table) == 0,
    {
        let mut lvl3: Vec<PageDescriptor> = Vec::new();
        let pages: usize = NUM_TABLES * PAGES_PER_TABLE;
        while lvl3.len() < pages
            invariant
                lvl3@.len() <= pages,
                forall|index: int| 0 <= index < lvl3@.len() ==> (#[trigger] lvl3@[index])@ == 0,
            decreases pages - lvl3@.len(),
        {
            lvl3.push(PageDescriptor::new_zeroed());
        }
        let mut lvl2: Vec<TableDescriptor> = Vec::new();
        while lvl2.len() < NUM_TABLES
            invariant
                lvl2@.len() <= NUM_TABLES,
                forall|index: int| 0 <= index < lvl2@.len() ==> (#[trigger] lvl2@[index])@ == 0,
            decreases NUM_TABLES - lvl2@.len(),
        {
            lvl2.push(TableDescriptor::new_zeroed());
        }
        Self { lvl3, lvl2, start: start.0 }
    }

    /// Iterates over all static translation table entries and fills them at once.
    ///
    /// Every page descriptor is filled with what `layout` gives to its
    /// virtual address, in rising order of the addresses. The first address
    /// that `layout` refuses ends the work: what lies before it is filled,
    /// the rest is left as it was.
    pub fn populate_tt_entries<const NUM_SPECIAL_RANGES: usize>(
        &mut self,
        layout: &KernelVirtualMemoryLayout<NUM_SPECIAL_RANGES>,
    ) -> (populated: Result<(), &'static str>)
        requires
            old(self).well_formed(),
        ensures
            final(self).populated_from(old(self), layout),
            populated is Ok <==> virtual_address(NUM_TABLES - 1, 8191)
                <= layout.max_virtual_address(),
            populated matches Err(message) ==> message@ == "Address out of range"@,
    {
        proof {
            lemma_granule_512mib();
            lemma_granule_64kib();
        }
        let ghost before_pages = self.lvl3@;
        let ghost before_tables = self.lvl2@;
        let ghost max = layout.max_virtual_address();
        let coarse_shift = Granule512MiB::shift();
        let fine_shift = Granule64KiB::shift();
        let mut l2_nr: usize = 0;
        while l2_nr < NUM_TABLES
            invariant
                l2_nr <= NUM_TABLES,
                coarse_shift == 29,
                fine_shift == 16,
                max == layout.max_virtual_address(),
                self.start == old(self).start,
                Self::fits(self.start),
                self.lvl3@.len() == NUM_TABLES * 8192,
                self.lvl2@.len() == NUM_TABLES,
                before_pages == old(self).lvl3@,
                before_tables == old(self).lvl2@,
                l2_nr > 0 ==> virtual_address(l2_nr - 1, 8191) <= max,
                forall|table: int, page: int|
                    #![trigger flat_index(table, page)]
                    0 <= table < NUM_TABLES && 0 <= page < 8192 ==> self.lvl3@[flat_index(
                        table,
                        page,
                    )] == if table < l2_nr {
                        layout_page::<NUM_SPECIAL_RANGES>(layout, table, page)
                    } else {
                        before_pages[flat_index(table, page)]
                    },
                forall|table: int|
                    0 <= table < NUM_TABLES ==> #[trigger] self.lvl2@[table] == if table < l2_nr {
                        level_3_table(self.start, table)
                    } else {
                        before_tables[table]
                    },
            decreases NUM_TABLES - l2_nr,
        {
            let table_nr = l2_nr as u64;
            let table_address = self.start + table_nr * 0x1_0000;
            self.lvl2.set(
                l2_nr,
                TableDescriptor::from_next_level_table_address(PhysicalAddress(table_address)),
            );
            let mut l3_nr: usize = 0;
            while l3_nr < PAGES_PER_TABLE
                invariant
                    l2_nr < NUM_TABLES,
                    l3_nr <= 8192,
                    table_nr == l2_nr,
                    coarse_shift == 29,
                    fine_shift == 16,
                    max == layout.max_virtual_address(),
                    self.start == old(self).start,
                    Self::fits(self.start),
                    self.lvl3@.len() == NUM_TABLES * 8192,
                    self.lvl2@.len() == NUM_TABLES,
                    before_pages == old(self).lvl3@,
                    before_tables == old(self).lvl2@,
                    l2_nr > 0 ==> virtual_address(l2_nr - 1, 8191) <= max,
                    l3_nr > 0 ==> virtual_address(l2_nr as int, l3_nr - 1) <= max,
                    forall|table: int, page: int|
                        #![trigger flat_index(table, page)]
                        0 <= table < NUM_TABLES && 0 <= page < 8192 ==> self.lvl3@[flat_index(
                            table,
                            page,
                        )] == if table < l2_nr || (table == l2_nr && page < l3_nr) {
                            layout_page::<NUM_SPECIAL_RANGES>(layout, table, page)
                        } else {
                            before_pages[flat_index(table, page)]
                        },
                    forall|table: int|
                        0 <= table < NUM_TABLES ==> #[trigger] self.lvl2@[table] == if table
                            <= l2_nr {
                            level_3_table(self.start, table)
                        } else {
                            before_tables[table]
                        },
                decreases 8192 - l3_nr,
            {
                let page_nr = l3_nr as u64;
                proof {
                    assert(table_nr < 0x8_0000 && page_nr < 8192 ==> (table_nr << 29) == table_nr
                        * 0x2000_0000 && (page_nr << 16) == page_nr * 0x1_0000) by (bit_vector);
                }
                let virt_addr = (table_nr << coarse_shift) + (page_nr << fine_shift);
                match layout.virt_addr_properties(virt_addr) {
                    Ok((phys_output_addr, attribute_fields)) => {
                        let ghost pages = self.lvl3@;
                        self.lvl3.set(
                            l2_nr * PAGES_PER_TABLE + l3_nr,
                            PageDescriptor::from_output_address(phys_output_addr, &attribute_fields),
                        );
                        assert forall|table: int, page: int|
                            #![trigger flat_index(table, page)]
                            0 <= table < NUM_TABLES && 0 <= page < 8192 implies self.lvl3@[flat_index(
                                table,
                                page,
                            )] == if table < l2_nr || (table == l2_nr && page < l3_nr + 1) {
                                layout_page::<NUM_SPECIAL_RANGES>(layout, table, page)
                            } else {
                                before_pages[flat_index(table, page)]
                            } by {
                            assert(pages[flat_index(table, page)] == if table < l2_nr || (table
                                == l2_nr && page < l3_nr) {
                                layout_page::<NUM_SPECIAL_RANGES>(layout, table, page)
                            } else {
                                before_pages[flat_index(table, page)]
                            });
                        }
                    },
                    Err(message) => {
                        return Err(message);
                    },
                }
                l3_nr = l3_nr + 1;
            }
            l2_nr = l2_nr + 1;
        }
        Ok(())
    }

    /// The translation table's base address to be used for programming the MMU.
    pub fn base_address(&self) -> (base: PhysicalAddress)
        requires
            self.well_formed(),
        ensures
            base.0 == self.table_address(NUM_TABLES as int),
    {
        PhysicalAddress(self.start + (NUM_TABLES as u64) * 0x1_0000)
    }
}

} // verus!
