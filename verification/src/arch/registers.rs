//! Bit fields of 64-bit registers.
//!
//! The arithmetic on fields is done by `tock_registers`, and the layout of the
//! system registers comes from `aarch64_cpu`. Both are reached through the
//! trusted functions of this module, which take and hand out plain masks and
//! values. Nothing here touches the processor: a register is a `u64`.

use aarch64_cpu::registers::{CurrentEL, ID_AA64MMFR0_EL1, MAIR_EL1, SCTLR_EL1, TCR_EL1, TTBR0_EL1};
use tock_registers::fields::FieldValue;
use tock_registers::interfaces::{ReadWriteable, Readable, Writeable};
use tock_registers::registers::InMemoryRegister;
use vstd::prelude::*;

verus! {

/// A value for one or more bit fields of a 64-bit register: `mask` covers the
/// bit positions of the fields, `value` holds what is to stand there.
#[derive(Clone, Copy, Debug)]
pub struct FieldBits {
    pub mask: u64,
    pub value: u64,
}

impl FieldBits {
    /// Both values together: the union of the masks and of the values, each
    /// value counted with the bits that its own mask covers.
    pub open spec fn plus(self, other: FieldBits) -> FieldBits {
        FieldBits {
            mask: self.mask | other.mask,
            value: (self.value & self.mask) | (other.value & other.mask),
        }
    }

    /// Whether the value stays within the bit positions of the mask.
    pub open spec fn well_formed(self) -> bool {
        self.value & !self.mask == 0
    }

    /// The register that holds this value and nothing else.
    pub open spec fn word(self) -> u64 {
        self.value & self.mask
    }

    /// What becomes of the register `word` when the bits under the mask are
    /// replaced by this value.
    pub open spec fn replace_in(self, word: u64) -> u64 {
        (word & !self.mask) | (self.value & self.mask)
    }

    /// Whether the register `word` holds this value under the mask.
    pub open spec fn matches(self, word: u64) -> bool {
        word & self.mask == self.value & self.mask
    }
}

/// The mask with the lowest `numbits` bits set, for fewer than 64 bits.
pub open spec fn bitmask(numbits: u64) -> u64 {
    ((1u64 << numbits) - 1) as u64
}

/// The masks of the widths that the kernel's registers use.
pub proof fn lemma_bitmasks()
    ensures
        bitmask(1) == 0x1,
        bitmask(2) == 0x3,
        bitmask(3) == 0x7,
        bitmask(4) == 0xf,
        bitmask(6) == 0x3f,
        bitmask(8) == 0xff,
        bitmask(47) == 0x7fff_ffff_ffff,
{
    assert(1u64 << 1 == 0x2 && 1u64 << 2 == 0x4 && 1u64 << 3 == 0x8 && 1u64 << 4 == 0x10 && 1u64
        << 6 == 0x40 && 1u64 << 8 == 0x100 && 1u64 << 47 == 0x8000_0000_0000) by (bit_vector);
}

/// The field whose lowest bit is bit `shift` and whose width is that of
/// `mask`, holding `value` cut to that width.
pub open spec fn field_bits(mask: u64, shift: u64, value: u64) -> FieldBits {
    FieldBits { mask: mask << shift, value: (value & mask) << shift }
}

/// A field's value stays within the field.
pub proof fn lemma_field_bits_well_formed(mask: u64, shift: u64, value: u64)
    requires
        shift < 64,
    ensures
        field_bits(mask, shift, value).well_formed(),
{
    assert(shift < 64 ==> ((value & mask) << shift) & !(mask << shift) == 0) by (bit_vector);
}

/// Two values that stay within their fields give, together, the union of
/// their bits, which stays within the union of their fields.
pub proof fn lemma_plus_well_formed(a: FieldBits, b: FieldBits)
    requires
        a.well_formed(),
        b.well_formed(),
    ensures
        a.plus(b).well_formed(),
        a.plus(b).mask == a.mask | b.mask,
        a.plus(b).value == a.value | b.value,
{
    let (am, av, bm, bv) = (a.mask, a.value, b.mask, b.value);
    assert(av & !am == 0 && bv & !bm == 0 ==> (av & am) | (bv & bm) == av | bv && (av | bv) & !(am
        | bm) == 0) by (bit_vector);
}

/// A value that stays within its field is written, replaced and matched as
/// it is.
pub proof fn lemma_word_well_formed(field: FieldBits, word: u64)
    requires
        field.well_formed(),
    ensures
        field.word() == field.value,
        field.replace_in(word) == (word & !field.mask) | field.value,
        field.matches(word) == (word & field.mask == field.value),
{
    let (mask, value) = (field.mask, field.value);
    assert(value & !mask == 0 ==> value & mask == value) by (bit_vector);
}

/// `FieldValue::<u64, _>::new` of `tock_registers`: the mask moved up to the
/// field's position, and the value cut to the mask and moved up likewise.
#[verifier::external_body]
pub(crate) fn field_value(mask: u64, shift: usize, value: u64) -> (field: FieldBits)
    requires
        shift < 64,
    ensures
        field == field_bits(mask, shift as u64, value),
{
    let field = FieldValue::<u64, ()>::new(mask, shift, value);
    FieldBits { mask: field.mask(), value: field.value }
}

/// `+` on two `FieldValue`s of `tock_registers`: the union of the masks and
/// of the values. Each operand counts with the bits that its own mask covers.
#[verifier::external_body]
pub(crate) fn combine(a: FieldBits, b: FieldBits) -> (sum: FieldBits)
    ensures
        sum == a.plus(b),
{
    let sum = FieldValue::<u64, ()>::new(a.mask, 0, a.value)
        + FieldValue::<u64, ()>::new(b.mask, 0, b.value);
    FieldBits { mask: sum.mask(), value: sum.value }
}

/// `Writeable::write` of `tock_registers` on an in-memory register, read back
/// with `Readable::get`: the register holds the field's value and nothing
/// else, whatever it held before.
#[verifier::external_body]
pub(crate) fn register_write(word: u64, field: FieldBits) -> (written: u64)
    ensures
        written == field.word(),
{
    let register = InMemoryRegister::<u64, ()>::new(word);
    register.write(FieldValue::<u64, ()>::new(field.mask, 0, field.value));
    register.get()
}

/// `ReadWriteable::modify` of `tock_registers` on an in-memory register, read
/// back with `Readable::get`: the bits under the mask are replaced, the
/// others stay.
#[verifier::external_body]
pub(crate) fn register_modify(word: u64, field: FieldBits) -> (modified: u64)
    ensures
        modified == field.replace_in(word),
{
    let register = InMemoryRegister::<u64, ()>::new(word);
    register.modify(FieldValue::<u64, ()>::new(field.mask, 0, field.value));
    register.get()
}

/// `Readable::matches_all` of `tock_registers` on an in-memory register:
/// whether the bits under the mask are exactly those of the field.
#[verifier::external_body]
pub(crate) fn register_matches_all(word: u64, field: FieldBits) -> (matches: bool)
    ensures
        matches == field.matches(word),
{
    let register = InMemoryRegister::<u64, ()>::new(word);
    register.matches_all(FieldValue::<u64, ()>::new(field.mask, 0, field.value))
}

/// `Field::read_as_enum` of `tock_registers` on `CurrentEL::EL` of
/// `aarch64_cpu`: the two bits from bit 2 on, as a number. Each of their four
/// values has a name, so there is always one.
#[verifier::external_body]
pub(crate) fn current_el(word: u64) -> (level: Option<u64>)
    ensures
        level == Some((word & (bitmask(2) << 2)) >> 2),
{
    match CurrentEL::EL.read_as_enum(word) {
        Some(CurrentEL::EL::Value::EL0) => Some(0),
        Some(CurrentEL::EL::Value::EL1) => Some(1),
        Some(CurrentEL::EL::Value::EL2) => Some(2),
        Some(CurrentEL::EL::Value::EL3) => Some(3),
        None => None,
    }
}

/// `MAIR_EL1::Attr1_Normal_Outer::WriteBack_NonTransient_ReadWriteAlloc` of
/// `aarch64_cpu`: four bits from bit 12 on, all set.
#[verifier::external_body]
pub(crate) fn mair_attr1_normal_outer_write_back() -> (field: FieldBits)
    ensures
        field == field_bits(bitmask(4), 12, 0b1111),
{
    let field = MAIR_EL1::Attr1_Normal_Outer::WriteBack_NonTransient_ReadWriteAlloc;
    FieldBits { mask: field.mask(), value: field.value }
}

/// `MAIR_EL1::Attr1_Normal_Inner::WriteBack_NonTransient_ReadWriteAlloc` of
/// `aarch64_cpu`: four bits from bit 8 on, all set.
#[verifier::external_body]
pub(crate) fn mair_attr1_normal_inner_write_back() -> (field: FieldBits)
    ensures
        field == field_bits(bitmask(4), 8, 0b1111),
{
    let field = MAIR_EL1::Attr1_Normal_Inner::WriteBack_NonTransient_ReadWriteAlloc;
    FieldBits { mask: field.mask(), value: field.value }
}

/// `MAIR_EL1::Attr0_Device::nonGathering_nonReordering_EarlyWriteAck` of
/// `aarch64_cpu`: eight bits from bit 0 on, holding `0b0000_0100`.
#[verifier::external_body]
pub(crate) fn mair_attr0_device_ngnre() -> (field: FieldBits)
    ensures
        field == field_bits(bitmask(8), 0, 0b0000_0100),
{
    let field = MAIR_EL1::Attr0_Device::nonGathering_nonReordering_EarlyWriteAck;
    FieldBits { mask: field.mask(), value: field.value }
}

/// `TCR_EL1::TBI0::Ignored` of `aarch64_cpu`: bit 37, set.
#[verifier::external_body]
pub(crate) fn tcr_tbi0_ignored() -> (field: FieldBits)
    ensures
        field == field_bits(bitmask(1), 37, 1),
{
    let field = TCR_EL1::TBI0::Ignored;
    FieldBits { mask: field.mask(), value: field.value }
}

/// `TCR_EL1::IPS::Bits_40` of `aarch64_cpu`: three bits from bit 32 on,
/// holding `0b010`.
#[verifier::external_body]
pub(crate) fn tcr_ips_bits_40() -> (field: FieldBits)
    ensures
        field == field_bits(bitmask(3), 32, 0b010),
{
    let field = TCR_EL1::IPS::Bits_40;
    FieldBits { mask: field.mask(), value: field.value }
}

/// `TCR_EL1::TG0::KiB_64` of `aarch64_cpu`: two bits from bit 14 on, holding
/// `0b01`.
#[verifier::external_body]
pub(crate) fn tcr_tg0_kib_64() -> (field: FieldBits)
    ensures
        field == field_bits(bitmask(2), 14, 0b01),
{
    let field = TCR_EL1::TG0::KiB_64;
    FieldBits { mask: field.mask(), value: field.value }
}

/// `TCR_EL1::SH0::Inner` of `aarch64_cpu`: two bits from bit 12 on, holding
/// `0b11`.
#[verifier::external_body]
pub(crate) fn tcr_sh0_inner() -> (field: FieldBits)
    ensures
        field == field_bits(bitmask(2), 12, 0b11),
{
    let field = TCR_EL1::SH0::Inner;
    FieldBits { mask: field.mask(), value: field.value }
}

/// `TCR_EL1::ORGN0::WriteBack_ReadAlloc_WriteAlloc_Cacheable` of
/// `aarch64_cpu`: two bits from bit 10 on, holding `0b01`.
#[verifier::external_body]
pub(crate) fn tcr_orgn0_write_back() -> (field: FieldBits)
    ensures
        field == field_bits(bitmask(2), 10, 0b01),
{
    let field = TCR_EL1::ORGN0::WriteBack_ReadAlloc_WriteAlloc_Cacheable;
    FieldBits { mask: field.mask(), value: field.value }
}

/// `TCR_EL1::IRGN0::WriteBack_ReadAlloc_WriteAlloc_Cacheable` of
/// `aarch64_cpu`: two bits from bit 8 on, holding `0b01`.
#[verifier::external_body]
pub(crate) fn tcr_irgn0_write_back() -> (field: FieldBits)
    ensures
        field == field_bits(bitmask(2), 8, 0b01),
{
    let field = TCR_EL1::IRGN0::WriteBack_ReadAlloc_WriteAlloc_Cacheable;
    FieldBits { mask: field.mask(), value: field.value }
}

/// `TCR_EL1::EPD0::EnableTTBR0Walks` of `aarch64_cpu`: bit 7, clear.
#[verifier::external_body]
pub(crate) fn tcr_epd0_enable_walks() -> (field: FieldBits)
    ensures
        field == field_bits(bitmask(1), 7, 0),
{
    let field = TCR_EL1::EPD0::EnableTTBR0Walks;
    FieldBits { mask: field.mask(), value: field.value }
}

/// `TCR_EL1::A1::TTBR0` of `aarch64_cpu`: bit 22, clear.
#[verifier::external_body]
pub(crate) fn tcr_a1_ttbr0() -> (field: FieldBits)
    ensures
        field == field_bits(bitmask(1), 22, 0),
{
    let field = TCR_EL1::A1::TTBR0;
    FieldBits { mask: field.mask(), value: field.value }
}

/// `TCR_EL1::T0SZ.val(..)` of `aarch64_cpu`: six bits from bit 0 on, holding
/// the lowest six bits of `t0sz`.
#[verifier::external_body]
pub(crate) fn tcr_t0sz(t0sz: u64) -> (field: FieldBits)
    ensures
        field == field_bits(bitmask(6), 0, t0sz),
{
    let field = TCR_EL1::T0SZ.val(t0sz);
    FieldBits { mask: field.mask(), value: field.value }
}

/// `TCR_EL1::EPD1::DisableTTBR1Walks` of `aarch64_cpu`: bit 23, set.
#[verifier::external_body]
pub(crate) fn tcr_epd1_disable_walks() -> (field: FieldBits)
    ensures
        field == field_bits(bitmask(1), 23, 1),
{
    let field = TCR_EL1::EPD1::DisableTTBR1Walks;
    FieldBits { mask: field.mask(), value: field.value }
}

/// `TTBR0_EL1::BADDR.val(..)` of `aarch64_cpu`: 47 bits from bit 1 on, holding
/// the lowest 47 bits of `value`.
#[verifier::external_body]
pub(crate) fn ttbr0_baddr(value: u64) -> (field: FieldBits)
    ensures
        field == field_bits(bitmask(47), 1, value),
{
    let field = TTBR0_EL1::BADDR.val(value);
    FieldBits { mask: field.mask(), value: field.value }
}

/// `SCTLR_EL1::M::Enable` of `aarch64_cpu`: bit 0, set.
#[verifier::external_body]
pub(crate) fn sctlr_m_enable() -> (field: FieldBits)
    ensures
        field == field_bits(bitmask(1), 0, 1),
{
    let field = SCTLR_EL1::M::Enable;
    FieldBits { mask: field.mask(), value: field.value }
}

/// `SCTLR_EL1::C::Cacheable` of `aarch64_cpu`: bit 2, set.
#[verifier::external_body]
pub(crate) fn sctlr_c_cacheable() -> (field: FieldBits)
    ensures
        field == field_bits(bitmask(1), 2, 1),
{
    let field = SCTLR_EL1::C::Cacheable;
    FieldBits { mask: field.mask(), value: field.value }
}

/// `SCTLR_EL1::I::Cacheable` of `aarch64_cpu`: bit 12, set.
#[verifier::external_body]
pub(crate) fn sctlr_i_cacheable() -> (field: FieldBits)
    ensures
        field == field_bits(bitmask(1), 12, 1),
{
    let field = SCTLR_EL1::I::Cacheable;
    FieldBits { mask: field.mask(), value: field.value }
}

/// `ID_AA64MMFR0_EL1::TGran64::Supported` of `aarch64_cpu`: four bits from
/// bit 24 on, all clear.
#[verifier::external_body]
pub(crate) fn id_aa64mmfr0_tgran64_supported() -> (field: FieldBits)
    ensures
        field == field_bits(bitmask(4), 24, 0b0000),
{
    let field = ID_AA64MMFR0_EL1::TGran64::Supported;
    FieldBits { mask: field.mask(), value: field.value }
}

} // verus!
