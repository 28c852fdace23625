//! The architecture-independent description of memory: addresses, the
//! geometry of granules and address spaces, and the kernel's virtual memory
//! layout.

use crate::utils::{
    append_decimal, append_hexadecimal, append_left_aligned, append_right_aligned, decimal,
    hexadecimal, human_readable_ceil, pad_left, pad_right, size_human_readable_ceil,
};
use vstd::arithmetic::power2::{is_pow2, pow2};
use vstd::prelude::*;

verus! {

/// An address as the memory system sees it.
#[derive(Clone, Copy, Debug, PartialEq, Eq, Structural)]
pub struct PhysicalAddress(pub u64);

/// An address as the running code sees it.
#[derive(Clone, Copy, Debug, PartialEq, Eq, Structural)]
pub struct VirtualAddress(pub u64);

/// Why the memory management unit could not be enabled.
#[derive(Clone, Copy, Debug, PartialEq, Eq)]
pub enum EnableError {
    AlreadyEnabled,
    UnsupportedGranule,
    Other(&'static str),
}

impl EnableError {
    /// The error in words.
    pub open spec fn message(self) -> Seq<char> {
        match self {
            EnableError::AlreadyEnabled => "MMU is already enabled"@,
            EnableError::UnsupportedGranule => "MMU does not support translation granule"@,
            EnableError::Other(reason) => reason@,
        }
    }

    /// The error in words.
    pub fn to_string(&self) -> (text: String)
        ensures
            text@ == self.message(),
    {
        match self {
            EnableError::AlreadyEnabled => String::from_str("MMU is already enabled"),
            EnableError::UnsupportedGranule => String::from_str(
                "MMU does not support translation granule",
            ),
            EnableError::Other(reason) => String::from_str(reason),
        }
    }
}

/// What every architecture's memory management unit offers to the kernel.
pub trait MemoryManagementUnit: Sized {
    /// Whether the unit is in a state in which it can be driven.
    spec fn well_formed(&self) -> bool;

    /// Whether the unit translates addresses.
    spec fn enabled(&self) -> bool;

    /// Called during kernel initialization to initialize the Memory Management Unit
    ///
    /// Changes the state of the whole machine: it is to be called once, and
    /// at the appropriate time. A unit that translates already refuses, and
    /// stays as it is. A call that fails leaves translation off.
    fn enable(&mut self) -> (enabled: Result<(), EnableError>)
        requires
            old(self).well_formed(),
        ensures
            final(self).well_formed(),
            enabled is Ok ==> !old(self).enabled() && final(self).enabled(),
            enabled is Err ==> final(self).enabled() == old(self).enabled(),
            old(self).enabled() <==> enabled == Err::<(), _>(EnableError::AlreadyEnabled),
            old(self).enabled() ==> *final(self) == *old(self),
    ;

    /// Indicates if the MMU is enabled
    fn is_enabled(&self) -> (enabled: bool)
        ensures
            enabled == self.enabled(),
    ;
}

/// The number of times `n` can be halved before it reaches one: the base-two
/// logarithm of a power of two.
pub open spec fn log2(n: int) -> nat
    decreases n,
{
    if n <= 1 {
        0
    } else {
        1 + log2(n / 2)
    }
}

/// A power of two is two to the power of its logarithm.
pub proof fn lemma_pow2_log2(n: int)
    requires
        is_pow2(n),
    ensures
        pow2(log2(n)) == n,
    decreases n,
{
    reveal(is_pow2);
    vstd::arithmetic::power2::lemma2_to64();
    if n > 1 {
        lemma_pow2_log2(n / 2);
        vstd::arithmetic::power2::lemma_pow2_unfold(log2(n));
    }
}

/// Computes the base-two logarithm of a power of two.
fn log2_of(size: u64) -> (shift: usize)
    requires
        is_pow2(size as int),
    ensures
        shift == log2(size as int),
        shift < 64,
        size == 1u64 << (shift as u64),
{
    let mut rest: u64 = size;
    let mut shift: usize = 0;
    proof {
        reveal(is_pow2);
        assert(size == size << 0u64) by (bit_vector);
    }
    while rest > 1
        invariant
            is_pow2(rest as int),
            log2(size as int) == shift + log2(rest as int),
            shift < 64,
            size == rest << (shift as u64),
        decreases rest,
    {
        proof {
            reveal(is_pow2);
            let s = shift as u64;
            assert(rest % 2 == 0 && s < 64 && size != 0 && size == rest << s ==> s < 63 && size == (
            rest / 2) << ((s + 1) as u64)) by (bit_vector);
        }
        rest = rest / 2;
        shift = shift + 1;
    }
    proof {
        reveal(is_pow2);
    }
    shift
}

/// Describes the characteristics of a translation granule.
pub struct TranslationGranule<const GRANULE_SIZE: u64>;

impl<const GRANULE_SIZE: u64> TranslationGranule<GRANULE_SIZE> {
    /// A granule's size is a power of two.
    pub open spec fn valid() -> bool {
        is_pow2(GRANULE_SIZE as int)
    }

    /// The size of the translation granule, in bytes.
    pub fn size_checked() -> (size: u64)
        requires
            Self::valid(),
        ensures
            size == GRANULE_SIZE,
    {
        GRANULE_SIZE
    }

    /// The granule's shift, given by log2(size).
    pub fn shift() -> (shift: usize)
        requires
            Self::valid(),
        ensures
            shift == log2(GRANULE_SIZE as int),
            shift < 64,
            GRANULE_SIZE == 1u64 << (shift as u64),
    {
        log2_of(GRANULE_SIZE)
    }
}

/// Describes the characteristics of an address space.
pub struct AddressSpace<const AS_SIZE: u64>;

impl<const AS_SIZE: u64> AddressSpace<AS_SIZE> {
    /// An address space's size is a power of two that the architecture can
    /// cover with its tables.
    pub open spec fn valid() -> bool {
        is_pow2(AS_SIZE as int) && Self::arch_valid()
    }

    /// The size of the address space, in bytes.
    pub fn size_checked() -> (size: u64)
        requires
            Self::valid(),
        ensures
            size == AS_SIZE,
    {
        AS_SIZE
    }

    /// The address space's shift, given by log2(size).
    pub fn shift() -> (shift: usize)
        requires
            Self::valid(),
        ensures
            shift == log2(AS_SIZE as int),
            shift < 64,
            AS_SIZE == 1u64 << (shift as u64),
    {
        log2_of(AS_SIZE)
    }
}

/// Translation types
#[derive(Clone, Copy, Debug, PartialEq, Eq, Structural)]
pub enum Translation {
    /// Virtual Addresses map directly to Physical Addresses
    Identity,
    /// Virtual Addresses are offset by the provided amount to get the Physical Address
    Offset(u64),
}

/// Identifies the type of a region of memory.
#[derive(Clone, Copy, Debug, PartialEq, Eq, Structural)]
pub enum MemoryType {
    /// The memory is standard RAM, eligible for storing arbitrary data and code.
    Normal,
    /// The memory is mapped to a device, and is used for communicating with the device.
    Device,
}

/// Identifies the access permissions of a region of memory.
#[derive(Clone, Copy, Debug, PartialEq, Eq, Structural)]
pub enum MemoryAccess {
    /// The region can only be read.
    ReadOnly,
    /// The region can be read and written to.
    ReadWrite,
}

/// The attributes associated with a memory region.
#[derive(Clone, Copy, Debug, PartialEq, Eq, Structural)]
pub struct MemoryAttributes {
    /// The type of memory identified by this region.
    pub memory_type: MemoryType,
    /// The access permissions of this region.
    pub access: MemoryAccess,
    /// If set, memory in this region can be executed.
    pub executable: bool,
}

impl MemoryAttributes {
    /// What holds of memory that no region describes: ordinary RAM, which
    /// can be read and written and holds no code.
    pub open spec fn ordinary() -> MemoryAttributes {
        MemoryAttributes {
            memory_type: MemoryType::Normal,
            access: MemoryAccess::ReadWrite,
            executable: false,
        }
    }
}

impl Default for MemoryAttributes {
    fn default() -> (attributes: MemoryAttributes)
        ensures
            attributes == MemoryAttributes::ordinary(),
    {
        MemoryAttributes {
            memory_type: MemoryType::Normal,
            access: MemoryAccess::ReadWrite,
            executable: false,
        }
    }
}

/// An address as the report of a layout shows it: `0x`, and at least eight
/// digits in base sixteen.
pub open spec fn address_text(address: u64) -> Seq<char> {
    "0x"@ + pad_left(hexadecimal(address as nat), 8, '0')
}

/// The line that shows a region in the report of a layout. It starts with
/// six spaces. Then come the first and the last address; the size
/// right-aligned in three columns, and the unit; the mark of the type
/// left-aligned in three columns, the mark of the access permission, and the
/// mark of the execution permission left-aligned in three columns; and the
/// name. Bars part the four groups.
pub open spec fn region_line(
    start: u64,
    end: u64,
    size: u64,
    unit: Seq<char>,
    attr: Seq<char>,
    acc_p: Seq<char>,
    xn: Seq<char>,
    name: Seq<char>,
) -> Seq<char> {
    "      "@ + address_text(start) + " - "@ + address_text(end) + " | "@ + pad_left(
        decimal(size as nat),
        3,
        ' ',
    ) + " "@ + unit + " | "@ + pad_right(attr, 3, ' ') + " "@ + acc_p + " "@ + pad_right(xn, 3, ' ')
        + " | "@ + name
}

/// Writes `address` behind `text`, as the report of a layout shows it.
fn append_address(text: &mut String, address: u64)
    ensures
        final(text)@ == old(text)@ + address_text(address),
{
    proof {
        reveal_strlit("0");
        reveal_strlit("");
    }
    let mut digits = String::from_str("");
    append_hexadecimal(&mut digits, address);
    assert(digits@ =~= hexadecimal(address as nat));
    text.append("0x");
    append_right_aligned(text, digits.as_str(), 8, "0");
    assert(text@ =~= old(text)@ + address_text(address));
}

/// Describes the virtual address translation of a region of memory.
#[derive(Clone, Copy, Debug)]
pub struct TranslationDescriptor {
    /// The name of the region
    pub name: &'static str,
    /// The first virtual address of the region
    pub virtual_start: u64,
    /// The last virtual address of the region
    pub virtual_end_inclusive: u64,
    /// The translation method for the region, which determines the physical address range
    pub translation: Translation,
    /// The attributes of the region
    pub attributes: MemoryAttributes,
}

impl TranslationDescriptor {
    /// Whether the region's virtual range holds `virt_addr`.
    pub open spec fn contains(&self, virt_addr: u64) -> bool {
        self.virtual_start <= virt_addr <= self.virtual_end_inclusive
    }

    /// The physical address that the region's rule gives to `virt_addr`.
    pub open spec fn translate(&self, virt_addr: u64) -> int {
        match self.translation {
            Translation::Identity => virt_addr as int,
            Translation::Offset(delta) => delta + (virt_addr - self.virtual_start),
        }
    }

    /// Whether the number of the region's addresses can be counted: the
    /// region is not empty, and it is not all of the 64-bit addresses.
    pub open spec fn countable(&self) -> bool {
        self.virtual_start <= self.virtual_end_inclusive && self.virtual_end_inclusive
            - self.virtual_start < u64::MAX
    }

    /// The mark of the region's memory type.
    pub open spec fn type_mark(&self) -> Seq<char> {
        match self.attributes.memory_type {
            MemoryType::Normal => "N"@,
            MemoryType::Device => "D"@,
        }
    }

    /// The mark of the region's access permission.
    pub open spec fn access_mark(&self) -> Seq<char> {
        match self.attributes.access {
            MemoryAccess::ReadOnly => "RO"@,
            MemoryAccess::ReadWrite => "RW"@,
        }
    }

    /// The mark of the region's execution permission: whether privileged
    /// code may run from it.
    pub open spec fn execute_mark(&self) -> Seq<char> {
        if self.attributes.executable {
            "PX"@
        } else {
            "PXN"@
        }
    }

    /// The line that shows the region in the report of a layout.
    pub open spec fn line(&self) -> Seq<char> {
        let size = (self.virtual_end_inclusive - self.virtual_start + 1) as u64;
        let (scaled, unit) = human_readable_ceil(size);
        region_line(
            self.virtual_start,
            self.virtual_end_inclusive,
            scaled as u64,
            unit,
            self.type_mark(),
            self.access_mark(),
            self.execute_mark(),
            self.name@,
        )
    }

    /// The line that shows the region in the report of a layout.
    pub fn to_string(&self) -> (line: String)
        requires
            self.countable(),
        ensures
            line@ == self.line(),
    {
        let start = self.virtual_start;
        let end = self.virtual_end_inclusive;
        let size = end - start + 1;
        let (size, unit) = size_human_readable_ceil(size);
        let attr = match self.attributes.memory_type {
            MemoryType::Normal => "N",
            MemoryType::Device => "D",
        };
        let acc_p = match self.attributes.access {
            MemoryAccess::ReadOnly => "RO",
            MemoryAccess::ReadWrite => "RW",
        };
        let xn = if self.attributes.executable {
            "PX"
        } else {
            "PXN"
        };
        proof {
            reveal_strlit(" ");
            reveal_strlit("");
        }
        let mut number = String::from_str("");
        append_decimal(&mut number, size);
        assert(number@ =~= decimal(size as nat));
        let mut line = String::from_str("      ");
        append_address(&mut line, start);
        line.append(" - ");
        append_address(&mut line, end);
        line.append(" | ");
        append_right_aligned(&mut line, number.as_str(), 3, " ");
        line.append(" ");
        line.append(unit);
        line.append(" | ");
        append_left_aligned(&mut line, attr, 3, " ");
        line.append(" ");
        line.append(acc_p);
        line.append(" ");
        append_left_aligned(&mut line, xn, 3, " ");
        line.append(" | ");
        line.append(self.name);
        line
    }

    /// No address of the region is moved past the last physical address.
    pub open spec fn well_formed(&self) -> bool {
        self.virtual_start <= self.virtual_end_inclusive ==> self.translate(
            self.virtual_end_inclusive,
        ) <= u64::MAX
    }
}

/// The physical address and the attributes that the regions from index
/// `from` on give to `virt_addr`: those of the first region that holds it,
/// and of ordinary, identity-mapped RAM where none does.
pub open spec fn lookup(regions: Seq<TranslationDescriptor>, from: int, virt_addr: u64) -> (
    int,
    MemoryAttributes,
)
    decreases regions.len() - from,
{
    if from < 0 || from >= regions.len() {
        (virt_addr as int, MemoryAttributes::ordinary())
    } else if regions[from].contains(virt_addr) {
        (regions[from].translate(virt_addr), regions[from].attributes)
    } else {
        lookup(regions, from + 1, virt_addr)
    }
}

/// Whether region `index` is the first in declaration order to hold
/// `virt_addr`.
pub open spec fn is_first_match(
    regions: Seq<TranslationDescriptor>,
    index: int,
    virt_addr: u64,
) -> bool {
    &&& 0 <= index < regions.len()
    &&& regions[index].contains(virt_addr)
    &&& forall|earlier: int| 0 <= earlier < index ==> !(#[trigger] regions[earlier]).contains(virt_addr)
}

/// Whether no region holds `virt_addr`.
pub open spec fn no_match(regions: Seq<TranslationDescriptor>, virt_addr: u64) -> bool {
    forall|index: int| 0 <= index < regions.len() ==> !(#[trigger] regions[index]).contains(virt_addr)
}

/// First match wins: where several regions hold an address, the one
/// declared first decides its translation and its attributes.
pub proof fn lemma_first_match_wins(
    regions: Seq<TranslationDescriptor>,
    index: int,
    virt_addr: u64,
)
    requires
        is_first_match(regions, index, virt_addr),
    ensures
        lookup(regions, 0, virt_addr) == (
            regions[index].translate(virt_addr),
            regions[index].attributes,
        ),
{
    lemma_lookup_skips(regions, 0, index, virt_addr);
}

/// An address that no region holds is identity-mapped, ordinary RAM.
pub proof fn lemma_unmatched_is_ordinary(regions: Seq<TranslationDescriptor>, virt_addr: u64)
    requires
        no_match(regions, virt_addr),
    ensures
        lookup(regions, 0, virt_addr) == (virt_addr as int, MemoryAttributes::ordinary()),
{
    lemma_lookup_skips(regions, 0, regions.len() as int, virt_addr);
}

/// The lookup passes over regions that do not hold the address.
proof fn lemma_lookup_skips(
    regions: Seq<TranslationDescriptor>,
    from: int,
    to: int,
    virt_addr: u64,
)
    requires
        0 <= from <= to <= regions.len(),
        forall|index: int| from <= index < to ==> !(#[trigger] regions[index]).contains(virt_addr),
    ensures
        lookup(regions, from, virt_addr) == lookup(regions, to, virt_addr),
    decreases to - from,
{
    if from < to {
        lemma_lookup_skips(regions, from + 1, to, virt_addr);
    }
}

/// The kernel's virtual memory, as far as it is not ordinary RAM.
pub struct KernelVirtualMemoryLayout<const NUM_SPECIAL_RANGES: usize> {
    /// The last (inclusive) address of the address space.
    max_virtual_address: u64,
    /// Array of descriptors for non-standard (device) memory regions.
    inner: [TranslationDescriptor; NUM_SPECIAL_RANGES],
}

impl<const NUM_SPECIAL_RANGES: usize> KernelVirtualMemoryLayout<NUM_SPECIAL_RANGES> {
    /// The last address that the layout accepts.
    pub closed spec fn max_virtual_address(&self) -> u64 {
        self.max_virtual_address
    }

    /// The regions in declaration order.
    pub closed spec fn regions(&self) -> Seq<TranslationDescriptor> {
        self.inner@
    }

    /// Every region is well formed.
    #[verifier::type_invariant]
    pub closed spec fn well_formed(&self) -> bool {
        forall|index: int|
            0 <= index < self.inner@.len() ==> (#[trigger] self.inner@[index]).well_formed()
    }

    /// What the layout gives to `virt_addr`: its physical address and its
    /// attributes.
    pub open spec fn resolve(&self, virt_addr: u64) -> (int, MemoryAttributes) {
        lookup(self.regions(), 0, virt_addr)
    }

    /// Create a new instance.
    pub fn new(max: u64, layout: [TranslationDescriptor; NUM_SPECIAL_RANGES]) -> (created: Self)
        requires
            forall|index: int|
                0 <= index < layout@.len() ==> (#[trigger] layout@[index]).well_formed(),
        ensures
            created.max_virtual_address() == max,
            created.regions() == layout@,
    {
        Self { max_virtual_address: max, inner: layout }
    }

    /// For a virtual address, find and return the physical output address and corresponding
    /// attributes.
    ///
    /// If the address is not found in `inner`, return an identity mapped default with normal
    /// cacheable DRAM attributes.
    pub fn virt_addr_properties(&self, virt_addr: u64) -> (properties: Result<
        (PhysicalAddress, MemoryAttributes),
        &'static str,
    >)
        ensures
            properties is Err <==> virt_addr > self.max_virtual_address(),
            properties matches Err(message) ==> message@ == "Address out of range"@,
            properties matches Ok((output_addr, attributes)) ==> (
                output_addr.0 as int,
                attributes,
            ) == self.resolve(virt_addr),
            forall|index: int|
                virt_addr <= self.max_virtual_address() && is_first_match(
                    self.regions(),
                    index,
                    virt_addr,
                ) ==> properties == Ok::<_, &'static str>(
                    (
                        PhysicalAddress(self.regions()[index].translate(virt_addr) as u64),
                        self.regions()[index].attributes,
                    ),
                ),
            virt_addr <= self.max_virtual_address() && no_match(self.regions(), virt_addr)
                ==> properties == Ok::<_, &'static str>(
                (PhysicalAddress(virt_addr), MemoryAttributes::ordinary()),
            ),
    {
        proof {
            use_type_invariant(self);
        }
        if virt_addr > self.max_virtual_address {
            return Err("Address out of range");
        }
        let mut index: usize = 0;
        while index < NUM_SPECIAL_RANGES
            invariant
                index <= NUM_SPECIAL_RANGES,
                NUM_SPECIAL_RANGES == self.inner@.len(),
                virt_addr <= self.max_virtual_address,
                self.well_formed(),
                forall|earlier: int|
                    0 <= earlier < index ==> !(#[trigger] self.inner@[earlier]).contains(virt_addr),
            decreases NUM_SPECIAL_RANGES - index,
        {
            let region = &self.inner[index];
            if region.virtual_start <= virt_addr && virt_addr <= region.virtual_end_inclusive {
                let output_addr = match region.translation {
                    Translation::Identity => virt_addr,
                    Translation::Offset(delta) => delta + (virt_addr - region.virtual_start),
                };
                proof {
                    lemma_first_match_wins(self.regions(), index as int, virt_addr);
                }
                return Ok((PhysicalAddress(output_addr), region.attributes));
            }
            index = index + 1;
        }
        proof {
            lemma_unmatched_is_ordinary(self.regions(), virt_addr);
        }
        Ok((PhysicalAddress(virt_addr), MemoryAttributes::default()))
    }

    /// Print the memory layout.
    ///
    /// The lines of the report, one for each region in declaration order.
    /// To show them is left to the caller.
    pub fn print_layout(&self) -> (lines: Vec<String>)
        requires
            forall|index: int|
                0 <= index < self.regions().len() ==> (#[trigger] self.regions()[index]).countable(),
        ensures
            lines@.len() == self.regions().len(),
            forall|index: int|
                0 <= index < lines@.len() ==> (#[trigger] lines@[index])@
                    == self.regions()[index].line(),
    {
        let mut lines: Vec<String> = Vec::new();
        let mut index: usize = 0;
        while index < NUM_SPECIAL_RANGES
            invariant
                index <= NUM_SPECIAL_RANGES,
                NUM_SPECIAL_RANGES == self.inner@.len(),
                lines@.len() == index,
                forall|region: int|
                    0 <= region < self.regions().len() ==> (#[trigger] self.regions()[region]).countable(),
                forall|line: int|
                    0 <= line < index ==> (#[trigger] lines@[line])@ == self.regions()[line].line(),
            decreases NUM_SPECIAL_RANGES - index,
        {
            assert(self.regions()[index as int] == self.inner@[index as int]);
            lines.push(self.inner[index].to_string());
            index = index + 1;
        }
        lines
    }
}

} // verus!
