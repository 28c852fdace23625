//! The memory map of the Raspberry Pi boards.

use crate::board::Board;
use crate::memory::{
    AddressSpace, KernelVirtualMemoryLayout, MemoryAccess, MemoryAttributes, MemoryType,
    Translation, TranslationDescriptor,
};
use vstd::arithmetic::power2::is_pow2;
use vstd::prelude::*;

verus! {

// Defines memory layout
pub const GPIO_OFFSET: u64 = 0x0020_0000;

pub const UART_OFFSET: u64 = 0x0020_1000;

/// The last address of the kernel's address space.
pub const END_INCLUSIVE: u64 = 0xFFFF_FFFF;

/// The virtual addresses at which the kernel reaches the devices a second
/// time.
pub const REMAPPED_MMIO_START: u64 = 0x1FFF_0000;

pub const REMAPPED_MMIO_END_INCLUSIVE: u64 = 0x1FFF_FFFF;

/// The physical address at which the board's devices start.
pub open spec fn spec_mmio_start(board: Board) -> u64 {
    match board {
        Board::Raspi3 => 0x3F00_0000,
        Board::Raspi4 => 0xFE00_0000,
    }
}

/// The physical address at which the board's devices start.
pub fn mmio_start(board: Board) -> (start: u64)
    ensures
        start == spec_mmio_start(board),
{
    match board {
        Board::Raspi3 => 0x3F00_0000,
        Board::Raspi4 => 0xFE00_0000,
    }
}

/// The physical address of the board's GPIO controller.
pub fn gpio_start(board: Board) -> (start: u64)
    ensures
        start == spec_mmio_start(board) + GPIO_OFFSET,
{
    mmio_start(board) + GPIO_OFFSET
}

/// The physical address of the board's PL011 UART.
pub fn pl011_uart_start(board: Board) -> (start: u64)
    ensures
        start == spec_mmio_start(board) + UART_OFFSET,
{
    mmio_start(board) + UART_OFFSET
}

/// The physical address space available to the kernel on this board.
pub type KernelAddressSpace = AddressSpace<0x1_0000_0000>;

/// The kernel's address space is four gibibytes, a power of two that the
/// architecture accepts, and its shift is 32.
pub proof fn lemma_kernel_address_space()
    ensures
        KernelAddressSpace::valid(),
        crate::memory::log2(0x1_0000_0000) == 32,
        END_INCLUSIVE + 1 == 0x1_0000_0000,
{
    reveal_with_fuel(is_pow2, 34);
    reveal_with_fuel(crate::memory::log2, 34);
}

/// The regions of the board that are not ordinary RAM, in the order in which
/// they are looked up: the kernel's code between `code_start` and
/// `code_end_exclusive`, a window onto the devices, and the devices
/// themselves.
pub open spec fn special_regions(board: Board, code_start: u64, code_end_exclusive: u64) -> Seq<
    TranslationDescriptor,
> {
    seq![
        TranslationDescriptor {
            name: "Kernel code and RO data",
            virtual_start: code_start,
            virtual_end_inclusive: code_end_exclusive,
            translation: Translation::Identity,
            attributes: MemoryAttributes {
                memory_type: MemoryType::Normal,
                access: MemoryAccess::ReadOnly,
                executable: false,
            },
        },
        TranslationDescriptor {
            name: "Remapped Device MMIO",
            virtual_start: REMAPPED_MMIO_START,
            virtual_end_inclusive: REMAPPED_MMIO_END_INCLUSIVE,
            translation: Translation::Offset((spec_mmio_start(board) + 0x20_0000) as u64),
            attributes: MemoryAttributes {
                memory_type: MemoryType::Device,
                access: MemoryAccess::ReadWrite,
                executable: false,
            },
        },
        TranslationDescriptor {
            name: "Device MMIO",
            virtual_start: spec_mmio_start(board),
            virtual_end_inclusive: END_INCLUSIVE,
            translation: Translation::Identity,
            attributes: MemoryAttributes {
                memory_type: MemoryType::Device,
                access: MemoryAccess::ReadWrite,
                executable: false,
            },
        },
    ]
}

/// Gets the virtual memory layout used on this board.
///
/// The layout must contain only special ranges, aka anything that is _not_ normal cacheable DRAM.
/// It is agnostic of the paging granularity that the architecture's MMU will use.
pub fn virtual_memory_layout(board: Board, code_start: u64, code_end_exclusive: u64) -> (layout:
    KernelVirtualMemoryLayout<3>)
    ensures
        layout.max_virtual_address() == END_INCLUSIVE,
        layout.regions() == special_regions(board, code_start, code_end_exclusive),
{
    let regions = [
        TranslationDescriptor {
            name: "Kernel code and RO data",
            virtual_start: code_start,
            virtual_end_inclusive: code_end_exclusive,
            translation: Translation::Identity,
            attributes: MemoryAttributes {
                memory_type: MemoryType::Normal,
                access: MemoryAccess::ReadOnly,
                executable: false,
            },
        },
        TranslationDescriptor {
            name: "Remapped Device MMIO",
            virtual_start: REMAPPED_MMIO_START,
            virtual_end_inclusive: REMAPPED_MMIO_END_INCLUSIVE,
            translation: Translation::Offset(mmio_start(board) + 0x20_0000),
            attributes: MemoryAttributes {
                memory_type: MemoryType::Device,
                access: MemoryAccess::ReadWrite,
                executable: false,
            },
        },
        TranslationDescriptor {
            name: "Device MMIO",
            virtual_start: mmio_start(board),
            virtual_end_inclusive: END_INCLUSIVE,
            translation: Translation::Identity,
            attributes: MemoryAttributes {
                memory_type: MemoryType::Device,
                access: MemoryAccess::ReadWrite,
                executable: false,
            },
        },
    ];
    assert(regions@ =~= special_regions(board, code_start, code_end_exclusive));
    KernelVirtualMemoryLayout::new(END_INCLUSIVE, regions)
}

} // verus!
