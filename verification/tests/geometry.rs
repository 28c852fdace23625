use em_kernel::arch::memory::{Granule512MiB, Granule64KiB};
use em_kernel::board::memory::{
    gpio_start, mmio_start, pl011_uart_start, KernelAddressSpace, END_INCLUSIVE, GPIO_OFFSET,
    UART_OFFSET,
};
use em_kernel::board::Board;
use em_kernel::memory::{AddressSpace, TranslationGranule};
use em_kernel::utils::size_human_readable_ceil;

#[test]
fn granules_have_their_size_and_shift() {
    assert_eq!(Granule64KiB::size_checked(), 65536);
    assert_eq!(Granule64KiB::shift(), 16);
    assert_eq!(Granule512MiB::size_checked(), 512 * 1024 * 1024);
    assert_eq!(Granule512MiB::shift(), 29);
    assert_eq!(TranslationGranule::<1>::shift(), 0);
    assert_eq!(TranslationGranule::<0x8000_0000_0000_0000>::shift(), 63);
    assert_eq!(
        TranslationGranule::<0x8000_0000_0000_0000>::size_checked(),
        0x8000_0000_0000_0000
    );
}

#[test]
fn kernel_address_space_is_four_gibibytes() {
    assert!(KernelAddressSpace::arch_check_address_space_size());
    assert_eq!(KernelAddressSpace::size_checked(), END_INCLUSIVE + 1);
    assert_eq!(KernelAddressSpace::shift(), 32);
}

#[test]
fn architecture_limits_the_address_space() {
    assert!(AddressSpace::<0x2000_0000>::arch_check_address_space_size());
    assert!(AddressSpace::<0x1_0000_0000_0000>::arch_check_address_space_size());
    assert!(!AddressSpace::<0x2_0000_0000_0000>::arch_check_address_space_size());
    assert!(!AddressSpace::<0x1000_0000>::arch_check_address_space_size());
    assert!(!AddressSpace::<0x3000_0001>::arch_check_address_space_size());
}

#[test]
fn sizes_are_scaled_to_the_largest_unit_and_rounded_up() {
    assert_eq!(size_human_readable_ceil(0), (0, "Byte"));
    assert_eq!(size_human_readable_ceil(1023), (1023, "Byte"));
    assert_eq!(size_human_readable_ceil(1024), (1, "KiB"));
    assert_eq!(size_human_readable_ceil(1025), (2, "KiB"));
    assert_eq!(size_human_readable_ceil(1024 * 1024 - 1), (1024, "KiB"));
    assert_eq!(size_human_readable_ceil(1024 * 1024), (1, "MiB"));
    assert_eq!(size_human_readable_ceil(3 * 1024 * 1024 + 1), (4, "MiB"));
    assert_eq!(size_human_readable_ceil(1024 * 1024 * 1024), (1, "GiB"));
    assert_eq!(size_human_readable_ceil(0xC100_0000), (4, "GiB"));
    assert_eq!(size_human_readable_ceil(u64::MAX), (0x4_0000_0000, "GiB"));
}

#[test]
fn boards_place_their_devices() {
    assert_eq!(mmio_start(Board::Raspi3), 0x3F00_0000);
    assert_eq!(mmio_start(Board::Raspi4), 0xFE00_0000);
    assert_eq!(gpio_start(Board::Raspi3), 0x3F00_0000 + GPIO_OFFSET);
    assert_eq!(gpio_start(Board::Raspi4), 0xFE20_0000);
    assert_eq!(pl011_uart_start(Board::Raspi3), 0x3F20_1000);
    assert_eq!(pl011_uart_start(Board::Raspi4), 0xFE00_0000 + UART_OFFSET);
    assert_eq!(Board::Raspi3.name(), "Raspberry Pi 3");
    assert_eq!(Board::Raspi4.name(), "Raspberry Pi 4");
}
