//! The devices of the board whose drivers the kernel brings up.

use crate::driver::{DeviceDriverDescriptor, DriverManager, MAX_DRIVERS};
use crate::error::Error;
use vstd::prelude::*;

verus! {

/// Installs the driver of the PL011 UART.
pub fn uart_init(manager: &mut DriverManager, descriptor: DeviceDriverDescriptor) -> (installed:
    Result<(), Error>)
    requires
        old(manager).well_formed(),
        old(manager).installed().len() < MAX_DRIVERS,
    ensures
        installed is Ok,
        final(manager).well_formed(),
        final(manager).installed() == old(manager).installed().push(descriptor),
{
    manager.install(descriptor);
    Ok(())
}

/// Installs the driver of the GPIO controller.
pub fn gpio_init(manager: &mut DriverManager, descriptor: DeviceDriverDescriptor) -> (installed:
    Result<(), Error>)
    requires
        old(manager).well_formed(),
        old(manager).installed().len() < MAX_DRIVERS,
    ensures
        installed is Ok,
        final(manager).well_formed(),
        final(manager).installed() == old(manager).installed().push(descriptor),
{
    manager.install(descriptor);
    Ok(())
}

/// Installs the drivers of the board's devices: the UART first, so that the
/// kernel can speak as early as can be, and then the GPIO controller.
pub fn init(
    manager: &mut DriverManager,
    uart: DeviceDriverDescriptor,
    gpio: DeviceDriverDescriptor,
) -> (installed: Result<(), Error>)
    requires
        old(manager).well_formed(),
        old(manager).installed().len() + 2 <= MAX_DRIVERS,
    ensures
        installed is Ok,
        final(manager).well_formed(),
        final(manager).installed() == old(manager).installed().push(uart).push(gpio),
{
    match uart_init(manager, uart) {
        Ok(()) => {},
        Err(error) => {
            return Err(error);
        },
    }
    match gpio_init(manager, gpio) {
        Ok(()) => {},
        Err(error) => {
            return Err(error);
        },
    }
    Ok(())
}

} // verus!
