//! The Raspberry Pi boards that the kernel runs on.

use crate::driver::{DeviceDriverDescriptor, DriverManager, MAX_DRIVERS};
use crate::error::Error;
use vstd::prelude::*;

pub mod devices;
pub mod memory;

verus! {

/// The boards that the kernel knows.
#[derive(Clone, Copy, Debug, PartialEq, Eq, Structural)]
pub enum Board {
    Raspi3,
    Raspi4,
}

impl Board {
    /// The board's name, as it is shown to people.
    pub open spec fn spec_name(self) -> Seq<char> {
        match self {
            Board::Raspi3 => "Raspberry Pi 3"@,
            Board::Raspi4 => "Raspberry Pi 4"@,
        }
    }

    /// The board's name, as it is shown to people.
    pub fn name(&self) -> (name: &'static str)
        ensures
            name@ == self.spec_name(),
    {
        match self {
            Board::Raspi3 => "Raspberry Pi 3",
            Board::Raspi4 => "Raspberry Pi 4",
        }
    }
}

/// Brings the board up, once: installs the drivers of its devices.
///
/// `init_complete` tells whether the board has been brought up; it is set
/// by the first call. A later call is refused and changes nothing.
pub fn init(
    init_complete: &mut bool,
    manager: &mut DriverManager,
    uart: DeviceDriverDescriptor,
    gpio: DeviceDriverDescriptor,
) -> (initialized: Result<(), Error>)
    requires
        old(manager).well_formed(),
        !*old(init_complete) ==> old(manager).installed().len() + 2 <= MAX_DRIVERS,
    ensures
        final(manager).well_formed(),
        *final(init_complete),
        initialized is Err <==> *old(init_complete),
        initialized matches Err(error) ==> error@ == "Board already initialized"@,
        final(manager).installed() == if *old(init_complete) {
            old(manager).installed()
        } else {
            old(manager).installed().push(uart).push(gpio)
        },
{
    if *init_complete {
        return Err(Error::from("Board already initialized"));
    }
    match devices::init(manager, uart, gpio) {
        Ok(()) => {},
        Err(error) => {
            return Err(error);
        },
    }
    *init_complete = true;
    Ok(())
}

} // verus!
