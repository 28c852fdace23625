//! The drivers of the board's devices, and the order in which they are
//! brought up.

use crate::error::Error;
use vstd::prelude::*;

verus! {

/// The number of drivers that the manager has room for.
pub const MAX_DRIVERS: usize = 5;

/// What a device's driver offers to the kernel.
pub trait DeviceDriver: Sync {
    fn name(&self) -> &'static str;

    /// Brings the device up.
    fn init(&self) -> Result<(), Error> {
        // Some drivers don't need to be initialized!
        Ok(())
    }
}

/// What is left to do for a device once its driver is initialized.
pub trait DeviceDriverPostInitCallback: Sync {
    fn call(&self) -> Result<(), Error>;
}

/// A driver, and what is to follow its initialization.
#[derive(Copy, Clone)]
pub struct DeviceDriverDescriptor {
    driver: &'static dyn DeviceDriver,
    post_init_callback: Option<&'static dyn DeviceDriverPostInitCallback>,
}

impl DeviceDriverDescriptor {
    /// Whether something is to follow the driver's initialization.
    pub closed spec fn has_post_init_callback(&self) -> bool {
        self.post_init_callback is Some
    }

    pub fn new(
        driver: &'static dyn DeviceDriver,
        post_init_callback: Option<&'static dyn DeviceDriverPostInitCallback>,
    ) -> (descriptor: Self)
        ensures
            descriptor.has_post_init_callback() == post_init_callback is Some,
    {
        Self { driver, post_init_callback }
    }
}

/// The step at which a driver failed.
#[derive(Clone, Copy, Debug, PartialEq, Eq)]
pub enum DriverFailure {
    /// The driver of this name could not initialize its device.
    Initialize(&'static str, Error),
    /// What was to follow the initialization of the driver of this name
    /// failed.
    PostInitialize(&'static str, Error),
}

impl DriverFailure {
    /// The failure in words.
    pub open spec fn message(self) -> Seq<char> {
        match self {
            DriverFailure::Initialize(name, error) => "Failed to initialize driver '"@ + name@
                + "': "@ + error@,
            DriverFailure::PostInitialize(name, error) => "Failed to post-initialize driver '"@
                + name@ + "': "@ + error@,
        }
    }

    /// The failure in words.
    pub fn to_string(&self) -> (text: String)
        ensures
            text@ == self.message(),
    {
        match self {
            DriverFailure::Initialize(name, error) => {
                let mut text = String::from_str("Failed to initialize driver '");
                text.append(name);
                text.append("': ");
                text.append(error.to_string().as_str());
                text
            },
            DriverFailure::PostInitialize(name, error) => {
                let mut text = String::from_str("Failed to post-initialize driver '");
                text.append(name);
                text.append("': ");
                text.append(error.to_string().as_str());
                text
            },
        }
    }
}

/// What becomes of a driver's bring-up when its initialization has ended
/// with `initialized`: a failure is the driver's failure to initialize.
pub fn initialization_outcome(name: &'static str, initialized: Result<(), Error>) -> (outcome:
    Result<(), DriverFailure>)
    ensures
        outcome == match initialized {
            Ok(()) => Ok::<(), DriverFailure>(()),
            Err(error) => Err(DriverFailure::Initialize(name, error)),
        },
{
    match initialized {
        Ok(()) => Ok(()),
        Err(error) => Err(DriverFailure::Initialize(name, error)),
    }
}

/// What becomes of a driver's bring-up when what follows its initialization
/// has ended with `called_back`: a failure is the driver's failure to
/// post-initialize.
pub fn post_initialization_outcome(name: &'static str, called_back: Result<(), Error>) -> (outcome:
    Result<(), DriverFailure>)
    ensures
        outcome == match called_back {
            Ok(()) => Ok::<(), DriverFailure>(()),
            Err(error) => Err(DriverFailure::PostInitialize(name, error)),
        },
{
    match called_back {
        Ok(()) => Ok(()),
        Err(error) => Err(DriverFailure::PostInitialize(name, error)),
    }
}

/// The room of the manager: the descriptors in the order in which they were
/// installed, and the empty places after them.
pub struct DriverManagerInner {
    next_index: usize,
    descriptors: [Option<DeviceDriverDescriptor>; MAX_DRIVERS],
}

impl DriverManagerInner {
    /// The first `next_index` places are taken, the others are empty.
    pub closed spec fn well_formed(&self) -> bool {
        &&& self.next_index <= MAX_DRIVERS
        &&& forall|index: int|
            0 <= index < MAX_DRIVERS ==> ((#[trigger] self.descriptors@[index]) is Some <==> index
                < self.next_index)
    }

    /// The descriptors in the order in which they were installed.
    pub closed spec fn installed(&self) -> Seq<DeviceDriverDescriptor> {
        Seq::new(self.next_index as nat, |index: int| self.descriptors@[index].unwrap())
    }

    pub fn new() -> (inner: Self)
        ensures
            inner.well_formed(),
            inner.installed() == Seq::<DeviceDriverDescriptor>::empty(),
    {
        let inner = Self { next_index: 0, descriptors: [None, None, None, None, None] };
        assert(inner.installed() =~= Seq::<DeviceDriverDescriptor>::empty());
        inner
    }
}

/// Keeps the drivers of the board and brings them up in the order in which
/// they were installed.
pub struct DriverManager {
    inner: DriverManagerInner,
}

impl DriverManager {
    /// The manager's room is in order.
    pub closed spec fn well_formed(&self) -> bool {
        self.inner.well_formed()
    }

    /// The descriptors in the order in which they were installed.
    pub closed spec fn installed(&self) -> Seq<DeviceDriverDescriptor> {
        self.inner.installed()
    }

    pub fn new() -> (manager: Self)
        ensures
            manager.well_formed(),
            manager.installed() == Seq::<DeviceDriverDescriptor>::empty(),
    {
        Self { inner: DriverManagerInner::new() }
    }

    /// The number of drivers that are installed.
    pub fn len(&self) -> (len: usize)
        requires
            self.well_formed(),
        ensures
            len == self.installed().len(),
            len <= MAX_DRIVERS,
    {
        self.inner.next_index
    }

    /// Takes a driver in, behind those that are installed already. There
    /// has to be room for it.
    pub fn install(&mut self, descriptor: DeviceDriverDescriptor)
        requires
            old(self).well_formed(),
            old(self).installed().len() < MAX_DRIVERS,
        ensures
            final(self).well_formed(),
            final(self).installed() == old(self).installed().push(descriptor),
    {
        let index = self.inner.next_index;
        self.inner.descriptors[index] = Some(descriptor);
        self.inner.next_index = index + 1;
        assert(self.inner.installed() =~= old(self).inner.installed().push(descriptor));
    }

    /// The descriptors in the order in which they were installed.
    pub fn descriptors(&self) -> (descriptors: Vec<DeviceDriverDescriptor>)
        requires
            self.well_formed(),
        ensures
            descriptors@ == self.installed(),
    {
        let mut descriptors: Vec<DeviceDriverDescriptor> = Vec::new();
        let mut index: usize = 0;
        while index < self.inner.next_index
            invariant
                self.inner.well_formed(),
                index <= self.inner.next_index,
                descriptors@.len() == index,
                forall|at: int|
                    0 <= at < index ==> #[trigger] descriptors@[at] == self.inner.descriptors@[at].unwrap(),
            decreases self.inner.next_index - index,
        {
            match self.inner.descriptors[index] {
                Some(descriptor) => {
                    descriptors.push(descriptor);
                },
                None => {},
            }
            index = index + 1;
        }
        assert(descriptors@ =~= self.inner.installed());
        descriptors
    }

    /// Brings the drivers up, in the order in which they were installed:
    /// each driver is initialized, and then what is to follow its
    /// initialization is done. The first failure ends the work. Without a
    /// failure the names of the drivers come back, in the same order.
    pub fn initialize(&self) -> (initialized: Result<Vec<&'static str>, DriverFailure>)
        requires
            self.well_formed(),
        ensures
            self.installed().len() == 0 ==> initialized is Ok,
            initialized matches Ok(names) ==> names@.len() == self.installed().len(),
    {
        let descriptors = self.descriptors();
        let mut names: Vec<&'static str> = Vec::new();
        let mut index: usize = 0;
        while index < descriptors.len()
            invariant
                descriptors@ == self.installed(),
                index <= descriptors@.len(),
                names@.len() == index,
            decreases descriptors@.len() - index,
        {
            let descriptor = descriptors[index];
            let name = descriptor.driver.name();
            match initialization_outcome(name, descriptor.driver.init()) {
                Ok(()) => {},
                Err(failure) => {
                    return Err(failure);
                },
            }
            match descriptor.post_init_callback {
                Some(callback) => {
                    match post_initialization_outcome(name, callback.call()) {
                        Ok(()) => {},
                        Err(failure) => {
                            return Err(failure);
                        },
                    }
                },
                None => {},
            }
            // The drivers are part of how the kernel prints, so their names
            // can only be shown once all of them are initialized.
            names.push(name);
            index = index + 1;
        }
        Ok(names)
    }
}

/// A manager without drivers.
pub fn manager() -> (manager: DriverManager)
    ensures
        manager.well_formed(),
        manager.installed() == Seq::<DeviceDriverDescriptor>::empty(),
{
    DriverManager::new()
}

} // verus!
