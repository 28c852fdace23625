use em_kernel::board;
use em_kernel::driver::{
    initialization_outcome, manager, post_initialization_outcome, DeviceDriver,
    DeviceDriverDescriptor, DeviceDriverPostInitCallback, DriverFailure, DriverManager,
    MAX_DRIVERS,
};
use em_kernel::error::Error;
use std::sync::atomic::{AtomicUsize, Ordering};

struct Quiet(&'static str);

impl DeviceDriver for Quiet {
    fn name(&self) -> &'static str {
        self.0
    }
}

struct Broken;

impl DeviceDriver for Broken {
    fn name(&self) -> &'static str {
        "broken"
    }

    fn init(&self) -> Result<(), Error> {
        Err(Error::from("no such device"))
    }
}

struct Counting(AtomicUsize);

impl DeviceDriverPostInitCallback for Counting {
    fn call(&self) -> Result<(), Error> {
        self.0.fetch_add(1, Ordering::SeqCst);
        Ok(())
    }
}

struct Failing;

impl DeviceDriverPostInitCallback for Failing {
    fn call(&self) -> Result<(), Error> {
        Err(Error::from("pins are taken"))
    }
}

static UART: Quiet = Quiet("uart");
static GPIO: Quiet = Quiet("gpio");
static BROKEN: Broken = Broken;
static FAILING: Failing = Failing;

#[test]
fn error_keeps_its_words() {
    assert_eq!(Error::from("out of luck").to_string(), "out of luck");
    assert_eq!(Error::from("a"), Error::from("a"));
    assert_ne!(Error::from("a"), Error::from("b"));
}

#[test]
fn new_manager_is_empty() {
    assert_eq!(DriverManager::new().len(), 0);
    assert_eq!(manager().len(), 0);
    assert!(manager().descriptors().is_empty());
    assert_eq!(manager().initialize(), Ok(vec![]));
}

#[test]
fn drivers_are_initialized_in_the_order_of_installation() {
    static CALLS: Counting = Counting(AtomicUsize::new(0));
    let mut manager = DriverManager::new();
    manager.install(DeviceDriverDescriptor::new(&GPIO, Some(&CALLS)));
    manager.install(DeviceDriverDescriptor::new(&UART, None));
    manager.install(DeviceDriverDescriptor::new(&GPIO, Some(&CALLS)));
    assert_eq!(manager.len(), 3);
    assert_eq!(manager.descriptors().len(), 3);
    assert_eq!(manager.initialize(), Ok(vec!["gpio", "uart", "gpio"]));
    assert_eq!(CALLS.0.load(Ordering::SeqCst), 2);
}

#[test]
fn manager_takes_five_drivers() {
    let mut manager = DriverManager::new();
    for _ in 0..MAX_DRIVERS {
        manager.install(DeviceDriverDescriptor::new(&UART, None));
    }
    assert_eq!(manager.len(), 5);
    assert_eq!(manager.initialize(), Ok(vec!["uart"; 5]));
}

#[test]
fn first_failing_driver_ends_the_bring_up() {
    static CALLS: Counting = Counting(AtomicUsize::new(0));
    let mut manager = DriverManager::new();
    manager.install(DeviceDriverDescriptor::new(&UART, Some(&CALLS)));
    manager.install(DeviceDriverDescriptor::new(&BROKEN, Some(&CALLS)));
    manager.install(DeviceDriverDescriptor::new(&GPIO, Some(&CALLS)));
    let failure = manager.initialize().unwrap_err();
    assert_eq!(failure, DriverFailure::Initialize("broken", Error::from("no such device")));
    assert_eq!(failure.to_string(), "Failed to initialize driver 'broken': no such device");
    assert_eq!(CALLS.0.load(Ordering::SeqCst), 1);
}

#[test]
fn failing_callback_ends_the_bring_up() {
    let mut manager = DriverManager::new();
    manager.install(DeviceDriverDescriptor::new(&GPIO, Some(&FAILING)));
    manager.install(DeviceDriverDescriptor::new(&BROKEN, None));
    let failure = manager.initialize().unwrap_err();
    assert_eq!(failure, DriverFailure::PostInitialize("gpio", Error::from("pins are taken")));
    assert_eq!(failure.to_string(), "Failed to post-initialize driver 'gpio': pins are taken");
}

#[test]
fn outcomes_name_the_driver_and_the_step() {
    assert_eq!(initialization_outcome("uart", Ok(())), Ok(()));
    assert_eq!(post_initialization_outcome("uart", Ok(())), Ok(()));
    assert_eq!(
        initialization_outcome("uart", Err(Error::from("x"))),
        Err(DriverFailure::Initialize("uart", Error::from("x")))
    );
    assert_eq!(
        post_initialization_outcome("uart", Err(Error::from("x"))),
        Err(DriverFailure::PostInitialize("uart", Error::from("x")))
    );
}

#[test]
fn board_installs_the_uart_before_the_gpio() {
    let mut manager = manager();
    let installed = board::devices::init(
        &mut manager,
        DeviceDriverDescriptor::new(&UART, None),
        DeviceDriverDescriptor::new(&GPIO, None),
    );
    assert_eq!(installed, Ok(()));
    assert_eq!(manager.initialize(), Ok(vec!["uart", "gpio"]));
}

#[test]
fn single_devices_are_installed_behind_the_others() {
    let mut manager = manager();
    assert_eq!(
        board::devices::gpio_init(&mut manager, DeviceDriverDescriptor::new(&GPIO, None)),
        Ok(())
    );
    assert_eq!(
        board::devices::uart_init(&mut manager, DeviceDriverDescriptor::new(&UART, None)),
        Ok(())
    );
    assert_eq!(manager.initialize(), Ok(vec!["gpio", "uart"]));
}

#[test]
fn board_is_brought_up_once() {
    let mut manager = manager();
    let mut complete = false;
    let uart = DeviceDriverDescriptor::new(&UART, None);
    let gpio = DeviceDriverDescriptor::new(&GPIO, None);
    assert_eq!(board::init(&mut complete, &mut manager, uart, gpio), Ok(()));
    assert!(complete);
    assert_eq!(manager.len(), 2);
    assert_eq!(
        board::init(&mut complete, &mut manager, uart, gpio),
        Err(Error::from("Board already initialized"))
    );
    assert!(complete);
    assert_eq!(manager.len(), 2);
}
