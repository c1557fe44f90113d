use unified_platform::api::{IrqIf, MemIf};
use unified_platform::driver::{
    builtin_drivers, prepare_builtin_drivers, reset_for_tests, BaseDriverOps, ConsoleDriver,
    DevError, DeviceType, DriverRegistry, VirtIoNetDriver, VirtIoTransport,
};
use unified_platform::mock::console::MockConsole;
use unified_platform::mock::irq::MockIrqController;
use unified_platform::mock::memory::MockMemory;

fn device(name: &'static str) -> VirtIoNetDriver {
    VirtIoNetDriver::new(name, VirtIoTransport::Mmio { base_paddr: 0x2000_0000, irq_line: 40 })
}

const NAMES: [&str; 9] = ["d0", "d1", "d2", "d3", "d4", "d5", "d6", "d7", "d8"];

#[test]
fn new_registry_is_empty() {
    let registry = DriverRegistry::new();
    assert_eq!(registry.entries().len(), 0);
    assert_eq!(registry.summaries().len(), 0);
}

#[test]
fn register_appends_in_order() {
    let mut registry = DriverRegistry::new();
    let drivers = builtin_drivers();
    assert_eq!(registry.register_driver(&drivers.console), Ok(()));
    assert_eq!(registry.register_driver(&drivers.net), Ok(()));

    let entries = registry.entries();
    assert_eq!(entries.len(), 2);
    assert_eq!(entries[0].name, "platform-console");
    assert_eq!(entries[0].device_type, DeviceType::Char);
    assert_eq!(entries[1].name, "virtio-net@10000000");
    assert_eq!(entries[1].device_type, DeviceType::Net);

    let summaries = registry.summaries();
    assert_eq!(summaries.as_slice(), entries);
}

#[test]
fn register_through_trait_object() {
    let mut registry = DriverRegistry::new();
    let net = device("eth0");
    let as_object: &dyn BaseDriverOps = &net;
    assert_eq!(registry.register_driver(as_object), Ok(()));
    assert_eq!(registry.entries()[0].name, "eth0");
}

#[test]
fn duplicate_name_is_refused() {
    let mut registry = DriverRegistry::new();
    assert_eq!(registry.register_driver(&device("eth0")), Ok(()));
    assert_eq!(registry.register_driver(&device("eth0")), Err(DevError::AlreadyExists));
    assert_eq!(registry.entries().len(), 1);
    assert_eq!(registry.register_driver(&device("eth1")), Ok(()));
    assert_eq!(registry.entries().len(), 2);
}

#[test]
fn ninth_device_is_refused() {
    let mut registry = DriverRegistry::new();
    for name in &NAMES[..8] {
        assert_eq!(registry.register_driver(&device(name)), Ok(()));
    }
    assert_eq!(registry.register_driver(&device(NAMES[8])), Err(DevError::NoMemory));
    let entries = registry.entries();
    assert_eq!(entries.len(), 8);
    for (entry, name) in entries.iter().zip(NAMES.iter()) {
        assert_eq!(entry.name, *name);
        assert_eq!(entry.device_type, DeviceType::Net);
    }
    assert_eq!(registry.summaries().len(), 8);
}

#[test]
fn duplicate_wins_over_full() {
    let mut registry = DriverRegistry::new();
    for name in &NAMES[..8] {
        assert_eq!(registry.register_driver(&device(name)), Ok(()));
    }
    assert_eq!(registry.register_driver(&device("d3")), Err(DevError::AlreadyExists));
}

#[test]
fn clear_empties_the_registry() {
    let mut registry = DriverRegistry::new();
    assert_eq!(registry.register_driver(&device("eth0")), Ok(()));
    registry.clear();
    assert_eq!(registry.entries().len(), 0);
    assert_eq!(registry.register_driver(&device("eth0")), Ok(()));
}

#[test]
fn device_names_and_types() {
    let console = ConsoleDriver {};
    assert_eq!(console.device_name(), "platform-console");
    assert_eq!(console.device_name(), ConsoleDriver::NAME);
    assert_eq!(console.device_type(), DeviceType::Char);
    let drivers = builtin_drivers();
    assert_eq!(drivers.net.device_name(), VirtIoNetDriver::NAME);
    assert_eq!(drivers.net.device_type(), DeviceType::Net);
    let transport = VirtIoTransport::Mmio { base_paddr: 0x1000_0000, irq_line: 32 };
    assert_eq!(transport.irq_line(), 32);
}

#[test]
fn initialize_runs_once() {
    let mut memory = MockMemory::new();
    let mut irq = MockIrqController::new();
    let mut net = device("eth0");

    assert_eq!(net.initialize(&mut memory, &mut irq), Ok(()));
    assert_eq!(irq.last_irq(), Some(40));
    assert_eq!(memory.allocations().len(), 1);

    irq.acknowledge(7);
    assert_eq!(net.initialize(&mut memory, &mut irq), Ok(()));
    assert_eq!(irq.last_irq(), Some(7));
    assert_eq!(memory.allocations().len(), 1);

    net.reset();
    assert_eq!(net.initialize(&mut memory, &mut irq), Ok(()));
    assert_eq!(irq.last_irq(), Some(40));
    assert_eq!(memory.allocations().len(), 2);
    assert_eq!(memory.allocations()[1].paddr, 0x8000_1000);
}

#[test]
fn initialize_without_memory_fails_and_is_not_retried() {
    let mut memory = MockMemory::new();
    let mut irq = MockIrqController::new();
    let mut net = device("eth0");
    assert!(memory.dma_alloc(usize::MAX - 0x8000_0000 - 100, 1).is_some());

    assert_eq!(net.initialize(&mut memory, &mut irq), Err(DevError::NoMemory));
    assert_eq!(irq.last_irq(), None);

    memory.reset();
    assert_eq!(net.initialize(&mut memory, &mut irq), Ok(()));
    assert_eq!(irq.last_irq(), None);
    assert_eq!(memory.allocations().len(), 0);
}

#[test]
fn prepare_announces_console_and_brings_net_up() {
    let mut console = MockConsole::new();
    let mut memory = MockMemory::new();
    let mut irq = MockIrqController::new();
    let mut drivers = builtin_drivers();

    assert_eq!(
        prepare_builtin_drivers(&mut console, &mut drivers, &mut memory, &mut irq),
        Ok(())
    );
    assert_eq!(console.snapshot().as_slice(), b"[console] ready\n");
    assert_eq!(irq.last_irq(), Some(32));
    assert_eq!(memory.allocations().len(), 1);

    reset_for_tests(&mut drivers);
    assert_eq!(
        prepare_builtin_drivers(&mut console, &mut drivers, &mut memory, &mut irq),
        Ok(())
    );
    assert_eq!(memory.allocations().len(), 2);
    assert_eq!(console.snapshot().len(), 32);
}
