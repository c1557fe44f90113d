use unified_platform::api::{ConsoleIf, DmaRegion, IrqIf, MemIf};
use unified_platform::driver::DevError;
use unified_platform::mock;
use unified_platform::mock::console::MockConsole;
use unified_platform::mock::irq::MockIrqController;
use unified_platform::mock::log::{record, record_failure, snapshot, EventLog, LogEvent, Stage};
use unified_platform::mock::memory::MockMemory;

#[test]
fn region_new_keeps_fields() {
    let region = DmaRegion::new(0x1000, 64, 16);
    assert_eq!(region, DmaRegion { paddr: 0x1000, size: 64, align: 16 });
}

#[test]
fn first_allocation_starts_at_base() {
    let mut memory = MockMemory::new();
    assert_eq!(memory.dma_alloc(100, 1), Some(DmaRegion::new(0x8000_0000, 100, 1)));
    assert_eq!(memory.dma_alloc(8, 64), Some(DmaRegion::new(0x8000_0080, 8, 64)));
    assert_eq!(memory.dma_alloc(4096, 4096), Some(DmaRegion::new(0x8000_1000, 4096, 4096)));
    assert_eq!(memory.dma_alloc(1, 1), Some(DmaRegion::new(0x8000_2000, 1, 1)));
}

#[test]
fn alignment_zero_is_one() {
    let mut memory = MockMemory::new();
    assert_eq!(memory.dma_alloc(3, 0), Some(DmaRegion::new(0x8000_0000, 3, 1)));
    assert_eq!(memory.dma_alloc(3, 0), Some(DmaRegion::new(0x8000_0003, 3, 1)));
}

#[test]
fn alignment_need_not_be_a_power_of_two() {
    let mut memory = MockMemory::new();
    assert_eq!(memory.dma_alloc(1, 1), Some(DmaRegion::new(0x8000_0000, 1, 1)));
    // 0x8000_0001 = 2147483649; the next multiple of 3 is 2147483649 itself.
    assert_eq!(memory.dma_alloc(2, 3), Some(DmaRegion::new(2147483649, 2, 3)));
    // cursor 2147483651; the next multiple of 10 is 2147483660.
    assert_eq!(memory.dma_alloc(5, 10), Some(DmaRegion::new(2147483660, 5, 10)));
}

#[test]
fn empty_request_is_refused() {
    let mut memory = MockMemory::new();
    assert_eq!(memory.dma_alloc(0, 8), None);
    assert_eq!(memory.dma_alloc(8, 8), Some(DmaRegion::new(0x8000_0000, 8, 8)));
}

#[test]
fn request_past_the_last_address_is_refused() {
    let mut memory = MockMemory::new();
    assert_eq!(memory.dma_alloc(usize::MAX, 1), None);
    assert_eq!(memory.allocations().len(), 0);
    assert_eq!(memory.dma_alloc(16, 16), Some(DmaRegion::new(0x8000_0000, 16, 16)));
    assert_eq!(memory.dma_alloc(16, usize::MAX), None);
}

#[test]
fn regions_are_aligned_and_in_order() {
    let mut memory = MockMemory::new();
    let requests: [(usize, usize); 6] = [(5, 2), (7, 8), (1, 0), (4096, 4096), (3, 7), (64, 64)];
    let mut granted: Vec<DmaRegion> = Vec::new();
    for (size, align) in requests {
        granted.push(memory.dma_alloc(size, align).unwrap());
    }
    for (i, region) in granted.iter().enumerate() {
        assert_eq!(region.paddr % region.align, 0);
        assert_eq!(region.size, requests[i].0);
        for later in &granted[i + 1..] {
            assert!(region.paddr + region.size <= later.paddr);
        }
    }
    assert_eq!(memory.allocations().as_slice(), granted.as_slice());
}

#[test]
fn table_keeps_the_first_sixteen() {
    let mut memory = MockMemory::new();
    for i in 0..20usize {
        assert_eq!(memory.dma_alloc(16, 16), Some(DmaRegion::new(0x8000_0000 + 16 * i, 16, 16)));
    }
    let table = memory.allocations();
    assert_eq!(table.len(), 16);
    assert_eq!(table[15].paddr, 0x8000_0000 + 16 * 15);
    memory.dma_flush(&table[0]);
    assert_eq!(memory.allocations(), table);
}

#[test]
fn memory_reset_starts_over() {
    let mut memory = MockMemory::new();
    assert!(memory.dma_alloc(100, 4).is_some());
    mock::memory::reset(&mut memory);
    assert_eq!(memory.allocations().len(), 0);
    assert_eq!(memory.dma_alloc(4, 4), Some(DmaRegion::new(0x8000_0000, 4, 4)));
}

#[test]
fn console_reads_back_in_order() {
    let mut console = MockConsole::new();
    assert!(console.supports_interrupts());
    console.write_bytes(b"hello");
    console.write_bytes(b" world");
    assert_eq!(console.snapshot().as_slice(), b"hello world");

    let mut buf = [b'-'; 4];
    assert_eq!(console.read_bytes(&mut buf), 4);
    assert_eq!(&buf, b"hell");
    assert_eq!(console.snapshot().as_slice(), b"o world");

    let mut big = [b'-'; 10];
    assert_eq!(console.read_bytes(&mut big), 7);
    assert_eq!(&big, b"o world---");
    assert_eq!(console.read_bytes(&mut big), 0);
    assert_eq!(&big, b"o world---");
}

#[test]
fn console_drops_what_does_not_fit() {
    let mut console = MockConsole::new();
    let first = [1u8; 250];
    let second = [2u8; 10];
    console.write_bytes(&first);
    console.write_bytes(&second);
    let held = console.snapshot();
    assert_eq!(held.len(), 256);
    assert_eq!(held[249], 1);
    assert_eq!(held[250], 2);
    assert_eq!(held[255], 2);
    console.write_bytes(b"x");
    assert_eq!(console.snapshot().len(), 256);

    console.clear();
    assert_eq!(console.snapshot().len(), 0);
    console.write_bytes(b"x");
    mock::console::reset(&mut console);
    assert_eq!(console.snapshot().len(), 0);
}

#[test]
fn irq_remembers_last_line() {
    let mut irq = MockIrqController::new();
    assert!(!irq.was_enabled());
    assert_eq!(irq.last_irq(), None);
    irq.acknowledge(5);
    assert_eq!(irq.last_irq(), None);
    irq.enable(32);
    assert!(irq.was_enabled());
    assert_eq!(irq.last_irq(), Some(32));
    irq.acknowledge(9);
    assert_eq!(irq.last_irq(), Some(9));
    irq.reset();
    assert_eq!(irq.last_irq(), None);
    irq.enable(3);
    mock::irq::reset(&mut irq);
    assert!(!irq.was_enabled());
    irq.enable(0);
    assert_eq!(irq.last_irq(), Some(0));
}

#[test]
fn log_records_in_order() {
    let mut log = EventLog::new();
    record(&mut log, Stage::PrimaryEarly, 0, 11);
    record_failure(&mut log, 4, DevError::AlreadyExists);
    record_failure(&mut log, 5, DevError::NoMemory);
    let events = snapshot(&log);
    assert_eq!(events.len(), 3);
    assert_eq!(events[0], LogEvent { stage: Stage::PrimaryEarly, cpu_id: 0, payload: 11 });
    assert_eq!(events[1], LogEvent { stage: Stage::Failure, cpu_id: 4, payload: 0 });
    assert_eq!(events[2], LogEvent { stage: Stage::Failure, cpu_id: 5, payload: 2 });
    mock::log::reset(&mut log);
    assert_eq!(snapshot(&log).len(), 0);
}

#[test]
fn full_log_drops_new_events() {
    let mut log = EventLog::new();
    for i in 0..40usize {
        record(&mut log, Stage::SecondaryEarly, i, 0);
    }
    let events = snapshot(&log);
    assert_eq!(events.len(), 32);
    assert_eq!(events[0].cpu_id, 0);
    assert_eq!(events[31].cpu_id, 31);
}
