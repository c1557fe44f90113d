//! The bring-up state machine over the reference backends.
//!
//! All state that the lifecycle hooks touch lives in one `AxUnifiedPlatform`.
//! Callers that share it between cores put it behind a lock: every hook takes
//! the platform exclusively, so one bring-up runs at a time and a later caller
//! sees what an earlier one committed.

use vstd::prelude::*;
use crate::api::{accepted, ConsoleIf, DmaRegion, InitIf, IrqIf, MemIf, PlatformCall};
use crate::driver::{
    builtin_drivers, builtin_entries, prepare_builtin_drivers, ready_banner, summaries_held,
    summary_views, BuiltinDrivers, ConsoleDriver, DevError, DriverRegistry, DriverSummary,
    SummaryView, VirtIoNetDriver, NET_BUFFER_BYTES,
};
use crate::mock::console::{MockConsole, CONSOLE_CAPACITY};
use crate::mock::irq::MockIrqController;
use crate::mock::log::{failure_event, log_after, record, record_failure, EventLog, LogEvent, Stage};
use crate::mock::memory::{
    cursor_after, grant, lemma_align_up_is_least, table_after, MockMemory, BASE_PADDR,
};

verus! {

/// The interrupt line of the built-in network device.
pub const NET_IRQ_LINE: u32 = 32;

/// Everything a platform holds, as plain values.
pub struct PlatformView {
    /// Console bytes written and not yet read.
    pub console: Seq<u8>,
    /// Whether any interrupt line has been enabled.
    pub irq_enabled: bool,
    /// The interrupt line touched last.
    pub irq_last: u32,
    /// The DMA allocator's cursor.
    pub cursor: int,
    /// The DMA allocator's table of issued regions.
    pub issued: Seq<DmaRegion>,
    /// The lifecycle log.
    pub log: Seq<LogEvent>,
    /// Whether bring-up of the network device has been attempted.
    pub net_ready: bool,
    /// The registry, in registration order.
    pub registered: Seq<SummaryView>,
    /// Whether bring-up has been committed.
    pub initialized: bool,
}

impl PlatformView {
    /// The registry is empty until bring-up is committed and holds exactly the
    /// built-in devices from then on.
    pub open spec fn wf(&self) -> bool {
        &&& self.cursor >= 0
        &&& self.initialized ==> self.registered == builtin_entries()
        &&& !self.initialized ==> self.registered == Seq::<SummaryView>::empty()
    }
}

/// A platform on which nothing has happened yet.
pub open spec fn fresh() -> PlatformView {
    PlatformView {
        console: Seq::empty(),
        irq_enabled: false,
        irq_last: 0,
        cursor: BASE_PADDR as int,
        issued: Seq::empty(),
        log: Seq::empty(),
        net_ready: false,
        registered: Seq::empty(),
        initialized: false,
    }
}

/// One full bring-up on a platform that has not committed one.
///
/// The console announces itself. A network device that is not ready asks for
/// its buffer; if that is refused, bring-up fails with `NoMemory`, nothing is
/// registered and nothing is committed, but the device stays marked ready.
/// Otherwise its line is enabled. A device that was marked ready before is
/// taken as brought up. Then both built-in devices are registered and the
/// bring-up is committed.
pub open spec fn bring_up(v: PlatformView) -> (PlatformView, Result<(), DevError>) {
    let announced = PlatformView {
        console: v.console + accepted(v.console, CONSOLE_CAPACITY as nat, ready_banner()),
        net_ready: true,
        ..v
    };
    let committed = PlatformView { registered: builtin_entries(), initialized: true, ..announced };
    if v.net_ready {
        (committed, Ok(()))
    } else {
        let granted = grant(v.cursor, NET_BUFFER_BYTES, NET_BUFFER_BYTES);
        if granted is Some {
            (
                PlatformView {
                    cursor: cursor_after(v.cursor, granted),
                    issued: table_after(v.issued, granted),
                    irq_enabled: true,
                    irq_last: NET_IRQ_LINE,
                    ..committed
                },
                Ok(()),
            )
        } else {
            (announced, Err(DevError::NoMemory))
        }
    }
}

/// Bring-up on demand: nothing at all once a bring-up is committed, one full
/// bring-up otherwise.
pub open spec fn ensure_initialized_model(v: PlatformView) -> (PlatformView, Result<(), DevError>) {
    if v.initialized {
        (v, Ok(()))
    } else {
        bring_up(v)
    }
}

/// The platform with `event` offered to its log.
pub open spec fn logged(v: PlatformView, event: LogEvent) -> PlatformView {
    PlatformView { log: log_after(v.log, event), ..v }
}

/// The late hook of the primary core: bring-up on demand, then one log entry
/// that says how it went.
pub open spec fn init_later_model(v: PlatformView, cpu_id: usize, arg: usize) -> PlatformView {
    let (after, outcome) = ensure_initialized_model(v);
    match outcome {
        Ok(_) => logged(after, (LogEvent { stage: Stage::PrimaryLate, cpu_id, payload: arg })),
        Err(err) => logged(after, failure_event(cpu_id, err)),
    }
}

/// The platform after `call`. Only the late hook of the primary core brings
/// the platform up; reading the registry changes nothing.
pub open spec fn step(v: PlatformView, call: PlatformCall) -> PlatformView {
    match call {
        PlatformCall::InitEarly { cpu_id, arg } => logged(
            v,
            (LogEvent { stage: Stage::PrimaryEarly, cpu_id, payload: arg }),
        ),
        PlatformCall::InitLater { cpu_id, arg } => init_later_model(v, cpu_id, arg),
        PlatformCall::InitEarlySecondary { cpu_id } => logged(
            v,
            (LogEvent { stage: Stage::SecondaryEarly, cpu_id, payload: 0 }),
        ),
        PlatformCall::InitLaterSecondary { cpu_id } => logged(
            v,
            (LogEvent { stage: Stage::SecondaryLate, cpu_id, payload: 0 }),
        ),
        PlatformCall::DriverSummaries => v,
    }
}

/// The platform after `calls`, made in order.
pub open spec fn run(v: PlatformView, calls: Seq<PlatformCall>) -> PlatformView
    decreases calls.len(),
{
    if calls.len() == 0 {
        v
    } else {
        step(run(v, calls.drop_last()), calls.last())
    }
}

/// The two built-in devices carry different names.
pub proof fn lemma_builtin_names_differ()
    ensures
        ConsoleDriver::NAME@ != VirtIoNetDriver::NAME@,
        builtin_entries().len() == 2,
{
    reveal_strlit("platform-console");
    reveal_strlit("virtio-net@10000000");
    assert(ConsoleDriver::NAME@.len() == 16);
    assert(VirtIoNetDriver::NAME@.len() == 19);
}

/// Every call keeps a well-formed platform well formed.
pub proof fn lemma_step_preserves_wf(v: PlatformView, call: PlatformCall)
    requires
        v.wf(),
    ensures
        step(v, call).wf(),
{
    lemma_align_up_is_least(v.cursor, NET_BUFFER_BYTES as int);
}

/// Bring-up commits once: after a call of "ensure initialized" that
/// succeeded, any further call succeeds and changes nothing, so each device's
/// buffer is allocated and its line enabled by the first call alone, and the
/// registry holds the two built-in devices, each once.
pub proof fn lemma_commit_is_idempotent(v: PlatformView)
    requires
        v.wf(),
        ensure_initialized_model(v).1 is Ok,
    ensures
        ensure_initialized_model(ensure_initialized_model(v).0) == (
            ensure_initialized_model(v).0,
            Ok::<(), DevError>(()),
        ),
        ensure_initialized_model(v).0.registered == builtin_entries(),
        builtin_entries().len() == 2,
{
    lemma_builtin_names_differ();
}

/// Once bring-up is committed, no sequence of calls changes anything but the
/// log: no further buffer is allocated, no line enabled, nothing written to
/// the console, and the registry keeps its two entries, however often and from
/// whichever core the hooks are called.
pub proof fn lemma_committed_platform_only_logs(v: PlatformView, calls: Seq<PlatformCall>)
    requires
        v.wf(),
        v.initialized,
    ensures
        run(v, calls) == (PlatformView { log: run(v, calls).log, ..v }),
    decreases calls.len(),
{
    if calls.len() > 0 {
        lemma_committed_platform_only_logs(v, calls.drop_last());
    }
}

/// A registry that holds something is never changed by a call: whatever list
/// of summaries was seen once is seen again after any further call.
pub proof fn lemma_registry_stable(v: PlatformView, call: PlatformCall)
    requires
        v.wf(),
        v.registered.len() > 0,
    ensures
        step(v, call).registered == v.registered,
{
}

/// The same over any number of calls.
pub proof fn lemma_registry_stable_over_calls(v: PlatformView, calls: Seq<PlatformCall>)
    requires
        v.wf(),
        v.registered.len() > 0,
    ensures
        run(v, calls).wf(),
        run(v, calls).registered == v.registered,
    decreases calls.len(),
{
    if calls.len() > 0 {
        lemma_registry_stable_over_calls(v, calls.drop_last());
        lemma_step_preserves_wf(run(v, calls.drop_last()), calls.last());
        lemma_registry_stable(run(v, calls.drop_last()), calls.last());
    }
}

/// The platform: its backends, its built-in devices, the registry and the
/// commit flag.
pub struct AxUnifiedPlatform {
    pub console: MockConsole,
    pub irq: MockIrqController,
    pub memory: MockMemory,
    pub log: EventLog,
    devices: BuiltinDrivers,
    drivers: DriverRegistry,
    initialized: bool,
}

impl View for AxUnifiedPlatform {
    type V = PlatformView;

    closed spec fn view(&self) -> PlatformView {
        PlatformView {
            console: self.console.buffered(),
            irq_enabled: self.irq.any_enabled(),
            irq_last: self.irq.last_line(),
            cursor: self.memory.cursor(),
            issued: self.memory.issued(),
            log: self.log@,
            net_ready: self.devices.net.is_ready(),
            registered: self.drivers@,
            initialized: self.initialized,
        }
    }
}

impl AxUnifiedPlatform {
    /// The view is well formed and the network device is the built-in one.
    pub closed spec fn wf(&self) -> bool {
        &&& self@.wf()
        &&& self.drivers.wf()
        &&& self.devices.net.name() == VirtIoNetDriver::NAME@
        &&& self.devices.net.transport().irq_line_spec() == NET_IRQ_LINE
    }

    /// A platform on which nothing has happened yet.
    pub fn new() -> (platform: Self)
        ensures
            platform.wf(),
            platform@ == fresh(),
    {
        let platform = Self {
            console: MockConsole::new(),
            irq: MockIrqController::new(),
            memory: MockMemory::new(),
            log: EventLog::new(),
            devices: builtin_drivers(),
            drivers: DriverRegistry::new(),
            initialized: false,
        };
        platform
    }

    pub(crate) fn console_backend(&self) -> (console: &MockConsole)
        ensures
            console.buffered() == self@.console,
    {
        &self.console
    }

    pub(crate) fn irq_backend(&self) -> (controller: &MockIrqController)
        ensures
            controller.any_enabled() == self@.irq_enabled,
            controller.last_line() == self@.irq_last,
    {
        &self.irq
    }

    pub(crate) fn memory_backend(&self) -> (memory: &MockMemory)
        ensures
            memory.cursor() == self@.cursor,
            memory.issued() == self@.issued,
    {
        &self.memory
    }

    /// Brings the platform up unless that has been done: see
    /// `ensure_initialized_model`.
    pub fn ensure_initialized(&mut self) -> (outcome: Result<(), DevError>)
        requires
            old(self).wf(),
        ensures
            final(self).wf(),
            (final(self)@, outcome) == ensure_initialized_model(old(self)@),
            old(self)@.initialized ==> *final(self) == *old(self),
    {
        if self.initialized {
            return Ok(());
        }
        proof {
            lemma_builtin_names_differ();
            lemma_align_up_is_least(
                self.memory.cursor(),
                NET_BUFFER_BYTES as int,
            );
        }
        match prepare_builtin_drivers(
            &mut self.console,
            &mut self.devices,
            &mut self.memory,
            &mut self.irq,
        ) {
            Ok(()) => {},
            Err(err) => {
                return Err(err);
            },
        }
        match self.drivers.register_driver(&self.devices.console) {
            Ok(()) => {},
            Err(err) => {
                return Err(err);
            },
        }
        match self.drivers.register_driver(&self.devices.net) {
            Ok(()) => {},
            Err(err) => {
                return Err(err);
            },
        }
        self.initialized = true;
        assert(self.drivers@ =~= builtin_entries());
        Ok(())
    }

    /// A copy of the registry as it stands. Reading it brings nothing up: on
    /// a platform that has not committed a bring-up the copy is empty.
    pub fn driver_summaries(&self) -> (summaries: heapless::Vec<DriverSummary, 8>)
        requires
            self.wf(),
        ensures
            summaries_held(summaries) == self@.registered,
            step(self@, PlatformCall::DriverSummaries) == self@,
    {
        self.drivers.summaries()
    }

    /// A new platform that allocates from `memory` instead of a fresh
    /// allocator; everything else is as in `new`.
    pub fn with_memory(memory: MockMemory) -> (platform: Self)
        ensures
            platform.wf(),
            platform@ == (PlatformView {
                cursor: memory.cursor(),
                issued: memory.issued(),
                ..fresh()
            }),
    {
        proof {
            memory.lemma_cursor_in_range();
        }
        let platform = Self {
            console: MockConsole::new(),
            irq: MockIrqController::new(),
            memory,
            log: EventLog::new(),
            devices: builtin_drivers(),
            drivers: DriverRegistry::new(),
            initialized: false,
        };
        platform
    }

    /// Exchanges the platform's allocator for `memory` and returns the one it
    /// had; nothing else changes.
    pub fn replace_memory(&mut self, memory: MockMemory) -> (previous: MockMemory)
        requires
            old(self).wf(),
        ensures
            final(self).wf(),
            final(self)@ == (PlatformView {
                cursor: memory.cursor(),
                issued: memory.issued(),
                ..old(self)@
            }),
            previous.cursor() == old(self)@.cursor,
            previous.issued() == old(self)@.issued,
    {
        proof {
            memory.lemma_cursor_in_range();
        }
        let mut incoming = memory;
        core::mem::swap(&mut self.memory, &mut incoming);
        incoming
    }

    pub(crate) fn log_backend(&self) -> (log: &EventLog)
        ensures
            log@ == self@.log,
    {
        &self.log
    }

    /// Returns the platform to the state of a new one.
    pub fn reset_for_tests(&mut self)
        requires
            old(self).wf(),
        ensures
            final(self).wf(),
            final(self)@ == fresh(),
    {
        self.initialized = false;
        self.drivers.clear();
        crate::driver::reset_for_tests(&mut self.devices);
        crate::mock::console::reset(&mut self.console);
        crate::mock::irq::reset(&mut self.irq);
        crate::mock::memory::reset(&mut self.memory);
        crate::mock::log::reset(&mut self.log);
    }
}

impl InitIf for AxUnifiedPlatform {
    open spec fn hook_ready(&self) -> bool {
        self.wf()
    }

    open spec fn hook_effect(&self, after: &Self, call: PlatformCall) -> bool {
        after.wf() && after@ == step(self@, call)
    }

    fn init_early(&mut self, cpu_id: usize, arg: usize) {
        record(&mut self.log, Stage::PrimaryEarly, cpu_id, arg);
    }

    fn init_later(&mut self, cpu_id: usize, arg: usize) {
        match self.ensure_initialized() {
            Err(err) => {
                record_failure(&mut self.log, cpu_id, err);
            },
            Ok(()) => {
                record(&mut self.log, Stage::PrimaryLate, cpu_id, arg);
            },
        }
    }

    fn init_early_secondary(&mut self, cpu_id: usize) {
        record(&mut self.log, Stage::SecondaryEarly, cpu_id, 0);
    }

    fn init_later_secondary(&mut self, cpu_id: usize) {
        record(&mut self.log, Stage::SecondaryLate, cpu_id, 0);
    }
}

/// Hands the registry's entries, in registration order, to `f` and returns
/// what `f` makes of them.
pub fn with_registered<F, R>(platform: &AxUnifiedPlatform, f: F) -> (result: R) where
    F: FnOnce(&[DriverSummary]) -> R,

    requires
        forall|entries: &[DriverSummary]|
            summary_views(entries@) == platform@.registered ==> #[trigger] f.requires((entries,)),
    ensures
        exists|entries: &[DriverSummary]|
            summary_views(entries@) == platform@.registered && #[trigger] f.ensures(
                (entries,),
                result,
            ),
{
    f(platform.drivers.entries())
}

} // verus!
