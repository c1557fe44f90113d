//! Device classes, the bounded driver registry and the built-in devices.

use vstd::prelude::*;
use vstd::string::StringSliceAdditionalSpecFns;
use crate::api::{accepted, align_up, ConsoleIf, DmaRegion, IrqIf, MemIf};
use crate::bounded::{
    same_name, summaries_clear, summaries_new, summaries_push, summaries_slice, summary_items,
};

verus! {

/// Functional class of a device.
#[derive(Clone, Copy, Debug, PartialEq, Eq, Structural)]
pub enum DeviceType {
    Block,
    Char,
    Net,
    Display,
}

/// Why a device operation failed.
#[derive(Clone, Copy, Debug, PartialEq, Eq, Structural)]
pub enum DevError {
    AlreadyExists,
    Io,
    NoMemory,
    Unsupported,
}

impl DevError {
    /// The number under which the error appears in a lifecycle log.
    pub open spec fn code_spec(&self) -> usize {
        match *self {
            DevError::AlreadyExists => 0,
            DevError::Io => 1,
            DevError::NoMemory => 2,
            DevError::Unsupported => 3,
        }
    }

    pub fn code(&self) -> (code: usize)
        ensures
            code == self.code_spec(),
    {
        match *self {
            DevError::AlreadyExists => 0,
            DevError::Io => 1,
            DevError::NoMemory => 2,
            DevError::Unsupported => 3,
        }
    }
}

/// The result of a device operation.
pub type DevResult<T = ()> = Result<T, DevError>;

/// What every registered device can say of itself.
pub trait BaseDriverOps {
    spec fn name_spec(&self) -> Seq<char>;

    spec fn type_spec(&self) -> DeviceType;

    fn device_name(&self) -> (name: &'static str)
        ensures
            name@ == self.name_spec(),
    ;

    fn device_type(&self) -> (device_type: DeviceType)
        ensures
            device_type == self.type_spec(),
    ;
}

/// Name and class of a registered device.
#[derive(Clone, Copy, Debug, PartialEq, Eq)]
pub struct DriverSummary {
    pub name: &'static str,
    pub device_type: DeviceType,
}

/// A summary with its name as a sequence of characters.
pub struct SummaryView {
    pub name: Seq<char>,
    pub device_type: DeviceType,
}

impl View for DriverSummary {
    type V = SummaryView;

    open spec fn view(&self) -> SummaryView {
        SummaryView { name: self.name@, device_type: self.device_type }
    }
}

/// The views of a sequence of summaries, in the same order.
pub open spec fn summary_views(items: Seq<DriverSummary>) -> Seq<SummaryView> {
    Seq::new(items.len(), |i: int| items[i]@)
}

/// What a vector of summaries holds, by view.
pub open spec fn summaries_held(v: heapless::Vec<DriverSummary, 8>) -> Seq<SummaryView> {
    summary_views(summary_items(v))
}

/// Whether some entry carries `name`.
pub open spec fn has_name(entries: Seq<SummaryView>, name: Seq<char>) -> bool {
    exists|i: int| 0 <= i < entries.len() && (#[trigger] entries[i]).name == name
}

/// No two entries share a name.
pub open spec fn names_unique(entries: Seq<SummaryView>) -> bool {
    forall|i: int, j: int|
        0 <= i < j < entries.len() ==> (#[trigger] entries[i]).name != (#[trigger] entries[j]).name
}

/// The most devices a registry holds.
pub const MAX_DRIVERS: usize = 8;

/// How registering `entry` into `entries` ends: a name already present is
/// refused first, then a full registry.
pub open spec fn register_outcome(entries: Seq<SummaryView>, entry: SummaryView) -> Result<
    (),
    DevError,
> {
    if has_name(entries, entry.name) {
        Err(DevError::AlreadyExists)
    } else if entries.len() >= MAX_DRIVERS {
        Err(DevError::NoMemory)
    } else {
        Ok(())
    }
}

/// The registry after an attempt to register `entry`: one longer on success,
/// untouched on either refusal.
pub open spec fn register_effect(entries: Seq<SummaryView>, entry: SummaryView) -> Seq<
    SummaryView,
> {
    if register_outcome(entries, entry).is_ok() {
        entries.push(entry)
    } else {
        entries
    }
}

/// Registering a name a second time is refused as `AlreadyExists` and leaves
/// the registry as the first attempt left it, provided the first attempt was
/// not itself turned away by a full registry.
pub proof fn lemma_second_registration_refused(
    entries: Seq<SummaryView>,
    first: SummaryView,
    second: SummaryView,
)
    requires
        first.name == second.name,
        register_outcome(entries, first) != Err::<(), DevError>(DevError::NoMemory),
    ensures
        register_outcome(register_effect(entries, first), second) == Err::<(), DevError>(
            DevError::AlreadyExists,
        ),
        register_effect(register_effect(entries, first), second) == register_effect(entries, first),
{
    let after = register_effect(entries, first);
    if register_outcome(entries, first).is_ok() {
        assert(after[entries.len() as int].name == second.name);
    } else {
        assert(has_name(entries, second.name));
    }
    assert(has_name(after, second.name));
}

/// A full registry refuses every device and keeps its entries as they are:
/// a new name gets `NoMemory`.
pub proof fn lemma_full_registry_refuses(entries: Seq<SummaryView>, entry: SummaryView)
    requires
        entries.len() >= MAX_DRIVERS,
    ensures
        register_outcome(entries, entry).is_err(),
        !has_name(entries, entry.name) ==> register_outcome(entries, entry) == Err::<(), DevError>(
            DevError::NoMemory,
        ),
        register_effect(entries, entry) == entries,
{
}

/// Registration keeps the registry within its bound and its names unique,
/// and never touches an entry that is already there.
pub proof fn lemma_registration_keeps_entries(entries: Seq<SummaryView>, entry: SummaryView)
    requires
        entries.len() <= MAX_DRIVERS,
        names_unique(entries),
    ensures
        register_effect(entries, entry).len() <= MAX_DRIVERS,
        names_unique(register_effect(entries, entry)),
        entries.is_prefix_of(register_effect(entries, entry)),
{
    let after = register_effect(entries, entry);
    if register_outcome(entries, entry).is_ok() {
        assert forall|i: int, j: int| 0 <= i < j < after.len() implies (#[trigger] after[i]).name
            != (#[trigger] after[j]).name by {
            if j == entries.len() {
                assert(entries[i].name != entry.name);
            } else {
                assert(entries[i].name != entries[j].name);
            }
        }
    }
}

/// The registered devices, in the order in which they were registered.
pub struct DriverRegistry {
    list: heapless::Vec<DriverSummary, 8>,
}

impl View for DriverRegistry {
    type V = Seq<SummaryView>;

    closed spec fn view(&self) -> Seq<SummaryView> {
        summaries_held(self.list)
    }
}

impl DriverRegistry {
    /// At most `MAX_DRIVERS` entries, no name twice.
    pub open spec fn wf(&self) -> bool {
        &&& self@.len() <= MAX_DRIVERS
        &&& names_unique(self@)
    }

    pub fn new() -> (registry: Self)
        ensures
            registry@ == Seq::<SummaryView>::empty(),
            registry.wf(),
    {
        let registry = Self { list: summaries_new() };
        assert(registry@ =~= Seq::<SummaryView>::empty());
        registry
    }

    /// Appends the device unless its name is taken or the registry is full.
    pub fn register_driver<D: BaseDriverOps + ?Sized>(&mut self, driver: &D) -> (outcome: DevResult)
        requires
            old(self).wf(),
        ensures
            final(self).wf(),
            outcome == register_outcome(
                old(self)@,
                (SummaryView { name: driver.name_spec(), device_type: driver.type_spec() }),
            ),
            final(self)@ == register_effect(
                old(self)@,
                (SummaryView { name: driver.name_spec(), device_type: driver.type_spec() }),
            ),
    {
        let name = driver.device_name();
        let device_type = driver.device_type();
        let ghost before = self@;
        let present = summaries_slice(&self.list);
        let mut i: usize = 0;
        while i < present.len()
            invariant
                0 <= i <= present.len(),
                present@ == summary_items(self.list),
                *self == *old(self),
                before == self@,
                self.wf(),
                name@ == driver.name_spec(),
                forall|k: int| 0 <= k < i ==> (#[trigger] before[k]).name != name@,
            decreases present.len() - i,
        {
            if same_name(present[i].name, name) {
                assert(before[i as int].name == name@);
                assert(has_name(before, name@));
                return Err(DevError::AlreadyExists);
            }
            i += 1;
        }
        let entry = DriverSummary { name, device_type };
        match summaries_push(&mut self.list, entry) {
            Ok(()) => {
                assert(self@ =~= before.push(entry@));
                Ok(())
            },
            Err(_) => Err(DevError::NoMemory),
        }
    }

    /// The live entries in registration order.
    pub fn entries(&self) -> (entries: &[DriverSummary])
        ensures
            summary_views(entries@) == self@,
    {
        summaries_slice(&self.list)
    }

    /// A copy of the entries, in registration order.
    pub fn summaries(&self) -> (out: heapless::Vec<DriverSummary, 8>)
        requires
            self.wf(),
        ensures
            summaries_held(out) == self@,
    {
        let mut out = summaries_new();
        let live = summaries_slice(&self.list);
        let mut i: usize = 0;
        while i < live.len()
            invariant
                0 <= i <= live.len(),
                live@.len() <= MAX_DRIVERS,
                summary_items(out) == live@.take(i as int),
            decreases live.len() - i,
        {
            let _ = summaries_push(&mut out, live[i]);
            assert(live@.take(i as int).push(live@[i as int]) =~= live@.take(i + 1));
            i += 1;
        }
        assert(live@.take(i as int) =~= live@);
        out
    }

    /// Empties the registry.
    pub fn clear(&mut self)
        ensures
            final(self)@ == Seq::<SummaryView>::empty(),
            final(self).wf(),
    {
        summaries_clear(&mut self.list);
        assert(self@ =~= Seq::<SummaryView>::empty());
    }
}

/// The platform console as a registered device.
pub struct ConsoleDriver {}

impl ConsoleDriver {
    pub const NAME: &'static str = "platform-console";
}

impl BaseDriverOps for ConsoleDriver {
    open spec fn name_spec(&self) -> Seq<char> {
        ConsoleDriver::NAME@
    }

    open spec fn type_spec(&self) -> DeviceType {
        DeviceType::Char
    }

    fn device_name(&self) -> (name: &'static str) {
        Self::NAME
    }

    fn device_type(&self) -> (device_type: DeviceType) {
        DeviceType::Char
    }
}

/// How a virtio device is reached.
#[derive(Clone, Copy, Debug)]
pub enum VirtIoTransport {
    Mmio { base_paddr: usize, irq_line: u32 },
}

impl VirtIoTransport {
    pub open spec fn irq_line_spec(&self) -> u32 {
        match *self {
            VirtIoTransport::Mmio { irq_line, .. } => irq_line,
        }
    }

    /// The interrupt line of the device behind this transport.
    pub fn irq_line(&self) -> (line: u32)
        ensures
            line == self.irq_line_spec(),
    {
        match *self {
            VirtIoTransport::Mmio { irq_line, .. } => irq_line,
        }
    }
}

/// Size and alignment of the buffer a network device asks for.
pub const NET_BUFFER_BYTES: usize = 4096;

/// A virtio network device.
pub struct VirtIoNetDriver {
    name: &'static str,
    transport: VirtIoTransport,
    ready: bool,
}

/// What one call of `VirtIoNetDriver::initialize` does to the backends, given
/// whether the device was ready before, its interrupt line, and the two
/// backends before and after:
/// a ready device touches nothing and succeeds; otherwise the outcome is the
/// allocator's: a buffer granted at the first aligned address, followed by the
/// line being enabled, or `NoMemory` with the cursor and the interrupt
/// controller as they were.
pub open spec fn bring_up_outcome<M: MemIf, I: IrqIf>(
    was_ready: bool,
    line: u32,
    mem_before: M,
    mem_after: M,
    irq_before: I,
    irq_after: I,
    outcome: Result<(), DevError>,
) -> bool {
    if was_ready {
        &&& outcome == Ok::<(), DevError>(())
        &&& mem_after == mem_before
        &&& irq_after == irq_before
    } else if mem_after.cursor() == mem_before.cursor() {
        &&& outcome == Err::<(), DevError>(DevError::NoMemory)
        &&& mem_before.alloc_effect(&mem_after, NET_BUFFER_BYTES, NET_BUFFER_BYTES, None)
        &&& irq_after == irq_before
    } else {
        &&& outcome == Ok::<(), DevError>(())
        &&& mem_after.cursor() == net_buffer(mem_before.cursor()).end()
        &&& mem_before.alloc_effect(
            &mem_after,
            NET_BUFFER_BYTES,
            NET_BUFFER_BYTES,
            Some(net_buffer(mem_before.cursor())),
        )
        &&& irq_after.any_enabled()
        &&& irq_after.last_line() == line
    }
}

/// The buffer that a network device gets from an allocator whose cursor is at
/// `cursor`.
pub open spec fn net_buffer(cursor: int) -> DmaRegion {
    DmaRegion {
        paddr: align_up(cursor, NET_BUFFER_BYTES as int) as usize,
        size: NET_BUFFER_BYTES,
        align: NET_BUFFER_BYTES,
    }
}

impl VirtIoNetDriver {
    pub const NAME: &'static str = "virtio-net@10000000";

    /// Whether bring-up has been attempted.
    pub closed spec fn is_ready(&self) -> bool {
        self.ready
    }

    pub closed spec fn transport(&self) -> VirtIoTransport {
        self.transport
    }

    pub closed spec fn name(&self) -> Seq<char> {
        self.name@
    }

    /// A device called `name` behind `transport`, not yet brought up.
    pub fn new(name: &'static str, transport: VirtIoTransport) -> (driver: Self)
        ensures
            !driver.is_ready(),
            driver.name() == name@,
            driver.transport() == transport,
    {
        Self { name, transport, ready: false }
    }

    /// Brings the device up on the first call and does nothing on later ones.
    ///
    /// The device counts as ready from the first attempt on, whether or not
    /// that attempt got its buffer: a failed bring-up is not tried again.
    pub fn initialize<M: MemIf, I: IrqIf>(&mut self, mem: &mut M, irq: &mut I) -> (outcome: DevResult)
        ensures
            final(self).is_ready(),
            final(self).name() == old(self).name(),
            final(self).transport() == old(self).transport(),
            bring_up_outcome(
                old(self).is_ready(),
                old(self).transport().irq_line_spec(),
                *old(mem),
                *final(mem),
                *old(irq),
                *final(irq),
                outcome,
            ),
    {
        let was_ready = self.ready;
        self.ready = true;
        if was_ready {
            return Ok(());
        }
        match mem.dma_alloc(NET_BUFFER_BYTES, NET_BUFFER_BYTES) {
            None => Err(DevError::NoMemory),
            Some(_buffer) => {
                irq.enable(self.transport.irq_line());
                Ok(())
            },
        }
    }

    /// Makes the device forget that it was brought up.
    pub fn reset(&mut self)
        ensures
            !final(self).is_ready(),
            final(self).name() == old(self).name(),
            final(self).transport() == old(self).transport(),
    {
        self.ready = false;
    }
}

impl BaseDriverOps for VirtIoNetDriver {
    open spec fn name_spec(&self) -> Seq<char> {
        self.name()
    }

    open spec fn type_spec(&self) -> DeviceType {
        DeviceType::Net
    }

    fn device_name(&self) -> (name: &'static str) {
        self.name
    }

    fn device_type(&self) -> (device_type: DeviceType) {
        DeviceType::Net
    }
}

/// The devices that every platform has, in the order in which they are
/// registered: the console, then the network device.
pub struct BuiltinDrivers {
    pub console: ConsoleDriver,
    pub net: VirtIoNetDriver,
}

/// The registry entries of the built-in devices, in registration order.
pub open spec fn builtin_entries() -> Seq<SummaryView> {
    seq![
        SummaryView { name: ConsoleDriver::NAME@, device_type: DeviceType::Char },
        SummaryView { name: VirtIoNetDriver::NAME@, device_type: DeviceType::Net },
    ]
}

/// The built-in devices as they are before bring-up: the network device is
/// memory-mapped at `0x1000_0000`, on interrupt line 32, and not ready.
pub fn builtin_drivers() -> (drivers: BuiltinDrivers)
    ensures
        !drivers.net.is_ready(),
        drivers.net.name() == VirtIoNetDriver::NAME@,
        drivers.net.transport() == (VirtIoTransport::Mmio {
            base_paddr: 0x1000_0000,
            irq_line: 32,
        }),
{
    BuiltinDrivers {
        console: ConsoleDriver {  },
        net: VirtIoNetDriver::new(
            VirtIoNetDriver::NAME,
            VirtIoTransport::Mmio { base_paddr: 0x1000_0000, irq_line: 32 },
        ),
    }
}

/// The line that the console shows once it is up.
pub open spec fn ready_banner() -> Seq<u8> {
    "[console] ready\n".spec_bytes()
}

/// The banner is the sixteen ASCII bytes of `[console] ready` and a line feed.
pub proof fn lemma_ready_banner()
    ensures
        ready_banner() == seq![
            0x5bu8, 0x63, 0x6f, 0x6e, 0x73, 0x6f, 0x6c, 0x65, 0x5d, 0x20, 0x72, 0x65, 0x61, 0x64,
            0x79, 0x0a,
        ],
{
    reveal_strlit("[console] ready\n");
    let s = "[console] ready\n";
    assert(vstd::string::is_ascii(s));
    vstd::string::is_ascii_spec_bytes(s);
    assert(ready_banner() =~= seq![
        0x5bu8, 0x63, 0x6f, 0x6e, 0x73, 0x6f, 0x6c, 0x65, 0x5d, 0x20, 0x72, 0x65, 0x61, 0x64,
        0x79, 0x0a,
    ]);
}

/// Announces the console and brings the network device up.
pub fn prepare_builtin_drivers<C: ConsoleIf, M: MemIf, I: IrqIf>(
    console: &mut C,
    drivers: &mut BuiltinDrivers,
    mem: &mut M,
    irq: &mut I,
) -> (outcome: DevResult)
    ensures
        final(console).buffered() == old(console).buffered() + accepted(
            old(console).buffered(),
            old(console).limit(),
            ready_banner(),
        ),
        final(console).limit() == old(console).limit(),
        final(drivers).net.is_ready(),
        final(drivers).net.name() == old(drivers).net.name(),
        final(drivers).net.transport() == old(drivers).net.transport(),
        bring_up_outcome(
            old(drivers).net.is_ready(),
            old(drivers).net.transport().irq_line_spec(),
            *old(mem),
            *final(mem),
            *old(irq),
            *final(irq),
            outcome,
        ),
{
    console.write_bytes("[console] ready\n".as_bytes());
    drivers.net.initialize(mem, irq)
}

/// Returns the built-in devices to their state before bring-up.
pub fn reset_for_tests(drivers: &mut BuiltinDrivers)
    ensures
        !final(drivers).net.is_ready(),
        final(drivers).net.name() == old(drivers).net.name(),
        final(drivers).net.transport() == old(drivers).net.transport(),
{
    drivers.net.reset();
}

} // verus!
