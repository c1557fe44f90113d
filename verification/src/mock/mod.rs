//! Reference backends and the bring-up state machine built on them.

use vstd::prelude::*;
use crate::api::{ConsoleIf, IrqIf, MemIf};
use crate::mock::console::MockConsole;
use crate::mock::irq::MockIrqController;
use crate::mock::memory::MockMemory;
use crate::mock::platform::AxUnifiedPlatform;

pub mod console;
pub mod irq;
pub mod log;
pub mod memory;
pub mod platform;

verus! {

/// The platform's console.
pub fn platform_console(platform: &AxUnifiedPlatform) -> (console: &MockConsole)
    ensures
        console.buffered() == platform@.console,
{
    console::platform_console(platform)
}

/// The platform's interrupt controller.
pub fn platform_irq(platform: &AxUnifiedPlatform) -> (controller: &MockIrqController)
    ensures
        controller.any_enabled() == platform@.irq_enabled,
        controller.last_line() == platform@.irq_last,
{
    irq::platform_irq(platform)
}

/// The platform's DMA allocator.
pub fn platform_memory(platform: &AxUnifiedPlatform) -> (memory: &MockMemory)
    ensures
        memory.cursor() == platform@.cursor,
        memory.issued() == platform@.issued,
{
    memory::platform_memory(platform)
}

} // verus!
