//! A reference interrupt controller that remembers what was asked of it.

use vstd::prelude::*;
use crate::mock::platform::AxUnifiedPlatform;
use crate::api::IrqIf;

verus! {

pub struct MockIrqController {
    enabled: bool,
    last_irq: u32,
}

impl MockIrqController {
    /// A controller on which no line has been enabled.
    pub fn new() -> (controller: Self)
        ensures
            !controller.any_enabled(),
            controller.last_line() == 0,
    {
        Self { enabled: false, last_irq: 0 }
    }

    /// The line touched last, once some line has been enabled.
    pub open spec fn last_irq_spec(&self) -> Option<u32> {
        if self.any_enabled() {
            Some(self.last_line())
        } else {
            None
        }
    }

    pub fn was_enabled(&self) -> (enabled: bool)
        ensures
            enabled == self.any_enabled(),
    {
        self.enabled
    }

    pub fn last_irq(&self) -> (line: Option<u32>)
        ensures
            line == self.last_irq_spec(),
    {
        if self.was_enabled() {
            Some(self.last_irq)
        } else {
            None
        }
    }

    /// Returns the controller to its first state.
    pub fn reset(&mut self)
        ensures
            !final(self).any_enabled(),
            final(self).last_line() == 0,
    {
        self.enabled = false;
        self.last_irq = 0;
    }
}

impl IrqIf for MockIrqController {
    closed spec fn any_enabled(&self) -> bool {
        self.enabled
    }

    closed spec fn last_line(&self) -> u32 {
        self.last_irq
    }

    fn enable(&mut self, irq: u32) {
        self.last_irq = irq;
        self.enabled = true;
    }

    fn acknowledge(&mut self, irq: u32) {
        self.last_irq = irq;
    }
}

/// Returns `controller` to its first state.
pub fn reset(controller: &mut MockIrqController)
    ensures
        !final(controller).any_enabled(),
        final(controller).last_line() == 0,
{
    controller.reset();
}

/// The platform's interrupt controller.
pub fn platform_irq(platform: &AxUnifiedPlatform) -> (controller: &MockIrqController)
    ensures
        controller.any_enabled() == platform@.irq_enabled,
        controller.last_line() == platform@.irq_last,
{
    platform.irq_backend()
}

} // verus!
