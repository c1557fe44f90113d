//! Hardware abstraction and staged bring-up for a small multi-core platform.
//!
//! The capability interfaces live in `api`, the bounded driver registry and
//! the built-in devices in `driver`, and the reference backends together with
//! the bring-up state machine in `mock`. `bounded` holds what is taken on
//! trust of the fixed-capacity vectors that the other modules store their
//! items in.

pub mod api;
pub mod bounded;
pub mod driver;
pub mod mock;

pub use api::{ConsoleIf, DmaRegion, InitIf, IrqIf, MemIf};
pub use driver::{DevError, DevResult, DeviceType, DriverSummary};
pub use mock::platform::AxUnifiedPlatform;
