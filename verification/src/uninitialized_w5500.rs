//! The uninitialized lifecycle state of the controller.
//!
//! An uninitialized controller holds only the bus: no network configuration
//! and no socket-slot registry.  It is what a chip-level soft reset yields,
//! and it is promoted back to the active state by an outside initialization
//! collaborator that re-supplies both.

use crate::bus::ActiveBus;
use vstd::prelude::*;

verus! {

/// A controller over a chip whose configuration is not (or no longer) known:
/// it owns the active bus and nothing else.
pub struct UninitializedW5500<SpiBus: ActiveBus> {
    /// The active bus, the only resource this state carries.
    pub bus: SpiBus,
}

impl<SpiBus: ActiveBus> UninitializedW5500<SpiBus> {
    /// Wraps an active bus as an uninitialized controller.
    pub fn new(bus: SpiBus) -> (r: Self)
        ensures
            r.bus == bus,
    {
        UninitializedW5500 { bus }
    }

    /// Discards the wrapper and returns the bus to the caller.
    pub fn release(self) -> (bus: SpiBus)
        ensures
            bus == self.bus,
    {
        self.bus
    }
}

} // verus!
