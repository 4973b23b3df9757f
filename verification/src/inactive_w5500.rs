//! The inactive lifecycle state of the controller.
//!
//! An inactive controller is produced by deactivating an active one: the
//! transfer primitive has been detached from the bus and handed back to the
//! caller, while the wiring-mode identity, the network configuration and the
//! socket-slot registry are all preserved.  Re-supplying a transfer
//! primitive restores the active state with both intact.

use crate::bus::{ActiveBus, ActiveFourWire, ActiveThreeWire, FourWire, ThreeWire};
use crate::network::Network;
use crate::socket::OwnedSockets;
use crate::w5500::W5500;
use vstd::prelude::*;

verus! {

/// A controller whose bus transport is detached: it keeps the deactivated
/// bus, the network configuration and the slot registry, but can touch the
/// chip only after a transfer primitive is re-supplied.
pub struct InactiveW5500<InactiveBus, NetworkImpl: Network> {
    /// The deactivated bus, retaining the wiring-mode identity.
    pub bus: InactiveBus,
    /// The network configuration, preserved across deactivation.
    pub network: NetworkImpl,
    /// The socket-slot registry, preserved across deactivation.
    pub sockets: OwnedSockets,
}

impl<InactiveBus, NetworkImpl: Network> InactiveW5500<InactiveBus, NetworkImpl> {
    /// Wraps a deactivated bus together with the preserved network
    /// configuration and slot registry.
    pub fn new(bus: InactiveBus, network: NetworkImpl, sockets: OwnedSockets) -> (r: Self)
        ensures
            r.bus == bus,
            r.network == network,
            r.sockets == sockets,
    {
        InactiveW5500 { bus, network, sockets }
    }
}

impl<ChipSelect, NetworkImpl: Network> InactiveW5500<FourWire<ChipSelect>, NetworkImpl> {
    /// The active controller that re-supplying `spi` to this 4-wire state
    /// yields.
    pub open spec fn activate_spec<Spi: ActiveBus>(self, spi: Spi) -> W5500<
        ActiveFourWire<Spi, ChipSelect>,
        NetworkImpl,
    > {
        W5500 {
            bus: ActiveFourWire { spi, cs: self.bus.cs },
            network: self.network,
            sockets: self.sockets,
        }
    }

    /// Reattaches a transfer primitive to the 4-wire bus, restoring the
    /// active controller with the network configuration and slot registry
    /// unchanged.
    pub fn activate<Spi: ActiveBus>(self, spi: Spi) -> (r: W5500<
        ActiveFourWire<Spi, ChipSelect>,
        NetworkImpl,
    >)
        ensures
            r == self.activate_spec(spi),
    {
        W5500 { bus: self.bus.activate(spi), network: self.network, sockets: self.sockets }
    }
}

impl<NetworkImpl: Network> InactiveW5500<ThreeWire, NetworkImpl> {
    /// The active controller that re-supplying `spi` to this 3-wire state
    /// yields.
    pub open spec fn activate_spec<Spi: ActiveBus>(self, spi: Spi) -> W5500<
        ActiveThreeWire<Spi>,
        NetworkImpl,
    > {
        W5500 { bus: ActiveThreeWire { spi }, network: self.network, sockets: self.sockets }
    }

    /// Reattaches a transfer primitive to the 3-wire bus, restoring the
    /// active controller with the network configuration and slot registry
    /// unchanged.
    pub fn activate<Spi: ActiveBus>(self, spi: Spi) -> (r: W5500<ActiveThreeWire<Spi>, NetworkImpl>)
        ensures
            r == self.activate_spec(spi),
    {
        W5500 { bus: self.bus.activate(spi), network: self.network, sockets: self.sockets }
    }
}

} // verus!
