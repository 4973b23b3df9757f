//! The active lifecycle state of the controller, and its transitions.
//!
//! An active controller owns the wired-and-active bus, the network
//! configuration and the socket-slot registry.  Every chip operation that
//! needs an active, configured link — opening a socket, resetting the chip,
//! deactivating the bus — is a method of this type and of no other, so that
//! calling one from the wrong lifecycle state is a type error rather than a
//! runtime fault.

use crate::bus::{ActiveBus, ActiveFourWire, ActiveThreeWire, Frame, FourWire, ThreeWire};
use crate::inactive_w5500::InactiveW5500;
use crate::network::Network;
use crate::register::{COMMON, MODE, MODE_RESET};
use crate::socket::{OwnedSockets, Socket, Sockets};
use crate::udp::{bind_frame, UdpSocket};
use crate::uninitialized_w5500::UninitializedW5500;
use vstd::prelude::*;

verus! {

/// The one register write that soft-resets the chip: the mode register of
/// the chip-common block, written with the reset bit set.
pub open spec fn reset_frame() -> Frame {
    Frame { block: COMMON, address: MODE, is_write: true, data: seq![MODE_RESET] }
}

/// An active controller: the chip is reachable over a wired-and-active bus,
/// and the network configuration and the eight socket slots are exclusively
/// owned here.
pub struct W5500<SpiBus: ActiveBus, NetworkImpl: Network> {
    /// The wired-and-active bus.
    pub bus: SpiBus,
    /// The network configuration.
    pub network: NetworkImpl,
    /// The registry of the chip's eight socket slots.
    pub sockets: OwnedSockets,
}

impl<SpiBus: ActiveBus, NetworkImpl: Network> W5500<SpiBus, NetworkImpl> {
    /// Assembles an active controller from the bus, the network
    /// configuration and the slot registry.
    pub fn new(bus: SpiBus, network: NetworkImpl, sockets: OwnedSockets) -> (r: Self)
        ensures
            r.bus == bus,
            r.network == network,
            r.sockets == sockets,
    {
        W5500 { bus, network, sockets }
    }

    /// Borrows all eight socket slots at once, in slot order: eight
    /// disjoint mutable borrows that the caller may hold and use
    /// independently.  The bus, the network configuration and the
    /// registry's identity are untouched, whatever the caller does with
    /// the borrows.
    pub fn sockets<'a>(&'a mut self) -> (r: Sockets<'a>)
        ensures
            *r.0 == old(self).sockets.slot(0),
            *r.1 == old(self).sockets.slot(1),
            *r.2 == old(self).sockets.slot(2),
            *r.3 == old(self).sockets.slot(3),
            *r.4 == old(self).sockets.slot(4),
            *r.5 == old(self).sockets.slot(5),
            *r.6 == old(self).sockets.slot(6),
            *r.7 == old(self).sockets.slot(7),
            final(self).bus == old(self).bus,
            final(self).network == old(self).network,
            final(self).sockets.id() == old(self).sockets.id(),
            final(self).sockets.slot(0) == *final(r.0),
            final(self).sockets.slot(1) == *final(r.1),
            final(self).sockets.slot(2) == *final(r.2),
            final(self).sockets.slot(3) == *final(r.3),
            final(self).sockets.slot(4) == *final(r.4),
            final(self).sockets.slot(5) == *final(r.5),
            final(self).sockets.slot(6) == *final(r.6),
            final(self).sockets.slot(7) == *final(r.7),
    {
        self.sockets.borrow_slots()
    }

    /// Soft-resets the chip and downgrades to the uninitialized state.
    ///
    /// Exactly one write transfer is issued: the reset bit to the mode
    /// register of the chip-common block.  On success the network
    /// configuration and the slot registry are discarded — the chip has
    /// forgotten them — and only the bus is carried into the result.  A
    /// transport fault is propagated verbatim, and the chip's logical state
    /// is then taken as unchanged.
    pub fn reset(self) -> (r: Result<UninitializedW5500<SpiBus>, SpiBus::Error>)
        ensures
            r matches Ok(u) ==> u.bus.transfer_log() == self.bus.transfer_log().push(
                reset_frame(),
            ),
    {
        let mut this = self;
        match this.clear_mode() {
            Ok(()) => Ok(UninitializedW5500::new(this.bus)),
            Err(e) => Err(e),
        }
    }

    /// Writes the reset bit to the chip-common mode register: the one bus
    /// transfer of the reset protocol.
    fn clear_mode(&mut self) -> (r: Result<(), SpiBus::Error>)
        ensures
            final(self).network == old(self).network,
            final(self).sockets == old(self).sockets,
            r matches Ok(()) ==> final(self).bus.transfer_log() == old(
                self,
            ).bus.transfer_log().push(reset_frame()),
            r matches Err(_) ==> final(self).bus.transfer_log() == old(self).bus.transfer_log(),
    {
        let mut mode: Vec<u8> = Vec::new();
        mode.push(MODE_RESET);
        proof {
            assert(mode@ =~= seq![MODE_RESET]);
        }
        match self.bus.transfer_frame(COMMON, MODE, true, &mut mode) {
            Ok(()) => Ok(()),
            Err(e) => Err(e),
        }
    }

    /// Opens a socket bound to local port `port` against the slot named by
    /// the caller's token.
    ///
    /// The token's provenance is checked first: a token allocated from a
    /// different registry is rejected as [`OpenSocketError::ForeignSocketError`]
    /// before any bus traffic, and — since no chip state changed — the
    /// controller and the token are handed back intact rather than
    /// stranded.  A token of this registry leads to exactly one binding
    /// write; a transport fault during it surfaces as
    /// [`OpenSocketError::BusError`], again with the controller and the
    /// token handed back.
    pub fn open_udp_socket<SocketImpl: Socket>(self, port: u16, socket: SocketImpl) -> (r: Result<
        UdpSocket<SpiBus, NetworkImpl, SocketImpl>,
        (W5500<SpiBus, NetworkImpl>, SocketImpl, OpenSocketError<SpiBus::Error>),
    >)
        requires
            socket.slot_index() < 8,
        ensures
            socket.owner_id() != self.sockets.id() ==> (r matches Err((w, h, e)) && w == self && h
                == socket && e is ForeignSocketError),
            r matches Ok(s) ==> socket.owner_id() == self.sockets.id() && s.port == port
                && s.network == self.network && s.sockets == self.sockets && s.handle == socket
                && s.bus.transfer_log() == self.bus.transfer_log().push(
                bind_frame(socket.slot_index(), port),
            ),
            r matches Err((w, h, e)) ==> w.network == self.network && w.sockets == self.sockets
                && w.bus.transfer_log() == self.bus.transfer_log() && h == socket && (e
                is ForeignSocketError <==> socket.owner_id() != self.sockets.id()),
    {
        if socket.is_owned_by(&self.sockets) {
            match UdpSocket::new(port, self.bus, self.network, self.sockets, socket) {
                Ok(s) => Ok(s),
                Err((bus, network, sockets, handle, e)) => Err(
                    (W5500 { bus, network, sockets }, handle, OpenSocketError::BusError(e)),
                ),
            }
        } else {
            Err((self, socket, OpenSocketError::ForeignSocketError))
        }
    }

    /// Discards the active wrapper without touching the chip, returning the
    /// raw bus, network configuration and slot registry to the caller.
    pub fn release(self) -> (r: (SpiBus, NetworkImpl, OwnedSockets))
        ensures
            r == (self.bus, self.network, self.sockets),
    {
        (self.bus, self.network, self.sockets)
    }
}

impl<Spi: ActiveBus, ChipSelect, NetworkImpl: Network> W5500<
    ActiveFourWire<Spi, ChipSelect>,
    NetworkImpl,
> {
    /// The inactive state and the detached transfer primitive that
    /// deactivating this 4-wire controller yields.
    pub open spec fn deactivate_spec(self) -> (InactiveW5500<FourWire<ChipSelect>, NetworkImpl>, Spi) {
        (
            InactiveW5500 {
                bus: FourWire { cs: self.bus.cs },
                network: self.network,
                sockets: self.sockets,
            },
            self.bus.spi,
        )
    }

    /// Detaches the transfer primitive from the 4-wire bus and downgrades
    /// to the inactive state, handing the primitive back to the caller.  A
    /// pure resource transfer: no bus traffic, and the network
    /// configuration and slot registry are preserved.
    pub fn deactivate(self) -> (r: (InactiveW5500<FourWire<ChipSelect>, NetworkImpl>, Spi))
        ensures
            r == self.deactivate_spec(),
    {
        let (bus, spi) = self.bus.deactivate();
        (InactiveW5500::new(bus, self.network, self.sockets), spi)
    }
}

impl<Spi: ActiveBus, NetworkImpl: Network> W5500<ActiveThreeWire<Spi>, NetworkImpl> {
    /// The inactive state and the detached transfer primitive that
    /// deactivating this 3-wire controller yields.
    pub open spec fn deactivate_spec(self) -> (InactiveW5500<ThreeWire, NetworkImpl>, Spi) {
        (
            InactiveW5500 { bus: ThreeWire {  }, network: self.network, sockets: self.sockets },
            self.bus.spi,
        )
    }

    /// Detaches the transfer primitive from the 3-wire bus and downgrades
    /// to the inactive state, handing the primitive back to the caller.  A
    /// pure resource transfer: no bus traffic, and the network
    /// configuration and slot registry are preserved.
    pub fn deactivate(self) -> (r: (InactiveW5500<ThreeWire, NetworkImpl>, Spi))
        ensures
            r == self.deactivate_spec(),
    {
        let (bus, spi) = self.bus.deactivate();
        (InactiveW5500::new(bus, self.network, self.sockets), spi)
    }
}

/// Deactivating a 4-wire controller and re-supplying the detached transfer
/// primitive restores the controller exactly: the bus (primitive and
/// chip-select alike), the network configuration and the slot registry all
/// come back unchanged.
pub proof fn lemma_deactivate_activate_round_trip_four_wire<
    Spi: ActiveBus,
    ChipSelect,
    NetworkImpl: Network,
>(w: W5500<ActiveFourWire<Spi, ChipSelect>, NetworkImpl>)
    ensures
        ({
            let (inactive, spi) = w.deactivate_spec();
            inactive.activate_spec(spi) == w
        }),
{
}

/// Deactivating a 3-wire controller and re-supplying the detached transfer
/// primitive restores the controller exactly: the bus, the network
/// configuration and the slot registry all come back unchanged.
pub proof fn lemma_deactivate_activate_round_trip_three_wire<Spi: ActiveBus, NetworkImpl: Network>(
    w: W5500<ActiveThreeWire<Spi>, NetworkImpl>,
)
    ensures
        ({
            let (inactive, spi) = w.deactivate_spec();
            inactive.activate_spec(spi) == w
        }),
{
}

/// Why opening a socket failed: a local misuse (a token from a different
/// registry) or a hardware-level transport fault, so that callers can
/// branch on which of the two it was.
pub enum OpenSocketError<BusError> {
    /// The caller's token was not allocated from this controller's
    /// registry; no bus traffic occurred.
    ForeignSocketError,
    /// The binding transfer reported a transport fault, propagated here
    /// verbatim.
    BusError(BusError),
}

/// A token was presented to a registry it was not allocated from.
pub struct ForeignSocketError {}

} // verus!
