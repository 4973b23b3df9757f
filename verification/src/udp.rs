//! The opened-socket object produced by the socket open protocol.
//!
//! Opening binds one hardware socket slot to a caller-chosen local port by
//! programming the slot's source-port register, then wraps the controller's
//! resources — bus, network configuration and slot registry — together with
//! the caller's slot token into a [`UdpSocket`].  The datagram send/receive
//! framing that runs over an opened socket is an outside collaborator and is
//! not part of this core.

use crate::bus::{ActiveBus, Frame};
use crate::network::Network;
use crate::register::{spec_socket_block, socket_block, SOCKET_SOURCE_PORT};
use crate::socket::{OwnedSockets, Socket};
use vstd::prelude::*;

verus! {

/// The one register write that binds socket slot `index` to local port
/// `port`: the port, most significant byte first, written to the slot's
/// source-port register.
pub open spec fn bind_frame(index: u8, port: u16) -> Frame {
    Frame {
        block: spec_socket_block(index),
        address: SOCKET_SOURCE_PORT,
        is_write: true,
        data: seq![(port >> 8) as u8, (port & 0xff) as u8],
    }
}

/// A socket slot bound to a local port, together with the resources it
/// exclusively owns while open: the bus, the network configuration, the slot
/// registry and the caller's slot token.  Releasing it hands all of them
/// back.
pub struct UdpSocket<SpiBus: ActiveBus, NetworkImpl: Network, SocketImpl: Socket> {
    /// The local port this socket is bound to.
    pub port: u16,
    /// The active bus, owned while the socket is open.
    pub bus: SpiBus,
    /// The network configuration, owned while the socket is open.
    pub network: NetworkImpl,
    /// The slot registry, owned while the socket is open.
    pub sockets: OwnedSockets,
    /// The caller's token for the bound slot, returned on release.
    pub handle: SocketImpl,
}

impl<SpiBus: ActiveBus, NetworkImpl: Network, SocketImpl: Socket> UdpSocket<
    SpiBus,
    NetworkImpl,
    SocketImpl,
> {
    /// Binds the slot named by `socket` to local port `port` and wraps the
    /// controller's resources into an opened socket.
    ///
    /// The binding is exactly one write of the port to the slot's
    /// source-port register.  If the transfer reports a transport fault,
    /// every resource is handed back unchanged alongside the fault.
    pub fn new(
        port: u16,
        bus: SpiBus,
        network: NetworkImpl,
        sockets: OwnedSockets,
        socket: SocketImpl,
    ) -> (r: Result<Self, (SpiBus, NetworkImpl, OwnedSockets, SocketImpl, SpiBus::Error)>)
        requires
            socket.slot_index() < 8,
        ensures
            r matches Ok(s) ==> s.port == port && s.network == network && s.sockets == sockets
                && s.handle == socket && s.bus.transfer_log() == bus.transfer_log().push(
                bind_frame(socket.slot_index(), port),
            ),
            r matches Err((b, n, k, h, _e)) ==> b.transfer_log() == bus.transfer_log() && n
                == network && k == sockets && h == socket,
    {
        let mut data: Vec<u8> = Vec::new();
        data.push((port >> 8) as u8);
        data.push((port & 0xff) as u8);
        proof {
            assert(data@ =~= seq![(port >> 8) as u8, (port & 0xff) as u8]);
        }
        let block = socket_block(socket.index());
        let mut bus = bus;
        match bus.transfer_frame(block, SOCKET_SOURCE_PORT, true, &mut data) {
            Ok(()) => Ok(UdpSocket { port, bus, network, sockets, handle: socket }),
            Err(e) => Err((bus, network, sockets, socket, e)),
        }
    }

    /// Closes the socket without touching the chip, handing every owned
    /// resource — and the caller's slot token — back.
    pub fn release(self) -> (r: (SpiBus, NetworkImpl, OwnedSockets, SocketImpl))
        ensures
            r == (self.bus, self.network, self.sockets, self.handle),
    {
        (self.bus, self.network, self.sockets, self.handle)
    }
}

} // verus!
