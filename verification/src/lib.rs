//! Type-state driver core for a W5500 Ethernet controller chip on a serial
//! peripheral bus.
//!
//! The chip's lifecycle is modeled as three distinct types — an active
//! controller ([`w5500::W5500`]), an inactive one ([`inactive_w5500::InactiveW5500`])
//! and an uninitialized one ([`uninitialized_w5500::UninitializedW5500`]) — so
//! that operations requiring an active, configured link are compile-time
//! preconditions.  The raw bus transport, the network-configuration subsystem
//! and the per-socket wire protocol are outside collaborators, consumed here
//! through the capability traits in [`bus`], [`network`] and [`socket`].

pub mod bus;
pub mod inactive_w5500;
pub mod mock;
pub mod network;
pub mod register;
pub mod socket;
pub mod udp;
pub mod uninitialized_w5500;
pub mod w5500;
