//! The network-configuration capability the controller carries.
//!
//! What a network configuration contains and how it is programmed into the
//! chip is an outside collaborator; this core only moves the configuration
//! value intact across the lifecycle transitions that preserve it.  The
//! [`Network`] trait marks a type as such a configuration; [`NetworkSettings`]
//! is a plain address-block configuration for callers that need a concrete
//! one.

use vstd::prelude::*;

verus! {

/// A network configuration owned by the controller: opaque to this core,
/// moved intact across the transitions that preserve it and dropped by the
/// ones that clear chip state.
pub trait Network: Sized {

}

/// A plain network configuration: the chip's hardware address and IPv4
/// address block.
#[derive(PartialEq)]
pub struct NetworkSettings {
    /// Hardware (MAC) address, most significant byte first.
    pub mac: [u8; 6],
    /// IPv4 address of the chip.
    pub ip: [u8; 4],
    /// IPv4 address of the gateway.
    pub gateway: [u8; 4],
    /// Subnet mask.
    pub subnet: [u8; 4],
}

impl Network for NetworkSettings {

}

} // verus!
