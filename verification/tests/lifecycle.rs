use w5500::bus::{ActiveFourWire, ActiveThreeWire};
use w5500::mock::MockTransfer;
use w5500::network::NetworkSettings;
use w5500::socket::OwnedSockets;
use w5500::w5500::W5500;

fn settings() -> NetworkSettings {
    NetworkSettings {
        mac: [0x02, 0x00, 0x00, 0xab, 0xcd, 0xef],
        ip: [10, 0, 0, 2],
        gateway: [10, 0, 0, 1],
        subnet: [255, 255, 255, 0],
    }
}

#[test]
fn reset_writes_reset_bit_to_mode_register() {
    let controller = W5500::new(MockTransfer::new(), settings(), OwnedSockets::new(1));
    let uninitialized = match controller.reset() {
        Ok(u) => u,
        Err(_) => panic!("a fault-free transport must let reset complete"),
    };
    let bus = uninitialized.release();
    assert_eq!(bus.frame_count(), 1);
    let frame = bus.frame_at(0);
    assert_eq!(frame.block, 0b00000000);
    assert_eq!(frame.address, 0x0000);
    assert!(frame.is_write);
    assert_eq!(frame.data, vec![0b10000000u8]);
}

#[test]
fn reset_propagates_transport_fault() {
    let controller = W5500::new(MockTransfer::with_fault(), settings(), OwnedSockets::new(1));
    assert!(controller.reset().is_err());
}

#[test]
fn release_returns_the_resources_untouched() {
    let controller = W5500::new(MockTransfer::new(), settings(), OwnedSockets::new(9));
    let (bus, network, registry) = controller.release();
    assert_eq!(bus.frame_count(), 0);
    assert!(network == settings());
    assert_eq!(registry.registry_id(), 9);
}

#[test]
fn deactivate_then_activate_preserves_network_and_registry_four_wire() {
    let chip_select: u8 = 77;
    let bus = ActiveFourWire::new(MockTransfer::new(), chip_select);
    let controller = W5500::new(bus, settings(), OwnedSockets::new(5));
    let (inactive, spi) = controller.deactivate();
    let restored = inactive.activate(spi);
    let (bus, network, mut registry) = restored.release();
    assert_eq!(bus.cs, 77);
    assert_eq!(bus.spi.frame_count(), 0);
    assert!(network == settings());
    assert_eq!(registry.registry_id(), 5);
    let (s0, s1, s2, s3, s4, s5, s6, s7) = registry.borrow_slots();
    assert_eq!(s0.number(), 0);
    assert_eq!(s1.number(), 1);
    assert_eq!(s2.number(), 2);
    assert_eq!(s3.number(), 3);
    assert_eq!(s4.number(), 4);
    assert_eq!(s5.number(), 5);
    assert_eq!(s6.number(), 6);
    assert_eq!(s7.number(), 7);
}

#[test]
fn deactivate_then_activate_preserves_network_and_registry_three_wire() {
    let bus = ActiveThreeWire::new(MockTransfer::new());
    let controller = W5500::new(bus, settings(), OwnedSockets::new(6));
    let (inactive, spi) = controller.deactivate();
    let restored = inactive.activate(spi);
    let (bus, network, registry) = restored.release();
    assert_eq!(bus.spi.frame_count(), 0);
    assert!(network == settings());
    assert_eq!(registry.registry_id(), 6);
}

#[test]
fn reset_discards_network_and_registry() {
    let controller = W5500::new(MockTransfer::new(), settings(), OwnedSockets::new(2));
    let uninitialized = match controller.reset() {
        Ok(u) => u,
        Err(_) => panic!("a fault-free transport must let reset complete"),
    };
    // The uninitialized state carries the bus and nothing else: promoting it
    // back to an active controller means supplying a fresh configuration and
    // registry.
    let bus = uninitialized.release();
    let again = W5500::new(bus, settings(), OwnedSockets::new(3));
    let (_, _, registry) = again.release();
    assert_eq!(registry.registry_id(), 3);
}

#[test]
fn full_lifecycle_walk() {
    // Active -> Inactive -> Active -> Uninitialized: each state is its own
    // type, and each transition consumes its source, so an operation of the
    // active controller simply does not exist on the other two states.
    let bus = ActiveFourWire::new(MockTransfer::new(), 1u8);
    let controller = W5500::new(bus, settings(), OwnedSockets::new(8));
    let (inactive, spi) = controller.deactivate();
    let controller = inactive.activate(spi);
    let uninitialized = match controller.reset() {
        Ok(u) => u,
        Err(_) => panic!("a fault-free transport must let reset complete"),
    };
    let bus = uninitialized.release();
    assert_eq!(bus.spi.frame_count(), 1);
}

#[test]
fn slots_borrow_independently() {
    let mut controller = W5500::new(MockTransfer::new(), settings(), OwnedSockets::new(4));
    let (s0, s1, s2, s3, s4, s5, s6, s7) = controller.sockets();
    // All eight borrows are alive at once; each can be read and written
    // without touching the others.
    std::mem::swap(s0, s1);
    std::mem::swap(s6, s7);
    assert_eq!(s0.number(), 1);
    assert_eq!(s1.number(), 0);
    assert_eq!(s2.number(), 2);
    assert_eq!(s3.number(), 3);
    assert_eq!(s4.number(), 4);
    assert_eq!(s5.number(), 5);
    assert_eq!(s6.number(), 7);
    assert_eq!(s7.number(), 6);
    std::mem::swap(s0, s1);
    std::mem::swap(s6, s7);
    let (t0, _, _, _, _, _, _, t7) = controller.sockets();
    assert_eq!(t0.number(), 0);
    assert_eq!(t7.number(), 7);
}
