use w5500::bus::ActiveBus;
use w5500::mock::MockTransfer;
use w5500::network::NetworkSettings;
use w5500::socket::{OwnedSockets, Socket};
use w5500::w5500::{OpenSocketError, W5500};

fn settings() -> NetworkSettings {
    NetworkSettings {
        mac: [0x02, 0x00, 0x00, 0x00, 0x00, 0x01],
        ip: [192, 168, 0, 10],
        gateway: [192, 168, 0, 1],
        subnet: [255, 255, 255, 0],
    }
}

#[test]
fn open_binds_slot_three_to_port_5000() {
    let registry = OwnedSockets::new(1);
    let handle = registry.handle(3);
    let controller = W5500::new(MockTransfer::new(), settings(), registry);
    let socket = match controller.open_udp_socket(5000, handle) {
        Ok(s) => s,
        Err(_) => panic!("an owned handle on a fault-free transport must open"),
    };
    assert_eq!(socket.port, 5000);
    let (bus, _network, _registry, handle) = socket.release();
    assert_eq!(handle.index(), 3);
    assert_eq!(bus.frame_count(), 1);
    let frame = bus.frame_at(0);
    // Slot 3's register block, source-port register, port 5000 big-endian.
    assert_eq!(frame.block, 13);
    assert_eq!(frame.address, 0x0004);
    assert!(frame.is_write);
    assert_eq!(frame.data, vec![0x13u8, 0x88u8]);
}

#[test]
fn foreign_handle_is_rejected_without_bus_traffic() {
    let own_registry = OwnedSockets::new(2);
    let other_registry = OwnedSockets::new(1);
    let foreign_handle = other_registry.handle(3);
    let controller = W5500::new(MockTransfer::new(), settings(), own_registry);
    let (controller, handle, error) = match controller.open_udp_socket(5000, foreign_handle) {
        Ok(_) => panic!("a foreign handle must be rejected"),
        Err(parts) => parts,
    };
    assert!(matches!(error, OpenSocketError::ForeignSocketError));
    // No hardware state changed, so the controller and the handle come back
    // intact.
    assert_eq!(handle.index(), 3);
    let (bus, _network, registry) = controller.release();
    assert_eq!(bus.frame_count(), 0);
    assert_eq!(registry.registry_id(), 2);
}

#[test]
fn open_surfaces_transport_fault_as_bus_error() {
    let registry = OwnedSockets::new(1);
    let handle = registry.handle(0);
    let controller = W5500::new(MockTransfer::with_fault(), settings(), registry);
    let (controller, handle, error) = match controller.open_udp_socket(80, handle) {
        Ok(_) => panic!("a faulty transport must not open"),
        Err(parts) => parts,
    };
    assert!(matches!(error, OpenSocketError::BusError(_)));
    assert_eq!(handle.index(), 0);
    let (bus, _network, _registry) = controller.release();
    assert_eq!(bus.frame_count(), 0);
}

#[test]
fn open_each_slot_targets_its_own_register_block() {
    let mut expected_blocks: Vec<u8> = Vec::new();
    let mut seen_blocks: Vec<u8> = Vec::new();
    let mut index: u8 = 0;
    while index < 8 {
        let registry = OwnedSockets::new(1);
        let handle = registry.handle(index);
        let controller = W5500::new(MockTransfer::new(), settings(), registry);
        let socket = match controller.open_udp_socket(7, handle) {
            Ok(s) => s,
            Err(_) => panic!("an owned handle on a fault-free transport must open"),
        };
        let (bus, _, _, _) = socket.release();
        expected_blocks.push(1 + 4 * index);
        seen_blocks.push(bus.frame_at(0).block);
        index += 1;
    }
    assert_eq!(seen_blocks, expected_blocks);
}

#[test]
fn open_port_zero_and_largest_port_round_to_exact_bytes() {
    let registry = OwnedSockets::new(1);
    let handle = registry.handle(0);
    let controller = W5500::new(MockTransfer::new(), settings(), registry);
    let socket = match controller.open_udp_socket(0, handle) {
        Ok(s) => s,
        Err(_) => panic!("an owned handle on a fault-free transport must open"),
    };
    let (bus, _, _, _) = socket.release();
    assert_eq!(bus.frame_at(0).data, vec![0x00u8, 0x00u8]);

    let registry = OwnedSockets::new(1);
    let handle = registry.handle(0);
    let controller = W5500::new(MockTransfer::new(), settings(), registry);
    let socket = match controller.open_udp_socket(65535, handle) {
        Ok(s) => s,
        Err(_) => panic!("an owned handle on a fault-free transport must open"),
    };
    let (bus, _, _, _) = socket.release();
    assert_eq!(bus.frame_at(0).data, vec![0xffu8, 0xffu8]);
}

#[test]
fn handles_carry_registry_identity_and_slot() {
    let registry = OwnedSockets::new(10);
    let other = OwnedSockets::new(11);
    let handle = registry.handle(5);
    assert!(handle.is_owned_by(&registry));
    assert!(!handle.is_owned_by(&other));
    assert_eq!(handle.index(), 5);
}

#[test]
fn mock_records_frames_in_order_and_leaves_buffers_alone() {
    let mut mock = MockTransfer::new();
    let mut first: Vec<u8> = vec![0xaa, 0xbb];
    let mut second: Vec<u8> = vec![0xcc];
    assert!(mock.transfer_frame(1, 0x10, true, &mut first).is_ok());
    assert!(mock.transfer_frame(5, 0x20, false, &mut second).is_ok());
    assert_eq!(first, vec![0xaa, 0xbb]);
    assert_eq!(mock.frame_count(), 2);
    assert_eq!(mock.frame_at(0).block, 1);
    assert_eq!(mock.frame_at(0).address, 0x10);
    assert_eq!(mock.frame_at(0).data, vec![0xaa, 0xbb]);
    assert_eq!(mock.frame_at(1).block, 5);
    assert!(!mock.frame_at(1).is_write);
    assert_eq!(mock.frame_at(1).data, vec![0xcc]);
}

#[test]
fn faulty_mock_records_nothing() {
    let mut mock = MockTransfer::with_fault();
    let mut data: Vec<u8> = vec![1, 2, 3];
    assert!(mock.transfer_frame(0, 0, true, &mut data).is_err());
    assert_eq!(mock.frame_count(), 0);
    assert_eq!(data, vec![1, 2, 3]);
}
