//! The peer connection registry.

use bridgex::p2p::{ConnectionManager, ConnectionType, PeerConnection};

fn conn(device_id: u128, name: &str, connection_type: ConnectionType) -> PeerConnection {
    PeerConnection {
        device_id,
        device_name: name.to_string(),
        connection_type,
        established_at: 1000,
    }
}

#[test]
fn test_connection_lifecycle() {
    let mut manager = ConnectionManager::new();
    assert_eq!(manager.connection_count(), 0);

    manager.add_connection(conn(1, "Phone", ConnectionType::WebRTC));
    manager.add_connection(conn(2, "Laptop", ConnectionType::Tcp));
    assert_eq!(manager.connection_count(), 2);

    let c = manager.get_connection(1).unwrap();
    assert_eq!(c.device_name, "Phone");
    assert!(matches!(c.connection_type, ConnectionType::WebRTC));
    assert!(manager.get_connection(3).is_none());

    assert!(manager.remove_connection(1));
    assert_eq!(manager.connection_count(), 1);
    assert!(manager.get_connection(1).is_none());
    assert!(!manager.remove_connection(1));
}

#[test]
fn test_add_connection_replaces() {
    let mut manager = ConnectionManager::default();
    manager.add_connection(conn(1, "Phone", ConnectionType::WebRTC));
    manager.add_connection(conn(1, "Phone", ConnectionType::WebSocket));
    assert_eq!(manager.connection_count(), 1);
    let c = manager.get_connection(1).unwrap();
    assert!(matches!(c.connection_type, ConnectionType::WebSocket));
}
