//! The device registry: upsert, lookup, listing, and deletion.

use bridgex::device::{Device, DeviceRegistry};
use bridgex::pairing::PairingError;

#[test]
fn test_database_init() {
    let registry = DeviceRegistry::new();
    assert_eq!(registry.list_devices().len(), 0);
}

#[test]
fn test_save_and_get_device() {
    let mut registry = DeviceRegistry::new();
    let device = Device::new(
        1,
        "Test Device".to_string(),
        "mobile".to_string(),
        vec![1, 2, 3],
        500,
    );
    registry.save_device(device).unwrap();

    let found = registry.get_device(1).unwrap();
    assert_eq!(found.name, "Test Device");
    assert_eq!(found.device_type, "mobile");
    assert_eq!(found.public_key, vec![1, 2, 3]);
}

#[test]
fn test_list_devices() {
    let mut registry = DeviceRegistry::new();
    registry
        .save_device(Device::new(1, "Device 1".to_string(), "mobile".to_string(), vec![1], 500))
        .unwrap();
    registry
        .save_device(Device::new(2, "Device 2".to_string(), "desktop".to_string(), vec![2], 501))
        .unwrap();
    assert_eq!(registry.list_devices().len(), 2);
}

#[test]
fn test_list_devices_newest_first() {
    let mut registry = DeviceRegistry::new();
    registry
        .save_device(Device::new(1, "First".to_string(), "mobile".to_string(), vec![1], 100))
        .unwrap();
    registry
        .save_device(Device::new(2, "Second".to_string(), "desktop".to_string(), vec![2], 200))
        .unwrap();
    let devices = registry.list_devices();
    assert_eq!(devices[0].id, 2, "the most recently paired device leads");
    assert_eq!(devices[1].id, 1);
}

#[test]
fn test_delete_device() {
    let mut registry = DeviceRegistry::new();
    registry
        .save_device(Device::new(1, "Test Device".to_string(), "mobile".to_string(), vec![1], 500))
        .unwrap();
    assert!(registry.delete_device(1));
    assert!(registry.get_device(1).is_none());
    assert!(!registry.delete_device(1));
}

#[test]
fn test_update_device_last_seen() {
    let mut registry = DeviceRegistry::new();
    registry
        .save_device(Device::new(1, "Test Device".to_string(), "mobile".to_string(), vec![1], 100))
        .unwrap();
    // re-pairing with the same id and key only brings last_seen forward
    registry
        .save_device(Device::new(1, "Test Device".to_string(), "mobile".to_string(), vec![1], 900))
        .unwrap();
    let device = registry.get_device(1).unwrap();
    assert_eq!(device.paired_at, 100);
    assert_eq!(device.last_seen, Some(900));
    assert_eq!(registry.list_devices().len(), 1);
}

#[test]
fn test_key_mismatch_rejected() {
    let mut registry = DeviceRegistry::new();
    registry
        .save_device(Device::new(1, "Test Device".to_string(), "mobile".to_string(), vec![1], 100))
        .unwrap();
    let imposter = Device::new(1, "Imposter".to_string(), "mobile".to_string(), vec![2], 900);
    let r = registry.save_device(imposter);
    assert_eq!(r.unwrap_err(), PairingError::KeyMismatch);

    // the stored record is untouched
    let device = registry.get_device(1).unwrap();
    assert_eq!(device.name, "Test Device");
    assert_eq!(device.public_key, vec![1]);
    assert_eq!(device.last_seen, Some(100));
}
