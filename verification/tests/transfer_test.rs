//! Transfer sessions: chunk ingestion, coverage, and finalization.

use bridgex::device::{Device, DeviceRegistry};
use bridgex::hashing::sha256;
use bridgex::transfer::{
    chunk_spans, FinalizeRequest, TransferError, TransferManager, TransferRequest, TransferStatus,
};

fn registry_with_device(id: u128) -> DeviceRegistry {
    let mut registry = DeviceRegistry::new();
    let device = Device::new(
        id,
        "Test Device".to_string(),
        "mobile".to_string(),
        vec![1, 2, 3],
        100,
    );
    registry.save_device(device).unwrap();
    registry
}

fn init(manager: &mut TransferManager, registry: &DeviceRegistry, data: &[u8]) -> usize {
    let resp = manager
        .init_transfer(
            registry,
            TransferRequest {
                device_id: 7,
                file_name: "file.bin".to_string(),
                file_size: data.len(),
                file_hash: sha256(data),
            },
            50,
        )
        .unwrap();
    assert_eq!(resp.status, TransferStatus::Pending);
    resp.transfer_id
}

#[test]
fn test_unknown_device_rejected() {
    let registry = DeviceRegistry::new();
    let mut manager = TransferManager::new();
    let r = manager.init_transfer(
        &registry,
        TransferRequest {
            device_id: 9,
            file_name: "f".to_string(),
            file_size: 1,
            file_hash: vec![0],
        },
        0,
    );
    assert_eq!(r.unwrap_err(), TransferError::UnknownDevice);
}

#[test]
fn test_unknown_transfer_rejected() {
    let mut manager = TransferManager::new();
    assert_eq!(
        manager.ingest_chunk(0, 0, b"x").unwrap_err(),
        TransferError::UnknownTransfer
    );
    assert_eq!(
        manager.finalize(FinalizeRequest { transfer_id: 3 }, 0).unwrap_err(),
        TransferError::UnknownTransfer
    );
    assert_eq!(manager.status(0).unwrap_err(), TransferError::UnknownTransfer);
}

#[test]
fn test_chunk_out_of_bounds() {
    let registry = registry_with_device(7);
    let mut manager = TransferManager::new();
    let tid = init(&mut manager, &registry, b"0123456789");
    let r = manager.ingest_chunk(tid, 8, b"abc");
    assert_eq!(r.unwrap_err(), TransferError::ChunkOutOfBounds);
}

#[test]
fn test_end_to_end_transfer() {
    let registry = registry_with_device(7);
    let mut manager = TransferManager::new();
    let tid = init(&mut manager, &registry, b"0123456789");

    let ack = manager.ingest_chunk(tid, 0, b"01234").unwrap();
    assert_eq!(ack.bytes_received, 5);
    assert_eq!(ack.total, 10);
    assert_eq!(manager.status(tid).unwrap().status, TransferStatus::Uploading);

    let ack = manager.ingest_chunk(tid, 5, b"56789").unwrap();
    assert_eq!(ack.bytes_received, 10);

    let artifact = manager.finalize(FinalizeRequest { transfer_id: tid }, 60).unwrap();
    assert_eq!(artifact, b"0123456789".to_vec());
    let progress = manager.status(tid).unwrap();
    assert_eq!(progress.status, TransferStatus::Completed);
    assert_eq!(progress.bytes_received, 10);
}

#[test]
fn test_chunk_idempotence() {
    let registry = registry_with_device(7);
    let mut manager = TransferManager::new();

    let once = init(&mut manager, &registry, b"0123456789");
    manager.ingest_chunk(once, 0, b"01234").unwrap();
    manager.ingest_chunk(once, 5, b"56789").unwrap();

    let twice = init(&mut manager, &registry, b"0123456789");
    manager.ingest_chunk(twice, 0, b"01234").unwrap();
    manager.ingest_chunk(twice, 5, b"56789").unwrap();
    let ack = manager.ingest_chunk(twice, 5, b"56789").unwrap();
    assert_eq!(ack.bytes_received, 10, "re-ingesting the same chunk adds no coverage");
    assert!(!ack.corrected, "identical bytes are no correction");

    let a = manager.finalize(FinalizeRequest { transfer_id: once }, 60).unwrap();
    let b = manager.finalize(FinalizeRequest { transfer_id: twice }, 60).unwrap();
    assert_eq!(a, b);
}

#[test]
fn test_chunk_overwrite_last_write_wins() {
    let registry = registry_with_device(7);
    let mut manager = TransferManager::new();
    let tid = init(&mut manager, &registry, b"ab");
    let first = manager.ingest_chunk(tid, 0, b"xy").unwrap();
    assert!(!first.corrected);
    let second = manager.ingest_chunk(tid, 0, b"ab").unwrap();
    assert!(second.corrected, "overwriting with different bytes is reported as a correction");
    let artifact = manager.finalize(FinalizeRequest { transfer_id: tid }, 60).unwrap();
    assert_eq!(artifact, b"ab".to_vec());
}

#[test]
fn test_out_of_order_assembly() {
    let in_order_data: Vec<u8> = (0..2000u32).map(|i| (i % 251) as u8).collect();
    let registry = registry_with_device(7);
    let mut manager = TransferManager::new();

    let out_of_order = init(&mut manager, &registry, &in_order_data);
    manager.ingest_chunk(out_of_order, 1000, &in_order_data[1000..2000]).unwrap();
    manager.ingest_chunk(out_of_order, 0, &in_order_data[0..1000]).unwrap();
    let a = manager.finalize(FinalizeRequest { transfer_id: out_of_order }, 60).unwrap();

    let in_order = init(&mut manager, &registry, &in_order_data);
    manager.ingest_chunk(in_order, 0, &in_order_data[0..1000]).unwrap();
    manager.ingest_chunk(in_order, 1000, &in_order_data[1000..2000]).unwrap();
    let b = manager.finalize(FinalizeRequest { transfer_id: in_order }, 60).unwrap();

    assert_eq!(a, b);
    assert_eq!(a, in_order_data);
}

#[test]
fn test_coverage_gap() {
    let registry = registry_with_device(7);
    let mut manager = TransferManager::new();
    let tid = init(&mut manager, &registry, b"0123456789");
    manager.ingest_chunk(tid, 0, b"01234").unwrap();
    // byte 5..10 missing
    let r = manager.finalize(FinalizeRequest { transfer_id: tid }, 60);
    assert_eq!(r.unwrap_err(), TransferError::IncompleteTransfer);
    assert_eq!(manager.status(tid).unwrap().status, TransferStatus::Uploading);

    // the transfer is retryable: fill the gap and finalize again
    manager.ingest_chunk(tid, 5, b"56789").unwrap();
    let artifact = manager.finalize(FinalizeRequest { transfer_id: tid }, 61).unwrap();
    assert_eq!(artifact, b"0123456789".to_vec());
}

#[test]
fn test_integrity_mismatch() {
    let registry = registry_with_device(7);
    let mut manager = TransferManager::new();
    let tid = init(&mut manager, &registry, b"0123456789");
    manager.ingest_chunk(tid, 0, b"0123456789").unwrap();
    // corrupt one byte after the hash was declared
    manager.ingest_chunk(tid, 4, b"X").unwrap();
    let r = manager.finalize(FinalizeRequest { transfer_id: tid }, 60);
    assert_eq!(r.unwrap_err(), TransferError::IntegrityError);
    assert_eq!(manager.status(tid).unwrap().status, TransferStatus::Failed);

    // terminal: neither chunks nor finalize are accepted any more
    assert_eq!(
        manager.ingest_chunk(tid, 0, b"0").unwrap_err(),
        TransferError::InvalidState
    );
    assert_eq!(
        manager.finalize(FinalizeRequest { transfer_id: tid }, 61).unwrap_err(),
        TransferError::InvalidState
    );
}

#[test]
fn test_empty_file_transfer() {
    let registry = registry_with_device(7);
    let mut manager = TransferManager::new();
    let tid = init(&mut manager, &registry, b"");
    let artifact = manager.finalize(FinalizeRequest { transfer_id: tid }, 60).unwrap();
    assert_eq!(artifact, Vec::<u8>::new());
    assert_eq!(manager.status(tid).unwrap().status, TransferStatus::Completed);
}

#[test]
fn test_transfers_are_independent() {
    let registry = registry_with_device(7);
    let mut manager = TransferManager::new();
    let first = init(&mut manager, &registry, b"aa");
    let second = init(&mut manager, &registry, b"bb");
    manager.ingest_chunk(first, 0, b"aa").unwrap();
    assert_eq!(manager.status(second).unwrap().bytes_received, 0);
    manager.ingest_chunk(second, 0, b"bb").unwrap();
    let a = manager.finalize(FinalizeRequest { transfer_id: first }, 60).unwrap();
    let b = manager.finalize(FinalizeRequest { transfer_id: second }, 60).unwrap();
    assert_eq!(a, b"aa".to_vec());
    assert_eq!(b, b"bb".to_vec());
}

#[test]
fn test_transfers_for_device() {
    let mut registry = registry_with_device(7);
    registry
        .save_device(Device::new(
            8,
            "Other".to_string(),
            "desktop".to_string(),
            vec![9],
            100,
        ))
        .unwrap();
    let mut manager = TransferManager::new();
    let t0 = init(&mut manager, &registry, b"a");
    let other = manager
        .init_transfer(
            &registry,
            TransferRequest {
                device_id: 8,
                file_name: "g".to_string(),
                file_size: 1,
                file_hash: vec![0],
            },
            50,
        )
        .unwrap()
        .transfer_id;
    let t2 = init(&mut manager, &registry, b"b");
    // newest first, as the transfer history is listed
    assert_eq!(manager.transfers_for_device(7), vec![t2, t0]);
    assert_eq!(manager.transfers_for_device(8), vec![other]);
    assert_eq!(manager.transfers_for_device(9), Vec::<usize>::new());
}

#[test]
fn test_chunk_spans() {
    assert_eq!(chunk_spans(10, 4), vec![(0, 4), (4, 4), (8, 2)]);
    assert_eq!(chunk_spans(8, 4), vec![(0, 4), (4, 4)]);
    assert_eq!(chunk_spans(3, 4), vec![(0, 3)]);
    assert_eq!(chunk_spans(0, 4), Vec::<(usize, usize)>::new());
}

#[test]
fn test_sha256_known_vector() {
    let digest = sha256(b"0123456789");
    assert_eq!(
        digest,
        vec![
            132, 216, 152, 119, 240, 212, 4, 30, 251, 107, 249, 26, 22, 240, 36, 143, 47, 213,
            115, 230, 175, 5, 193, 159, 150, 190, 219, 159, 136, 47, 120, 130
        ]
    );
    let empty_digest = sha256(b"");
    assert_eq!(
        empty_digest,
        vec![
            227, 176, 196, 66, 152, 252, 28, 20, 154, 251, 244, 200, 153, 111, 185, 36, 39, 174,
            65, 228, 100, 155, 147, 76, 164, 149, 153, 27, 120, 82, 184, 85
        ]
    );
}
