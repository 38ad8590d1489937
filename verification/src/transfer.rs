//! Transfer sessions: a state machine that accepts out-of-order, offset-addressed
//! chunk writes, tracks byte coverage, and assembles and verifies the final
//! artifact against a declared content hash.
//!
//! Chunks are addressed by byte offset and the scheme is fixed for the lifetime
//! of a transfer.  Payload authentication with the per-transfer session key
//! (see `keys`) is the transport boundary's job and precedes ingestion.

use crate::hashing::{bytes_equal, sha256, sha256_of};
use vstd::prelude::*;

verus! {

/// Lifecycle of one transfer.
#[derive(Clone, Copy, PartialEq, Eq, Structural, Debug)]
pub enum TransferStatus {
    Pending,
    Uploading,
    Assembling,
    Completed,
    Failed,
}

/// Why a transfer operation was rejected.
#[derive(Clone, Copy, PartialEq, Eq, Structural, Debug)]
pub enum TransferError {
    /// The device id of a transfer-initialization request is not paired.
    UnknownDevice,
    /// The transfer id does not name a transfer.
    UnknownTransfer,
    /// The chunk's byte range does not fit within the declared size.
    ChunkOutOfBounds,
    /// The operation is not allowed in the session's current state.
    InvalidState,
    /// Finalize was attempted while some byte range is still missing;
    /// recoverable, the client may send the missing chunks and retry.
    IncompleteTransfer,
    /// The assembled content's hash differs from the declared hash; fatal for
    /// this transfer.
    IntegrityError,
}

/// Acknowledgment for one accepted chunk: what has been received so far.
#[derive(Clone, Copy, PartialEq, Eq, Structural, Debug)]
pub struct ChunkAck {
    /// Offset of the acknowledged chunk.
    pub offset: usize,
    /// Length of the acknowledged chunk.
    pub chunk_len: usize,
    /// Cumulative number of distinct covered byte positions.
    pub bytes_received: usize,
    /// Declared total size of the file.
    pub total: usize,
    /// The chunk overwrote an already-covered position with a different byte.
    pub corrected: bool,
}

/// A point-in-time report of a transfer's progress.
#[derive(Clone, Copy, PartialEq, Eq, Structural, Debug)]
pub struct TransferProgress {
    pub status: TransferStatus,
    /// Number of distinct covered byte positions.
    pub bytes_received: usize,
    /// Declared total size of the file.
    pub total: usize,
}

/// The mathematical state of a transfer session.
#[verifier::ext_equal]
pub struct TransferModel {
    pub device_id: u128,
    pub file_name: Seq<char>,
    pub declared_size: nat,
    pub declared_hash: Seq<u8>,
    pub status: TransferStatus,
    pub created_at: u64,
    pub completed_at: Option<u64>,
    /// Staged bytes, one per position of the declared size.
    pub staged: Seq<u8>,
    /// Which byte positions a chunk has covered so far.
    pub covered: Seq<bool>,
}

/// Overwrite `staged` at positions `offset ..< offset + bytes.len()` with
/// `bytes`; every other position keeps its value.
pub open spec fn write_bytes(staged: Seq<u8>, offset: int, bytes: Seq<u8>) -> Seq<u8> {
    staged.map(
        |i: int, b: u8|
            if offset <= i < offset + bytes.len() {
                bytes[i - offset]
            } else {
                b
            },
    )
}

/// Mark positions `offset ..< offset + len` covered; every other position
/// keeps its value.
pub open spec fn mark_covered(covered: Seq<bool>, offset: int, len: int) -> Seq<bool> {
    covered.map(
        |i: int, c: bool|
            if offset <= i < offset + len {
                true
            } else {
                c
            },
    )
}

/// How many positions of `s` are `true`.
pub open spec fn count_true(s: Seq<bool>) -> nat
    decreases s.len(),
{
    if s.len() == 0 {
        0
    } else {
        count_true(s.drop_last()) + if s.last() {
            1nat
        } else {
            0nat
        }
    }
}

pub proof fn lemma_count_true_bound(s: Seq<bool>)
    ensures
        count_true(s) <= s.len(),
    decreases s.len(),
{
    if s.len() > 0 {
        lemma_count_true_bound(s.drop_last());
    }
}

impl TransferModel {
    /// Structural well-formedness: the staging area and the coverage record
    /// both span exactly the declared size, and a completion timestamp exists
    /// exactly for a completed transfer.
    pub open spec fn wf(self) -> bool {
        &&& self.staged.len() == self.declared_size
        &&& self.covered.len() == self.declared_size
        &&& (self.status is Completed <==> self.completed_at is Some)
    }

    /// Every byte position from 0 to the declared size is covered.
    pub open spec fn complete(self) -> bool {
        forall|i: int| 0 <= i < self.covered.len() ==> self.covered[i]
    }

    /// Chunks are accepted only before finalization succeeds or fails, and only
    /// within the declared size.
    pub open spec fn accepts_chunk(self, offset: int, len: int) -> bool {
        &&& self.status is Pending || self.status is Uploading
        &&& 0 <= offset
        &&& offset + len <= self.declared_size
    }

    /// The session after ingesting one chunk: the chunk's bytes overwrite the
    /// staged positions (last write wins), those positions become covered, and
    /// the session is uploading.
    pub open spec fn with_chunk(self, offset: int, bytes: Seq<u8>) -> TransferModel {
        TransferModel {
            status: TransferStatus::Uploading,
            staged: write_bytes(self.staged, offset, bytes),
            covered: mark_covered(self.covered, offset, bytes.len() as int),
            ..self
        }
    }

    /// The chunk overwrites an already-covered position with a different
    /// byte: a client-side retry the server tolerates, but reports as a
    /// correction rather than silently dropping.
    pub open spec fn corrects(self, offset: int, bytes: Seq<u8>) -> bool {
        exists|j: int|
            offset <= j < offset + bytes.len() && #[trigger] self.covered[j] && self.staged[j]
                != bytes[j - offset]
    }

    /// Finalization is attempted only before the session reaches a terminal
    /// state.
    pub open spec fn accepts_finalize(self) -> bool {
        self.status is Pending || self.status is Uploading
    }

    /// The assembled artifact matches the declared content hash.
    pub open spec fn integrity_ok(self) -> bool {
        sha256_of(self.staged) == self.declared_hash
    }
}

/// One file transfer's lifecycle, from initialization through chunk ingestion
/// to a finalized, verified artifact.
pub struct TransferSession {
    pub device_id: u128,
    pub file_name: String,
    pub declared_size: usize,
    pub declared_hash: Vec<u8>,
    pub status: TransferStatus,
    pub created_at: u64,
    pub completed_at: Option<u64>,
    pub staging: Vec<u8>,
    pub covered: Vec<bool>,
}

impl View for TransferSession {
    type V = TransferModel;

    open spec fn view(&self) -> TransferModel {
        TransferModel {
            device_id: self.device_id,
            file_name: self.file_name@,
            declared_size: self.declared_size as nat,
            declared_hash: self.declared_hash@,
            status: self.status,
            created_at: self.created_at,
            completed_at: self.completed_at,
            staged: self.staging@,
            covered: self.covered@,
        }
    }
}

impl TransferSession {
    /// Open a new session in the `Pending` state, with an empty staging area
    /// of the declared size and nothing covered.
    pub fn new(
        device_id: u128,
        file_name: String,
        declared_size: usize,
        declared_hash: Vec<u8>,
        now: u64,
    ) -> (r: TransferSession)
        ensures
            r@.wf(),
            r@.device_id == device_id,
            r@.file_name == file_name@,
            r@.declared_size == declared_size as nat,
            r@.declared_hash == declared_hash@,
            r@.status is Pending,
            r@.created_at == now,
            r@.completed_at is None,
            r@.staged == Seq::<u8>::new(declared_size as nat, |i: int| 0u8),
            r@.covered == Seq::<bool>::new(declared_size as nat, |i: int| false),
    {
        let staging = vec![0u8; declared_size];
        let covered = vec![false; declared_size];
        proof {
            assert(staging@ =~= Seq::<u8>::new(declared_size as nat, |i: int| 0u8));
            assert(covered@ =~= Seq::<bool>::new(declared_size as nat, |i: int| false));
        }
        TransferSession {
            device_id,
            file_name,
            declared_size,
            declared_hash,
            status: TransferStatus::Pending,
            created_at: now,
            completed_at: None,
            staging,
            covered,
        }
    }

    /// Count the covered byte positions.
    pub fn covered_bytes(&self) -> (r: usize)
        ensures
            r as nat == count_true(self@.covered),
    {
        let mut i: usize = 0;
        let mut acc: usize = 0;
        proof {
            lemma_count_true_bound(self.covered@);
        }
        while i < self.covered.len()
            invariant
                i <= self.covered@.len(),
                acc as nat == count_true(self.covered@.take(i as int)),
                acc <= i,
        decreases self.covered@.len() - i,
        {
            proof {
                assert(self.covered@.take(i as int + 1).drop_last() =~= self.covered@.take(
                    i as int,
                ));
                assert(self.covered@.take(i as int + 1).last() == self.covered@[i as int]);
            }
            if self.covered[i] {
                acc += 1;
            }
            i += 1;
        }
        proof {
            assert(self.covered@.take(self.covered@.len() as int) =~= self.covered@);
        }
        acc
    }

    /// Ingest one offset-addressed chunk.
    ///
    /// Accepted in any arrival order while the session is `Pending` or
    /// `Uploading`; the first accepted chunk moves the session to `Uploading`.
    /// Writes are idempotent: the same bytes at the same offset leave the
    /// assembly unchanged, and different bytes overwrite, last write wins.
    /// The acknowledgment reports cumulative coverage so an interrupted upload
    /// can resume without restarting.
    pub fn ingest_chunk(&mut self, offset: usize, bytes: &[u8]) -> (r: Result<
        ChunkAck,
        TransferError,
    >)
        requires
            old(self)@.wf(),
        ensures
            final(self)@.wf(),
            match r {
                Ok(ack) => {
                    &&& old(self)@.accepts_chunk(offset as int, bytes@.len() as int)
                    &&& final(self)@ == old(self)@.with_chunk(offset as int, bytes@)
                    &&& ack.offset == offset
                    &&& ack.chunk_len == bytes@.len()
                    &&& ack.bytes_received as nat == count_true(final(self)@.covered)
                    &&& ack.total as nat == final(self)@.declared_size
                    &&& ack.corrected == old(self)@.corrects(offset as int, bytes@)
                },
                Err(TransferError::InvalidState) => {
                    &&& !(old(self)@.status is Pending || old(self)@.status is Uploading)
                    &&& *final(self) == *old(self)
                },
                Err(TransferError::ChunkOutOfBounds) => {
                    &&& old(self)@.status is Pending || old(self)@.status is Uploading
                    &&& offset + bytes@.len() > old(self)@.declared_size
                    &&& *final(self) == *old(self)
                },
                Err(_) => false,
            },
    {
        match self.status {
            TransferStatus::Pending | TransferStatus::Uploading => (),
            _ => {
                return Err(TransferError::InvalidState);
            },
        }
        if offset > self.declared_size || bytes.len() > self.declared_size - offset {
            return Err(TransferError::ChunkOutOfBounds);
        }
        let ghost old_staged = self.staging@;
        let ghost old_covered = self.covered@;
        let mut corrected = false;
        let mut i: usize = 0;
        while i < bytes.len()
            invariant
                i <= bytes@.len(),
                corrected == exists|j: int|
                    offset <= j < offset + i && #[trigger] old_covered[j] && old_staged[j]
                        != bytes@[j - offset],
                offset + bytes@.len() <= self.declared_size,
                offset + bytes@.len() <= old_staged.len(),
                self.staging@.len() == old_staged.len(),
                self.covered@.len() == old_covered.len(),
                old_covered.len() == old_staged.len(),
                forall|j: int|
                    0 <= j < old_staged.len() && !(offset <= j < offset + i)
                        ==> self.staging@[j] == old_staged[j],
                forall|j: int|
                    offset <= j < offset + i ==> self.staging@[j] == bytes@[j - offset],
                forall|j: int|
                    0 <= j < old_covered.len() && !(offset <= j < offset + i)
                        ==> self.covered@[j] == old_covered[j],
                forall|j: int| offset <= j < offset + i ==> self.covered@[j],
                self.device_id == old(self).device_id,
                self.file_name == old(self).file_name,
                self.declared_size == old(self).declared_size,
                self.declared_hash == old(self).declared_hash,
                self.status == old(self).status,
                self.created_at == old(self).created_at,
                self.completed_at == old(self).completed_at,
            decreases bytes@.len() - i,
        {
            if self.covered[offset + i] && self.staging[offset + i] != bytes[i] {
                corrected = true;
                proof {
                    assert(old_covered[offset + i] && old_staged[offset + i] != bytes@[offset + i
                        - offset]);
                }
            }
            self.staging.set(offset + i, bytes[i]);
            self.covered.set(offset + i, true);
            i += 1;
        }
        self.status = TransferStatus::Uploading;
        proof {
            assert(self.staging@ =~= write_bytes(old_staged, offset as int, bytes@));
            assert(self.covered@ =~= mark_covered(
                old_covered,
                offset as int,
                bytes@.len() as int,
            ));
            assert(self@ =~= old(self)@.with_chunk(offset as int, bytes@));
            lemma_count_true_bound(self.covered@);
        }
        let received = self.covered_bytes();
        Ok(
            ChunkAck {
                offset,
                chunk_len: bytes.len(),
                bytes_received: received,
                total: self.declared_size,
                corrected,
            },
        )
    }

    /// Find the first uncovered byte position, if any.
    fn first_gap(&self) -> (r: Option<usize>)
        ensures
            match r {
                Some(i) => i < self.covered@.len() && !self.covered@[i as int] && forall|j: int|
                    0 <= j < i ==> self.covered@[j],
                None => self@.complete(),
            },
    {
        let mut i: usize = 0;
        while i < self.covered.len()
            invariant
                i <= self.covered@.len(),
                forall|j: int| 0 <= j < i ==> self.covered@[j],
            decreases self.covered@.len() - i,
        {
            if !self.covered[i] {
                return Some(i);
            }
            i += 1;
        }
        None
    }

    /// Verify coverage and integrity and produce the final artifact.
    ///
    /// Requires every byte position of the declared size to be covered by some
    /// received chunk; a gap fails with `IncompleteTransfer` and changes
    /// nothing, so the client may send the missing chunks and retry.  On full
    /// coverage the assembled bytes are hashed: a mismatch with the declared
    /// hash fails with `IntegrityError` and moves the session to `Failed`; a
    /// match moves it to `Completed`, records the completion time, and returns
    /// the artifact.  The caller owns reclaiming any external staging storage;
    /// the in-memory bytes stay with the session, which is retained for audit
    /// and history, as the assembled artifact of record.
    pub fn finalize(&mut self, now: u64) -> (r: Result<Vec<u8>, TransferError>)
        requires
            old(self)@.wf(),
        ensures
            final(self)@.wf(),
            match r {
                Ok(artifact) => {
                    &&& old(self)@.accepts_finalize()
                    &&& old(self)@.complete()
                    &&& old(self)@.integrity_ok()
                    &&& artifact@ == old(self)@.staged
                    &&& final(self)@ == TransferModel {
                        status: TransferStatus::Completed,
                        completed_at: Some(now),
                        ..old(self)@
                    }
                },
                Err(TransferError::InvalidState) => {
                    &&& !old(self)@.accepts_finalize()
                    &&& *final(self) == *old(self)
                },
                Err(TransferError::IncompleteTransfer) => {
                    &&& old(self)@.accepts_finalize()
                    &&& !old(self)@.complete()
                    &&& *final(self) == *old(self)
                },
                Err(TransferError::IntegrityError) => {
                    &&& old(self)@.accepts_finalize()
                    &&& old(self)@.complete()
                    &&& !old(self)@.integrity_ok()
                    &&& final(self)@ == TransferModel {
                        status: TransferStatus::Failed,
                        ..old(self)@
                    }
                },
                Err(_) => false,
            },
    {
        match self.status {
            TransferStatus::Pending | TransferStatus::Uploading => (),
            _ => {
                return Err(TransferError::InvalidState);
            },
        }
        if let Some(_gap) = self.first_gap() {
            return Err(TransferError::IncompleteTransfer);
        }
        self.status = TransferStatus::Assembling;
        let digest = sha256(self.staging.as_slice());
        if !bytes_equal(digest.as_slice(), self.declared_hash.as_slice()) {
            self.status = TransferStatus::Failed;
            proof {
                assert(self@ =~= TransferModel { status: TransferStatus::Failed, ..old(self)@ });
            }
            return Err(TransferError::IntegrityError);
        }
        let artifact = copy_bytes(&self.staging);
        self.status = TransferStatus::Completed;
        self.completed_at = Some(now);
        proof {
            assert(self@ =~= TransferModel {
                status: TransferStatus::Completed,
                completed_at: Some(now),
                ..old(self)@
            });
        }
        Ok(artifact)
    }

    /// Report the session's state and cumulative coverage; a pure read.
    pub fn progress(&self) -> (r: TransferProgress)
        ensures
            r.status == self@.status,
            r.bytes_received as nat == count_true(self@.covered),
            r.total as nat == self@.declared_size,
    {
        proof {
            lemma_count_true_bound(self.covered@);
        }
        TransferProgress {
            status: self.status,
            bytes_received: self.covered_bytes(),
            total: self.declared_size,
        }
    }
}

/// Chunk idempotence: ingesting the same offset-addressed chunk twice yields
/// the same session state, and so the same final assembly, as ingesting it
/// once.
pub proof fn lemma_chunk_idempotent(m: TransferModel, offset: int, bytes: Seq<u8>)
    requires
        m.wf(),
        m.accepts_chunk(offset, bytes.len() as int),
    ensures
        m.with_chunk(offset, bytes).with_chunk(offset, bytes) == m.with_chunk(offset, bytes),
{
    let once = m.with_chunk(offset, bytes);
    let twice = once.with_chunk(offset, bytes);
    assert(twice.staged =~= once.staged);
    assert(twice.covered =~= once.covered);
    assert(twice =~= once);
}

/// Out-of-order assembly: two chunks whose byte ranges are disjoint may arrive
/// in either order; the session state, and so the final assembly, is the same.
pub proof fn lemma_chunks_commute(
    m: TransferModel,
    off1: int,
    bytes1: Seq<u8>,
    off2: int,
    bytes2: Seq<u8>,
)
    requires
        m.wf(),
        m.accepts_chunk(off1, bytes1.len() as int),
        m.accepts_chunk(off2, bytes2.len() as int),
        off1 + bytes1.len() <= off2 || off2 + bytes2.len() <= off1,
    ensures
        m.with_chunk(off1, bytes1).with_chunk(off2, bytes2) == m.with_chunk(off2, bytes2)
            .with_chunk(off1, bytes1),
{
    let first = m.with_chunk(off1, bytes1).with_chunk(off2, bytes2);
    let second = m.with_chunk(off2, bytes2).with_chunk(off1, bytes1);
    assert(first.staged =~= second.staged);
    assert(first.covered =~= second.covered);
    assert(first =~= second);
}

/// A request to start one file transfer to a paired device.
pub struct TransferRequest {
    pub device_id: u128,
    pub file_name: String,
    /// Declared size of the file in bytes.
    pub file_size: usize,
    /// Declared SHA-256 digest of the whole file.
    pub file_hash: Vec<u8>,
}

/// The outcome of initializing a transfer.
#[derive(Clone, Copy, PartialEq, Eq, Structural, Debug)]
pub struct TransferResponse {
    /// Fresh id under which chunks are ingested.
    pub transfer_id: usize,
    pub status: TransferStatus,
}

/// A request to finalize one transfer.
#[derive(Clone, Copy, PartialEq, Eq, Structural, Debug)]
pub struct FinalizeRequest {
    pub transfer_id: usize,
}

/// All transfer sessions, keyed by transfer id.  Transfers are independent:
/// an operation on one id leaves every other session untouched.  Sessions are
/// never deleted; they are retained for audit and history.
pub struct TransferManager {
    pub transfers: Vec<TransferSession>,
}

impl TransferManager {
    /// Every session is well-formed; a session's id is its position.
    pub open spec fn wf(self) -> bool {
        forall|i: int|
            0 <= i < self.transfers@.len() ==> (#[trigger] self.transfers@[i])@.wf()
    }

    /// A manager with no transfers.
    pub fn new() -> (r: TransferManager)
        ensures
            r.wf(),
            r.transfers@.len() == 0,
    {
        TransferManager { transfers: Vec::new() }
    }

    /// Initialize a transfer to a paired device.
    ///
    /// Rejected with `UnknownDevice` when the request's device id has no
    /// record in the registry; otherwise a fresh transfer id is assigned and a
    /// `Pending` session with an empty staging area is created.
    pub fn init_transfer(
        &mut self,
        registry: &crate::device::DeviceRegistry,
        req: TransferRequest,
        now: u64,
    ) -> (r: Result<TransferResponse, TransferError>)
        requires
            old(self).wf(),
        ensures
            final(self).wf(),
            match r {
                Ok(resp) => {
                    &&& crate::device::has_device(registry.devices@, req.device_id)
                    &&& resp.transfer_id == old(self).transfers@.len()
                    &&& resp.status is Pending
                    &&& final(self).transfers@.len() == old(self).transfers@.len() + 1
                    &&& forall|k: int|
                        0 <= k < old(self).transfers@.len() ==> final(self).transfers@[k] == old(self).transfers@[k]
                    &&& final(self).transfers@[resp.transfer_id as int]@ == (TransferModel {
                        device_id: req.device_id,
                        file_name: req.file_name@,
                        declared_size: req.file_size as nat,
                        declared_hash: req.file_hash@,
                        status: TransferStatus::Pending,
                        created_at: now,
                        completed_at: None,
                        staged: Seq::<u8>::new(req.file_size as nat, |i: int| 0u8),
                        covered: Seq::<bool>::new(req.file_size as nat, |i: int| false),
                    })
                },
                Err(TransferError::UnknownDevice) => {
                    &&& !crate::device::has_device(registry.devices@, req.device_id)
                    &&& *final(self) == *old(self)
                },
                Err(_) => false,
            },
    {
        if registry.get_device(req.device_id).is_none() {
            return Err(TransferError::UnknownDevice);
        }
        let transfer_id = self.transfers.len();
        let session = TransferSession::new(
            req.device_id,
            req.file_name,
            req.file_size,
            req.file_hash,
            now,
        );
        self.transfers.push(session);
        Ok(TransferResponse { transfer_id, status: TransferStatus::Pending })
    }

    /// Ingest one chunk for the given transfer; see
    /// [`TransferSession::ingest_chunk`].  Every other session is untouched.
    pub fn ingest_chunk(&mut self, transfer_id: usize, offset: usize, bytes: &[u8]) -> (r: Result<
        ChunkAck,
        TransferError,
    >)
        requires
            old(self).wf(),
        ensures
            final(self).wf(),
            final(self).transfers@.len() == old(self).transfers@.len(),
            forall|k: int|
                0 <= k < old(self).transfers@.len() && k != transfer_id
                    ==> final(self).transfers@[k] == old(self).transfers@[k],
            match r {
                Ok(ack) => {
                    &&& transfer_id < old(self).transfers@.len()
                    &&& old(self).transfers@[transfer_id as int]@.accepts_chunk(
                        offset as int,
                        bytes@.len() as int,
                    )
                    &&& final(self).transfers@[transfer_id as int]@ == old(self).transfers@[transfer_id as int]@.with_chunk(offset as int, bytes@)
                    &&& ack.offset == offset
                    &&& ack.chunk_len == bytes@.len()
                    &&& ack.bytes_received as nat == count_true(
                        final(self).transfers@[transfer_id as int]@.covered,
                    )
                    &&& ack.total as nat == old(self).transfers@[transfer_id as int]@.declared_size
                    &&& ack.corrected == old(self).transfers@[transfer_id as int]@.corrects(
                        offset as int,
                        bytes@,
                    )
                },
                Err(TransferError::UnknownTransfer) => {
                    &&& transfer_id >= old(self).transfers@.len()
                    &&& *final(self) == *old(self)
                },
                Err(e) => {
                    &&& transfer_id < old(self).transfers@.len()
                    &&& final(self).transfers@[transfer_id as int] == old(self).transfers@[transfer_id as int]
                    &&& match e {
                        TransferError::InvalidState => !(old(self).transfers@[transfer_id as int]@.status is Pending || old(self).transfers@[transfer_id as int]@.status is Uploading),
                        TransferError::ChunkOutOfBounds => offset + bytes@.len() > old(self).transfers@[transfer_id as int]@.declared_size,
                        _ => false,
                    }
                },
            },
    {
        if transfer_id >= self.transfers.len() {
            return Err(TransferError::UnknownTransfer);
        }
        let session = &mut self.transfers[transfer_id];
        session.ingest_chunk(offset, bytes)
    }

    /// Finalize the given transfer; see [`TransferSession::finalize`].  Every
    /// other session is untouched.
    pub fn finalize(&mut self, req: FinalizeRequest, now: u64) -> (r: Result<
        Vec<u8>,
        TransferError,
    >)
        requires
            old(self).wf(),
        ensures
            final(self).wf(),
            final(self).transfers@.len() == old(self).transfers@.len(),
            forall|k: int|
                0 <= k < old(self).transfers@.len() && k != req.transfer_id
                    ==> final(self).transfers@[k] == old(self).transfers@[k],
            match r {
                Ok(artifact) => {
                    &&& req.transfer_id < old(self).transfers@.len()
                    &&& old(self).transfers@[req.transfer_id as int]@.accepts_finalize()
                    &&& old(self).transfers@[req.transfer_id as int]@.complete()
                    &&& old(self).transfers@[req.transfer_id as int]@.integrity_ok()
                    &&& artifact@ == old(self).transfers@[req.transfer_id as int]@.staged
                    &&& final(self).transfers@[req.transfer_id as int]@ == (TransferModel {
                        status: TransferStatus::Completed,
                        completed_at: Some(now),
                        ..old(self).transfers@[req.transfer_id as int]@
                    })
                },
                Err(TransferError::UnknownTransfer) => {
                    &&& req.transfer_id >= old(self).transfers@.len()
                    &&& *final(self) == *old(self)
                },
                Err(e) => {
                    &&& req.transfer_id < old(self).transfers@.len()
                    &&& match e {
                        TransferError::InvalidState => !old(self).transfers@[req.transfer_id as int]@.accepts_finalize() && final(self).transfers@[req.transfer_id as int] == old(self).transfers@[req.transfer_id as int],
                        TransferError::IncompleteTransfer => old(self).transfers@[req.transfer_id as int]@.accepts_finalize() && !old(self).transfers@[req.transfer_id as int]@.complete() && final(self).transfers@[req.transfer_id as int] == old(self).transfers@[req.transfer_id as int],
                        TransferError::IntegrityError => old(self).transfers@[req.transfer_id as int]@.accepts_finalize() && old(self).transfers@[req.transfer_id as int]@.complete() && !old(self).transfers@[req.transfer_id as int]@.integrity_ok() && final(self).transfers@[req.transfer_id as int]@ == (TransferModel {
                            status: TransferStatus::Failed,
                            ..old(self).transfers@[req.transfer_id as int]@
                        }),
                        _ => false,
                    }
                },
            },
    {
        if req.transfer_id >= self.transfers.len() {
            return Err(TransferError::UnknownTransfer);
        }
        let session = &mut self.transfers[req.transfer_id];
        session.finalize(now)
    }

    /// Report a transfer's state and cumulative coverage; a pure read.
    pub fn status(&self, transfer_id: usize) -> (r: Result<TransferProgress, TransferError>)
        ensures
            match r {
                Ok(progress) => {
                    &&& transfer_id < self.transfers@.len()
                    &&& progress.status == self.transfers@[transfer_id as int]@.status
                    &&& progress.bytes_received as nat == count_true(
                        self.transfers@[transfer_id as int]@.covered,
                    )
                    &&& progress.total as nat
                        == self.transfers@[transfer_id as int]@.declared_size
                },
                Err(TransferError::UnknownTransfer) => transfer_id >= self.transfers@.len(),
                Err(_) => false,
            },
    {
        if transfer_id >= self.transfers.len() {
            return Err(TransferError::UnknownTransfer);
        }
        Ok(self.transfers[transfer_id].progress())
    }

    /// The transfer ids bound to a device, newest first: decreasing id order,
    /// so the most recently created transfer leads.
    pub fn transfers_for_device(&self, device_id: u128) -> (r: Vec<usize>)
        ensures
            forall|a: int, b: int| 0 <= a < b < r@.len() ==> r@[a] > r@[b],
            forall|a: int|
                0 <= a < r@.len() ==> #[trigger] r@[a] < self.transfers@.len()
                    && self.transfers@[r@[a] as int]@.device_id == device_id,
            forall|t: int|
                0 <= t < self.transfers@.len() && (#[trigger] self.transfers@[t])@.device_id
                    == device_id ==> r@.contains(t as usize),
    {
        let mut r: Vec<usize> = Vec::new();
        let mut i: usize = self.transfers.len();
        while i > 0
            invariant
                i <= self.transfers@.len(),
                forall|a: int, b: int| 0 <= a < b < r@.len() ==> r@[a] > r@[b],
                forall|a: int|
                    0 <= a < r@.len() ==> #[trigger] r@[a] < self.transfers@.len() && r@[a] >= i
                        && self.transfers@[r@[a] as int]@.device_id == device_id,
                forall|t: int|
                    i <= t < self.transfers@.len() && (#[trigger] self.transfers@[t])@.device_id
                        == device_id ==> r@.contains(t as usize),
            decreases i,
        {
            i -= 1;
            let ghost r_before = r@;
            if self.transfers[i].device_id == device_id {
                r.push(i);
            }
            proof {
                assert forall|t: int|
                    i <= t < self.transfers@.len() && (#[trigger] self.transfers@[t])@.device_id
                        == device_id implies r@.contains(t as usize) by {
                    if t > i {
                        let k = choose|k: int| 0 <= k < r_before.len() && r_before[k] == t as usize;
                        assert(r@[k] == t as usize);
                    } else {
                        assert(r@[r@.len() - 1] == i);
                    }
                }
            }
        }
        r
    }
}

/// Plan a sender's upload: the offset-and-length spans that cut a file of
/// `total` bytes into consecutive chunks of `chunk_size` bytes, the last one
/// shorter when `chunk_size` does not divide `total`.
pub fn chunk_spans(total: usize, chunk_size: usize) -> (r: Vec<(usize, usize)>)
    requires
        chunk_size >= 1,
    ensures
        total == 0 ==> r@.len() == 0,
        total > 0 ==> r@.len() >= 1 && r@[0].0 == 0 && r@.last().0 + r@.last().1 == total,
        forall|k: int| 0 <= k < r@.len() - 1 ==> (#[trigger] r@[k]).0 + r@[k].1 == r@[k + 1].0,
        forall|k: int| 0 <= k < r@.len() - 1 ==> (#[trigger] r@[k]).1 == chunk_size,
        forall|k: int| 0 <= k < r@.len() ==> 1 <= (#[trigger] r@[k]).1 <= chunk_size,
{
    let mut r: Vec<(usize, usize)> = Vec::new();
    let mut offset: usize = 0;
    while offset < total
        invariant
            chunk_size >= 1,
            offset <= total,
            total > 0 && offset > 0 ==> r@.len() >= 1 && r@[0].0 == 0 && r@.last().0
                + r@.last().1 == offset,
            offset == 0 ==> r@.len() == 0,
            forall|k: int| 0 <= k < r@.len() - 1 ==> (#[trigger] r@[k]).0 + r@[k].1 == r@[k
                + 1].0,
            forall|k: int| 0 <= k < r@.len() - 1 ==> (#[trigger] r@[k]).1 == chunk_size,
            forall|k: int| 0 <= k < r@.len() ==> 1 <= (#[trigger] r@[k]).1 <= chunk_size,
            offset < total && r@.len() >= 1 ==> r@.last().1 == chunk_size,
        decreases total - offset,
    {
        let len = if chunk_size <= total - offset {
            chunk_size
        } else {
            total - offset
        };
        r.push((offset, len));
        offset += len;
    }
    r
}

/// Copy a byte vector.
fn copy_bytes(src: &Vec<u8>) -> (r: Vec<u8>)
    ensures
        r@ == src@,
{
    let mut r: Vec<u8> = Vec::new();
    let mut i: usize = 0;
    while i < src.len()
        invariant
            i <= src@.len(),
            r@ == src@.take(i as int),
        decreases src@.len() - i,
    {
        r.push(src[i]);
        proof {
            assert(src@.take(i as int + 1) =~= src@.take(i as int).push(src@[i as int]));
        }
        i += 1;
    }
    proof {
        assert(src@.take(src@.len() as int) =~= src@);
    }
    r
}

} // verus!
