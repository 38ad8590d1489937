//! Secure device pairing and resumable chunked file transfer.
//!
//! The crate covers three components: key exchange (X25519 Diffie-Hellman and
//! HKDF-SHA256 session keys), a pairing coordinator that issues time-boxed,
//! single-use invitations and turns them into durable device records, and a
//! transfer session that accepts out-of-order chunk writes, tracks byte
//! coverage, and assembles and verifies the final artifact against a declared
//! content hash.  Chunks are addressed by byte offset; the addressing scheme is
//! fixed for the lifetime of a transfer.

pub mod clock;
pub mod device;
pub mod encode;
pub mod hashing;
pub mod keys;
pub mod p2p;
pub mod pairing;
pub mod qr;
pub mod transfer;
