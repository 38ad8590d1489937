//! Key exchange: X25519 keypairs, Diffie-Hellman shared secrets, and
//! HKDF-SHA256 session keys.

use vstd::prelude::*;

verus! {

/// An X25519 keypair: a 32-byte public key and the 32-byte secret it was
/// computed from.
pub struct KeyPair {
    pub public_key: [u8; 32],
    pub private_key: [u8; 32],
}

/// The X25519 public key for a 32-byte secret key: the clamped secret scalar
/// times the curve's base point, encoded as Montgomery u-coordinate bytes.
pub uninterp spec fn x25519_public(sk: Seq<u8>) -> Seq<u8>;

/// The X25519 Diffie-Hellman output for a secret key and a peer public key:
/// the peer's point times the clamped secret scalar.
pub uninterp spec fn x25519_shared(sk: Seq<u8>, peer_pk: Seq<u8>) -> Seq<u8>;

/// The 32-byte HKDF-SHA256 output for the given input key material and
/// context string, with no salt.
pub uninterp spec fn hkdf_sha256_key(ikm: Seq<u8>, info: Seq<u8>) -> Seq<u8>;

impl KeyPair {
    /// The public key is the one X25519 derives from the private key.
    pub open spec fn wf(self) -> bool {
        self.public_key@ == x25519_public(self.private_key@)
    }
}

/// Generate a fresh X25519 keypair from the system's secure random source.
///
/// Relies on `x25519_dalek::StaticSecret::random_from_rng` (random secret
/// bytes drawn from `rand::rngs::OsRng`) and `x25519_dalek::PublicKey::from`,
/// which computes the public key from the secret alone.
#[verifier::external_body]
pub fn generate_keypair() -> (r: KeyPair)
    ensures
        r.public_key@ == x25519_public(r.private_key@),
{
    let secret = x25519_dalek::StaticSecret::random_from_rng(rand::rngs::OsRng);
    let public = x25519_dalek::PublicKey::from(&secret);
    KeyPair { public_key: *public.as_bytes(), private_key: secret.to_bytes() }
}

/// Compute the X25519 shared secret for our private key and a peer's public
/// key.
///
/// Relies on `x25519_dalek::StaticSecret::diffie_hellman`, whose result is a
/// function of the two byte arrays alone.  X25519 clamps the secret scalar on
/// use and never panics, whatever bytes the peer key holds.  Because scalar
/// multiplication commutes, both ends of an exchange compute the same value;
/// the second clause states that for any peer key that is itself derived from
/// a secret.
#[verifier::external_body]
pub fn derive_shared_secret(private_key: &[u8; 32], peer_public_key: &[u8; 32]) -> (r: [u8; 32])
    ensures
        r@ == x25519_shared(private_key@, peer_public_key@),
        forall|sk: Seq<u8>|
            peer_public_key@ == #[trigger] x25519_public(sk)
                ==> r@ == x25519_shared(sk, x25519_public(private_key@)),
{
    let secret = x25519_dalek::StaticSecret::from(*private_key);
    let peer_public = x25519_dalek::PublicKey::from(*peer_public_key);
    let shared = secret.diffie_hellman(&peer_public);
    *shared.as_bytes()
}

/// Derive a 32-byte session key from a shared secret and a context string.
///
/// Relies on `hkdf::Hkdf::<sha2::Sha256>::new` with no salt and
/// `hkdf::Hkdf::expand`: the output depends on the secret and the context
/// string alone, and expanding to 32 bytes is always within HKDF-SHA256's
/// output bound, so the call cannot fail.
#[verifier::external_body]
pub fn derive_session_key(shared_secret: &[u8; 32], info: &[u8]) -> (r: [u8; 32])
    ensures
        r@ == hkdf_sha256_key(shared_secret@, info@),
{
    let hk = hkdf::Hkdf::<sha2::Sha256>::new(None, shared_secret);
    let mut okm = [0u8; 32];
    hk.expand(info, &mut okm).expect("32 bytes is a valid length for HKDF-SHA256");
    okm
}

/// Run one key exchange between two keypairs: the first component is the
/// secret the holder of `a` computes against `b`'s public key, the second the
/// one the holder of `b` computes against `a`'s.  For well-formed keypairs the
/// two agree: Diffie-Hellman is symmetric.
pub fn exchange_shared_secrets(a: &KeyPair, b: &KeyPair) -> (r: ([u8; 32], [u8; 32]))
    ensures
        r.0@ == x25519_shared(a.private_key@, b.public_key@),
        r.1@ == x25519_shared(b.private_key@, a.public_key@),
        a.wf() && b.wf() ==> r.0@ == r.1@,
{
    let first = derive_shared_secret(&a.private_key, &b.public_key);
    let second = derive_shared_secret(&b.private_key, &a.public_key);
    (first, second)
}

/// The context string for a transfer's session key: `"transfer:"` in ASCII,
/// then the decimal transfer id.  Scoping the key to one transfer prevents
/// session-key reuse across unrelated contexts.
pub open spec fn transfer_info(transfer_id: nat) -> Seq<u8> {
    seq![116u8, 114u8, 97u8, 110u8, 115u8, 102u8, 101u8, 114u8, 58u8] + crate::encode::decimal_ascii(
        transfer_id,
    )
}

/// The context string for pairing session keys: `"pairing"` in ASCII.
pub open spec fn pairing_info() -> Seq<u8> {
    seq![112u8, 97u8, 105u8, 114u8, 105u8, 110u8, 103u8]
}

/// The bytes of the pairing context string.
pub fn pairing_info_bytes() -> (r: Vec<u8>)
    ensures
        r@ == pairing_info(),
{
    let mut v: Vec<u8> = Vec::new();
    v.push(112);
    v.push(97);
    v.push(105);
    v.push(114);
    v.push(105);
    v.push(110);
    v.push(103);
    proof {
        assert(v@ =~= pairing_info());
    }
    v
}

/// The context bytes for a transfer's session key.
pub fn transfer_info_bytes(transfer_id: usize) -> (r: Vec<u8>)
    ensures
        r@ == transfer_info(transfer_id as nat),
{
    let mut v: Vec<u8> = Vec::new();
    v.push(116);
    v.push(114);
    v.push(97);
    v.push(110);
    v.push(115);
    v.push(102);
    v.push(101);
    v.push(114);
    v.push(58);
    crate::encode::push_decimal_ascii(&mut v, transfer_id as u128);
    proof {
        assert(v@ =~= transfer_info(transfer_id as nat));
    }
    v
}

/// Derive the session key that authenticates one transfer's chunk payloads,
/// scoped to that transfer's id.
pub fn derive_transfer_key(shared_secret: &[u8; 32], transfer_id: usize) -> (r: [u8; 32])
    ensures
        r@ == hkdf_sha256_key(shared_secret@, transfer_info(transfer_id as nat)),
{
    let info = transfer_info_bytes(transfer_id);
    derive_session_key(shared_secret, info.as_slice())
}

/// Domain separation of key-derivation contexts: a transfer context never
/// equals the pairing context, and distinct transfers have distinct contexts.
pub proof fn lemma_context_separation(a: nat, b: nat)
    requires
        a != b,
    ensures
        transfer_info(a) != pairing_info(),
        transfer_info(a) != transfer_info(b),
{
    crate::encode::lemma_decimal_ascii_len(a);
    assert(transfer_info(a)[0] != pairing_info()[0]);
    crate::encode::lemma_decimal_ascii_injective(a, b);
    assert(transfer_info(a).skip(9) =~= crate::encode::decimal_ascii(a));
    assert(transfer_info(b).skip(9) =~= crate::encode::decimal_ascii(b));
}

/// Deriving a session key is deterministic: equal secrets and equal context
/// strings yield equal keys.
pub proof fn lemma_session_key_deterministic(s1: Seq<u8>, i1: Seq<u8>, s2: Seq<u8>, i2: Seq<u8>)
    requires
        s1 == s2,
        i1 == i2,
    ensures
        hkdf_sha256_key(s1, i1) == hkdf_sha256_key(s2, i2),
{
}

} // verus!
