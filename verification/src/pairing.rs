//! Pairing: time-boxed, single-use invitations that bind a device identity and
//! an ephemeral public key, and their completion into durable device records.
//!
//! An invitation is provisional: nothing durable is created until the peer
//! proves receipt by completing the pairing within the five-minute window.
//! Completion is single-use; a replay is rejected without any state change.
//! Expiry is checked lazily against the wall clock at the moment of use.

use crate::device::{has_device, Device, DeviceRegistry};
use crate::encode::{b64_of, decimal_digits, decimal_string, to_base64};
use crate::keys::{
    derive_session_key, derive_shared_secret, generate_keypair, hkdf_sha256_key, pairing_info,
    pairing_info_bytes, x25519_shared, KeyPair,
};
use crate::qr::{generate_pairing_qr, pairing_uri_of, qr_data_url_of, QrError};
use vstd::prelude::*;
use vstd::slice::slice_to_vec;

verus! {

/// Why a pairing operation was rejected.
#[derive(Clone, Copy, PartialEq, Eq, Structural, Debug)]
pub enum PairingError {
    /// The invitation is past its window; the user must restart pairing.
    Expired,
    /// The invitation was already consumed; invitations are single-use.
    AlreadyCompleted,
    /// No invitation carries the given device id.
    UnknownInvitation,
    /// A re-pairing attempt presented a different public key for an existing
    /// device id; never silently accepted.
    KeyMismatch,
}

/// Seconds an invitation stays valid.
pub const INVITATION_TTL: u64 = 300;

/// A request to start pairing a device.
pub struct PairRequest {
    pub device_name: String,
}

/// The issued invitation, rendered for transport.
pub struct PairResponse {
    pub device_id: u128,
    /// Base64 of the ephemeral public key.
    pub public_key: String,
    /// PNG data URL of the QR code carrying the pairing URI.
    pub qr_data: String,
    pub expires_at: u64,
}

/// A pending pairing attempt: a time-boxed, single-use proposal carrying an
/// ephemeral keypair whose lifetime ends with the invitation.
pub struct PairingInvitation {
    pub device_id: u128,
    pub device_name: String,
    pub keypair: KeyPair,
    pub issued_at: u64,
    pub expires_at: u64,
    /// Set when the invitation is consumed; consumed at most once.
    pub completed: bool,
}

/// What a completed pairing hands back: the durable record's id and the
/// session key for the pairing context.
#[derive(Debug)]
pub struct PairingOutcome {
    pub device_id: u128,
    pub session_key: [u8; 32],
}

/// Allocate a fresh device id.
///
/// Relies on `uuid::Uuid::new_v4` (`Uuid::as_u128`): a freshly generated
/// random version-4 UUID; nothing is assumed of the value.
#[verifier::external_body]
pub fn fresh_device_id() -> (r: u128) {
    uuid::Uuid::new_v4().as_u128()
}

/// Issues invitations and completes them into device records.
pub struct PairingCoordinator {
    pub invitations: Vec<PairingInvitation>,
}

impl PairingCoordinator {
    /// Some invitation carries the id.
    pub open spec fn has_invitation(self, id: u128) -> bool {
        exists|i: int|
            0 <= i < self.invitations@.len() && (#[trigger] self.invitations@[i]).device_id == id
    }

    /// `i` is the earliest invitation for the id; completion consults that
    /// one.
    pub open spec fn is_first_invitation(self, id: u128, i: int) -> bool {
        &&& 0 <= i < self.invitations@.len()
        &&& self.invitations@[i].device_id == id
        &&& forall|j: int|
            0 <= j < i ==> (#[trigger] self.invitations@[j]).device_id != id
    }

    /// A coordinator with no pending invitations.
    pub fn new() -> (r: PairingCoordinator)
        ensures
            r.invitations@.len() == 0,
    {
        PairingCoordinator { invitations: Vec::new() }
    }

    /// Index of the earliest invitation for the id, if any.
    fn find_invitation(&self, id: u128) -> (r: Option<usize>)
        ensures
            match r {
                Some(i) => self.is_first_invitation(id, i as int),
                None => !self.has_invitation(id),
            },
    {
        let mut i: usize = 0;
        while i < self.invitations.len()
            invariant
                i <= self.invitations@.len(),
                forall|j: int|
                    0 <= j < i ==> (#[trigger] self.invitations@[j]).device_id != id,
            decreases self.invitations@.len() - i,
        {
            if self.invitations[i].device_id == id {
                return Some(i);
            }
            i += 1;
        }
        None
    }

    /// Issue a pairing invitation: a fresh ephemeral keypair, a fresh device
    /// id, a five-minute window, and a QR rendering of the pairing URI that
    /// binds the id to the public key.  Nothing durable is created yet; the
    /// invitation is provisional until the peer completes it.  Issuing cannot
    /// fail: the pairing URI always fits what the QR renderer accepts.
    pub fn request_pairing(&mut self, req: PairRequest, now: u64) -> (r: Result<
        PairResponse,
        QrError,
    >)
        requires
            now <= u64::MAX - INVITATION_TTL,
        ensures
            match r {
                Ok(resp) => {
                    &&& final(self).invitations@.len() == old(self).invitations@.len() + 1
                    &&& forall|k: int|
                        0 <= k < old(self).invitations@.len() ==> final(self).invitations@[k]
                            == old(self).invitations@[k]
                    &&& ({
                        let inv = final(self).invitations@.last();
                        &&& inv.device_id == resp.device_id
                        &&& inv.device_name == req.device_name
                        &&& inv.keypair.wf()
                        &&& inv.issued_at == now
                        &&& inv.expires_at == now + INVITATION_TTL
                        &&& !inv.completed
                        &&& resp.public_key@ == b64_of(inv.keypair.public_key@)
                        &&& resp.qr_data@ == qr_data_url_of(
                            pairing_uri_of(
                                decimal_digits(resp.device_id as nat),
                                inv.keypair.public_key@,
                            ),
                        )
                        &&& resp.expires_at == inv.expires_at
                    })
                },
                Err(_) => false,
            },
    {
        let keypair = generate_keypair();
        let device_id = fresh_device_id();
        let id_str = decimal_string(device_id);
        match generate_pairing_qr(id_str.as_str(), keypair.public_key.as_slice()) {
            Ok(rendered) => {
                let public_key = to_base64(keypair.public_key.as_slice());
                let expires_at = now + INVITATION_TTL;
                let invitation = PairingInvitation {
                    device_id,
                    device_name: req.device_name,
                    keypair,
                    issued_at: now,
                    expires_at,
                    completed: false,
                };
                self.invitations.push(invitation);
                Ok(PairResponse { device_id, public_key, qr_data: rendered.0, expires_at })
            },
            Err(e) => {
                // the URI is at most 39 id digits plus the fixed parts and the
                // 44-character key, well within what the renderer accepts
                proof {
                    crate::encode::lemma_decimal_digits_len_u128(device_id);
                    assert(false);
                }
                Err(e)
            },
        }
    }

    /// Complete a pairing: check the window and single-use against the
    /// earliest invitation for the id, derive the session key for the pairing
    /// context, and persist the peer's device record.
    ///
    /// Fails with `UnknownInvitation` when no invitation carries the id, with
    /// `Expired` once the window has passed, with `AlreadyCompleted` on a
    /// replay of a consumed invitation, and with `KeyMismatch` when the peer
    /// presents a different key for an already-paired id; each failure leaves
    /// every invitation and every device record unchanged.  The window is
    /// checked first: a replay arriving after the window answers `Expired`.
    pub fn complete_pairing(
        &mut self,
        registry: &mut DeviceRegistry,
        device_id: u128,
        peer_public_key: &[u8; 32],
        device_type: String,
        now: u64,
    ) -> (r: Result<PairingOutcome, PairingError>)
        requires
            old(registry).wf(),
        ensures
            final(registry).wf(),
            match r {
                Ok(outcome) => {
                    &&& exists|i: int|
                        {
                            let inv = old(self).invitations@[i];
                            &&& #[trigger] old(self).is_first_invitation(device_id, i)
                            &&& now < inv.expires_at
                            &&& !inv.completed
                            &&& final(self).invitations@ == old(self).invitations@.update(
                                i,
                                PairingInvitation { completed: true, ..inv },
                            )
                            &&& outcome.session_key@ == hkdf_sha256_key(
                                x25519_shared(inv.keypair.private_key@, peer_public_key@),
                                pairing_info(),
                            )
                            &&& if has_device(old(registry).devices@, device_id) {
                                exists|k: int|
                                    0 <= k < old(registry).devices@.len() && (#[trigger] old(registry).devices@[k]).id == device_id && old(registry).devices@[k].public_key@ == peer_public_key@ && final(registry).devices@ == old(registry).devices@.update(
                                        k,
                                        Device {
                                            last_seen: Some(now),
                                            ..old(registry).devices@[k]
                                        },
                                    )
                            } else {
                                &&& final(registry).devices@.len() == old(registry).devices@.len() + 1
                                &&& final(registry).devices@.skip(1) == old(registry).devices@
                                &&& ({
                                    let d = final(registry).devices@[0];
                                    &&& d.id == device_id
                                    &&& d.name == inv.device_name
                                    &&& d.device_type == device_type
                                    &&& d.public_key@ == peer_public_key@
                                    &&& d.paired_at == now
                                    &&& d.last_seen == Some(now)
                                })
                            }
                        }
                    &&& outcome.device_id == device_id
                },
                Err(e) => {
                    &&& final(self).invitations@ == old(self).invitations@
                    &&& final(registry).devices@ == old(registry).devices@
                    &&& match e {
                        PairingError::UnknownInvitation => !old(self).has_invitation(device_id),
                        PairingError::Expired => exists|i: int|
                            #[trigger] old(self).is_first_invitation(device_id, i) && now >= old(self).invitations@[i].expires_at,
                        PairingError::AlreadyCompleted => exists|i: int|
                            #[trigger] old(self).is_first_invitation(device_id, i) && now < old(self).invitations@[i].expires_at && old(self).invitations@[i].completed,
                        PairingError::KeyMismatch => exists|i: int, k: int|
                            #[trigger] old(self).is_first_invitation(device_id, i) && now < old(self).invitations@[i].expires_at && !old(self).invitations@[i].completed
                                && 0 <= k < old(registry).devices@.len() && (#[trigger] old(registry).devices@[k]).id == device_id && old(registry).devices@[k].public_key@
                                != peer_public_key@,
                    }
                },
            },
    {
        let i = match self.find_invitation(device_id) {
            Some(i) => i,
            None => {
                return Err(PairingError::UnknownInvitation);
            },
        };
        if now >= self.invitations[i].expires_at {
            return Err(PairingError::Expired);
        }
        if self.invitations[i].completed {
            return Err(PairingError::AlreadyCompleted);
        }
        let shared = derive_shared_secret(&self.invitations[i].keypair.private_key, peer_public_key);
        let info = pairing_info_bytes();
        let session_key = derive_session_key(&shared, info.as_slice());
        let name = self.invitations[i].device_name.clone();
        let record = Device::new(
            device_id,
            name,
            device_type,
            slice_to_vec(peer_public_key.as_slice()),
            now,
        );
        match registry.save_device(record) {
            Ok(()) => {
                proof {
                    if !has_device(old(registry).devices@, device_id) {
                        assert(registry.devices@.skip(1) =~= old(registry).devices@);
                    }
                }
                let ghost old_invitations = self.invitations@;
                let entry = &mut self.invitations[i];
                entry.completed = true;
                proof {
                    assert(self.invitations@ =~= old_invitations.update(
                        i as int,
                        PairingInvitation { completed: true, ..old_invitations[i as int] },
                    ));
                }
                Ok(PairingOutcome { device_id, session_key })
            },
            Err(e) => Err(e),
        }
    }
}

} // verus!
