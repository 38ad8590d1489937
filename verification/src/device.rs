//! The device registry: the durable store of paired devices.
//!
//! Kept as an owned, in-memory table with a uniqueness invariant on device
//! ids; a persistence layer may mirror it.  An upsert never overwrites the
//! stored public key: a changed key for an existing id signals possible
//! impersonation and is rejected as a key mismatch.

use crate::pairing::PairingError;
use vstd::prelude::*;

verus! {

/// A paired device's durable record.
pub struct Device {
    pub id: u128,
    pub name: String,
    pub device_type: String,
    /// The public key the device presented when it was paired.
    pub public_key: Vec<u8>,
    pub paired_at: u64,
    pub last_seen: Option<u64>,
}

impl Device {
    /// A record for a device paired at time `now`.
    pub fn new(id: u128, name: String, device_type: String, public_key: Vec<u8>, now: u64) -> (r:
        Device)
        ensures
            r.id == id,
            r.name == name,
            r.device_type == device_type,
            r.public_key == public_key,
            r.paired_at == now,
            r.last_seen == Some(now),
    {
        Device { id, name, device_type, public_key, paired_at: now, last_seen: Some(now) }
    }
}

/// Some record in `s` carries the id.
pub open spec fn has_device(s: Seq<Device>, id: u128) -> bool {
    exists|i: int| 0 <= i < s.len() && s[i].id == id
}

/// Durable store of paired devices, keyed by id.
pub struct DeviceRegistry {
    pub devices: Vec<Device>,
}

impl DeviceRegistry {
    /// Device ids are unique: the id is the primary key.
    pub open spec fn wf(self) -> bool {
        forall|i: int, j: int|
            0 <= i < j < self.devices@.len() ==> (#[trigger] self.devices@[i]).id != (
            #[trigger] self.devices@[j]).id
    }

    /// An empty registry.
    pub fn new() -> (r: DeviceRegistry)
        ensures
            r.wf(),
            r.devices@.len() == 0,
    {
        DeviceRegistry { devices: Vec::new() }
    }

    /// Index of the record with the given id, if any.
    fn find_index(&self, id: u128) -> (r: Option<usize>)
        ensures
            match r {
                Some(i) => i < self.devices@.len() && self.devices@[i as int].id == id,
                None => !has_device(self.devices@, id),
            },
    {
        let mut i: usize = 0;
        while i < self.devices.len()
            invariant
                i <= self.devices@.len(),
                forall|j: int| 0 <= j < i ==> (#[trigger] self.devices@[j]).id != id,
            decreases self.devices@.len() - i,
        {
            if self.devices[i].id == id {
                return Some(i);
            }
            i += 1;
        }
        None
    }

    /// Upsert a device record, keyed by id.
    ///
    /// A new id goes to the front, keeping the table newest-paired-first.  An
    /// existing id only has its `last_seen` brought forward, in place, and
    /// only when the presented public key equals the stored one; a different
    /// key is rejected as `KeyMismatch` and nothing changes.
    pub fn save_device(&mut self, device: Device) -> (r: Result<(), PairingError>)
        requires
            old(self).wf(),
        ensures
            final(self).wf(),
            match r {
                Ok(()) => {
                    if has_device(old(self).devices@, device.id) {
                        exists|i: int|
                            0 <= i < old(self).devices@.len() && (#[trigger] old(
                                self,
                            ).devices@[i]).id == device.id && old(self).devices@[i].public_key@
                                == device.public_key@ && final(self).devices@ == old(
                                self,
                            ).devices@.update(
                                i,
                                Device { last_seen: device.last_seen, ..old(self).devices@[i] },
                            )
                    } else {
                        final(self).devices@ == seq![device] + old(self).devices@
                    }
                },
                Err(PairingError::KeyMismatch) => {
                    &&& exists|i: int|
                        0 <= i < old(self).devices@.len() && (#[trigger] old(self).devices@[i]).id
                            == device.id && old(self).devices@[i].public_key@
                            != device.public_key@
                    &&& final(self).devices@ == old(self).devices@
                },
                Err(_) => false,
            },
    {
        match self.find_index(device.id) {
            Some(i) => {
                let existing = &self.devices[i];
                if !crate::hashing::bytes_equal(
                    existing.public_key.as_slice(),
                    device.public_key.as_slice(),
                ) {
                    return Err(PairingError::KeyMismatch);
                }
                let ghost old_devices = self.devices@;
                let entry = &mut self.devices[i];
                entry.last_seen = device.last_seen;
                proof {
                    assert(self.devices@ =~= old_devices.update(
                        i as int,
                        Device { last_seen: device.last_seen, ..old_devices[i as int] },
                    ));
                }
                Ok(())
            },
            None => {
                let ghost old_devices = self.devices@;
                self.devices.insert(0, device);
                proof {
                    assert(self.devices@ =~= seq![device] + old_devices);
                    assert forall|a: int, b: int|
                        0 <= a < b < self.devices@.len() implies (#[trigger] self.devices@[a]).id
                        != (#[trigger] self.devices@[b]).id by {
                        if a == 0 {
                            assert(self.devices@[b] == old_devices[b - 1]);
                        } else {
                            assert(self.devices@[a] == old_devices[a - 1]);
                            assert(self.devices@[b] == old_devices[b - 1]);
                        }
                    }
                }
                Ok(())
            },
        }
    }

    /// Look a device up by id.
    pub fn get_device(&self, id: u128) -> (r: Option<&Device>)
        ensures
            match r {
                Some(d) => d.id == id && exists|i: int|
                    0 <= i < self.devices@.len() && self.devices@[i] == *d,
                None => !has_device(self.devices@, id),
            },
    {
        match self.find_index(id) {
            Some(i) => Some(&self.devices[i]),
            None => None,
        }
    }

    /// All paired devices, newest first: the most recently paired device
    /// leads, as `save_device` keeps the table in that order.
    pub fn list_devices(&self) -> (r: &Vec<Device>)
        ensures
            r@ == self.devices@,
    {
        &self.devices
    }

    /// Remove the record with the given id; reports whether one existed.
    pub fn delete_device(&mut self, id: u128) -> (r: bool)
        requires
            old(self).wf(),
        ensures
            final(self).wf(),
            r == has_device(old(self).devices@, id),
            if r {
                exists|i: int|
                    0 <= i < old(self).devices@.len() && (#[trigger] old(self).devices@[i]).id
                        == id && final(self).devices@ == old(self).devices@.remove(i)
            } else {
                final(self).devices@ == old(self).devices@
            },
    {
        match self.find_index(id) {
            Some(i) => {
                let ghost old_devices = self.devices@;
                self.devices.remove(i);
                proof {
                    assert forall|a: int, b: int|
                        0 <= a < b < self.devices@.len() implies (#[trigger] self.devices@[a]).id
                        != (#[trigger] self.devices@[b]).id by {
                        assert(self.devices@[a] == if a < i as int {
                            old_devices[a]
                        } else {
                            old_devices[a + 1]
                        });
                        assert(self.devices@[b] == if b < i as int {
                            old_devices[b]
                        } else {
                            old_devices[b + 1]
                        });
                    }
                }
                true
            },
            None => false,
        }
    }
}

} // verus!
