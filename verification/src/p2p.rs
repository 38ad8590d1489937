//! The peer connection registry: an owned table of live transport channels,
//! keyed by device id, passed by reference to whoever needs it rather than
//! kept as ambient global state.
//!
//! The transport itself (WebRTC, or a TCP or WebSocket fallback) is out of
//! scope; this registry only tracks which devices have an established channel.

use vstd::prelude::*;

verus! {

/// The transport a peer connection runs over.
#[derive(Clone, Copy, PartialEq, Eq, Structural, Debug)]
pub enum ConnectionType {
    /// WebRTC direct connection.
    WebRTC,
    /// TCP fallback.
    Tcp,
    /// WebSocket fallback.
    WebSocket,
}

/// A live connection to a peer device.
pub struct PeerConnection {
    pub device_id: u128,
    pub device_name: String,
    pub connection_type: ConnectionType,
    pub established_at: u64,
}

/// Some connection in `s` is for the id.
pub open spec fn has_connection(s: Seq<PeerConnection>, id: u128) -> bool {
    exists|i: int| 0 <= i < s.len() && s[i].device_id == id
}

/// The table of live peer connections.
pub struct ConnectionManager {
    pub connections: Vec<PeerConnection>,
}

impl ConnectionManager {
    /// At most one connection per device id.
    pub open spec fn wf(self) -> bool {
        forall|i: int, j: int|
            0 <= i < j < self.connections@.len() ==> (#[trigger] self.connections@[i]).device_id
                != (#[trigger] self.connections@[j]).device_id
    }

    /// A manager with no connections.
    pub fn new() -> (r: ConnectionManager)
        ensures
            r.wf(),
            r.connections@.len() == 0,
    {
        ConnectionManager { connections: Vec::new() }
    }

    /// Index of the connection for the id, if any.
    fn find_index(&self, id: u128) -> (r: Option<usize>)
        ensures
            match r {
                Some(i) => i < self.connections@.len() && self.connections@[i as int].device_id
                    == id,
                None => !has_connection(self.connections@, id),
            },
    {
        let mut i: usize = 0;
        while i < self.connections.len()
            invariant
                i <= self.connections@.len(),
                forall|j: int| 0 <= j < i ==> (#[trigger] self.connections@[j]).device_id != id,
            decreases self.connections@.len() - i,
        {
            if self.connections[i].device_id == id {
                return Some(i);
            }
            i += 1;
        }
        None
    }

    /// Add a connection, replacing any existing one for the same device.
    pub fn add_connection(&mut self, conn: PeerConnection)
        requires
            old(self).wf(),
        ensures
            final(self).wf(),
            if has_connection(old(self).connections@, conn.device_id) {
                exists|i: int|
                    0 <= i < old(self).connections@.len() && (#[trigger] old(
                        self,
                    ).connections@[i]).device_id == conn.device_id && final(self).connections@
                        == old(self).connections@.update(i, conn)
            } else {
                final(self).connections@ == old(self).connections@.push(conn)
            },
    {
        match self.find_index(conn.device_id) {
            Some(i) => {
                self.connections.set(i, conn);
            },
            None => {
                self.connections.push(conn);
            },
        }
    }

    /// Look the connection for a device up.
    pub fn get_connection(&self, device_id: u128) -> (r: Option<&PeerConnection>)
        ensures
            match r {
                Some(c) => c.device_id == device_id && exists|i: int|
                    0 <= i < self.connections@.len() && self.connections@[i] == *c,
                None => !has_connection(self.connections@, device_id),
            },
    {
        match self.find_index(device_id) {
            Some(i) => Some(&self.connections[i]),
            None => None,
        }
    }

    /// Drop the connection for a device; reports whether one existed.
    pub fn remove_connection(&mut self, device_id: u128) -> (r: bool)
        requires
            old(self).wf(),
        ensures
            final(self).wf(),
            r == has_connection(old(self).connections@, device_id),
            if r {
                exists|i: int|
                    0 <= i < old(self).connections@.len() && (#[trigger] old(
                        self,
                    ).connections@[i]).device_id == device_id && final(self).connections@ == old(
                        self,
                    ).connections@.remove(i)
            } else {
                final(self).connections@ == old(self).connections@
            },
    {
        match self.find_index(device_id) {
            Some(i) => {
                let ghost old_connections = self.connections@;
                self.connections.remove(i);
                proof {
                    assert forall|a: int, b: int|
                        0 <= a < b < self.connections@.len() implies (
                    #[trigger] self.connections@[a]).device_id != (
                    #[trigger] self.connections@[b]).device_id by {
                        assert(self.connections@[a] == if a < i as int {
                            old_connections[a]
                        } else {
                            old_connections[a + 1]
                        });
                        assert(self.connections@[b] == if b < i as int {
                            old_connections[b]
                        } else {
                            old_connections[b + 1]
                        });
                    }
                }
                true
            },
            None => false,
        }
    }

    /// How many devices have a live connection.
    pub fn connection_count(&self) -> (r: usize)
        ensures
            r == self.connections@.len(),
    {
        self.connections.len()
    }
}

impl Default for ConnectionManager {
    /// An empty connection table.
    fn default() -> (r: ConnectionManager)
        ensures
            r.wf(),
            r.connections@.len() == 0,
    {
        ConnectionManager::new()
    }
}

} // verus!
