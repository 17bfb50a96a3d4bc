//! The connection-state classification and the shared cell that holds the
//! current one.
//!
//! Exactly one classification is current at any instant. The cell is written
//! by the reconciler alone and may be read concurrently by any number of
//! status queries; it is built on vstd's verified reader-writer lock, so a
//! reader always observes a whole, previously committed value.

use vstd::prelude::*;
use vstd::rwlock::RwLock;

verus! {

/// The daemon's classification of the host's outbound traffic.
#[derive(Clone, Copy, PartialEq, Eq, Structural, Debug)]
pub enum ConnectionState {
    /// No classification has been performed yet.
    Uninitialized,
    /// The last probe confirmed VPN egress.
    Connected,
    /// The last probe confirmed non-VPN egress.
    Disconnected,
    /// The last probe failed after exhausting its retries.
    Unknown,
}

impl ConnectionState {
    /// The textual name of the classification, as it appears in status
    /// queries and change notifications.
    pub open spec fn name_spec(self) -> Seq<char> {
        match self {
            ConnectionState::Uninitialized => "Uninitialized"@,
            ConnectionState::Connected => "Connected"@,
            ConnectionState::Disconnected => "Disconnected"@,
            ConnectionState::Unknown => "Unknown"@,
        }
    }

    /// Returns the classification's textual name.
    pub fn name(&self) -> (r: String)
        ensures
            r@ == self.name_spec(),
    {
        match self {
            ConnectionState::Uninitialized => "Uninitialized".to_owned(),
            ConnectionState::Connected => "Connected".to_owned(),
            ConnectionState::Disconnected => "Disconnected".to_owned(),
            ConnectionState::Unknown => "Unknown".to_owned(),
        }
    }
}

/// The shared cell holding the current classification.
///
/// Writes replace the value atomically; reads never observe a torn or
/// partially written one. The lock's invariant admits every classification,
/// so any task may read at any time, including while a reconciliation cycle
/// is in flight.
pub struct MullvadState {
    cell: RwLock<ConnectionState, spec_fn(ConnectionState) -> bool>,
}

impl MullvadState {
    /// The cell accepts every classification value.
    pub closed spec fn wf(self) -> bool {
        forall|v: ConnectionState| #[trigger] self.cell.inv(v)
    }

    /// Creates the cell, initialized to `Uninitialized`.
    pub fn new() -> (s: Self)
        ensures
            s.wf(),
    {
        MullvadState {
            cell: RwLock::new(
                ConnectionState::Uninitialized,
                Ghost(|v: ConnectionState| true),
            ),
        }
    }

    /// Returns the current classification. Never blocks on probe activity:
    /// it only takes the cell's read lock.
    pub fn vpn_connected(&self) -> ConnectionState {
        let handle = self.cell.acquire_read();
        let r = *handle.borrow();
        handle.release_read();
        r
    }

    /// Atomically replaces the current classification.
    pub fn store(&self, v: ConnectionState)
        requires
            self.wf(),
    {
        let (_, handle) = self.cell.acquire_write();
        handle.release_write(v);
    }

    /// The current classification's textual name, as a status query reports
    /// it.
    pub fn state_name(&self) -> (r: String)
        ensures
            exists|c: ConnectionState| r@ == c.name_spec(),
    {
        let c = self.vpn_connected();
        c.name()
    }
}

} // verus!
